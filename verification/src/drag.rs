//! The pointer side of orbiting a camera by dragging: a drag starts when
//! the button goes down, each pointer move during a drag yields the pair of
//! positions to rotate between, and a drag ends when the button goes up.
//! Positions are opaque to this module; the caller turns a pair into
//! rotation angles.
use vstd::prelude::*;

verus! {

/// State of an orbit drag over pointer positions of type `P`.
#[derive(Clone, Copy)]
pub struct OrbitDrag<P> {
    is_dragging: bool,
    last_mouse_pos: Option<P>,
}

/// The model of a drag: whether the button is held, and the last pointer
/// position seen.
pub struct DragModel<P> {
    pub dragging: bool,
    pub last: Option<P>,
}

/// The state in which no drag is going on and no position has been seen.
pub open spec fn drag_idle<P>() -> DragModel<P> {
    DragModel { dragging: false, last: None }
}

/// The state after the button goes down at `pos`.
pub open spec fn drag_begun<P>(pos: P) -> DragModel<P> {
    DragModel { dragging: true, last: Some(pos) }
}

/// The state after the pointer moves to `pos` from state `s`.
pub open spec fn drag_moved<P>(s: DragModel<P>, pos: P) -> DragModel<P> {
    DragModel { dragging: s.dragging, last: Some(pos) }
}

/// The rotation that a move to `pos` from state `s` asks for: from the last
/// position to `pos`, during a drag that has seen a position.
pub open spec fn drag_rotation<P>(s: DragModel<P>, pos: P) -> Option<(P, P)> {
    if s.dragging && s.last is Some {
        Some((s.last->0, pos))
    } else {
        None
    }
}

impl<P: Copy> OrbitDrag<P> {
    /// The model of this state.
    pub closed spec fn model(&self) -> DragModel<P> {
        DragModel { dragging: self.is_dragging, last: self.last_mouse_pos }
    }

    /// No drag, no position seen.
    pub fn new() -> (d: OrbitDrag<P>)
        ensures
            d.model() == drag_idle::<P>(),
            !d.model().dragging,
            d.model().last is None,
    {
        OrbitDrag { is_dragging: false, last_mouse_pos: None }
    }

    /// Whether a drag is going on.
    pub fn is_dragging(&self) -> (r: bool)
        ensures
            r == self.model().dragging,
    {
        self.is_dragging
    }

    /// The last pointer position seen.
    pub fn last_mouse_pos(&self) -> (r: Option<P>)
        ensures
            r == self.model().last,
    {
        self.last_mouse_pos
    }

    /// The button goes down at `pos`.
    pub fn begin_orbit_drag(&mut self, pos: P)
        ensures
            final(self).model() == drag_begun(pos),
            final(self).model().dragging,
            final(self).model().last == Some(pos),
    {
        self.is_dragging = true;
        self.last_mouse_pos = Some(pos);
    }

    /// The pointer moves to `pos`; returns the pair of positions to rotate
    /// between, if the move belongs to a drag.
    pub fn update_orbit_drag(&mut self, pos: P) -> (r: Option<(P, P)>)
        ensures
            r == drag_rotation(old(self).model(), pos),
            final(self).model() == drag_moved(old(self).model(), pos),
            final(self).model().dragging == old(self).model().dragging,
            final(self).model().last == Some(pos),
            old(self).model().dragging && old(self).model().last is Some ==> r == Some(
                (old(self).model().last->0, pos),
            ),
            !(old(self).model().dragging && old(self).model().last is Some) ==> r is None,
    {
        let rotation = if self.is_dragging {
            match self.last_mouse_pos {
                Some(last) => Some((last, pos)),
                None => None,
            }
        } else {
            None
        };
        self.last_mouse_pos = Some(pos);
        rotation
    }

    /// The button goes up: the drag ends and the last position is forgotten.
    pub fn end_orbit_drag(&mut self)
        ensures
            final(self).model() == drag_idle::<P>(),
            !final(self).model().dragging,
            final(self).model().last is None,
    {
        self.is_dragging = false;
        self.last_mouse_pos = None;
    }
}

/// A move right after the button goes down at `p` rotates from `p`.
pub proof fn lemma_first_move_rotates_from_press<P>(p: P, q: P)
    ensures
        drag_rotation(drag_begun(p), q) == Some((p, q)),
{
}

/// During a drag, each rotation starts where the previous move ended, so
/// the rotations of a drag chain up without gaps.
pub proof fn lemma_rotations_chain<P>(s: DragModel<P>, q1: P, q2: P)
    requires
        s.dragging,
    ensures
        drag_rotation(drag_moved(s, q1), q2) == Some((q1, q2)),
{
}

/// Outside a drag no move rotates, whatever positions come.
pub proof fn lemma_no_rotation_outside_drag<P>(s: DragModel<P>, q: P)
    requires
        !s.dragging,
    ensures
        drag_rotation(s, q) is None,
        !drag_moved(s, q).dragging,
{
}

/// After the button goes up, no move rotates until it goes down again,
/// however many moves come.
pub proof fn lemma_release_stops_rotation<P>(q1: P, q2: P, q3: P)
    ensures
        drag_rotation(drag_idle::<P>(), q1) is None,
        drag_rotation(drag_moved(drag_idle::<P>(), q1), q2) is None,
        drag_rotation(drag_moved(drag_moved(drag_idle::<P>(), q1), q2), q3) is None,
{
}

} // verus!
