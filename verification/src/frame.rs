//! Decisions of the render loop that are independent of the windowing and
//! GPU libraries: when to draw, when to refresh the process statistics,
//! which window sizes to act on and what extent the surface gets.
use vstd::prelude::*;

verus! {

/// Minimum time between two refreshes of the process statistics, in
/// nanoseconds.
pub const STATS_REFRESH_INTERVAL_NS: u128 = 500_000_000;

/// What the event loop does while it waits for events.
#[derive(Clone, Copy, PartialEq, Eq, Structural)]
pub enum FrameAction {
    /// Nothing is drawn; wait for the next event however long it takes.
    Sleep,
    /// Ask for a redraw now, then wake again one frame interval from now.
    RedrawNow,
    /// Too early for a frame: wake when the frame interval since the last
    /// frame has passed.
    WaitForNextFrame,
}

/// Frames are drawn only while the window is active and visible.
pub fn can_render(is_active: bool, is_occluded: bool) -> (r: bool)
    ensures
        r == (is_active && !is_occluded),
{
    is_active && !is_occluded
}

/// The action for a loop that may draw (`can_render`) and whose last frame
/// was `elapsed_ns` ago, with `interval_ns` between frames.
pub fn frame_action(can_render: bool, elapsed_ns: u128, interval_ns: u128) -> (a: FrameAction)
    ensures
        a == if !can_render {
            FrameAction::Sleep
        } else if elapsed_ns >= interval_ns {
            FrameAction::RedrawNow
        } else {
            FrameAction::WaitForNextFrame
        },
{
    if !can_render {
        FrameAction::Sleep
    } else if elapsed_ns >= interval_ns {
        FrameAction::RedrawNow
    } else {
        FrameAction::WaitForNextFrame
    }
}

/// Whether the process statistics, last refreshed `elapsed_ns` ago, are due
/// for a refresh.
pub fn stats_refresh_due(elapsed_ns: u128) -> (r: bool)
    ensures
        r == (elapsed_ns >= STATS_REFRESH_INTERVAL_NS),
        r == (elapsed_ns >= 500_000_000),
{
    elapsed_ns >= STATS_REFRESH_INTERVAL_NS
}

/// A resize is acted on only when both sides are non-zero.
pub fn resize_accepted(width: u32, height: u32) -> (r: bool)
    ensures
        r == (width > 0 && height > 0),
{
    width > 0 && height > 0
}

/// Extent of a render surface: a zero side is raised to one.
pub fn surface_extent(width: u32, height: u32) -> (r: (u32, u32))
    ensures
        r.0 == if width == 0 { 1 } else { width },
        r.1 == if height == 0 { 1 } else { height },
{
    (if width == 0 { 1 } else { width }, if height == 0 { 1 } else { height })
}

} // verus!
