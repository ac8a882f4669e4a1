use egone::drag::OrbitDrag;

#[test]
fn new_drag_is_idle() {
    let drag: OrbitDrag<(i32, i32)> = OrbitDrag::new();
    assert!(!drag.is_dragging());
    assert_eq!(drag.last_mouse_pos(), None);
}

#[test]
fn moves_without_press_only_track_position() {
    let mut drag = OrbitDrag::new();
    assert_eq!(drag.update_orbit_drag((3, 4)), None);
    assert_eq!(drag.last_mouse_pos(), Some((3, 4)));
    assert!(!drag.is_dragging());
}

#[test]
fn drag_yields_chained_rotations() {
    let mut drag = OrbitDrag::new();
    drag.begin_orbit_drag((10, 10));
    assert!(drag.is_dragging());
    assert_eq!(drag.update_orbit_drag((12, 9)), Some(((10, 10), (12, 9))));
    assert_eq!(drag.update_orbit_drag((15, 9)), Some(((12, 9), (15, 9))));
    assert_eq!(drag.last_mouse_pos(), Some((15, 9)));
}

#[test]
fn release_stops_rotation() {
    let mut drag = OrbitDrag::new();
    drag.begin_orbit_drag((0, 0));
    drag.end_orbit_drag();
    assert!(!drag.is_dragging());
    assert_eq!(drag.last_mouse_pos(), None);
    assert_eq!(drag.update_orbit_drag((5, 5)), None);
    assert_eq!(drag.last_mouse_pos(), Some((5, 5)));
}

#[test]
fn press_after_release_starts_a_new_drag() {
    let mut drag = OrbitDrag::new();
    drag.begin_orbit_drag((1, 1));
    drag.end_orbit_drag();
    drag.begin_orbit_drag((7, 7));
    assert_eq!(drag.update_orbit_drag((8, 6)), Some(((7, 7), (8, 6))));
}
