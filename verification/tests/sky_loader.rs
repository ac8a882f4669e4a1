use egone::loader::{hdr_panel, HdrLoadState, HdrPanel, HdrSlot, LoaderEvent};

fn started(slot: HdrSlot) -> HdrLoadState {
    let mut state = HdrLoadState::waiting(slot);
    state.start();
    state
}

#[test]
fn waiting_and_starting_status_lines() {
    let a = HdrLoadState::waiting(HdrSlot::Primary);
    assert_eq!(a.status, "Waiting for HDR A load");
    assert!(!a.receiving);
    assert!(a.error.is_none());
    let b = started(HdrSlot::Secondary);
    assert_eq!(b.status, "Starting HDR B loader...");
    assert!(b.receiving);
}

#[test]
fn progress_updates_status_and_keeps_polling() {
    let mut a = started(HdrSlot::Primary);
    let again = a.apply(LoaderEvent::Progress { status: "Decoding HDR...".to_string() });
    assert!(again);
    assert!(a.receiving);
    assert_eq!(a.status, "Decoding HDR...");
}

#[test]
fn done_marks_upload_and_releases_queue() {
    let mut a = started(HdrSlot::Primary);
    a.error = Some("old".to_string());
    assert!(!a.apply(LoaderEvent::Done));
    assert!(!a.receiving);
    assert_eq!(a.status, "Uploaded A to GPU");
    assert!(a.error.is_none());
}

#[test]
fn failure_records_message() {
    let mut b = started(HdrSlot::Secondary);
    assert!(!b.apply(LoaderEvent::Failed("bad file".to_string())));
    assert!(!b.receiving);
    assert_eq!(b.error.as_deref(), Some("bad file"));
    assert_eq!(b.status, "Starting HDR B loader...");
}

#[test]
fn empty_queue_stops_polling_but_keeps_queue() {
    let mut a = started(HdrSlot::Primary);
    assert!(!a.apply(LoaderEvent::Empty));
    assert!(a.receiving);
}

#[test]
fn disconnect_is_an_error() {
    let mut b = started(HdrSlot::Secondary);
    assert!(!b.apply(LoaderEvent::Disconnected));
    assert!(!b.receiving);
    assert_eq!(b.error.as_deref(), Some("background loader B disconnected"));
}

#[test]
fn panel_shows_loading_while_any_loader_runs() {
    let mut a = started(HdrSlot::Primary);
    let b = started(HdrSlot::Secondary);
    a.apply(LoaderEvent::Done);
    match hdr_panel(&a, &b) {
        HdrPanel::Loading { status } => {
            assert_eq!(status, "HDR A: Uploaded A to GPU | HDR B: Starting HDR B loader...")
        }
        _ => panic!("expected loading"),
    }
}

#[test]
fn panel_shows_first_error_then_second() {
    let mut a = started(HdrSlot::Primary);
    let mut b = started(HdrSlot::Secondary);
    a.apply(LoaderEvent::Failed("a broke".to_string()));
    b.apply(LoaderEvent::Disconnected);
    match hdr_panel(&a, &b) {
        HdrPanel::Failed(message) => assert_eq!(message, "a broke"),
        _ => panic!("expected failure"),
    }
    let mut a2 = started(HdrSlot::Primary);
    a2.apply(LoaderEvent::Done);
    match hdr_panel(&a2, &b) {
        HdrPanel::Failed(message) => assert_eq!(message, "background loader B disconnected"),
        _ => panic!("expected failure"),
    }
}

#[test]
fn panel_shows_ready_when_both_done() {
    let mut a = started(HdrSlot::Primary);
    let mut b = started(HdrSlot::Secondary);
    a.apply(LoaderEvent::Done);
    b.apply(LoaderEvent::Done);
    match hdr_panel(&a, &b) {
        HdrPanel::Ready { status } => {
            assert_eq!(status, "A: Uploaded A to GPU | B: Uploaded B to GPU")
        }
        _ => panic!("expected ready"),
    }
}
