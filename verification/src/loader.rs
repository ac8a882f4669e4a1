//! Bookkeeping for the two background sky loaders ("A" for the primary
//! sky, "B" for the secondary one): what each loader's messages do to its
//! status line and error, when to stop draining its queue, when to let go
//! of it, and what the panel shows for the pair.
use vstd::prelude::*;

verus! {

/// Which of the two sky textures a loader fills.
#[derive(Clone, Copy, PartialEq, Eq, Structural)]
pub enum HdrSlot {
    Primary,
    Secondary,
}

/// What one poll of a loader's queue gave.
pub enum LoaderEvent {
    /// The loader reports progress with a status line.
    Progress { status: String },
    /// The texture is ready; the caller uploads it.
    Done,
    /// Loading failed with this message.
    Failed(String),
    /// Nothing is waiting in the queue.
    Empty,
    /// The loader went away without a final message.
    Disconnected,
}

/// The state of one loader as the panel sees it.
pub struct HdrLoadState {
    pub slot: HdrSlot,
    /// Whether the loader's queue is still held and polled.
    pub receiving: bool,
    pub status: String,
    pub error: Option<String>,
}

/// What the panel shows for the two loaders.
pub enum HdrPanel {
    Loading { status: String },
    Failed(String),
    Ready { status: String },
}

/// The short name of a slot.
pub open spec fn slot_letter(slot: HdrSlot) -> Seq<char> {
    match slot {
        HdrSlot::Primary => "A"@,
        HdrSlot::Secondary => "B"@,
    }
}

/// Status line of a loader that has not started.
pub open spec fn waiting_status(slot: HdrSlot) -> Seq<char> {
    "Waiting for HDR "@ + slot_letter(slot) + " load"@
}

/// Status line of a loader that has just been started.
pub open spec fn starting_status(slot: HdrSlot) -> Seq<char> {
    "Starting HDR "@ + slot_letter(slot) + " loader..."@
}

/// Status line once the texture has been handed to the GPU.
pub open spec fn uploaded_status(slot: HdrSlot) -> Seq<char> {
    "Uploaded "@ + slot_letter(slot) + " to GPU"@
}

/// Error of a loader that went away without a final message.
pub open spec fn disconnected_error(slot: HdrSlot) -> Seq<char> {
    "background loader "@ + slot_letter(slot) + " disconnected"@
}

/// The view of an optional string.
pub open spec fn opt_view(s: Option<String>) -> Option<Seq<char>> {
    match s {
        Some(t) => Some(t@),
        None => None,
    }
}

/// Each status line names its own slot, spelled out: "A" for the primary
/// sky, "B" for the secondary one.
pub proof fn lemma_status_lines()
    ensures
        waiting_status(HdrSlot::Primary) == "Waiting for HDR A load"@,
        waiting_status(HdrSlot::Secondary) == "Waiting for HDR B load"@,
        starting_status(HdrSlot::Primary) == "Starting HDR A loader..."@,
        starting_status(HdrSlot::Secondary) == "Starting HDR B loader..."@,
        uploaded_status(HdrSlot::Primary) == "Uploaded A to GPU"@,
        uploaded_status(HdrSlot::Secondary) == "Uploaded B to GPU"@,
        disconnected_error(HdrSlot::Primary) == "background loader A disconnected"@,
        disconnected_error(HdrSlot::Secondary) == "background loader B disconnected"@,
{
    reveal_strlit("A");
    reveal_strlit("B");
    reveal_strlit("Waiting for HDR ");
    reveal_strlit(" load");
    reveal_strlit("Waiting for HDR A load");
    reveal_strlit("Waiting for HDR B load");
    reveal_strlit("Starting HDR ");
    reveal_strlit(" loader...");
    reveal_strlit("Starting HDR A loader...");
    reveal_strlit("Starting HDR B loader...");
    reveal_strlit("Uploaded ");
    reveal_strlit(" to GPU");
    reveal_strlit("Uploaded A to GPU");
    reveal_strlit("Uploaded B to GPU");
    reveal_strlit("background loader ");
    reveal_strlit(" disconnected");
    reveal_strlit("background loader A disconnected");
    reveal_strlit("background loader B disconnected");
    assert(waiting_status(HdrSlot::Primary) =~= "Waiting for HDR A load"@);
    assert(waiting_status(HdrSlot::Secondary) =~= "Waiting for HDR B load"@);
    assert(starting_status(HdrSlot::Primary) =~= "Starting HDR A loader..."@);
    assert(starting_status(HdrSlot::Secondary) =~= "Starting HDR B loader..."@);
    assert(uploaded_status(HdrSlot::Primary) =~= "Uploaded A to GPU"@);
    assert(uploaded_status(HdrSlot::Secondary) =~= "Uploaded B to GPU"@);
    assert(disconnected_error(HdrSlot::Primary) =~= "background loader A disconnected"@);
    assert(disconnected_error(HdrSlot::Secondary) =~= "background loader B disconnected"@);
}

/// Two different slots never share a status line or a disconnection error.
pub proof fn lemma_status_lines_distinct(a: HdrSlot, b: HdrSlot)
    requires
        a != b,
    ensures
        waiting_status(a) != waiting_status(b),
        starting_status(a) != starting_status(b),
        uploaded_status(a) != uploaded_status(b),
        disconnected_error(a) != disconnected_error(b),
{
    reveal_strlit("A");
    reveal_strlit("B");
    lemma_status_lines();
    reveal_strlit("Waiting for HDR A load");
    reveal_strlit("Waiting for HDR B load");
    reveal_strlit("Starting HDR A loader...");
    reveal_strlit("Starting HDR B loader...");
    reveal_strlit("Uploaded A to GPU");
    reveal_strlit("Uploaded B to GPU");
    reveal_strlit("background loader A disconnected");
    reveal_strlit("background loader B disconnected");
    assert("Waiting for HDR A load"@[16] != "Waiting for HDR B load"@[16]);
    assert("Starting HDR A loader..."@[13] != "Starting HDR B loader..."@[13]);
    assert("Uploaded A to GPU"@[9] != "Uploaded B to GPU"@[9]);
    assert("background loader A disconnected"@[18] != "background loader B disconnected"@[18]);
}

/// The short name of a slot.
pub fn slot_letter_str(slot: HdrSlot) -> (r: &'static str)
    ensures
        r@ == slot_letter(slot),
{
    proof {
        reveal_strlit("A");
        reveal_strlit("B");
    }
    match slot {
        HdrSlot::Primary => "A",
        HdrSlot::Secondary => "B",
    }
}

fn join3(a: &str, b: &str, c: &str) -> (r: String)
    ensures
        r@ == a@ + b@ + c@,
{
    String::from_str(a).concat(b).concat(c)
}

impl HdrLoadState {
    /// A loader that has not started.
    pub fn waiting(slot: HdrSlot) -> (s: HdrLoadState)
        ensures
            s.slot == slot,
            !s.receiving,
            s.status@ == waiting_status(slot),
            slot == HdrSlot::Primary ==> s.status@ == "Waiting for HDR A load"@,
            slot == HdrSlot::Secondary ==> s.status@ == "Waiting for HDR B load"@,
            s.error is None,
    {
        proof {
            lemma_status_lines();
        }
        HdrLoadState {
            slot,
            receiving: false,
            status: join3("Waiting for HDR ", slot_letter_str(slot), " load"),
            error: None,
        }
    }

    /// The loader has been started and its queue is held.
    pub fn start(&mut self)
        ensures
            final(self).slot == old(self).slot,
            final(self).receiving,
            final(self).status@ == starting_status(old(self).slot),
            old(self).slot == HdrSlot::Primary ==> final(self).status@ == "Starting HDR A loader..."@,
            old(self).slot == HdrSlot::Secondary ==> final(self).status@
                == "Starting HDR B loader..."@,
            final(self).error is None,
    {
        proof {
            lemma_status_lines();
        }
        self.receiving = true;
        self.status = join3("Starting HDR ", slot_letter_str(self.slot), " loader...");
        self.error = None;
    }

    /// Applies one poll result; returns whether to poll the queue again.
    /// The queue is to be let go of exactly when `receiving` turns false.
    pub fn apply(&mut self, event: LoaderEvent) -> (poll_again: bool)
        ensures
            final(self).slot == old(self).slot,
            poll_again == (event is Progress),
            match event {
                LoaderEvent::Progress { status } => {
                    &&& final(self).receiving == old(self).receiving
                    &&& final(self).status@ == status@
                    &&& opt_view(final(self).error) == opt_view(old(self).error)
                },
                LoaderEvent::Done => {
                    &&& !final(self).receiving
                    &&& final(self).status@ == uploaded_status(old(self).slot)
                    &&& old(self).slot == HdrSlot::Primary ==> final(self).status@
                        == "Uploaded A to GPU"@
                    &&& old(self).slot == HdrSlot::Secondary ==> final(self).status@
                        == "Uploaded B to GPU"@
                    &&& final(self).error is None
                },
                LoaderEvent::Failed(message) => {
                    &&& !final(self).receiving
                    &&& final(self).status@ == old(self).status@
                    &&& opt_view(final(self).error) == Some(message@)
                },
                LoaderEvent::Empty => {
                    &&& final(self).receiving == old(self).receiving
                    &&& final(self).status@ == old(self).status@
                    &&& opt_view(final(self).error) == opt_view(old(self).error)
                },
                LoaderEvent::Disconnected => {
                    &&& !final(self).receiving
                    &&& final(self).status@ == old(self).status@
                    &&& opt_view(final(self).error) == Some(disconnected_error(old(self).slot))
                    &&& old(self).slot == HdrSlot::Primary ==> opt_view(final(self).error) == Some(
                        "background loader A disconnected"@,
                    )
                    &&& old(self).slot == HdrSlot::Secondary ==> opt_view(final(self).error)
                        == Some("background loader B disconnected"@)
                },
            },
    {
        proof {
            lemma_status_lines();
        }
        match event {
            LoaderEvent::Progress { status } => {
                self.status = status;
                true
            },
            LoaderEvent::Done => {
                self.status = join3("Uploaded ", slot_letter_str(self.slot), " to GPU");
                self.error = None;
                self.receiving = false;
                false
            },
            LoaderEvent::Failed(message) => {
                self.error = Some(message);
                self.receiving = false;
                false
            },
            LoaderEvent::Empty => false,
            LoaderEvent::Disconnected => {
                self.error = Some(
                    join3("background loader ", slot_letter_str(self.slot), " disconnected"),
                );
                self.receiving = false;
                false
            },
        }
    }
}

/// What the panel shows: loading while either loader is still held (with
/// both status lines), else the first loader's error, else the second's,
/// else both status lines as ready.
pub open spec fn panel_model(primary: HdrLoadState, secondary: HdrLoadState) -> (
    int,
    Seq<char>,
) {
    if primary.receiving || secondary.receiving {
        (0, "HDR A: "@ + primary.status@ + " | HDR B: "@ + secondary.status@)
    } else if primary.error is Some {
        (1, primary.error->0@)
    } else if secondary.error is Some {
        (1, secondary.error->0@)
    } else {
        (2, "A: "@ + primary.status@ + " | B: "@ + secondary.status@)
    }
}

/// The kind and text of a panel, in the terms of `panel_model`.
pub open spec fn panel_view(panel: HdrPanel) -> (int, Seq<char>) {
    match panel {
        HdrPanel::Loading { status } => (0, status@),
        HdrPanel::Failed(message) => (1, message@),
        HdrPanel::Ready { status } => (2, status@),
    }
}

/// The panel shows loading exactly while either loader still holds its
/// queue; once neither does, an error of either loader wins over the ready
/// state, and the primary loader's error wins over the secondary's.
pub proof fn lemma_panel_precedence(primary: HdrLoadState, secondary: HdrLoadState)
    ensures
        (panel_model(primary, secondary).0 == 0) == (primary.receiving || secondary.receiving),
        (panel_model(primary, secondary).0 == 1) == (!primary.receiving && !secondary.receiving && (
        primary.error is Some || secondary.error is Some)),
        (panel_model(primary, secondary).0 == 2) == (!primary.receiving && !secondary.receiving
            && primary.error is None && secondary.error is None),
        !primary.receiving && !secondary.receiving && primary.error is Some ==> panel_model(
            primary,
            secondary,
        ).1 == primary.error->0@,
        primary.receiving || secondary.receiving ==> panel_model(primary, secondary).1 == "HDR A: "@
            + primary.status@ + " | HDR B: "@ + secondary.status@,
{
}

/// The panel for the two loaders.
pub fn hdr_panel(primary: &HdrLoadState, secondary: &HdrLoadState) -> (panel: HdrPanel)
    ensures
        panel_view(panel) == panel_model(*primary, *secondary),
        match panel {
            HdrPanel::Loading { status } => {
                &&& primary.receiving || secondary.receiving
                &&& status@ == "HDR A: "@ + primary.status@ + " | HDR B: "@ + secondary.status@
            },
            HdrPanel::Failed(message) => {
                &&& !primary.receiving && !secondary.receiving
                &&& if primary.error is Some {
                    message@ == primary.error->0@
                } else {
                    secondary.error is Some && message@ == secondary.error->0@
                }
            },
            HdrPanel::Ready { status } => {
                &&& !primary.receiving && !secondary.receiving
                &&& primary.error is None && secondary.error is None
                &&& status@ == "A: "@ + primary.status@ + " | B: "@ + secondary.status@
            },
        },
{
    if primary.receiving || secondary.receiving {
        let mut status = String::from_str("HDR A: ");
        status.append(primary.status.as_str());
        status.append(" | HDR B: ");
        status.append(secondary.status.as_str());
        HdrPanel::Loading { status }
    } else if let Some(message) = &primary.error {
        HdrPanel::Failed(message.clone())
    } else if let Some(message) = &secondary.error {
        HdrPanel::Failed(message.clone())
    } else {
        let mut status = String::from_str("A: ");
        status.append(primary.status.as_str());
        status.append(" | B: ");
        status.append(secondary.status.as_str());
        HdrPanel::Ready { status }
    }
}

} // verus!
