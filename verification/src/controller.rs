//! The entry controller: owns the tracked entry and the pending description,
//! and turns user intents into state transitions, asking the caller to run a
//! gateway call where one is needed.
//!
//! Driving the controller is a two-step protocol per intent: `plan` names the
//! gateway call the intent requires in the current state (if any), the caller
//! performs it, and `apply` carries out the transition with the outcome.

use vstd::prelude::*;

use crate::entry::{display_of, EntryView, TrackedEntry};
use crate::gateway::{CallView, CommandOutcome, GatewayCall, OutcomeView};
use crate::text::{lossy_decode, lossy_decoded, str_is_blank, trim_bytes, trimmed_bytes, trimmed_chars};

verus! {

/// A discrete user request fed into the controller.
#[derive(Debug, PartialEq, Eq)]
pub enum Intent {
    /// Re-read the running entry from the external tool.
    Refresh,
    /// Replace the in-progress description text.
    EditDescription(String),
    /// Submit the pending description as a new entry.
    Start,
    /// Clock out whatever is running.
    Stop,
}

/// The mathematical value of an [`Intent`].
pub enum IntentView {
    Refresh,
    EditDescription(Seq<char>),
    Start,
    Stop,
}

impl View for Intent {
    type V = IntentView;

    open spec fn view(&self) -> IntentView {
        match self {
            Intent::Refresh => IntentView::Refresh,
            Intent::EditDescription(t) => IntentView::EditDescription(t@),
            Intent::Start => IntentView::Start,
            Intent::Stop => IntentView::Stop,
        }
    }
}

/// Holds the tracked entry and the pending description; all mutation goes
/// through [`Controller::apply`].
pub struct Controller {
    entry: TrackedEntry,
    pending: Option<String>,
}

/// The mathematical state of a [`Controller`].
pub struct ControllerView {
    /// What is known about the running entry.
    pub entry: EntryView,
    /// The in-progress text for a not-yet-submitted start, `None` when no
    /// edit is in progress.
    pub pending: Option<Seq<char>>,
}

impl View for Controller {
    type V = ControllerView;

    closed spec fn view(&self) -> ControllerView {
        ControllerView {
            entry: self.entry@,
            pending: match self.pending {
                Some(d) => Some(d@),
                None => None,
            },
        }
    }
}

/// The view of an optional outcome, as handed to [`Controller::apply`].
pub open spec fn outcome_of(o: Option<CommandOutcome>) -> Option<OutcomeView> {
    match o {
        Some(c) => Some(c@),
        None => None,
    }
}

/// The view of the optional call that [`Controller::plan`] returns.
pub open spec fn call_of(c: Option<GatewayCall>) -> Option<CallView> {
    match c {
        Some(g) => Some(g@),
        None => None,
    }
}

/// The entry state a fetch outcome maps to: trimmed non-empty output is the
/// running entry's description, empty output means nothing runs, a non-zero
/// exit surfaces as a tool error and a spawn failure as a fetch error.
pub open spec fn fetched_entry(o: OutcomeView) -> EntryView {
    match o {
        OutcomeView::Success(out) => if trimmed_bytes(out).len() == 0 {
            EntryView::NoEntry
        } else {
            EntryView::Active(lossy_decoded(trimmed_bytes(out)))
        },
        OutcomeView::ProcessFailure(err) => EntryView::ToolError(lossy_decoded(err)),
        OutcomeView::SpawnFailure(m) => EntryView::FetchError(m),
    }
}

/// The pending text, empty when none is pending.
pub open spec fn pending_text(s: ControllerView) -> Seq<char> {
    match s.pending {
        Some(d) => d,
        None => Seq::empty(),
    }
}

/// Whether a start may be submitted: a description is pending and is not
/// blank.
pub open spec fn start_ready(s: ControllerView) -> bool {
    match s.pending {
        Some(d) => trimmed_chars(d).len() != 0,
        None => false,
    }
}

/// Which gateway call an intent needs in state `s`: a refresh always fetches,
/// a stop always clocks out, a ready start clocks in with the pending text,
/// and editing, like a start with nothing to submit, calls nothing.
pub open spec fn planned_call(s: ControllerView, i: IntentView) -> Option<CallView> {
    match i {
        IntentView::Refresh => Some(CallView::FetchCurrent),
        IntentView::EditDescription(_) => None,
        IntentView::Start => if start_ready(s) {
            Some(CallView::StartEntry(pending_text(s)))
        } else {
            None
        },
        IntentView::Stop => Some(CallView::StopEntry),
    }
}

/// The state after an intent, given the outcome of its planned call.
///
/// A refresh takes its entry from the fetch outcome and clears the pending
/// text; without an outcome there is nothing to apply and the state stands.
/// Editing stores the text verbatim. A ready start optimistically shows the
/// pending text as active whatever the outcome was, and a start with nothing
/// to submit changes nothing. A stop always clears both fields, again
/// whatever the outcome was.
pub open spec fn stepped(s: ControllerView, i: IntentView, o: Option<OutcomeView>) -> ControllerView {
    match i {
        IntentView::Refresh => match o {
            Some(ov) => ControllerView { entry: fetched_entry(ov), pending: None },
            None => s,
        },
        IntentView::EditDescription(t) => ControllerView { entry: s.entry, pending: Some(t) },
        IntentView::Start => if start_ready(s) {
            ControllerView { entry: EntryView::Active(pending_text(s)), pending: None }
        } else {
            s
        },
        IntentView::Stop => ControllerView { entry: EntryView::NoEntry, pending: None },
    }
}

/// The state a controller is constructed in, from the outcome of its eager
/// first fetch: the fetched entry, with the pending text seeded from that
/// entry's description, or empty.
pub open spec fn initialized(o: OutcomeView) -> ControllerView {
    let e = fetched_entry(o);
    ControllerView {
        entry: e,
        pending: Some(
            match e {
                EntryView::Active(d) => d,
                _ => Seq::empty(),
            },
        ),
    }
}

/// The entry state read from one fetch outcome.
pub fn classify_fetch(outcome: &CommandOutcome) -> (r: TrackedEntry)
    ensures
        r@ == fetched_entry(outcome@),
{
    match outcome {
        CommandOutcome::Success(out) => {
            let t = trim_bytes(out.as_slice());
            if t.len() == 0 {
                TrackedEntry::NoEntry
            } else {
                TrackedEntry::Active(lossy_decode(t.as_slice()))
            }
        },
        CommandOutcome::ProcessFailure(err) => TrackedEntry::ToolError(
            lossy_decode(err.as_slice()),
        ),
        CommandOutcome::SpawnFailure(m) => TrackedEntry::FetchError(m.clone()),
    }
}

impl Controller {
    /// Constructs the controller from the outcome of its eager first fetch,
    /// so that the first observable state is already the result of a live
    /// read.
    pub fn new(fetch_outcome: CommandOutcome) -> (c: Controller)
        ensures
            c@ == initialized(fetch_outcome@),
    {
        let entry = classify_fetch(&fetch_outcome);
        let pending = match &entry {
            TrackedEntry::Active(d) => Some(d.clone()),
            _ => Some(String::new()),
        };
        Controller { entry, pending }
    }

    /// The gateway call that `intent` needs in the current state, or `None`
    /// when the intent is handled without touching the external tool.
    pub fn plan(&self, intent: &Intent) -> (r: Option<GatewayCall>)
        ensures
            call_of(r) == planned_call(self@, intent@),
    {
        match intent {
            Intent::Refresh => Some(GatewayCall::FetchCurrent),
            Intent::EditDescription(_) => None,
            Intent::Start => match &self.pending {
                Some(d) => if str_is_blank(d.as_str()) {
                    None
                } else {
                    Some(GatewayCall::StartEntry(d.clone()))
                },
                None => None,
            },
            Intent::Stop => Some(GatewayCall::StopEntry),
        }
    }

    /// Carries out the transition for `intent`, with `outcome` the result of
    /// the planned gateway call where there was one.
    pub fn apply(&mut self, intent: Intent, outcome: Option<CommandOutcome>)
        ensures
            final(self)@ == stepped(old(self)@, intent@, outcome_of(outcome)),
    {
        match intent {
            Intent::Refresh => match outcome {
                Some(o) => {
                    self.entry = classify_fetch(&o);
                    self.pending = None;
                },
                None => {},
            },
            Intent::EditDescription(t) => {
                self.pending = Some(t);
            },
            Intent::Start => {
                let submitted: Option<String> = match &self.pending {
                    Some(d) => if str_is_blank(d.as_str()) {
                        None
                    } else {
                        Some(d.clone())
                    },
                    None => None,
                };
                if let Some(d) = submitted {
                    self.entry = TrackedEntry::Active(d);
                    self.pending = None;
                }
            },
            Intent::Stop => {
                self.entry = TrackedEntry::NoEntry;
                self.pending = None;
            },
        }
    }

    /// The single line the display layer shows for the current state.
    pub fn display_text(&self) -> (r: String)
        ensures
            r@ == display_of(self@.entry),
    {
        self.entry.display_text()
    }

    /// A copy of the pending description, for rendering the edit box.
    pub fn pending_description(&self) -> (r: Option<String>)
        ensures
            match r {
                Some(d) => self@.pending == Some(d@),
                None => self@.pending is None,
            },
    {
        match &self.pending {
            Some(d) => Some(d.clone()),
            None => None,
        }
    }

    /// The current entry state itself.
    pub fn current_entry(&self) -> (r: &TrackedEntry)
        ensures
            r@ == self@.entry,
    {
        &self.entry
    }
}

/// A refresh is idempotent: issuing it a second time with the same fetch
/// outcome leaves the state exactly where the first one put it.
pub proof fn lemma_refresh_idempotent(s: ControllerView, o: OutcomeView)
    ensures
        stepped(stepped(s, IntentView::Refresh, Some(o)), IntentView::Refresh, Some(o)) == stepped(
            s,
            IntentView::Refresh,
            Some(o),
        ),
{
}

/// A ready start is optimistic: whatever the gateway outcome was, the pending
/// text becomes the active entry and the pending text is cleared.
pub proof fn lemma_start_optimistic(s: ControllerView, o: OutcomeView)
    requires
        start_ready(s),
    ensures
        stepped(s, IntentView::Start, Some(o)) == (ControllerView {
            entry: EntryView::Active(pending_text(s)),
            pending: None,
        }),
{
}

/// A start never reads its outcome: any two outcomes lead to the same state.
pub proof fn lemma_start_ignores_outcome(
    s: ControllerView,
    o1: Option<OutcomeView>,
    o2: Option<OutcomeView>,
)
    ensures
        stepped(s, IntentView::Start, o1) == stepped(s, IntentView::Start, o2),
{
}

/// A stop always clears: from any state and whatever the gateway outcome
/// was, no entry is tracked and no description is pending afterwards.
pub proof fn lemma_stop_clears(s: ControllerView, o: Option<OutcomeView>)
    ensures
        stepped(s, IntentView::Stop, o) == (ControllerView {
            entry: EntryView::NoEntry,
            pending: None,
        }),
{
}

/// Without a pending description a start is a complete no-op: it plans no
/// gateway call and leaves the state untouched.
pub proof fn lemma_start_noop_without_pending(s: ControllerView, o: Option<OutcomeView>)
    requires
        s.pending is None,
    ensures
        planned_call(s, IntentView::Start) is None,
        stepped(s, IntentView::Start, o) == s,
{
}

} // verus!
