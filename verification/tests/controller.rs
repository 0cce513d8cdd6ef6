use time_tracklet::controller::{Controller, Intent};
use time_tracklet::entry::TrackedEntry;
use time_tracklet::gateway::{CommandOutcome, GatewayCall};

/// A gateway stand-in that returns a fixed outcome and counts how often it
/// was asked to run.
struct StubGateway {
    outcome: CommandOutcome,
    calls: usize,
}

impl StubGateway {
    fn new(outcome: CommandOutcome) -> StubGateway {
        StubGateway { outcome, calls: 0 }
    }

    fn run(&mut self, _call: &GatewayCall) -> CommandOutcome {
        self.calls += 1;
        clone_outcome(&self.outcome)
    }
}

fn clone_outcome(o: &CommandOutcome) -> CommandOutcome {
    match o {
        CommandOutcome::Success(b) => CommandOutcome::Success(b.clone()),
        CommandOutcome::ProcessFailure(b) => CommandOutcome::ProcessFailure(b.clone()),
        CommandOutcome::SpawnFailure(m) => CommandOutcome::SpawnFailure(m.clone()),
    }
}

/// Feeds one intent through the plan/apply protocol against a stub gateway.
fn issue(controller: &mut Controller, gateway: &mut StubGateway, intent: Intent) {
    let outcome = controller.plan(&intent).map(|call| gateway.run(&call));
    controller.apply(intent, outcome);
}

#[test]
fn refresh_idempotent_same_success() {
    let mut gateway = StubGateway::new(CommandOutcome::Success(b" Task A \n".to_vec()));
    let mut controller = Controller::new(CommandOutcome::Success(b"".to_vec()));
    issue(&mut controller, &mut gateway, Intent::Refresh);
    assert_eq!(
        controller.current_entry(),
        &TrackedEntry::Active("Task A".to_string())
    );
    issue(&mut controller, &mut gateway, Intent::Refresh);
    assert_eq!(
        controller.current_entry(),
        &TrackedEntry::Active("Task A".to_string())
    );
    assert_eq!(gateway.calls, 2);
}

#[test]
fn whitespace_normalization_trims_output() {
    let controller = Controller::new(CommandOutcome::Success(b"  Write spec  \n".to_vec()));
    assert_eq!(
        controller.current_entry(),
        &TrackedEntry::Active("Write spec".to_string())
    );
}

#[test]
fn whitespace_normalization_empty_output() {
    let controller = Controller::new(CommandOutcome::Success(b"".to_vec()));
    assert_eq!(controller.current_entry(), &TrackedEntry::NoEntry);
}

#[test]
fn whitespace_normalization_blank_output() {
    let controller = Controller::new(CommandOutcome::Success(b"   ".to_vec()));
    assert_eq!(controller.current_entry(), &TrackedEntry::NoEntry);
    assert_ne!(
        controller.current_entry(),
        &TrackedEntry::Active("".to_string())
    );
}

#[test]
fn optimistic_start_swallows_process_failure() {
    let mut gateway = StubGateway::new(CommandOutcome::ProcessFailure(b"boom".to_vec()));
    let mut controller = Controller::new(CommandOutcome::Success(b"".to_vec()));
    issue(
        &mut controller,
        &mut gateway,
        Intent::EditDescription("Design review".to_string()),
    );
    assert_eq!(
        controller.pending_description(),
        Some("Design review".to_string())
    );
    issue(&mut controller, &mut gateway, Intent::Start);
    assert_eq!(gateway.calls, 1);
    assert_eq!(
        controller.current_entry(),
        &TrackedEntry::Active("Design review".to_string())
    );
    assert_eq!(controller.pending_description(), None);
}

#[test]
fn optimistic_start_swallows_spawn_failure() {
    let mut gateway = StubGateway::new(CommandOutcome::SpawnFailure("gone".to_string()));
    let mut controller = Controller::new(CommandOutcome::Success(b"".to_vec()));
    issue(
        &mut controller,
        &mut gateway,
        Intent::EditDescription("Design review".to_string()),
    );
    issue(&mut controller, &mut gateway, Intent::Start);
    assert_eq!(
        controller.current_entry(),
        &TrackedEntry::Active("Design review".to_string())
    );
    assert_eq!(controller.pending_description(), None);
}

#[test]
fn stop_always_clears() {
    let outcomes = [
        CommandOutcome::Success(b"Running task".to_vec()),
        CommandOutcome::Success(b"".to_vec()),
        CommandOutcome::ProcessFailure(b"bad exit".to_vec()),
        CommandOutcome::SpawnFailure("missing".to_string()),
    ];
    for fetched in &outcomes {
        for stop_result in &outcomes {
            let mut gateway = StubGateway::new(clone_outcome(stop_result));
            let mut controller = Controller::new(clone_outcome(fetched));
            issue(&mut controller, &mut gateway, Intent::Stop);
            assert_eq!(gateway.calls, 1);
            assert_eq!(controller.current_entry(), &TrackedEntry::NoEntry);
            assert_eq!(controller.pending_description(), None);
        }
    }
}

#[test]
fn start_noop_without_pending() {
    let mut gateway = StubGateway::new(CommandOutcome::Success(b"".to_vec()));
    let mut controller = Controller::new(CommandOutcome::Success(b"Running task".to_vec()));
    // A stop clears the pending description seeded at construction.
    issue(&mut controller, &mut gateway, Intent::Stop);
    assert_eq!(gateway.calls, 1);
    assert_eq!(controller.pending_description(), None);
    issue(&mut controller, &mut gateway, Intent::Start);
    assert_eq!(gateway.calls, 1);
    assert_eq!(controller.current_entry(), &TrackedEntry::NoEntry);
    assert_eq!(controller.pending_description(), None);
}

#[test]
fn start_noop_with_blank_pending() {
    let mut gateway = StubGateway::new(CommandOutcome::Success(b"".to_vec()));
    let mut controller = Controller::new(CommandOutcome::Success(b"".to_vec()));
    issue(
        &mut controller,
        &mut gateway,
        Intent::EditDescription("  \t ".to_string()),
    );
    issue(&mut controller, &mut gateway, Intent::Start);
    assert_eq!(gateway.calls, 0);
    assert_eq!(controller.current_entry(), &TrackedEntry::NoEntry);
    assert_eq!(controller.pending_description(), Some("  \t ".to_string()));
}

#[test]
fn start_plans_pending_text_verbatim() {
    let mut gateway = StubGateway::new(CommandOutcome::Success(b"".to_vec()));
    let mut controller = Controller::new(CommandOutcome::Success(b"".to_vec()));
    issue(
        &mut controller,
        &mut gateway,
        Intent::EditDescription(" Deep work ".to_string()),
    );
    let planned = controller.plan(&Intent::Start);
    assert_eq!(
        planned,
        Some(GatewayCall::StartEntry(" Deep work ".to_string()))
    );
}

#[test]
fn fetch_spawn_failure_classification() {
    let mut gateway = StubGateway::new(CommandOutcome::SpawnFailure("no such file".to_string()));
    let mut controller = Controller::new(CommandOutcome::Success(b"".to_vec()));
    issue(&mut controller, &mut gateway, Intent::Refresh);
    assert_eq!(
        controller.current_entry(),
        &TrackedEntry::FetchError("no such file".to_string())
    );
    assert_eq!(controller.display_text(), "[FetchErr] no such file");
}

#[test]
fn fetch_process_failure_classification() {
    let mut gateway = StubGateway::new(CommandOutcome::ProcessFailure(
        b"permission denied".to_vec(),
    ));
    let mut controller = Controller::new(CommandOutcome::Success(b"".to_vec()));
    issue(&mut controller, &mut gateway, Intent::Refresh);
    assert_eq!(
        controller.current_entry(),
        &TrackedEntry::ToolError("permission denied".to_string())
    );
    assert_eq!(controller.display_text(), "[CliErr] permission denied");
}

#[test]
fn initialization_reflects_live_fetch() {
    let controller = Controller::new(CommandOutcome::Success(b"Standup".to_vec()));
    assert_eq!(controller.display_text(), "[Task] Standup");
    assert_eq!(controller.pending_description(), Some("Standup".to_string()));
}

#[test]
fn initialization_seeds_empty_pending_without_entry() {
    let controller = Controller::new(CommandOutcome::Success(b" \n".to_vec()));
    assert_eq!(controller.display_text(), "- NO CURRENT TASK -");
    assert_eq!(controller.pending_description(), Some("".to_string()));
}

#[test]
fn edit_description_stored_verbatim() {
    let mut gateway = StubGateway::new(CommandOutcome::Success(b"".to_vec()));
    let mut controller = Controller::new(CommandOutcome::Success(b"Old task".to_vec()));
    issue(
        &mut controller,
        &mut gateway,
        Intent::EditDescription("  half-typed ".to_string()),
    );
    assert_eq!(gateway.calls, 0);
    assert_eq!(
        controller.pending_description(),
        Some("  half-typed ".to_string())
    );
    assert_eq!(
        controller.current_entry(),
        &TrackedEntry::Active("Old task".to_string())
    );
}

#[test]
fn refresh_clears_pending() {
    let mut gateway = StubGateway::new(CommandOutcome::Success(b"Fresh".to_vec()));
    let mut controller = Controller::new(CommandOutcome::Success(b"Old task".to_vec()));
    issue(
        &mut controller,
        &mut gateway,
        Intent::EditDescription("draft".to_string()),
    );
    issue(&mut controller, &mut gateway, Intent::Refresh);
    assert_eq!(
        controller.current_entry(),
        &TrackedEntry::Active("Fresh".to_string())
    );
    assert_eq!(controller.pending_description(), None);
}

#[test]
fn invalid_utf8_output_is_replaced_not_rejected() {
    let controller = Controller::new(CommandOutcome::Success(vec![0xff, b'A']));
    assert_eq!(
        controller.current_entry(),
        &TrackedEntry::Active("\u{FFFD}A".to_string())
    );
    assert_eq!(controller.display_text(), "[Task] \u{FFFD}A");
}
