use wasmrun::guard::{
    is_server_running, record_path, record_text, recorded_pid, stop_existing_server, GuardAction,
    GuardError, GuardEvent, GuardState,
};

const ALIVE: &str = "    PID TTY          TIME CMD\n   4242 pts/0    00:00:01 wasmrun\n";
const GONE: &str = "    PID TTY          TIME CMD\n";

fn probed(exit_success: bool, stdout: &str) -> GuardEvent {
    GuardEvent::Probed { exit_success, stdout: stdout.to_string() }
}

fn run(events: Vec<GuardEvent>) -> (GuardState, Vec<GuardAction>) {
    let mut state = GuardState::start();
    let mut actions = vec![state.request()];
    for event in events {
        let (next, action) = stop_existing_server(state, event);
        assert_eq!(action, next.request());
        state = next;
        actions.push(action);
    }
    (state, actions)
}

#[test]
fn record_lies_at_its_fixed_place() {
    assert_eq!(record_path(), "/tmp/chakra_server.pid");
}

#[test]
fn record_holds_the_process_id_in_base_ten() {
    assert_eq!(record_text(4242), "4242");
    assert_eq!(record_text(0), "0");
    assert_eq!(recorded_pid("4242"), Some(4242));
    assert_eq!(recorded_pid("4242\n"), Some(4242));
    assert_eq!(recorded_pid("not a pid"), None);
    assert_eq!(recorded_pid(""), None);
    for pid in [1u32, 300, 99999, u32::MAX] {
        assert_eq!(recorded_pid(&record_text(pid)), Some(pid));
    }
}

#[test]
fn listing_with_a_line_beyond_the_heading_shows_a_process() {
    assert!(is_server_running(true, ALIVE));
    assert!(is_server_running(true, "PID\n1"));
    assert!(!is_server_running(true, GONE));
    assert!(!is_server_running(true, "PID"));
    assert!(!is_server_running(true, ""));
    assert!(!is_server_running(true, "\n"));
    assert!(is_server_running(true, "\n\n"));
    assert!(!is_server_running(false, ALIVE));
}

#[test]
fn absent_record_clears_the_way_at_once() {
    let (state, actions) = run(vec![GuardEvent::RecordAbsent]);
    assert_eq!(state, GuardState::Clear { displaced: None });
    assert_eq!(actions, vec![GuardAction::ReadRecord, GuardAction::Proceed]);
}

#[test]
fn stale_record_is_removed_without_termination() {
    let (state, actions) = run(vec![
        GuardEvent::RecordRead { text: "4242\n".to_string() },
        probed(true, GONE),
        GuardEvent::RecordRemoved,
    ]);
    assert_eq!(state, GuardState::Clear { displaced: None });
    assert_eq!(
        actions,
        vec![
            GuardAction::ReadRecord,
            GuardAction::Probe { pid: 4242 },
            GuardAction::RemoveRecord,
            GuardAction::Proceed,
        ]
    );
    assert!(!actions.contains(&GuardAction::Terminate { pid: 4242 }));
}

#[test]
fn failed_listing_counts_as_stale() {
    let (state, actions) = run(vec![
        GuardEvent::RecordRead { text: "4242".to_string() },
        probed(false, ALIVE),
        GuardEvent::RecordRemoved,
    ]);
    assert_eq!(state, GuardState::Clear { displaced: None });
    assert_eq!(actions[2], GuardAction::RemoveRecord);
    let (state, _) = run(vec![
        GuardEvent::RecordRead { text: "4242".to_string() },
        GuardEvent::ProbeUnavailable,
    ]);
    assert_eq!(state, GuardState::RemovingRecord { displaced: None });
}

#[test]
fn garbled_or_unreadable_record_is_removed() {
    let (state, actions) = run(vec![GuardEvent::RecordRead { text: "garbage".to_string() }]);
    assert_eq!(state, GuardState::RemovingRecord { displaced: None });
    assert_eq!(actions, vec![GuardAction::ReadRecord, GuardAction::RemoveRecord]);
    let (state, _) = run(vec![GuardEvent::RecordUnreadable, GuardEvent::RecordRemoved]);
    assert_eq!(state, GuardState::Clear { displaced: None });
}

#[test]
fn live_instance_is_terminated_then_awaited_then_cleared() {
    let (state, actions) = run(vec![
        GuardEvent::RecordRead { text: "4242".to_string() },
        probed(true, ALIVE),
        GuardEvent::Terminated,
        probed(true, ALIVE),
        probed(true, ALIVE),
        probed(true, GONE),
        GuardEvent::RecordRemoved,
    ]);
    assert_eq!(state, GuardState::Clear { displaced: Some(4242) });
    assert_eq!(
        actions,
        vec![
            GuardAction::ReadRecord,
            GuardAction::Probe { pid: 4242 },
            GuardAction::Terminate { pid: 4242 },
            GuardAction::Probe { pid: 4242 },
            GuardAction::Probe { pid: 4242 },
            GuardAction::Probe { pid: 4242 },
            GuardAction::RemoveRecord,
            GuardAction::Proceed,
        ]
    );
}

#[test]
fn failed_termination_fails_the_guard() {
    let (state, actions) = run(vec![
        GuardEvent::RecordRead { text: "4242".to_string() },
        probed(true, ALIVE),
        GuardEvent::TerminationFailed { cause: "Operation not permitted".to_string() },
        GuardEvent::RecordRemoved,
        GuardEvent::Terminated,
    ]);
    let error = GuardError::TerminationFailed { cause: "Operation not permitted".to_string() };
    assert_eq!(error.message(), "Failed to stop Chakra server: Operation not permitted");
    assert_eq!(state, GuardState::Failed { error });
    assert_eq!(actions[3], GuardAction::GiveUp);
    assert_eq!(actions[4], GuardAction::GiveUp);
    assert_eq!(actions[5], GuardAction::GiveUp);
}

#[test]
fn failed_removal_fails_the_guard() {
    let (state, actions) = run(vec![
        GuardEvent::RecordRead { text: "x".to_string() },
        GuardEvent::RecordRemovalFailed { cause: "read-only file system".to_string() },
    ]);
    let error = GuardError::RecordRemovalFailed { cause: "read-only file system".to_string() };
    assert_eq!(error.message(), "Failed to remove PID file: read-only file system");
    assert_eq!(state, GuardState::Failed { error });
    assert_eq!(actions.last(), Some(&GuardAction::GiveUp));
}

#[test]
fn unexpected_events_change_nothing() {
    let (state, actions) = run(vec![
        GuardEvent::Terminated,
        GuardEvent::RecordRemoved,
        probed(true, ALIVE),
        GuardEvent::RecordRead { text: "7".to_string() },
        GuardEvent::RecordAbsent,
        GuardEvent::RecordRemoved,
        GuardEvent::RecordRead { text: "8".to_string() },
    ]);
    assert_eq!(state, GuardState::Probing { pid: 7 });
    assert_eq!(
        actions,
        vec![
            GuardAction::ReadRecord,
            GuardAction::ReadRecord,
            GuardAction::ReadRecord,
            GuardAction::ReadRecord,
            GuardAction::Probe { pid: 7 },
            GuardAction::Probe { pid: 7 },
            GuardAction::Probe { pid: 7 },
            GuardAction::Probe { pid: 7 },
        ]
    );
}

#[test]
fn cleared_guard_stays_clear() {
    let (state, actions) = run(vec![
        GuardEvent::RecordAbsent,
        GuardEvent::RecordRead { text: "7".to_string() },
        probed(true, ALIVE),
    ]);
    assert_eq!(state, GuardState::Clear { displaced: None });
    assert_eq!(actions[2], GuardAction::Proceed);
    assert_eq!(actions[3], GuardAction::Proceed);
}
