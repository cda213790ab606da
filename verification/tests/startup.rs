use wasmrun::guard::{GuardAction, GuardError, GuardEvent};
use wasmrun::server::{
    bind_address, run_server, server_url, ServerAction, ServerEvent, ServerState, StartupError,
    StartupStage,
};
use wasmrun::session::ServerSession;

const ALIVE: &str = "PID\n4242\n";
const GONE: &str = "PID\n";

fn session(path: &str) -> ServerSession {
    ServerSession {
        process_id: 777,
        listen_port: 8420,
        primary_artifact_path: path.to_string(),
        glue_script_path: None,
        watch_mode_enabled: false,
        output_directory: "build".to_string(),
    }
}

fn guard(event: GuardEvent) -> ServerEvent {
    ServerEvent::Guard { event }
}

fn run(session: &ServerSession, events: Vec<ServerEvent>) -> (ServerState, Vec<ServerAction>) {
    let mut state = ServerState::Idle;
    let mut actions = vec![state.request(session)];
    for event in events {
        let (next, action) = run_server(session, state, event);
        assert_eq!(action, next.request(session));
        state = next;
        actions.push(action);
    }
    (state, actions)
}

fn binds(actions: &[ServerAction]) -> bool {
    actions.iter().any(|a| matches!(a, ServerAction::Bind { .. }))
}

#[test]
fn startup_runs_its_stages_in_order() {
    let session = session("build/app.wasm");
    let (state, actions) = run(
        &session,
        vec![
            ServerEvent::Start,
            guard(GuardEvent::RecordAbsent),
            ServerEvent::PortProbed { available: true },
            ServerEvent::ArtifactChecked { exists: true },
            ServerEvent::BrowserOpened { opened: true },
            ServerEvent::Bound,
            ServerEvent::Published,
        ],
    );
    assert_eq!(state, ServerState::Listening);
    assert_eq!(
        actions,
        vec![
            ServerAction::AwaitStart,
            ServerAction::Guard { action: GuardAction::ReadRecord },
            ServerAction::ProbePort { port: 8420 },
            ServerAction::CheckArtifact,
            ServerAction::OpenBrowser { port: 8420 },
            ServerAction::Bind { port: 8420 },
            ServerAction::Publish { pid: 777 },
            ServerAction::AwaitRequest,
        ]
    );
}

#[test]
fn live_prior_instance_is_gone_before_the_listener_is_bound() {
    let session = session("build/app.wasm");
    let (state, actions) = run(
        &session,
        vec![
            ServerEvent::Start,
            guard(GuardEvent::RecordRead { text: "4242".to_string() }),
            guard(GuardEvent::Probed { exit_success: true, stdout: ALIVE.to_string() }),
            guard(GuardEvent::Terminated),
            guard(GuardEvent::Probed { exit_success: true, stdout: GONE.to_string() }),
            guard(GuardEvent::RecordRemoved),
            ServerEvent::PortProbed { available: true },
            ServerEvent::ArtifactChecked { exists: true },
            ServerEvent::BrowserOpened { opened: false },
        ],
    );
    assert_eq!(state, ServerState::Starting { stage: StartupStage::Binding });
    let terminate = actions
        .iter()
        .position(|a| *a == ServerAction::Guard { action: GuardAction::Terminate { pid: 4242 } })
        .unwrap();
    let remove = actions
        .iter()
        .position(|a| *a == ServerAction::Guard { action: GuardAction::RemoveRecord })
        .unwrap();
    let bind = actions.iter().position(|a| *a == ServerAction::Bind { port: 8420 }).unwrap();
    assert!(terminate < remove);
    assert!(remove < bind);
}

#[test]
fn stale_record_is_removed_and_startup_goes_on() {
    let session = session("build/app.wasm");
    let (state, actions) = run(
        &session,
        vec![
            ServerEvent::Start,
            guard(GuardEvent::RecordRead { text: "4242".to_string() }),
            guard(GuardEvent::Probed { exit_success: true, stdout: GONE.to_string() }),
            guard(GuardEvent::RecordRemoved),
        ],
    );
    assert_eq!(state, ServerState::Starting { stage: StartupStage::CheckingPort });
    assert_eq!(
        actions,
        vec![
            ServerAction::AwaitStart,
            ServerAction::Guard { action: GuardAction::ReadRecord },
            ServerAction::Guard { action: GuardAction::Probe { pid: 4242 } },
            ServerAction::Guard { action: GuardAction::RemoveRecord },
            ServerAction::ProbePort { port: 8420 },
        ]
    );
}

#[test]
fn guard_failure_ends_startup() {
    let session = session("build/app.wasm");
    let (state, actions) = run(
        &session,
        vec![
            ServerEvent::Start,
            guard(GuardEvent::RecordRead { text: "4242".to_string() }),
            guard(GuardEvent::Probed { exit_success: true, stdout: ALIVE.to_string() }),
            guard(GuardEvent::TerminationFailed { cause: "denied".to_string() }),
            ServerEvent::PortProbed { available: true },
        ],
    );
    let error = StartupError::GuardFailed {
        error: GuardError::TerminationFailed { cause: "denied".to_string() },
    };
    assert_eq!(error.message(), "Failed to stop Chakra server: denied");
    assert_eq!(state, ServerState::Terminated { error: Some(error) });
    assert_eq!(actions.last(), Some(&ServerAction::Stop));
    assert!(!binds(&actions));
}

#[test]
fn taken_port_ends_startup_without_a_listener() {
    let session = session("build/app.wasm");
    let (state, actions) = run(
        &session,
        vec![
            ServerEvent::Start,
            guard(GuardEvent::RecordAbsent),
            ServerEvent::PortProbed { available: false },
            ServerEvent::ArtifactChecked { exists: true },
            ServerEvent::BrowserOpened { opened: true },
            ServerEvent::Bound,
            ServerEvent::Published,
        ],
    );
    let error = StartupError::PortUnavailable { port: 8420 };
    assert_eq!(
        error.message(),
        "Port 8420 is already in use, please choose a different port."
    );
    assert_eq!(state, ServerState::Terminated { error: Some(error) });
    assert!(!binds(&actions));
    assert_eq!(actions[3], ServerAction::Stop);
    assert_eq!(actions.last(), Some(&ServerAction::Stop));
}

#[test]
fn missing_artifact_ends_startup() {
    let session = session("build/app.wasm");
    let (state, actions) = run(
        &session,
        vec![
            ServerEvent::Start,
            guard(GuardEvent::RecordAbsent),
            ServerEvent::PortProbed { available: true },
            ServerEvent::ArtifactChecked { exists: false },
        ],
    );
    let error = StartupError::ArtifactMissing { path: "build/app.wasm".to_string() };
    assert_eq!(error.message(), "WASM file not found at path: build/app.wasm");
    assert_eq!(state, ServerState::Terminated { error: Some(error) });
    assert!(!binds(&actions));
}

#[test]
fn artifact_path_without_a_file_name_ends_startup() {
    for path in ["build/", "build/..", ""] {
        let session = session(path);
        let (state, _) = run(
            &session,
            vec![
                ServerEvent::Start,
                guard(GuardEvent::RecordAbsent),
                ServerEvent::PortProbed { available: true },
                ServerEvent::ArtifactChecked { exists: true },
            ],
        );
        assert_eq!(state, ServerState::Terminated { error: Some(StartupError::InvalidPath) });
    }
    assert_eq!(StartupError::InvalidPath.message(), "Invalid path");
}

#[test]
fn lost_race_for_the_port_surfaces_as_a_bind_failure() {
    let session = session("build/app.wasm");
    let (state, _) = run(
        &session,
        vec![
            ServerEvent::Start,
            guard(GuardEvent::RecordAbsent),
            ServerEvent::PortProbed { available: true },
            ServerEvent::ArtifactChecked { exists: true },
            ServerEvent::BrowserOpened { opened: true },
            ServerEvent::BindFailed { cause: "Address already in use".to_string() },
        ],
    );
    let error = StartupError::BindFailed { cause: "Address already in use".to_string() };
    assert_eq!(error.message(), "Failed to start server: Address already in use");
    assert_eq!(state, ServerState::Terminated { error: Some(error) });
}

#[test]
fn unwritten_record_ends_startup() {
    let session = session("build/app.wasm");
    let (state, _) = run(
        &session,
        vec![
            ServerEvent::Start,
            guard(GuardEvent::RecordAbsent),
            ServerEvent::PortProbed { available: true },
            ServerEvent::ArtifactChecked { exists: true },
            ServerEvent::BrowserOpened { opened: true },
            ServerEvent::Bound,
            ServerEvent::PublishFailed { cause: "disk full".to_string() },
        ],
    );
    let error = StartupError::RecordNotWritten { cause: "disk full".to_string() };
    assert_eq!(error.message(), "Failed to write PID to /tmp/chakra_server.pid: disk full");
    assert_eq!(state, ServerState::Terminated { error: Some(error) });
}

#[test]
fn listening_server_takes_one_request_at_a_time() {
    let session = session("build/app.wasm");
    let state = ServerState::Listening;
    let (state, action) = run_server(&session, state, ServerEvent::RequestAccepted);
    assert_eq!(state, ServerState::Handling);
    assert_eq!(action, ServerAction::HandleRequest);
    let (state, action) = run_server(&session, state, ServerEvent::RequestAccepted);
    assert_eq!(state, ServerState::Handling);
    assert_eq!(action, ServerAction::HandleRequest);
    let (state, action) = run_server(&session, state, ServerEvent::RequestHandled);
    assert_eq!(state, ServerState::Listening);
    assert_eq!(action, ServerAction::AwaitRequest);
    let (state, action) = run_server(&session, state, ServerEvent::ListenerClosed);
    assert_eq!(state, ServerState::Terminated { error: None });
    assert_eq!(action, ServerAction::Stop);
}

#[test]
fn idle_server_waits_for_start() {
    let session = session("build/app.wasm");
    let (state, actions) = run(
        &session,
        vec![ServerEvent::Bound, ServerEvent::RequestAccepted, guard(GuardEvent::RecordAbsent)],
    );
    assert_eq!(state, ServerState::Idle);
    assert_eq!(actions, vec![ServerAction::AwaitStart; 4]);
}

#[test]
fn addresses_are_built_from_the_port() {
    assert_eq!(server_url(8420), "http://localhost:8420");
    assert_eq!(server_url(80), "http://localhost:80");
    assert_eq!(bind_address(8420), "0.0.0.0:8420");
    assert_eq!(bind_address(0), "0.0.0.0:0");
    assert_eq!(bind_address(u16::MAX), "0.0.0.0:65535");
}
