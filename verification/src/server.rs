//! The life of the server: start-up, then the loop that accepts one request,
//! handles it, and accepts the next.
//!
//! Start-up runs the single-instance guard, claims the port, checks that the
//! artifact is there, opens the browser, binds the listener and publishes
//! the process id, in this order. Any failure but the browser's ends the
//! server before it listens. Everything that touches the machine is asked
//! for as a `ServerAction`; its outcome comes back as a `ServerEvent`.

use crate::decimal::{decimal_text, format_u32};
use crate::guard::{
    found_alive_at, found_dead_at, gone_at, guard_request, guard_run, guard_start, guard_step,
    never_terminates, record_gone, removed_at, signalled_at, stop_existing_server, GuardAction,
    GuardError, GuardErrorView, GuardEvent, GuardEventView, GuardState, GuardStateView,
};
use crate::session::{ServerSession, SessionView};
use crate::text::{file_name, file_name_of};
use vstd::prelude::*;
use vstd::string::StringExecFns;

verus! {

/// Why the server did not start.
#[derive(Clone, Debug, PartialEq, Eq)]
pub enum StartupError {
    /// The single-instance guard failed.
    GuardFailed { error: GuardError },
    /// Another listener holds the port.
    PortUnavailable { port: u16 },
    /// The artifact file does not exist.
    ArtifactMissing { path: String },
    /// The artifact path does not end in a file name.
    InvalidPath,
    /// The listener could not be bound.
    BindFailed { cause: String },
    /// The process id could not be published.
    RecordNotWritten { cause: String },
}

/// A `StartupError` as mathematical values.
pub enum StartupErrorView {
    GuardFailed { error: GuardErrorView },
    PortUnavailable { port: u16 },
    ArtifactMissing { path: Seq<char> },
    InvalidPath,
    BindFailed { cause: Seq<char> },
    RecordNotWritten { cause: Seq<char> },
}

impl View for StartupError {
    type V = StartupErrorView;

    open spec fn view(&self) -> StartupErrorView {
        match self {
            StartupError::GuardFailed { error } => StartupErrorView::GuardFailed { error: error@ },
            StartupError::PortUnavailable { port } => StartupErrorView::PortUnavailable {
                port: *port,
            },
            StartupError::ArtifactMissing { path } => StartupErrorView::ArtifactMissing {
                path: path@,
            },
            StartupError::InvalidPath => StartupErrorView::InvalidPath,
            StartupError::BindFailed { cause } => StartupErrorView::BindFailed { cause: cause@ },
            StartupError::RecordNotWritten { cause } => StartupErrorView::RecordNotWritten {
                cause: cause@,
            },
        }
    }
}

impl StartupErrorView {
    /// The diagnostic for the user.
    pub open spec fn text(self) -> Seq<char> {
        match self {
            StartupErrorView::GuardFailed { error } => error.text(),
            StartupErrorView::PortUnavailable { port } => "Port "@ + decimal_text(port as nat)
                + " is already in use, please choose a different port."@,
            StartupErrorView::ArtifactMissing { path } => "WASM file not found at path: "@ + path,
            StartupErrorView::InvalidPath => "Invalid path"@,
            StartupErrorView::BindFailed { cause } => "Failed to start server: "@ + cause,
            StartupErrorView::RecordNotWritten { cause } => "Failed to write PID to "@
                + crate::guard::record_location() + ": "@ + cause,
        }
    }
}

impl StartupError {
    /// The diagnostic for the user.
    pub fn message(&self) -> (text: String)
        ensures
            text@ == self@.text(),
    {
        match self {
            StartupError::GuardFailed { error } => error.message(),
            StartupError::PortUnavailable { port } => {
                let mut text = String::from_str("Port ");
                text.append(format_u32(*port as u32).as_str());
                text.append(" is already in use, please choose a different port.");
                text
            },
            StartupError::ArtifactMissing { path } => {
                let mut text = String::from_str("WASM file not found at path: ");
                text.append(path.as_str());
                text
            },
            StartupError::InvalidPath => String::from_str("Invalid path"),
            StartupError::BindFailed { cause } => {
                let mut text = String::from_str("Failed to start server: ");
                text.append(cause.as_str());
                text
            },
            StartupError::RecordNotWritten { cause } => {
                let mut text = String::from_str("Failed to write PID to ");
                text.append(crate::guard::record_path());
                text.append(": ");
                text.append(cause.as_str());
                text
            },
        }
    }
}

/// The address a browser reaches the server at.
pub open spec fn url_of_port(port: u16) -> Seq<char> {
    "http://localhost:"@ + decimal_text(port as nat)
}

/// The address the listener binds: every interface, at `port`.
pub open spec fn address_of_port(port: u16) -> Seq<char> {
    "0.0.0.0:"@ + decimal_text(port as nat)
}

/// The address a browser reaches the server at.
pub fn server_url(port: u16) -> (url: String)
    ensures
        url@ == url_of_port(port),
{
    let mut url = String::from_str("http://localhost:");
    url.append(format_u32(port as u32).as_str());
    url
}

/// The address the listener binds.
pub fn bind_address(port: u16) -> (address: String)
    ensures
        address@ == address_of_port(port),
{
    let mut address = String::from_str("0.0.0.0:");
    address.append(format_u32(port as u32).as_str());
    address
}

/// What the server asks to be done next.
#[derive(Clone, Copy, Debug, PartialEq, Eq, Structural)]
pub enum ServerAction {
    /// Nothing yet: the server waits to be started.
    AwaitStart,
    /// Do what the guard asks and report the outcome as a guard event.
    Guard { action: GuardAction },
    /// Find out whether `port` is free: claim it and let it go at once.
    ProbePort { port: u16 },
    /// Find out whether the artifact file exists.
    CheckArtifact,
    /// Open the default browser at the server's address. Failure is
    /// reported, never fatal.
    OpenBrowser { port: u16 },
    /// Bind the listener to `port`.
    Bind { port: u16 },
    /// Write the record of process `pid`, over whatever it held.
    Publish { pid: u32 },
    /// Wait for the next request.
    AwaitRequest,
    /// Resolve the accepted request and send the answer.
    HandleRequest,
    /// Leave: the server has ended.
    Stop,
}

/// How far start-up has come.
#[derive(Clone, Debug, PartialEq, Eq)]
pub enum StartupStage {
    Guarding { guard: GuardState },
    CheckingPort,
    CheckingArtifact,
    OpeningBrowser,
    Binding,
    Publishing,
}

/// A `StartupStage` as mathematical values.
pub enum StageView {
    Guarding { guard: GuardStateView },
    CheckingPort,
    CheckingArtifact,
    OpeningBrowser,
    Binding,
    Publishing,
}

impl View for StartupStage {
    type V = StageView;

    open spec fn view(&self) -> StageView {
        match self {
            StartupStage::Guarding { guard } => StageView::Guarding { guard: guard@ },
            StartupStage::CheckingPort => StageView::CheckingPort,
            StartupStage::CheckingArtifact => StageView::CheckingArtifact,
            StartupStage::OpeningBrowser => StageView::OpeningBrowser,
            StartupStage::Binding => StageView::Binding,
            StartupStage::Publishing => StageView::Publishing,
        }
    }
}

/// Where the server stands.
#[derive(Clone, Debug, PartialEq, Eq)]
pub enum ServerState {
    /// Not started.
    Idle,
    /// Starting up.
    Starting { stage: StartupStage },
    /// Waiting for a request.
    Listening,
    /// Answering a request.
    Handling,
    /// Ended: by a start-up failure, or because the listener closed.
    Terminated { error: Option<StartupError> },
}

/// A `ServerState` as mathematical values.
pub enum ServerStateView {
    Idle,
    Starting { stage: StageView },
    Listening,
    Handling,
    Terminated { error: Option<StartupErrorView> },
}

impl View for ServerState {
    type V = ServerStateView;

    open spec fn view(&self) -> ServerStateView {
        match self {
            ServerState::Idle => ServerStateView::Idle,
            ServerState::Starting { stage } => ServerStateView::Starting { stage: stage@ },
            ServerState::Listening => ServerStateView::Listening,
            ServerState::Handling => ServerStateView::Handling,
            ServerState::Terminated { error } => ServerStateView::Terminated {
                error: match error {
                    Some(e) => Some(e@),
                    None => None,
                },
            },
        }
    }
}

/// What came back from outside.
#[derive(Clone, Debug, PartialEq, Eq)]
pub enum ServerEvent {
    /// The server is to start.
    Start,
    /// The outcome of what the guard asked for.
    Guard { event: GuardEvent },
    /// Whether the port could be claimed.
    PortProbed { available: bool },
    /// Whether the artifact file exists.
    ArtifactChecked { exists: bool },
    /// The browser was asked to open; `opened` says whether it did.
    BrowserOpened { opened: bool },
    /// The listener is bound.
    Bound,
    /// The listener could not be bound.
    BindFailed { cause: String },
    /// The record is written.
    Published,
    /// The record could not be written.
    PublishFailed { cause: String },
    /// A request arrived.
    RequestAccepted,
    /// The request is dealt with, whether or not its answer could be sent.
    RequestHandled,
    /// The listener will hand out no more requests.
    ListenerClosed,
}

/// A `ServerEvent` as mathematical values.
pub enum ServerEventView {
    Start,
    Guard { event: GuardEventView },
    PortProbed { available: bool },
    ArtifactChecked { exists: bool },
    BrowserOpened { opened: bool },
    Bound,
    BindFailed { cause: Seq<char> },
    Published,
    PublishFailed { cause: Seq<char> },
    RequestAccepted,
    RequestHandled,
    ListenerClosed,
}

impl View for ServerEvent {
    type V = ServerEventView;

    open spec fn view(&self) -> ServerEventView {
        match self {
            ServerEvent::Start => ServerEventView::Start,
            ServerEvent::Guard { event } => ServerEventView::Guard { event: event@ },
            ServerEvent::PortProbed { available } => ServerEventView::PortProbed {
                available: *available,
            },
            ServerEvent::ArtifactChecked { exists } => ServerEventView::ArtifactChecked {
                exists: *exists,
            },
            ServerEvent::BrowserOpened { opened } => ServerEventView::BrowserOpened {
                opened: *opened,
            },
            ServerEvent::Bound => ServerEventView::Bound,
            ServerEvent::BindFailed { cause } => ServerEventView::BindFailed { cause: cause@ },
            ServerEvent::Published => ServerEventView::Published,
            ServerEvent::PublishFailed { cause } => ServerEventView::PublishFailed {
                cause: cause@,
            },
            ServerEvent::RequestAccepted => ServerEventView::RequestAccepted,
            ServerEvent::RequestHandled => ServerEventView::RequestHandled,
            ServerEvent::ListenerClosed => ServerEventView::ListenerClosed,
        }
    }
}

/// The server ended with `error`.
pub open spec fn failed_with(error: StartupErrorView) -> ServerStateView {
    ServerStateView::Terminated { error: Some(error) }
}

/// Start-up stands at `stage`.
pub open spec fn starting(stage: StageView) -> ServerStateView {
    ServerStateView::Starting { stage }
}

/// The transitions of start-up. An event that the stage does not wait for
/// leaves the stage as it is.
pub open spec fn startup_step(
    session: SessionView,
    stage: StageView,
    event: ServerEventView,
) -> ServerStateView {
    match stage {
        StageView::Guarding { guard } => match event {
            ServerEventView::Guard { event } => match guard_step(guard, event) {
                GuardStateView::Clear { .. } => starting(StageView::CheckingPort),
                GuardStateView::Failed { error } => failed_with(
                    StartupErrorView::GuardFailed { error },
                ),
                next => starting(StageView::Guarding { guard: next }),
            },
            _ => starting(stage),
        },
        StageView::CheckingPort => match event {
            ServerEventView::PortProbed { available } => if available {
                starting(StageView::CheckingArtifact)
            } else {
                failed_with(StartupErrorView::PortUnavailable { port: session.listen_port })
            },
            _ => starting(stage),
        },
        StageView::CheckingArtifact => match event {
            ServerEventView::ArtifactChecked { exists } => if !exists {
                failed_with(
                    StartupErrorView::ArtifactMissing { path: session.primary_artifact_path },
                )
            } else if file_name_of(session.primary_artifact_path) is None {
                failed_with(StartupErrorView::InvalidPath)
            } else {
                starting(StageView::OpeningBrowser)
            },
            _ => starting(stage),
        },
        StageView::OpeningBrowser => match event {
            ServerEventView::BrowserOpened { .. } => starting(StageView::Binding),
            _ => starting(stage),
        },
        StageView::Binding => match event {
            ServerEventView::Bound => starting(StageView::Publishing),
            ServerEventView::BindFailed { cause } => failed_with(
                StartupErrorView::BindFailed { cause },
            ),
            _ => starting(stage),
        },
        StageView::Publishing => match event {
            ServerEventView::Published => ServerStateView::Listening,
            ServerEventView::PublishFailed { cause } => failed_with(
                StartupErrorView::RecordNotWritten { cause },
            ),
            _ => starting(stage),
        },
    }
}

/// The server's transitions. Once the server listens, nothing that happens
/// to a request ends it: only the closing of the listener does.
pub open spec fn server_step(
    session: SessionView,
    state: ServerStateView,
    event: ServerEventView,
) -> ServerStateView {
    match state {
        ServerStateView::Idle => match event {
            ServerEventView::Start => starting(StageView::Guarding { guard: guard_start() }),
            _ => state,
        },
        ServerStateView::Starting { stage } => startup_step(session, stage, event),
        ServerStateView::Listening => match event {
            ServerEventView::RequestAccepted => ServerStateView::Handling,
            ServerEventView::ListenerClosed => ServerStateView::Terminated { error: None },
            _ => state,
        },
        ServerStateView::Handling => match event {
            ServerEventView::RequestHandled => ServerStateView::Listening,
            _ => state,
        },
        ServerStateView::Terminated { .. } => state,
    }
}

/// What each state asks for.
pub open spec fn server_request(session: SessionView, state: ServerStateView) -> ServerAction {
    match state {
        ServerStateView::Idle => ServerAction::AwaitStart,
        ServerStateView::Starting { stage } => match stage {
            StageView::Guarding { guard } => ServerAction::Guard { action: guard_request(guard) },
            StageView::CheckingPort => ServerAction::ProbePort { port: session.listen_port },
            StageView::CheckingArtifact => ServerAction::CheckArtifact,
            StageView::OpeningBrowser => ServerAction::OpenBrowser { port: session.listen_port },
            StageView::Binding => ServerAction::Bind { port: session.listen_port },
            StageView::Publishing => ServerAction::Publish { pid: session.process_id },
        },
        ServerStateView::Listening => ServerAction::AwaitRequest,
        ServerStateView::Handling => ServerAction::HandleRequest,
        ServerStateView::Terminated { .. } => ServerAction::Stop,
    }
}

impl ServerState {
    /// What this state asks for.
    pub fn request(&self, session: &ServerSession) -> (action: ServerAction)
        ensures
            action == server_request(session@, self@),
    {
        match self {
            ServerState::Idle => ServerAction::AwaitStart,
            ServerState::Starting { stage } => match stage {
                StartupStage::Guarding { guard } => ServerAction::Guard { action: guard.request() },
                StartupStage::CheckingPort => ServerAction::ProbePort { port: session.listen_port },
                StartupStage::CheckingArtifact => ServerAction::CheckArtifact,
                StartupStage::OpeningBrowser => ServerAction::OpenBrowser {
                    port: session.listen_port,
                },
                StartupStage::Binding => ServerAction::Bind { port: session.listen_port },
                StartupStage::Publishing => ServerAction::Publish { pid: session.process_id },
            },
            ServerState::Listening => ServerAction::AwaitRequest,
            ServerState::Handling => ServerAction::HandleRequest,
            ServerState::Terminated { .. } => ServerAction::Stop,
        }
    }
}

fn failed(error: StartupError) -> (state: ServerState)
    ensures
        state@ == failed_with(error@),
{
    ServerState::Terminated { error: Some(error) }
}

fn startup(session: &ServerSession, stage: StartupStage, event: ServerEvent) -> (state: ServerState)
    ensures
        state@ == startup_step(session@, stage@, event@),
{
    match stage {
        StartupStage::Guarding { guard } => match event {
            ServerEvent::Guard { event } => {
                let (next, _) = stop_existing_server(guard, event);
                match next {
                    GuardState::Clear { .. } => ServerState::Starting {
                        stage: StartupStage::CheckingPort,
                    },
                    GuardState::Failed { error } => failed(StartupError::GuardFailed { error }),
                    next => ServerState::Starting { stage: StartupStage::Guarding { guard: next } },
                }
            },
            _ => ServerState::Starting { stage: StartupStage::Guarding { guard } },
        },
        StartupStage::CheckingPort => match event {
            ServerEvent::PortProbed { available } => if available {
                ServerState::Starting { stage: StartupStage::CheckingArtifact }
            } else {
                failed(StartupError::PortUnavailable { port: session.listen_port })
            },
            _ => ServerState::Starting { stage: StartupStage::CheckingPort },
        },
        StartupStage::CheckingArtifact => match event {
            ServerEvent::ArtifactChecked { exists } => if !exists {
                failed(
                    StartupError::ArtifactMissing { path: session.primary_artifact_path.clone() },
                )
            } else if file_name(session.primary_artifact_path.as_str()).is_none() {
                failed(StartupError::InvalidPath)
            } else {
                ServerState::Starting { stage: StartupStage::OpeningBrowser }
            },
            _ => ServerState::Starting { stage: StartupStage::CheckingArtifact },
        },
        StartupStage::OpeningBrowser => match event {
            ServerEvent::BrowserOpened { .. } => ServerState::Starting {
                stage: StartupStage::Binding,
            },
            _ => ServerState::Starting { stage: StartupStage::OpeningBrowser },
        },
        StartupStage::Binding => match event {
            ServerEvent::Bound => ServerState::Starting { stage: StartupStage::Publishing },
            ServerEvent::BindFailed { cause } => failed(StartupError::BindFailed { cause }),
            _ => ServerState::Starting { stage: StartupStage::Binding },
        },
        StartupStage::Publishing => match event {
            ServerEvent::Published => ServerState::Listening,
            ServerEvent::PublishFailed { cause } => failed(
                StartupError::RecordNotWritten { cause },
            ),
            _ => ServerState::Starting { stage: StartupStage::Publishing },
        },
    }
}

/// Takes the server one step: from where it stands and what came back to
/// where it stands next and what it asks for next.
///
/// Start-up goes through the guard, the port, the artifact, the browser,
/// the listener and the record, and ends the server at the first failure of
/// any of them but the browser. A listening server takes one request at a
/// time and goes back to listening whatever became of it.
pub fn run_server(session: &ServerSession, state: ServerState, event: ServerEvent) -> (next: (
    ServerState,
    ServerAction,
))
    ensures
        next.0@ == server_step(session@, state@, event@),
        next.1 == server_request(session@, next.0@),
{
    let next_state = match state {
        ServerState::Idle => match event {
            ServerEvent::Start => ServerState::Starting {
                stage: StartupStage::Guarding { guard: GuardState::start() },
            },
            _ => ServerState::Idle,
        },
        ServerState::Starting { stage } => startup(session, stage, event),
        ServerState::Listening => match event {
            ServerEvent::RequestAccepted => ServerState::Handling,
            ServerEvent::ListenerClosed => ServerState::Terminated { error: None },
            _ => ServerState::Listening,
        },
        ServerState::Handling => match event {
            ServerEvent::RequestHandled => ServerState::Listening,
            _ => ServerState::Handling,
        },
        ServerState::Terminated { error } => ServerState::Terminated { error },
    };
    let action = next_state.request(session);
    (next_state, action)
}

/// The state the server has reached after the events of a run, in order.
pub open spec fn server_run(session: SessionView, events: Seq<ServerEventView>) -> ServerStateView
    decreases events.len(),
{
    if events.len() == 0 {
        ServerStateView::Idle
    } else {
        server_step(session, server_run(session, events.drop_last()), events.last())
    }
}

/// The events of a run that reached the guard, in order.
pub open spec fn guard_history(session: SessionView, events: Seq<ServerEventView>) -> Seq<
    GuardEventView,
>
    decreases events.len(),
{
    if events.len() == 0 {
        Seq::empty()
    } else {
        let earlier = guard_history(session, events.drop_last());
        match (server_run(session, events.drop_last()), events.last()) {
            (
                ServerStateView::Starting { stage: StageView::Guarding { .. } },
                ServerEventView::Guard { event },
            ) => earlier.push(event),
            _ => earlier,
        }
    }
}

/// Start-up has left the guard behind and has not failed on it.
pub open spec fn past_guard(state: ServerStateView) -> bool {
    match state {
        ServerStateView::Idle => false,
        ServerStateView::Starting { stage } => !(stage is Guarding),
        ServerStateView::Listening => true,
        ServerStateView::Handling => true,
        ServerStateView::Terminated { error } => !(error matches Some(
            StartupErrorView::GuardFailed { .. },
        )),
    }
}

/// The server has not asked for a listener at any point of the run.
pub open spec fn never_binds(session: SessionView, events: Seq<ServerEventView>) -> bool {
    forall|m: int|
        0 <= m <= events.len() ==> !(server_request(
            session,
            server_run(session, #[trigger] events.take(m)),
        ) is Bind)
}

/// The run of a prefix extended by the next event is one step further.
proof fn lemma_server_run_extends(session: SessionView, events: Seq<ServerEventView>, m: int)
    requires
        0 < m <= events.len(),
    ensures
        server_run(session, events.take(m)) == server_step(
            session,
            server_run(session, events.take(m - 1)),
            events[m - 1],
        ),
{
    assert(events.take(m).drop_last() =~= events.take(m - 1));
}

/// A server that has ended stays as it ended.
proof fn lemma_terminated_stays(
    session: SessionView,
    events: Seq<ServerEventView>,
    k: int,
    m: int,
)
    requires
        0 <= k <= m <= events.len(),
        server_run(session, events.take(k)) is Terminated,
    ensures
        server_run(session, events.take(m)) == server_run(session, events.take(k)),
    decreases m - k,
{
    if k < m {
        lemma_terminated_stays(session, events, k, m - 1);
        lemma_server_run_extends(session, events, m);
    }
}

/// The states up to and including the port check.
spec fn not_past_port(state: ServerStateView) -> bool {
    match state {
        ServerStateView::Idle => true,
        ServerStateView::Starting { stage } => stage is Guarding || stage is CheckingPort,
        _ => false,
    }
}

proof fn lemma_not_past_port_before(
    session: SessionView,
    events: Seq<ServerEventView>,
    k: int,
    m: int,
)
    requires
        0 <= m <= k <= events.len(),
        not_past_port(server_run(session, events.take(k))),
    ensures
        not_past_port(server_run(session, events.take(m))),
    decreases k - m,
{
    if m < k {
        lemma_server_run_extends(session, events, k);
        lemma_not_past_port_before(session, events, k - 1, m);
    }
}

/// A port that another listener holds stops start-up, and no listener is
/// created. In every run in which the port probe found the port taken, the
/// server ends with the port-unavailable error, and it has not asked for a
/// listener before nor does it afterwards.
pub proof fn lemma_port_in_use_stops_startup(
    session: SessionView,
    events: Seq<ServerEventView>,
    k: int,
)
    requires
        0 <= k < events.len(),
        server_run(session, events.take(k)) == starting(StageView::CheckingPort),
        events[k] == (ServerEventView::PortProbed { available: false }),
    ensures
        server_run(session, events) == failed_with(
            StartupErrorView::PortUnavailable { port: session.listen_port },
        ),
        server_request(session, server_run(session, events)) == ServerAction::Stop,
        never_binds(session, events),
{
    let n = events.len() as int;
    assert(events.take(n) =~= events);
    lemma_server_run_extends(session, events, k + 1);
    assert forall|m: int| 0 <= m <= events.len() implies !(server_request(
        session,
        server_run(session, #[trigger] events.take(m)),
    ) is Bind) by {
        if m <= k {
            lemma_not_past_port_before(session, events, k, m);
        } else {
            lemma_terminated_stays(session, events, k + 1, m);
        }
    }
    lemma_terminated_stays(session, events, k + 1, n);
}

/// How the guard stands, told from where the server stands.
spec fn guard_standing(session: SessionView, events: Seq<ServerEventView>) -> bool {
    let guard = guard_run(guard_history(session, events));
    match server_run(session, events) {
        ServerStateView::Idle => guard == guard_start(),
        ServerStateView::Starting { stage: StageView::Guarding { guard: g } } => guard == g,
        ServerStateView::Terminated { error: Some(StartupErrorView::GuardFailed { error }) } => guard
            == (GuardStateView::Failed { error }),
        _ => guard is Clear,
    }
}

proof fn lemma_guard_standing(session: SessionView, events: Seq<ServerEventView>)
    ensures
        guard_standing(session, events),
    decreases events.len(),
{
    if events.len() > 0 {
        lemma_guard_standing(session, events.drop_last());
        let earlier = guard_history(session, events.drop_last());
        match (server_run(session, events.drop_last()), events.last()) {
            (
                ServerStateView::Starting { stage: StageView::Guarding { .. } },
                ServerEventView::Guard { event },
            ) => {
                assert(earlier.push(event).drop_last() =~= earlier);
            },
            _ => {},
        }
    }
}

/// Start-up goes on only once the guard is clear: wherever the server has
/// left the guard behind, the guard's own run, fed with the guard events of
/// the server's run, has ended clear.
pub proof fn lemma_guard_clears_before_startup_goes_on(
    session: SessionView,
    events: Seq<ServerEventView>,
)
    requires
        past_guard(server_run(session, events)),
    ensures
        guard_run(guard_history(session, events)) is Clear,
{
    lemma_guard_standing(session, events);
}

/// A new record is written only where no old one is left: wherever the
/// server has left the guard behind, and so before it asks to publish, the
/// old record was found absent or was removed.
pub proof fn lemma_record_is_gone_before_publishing(
    session: SessionView,
    events: Seq<ServerEventView>,
)
    requires
        past_guard(server_run(session, events)),
    ensures
        record_gone(guard_history(session, events)),
{
    lemma_guard_clears_before_startup_goes_on(session, events);
    crate::guard::lemma_clear_means_record_gone(guard_history(session, events));
}

/// A live prior instance is gone before the new server listens. In every
/// run that has come to bind, listen or handle, if the guard found the
/// recorded process alive, then it asked for that process to be terminated,
/// learnt from a later probe that it was gone, and had the record removed,
/// all before start-up went on.
pub proof fn lemma_prior_instance_is_gone_before_listening(
    session: SessionView,
    events: Seq<ServerEventView>,
    pid: u32,
    k: int,
)
    requires
        past_guard(server_run(session, events)),
        found_alive_at(guard_history(session, events), pid, k),
    ensures
        ({
            let history = guard_history(session, events);
            exists|i: int, j: int, r: int|
                k < i < j < r < history.len() && signalled_at(history, pid, i) && gone_at(
                    history,
                    pid,
                    j,
                ) && removed_at(history, r)
        }),
{
    lemma_guard_clears_before_startup_goes_on(session, events);
    crate::guard::lemma_live_instance_is_terminated_first(guard_history(session, events), pid, k);
}

/// A stale record does not hold start-up up, and nothing is terminated for
/// it. In every run that has left the guard behind, if the guard found the
/// recorded process not alive, then it never asked for a termination, and
/// it had the record removed after the probe.
pub proof fn lemma_stale_record_is_removed_before_listening(
    session: SessionView,
    events: Seq<ServerEventView>,
    pid: u32,
    k: int,
)
    requires
        past_guard(server_run(session, events)),
        found_dead_at(guard_history(session, events), pid, k),
    ensures
        ({
            let history = guard_history(session, events);
            &&& never_terminates(history)
            &&& exists|r: int| k < r < history.len() && removed_at(history, r)
        }),
{
    lemma_guard_clears_before_startup_goes_on(session, events);
    crate::guard::lemma_stale_record_is_removed_without_termination(
        guard_history(session, events),
        pid,
        k,
    );
}

/// Every start-up failure but the browser's ends the server, with the error
/// that names it, and an ended server asks only to stop.
pub proof fn lemma_startup_failures_are_fatal(
    session: SessionView,
    cause: Seq<char>,
    opened: bool,
    later: ServerEventView,
)
    ensures
        server_step(
            session,
            starting(StageView::CheckingPort),
            ServerEventView::PortProbed { available: false },
        ) == failed_with(StartupErrorView::PortUnavailable { port: session.listen_port }),
        server_step(
            session,
            starting(StageView::CheckingArtifact),
            ServerEventView::ArtifactChecked { exists: false },
        ) == failed_with(
            StartupErrorView::ArtifactMissing { path: session.primary_artifact_path },
        ),
        server_step(
            session,
            starting(StageView::Binding),
            ServerEventView::BindFailed { cause },
        ) == failed_with(StartupErrorView::BindFailed { cause }),
        server_step(
            session,
            starting(StageView::Publishing),
            ServerEventView::PublishFailed { cause },
        ) == failed_with(StartupErrorView::RecordNotWritten { cause }),
        server_step(
            session,
            starting(StageView::OpeningBrowser),
            ServerEventView::BrowserOpened { opened },
        ) == starting(StageView::Binding),
        forall|error: StartupErrorView| #[trigger]
            server_step(session, failed_with(error), later) == failed_with(error)
                && server_request(session, failed_with(error)) == ServerAction::Stop,
{
}

/// Nothing that happens to a request ends a listening server: from
/// listening or handling, only the closing of the listener leads out of the
/// loop.
pub proof fn lemma_requests_never_end_the_server(
    session: SessionView,
    state: ServerStateView,
    event: ServerEventView,
)
    requires
        state is Listening || state is Handling,
        !(event is ListenerClosed),
    ensures
        server_step(session, state, event) is Listening || server_step(session, state, event)
            is Handling,
        server_step(session, ServerStateView::Handling, ServerEventView::RequestHandled)
            == ServerStateView::Listening,
        server_step(session, ServerStateView::Listening, ServerEventView::RequestAccepted)
            == ServerStateView::Handling,
{
}

} // verus!
