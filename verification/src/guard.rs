//! The single-instance guard: at most one server runs on a machine.
//!
//! A running server leaves its process id in a record at a fixed place. The
//! next server to start reads the record, finds out whether that process is
//! still alive, terminates it if so, and removes the record. The guard is a
//! state machine: each state asks for one thing to be done outside (read the
//! record, probe a process, terminate it, remove the record), and the
//! outcome comes back as an event.

use crate::decimal::{decimal_text, format_u32, parse_u32, parsed_u32};
use crate::text::chars_of;
use vstd::prelude::*;
use vstd::string::StringExecFns;

verus! {

/// Where the record of the running server is kept.
pub open spec fn record_location() -> Seq<char> {
    "/tmp/chakra_server.pid"@
}

/// Where the record of the running server is kept.
pub fn record_path() -> (path: &'static str)
    ensures
        path@ == record_location(),
{
    "/tmp/chakra_server.pid"
}

/// Number of line breaks in `s`.
pub open spec fn line_breaks(s: Seq<char>) -> nat
    decreases s.len(),
{
    if s.len() == 0 {
        0
    } else {
        line_breaks(s.drop_last()) + if s.last() == '\n' {
            1nat
        } else {
            0nat
        }
    }
}

/// Number of lines of `s`: a last line need not end in a line break, and a
/// line break at the very end opens no further line.
pub open spec fn line_count(s: Seq<char>) -> nat {
    line_breaks(s) + if s.len() > 0 && s.last() != '\n' {
        1nat
    } else {
        0nat
    }
}

/// What a process listing says: the process exists when the listing
/// succeeded and holds a line beyond its heading.
pub open spec fn probe_shows_process(exit_success: bool, stdout: Seq<char>) -> bool {
    exit_success && line_count(stdout) > 1
}

/// Tells from a process listing whether the listed process exists.
pub fn is_server_running(exit_success: bool, stdout: &str) -> (running: bool)
    ensures
        running == probe_shows_process(exit_success, stdout@),
{
    if !exit_success {
        return false;
    }
    let v = chars_of(stdout);
    let n = v.len();
    let mut breaks: usize = 0;
    let mut i: usize = 0;
    assert(v@.take(0) =~= Seq::<char>::empty());
    while i < n
        invariant
            i <= n == v.len(),
            breaks <= i,
            breaks == line_breaks(v@.take(i as int)),
        decreases n - i,
    {
        assert(v@.take(i + 1).drop_last() =~= v@.take(i as int));
        if v[i] == '\n' {
            breaks += 1;
        }
        i += 1;
    }
    assert(v@.take(n as int) =~= v@);
    if n > 0 && v[n - 1] != '\n' {
        breaks >= 1
    } else {
        breaks > 1
    }
}

/// The process id that a record holds, if it holds one.
pub fn recorded_pid(record: &str) -> (pid: Option<u32>)
    ensures
        pid == parsed_u32(record@),
{
    parse_u32(record)
}

/// The record to publish for the process `pid`: the id in base ten.
pub fn record_text(pid: u32) -> (record: String)
    ensures
        record@ == decimal_text(pid as nat),
        parsed_u32(record@) == Some(pid),
{
    proof {
        crate::decimal::lemma_written_number_reads_back(pid);
    }
    format_u32(pid)
}

/// Why the guard could not clear the way.
#[derive(Clone, Debug, PartialEq, Eq)]
pub enum GuardError {
    /// The live prior instance could not be terminated.
    TerminationFailed { cause: String },
    /// The record could not be removed.
    RecordRemovalFailed { cause: String },
}

/// A `GuardError` as mathematical values.
pub enum GuardErrorView {
    TerminationFailed { cause: Seq<char> },
    RecordRemovalFailed { cause: Seq<char> },
}

impl View for GuardError {
    type V = GuardErrorView;

    open spec fn view(&self) -> GuardErrorView {
        match self {
            GuardError::TerminationFailed { cause } => GuardErrorView::TerminationFailed {
                cause: cause@,
            },
            GuardError::RecordRemovalFailed { cause } => GuardErrorView::RecordRemovalFailed {
                cause: cause@,
            },
        }
    }
}

impl GuardErrorView {
    /// The message for the user.
    pub open spec fn text(self) -> Seq<char> {
        match self {
            GuardErrorView::TerminationFailed { cause } => "Failed to stop Chakra server: "@
                + cause,
            GuardErrorView::RecordRemovalFailed { cause } => "Failed to remove PID file: "@ + cause,
        }
    }
}

impl GuardError {
    /// The message for the user.
    pub fn message(&self) -> (text: String)
        ensures
            text@ == self@.text(),
    {
        match self {
            GuardError::TerminationFailed { cause } => {
                let mut text = String::from_str("Failed to stop Chakra server: ");
                text.append(cause.as_str());
                text
            },
            GuardError::RecordRemovalFailed { cause } => {
                let mut text = String::from_str("Failed to remove PID file: ");
                text.append(cause.as_str());
                text
            },
        }
    }
}

/// What the guard asks to be done next.
#[derive(Clone, Copy, Debug, PartialEq, Eq, Structural)]
pub enum GuardAction {
    /// Read the record and report what it holds, or that there is none.
    ReadRecord,
    /// List the process `pid` and report the listing.
    Probe { pid: u32 },
    /// Send the process `pid` a forced-termination signal.
    Terminate { pid: u32 },
    /// Delete the record.
    RemoveRecord,
    /// No prior instance stands in the way: start-up may go on.
    Proceed,
    /// The guard failed: start-up must be given up.
    GiveUp,
}

/// Where the guard stands.
#[derive(Clone, Debug, PartialEq, Eq)]
pub enum GuardState {
    /// Waiting for the record's contents.
    ReadingRecord,
    /// Waiting to learn whether the recorded process is alive.
    Probing { pid: u32 },
    /// Waiting for the termination signal to be sent.
    Terminating { pid: u32 },
    /// Waiting for the terminated process to be gone.
    AwaitingExit { pid: u32 },
    /// Waiting for the record to be deleted. `displaced` is the process
    /// that was terminated, if one was.
    RemovingRecord { displaced: Option<u32> },
    /// Done: no prior instance is left.
    Clear { displaced: Option<u32> },
    /// Done: the guard failed.
    Failed { error: GuardError },
}

/// A `GuardState` as mathematical values.
pub enum GuardStateView {
    ReadingRecord,
    Probing { pid: u32 },
    Terminating { pid: u32 },
    AwaitingExit { pid: u32 },
    RemovingRecord { displaced: Option<u32> },
    Clear { displaced: Option<u32> },
    Failed { error: GuardErrorView },
}

impl View for GuardState {
    type V = GuardStateView;

    open spec fn view(&self) -> GuardStateView {
        match self {
            GuardState::ReadingRecord => GuardStateView::ReadingRecord,
            GuardState::Probing { pid } => GuardStateView::Probing { pid: *pid },
            GuardState::Terminating { pid } => GuardStateView::Terminating { pid: *pid },
            GuardState::AwaitingExit { pid } => GuardStateView::AwaitingExit { pid: *pid },
            GuardState::RemovingRecord { displaced } => GuardStateView::RemovingRecord {
                displaced: *displaced,
            },
            GuardState::Clear { displaced } => GuardStateView::Clear { displaced: *displaced },
            GuardState::Failed { error } => GuardStateView::Failed { error: error@ },
        }
    }
}

/// What came back from outside.
#[derive(Clone, Debug, PartialEq, Eq)]
pub enum GuardEvent {
    /// There is no record.
    RecordAbsent,
    /// The record holds `text`.
    RecordRead { text: String },
    /// There is a record, but it could not be read.
    RecordUnreadable,
    /// The process listing ran: how it ended and what it printed.
    Probed { exit_success: bool, stdout: String },
    /// The process listing could not be run.
    ProbeUnavailable,
    /// The termination signal was sent.
    Terminated,
    /// The termination signal could not be sent.
    TerminationFailed { cause: String },
    /// The record was deleted.
    RecordRemoved,
    /// The record could not be deleted.
    RecordRemovalFailed { cause: String },
}

/// A `GuardEvent` as mathematical values.
pub enum GuardEventView {
    RecordAbsent,
    RecordRead { text: Seq<char> },
    RecordUnreadable,
    Probed { exit_success: bool, stdout: Seq<char> },
    ProbeUnavailable,
    Terminated,
    TerminationFailed { cause: Seq<char> },
    RecordRemoved,
    RecordRemovalFailed { cause: Seq<char> },
}

impl View for GuardEvent {
    type V = GuardEventView;

    open spec fn view(&self) -> GuardEventView {
        match self {
            GuardEvent::RecordAbsent => GuardEventView::RecordAbsent,
            GuardEvent::RecordRead { text } => GuardEventView::RecordRead { text: text@ },
            GuardEvent::RecordUnreadable => GuardEventView::RecordUnreadable,
            GuardEvent::Probed { exit_success, stdout } => GuardEventView::Probed {
                exit_success: *exit_success,
                stdout: stdout@,
            },
            GuardEvent::ProbeUnavailable => GuardEventView::ProbeUnavailable,
            GuardEvent::Terminated => GuardEventView::Terminated,
            GuardEvent::TerminationFailed { cause } => GuardEventView::TerminationFailed {
                cause: cause@,
            },
            GuardEvent::RecordRemoved => GuardEventView::RecordRemoved,
            GuardEvent::RecordRemovalFailed { cause } => GuardEventView::RecordRemovalFailed {
                cause: cause@,
            },
        }
    }
}

impl GuardEventView {
    /// The event is the outcome of a probe.
    pub open spec fn is_probe_outcome(self) -> bool {
        self is Probed || self is ProbeUnavailable
    }

    /// The event is a probe that found the process alive. A listing that
    /// could not be run finds nothing.
    pub open spec fn shows_process(self) -> bool {
        match self {
            GuardEventView::Probed { exit_success, stdout } => probe_shows_process(
                exit_success,
                stdout,
            ),
            _ => false,
        }
    }
}

/// The state the guard starts in.
pub open spec fn guard_start() -> GuardStateView {
    GuardStateView::ReadingRecord
}

/// The guard's transitions. An event that the state does not wait for
/// leaves the state as it is, and the two final states never change.
pub open spec fn guard_step(state: GuardStateView, event: GuardEventView) -> GuardStateView {
    match state {
        GuardStateView::ReadingRecord => match event {
            GuardEventView::RecordAbsent => GuardStateView::Clear { displaced: None },
            GuardEventView::RecordRead { text } => match parsed_u32(text) {
                Some(pid) => GuardStateView::Probing { pid },
                None => GuardStateView::RemovingRecord { displaced: None },
            },
            GuardEventView::RecordUnreadable => GuardStateView::RemovingRecord { displaced: None },
            _ => state,
        },
        GuardStateView::Probing { pid } => if event.is_probe_outcome() {
            if event.shows_process() {
                GuardStateView::Terminating { pid }
            } else {
                GuardStateView::RemovingRecord { displaced: None }
            }
        } else {
            state
        },
        GuardStateView::Terminating { pid } => match event {
            GuardEventView::Terminated => GuardStateView::AwaitingExit { pid },
            GuardEventView::TerminationFailed { cause } => GuardStateView::Failed {
                error: GuardErrorView::TerminationFailed { cause },
            },
            _ => state,
        },
        GuardStateView::AwaitingExit { pid } => if event.is_probe_outcome()
            && !event.shows_process() {
            GuardStateView::RemovingRecord { displaced: Some(pid) }
        } else {
            state
        },
        GuardStateView::RemovingRecord { displaced } => match event {
            GuardEventView::RecordRemoved => GuardStateView::Clear { displaced },
            GuardEventView::RecordRemovalFailed { cause } => GuardStateView::Failed {
                error: GuardErrorView::RecordRemovalFailed { cause },
            },
            _ => state,
        },
        GuardStateView::Clear { .. } => state,
        GuardStateView::Failed { .. } => state,
    }
}

/// What each state asks for.
pub open spec fn guard_request(state: GuardStateView) -> GuardAction {
    match state {
        GuardStateView::ReadingRecord => GuardAction::ReadRecord,
        GuardStateView::Probing { pid } => GuardAction::Probe { pid },
        GuardStateView::Terminating { pid } => GuardAction::Terminate { pid },
        GuardStateView::AwaitingExit { pid } => GuardAction::Probe { pid },
        GuardStateView::RemovingRecord { .. } => GuardAction::RemoveRecord,
        GuardStateView::Clear { .. } => GuardAction::Proceed,
        GuardStateView::Failed { .. } => GuardAction::GiveUp,
    }
}

impl GuardState {
    /// The state the guard starts in: it asks for the record.
    pub fn start() -> (state: GuardState)
        ensures
            state@ == guard_start(),
    {
        GuardState::ReadingRecord
    }

    /// What this state asks for.
    pub fn request(&self) -> (action: GuardAction)
        ensures
            action == guard_request(self@),
    {
        match self {
            GuardState::ReadingRecord => GuardAction::ReadRecord,
            GuardState::Probing { pid } => GuardAction::Probe { pid: *pid },
            GuardState::Terminating { pid } => GuardAction::Terminate { pid: *pid },
            GuardState::AwaitingExit { pid } => GuardAction::Probe { pid: *pid },
            GuardState::RemovingRecord { .. } => GuardAction::RemoveRecord,
            GuardState::Clear { .. } => GuardAction::Proceed,
            GuardState::Failed { .. } => GuardAction::GiveUp,
        }
    }
}

/// Whether `event` is a probe that found the process alive.
fn event_shows_process(event: &GuardEvent) -> (shows: bool)
    ensures
        shows == event@.shows_process(),
{
    match event {
        GuardEvent::Probed { exit_success, stdout } => is_server_running(
            *exit_success,
            stdout.as_str(),
        ),
        _ => false,
    }
}

/// Whether `event` is the outcome of a probe.
fn event_is_probe_outcome(event: &GuardEvent) -> (r: bool)
    ensures
        r == event@.is_probe_outcome(),
{
    match event {
        GuardEvent::Probed { .. } => true,
        GuardEvent::ProbeUnavailable => true,
        _ => false,
    }
}

/// Takes the guard one step: from where it stands and what came back to
/// where it stands next and what it asks for next.
///
/// A record that is absent clears the way at once. A record that cannot be
/// read, holds no process id, or names a process that is not alive is stale
/// and is removed without any attempt to terminate. A live process is sent
/// the termination signal; once it is gone the record is removed. A signal
/// that cannot be sent, or a record that cannot be removed, fails the guard.
pub fn stop_existing_server(state: GuardState, event: GuardEvent) -> (next: (
    GuardState,
    GuardAction,
))
    ensures
        next.0@ == guard_step(state@, event@),
        next.1 == guard_request(next.0@),
{
    let next_state = match state {
        GuardState::ReadingRecord => match event {
            GuardEvent::RecordAbsent => GuardState::Clear { displaced: None },
            GuardEvent::RecordRead { text } => match recorded_pid(text.as_str()) {
                Some(pid) => GuardState::Probing { pid },
                None => GuardState::RemovingRecord { displaced: None },
            },
            GuardEvent::RecordUnreadable => GuardState::RemovingRecord { displaced: None },
            _ => GuardState::ReadingRecord,
        },
        GuardState::Probing { pid } => if event_is_probe_outcome(&event) {
            if event_shows_process(&event) {
                GuardState::Terminating { pid }
            } else {
                GuardState::RemovingRecord { displaced: None }
            }
        } else {
            GuardState::Probing { pid }
        },
        GuardState::Terminating { pid } => match event {
            GuardEvent::Terminated => GuardState::AwaitingExit { pid },
            GuardEvent::TerminationFailed { cause } => GuardState::Failed {
                error: GuardError::TerminationFailed { cause },
            },
            _ => GuardState::Terminating { pid },
        },
        GuardState::AwaitingExit { pid } => if event_is_probe_outcome(&event)
            && !event_shows_process(&event) {
            GuardState::RemovingRecord { displaced: Some(pid) }
        } else {
            GuardState::AwaitingExit { pid }
        },
        GuardState::RemovingRecord { displaced } => match event {
            GuardEvent::RecordRemoved => GuardState::Clear { displaced },
            GuardEvent::RecordRemovalFailed { cause } => GuardState::Failed {
                error: GuardError::RecordRemovalFailed { cause },
            },
            _ => GuardState::RemovingRecord { displaced },
        },
        GuardState::Clear { displaced } => GuardState::Clear { displaced },
        GuardState::Failed { error } => GuardState::Failed { error },
    };
    let action = next_state.request();
    (next_state, action)
}

/// The state the guard has reached after the events of a run, in order.
pub open spec fn guard_run(events: Seq<GuardEventView>) -> GuardStateView
    decreases events.len(),
{
    if events.len() == 0 {
        guard_start()
    } else {
        guard_step(guard_run(events.drop_last()), events.last())
    }
}

/// Event `k` of the run is a probe that found the recorded process `pid`
/// alive.
pub open spec fn found_alive_at(events: Seq<GuardEventView>, pid: u32, k: int) -> bool {
    &&& 0 <= k < events.len()
    &&& guard_run(events.take(k)) == GuardStateView::Probing { pid }
    &&& events[k].is_probe_outcome()
    &&& events[k].shows_process()
}

/// Event `k` of the run is a probe that found the recorded process `pid`
/// not alive.
pub open spec fn found_dead_at(events: Seq<GuardEventView>, pid: u32, k: int) -> bool {
    &&& 0 <= k < events.len()
    &&& guard_run(events.take(k)) == GuardStateView::Probing { pid }
    &&& events[k].is_probe_outcome()
    &&& !events[k].shows_process()
}

/// Event `i` of the run reports that the termination signal, which the
/// guard had asked for, was sent to `pid`.
pub open spec fn signalled_at(events: Seq<GuardEventView>, pid: u32, i: int) -> bool {
    &&& 0 <= i < events.len()
    &&& guard_request(guard_run(events.take(i))) == GuardAction::Terminate { pid }
    &&& events[i] is Terminated
}

/// Event `j` of the run is a probe, asked for after the signal, that found
/// `pid` gone.
pub open spec fn gone_at(events: Seq<GuardEventView>, pid: u32, j: int) -> bool {
    &&& 0 <= j < events.len()
    &&& guard_run(events.take(j)) == GuardStateView::AwaitingExit { pid }
    &&& events[j].is_probe_outcome()
    &&& !events[j].shows_process()
}

/// Event `j` of the run reports that the record, which the guard had asked
/// to be removed, was removed.
pub open spec fn removed_at(events: Seq<GuardEventView>, j: int) -> bool {
    &&& 0 <= j < events.len()
    &&& guard_request(guard_run(events.take(j))) == GuardAction::RemoveRecord
    &&& events[j] is RecordRemoved
}

/// The guard has not asked for a termination at any point of the run.
pub open spec fn never_terminates(events: Seq<GuardEventView>) -> bool {
    forall|k: int|
        0 <= k <= events.len() ==> !(guard_request(guard_run(#[trigger] events.take(k)))
            is Terminate)
}

/// The run of a prefix extended by the next event is one step further.
proof fn lemma_run_extends(events: Seq<GuardEventView>, m: int)
    requires
        0 < m <= events.len(),
    ensures
        guard_run(events.take(m)) == guard_step(guard_run(events.take(m - 1)), events[m - 1]),
{
    assert(events.take(m).drop_last() =~= events.take(m - 1));
}

/// What holds from the moment the recorded process was found alive.
spec fn displacing(events: Seq<GuardEventView>, pid: u32, m: int) -> bool {
    match guard_run(events.take(m)) {
        GuardStateView::Terminating { pid: p } => p == pid,
        GuardStateView::AwaitingExit { pid: p } => p == pid && exists|i: int|
            i < m && signalled_at(events, pid, i),
        GuardStateView::RemovingRecord { displaced } => displaced == Some(pid) && exists|
            i: int,
            j: int,
        |
            i < j < m && signalled_at(events, pid, i) && gone_at(events, pid, j),
        GuardStateView::Clear { displaced } => displaced == Some(pid) && exists|
            i: int,
            j: int,
            r: int,
        |
            i < j < r < m && signalled_at(events, pid, i) && gone_at(events, pid, j) && removed_at(
                events,
                r,
            ),
        GuardStateView::Failed { .. } => true,
        _ => false,
    }
}

proof fn lemma_displacing(events: Seq<GuardEventView>, pid: u32, k: int, m: int)
    requires
        found_alive_at(events, pid, k),
        k < m <= events.len(),
    ensures
        displacing(events, pid, m),
    decreases m,
{
    lemma_run_extends(events, m);
    if m > k + 1 {
        lemma_displacing(events, pid, k, m - 1);
        let before = guard_run(events.take(m - 1));
        let event = events[m - 1];
        match before {
            GuardStateView::Terminating { .. } => {
                if event is Terminated {
                    assert(signalled_at(events, pid, m - 1));
                }
            },
            GuardStateView::AwaitingExit { .. } => {
                if event.is_probe_outcome() && !event.shows_process() {
                    let i = choose|i: int| i < m - 1 && signalled_at(events, pid, i);
                    assert(i < m - 1 < m && signalled_at(events, pid, i) && gone_at(
                        events,
                        pid,
                        m - 1,
                    ));
                }
            },
            GuardStateView::RemovingRecord { .. } => {
                let (i, j) = choose|i: int, j: int|
                    i < j < m - 1 && signalled_at(events, pid, i) && gone_at(events, pid, j);
                if event is RecordRemoved {
                    assert(i < j < m - 1 < m && signalled_at(events, pid, i) && gone_at(
                        events,
                        pid,
                        j,
                    ) && removed_at(events, m - 1));
                } else {
                    assert(i < j < m && signalled_at(events, pid, i) && gone_at(events, pid, j));
                }
            },
            GuardStateView::Clear { .. } => {
                let (i, j, r) = choose|i: int, j: int, r: int|
                    i < j < r < m - 1 && signalled_at(events, pid, i) && gone_at(events, pid, j)
                        && removed_at(events, r);
                assert(i < j < r < m && signalled_at(events, pid, i) && gone_at(events, pid, j)
                    && removed_at(events, r));
            },
            _ => {},
        }
    }
}

/// A live prior instance is out of the way before the guard lets start-up
/// go on. In every run in which the recorded process was found alive and
/// the guard ended clear, the guard asked for that process to be
/// terminated, learnt afterwards from a probe that it was gone, and only
/// then had the record removed.
pub proof fn lemma_live_instance_is_terminated_first(
    events: Seq<GuardEventView>,
    pid: u32,
    k: int,
)
    requires
        found_alive_at(events, pid, k),
        guard_run(events) is Clear,
    ensures
        guard_run(events) == (GuardStateView::Clear { displaced: Some(pid) }),
        exists|i: int, j: int, r: int|
            k < i < j < r < events.len() && signalled_at(events, pid, i) && gone_at(events, pid, j)
                && removed_at(events, r),
{
    let n = events.len() as int;
    assert(events.take(n) =~= events);
    lemma_displacing(events, pid, k, n);
    let (i, j, r) = choose|i: int, j: int, r: int|
        i < j < r < n && signalled_at(events, pid, i) && gone_at(events, pid, j) && removed_at(
            events,
            r,
        );
    if i <= k {
        lemma_not_yet_terminating(events, k, i);
    }
    assert(k < i < j < r < events.len() && signalled_at(events, pid, i) && gone_at(events, pid, j)
        && removed_at(events, r));
}

/// While the guard is still probing, it has not asked for a termination
/// before.
proof fn lemma_not_yet_terminating(events: Seq<GuardEventView>, k: int, i: int)
    requires
        0 <= i <= k <= events.len(),
        guard_run(events.take(k)) is Probing,
    ensures
        !(guard_request(guard_run(events.take(i))) is Terminate),
    decreases k - i,
{
    if i < k {
        lemma_run_extends(events, k);
        let before = guard_run(events.take(k - 1));
        assert(before is ReadingRecord || before is Probing);
        if before is Probing {
            lemma_not_yet_terminating(events, k - 1, i);
        } else {
            lemma_still_reading(events, k - 1, i);
        }
    }
}

/// While the guard is still reading the record, it has done nothing else
/// before.
proof fn lemma_still_reading(events: Seq<GuardEventView>, k: int, i: int)
    requires
        0 <= i <= k <= events.len(),
        guard_run(events.take(k)) is ReadingRecord,
    ensures
        guard_run(events.take(i)) is ReadingRecord,
    decreases k - i,
{
    if i < k {
        lemma_run_extends(events, k);
        lemma_still_reading(events, k - 1, i);
    }
}

/// The states in which no process has been found alive.
spec fn undisturbed(state: GuardStateView) -> bool {
    match state {
        GuardStateView::ReadingRecord => true,
        GuardStateView::Probing { .. } => true,
        GuardStateView::RemovingRecord { displaced } => displaced is None,
        GuardStateView::Clear { displaced } => displaced is None,
        _ => false,
    }
}

proof fn lemma_undisturbed_all_along(events: Seq<GuardEventView>, m: int, k: int)
    requires
        0 <= k <= m <= events.len(),
        undisturbed(guard_run(events.take(m))),
    ensures
        undisturbed(guard_run(events.take(k))),
    decreases m - k,
{
    if k < m {
        lemma_run_extends(events, m);
        lemma_undisturbed_all_along(events, m - 1, k);
    }
}

/// The record is out of the way: it was found absent, or it was removed.
pub open spec fn record_gone(events: Seq<GuardEventView>) -> bool {
    exists|j: int|
        0 <= j < events.len() && ((guard_run(#[trigger] events.take(j)) is ReadingRecord
            && events[j] is RecordAbsent) || removed_at(events, j))
}

/// What `record_gone` says, of the first `m` events.
spec fn record_gone_within(events: Seq<GuardEventView>, m: int) -> bool {
    exists|j: int|
        0 <= j < m && ((guard_run(#[trigger] events.take(j)) is ReadingRecord
            && events[j] is RecordAbsent) || removed_at(events, j))
}

proof fn lemma_record_gone_within(events: Seq<GuardEventView>, m: int)
    requires
        0 <= m <= events.len(),
        guard_run(events.take(m)) is Clear,
    ensures
        record_gone_within(events, m),
    decreases m,
{
    assert(events.take(0) =~= Seq::<GuardEventView>::empty());
    if m > 0 {
        lemma_run_extends(events, m);
        let before = guard_run(events.take(m - 1));
        if before is Clear {
            lemma_record_gone_within(events, m - 1);
            let j = choose|j: int|
                0 <= j < m - 1 && ((guard_run(#[trigger] events.take(j)) is ReadingRecord
                    && events[j] is RecordAbsent) || removed_at(events, j));
            assert(0 <= j < m && ((guard_run(events.take(j)) is ReadingRecord
                && events[j] is RecordAbsent) || removed_at(events, j)));
        } else {
            assert(0 <= m - 1 < m && ((guard_run(events.take(m - 1)) is ReadingRecord && events[m
                - 1] is RecordAbsent) || removed_at(events, m - 1)));
        }
    }
}

/// No record outlives the guard. In every run that ends clear, the record
/// was found absent or the guard had it removed.
pub proof fn lemma_clear_means_record_gone(events: Seq<GuardEventView>)
    requires
        guard_run(events) is Clear,
    ensures
        record_gone(events),
{
    let n = events.len() as int;
    assert(events.take(n) =~= events);
    lemma_record_gone_within(events, n);
}

/// Where nothing was displaced, nothing was terminated. In every run that
/// ends clear without a displaced process, the guard never asked for a
/// termination, and either there was no record or the guard had it removed.
pub proof fn lemma_nothing_displaced_means_never_terminated(events: Seq<GuardEventView>)
    requires
        guard_run(events) == (GuardStateView::Clear { displaced: None }),
    ensures
        never_terminates(events),
        record_gone(events),
{
    let n = events.len() as int;
    assert(events.take(n) =~= events);
    assert forall|k: int| 0 <= k <= events.len() implies !(guard_request(
        guard_run(#[trigger] events.take(k)),
    ) is Terminate) by {
        lemma_undisturbed_all_along(events, n, k);
    }
    lemma_clear_means_record_gone(events);
}

/// What holds from the moment the recorded process was found not alive.
spec fn removing_stale(events: Seq<GuardEventView>, k: int, m: int) -> bool {
    match guard_run(events.take(m)) {
        GuardStateView::RemovingRecord { displaced } => displaced is None,
        GuardStateView::Clear { displaced } => displaced is None && exists|r: int|
            k < r < m && removed_at(events, r),
        GuardStateView::Failed { .. } => true,
        _ => false,
    }
}

proof fn lemma_removing_stale(events: Seq<GuardEventView>, pid: u32, k: int, m: int)
    requires
        found_dead_at(events, pid, k),
        k < m <= events.len(),
    ensures
        removing_stale(events, k, m),
    decreases m,
{
    lemma_run_extends(events, m);
    if m > k + 1 {
        lemma_removing_stale(events, pid, k, m - 1);
        let before = guard_run(events.take(m - 1));
        match before {
            GuardStateView::RemovingRecord { .. } => {
                if events[m - 1] is RecordRemoved {
                    assert(k < m - 1 < m && removed_at(events, m - 1));
                }
            },
            GuardStateView::Clear { .. } => {
                let r = choose|r: int| k < r < m - 1 && removed_at(events, r);
                assert(k < r < m && removed_at(events, r));
            },
            _ => {},
        }
    }
}

/// A stale record is removed without any attempt to terminate. In every
/// run in which the recorded process was found not alive and the guard
/// ended clear, the guard never asked for a termination, displaced no
/// process, and had the record removed after the probe.
pub proof fn lemma_stale_record_is_removed_without_termination(
    events: Seq<GuardEventView>,
    pid: u32,
    k: int,
)
    requires
        found_dead_at(events, pid, k),
        guard_run(events) is Clear,
    ensures
        guard_run(events) == (GuardStateView::Clear { displaced: None }),
        never_terminates(events),
        exists|r: int| k < r < events.len() && removed_at(events, r),
{
    let n = events.len() as int;
    assert(events.take(n) =~= events);
    lemma_removing_stale(events, pid, k, n);
    lemma_nothing_displaced_means_never_terminated(events);
    let r = choose|r: int| k < r < n && removed_at(events, r);
    assert(k < r < events.len() && removed_at(events, r));
}

/// A record that names a process which is not alive is stale: the guard
/// asks for the probe, then for the removal, and is clear once the record
/// is gone.
pub proof fn lemma_dead_process_record_is_stale(
    text: Seq<char>,
    pid: u32,
    probe: GuardEventView,
)
    requires
        parsed_u32(text) == Some(pid),
        probe.is_probe_outcome(),
        !probe.shows_process(),
    ensures
        ({
            let read = guard_step(guard_start(), GuardEventView::RecordRead { text });
            let probed = guard_step(read, probe);
            let removed = guard_step(probed, GuardEventView::RecordRemoved);
            &&& guard_request(guard_start()) == GuardAction::ReadRecord
            &&& guard_request(read) == GuardAction::Probe { pid }
            &&& guard_request(probed) == GuardAction::RemoveRecord
            &&& removed == GuardStateView::Clear { displaced: None }
            &&& guard_request(removed) == GuardAction::Proceed
        }),
{
}

/// A record that names a live process has that process terminated: the
/// guard asks for the probe, then for the termination, then probes until
/// the process is gone, then has the record removed, and only then is
/// clear.
pub proof fn lemma_live_process_is_displaced(
    text: Seq<char>,
    pid: u32,
    alive: GuardEventView,
    gone: GuardEventView,
)
    requires
        parsed_u32(text) == Some(pid),
        alive.is_probe_outcome(),
        alive.shows_process(),
        gone.is_probe_outcome(),
        !gone.shows_process(),
    ensures
        ({
            let read = guard_step(guard_start(), GuardEventView::RecordRead { text });
            let probed = guard_step(read, alive);
            let signalled = guard_step(probed, GuardEventView::Terminated);
            let lingering = guard_step(signalled, alive);
            let exited = guard_step(lingering, gone);
            let removed = guard_step(exited, GuardEventView::RecordRemoved);
            &&& guard_request(read) == GuardAction::Probe { pid }
            &&& guard_request(probed) == GuardAction::Terminate { pid }
            &&& guard_request(signalled) == GuardAction::Probe { pid }
            &&& guard_request(lingering) == GuardAction::Probe { pid }
            &&& guard_request(exited) == GuardAction::RemoveRecord
            &&& removed == GuardStateView::Clear { displaced: Some(pid) }
            &&& guard_request(removed) == GuardAction::Proceed
        }),
{
}

/// A termination signal that cannot be sent fails the guard with the cause
/// it was given, and the guard then gives up for good.
pub proof fn lemma_failed_termination_is_fatal(
    pid: u32,
    cause: Seq<char>,
    later: GuardEventView,
)
    ensures
        ({
            let failed = guard_step(
                GuardStateView::Terminating { pid },
                GuardEventView::TerminationFailed { cause },
            );
            &&& failed == GuardStateView::Failed {
                error: GuardErrorView::TerminationFailed { cause },
            }
            &&& guard_request(failed) == GuardAction::GiveUp
            &&& guard_step(failed, later) == failed
        }),
{
}

} // verus!
