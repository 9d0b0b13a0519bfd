//! The daemon as a state machine.
//!
//! The daemon owns no file, socket or signal handler here. Its caller performs
//! each [`Action`] and tells what happened in a [`Report`]; the daemon
//! decides what comes next. One pass of the main loop polls the shutdown flag,
//! tries one accept, reads at most one request, pumps the presence bridge once
//! and yields.

use vstd::prelude::*;
use crate::daemon::error::DaemonError;
use crate::daemon::state::DaemonState;
use vstd::utf8::{decode_utf8, valid_utf8};
use crate::text::{decode, trim, trimmed};

pub mod error;
pub mod laws;
pub mod state;

verus! {

/// What the daemon is waiting for.
#[derive(Debug, Clone, Copy, PartialEq, Eq, Structural)]
pub enum Phase {
    /// Constructed; `run` has not begun.
    Idle,
    /// Waiting for the outcome of the exclusive lock.
    Locking,
    /// Waiting for the outcome of the signal registration.
    Registering,
    /// Waiting for the value of the shutdown flag.
    Polling,
    /// Waiting for the outcome of one accept attempt.
    Accepting,
    /// Waiting for the request of the attached client.
    Reading,
    /// Waiting for the presence bridge's pump.
    Pumping,
    /// Waiting for the pause between two passes.
    Yielding,
    /// The run has ended.
    Finished,
}

/// What the caller did or observed.
#[derive(Debug, Clone, PartialEq, Eq)]
pub enum Report {
    /// The run was started.
    Run,
    /// The exclusive lock: `true` when acquired, `false` when another process
    /// holds it.
    Lock(bool),
    /// The signal handler is installed.
    SignalRegistered,
    /// The signal registration failed, with the system's error number.
    SignalFailed(i32),
    /// The shutdown flag as read.
    Shutdown(bool),
    /// One accept attempt: the session's number, or `None` when no client was
    /// waiting.
    Accepted(Option<u64>),
    /// The accept attempt failed with this error number.
    AcceptFailed(i32),
    /// The bytes that the client sent before it closed its side.
    Request(Vec<u8>),
    /// The read of the request failed with this error number.
    RequestFailed(i32),
    /// The presence bridge was pumped.
    Pumped,
    /// The pump of the presence bridge failed with this service error code.
    PumpFailed(i32),
    /// The pause is over.
    Yielded,
}

/// What the caller is to do next.
#[derive(Debug, Clone, Copy, PartialEq, Eq)]
pub enum Action {
    /// Try once, without waiting, to take the exclusive lock.
    AcquireLock,
    /// Install the handler that sets the shutdown flag on an interrupt.
    RegisterSignal,
    /// Read the shutdown flag.
    PollShutdown,
    /// Try once, without waiting, to accept a client.
    Accept,
    /// Read the one request of the session with this number.
    ReadRequest(u64),
    /// Pump the presence bridge once.
    Pump,
    /// Pause briefly.
    Yield,
    /// Return from the run with this result.
    Finish(Result<(), DaemonError>),
}

/// What the caller is to write to the log before it acts.
#[derive(Debug, Clone, PartialEq, Eq)]
pub enum Log {
    Nothing,
    /// The lock is held by another daemon.
    LockHeld,
    /// A client attached under this number.
    Connected(u64),
    /// No client could be accepted.
    AcceptFailed(i32),
    /// The request received, without surrounding whitespace.
    Received(String),
    /// The request is no UTF-8 text.
    Undecodable,
    /// The request could not be read.
    ReadFailed(i32),
    /// The presence bridge reported an error.
    PumpFailed(i32),
    /// The shutdown flag was seen.
    ShuttingDown,
}

/// A [`Log`] with its text as a sequence of characters.
pub enum LogView {
    Nothing,
    LockHeld,
    Connected(u64),
    AcceptFailed(i32),
    Received(Seq<char>),
    Undecodable,
    ReadFailed(i32),
    PumpFailed(i32),
    ShuttingDown,
}

impl View for Log {
    type V = LogView;

    open spec fn view(&self) -> LogView {
        match *self {
            Log::Nothing => LogView::Nothing,
            Log::LockHeld => LogView::LockHeld,
            Log::Connected(id) => LogView::Connected(id),
            Log::AcceptFailed(code) => LogView::AcceptFailed(code),
            Log::Received(text) => LogView::Received(text@),
            Log::Undecodable => LogView::Undecodable,
            Log::ReadFailed(code) => LogView::ReadFailed(code),
            Log::PumpFailed(code) => LogView::PumpFailed(code),
            Log::ShuttingDown => LogView::ShuttingDown,
        }
    }
}

/// The daemon's answer to one report.
#[derive(Debug, Clone, PartialEq, Eq)]
pub struct Step {
    pub log: Log,
    pub action: Action,
}

/// A [`Step`] with its log entry viewed.
pub struct StepView {
    pub log: LogView,
    pub action: Action,
}

impl View for Step {
    type V = StepView;

    open spec fn view(&self) -> StepView {
        StepView { log: self.log@, action: self.action }
    }
}

/// One step of provisioning, in the order in which the steps are taken.
#[derive(Debug, Clone, Copy, PartialEq, Eq, Structural)]
pub enum Provision {
    /// Publish this client identifier to the presence bridge.
    SetClientId(i64),
    /// Delete what a daemon that did not shut down left at the socket path.
    RemoveStaleSocket,
    /// Bind the control socket.
    BindSocket,
    /// Put the control socket into non-blocking mode.
    SetNonblocking,
    /// Open the lock file that exists.
    OpenLockFile,
    /// Create the lock file.
    CreateLockFile,
    /// Establish the presence-service connection.
    ConnectPresence,
}

/// The daemon: its lifecycle state and what it waits for.
#[derive(Debug, Clone, Copy, PartialEq, Eq, Structural)]
pub struct Daemon {
    pub state: DaemonState,
    pub phase: Phase,
    pub failure: Option<DaemonError>,
    pub client_id: Option<i64>,
}

/// The action that a daemon in this phase is waiting on.
pub open spec fn pending(d: Daemon) -> Action {
    match d.phase {
        Phase::Idle | Phase::Locking => Action::AcquireLock,
        Phase::Registering => Action::RegisterSignal,
        Phase::Polling => Action::PollShutdown,
        Phase::Accepting => Action::Accept,
        Phase::Reading => match d.state {
            DaemonState::Connected(id) => Action::ReadRequest(id),
            _ => Action::Accept,
        },
        Phase::Pumping => Action::Pump,
        Phase::Yielding => Action::Yield,
        Phase::Finished => Action::Finish(
            match d.failure {
                Some(e) => Err(e),
                None => Ok(()),
            },
        ),
    }
}

/// Whether `e` is the report that a daemon in this phase is waiting for.
pub open spec fn expects(d: Daemon, e: Report) -> bool {
    match (d.phase, e) {
        (Phase::Idle, Report::Run) => true,
        (Phase::Locking, Report::Lock(_)) => true,
        (Phase::Registering, Report::SignalRegistered) => true,
        (Phase::Registering, Report::SignalFailed(_)) => true,
        (Phase::Polling, Report::Shutdown(_)) => true,
        (Phase::Accepting, Report::Accepted(_)) => true,
        (Phase::Accepting, Report::AcceptFailed(_)) => true,
        (Phase::Reading, Report::Request(_)) => true,
        (Phase::Reading, Report::RequestFailed(_)) => true,
        (Phase::Pumping, Report::Pumped) => true,
        (Phase::Pumping, Report::PumpFailed(_)) => true,
        (Phase::Yielding, Report::Yielded) => true,
        _ => false,
    }
}

/// The daemon after it has taken in `e`. A report that the daemon does not
/// wait for leaves it as it is.
pub open spec fn after(d: Daemon, e: Report) -> Daemon {
    match (d.phase, e) {
        (Phase::Idle, Report::Run) => Daemon { phase: Phase::Locking, ..d },
        (Phase::Locking, Report::Lock(true)) => Daemon { phase: Phase::Registering, ..d },
        (Phase::Locking, Report::Lock(false)) => Daemon {
            phase: Phase::Finished,
            failure: Some(DaemonError::DaemonAlreadyActiv),
            ..d
        },
        (Phase::Registering, Report::SignalRegistered) => Daemon {
            state: DaemonState::Disconnected,
            phase: Phase::Polling,
            ..d
        },
        (Phase::Registering, Report::SignalFailed(code)) => Daemon {
            phase: Phase::Finished,
            failure: Some(DaemonError::StdIo(code)),
            ..d
        },
        (Phase::Polling, Report::Shutdown(true)) => Daemon {
            state: DaemonState::Exit,
            phase: Phase::Finished,
            failure: None,
            ..d
        },
        (Phase::Polling, Report::Shutdown(false)) => Daemon { phase: Phase::Accepting, ..d },
        (Phase::Accepting, Report::Accepted(Some(id))) => Daemon {
            state: DaemonState::Connected(id),
            phase: Phase::Reading,
            ..d
        },
        (Phase::Accepting, Report::Accepted(None))
        | (Phase::Accepting, Report::AcceptFailed(_)) => Daemon { phase: Phase::Pumping, ..d },
        (Phase::Reading, Report::Request(_))
        | (Phase::Reading, Report::RequestFailed(_)) => Daemon {
            state: DaemonState::Disconnected,
            phase: Phase::Pumping,
            ..d
        },
        (Phase::Pumping, Report::Pumped) | (Phase::Pumping, Report::PumpFailed(_)) => Daemon {
            phase: Phase::Yielding,
            ..d
        },
        (Phase::Yielding, Report::Yielded) => Daemon { phase: Phase::Polling, ..d },
        _ => d,
    }
}

/// What the daemon writes to the log when it takes in `e`.
pub open spec fn logged(d: Daemon, e: Report) -> LogView {
    match (d.phase, e) {
        (Phase::Locking, Report::Lock(false)) => LogView::LockHeld,
        (Phase::Polling, Report::Shutdown(true)) => LogView::ShuttingDown,
        (Phase::Accepting, Report::Accepted(Some(id))) => LogView::Connected(id),
        (Phase::Accepting, Report::AcceptFailed(code)) => LogView::AcceptFailed(code),
        (Phase::Reading, Report::Request(payload)) => request_log(payload@),
        (Phase::Reading, Report::RequestFailed(code)) => LogView::ReadFailed(code),
        (Phase::Pumping, Report::PumpFailed(code)) => LogView::PumpFailed(code),
        _ => LogView::Nothing,
    }
}

/// The log entry for a request of these bytes: the text they encode, without
/// the whitespace around it, if they are UTF-8.
pub open spec fn request_log(payload: Seq<u8>) -> LogView {
    if valid_utf8(payload) {
        LogView::Received(trimmed(decode_utf8(payload)))
    } else {
        LogView::Undecodable
    }
}

/// The daemon's answer to `e`: the log entry, and the action that the daemon
/// waits on afterwards.
pub open spec fn answer(d: Daemon, e: Report) -> StepView {
    StepView { log: logged(d, e), action: pending(after(d, e)) }
}

/// The daemon after it has taken in `reports`, first to last.
pub open spec fn after_all(d: Daemon, reports: Seq<Report>) -> Daemon
    decreases reports.len(),
{
    if reports.len() == 0 {
        d
    } else {
        after_all(after(d, reports[0]), reports.drop_first())
    }
}

/// The daemon's answers to `reports`, one for each.
pub open spec fn answers(d: Daemon, reports: Seq<Report>) -> Seq<StepView> {
    Seq::new(reports.len(), |i: int| answer(after_all(d, reports.take(i)), reports[i]))
}

/// What provisioning does, in order: for a daemon with the client identifier
/// `id`, where something lies at the socket path iff `socket_exists`, and the
/// lock file is there iff `lock_file_exists`.
pub open spec fn provisions(id: Option<i64>, socket_exists: bool, lock_file_exists: bool) -> Seq<
    Provision,
> {
    let client = match id {
        Some(n) => seq![Provision::SetClientId(n)],
        None => seq![],
    };
    let stale = if socket_exists {
        seq![Provision::RemoveStaleSocket]
    } else {
        seq![]
    };
    let lock = if lock_file_exists {
        Provision::OpenLockFile
    } else {
        Provision::CreateLockFile
    };
    client + stale + seq![
        Provision::BindSocket,
        Provision::SetNonblocking,
        lock,
        Provision::ConnectPresence,
    ]
}

/// Taking in one more report after `reports` is one `after` on top.
pub proof fn lemma_after_all_push(d: Daemon, reports: Seq<Report>, e: Report)
    ensures
        after_all(d, reports.push(e)) == after(after_all(d, reports), e),
    decreases reports.len(),
{
    let all = reports.push(e);
    if reports.len() == 0 {
        assert(all[0] == e);
        assert(all.drop_first() =~= Seq::<Report>::empty());
        assert(after_all(after(d, e), all.drop_first()) == after(d, e));
    } else {
        assert(all[0] == reports[0]);
        assert(all.drop_first() =~= reports.drop_first().push(e));
        lemma_after_all_push(after(d, reports[0]), reports.drop_first(), e);
    }
}

impl Daemon {
    /// The path of the control socket.
    pub const SOCKET_PATH: &'static str = "/tmp/console-player.sock";

    /// The path of the lock file.
    pub const LOCKFILE_PATH: &'static str = "/var/lock/console-player.lock";

    /// The states in which a daemon can be: the lifecycle state and the phase
    /// agree, and only a finished run holds a failure.
    pub open spec fn wf(self) -> bool {
        &&& match self.phase {
            Phase::Idle | Phase::Locking | Phase::Registering => self.state
                == DaemonState::Startup,
            Phase::Polling | Phase::Accepting | Phase::Pumping | Phase::Yielding => self.state
                == DaemonState::Disconnected,
            Phase::Reading => self.state is Connected,
            Phase::Finished => match self.failure {
                Some(_) => self.state == DaemonState::Startup,
                None => self.state == DaemonState::Exit,
            },
        }
        &&& self.failure is Some ==> self.phase == Phase::Finished
    }

    /// A daemon in `Startup`, for the presence client `id` if one is given.
    pub fn new(id: Option<i64>) -> (d: Daemon)
        ensures
            d == (Daemon {
                state: DaemonState::Startup,
                phase: Phase::Idle,
                failure: None,
                client_id: id,
            }),
            d.wf(),
    {
        Daemon { state: DaemonState::Startup, phase: Phase::Idle, failure: None, client_id: id }
    }

    /// Takes in one report and says what to log and what to do next.
    pub fn step(&mut self, report: &Report) -> (step: Step)
        ensures
            *final(self) == after(*old(self), *report),
            step@ == answer(*old(self), *report),
            old(self).wf() ==> final(self).wf(),
    {
        let mut log = Log::Nothing;
        match (self.phase, report) {
            (Phase::Idle, Report::Run) => {
                self.phase = Phase::Locking;
            },
            (Phase::Locking, Report::Lock(acquired)) => {
                if *acquired {
                    self.phase = Phase::Registering;
                } else {
                    self.phase = Phase::Finished;
                    self.failure = Some(DaemonError::DaemonAlreadyActiv);
                    log = Log::LockHeld;
                }
            },
            (Phase::Registering, Report::SignalRegistered) => {
                self.state = DaemonState::Disconnected;
                self.phase = Phase::Polling;
            },
            (Phase::Registering, Report::SignalFailed(code)) => {
                self.phase = Phase::Finished;
                self.failure = Some(DaemonError::StdIo(*code));
            },
            (Phase::Polling, Report::Shutdown(set)) => {
                if *set {
                    self.state = DaemonState::Exit;
                    self.phase = Phase::Finished;
                    self.failure = None;
                    log = Log::ShuttingDown;
                } else {
                    self.phase = Phase::Accepting;
                }
            },
            (Phase::Accepting, Report::Accepted(client)) => {
                match client {
                    Some(id) => {
                        self.state = DaemonState::Connected(*id);
                        self.phase = Phase::Reading;
                        log = Log::Connected(*id);
                    },
                    None => {
                        self.phase = Phase::Pumping;
                    },
                }
            },
            (Phase::Accepting, Report::AcceptFailed(code)) => {
                self.phase = Phase::Pumping;
                log = Log::AcceptFailed(*code);
            },
            (Phase::Reading, Report::Request(payload)) => {
                self.state = DaemonState::Disconnected;
                self.phase = Phase::Pumping;
                log = match decode(payload.as_slice()) {
                    Some(text) => Log::Received(trim(text).to_owned()),
                    None => Log::Undecodable,
                };
            },
            (Phase::Reading, Report::RequestFailed(code)) => {
                self.state = DaemonState::Disconnected;
                self.phase = Phase::Pumping;
                log = Log::ReadFailed(*code);
            },
            (Phase::Pumping, Report::Pumped) => {
                self.phase = Phase::Yielding;
            },
            (Phase::Pumping, Report::PumpFailed(code)) => {
                self.phase = Phase::Yielding;
                log = Log::PumpFailed(*code);
            },
            (Phase::Yielding, Report::Yielded) => {
                self.phase = Phase::Polling;
            },
            _ => {},
        }
        Step { log, action: self.waits_on() }
    }

    /// Takes in `reports` one after the other and returns the answer to each.
    pub fn run(&mut self, reports: &Vec<Report>) -> (steps: Vec<Step>)
        ensures
            *final(self) == after_all(*old(self), reports@),
            steps@.len() == reports@.len(),
            forall|i: int|
                0 <= i < steps@.len() ==> (#[trigger] steps@[i])@ == answers(
                    *old(self),
                    reports@,
                )[i],
            old(self).wf() ==> final(self).wf(),
    {
        let ghost start = *self;
        let mut steps: Vec<Step> = Vec::new();
        let mut i: usize = 0;
        assert(reports@.take(0) =~= Seq::<Report>::empty());
        while i < reports.len()
            invariant
                i <= reports@.len(),
                steps@.len() == i,
                *self == after_all(start, reports@.take(i as int)),
                forall|j: int|
                    0 <= j < i ==> (#[trigger] steps@[j])@ == answers(start, reports@)[j],
                start.wf() ==> self.wf(),
            decreases reports@.len() - i,
        {
            proof {
                lemma_after_all_push(start, reports@.take(i as int), reports@[i as int]);
                assert(reports@.take(i as int).push(reports@[i as int]) =~= reports@.take(
                    i as int + 1,
                ));
            }
            let step = self.step(&reports[i]);
            steps.push(step);
            i += 1;
        }
        assert(reports@.take(i as int) =~= reports@);
        steps
    }

    /// The steps that provision this daemon, in order, given what was found
    /// at the socket path and at the lock file's path.
    pub fn provisioning(&self, socket_exists: bool, lock_file_exists: bool) -> (plan: Vec<
        Provision,
    >)
        ensures
            plan@ == provisions(self.client_id, socket_exists, lock_file_exists),
    {
        let mut plan: Vec<Provision> = Vec::new();
        if let Some(n) = self.client_id {
            plan.push(Provision::SetClientId(n));
        }
        if socket_exists {
            plan.push(Provision::RemoveStaleSocket);
        }
        plan.push(Provision::BindSocket);
        plan.push(Provision::SetNonblocking);
        if lock_file_exists {
            plan.push(Provision::OpenLockFile);
        } else {
            plan.push(Provision::CreateLockFile);
        }
        plan.push(Provision::ConnectPresence);
        assert(plan@ =~= provisions(self.client_id, socket_exists, lock_file_exists));
        plan
    }

    /// The action that the daemon is waiting on.
    pub fn waits_on(&self) -> (action: Action)
        ensures
            action == pending(*self),
    {
        match self.phase {
            Phase::Idle | Phase::Locking => Action::AcquireLock,
            Phase::Registering => Action::RegisterSignal,
            Phase::Polling => Action::PollShutdown,
            Phase::Accepting => Action::Accept,
            Phase::Reading => match self.state {
                DaemonState::Connected(id) => Action::ReadRequest(id),
                _ => Action::Accept,
            },
            Phase::Pumping => Action::Pump,
            Phase::Yielding => Action::Yield,
            Phase::Finished => match self.failure {
                Some(e) => Action::Finish(Err(e)),
                None => Action::Finish(Ok(())),
            },
        }
    }
}

} // verus!
