//! What holds of every run of the daemon.

use vstd::prelude::*;
use crate::daemon::error::DaemonError;
use crate::daemon::state::DaemonState;
use crate::daemon::{
    after, after_all, answer, answers, expects, lemma_after_all_push, request_log, Action, Daemon,
    LogView, Phase, Report, StepView,
};
use vstd::utf8::valid_utf8;

verus! {

/// Whether the daemon is inside its main loop.
pub open spec fn in_loop(d: Daemon) -> bool {
    match d.phase {
        Phase::Polling | Phase::Accepting | Phase::Reading | Phase::Pumping | Phase::Yielding => true,
        _ => false,
    }
}

/// How many reports a daemon in the loop takes in, at most, before it polls the
/// shutdown flag again.
pub open spec fn until_poll(p: Phase) -> nat {
    match p {
        Phase::Accepting => 4,
        Phase::Reading => 3,
        Phase::Pumping => 2,
        Phase::Yielding => 1,
        _ => 0,
    }
}

/// Whether each of `reports` is what the daemon waits for when it arrives.
/// A daemon whose run has ended waits for nothing, and anything may follow.
pub open spec fn in_turn(d: Daemon, reports: Seq<Report>) -> bool
    decreases reports.len(),
{
    reports.len() > 0 ==> {
        &&& d.phase == Phase::Finished || expects(d, reports[0])
        &&& in_turn(after(d, reports[0]), reports.drop_first())
    }
}

/// Whether every reading of the shutdown flag among `reports` found it set.
pub open spec fn flag_is_set(reports: Seq<Report>) -> bool {
    forall|i: int| 0 <= i < reports.len() ==> reports[i] != Report::Shutdown(false)
}

/// What is told of a client that attaches under `id` and sends `payload`.
pub open spec fn client_served(id: u64, payload: Vec<u8>) -> Seq<Report> {
    seq![Report::Accepted(Some(id)), Report::Request(payload)]
}

/// How many of `steps` log a received request.
pub open spec fn requests_logged(steps: Seq<StepView>) -> nat
    decreases steps.len(),
{
    if steps.len() == 0 {
        0
    } else {
        requests_logged(steps.drop_last()) + if steps.last().log is Received {
            1nat
        } else {
            0nat
        }
    }
}

/// The changes of state that the lifecycle allows: out of `Startup` when the
/// loop begins, between `Disconnected` and `Connected` as clients come and
/// go, and from `Disconnected` into `Exit`.
pub open spec fn allowed(from: DaemonState, to: DaemonState) -> bool {
    match (from, to) {
        (DaemonState::Startup, DaemonState::Disconnected) => true,
        (DaemonState::Disconnected, DaemonState::Connected(_)) => true,
        (DaemonState::Connected(_), DaemonState::Disconnected) => true,
        (DaemonState::Disconnected, DaemonState::Exit) => true,
        _ => false,
    }
}

/// A report leaves the state as it is or changes it as the lifecycle allows,
/// and nothing leads out of `Exit`.
pub proof fn law_lifecycle_is_kept(d: Daemon, e: Report)
    requires
        d.wf(),
    ensures
        after(d, e).state == d.state || allowed(d.state, after(d, e).state),
        d.state == DaemonState::Exit ==> after(d, e).state == DaemonState::Exit,
{
}

/// Every report keeps a well-formed daemon well-formed.
pub proof fn law_well_formed_forever(d: Daemon, reports: Seq<Report>)
    requires
        d.wf(),
    ensures
        after_all(d, reports).wf(),
    decreases reports.len(),
{
    if reports.len() > 0 {
        law_well_formed_forever(after(d, reports[0]), reports.drop_first());
    }
}

/// A daemon that reads the shutdown flag and finds it set ends its run at
/// once and gracefully, whatever else is pending.
pub proof fn law_shutdown_is_obeyed(d: Daemon)
    requires
        d.wf(),
        d.phase == Phase::Polling,
    ensures
        after(d, Report::Shutdown(true)).state == DaemonState::Exit,
        after(d, Report::Shutdown(true)).phase == Phase::Finished,
        answer(d, Report::Shutdown(true)) == (StepView {
            log: LogView::ShuttingDown,
            action: Action::Finish(Ok(())),
        }),
{
}

/// In the loop every awaited report but the reading of the flag brings the
/// next reading closer: one pass takes at most five reports.
pub proof fn law_pass_is_bounded(d: Daemon, e: Report)
    requires
        d.wf(),
        in_loop(d),
        d.phase != Phase::Polling,
        expects(d, e),
    ensures
        in_loop(after(d, e)),
        until_poll(after(d, e).phase) < until_poll(d.phase),
        until_poll(d.phase) <= 4,
{
}

/// Once the shutdown flag is set, a daemon in its loop has ended its run
/// gracefully by the time it has taken in one pass's worth of reports, whatever
/// they report of clients and of the presence bridge.
pub proof fn law_shutdown_within_one_pass(d: Daemon, reports: Seq<Report>)
    requires
        d.wf(),
        in_loop(d),
        in_turn(d, reports),
        flag_is_set(reports),
        reports.len() > until_poll(d.phase),
    ensures
        after_all(d, reports).phase == Phase::Finished,
        after_all(d, reports).state == DaemonState::Exit,
        after_all(d, reports).failure is None,
    decreases reports.len(),
{
    let e = reports[0];
    let rest = reports.drop_first();
    let next = after(d, e);
    assert(flag_is_set(rest)) by {
        assert forall|i: int| 0 <= i < rest.len() implies rest[i] != Report::Shutdown(false) by {
            assert(rest[i] == reports[i + 1]);
        }
    }
    if d.phase == Phase::Polling {
        assert(e == Report::Shutdown(true));
        lemma_finished_stays(next, rest);
    } else {
        law_pass_is_bounded(d, e);
        law_shutdown_within_one_pass(next, rest);
    }
}

/// A run that has ended stays as it is.
pub proof fn lemma_finished_stays(d: Daemon, reports: Seq<Report>)
    requires
        d.phase == Phase::Finished,
    ensures
        after_all(d, reports) == d,
    decreases reports.len(),
{
    if reports.len() > 0 {
        lemma_finished_stays(after(d, reports[0]), reports.drop_first());
    }
}

/// The end of a run is final: every later report leaves the daemon unchanged,
/// logs nothing and is answered with the run's result.
pub proof fn law_finished_is_terminal(d: Daemon, e: Report)
    requires
        d.phase == Phase::Finished,
    ensures
        after(d, e) == d,
        answer(d, e).log == LogView::Nothing,
        answer(d, e).action == Action::Finish(
            match d.failure {
                Some(err) => Err(err),
                None => Ok(()),
            },
        ),
{
}

/// Only the daemon that took the lock goes on. The one that found it held
/// ends its run in `Startup` with `DaemonAlreadyActiv`, and nothing that
/// follows makes it act on the control socket or on the presence bridge.
pub proof fn law_lock_decides(d: Daemon, acquired: bool, later: Seq<Report>)
    requires
        d.wf(),
        d.phase == Phase::Locking,
    ensures
        acquired ==> answer(d, Report::Lock(true)) == (StepView {
            log: LogView::Nothing,
            action: Action::RegisterSignal,
        }),
        !acquired ==> answer(d, Report::Lock(false)) == (StepView {
            log: LogView::LockHeld,
            action: Action::Finish(Err(DaemonError::DaemonAlreadyActiv)),
        }),
        !acquired ==> after_all(after(d, Report::Lock(false)), later).state
            == DaemonState::Startup,
        !acquired ==> forall|i: int|
            0 <= i < later.len() ==> (#[trigger] answers(after(d, Report::Lock(false)), later)[i])
                == (StepView {
                log: LogView::Nothing,
                action: Action::Finish(Err(DaemonError::DaemonAlreadyActiv)),
            }),
{
    if !acquired {
        let held = after(d, Report::Lock(false));
        lemma_finished_stays(held, later);
        assert forall|i: int| 0 <= i < later.len() implies (#[trigger] answers(held, later)[i])
            == (StepView {
            log: LogView::Nothing,
            action: Action::Finish(Err(DaemonError::DaemonAlreadyActiv)),
        }) by {
            lemma_finished_stays(held, later.take(i));
        }
    }
}

/// Of two daemons that ask for a lock which at most one of them is given, at
/// most one goes on towards its loop. The other has its answer in that very
/// step, `DaemonAlreadyActiv`, and never enters the loop, whatever follows.
pub proof fn law_one_daemon_at_most(
    first: Daemon,
    second: Daemon,
    first_acquired: bool,
    second_acquired: bool,
    later: Seq<Report>,
)
    requires
        first.wf(),
        second.wf(),
        first.phase == Phase::Locking,
        second.phase == Phase::Locking,
        !(first_acquired && second_acquired),
    ensures
        !(after(first, Report::Lock(first_acquired)).phase == Phase::Registering && after(
            second,
            Report::Lock(second_acquired),
        ).phase == Phase::Registering),
        !first_acquired ==> answer(first, Report::Lock(first_acquired)).action == Action::Finish(
            Err(DaemonError::DaemonAlreadyActiv),
        ) && !in_loop(after_all(after(first, Report::Lock(first_acquired)), later)),
        !second_acquired ==> answer(second, Report::Lock(second_acquired)).action
            == Action::Finish(Err(DaemonError::DaemonAlreadyActiv)) && !in_loop(
            after_all(after(second, Report::Lock(second_acquired)), later),
        ),
{
    if !first_acquired {
        lemma_finished_stays(after(first, Report::Lock(false)), later);
    }
    if !second_acquired {
        lemma_finished_stays(after(second, Report::Lock(false)), later);
    }
}

/// A daemon whose signal handler cannot be installed does not enter the loop:
/// its run ends with the system's error.
pub proof fn law_signal_failure_is_fatal(d: Daemon, code: i32)
    requires
        d.wf(),
        d.phase == Phase::Registering,
    ensures
        after(d, Report::SignalFailed(code)).state == DaemonState::Startup,
        answer(d, Report::SignalFailed(code)).action == Action::Finish(
            Err(DaemonError::StdIo(code)),
        ),
        after(d, Report::SignalRegistered).state == DaemonState::Disconnected,
        answer(d, Report::SignalRegistered).action == Action::PollShutdown,
{
}

/// A client that attaches and sends its payload has exactly one entry logged
/// for its request, the text without the whitespace around it, and the daemon
/// is `Disconnected` again before it pumps. A payload that is no text is
/// logged as such and counts as no request.
pub proof fn law_one_request_per_client(d: Daemon, id: u64, payload: Vec<u8>)
    requires
        d.wf(),
        d.phase == Phase::Accepting,
    ensures
        d.state == DaemonState::Disconnected,
        after(d, Report::Accepted(Some(id))).state == DaemonState::Connected(id),
        answers(d, client_served(id, payload)) == seq![
            StepView { log: LogView::Connected(id), action: Action::ReadRequest(id) },
            StepView { log: request_log(payload@), action: Action::Pump },
        ],
        requests_logged(answers(d, client_served(id, payload))) == if valid_utf8(payload@) {
            1nat
        } else {
            0nat
        },
        after_all(d, client_served(id, payload)) == (Daemon { phase: Phase::Pumping, ..d }),
{
    let reports = client_served(id, payload);
    let d1 = after(d, reports[0]);
    assert(reports.take(0) =~= Seq::<Report>::empty());
    assert(reports.take(1) =~= seq![reports[0]]);
    assert(reports.drop_first() =~= seq![reports[1]]);
    assert(seq![reports[0]].drop_first() =~= Seq::<Report>::empty());
    assert(seq![reports[1]].drop_first() =~= Seq::<Report>::empty());
    assert(after_all(d, reports.take(0)) == d);
    assert(after_all(d1, Seq::<Report>::empty()) == d1);
    assert(after_all(d, reports.take(1)) == d1);
    let steps = answers(d, reports);
    let expected = seq![
        StepView { log: LogView::Connected(id), action: Action::ReadRequest(id) },
        StepView { log: request_log(payload@), action: Action::Pump },
    ];
    assert(steps[0] == expected[0]);
    assert(steps[1] == expected[1]);
    assert(steps =~= expected);
    assert(steps.drop_last() =~= seq![expected[0]]);
    assert(seq![expected[0]].drop_last() =~= Seq::<StepView>::empty());
    assert(requests_logged(Seq::<StepView>::empty()) == 0);
    assert(requests_logged(seq![expected[0]]) == 0);
    lemma_after_all_push(d, seq![reports[0]], reports[1]);
    assert(seq![reports[0]].push(reports[1]) =~= reports);
}

/// A failed read is logged and changes nothing else: the daemon is
/// `Disconnected` again and goes on to pump.
pub proof fn law_read_failure_is_survived(d: Daemon, code: i32)
    requires
        d.wf(),
        d.phase == Phase::Reading,
    ensures
        after(d, Report::RequestFailed(code)) == (Daemon {
            state: DaemonState::Disconnected,
            phase: Phase::Pumping,
            ..d
        }),
        answer(d, Report::RequestFailed(code)) == (StepView {
            log: LogView::ReadFailed(code),
            action: Action::Pump,
        }),
{
}

/// A failed accept attempt is logged and changes no state: the daemon goes
/// on to pump.
pub proof fn law_accept_failure_is_survived(d: Daemon, code: i32)
    requires
        d.wf(),
        d.phase == Phase::Accepting,
    ensures
        after(d, Report::AcceptFailed(code)) == (Daemon { phase: Phase::Pumping, ..d }),
        answer(d, Report::AcceptFailed(code)) == (StepView {
            log: LogView::AcceptFailed(code),
            action: Action::Pump,
        }),
{
}

/// An accept attempt that finds no client changes no state and logs nothing;
/// the daemon goes on to pump.
pub proof fn law_no_client_changes_nothing(d: Daemon)
    requires
        d.wf(),
        d.phase == Phase::Accepting,
    ensures
        after(d, Report::Accepted(None)).state == d.state,
        answer(d, Report::Accepted(None)) == (StepView {
            log: LogView::Nothing,
            action: Action::Pump,
        }),
{
}

/// The pump never ends the run: after it, failed or not, the daemon yields,
/// in the state it was in. Only a failure is logged.
pub proof fn law_pump_is_survived(d: Daemon, e: Report)
    requires
        d.wf(),
        d.phase == Phase::Pumping,
        e is Pumped || e is PumpFailed,
    ensures
        after(d, e) == (Daemon { phase: Phase::Yielding, ..d }),
        answer(d, e).action == Action::Yield,
        e is Pumped ==> answer(d, e).log == LogView::Nothing,
        e matches Report::PumpFailed(code) ==> answer(d, e).log == LogView::PumpFailed(code),
{
}

/// The reports of a pass in which the flag is clear, no client waits and the
/// pump succeeds.
pub open spec fn idle_pass() -> Seq<Report> {
    seq![Report::Shutdown(false), Report::Accepted(None), Report::Pumped, Report::Yielded]
}

/// An idle pass is a no-op: the daemon is what it was, and nothing was
/// logged.
pub proof fn law_idle_pass_changes_nothing(d: Daemon)
    requires
        d.wf(),
        d.phase == Phase::Polling,
    ensures
        after_all(d, idle_pass()) == d,
        forall|i: int|
            0 <= i < 4 ==> (#[trigger] answers(d, idle_pass())[i]).log == LogView::Nothing,
{
    let reports = idle_pass();
    let d1 = after(d, reports[0]);
    let d2 = after(d1, reports[1]);
    let d3 = after(d2, reports[2]);
    let d4 = after(d3, reports[3]);
    assert(d4 == d);
    lemma_after_all_push(d, Seq::<Report>::empty(), reports[0]);
    lemma_after_all_push(d, seq![reports[0]], reports[1]);
    lemma_after_all_push(d, seq![reports[0], reports[1]], reports[2]);
    lemma_after_all_push(d, seq![reports[0], reports[1], reports[2]], reports[3]);
    assert(Seq::<Report>::empty().push(reports[0]) =~= seq![reports[0]]);
    assert(seq![reports[0]].push(reports[1]) =~= seq![reports[0], reports[1]]);
    assert(seq![reports[0], reports[1]].push(reports[2]) =~= seq![reports[0], reports[1], reports[2]]);
    assert(seq![reports[0], reports[1], reports[2]].push(reports[3]) =~= reports);
    assert(reports.take(0) =~= Seq::<Report>::empty());
    assert(reports.take(1) =~= seq![reports[0]]);
    assert(reports.take(2) =~= seq![reports[0], reports[1]]);
    assert(reports.take(3) =~= seq![reports[0], reports[1], reports[2]]);
}

} // verus!
