use console_player::daemon::error::DaemonError;
use console_player::daemon::state::DaemonState;
use console_player::daemon::{Action, Daemon, Log, Phase, Provision, Report, Step};
use console_player::error::{Error, Toml};

fn quiet(action: Action) -> Step {
    Step { log: Log::Nothing, action }
}

/// A daemon that holds the lock, has its signal handler and is about to poll.
fn in_loop() -> Daemon {
    let mut d = Daemon::new(None);
    d.run(&vec![Report::Run, Report::Lock(true), Report::SignalRegistered]);
    d
}

#[test]
fn new_daemon_is_in_startup() {
    let d = Daemon::new(Some(42));
    assert_eq!(d.state, DaemonState::Startup);
    assert_eq!(d.phase, Phase::Idle);
    assert_eq!(d.failure, None);
    assert_eq!(d.client_id, Some(42));
    assert_eq!(d.waits_on(), Action::AcquireLock);
}

#[test]
fn well_known_paths() {
    assert_eq!(Daemon::SOCKET_PATH, "/tmp/console-player.sock");
    assert_eq!(Daemon::LOCKFILE_PATH, "/var/lock/console-player.lock");
}

#[test]
fn stale_socket_is_replaced_on_startup() {
    let d = Daemon::new(None);
    assert_eq!(
        d.provisioning(true, true),
        vec![
            Provision::RemoveStaleSocket,
            Provision::BindSocket,
            Provision::SetNonblocking,
            Provision::OpenLockFile,
            Provision::ConnectPresence,
        ]
    );
}

#[test]
fn fresh_start_creates_the_lock_file() {
    let d = Daemon::new(Some(7));
    assert_eq!(
        d.provisioning(false, false),
        vec![
            Provision::SetClientId(7),
            Provision::BindSocket,
            Provision::SetNonblocking,
            Provision::CreateLockFile,
            Provision::ConnectPresence,
        ]
    );
}

#[test]
fn run_takes_lock_then_signal_then_polls() {
    let mut d = Daemon::new(None);
    assert_eq!(d.step(&Report::Run), quiet(Action::AcquireLock));
    assert_eq!(d.state, DaemonState::Startup);
    assert_eq!(d.step(&Report::Lock(true)), quiet(Action::RegisterSignal));
    assert_eq!(d.state, DaemonState::Startup);
    assert_eq!(d.step(&Report::SignalRegistered), quiet(Action::PollShutdown));
    assert_eq!(d.state, DaemonState::Disconnected);
    assert_eq!(d.phase, Phase::Polling);
}

#[test]
fn second_daemon_is_refused_while_first_runs() {
    // The lock as the two daemons find it: free for the first, held for the second.
    let mut holder: Option<u8> = None;
    let mut first = Daemon::new(None);
    let mut second = Daemon::new(None);

    first.step(&Report::Run);
    let acquired = holder.is_none();
    if acquired {
        holder = Some(1);
    }
    first.step(&Report::Lock(acquired));
    first.step(&Report::SignalRegistered);
    assert_eq!(first.state, DaemonState::Disconnected);
    assert_eq!(first.waits_on(), Action::PollShutdown);

    second.step(&Report::Run);
    let acquired = holder.is_none();
    let step = second.step(&Report::Lock(acquired));
    assert_eq!(
        step,
        Step { log: Log::LockHeld, action: Action::Finish(Err(DaemonError::DaemonAlreadyActiv)) }
    );
    assert_eq!(second.state, DaemonState::Startup);
    assert_eq!(second.phase, Phase::Finished);
    // Whatever follows, the refused daemon asks for nothing but to return.
    let later = second.run(&vec![
        Report::SignalRegistered,
        Report::Shutdown(false),
        Report::Accepted(Some(3)),
        Report::Request(b"x".to_vec()),
        Report::Pumped,
    ]);
    for step in later {
        assert_eq!(step, quiet(Action::Finish(Err(DaemonError::DaemonAlreadyActiv))));
    }
    assert_eq!(second.state, DaemonState::Startup);
    assert_eq!(holder, Some(1));
}

#[test]
fn signal_failure_is_fatal_to_startup() {
    let mut d = Daemon::new(None);
    let steps = d.run(&vec![Report::Run, Report::Lock(true), Report::SignalFailed(22)]);
    assert_eq!(steps[2], quiet(Action::Finish(Err(DaemonError::StdIo(22)))));
    assert_eq!(d.state, DaemonState::Startup);
    assert_eq!(d.failure, Some(DaemonError::StdIo(22)));
}

#[test]
fn shutdown_is_obeyed_at_the_next_poll() {
    let mut d = in_loop();
    let step = d.step(&Report::Shutdown(true));
    assert_eq!(step, Step { log: Log::ShuttingDown, action: Action::Finish(Ok(())) });
    assert_eq!(d.state, DaemonState::Exit);
    assert_eq!(d.phase, Phase::Finished);
    assert_eq!(d.failure, None);
}

#[test]
fn shutdown_ends_run_within_one_pass_with_client_pending() {
    let mut d = in_loop();
    // The flag is set while a client is being served and the pump fails.
    let steps = d.run(&vec![
        Report::Shutdown(false),
        Report::Accepted(Some(9)),
        Report::Request(b"late".to_vec()),
        Report::PumpFailed(4),
        Report::Yielded,
        Report::Shutdown(true),
    ]);
    assert_eq!(steps.len(), 6);
    assert_eq!(steps[5].action, Action::Finish(Ok(())));
    assert_eq!(d.state, DaemonState::Exit);
}

#[test]
fn client_request_is_logged_exactly_once() {
    let mut d = in_loop();
    d.step(&Report::Shutdown(false));
    assert_eq!(d.waits_on(), Action::Accept);

    let step = d.step(&Report::Accepted(Some(5)));
    assert_eq!(step, Step { log: Log::Connected(5), action: Action::ReadRequest(5) });
    assert_eq!(d.state, DaemonState::Connected(5));

    let step = d.step(&Report::Request(b"  update now \n".to_vec()));
    assert_eq!(
        step,
        Step { log: Log::Received(String::from("update now")), action: Action::Pump }
    );
    assert_eq!(d.state, DaemonState::Disconnected);

    let rest = d.run(&vec![Report::Pumped, Report::Yielded]);
    assert_eq!(rest, vec![quiet(Action::Yield), quiet(Action::PollShutdown)]);
}

#[test]
fn empty_request_is_logged_as_empty() {
    let mut d = in_loop();
    d.run(&vec![Report::Shutdown(false), Report::Accepted(Some(1))]);
    let step = d.step(&Report::Request(b" \t\n".to_vec()));
    assert_eq!(step.log, Log::Received(String::new()));
}

#[test]
fn request_that_is_no_text_is_logged_and_survived() {
    let mut d = in_loop();
    d.run(&vec![Report::Shutdown(false), Report::Accepted(Some(1))]);
    let step = d.step(&Report::Request(vec![b'o', b'k', 0xff, 0xfe]));
    assert_eq!(step, Step { log: Log::Undecodable, action: Action::Pump });
    assert_eq!(d.state, DaemonState::Disconnected);
    // An overlong encoding and a lone continuation byte are no text either.
    for bytes in [vec![0xc0, 0x80], vec![0x80], vec![0xed, 0xa0, 0x80], vec![0xe2, 0x82]] {
        let mut d = in_loop();
        d.run(&vec![Report::Shutdown(false), Report::Accepted(Some(1))]);
        assert_eq!(d.step(&Report::Request(bytes)).log, Log::Undecodable);
    }
}

#[test]
fn request_in_several_scripts_is_decoded() {
    let mut d = in_loop();
    d.run(&vec![Report::Shutdown(false), Report::Accepted(Some(1))]);
    let step = d.step(&Report::Request("\u{3000}spiel: Zürich 🎮\u{2003}".as_bytes().to_vec()));
    assert_eq!(step.log, Log::Received(String::from("spiel: Zürich 🎮")));
}

#[test]
fn failed_read_is_logged_and_survived() {
    let mut d = in_loop();
    d.run(&vec![Report::Shutdown(false), Report::Accepted(Some(1))]);
    let step = d.step(&Report::RequestFailed(84));
    assert_eq!(step, Step { log: Log::ReadFailed(84), action: Action::Pump });
    assert_eq!(d.state, DaemonState::Disconnected);
    assert_eq!(d.phase, Phase::Pumping);
}

#[test]
fn no_client_goes_straight_to_pump() {
    let mut d = in_loop();
    d.step(&Report::Shutdown(false));
    let step = d.step(&Report::Accepted(None));
    assert_eq!(step, quiet(Action::Pump));
    assert_eq!(d.state, DaemonState::Disconnected);
}

#[test]
fn failed_accept_is_logged_and_survived() {
    let mut d = in_loop();
    d.step(&Report::Shutdown(false));
    let step = d.step(&Report::AcceptFailed(24));
    assert_eq!(step, Step { log: Log::AcceptFailed(24), action: Action::Pump });
    assert_eq!(d.state, DaemonState::Disconnected);
    assert_eq!(d.phase, Phase::Pumping);
}

#[test]
fn presence_failure_becomes_a_daemon_error() {
    assert_eq!(DaemonError::from(Error::ParseInt), DaemonError::CoreError(Error::ParseInt));
    assert_eq!(
        DaemonError::from(Error::Toml(Toml::Serialize)),
        DaemonError::CoreError(Error::Toml(Toml::Serialize))
    );
}

#[test]
fn idle_passes_change_nothing() {
    let mut d = in_loop();
    let before = d;
    for _ in 0..3 {
        let steps = d.run(&vec![
            Report::Shutdown(false),
            Report::Accepted(None),
            Report::Pumped,
            Report::Yielded,
        ]);
        assert_eq!(
            steps,
            vec![
                quiet(Action::Accept),
                quiet(Action::Pump),
                quiet(Action::Yield),
                quiet(Action::PollShutdown),
            ]
        );
        assert_eq!(d, before);
    }
}

#[test]
fn pump_failure_is_logged_and_survived() {
    let mut d = in_loop();
    d.run(&vec![Report::Shutdown(false), Report::Accepted(None)]);
    let step = d.step(&Report::PumpFailed(-3));
    assert_eq!(step, Step { log: Log::PumpFailed(-3), action: Action::Yield });
    assert_eq!(d.state, DaemonState::Disconnected);
    assert_eq!(d.step(&Report::Yielded), quiet(Action::PollShutdown));
}

#[test]
fn report_out_of_turn_is_passed_over() {
    let mut d = in_loop();
    let before = d;
    assert_eq!(d.step(&Report::Pumped), quiet(Action::PollShutdown));
    assert_eq!(d.step(&Report::Lock(false)), quiet(Action::PollShutdown));
    assert_eq!(d.step(&Report::Request(b"x".to_vec())), quiet(Action::PollShutdown));
    assert_eq!(d, before);
}

#[test]
fn finished_run_is_terminal() {
    let mut d = in_loop();
    d.step(&Report::Shutdown(true));
    let before = d;
    let steps = d.run(&vec![Report::Run, Report::Shutdown(false), Report::Accepted(Some(1))]);
    for step in steps {
        assert_eq!(step, quiet(Action::Finish(Ok(()))));
    }
    assert_eq!(d, before);
}

#[test]
fn run_of_no_reports_does_nothing() {
    let mut d = Daemon::new(None);
    let steps = d.run(&Vec::new());
    assert!(steps.is_empty());
    assert_eq!(d, Daemon::new(None));
}

#[test]
fn daemon_error_messages() {
    assert_eq!(DaemonError::DaemonAlreadyActiv.to_string(), "Another daemon is already running");
    assert_eq!(DaemonError::StdIo(2).to_string(), "An input or output operation failed");
    assert_eq!(
        DaemonError::CoreError(Error::Toml(Toml::Deserialize)).to_string(),
        "The presence service failed"
    );
    assert_ne!(DaemonError::CoreError(Error::Var), DaemonError::CoreError(Error::DotEnv));
}
