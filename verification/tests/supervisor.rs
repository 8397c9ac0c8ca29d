use on_the_gpu::supervisor::{
    Action, ChildExit, ChildState, ErrorKind, Event, LaunchError, LogState, OpenFailure, Output,
    Phase, Slot, Stage, Supervisor, Transferred, WriteEnds, STARTED_LINE,
};
use on_the_gpu::tee::{Sink, TeeError};

type Failure = &'static str;

const BANNER: &[u8] = b"== banner ==\n";

const TAKEN: Transferred = Transferred { stdout: true, stderr: true };

const ORIGINAL: WriteEnds = WriteEnds { original: true, for_stdout: false, for_stderr: false };

/// What a pretended caller has seen and done.
struct Run {
    outcome: Result<ChildExit, LaunchError<Failure>>,
    live: Vec<u8>,
    log: Vec<u8>,
    asked: Vec<&'static str>,
    finalized: usize,
    stage: Stage,
    log_state: LogState,
}

/// Plays the caller of a supervisor: the child writes `chunks` and ends with
/// `exit`; the step named by `fails` fails, the others succeed.
fn run(logging: bool, chunks: &[&[u8]], exit: ChildExit, fails: Option<&'static str>) -> Run {
    let mut supervisor = Supervisor::<Failure>::new(logging);
    let (mut live, mut log, mut asked) = (Vec::new(), Vec::new(), Vec::new());
    let mut finalized = 0;
    let mut source = chunks.iter();
    let fail = |name: &'static str| if fails == Some(name) { Err(name) } else { Ok(()) };
    let mut event = Event::Start;
    loop {
        let action = supervisor.step(event);
        event = match action {
            Action::OpenLog => {
                asked.push("open log");
                Event::LogOpened(match fails {
                    Some("log exists") => Err(OpenFailure::AlreadyExists),
                    Some("open log") => Err(OpenFailure::Other("open log")),
                    _ => Ok(()),
                })
            }
            Action::CreatePipe => {
                asked.push("pipe");
                Event::PipeCreated(fail("pipe"))
            }
            Action::WriteBanner(Output::Live) => {
                asked.push("banner to live");
                live.extend_from_slice(BANNER);
                Event::Wrote(fail("banner to live"))
            }
            Action::WriteBanner(Output::Log) => {
                asked.push("banner to log");
                log.extend_from_slice(BANNER);
                Event::Wrote(fail("banner to log"))
            }
            Action::DuplicateWriteEnd(Slot::Stdout) => {
                asked.push("dup stdout");
                Event::Duplicated(fail("dup stdout"))
            }
            Action::DuplicateWriteEnd(Slot::Stderr) => {
                asked.push("dup stderr");
                Event::Duplicated(fail("dup stderr"))
            }
            Action::Spawn => {
                asked.push("spawn");
                Event::Spawned(fail("spawn").map(|_| TAKEN))
            }
            Action::CloseWriteEnds(ends) => {
                asked.push("close write ends");
                assert_eq!(ends, ORIGINAL);
                Event::Closed
            }
            Action::WriteStarted => {
                asked.push("started");
                log.extend_from_slice(STARTED_LINE.as_bytes());
                Event::Wrote(fail("started"))
            }
            Action::Read { max } => {
                asked.push("read");
                assert_eq!(max, 1024);
                assert!(supervisor.write_ends().is_empty());
                Event::ReadDone(fail("read").map(|_| source.next().copied().unwrap_or(&[])))
            }
            Action::Relay { chunk } => {
                asked.push("relay");
                live.extend_from_slice(chunk);
                log.extend_from_slice(chunk);
                Event::Relayed { live: fail("relay live"), log: fail("relay log") }
            }
            Action::PassThrough { chunk } => {
                asked.push("pass");
                live.extend_from_slice(chunk);
                Event::Wrote(fail("relay live"))
            }
            Action::Shutdown(Output::Live) => {
                asked.push("shutdown live");
                Event::ShutdownDone(fail("shutdown live"))
            }
            Action::Shutdown(Output::Log) => {
                asked.push("flush log");
                Event::ShutdownDone(fail("flush log"))
            }
            Action::WaitChild => {
                asked.push("wait");
                Event::Waited(fail("wait").map(|_| exit))
            }
            Action::CloseReadEnd => {
                asked.push("close read end");
                Event::Closed
            }
            Action::FinalizeLog => {
                asked.push("finalize");
                assert_eq!(supervisor.log(), LogState::Open);
                finalized += 1;
                Event::Finalized(fail("finalize"))
            }
            Action::ReleaseChild => {
                asked.push("release");
                Event::Released
            }
            Action::Finish(outcome) => {
                assert!(supervisor.stage().is_terminal());
                assert!(supervisor.write_ends().is_empty());
                assert!(!supervisor.holds_read_end());
                assert_ne!(supervisor.log(), LogState::Open);
                return Run {
                    outcome,
                    live,
                    log,
                    asked,
                    finalized,
                    stage: supervisor.stage(),
                    log_state: supervisor.log(),
                };
            }
        };
    }
}

fn failed(logging: bool, fails: &'static str) -> Run {
    let run = run(logging, &[b"A", b"B"], ChildExit::Exited(0), Some(fails));
    assert!(run.outcome.is_err(), "{fails}");
    assert_eq!(run.stage, Stage::Errored);
    run
}

#[test]
fn a_stub_child_is_relayed_logged_and_reported() {
    let run = run(true, &[b"A", b"B"], ChildExit::Exited(0), None);
    assert_eq!(run.outcome, Ok(ChildExit::Exited(0)));
    assert!(run.outcome.unwrap().success());
    assert_eq!(run.stage, Stage::Done);
    assert_eq!(run.live, b"== banner ==\nAB".to_vec());
    assert_eq!(run.log, b"== banner ==\nGame started.\nAB".to_vec());
    assert_eq!(run.finalized, 1);
    assert_eq!(run.log_state, LogState::Finalized);
}

#[test]
fn the_steps_of_a_logged_launch_come_in_order() {
    let run = run(true, &[b"A"], ChildExit::Exited(0), None);
    assert_eq!(
        run.asked,
        vec![
            "open log",
            "pipe",
            "banner to live",
            "banner to log",
            "dup stdout",
            "dup stderr",
            "spawn",
            "close write ends",
            "started",
            "read",
            "relay",
            "read",
            "shutdown live",
            "flush log",
            "wait",
            "close read end",
            "finalize",
            "release",
        ]
    );
}

#[test]
fn without_a_log_the_output_passes_through() {
    let run = run(false, &[b"A", b"B"], ChildExit::Exited(0), None);
    assert_eq!(run.outcome, Ok(ChildExit::Exited(0)));
    assert_eq!(run.live, b"== banner ==\nAB".to_vec());
    assert!(run.log.is_empty());
    assert_eq!(run.finalized, 0);
    assert_eq!(run.log_state, LogState::Absent);
    assert_eq!(
        run.asked,
        vec![
            "pipe",
            "banner to live",
            "dup stdout",
            "dup stderr",
            "spawn",
            "close write ends",
            "read",
            "pass",
            "read",
            "pass",
            "read",
            "shutdown live",
            "wait",
            "close read end",
            "release",
        ]
    );
}

#[test]
fn a_silent_child_leaves_banner_and_line() {
    let run = run(true, &[], ChildExit::Exited(0), None);
    assert_eq!(run.outcome, Ok(ChildExit::Exited(0)));
    assert_eq!(run.live, BANNER.to_vec());
    assert_eq!(run.log, b"== banner ==\nGame started.\n".to_vec());
    assert_eq!(run.finalized, 1);
}

#[test]
fn the_exit_status_is_handed_out_as_it_was_reported() {
    let failed = run(true, &[b"A"], ChildExit::Exited(3), None);
    assert_eq!(failed.outcome, Ok(ChildExit::Exited(3)));
    assert!(!failed.outcome.unwrap().success());
    assert_eq!(failed.stage, Stage::Done);
    let killed = run(false, &[], ChildExit::Signaled(9), None);
    assert_eq!(killed.outcome, Ok(ChildExit::Signaled(9)));
    assert!(!ChildExit::Signaled(9).success());
    assert!(!ChildExit::Signaled(0).success());
    assert!(ChildExit::Exited(0).success());
}

#[test]
fn a_log_that_exists_is_a_failure_of_its_own() {
    let run = failed(true, "log exists");
    let error = run.outcome.unwrap_err();
    assert_eq!(error, LaunchError::LogExists);
    assert!(error.is_collision());
    assert_eq!(error.kind(), ErrorKind::Io);
    assert_eq!(run.asked, vec!["open log"]);
    assert_eq!(run.finalized, 0);
    assert_eq!(run.log_state, LogState::Absent);
    assert!(run.live.is_empty());
}

#[test]
fn a_log_that_cannot_be_opened_fails_the_launch() {
    let run = failed(true, "open log");
    let error = run.outcome.unwrap_err();
    assert_eq!(error, LaunchError::LogOpen("open log"));
    assert!(!error.is_collision());
    assert_eq!(error.kind(), ErrorKind::Io);
    assert_eq!(run.finalized, 0);
}

#[test]
fn a_pipe_that_cannot_be_made_fails_the_launch() {
    let run = failed(true, "pipe");
    assert_eq!(run.outcome, Err(LaunchError::Pipe("pipe")));
    assert_eq!(run.asked, vec!["open log", "pipe", "finalize"]);
    assert_eq!(run.finalized, 1);
    assert_eq!(run.log_state, LogState::Finalized);
    assert!(run.live.is_empty());
    let bare = failed(false, "pipe");
    assert_eq!(bare.asked, vec!["pipe"]);
    assert_eq!(bare.outcome.unwrap_err().kind(), ErrorKind::Io);
}

#[test]
fn a_banner_that_cannot_be_written_fails_the_launch() {
    let live = failed(true, "banner to live");
    assert_eq!(live.outcome, Err(LaunchError::Banner(Output::Live, "banner to live")));
    assert_eq!(live.finalized, 1);
    let log = failed(true, "banner to log");
    assert_eq!(log.outcome, Err(LaunchError::Banner(Output::Log, "banner to log")));
    assert_eq!(log.outcome.unwrap_err().kind(), ErrorKind::Io);
    assert_eq!(log.finalized, 1);
}

#[test]
fn a_write_end_that_cannot_be_duplicated_fails_the_launch() {
    for step in ["dup stdout", "dup stderr"] {
        let run = failed(true, step);
        assert_eq!(run.outcome, Err(LaunchError::Duplicate(step)));
        assert_eq!(run.outcome.unwrap_err().kind(), ErrorKind::Io);
        assert_eq!(run.finalized, 1);
        assert!(!run.asked.contains(&"spawn"));
    }
}

#[test]
fn a_child_that_cannot_be_spawned_fails_the_launch() {
    let run = failed(true, "spawn");
    let error = run.outcome.unwrap_err();
    assert_eq!(error, LaunchError::Spawn("spawn"));
    assert_eq!(error.kind(), ErrorKind::Spawn);
    assert_eq!(run.asked.last(), Some(&"finalize"));
    assert_eq!(run.asked.iter().filter(|a| **a == "spawn").count(), 1);
    assert_eq!(run.finalized, 1);
    assert_eq!(run.live, BANNER.to_vec());
    assert_eq!(run.log, BANNER.to_vec());
}

#[test]
fn a_line_that_cannot_be_written_fails_the_launch() {
    let run = failed(true, "started");
    assert_eq!(run.outcome, Err(LaunchError::Announce("started")));
    assert_eq!(run.outcome.unwrap_err().kind(), ErrorKind::Io);
    assert_eq!(run.finalized, 1);
    assert!(!run.asked.contains(&"read"));
}

#[test]
fn a_failed_read_fails_the_launch() {
    let run = failed(true, "read");
    assert_eq!(run.outcome, Err(LaunchError::Relay(TeeError::Read("read"))));
    assert_eq!(run.outcome.unwrap_err().kind(), ErrorKind::Io);
    assert_eq!(run.finalized, 1);
    assert!(!run.asked.contains(&"wait"));
}

#[test]
fn a_failed_write_fails_the_launch_and_the_live_stream_is_named_first() {
    let live = failed(true, "relay live");
    assert_eq!(live.outcome, Err(LaunchError::Relay(TeeError::Write(Sink::First, "relay live"))));
    assert_eq!(live.asked.iter().filter(|a| **a == "relay").count(), 1);
    let log = failed(true, "relay log");
    assert_eq!(log.outcome, Err(LaunchError::Relay(TeeError::Write(Sink::Second, "relay log"))));
    assert_eq!(log.finalized, 1);
    let bare = failed(false, "relay live");
    assert_eq!(bare.outcome, Err(LaunchError::Relay(TeeError::Write(Sink::First, "relay live"))));
    assert_eq!(bare.finalized, 0);
}

#[test]
fn a_failed_shutdown_fails_the_launch() {
    let live = failed(true, "shutdown live");
    assert_eq!(live.outcome, Err(LaunchError::Relay(TeeError::Shutdown(Sink::First, "shutdown live"))));
    assert!(!live.asked.contains(&"flush log"));
    assert_eq!(live.finalized, 1);
    let log = failed(true, "flush log");
    assert_eq!(log.outcome, Err(LaunchError::Relay(TeeError::Shutdown(Sink::Second, "flush log"))));
    assert_eq!(log.finalized, 1);
}

#[test]
fn a_child_that_cannot_be_awaited_fails_the_launch() {
    let run = failed(true, "wait");
    let error = run.outcome.unwrap_err();
    assert_eq!(error, LaunchError::Wait("wait"));
    assert_eq!(error.kind(), ErrorKind::ChildWait);
    assert_eq!(run.finalized, 1);
    assert_eq!(run.live, b"== banner ==\nAB".to_vec());
}

#[test]
fn a_log_that_cannot_be_finalized_fails_the_launch() {
    let run = failed(true, "finalize");
    assert_eq!(run.outcome, Err(LaunchError::Finalize("finalize")));
    assert_eq!(run.outcome.unwrap_err().kind(), ErrorKind::Io);
    assert_eq!(run.finalized, 1);
    assert_eq!(run.log_state, LogState::Finalized);
    assert!(!run.asked.contains(&"release"));
}

#[test]
fn the_log_is_finalized_once_on_every_path() {
    let steps = [
        "pipe",
        "banner to live",
        "banner to log",
        "dup stdout",
        "dup stderr",
        "spawn",
        "started",
        "read",
        "relay live",
        "relay log",
        "shutdown live",
        "flush log",
        "wait",
        "finalize",
    ];
    for step in steps {
        let run = failed(true, step);
        assert_eq!(run.finalized, 1, "{step}");
        assert_eq!(run.log_state, LogState::Finalized, "{step}");
    }
    for step in ["log exists", "open log"] {
        let run = failed(true, step);
        assert_eq!(run.finalized, 0, "{step}");
        assert_eq!(run.log_state, LogState::Absent, "{step}");
    }
    assert_eq!(run(true, &[b"A"], ChildExit::Exited(0), None).finalized, 1);
    assert_eq!(run(false, &[b"A"], ChildExit::Exited(0), None).finalized, 0);
}

fn spawning(logging: bool) -> Supervisor<Failure> {
    let mut supervisor = Supervisor::new(logging);
    let mut event = Event::Start;
    loop {
        event = match supervisor.step(event) {
            Action::OpenLog => Event::LogOpened(Ok(())),
            Action::CreatePipe => Event::PipeCreated(Ok(())),
            Action::WriteBanner(_) => Event::Wrote(Ok(())),
            Action::DuplicateWriteEnd(_) => Event::Duplicated(Ok(())),
            Action::Spawn => return supervisor,
            other => panic!("{other:?}"),
        };
    }
}

#[test]
fn the_supervisor_holds_three_write_ends_when_it_spawns() {
    let supervisor = spawning(true);
    assert_eq!(supervisor.stage(), Stage::Spawning);
    assert_eq!(
        supervisor.write_ends(),
        WriteEnds { original: true, for_stdout: true, for_stderr: true }
    );
    assert!(supervisor.holds_read_end());
    assert_eq!(supervisor.child(), ChildState::NotSpawned);
}

#[test]
fn after_the_spawn_every_write_end_still_held_is_closed() {
    let takings = [
        (true, true),
        (true, false),
        (false, true),
        (false, false),
    ];
    for logging in [false, true] {
        for (stdout, stderr) in takings {
            let mut supervisor = spawning(logging);
            let asked = supervisor.step(Event::Spawned(Ok(Transferred { stdout, stderr })));
            let held = WriteEnds { original: true, for_stdout: !stdout, for_stderr: !stderr };
            assert_eq!(asked, Action::CloseWriteEnds(held));
            assert_eq!(supervisor.write_ends(), held);
            assert_eq!(supervisor.child(), ChildState::Running);
            let next = supervisor.step(Event::Closed);
            assert!(supervisor.write_ends().is_empty());
            if logging {
                assert_eq!(next, Action::WriteStarted);
                assert_eq!(supervisor.step(Event::Wrote(Ok(()))), Action::Read { max: 1024 });
            } else {
                assert_eq!(next, Action::Read { max: 1024 });
            }
            assert!(supervisor.write_ends().is_empty());
            assert_eq!(supervisor.stage(), Stage::Relaying);
        }
    }
}

#[test]
fn the_end_of_the_stream_is_seen_once_the_child_closes_its_copies() {
    let mut supervisor = spawning(false);
    assert!(matches!(
        supervisor.step(Event::Spawned(Ok(Transferred { stdout: false, stderr: false }))),
        Action::CloseWriteEnds(_)
    ));
    assert_eq!(supervisor.step(Event::Closed), Action::Read { max: 1024 });
    assert!(supervisor.write_ends().is_empty());
    assert_eq!(supervisor.step(Event::ReadDone(Ok(&[]))), Action::Shutdown(Output::Live));
    assert_eq!(supervisor.step(Event::ShutdownDone(Ok(()))), Action::WaitChild);
    assert_eq!(supervisor.stage(), Stage::Waiting);
}

#[test]
fn stages_belong_to_the_phases_of_a_launch() {
    let phases = [
        (Stage::Idle, Phase::Idle),
        (Stage::OpeningLog, Phase::Idle),
        (Stage::CreatingPipe, Phase::Idle),
        (Stage::BannerToLive, Phase::PipeCreated),
        (Stage::BannerToLog, Phase::PipeCreated),
        (Stage::DuplicatingForStdout, Phase::PipeCreated),
        (Stage::DuplicatingForStderr, Phase::PipeCreated),
        (Stage::Spawning, Phase::PipeCreated),
        (Stage::ClosingWriteEnds, Phase::ChildSpawned),
        (Stage::Announcing, Phase::ChildSpawned),
        (Stage::Relaying, Phase::Relaying),
        (Stage::Waiting, Phase::Relaying),
        (Stage::ClosingReadEnd, Phase::ChildAwaited),
        (Stage::Finalizing, Phase::ChildAwaited),
        (Stage::Releasing, Phase::ChildAwaited),
        (Stage::Done, Phase::Done),
        (Stage::Aborting, Phase::Errored),
        (Stage::Errored, Phase::Errored),
    ];
    for (stage, phase) in phases {
        assert_eq!(stage.phase(), phase);
        assert_eq!(stage.is_terminal(), stage == Stage::Done || stage == Stage::Errored);
    }
}

#[test]
fn a_fresh_supervisor_holds_nothing() {
    for logging in [false, true] {
        let supervisor = Supervisor::<Failure>::new(logging);
        assert_eq!(supervisor.logging(), logging);
        assert_eq!(supervisor.stage(), Stage::Idle);
        assert_eq!(supervisor.log(), LogState::Absent);
        assert_eq!(supervisor.write_ends(), WriteEnds::none());
        assert!(WriteEnds::none().is_empty());
        assert!(!supervisor.holds_read_end());
        assert_eq!(supervisor.child(), ChildState::NotSpawned);
    }
}

#[test]
fn an_event_out_of_turn_fails_the_launch() {
    let mut idle = Supervisor::<Failure>::new(true);
    assert_eq!(idle.step(Event::Closed), Action::Finish(Err(LaunchError::Unexpected)));
    assert_eq!(idle.stage(), Stage::Errored);

    let mut spawning = spawning(true);
    assert_eq!(spawning.step(Event::Released), Action::FinalizeLog);
    assert_eq!(spawning.stage(), Stage::Aborting);
    assert_eq!(spawning.log(), LogState::Open);
    let last = spawning.step(Event::Finalized(Ok(())));
    assert_eq!(last, Action::Finish(Err(LaunchError::Unexpected)));
    if let Action::Finish(Err(error)) = last {
        assert_eq!(error.kind(), ErrorKind::Protocol);
    }
    assert_eq!(spawning.stage(), Stage::Errored);
    assert_eq!(spawning.log(), LogState::Finalized);
    assert!(spawning.write_ends().is_empty());
}

#[test]
fn a_report_of_two_writes_is_out_of_turn_without_a_log() {
    let mut supervisor = spawning(false);
    supervisor.step(Event::Spawned(Ok(TAKEN)));
    assert_eq!(supervisor.step(Event::Closed), Action::Read { max: 1024 });
    assert_eq!(supervisor.step(Event::ReadDone(Ok(b"A"))), Action::PassThrough { chunk: b"A" });
    assert_eq!(
        supervisor.step(Event::Relayed { live: Ok(()), log: Ok(()) }),
        Action::Finish(Err(LaunchError::Unexpected))
    );
}

#[test]
fn a_relay_out_of_turn_is_a_failure_of_the_protocol() {
    let mut supervisor = spawning(true);
    supervisor.step(Event::Spawned(Ok(TAKEN)));
    supervisor.step(Event::Closed);
    assert_eq!(supervisor.step(Event::Wrote(Ok(()))), Action::Read { max: 1024 });
    assert_eq!(supervisor.step(Event::ShutdownDone(Ok(()))), Action::FinalizeLog);
    let last = supervisor.step(Event::Finalized(Err("late")));
    assert_eq!(last, Action::Finish(Err(LaunchError::Relay(TeeError::Unexpected))));
    if let Action::Finish(Err(error)) = last {
        assert_eq!(error.kind(), ErrorKind::Protocol);
    }
}

#[test]
fn the_first_failure_is_the_one_handed_out() {
    let mut supervisor = spawning(true);
    assert_eq!(supervisor.step(Event::Spawned(Err("no such file"))), Action::FinalizeLog);
    assert_eq!(supervisor.stage(), Stage::Aborting);
    assert_eq!(
        supervisor.step(Event::Finalized(Err("disk full"))),
        Action::Finish(Err(LaunchError::Spawn("no such file")))
    );
    assert_eq!(supervisor.child(), ChildState::NotSpawned);
}

#[test]
fn a_launch_that_is_over_takes_nothing_more() {
    let mut supervisor = Supervisor::<Failure>::new(false);
    assert_eq!(supervisor.step(Event::Start), Action::CreatePipe);
    assert_eq!(
        supervisor.step(Event::PipeCreated(Err("too many files"))),
        Action::Finish(Err(LaunchError::Pipe("too many files")))
    );
    for _ in 0..2 {
        assert_eq!(supervisor.step(Event::Start), Action::Finish(Err(LaunchError::Unexpected)));
        assert_eq!(supervisor.stage(), Stage::Errored);
    }
}

#[test]
fn the_line_after_the_spawn() {
    assert_eq!(STARTED_LINE, "Game started.\n");
}

#[test]
fn failures_of_the_log_and_of_the_spawn_are_told_with_more() {
    let opening = Some("failed to open log file for writing");
    assert_eq!(LaunchError::<Failure>::LogExists.context(), opening);
    assert_eq!(LaunchError::LogOpen("denied").context(), opening);
    assert_eq!(LaunchError::Spawn("missing").context(), Some("failed to spawn child process"));
    assert_eq!(LaunchError::Pipe("full").context(), None);
    assert_eq!(LaunchError::Duplicate("full").context(), None);
    assert_eq!(LaunchError::Banner(Output::Live, "closed").context(), None);
    assert_eq!(LaunchError::Announce("closed").context(), None);
    assert_eq!(LaunchError::Relay(TeeError::Read("closed")).context(), None);
    assert_eq!(LaunchError::Wait("gone").context(), None);
    assert_eq!(LaunchError::Finalize("full").context(), None);
    assert_eq!(LaunchError::<Failure>::Unexpected.context(), None);
}
