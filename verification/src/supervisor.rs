//! The life of one supervised child as a machine of states, events and
//! actions.
//!
//! The machine decides in which order the log is opened, the pipe made, the
//! child spawned, the pipe's write ends closed, the output relayed, the child
//! awaited and the log finalized. Its caller owns the handles, performs each
//! action and reports what came of it as the next event.

use crate::tee::{tee_step, Sink, Tee, TeeAction, TeeError, TeeEvent, TeeState};
use vstd::prelude::*;
use vstd::string::StringSliceAdditionalSpecFns;

verus! {

/// The line written to the log once the child is spawned.
pub const STARTED_LINE: &'static str = "Game started.\n";

/// The bytes of the line written to the log once the child is spawned.
pub open spec fn started_bytes() -> Seq<u8> {
    STARTED_LINE.spec_bytes()
}

/// How the child ended.
#[derive(Clone, Copy, Debug, PartialEq, Eq, Structural)]
pub enum ChildExit {
    /// The child exited with this code.
    Exited(i32),
    /// The child was killed by this signal.
    Signaled(i32),
}

impl ChildExit {
    /// Whether the child exited with code 0.
    pub open spec fn spec_success(self) -> bool {
        self == ChildExit::Exited(0)
    }

    /// Whether the child exited with code 0.
    pub fn success(&self) -> (ok: bool)
        ensures
            ok == self.spec_success(),
    {
        match self {
            ChildExit::Exited(code) => *code == 0,
            ChildExit::Signaled(_) => false,
        }
    }
}

/// One of the two streams that take the child's output.
#[derive(Clone, Copy, Debug, PartialEq, Eq, Structural)]
pub enum Output {
    /// The live passthrough stream.
    Live,
    /// The compressed log.
    Log,
}

/// One of the child's two output slots.
#[derive(Clone, Copy, Debug, PartialEq, Eq, Structural)]
pub enum Slot {
    /// The child's standard output.
    Stdout,
    /// The child's standard error.
    Stderr,
}

/// The handles on the pipe's write end that the supervisor holds.
#[derive(Clone, Copy, Debug, PartialEq, Eq, Structural)]
pub struct WriteEnds {
    /// The handle that came with the pipe.
    pub original: bool,
    /// The duplicate made for the child's standard output.
    pub for_stdout: bool,
    /// The duplicate made for the child's standard error.
    pub for_stderr: bool,
}

impl WriteEnds {
    /// Whether no handle is held.
    pub open spec fn spec_is_empty(self) -> bool {
        !self.original && !self.for_stdout && !self.for_stderr
    }

    /// Whether no handle is held.
    pub fn is_empty(&self) -> (empty: bool)
        ensures
            empty == self.spec_is_empty(),
    {
        !self.original && !self.for_stdout && !self.for_stderr
    }

    /// No handle.
    pub open spec fn spec_none() -> WriteEnds {
        WriteEnds { original: false, for_stdout: false, for_stderr: false }
    }

    /// No handle.
    pub fn none() -> (ends: WriteEnds)
        ensures
            ends == Self::spec_none(),
    {
        WriteEnds { original: false, for_stdout: false, for_stderr: false }
    }
}

/// Which of the two duplicates the spawn took over from the supervisor.
#[derive(Clone, Copy, Debug, PartialEq, Eq, Structural)]
pub struct Transferred {
    /// The duplicate for the standard output went to the child.
    pub stdout: bool,
    /// The duplicate for the standard error went to the child.
    pub stderr: bool,
}

/// The life of the log sink: opened, written, finalized once.
#[derive(Clone, Copy, Debug, PartialEq, Eq, Structural)]
pub enum LogState {
    /// No log was opened.
    Absent,
    /// The log is open and takes writes.
    Open,
    /// The finalizing of the log was reported, done or failed; the log takes
    /// nothing more.
    Finalized,
}

/// What the supervisor knows of the child.
#[derive(Clone, Copy, Debug, PartialEq, Eq, Structural)]
pub enum ChildState {
    /// No child was spawned.
    NotSpawned,
    /// The child was spawned and not yet awaited.
    Running,
    /// The child has ended and its handle is still held.
    Exited(ChildExit),
    /// The child's handle was let go.
    Released,
}

/// Why opening the log failed.
#[derive(Debug, PartialEq, Eq)]
pub enum OpenFailure<E> {
    /// A file of that name is there already.
    AlreadyExists,
    /// Any other failure.
    Other(E),
}

/// The kinds of failure of a launch.
#[derive(Clone, Copy, Debug, PartialEq, Eq, Structural)]
pub enum ErrorKind {
    /// The child could not be spawned.
    Spawn,
    /// The pipe, a sink or the log's file failed.
    Io,
    /// The child's exit status could not be had.
    ChildWait,
    /// The caller reported something that answers no action.
    Protocol,
}

/// Why a supervised run failed. `E` is the caller's own error value, handed
/// through unchanged.
#[derive(Debug, PartialEq, Eq)]
pub enum LaunchError<E> {
    /// The log's file is there already; it is left as it is.
    LogExists,
    /// The log's file could not be created.
    LogOpen(E),
    /// The pipe could not be made.
    Pipe(E),
    /// The pipe's write end could not be duplicated.
    Duplicate(E),
    /// The banner could not be written to this stream.
    Banner(Output, E),
    /// The child could not be spawned.
    Spawn(E),
    /// The line that follows the spawn could not be written to the log.
    Announce(E),
    /// The relay of the child's output failed.
    Relay(TeeError<E>),
    /// The child's exit status could not be had.
    Wait(E),
    /// The log could not be finalized.
    Finalize(E),
    /// An event arrived that answers no action of the machine.
    Unexpected,
}

impl<E> LaunchError<E> {
    /// The kind of this failure.
    pub open spec fn spec_kind(self) -> ErrorKind {
        match self {
            LaunchError::Spawn(_) => ErrorKind::Spawn,
            LaunchError::Wait(_) => ErrorKind::ChildWait,
            LaunchError::Unexpected => ErrorKind::Protocol,
            LaunchError::Relay(TeeError::Unexpected) => ErrorKind::Protocol,
            _ => ErrorKind::Io,
        }
    }

    /// The kind of this failure.
    pub fn kind(&self) -> (kind: ErrorKind)
        ensures
            kind == self.spec_kind(),
    {
        match self {
            LaunchError::Spawn(_) => ErrorKind::Spawn,
            LaunchError::Wait(_) => ErrorKind::ChildWait,
            LaunchError::Unexpected => ErrorKind::Protocol,
            LaunchError::Relay(TeeError::Unexpected) => ErrorKind::Protocol,
            _ => ErrorKind::Io,
        }
    }

    /// What the failure is told with, for the failures that are told with
    /// more than the caller's own error: those of opening the log and of
    /// spawning the child.
    pub fn context(&self) -> (text: Option<&'static str>)
        ensures
            text is Some <==> self is LogExists || self is LogOpen || self is Spawn,
            self is LogExists || self is LogOpen ==> text == Some(
                "failed to open log file for writing",
            ),
            self is Spawn ==> text == Some("failed to spawn child process"),
    {
        match self {
            LaunchError::LogExists => Some("failed to open log file for writing"),
            LaunchError::LogOpen(_) => Some("failed to open log file for writing"),
            LaunchError::Spawn(_) => Some("failed to spawn child process"),
            _ => None,
        }
    }

    /// Whether the failure is that the log's file was there already.
    pub fn is_collision(&self) -> (collision: bool)
        ensures
            collision == (self is LogExists),
    {
        match self {
            LaunchError::LogExists => true,
            _ => false,
        }
    }
}

/// The step of the launch that the machine waits on.
#[derive(Clone, Copy, Debug, PartialEq, Eq, Structural)]
pub enum Stage {
    /// Nothing was done yet.
    Idle,
    /// The log is being opened.
    OpeningLog,
    /// The pipe is being made.
    CreatingPipe,
    /// The banner is being written to the live stream.
    BannerToLive,
    /// The banner is being written to the log.
    BannerToLog,
    /// The write end is being duplicated for the child's standard output.
    DuplicatingForStdout,
    /// The write end is being duplicated for the child's standard error.
    DuplicatingForStderr,
    /// The child is being spawned.
    Spawning,
    /// The write ends that the supervisor still holds are being closed.
    ClosingWriteEnds,
    /// The line that follows the spawn is being written to the log.
    Announcing,
    /// The child's output is being relayed.
    Relaying,
    /// The child is being awaited.
    Waiting,
    /// The pipe's read end is being closed.
    ClosingReadEnd,
    /// The log is being finalized after the child has ended.
    Finalizing,
    /// The child's handle is being let go.
    Releasing,
    /// The log is being finalized after a failure.
    Aborting,
    /// The launch has ended well.
    Done,
    /// The launch has failed.
    Errored,
}

/// The broad state of a launch; each phase spans one or more stages.
#[derive(Clone, Copy, Debug, PartialEq, Eq, Structural)]
pub enum Phase {
    /// Before the pipe is made.
    Idle,
    /// The pipe is made; the child is not spawned.
    PipeCreated,
    /// The child is spawned; nothing was read from the pipe.
    ChildSpawned,
    /// The child's output is relayed until the child has ended.
    Relaying,
    /// The child has ended; the log and the handles are being closed.
    ChildAwaited,
    /// The launch has ended well.
    Done,
    /// The launch has failed.
    Errored,
}

impl Stage {
    /// The phase that this stage belongs to.
    pub open spec fn spec_phase(self) -> Phase {
        match self {
            Stage::Idle | Stage::OpeningLog | Stage::CreatingPipe => Phase::Idle,
            Stage::BannerToLive
            | Stage::BannerToLog
            | Stage::DuplicatingForStdout
            | Stage::DuplicatingForStderr
            | Stage::Spawning => Phase::PipeCreated,
            Stage::ClosingWriteEnds | Stage::Announcing => Phase::ChildSpawned,
            Stage::Relaying | Stage::Waiting => Phase::Relaying,
            Stage::ClosingReadEnd | Stage::Finalizing | Stage::Releasing => Phase::ChildAwaited,
            Stage::Done => Phase::Done,
            Stage::Aborting | Stage::Errored => Phase::Errored,
        }
    }

    /// The phase that this stage belongs to.
    pub fn phase(self) -> (phase: Phase)
        ensures
            phase == self.spec_phase(),
    {
        match self {
            Stage::Idle | Stage::OpeningLog | Stage::CreatingPipe => Phase::Idle,
            Stage::BannerToLive
            | Stage::BannerToLog
            | Stage::DuplicatingForStdout
            | Stage::DuplicatingForStderr
            | Stage::Spawning => Phase::PipeCreated,
            Stage::ClosingWriteEnds | Stage::Announcing => Phase::ChildSpawned,
            Stage::Relaying | Stage::Waiting => Phase::Relaying,
            Stage::ClosingReadEnd | Stage::Finalizing | Stage::Releasing => Phase::ChildAwaited,
            Stage::Done => Phase::Done,
            Stage::Aborting | Stage::Errored => Phase::Errored,
        }
    }

    /// Whether the launch is over.
    pub open spec fn spec_is_terminal(self) -> bool {
        self == Stage::Done || self == Stage::Errored
    }

    /// Whether the launch is over.
    pub fn is_terminal(self) -> (terminal: bool)
        ensures
            terminal == self.spec_is_terminal(),
    {
        match self {
            Stage::Done | Stage::Errored => true,
            _ => false,
        }
    }
}

impl Phase {
    /// The place of the phase in the order of a launch that ends well.
    pub open spec fn rank(self) -> nat {
        match self {
            Phase::Idle => 0,
            Phase::PipeCreated => 1,
            Phase::ChildSpawned => 2,
            Phase::Relaying => 3,
            Phase::ChildAwaited => 4,
            Phase::Done => 5,
            Phase::Errored => 6,
        }
    }
}

/// What the caller reports to the machine.
#[derive(Debug, PartialEq, Eq)]
pub enum Event<'a, E> {
    /// The launch begins.
    Start,
    /// The log was opened, or could not be.
    LogOpened(Result<(), OpenFailure<E>>),
    /// The pipe was made, or could not be.
    PipeCreated(Result<(), E>),
    /// A write to one stream ended.
    Wrote(Result<(), E>),
    /// The write end was duplicated, or could not be.
    Duplicated(Result<(), E>),
    /// The spawn returned: with the child, and which duplicates it took
    /// over, or with a failure.
    Spawned(Result<Transferred, E>),
    /// The handles named by the action are closed.
    Closed,
    /// The read that was asked for ended: with the bytes read, none of them
    /// at the end of the stream, or with a failure.
    ReadDone(Result<&'a [u8], E>),
    /// Both writes of a chunk ended.
    Relayed { live: Result<(), E>, log: Result<(), E> },
    /// The shutdown that was asked for ended.
    ShutdownDone(Result<(), E>),
    /// The child has ended, or its status could not be had.
    Waited(Result<ChildExit, E>),
    /// The log was finalized, or could not be.
    Finalized(Result<(), E>),
    /// The child's handle was let go.
    Released,
}

/// What the machine asks of the caller.
#[derive(Debug, PartialEq, Eq)]
pub enum Action<'a, E> {
    /// Create the log's file, refusing a name that is taken, and start the
    /// compressor on it.
    OpenLog,
    /// Make the pipe.
    CreatePipe,
    /// Write the banner to this stream.
    WriteBanner(Output),
    /// Duplicate the pipe's write end for this slot of the child.
    DuplicateWriteEnd(Slot),
    /// Spawn the child with the two duplicates as its standard output and
    /// standard error.
    Spawn,
    /// Close these handles on the pipe's write end: all that the supervisor
    /// still holds.
    CloseWriteEnds(WriteEnds),
    /// Write `STARTED_LINE` to the log.
    WriteStarted,
    /// Read at most `max` bytes from the pipe's read end.
    Read { max: usize },
    /// Write the whole chunk to the live stream and to the log, both writes
    /// issued together, and wait for both.
    Relay { chunk: &'a [u8] },
    /// Write the whole chunk to the live stream.
    PassThrough { chunk: &'a [u8] },
    /// Flush this stream and, where it is the live stream, shut it down. The
    /// log is closed by `FinalizeLog`.
    Shutdown(Output),
    /// Wait until the child has ended.
    WaitChild,
    /// Close the pipe's read end.
    CloseReadEnd,
    /// Write the compressor's trailer and close the log's file.
    FinalizeLog,
    /// Let the child's handle go.
    ReleaseChild,
    /// The launch is over, with this outcome. Whatever the caller still
    /// holds is dropped.
    Finish(Result<ChildExit, LaunchError<E>>),
}

/// The state of the machine.
pub struct SupervisorView<E> {
    /// Whether a log is kept.
    pub logging: bool,
    /// The step that the machine waits on.
    pub stage: Stage,
    /// The life of the log.
    pub log: LogState,
    /// Whether the pipe's read end is held.
    pub read_end: bool,
    /// The handles on the pipe's write end that are held.
    pub write_ends: WriteEnds,
    /// What is known of the child.
    pub child: ChildState,
    /// Where the relay stands.
    pub tee: TeeState,
    /// The failure that ends the launch once the log is finalized.
    pub failure: Option<LaunchError<E>>,
}

/// The machine before anything was done.
pub open spec fn initial<E>(logging: bool) -> SupervisorView<E> {
    SupervisorView {
        logging,
        stage: Stage::Idle,
        log: LogState::Absent,
        read_end: false,
        write_ends: WriteEnds::spec_none(),
        child: ChildState::NotSpawned,
        tee: TeeState::Idle,
        failure: None,
    }
}

/// Whether the state is one that the machine can be in: what it holds fits
/// the step it waits on.
pub open spec fn well_formed<E>(s: SupervisorView<E>) -> bool {
    let log_as_wanted = s.log == (if s.logging {
        LogState::Open
    } else {
        LogState::Absent
    });
    let log_closed = s.log == (if s.logging {
        LogState::Finalized
    } else {
        LogState::Absent
    });
    let original_only = WriteEnds { original: true, for_stdout: false, for_stderr: false };
    &&& (s.failure is Some <==> s.stage == Stage::Aborting)
    &&& match s.stage {
        Stage::Idle => {
            &&& s.log == LogState::Absent
            &&& !s.read_end
            &&& s.write_ends.spec_is_empty()
            &&& s.child == ChildState::NotSpawned
            &&& s.tee == TeeState::Idle
        },
        Stage::OpeningLog => {
            &&& s.logging
            &&& s.log == LogState::Absent
            &&& !s.read_end
            &&& s.write_ends.spec_is_empty()
            &&& s.child == ChildState::NotSpawned
            &&& s.tee == TeeState::Idle
        },
        Stage::CreatingPipe => {
            &&& log_as_wanted
            &&& !s.read_end
            &&& s.write_ends.spec_is_empty()
            &&& s.child == ChildState::NotSpawned
            &&& s.tee == TeeState::Idle
        },
        Stage::BannerToLive | Stage::DuplicatingForStdout => {
            &&& log_as_wanted
            &&& s.read_end
            &&& s.write_ends == original_only
            &&& s.child == ChildState::NotSpawned
            &&& s.tee == TeeState::Idle
        },
        Stage::BannerToLog => {
            &&& s.logging
            &&& log_as_wanted
            &&& s.read_end
            &&& s.write_ends == original_only
            &&& s.child == ChildState::NotSpawned
            &&& s.tee == TeeState::Idle
        },
        Stage::DuplicatingForStderr => {
            &&& log_as_wanted
            &&& s.read_end
            &&& s.write_ends == WriteEnds { for_stdout: true, ..original_only }
            &&& s.child == ChildState::NotSpawned
            &&& s.tee == TeeState::Idle
        },
        Stage::Spawning => {
            &&& log_as_wanted
            &&& s.read_end
            &&& s.write_ends == WriteEnds { original: true, for_stdout: true, for_stderr: true }
            &&& s.child == ChildState::NotSpawned
            &&& s.tee == TeeState::Idle
        },
        Stage::ClosingWriteEnds => {
            &&& log_as_wanted
            &&& s.read_end
            &&& s.write_ends.original
            &&& s.child == ChildState::Running
            &&& s.tee == TeeState::Idle
        },
        Stage::Announcing => {
            &&& s.logging
            &&& log_as_wanted
            &&& s.read_end
            &&& s.write_ends.spec_is_empty()
            &&& s.child == ChildState::Running
            &&& s.tee == TeeState::Idle
        },
        Stage::Relaying => {
            &&& log_as_wanted
            &&& s.read_end
            &&& s.write_ends.spec_is_empty()
            &&& s.child == ChildState::Running
            &&& (s.tee == TeeState::Reading || s.tee == TeeState::Writing || s.tee
                == TeeState::ClosingFirst || (s.tee == TeeState::ClosingSecond && s.logging))
        },
        Stage::Waiting => {
            &&& log_as_wanted
            &&& s.read_end
            &&& s.write_ends.spec_is_empty()
            &&& s.child == ChildState::Running
            &&& s.tee == TeeState::Finished
        },
        Stage::ClosingReadEnd => {
            &&& log_as_wanted
            &&& s.read_end
            &&& s.write_ends.spec_is_empty()
            &&& s.child is Exited
            &&& s.tee == TeeState::Finished
        },
        Stage::Finalizing => {
            &&& s.logging
            &&& s.log == LogState::Open
            &&& !s.read_end
            &&& s.write_ends.spec_is_empty()
            &&& s.child is Exited
            &&& s.tee == TeeState::Finished
        },
        Stage::Releasing => {
            &&& log_closed
            &&& !s.read_end
            &&& s.write_ends.spec_is_empty()
            &&& s.child is Exited
            &&& s.tee == TeeState::Finished
        },
        Stage::Done => {
            &&& log_closed
            &&& !s.read_end
            &&& s.write_ends.spec_is_empty()
            &&& s.child == ChildState::Released
            &&& s.tee == TeeState::Finished
        },
        Stage::Aborting => {
            &&& s.logging
            &&& s.log == LogState::Open
        },
        Stage::Errored => {
            &&& s.log != LogState::Open
            &&& !s.read_end
            &&& s.write_ends.spec_is_empty()
            &&& s.child != ChildState::Running
            &&& !(s.child is Exited)
        },
    }
}

/// What is known of the child once every handle is dropped.
pub open spec fn child_let_go(child: ChildState) -> ChildState {
    match child {
        ChildState::NotSpawned => ChildState::NotSpawned,
        _ => ChildState::Released,
    }
}

/// The machine fails with `error`: it asks for the log to be finalized
/// where one is open, and ends the launch otherwise. The failure that ends
/// the launch is the first one.
pub open spec fn fail_step<'a, E>(s: SupervisorView<E>, error: LaunchError<E>) -> (
    SupervisorView<E>,
    Action<'a, E>,
) {
    let first = match s.failure {
        Some(earlier) => earlier,
        None => error,
    };
    if s.log == LogState::Open {
        (SupervisorView { stage: Stage::Aborting, failure: Some(first), ..s }, Action::FinalizeLog)
    } else {
        (
            SupervisorView {
                stage: Stage::Errored,
                read_end: false,
                write_ends: WriteEnds::spec_none(),
                child: child_let_go(s.child),
                failure: None,
                ..s
            },
            Action::Finish(Err(first)),
        )
    }
}

/// The relay has asked for `asked`: what the machine asks of its caller.
/// Without a log the chunk goes to the live stream alone and the second
/// sink's shutdown is taken as done.
pub open spec fn relay_step<'a, E>(s: SupervisorView<E>, tee: TeeState, asked: TeeAction<'a, E>) -> (
    SupervisorView<E>,
    Action<'a, E>,
) {
    let relaying = SupervisorView { stage: Stage::Relaying, tee, ..s };
    match asked {
        TeeAction::Read { max } => (relaying, Action::Read { max }),
        TeeAction::Write { chunk } => if s.logging {
            (relaying, Action::Relay { chunk })
        } else {
            (relaying, Action::PassThrough { chunk })
        },
        TeeAction::Shutdown(Sink::First) => (relaying, Action::Shutdown(Output::Live)),
        TeeAction::Shutdown(Sink::Second) => if s.logging {
            (relaying, Action::Shutdown(Output::Log))
        } else {
            (
                SupervisorView { stage: Stage::Waiting, tee: TeeState::Finished, ..s },
                Action::WaitChild,
            )
        },
        TeeAction::Finish(Ok(_)) => (SupervisorView { stage: Stage::Waiting, tee, ..s }, Action::WaitChild),
        TeeAction::Finish(Err(error)) => fail_step(
            SupervisorView { tee, ..s },
            LaunchError::Relay(error),
        ),
    }
}

/// What the machine does in state `s` on `event`: the state it moves to and
/// the action it asks for.
pub open spec fn supervise_step<'a, E>(s: SupervisorView<E>, event: Event<'a, E>) -> (
    SupervisorView<E>,
    Action<'a, E>,
) {
    match (s.stage, event) {
        (Stage::Done, _) | (Stage::Errored, _) => (s, Action::Finish(Err(LaunchError::Unexpected))),
        (Stage::Idle, Event::Start) => if s.logging {
            (SupervisorView { stage: Stage::OpeningLog, ..s }, Action::OpenLog)
        } else {
            (SupervisorView { stage: Stage::CreatingPipe, ..s }, Action::CreatePipe)
        },
        (Stage::OpeningLog, Event::LogOpened(Ok(_))) => (
            SupervisorView { stage: Stage::CreatingPipe, log: LogState::Open, ..s },
            Action::CreatePipe,
        ),
        (Stage::OpeningLog, Event::LogOpened(Err(OpenFailure::AlreadyExists))) => fail_step(
            s,
            LaunchError::LogExists,
        ),
        (Stage::OpeningLog, Event::LogOpened(Err(OpenFailure::Other(e)))) => fail_step(
            s,
            LaunchError::LogOpen(e),
        ),
        (Stage::CreatingPipe, Event::PipeCreated(Ok(_))) => (
            SupervisorView {
                stage: Stage::BannerToLive,
                read_end: true,
                write_ends: WriteEnds { original: true, for_stdout: false, for_stderr: false },
                ..s
            },
            Action::WriteBanner(Output::Live),
        ),
        (Stage::CreatingPipe, Event::PipeCreated(Err(e))) => fail_step(s, LaunchError::Pipe(e)),
        (Stage::BannerToLive, Event::Wrote(Ok(_))) => if s.logging {
            (SupervisorView { stage: Stage::BannerToLog, ..s }, Action::WriteBanner(Output::Log))
        } else {
            (
                SupervisorView { stage: Stage::DuplicatingForStdout, ..s },
                Action::DuplicateWriteEnd(Slot::Stdout),
            )
        },
        (Stage::BannerToLive, Event::Wrote(Err(e))) => fail_step(
            s,
            LaunchError::Banner(Output::Live, e),
        ),
        (Stage::BannerToLog, Event::Wrote(Ok(_))) => (
            SupervisorView { stage: Stage::DuplicatingForStdout, ..s },
            Action::DuplicateWriteEnd(Slot::Stdout),
        ),
        (Stage::BannerToLog, Event::Wrote(Err(e))) => fail_step(s, LaunchError::Banner(Output::Log, e)),
        (Stage::DuplicatingForStdout, Event::Duplicated(Ok(_))) => (
            SupervisorView {
                stage: Stage::DuplicatingForStderr,
                write_ends: WriteEnds { for_stdout: true, ..s.write_ends },
                ..s
            },
            Action::DuplicateWriteEnd(Slot::Stderr),
        ),
        (Stage::DuplicatingForStdout, Event::Duplicated(Err(e))) => fail_step(
            s,
            LaunchError::Duplicate(e),
        ),
        (Stage::DuplicatingForStderr, Event::Duplicated(Ok(_))) => (
            SupervisorView {
                stage: Stage::Spawning,
                write_ends: WriteEnds { for_stderr: true, ..s.write_ends },
                ..s
            },
            Action::Spawn,
        ),
        (Stage::DuplicatingForStderr, Event::Duplicated(Err(e))) => fail_step(
            s,
            LaunchError::Duplicate(e),
        ),
        (Stage::Spawning, Event::Spawned(Ok(taken))) => {
            let held = WriteEnds {
                original: s.write_ends.original,
                for_stdout: s.write_ends.for_stdout && !taken.stdout,
                for_stderr: s.write_ends.for_stderr && !taken.stderr,
            };
            (
                SupervisorView {
                    stage: Stage::ClosingWriteEnds,
                    write_ends: held,
                    child: ChildState::Running,
                    ..s
                },
                Action::CloseWriteEnds(held),
            )
        },
        (Stage::Spawning, Event::Spawned(Err(e))) => fail_step(s, LaunchError::Spawn(e)),
        (Stage::ClosingWriteEnds, Event::Closed) => {
            let closed = SupervisorView { write_ends: WriteEnds::spec_none(), ..s };
            if s.logging {
                (SupervisorView { stage: Stage::Announcing, ..closed }, Action::WriteStarted)
            } else {
                let (tee, asked) = tee_step::<E>(closed.tee, TeeEvent::Started);
                relay_step(closed, tee, asked)
            }
        },
        (Stage::Announcing, Event::Wrote(Ok(_))) => {
            let (tee, asked) = tee_step::<E>(s.tee, TeeEvent::Started);
            relay_step(s, tee, asked)
        },
        (Stage::Announcing, Event::Wrote(Err(e))) => fail_step(s, LaunchError::Announce(e)),
        (Stage::Relaying, Event::ReadDone(read)) => {
            let (tee, asked) = tee_step(s.tee, TeeEvent::ReadDone(read));
            relay_step(s, tee, asked)
        },
        (Stage::Relaying, Event::Relayed { live, log }) => if s.logging {
            let (tee, asked) = tee_step(s.tee, TeeEvent::WritesDone { first: live, second: log });
            relay_step(s, tee, asked)
        } else {
            fail_step(s, LaunchError::Unexpected)
        },
        (Stage::Relaying, Event::Wrote(live)) => if s.logging {
            fail_step(s, LaunchError::Unexpected)
        } else {
            let (tee, asked) = tee_step(s.tee, TeeEvent::WritesDone { first: live, second: Ok(()) });
            relay_step(s, tee, asked)
        },
        (Stage::Relaying, Event::ShutdownDone(done)) => {
            let (tee, asked) = tee_step(s.tee, TeeEvent::ShutdownDone(done));
            relay_step(s, tee, asked)
        },
        (Stage::Waiting, Event::Waited(Ok(status))) => (
            SupervisorView { stage: Stage::ClosingReadEnd, child: ChildState::Exited(status), ..s },
            Action::CloseReadEnd,
        ),
        (Stage::Waiting, Event::Waited(Err(e))) => fail_step(s, LaunchError::Wait(e)),
        (Stage::ClosingReadEnd, Event::Closed) => if s.log == LogState::Open {
            (SupervisorView { stage: Stage::Finalizing, read_end: false, ..s }, Action::FinalizeLog)
        } else {
            (SupervisorView { stage: Stage::Releasing, read_end: false, ..s }, Action::ReleaseChild)
        },
        (Stage::Finalizing, Event::Finalized(Ok(_))) => (
            SupervisorView { stage: Stage::Releasing, log: LogState::Finalized, ..s },
            Action::ReleaseChild,
        ),
        (Stage::Finalizing, Event::Finalized(Err(e))) => fail_step(
            SupervisorView { log: LogState::Finalized, ..s },
            LaunchError::Finalize(e),
        ),
        (Stage::Releasing, Event::Released) => match s.child {
            ChildState::Exited(status) => (
                SupervisorView { stage: Stage::Done, child: ChildState::Released, ..s },
                Action::Finish(Ok(status)),
            ),
            _ => fail_step(s, LaunchError::Unexpected),
        },
        (Stage::Aborting, Event::Finalized(_)) => fail_step(
            SupervisorView { log: LogState::Finalized, ..s },
            LaunchError::Unexpected,
        ),
        _ => fail_step(s, LaunchError::Unexpected),
    }
}

/// The supervisor of one launch.
pub struct Supervisor<E> {
    logging: bool,
    stage: Stage,
    log: LogState,
    read_end: bool,
    write_ends: WriteEnds,
    child: ChildState,
    tee: Tee,
    failure: Option<LaunchError<E>>,
}

impl<E> View for Supervisor<E> {
    type V = SupervisorView<E>;

    closed spec fn view(&self) -> SupervisorView<E> {
        SupervisorView {
            logging: self.logging,
            stage: self.stage,
            log: self.log,
            read_end: self.read_end,
            write_ends: self.write_ends,
            child: self.child,
            tee: self.tee.spec_state(),
            failure: self.failure,
        }
    }
}

impl<E> Supervisor<E> {
    /// A supervisor that has done nothing yet, with or without a log.
    pub fn new(logging: bool) -> (supervisor: Supervisor<E>)
        ensures
            supervisor@ == initial::<E>(logging),
            well_formed(supervisor@),
    {
        Supervisor {
            logging,
            stage: Stage::Idle,
            log: LogState::Absent,
            read_end: false,
            write_ends: WriteEnds::none(),
            child: ChildState::NotSpawned,
            tee: Tee::new(),
            failure: None,
        }
    }

    /// The step that the machine waits on.
    pub fn stage(&self) -> (stage: Stage)
        ensures
            stage == self@.stage,
    {
        self.stage
    }

    /// Whether a log is kept.
    pub fn logging(&self) -> (logging: bool)
        ensures
            logging == self@.logging,
    {
        self.logging
    }

    /// The life of the log.
    pub fn log(&self) -> (log: LogState)
        ensures
            log == self@.log,
    {
        self.log
    }

    /// The handles on the pipe's write end that are held.
    pub fn write_ends(&self) -> (ends: WriteEnds)
        ensures
            ends == self@.write_ends,
    {
        self.write_ends
    }

    /// Whether the pipe's read end is held.
    pub fn holds_read_end(&self) -> (held: bool)
        ensures
            held == self@.read_end,
    {
        self.read_end
    }

    /// What is known of the child.
    pub fn child(&self) -> (child: ChildState)
        ensures
            child == self@.child,
    {
        self.child
    }

    /// Fails the launch with `error`, or with the failure met before it.
    fn fail<'a>(&mut self, error: LaunchError<E>) -> (action: Action<'a, E>)
        ensures
            (final(self)@, action) == fail_step::<E>(old(self)@, error),
    {
        let first = match self.failure.take() {
            Some(earlier) => earlier,
            None => error,
        };
        if self.log == LogState::Open {
            self.stage = Stage::Aborting;
            self.failure = Some(first);
            Action::FinalizeLog
        } else {
            self.stage = Stage::Errored;
            self.read_end = false;
            self.write_ends = WriteEnds::none();
            self.child = match self.child {
                ChildState::NotSpawned => ChildState::NotSpawned,
                _ => ChildState::Released,
            };
            Action::Finish(Err(first))
        }
    }

    /// Hands `event` to the relay and turns what the relay asks for into
    /// what the caller is asked.
    fn relay<'a>(&mut self, event: TeeEvent<'a, E>) -> (action: Action<'a, E>)
        ensures
            (final(self)@, action) == relay_step(
                old(self)@,
                tee_step(old(self)@.tee, event).0,
                tee_step(old(self)@.tee, event).1,
            ),
    {
        let asked = self.tee.step(event);
        match asked {
            TeeAction::Read { max } => {
                self.stage = Stage::Relaying;
                Action::Read { max }
            },
            TeeAction::Write { chunk } => {
                self.stage = Stage::Relaying;
                if self.logging {
                    Action::Relay { chunk }
                } else {
                    Action::PassThrough { chunk }
                }
            },
            TeeAction::Shutdown(Sink::First) => {
                self.stage = Stage::Relaying;
                Action::Shutdown(Output::Live)
            },
            TeeAction::Shutdown(Sink::Second) => {
                if self.logging {
                    self.stage = Stage::Relaying;
                    Action::Shutdown(Output::Log)
                } else {
                    let _ = self.tee.step(TeeEvent::<E>::ShutdownDone(Ok(())));
                    self.stage = Stage::Waiting;
                    Action::WaitChild
                }
            },
            TeeAction::Finish(Ok(_)) => {
                self.stage = Stage::Waiting;
                Action::WaitChild
            },
            TeeAction::Finish(Err(error)) => self.fail(LaunchError::Relay(error)),
        }
    }

    /// Takes the caller's report and decides what is done next.
    #[verifier::rlimit(40)]
    pub fn step<'a>(&mut self, event: Event<'a, E>) -> (action: Action<'a, E>)
        ensures
            (final(self)@, action) == supervise_step(old(self)@, event),
            well_formed(old(self)@) ==> well_formed(final(self)@),
    {
        match (self.stage, event) {
            (Stage::Done, _) | (Stage::Errored, _) => Action::Finish(Err(LaunchError::Unexpected)),
            (Stage::Idle, Event::Start) => {
                if self.logging {
                    self.stage = Stage::OpeningLog;
                    Action::OpenLog
                } else {
                    self.stage = Stage::CreatingPipe;
                    Action::CreatePipe
                }
            },
            (Stage::OpeningLog, Event::LogOpened(Ok(_))) => {
                self.stage = Stage::CreatingPipe;
                self.log = LogState::Open;
                Action::CreatePipe
            },
            (Stage::OpeningLog, Event::LogOpened(Err(OpenFailure::AlreadyExists))) => self.fail(
                LaunchError::LogExists,
            ),
            (Stage::OpeningLog, Event::LogOpened(Err(OpenFailure::Other(e)))) => self.fail(
                LaunchError::LogOpen(e),
            ),
            (Stage::CreatingPipe, Event::PipeCreated(Ok(_))) => {
                self.stage = Stage::BannerToLive;
                self.read_end = true;
                self.write_ends = WriteEnds { original: true, for_stdout: false, for_stderr: false };
                Action::WriteBanner(Output::Live)
            },
            (Stage::CreatingPipe, Event::PipeCreated(Err(e))) => self.fail(LaunchError::Pipe(e)),
            (Stage::BannerToLive, Event::Wrote(Ok(_))) => {
                if self.logging {
                    self.stage = Stage::BannerToLog;
                    Action::WriteBanner(Output::Log)
                } else {
                    self.stage = Stage::DuplicatingForStdout;
                    Action::DuplicateWriteEnd(Slot::Stdout)
                }
            },
            (Stage::BannerToLive, Event::Wrote(Err(e))) => self.fail(
                LaunchError::Banner(Output::Live, e),
            ),
            (Stage::BannerToLog, Event::Wrote(Ok(_))) => {
                self.stage = Stage::DuplicatingForStdout;
                Action::DuplicateWriteEnd(Slot::Stdout)
            },
            (Stage::BannerToLog, Event::Wrote(Err(e))) => self.fail(
                LaunchError::Banner(Output::Log, e),
            ),
            (Stage::DuplicatingForStdout, Event::Duplicated(Ok(_))) => {
                self.stage = Stage::DuplicatingForStderr;
                self.write_ends.for_stdout = true;
                Action::DuplicateWriteEnd(Slot::Stderr)
            },
            (Stage::DuplicatingForStdout, Event::Duplicated(Err(e))) => self.fail(
                LaunchError::Duplicate(e),
            ),
            (Stage::DuplicatingForStderr, Event::Duplicated(Ok(_))) => {
                self.stage = Stage::Spawning;
                self.write_ends.for_stderr = true;
                Action::Spawn
            },
            (Stage::DuplicatingForStderr, Event::Duplicated(Err(e))) => self.fail(
                LaunchError::Duplicate(e),
            ),
            (Stage::Spawning, Event::Spawned(Ok(taken))) => {
                let held = WriteEnds {
                    original: self.write_ends.original,
                    for_stdout: self.write_ends.for_stdout && !taken.stdout,
                    for_stderr: self.write_ends.for_stderr && !taken.stderr,
                };
                self.stage = Stage::ClosingWriteEnds;
                self.write_ends = held;
                self.child = ChildState::Running;
                Action::CloseWriteEnds(held)
            },
            (Stage::Spawning, Event::Spawned(Err(e))) => self.fail(LaunchError::Spawn(e)),
            (Stage::ClosingWriteEnds, Event::Closed) => {
                self.write_ends = WriteEnds::none();
                if self.logging {
                    self.stage = Stage::Announcing;
                    Action::WriteStarted
                } else {
                    self.relay(TeeEvent::Started)
                }
            },
            (Stage::Announcing, Event::Wrote(Ok(_))) => self.relay(TeeEvent::Started),
            (Stage::Announcing, Event::Wrote(Err(e))) => self.fail(LaunchError::Announce(e)),
            (Stage::Relaying, Event::ReadDone(read)) => self.relay(TeeEvent::ReadDone(read)),
            (Stage::Relaying, Event::Relayed { live, log }) => {
                if self.logging {
                    self.relay(TeeEvent::WritesDone { first: live, second: log })
                } else {
                    self.fail(LaunchError::Unexpected)
                }
            },
            (Stage::Relaying, Event::Wrote(live)) => {
                if self.logging {
                    self.fail(LaunchError::Unexpected)
                } else {
                    self.relay(TeeEvent::WritesDone { first: live, second: Ok(()) })
                }
            },
            (Stage::Relaying, Event::ShutdownDone(done)) => self.relay(TeeEvent::ShutdownDone(done)),
            (Stage::Waiting, Event::Waited(Ok(status))) => {
                self.stage = Stage::ClosingReadEnd;
                self.child = ChildState::Exited(status);
                Action::CloseReadEnd
            },
            (Stage::Waiting, Event::Waited(Err(e))) => self.fail(LaunchError::Wait(e)),
            (Stage::ClosingReadEnd, Event::Closed) => {
                self.read_end = false;
                if self.log == LogState::Open {
                    self.stage = Stage::Finalizing;
                    Action::FinalizeLog
                } else {
                    self.stage = Stage::Releasing;
                    Action::ReleaseChild
                }
            },
            (Stage::Finalizing, Event::Finalized(Ok(_))) => {
                self.stage = Stage::Releasing;
                self.log = LogState::Finalized;
                Action::ReleaseChild
            },
            (Stage::Finalizing, Event::Finalized(Err(e))) => {
                self.log = LogState::Finalized;
                self.fail(LaunchError::Finalize(e))
            },
            (Stage::Releasing, Event::Released) => {
                match self.child {
                    ChildState::Exited(status) => {
                        self.stage = Stage::Done;
                        self.child = ChildState::Released;
                        Action::Finish(Ok(status))
                    },
                    _ => self.fail(LaunchError::Unexpected),
                }
            },
            (Stage::Aborting, Event::Finalized(_)) => {
                self.log = LogState::Finalized;
                self.fail(LaunchError::Unexpected)
            },
            _ => self.fail(LaunchError::Unexpected),
        }
    }
}

} // verus!
