//! What holds of a whole supervised run: of the actions that the supervisor
//! asks for, taken together, when its caller reports event after event.

use crate::supervisor::{
    initial, started_bytes, supervise_step, well_formed, Action, ChildExit, ChildState, Event,
    LaunchError, LogState, OpenFailure, Output, Phase, Slot, Stage, SupervisorView, Transferred,
    WriteEnds,
};
use crate::tee::TeeState;
use vstd::prelude::*;

verus! {

/// The machine starts well formed, with or without a log.
pub proof fn lemma_initial_is_well_formed<E>(logging: bool)
    ensures
        well_formed(initial::<E>(logging)),
{
}

/// The machine stays well formed, whatever is reported to it, and a step
/// does not change whether a log is kept.
pub proof fn lemma_step_keeps_well_formed<'a, E>(s: SupervisorView<E>, event: Event<'a, E>)
    requires
        well_formed(s),
    ensures
        well_formed(supervise_step(s, event).0),
        supervise_step(s, event).0.logging == s.logging,
{
}

/// The phases of a launch come in their order: a step leaves the machine in
/// the phase it was in, moves it to the next one, or fails it. A launch
/// that is over stays as it is.
pub proof fn lemma_phases_in_order<'a, E>(s: SupervisorView<E>, event: Event<'a, E>)
    requires
        well_formed(s),
    ensures
        ({
            let before = s.stage.spec_phase();
            let after = supervise_step(s, event).0.stage.spec_phase();
            ||| after == before
            ||| after.rank() == before.rank() + 1
            ||| after == Phase::Errored
        }),
        s.stage.spec_is_terminal() ==> supervise_step(s, event).0 == s,
{
}

/// Once the child is spawned and the supervisor has closed its write ends,
/// it holds no handle on the pipe's write end, and it never gets one again:
/// in every well-formed state from the line after the spawn to the end of
/// the launch, and in a launch that has failed, the set of held write ends
/// is empty.
pub proof fn lemma_no_write_end_after_spawn<E>(s: SupervisorView<E>)
    requires
        well_formed(s),
        s.stage == Stage::Announcing || s.stage == Stage::Errored || (Phase::Relaying.rank()
            <= s.stage.spec_phase().rank() <= Phase::Done.rank()),
    ensures
        s.write_ends.spec_is_empty(),
{
}

/// Whichever duplicates the spawn took over, the supervisor next asks for
/// every write end that it still holds to be closed, its own among them,
/// and holds none once that is reported done.
pub proof fn lemma_spawn_is_followed_by_closing<'a, E>(
    s: SupervisorView<E>,
    taken: Transferred,
)
    requires
        well_formed(s),
        s.stage == Stage::Spawning,
    ensures
        ({
            let (spawned, asked) = supervise_step::<E>(s, Event::Spawned(Ok(taken)));
            let (closed, next) = supervise_step::<E>(spawned, Event::Closed);
            &&& asked == Action::<E>::CloseWriteEnds(spawned.write_ends)
            &&& spawned.write_ends == WriteEnds {
                original: true,
                for_stdout: !taken.stdout,
                for_stderr: !taken.stderr,
            }
            &&& closed.write_ends.spec_is_empty()
            &&& next is WriteStarted || next is Read
        }),
{
}

/// Nothing is read from the pipe, and no chunk is handed on, while the
/// supervisor holds a write end: a step that asks for a read, a relay or a
/// wait for the child leaves the machine without any.
pub proof fn lemma_reads_only_without_write_ends<'a, E>(s: SupervisorView<E>, event: Event<'a, E>)
    requires
        well_formed(s),
    ensures
        ({
            let (next, asked) = supervise_step(s, event);
            (asked is Read || asked is Relay || asked is PassThrough || asked is WaitChild)
                ==> next.write_ends.spec_is_empty() && next.read_end
        }),
{
}

/// An open log is never left behind, and a log that was finalized stays so:
/// a launch that is over has no open log, and no step reopens a log or
/// forgets one.
pub proof fn lemma_log_is_closed_at_the_end<'a, E>(s: SupervisorView<E>, event: Event<'a, E>)
    requires
        well_formed(s),
    ensures
        ({
            let next = supervise_step(s, event).0;
            &&& next.stage.spec_is_terminal() ==> next.log != LogState::Open
            &&& s.log == LogState::Finalized ==> next.log == LogState::Finalized
            &&& s.log != LogState::Absent ==> next.log != LogState::Absent
        }),
{
}

/// Whether the action writes to the log, flushes it or finalizes it.
pub open spec fn touches_log<'a, E>(action: Action<'a, E>) -> bool {
    match action {
        Action::WriteBanner(Output::Log) => true,
        Action::WriteStarted => true,
        Action::Relay { .. } => true,
        Action::Shutdown(Output::Log) => true,
        Action::FinalizeLog => true,
        _ => false,
    }
}

/// The log is touched only between its opening and its finalizing: a step
/// that asks for a write to the log, for a flush of it or for it to be
/// finalized is taken in a state whose log is open, and leaves it open
/// until the report comes.
pub proof fn lemma_log_touched_only_while_open<'a, E>(s: SupervisorView<E>, event: Event<'a, E>)
    requires
        well_formed(s),
    ensures
        ({
            let (next, asked) = supervise_step(s, event);
            touches_log(asked) ==> s.log == LogState::Open && next.log == LogState::Open
        }),
{
}

/// A log that is there already is left alone: when the opening of the log
/// is reported to have met a file of that name, the launch ends at once
/// with the failure that says so, and nothing was written to a log or
/// finalized.
pub proof fn lemma_collision_ends_the_launch<E>(s: SupervisorView<E>)
    requires
        well_formed(s),
        s.stage == Stage::OpeningLog,
    ensures
        ({
            let (next, asked) = supervise_step::<E>(
                s,
                Event::LogOpened(Err(OpenFailure::AlreadyExists)),
            );
            &&& asked == Action::<E>::Finish(Err(LaunchError::LogExists))
            &&& next.stage == Stage::Errored
            &&& next.log == LogState::Absent
        }),
{
}

/// The state reached and the actions asked for, in order, when the machine
/// takes `events` one after another, starting in state `s`.
pub open spec fn supervise_run<'a, E>(s: SupervisorView<E>, events: Seq<Event<'a, E>>) -> (
    SupervisorView<E>,
    Seq<Action<'a, E>>,
)
    decreases events.len(),
{
    if events.len() == 0 {
        (s, Seq::empty())
    } else {
        let (before, actions) = supervise_run(s, events.drop_last());
        let (after, action) = supervise_step(before, events.last());
        (after, actions.push(action))
    }
}

/// Whether `event` is a report of what `action` asked for.
pub open spec fn answers<'a, E>(action: Action<'a, E>, event: Event<'a, E>) -> bool {
    match (action, event) {
        (Action::OpenLog, Event::LogOpened(_)) => true,
        (Action::CreatePipe, Event::PipeCreated(_)) => true,
        (Action::WriteBanner(_), Event::Wrote(_)) => true,
        (Action::DuplicateWriteEnd(_), Event::Duplicated(_)) => true,
        (Action::Spawn, Event::Spawned(_)) => true,
        (Action::CloseWriteEnds(_), Event::Closed) => true,
        (Action::WriteStarted, Event::Wrote(_)) => true,
        (Action::Read { .. }, Event::ReadDone(_)) => true,
        (Action::Relay { .. }, Event::Relayed { .. }) => true,
        (Action::PassThrough { .. }, Event::Wrote(_)) => true,
        (Action::Shutdown(_), Event::ShutdownDone(_)) => true,
        (Action::WaitChild, Event::Waited(_)) => true,
        (Action::CloseReadEnd, Event::Closed) => true,
        (Action::FinalizeLog, Event::Finalized(_)) => true,
        (Action::ReleaseChild, Event::Released) => true,
        _ => false,
    }
}

/// Whether `events` is what a caller reports who starts a fresh supervisor
/// and then answers each action with a report of that action.
pub open spec fn in_order<'a, E>(logging: bool, events: Seq<Event<'a, E>>) -> bool
    decreases events.len(),
{
    if events.len() == 0 {
        true
    } else if events.len() == 1 {
        events[0] is Start
    } else {
        &&& in_order(logging, events.drop_last())
        &&& answers(supervise_run(initial::<E>(logging), events.drop_last()).1.last(), events.last())
    }
}

/// The bytes that the reads from the pipe reported, in order.
pub open spec fn input_read<'a, E>(events: Seq<Event<'a, E>>) -> Seq<u8>
    decreases events.len(),
{
    if events.len() == 0 {
        Seq::empty()
    } else {
        let earlier = input_read(events.drop_last());
        match events.last() {
            Event::ReadDone(Ok(chunk)) => earlier + chunk@,
            _ => earlier,
        }
    }
}

/// Whether a read from the pipe reported the end of the stream.
pub open spec fn saw_end_of_stream<'a, E>(events: Seq<Event<'a, E>>) -> bool
    decreases events.len(),
{
    if events.len() == 0 {
        false
    } else {
        match events.last() {
            Event::ReadDone(Ok(chunk)) => chunk@.len() == 0 || saw_end_of_stream(events.drop_last()),
            _ => saw_end_of_stream(events.drop_last()),
        }
    }
}

/// The exit status that the last wait reported.
pub open spec fn exit_reported<'a, E>(events: Seq<Event<'a, E>>) -> Option<ChildExit>
    decreases events.len(),
{
    if events.len() == 0 {
        None
    } else {
        match events.last() {
            Event::Waited(Ok(status)) => Some(status),
            _ => exit_reported(events.drop_last()),
        }
    }
}

/// The bytes that the actions send to the live stream, in order, where the
/// banner is `banner`.
pub open spec fn live_output<'a, E>(actions: Seq<Action<'a, E>>, banner: Seq<u8>) -> Seq<u8>
    decreases actions.len(),
{
    if actions.len() == 0 {
        Seq::empty()
    } else {
        let earlier = live_output(actions.drop_last(), banner);
        match actions.last() {
            Action::WriteBanner(Output::Live) => earlier + banner,
            Action::Relay { chunk } => earlier + chunk@,
            Action::PassThrough { chunk } => earlier + chunk@,
            _ => earlier,
        }
    }
}

/// The bytes that the actions send to the log, in order, where the banner
/// is `banner`.
pub open spec fn log_output<'a, E>(actions: Seq<Action<'a, E>>, banner: Seq<u8>) -> Seq<u8>
    decreases actions.len(),
{
    if actions.len() == 0 {
        Seq::empty()
    } else {
        let earlier = log_output(actions.drop_last(), banner);
        match actions.last() {
            Action::WriteBanner(Output::Log) => earlier + banner,
            Action::WriteStarted => earlier + started_bytes(),
            Action::Relay { chunk } => earlier + chunk@,
            _ => earlier,
        }
    }
}

/// How many times the actions ask for the log to be finalized.
pub open spec fn finalizes_asked<'a, E>(actions: Seq<Action<'a, E>>) -> nat
    decreases actions.len(),
{
    if actions.len() == 0 {
        0
    } else {
        let earlier = finalizes_asked(actions.drop_last());
        match actions.last() {
            Action::FinalizeLog => earlier + 1,
            _ => earlier,
        }
    }
}

/// Whether the opening of the log was reported as done.
pub open spec fn log_opened<'a, E>(events: Seq<Event<'a, E>>) -> bool
    decreases events.len(),
{
    if events.len() == 0 {
        false
    } else {
        match events.last() {
            Event::LogOpened(Ok(_)) => true,
            _ => log_opened(events.drop_last()),
        }
    }
}

/// Whether the log was asked to be finalized as often as is due in state
/// `s`: once where the log is finalized or being finalized, never before,
/// and never where no log was opened.
#[verifier::opaque]
pub open spec fn finalized_as_due<'a, E>(
    s: SupervisorView<E>,
    events: Seq<Event<'a, E>>,
    actions: Seq<Action<'a, E>>,
) -> bool {
    &&& finalizes_asked(actions) == (if s.log == LogState::Finalized || s.stage == Stage::Finalizing
        || s.stage == Stage::Aborting {
        1nat
    } else {
        0nat
    })
    &&& log_opened(events) == (s.log != LogState::Absent)
}

/// How far a launch that has not failed has come.
pub open spec fn progress(stage: Stage) -> nat {
    match stage {
        Stage::Idle => 0,
        Stage::OpeningLog => 1,
        Stage::CreatingPipe => 2,
        Stage::BannerToLive => 3,
        Stage::BannerToLog => 4,
        Stage::DuplicatingForStdout => 5,
        Stage::DuplicatingForStderr => 6,
        Stage::Spawning => 7,
        Stage::ClosingWriteEnds => 8,
        Stage::Announcing => 9,
        Stage::Relaying => 10,
        Stage::Waiting => 11,
        Stage::ClosingReadEnd => 12,
        Stage::Finalizing => 13,
        Stage::Releasing => 14,
        Stage::Done => 15,
        Stage::Aborting => 16,
        Stage::Errored => 17,
    }
}

/// Whether the last of `actions` is the one that the machine, in state `s`,
/// waits on.
pub open spec fn in_step<'a, E>(s: SupervisorView<E>, actions: Seq<Action<'a, E>>) -> bool {
    if s.stage == Stage::Idle {
        actions.len() == 0
    } else {
        let last = actions.last();
        &&& actions.len() > 0
        &&& match s.stage {
            Stage::Idle => false,
            Stage::OpeningLog => last == Action::<E>::OpenLog,
            Stage::CreatingPipe => last == Action::<E>::CreatePipe,
            Stage::BannerToLive => last == Action::<E>::WriteBanner(Output::Live),
            Stage::BannerToLog => last == Action::<E>::WriteBanner(Output::Log),
            Stage::DuplicatingForStdout => last == Action::<E>::DuplicateWriteEnd(Slot::Stdout),
            Stage::DuplicatingForStderr => last == Action::<E>::DuplicateWriteEnd(Slot::Stderr),
            Stage::Spawning => last == Action::<E>::Spawn,
            Stage::ClosingWriteEnds => last == Action::<E>::CloseWriteEnds(s.write_ends),
            Stage::Announcing => last == Action::<E>::WriteStarted,
            Stage::Relaying => match s.tee {
                TeeState::Reading => last is Read,
                TeeState::Writing => if s.logging {
                    last is Relay
                } else {
                    last is PassThrough
                },
                TeeState::ClosingFirst => last == Action::<E>::Shutdown(Output::Live),
                TeeState::ClosingSecond => last == Action::<E>::Shutdown(Output::Log),
                _ => false,
            },
            Stage::Waiting => last == Action::<E>::WaitChild,
            Stage::ClosingReadEnd => last == Action::<E>::CloseReadEnd,
            Stage::Finalizing => last == Action::<E>::FinalizeLog,
            Stage::Releasing => last == Action::<E>::ReleaseChild,
            Stage::Aborting => last == Action::<E>::FinalizeLog,
            Stage::Done => last matches Action::Finish(Ok(_)),
            Stage::Errored => last matches Action::Finish(Err(_)),
        }
    }
}

/// Whether the actions end with the wait for the child, the closing of the
/// read end, the finalizing of the log where one is kept, and what follows
/// them up to the step that the machine waits on.
#[verifier::opaque]
pub open spec fn closes_in_order<'a, E>(
    s: SupervisorView<E>,
    events: Seq<Event<'a, E>>,
    actions: Seq<Action<'a, E>>,
) -> bool {
    let n = actions.len() as int;
    let kept: int = if s.logging {
        1
    } else {
        0
    };
    match s.stage {
        Stage::ClosingReadEnd => {
            &&& n >= 2
            &&& actions[n - 2] == Action::<E>::WaitChild
            &&& exit_reported(events) is Some
            &&& s.child == ChildState::Exited(exit_reported(events)->0)
        },
        Stage::Finalizing => {
            &&& n >= 3
            &&& actions[n - 3] == Action::<E>::WaitChild
            &&& actions[n - 2] == Action::<E>::CloseReadEnd
            &&& exit_reported(events) is Some
            &&& s.child == ChildState::Exited(exit_reported(events)->0)
        },
        Stage::Releasing => {
            &&& n >= 3 + kept
            &&& actions[n - 3 - kept] == Action::<E>::WaitChild
            &&& actions[n - 2 - kept] == Action::<E>::CloseReadEnd
            &&& s.logging ==> actions[n - 2] == Action::<E>::FinalizeLog
            &&& exit_reported(events) is Some
            &&& s.child == ChildState::Exited(exit_reported(events)->0)
        },
        Stage::Done => {
            &&& n >= 4 + kept
            &&& actions[n - 4 - kept] == Action::<E>::WaitChild
            &&& actions[n - 3 - kept] == Action::<E>::CloseReadEnd
            &&& s.logging ==> actions[n - 3] == Action::<E>::FinalizeLog
            &&& actions[n - 2] == Action::<E>::ReleaseChild
            &&& exit_reported(events) is Some
            &&& actions[n - 1] == Action::<E>::Finish(Ok(exit_reported(events)->0))
        },
        _ => true,
    }
}

/// Whether `event` may come next in a run that has so far asked for
/// `actions`: the start where nothing was asked, else a report of the last
/// action.
pub open spec fn comes_next<'a, E>(actions: Seq<Action<'a, E>>, event: Event<'a, E>) -> bool {
    if actions.len() == 0 {
        event is Start
    } else {
        answers(actions.last(), event)
    }
}

/// A step that takes the report of the last action leaves the machine
/// waiting on the action it asks for.
proof fn lemma_step_keeps_in_step<'a, E>(
    s: SupervisorView<E>,
    events: Seq<Event<'a, E>>,
    actions: Seq<Action<'a, E>>,
    event: Event<'a, E>,
)
    requires
        well_formed(s),
        in_step(s, actions),
        actions.len() == events.len(),
        comes_next(actions, event),
    ensures
        ({
            let (next, action) = supervise_step(s, event);
            &&& well_formed(next)
            &&& in_step(next, actions.push(action))
            &&& next.logging == s.logging
            &&& actions.push(action).len() == events.push(event).len()
        }),
{
}

/// A step keeps the order in which a launch is closed.
#[verifier::rlimit(40)]
proof fn lemma_step_keeps_closing_order<'a, E>(
    s: SupervisorView<E>,
    events: Seq<Event<'a, E>>,
    actions: Seq<Action<'a, E>>,
    event: Event<'a, E>,
)
    requires
        well_formed(s),
        in_step(s, actions),
        closes_in_order(s, events, actions),
        comes_next(actions, event),
    ensures
        closes_in_order(
            supervise_step(s, event).0,
            events.push(event),
            actions.push(supervise_step(s, event).1),
        ),
{
    reveal(closes_in_order);
    let action = supervise_step(s, event).1;
    let all = actions.push(action);
    assert(events.push(event).drop_last() =~= events);
    assert(forall|i: int| 0 <= i < actions.len() ==> all[i] == actions[i]);
    assert(all[all.len() - 1] == action);
}

/// A step keeps the count of the requests to finalize the log as is due.
proof fn lemma_step_keeps_finalize_count<'a, E>(
    s: SupervisorView<E>,
    events: Seq<Event<'a, E>>,
    actions: Seq<Action<'a, E>>,
    event: Event<'a, E>,
)
    requires
        well_formed(s),
        in_step(s, actions),
        comes_next(actions, event),
        finalized_as_due(s, events, actions),
    ensures
        finalized_as_due(
            supervise_step(s, event).0,
            events.push(event),
            actions.push(supervise_step(s, event).1),
        ),
{
    reveal(finalized_as_due);
    let action = supervise_step(s, event).1;
    assert(actions.push(action).drop_last() =~= actions);
    assert(events.push(event).drop_last() =~= events);
}

/// The bytes sent to the live stream and to the log while the launch has
/// not failed: the banner once it is asked for, the line after the spawn in
/// the log, and every byte read from the pipe.
#[verifier::opaque]
pub open spec fn outputs_on_track<'a, E>(
    s: SupervisorView<E>,
    events: Seq<Event<'a, E>>,
    actions: Seq<Action<'a, E>>,
    banner: Seq<u8>,
) -> bool {
    let nothing = Seq::<u8>::empty();
    &&& progress(s.stage) < progress(Stage::Relaying) ==> input_read(events) == nothing
    &&& progress(s.stage) <= progress(Stage::Done) ==> {
        &&& live_output(actions, banner) == (if progress(s.stage) >= progress(Stage::BannerToLive) {
            banner
        } else {
            nothing
        }) + input_read(events)
        &&& log_output(actions, banner) == (if s.logging && progress(s.stage) >= progress(Stage::BannerToLog) {
            banner
        } else {
            nothing
        }) + (if s.logging && progress(s.stage) >= progress(Stage::Announcing) {
            started_bytes()
        } else {
            nothing
        }) + (if s.logging {
            input_read(events)
        } else {
            nothing
        })
        &&& (progress(s.stage) >= progress(Stage::Waiting) || (s.stage == Stage::Relaying && (s.tee
            == TeeState::ClosingFirst || s.tee == TeeState::ClosingSecond))) ==> saw_end_of_stream(
            events,
        )
    }
}

/// A step keeps the bytes sent to the two streams on track.
#[verifier::rlimit(40)]
proof fn lemma_step_keeps_outputs<'a, E>(
    s: SupervisorView<E>,
    events: Seq<Event<'a, E>>,
    actions: Seq<Action<'a, E>>,
    event: Event<'a, E>,
    banner: Seq<u8>,
)
    requires
        well_formed(s),
        in_step(s, actions),
        comes_next(actions, event),
        outputs_on_track(s, events, actions, banner),
    ensures
        outputs_on_track(
            supervise_step(s, event).0,
            events.push(event),
            actions.push(supervise_step(s, event).1),
            banner,
        ),
{
    reveal(outputs_on_track);
    let (next, action) = supervise_step(s, event);
    let all = actions.push(action);
    let reported = events.push(event);
    let nothing = Seq::<u8>::empty();
    assert(all.drop_last() =~= actions);
    assert(reported.drop_last() =~= events);
    if progress(next.stage) < progress(Stage::Relaying) {
        assert(input_read(reported) =~= nothing);
    }
    if progress(next.stage) <= progress(Stage::Done) {
        assert(live_output(all, banner) =~= (if progress(next.stage) >= progress(Stage::BannerToLive) {
            banner
        } else {
            nothing
        }) + input_read(reported));
        assert(log_output(all, banner) =~= (if next.logging && progress(next.stage) >= progress(Stage::BannerToLog) {
            banner
        } else {
            nothing
        }) + (if next.logging && progress(next.stage) >= progress(Stage::Announcing) {
            started_bytes()
        } else {
            nothing
        }) + (if next.logging {
            input_read(reported)
        } else {
            nothing
        }));
    }
}

/// What holds after every event of a run in which each action is answered
/// in its turn.
pub open spec fn on_track<'a, E>(
    s: SupervisorView<E>,
    events: Seq<Event<'a, E>>,
    actions: Seq<Action<'a, E>>,
    banner: Seq<u8>,
) -> bool {
    &&& well_formed(s)
    &&& actions.len() == events.len()
    &&& in_step(s, actions)
    &&& closes_in_order(s, events, actions)
    &&& finalized_as_due(s, events, actions)
    &&& outputs_on_track(s, events, actions, banner)
}

/// A run in which each action is answered in its turn stays on track.
pub proof fn lemma_in_order_run_is_on_track<'a, E>(
    logging: bool,
    events: Seq<Event<'a, E>>,
    banner: Seq<u8>,
)
    requires
        in_order(logging, events),
    ensures
        on_track(
            supervise_run(initial::<E>(logging), events).0,
            events,
            supervise_run(initial::<E>(logging), events).1,
            banner,
        ),
        supervise_run(initial::<E>(logging), events).0.logging == logging,
    decreases events.len(),
{
    if events.len() == 0 {
        reveal(closes_in_order);
        reveal(finalized_as_due);
        reveal(outputs_on_track);
    } else {
        let earlier = events.drop_last();
        let event = events.last();
        lemma_in_order_run_is_on_track(logging, earlier, banner);
        let (before, actions) = supervise_run(initial::<E>(logging), earlier);
        assert(earlier.push(event) =~= events);
        if events.len() == 1 {
            assert(earlier.len() == 0);
        }
        assert(comes_next(actions, event));
        lemma_step_keeps_in_step(before, earlier, actions, event);
        lemma_step_keeps_closing_order(before, earlier, actions, event);
        lemma_step_keeps_finalize_count(before, earlier, actions, event);
        lemma_step_keeps_outputs(before, earlier, actions, event, banner);
    }
}

/// A launch that ends well has relayed everything, in order, and has closed
/// what it opened, in order. Of a run in which each action is answered in
/// its turn and which ends in `Done`:
/// the live stream was sent the banner and then every byte read from the
/// pipe, none left out and none twice; the log, where one is kept, was sent
/// the banner, the line after the spawn and then the same bytes, and
/// nothing where none is kept; the end of the stream was read; the log was
/// finalized once where one is kept and never otherwise; the run ends with
/// the wait for the child, the closing of the read end, the finalizing of
/// the log where one is kept, the release of the child and the exit status
/// that the wait reported.
pub proof fn lemma_finished_launch<'a, E>(logging: bool, events: Seq<Event<'a, E>>, banner: Seq<u8>)
    requires
        in_order(logging, events),
        supervise_run(initial::<E>(logging), events).0.stage == Stage::Done,
    ensures
        ({
            let (s, actions) = supervise_run(initial::<E>(logging), events);
            let n = actions.len() as int;
            let kept: int = if logging {
                1
            } else {
                0
            };
            &&& live_output(actions, banner) == banner + input_read(events)
            &&& logging ==> log_output(actions, banner) == banner + started_bytes() + input_read(events)
            &&& !logging ==> log_output(actions, banner) == Seq::<u8>::empty()
            &&& saw_end_of_stream(events)
            &&& finalizes_asked(actions) == kept
            &&& log_opened(events) == logging
            &&& s.log == (if logging {
                LogState::Finalized
            } else {
                LogState::Absent
            })
            &&& n >= 4 + kept
            &&& actions[n - 4 - kept] == Action::<E>::WaitChild
            &&& actions[n - 3 - kept] == Action::<E>::CloseReadEnd
            &&& logging ==> actions[n - 3] == Action::<E>::FinalizeLog
            &&& actions[n - 2] == Action::<E>::ReleaseChild
            &&& exit_reported(events) is Some
            &&& actions[n - 1] == Action::<E>::Finish(Ok(exit_reported(events)->0))
        }),
{
    reveal(closes_in_order);
    reveal(finalized_as_due);
    reveal(outputs_on_track);
    lemma_in_order_run_is_on_track(logging, events, banner);
    let (s, actions) = supervise_run(initial::<E>(logging), events);
    assert(log_output(actions, banner) =~= (if logging {
        banner + started_bytes() + input_read(events)
    } else {
        Seq::<u8>::empty()
    }));
}

/// The log is finalized exactly once, on the way to a good end and on the
/// way to a failure alike. Of a run in which each action is answered in its
/// turn and which is over: where the log was opened, the supervisor has
/// asked once for it to be finalized and the log is finalized; where it was
/// not, the supervisor has never asked.
#[verifier::rlimit(40)]
pub proof fn lemma_log_finalized_exactly_once<'a, E>(logging: bool, events: Seq<Event<'a, E>>)
    requires
        in_order(logging, events),
        supervise_run(initial::<E>(logging), events).0.stage.spec_is_terminal(),
    ensures
        ({
            let (s, actions) = supervise_run(initial::<E>(logging), events);
            &&& log_opened(events) ==> finalizes_asked(actions) == 1 && s.log == LogState::Finalized
            &&& !log_opened(events) ==> finalizes_asked(actions) == 0 && s.log == LogState::Absent
        }),
{
    reveal(finalized_as_due);
    lemma_in_order_run_is_on_track(logging, events, Seq::<u8>::empty());
}

/// Whether the action ends the launch with the child's exit status.
pub open spec fn ends_well<'a, E>(action: Action<'a, E>) -> bool {
    match action {
        Action::Finish(Ok(_)) => true,
        _ => false,
    }
}

/// Whether the action ends the launch with a failure.
pub open spec fn ends_in_failure<'a, E>(action: Action<'a, E>) -> bool {
    match action {
        Action::Finish(Err(_)) => true,
        _ => false,
    }
}

/// A launch that ends, ends with its outcome: of a run in which each action
/// is answered in its turn, the launch is over exactly when the last action
/// hands out the outcome, which is the child's exit status in `Done` and a
/// failure in `Errored`; and the supervisor then holds neither end of the
/// pipe nor the child.
#[verifier::rlimit(40)]
pub proof fn lemma_outcome_ends_the_launch<'a, E>(logging: bool, events: Seq<Event<'a, E>>)
    requires
        in_order(logging, events),
    ensures
        ({
            let (s, actions) = supervise_run(initial::<E>(logging), events);
            &&& s.stage == Stage::Done <==> actions.len() > 0 && ends_well(actions.last())
            &&& s.stage == Stage::Errored <==> actions.len() > 0 && ends_in_failure(actions.last())
            &&& s.stage.spec_is_terminal() ==> !s.read_end && s.write_ends.spec_is_empty() && s.child
                != ChildState::Running && !(s.child is Exited)
        }),
{
    lemma_in_order_run_is_on_track(logging, events, Seq::<u8>::empty());
    let (s, actions) = supervise_run(initial::<E>(logging), events);
    assert(well_formed(s) && in_step(s, actions));
    if actions.len() > 0 && (ends_well(actions.last()) || ends_in_failure(actions.last())) {
        assert(s.stage.spec_is_terminal());
    }
}

/// Whether the event reports that what was asked for was done.
pub open spec fn reports_success<'a, E>(event: Event<'a, E>) -> bool {
    match event {
        Event::Start => true,
        Event::LogOpened(Ok(_)) => true,
        Event::PipeCreated(Ok(_)) => true,
        Event::Wrote(Ok(_)) => true,
        Event::Duplicated(Ok(_)) => true,
        Event::Spawned(Ok(_)) => true,
        Event::Closed => true,
        Event::ReadDone(Ok(_)) => true,
        Event::Relayed { live: Ok(_), log: Ok(_) } => true,
        Event::ShutdownDone(Ok(_)) => true,
        Event::Waited(Ok(_)) => true,
        Event::Finalized(Ok(_)) => true,
        Event::Released => true,
        _ => false,
    }
}

/// A launch fails only where something failed: of a run in which each
/// action is answered in its turn and every report is a success, the
/// supervisor is neither failed nor on its way to a failure.
#[verifier::rlimit(40)]
pub proof fn lemma_fails_only_on_a_failed_report<'a, E>(logging: bool, events: Seq<Event<'a, E>>)
    requires
        in_order(logging, events),
        forall|i: int| 0 <= i < events.len() ==> reports_success(#[trigger] events[i]),
    ensures
        progress(supervise_run(initial::<E>(logging), events).0.stage) <= progress(Stage::Done),
    decreases events.len(),
{
    lemma_in_order_run_is_on_track(logging, events, Seq::<u8>::empty());
    if events.len() > 0 {
        let earlier = events.drop_last();
        assert forall|i: int| 0 <= i < earlier.len() implies reports_success(
            #[trigger] earlier[i],
        ) by {
            assert(earlier[i] == events[i]);
        }
        lemma_fails_only_on_a_failed_report(logging, earlier);
        lemma_in_order_run_is_on_track(logging, earlier, Seq::<u8>::empty());
        assert(reports_success(events[events.len() - 1]));
        if events.len() == 1 {
            assert(earlier.len() == 0);
        }
    }
}

} // verus!
