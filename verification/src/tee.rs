//! The dual-output relay as a machine of states, events and actions.
//!
//! The machine decides; its caller performs each action on the source and the
//! two sinks and reports what came of it as the next event. No chunk is held
//! by the machine: a chunk enters with the event that reports a read and
//! leaves with the action that hands it to both sinks.

use vstd::prelude::*;

verus! {

/// Largest number of bytes asked of the source in one read.
pub const CHUNK_SIZE: usize = 1024;

/// One of the two sinks of a relay.
#[derive(Clone, Copy, Debug, PartialEq, Eq, Structural)]
pub enum Sink {
    /// The sink that is written and shut down first.
    First,
    /// The sink that is written and shut down second.
    Second,
}

/// Where a relay stands.
#[derive(Clone, Copy, Debug, PartialEq, Eq, Structural)]
pub enum TeeState {
    /// Nothing was asked of the source yet.
    Idle,
    /// A read was asked of the source.
    Reading,
    /// A chunk was handed to both sinks.
    Writing,
    /// The source is exhausted; the first sink was told to shut down.
    ClosingFirst,
    /// The first sink is shut down; the second was told to.
    ClosingSecond,
    /// The whole source was relayed and both sinks are shut down.
    Finished,
    /// The relay stopped on a failure.
    Failed,
}

/// Why a relay stopped. `E` is the caller's own error value, handed through
/// unchanged.
#[derive(Debug, PartialEq, Eq)]
pub enum TeeError<E> {
    /// The source failed to read.
    Read(E),
    /// A sink failed to take a chunk.
    Write(Sink, E),
    /// A sink failed to shut down.
    Shutdown(Sink, E),
    /// An event arrived that answers no action of the machine.
    Unexpected,
}

/// What the caller reports to the machine.
#[derive(Debug, PartialEq, Eq)]
pub enum TeeEvent<'a, E> {
    /// The relay begins.
    Started,
    /// The read that was asked for ended: with the bytes read, none of them
    /// at the end of the stream, or with a failure.
    ReadDone(Result<&'a [u8], E>),
    /// Both writes of a chunk ended.
    WritesDone { first: Result<(), E>, second: Result<(), E> },
    /// The shutdown that was asked for ended.
    ShutdownDone(Result<(), E>),
}

/// What the machine asks of the caller.
#[derive(Debug, PartialEq, Eq)]
pub enum TeeAction<'a, E> {
    /// Read at most `max` bytes from the source.
    Read { max: usize },
    /// Write the whole chunk to the first sink and to the second, both
    /// writes issued together, and wait for both.
    Write { chunk: &'a [u8] },
    /// Flush and shut down one sink.
    Shutdown(Sink),
    /// The relay is over, with this outcome.
    Finish(Result<(), TeeError<E>>),
}

/// The relay machine.
#[derive(Clone, Copy, Debug, PartialEq, Eq, Structural)]
pub struct Tee {
    state: TeeState,
}

/// What the machine does in `state` on `event`: the state it moves to and the
/// action it asks for.
pub open spec fn tee_step<'a, E>(state: TeeState, event: TeeEvent<'a, E>) -> (TeeState, TeeAction<'a, E>) {
    match (state, event) {
        (TeeState::Idle, TeeEvent::Started) => (TeeState::Reading, TeeAction::Read { max: CHUNK_SIZE }),
        (TeeState::Reading, TeeEvent::ReadDone(Ok(chunk))) => if chunk@.len() == 0 {
            (TeeState::ClosingFirst, TeeAction::Shutdown(Sink::First))
        } else {
            (TeeState::Writing, TeeAction::Write { chunk })
        },
        (TeeState::Reading, TeeEvent::ReadDone(Err(e))) => (
            TeeState::Failed,
            TeeAction::Finish(Err(TeeError::Read(e))),
        ),
        (TeeState::Writing, TeeEvent::WritesDone { first: Err(e), second: _ }) => (
            TeeState::Failed,
            TeeAction::Finish(Err(TeeError::Write(Sink::First, e))),
        ),
        (TeeState::Writing, TeeEvent::WritesDone { first: Ok(_), second: Err(e) }) => (
            TeeState::Failed,
            TeeAction::Finish(Err(TeeError::Write(Sink::Second, e))),
        ),
        (TeeState::Writing, TeeEvent::WritesDone { first: Ok(_), second: Ok(_) }) => (
            TeeState::Reading,
            TeeAction::Read { max: CHUNK_SIZE },
        ),
        (TeeState::ClosingFirst, TeeEvent::ShutdownDone(Ok(_))) => (
            TeeState::ClosingSecond,
            TeeAction::Shutdown(Sink::Second),
        ),
        (TeeState::ClosingFirst, TeeEvent::ShutdownDone(Err(e))) => (
            TeeState::Failed,
            TeeAction::Finish(Err(TeeError::Shutdown(Sink::First, e))),
        ),
        (TeeState::ClosingSecond, TeeEvent::ShutdownDone(Ok(_))) => (
            TeeState::Finished,
            TeeAction::Finish(Ok(())),
        ),
        (TeeState::ClosingSecond, TeeEvent::ShutdownDone(Err(e))) => (
            TeeState::Failed,
            TeeAction::Finish(Err(TeeError::Shutdown(Sink::Second, e))),
        ),
        _ => (TeeState::Failed, TeeAction::Finish(Err(TeeError::Unexpected))),
    }
}

impl Tee {
    /// Where the relay stands.
    pub closed spec fn spec_state(self) -> TeeState {
        self.state
    }

    /// A relay that has not begun.
    pub fn new() -> (tee: Tee)
        ensures
            tee.spec_state() == TeeState::Idle,
    {
        Tee { state: TeeState::Idle }
    }

    /// Where the relay stands.
    pub fn state(&self) -> (state: TeeState)
        ensures
            state == self.spec_state(),
    {
        self.state
    }

    /// Takes the caller's report and decides what is done next.
    pub fn step<'a, E>(&mut self, event: TeeEvent<'a, E>) -> (action: TeeAction<'a, E>)
        ensures
            (final(self).spec_state(), action) == tee_step(old(self).spec_state(), event),
    {
        let (next, action) = match (self.state, event) {
            (TeeState::Idle, TeeEvent::Started) => (TeeState::Reading, TeeAction::Read { max: CHUNK_SIZE }),
            (TeeState::Reading, TeeEvent::ReadDone(Ok(chunk))) => if chunk.len() == 0 {
                (TeeState::ClosingFirst, TeeAction::Shutdown(Sink::First))
            } else {
                (TeeState::Writing, TeeAction::Write { chunk })
            },
            (TeeState::Reading, TeeEvent::ReadDone(Err(e))) => (
                TeeState::Failed,
                TeeAction::Finish(Err(TeeError::Read(e))),
            ),
            (TeeState::Writing, TeeEvent::WritesDone { first: Err(e), second: _ }) => (
                TeeState::Failed,
                TeeAction::Finish(Err(TeeError::Write(Sink::First, e))),
            ),
            (TeeState::Writing, TeeEvent::WritesDone { first: Ok(_), second: Err(e) }) => (
                TeeState::Failed,
                TeeAction::Finish(Err(TeeError::Write(Sink::Second, e))),
            ),
            (TeeState::Writing, TeeEvent::WritesDone { first: Ok(_), second: Ok(_) }) => (
                TeeState::Reading,
                TeeAction::Read { max: CHUNK_SIZE },
            ),
            (TeeState::ClosingFirst, TeeEvent::ShutdownDone(Ok(_))) => (
                TeeState::ClosingSecond,
                TeeAction::Shutdown(Sink::Second),
            ),
            (TeeState::ClosingFirst, TeeEvent::ShutdownDone(Err(e))) => (
                TeeState::Failed,
                TeeAction::Finish(Err(TeeError::Shutdown(Sink::First, e))),
            ),
            (TeeState::ClosingSecond, TeeEvent::ShutdownDone(Ok(_))) => (
                TeeState::Finished,
                TeeAction::Finish(Ok(())),
            ),
            (TeeState::ClosingSecond, TeeEvent::ShutdownDone(Err(e))) => (
                TeeState::Failed,
                TeeAction::Finish(Err(TeeError::Shutdown(Sink::Second, e))),
            ),
            _ => (TeeState::Failed, TeeAction::Finish(Err(TeeError::Unexpected))),
        };
        self.state = next;
        action
    }
}

/// The state reached and the actions asked for, in order, when the machine
/// takes `events` one after another, starting in `state`.
pub open spec fn tee_run<'a, E>(state: TeeState, events: Seq<TeeEvent<'a, E>>) -> (
    TeeState,
    Seq<TeeAction<'a, E>>,
)
    decreases events.len(),
{
    if events.len() == 0 {
        (state, Seq::empty())
    } else {
        let (before, actions) = tee_run(state, events.drop_last());
        let (after, action) = tee_step(before, events.last());
        (after, actions.push(action))
    }
}

/// Whether `event` is a report of what `action` asked for.
pub open spec fn tee_answers<'a, E>(action: TeeAction<'a, E>, event: TeeEvent<'a, E>) -> bool {
    match (action, event) {
        (TeeAction::Read { .. }, TeeEvent::ReadDone(_)) => true,
        (TeeAction::Write { .. }, TeeEvent::WritesDone { .. }) => true,
        (TeeAction::Shutdown(_), TeeEvent::ShutdownDone(_)) => true,
        _ => false,
    }
}

/// Whether `events` is what a caller reports who starts a fresh relay and
/// then answers each action with a report of that action.
pub open spec fn tee_in_order<'a, E>(events: Seq<TeeEvent<'a, E>>) -> bool
    decreases events.len(),
{
    if events.len() == 0 {
        true
    } else if events.len() == 1 {
        events[0] is Started
    } else {
        &&& tee_in_order(events.drop_last())
        &&& tee_answers(tee_run(TeeState::Idle, events.drop_last()).1.last(), events.last())
    }
}

/// The bytes that the reads reported, in order.
pub open spec fn bytes_read<'a, E>(events: Seq<TeeEvent<'a, E>>) -> Seq<u8>
    decreases events.len(),
{
    if events.len() == 0 {
        Seq::empty()
    } else {
        let earlier = bytes_read(events.drop_last());
        match events.last() {
            TeeEvent::ReadDone(Ok(chunk)) => earlier + chunk@,
            _ => earlier,
        }
    }
}

/// The bytes that the actions hand to each of the two sinks, in order.
pub open spec fn bytes_written<'a, E>(actions: Seq<TeeAction<'a, E>>) -> Seq<u8>
    decreases actions.len(),
{
    if actions.len() == 0 {
        Seq::empty()
    } else {
        let earlier = bytes_written(actions.drop_last());
        match actions.last() {
            TeeAction::Write { chunk } => earlier + chunk@,
            _ => earlier,
        }
    }
}

/// How many reads the actions ask for.
pub open spec fn reads_asked<'a, E>(actions: Seq<TeeAction<'a, E>>) -> nat
    decreases actions.len(),
{
    if actions.len() == 0 {
        0
    } else {
        let earlier = reads_asked(actions.drop_last());
        match actions.last() {
            TeeAction::Read { .. } => earlier + 1,
            _ => earlier,
        }
    }
}

/// How many chunks the actions hand to the sinks.
pub open spec fn writes_asked<'a, E>(actions: Seq<TeeAction<'a, E>>) -> nat
    decreases actions.len(),
{
    if actions.len() == 0 {
        0
    } else {
        let earlier = writes_asked(actions.drop_last());
        match actions.last() {
            TeeAction::Write { .. } => earlier + 1,
            _ => earlier,
        }
    }
}

/// How many times both writes of a chunk were reported as done without a
/// failure.
pub open spec fn writes_completed<'a, E>(events: Seq<TeeEvent<'a, E>>) -> nat
    decreases events.len(),
{
    if events.len() == 0 {
        0
    } else {
        let earlier = writes_completed(events.drop_last());
        match events.last() {
            TeeEvent::WritesDone { first: Ok(_), second: Ok(_) } => earlier + 1,
            _ => earlier,
        }
    }
}

/// Whether the last of `actions` is the one that leaves the machine in
/// `state`.
pub open spec fn tee_awaits<'a, E>(state: TeeState, actions: Seq<TeeAction<'a, E>>) -> bool {
    match state {
        TeeState::Idle => actions.len() == 0,
        TeeState::Reading => actions.len() > 0 && actions.last() is Read,
        TeeState::Writing => actions.len() > 0 && actions.last() is Write,
        TeeState::ClosingFirst => actions.len() > 0 && actions.last() == TeeAction::<E>::Shutdown(
            Sink::First,
        ),
        TeeState::ClosingSecond => actions.len() > 1 && actions.last() == TeeAction::<E>::Shutdown(
            Sink::Second,
        ) && actions[actions.len() - 2] == TeeAction::<E>::Shutdown(Sink::First),
        TeeState::Finished => actions.len() > 2 && actions.last() == TeeAction::<E>::Finish(Ok(()))
            && actions[actions.len() - 2] == TeeAction::<E>::Shutdown(Sink::Second)
            && actions[actions.len() - 3] == TeeAction::<E>::Shutdown(Sink::First),
        TeeState::Failed => actions.len() > 0 && actions.last() matches TeeAction::Finish(Err(_)),
    }
}

/// Every chunk is relayed once: whatever the sizes of the chunks in which
/// the source hands out its bytes, and wherever the relay stands, the bytes
/// handed to each sink are the bytes read so far, in the same order, none
/// of them left out and none twice. The machine is in step with its
/// caller: the last action is the one its state waits on.
pub proof fn lemma_tee_relays_what_it_reads<'a, E>(events: Seq<TeeEvent<'a, E>>)
    requires
        tee_in_order(events),
    ensures
        bytes_written(tee_run(TeeState::Idle, events).1) == bytes_read(events),
        tee_run(TeeState::Idle, events).1.len() == events.len(),
        tee_awaits(tee_run(TeeState::Idle, events).0, tee_run(TeeState::Idle, events).1),
    decreases events.len(),
{
    if events.len() > 0 {
        let earlier = events.drop_last();
        lemma_tee_relays_what_it_reads(earlier);
        let (before, actions) = tee_run(TeeState::Idle, earlier);
        let action = tee_step(before, events.last()).1;
        assert(actions.push(action).drop_last() =~= actions);
        if events.len() == 1 {
            assert(earlier.len() == 0);
        }
    }
}

/// A relay that ends well has relayed the whole source and has shut down
/// the first sink and then the second: its last three actions are the two
/// shutdowns and the success, and the bytes handed to each sink are all the
/// bytes read.
pub proof fn lemma_tee_finishes_after_both_shutdowns<'a, E>(events: Seq<TeeEvent<'a, E>>)
    requires
        tee_in_order(events),
        tee_run(TeeState::Idle, events).0 == TeeState::Finished,
    ensures
        ({
            let actions = tee_run(TeeState::Idle, events).1;
            &&& actions.len() >= 3
            &&& actions[actions.len() - 3] == TeeAction::<E>::Shutdown(Sink::First)
            &&& actions[actions.len() - 2] == TeeAction::<E>::Shutdown(Sink::Second)
            &&& actions[actions.len() - 1] == TeeAction::<E>::Finish(Ok(()))
            &&& bytes_written(actions) == bytes_read(events)
        }),
{
    lemma_tee_relays_what_it_reads(events);
}

/// The source is never read ahead of the sinks: a read is asked for only
/// when the relay begins and when both writes of the chunk before were
/// reported done, so the reads asked for are at most one more than the
/// chunks that both sinks have taken, and exactly one more while a read or
/// a write is under way. This holds of every sequence of events.
pub proof fn lemma_tee_reads_one_chunk_ahead<'a, E>(events: Seq<TeeEvent<'a, E>>)
    ensures
        reads_asked(tee_run(TeeState::Idle, events).1) <= writes_completed(events) + 1,
        tee_run(TeeState::Idle, events).0 == TeeState::Idle ==> reads_asked(
            tee_run(TeeState::Idle, events).1,
        ) == 0,
        tee_run(TeeState::Idle, events).0 == TeeState::Reading || tee_run(
            TeeState::Idle,
            events,
        ).0 == TeeState::Writing ==> reads_asked(tee_run(TeeState::Idle, events).1)
            == writes_completed(events) + 1,
    decreases events.len(),
{
    if events.len() > 0 {
        let earlier = events.drop_last();
        lemma_tee_reads_one_chunk_ahead(earlier);
        let (before, actions) = tee_run(TeeState::Idle, earlier);
        let action = tee_step(before, events.last()).1;
        assert(actions.push(action).drop_last() =~= actions);
    }
}

/// No chunk is left with one sink only: of a run in which each action is
/// answered in its turn and which has not failed, every chunk handed to the
/// sinks was reported as written by both, but for the one whose writes are
/// under way.
pub proof fn lemma_tee_chunks_reach_both_sinks<'a, E>(events: Seq<TeeEvent<'a, E>>)
    requires
        tee_in_order(events),
        tee_run(TeeState::Idle, events).0 != TeeState::Failed,
    ensures
        writes_asked(tee_run(TeeState::Idle, events).1) == writes_completed(events) + (if tee_run(
            TeeState::Idle,
            events,
        ).0 == TeeState::Writing {
            1nat
        } else {
            0nat
        }),
    decreases events.len(),
{
    lemma_tee_relays_what_it_reads(events);
    if events.len() > 0 {
        let earlier = events.drop_last();
        lemma_tee_relays_what_it_reads(earlier);
        let (before, actions) = tee_run(TeeState::Idle, earlier);
        let action = tee_step(before, events.last()).1;
        assert(actions.push(action).drop_last() =~= actions);
        if events.len() == 1 {
            assert(earlier.len() == 0);
        }
        lemma_tee_chunks_reach_both_sinks(earlier);
    }
}

/// A machine that has stopped stays stopped: once the relay is finished or
/// has failed, every further event is refused and no read, write or
/// shutdown is asked for again.
pub proof fn lemma_tee_stops_for_good<'a, E>(state: TeeState, event: TeeEvent<'a, E>)
    requires
        state == TeeState::Finished || state == TeeState::Failed,
    ensures
        tee_step(state, event) == (TeeState::Failed, TeeAction::<E>::Finish(Err(TeeError::Unexpected))),
{
}

/// Whether the event reports that what was asked for was done.
pub open spec fn tee_reports_success<'a, E>(event: TeeEvent<'a, E>) -> bool {
    match event {
        TeeEvent::Started => true,
        TeeEvent::ReadDone(Ok(_)) => true,
        TeeEvent::WritesDone { first: Ok(_), second: Ok(_) } => true,
        TeeEvent::ShutdownDone(Ok(_)) => true,
        _ => false,
    }
}

/// A relay fails only where something failed: of a run in which each
/// action is answered in its turn and every report is a success, the relay
/// has not failed.
pub proof fn lemma_tee_fails_only_on_a_failed_report<'a, E>(events: Seq<TeeEvent<'a, E>>)
    requires
        tee_in_order(events),
        forall|i: int| 0 <= i < events.len() ==> tee_reports_success(#[trigger] events[i]),
    ensures
        tee_run(TeeState::Idle, events).0 != TeeState::Failed,
    decreases events.len(),
{
    lemma_tee_relays_what_it_reads(events);
    if events.len() > 0 {
        let earlier = events.drop_last();
        assert forall|i: int| 0 <= i < earlier.len() implies tee_reports_success(
            #[trigger] earlier[i],
        ) by {
            assert(earlier[i] == events[i]);
        }
        lemma_tee_fails_only_on_a_failed_report(earlier);
        lemma_tee_relays_what_it_reads(earlier);
        assert(tee_reports_success(events[events.len() - 1]));
        if events.len() == 1 {
            assert(earlier.len() == 0);
        }
    }
}

} // verus!
