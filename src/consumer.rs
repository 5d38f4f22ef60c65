//! The decisions of the background consumer, one dequeued event at a time.
//!
//! The task that owns the receiving end of the queue waits for the next
//! event, asks [`step`] what to do with it, and does that. A statement is
//! checked against the filter as it stands when it is dequeued, not as it
//! stood when it was sent.

use crate::level::{current_filter, LevelFilter};
use crate::statement::{Message, Statement};
use vstd::prelude::*;

verus! {

/// Where the consumer stands. Items still queued after the last sender went
/// away are delivered as usual: the consumer keeps `Running` until the queue
/// reports that it is both closed and empty, and then it is `Stopped` for good.
#[derive(Clone, Copy, Debug, PartialEq, Eq, Structural)]
pub enum Phase {
    Running,
    Stopped,
}

/// What a wait on the queue gave.
#[derive(Debug)]
pub enum Event {
    /// The next item.
    Received(Message),
    /// Every sender is gone and nothing is left in the queue.
    Closed,
}

/// What the consumer does next.
#[derive(Debug)]
pub enum Action {
    /// Format the statement and hand it to the writer.
    Write(Statement),
    /// Drop the statement: the filter no longer admits it.
    Discard,
    /// Fire the barrier's sender: every item before it has been handled.
    Release(tokio::sync::oneshot::Sender<()>),
    /// Leave the loop.
    Stop,
}

/// The decision on one event, given the filter read as it was dequeued.
pub open spec fn step_spec(phase: Phase, event: Event, filter: LevelFilter) -> (Phase, Action) {
    match phase {
        Phase::Stopped => (Phase::Stopped, Action::Stop),
        Phase::Running => match event {
            Event::Closed => (Phase::Stopped, Action::Stop),
            Event::Received(Message::Barrier(tx)) => (Phase::Running, Action::Release(tx)),
            Event::Received(Message::Record(s)) => if filter.admits_spec(s.level) {
                (Phase::Running, Action::Write(s))
            } else {
                (Phase::Running, Action::Discard)
            },
        },
    }
}

/// Decides what to do with `event`, under the filter `filter`.
pub fn step(phase: Phase, event: Event, filter: LevelFilter) -> (r: (Phase, Action))
    ensures
        r == step_spec(phase, event, filter),
{
    match phase {
        Phase::Stopped => (Phase::Stopped, Action::Stop),
        Phase::Running => match event {
            Event::Closed => (Phase::Stopped, Action::Stop),
            Event::Received(Message::Barrier(tx)) => (Phase::Running, Action::Release(tx)),
            Event::Received(Message::Record(s)) => {
                if filter.admits(s.level) {
                    (Phase::Running, Action::Write(s))
                } else {
                    (Phase::Running, Action::Discard)
                }
            },
        },
    }
}

/// Decides what to do with `event` under the process-wide filter as it stands
/// now. Whatever that filter is, the decision is one that [`step`] makes.
pub fn advance(phase: Phase, event: Event) -> (r: (Phase, Action))
    ensures
        exists|f: LevelFilter| r == step_spec(phase, event, f),
        phase is Stopped ==> r == (Phase::Stopped, Action::Stop),
        event is Closed ==> r == (Phase::Stopped, Action::Stop),
        (phase is Running && event is Received && event->Received_0 is Barrier) ==> r.0 is Running
            && r.1 == Action::Release(event->Received_0->Barrier_0),
{
    let filter = current_filter();
    step(phase, event, filter)
}

/// The phase and the actions of the consumer over a run of events, where
/// `filters[i]` is the filter read when `events[i]` was dequeued.
pub open spec fn run(phase: Phase, events: Seq<Event>, filters: Seq<LevelFilter>) -> (Phase, Seq<Action>)
    decreases events.len(),
{
    if events.len() == 0 {
        (phase, Seq::empty())
    } else {
        let (next, act) = step_spec(phase, events[0], filters[0]);
        let (last, rest) = run(next, events.drop_first(), filters.drop_first());
        (last, seq![act] + rest)
    }
}

/// The statements that a run of actions hands to the writer, in order.
pub open spec fn written(actions: Seq<Action>) -> Seq<Statement>
    decreases actions.len(),
{
    if actions.len() == 0 {
        Seq::empty()
    } else {
        let rest = written(actions.drop_first());
        match actions[0] {
            Action::Write(s) => seq![s] + rest,
            _ => rest,
        }
    }
}

/// The statements among `events`, up to the first `Closed`, that the filter
/// read at their dequeuing admits, in queue order.
pub open spec fn delivered(events: Seq<Event>, filters: Seq<LevelFilter>) -> Seq<Statement>
    decreases events.len(),
{
    if events.len() == 0 {
        Seq::empty()
    } else {
        let rest = delivered(events.drop_first(), filters.drop_first());
        match events[0] {
            Event::Closed => Seq::empty(),
            Event::Received(Message::Barrier(_)) => rest,
            Event::Received(Message::Record(s)) => if filters[0].admits_spec(s.level) {
                seq![s] + rest
            } else {
                rest
            },
        }
    }
}

/// Whether `events[i]` is a statement that the filter `filters[i]` admits.
pub open spec fn admitted_record(events: Seq<Event>, filters: Seq<LevelFilter>, i: int) -> bool {
    &&& events[i] is Received
    &&& events[i]->Received_0 is Record
    &&& filters[i].admits_spec(events[i]->Received_0->Record_0.level)
}

/// The statements carried by `events`, which are all statements.
pub open spec fn records(events: Seq<Event>) -> Seq<Statement> {
    events.map_values(|e: Event| e->Received_0->Record_0)
}

/// The writer receives exactly the statements that are admitted when they are
/// dequeued, in queue order, each once, and nothing after the queue closed.
pub proof fn lemma_written_are_delivered(events: Seq<Event>, filters: Seq<LevelFilter>)
    requires
        filters.len() == events.len(),
    ensures
        written(run(Phase::Running, events, filters).1) == delivered(events, filters),
        run(Phase::Running, events, filters).1.len() == events.len(),
    decreases events.len(),
{
    if events.len() > 0 {
        let (next, act) = step_spec(Phase::Running, events[0], filters[0]);
        let rest = run(next, events.drop_first(), filters.drop_first()).1;
        let acts = run(Phase::Running, events, filters).1;
        assert(acts.drop_first() =~= rest);
        if next is Running {
            lemma_written_are_delivered(events.drop_first(), filters.drop_first());
        } else {
            lemma_stopped_writes_nothing(events.drop_first(), filters.drop_first());
        }
    }
}

/// Once stopped, the consumer writes nothing more and stays stopped.
pub proof fn lemma_stopped_writes_nothing(events: Seq<Event>, filters: Seq<LevelFilter>)
    requires
        filters.len() == events.len(),
    ensures
        run(Phase::Stopped, events, filters).0 == Phase::Stopped,
        run(Phase::Stopped, events, filters).1.len() == events.len(),
        forall|j: int| 0 <= j < events.len() ==> run(Phase::Stopped, events, filters).1[j] is Stop,
        written(run(Phase::Stopped, events, filters).1) == Seq::<Statement>::empty(),
    decreases events.len(),
{
    if events.len() > 0 {
        lemma_stopped_writes_nothing(events.drop_first(), filters.drop_first());
        let acts = run(Phase::Stopped, events, filters).1;
        let rest = run(Phase::Stopped, events.drop_first(), filters.drop_first()).1;
        assert(acts.drop_first() =~= rest);
        assert forall|j: int| 0 <= j < events.len() implies acts[j] is Stop by {
            if j > 0 {
                assert(acts[j] == rest[j - 1]);
            }
        }
    }
}

/// When every dequeued event is a statement that the filter admits, the writer
/// receives all of them, in the order of the queue.
pub proof fn lemma_admitted_all_written(events: Seq<Event>, filters: Seq<LevelFilter>)
    requires
        filters.len() == events.len(),
        forall|i: int| 0 <= i < events.len() ==> admitted_record(events, filters, i),
    ensures
        written(run(Phase::Running, events, filters).1) == records(events),
    decreases events.len(),
{
    lemma_written_are_delivered(events, filters);
    lemma_admitted_delivered(events, filters);
}

proof fn lemma_admitted_delivered(events: Seq<Event>, filters: Seq<LevelFilter>)
    requires
        filters.len() == events.len(),
        forall|i: int| 0 <= i < events.len() ==> admitted_record(events, filters, i),
    ensures
        delivered(events, filters) == records(events),
    decreases events.len(),
{
    if events.len() > 0 {
        assert(admitted_record(events, filters, 0));
        assert forall|i: int| 0 <= i < events.len() - 1 implies admitted_record(
            events.drop_first(),
            filters.drop_first(),
            i,
        ) by {
            assert(admitted_record(events, filters, i + 1));
        }
        lemma_admitted_delivered(events.drop_first(), filters.drop_first());
        assert(records(events) =~= seq![events[0]->Received_0->Record_0] + records(events.drop_first()));
    }
}

/// The action on `events[k]` is the one decided in the phase that the events
/// before it led to, and the actions before it are those of that shorter run.
pub proof fn lemma_run_prefix(phase: Phase, events: Seq<Event>, filters: Seq<LevelFilter>, k: int)
    requires
        filters.len() == events.len(),
        0 <= k < events.len(),
    ensures
        run(phase, events, filters).1[k] == step_spec(
            run(phase, events.take(k), filters.take(k)).0,
            events[k],
            filters[k],
        ).1,
        run(phase, events, filters).1.take(k) == run(phase, events.take(k), filters.take(k)).1,
    decreases k,
{
    lemma_run_len(phase, events, filters);
    lemma_run_len(phase, events.take(k), filters.take(k));
    let (next, act) = step_spec(phase, events[0], filters[0]);
    let acts = run(phase, events, filters).1;
    let rest = run(next, events.drop_first(), filters.drop_first()).1;
    assert(acts.drop_first() =~= rest);
    if k == 0 {
        assert(acts.take(0) =~= run(phase, events.take(0), filters.take(0)).1);
    } else {
        lemma_run_prefix(next, events.drop_first(), filters.drop_first(), k - 1);
        assert(events.take(k).drop_first() =~= events.drop_first().take(k - 1));
        assert(filters.take(k).drop_first() =~= filters.drop_first().take(k - 1));
        assert(events.take(k)[0] == events[0]);
        assert(filters.take(k)[0] == filters[0]);
        let short = run(phase, events.take(k), filters.take(k)).1;
        let short_rest = run(next, events.drop_first().take(k - 1), filters.drop_first().take(k - 1)).1;
        assert(short =~= seq![act] + short_rest);
        assert(acts[k] == rest[k - 1]);
        assert(acts.take(k) =~= seq![act] + rest.take(k - 1));
    }
}

/// A run gives one action per event.
pub proof fn lemma_run_len(phase: Phase, events: Seq<Event>, filters: Seq<LevelFilter>)
    requires
        filters.len() == events.len(),
    ensures
        run(phase, events, filters).1.len() == events.len(),
    decreases events.len(),
{
    if events.len() > 0 {
        let (next, act) = step_spec(phase, events[0], filters[0]);
        lemma_run_len(next, events.drop_first(), filters.drop_first());
    }
}

/// The consumer keeps running while no `Closed` has been dequeued.
pub proof fn lemma_running_until_closed(events: Seq<Event>, filters: Seq<LevelFilter>)
    requires
        filters.len() == events.len(),
        forall|j: int| 0 <= j < events.len() ==> !(events[j] is Closed),
    ensures
        run(Phase::Running, events, filters).0 == Phase::Running,
    decreases events.len(),
{
    if events.len() > 0 {
        assert(!(events[0] is Closed));
        assert forall|j: int| 0 <= j < events.len() - 1 implies !(events.drop_first()[j] is Closed) by {
            assert(events.drop_first()[j] == events[j + 1]);
        }
        lemma_running_until_closed(events.drop_first(), filters.drop_first());
    }
}

/// A statement that the filter read at its dequeuing no longer admits is
/// discarded, whatever the filter was when it was sent.
pub proof fn lemma_recheck_discards(events: Seq<Event>, filters: Seq<LevelFilter>, k: int)
    requires
        filters.len() == events.len(),
        0 <= k < events.len(),
        events[k] is Received,
        events[k]->Received_0 is Record,
        !filters[k].admits_spec(events[k]->Received_0->Record_0.level),
    ensures
        !(run(Phase::Running, events, filters).1[k] is Write),
{
    lemma_run_prefix(Phase::Running, events, filters, k);
}

/// A barrier is released at its own turn, and by then the writer has received
/// every statement before it in the queue that the filter admitted.
pub proof fn lemma_barrier_after_prior_writes(events: Seq<Event>, filters: Seq<LevelFilter>, k: int)
    requires
        filters.len() == events.len(),
        0 <= k < events.len(),
        events[k] is Received,
        events[k]->Received_0 is Barrier,
        forall|j: int| 0 <= j < k ==> !(events[j] is Closed),
    ensures
        run(Phase::Running, events, filters).1[k] == Action::Release(events[k]->Received_0->Barrier_0),
        written(run(Phase::Running, events, filters).1.take(k)) == delivered(events.take(k), filters.take(k)),
{
    lemma_run_prefix(Phase::Running, events, filters, k);
    assert forall|j: int| 0 <= j < events.take(k).len() implies !(events.take(k)[j] is Closed) by {
        assert(events.take(k)[j] == events[j]);
    }
    lemma_running_until_closed(events.take(k), filters.take(k));
    lemma_written_are_delivered(events.take(k), filters.take(k));
}

/// Once the queue reports that it is closed and empty, the consumer stops for
/// good: every later decision is `Stop`, and the writer has received nothing
/// but the admitted statements from before the close.
pub proof fn lemma_close_is_final(events: Seq<Event>, filters: Seq<LevelFilter>, k: int)
    requires
        filters.len() == events.len(),
        0 <= k < events.len(),
        events[k] is Closed,
    ensures
        run(Phase::Running, events, filters).0 == Phase::Stopped,
        forall|j: int| k <= j < events.len() ==> run(Phase::Running, events, filters).1[j] is Stop,
        written(run(Phase::Running, events, filters).1) == delivered(events.take(k), filters.take(k)),
{
    lemma_close_stops(Phase::Running, events, filters, k);
    lemma_written_are_delivered(events, filters);
    lemma_delivered_until_close(events, filters, k);
}

proof fn lemma_delivered_until_close(events: Seq<Event>, filters: Seq<LevelFilter>, k: int)
    requires
        filters.len() == events.len(),
        0 <= k < events.len(),
        events[k] is Closed,
    ensures
        delivered(events, filters) == delivered(events.take(k), filters.take(k)),
    decreases k,
{
    if k > 0 {
        lemma_delivered_until_close(events.drop_first(), filters.drop_first(), k - 1);
        assert(events.take(k).drop_first() =~= events.drop_first().take(k - 1));
        assert(filters.take(k).drop_first() =~= filters.drop_first().take(k - 1));
        assert(events.take(k)[0] == events[0]);
        assert(filters.take(k)[0] == filters[0]);
    } else {
        assert(events.take(0).len() == 0);
    }
}

proof fn lemma_close_stops(phase: Phase, events: Seq<Event>, filters: Seq<LevelFilter>, k: int)
    requires
        filters.len() == events.len(),
        0 <= k < events.len(),
        events[k] is Closed,
    ensures
        run(phase, events, filters).0 == Phase::Stopped,
        forall|j: int| k <= j < events.len() ==> run(phase, events, filters).1[j] is Stop,
    decreases k,
{
    let (next, act) = step_spec(phase, events[0], filters[0]);
    let acts = run(phase, events, filters).1;
    let rest = run(next, events.drop_first(), filters.drop_first()).1;
    assert(acts.drop_first() =~= rest);
    if k == 0 {
        lemma_stopped_writes_nothing(events.drop_first(), filters.drop_first());
    } else {
        lemma_close_stops(next, events.drop_first(), filters.drop_first(), k - 1);
    }
    lemma_run_len(next, events.drop_first(), filters.drop_first());
    assert forall|j: int| k <= j < events.len() implies acts[j] is Stop by {
        if j > 0 {
            assert(acts[j] == rest[j - 1]);
        }
    }
}

} // verus!
