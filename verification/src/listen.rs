//! The notification loop, as a machine that decides and never waits.
//!
//! Listening alternates between waiting on the socket and draining the
//! notifications that have arrived. The waiting, the reading and the caller's
//! reducer are the driver's work; this machine says, after every outcome, what
//! is to be done next, and keeps the count and the collected outputs.

use crate::socket::PgSocketPollResult;
use std::ops::ControlFlow;
use vstd::prelude::*;

verus! {

/// What the loop is waiting for.
#[derive(Clone, Copy, Debug, PartialEq, Eq, Structural)]
pub enum ListenPhase {
    /// A wait for read-readiness is under way.
    Polling,
    /// Pending input is being consumed from the connection.
    Consuming,
    /// The next queued notification is being asked for.
    Draining,
    /// The reducer holds a notification.
    Reducing,
    /// The loop is over; the outputs are final.
    Finished,
    /// Input could not be consumed; the connection is taken to be broken.
    Aborted,
}

/// What the driver reports back.
#[derive(Debug)]
pub enum ListenEvent<T> {
    /// How the wait on the socket ended.
    Polled(Result<(), PgSocketPollResult>),
    /// Whether pending input could be consumed; the error is the
    /// connection's message.
    Consumed(Result<(), String>),
    /// Whether the queue gave a notification.
    Dequeued(bool),
    /// What the reducer made of the notification.
    Reduced(ControlFlow<(), Option<T>>),
}

/// What the driver is to do next.
#[derive(Clone, Copy, Debug, PartialEq, Eq)]
pub enum ListenAction {
    /// Wait on the socket, with this timeout in microseconds counted from
    /// now (none: without end), and report `Polled`.
    Poll { read: bool, write: bool, timeout_usec: Option<i64> },
    /// Consume pending input and report `Consumed`.
    ConsumeInput,
    /// Take the next queued notification, if any, and report `Dequeued`.
    NextNotification,
    /// Hand the notification just taken to the reducer, with this index, and
    /// report `Reduced`.
    Reduce { index: usize },
    /// Stop and return the outputs.
    Finish,
    /// Give up: input could not be consumed.
    Abort,
}

/// The state of a loop, as contracts see it.
pub ghost struct ListenModel<T> {
    pub phase: ListenPhase,
    /// How many notifications the reducer has let the loop continue past.
    pub index: nat,
    /// What the reducer has produced so far, in delivery order.
    pub outputs: Seq<T>,
    pub timeout: Option<i64>,
    /// The connection's message, once input could not be consumed.
    pub failure: Option<Seq<char>>,
}

impl<T> ListenModel<T> {
    /// A failure is on record exactly when the loop has aborted.
    pub open spec fn consistent(self) -> bool {
        self.failure is Some <==> self.phase == ListenPhase::Aborted
    }
}

/// A loop that has not waited yet.
pub open spec fn initial<T>(timeout: Option<i64>) -> ListenModel<T> {
    ListenModel {
        phase: ListenPhase::Polling,
        index: 0,
        outputs: Seq::empty(),
        timeout,
        failure: None,
    }
}

/// The event makes the index advance: the reducer let the loop continue.
pub open spec fn advances<T>(m: ListenModel<T>, e: ListenEvent<T>) -> bool {
    m.phase == ListenPhase::Reducing && e matches ListenEvent::Reduced(ControlFlow::Continue(_))
}

/// The state after an event. An event that the phase does not wait for
/// changes nothing.
pub open spec fn after<T>(m: ListenModel<T>, e: ListenEvent<T>) -> ListenModel<T> {
    match (m.phase, e) {
        (ListenPhase::Polling, ListenEvent::Polled(Ok(_))) => ListenModel {
            phase: ListenPhase::Consuming,
            ..m
        },
        (ListenPhase::Polling, ListenEvent::Polled(Err(_))) => ListenModel {
            phase: ListenPhase::Finished,
            ..m
        },
        (ListenPhase::Consuming, ListenEvent::Consumed(Ok(_))) => ListenModel {
            phase: ListenPhase::Draining,
            ..m
        },
        (ListenPhase::Consuming, ListenEvent::Consumed(Err(message))) => ListenModel {
            phase: ListenPhase::Aborted,
            failure: Some(message@),
            ..m
        },
        (ListenPhase::Draining, ListenEvent::Dequeued(true)) => ListenModel {
            phase: ListenPhase::Reducing,
            ..m
        },
        (ListenPhase::Draining, ListenEvent::Dequeued(false)) => ListenModel {
            phase: ListenPhase::Polling,
            ..m
        },
        (
            ListenPhase::Reducing,
            ListenEvent::Reduced(ControlFlow::Continue(Some(value))),
        ) => ListenModel {
            phase: ListenPhase::Consuming,
            index: m.index + 1,
            outputs: m.outputs.push(value),
            ..m
        },
        (ListenPhase::Reducing, ListenEvent::Reduced(ControlFlow::Continue(None))) => ListenModel {
            phase: ListenPhase::Consuming,
            index: m.index + 1,
            ..m
        },
        (ListenPhase::Reducing, ListenEvent::Reduced(ControlFlow::Break(_))) => ListenModel {
            phase: ListenPhase::Finished,
            ..m
        },
        _ => m,
    }
}

/// What a state asks of the driver.
pub open spec fn pending<T>(m: ListenModel<T>) -> ListenAction {
    match m.phase {
        ListenPhase::Polling => ListenAction::Poll {
            read: true,
            write: false,
            timeout_usec: m.timeout,
        },
        ListenPhase::Consuming => ListenAction::ConsumeInput,
        ListenPhase::Draining => ListenAction::NextNotification,
        ListenPhase::Reducing => ListenAction::Reduce { index: m.index as usize },
        ListenPhase::Finished => ListenAction::Finish,
        ListenPhase::Aborted => ListenAction::Abort,
    }
}

/// The state after a run of events, taken in order.
pub open spec fn after_all<T>(m: ListenModel<T>, events: Seq<ListenEvent<T>>) -> ListenModel<T>
    decreases events.len(),
{
    if events.len() == 0 {
        m
    } else {
        after(after_all(m, events.drop_last()), events.last())
    }
}

/// The events of one notification that the reducer turns into `value`: it is
/// taken from the queue, reduced, and input is consumed again.
pub open spec fn delivery<T>(value: T) -> Seq<ListenEvent<T>> {
    seq![
        ListenEvent::Dequeued(true),
        ListenEvent::Reduced(ControlFlow::Continue(Some(value))),
        ListenEvent::Consumed(Ok(())),
    ]
}

/// The events of the notifications that the reducer turns into `values`,
/// one after the other.
pub open spec fn deliveries<T>(values: Seq<T>) -> Seq<ListenEvent<T>>
    decreases values.len(),
{
    if values.len() == 0 {
        Seq::empty()
    } else {
        deliveries(values.drop_last()) + delivery(values.last())
    }
}

/// The events of one round: the socket turns ready, input is consumed, the
/// notifications that the reducer turns into `values` are delivered, and the
/// queue is found empty.
pub open spec fn round<T>(values: Seq<T>) -> Seq<ListenEvent<T>> {
    seq![ListenEvent::Polled(Ok(())), ListenEvent::Consumed(Ok(()))] + deliveries(values)
        + seq![ListenEvent::Dequeued(false)]
}

/// The events of several rounds, one for each of `batches`.
pub open spec fn rounds<T>(batches: Seq<Seq<T>>) -> Seq<ListenEvent<T>>
    decreases batches.len(),
{
    if batches.len() == 0 {
        Seq::empty()
    } else {
        rounds(batches.drop_last()) + round(batches.last())
    }
}

/// The notification loop of one connection.
#[derive(Debug)]
pub struct ListenLoop<T> {
    phase: ListenPhase,
    count: usize,
    recvs: Vec<T>,
    timeout_usec: Option<i64>,
    /// The connection's message; it counts only in the aborted phase.
    failure: String,
}

impl<T> View for ListenLoop<T> {
    type V = ListenModel<T>;

    closed spec fn view(&self) -> ListenModel<T> {
        ListenModel {
            phase: self.phase,
            index: self.count as nat,
            outputs: self.recvs@,
            timeout: self.timeout_usec,
            failure: if self.phase == ListenPhase::Aborted {
                Some(self.failure@)
            } else {
                None
            },
        }
    }
}

impl<T> ListenLoop<T> {
    /// A loop that has not waited yet. The timeout, in microseconds, is
    /// applied afresh to every wait.
    pub fn new(timeout_usec: Option<i64>) -> (machine: ListenLoop<T>)
        ensures
            machine@ == initial::<T>(timeout_usec),
    {
        ListenLoop {
            phase: ListenPhase::Polling,
            count: 0,
            recvs: Vec::new(),
            timeout_usec,
            failure: String::new(),
        }
    }

    /// What the driver is to do now.
    pub fn pending(&self) -> (action: ListenAction)
        ensures
            action == pending(self@),
    {
        match self.phase {
            ListenPhase::Polling => ListenAction::Poll {
                read: true,
                write: false,
                timeout_usec: self.timeout_usec,
            },
            ListenPhase::Consuming => ListenAction::ConsumeInput,
            ListenPhase::Draining => ListenAction::NextNotification,
            ListenPhase::Reducing => ListenAction::Reduce { index: self.count },
            ListenPhase::Finished => ListenAction::Finish,
            ListenPhase::Aborted => ListenAction::Abort,
        }
    }

    /// Takes in what the driver reports and says what is to be done next.
    pub fn step(&mut self, event: ListenEvent<T>) -> (action: ListenAction)
        requires
            advances(old(self)@, event) ==> old(self)@.index < usize::MAX,
        ensures
            final(self)@ == after(old(self)@, event),
            action == pending(final(self)@),
    {
        match (self.phase, event) {
            (ListenPhase::Polling, ListenEvent::Polled(Ok(_))) => {
                self.phase = ListenPhase::Consuming;
            },
            (ListenPhase::Polling, ListenEvent::Polled(Err(_))) => {
                self.phase = ListenPhase::Finished;
            },
            (ListenPhase::Consuming, ListenEvent::Consumed(Ok(_))) => {
                self.phase = ListenPhase::Draining;
            },
            (ListenPhase::Consuming, ListenEvent::Consumed(Err(message))) => {
                self.phase = ListenPhase::Aborted;
                self.failure = message;
            },
            (ListenPhase::Draining, ListenEvent::Dequeued(true)) => {
                self.phase = ListenPhase::Reducing;
            },
            (ListenPhase::Draining, ListenEvent::Dequeued(false)) => {
                self.phase = ListenPhase::Polling;
            },
            (ListenPhase::Reducing, ListenEvent::Reduced(ControlFlow::Continue(Some(value)))) => {
                self.phase = ListenPhase::Consuming;
                self.count = self.count + 1;
                self.recvs.push(value);
            },
            (ListenPhase::Reducing, ListenEvent::Reduced(ControlFlow::Continue(None))) => {
                self.phase = ListenPhase::Consuming;
                self.count = self.count + 1;
            },
            (ListenPhase::Reducing, ListenEvent::Reduced(ControlFlow::Break(_))) => {
                self.phase = ListenPhase::Finished;
            },
            _ => {},
        }
        self.pending()
    }

    /// The phase the loop is in.
    pub fn phase(&self) -> (phase: ListenPhase)
        ensures
            phase == self@.phase,
            self@.consistent(),
    {
        self.phase
    }

    /// The index that the reducer gets with the next notification.
    pub fn index(&self) -> (index: usize)
        ensures
            index == self@.index,
    {
        self.count
    }

    /// The outputs collected so far, in delivery order.
    pub fn outputs(&self) -> (outputs: &Vec<T>)
        ensures
            outputs@ == self@.outputs,
    {
        &self.recvs
    }

    /// The connection's message, once input could not be consumed: present
    /// exactly when the loop has aborted.
    pub fn failure(&self) -> (message: Option<&String>)
        ensures
            match message {
                Some(text) => self@.failure == Some(text@),
                None => self@.failure is None,
            },
            message is Some <==> self@.phase == ListenPhase::Aborted,
    {
        if self.phase == ListenPhase::Aborted {
            Some(&self.failure)
        } else {
            None
        }
    }

    /// Ends the loop's life and hands over the outputs, in delivery order.
    pub fn into_outputs(self) -> (outputs: Vec<T>)
        ensures
            outputs@ == self@.outputs,
    {
        self.recvs
    }
}

/// One event adds at most one output, at the end: what was collected stays,
/// in its order.
pub proof fn lemma_outputs_only_grow<T>(m: ListenModel<T>, e: ListenEvent<T>)
    ensures
        after(m, e).outputs == m.outputs || (e matches ListenEvent::Reduced(
            ControlFlow::Continue(Some(value)),
        ) && after(m, e).outputs == m.outputs.push(value)),
        m.outputs.is_prefix_of(after(m, e).outputs),
{
}

/// The index never goes back, and it advances by one exactly when the
/// reducer lets the loop continue past a notification.
pub proof fn lemma_index_counts<T>(m: ListenModel<T>, e: ListenEvent<T>)
    ensures
        after(m, e).index == if advances(m, e) {
            m.index + 1
        } else {
            m.index
        },
{
}

/// A failure is on record exactly when the loop has aborted: so it is at the
/// start, and so it stays after every event.
pub proof fn lemma_failure_marks_the_abort<T>(
    timeout: Option<i64>,
    m: ListenModel<T>,
    e: ListenEvent<T>,
)
    ensures
        initial::<T>(timeout).consistent(),
        m.consistent() ==> after(m, e).consistent(),
{
}

/// Once the loop has finished or aborted, no event changes it.
pub proof fn lemma_end_is_final<T>(m: ListenModel<T>, e: ListenEvent<T>)
    requires
        m.phase == ListenPhase::Finished || m.phase == ListenPhase::Aborted,
    ensures
        after(m, e) == m,
{
}

/// A wait that ends without readiness, by timeout or by error, and a `Break`
/// from the reducer each end the loop at once, with the outputs as they are.
pub proof fn lemma_endings<T>(m: ListenModel<T>, e: ListenEvent<T>)
    requires
        (m.phase == ListenPhase::Polling && e matches ListenEvent::Polled(Err(_))) || (m.phase
            == ListenPhase::Reducing && e matches ListenEvent::Reduced(ControlFlow::Break(_))),
    ensures
        after(m, e).phase == ListenPhase::Finished,
        after(m, e).outputs == m.outputs,
        pending(after(m, e)) == ListenAction::Finish,
{
}

/// The timeout is the same for every wait of a loop: no run of events
/// changes it, so each wait is asked for with the full timeout.
pub proof fn lemma_timeout_is_applied_afresh<T>(m: ListenModel<T>, events: Seq<ListenEvent<T>>)
    ensures
        after_all(m, events).timeout == m.timeout,
        after_all(m, events).phase == ListenPhase::Polling ==> pending(after_all(m, events))
            == (ListenAction::Poll { read: true, write: false, timeout_usec: m.timeout }),
    decreases events.len(),
{
    if events.len() > 0 {
        lemma_timeout_is_applied_afresh(m, events.drop_last());
    }
}

/// Over any run of events the outputs only grow at the end and the index
/// never goes back.
pub proof fn lemma_run_keeps_what_was_collected<T>(m: ListenModel<T>, events: Seq<ListenEvent<T>>)
    ensures
        m.outputs.is_prefix_of(after_all(m, events).outputs),
        m.index <= after_all(m, events).index,
    decreases events.len(),
{
    if events.len() > 0 {
        lemma_run_keeps_what_was_collected(m, events.drop_last());
        lemma_outputs_only_grow(after_all(m, events.drop_last()), events.last());
    }
}

/// A run of events can be cut anywhere: the state after the whole is the
/// state after the second part, started from the state after the first.
pub proof fn lemma_runs_compose<T>(
    m: ListenModel<T>,
    first: Seq<ListenEvent<T>>,
    second: Seq<ListenEvent<T>>,
)
    ensures
        after_all(m, first + second) == after_all(after_all(m, first), second),
    decreases second.len(),
{
    if second.len() == 0 {
        assert(first + second =~= first);
    } else {
        assert((first + second).drop_last() =~= first + second.drop_last());
        assert((first + second).last() == second.last());
        lemma_runs_compose(m, first, second.drop_last());
    }
}

/// One more event at the end of a run is one more step.
pub proof fn lemma_run_and_one_more<T>(
    m: ListenModel<T>,
    events: Seq<ListenEvent<T>>,
    e: ListenEvent<T>,
)
    ensures
        after_all(m, events.push(e)) == after(after_all(m, events), e),
{
    assert(events.push(e).drop_last() =~= events);
}

proof fn lemma_delivery<T>(m: ListenModel<T>, value: T)
    requires
        m.phase == ListenPhase::Draining,
    ensures
        after_all(m, delivery(value)) == (ListenModel {
            index: m.index + 1,
            outputs: m.outputs.push(value),
            ..m
        }),
{
    let d = delivery(value);
    let none = Seq::<ListenEvent<T>>::empty();
    assert(d =~= none.push(d[0]).push(d[1]).push(d[2]));
    lemma_run_and_one_more(m, none, d[0]);
    lemma_run_and_one_more(m, none.push(d[0]), d[1]);
    lemma_run_and_one_more(m, none.push(d[0]).push(d[1]), d[2]);
}

proof fn lemma_deliveries<T>(m: ListenModel<T>, values: Seq<T>)
    requires
        m.phase == ListenPhase::Draining,
    ensures
        after_all(m, deliveries(values)) == (ListenModel {
            index: m.index + values.len(),
            outputs: m.outputs + values,
            ..m
        }),
    decreases values.len(),
{
    if values.len() == 0 {
        assert(m.outputs + values =~= m.outputs);
    } else {
        let before = values.drop_last();
        lemma_deliveries(m, before);
        lemma_runs_compose(m, deliveries(before), delivery(values.last()));
        lemma_delivery(after_all(m, deliveries(before)), values.last());
        assert((m.outputs + before).push(values.last()) =~= m.outputs + values);
    }
}

/// A round leaves the loop waiting again, with the values of the round at
/// the end of the outputs, in delivery order, and the index further by their
/// number.
pub proof fn lemma_round_collects_in_order<T>(m: ListenModel<T>, values: Seq<T>)
    requires
        m.phase == ListenPhase::Polling,
    ensures
        after_all(m, round(values)) == (ListenModel {
            index: m.index + values.len(),
            outputs: m.outputs + values,
            ..m
        }),
{
    let none = Seq::<ListenEvent<T>>::empty();
    let ready = ListenEvent::<T>::Polled(Ok(()));
    let consumed = ListenEvent::<T>::Consumed(Ok(()));
    let head = seq![ready, consumed];
    assert(head =~= none.push(ready).push(consumed));
    lemma_run_and_one_more(m, none, ready);
    lemma_run_and_one_more(m, none.push(ready), consumed);
    let draining = after_all(m, head);
    assert(draining == ListenModel { phase: ListenPhase::Draining, ..m });
    lemma_runs_compose(m, head, deliveries(values));
    lemma_deliveries(draining, values);
    assert(round(values) =~= (head + deliveries(values)).push(ListenEvent::Dequeued(false)));
    lemma_run_and_one_more(m, head + deliveries(values), ListenEvent::Dequeued(false));
}

/// Rounds add up: after any number of them the outputs are the values of all
/// rounds, in delivery order, and the index is their number. The index runs
/// on from one wait to the next.
pub proof fn lemma_rounds_collect_in_order<T>(m: ListenModel<T>, batches: Seq<Seq<T>>)
    requires
        m.phase == ListenPhase::Polling,
    ensures
        after_all(m, rounds(batches)) == (ListenModel {
            index: m.index + batches.flatten().len(),
            outputs: m.outputs + batches.flatten(),
            ..m
        }),
    decreases batches.len(),
{
    batches.lemma_flatten_and_flatten_alt_are_equivalent();
    if batches.len() == 0 {
        assert(m.outputs + batches.flatten() =~= m.outputs);
    } else {
        let before = batches.drop_last();
        before.lemma_flatten_and_flatten_alt_are_equivalent();
        lemma_rounds_collect_in_order(m, before);
        lemma_runs_compose(m, rounds(before), round(batches.last()));
        lemma_round_collects_in_order(after_all(m, rounds(before)), batches.last());
        assert(batches.flatten() =~= before.flatten() + batches.last());
        assert((m.outputs + before.flatten()) + batches.last() =~= m.outputs + batches.flatten());
    }
}

/// A loop that goes through any number of rounds and then meets a wait that
/// ends without readiness, by timeout or by error, finishes with exactly the
/// values of its rounds as outputs, in delivery order.
pub proof fn lemma_listening_returns_what_was_delivered<T>(
    timeout: Option<i64>,
    batches: Seq<Seq<T>>,
    ending: PgSocketPollResult,
)
    ensures
        ({
            let end = after(
                after_all(initial::<T>(timeout), rounds(batches)),
                ListenEvent::Polled(Err(ending)),
            );
            &&& end.phase == ListenPhase::Finished
            &&& end.outputs == batches.flatten()
            &&& end.index == batches.flatten().len()
            &&& pending(end) == ListenAction::Finish
        }),
{
    lemma_rounds_collect_in_order(initial::<T>(timeout), batches);
    assert(Seq::<T>::empty() + batches.flatten() =~= batches.flatten());
}

} // verus!
