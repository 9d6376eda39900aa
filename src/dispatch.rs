//! The event loop's decisions: which event is handled next, what becomes of
//! a failed write, and when the loop stops.
use vstd::prelude::*;

use crate::point::{point_for, point_of, MetricPoint, PropertyChange};
use crate::writer::{after_write, write_action, Attempt, RetryPolicy, WriteAction};

verus! {

/// An event from the device bus.
pub enum Event<F> {
    PropertyValueChanged(PropertyChange<F>),
    /// Any other event: a device or the device set changed.
    Other,
}

/// Why the loop stopped.
#[derive(Clone, Copy, Debug, PartialEq, Eq, Structural)]
pub enum Halt {
    /// The event source could not deliver events.
    FetchFailed,
    /// A point could not be written to the sink.
    SinkFailed,
}

/// What the loop is waiting for.
pub enum Phase<F> {
    /// For a batch of events, or a fetch error.
    Polling,
    /// For the devices to have been inspected.
    Inspecting,
    /// For the outcome of a write of `point`.
    Writing { point: MetricPoint<F>, attempt: Attempt },
    /// For nothing: the loop is over.
    Stopped(Halt),
}

/// What the loop reports back to the dispatcher.
pub enum Input<F> {
    /// The event source delivered these events, in order.
    Batch(Vec<Event<F>>),
    /// The event source failed.
    FetchFailed,
    /// The devices were inspected.
    Inspected,
    /// A write came back, successful or not.
    Written(bool),
    /// A fresh sink connection could not be opened.
    ConnectFailed,
}

/// What the loop is to do next.
pub enum Command<F> {
    /// Wait for the next batch of events.
    Poll,
    /// Check which known devices have all their required attributes, and report it.
    InspectDevices,
    /// Write the point to the sink.
    Write(MetricPoint<F>),
    /// Drop the sink connection, open a fresh one with the same parameters, and write the point on it.
    Reconnect(MetricPoint<F>),
    /// Stop the process for this reason.
    Stop(Halt),
    /// The input did not fit what the loop waits for; nothing changed.
    Ignored,
}

/// The state of the event loop: a batch of events and how far it has been handled.
pub struct Dispatcher<F> {
    pub policy: RetryPolicy,
    pub phase: Phase<F>,
    pub batch: Vec<Event<F>>,
    /// The index of the next event of `batch` to handle.
    pub next: usize,
}

/// The phase, the index of the next event and the command, once the event at `next` is handled.
pub open spec fn handle_next<F>(batch: Seq<Event<F>>, next: int) -> (Phase<F>, int, Command<F>) {
    if next >= batch.len() {
        (Phase::Polling, next, Command::Poll)
    } else {
        match batch[next] {
            Event::PropertyValueChanged(c) => (
                Phase::Writing { point: point_of(c), attempt: Attempt::First },
                next + 1,
                Command::Write(point_of(c)),
            ),
            Event::Other => (Phase::Inspecting, next + 1, Command::InspectDevices),
        }
    }
}

/// The phase, batch, index of the next event and command after `input`.
pub open spec fn transition<F>(
    policy: RetryPolicy,
    phase: Phase<F>,
    batch: Seq<Event<F>>,
    next: int,
    input: Input<F>,
) -> (Phase<F>, Seq<Event<F>>, int, Command<F>) {
    match (phase, input) {
        (Phase::Stopped(h), _) => (Phase::Stopped(h), batch, next, Command::Stop(h)),
        (Phase::Polling, Input::Batch(events)) => {
            let (p, n, c) = handle_next(events@, 0);
            (p, events@, n, c)
        },
        (Phase::Polling, Input::FetchFailed) => (
            Phase::Stopped(Halt::FetchFailed),
            batch,
            next,
            Command::Stop(Halt::FetchFailed),
        ),
        (Phase::Inspecting, Input::Inspected) => {
            let (p, n, c) = handle_next(batch, next);
            (p, batch, n, c)
        },
        (Phase::Writing { point, attempt }, Input::Written(ok)) => match write_action(
            policy,
            attempt,
            ok,
        ) {
            WriteAction::Delivered => {
                let (p, n, c) = handle_next(batch, next);
                (p, batch, n, c)
            },
            WriteAction::Reconnect => (
                Phase::Writing { point, attempt: Attempt::Retry },
                batch,
                next,
                Command::Reconnect(point),
            ),
            WriteAction::Fatal => (
                Phase::Stopped(Halt::SinkFailed),
                batch,
                next,
                Command::Stop(Halt::SinkFailed),
            ),
        },
        (Phase::Writing { .. }, Input::ConnectFailed) => (
            Phase::Stopped(Halt::SinkFailed),
            batch,
            next,
            Command::Stop(Halt::SinkFailed),
        ),
        (_, _) => (phase, batch, next, Command::Ignored),
    }
}

/// Once stopped, the loop stays stopped whatever it is told, and asks for no
/// more writes.
pub proof fn lemma_stopped_is_final<F>(
    policy: RetryPolicy,
    h: Halt,
    batch: Seq<Event<F>>,
    next: int,
    input: Input<F>,
)
    ensures
        transition(policy, Phase::Stopped(h), batch, next, input) == (
            Phase::<F>::Stopped(h),
            batch,
            next,
            Command::<F>::Stop(h),
        ),
{
}

/// With retries allowed, a point whose first write fails is handed out once
/// more with a reconnect; when that write succeeds the loop goes on with the
/// next event, so the point is delivered once.
pub proof fn lemma_retry_delivers_once<F>(
    policy: RetryPolicy,
    point: MetricPoint<F>,
    batch: Seq<Event<F>>,
    next: int,
)
    requires
        policy.retry,
    ensures
        ({
            let (p1, b1, n1, c1) = transition(
                policy,
                Phase::Writing { point, attempt: Attempt::First },
                batch,
                next,
                Input::Written(false),
            );
            &&& c1 == Command::Reconnect(point)
            &&& p1 == Phase::Writing { point, attempt: Attempt::Retry }
            &&& transition(policy, p1, b1, n1, Input::Written(true)) == {
                let (p, n, c) = handle_next(batch, next);
                (p, batch, n, c)
            }
        }),
{
}

/// Without retries, a failed write stops the loop for good.
pub proof fn lemma_failure_without_retry_stops<F>(
    policy: RetryPolicy,
    point: MetricPoint<F>,
    attempt: Attempt,
    batch: Seq<Event<F>>,
    next: int,
)
    requires
        !policy.retry,
    ensures
        transition(policy, Phase::Writing { point, attempt }, batch, next, Input::Written(false))
            == (Phase::<F>::Stopped(Halt::SinkFailed), batch, next, Command::<F>::Stop(Halt::SinkFailed)),
{
}

impl<F: Copy> Dispatcher<F> {
    /// A dispatcher waiting for its first batch.
    pub fn new(policy: RetryPolicy) -> (r: Dispatcher<F>)
        ensures
            r.policy == policy,
            r.phase is Polling,
            r.batch@.len() == 0,
    {
        Dispatcher { policy, phase: Phase::Polling, batch: Vec::new(), next: 0 }
    }

    /// Handles the event at `next`, or asks for a new batch when none is left.
    fn handle_next(&mut self) -> (r: Command<F>)
        ensures
            final(self).policy == old(self).policy,
            final(self).batch == old(self).batch,
            (final(self).phase, final(self).next as int, r) == handle_next(
                old(self).batch@,
                old(self).next as int,
            ),
    {
        if self.next >= self.batch.len() {
            self.phase = Phase::Polling;
            return Command::Poll;
        }
        let i = self.next;
        self.next = i + 1;
        match &self.batch[i] {
            Event::PropertyValueChanged(c) => {
                let point = point_for(c);
                let out = point.duplicate();
                self.phase = Phase::Writing { point, attempt: Attempt::First };
                Command::Write(out)
            },
            Event::Other => {
                self.phase = Phase::Inspecting;
                Command::InspectDevices
            },
        }
    }

    /// Takes what the loop reports and says what it is to do next.
    pub fn step(&mut self, input: Input<F>) -> (r: Command<F>)
        ensures
            final(self).policy == old(self).policy,
            (final(self).phase, final(self).batch@, final(self).next as int, r) == transition(
                old(self).policy,
                old(self).phase,
                old(self).batch@,
                old(self).next as int,
                input,
            ),
    {
        let policy = self.policy;
        match (&self.phase, input) {
            (Phase::Stopped(h), _) => {
                let h = *h;
                Command::Stop(h)
            },
            (Phase::Polling, Input::Batch(events)) => {
                self.batch = events;
                self.next = 0;
                self.handle_next()
            },
            (Phase::Polling, Input::FetchFailed) => {
                self.phase = Phase::Stopped(Halt::FetchFailed);
                Command::Stop(Halt::FetchFailed)
            },
            (Phase::Inspecting, Input::Inspected) => self.handle_next(),
            (Phase::Writing { point, attempt }, Input::Written(ok)) => {
                match after_write(policy, *attempt, ok) {
                    WriteAction::Delivered => self.handle_next(),
                    WriteAction::Reconnect => {
                        let out = point.duplicate();
                        let again = point.duplicate();
                        self.phase = Phase::Writing { point: again, attempt: Attempt::Retry };
                        Command::Reconnect(out)
                    },
                    WriteAction::Fatal => {
                        self.phase = Phase::Stopped(Halt::SinkFailed);
                        Command::Stop(Halt::SinkFailed)
                    },
                }
            },
            (Phase::Writing { .. }, Input::ConnectFailed) => {
                self.phase = Phase::Stopped(Halt::SinkFailed);
                Command::Stop(Halt::SinkFailed)
            },
            (_, _) => Command::Ignored,
        }
    }
}

} // verus!
