//! Bridges between synchronization objects (a notification or a semaphore) and a
//! message actor: each time the object lets the bridge through, a message is sent to
//! the actor. The waiting runs in the bridge's task; this module decides what follows.
use vstd::prelude::*;

use crate::common::{ActorError, Res, SimpleActorError};
use crate::machine::{lemma_run_append, lemma_run_fixed_point, lemma_run_single, run_events};

verus! {

/// The result of waiting for a semaphore permit: a closed semaphore is a receive error.
pub fn semaphore_wait_outcome<P, X, U>(acquired: Result<P, X>) -> (r: Res<(), U>)
    ensures
        acquired is Ok ==> r == Ok::<(), ActorError<U>>(()),
        acquired is Err ==> r == Err::<(), ActorError<U>>(ActorError::Simple(SimpleActorError::Receive)),
{
    match acquired {
        Ok(_) => Ok(()),
        Err(_) => Err(ActorError::Simple(SimpleActorError::Receive)),
    }
}

/// The kind of synchronization object a bridge listens to.
#[derive(Debug, Clone, Copy, PartialEq, Eq, Structural)]
pub enum SynchronizationKind {
    /// A notification: waiting for it never fails
    Notify,
    /// A semaphore: each permit lets one message through; closing it ends the bridge
    Semaphore,
}

impl SynchronizationKind {
    /// Whether stopping the bridge closes the synchronization object: a semaphore is
    /// closed, so that its waiters wake up; a notification has nothing to close.
    pub fn closes_on_stop(&self) -> (r: bool)
        ensures
            r == (*self == SynchronizationKind::Semaphore),
    {
        match self {
            SynchronizationKind::Notify => false,
            SynchronizationKind::Semaphore => true,
        }
    }
}

/// What happened to a bridge.
pub enum BridgeEvent<U> {
    /// The synchronization object let the bridge through, or failed
    Synchronized(Res<(), U>),
    /// The bridge was asked to stop
    StopNotified,
    /// The message was sent to the actor, or could not be
    Delivered(Res<(), U>),
}

/// Phase of a bridge.
#[derive(Debug, Clone, Copy, PartialEq, Eq, Structural)]
pub enum BridgePhase {
    /// Waiting for the synchronization object, or for the stop request
    Waiting,
    /// Sending the message to the actor
    Delivering,
    /// Sending the message to the actor, after which the bridge ends: it was asked to stop
    /// meanwhile
    Stopping,
    /// The bridge has ended
    Finished,
}

impl BridgePhase {
    /// The phase after `event`. An event that does not fit the phase leaves it unchanged.
    /// A stop request ends a waiting bridge at once, and a delivering one once its
    /// delivery is over.
    pub open spec fn step<U>(self, event: BridgeEvent<U>) -> BridgePhase {
        match self {
            BridgePhase::Waiting => match event {
                BridgeEvent::Synchronized(Ok(())) => BridgePhase::Delivering,
                BridgeEvent::Synchronized(Err(_)) => BridgePhase::Finished,
                BridgeEvent::StopNotified => BridgePhase::Finished,
                _ => self,
            },
            BridgePhase::Delivering => match event {
                BridgeEvent::Delivered(Ok(())) => BridgePhase::Waiting,
                BridgeEvent::Delivered(Err(_)) => BridgePhase::Finished,
                BridgeEvent::StopNotified => BridgePhase::Stopping,
                _ => self,
            },
            BridgePhase::Stopping => match event {
                BridgeEvent::Delivered(_) => BridgePhase::Finished,
                _ => self,
            },
            BridgePhase::Finished => self,
        }
    }

    /// The step of a bridge, as a function.
    pub open spec fn step_fn<U>() -> spec_fn(BridgePhase, BridgeEvent<U>) -> BridgePhase {
        |p: BridgePhase, e: BridgeEvent<U>| p.step(e)
    }

    /// The phase after a sequence of events.
    pub open spec fn run<U>(self, events: Seq<BridgeEvent<U>>) -> BridgePhase {
        run_events(self, Self::step_fn(), events)
    }
}

/// Decision state of a bridge's task.
pub struct BridgeState {
    phase: BridgePhase,
}

impl BridgeState {
    /// The bridge's phase.
    pub closed spec fn phase(&self) -> BridgePhase {
        self.phase
    }

    /// A bridge that waits for its first synchronization.
    pub fn new() -> (s: Self)
        ensures
            s.phase() == BridgePhase::Waiting,
    {
        BridgeState { phase: BridgePhase::Waiting }
    }

    /// The synchronization object answered. Returns whether a message is to be sent.
    pub fn on_synchronized<U>(&mut self, waited: Res<(), U>) -> (deliver: bool)
        requires
            old(self).phase() == BridgePhase::Waiting,
        ensures
            final(self).phase() == old(self).phase().step(BridgeEvent::Synchronized(waited)),
            deliver == waited is Ok,
            deliver == (final(self).phase() == BridgePhase::Delivering),
    {
        match waited {
            Ok(()) => {
                self.phase = BridgePhase::Delivering;
                true
            },
            Err(_) => {
                self.phase = BridgePhase::Finished;
                false
            },
        }
    }

    /// The bridge was asked to stop, while it waited or while it delivered a message.
    /// A waiting bridge ends at once; a delivering one ends once its delivery is over.
    pub fn on_stop(&mut self)
        requires
            old(self).phase() == BridgePhase::Waiting || old(self).phase() == BridgePhase::Delivering,
        ensures
            final(self).phase() == old(self).phase().step(BridgeEvent::<()>::StopNotified),
            old(self).phase() == BridgePhase::Waiting ==> final(self).phase() == BridgePhase::Finished,
            old(self).phase() == BridgePhase::Delivering ==> final(self).phase() == BridgePhase::Stopping,
    {
        match self.phase {
            BridgePhase::Delivering => {
                self.phase = BridgePhase::Stopping;
            },
            _ => {
                self.phase = BridgePhase::Finished;
            },
        }
    }

    /// The message was sent to the actor, or not. Returns whether the bridge goes on
    /// waiting: it does when the message was delivered and no stop was requested meanwhile.
    pub fn on_delivered<U>(&mut self, sent: Res<(), U>) -> (go_on: bool)
        requires
            old(self).phase() == BridgePhase::Delivering || old(self).phase() == BridgePhase::Stopping,
        ensures
            final(self).phase() == old(self).phase().step(BridgeEvent::Delivered(sent)),
            go_on == (sent is Ok && old(self).phase() == BridgePhase::Delivering),
            go_on == (final(self).phase() == BridgePhase::Waiting),
    {
        match (sent, self.phase) {
            (Ok(()), BridgePhase::Delivering) => {
                self.phase = BridgePhase::Waiting;
                true
            },
            _ => {
                self.phase = BridgePhase::Finished;
                false
            },
        }
    }
}

/// An ended bridge stays ended: it sends no more messages.
pub proof fn law_bridge_end_is_final<U>(events: Seq<BridgeEvent<U>>)
    ensures
        BridgePhase::Finished.run(events) == BridgePhase::Finished,
{
    assert forall|e: BridgeEvent<U>| #[trigger] BridgePhase::step_fn::<U>()(BridgePhase::Finished, e)
        == BridgePhase::Finished by {}
    lemma_run_fixed_point(BridgePhase::Finished, BridgePhase::step_fn::<U>(), events);
}

/// Whether `events` is a series of rounds, each a successful synchronization followed
/// by a successful delivery of the message.
pub open spec fn delivered_rounds<U>(events: Seq<BridgeEvent<U>>) -> bool
    decreases events.len(),
{
    if events.len() == 0 {
        true
    } else {
        &&& events.len() >= 2
        &&& events[0] == BridgeEvent::<U>::Synchronized(Ok(()))
        &&& events[1] == BridgeEvent::<U>::Delivered(Ok(()))
        &&& delivered_rounds(events.subrange(2, events.len() as int))
    }
}

/// Each time the synchronization object lets the bridge through, one message is sent;
/// after it the bridge waits again, as long as the actor receives the messages.
pub proof fn law_rounds_keep_waiting<U>(events: Seq<BridgeEvent<U>>)
    requires
        delivered_rounds(events),
    ensures
        BridgePhase::Waiting.run(events) == BridgePhase::Waiting,
    decreases events.len(),
{
    let f = BridgePhase::step_fn::<U>();
    if events.len() > 0 {
        let rest = events.subrange(2, events.len() as int);
        let first = events.subrange(0, 2);
        assert(events =~= first + rest);
        assert(first =~= seq![events[0]] + seq![events[1]]);
        lemma_run_append(BridgePhase::Waiting, f, first, rest);
        lemma_run_append(BridgePhase::Waiting, f, seq![events[0]], seq![events[1]]);
        lemma_run_single(BridgePhase::Waiting, f, events[0]);
        lemma_run_single(BridgePhase::Delivering, f, events[1]);
        law_rounds_keep_waiting(rest);
    } else {
        assert(run_events(BridgePhase::Waiting, f, events) == BridgePhase::Waiting);
    }
}

/// A bridge ends when it is asked to stop: at once while it waits, and right after the
/// delivery under way while it delivers, whatever that delivery's result; no message is
/// sent after that. It also ends when its synchronization object fails (a closed
/// semaphore), and when the actor cannot receive a message.
pub proof fn law_bridge_ends<U>(e: ActorError<U>, sent: Res<(), U>, events: Seq<BridgeEvent<U>>)
    ensures
        BridgePhase::Waiting.run(seq![BridgeEvent::StopNotified] + events) == BridgePhase::Finished,
        BridgePhase::Delivering.run(seq![BridgeEvent::StopNotified, BridgeEvent::Delivered(sent)] + events)
            == BridgePhase::Finished,
        BridgePhase::Waiting.run(seq![BridgeEvent::Synchronized(Err(e))] + events) == BridgePhase::Finished,
        BridgePhase::Delivering.run(seq![BridgeEvent::Delivered(Err(e))] + events) == BridgePhase::Finished,
{
    let f = BridgePhase::step_fn::<U>();
    let stop = BridgeEvent::<U>::StopNotified;
    let delivered = BridgeEvent::Delivered(sent);
    lemma_run_append(BridgePhase::Waiting, f, seq![stop], events);
    lemma_run_single(BridgePhase::Waiting, f, stop);
    lemma_run_append(BridgePhase::Delivering, f, seq![stop, delivered], events);
    assert(seq![stop, delivered] =~= seq![stop] + seq![delivered]);
    lemma_run_append(BridgePhase::Delivering, f, seq![stop], seq![delivered]);
    lemma_run_single(BridgePhase::Delivering, f, stop);
    lemma_run_single(BridgePhase::Stopping, f, delivered);
    lemma_run_append(BridgePhase::Waiting, f, seq![BridgeEvent::Synchronized(Err(e))], events);
    lemma_run_single(BridgePhase::Waiting, f, BridgeEvent::Synchronized(Err(e)));
    lemma_run_append(BridgePhase::Delivering, f, seq![BridgeEvent::Delivered(Err(e))], events);
    lemma_run_single(BridgePhase::Delivering, f, BridgeEvent::Delivered(Err(e)));
    law_bridge_end_is_final(events);
}

}
