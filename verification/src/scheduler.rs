//! Schedulers: fire an event periodically, or once, and hand it to an event handler.
//! The timer runs in the scheduler's task; this module decides when the task stops
//! and with which result.
use vstd::prelude::*;

use crate::common::{ActorError, Res};
use crate::machine::{lemma_run_append, lemma_run_fixed_point, lemma_run_single, run_events};

verus! {

/// A point in time of tokio's clock.
#[verifier::external_type_specification]
#[verifier::external_body]
pub struct ExInstant(tokio::time::Instant);

/// Type of the scheduling.
#[derive(Debug)]
pub enum Scheduling {
    /// Periodic with the given interval, starting now
    Periodic(tokio::time::Duration),
    /// Periodic with the given interval, starting at the given point of time
    PeriodicAt(tokio::time::Instant, tokio::time::Duration),
    /// Only once, at the given point of time
    OnceAt(tokio::time::Instant),
}

impl Scheduling {
    /// Whether the event is fired only once.
    pub open spec fn fires_once(&self) -> bool {
        self is OnceAt
    }

    /// Whether the event is fired only once.
    pub fn is_once(&self) -> (r: bool)
        ensures
            r == self.fires_once(),
    {
        matches!(self, Scheduling::OnceAt(_))
    }
}

/// Phase of a scheduler.
pub enum SchedulerPhase<U> {
    /// Waiting for the next firing of the timer
    Running,
    /// Stopped with this result, which the scheduler's `stop` returns
    Finished(Res<(), U>),
}

impl<U> SchedulerPhase<U> {
    /// The phase after the event handler answered `handled`. The handler answers `Ok(false)`
    /// to stop the scheduling; an error stops it too, with that error; a scheduling that
    /// fires once stops after its event.
    pub open spec fn step(self, once: bool, handled: Res<bool, U>) -> SchedulerPhase<U> {
        match self {
            SchedulerPhase::Running => match handled {
                Ok(true) => if once {
                    SchedulerPhase::Finished(Ok(()))
                } else {
                    SchedulerPhase::Running
                },
                Ok(false) => SchedulerPhase::Finished(Ok(())),
                Err(e) => SchedulerPhase::Finished(Err(e)),
            },
            SchedulerPhase::Finished(_) => self,
        }
    }

    /// The step of a scheduler, as a function.
    pub open spec fn step_fn(once: bool) -> spec_fn(SchedulerPhase<U>, Res<bool, U>) -> SchedulerPhase<U> {
        |p: SchedulerPhase<U>, a: Res<bool, U>| p.step(once, a)
    }

    /// The phase after a sequence of answers of the event handler.
    pub open spec fn run(self, once: bool, answers: Seq<Res<bool, U>>) -> SchedulerPhase<U> {
        run_events(self, Self::step_fn(once), answers)
    }
}

/// What the scheduler's task does next.
#[derive(Debug, Clone, Copy, PartialEq, Eq, Structural)]
pub enum SchedulerStep {
    /// Wait for the next firing of the timer
    WaitNext,
    /// Stop the scheduling
    Finish,
}

/// Decision state of a scheduler.
pub struct SchedulerState<U> {
    once: bool,
    phase: SchedulerPhase<U>,
}

impl<U> SchedulerState<U> {
    /// Whether the scheduling fires once.
    pub closed spec fn once(&self) -> bool {
        self.once
    }

    /// The scheduler's phase.
    pub closed spec fn phase(&self) -> SchedulerPhase<U> {
        self.phase
    }

    /// A running scheduler for the given scheduling.
    pub fn new(scheduling: &Scheduling) -> (s: Self)
        ensures
            s.once() == scheduling.fires_once(),
            s.phase() == SchedulerPhase::<U>::Running,
    {
        SchedulerState { once: scheduling.is_once(), phase: SchedulerPhase::Running }
    }

    /// The event handler answered: decides whether the scheduling goes on.
    pub fn on_handled(&mut self, handled: Res<bool, U>) -> (step: SchedulerStep)
        requires
            old(self).phase() is Running,
        ensures
            final(self).once() == old(self).once(),
            final(self).phase() == old(self).phase().step(old(self).once(), handled),
            (step == SchedulerStep::WaitNext) == (final(self).phase() is Running),
    {
        match handled {
            Ok(true) => {
                if self.once {
                    self.phase = SchedulerPhase::Finished(Ok(()));
                    SchedulerStep::Finish
                } else {
                    SchedulerStep::WaitNext
                }
            },
            Ok(false) => {
                self.phase = SchedulerPhase::Finished(Ok(()));
                SchedulerStep::Finish
            },
            Err(e) => {
                self.phase = SchedulerPhase::Finished(Err(e));
                SchedulerStep::Finish
            },
        }
    }

    /// Consumes a finished scheduler and returns its result.
    pub fn into_result(self) -> (r: Res<(), U>)
        requires
            self.phase() is Finished,
        ensures
            self.phase() == SchedulerPhase::Finished(r),
    {
        match self.phase {
            SchedulerPhase::Finished(r) => r,
            SchedulerPhase::Running => vstd::pervasive::unreached(),
        }
    }
}

/// Event handler that turns each firing of a scheduler into a message for an actor,
/// through the actor's client `C`.
pub struct MessageActorScheduler<C>(C);

impl<C> MessageActorScheduler<C> {
    /// The client through which messages are sent.
    pub closed spec fn client(&self) -> C {
        self.0
    }

    /// Creates the event handler for a client.
    pub fn new(client: C) -> (r: Self)
        ensures
            r.client() == client,
    {
        MessageActorScheduler(client)
    }

    /// The client through which messages are sent.
    pub fn client_ref(&self) -> (r: &C)
        ensures
            *r == self.client(),
    {
        &self.0
    }
}

/// The answer of a message scheduler's event handler, from the result of sending the
/// scheduled message: the scheduling goes on while messages are delivered, and stops with
/// the delivery error once the actor cannot receive them.
pub open spec fn delivery_answer<U>(sent: Res<(), U>) -> Res<bool, U> {
    match sent {
        Ok(()) => Ok(true),
        Err(e) => Err(e),
    }
}

/// The answer of a message scheduler's event handler, from the result of sending the
/// scheduled message.
pub fn delivery_outcome<U>(sent: Res<(), U>) -> (r: Res<bool, U>)
    ensures
        r == delivery_answer(sent),
{
    match sent {
        Ok(()) => Ok(true),
        Err(e) => Err(e),
    }
}

/// Once a scheduler has finished, its result never changes.
pub proof fn law_finished_is_final<U>(r: Res<(), U>, once: bool, answers: Seq<Res<bool, U>>)
    ensures
        SchedulerPhase::Finished(r).run(once, answers) == SchedulerPhase::Finished(r),
{
    assert forall|a: Res<bool, U>| #[trigger] SchedulerPhase::<U>::step_fn(once)(SchedulerPhase::Finished(r), a)
        == SchedulerPhase::Finished(r) by {}
    lemma_run_fixed_point(SchedulerPhase::Finished(r), SchedulerPhase::<U>::step_fn(once), answers);
}

/// A scheduling that fires once hands a single event to its handler: whatever the handler
/// answers, the scheduler has finished after it, with an error only if the handler failed.
pub proof fn law_once_fires_once<U>(first: Res<bool, U>, rest: Seq<Res<bool, U>>)
    ensures
        SchedulerPhase::Running.run(true, seq![first] + rest) == SchedulerPhase::<U>::Running.step(true, first),
        SchedulerPhase::<U>::Running.step(true, first) == SchedulerPhase::<U>::Finished(
            match first {
                Ok(_) => Ok(()),
                Err(e) => Err(e),
            },
        ),
{
    let f = SchedulerPhase::<U>::step_fn(true);
    lemma_run_append(SchedulerPhase::Running, f, seq![first], rest);
    lemma_run_single(SchedulerPhase::Running, f, first);
    law_finished_is_final(match first { Ok(_) => Ok(()), Err(e) => Err(e) }, true, rest);
}

/// Whether every answer asks the scheduling to go on.
pub open spec fn all_go_on<U>(answers: Seq<Res<bool, U>>) -> bool {
    forall|i: int| 0 <= i < answers.len() ==> answers[i] == Ok::<bool, ActorError<U>>(true)
}

/// A periodic scheduler keeps running as long as its handler asks it to go on.
pub proof fn law_periodic_goes_on<U>(answers: Seq<Res<bool, U>>)
    requires
        all_go_on(answers),
    ensures
        SchedulerPhase::Running.run(false, answers) == SchedulerPhase::<U>::Running,
    decreases answers.len(),
{
    let f = SchedulerPhase::<U>::step_fn(false);
    if answers.len() == 0 {
        assert(run_events(SchedulerPhase::Running, f, answers) == SchedulerPhase::<U>::Running);
    } else {
        assert(answers[0] == Ok::<bool, ActorError<U>>(true));
        assert(all_go_on(answers.drop_first())) by {
            assert forall|i: int| 0 <= i < answers.drop_first().len() implies answers.drop_first()[i]
                == Ok::<bool, ActorError<U>>(true) by {
                assert(answers.drop_first()[i] == answers[i + 1]);
            }
        }
        law_periodic_goes_on(answers.drop_first());
    }
}

/// A periodic scheduler stops at the first answer that is not a request to go on: with
/// success when the handler asked it to stop, with the handler's error when it failed.
/// Later firings do not change that result.
pub proof fn law_periodic_stops_at_first_refusal<U>(
    go_on: Seq<Res<bool, U>>,
    last: Res<bool, U>,
    rest: Seq<Res<bool, U>>,
)
    requires
        all_go_on(go_on),
        last != Ok::<bool, ActorError<U>>(true),
    ensures
        SchedulerPhase::Running.run(false, go_on + seq![last] + rest) == SchedulerPhase::<U>::Finished(
            match last {
                Ok(_) => Ok(()),
                Err(e) => Err(e),
            },
        ),
{
    let fin = match last {
        Ok(_) => Ok(()),
        Err(e) => Err(e),
    };
    law_periodic_goes_on(go_on);
    let f = SchedulerPhase::<U>::step_fn(false);
    lemma_run_append(SchedulerPhase::Running, f, go_on + seq![last], rest);
    lemma_run_append(SchedulerPhase::Running, f, go_on, seq![last]);
    lemma_run_single(SchedulerPhase::Running, f, last);
    law_finished_is_final(fin, false, rest);
}

/// A periodic message scheduler goes on while its messages are delivered, and stops with
/// the delivery error at the first message that its actor cannot receive, such as when the
/// actor has stopped: `stop` then returns that error.
pub proof fn law_message_scheduler_stops_with_delivery_error<U>(
    delivered: nat,
    e: ActorError<U>,
    rest: Seq<Res<bool, U>>,
)
    ensures
        SchedulerPhase::Running.run(
            false,
            Seq::new(delivered, |i: int| delivery_answer::<U>(Ok(()))) + seq![delivery_answer(Err(e))] + rest,
        ) == SchedulerPhase::<U>::Finished(Err(e)),
{
    let go_on = Seq::new(delivered, |i: int| delivery_answer::<U>(Ok(())));
    assert(all_go_on(go_on));
    law_periodic_stops_at_first_refusal(go_on, delivery_answer(Err(e)), rest);
}

}
