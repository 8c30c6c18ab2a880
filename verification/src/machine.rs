//! Runs of the library's state machines: the state after a sequence of events, each
//! event moving the state by the machine's step.
use vstd::prelude::*;

verus! {

/// The state reached from `state` by taking `step` on each of `events`, in order.
pub open spec fn run_events<P, E>(state: P, step: spec_fn(P, E) -> P, events: Seq<E>) -> P
    decreases events.len(),
{
    if events.len() == 0 {
        state
    } else {
        run_events(step(state, events[0]), step, events.drop_first())
    }
}

/// Running two sequences of events one after the other is running their concatenation.
pub proof fn lemma_run_append<P, E>(state: P, step: spec_fn(P, E) -> P, a: Seq<E>, b: Seq<E>)
    ensures
        run_events(state, step, a + b) == run_events(run_events(state, step, a), step, b),
    decreases a.len(),
{
    if a.len() > 0 {
        assert((a + b).drop_first() =~= a.drop_first() + b);
        lemma_run_append(step(state, a[0]), step, a.drop_first(), b);
    } else {
        assert(a + b =~= b);
    }
}

/// Running a single event is taking one step.
pub proof fn lemma_run_single<P, E>(state: P, step: spec_fn(P, E) -> P, e: E)
    ensures
        run_events(state, step, seq![e]) == step(state, e),
{
    assert(seq![e].drop_first() =~= Seq::<E>::empty());
    assert(run_events(step(state, e), step, Seq::<E>::empty()) == step(state, e));
}

/// A state that every event leaves unchanged stays unchanged by any run.
pub proof fn lemma_run_fixed_point<P, E>(state: P, step: spec_fn(P, E) -> P, events: Seq<E>)
    requires
        forall|e: E| #[trigger] step(state, e) == state,
    ensures
        run_events(state, step, events) == state,
    decreases events.len(),
{
    if events.len() > 0 {
        assert(step(state, events[0]) == state);
        lemma_run_fixed_point(state, step, events.drop_first());
    }
}

}
