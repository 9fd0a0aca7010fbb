//! Laws of the resume/suspend protocol, stated over the abstract coroutine
//! model that [`crate::coroutine::Coroutine::resume`] is specified against.

use vstd::prelude::*;

use crate::coroutine::{CoroModel, EntryProcedure, ResumeEvent, Step, spec_resume};

verus! {

/// The coroutine model left after resuming once with each value of `inputs`
/// in order.
pub open spec fn run_model<B: EntryProcedure>(m: CoroModel<B>, inputs: Seq<B::In>) -> CoroModel<B>
    decreases inputs.len(),
{
    if inputs.len() == 0 {
        m
    } else {
        run_model(spec_resume(m, inputs[0]).0, inputs.subrange(1, inputs.len() as int))
    }
}

/// The events a driver observes when it resumes once with each value of
/// `inputs` in order.
pub open spec fn run_events<B: EntryProcedure>(m: CoroModel<B>, inputs: Seq<B::In>) -> Seq<
    ResumeEvent<B::Out, B::Ret>,
>
    decreases inputs.len(),
{
    if inputs.len() == 0 {
        Seq::empty()
    } else {
        seq![spec_resume(m, inputs[0]).1] + run_events(
            spec_resume(m, inputs[0]).0,
            inputs.subrange(1, inputs.len() as int),
        )
    }
}

/// The body, fed `inputs` one resume at a time, suspends on each of the
/// first `n` values and returns on the one after: it yields exactly `n`
/// times, and `inputs` is exactly long enough to drive it to completion.
pub open spec fn yields_exactly<B: EntryProcedure>(b: B, inputs: Seq<B::In>, n: nat) -> bool
    decreases n,
{
    &&& inputs.len() == n + 1
    &&& match b.spec_step(inputs[0]) {
        Step::Suspend(b2, _) => n >= 1 && yields_exactly(
            b2,
            inputs.subrange(1, inputs.len() as int),
            (n - 1) as nat,
        ),
        Step::Return(_) => n == 0,
    }
}

/// A coroutine whose body yields exactly `n` times before returning needs
/// exactly `n + 1` resume calls to reach completion: each of the first `n`
/// reports a yielded value and leaves the coroutine still active, and only
/// the `(n + 1)`-th reports the return and completes it.
pub proof fn lemma_resume_count<B: EntryProcedure>(b: B, inputs: Seq<B::In>, n: nat)
    requires
        yields_exactly(b, inputs, n),
    ensures
        run_events(CoroModel::Active(b), inputs).len() == n + 1,
        forall|i: int| 0 <= i < n ==> run_events(CoroModel::Active(b), inputs)[i] is Yielded,
        run_events(CoroModel::Active(b), inputs)[n as int] is Returned,
        forall|k: int| 0 <= k <= n ==> run_model(CoroModel::Active(b), inputs.subrange(0, k)) is Active,
        run_model(CoroModel::Active(b), inputs) is Done,
    decreases n,
{
    let m = CoroModel::Active(b);
    let rest = inputs.subrange(1, inputs.len() as int);
    let events = run_events(m, inputs);
    assert(run_model(m, inputs.subrange(0, 0)) is Active);
    match b.spec_step(inputs[0]) {
        Step::Suspend(b2, out) => {
            lemma_resume_count(b2, rest, (n - 1) as nat);
            let sub = run_events(CoroModel::Active(b2), rest);
            assert(events == seq![ResumeEvent::<B::Out, B::Ret>::Yielded(out)] + sub);
            assert(events.len() == n + 1);
            assert forall|i: int| 0 <= i < n implies events[i] is Yielded by {
                if i > 0 {
                    assert(events[i] == sub[i - 1]);
                }
            }
            assert(events[n as int] == sub[n - 1]);
            assert(run_model(m, inputs) == run_model(CoroModel::<B>::Active(b2), rest));
            assert forall|k: int| 0 < k <= n implies run_model(m, inputs.subrange(0, k)) is Active by {
                let pre = inputs.subrange(0, k);
                assert(pre[0] == inputs[0]);
                assert(pre.subrange(1, k) =~= rest.subrange(0, k - 1));
                assert(run_model(m, pre) == run_model(
                    CoroModel::<B>::Active(b2),
                    rest.subrange(0, k - 1),
                ));
            }
        },
        Step::Return(ret) => {
            assert(rest.len() == 0);
            let sub = run_events(CoroModel::<B>::Done, rest);
            assert(sub.len() == 0);
            assert(events == seq![ResumeEvent::<B::Out, B::Ret>::Returned(ret)] + sub);
            assert(events.len() == 1);
            assert(events[0] is Returned);
            assert(run_model(m, inputs) == run_model(CoroModel::<B>::Done, rest));
            assert(run_model(CoroModel::<B>::Done, rest) is Done);
        },
    }
}

/// Values round-trip exactly across one handoff: if the body, handed `v`,
/// suspends with `w`, then one resume with `v` delivers exactly `v` into the
/// body and reports exactly `Yielded(w)` back, for arbitrary `v` and `w`.
pub proof fn lemma_transfer_round_trip<B: EntryProcedure>(b: B, b2: B, v: B::In, w: B::Out)
    requires
        b.spec_step(v) == Step::<B, B::Out, B::Ret>::Suspend(b2, w),
    ensures
        spec_resume(CoroModel::Active(b), v) == (
            CoroModel::<B>::Active(b2),
            ResumeEvent::<B::Out, B::Ret>::Yielded(w),
        ),
{
}

/// A failed resume is inert: on a completed coroutine every resume fails and
/// the model stays completed, however many times it is tried.
pub proof fn lemma_completed_stays_completed<B: EntryProcedure>(inputs: Seq<B::In>)
    ensures
        run_model(CoroModel::<B>::Done, inputs) is Done,
        forall|i: int|
            0 <= i < inputs.len() ==> run_events(CoroModel::<B>::Done, inputs)[i] is Failed,
        run_events(CoroModel::<B>::Done, inputs).len() == inputs.len(),
    decreases inputs.len(),
{
    if inputs.len() > 0 {
        let rest = inputs.subrange(1, inputs.len() as int);
        lemma_completed_stays_completed::<B>(rest);
        let events = run_events(CoroModel::<B>::Done, inputs);
        let sub = run_events(CoroModel::<B>::Done, rest);
        assert(events == seq![ResumeEvent::<B::Out, B::Ret>::Failed] + sub);
        assert forall|i: int| 0 <= i < inputs.len() implies events[i] is Failed by {
            if i > 0 {
                assert(events[i] == sub[i - 1]);
            }
        }
    }
}

} // verus!
