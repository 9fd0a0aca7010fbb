//! The coroutine: a lifecycle state machine over an owned stack block and an
//! entry procedure, with the resume/suspend value-transfer protocol.
//!
//! The entry procedure is written as an explicit resumption-state machine:
//! each suspend point of the body is a saved state, and one `step` runs the
//! body from its current state to the next suspend point or to its return.
//! This keeps the external `resume`/`suspend` contract of a native
//! stack-switching implementation while every control transfer stays a plain,
//! checkable function call.
//!
//! Stack sizing stays a caller obligation, unchecked at run time: a body
//! segment executes as an ordinary call, so it cannot overrun the coroutine's
//! own block here, but a block sized too small for a native stack-switching
//! target is not detected by anything in this runtime.

use vstd::prelude::*;

use crate::stack::{DefaultStack, StackAllocator};

verus! {

/// What an entry procedure does with one resume value: suspend, carrying the
/// state to resume from later and the output handed to the resumer, or
/// return a final value.
pub enum Step<B, Out, Ret> {
    /// The body reached a suspend point: it hands `Out` back to the resumer
    /// and saves `B`, the exact point (locals and call depth) to resume from.
    Suspend(B, Out),
    /// The body returned with a final value.
    Return(Ret),
}

/// A coroutine entry procedure in resumption-state form. `spec_step` is the
/// mathematical meaning of one segment of the body; `step` computes it, and
/// every implementation proves that it does.
pub trait EntryProcedure: Sized {
    /// Value delivered into the coroutine by each resume.
    type In;

    /// Value handed back to the resumer at each suspend.
    type Out;

    /// Value the body returns on completion.
    type Ret;

    /// What the body does with the next resume value, as a function of the
    /// saved resumption state.
    spec fn spec_step(self, input: Self::In) -> Step<Self, Self::Out, Self::Ret>;

    /// Runs the body from its saved state until it suspends or returns.
    fn step(self, input: Self::In) -> (r: Step<Self, Self::Out, Self::Ret>)
        ensures
            r == self.spec_step(input),
    ;
}

/// Lifecycle tag of a coroutine. `Running` exists only while a resume is in
/// flight; between calls a coroutine is `NotStarted`, `Suspended` or
/// `Completed`.
#[derive(Clone, Copy, Debug, PartialEq, Eq, Structural)]
pub enum CoroutineState {
    NotStarted,
    Suspended,
    Running,
    Completed,
}

/// A successful resume reports either a value the coroutine suspended with,
/// or the final value it returned.
#[derive(Debug, PartialEq, Eq)]
pub enum ResumeOutcome<Out, Ret> {
    Yielded(Out),
    Returned(Ret),
}

/// Resuming a `Completed` coroutine is a programming error, signalled
/// explicitly and never treated as a no-op.
#[derive(Clone, Copy, Debug, PartialEq, Eq, Structural)]
pub enum ResumeError {
    ResumeAfterCompletion,
}

/// Abstract state of a coroutine as the transfer protocol sees it: either
/// still holding a resumption state of its body, or done.
pub enum CoroModel<B> {
    Active(B),
    Done,
}

/// What one resume is observed to do, at the specification level.
pub enum ResumeEvent<Out, Ret> {
    Yielded(Out),
    Returned(Ret),
    Failed,
}

/// One transition of the resume protocol: resuming a completed coroutine
/// fails and changes nothing; otherwise the body consumes the resume value
/// and either suspends with an output or returns its final value.
pub open spec fn spec_resume<B: EntryProcedure>(m: CoroModel<B>, v: B::In) -> (CoroModel<B>, ResumeEvent<B::Out, B::Ret>) {
    match m {
        CoroModel::Done => (CoroModel::Done, ResumeEvent::Failed),
        CoroModel::Active(b) => match b.spec_step(v) {
            Step::Suspend(b2, out) => (CoroModel::Active(b2), ResumeEvent::Yielded(out)),
            Step::Return(ret) => (CoroModel::Done, ResumeEvent::Returned(ret)),
        },
    }
}

/// The event a resume's result reports.
pub open spec fn event_of<Out, Ret>(r: Result<ResumeOutcome<Out, Ret>, ResumeError>) -> ResumeEvent<Out, Ret> {
    match r {
        Ok(ResumeOutcome::Yielded(out)) => ResumeEvent::Yielded(out),
        Ok(ResumeOutcome::Returned(ret)) => ResumeEvent::Returned(ret),
        Err(_) => ResumeEvent::Failed,
    }
}

/// A coroutine: owns its stack block for its whole lifetime and holds the
/// saved resumption state of its entry procedure between resumes.
pub struct Coroutine<B> {
    /// Lifecycle tag.
    pub state: CoroutineState,
    /// Saved resumption state of the entry procedure; `None` once completed.
    pub body: Option<B>,
    /// The stack region exclusively owned by this coroutine; it stays valid
    /// and undisturbed across arbitrarily many suspend/resume round-trips.
    pub stack: DefaultStack,
}

impl<B> Coroutine<B> {
    /// Between resumes a coroutine is never `Running`, it holds a body state
    /// exactly until it completes, and its stack block is well-formed.
    pub open spec fn wf(&self) -> bool {
        &&& self.body is None <==> self.state is Completed
        &&& !(self.state is Running)
        &&& self.stack.wf()
    }

    /// The coroutine as the transfer protocol sees it.
    pub open spec fn model(&self) -> CoroModel<B> {
        match self.body {
            Some(b) => CoroModel::Active(b),
            None => CoroModel::Done,
        }
    }

    /// Constructs a coroutine over its own stack and an entry procedure. It
    /// stores both and does not start execution.
    pub fn new(stack: DefaultStack, body: B) -> (c: Coroutine<B>)
        requires
            stack.wf(),
        ensures
            c.wf(),
            c.state is NotStarted,
            c.model() == CoroModel::Active(body),
            c.stack == stack,
    {
        Coroutine { state: CoroutineState::NotStarted, body: Some(body), stack }
    }

    /// Ends the coroutine's lifetime, handing its stack region back to the
    /// allocator. Consuming the coroutine is what makes the release happen
    /// exactly once: no copy of the block survives to release again.
    pub fn destroy(self, alloc: &mut StackAllocator)
        requires
            old(alloc).wf(),
            self.stack.spec_size() <= old(alloc).in_use,
            old(alloc).outstanding >= 1,
        ensures
            final(alloc).wf(),
            final(alloc).capacity == old(alloc).capacity,
            final(alloc).in_use == old(alloc).in_use - self.stack.spec_size(),
            final(alloc).outstanding == old(alloc).outstanding - 1,
    {
        alloc.release(self.stack);
    }
}

impl<B: EntryProcedure> Coroutine<B> {
    /// Transfers control into the coroutine with `value`, runs it until its
    /// next suspend or its return, and reports what happened. On a completed
    /// coroutine it fails with `ResumeAfterCompletion` and leaves every
    /// observable part of the coroutine unchanged. Otherwise the body
    /// receives exactly `value`; a `Step::Suspend(_, w)` of the body is
    /// reported as `Yielded(w)` and a return as `Returned`, per
    /// [`spec_resume`]. The stack region is preserved untouched either way.
    pub fn resume(&mut self, value: B::In) -> (r: Result<ResumeOutcome<B::Out, B::Ret>, ResumeError>)
        requires
            old(self).wf(),
        ensures
            final(self).wf(),
            final(self).stack == old(self).stack,
            final(self).model() == spec_resume(old(self).model(), value).0,
            event_of(r) == spec_resume(old(self).model(), value).1,
            r is Err <==> old(self).state is Completed,
            old(self).state is Completed ==> r == Err::<ResumeOutcome<B::Out, B::Ret>, ResumeError>(
                ResumeError::ResumeAfterCompletion,
            ) && *final(self) == *old(self),
            r matches Ok(o) ==> (o is Yielded <==> final(self).state is Suspended) && (o
                is Returned <==> final(self).state is Completed),
    {
        match self.state {
            CoroutineState::Completed => Err(ResumeError::ResumeAfterCompletion),
            _ => {
                self.state = CoroutineState::Running;
                let taken = self.body.take();
                match taken {
                    Some(b) => match b.step(value) {
                        Step::Suspend(b2, out) => {
                            self.body = Some(b2);
                            self.state = CoroutineState::Suspended;
                            Ok(ResumeOutcome::Yielded(out))
                        },
                        Step::Return(ret) => {
                            self.state = CoroutineState::Completed;
                            Ok(ResumeOutcome::Returned(ret))
                        },
                    },
                    None => {
                        proof {
                            assert(false);
                        }
                        Err(ResumeError::ResumeAfterCompletion)
                    },
                }
            },
        }
    }
}

} // verus!
