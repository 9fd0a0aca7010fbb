//! Decision logic of the driver loop: one call per iteration that resumes
//! the coroutine unless it has completed, advances the resume counter, and
//! orders the fixed hardware action regardless of the coroutine's outcome.
//! The surrounding loop performs the action (set the line high, wait, set it
//! low, wait) and calls back in; it never terminates on its own.

use vstd::prelude::*;

use crate::coroutine::{Coroutine, CoroutineState, EntryProcedure, ResumeEvent, ResumeOutcome, spec_resume};

verus! {

/// Driver-loop state: the value handed to the next resume, whether the
/// coroutine has completed, and how many hardware actions the loop has been
/// ordered to perform.
pub struct Driver {
    /// Value handed to the next resume; advances by one per resume.
    pub counter: i32,
    /// Set once the coroutine reports its return; stops further resumes, but
    /// not the hardware action.
    pub completed: bool,
    /// Number of iterations so far, each of which orders exactly one fixed
    /// timed hardware action, whatever the coroutine did.
    pub toggles: u64,
}

impl Driver {
    /// A driver that will resume with `start`, `start + 1`, ... and has not
    /// ordered any hardware action yet.
    pub fn new(start: i32) -> (d: Driver)
        ensures
            d.counter == start,
            !d.completed,
            d.toggles == 0,
    {
        Driver { counter: start, completed: false, toggles: 0 }
    }

    /// One loop iteration. If the coroutine has not completed, resumes it
    /// with the counter, records a completion, and advances the counter; in
    /// every case orders exactly one hardware action. The two activities
    /// share the iteration but are not causally coupled: completion stops
    /// further resumes, never the hardware action.
    pub fn step<B: EntryProcedure<In = i32>>(&mut self, coro: &mut Coroutine<B>) -> (r: Option<
        ResumeOutcome<B::Out, B::Ret>,
    >)
        requires
            old(coro).wf(),
            old(self).completed <==> old(coro).model() is Done,
            !old(self).completed ==> old(self).counter < i32::MAX,
            old(self).toggles < u64::MAX,
        ensures
            final(coro).wf(),
            final(coro).stack == old(coro).stack,
            final(self).toggles == old(self).toggles + 1,
            final(self).completed <==> final(coro).model() is Done,
            old(self).completed ==> r is None && *final(coro) == *old(coro) && final(self).counter
                == old(self).counter && final(self).completed,
            !old(self).completed ==> ({
                &&& final(self).counter == old(self).counter + 1
                &&& final(coro).model() == spec_resume(old(coro).model(), old(self).counter).0
                &&& match spec_resume(old(coro).model(), old(self).counter).1 {
                    ResumeEvent::Yielded(out) => r == Some(ResumeOutcome::<B::Out, B::Ret>::Yielded(out)),
                    ResumeEvent::Returned(ret) => r == Some(ResumeOutcome::<B::Out, B::Ret>::Returned(ret)),
                    ResumeEvent::Failed => false,
                }
            }),
    {
        let r: Option<ResumeOutcome<B::Out, B::Ret>> = if !self.completed {
            let outcome = match coro.resume(self.counter) {
                Ok(o) => Some(o),
                Err(_) => {
                    proof {
                        assert(false);
                    }
                    None
                },
            };
            self.counter = self.counter + 1;
            self.completed = coro.state == CoroutineState::Completed;
            outcome
        } else {
            None
        };
        self.toggles = self.toggles + 1;
        r
    }
}

} // verus!
