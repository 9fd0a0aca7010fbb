//! Entry procedures shipped with the runtime: the counting body the driver
//! loop runs, and an echoing body that exercises the value-transfer protocol.

use vstd::prelude::*;

use crate::coroutine::{EntryProcedure, Step};

verus! {

/// Entry procedure that yields `0, 1, ..., limit - 1` in order, one value
/// per resume, ignoring the values it is resumed with, and then returns.
#[derive(Clone, Copy, Debug, PartialEq, Eq, Structural)]
pub struct CountingBody {
    /// The next value to yield.
    pub next: i32,
    /// One past the last value to yield.
    pub limit: i32,
}

impl CountingBody {
    /// A body that will yield `0, 1, ..., limit - 1` and then return.
    pub fn new(limit: i32) -> (b: CountingBody)
        ensures
            b.next == 0,
            b.limit == limit,
    {
        CountingBody { next: 0, limit }
    }
}

impl EntryProcedure for CountingBody {
    type In = i32;

    type Out = i32;

    type Ret = ();

    open spec fn spec_step(self, input: i32) -> Step<CountingBody, i32, ()> {
        if self.next < self.limit {
            Step::Suspend(CountingBody { next: (self.next + 1) as i32, limit: self.limit }, self.next)
        } else {
            Step::Return(())
        }
    }

    fn step(self, input: i32) -> (r: Step<CountingBody, i32, ()>) {
        if self.next < self.limit {
            Step::Suspend(CountingBody { next: self.next + 1, limit: self.limit }, self.next)
        } else {
            Step::Return(())
        }
    }
}

/// Entry procedure that hands every resume value straight back: it yields
/// each resume value unchanged for `remaining` rounds, then returns the next
/// resume value unchanged. Exercises the round-trip of values across the
/// resume/suspend handoff.
#[derive(Clone, Copy, Debug, PartialEq, Eq, Structural)]
pub struct EchoBody {
    /// How many more resume values to yield back before returning one.
    pub remaining: u32,
}

impl EchoBody {
    /// A body that echoes `rounds` resume values and returns the next one.
    pub fn new(rounds: u32) -> (b: EchoBody)
        ensures
            b.remaining == rounds,
    {
        EchoBody { remaining: rounds }
    }
}

impl EntryProcedure for EchoBody {
    type In = i32;

    type Out = i32;

    type Ret = i32;

    open spec fn spec_step(self, input: i32) -> Step<EchoBody, i32, i32> {
        if self.remaining > 0 {
            Step::Suspend(EchoBody { remaining: (self.remaining - 1) as u32 }, input)
        } else {
            Step::Return(input)
        }
    }

    fn step(self, input: i32) -> (r: Step<EchoBody, i32, i32>) {
        if self.remaining > 0 {
            Step::Suspend(EchoBody { remaining: self.remaining - 1 }, input)
        } else {
            Step::Return(input)
        }
    }
}

} // verus!
