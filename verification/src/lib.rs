//! A minimal cooperative, stackful coroutine runtime for bare-metal style
//! targets: an explicit stack allocator that hands out aligned, zeroed,
//! lifetime-bound stack regions; a coroutine lifecycle state machine with a
//! resume/suspend transfer protocol; and the decision logic of a driver loop
//! that resumes the coroutine once per iteration while ordering a fixed
//! hardware action each time round.

pub mod bodies;
pub mod coroutine;
pub mod driver;
pub mod protocol;
pub mod stack;
