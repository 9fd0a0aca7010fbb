use picoro::bodies::{CountingBody, EchoBody};
use picoro::coroutine::{Coroutine, CoroutineState, ResumeError, ResumeOutcome};
use picoro::stack::{StackAllocator, MIN_STACK_SIZE};

#[test]
fn counting_body_yields_then_returns() {
    let mut alloc = StackAllocator::new(16 * 1024);
    let stack = alloc.allocate(MIN_STACK_SIZE).unwrap();
    let mut coro = Coroutine::new(stack, CountingBody::new(3));
    assert_eq!(coro.state, CoroutineState::NotStarted);

    assert_eq!(coro.resume(100), Ok(ResumeOutcome::Yielded(0)));
    assert_eq!(coro.state, CoroutineState::Suspended);
    assert_eq!(coro.resume(101), Ok(ResumeOutcome::Yielded(1)));
    assert_eq!(coro.resume(102), Ok(ResumeOutcome::Yielded(2)));
    assert_eq!(coro.state, CoroutineState::Suspended);

    // The fourth resume of a body that yields exactly three times completes it.
    assert_eq!(coro.resume(103), Ok(ResumeOutcome::Returned(())));
    assert_eq!(coro.state, CoroutineState::Completed);
}

#[test]
fn echo_round_trips_resume_and_suspend_values() {
    let mut alloc = StackAllocator::new(16 * 1024);
    let stack = alloc.allocate(MIN_STACK_SIZE).unwrap();
    let mut coro = Coroutine::new(stack, EchoBody::new(1));

    // The resumed-with value arrives inside the body, and the suspended-with
    // value arrives back at the resumer, both unchanged.
    assert_eq!(coro.resume(7), Ok(ResumeOutcome::Yielded(7)));
    assert_eq!(coro.resume(42), Ok(ResumeOutcome::Returned(42)));
}

#[test]
fn echo_round_trips_arbitrary_values() {
    let mut alloc = StackAllocator::new(16 * 1024);
    let stack = alloc.allocate(MIN_STACK_SIZE).unwrap();
    let mut coro = Coroutine::new(stack, EchoBody::new(3));

    assert_eq!(coro.resume(i32::MIN), Ok(ResumeOutcome::Yielded(i32::MIN)));
    assert_eq!(coro.resume(0), Ok(ResumeOutcome::Yielded(0)));
    assert_eq!(coro.resume(i32::MAX), Ok(ResumeOutcome::Yielded(i32::MAX)));
    assert_eq!(coro.resume(-1), Ok(ResumeOutcome::Returned(-1)));
}

#[test]
fn resume_after_completion_fails_and_changes_nothing() {
    let mut alloc = StackAllocator::new(16 * 1024);
    let stack = alloc.allocate(MIN_STACK_SIZE).unwrap();
    let mut coro = Coroutine::new(stack, CountingBody::new(1));

    assert_eq!(coro.resume(0), Ok(ResumeOutcome::Yielded(0)));
    assert_eq!(coro.resume(1), Ok(ResumeOutcome::Returned(())));
    assert_eq!(coro.state, CoroutineState::Completed);
    let base = coro.stack.base();
    let size = coro.stack.size();

    for _ in 0..3 {
        assert_eq!(coro.resume(2), Err(ResumeError::ResumeAfterCompletion));
        assert_eq!(coro.state, CoroutineState::Completed);
        assert_eq!(coro.stack.base(), base);
        assert_eq!(coro.stack.size(), size);
    }
}

#[test]
fn destroy_releases_the_stack_exactly_once() {
    let mut alloc = StackAllocator::new(8192);
    for _ in 0..10 {
        let stack = alloc.allocate(MIN_STACK_SIZE).unwrap();
        let mut coro = Coroutine::new(stack, CountingBody::new(2));
        assert_eq!(coro.resume(0), Ok(ResumeOutcome::Yielded(0)));
        assert_eq!(alloc.in_use, MIN_STACK_SIZE);
        assert_eq!(alloc.outstanding, 1);
        coro.destroy(&mut alloc);
        // Zero leaks and zero double-releases: the accounting returns to
        // exactly zero after every construct/destroy cycle.
        assert_eq!(alloc.in_use, 0);
        assert_eq!(alloc.outstanding, 0);
    }
}

#[test]
fn construct_does_not_start_execution() {
    let mut alloc = StackAllocator::new(16 * 1024);
    let stack = alloc.allocate(MIN_STACK_SIZE).unwrap();
    let coro = Coroutine::new(stack, CountingBody::new(5));
    assert_eq!(coro.state, CoroutineState::NotStarted);
    assert_eq!(coro.stack.size(), MIN_STACK_SIZE);
}
