use picoro::bodies::CountingBody;
use picoro::coroutine::{Coroutine, CoroutineState, ResumeOutcome};
use picoro::driver::Driver;
use picoro::stack::{StackAllocator, MIN_STACK_SIZE};

#[test]
fn end_to_end_five_yields_then_return() {
    let mut alloc = StackAllocator::new(16 * 1024);
    let stack = alloc.allocate(MIN_STACK_SIZE).unwrap();
    let mut coro = Coroutine::new(stack, CountingBody::new(5));
    let mut driver = Driver::new(100);

    let mut observed: Vec<Option<ResumeOutcome<i32, ()>>> = Vec::new();
    for _ in 0..6 {
        observed.push(driver.step(&mut coro));
    }

    assert_eq!(
        observed,
        vec![
            Some(ResumeOutcome::Yielded(0)),
            Some(ResumeOutcome::Yielded(1)),
            Some(ResumeOutcome::Yielded(2)),
            Some(ResumeOutcome::Yielded(3)),
            Some(ResumeOutcome::Yielded(4)),
            Some(ResumeOutcome::Returned(())),
        ]
    );
    // One hardware action per iteration, independent of the outcomes.
    assert_eq!(driver.toggles, 6);
    assert_eq!(driver.counter, 106);
    assert!(driver.completed);
    assert_eq!(coro.state, CoroutineState::Completed);
}

#[test]
fn hardware_action_outlives_completion() {
    let mut alloc = StackAllocator::new(16 * 1024);
    let stack = alloc.allocate(MIN_STACK_SIZE).unwrap();
    let mut coro = Coroutine::new(stack, CountingBody::new(2));
    let mut driver = Driver::new(0);

    for _ in 0..3 {
        assert!(driver.step(&mut coro).is_some());
    }
    assert!(driver.completed);
    assert_eq!(driver.toggles, 3);

    // Completion stops further resumes, never the hardware action.
    for extra in 1..=4u64 {
        assert_eq!(driver.step(&mut coro), None);
        assert_eq!(driver.toggles, 3 + extra);
        assert_eq!(driver.counter, 3);
    }
}

#[test]
fn driver_counter_advances_once_per_resume() {
    let mut alloc = StackAllocator::new(16 * 1024);
    let stack = alloc.allocate(MIN_STACK_SIZE).unwrap();
    let mut coro = Coroutine::new(stack, CountingBody::new(3));
    let mut driver = Driver::new(-2);

    assert_eq!(driver.step(&mut coro), Some(ResumeOutcome::Yielded(0)));
    assert_eq!(driver.counter, -1);
    assert_eq!(driver.step(&mut coro), Some(ResumeOutcome::Yielded(1)));
    assert_eq!(driver.counter, 0);
    assert!(!driver.completed);
    assert_eq!(driver.toggles, 2);
}
