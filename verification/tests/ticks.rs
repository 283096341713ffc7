use voidinvestor::constants::{CYCLE_SECONDS, FLEET_PAGE_SIZE, PAGE_ROTATION};
use voidinvestor::schedule::Scheduler;

#[test]
fn cadence_values() {
    assert_eq!(CYCLE_SECONDS, 10);
    assert_eq!(PAGE_ROTATION, 3);
    assert_eq!(FLEET_PAGE_SIZE, 5);
}

#[test]
fn pages_rotate_from_one_to_three() {
    let mut scheduler = Scheduler::new();
    let pages: Vec<i32> = (0..8).map(|_| scheduler.tick()).collect();
    assert_eq!(pages, vec![1, 2, 3, 1, 2, 3, 1, 2]);
}
