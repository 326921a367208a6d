use robius_location::ExecutionLatch;

#[test]
fn a_new_latch_is_idle_and_admits_one_entry() {
    let mut latch = ExecutionLatch::new();
    assert!(!latch.is_disabled());
    assert!(!latch.is_executing());
    assert!(latch.try_enter());
    assert!(latch.is_executing());
    assert!(!latch.try_enter(), "the latch admits one invocation at a time");
    latch.exit();
    assert!(!latch.is_executing());
    assert!(latch.try_enter(), "after an exit the latch is idle again");
    latch.exit();
}

#[test]
fn disable_is_one_way_and_idempotent() {
    let mut latch = ExecutionLatch::new();
    latch.disable();
    assert!(latch.is_disabled());
    latch.disable();
    assert!(latch.is_disabled());
    assert!(!latch.try_enter());
    assert!(latch.is_disabled());
}

#[test]
fn disable_during_an_invocation_preserves_the_in_flight_mark() {
    let mut latch = ExecutionLatch::new();
    assert!(latch.try_enter());
    latch.disable();
    assert!(
        latch.is_executing(),
        "the drain must still observe the invocation that was in flight"
    );
    latch.exit();
    assert!(!latch.is_executing());
    assert!(latch.is_disabled(), "disabled wins over the restored idle state");
    assert!(!latch.try_enter());
}

#[test]
fn a_burst_of_attempts_after_disable_yields_zero_entries() {
    let mut latch = ExecutionLatch::new();
    latch.disable();
    let mut entries: u32 = 0;
    for _ in 0..10_000 {
        if latch.try_enter() {
            entries += 1;
        }
    }
    assert_eq!(entries, 0);
}
