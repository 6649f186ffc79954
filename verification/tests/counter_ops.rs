use bounded_counter::counter::Counter;

// With the all-zero configuration the value already sits at the upper
// threshold, so an increment is a silent no-op.
#[test]
fn increment() {
    let mut contract = Counter { val: 0, top_threshold: 0, low_threshold: 0 };
    contract.increment();
    assert_eq!(0, contract.get_num());
}

// With the all-zero configuration the value already sits at the lower
// threshold, so a decrement is a silent no-op and cannot underflow.
#[test]
fn decrement() {
    let mut contract = Counter { val: 0, top_threshold: 0, low_threshold: 0 };
    contract.decrement();
    assert_eq!(0, contract.get_num());
}

#[test]
fn increment_and_reset() {
    let mut contract = Counter { val: 0, top_threshold: 0, low_threshold: 0 };
    contract.increment();
    contract.reset();
    assert_eq!(0, contract.get_num());
}

#[test]
fn update_top_threshold() {
    let mut contract = Counter { val: 0, top_threshold: 0, low_threshold: 0 };
    contract.update_top_threshold(100);
    contract.reset();
    assert_eq!(100, contract.top_threshold);
}

#[test]
fn update_low_threshold() {
    let mut contract = Counter { val: 0, top_threshold: 0, low_threshold: 0 };
    contract.update_low_threshold(-100);
    contract.reset();
    assert_eq!(-100, contract.low_threshold);
}

#[test]
fn defaults_are_all_zero() {
    let contract = Counter::default();
    assert_eq!(0, contract.get_num());
    assert_eq!(0, contract.top_threshold);
    assert_eq!(0, contract.low_threshold);
}

#[test]
fn increment_at_defaults_stays_zero() {
    let mut contract = Counter::default();
    contract.increment();
    assert_eq!(0, contract.get_num());
}

#[test]
fn increment_saturates_at_top_threshold() {
    let mut contract = Counter::default();
    contract.update_top_threshold(5);
    for _ in 0..5 {
        contract.increment();
    }
    assert_eq!(5, contract.get_num());
    contract.increment();
    assert_eq!(5, contract.get_num());
}

#[test]
fn decrement_with_negative_low_threshold_stops_at_zero() {
    let mut contract = Counter::default();
    contract.update_low_threshold(-3);
    contract.decrement();
    assert_eq!(0, contract.get_num());
    contract.decrement();
    assert_eq!(0, contract.get_num());
}

#[test]
fn reset_clears_an_incremented_counter() {
    let mut contract = Counter::default();
    contract.update_top_threshold(100);
    contract.increment();
    assert_eq!(1, contract.get_num());
    contract.reset();
    assert_eq!(0, contract.get_num());
}

#[test]
fn decrement_below_unreachable_low_threshold_is_a_noop() {
    let mut contract = Counter::default();
    contract.update_low_threshold(50);
    contract.decrement();
    assert_eq!(0, contract.get_num());
    assert_eq!(50, contract.low_threshold);
}

#[test]
fn reset_from_arbitrary_state_yields_zero() {
    let mut contract = Counter { val: 999, top_threshold: -5, low_threshold: 3 };
    contract.reset();
    assert_eq!(0, contract.get_num());
    assert_eq!(-5, contract.top_threshold);
    assert_eq!(3, contract.low_threshold);
}

#[test]
fn increment_is_idempotent_at_the_ceiling() {
    let mut contract = Counter { val: 2, top_threshold: 2, low_threshold: 0 };
    contract.increment();
    assert_eq!(2, contract.get_num());
    contract.increment();
    assert_eq!(2, contract.get_num());
}

#[test]
fn decrement_is_idempotent_at_the_floor() {
    let mut contract = Counter { val: 3, top_threshold: 10, low_threshold: 3 };
    contract.decrement();
    assert_eq!(3, contract.get_num());
    contract.decrement();
    assert_eq!(3, contract.get_num());
}

#[test]
fn decrement_moves_down_above_the_floor() {
    let mut contract = Counter { val: 5, top_threshold: 10, low_threshold: 0 };
    contract.decrement();
    assert_eq!(4, contract.get_num());
}

#[test]
fn increment_is_a_noop_when_top_threshold_is_below_value() {
    let mut contract = Counter { val: 9, top_threshold: 4, low_threshold: 0 };
    contract.increment();
    assert_eq!(9, contract.get_num());
}

#[test]
fn increment_is_a_noop_when_top_threshold_is_negative() {
    let mut contract = Counter { val: 0, top_threshold: -7, low_threshold: -9 };
    contract.increment();
    assert_eq!(0, contract.get_num());
}

#[test]
fn inverted_thresholds_saturate_in_both_directions() {
    let mut contract = Counter { val: 3, top_threshold: 1, low_threshold: 5 };
    contract.increment();
    assert_eq!(3, contract.get_num());
    contract.decrement();
    assert_eq!(3, contract.get_num());
}

#[test]
fn threshold_updates_are_independent() {
    let mut contract = Counter::default();
    contract.update_top_threshold(7);
    assert_eq!(0, contract.low_threshold);
    assert_eq!(0, contract.get_num());
    contract.update_low_threshold(-2);
    assert_eq!(7, contract.top_threshold);
    assert_eq!(0, contract.get_num());
}
