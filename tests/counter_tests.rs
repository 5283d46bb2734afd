use counter_service::counter::{Counter, CounterOp};
use counter_service::counter::CounterOp::{Decrement, Increment};

fn run_ops(ops: &[CounterOp]) -> i32 {
    let mut c = Counter::new();
    for op in ops {
        c.apply(*op);
    }
    c.read()
}

#[test]
fn fresh_counter_reads_zero() {
    let c = Counter::new();
    assert_eq!(c.read(), 0);
}

#[test]
fn increment_and_decrement_return_new_value() {
    let mut c = Counter::new();
    assert_eq!(c.increment(), 1);
    assert_eq!(c.increment(), 2);
    assert_eq!(c.decrement(), 1);
    assert_eq!(c.decrement(), 0);
    assert_eq!(c.decrement(), -1);
    assert_eq!(c.read(), -1);
}

#[test]
fn every_order_of_the_same_calls_ends_alike() {
    let orders: [[CounterOp; 5]; 4] = [
        [Increment, Increment, Increment, Decrement, Decrement],
        [Decrement, Decrement, Increment, Increment, Increment],
        [Increment, Decrement, Increment, Decrement, Increment],
        [Decrement, Increment, Increment, Decrement, Increment],
    ];
    for order in orders.iter() {
        assert_eq!(run_ops(order), 1);
    }
}

#[test]
fn read_after_n_increments_and_m_decrements() {
    let mut c = Counter::new();
    for _ in 0..7 {
        c.increment();
    }
    for _ in 0..10 {
        c.decrement();
    }
    assert_eq!(c.read(), -3);
}

#[test]
fn repeated_reads_agree() {
    let mut c = Counter::new();
    c.increment();
    c.increment();
    let first = c.read();
    assert_eq!(first, 2);
    for _ in 0..5 {
        assert_eq!(c.read(), first);
        assert_eq!(c.apply(CounterOp::Read), first);
    }
}

#[test]
fn increment_saturates_at_max() {
    let mut c = Counter::starting_at(i32::MAX - 1);
    assert_eq!(c.increment(), i32::MAX);
    assert_eq!(c.increment(), i32::MAX);
    assert_eq!(c.read(), i32::MAX);
    assert_eq!(c.decrement(), i32::MAX - 1);
}

#[test]
fn decrement_saturates_at_min() {
    let mut c = Counter::starting_at(i32::MIN + 1);
    assert_eq!(c.decrement(), i32::MIN);
    assert_eq!(c.decrement(), i32::MIN);
    assert_eq!(c.increment(), i32::MIN + 1);
}

#[test]
fn apply_maps_each_operation() {
    let mut c = Counter::starting_at(10);
    assert_eq!(c.apply(CounterOp::Increment), 11);
    assert_eq!(c.apply(CounterOp::Decrement), 10);
    assert_eq!(c.apply(CounterOp::Read), 10);
}
