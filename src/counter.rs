//! The counter resource: one `i32` that saturates at the type's bounds.
use vstd::prelude::*;

verus! {

/// One operation on the counter.
#[derive(Clone, Copy, Debug, PartialEq, Eq)]
pub enum CounterOp {
    Increment,
    Decrement,
    Read,
}

/// The value that `op` leaves behind when applied to `v`: increments stop at
/// `i32::MAX`, decrements at `i32::MIN`, and a read changes nothing.
pub open spec fn step(v: int, op: CounterOp) -> int {
    match op {
        CounterOp::Increment => if v >= i32::MAX { i32::MAX as int } else { v + 1 },
        CounterOp::Decrement => if v <= i32::MIN { i32::MIN as int } else { v - 1 },
        CounterOp::Read => v,
    }
}

/// The value after applying `ops` one after the other, starting from `v`.
pub open spec fn run(v: int, ops: Seq<CounterOp>) -> int
    decreases ops.len(),
{
    if ops.len() == 0 {
        v
    } else {
        step(run(v, ops.drop_last()), ops.last())
    }
}

/// The counter. Its view is the value it holds.
pub struct Counter {
    value: i32,
}

impl View for Counter {
    type V = int;

    closed spec fn view(&self) -> int {
        self.value as int
    }
}

impl Counter {
    /// A counter that starts at zero.
    pub fn new() -> (r: Counter)
        ensures
            r@ == 0,
    {
        Counter { value: 0 }
    }

    /// The value a counter holds always fits in an `i32`.
    pub proof fn lemma_in_range(&self)
        ensures
            i32::MIN <= self@ <= i32::MAX,
    {
    }

    /// A counter that starts at `value`.
    pub fn starting_at(value: i32) -> (r: Counter)
        ensures
            r@ == value,
    {
        Counter { value }
    }

    /// Adds one, saturating at `i32::MAX`, and returns the new value.
    pub fn increment(&mut self) -> (r: i32)
        ensures
            final(self)@ == step(old(self)@, CounterOp::Increment),
            r as int == final(self)@,
    {
        if self.value < i32::MAX {
            self.value = self.value + 1;
        }
        self.value
    }

    /// Subtracts one, saturating at `i32::MIN`, and returns the new value.
    pub fn decrement(&mut self) -> (r: i32)
        ensures
            final(self)@ == step(old(self)@, CounterOp::Decrement),
            r as int == final(self)@,
    {
        if self.value > i32::MIN {
            self.value = self.value - 1;
        }
        self.value
    }

    /// The current value; the counter is left as it is.
    pub fn read(&self) -> (r: i32)
        ensures
            r as int == self@,
    {
        self.value
    }

    /// Performs `op` and returns the value that follows it.
    pub fn apply(&mut self, op: CounterOp) -> (r: i32)
        ensures
            final(self)@ == step(old(self)@, op),
            r as int == final(self)@,
    {
        match op {
            CounterOp::Increment => self.increment(),
            CounterOp::Decrement => self.decrement(),
            CounterOp::Read => self.read(),
        }
    }
}

/// How many times `op` occurs in `ops`, whatever their order.
pub open spec fn times(ops: Seq<CounterOp>, op: CounterOp) -> nat {
    ops.to_multiset().count(op)
}

/// `n` copies of `op`.
pub open spec fn repeat(op: CounterOp, n: nat) -> Seq<CounterOp> {
    Seq::new(n, |i: int| op)
}

proof fn lemma_times_push(ops: Seq<CounterOp>, a: CounterOp, op: CounterOp)
    ensures
        times(ops.push(a), op) == times(ops, op) + if a == op { 1nat } else { 0nat },
{
    broadcast use vstd::seq_lib::group_to_multiset_ensures, vstd::multiset::group_multiset_axioms;

}

proof fn lemma_times_empty(ops: Seq<CounterOp>, op: CounterOp)
    requires
        ops.len() == 0,
    ensures
        times(ops, op) == 0,
{
    broadcast use vstd::seq_lib::group_to_multiset_ensures;

    assert(!ops.contains(op));
}

/// From zero, any sequence of operations ends at the number of increments
/// minus the number of decrements, in whatever order they come, provided the
/// increments alone cannot pass `i32::MAX` and the decrements alone cannot
/// pass `i32::MIN`: no interleaving of them then meets a bound.
pub proof fn lemma_any_order_from_zero(ops: Seq<CounterOp>)
    requires
        times(ops, CounterOp::Increment) <= i32::MAX,
        times(ops, CounterOp::Decrement) <= -(i32::MIN as int),
    ensures
        run(0, ops) == times(ops, CounterOp::Increment) - times(ops, CounterOp::Decrement),
    decreases ops.len(),
{
    if ops.len() == 0 {
        lemma_times_empty(ops, CounterOp::Increment);
        lemma_times_empty(ops, CounterOp::Decrement);
    } else {
        let prefix = ops.drop_last();
        assert(ops =~= prefix.push(ops.last()));
        lemma_times_push(prefix, ops.last(), CounterOp::Increment);
        lemma_times_push(prefix, ops.last(), CounterOp::Decrement);
        lemma_any_order_from_zero(prefix);
    }
}

/// Two orders of the same operations take a counter from zero to the same
/// value, under the bounds of `lemma_any_order_from_zero`.
pub proof fn lemma_order_irrelevant(a: Seq<CounterOp>, b: Seq<CounterOp>)
    requires
        a.to_multiset() == b.to_multiset(),
        times(a, CounterOp::Increment) <= i32::MAX,
        times(a, CounterOp::Decrement) <= -(i32::MIN as int),
    ensures
        run(0, a) == run(0, b),
{
    lemma_any_order_from_zero(a);
    lemma_any_order_from_zero(b);
}

/// A read right after increments and decrements of a counter at zero, in
/// any order and with no other calls between, gives the number of increments
/// minus the number of decrements, under the bounds of
/// `lemma_any_order_from_zero`.
pub proof fn lemma_read_after_updates(ops: Seq<CounterOp>)
    requires
        times(ops, CounterOp::Increment) <= i32::MAX,
        times(ops, CounterOp::Decrement) <= -(i32::MIN as int),
    ensures
        run(0, ops.push(CounterOp::Read)) == times(ops, CounterOp::Increment) - times(
            ops,
            CounterOp::Decrement,
        ),
{
    lemma_any_order_from_zero(ops);
    assert(ops.push(CounterOp::Read).drop_last() =~= ops);
}

/// Reads leave the value alone: after any number of them in a row, each of
/// which returns the value it finds, the value is still `v`.
pub proof fn lemma_reads_keep_value(v: int, k: nat)
    ensures
        run(v, repeat(CounterOp::Read, k)) == v,
    decreases k,
{
    if k > 0 {
        assert(repeat(CounterOp::Read, k).drop_last() =~= repeat(CounterOp::Read, (k - 1) as nat));
        lemma_reads_keep_value(v, (k - 1) as nat);
    }
}

} // verus!
