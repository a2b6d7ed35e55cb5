//! The counter that the button tasks share. Every operation takes the counter
//! exclusively for its whole read-modify-write, so operations of different
//! tasks take effect one after another, in some order, and none is ever seen
//! half done.

use vstd::prelude::*;

verus! {

/// `v` brought into the range of `i32` the way two's-complement addition
/// wraps.
pub open spec fn wrap_i32(v: int) -> int {
    let r = v % 0x1_0000_0000;
    if r >= 0x8000_0000 {
        r - 0x1_0000_0000
    } else {
        r
    }
}

/// The algebraic sum of a sequence of deltas.
pub open spec fn total(deltas: Seq<int>) -> int
    decreases deltas.len(),
{
    if deltas.len() == 0 {
        0
    } else {
        total(deltas.drop_last()) + deltas.last()
    }
}

/// The counter's value after the deltas were added one by one, first to last,
/// starting from `start`.
pub open spec fn value_after(start: int, deltas: Seq<int>) -> int
    decreases deltas.len(),
{
    if deltas.len() == 0 {
        start
    } else {
        wrap_i32(value_after(start, deltas.drop_last()) + deltas.last())
    }
}

/// A signed counter that wraps at the bounds of `i32`.
pub struct SharedCounter {
    value: i32,
}

impl View for SharedCounter {
    type V = int;

    closed spec fn view(&self) -> int {
        self.value as int
    }
}

impl SharedCounter {
    /// A counter at zero.
    pub fn new() -> (counter: SharedCounter)
        ensures
            counter@ == 0,
    {
        SharedCounter { value: 0 }
    }

    /// Adds `delta` in one step and wraps at the bounds of `i32`.
    pub fn add(&mut self, delta: i32)
        ensures
            final(self)@ == wrap_i32(old(self)@ + delta),
    {
        self.value = self.value.wrapping_add(delta);
    }

    /// Adds one.
    pub fn increment(&mut self)
        ensures
            final(self)@ == wrap_i32(old(self)@ + 1),
    {
        self.add(1);
    }

    /// Subtracts one.
    pub fn decrement(&mut self)
        ensures
            final(self)@ == wrap_i32(old(self)@ - 1),
    {
        self.add(-1);
    }

    /// The current value.
    pub fn load(&self) -> (value: i32)
        ensures
            value == self@,
    {
        self.value
    }
}

proof fn lemma_total_without(deltas: Seq<int>, i: int)
    requires
        0 <= i < deltas.len(),
    ensures
        total(deltas) == total(deltas.remove(i)) + deltas[i],
    decreases deltas.len(),
{
    if i == deltas.len() - 1 {
        assert(deltas.remove(i) =~= deltas.drop_last());
    } else {
        lemma_total_without(deltas.drop_last(), i);
        assert(deltas.remove(i).drop_last() =~= deltas.drop_last().remove(i));
    }
}

/// The sum of two runs of deltas, one after the other, is the sum of their
/// sums.
pub proof fn lemma_total_of_concat(a: Seq<int>, b: Seq<int>)
    ensures
        total(a + b) == total(a) + total(b),
    decreases b.len(),
{
    if b.len() == 0 {
        assert(a + b =~= a);
    } else {
        lemma_total_of_concat(a, b.drop_last());
        assert((a + b).drop_last() =~= a + b.drop_last());
    }
}

/// The sum of the deltas does not depend on their order.
pub proof fn lemma_total_ignores_order(a: Seq<int>, b: Seq<int>)
    requires
        a.to_multiset() == b.to_multiset(),
    ensures
        total(a) == total(b),
    decreases a.len(),
{
    a.to_multiset_ensures();
    b.to_multiset_ensures();
    if a.len() > 0 {
        let x = a.last();
        let rest = a.drop_last();
        rest.to_multiset_ensures();
        assert(a =~= rest.push(x));
        assert(b.to_multiset().count(x) > 0);
        let i = choose|i: int| 0 <= i < b.len() && b[i] == x;
        assert(b.remove(i).to_multiset() =~= rest.to_multiset());
        lemma_total_ignores_order(rest, b.remove(i));
        lemma_total_without(b, i);
    }
}

/// Adding the deltas one by one gives the start value plus their sum, wrapped
/// once.
pub proof fn lemma_value_after_is_wrapped_total(start: int, deltas: Seq<int>)
    requires
        i32::MIN <= start <= i32::MAX,
    ensures
        value_after(start, deltas) == wrap_i32(start + total(deltas)),
    decreases deltas.len(),
{
    if deltas.len() > 0 {
        lemma_value_after_is_wrapped_total(start, deltas.drop_last());
    }
}

/// However the operations of several tasks interleave, the counter ends at
/// the start value plus the sum of all deltas: two orders of the same
/// operations end at the same value.
pub proof fn lemma_interleaving_is_irrelevant(start: int, a: Seq<int>, b: Seq<int>)
    requires
        i32::MIN <= start <= i32::MAX,
        a.to_multiset() == b.to_multiset(),
    ensures
        value_after(start, a) == value_after(start, b),
        value_after(start, a) == wrap_i32(start + total(a)),
{
    lemma_value_after_is_wrapped_total(start, a);
    lemma_value_after_is_wrapped_total(start, b);
    lemma_total_ignores_order(a, b);
}

} // verus!
