//! Stable ordering of the items of a panel. The panels order their lines by
//! different keys; what they share is stated once here: the order is a
//! rearrangement of the items in which no item stands behind one that must
//! come after it, and items that tie keep the order they came in.

use vstd::prelude::*;
use vstd::seq_lib::seq_to_set_is_finite;
use vstd::set_lib::{lemma_int_range, lemma_subset_equality, set_int_range};

verus! {

/// A collection of numbered items with a rule that says which item must
/// stand before which.
pub trait Precedence {
    /// The number of items; they are numbered from zero.
    spec fn count(&self) -> nat;

    /// Whether item `i` must stand before item `j`.
    spec fn before(&self, i: int, j: int) -> bool;

    fn len(&self) -> (n: usize)
        ensures
            n == self.count(),
    ;

    fn is_before(&self, i: usize, j: usize) -> (yes: bool)
        requires
            i < self.count(),
            j < self.count(),
        ensures
            yes == self.before(i as int, j as int),
    ;

    /// The rule never puts two items before each other, and where it puts
    /// neither `i` before `j` nor `j` before `k`, it does not put `i`
    /// before `k`.
    proof fn lemma_rule_is_consistent(&self, i: int, j: int, k: int)
        requires
            0 <= i < self.count(),
            0 <= j < self.count(),
            0 <= k < self.count(),
        ensures
            !(self.before(i, j) && self.before(j, i)),
            !self.before(i, j) && !self.before(j, k) ==> !self.before(i, k),
    ;
}

/// Whether `order` lists the items `0` to `count - 1`, each once, so that
/// no item stands behind one that it must stand before, and so that of two
/// items neither of which must stand before the other the one with the
/// smaller number stands first. `before` says which item must stand before
/// which.
pub open spec fn is_stable_order(
    order: Seq<usize>,
    count: nat,
    before: spec_fn(int, int) -> bool,
) -> bool {
    &&& order.len() == count
    &&& forall|i: int| 0 <= i < order.len() ==> (#[trigger] order[i]) < count
    &&& forall|i: int, j: int|
        0 <= i < j < order.len() ==> (#[trigger] order[i]) != (#[trigger] order[j])
    &&& forall|i: int, j: int|
        0 <= i < j < order.len() ==> !before(
            (#[trigger] order[j]) as int,
            (#[trigger] order[i]) as int,
        )
    &&& forall|i: int, j: int|
        0 <= i < j < order.len() && !before(
            (#[trigger] order[i]) as int,
            (#[trigger] order[j]) as int,
        ) ==> order[i] < order[j]
}

/// An order under one rule is an order under every rule that agrees with
/// it on the items that are there.
pub proof fn lemma_rules_that_agree(
    order: Seq<usize>,
    count: nat,
    first: spec_fn(int, int) -> bool,
    second: spec_fn(int, int) -> bool,
)
    requires
        is_stable_order(order, count, first),
        forall|i: int, j: int|
            0 <= i < count && 0 <= j < count ==> #[trigger] first(i, j) == second(i, j),
    ensures
        is_stable_order(order, count, second),
{
    assert forall|i: int, j: int| 0 <= i < j < order.len() implies {
        &&& !second((#[trigger] order[j]) as int, (#[trigger] order[i]) as int)
        &&& (!second(order[i] as int, order[j] as int) ==> order[i] < order[j])
    } by {
        assert(order[i] < count && order[j] < count);
        assert(first(order[j] as int, order[i] as int) == second(order[j] as int, order[i] as int));
        assert(first(order[i] as int, order[j] as int) == second(order[i] as int, order[j] as int));
    }
}

/// An order lists every item.
pub proof fn lemma_order_lists_every_item(
    order: Seq<usize>,
    count: nat,
    before: spec_fn(int, int) -> bool,
    item: int,
)
    requires
        is_stable_order(order, count, before),
        0 <= item < count,
    ensures
        exists|at: int| 0 <= at < order.len() && #[trigger] order[at] == item,
{
    let numbers = order.map_values(|v: usize| v as int);
    assert forall|i: int, j: int|
        0 <= i < numbers.len() && 0 <= j < numbers.len() && i != j implies numbers[i]
        != numbers[j] by {
        if i < j {
            assert(order[i] != order[j]);
        } else {
            assert(order[j] != order[i]);
        }
    }
    numbers.unique_seq_to_set();
    seq_to_set_is_finite(numbers);
    lemma_int_range(0, count as int);
    assert forall|n: int| numbers.to_set().contains(n) implies set_int_range(
        0,
        count as int,
    ).contains(n) by {
        let at = choose|at: int| 0 <= at < numbers.len() && numbers[at] == n;
        assert(order[at] < count);
    }
    lemma_subset_equality(numbers.to_set(), set_int_range(0, count as int));
    assert(set_int_range(0, count as int).contains(item));
    assert(numbers.contains(item));
    let at = choose|at: int| 0 <= at < numbers.len() && numbers[at] == item;
    assert(order[at] == item);
}

/// Two orders of the same items under the same rule agree in their first
/// `upto` places.
proof fn lemma_orders_agree_upto(
    first: Seq<usize>,
    second: Seq<usize>,
    count: nat,
    before: spec_fn(int, int) -> bool,
    upto: nat,
)
    requires
        is_stable_order(first, count, before),
        is_stable_order(second, count, before),
        upto <= count,
    ensures
        forall|at: int| 0 <= at < upto ==> first[at] == second[at],
    decreases upto,
{
    if upto > 0 {
        lemma_orders_agree_upto(first, second, count, before, (upto - 1) as nat);
        let here = upto - 1;
        let x = first[here];
        let y = second[here];
        assert(x < count);
        assert(y < count);
        if x != y {
            lemma_order_lists_every_item(second, count, before, x as int);
            let q = choose|q: int| 0 <= q < second.len() && #[trigger] second[q] == x as int;
            lemma_order_lists_every_item(first, count, before, y as int);
            let r = choose|r: int| 0 <= r < first.len() && #[trigger] first[r] == y as int;
            if q < here {
                assert(first[q] == second[q]);
                assert(first[q] != first[here]);
            }
            if r < here {
                assert(first[r] == second[r]);
                assert(second[r] != second[here]);
            }
            assert(here < q && here < r);
            assert(!before(second[q] as int, second[here] as int));
            assert(!before(first[r] as int, first[here] as int));
            assert(second[here] < second[q]);
            assert(first[here] < first[r]);
        }
    }
}

/// The items have no more than one order under a rule.
pub proof fn lemma_stable_order_is_unique(
    first: Seq<usize>,
    second: Seq<usize>,
    count: nat,
    before: spec_fn(int, int) -> bool,
)
    requires
        is_stable_order(first, count, before),
        is_stable_order(second, count, before),
    ensures
        first == second,
{
    lemma_orders_agree_upto(first, second, count, before, count);
    assert(first =~= second);
}

/// The order of the items `0` to `count - 1` under the rule `before`.
pub open spec fn stable_order_of(count: nat, before: spec_fn(int, int) -> bool) -> Seq<usize> {
    choose|order: Seq<usize>| is_stable_order(order, count, before)
}

/// Whatever lists the items in order is the order of the items.
pub proof fn lemma_stable_order_is_the_order(
    order: Seq<usize>,
    count: nat,
    before: spec_fn(int, int) -> bool,
)
    requires
        is_stable_order(order, count, before),
    ensures
        order == stable_order_of(count, before),
{
    lemma_stable_order_is_unique(order, stable_order_of(count, before), count, before);
}

/// Orders the items by their rule, keeping ties in the order they came in.
pub fn stable_order<P: Precedence>(items: &P) -> (order: Vec<usize>)
    ensures
        is_stable_order(order@, items.count(), |i: int, j: int| items.before(i, j)),
        order@ == stable_order_of(items.count(), |i: int, j: int| items.before(i, j)),
{
    let n = items.len();
    let ghost rule = |i: int, j: int| items.before(i, j);
    let mut order: Vec<usize> = Vec::new();
    let mut next: usize = 0;
    while next < n
        invariant
            next <= n,
            n == items.count(),
            is_stable_order(order@, next as nat, rule),
            rule == |i: int, j: int| items.before(i, j),
        decreases n - next,
    {
        let mut at: usize = order.len();
        while at > 0 && items.is_before(next, order[at - 1])
            invariant
                at <= order@.len(),
                next < n,
                n == items.count(),
                is_stable_order(order@, next as nat, rule),
                rule == |i: int, j: int| items.before(i, j),
                forall|k: int|
                    at <= k < order@.len() ==> items.before(
                        next as int,
                        (#[trigger] order@[k]) as int,
                    ),
            decreases at,
        {
            at = at - 1;
        }
        let ghost old_order = order@;
        order.insert(at, next);
        proof {
            let new_order = order@;
            assert(new_order == old_order.insert(at as int, next));
            assert forall|i: int| 0 <= i < new_order.len() implies (#[trigger] new_order[i]) < next
                + 1 by {
                if i < at {
                    assert(new_order[i] == old_order[i]);
                } else if i > at {
                    assert(new_order[i] == old_order[i - 1]);
                }
            }
            assert forall|i: int, j: int| 0 <= i < j < new_order.len() implies {
                &&& (#[trigger] new_order[i]) != (#[trigger] new_order[j])
                &&& !items.before(new_order[j] as int, new_order[i] as int)
                &&& (!items.before(new_order[i] as int, new_order[j] as int) ==> new_order[i]
                    < new_order[j])
            } by {
                if j < at {
                    assert(new_order[i] == old_order[i]);
                    assert(new_order[j] == old_order[j]);
                } else if j == at {
                    assert(new_order[i] == old_order[i]);
                    assert(new_order[j] == next);
                    let last = old_order[at - 1];
                    assert(!items.before(next as int, last as int));
                    if i < at - 1 {
                        assert(!items.before(last as int, old_order[i] as int));
                        items.lemma_rule_is_consistent(next as int, last as int, old_order[i] as int);
                    }
                } else if i < at {
                    assert(new_order[i] == old_order[i]);
                    assert(new_order[j] == old_order[j - 1]);
                } else if i == at {
                    assert(new_order[i] == next);
                    assert(new_order[j] == old_order[j - 1]);
                    assert(items.before(next as int, old_order[j - 1] as int));
                    items.lemma_rule_is_consistent(next as int, old_order[j - 1] as int, next as int);
                } else {
                    assert(new_order[i] == old_order[i - 1]);
                    assert(new_order[j] == old_order[j - 1]);
                }
            }
        }
        next = next + 1;
    }
    proof {
        lemma_stable_order_is_the_order(order@, items.count(), rule);
    }
    order
}

} // verus!
