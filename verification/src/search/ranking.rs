//! Ranking keys: the value by which a top-K pass orders documents when a
//! search sorts by something other than the engine's own score.
//!
//! A top-K pass keeps the documents whose keys compare greatest. A key made
//! for descending order compares like its number; one made for ascending
//! order compares the other way round, so that the same pass keeps the
//! smallest numbers first.

use core::cmp::Ordering;
use vstd::prelude::*;
use vstd::std_specs::cmp::{PartialEqSpecImpl, PartialOrdSpecImpl};

verus! {

/// The direction of a sort.
#[derive(Debug, Copy, Clone)]
pub enum Order {
    /// Greatest first.
    Desc,
    /// Smallest first.
    Asc,
}

impl Default for Order {
    fn default() -> (order: Self)
        ensures
            order == Order::Desc,
    {
        Order::Desc
    }
}

impl Order {
    /// Whether two directions are the same.
    pub fn same(self, other: Order) -> (same: bool)
        ensures
            same == (self == other),
    {
        match (self, other) {
            (Order::Desc, Order::Desc) => true,
            (Order::Asc, Order::Asc) => true,
            _ => false,
        }
    }
}

/// A number to rank by, together with the direction of the sort.
#[derive(Debug, Copy, Clone)]
pub struct RankKey {
    pub number: i128,
    pub order: Order,
}

/// How two numbers compare.
pub open spec fn compare_numbers(a: i128, b: i128) -> Ordering {
    if a < b {
        Ordering::Less
    } else if a == b {
        Ordering::Equal
    } else {
        Ordering::Greater
    }
}

/// How two keys compare: not at all when their directions differ; like
/// their numbers when descending; like their numbers the other way round
/// when ascending.
pub open spec fn compare_keys(a: RankKey, b: RankKey) -> Option<Ordering> {
    if a.order != b.order {
        None
    } else {
        match a.order {
            Order::Desc => Some(compare_numbers(a.number, b.number)),
            Order::Asc => Some(compare_numbers(b.number, a.number)),
        }
    }
}

/// Compares two numbers.
fn number_order(a: i128, b: i128) -> (order: Ordering)
    ensures
        order == compare_numbers(a, b),
{
    if a < b {
        Ordering::Less
    } else if a == b {
        Ordering::Equal
    } else {
        Ordering::Greater
    }
}

impl PartialEq for RankKey {
    fn eq(&self, other: &Self) -> (equal: bool) {
        self.number == other.number && self.order.same(other.order)
    }
}

impl PartialEqSpecImpl for RankKey {
    open spec fn obeys_eq_spec() -> bool {
        true
    }

    open spec fn eq_spec(&self, other: &Self) -> bool {
        self.number == other.number && self.order == other.order
    }
}

impl PartialOrd for RankKey {
    fn partial_cmp(&self, other: &Self) -> (order: Option<Ordering>) {
        if !self.order.same(other.order) {
            None
        } else {
            match self.order {
                Order::Desc => Some(number_order(self.number, other.number)),
                Order::Asc => Some(number_order(other.number, self.number)),
            }
        }
    }
}

impl PartialOrdSpecImpl for RankKey {
    open spec fn obeys_partial_cmp_spec() -> bool {
        true
    }

    open spec fn partial_cmp_spec(&self, other: &Self) -> Option<Ordering> {
        compare_keys(*self, *other)
    }
}

impl RankKey {
    /// The key of a number under a direction.
    pub fn new(number: i128, order: Order) -> (key: Self)
        ensures
            key == (RankKey { number, order }),
    {
        match order {
            Order::Desc => RankKey::descending(number),
            Order::Asc => RankKey::ascending(number),
        }
    }

    /// The key of a number when the greatest come first.
    pub fn descending(number: i128) -> (key: Self)
        ensures
            key == (RankKey { number, order: Order::Desc }),
    {
        RankKey { number, order: Order::Desc }
    }

    /// The key of a number when the smallest come first.
    pub fn ascending(number: i128) -> (key: Self)
        ensures
            key == (RankKey { number, order: Order::Asc }),
    {
        RankKey { number, order: Order::Asc }
    }
}

/// The mirror image of an outcome.
pub open spec fn mirrored(outcome: Ordering) -> Ordering {
    match outcome {
        Ordering::Less => Ordering::Greater,
        Ordering::Equal => Ordering::Equal,
        Ordering::Greater => Ordering::Less,
    }
}

/// Turning a sort round mirrors every comparison: what two numbers give
/// under ascending order is what they give under descending order with
/// the two exchanged.
pub proof fn lemma_ascending_mirrors_descending(a: i128, b: i128)
    ensures
        compare_keys(
            RankKey { number: a, order: Order::Asc },
            RankKey { number: b, order: Order::Asc },
        ) == Some(
            mirrored(
                compare_keys(
                    RankKey { number: a, order: Order::Desc },
                    RankKey { number: b, order: Order::Desc },
                ).unwrap(),
            ),
        ),
        compare_keys(
            RankKey { number: a, order: Order::Asc },
            RankKey { number: b, order: Order::Asc },
        ) == compare_keys(
            RankKey { number: b, order: Order::Desc },
            RankKey { number: a, order: Order::Desc },
        ),
{
}

/// The keys of a run of numbers under one direction.
pub open spec fn keys_of(numbers: Seq<i128>, order: Order) -> Seq<RankKey> {
    Seq::new(numbers.len(), |i: int| RankKey { number: numbers[i], order })
}

/// Whether a run of keys is in the order in which a top-K pass hands its
/// findings out: no key compares less than one that comes after it.
pub open spec fn best_first(keys: Seq<RankKey>) -> bool {
    forall|i: int, j: int|
        0 <= i < j < keys.len() ==> (#[trigger] compare_keys(keys[i], keys[j])) matches Some(
            Ordering::Greater
            | Ordering::Equal,
        )
}

/// A run of numbers and its mirror image hold the same numbers, each
/// equally often.
pub proof fn lemma_mirror_holds_the_same(numbers: Seq<i128>)
    ensures
        numbers.reverse().to_multiset() == numbers.to_multiset(),
    decreases numbers.len(),
{
    broadcast use vstd::seq_lib::group_to_multiset_ensures;

    if numbers.len() > 0 {
        let rest = numbers.drop_last();
        let last = numbers.last();
        lemma_mirror_holds_the_same(rest);
        assert(numbers == rest.push(last));
        assert(numbers.reverse() =~= seq![last] + rest.reverse());
        vstd::seq_lib::lemma_multiset_commutative(seq![last], rest.reverse());
        assert(seq![last] =~= Seq::<i128>::empty().push(last));
        assert(numbers.reverse().to_multiset() =~= numbers.to_multiset());
    } else {
        assert(numbers.reverse() =~= numbers);
    }
}

/// Turning a sort round mirrors its outcome: where the same numbers are
/// handed out best first under descending order and under ascending
/// order, the one run is the mirror image of the other.
pub proof fn lemma_turned_sort_is_mirrored(descending: Seq<i128>, ascending: Seq<i128>)
    requires
        best_first(keys_of(descending, Order::Desc)),
        best_first(keys_of(ascending, Order::Asc)),
        descending.to_multiset() == ascending.to_multiset(),
    ensures
        ascending == descending.reverse(),
{
    let at_least = |a: i128, b: i128| a >= b;
    let mirrored_run = ascending.reverse();
    assert(vstd::relations::total_ordering(at_least));
    assert(vstd::relations::sorted_by(descending, at_least)) by {
        assert forall|i: int, j: int| 0 <= i < j < descending.len() implies #[trigger] at_least(
            descending[i],
            descending[j],
        ) by {
            let keys = keys_of(descending, Order::Desc);
            assert(compare_keys(keys[i], keys[j]) matches Some(
                Ordering::Greater
                | Ordering::Equal,
            ));
        }
    }
    assert(vstd::relations::sorted_by(mirrored_run, at_least)) by {
        assert forall|i: int, j: int| 0 <= i < j < mirrored_run.len() implies #[trigger] at_least(
            mirrored_run[i],
            mirrored_run[j],
        ) by {
            let keys = keys_of(ascending, Order::Asc);
            let p = ascending.len() - 1 - j;
            let q = ascending.len() - 1 - i;
            assert(compare_keys(keys[p], keys[q]) matches Some(
                Ordering::Greater
                | Ordering::Equal,
            ));
        }
    }
    lemma_mirror_holds_the_same(ascending);
    vstd::seq_lib::lemma_sorted_unique(descending, mirrored_run, at_least);
    assert(mirrored_run.reverse() =~= ascending);
    assert(descending.reverse() =~= ascending);
}

} // verus!
