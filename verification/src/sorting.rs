//! The stable order of a list of names.
//!
//! Sorting a list by name arranges its positions: the position that holds the smallest name
//! comes first, and positions with equal names stay in the order they had. This module says
//! which arrangement that is, shows that there is exactly one, and computes it.

use vstd::prelude::*;

use crate::text::{
    comes_first, lemma_precedes_asymmetric, lemma_precedes_irreflexive, lemma_precedes_total,
    lemma_precedes_transitive, precedes,
};

verus! {

/// Whether position `i` of `keys` is arranged before position `j`: its key comes first, or
/// the keys are equal and `i` is the earlier position.
pub open spec fn comes_before(keys: Seq<Seq<char>>, i: int, j: int) -> bool {
    precedes(keys[i], keys[j]) || (keys[i] == keys[j] && i < j)
}

/// Whether `order` arranges the positions of `keys` in ascending order of their keys, with
/// equal keys in the order in which they were given. `order[k]` is the position that is
/// placed `k`-th.
pub open spec fn is_stable_order(keys: Seq<Seq<char>>, order: Seq<int>) -> bool {
    &&& order.len() == keys.len()
    &&& forall|k: int| 0 <= k < order.len() ==> 0 <= #[trigger] order[k] < keys.len()
    &&& forall|i: int| 0 <= i < keys.len() ==> order.contains(i)
    &&& forall|j: int, k: int|
        0 <= j < k < order.len() ==> comes_before(keys, #[trigger] order[j], #[trigger] order[k])
}

/// The stable order of `keys`: the arrangement of its positions that [`is_stable_order`]
/// describes. There is one for every list of keys ([`lemma_stable_order_exists`]) and no
/// second one ([`lemma_stable_order_unique`]).
pub open spec fn stable_order(keys: Seq<Seq<char>>) -> Seq<int> {
    choose|order: Seq<int>| is_stable_order(keys, order)
}

/// Of two different positions one is arranged before the other, and never both ways.
pub proof fn lemma_comes_before_total(keys: Seq<Seq<char>>, i: int, j: int)
    ensures
        i == j || comes_before(keys, i, j) || comes_before(keys, j, i),
        !(comes_before(keys, i, j) && comes_before(keys, j, i)),
{
    lemma_precedes_total(keys[i], keys[j]);
    lemma_precedes_irreflexive(keys[i]);
    if precedes(keys[i], keys[j]) {
        lemma_precedes_asymmetric(keys[i], keys[j]);
    }
}

/// Placing the last position of `keys` into a stable order of the positions before it
/// gives a stable order of all positions, if it is placed behind every key that does not
/// come after its own, and in front of one that does.
pub proof fn lemma_insert_last(keys: Seq<Seq<char>>, order: Seq<int>, at: int)
    requires
        keys.len() > 0,
        is_stable_order(keys.drop_last(), order),
        0 <= at <= order.len(),
        forall|k: int| 0 <= k < at ==> !precedes(keys.last(), keys[#[trigger] order[k]]),
        at < order.len() ==> precedes(keys.last(), keys[order[at]]),
    ensures
        is_stable_order(keys, order.insert(at, keys.len() - 1)),
{
    let last = keys.len() - 1;
    let before = keys.drop_last();
    let placed = order.insert(at, last);
    assert forall|i: int| 0 <= i < keys.len() implies placed.contains(i) by {
        if i == last {
            assert(placed[at] == i);
        } else {
            assert(order.contains(i));
            let k = choose|k: int| 0 <= k < order.len() && order[k] == i;
            if k < at {
                assert(placed[k] == i);
            } else {
                assert(placed[k + 1] == i);
            }
        }
    }
    assert forall|j: int, k: int| 0 <= j < k < placed.len() implies comes_before(
        keys,
        #[trigger] placed[j],
        #[trigger] placed[k],
    ) by {
        if k == at {
            lemma_precedes_total(keys[order[j]], keys[last]);
        } else if j == at {
            let first_behind = order[at];
            let behind = order[k - 1];
            if at < k - 1 {
                assert(comes_before(before, first_behind, behind));
                if precedes(keys[first_behind], keys[behind]) {
                    lemma_precedes_transitive(keys[last], keys[first_behind], keys[behind]);
                }
            }
        } else {
            let j0 = if j < at { j } else { j - 1 };
            let k0 = if k < at { k } else { k - 1 };
            assert(comes_before(before, order[j0], order[k0]));
        }
    }
}

/// The first place in `order`, from `from` on, that holds a key which comes after the last
/// key of `keys`; the end of `order` if there is none.
proof fn lemma_place_of_last(keys: Seq<Seq<char>>, order: Seq<int>, from: int) -> (at: int)
    requires
        keys.len() > 0,
        0 <= from <= order.len(),
        forall|k: int| 0 <= k < from ==> !precedes(keys.last(), keys[#[trigger] order[k]]),
    ensures
        from <= at <= order.len(),
        forall|k: int| 0 <= k < at ==> !precedes(keys.last(), keys[#[trigger] order[k]]),
        at < order.len() ==> precedes(keys.last(), keys[order[at]]),
    decreases order.len() - from,
{
    if from < order.len() && !precedes(keys.last(), keys[order[from]]) {
        lemma_place_of_last(keys, order, from + 1)
    } else {
        from
    }
}

/// Every list of keys has a stable order.
pub proof fn lemma_stable_order_exists(keys: Seq<Seq<char>>)
    ensures
        is_stable_order(keys, stable_order(keys)),
    decreases keys.len(),
{
    if keys.len() == 0 {
        assert(is_stable_order(keys, Seq::<int>::empty()));
    } else {
        let before = keys.drop_last();
        lemma_stable_order_exists(before);
        let order = stable_order(before);
        let at = lemma_place_of_last(keys, order, 0);
        lemma_insert_last(keys, order, at);
        assert(is_stable_order(keys, order.insert(at, keys.len() - 1)));
    }
}

/// Two stable orders of the same keys agree on their first `upto` places.
proof fn lemma_stable_orders_agree(keys: Seq<Seq<char>>, a: Seq<int>, b: Seq<int>, upto: int)
    requires
        is_stable_order(keys, a),
        is_stable_order(keys, b),
        0 <= upto <= keys.len(),
    ensures
        forall|k: int| 0 <= k < upto ==> a[k] == b[k],
    decreases upto,
{
    if upto > 0 {
        let k = upto - 1;
        lemma_stable_orders_agree(keys, a, b, k);
        if a[k] != b[k] {
            lemma_comes_before_total(keys, a[k], b[k]);
            lemma_not_placed_earlier(keys, a, b, k);
            lemma_not_placed_earlier(keys, b, a, k);
        }
    }
}

/// If two stable orders agree before place `k`, the first does not hold at `k` a position
/// that is arranged before the one that the second holds there.
proof fn lemma_not_placed_earlier(keys: Seq<Seq<char>>, a: Seq<int>, b: Seq<int>, k: int)
    requires
        is_stable_order(keys, a),
        is_stable_order(keys, b),
        0 <= k < keys.len(),
        forall|j: int| 0 <= j < k ==> a[j] == b[j],
    ensures
        !comes_before(keys, a[k], b[k]),
{
    if comes_before(keys, a[k], b[k]) {
        let position = a[k];
        assert(b.contains(position));
        let j = choose|j: int| 0 <= j < b.len() && b[j] == position;
        lemma_comes_before_total(keys, position, position);
        lemma_comes_before_total(keys, a[k], b[k]);
        if j < k {
            assert(comes_before(keys, a[j], a[k]));
        } else if j > k {
            assert(comes_before(keys, b[k], b[j]));
        }
    }
}

/// A list of keys has only one stable order.
pub proof fn lemma_stable_order_unique(keys: Seq<Seq<char>>, a: Seq<int>, b: Seq<int>)
    requires
        is_stable_order(keys, a),
        is_stable_order(keys, b),
    ensures
        a == b,
{
    lemma_stable_orders_agree(keys, a, b, keys.len() as int);
    assert(a =~= b);
}

/// An arrangement that is a stable order of `keys` is the stable order of `keys`.
pub proof fn lemma_stable_order_is(keys: Seq<Seq<char>>, order: Seq<int>)
    requires
        is_stable_order(keys, order),
    ensures
        stable_order(keys) == order,
{
    lemma_stable_order_unique(keys, order, stable_order(keys));
}

/// The keys placed according to their stable order are in ascending order.
pub proof fn lemma_stable_order_ascends(keys: Seq<Seq<char>>, j: int, k: int)
    requires
        0 <= j <= k < keys.len(),
    ensures
        !precedes(keys[stable_order(keys)[k]], keys[stable_order(keys)[j]]),
{
    lemma_stable_order_exists(keys);
    let order = stable_order(keys);
    lemma_precedes_irreflexive(keys[order[k]]);
    if j < k {
        assert(comes_before(keys, order[j], order[k]));
        if precedes(keys[order[j]], keys[order[k]]) {
            lemma_precedes_asymmetric(keys[order[j]], keys[order[k]]);
        }
    }
}

/// Finds the place of position `last` among the earlier positions in `order`: behind every
/// key that does not come after its own, and in front of the first one that does.
fn place_of(keys: &Vec<Vec<char>>, order: &Vec<usize>, last: usize) -> (at: usize)
    requires
        last < keys@.len(),
        forall|k: int| 0 <= k < order@.len() ==> #[trigger] order@[k] < last,
    ensures
        at <= order@.len(),
        forall|k: int| 0 <= k < at ==> !precedes(keys@[last as int]@, keys@[#[trigger] order@[k] as int]@),
        at < order@.len() ==> precedes(keys@[last as int]@, keys@[order@[at as int] as int]@),
{
    let mut at: usize = 0;
    while at < order.len() && !comes_first(&keys[last], &keys[order[at]])
        invariant
            last < keys@.len(),
            forall|k: int| 0 <= k < order@.len() ==> #[trigger] order@[k] < last,
            at <= order@.len(),
            forall|k: int|
                0 <= k < at ==> !precedes(keys@[last as int]@, keys@[#[trigger] order@[k] as int]@),
        decreases order@.len() - at,
    {
        at += 1;
    }
    at
}

/// Computes the stable order of `keys`.
pub fn sort_order(keys: &Vec<Vec<char>>) -> (order: Vec<usize>)
    ensures
        order@.len() == keys@.len(),
        order@.map_values(|position: usize| position as int) == stable_order(keys.deep_view()),
        is_stable_order(keys.deep_view(), stable_order(keys.deep_view())),
{
    let ghost all = keys.deep_view();
    assert forall|i: int| 0 <= i < keys@.len() implies all[i] == (#[trigger] keys@[i])@ by {
        assert(keys@[i].deep_view() =~= keys@[i]@);
    }
    let mut order: Vec<usize> = Vec::new();
    assert(is_stable_order(all.take(0), order@.map_values(|position: usize| position as int)));
    for last in 0..keys.len()
        invariant
            all == keys.deep_view(),
            forall|i: int| 0 <= i < keys@.len() ==> all[i] == (#[trigger] keys@[i])@,
            order@.len() == last,
            is_stable_order(
                all.take(last as int),
                order@.map_values(|position: usize| position as int),
            ),
    {
        let ghost seen = all.take(last + 1);
        let ghost placed = order@.map_values(|position: usize| position as int);
        assert(seen.drop_last() =~= all.take(last as int));
        assert forall|k: int| 0 <= k < order@.len() implies #[trigger] order@[k] < last by {
            assert(0 <= placed[k] < last);
        }
        let at = place_of(keys, &order, last);
        proof {
            assert forall|k: int| 0 <= k < at implies !precedes(
                seen.last(),
                seen[#[trigger] placed[k]],
            ) by {
                assert(order@[k] < last);
            }
            lemma_insert_last(seen, placed, at as int);
        }
        order.insert(at, last);
        assert(order@.map_values(|position: usize| position as int) =~= placed.insert(
            at as int,
            last as int,
        ));
    }
    proof {
        assert(all.take(keys@.len() as int) =~= all);
        lemma_stable_order_exists(all);
        lemma_stable_order_unique(
            all,
            order@.map_values(|position: usize| position as int),
            stable_order(all),
        );
    }
    order
}

} // verus!
