//! Stable sorting by integer keys.

use vstd::prelude::*;

verus! {

/// The position `a` comes before the position `b` in a stable order by key: its key is smaller,
/// or the keys are the same and `a` is the earlier position.
pub open spec fn comes_before(keys: Seq<i128>, a: int, b: int) -> bool {
    keys[a] < keys[b] || (keys[a] == keys[b] && a < b)
}

/// The positions of the keys, arranged so that the keys ascend and equal keys keep their order.
pub open spec fn is_stable_order(keys: Seq<i128>, order: Seq<usize>) -> bool {
    &&& order.len() == keys.len()
    &&& forall|i: int| 0 <= i < order.len() ==> #[trigger] order[i] < keys.len()
    &&& forall|i: int, j: int|
        0 <= i < j < order.len() ==> #[trigger] comes_before(
            keys,
            order[i] as int,
            order[j] as int,
        )
}

/// A sequence rearranged.
pub open spec fn arranged<T>(items: Seq<T>, order: Seq<usize>) -> Seq<T> {
    order.map_values(|i: usize| items[i as int])
}

/// Arranges the positions of the keys in a stable order.
pub fn stable_order(keys: &Vec<i128>) -> (order: Vec<usize>)
    ensures
        is_stable_order(keys@, order@),
{
    let mut order: Vec<usize> = Vec::new();
    let mut next: usize = 0;
    while next < keys.len()
        invariant
            next <= keys@.len(),
            order@.len() == next,
            forall|i: int| 0 <= i < next ==> #[trigger] order@[i] < next,
            forall|i: int, j: int|
                0 <= i < j < next ==> #[trigger] comes_before(
                    keys@,
                    order@[i] as int,
                    order@[j] as int,
                ),
        decreases keys@.len() - next,
    {
        let mut place: usize = next;
        while place > 0 && keys[order[place - 1]] > keys[next]
            invariant
                place <= next,
                next < keys@.len(),
                order@.len() == next,
                forall|i: int| 0 <= i < next ==> #[trigger] order@[i] < next,
                forall|i: int|
                    place <= i < next ==> keys@[#[trigger] order@[i] as int] > keys@[next as int],
            decreases place,
        {
            place = place - 1;
        }
        let ghost before = order@;
        proof {
            assert forall|i: int| 0 <= i < place implies comes_before(
                keys@,
                before[i] as int,
                next as int,
            ) by {
                let last = before[place - 1] as int;
                if i < place - 1 {
                    assert(comes_before(keys@, before[i] as int, last));
                }
            }
        }
        order.insert(place, next);
        proof {
            assert(order@ == before.insert(place as int, next));
            assert forall|i: int, j: int| 0 <= i < j < next + 1 implies #[trigger] comes_before(
                keys@,
                order@[i] as int,
                order@[j] as int,
            ) by {
                let from = if i < place { i } else { i - 1 };
                let to = if j < place { j } else { j - 1 };
                if i != place && j != place {
                    assert(comes_before(keys@, before[from] as int, before[to] as int));
                }
            }
        }
        next = next + 1;
    }
    order
}

proof fn lemma_stable_order_distinct(keys: Seq<i128>, order: Seq<usize>)
    requires
        is_stable_order(keys, order),
    ensures
        order.no_duplicates(),
{
    assert forall|i: int, j: int|
        0 <= i < order.len() && 0 <= j < order.len() && i != j implies order[i] != order[j] by {
        if i < j {
            assert(comes_before(keys, order[i] as int, order[j] as int));
        } else {
            assert(comes_before(keys, order[j] as int, order[i] as int));
        }
    }
}

/// A stable order leaves no position out.
pub proof fn lemma_stable_order_complete(keys: Seq<i128>, order: Seq<usize>, position: int)
    requires
        is_stable_order(keys, order),
        0 <= position < keys.len(),
    ensures
        exists|i: int| 0 <= i < order.len() && #[trigger] order[i] == position,
{
    lemma_stable_order_distinct(keys, order);
    let positions = order.map_values(|i: usize| i as int);
    assert(positions.no_duplicates());
    let all = vstd::set_lib::set_int_range(0, keys.len() as int);
    vstd::set_lib::lemma_int_range(0, keys.len() as int);
    positions.unique_seq_to_set();
    assert(positions.to_set().subset_of(all)) by {
        assert forall|p: int| positions.to_set().contains(p) implies all.contains(p) by {
            let i = choose|i: int| 0 <= i < positions.len() && positions[i] == p;
            assert(order[i] < keys.len());
        }
    }
    vstd::set_lib::lemma_subset_equality(positions.to_set(), all);
    assert(positions.to_set().contains(position));
    let i = choose|i: int| 0 <= i < positions.len() && positions[i] == position;
    assert(order[i] == position);
}

/// There is only one stable order.
pub proof fn lemma_stable_order_unique(keys: Seq<i128>, a: Seq<usize>, b: Seq<usize>)
    requires
        is_stable_order(keys, a),
        is_stable_order(keys, b),
    ensures
        a == b,
{
    assert forall|i: int| 0 <= i < a.len() implies a[i] == b[i] by {
        lemma_same_place(keys, a, b, i);
    }
    assert(a =~= b);
}

proof fn lemma_same_place(keys: Seq<i128>, a: Seq<usize>, b: Seq<usize>, i: int)
    requires
        is_stable_order(keys, a),
        is_stable_order(keys, b),
        0 <= i < a.len(),
    ensures
        a[i] == b[i],
    decreases i,
{
    assert forall|j: int| 0 <= j < i implies a[j] == b[j] by {
        lemma_same_place(keys, a, b, j);
    }
    lemma_stable_order_complete(keys, b, a[i] as int);
    lemma_stable_order_complete(keys, a, b[i] as int);
    let p = choose|p: int| 0 <= p < b.len() && b[p] == a[i];
    let q = choose|q: int| 0 <= q < a.len() && a[q] == b[i];
    if p < i {
        assert(comes_before(keys, a[p] as int, a[i] as int));
    }
    if q < i {
        assert(comes_before(keys, b[q] as int, b[i] as int));
    }
    if p > i && q > i {
        assert(comes_before(keys, b[i] as int, b[p] as int));
        assert(comes_before(keys, a[i] as int, a[q] as int));
    }
}

/// Arranging items in a stable order keeps each of them.
pub proof fn lemma_arranged_multiset<T>(keys: Seq<i128>, order: Seq<usize>, items: Seq<T>)
    requires
        is_stable_order(keys, order),
        items.len() == keys.len(),
    ensures
        arranged(items, order).to_multiset() == items.to_multiset(),
{
    let positions = order.map_values(|i: usize| i as int);
    lemma_stable_order_distinct(keys, order);
    assert forall|p: int| 0 <= p < items.len() implies positions.contains(p) by {
        lemma_stable_order_complete(keys, order, p);
        let i = choose|i: int| 0 <= i < order.len() && #[trigger] order[i] == p;
        assert(positions[i] == p);
    }
    lemma_permuted_multiset(items, positions);
    assert(arranged(items, order) =~= positions.map_values(|p: int| items[p]));
}

proof fn lemma_permuted_multiset<T>(items: Seq<T>, positions: Seq<int>)
    requires
        positions.len() == items.len(),
        positions.no_duplicates(),
        forall|i: int| 0 <= i < positions.len() ==> 0 <= #[trigger] positions[i] < items.len(),
        forall|p: int| 0 <= p < items.len() ==> #[trigger] positions.contains(p),
    ensures
        positions.map_values(|p: int| items[p]).to_multiset() == items.to_multiset(),
    decreases items.len(),
{
    let f = |p: int| items[p];
    if items.len() == 0 {
        assert(positions.map_values(f) =~= items);
    } else {
        let last = items.len() - 1;
        assert(positions.contains(last));
        let i = choose|i: int| 0 <= i < positions.len() && positions[i] == last;
        let fewer = positions.remove(i);
        let rest = items.drop_last();
        let g = |p: int| rest[p];
        assert forall|p: int| 0 <= p < rest.len() implies #[trigger] fewer.contains(p) by {
            assert(positions.contains(p));
            let k = choose|k: int| 0 <= k < positions.len() && positions[k] == p;
            assert(fewer[if k < i {
                k
            } else {
                k - 1
            }] == p);
        }
        lemma_permuted_multiset(rest, fewer);
        assert(fewer.map_values(f) =~= fewer.map_values(g));
        vstd::seq_lib::to_multiset_remove(positions.map_values(f), i);
        assert(positions.map_values(f).remove(i) =~= fewer.map_values(f));
        vstd::seq_lib::to_multiset_remove(items, last);
        assert(items.remove(last) =~= rest);
        let with = positions.map_values(f).to_multiset();
        let all = items.to_multiset();
        let item = items[last];
        assert(positions.map_values(f)[i] == item);
        broadcast use vstd::seq_lib::group_to_multiset_ensures;

        assert(with.contains(item));
        assert(all.contains(item));
        assert(with =~= with.remove(item).insert(item));
        assert(all =~= all.remove(item).insert(item));
    }
}

/// In a stable order the keys never descend, and of two that are the same the one that stood first
/// comes first.
pub proof fn lemma_stable_order_ascends(keys: Seq<i128>, order: Seq<usize>, i: int, j: int)
    requires
        is_stable_order(keys, order),
        0 <= i < j < order.len(),
    ensures
        order.len() == keys.len(),
        keys[order[i] as int] <= keys[order[j] as int],
        keys[order[i] as int] == keys[order[j] as int] ==> order[i] < order[j],
{
    assert(comes_before(keys, order[i] as int, order[j] as int));
}

/// What is rearranged by an order has at each place what stood where the order says.
pub proof fn lemma_arranged<T>(items: Seq<T>, order: Seq<usize>, i: int)
    requires
        0 <= i < order.len(),
    ensures
        arranged(items, order).len() == order.len(),
        arranged(items, order)[i] == items[order[i] as int],
{
}

} // verus!
