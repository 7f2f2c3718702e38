//! The order in which three-dimensional things are painted: by depth, the
//! smallest first, things of one depth in the order they were given.

use vstd::prelude::*;
use crate::grid::Vec3;
use crate::render::Color;

verus! {

/// A thing to paint: where it stands and in what colour.
pub type Item = (Vec3, Color);

/// The depth of an item.
pub open spec fn depth(it: Item) -> int {
    it.0.2 as int
}

/// `s` with `it` put in behind the last item that is no deeper than `it`.
pub open spec fn insert_by_depth(s: Seq<Item>, it: Item) -> Seq<Item>
    decreases s.len(),
{
    if s.len() == 0 || depth(s.last()) <= depth(it) {
        s.push(it)
    } else {
        insert_by_depth(s.drop_last(), it).push(s.last())
    }
}

/// The items of `s` in painting order.
pub open spec fn paint_order(s: Seq<Item>) -> Seq<Item>
    decreases s.len(),
{
    if s.len() == 0 {
        s
    } else {
        insert_by_depth(paint_order(s.drop_last()), s.last())
    }
}

/// No item of `s` stands before one of smaller depth.
pub open spec fn by_depth(s: Seq<Item>) -> bool {
    forall|i: int, j: int| 0 <= i < j < s.len() ==> depth(s[i]) <= depth(s[j])
}

/// Where `insert_by_depth` puts an item: at the place `k` behind which every
/// item is deeper, and before which the nearest is not.
proof fn lemma_insert_place(s: Seq<Item>, it: Item, k: int)
    requires
        0 <= k <= s.len(),
        forall|j: int| k <= j < s.len() ==> depth(s[j]) > depth(it),
        k > 0 ==> depth(s[k - 1]) <= depth(it),
    ensures
        insert_by_depth(s, it) == s.insert(k, it),
    decreases s.len(),
{
    if s.len() == 0 || depth(s.last()) <= depth(it) {
        assert(k == s.len());
        assert(s.push(it) =~= s.insert(k, it));
    } else {
        assert(k < s.len());
        lemma_insert_place(s.drop_last(), it, k);
        assert(s.drop_last().insert(k, it).push(s.last()) =~= s.insert(k, it));
    }
}

/// Putting an item into a sequence in depth order leaves it in depth order,
/// one longer, and with the same items and the new one.
pub proof fn lemma_insert_by_depth(s: Seq<Item>, it: Item)
    requires
        by_depth(s),
    ensures
        by_depth(insert_by_depth(s, it)),
        insert_by_depth(s, it).len() == s.len() + 1,
        insert_by_depth(s, it).to_multiset() == s.to_multiset().insert(it),
    decreases s.len(),
{
    broadcast use vstd::seq_lib::group_to_multiset_ensures;

    let r = insert_by_depth(s, it);
    if s.len() == 0 || depth(s.last()) <= depth(it) {
        assert forall|i: int, j: int| 0 <= i < j < r.len() implies depth(r[i]) <= depth(r[j]) by {
            if j == s.len() {
                assert(depth(s[i]) <= depth(s.last()));
            }
        }
    } else {
        let front = s.drop_last();
        assert(by_depth(front));
        lemma_insert_by_depth(front, it);
        let mid = insert_by_depth(front, it);
        assert(s =~= front.push(s.last()));
        assert forall|a: int| 0 <= a < mid.len() implies depth(#[trigger] mid[a]) <= depth(s.last()) by {
            assert(mid.to_multiset().count(mid[a]) > 0);
            if mid[a] != it {
                assert(front.to_multiset().count(mid[a]) > 0);
                assert(front.contains(mid[a]));
                let b = choose|b: int| 0 <= b < front.len() && front[b] == mid[a];
                assert(depth(s[b]) <= depth(s[s.len() - 1]));
            }
        }
        assert forall|i: int, j: int| 0 <= i < j < r.len() implies depth(r[i]) <= depth(r[j]) by {
            if j < mid.len() {
                assert(r[i] == mid[i] && r[j] == mid[j]);
            } else {
                assert(r[i] == mid[i]);
            }
        }
        assert(r.to_multiset() =~= s.to_multiset().insert(it));
    }
}

/// The painting order runs from the smallest depth to the greatest, and
/// holds the items it was made of, each as often as it was given.
pub proof fn lemma_paint_order(s: Seq<Item>)
    ensures
        by_depth(paint_order(s)),
        paint_order(s).len() == s.len(),
        paint_order(s).to_multiset() == s.to_multiset(),
    decreases s.len(),
{
    broadcast use vstd::seq_lib::group_to_multiset_ensures;

    if s.len() > 0 {
        lemma_paint_order(s.drop_last());
        lemma_insert_by_depth(paint_order(s.drop_last()), s.last());
        assert(s =~= s.drop_last().push(s.last()));
    }
}

/// Items that are in depth order already are painted in the order given.
pub proof fn lemma_paint_order_keeps_sorted(s: Seq<Item>)
    requires
        by_depth(s),
    ensures
        paint_order(s) == s,
    decreases s.len(),
{
    if s.len() > 0 {
        let front = s.drop_last();
        assert(by_depth(front));
        lemma_paint_order_keeps_sorted(front);
        if front.len() > 0 {
            assert(depth(s[front.len() - 1]) <= depth(s[s.len() - 1]));
        }
        assert(front.push(s.last()) =~= s);
    }
}

/// Puts the items in painting order.
pub fn sort_by_depth(items: &Vec<Item>) -> (r: Vec<Item>)
    ensures
        r@ == paint_order(items@),
        by_depth(r@),
        r@.len() == items@.len(),
        r@.to_multiset() == items@.to_multiset(),
{
    let mut out: Vec<Item> = Vec::new();
    let mut i: usize = 0;
    while i < items.len()
        invariant
            i <= items@.len(),
            out@ == paint_order(items@.subrange(0, i as int)),
            out@.len() == i,
        decreases items@.len() - i,
    {
        let it = items[i];
        let mut k: usize = out.len();
        while k > 0 && out[k - 1].0.2 > it.0.2
            invariant
                k <= out@.len(),
                forall|j: int| k <= j < out@.len() ==> depth(out@[j]) > depth(it),
            decreases k,
        {
            k -= 1;
        }
        proof {
            lemma_insert_place(out@, it, k as int);
            assert(items@.subrange(0, i + 1).drop_last() =~= items@.subrange(0, i as int));
        }
        out.insert(k, it);
        i += 1;
    }
    proof {
        assert(items@.subrange(0, i as int) =~= items@);
        lemma_paint_order(items@);
    }
    out
}

} // verus!
