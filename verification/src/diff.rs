//! Which entries of a new document a snapshot does not hold yet.

use vstd::prelude::*;
use crate::item::{contains_item, items_view, Item, ItemView};

verus! {

/// The entries of `new_items` that equal no entry of `old_items`, in the
/// order in which `new_items` holds them.
pub open spec fn diff_spec(new_items: Seq<ItemView>, old_items: Seq<ItemView>) -> Seq<ItemView> {
    new_items.filter(|it: ItemView| !old_items.contains(it))
}

/// `sub` can be had from `full` by leaving entries out: `picks` names, for
/// each place of `sub`, the place of `full` it was taken from, and these
/// places rise strictly.
pub open spec fn picked_from<T>(sub: Seq<T>, full: Seq<T>, picks: Seq<int>) -> bool {
    &&& picks.len() == sub.len()
    &&& forall|k: int| 0 <= k < picks.len() ==> 0 <= #[trigger] picks[k] < full.len()
    &&& forall|j: int, k: int| 0 <= j < k < picks.len() ==> picks[j] < picks[k]
    &&& forall|k: int| 0 <= k < sub.len() ==> #[trigger] sub[k] == full[picks[k]]
}

/// `sub` is a subsequence of `full`: the same entries in the same order,
/// with some left out.
pub open spec fn is_subsequence<T>(sub: Seq<T>, full: Seq<T>) -> bool {
    exists|picks: Seq<int>| picked_from(sub, full, picks)
}

/// How the difference grows when the new document gets one more entry.
pub proof fn lemma_diff_push(new_items: Seq<ItemView>, old_items: Seq<ItemView>, next: ItemView)
    ensures
        diff_spec(new_items.push(next), old_items) == if old_items.contains(next) {
            diff_spec(new_items, old_items)
        } else {
            diff_spec(new_items, old_items).push(next)
        },
{
    reveal(Seq::filter);
    assert(new_items.push(next).drop_last() =~= new_items);
}

/// The entries of `new_items` that equal no entry of `old_items`, in order.
pub fn diff_items(new_items: &Vec<Item>, old_items: &Vec<Item>) -> (fresh: Vec<Item>)
    ensures
        items_view(fresh@) == diff_spec(items_view(new_items@), items_view(old_items@)),
{
    let mut fresh: Vec<Item> = Vec::new();
    let mut i: usize = 0;
    proof {
        reveal(Seq::filter);
        assert(items_view(new_items@).take(0) =~= Seq::<ItemView>::empty());
        assert(items_view(fresh@) =~= Seq::<ItemView>::empty());
    }
    while i < new_items.len()
        invariant
            i <= new_items.len(),
            items_view(fresh@) == diff_spec(
                items_view(new_items@).take(i as int),
                items_view(old_items@),
            ),
        decreases new_items.len() - i,
    {
        let known = contains_item(old_items, &new_items[i]);
        proof {
            let seen = items_view(new_items@).take(i as int);
            let next = new_items@[i as int]@;
            assert(items_view(new_items@).take(i + 1) =~= seen.push(next));
            lemma_diff_push(seen, items_view(old_items@), next);
        }
        if !known {
            let ghost before = fresh@;
            let copy = new_items[i].clone();
            fresh.push(copy);
            assert(items_view(fresh@) =~= items_view(before).push(new_items@[i as int]@));
        }
        i += 1;
    }
    assert(items_view(new_items@).take(i as int) =~= items_view(new_items@));
    fresh
}

/// A document differs from itself in nothing.
pub proof fn lemma_diff_self_is_empty(doc: Seq<ItemView>)
    ensures
        diff_spec(doc, doc) == Seq::<ItemView>::empty(),
{
    let keep = |it: ItemView| !doc.contains(it);
    assert forall|i: int| 0 <= i < doc.len() implies !keep(#[trigger] doc[i]) by {
        assert(doc.contains(doc[i]));
    }
    assert(doc.all(|x: ItemView| !keep(x)));
    doc.lemma_all_neg_filter_empty(keep);
    assert(diff_spec(doc, doc) =~= Seq::<ItemView>::empty());
}

/// Against an empty snapshot every entry is new, in the order of the
/// document.
pub proof fn lemma_diff_against_empty(doc: Seq<ItemView>)
    ensures
        diff_spec(doc, Seq::<ItemView>::empty()) == doc,
    decreases doc.len(),
{
    reveal(Seq::filter);
    if doc.len() > 0 {
        lemma_diff_against_empty(doc.drop_last());
        assert(!Seq::<ItemView>::empty().contains(doc.last()));
        assert(doc.drop_last().push(doc.last()) =~= doc);
    }
}

/// Every reported entry stands in the new document and equals no entry of
/// the old one, however many fields it shares with one of them; and
/// every entry of the new document that the old one lacks is reported.
pub proof fn lemma_diff_reports_only_new(
    new_items: Seq<ItemView>,
    old_items: Seq<ItemView>,
    it: ItemView,
)
    ensures
        diff_spec(new_items, old_items).contains(it) <==> (new_items.contains(it)
            && !old_items.contains(it)),
    decreases new_items.len(),
{
    if new_items.len() > 0 {
        let front = new_items.drop_last();
        let last = new_items.last();
        lemma_diff_reports_only_new(front, old_items, it);
        assert(front.push(last) =~= new_items);
        lemma_diff_push(front, old_items, last);
        let kept = diff_spec(front, old_items);
        if new_items.contains(it) && it != last {
            let k = choose|k: int| 0 <= k < new_items.len() && new_items[k] == it;
            assert(front[k] == it);
        }
        if front.contains(it) {
            let k = choose|k: int| 0 <= k < front.len() && front[k] == it;
            assert(new_items[k] == it);
        }
        assert(new_items[new_items.len() - 1] == last);
        if !old_items.contains(last) {
            let grown = kept.push(last);
            assert(grown[grown.len() - 1] == last);
            if kept.contains(it) {
                let k = choose|k: int| 0 <= k < kept.len() && kept[k] == it;
                assert(grown[k] == it);
            }
            if grown.contains(it) && it != last {
                let k = choose|k: int| 0 <= k < grown.len() && grown[k] == it;
                assert(kept[k] == it);
            }
        }
    }
}

/// The difference keeps the order of the new document: it is a subsequence
/// of it.
pub proof fn lemma_diff_is_subsequence(new_items: Seq<ItemView>, old_items: Seq<ItemView>)
    ensures
        is_subsequence(diff_spec(new_items, old_items), new_items),
    decreases new_items.len(),
{
    reveal(Seq::filter);
    if new_items.len() == 0 {
        assert(picked_from(diff_spec(new_items, old_items), new_items, Seq::<int>::empty()));
    } else {
        let front = new_items.drop_last();
        let last = new_items.last();
        lemma_diff_is_subsequence(front, old_items);
        let d = diff_spec(front, old_items);
        let picks = choose|picks: Seq<int>| picked_from(d, front, picks);
        assert(front.push(last) =~= new_items);
        lemma_diff_push(front, old_items, last);
        if old_items.contains(last) {
            assert(picked_from(d, new_items, picks));
        } else {
            let more = picks.push(new_items.len() - 1);
            assert(picked_from(d.push(last), new_items, more));
        }
    }
}

} // verus!
