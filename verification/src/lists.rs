//! Facts about filtered lists.

use vstd::prelude::*;

verus! {

/// A filtered sequence holds the items that pass the filter, and no others.
pub(crate) proof fn lemma_filter_holds<A>(items: Seq<A>, keep: spec_fn(A) -> bool)
    ensures
        forall|item: A| #[trigger]
            items.filter(keep).contains(item) <==> items.contains(item) && keep(item),
{
    let kept = items.filter(keep);
    assert forall|item: A| #[trigger] kept.contains(item) implies items.contains(item) && keep(
        item,
    ) by {
        items.lemma_filter_contains_rev(keep, item);
        let i = choose|i: int| 0 <= i < kept.len() && kept[i] == item;
        items.lemma_filter_pred(keep, i);
    }
    assert forall|item: A| items.contains(item) && keep(item) implies #[trigger] kept.contains(
        item,
    ) by {
        let i = choose|i: int| 0 <= i < items.len() && items[i] == item;
        items.lemma_filter_contains(keep, i);
    }
}

/// A sequence whose every item passes a filter goes through it unchanged.
pub(crate) proof fn lemma_filter_keeps_all<A>(items: Seq<A>, keep: spec_fn(A) -> bool)
    requires
        forall|i: int| 0 <= i < items.len() ==> keep(#[trigger] items[i]),
    ensures
        items.filter(keep) == items,
    decreases items.len(),
{
    reveal(Seq::filter);
    if items.len() > 0 {
        assert forall|i: int| 0 <= i < items.drop_last().len() implies keep(
            #[trigger] items.drop_last()[i],
        ) by {
            assert(items.drop_last()[i] == items[i]);
        }
        lemma_filter_keeps_all(items.drop_last(), keep);
        assert(items.drop_last().push(items.last()) =~= items);
    }
}

} // verus!
