//! The laws of the filter, each proved once and for all inputs.
//!
//! [`filter_items`] already pins the output down; the lemmas here restate, in
//! the terms a caller cares about, what follows from it: filtering is
//! idempotent, keeps the relative order of what it keeps, never touches a
//! non-import item's own content, and keeps an import exactly when the
//! pattern does not match its source.

use crate::ast::ItemView;
use crate::filter::filter_item;
use crate::filter::filter_items;
use crate::filter::keep_item;
use crate::pattern::regex_match;
use vstd::prelude::*;

verus! {

/// Idempotence for one kept item: filtering changes neither its retention
/// decision nor, a second time around, its content.
pub proof fn lemma_filter_item_idempotent(it: ItemView, pat: Seq<char>)
    ensures
        keep_item(filter_item(it, pat), pat) == keep_item(it, pat),
        filter_item(filter_item(it, pat), pat) == filter_item(it, pat),
    decreases it,
{
    match it {
        ItemView::Import { .. } => {},
        ItemView::Stmt { kind, children } => {
            lemma_filter_idempotent(children, pat);
        },
    }
}

/// Idempotence: running the filter on its own output is a no-op, because no
/// import that survived the first run matches the pattern.
pub proof fn lemma_filter_idempotent(items: Seq<ItemView>, pat: Seq<char>)
    ensures
        filter_items(filter_items(items, pat), pat) == filter_items(items, pat),
    decreases items,
{
    if items.len() > 0 {
        let rest = items.drop_last();
        let last = items.last();
        lemma_filter_idempotent(rest, pat);
        lemma_filter_item_idempotent(last, pat);
        if keep_item(last, pat) {
            let once = filter_items(rest, pat).push(filter_item(last, pat));
            assert(once.drop_last() =~= filter_items(rest, pat));
        }
    }
}

/// The input positions of the items the filter keeps, in increasing order.
pub open spec fn kept_indices(items: Seq<ItemView>, pat: Seq<char>) -> Seq<int>
    decreases items.len(),
{
    if items.len() == 0 {
        Seq::empty()
    } else {
        let rest = kept_indices(items.drop_last(), pat);
        if keep_item(items.last(), pat) {
            rest.push(items.len() - 1)
        } else {
            rest
        }
    }
}

/// Order preservation: the output lists, position by position, the filtered
/// forms of the kept input items, drawn from strictly increasing input
/// positions, so the relative order of any two retained items is the one
/// they had in the input. The kept positions are exactly those whose item the
/// retention rule keeps.
pub proof fn lemma_filter_retains_in_order(items: Seq<ItemView>, pat: Seq<char>)
    ensures
        filter_items(items, pat).len() == kept_indices(items, pat).len(),
        forall|k: int|
            0 <= k < kept_indices(items, pat).len() ==> 0 <= #[trigger] kept_indices(items, pat)[k]
                < items.len(),
        forall|k: int|
            0 <= k < kept_indices(items, pat).len() ==> keep_item(
                items[#[trigger] kept_indices(items, pat)[k]],
                pat,
            ),
        forall|k: int|
            0 <= k < kept_indices(items, pat).len() ==> #[trigger] filter_items(items, pat)[k]
                == filter_item(items[kept_indices(items, pat)[k]], pat),
        forall|k1: int, k2: int|
            0 <= k1 < k2 < kept_indices(items, pat).len() ==> #[trigger] kept_indices(
                items,
                pat,
            )[k1] < #[trigger] kept_indices(items, pat)[k2],
        forall|j: int|
            0 <= j < items.len() ==> (keep_item(items[j], pat) <==> #[trigger] kept_indices(
                items,
                pat,
            ).contains(j)),
    decreases items.len(),
{
    if items.len() > 0 {
        let rest = items.drop_last();
        let last = items.last();
        lemma_filter_retains_in_order(rest, pat);
        assert forall|j: int| 0 <= j < items.len() implies (keep_item(items[j], pat)
            <==> kept_indices(items, pat).contains(j)) by {
            if j < items.len() - 1 {
                assert(keep_item(rest[j], pat) <==> kept_indices(rest, pat).contains(j));
                if kept_indices(rest, pat).contains(j) {
                    let k = choose|k: int|
                        0 <= k < kept_indices(rest, pat).len() && kept_indices(rest, pat)[k] == j;
                    assert(kept_indices(items, pat)[k] == j);
                }
                if kept_indices(items, pat).contains(j) {
                    let k = choose|k: int|
                        0 <= k < kept_indices(items, pat).len() && kept_indices(items, pat)[k]
                            == j;
                    assert(0 <= k < kept_indices(rest, pat).len() && kept_indices(rest, pat)[k]
                        == j);
                }
            } else {
                if keep_item(items[j], pat) {
                    assert(kept_indices(items, pat).last() == j);
                }
                if kept_indices(items, pat).contains(j) {
                    let k = choose|k: int|
                        0 <= k < kept_indices(items, pat).len() && kept_indices(items, pat)[k]
                            == j;
                    if k < kept_indices(rest, pat).len() {
                        assert(kept_indices(rest, pat).contains(j));
                    }
                }
            }
        }
    }
}

/// Non-import invariance: an item that is not an import declaration is always
/// retained, whatever the pattern; its own content is untouched, and only its
/// nested item lists are filtered by the same rule.
pub proof fn lemma_non_import_retained(items: Seq<ItemView>, pat: Seq<char>, j: int)
    requires
        0 <= j < items.len(),
        !(items[j] matches ItemView::Import { .. }),
    ensures
        filter_items(items, pat).contains(filter_item(items[j], pat)),
        (match items[j] {
            ItemView::Stmt { kind, children } => filter_item(items[j], pat) == (ItemView::Stmt {
                kind,
                children: filter_items(children, pat),
            }),
            ItemView::Import { .. } => false,
        }),
{
    lemma_filter_retains_in_order(items, pat);
    assert(kept_indices(items, pat).contains(j));
    let k = choose|k: int|
        0 <= k < kept_indices(items, pat).len() && kept_indices(items, pat)[k] == j;
    assert(filter_items(items, pat)[k] == filter_item(items[j], pat));
}

/// A non-import item with no nested item lists is kept exactly as it is.
pub proof fn lemma_childless_stmt_unchanged(it: ItemView, pat: Seq<char>)
    requires
        it matches ItemView::Stmt { children, .. } && children.len() == 0,
    ensures
        filter_item(it, pat) == it,
{
    match it {
        ItemView::Stmt { kind, children } => {
            assert(filter_items(children, pat) =~= children);
        },
        ItemView::Import { .. } => {},
    }
}

/// Exact match set: an import declaration is present in the output exactly
/// when the pattern does not match its source string.
pub proof fn lemma_import_retained_iff_no_match(items: Seq<ItemView>, pat: Seq<char>, j: int)
    requires
        0 <= j < items.len(),
        items[j] matches ItemView::Import { .. },
    ensures
        (match items[j] {
            ItemView::Import { src, .. } => filter_items(items, pat).contains(items[j])
                <==> !regex_match(pat, src),
            ItemView::Stmt { .. } => false,
        }),
{
    lemma_filter_retains_in_order(items, pat);
    let out = filter_items(items, pat);
    if keep_item(items[j], pat) {
        assert(kept_indices(items, pat).contains(j));
        let k = choose|k: int|
            0 <= k < kept_indices(items, pat).len() && kept_indices(items, pat)[k] == j;
        assert(out[k] == filter_item(items[j], pat));
        assert(out[k] == items[j]);
        assert(out.contains(items[j]));
    }
    if out.contains(items[j]) {
        let k = choose|k: int| 0 <= k < out.len() && out[k] == items[j];
        let j2 = kept_indices(items, pat)[k];
        assert(keep_item(items[j2], pat));
        assert(filter_item(items[j2], pat) == items[j]);
        assert(items[j2] == items[j]);
    }
}

} // verus!
