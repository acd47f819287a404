//! The module tree as this pass sees it.
//!
//! The host compiler owns a full syntax tree; this pass reads exactly two
//! things of any item: whether it is an import declaration, and, if so, its
//! source-module string. [`ModuleItem`] models that view. Everything the pass
//! never reads is carried through untouched: an import's binding list, and,
//! for any other item, an opaque `kind` code standing for the item's own
//! content together with the nested item lists the host tree exposes under it.

use vstd::prelude::*;

verus! {

/// One top-level (or nested) item of a module.
#[derive(Debug, PartialEq, Eq)]
pub enum ModuleItem {
    /// An import declaration: a source-module string and the bindings drawn
    /// from it. The filter decides over `src` alone; the item is removed or
    /// kept as a whole, so `bindings` are never pruned individually.
    Import { src: String, bindings: Vec<String> },
    /// Any other statement or declaration. `kind` stands for all of the
    /// item's own content, which the filter never reads; `children` are the
    /// nested item lists the host tree exposes under it (for instance a
    /// nested module-like block), into which the filter descends.
    Stmt { kind: u64, children: Vec<ModuleItem> },
}

/// The mathematical shape of a [`ModuleItem`].
pub ghost enum ItemView {
    Import { src: Seq<char>, bindings: Seq<Seq<char>> },
    Stmt { kind: u64, children: Seq<ItemView> },
}

/// The views of a sequence of strings, element by element.
pub open spec fn strs_view(strs: Seq<String>) -> Seq<Seq<char>> {
    Seq::new(strs.len(), |i: int| strs[i]@)
}

/// The shape of one item.
pub open spec fn item_view(it: ModuleItem) -> ItemView
    decreases it,
{
    match it {
        ModuleItem::Import { src, bindings } => ItemView::Import {
            src: src@,
            bindings: strs_view(bindings@),
        },
        ModuleItem::Stmt { kind, children } => ItemView::Stmt {
            kind,
            children: items_view(children@),
        },
    }
}

/// The shapes of a sequence of items, element by element.
pub open spec fn items_view(items: Seq<ModuleItem>) -> Seq<ItemView>
    decreases items,
{
    if items.len() == 0 {
        Seq::empty()
    } else {
        items_view(items.drop_last()).push(item_view(items.last()))
    }
}

impl View for ModuleItem {
    type V = ItemView;

    open spec fn view(&self) -> ItemView {
        item_view(*self)
    }
}

/// [`items_view`] is the element-wise view: it keeps the length and takes
/// each item to its shape.
pub proof fn lemma_items_view_index(items: Seq<ModuleItem>)
    ensures
        items_view(items).len() == items.len(),
        forall|i: int| 0 <= i < items.len() ==> items_view(items)[i] == item_view(items[i]),
    decreases items.len(),
{
    if items.len() > 0 {
        lemma_items_view_index(items.drop_last());
    }
}

} // verus!
