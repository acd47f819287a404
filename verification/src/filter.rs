//! The import filter: one deterministic sweep over a module's item list.
//!
//! [`filter_items`] is the specification: a stable filter that drops exactly
//! the import declarations whose source the pattern matches, keeps every
//! other item, and descends into the nested item lists of the items it keeps.
//! [`TransformVisitor::visit_mut_module_items`] is the executable pass proved
//! to compute it.

use crate::ast::ItemView;
use crate::ast::ModuleItem;
use crate::ast::item_view;
use crate::ast::items_view;
use crate::ast::lemma_items_view_index;
use crate::config::parse_options;
use crate::config::resolved_config;
use crate::errors::ConfigError;
use crate::pattern::Pattern;
use crate::pattern::regex_match;
use vstd::prelude::*;

verus! {

/// The retention decision for one item: an import declaration is kept exactly
/// when the pattern does not match its source string; any other item is
/// always kept, whatever its content.
pub open spec fn keep_item(it: ItemView, pat: Seq<char>) -> bool {
    match it {
        ItemView::Import { src, .. } => !regex_match(pat, src),
        ItemView::Stmt { .. } => true,
    }
}

/// What filtering makes of one kept item: an import is kept verbatim; any
/// other item keeps its own content, with only its nested item lists filtered
/// by the same rule.
pub open spec fn filter_item(it: ItemView, pat: Seq<char>) -> ItemView
    decreases it,
{
    match it {
        ItemView::Import { .. } => it,
        ItemView::Stmt { kind, children } => ItemView::Stmt {
            kind,
            children: filter_items(children, pat),
        },
    }
}

/// What filtering makes of an item sequence: the kept items, in their
/// original relative order, each with its nested item lists filtered in turn.
pub open spec fn filter_items(items: Seq<ItemView>, pat: Seq<char>) -> Seq<ItemView>
    decreases items,
{
    if items.len() == 0 {
        Seq::empty()
    } else {
        let rest = filter_items(items.drop_last(), pat);
        if keep_item(items.last(), pat) {
            rest.push(filter_item(items.last(), pat))
        } else {
            rest
        }
    }
}

fn clone_strings(strs: &Vec<String>) -> (r: Vec<String>)
    ensures
        r@ == strs@,
{
    let mut r: Vec<String> = Vec::new();
    let mut i: usize = 0;
    while i < strs.len()
        invariant
            i <= strs.len(),
            r@ == strs@.take(i as int),
        decreases strs.len() - i,
    {
        r.push(strs[i].clone());
        proof {
            assert(strs@.take(i + 1 as int) =~= strs@.take(i as int).push(strs@[i as int]));
        }
        i = i + 1;
    }
    proof {
        assert(strs@.take(strs@.len() as int) =~= strs@);
    }
    r
}

/// Filter one item: `None` when it is dropped, otherwise the kept form.
fn filter_module_item(it: &ModuleItem, pattern: &Pattern) -> (r: Option<ModuleItem>)
    ensures
        keep_item(it@, pattern.src()) ==> (r matches Some(kept) && kept@ == filter_item(
            it@,
            pattern.src(),
        )),
        !keep_item(it@, pattern.src()) ==> r is None,
    decreases *it,
{
    match it {
        ModuleItem::Import { src, bindings } => {
            if pattern.matches(src.as_str()) {
                None
            } else {
                Some(ModuleItem::Import { src: src.clone(), bindings: clone_strings(bindings) })
            }
        },
        ModuleItem::Stmt { kind, children } => {
            Some(ModuleItem::Stmt { kind: *kind, children: filter_module_items(children, pattern) })
        },
    }
}

/// Filter an item list: one pass, left to right, keeping the original
/// relative order of everything it keeps.
fn filter_module_items(items: &Vec<ModuleItem>, pattern: &Pattern) -> (out: Vec<ModuleItem>)
    ensures
        items_view(out@) == filter_items(items_view(items@), pattern.src()),
    decreases *items,
{
    let mut out: Vec<ModuleItem> = Vec::new();
    let mut i: usize = 0;
    while i < items.len()
        invariant
            i <= items.len(),
            items_view(out@) == filter_items(items_view(items@.take(i as int)), pattern.src()),
        decreases items.len() - i,
    {
        proof {
            lemma_items_view_index(items@.take(i as int));
            lemma_items_view_index(items@.take(i + 1 as int));
            assert(items_view(items@.take(i + 1 as int)).drop_last() =~= items_view(
                items@.take(i as int),
            ));
        }
        let ghost out_prev = out@;
        match filter_module_item(&items[i], pattern) {
            Some(kept) => {
                out.push(kept);
                proof {
                    assert(out@.drop_last() =~= out_prev);
                    assert(items_view(out@) == items_view(out_prev).push(item_view(out@.last())));
                }
            },
            None => {},
        }
        i = i + 1;
    }
    proof {
        assert(items@.take(items@.len() as int) =~= items@);
    }
    out
}

/// A visitor that removes the imports matching one compiled pattern. It holds
/// no other state: two passes with equal patterns make equal decisions.
pub struct TransformVisitor {
    pattern: Pattern,
}

impl TransformVisitor {
    /// The text of the pattern this visitor filters by.
    pub closed spec fn pattern_src(self) -> Seq<char> {
        self.pattern.src()
    }

    /// Make a visitor that filters by `pattern`.
    pub fn new(pattern: Pattern) -> (r: TransformVisitor)
        ensures
            r.pattern_src() == pattern.src(),
    {
        TransformVisitor { pattern }
    }

    /// The pattern this visitor filters by.
    pub fn pattern(&self) -> (r: &Pattern)
        ensures
            r.src() == self.pattern_src(),
    {
        &self.pattern
    }

    /// Filter `items` in place: afterwards it holds exactly the filtered
    /// sequence, and the visitor itself is unchanged.
    pub fn visit_mut_module_items(&mut self, items: &mut Vec<ModuleItem>)
        ensures
            items_view(final(items)@) == filter_items(
                items_view(old(items)@),
                old(self).pattern_src(),
            ),
            final(self).pattern_src() == old(self).pattern_src(),
    {
        let filtered = filter_module_items(items, &self.pattern);
        *items = filtered;
    }
}

/// The whole pass: resolve the configuration payload into a pattern, then
/// filter the module's items by it. On any configuration error the error kind
/// assigned by [`resolved_config`] comes back and no filtering happens.
pub fn process_transform(items: Vec<ModuleItem>, config: &str) -> (r: Result<
    Vec<ModuleItem>,
    ConfigError,
>)
    ensures
        r is Ok <==> resolved_config(config@) is Ok,
        r is Ok ==> items_view(r->Ok_0@) == filter_items(
            items_view(items@),
            resolved_config(config@)->Ok_0,
        ),
        r is Err ==> r->Err_0 == resolved_config(config@)->Err_0,
{
    let pattern = match parse_options(config) {
        Ok(pattern) => pattern,
        Err(e) => {
            return Err(e);
        },
    };
    let mut visitor = TransformVisitor::new(pattern);
    let mut items = items;
    visitor.visit_mut_module_items(&mut items);
    Ok(items)
}

} // verus!
