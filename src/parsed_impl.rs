//! The annotated implementation block: which type implements which trait, and which
//! lifecycle hooks its methods handle.
use crate::diagnostics::{Anchor, CombinedDiagnostic};
use crate::hooks::{catalog, hook_for_method, lemma_found_hook_has_the_name, trait_method_name, Hooks};
use crate::types::{PathExpr, TypeExpr};
use vstd::prelude::*;

verus! {

/// One item of an implementation block.
#[derive(Debug, PartialEq, Eq)]
pub enum ImplItem {
    /// A method, by its name.
    Fn { name: String },
    /// Any other item (a constant, a type, a macro call).
    Other,
}

/// The structure of an `impl` block: `impl Trait for SelfTy { items }`.
#[derive(Debug, PartialEq, Eq)]
pub struct ImplBlock {
    pub self_ty: TypeExpr,
    pub trait_: Option<PathExpr>,
    pub items: Vec<ImplItem>,
}

/// An implementation block of the plugin trait, with the hooks that it handles.
#[derive(Debug, PartialEq, Eq)]
pub struct ParsedImpl {
    pub target_type: TypeExpr,
    pub hooks: Vec<Hooks>,
    pub trait_: PathExpr,
}

/// The hooks handled by the methods among `items`, in the order of the methods; methods
/// that handle no hook are left out.
pub open spec fn hooks_of(items: Seq<ImplItem>) -> Seq<Hooks>
    decreases items.len(),
{
    if items.len() == 0 {
        Seq::empty()
    } else {
        let rest = hooks_of(items.drop_last());
        match items.last() {
            ImplItem::Fn { name } => match hook_for_method(name@) {
                Some(h) => rest.push(h),
                None => rest,
            },
            ImplItem::Other => rest,
        }
    }
}

/// The methods among `items` have pairwise different names.
pub open spec fn distinct_method_names(items: Seq<ImplItem>) -> bool {
    forall|i: int, j: int|
        0 <= i < j < items.len() && #[trigger] items[i] is Fn && #[trigger] items[j] is Fn ==> items[i]->Fn_name@
            != items[j]->Fn_name@
}

/// Some method among `items` is the one that handles `h`.
pub open spec fn handled_by_a_method(items: Seq<ImplItem>, h: Hooks) -> bool {
    exists|j: int|
        0 <= j < items.len() && #[trigger] items[j] is Fn && items[j]->Fn_name@ == trait_method_name(h)
}

proof fn lemma_hooks_come_from_methods(items: Seq<ImplItem>)
    ensures
        forall|k: int|
            0 <= k < hooks_of(items).len() ==> handled_by_a_method(items, #[trigger] hooks_of(items)[k]),
    decreases items.len(),
{
    if items.len() > 0 {
        let prev = items.drop_last();
        lemma_hooks_come_from_methods(prev);
        let rest = hooks_of(prev);
        assert forall|k: int| 0 <= k < hooks_of(items).len() implies handled_by_a_method(
            items,
            #[trigger] hooks_of(items)[k],
        ) by {
            if k < rest.len() {
                assert(hooks_of(items)[k] == rest[k]);
                assert(handled_by_a_method(prev, rest[k]));
                let j = choose|j: int|
                    0 <= j < prev.len() && #[trigger] prev[j] is Fn && prev[j]->Fn_name@ == trait_method_name(rest[k]);
                assert(items[j] == prev[j]);
                assert(items[j] is Fn && items[j]->Fn_name@ == trait_method_name(hooks_of(items)[k]));
            } else {
                let last = items.last();
                let n = items.len() - 1;
                assert(items[n] == last);
                if let ImplItem::Fn { name } = last {
                    lemma_found_hook_has_the_name(catalog(), name@);
                    assert(items[n] is Fn && items[n]->Fn_name@ == trait_method_name(hooks_of(items)[k]));
                }
            }
        }
    }
}

/// A block whose methods have different names yields each hook at most once.
pub proof fn lemma_distinct_methods_give_distinct_hooks(items: Seq<ImplItem>)
    requires
        distinct_method_names(items),
    ensures
        hooks_of(items).no_duplicates(),
    decreases items.len(),
{
    if items.len() > 0 {
        let prev = items.drop_last();
        assert(distinct_method_names(prev)) by {
            assert forall|i: int, j: int|
                0 <= i < j < prev.len() && #[trigger] prev[i] is Fn && #[trigger] prev[j] is Fn implies prev[i]->Fn_name@
                    != prev[j]->Fn_name@ by {
                assert(prev[i] == items[i] && prev[j] == items[j]);
            }
        }
        lemma_distinct_methods_give_distinct_hooks(prev);
        lemma_hooks_come_from_methods(prev);
        let rest = hooks_of(prev);
        if let ImplItem::Fn { name } = items.last() {
            if let Some(h) = hook_for_method(name@) {
                lemma_found_hook_has_the_name(catalog(), name@);
                assert(!rest.contains(h)) by {
                    if rest.contains(h) {
                        let k = choose|k: int| 0 <= k < rest.len() && rest[k] == h;
                        assert(handled_by_a_method(prev, rest[k]));
                        let j = choose|j: int|
                            0 <= j < prev.len() && #[trigger] prev[j] is Fn && prev[j]->Fn_name@ == trait_method_name(rest[k]);
                        assert(items[j] == prev[j]);
                        assert(items[items.len() - 1] == items.last());
                    }
                }
                assert forall|a: int, b: int| 0 <= a < b < rest.push(h).len() implies rest.push(h)[a] != rest.push(h)[b] by {
                    if b == rest.len() {
                        assert(rest.contains(rest[a]));
                    }
                }
            }
        }
    }
}

pub open spec fn missing_trait_message() -> Seq<char> {
    "expected a trait"@
}

impl ParsedImpl {
    /// Reads an implementation block: it must name a trait, and its hooks are the methods
    /// whose names are trait methods of the hook catalog.
    pub fn parse(block: ImplBlock) -> (r: Result<ParsedImpl, CombinedDiagnostic>)
        ensures
            block.trait_.is_none() <==> r is Err,
            r matches Err(e) ==> e@ == seq![(Anchor::ImplKeyword, missing_trait_message())],
            r matches Ok(p) ==> {
                &&& p.target_type == block.self_ty
                &&& Some(p.trait_) == block.trait_
                &&& p.hooks@ == hooks_of(block.items@)
            },
    {
        let ImplBlock { self_ty, trait_, items } = block;
        let trait_path = match trait_ {
            Some(p) => p,
            None => {
                return Err(CombinedDiagnostic::new(Anchor::ImplKeyword, "expected a trait"));
            },
        };
        let mut hooks: Vec<Hooks> = Vec::new();
        let mut i: usize = 0;
        while i < items.len()
            invariant
                i <= items.len(),
                hooks@ == hooks_of(items@.take(i as int)),
            decreases items.len() - i,
        {
            proof {
                assert(items@.take(i + 1).drop_last() =~= items@.take(i as int));
                assert(items@.take(i + 1).last() == items@[i as int]);
            }
            match &items[i] {
                ImplItem::Fn { name } => match Hooks::from_trait_method_name(name.as_str()) {
                    Some(h) => hooks.push(h),
                    None => {},
                },
                ImplItem::Other => {},
            }
            i = i + 1;
        }
        assert(items@.take(i as int) =~= items@);
        Ok(ParsedImpl { target_type: self_ty, hooks, trait_: trait_path })
    }
}

} // verus!
