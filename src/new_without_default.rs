//! Checks for types with a public `fn new() -> Self` and no `Default`
//! implementation, suggesting `#[derive(Default)]` where every field of the
//! type implements `Default`, and a `Default` impl calling `new` otherwise.
use vstd::prelude::*;
use crate::ast::Span;
use crate::diagnostics::{Applicability, Finding, FindingView, Lint, Suggestion, opt_view, views_of};
use crate::text::{push_chars, push_str};
use crate::ty::{TyKind, TypeTable};

verus! {

/// The rule on constructors without a `Default` implementation.
#[derive(Clone, Copy, Debug)]
pub struct NewWithoutDefault;

/// An associated item of an impl block. A method's `ret_ty` indexes `TypeTable::types`;
/// `n_type_params` counts its generic type parameters, not its lifetimes.
#[derive(Clone, Copy, Debug, PartialEq, Eq, Structural)]
pub enum ImplItemKind {
    Method { has_self: bool, is_const: bool, n_inputs: usize, n_type_params: usize, ret_ty: usize },
    Const,
    Type,
}

#[derive(Debug)]
pub struct ImplItem {
    pub name: Vec<char>,
    pub kind: ImplItemKind,
    pub span: Span,
    /// The item can be reached from outside the crate.
    pub reachable: bool,
}

/// A top-level item: an impl block (`of_trait` is the implemented trait, `None`
/// for an inherent impl; `self_ty` indexes `TypeTable::types`), or any other item.
#[derive(Debug)]
pub enum ItemKind {
    Impl { of_trait: Option<u32>, self_ty: usize, items: Vec<ImplItem> },
    Other,
}

#[derive(Debug)]
pub struct Item {
    pub kind: ItemKind,
    pub span: Span,
}

/// The item is a reachable, non-`const`, non-generic associated function `new`
/// without `self` and without arguments, written outside any macro expansion.
pub open spec fn is_constructor_candidate(it: ImplItem) -> bool {
    match it.kind {
        ImplItemKind::Method { has_self, is_const, n_inputs, n_type_params, .. } => {
            &&& !has_self
            &&& !is_const
            &&& n_type_params == 0
            &&& n_inputs == 0
            &&& it.name@ == "new"@
            &&& it.reachable
            &&& !it.span.from_expansion()
        },
        _ => false,
    }
}

/// Where `#[derive(Default)]` would go: the definition of type `t`, when `t`
/// is a struct all of whose fields implement trait `tr`.
pub open spec fn derive_site(table: &TypeTable, t: int, tr: u32) -> Option<Span> {
    if table.has_type(t) && table.ty(t).kind is Struct {
        let fields = table.ty(t).kind->Struct_0@;
        if forall|k: int| 0 <= k < fields.len() ==> #[trigger] table.implements(fields[k] as int, tr) {
            Some(table.ty(t).def_span)
        } else {
            None
        }
    } else {
        None
    }
}

pub open spec fn default_impl_text(name: Seq<char>) -> Seq<char> {
    "impl Default for "@ + name + " {\n    fn default() -> Self {\n        Self::new()\n    }\n}"@
}

pub open spec fn derive_message(name: Seq<char>) -> Seq<char> {
    "you should consider deriving a `Default` implementation for `"@ + name + "`"@
}

pub open spec fn impl_message(name: Seq<char>) -> Seq<char> {
    "you should consider adding a `Default` implementation for `"@ + name + "`"@
}

pub open spec fn derive_attr() -> Seq<char> {
    "#[derive(Default)]\n"@
}

/// The finding on associated item `it` of an inherent impl of `self_ty` spanning
/// `impl_span`: there is one when `it` is a constructor candidate returning
/// `self_ty`, `Default` resolves and `self_ty` does not implement it. Its
/// suggestion is the derive attribute before the type's definition where that
/// works, else a `Default` impl inserted after the impl block.
pub open spec fn method_finding(table: &TypeTable, impl_span: Span, self_ty: int, it: ImplItem) -> Option<FindingView> {
    if is_constructor_candidate(it) && it.kind->Method_ret_ty == self_ty && table.has_type(self_ty)
        && table.default_trait is Some && !table.implements(self_ty, table.default_trait->0) {
        let name = table.ty(self_ty).name@;
        match derive_site(table, self_ty, table.default_trait->0) {
            Some(sp) => Some(
                FindingView {
                    lint: Lint::NewWithoutDefaultDerive,
                    span: it.span,
                    message: derive_message(name),
                    sugg_span: sp.lo_point(),
                    sugg_text: derive_attr(),
                    applicability: Applicability::MaybeIncorrect,
                },
            ),
            None => Some(
                FindingView {
                    lint: Lint::NewWithoutDefault,
                    span: it.span,
                    message: impl_message(name),
                    sugg_span: impl_span.hi_point(),
                    sugg_text: default_impl_text(name),
                    applicability: Applicability::MaybeIncorrect,
                },
            ),
        }
    } else {
        None
    }
}

/// The findings on the first `n` items of an inherent impl, in order.
pub open spec fn method_findings_upto(
    table: &TypeTable,
    impl_span: Span,
    self_ty: int,
    items: Seq<ImplItem>,
    n: int,
) -> Seq<FindingView>
    decreases n,
{
    if n <= 0 {
        Seq::empty()
    } else {
        let prev = method_findings_upto(table, impl_span, self_ty, items, n - 1);
        match method_finding(table, impl_span, self_ty, items[n - 1]) {
            Some(f) => prev.push(f),
            None => prev,
        }
    }
}

/// The findings on an item: those on the methods of an inherent impl, none elsewhere.
pub open spec fn item_findings(table: &TypeTable, item: &Item) -> Seq<FindingView> {
    match item.kind {
        ItemKind::Impl { of_trait, self_ty, items } => if of_trait is None {
            method_findings_upto(table, item.span, self_ty as int, items@, items@.len() as int)
        } else {
            Seq::empty()
        },
        ItemKind::Other => Seq::empty(),
    }
}

/// The text of a `Default` impl for the type named `ty` that calls its `new`.
pub fn create_new_without_default_suggest_msg(ty: &Vec<char>) -> (r: Vec<char>)
    ensures
        r@ == default_impl_text(ty@),
{
    let mut r: Vec<char> = Vec::new();
    push_str(&mut r, "impl Default for ");
    push_chars(&mut r, ty);
    push_str(&mut r, " {\n    fn default() -> Self {\n        Self::new()\n    }\n}");
    r
}

/// The definition site of type `ty` when it is a struct whose fields all
/// implement `default_trait_id`, so that the trait can be derived; `None` otherwise.
/// Stops at the first field that does not implement it.
pub fn can_derive_default(ty: usize, table: &TypeTable, default_trait_id: u32) -> (r: Option<Span>)
    ensures
        r == derive_site(table, ty as int, default_trait_id),
{
    if ty >= table.types.len() {
        return None;
    }
    let fields = match &table.types[ty].kind {
        TyKind::Struct(fields) => fields,
        TyKind::Other => {
            return None;
        },
    };
    let mut i: usize = 0;
    while i < fields.len()
        invariant
            ty < table.types@.len(),
            table.ty(ty as int).kind == TyKind::Struct(*fields),
            i <= fields@.len(),
            forall|k: int| 0 <= k < i ==> #[trigger] table.implements(fields@[k] as int, default_trait_id),
        decreases fields@.len() - i,
    {
        if !table.implements_trait(fields[i], default_trait_id) {
            proof {
                let fs = table.ty(ty as int).kind->Struct_0@;
                assert(fs == fields@);
                assert(!table.implements(fs[i as int] as int, default_trait_id));
            }
            return None;
        }
        i = i + 1;
    }
    Some(table.types[ty].def_span)
}

fn is_new(name: &Vec<char>) -> (r: bool)
    ensures
        r == (name@ == "new"@),
{
    proof {
        reveal_strlit("new");
    }
    let r = name.len() == 3 && name[0] == 'n' && name[1] == 'e' && name[2] == 'w';
    proof {
        if r {
            assert(name@ =~= "new"@);
        }
    }
    r
}

/// The finding on associated item `it` of an inherent impl of `self_ty` spanning `impl_span`.
pub fn check_method(table: &TypeTable, impl_span: Span, self_ty: usize, it: &ImplItem) -> (r: Option<Finding>)
    ensures
        opt_view(r) == method_finding(table, impl_span, self_ty as int, *it),
{
    let ret_ty = match it.kind {
        ImplItemKind::Method { has_self: false, is_const: false, n_inputs: 0, n_type_params: 0, ret_ty } => ret_ty,
        _ => {
            return None;
        },
    };
    if !is_new(&it.name) || !it.reachable || it.span.in_macro() {
        return None;
    }
    if ret_ty != self_ty || self_ty >= table.types.len() {
        return None;
    }
    let default_trait_id = match table.get_default_trait() {
        Some(d) => d,
        None => {
            return None;
        },
    };
    if table.implements_trait(self_ty, default_trait_id) {
        return None;
    }
    let name = &table.types[self_ty].name;
    match can_derive_default(self_ty, table, default_trait_id) {
        Some(sp) => {
            let mut message: Vec<char> = Vec::new();
            push_str(&mut message, "you should consider deriving a `Default` implementation for `");
            push_chars(&mut message, name);
            push_str(&mut message, "`");
            let mut text: Vec<char> = Vec::new();
            push_str(&mut text, "#[derive(Default)]\n");
            Some(
                Finding {
                    lint: Lint::NewWithoutDefaultDerive,
                    span: it.span,
                    message,
                    suggestion: Suggestion {
                        span: sp.shrink_to_lo(),
                        text,
                        applicability: Applicability::MaybeIncorrect,
                    },
                },
            )
        },
        None => {
            let mut message: Vec<char> = Vec::new();
            push_str(&mut message, "you should consider adding a `Default` implementation for `");
            push_chars(&mut message, name);
            push_str(&mut message, "`");
            let text = create_new_without_default_suggest_msg(name);
            Some(
                Finding {
                    lint: Lint::NewWithoutDefault,
                    span: it.span,
                    message,
                    suggestion: Suggestion {
                        span: impl_span.shrink_to_hi(),
                        text,
                        applicability: Applicability::MaybeIncorrect,
                    },
                },
            )
        },
    }
}

impl NewWithoutDefault {
    pub fn get_lints(&self) -> (r: Vec<Lint>)
        ensures
            r@ == seq![Lint::NewWithoutDefault, Lint::NewWithoutDefaultDerive],
    {
        let mut r: Vec<Lint> = Vec::new();
        r.push(Lint::NewWithoutDefault);
        r.push(Lint::NewWithoutDefaultDerive);
        r
    }

    /// The findings on the associated functions of an inherent impl block, in order.
    pub fn check_item(&self, item: &Item, table: &TypeTable) -> (r: Vec<Finding>)
        ensures
            views_of(r@) == item_findings(table, item),
    {
        let mut r: Vec<Finding> = Vec::new();
        match &item.kind {
            ItemKind::Impl { of_trait: None, self_ty, items } => {
                let mut i: usize = 0;
                while i < items.len()
                    invariant
                        item.kind == (ItemKind::Impl { of_trait: None, self_ty: *self_ty, items: *items }),
                        i <= items@.len(),
                        views_of(r@) == method_findings_upto(table, item.span, *self_ty as int, items@, i as int),
                    decreases items@.len() - i,
                {
                    match check_method(table, item.span, *self_ty, &items[i]) {
                        Some(f) => {
                            r.push(f);
                            proof {
                                assert(views_of(r@) =~= method_findings_upto(
                                    table,
                                    item.span,
                                    *self_ty as int,
                                    items@,
                                    i + 1,
                                ));
                            }
                        },
                        None => {},
                    }
                    i = i + 1;
                }
            },
            _ => {},
        }
        r
    }
}

/// A generic `new`, a `const fn new`, an unreachable `new` and a `new` that
/// returns another type than the impl's are never reported.
pub proof fn lemma_constructor_skips(table: &TypeTable, impl_span: Span, self_ty: int, it: ImplItem)
    requires
        it.kind is Method,
        it.kind->Method_n_type_params > 0 || it.kind->Method_is_const || !it.reachable
            || it.kind->Method_ret_ty != self_ty,
    ensures
        method_finding(table, impl_span, self_ty, it) is None,
{
}

/// A struct with a field whose type does not implement the trait cannot derive
/// it, whatever its other fields are.
pub proof fn lemma_non_default_field_not_derivable(table: &TypeTable, t: int, tr: u32, k: int)
    requires
        table.has_type(t),
        table.ty(t).kind is Struct,
        0 <= k < table.ty(t).kind->Struct_0@.len(),
        !table.implements(table.ty(t).kind->Struct_0@[k] as int, tr),
    ensures
        derive_site(table, t, tr) is None,
{
}

/// A finding is made only for a type without `Default`, and its suggestion is
/// the derive attribute exactly when every field of the struct implements `Default`.
pub proof fn lemma_suggestion_kind(table: &TypeTable, impl_span: Span, self_ty: int, it: ImplItem)
    requires
        method_finding(table, impl_span, self_ty, it) is Some,
    ensures
        table.default_trait is Some,
        !table.implements(self_ty, table.default_trait->0),
        (method_finding(table, impl_span, self_ty, it)->0.lint == Lint::NewWithoutDefaultDerive)
            <==> derive_site(table, self_ty, table.default_trait->0) is Some,
        method_finding(table, impl_span, self_ty, it)->0.applicability == Applicability::MaybeIncorrect,
{
}

} // verus!
