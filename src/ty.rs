//! Resolved type facts: the types of a program, their fields and the traits they implement.
use vstd::prelude::*;
use crate::ast::Span;

verus! {

/// The structure of a type: a struct with the types of its fields in declared
/// order (indices into `TypeTable::types`), or any other type.
#[derive(Debug)]
pub enum TyKind {
    Struct(Vec<usize>),
    Other,
}

/// One type: its displayed name, structure, definition site and the traits it implements.
#[derive(Debug)]
pub struct TyDef {
    pub name: Vec<char>,
    pub kind: TyKind,
    pub def_span: Span,
    pub impls: Vec<u32>,
}

/// The types of a program, indexed by type id, and the id of the `Default`
/// trait where it can be resolved.
#[derive(Debug)]
pub struct TypeTable {
    pub types: Vec<TyDef>,
    pub default_trait: Option<u32>,
}

impl TypeTable {
    pub open spec fn has_type(&self, t: int) -> bool {
        0 <= t < self.types@.len()
    }

    pub open spec fn ty(&self, t: int) -> TyDef {
        self.types@[t]
    }

    /// Type `t` is known and implements trait `tr`; an unknown type implements nothing.
    pub open spec fn implements(&self, t: int, tr: u32) -> bool {
        self.has_type(t) && self.ty(t).impls@.contains(tr)
    }

    pub fn implements_trait(&self, t: usize, tr: u32) -> (r: bool)
        ensures
            r == self.implements(t as int, tr),
    {
        if t >= self.types.len() {
            return false;
        }
        let impls = &self.types[t].impls;
        let mut i: usize = 0;
        while i < impls.len()
            invariant
                t < self.types@.len(),
                impls == self.types@[t as int].impls,
                i <= impls@.len(),
                forall|k: int| 0 <= k < i ==> impls@[k] != tr,
            decreases impls@.len() - i,
        {
            if impls[i] == tr {
                return true;
            }
            i = i + 1;
        }
        false
    }

    /// The id of the `Default` trait, where it can be resolved.
    pub fn get_default_trait(&self) -> (r: Option<u32>)
        ensures
            r == self.default_trait,
    {
        self.default_trait
    }
}

} // verus!
