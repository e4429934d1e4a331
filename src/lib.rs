//! Decision logic of two source-code lints: collapsible `if` expressions and
//! `new` constructors without a `Default` implementation.
use vstd::prelude::*;

pub mod ast;
pub mod collapsible_if;
pub mod diagnostics;
pub mod new_without_default;
pub mod text;
pub mod ty;

verus! {

} // verus!
