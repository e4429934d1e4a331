//! What the rules report: findings with a suggested edit.
use vstd::prelude::*;
use crate::ast::Span;

verus! {

/// The rules whose findings this library produces.
#[derive(Clone, Copy, Debug, PartialEq, Eq, Structural)]
pub enum Lint {
    CollapsibleIf,
    NewWithoutDefault,
    NewWithoutDefaultDerive,
}

/// Whether a suggested edit can be applied without a human looking at it.
#[derive(Clone, Copy, Debug, PartialEq, Eq, Structural)]
pub enum Applicability {
    MachineApplicable,
    MaybeIncorrect,
}

/// Replace the text under `span` with `text` (an empty span inserts).
#[derive(Debug)]
pub struct Suggestion {
    pub span: Span,
    pub text: Vec<char>,
    pub applicability: Applicability,
}

#[derive(Debug)]
pub struct Finding {
    pub lint: Lint,
    pub span: Span,
    pub message: Vec<char>,
    pub suggestion: Suggestion,
}

/// A finding with its texts as sequences.
pub ghost struct FindingView {
    pub lint: Lint,
    pub span: Span,
    pub message: Seq<char>,
    pub sugg_span: Span,
    pub sugg_text: Seq<char>,
    pub applicability: Applicability,
}

impl View for Finding {
    type V = FindingView;

    open spec fn view(&self) -> FindingView {
        FindingView {
            lint: self.lint,
            span: self.span,
            message: self.message@,
            sugg_span: self.suggestion.span,
            sugg_text: self.suggestion.text@,
            applicability: self.suggestion.applicability,
        }
    }
}

/// The findings of `fs`, each seen through its view.
pub open spec fn views_of(fs: Seq<Finding>) -> Seq<FindingView> {
    fs.map_values(|f: Finding| f@)
}

/// An optional finding, seen through its view.
pub open spec fn opt_view(o: Option<Finding>) -> Option<FindingView> {
    match o {
        Some(f) => Some(f@),
        None => None,
    }
}

} // verus!
