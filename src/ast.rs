//! The syntax tree that the collapsible-`if` rule reads, held as an arena:
//! expressions and blocks refer to each other by index.
use vstd::prelude::*;

verus! {

/// The expansion context of code written directly in the source, not produced by a macro.
pub const ROOT_CTXT: u32 = 0;

/// A half-open range `lo..hi` of character offsets into the source, with the
/// macro-expansion context that produced the code it covers.
#[derive(Clone, Copy, Debug, PartialEq, Eq, Structural)]
pub struct Span {
    pub lo: usize,
    pub hi: usize,
    pub ctxt: u32,
}

impl Span {
    /// The code under this span was produced by a macro expansion.
    pub open spec fn from_expansion(self) -> bool {
        self.ctxt != ROOT_CTXT
    }

    pub fn in_macro(&self) -> (r: bool)
        ensures
            r == self.from_expansion(),
    {
        self.ctxt != ROOT_CTXT
    }

    /// The empty span at the start of this one.
    pub open spec fn lo_point(self) -> Span {
        Span { lo: self.lo, hi: self.lo, ctxt: self.ctxt }
    }

    /// The empty span at the end of this one.
    pub open spec fn hi_point(self) -> Span {
        Span { lo: self.hi, hi: self.hi, ctxt: self.ctxt }
    }

    pub fn shrink_to_lo(&self) -> (r: Span)
        ensures
            r == self.lo_point(),
    {
        Span { lo: self.lo, hi: self.lo, ctxt: self.ctxt }
    }

    pub fn shrink_to_hi(&self) -> (r: Span)
        ensures
            r == self.hi_point(),
    {
        Span { lo: self.hi, hi: self.hi, ctxt: self.ctxt }
    }
}

/// Binary operators of the expression language.
#[derive(Clone, Copy, Debug, PartialEq, Eq, Structural)]
pub enum BinOpKind {
    Add,
    Sub,
    Mul,
    Div,
    Rem,
    And,
    Or,
    BitXor,
    BitAnd,
    BitOr,
    Shl,
    Shr,
    Eq,
    Lt,
    Le,
    Ne,
    Ge,
    Gt,
}

/// `a..b` or `a..=b`.
#[derive(Clone, Copy, Debug, PartialEq, Eq, Structural)]
pub enum RangeLimits {
    HalfOpen,
    Closed,
}

/// The shape of an expression, as far as the rules look into it.
/// `cond`, `scrutinee` and `els` index `Ast::exprs`; `then` and `Block` index `Ast::blocks`.
#[derive(Clone, Copy, Debug, PartialEq, Eq, Structural)]
pub enum ExprKind {
    /// `if cond then else els`
    If { cond: usize, then: usize, els: Option<usize> },
    /// `if let pat = scrutinee then else els`
    IfLet { scrutinee: usize, then: usize, els: Option<usize> },
    /// A block used as an expression, such as the block after `else`.
    Block(usize),
    /// `a op b`
    Binary(BinOpKind),
    /// `a = b`
    Assign,
    /// `a op= b`
    AssignOp(BinOpKind),
    /// `a..b`, `a..=b`
    Range(RangeLimits),
    /// `a as T`
    Cast,
    /// `a: T`
    Type,
    /// Any other expression: a path, a literal, a call, a unary operation, ...
    Other,
}

#[derive(Clone, Copy, Debug, PartialEq, Eq, Structural)]
pub struct Expr {
    pub kind: ExprKind,
    pub span: Span,
}

/// A statement of a block; expression statements index `Ast::exprs`.
#[derive(Clone, Copy, Debug, PartialEq, Eq, Structural)]
pub enum Stmt {
    Local,
    Item,
    /// An expression without a trailing semicolon.
    Expr(usize),
    /// An expression followed by a semicolon.
    Semi(usize),
    Mac,
}

#[derive(Debug)]
pub struct Block {
    pub stmts: Vec<Stmt>,
    pub span: Span,
}

/// A parsed source text: its characters and its expression and block nodes.
#[derive(Debug)]
pub struct Ast {
    pub source: Vec<char>,
    pub exprs: Vec<Expr>,
    pub blocks: Vec<Block>,
}

impl Ast {
    pub open spec fn has_expr(&self, e: int) -> bool {
        0 <= e < self.exprs@.len()
    }

    pub open spec fn has_block(&self, b: int) -> bool {
        0 <= b < self.blocks@.len()
    }

    pub open spec fn expr(&self, e: int) -> Expr {
        self.exprs@[e]
    }

    pub open spec fn block(&self, b: int) -> Block {
        self.blocks@[b]
    }

    /// Two trees hold the same source and the same nodes.
    pub open spec fn same_tree(&self, other: &Ast) -> bool {
        &&& self.source@ == other.source@
        &&& self.exprs@ == other.exprs@
        &&& self.blocks@.len() == other.blocks@.len()
        &&& forall|b: int|
            #![trigger self.blocks@[b]]
            0 <= b < self.blocks@.len() ==> self.blocks@[b].stmts@ == other.blocks@[b].stmts@
                && self.blocks@[b].span == other.blocks@[b].span
    }
}

} // verus!
