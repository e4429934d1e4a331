//! Checks for `if` expressions that contain only an `if` expression:
//! `if x { if y { .. } }` can be written `if x && y { .. }`, and
//! `else { if y { .. } }` can be written `else if y { .. }`.
use vstd::prelude::*;
use crate::ast::{Ast, BinOpKind, ExprKind, Stmt};
use crate::diagnostics::{Applicability, Finding, FindingView, Lint, Suggestion, opt_view, views_of};
use crate::text::{blanks_removed, block_snippet_of, lemma_reindent_removes_blanks_only, push_chars, push_str, snippet, snippet_block, snippet_of};

verus! {

/// The rule on nested and `else`-nested `if` expressions.
#[derive(Clone, Copy, Debug)]
pub struct CollapsibleIf;

pub open spec fn else_if_message() -> Seq<char> {
    "this `else { if .. }` block can be collapsed"@
}

pub open spec fn nested_if_message() -> Seq<char> {
    "this if statement can be collapsed"@
}

/// The expression that a block consists of, when it has exactly one statement
/// and that statement is an expression, with or without a semicolon.
pub open spec fn block_expr(ast: &Ast, b: int) -> Option<usize> {
    if ast.has_block(b) && ast.block(b).stmts@.len() == 1 {
        match ast.block(b).stmts@[0] {
            Stmt::Expr(e) => Some(e),
            Stmt::Semi(e) => Some(e),
            _ => None,
        }
    } else {
        None
    }
}

/// The top operator of an expression of this kind binds less tightly than `&&`,
/// so that it needs parentheses as an operand of `&&`.
pub open spec fn binds_looser_than_and(k: ExprKind) -> bool {
    match k {
        ExprKind::Binary(op) => op == BinOpKind::Or,
        ExprKind::Assign => true,
        ExprKind::AssignOp(_) => true,
        ExprKind::Range(_) => true,
        _ => false,
    }
}

/// The source of expression `e`, parenthesized where it binds looser than `&&`.
pub open spec fn and_operand(ast: &Ast, e: int) -> Seq<char> {
    let s = snippet_of(ast.source@, ast.expr(e).span);
    if binds_looser_than_and(ast.expr(e).kind) {
        seq!['('] + s + seq![')']
    } else {
        s
    }
}

/// The condition `l && r` written from the sources of `l` and `r`.
pub open spec fn and_text(ast: &Ast, l: int, r: int) -> Seq<char> {
    and_operand(ast, l) + " && "@ + and_operand(ast, r)
}

/// The finding for an `if` whose `else` branch is expression `els`: there is one
/// when `els` is a block whose sole statement is an `if` or `if let` not produced
/// by a macro. The suggestion replaces the block by the source of that inner
/// `if`, re-indented as a block.
pub open spec fn else_if_finding(ast: &Ast, els: int) -> Option<FindingView> {
    if ast.has_expr(els) && ast.expr(els).kind is Block {
        let b = ast.expr(els).kind->Block_0;
        match block_expr(ast, b as int) {
            Some(inner) => {
                let ie = ast.expr(inner as int);
                if ast.has_expr(inner as int) && !ie.span.from_expansion() && (ie.kind is If
                    || ie.kind is IfLet) {
                    let bspan = ast.block(b as int).span;
                    Some(
                        FindingView {
                            lint: Lint::CollapsibleIf,
                            span: bspan,
                            message: else_if_message(),
                            sugg_span: bspan,
                            sugg_text: block_snippet_of(ast.source@, ie.span),
                            applicability: Applicability::MachineApplicable,
                        },
                    )
                } else {
                    None
                }
            },
            None => None,
        }
    } else {
        None
    }
}

/// The finding for `if cond then` (expression `e`, without `else`): there is one
/// when `then` consists of an `if` without `else` from the same expansion context
/// as `e`. The suggestion replaces `e` by `if <cond> && <inner cond> <inner block>`.
pub open spec fn nested_if_finding(ast: &Ast, e: int, cond: int, then: int) -> Option<FindingView> {
    match block_expr(ast, then) {
        Some(inner) => {
            let ie = ast.expr(inner as int);
            if ast.has_expr(inner as int) && ie.kind is If && ie.kind->If_els is None
                && ast.expr(e).span.ctxt == ie.span.ctxt && ast.has_expr(cond) && ast.has_expr(
                ie.kind->If_cond as int,
            ) && ast.has_block(ie.kind->If_then as int) {
                let content = ast.block(ie.kind->If_then as int).span;
                Some(
                    FindingView {
                        lint: Lint::CollapsibleIf,
                        span: ast.expr(e).span,
                        message: nested_if_message(),
                        sugg_span: ast.expr(e).span,
                        sugg_text: "if "@ + and_text(ast, cond, ie.kind->If_cond as int) + " "@
                            + block_snippet_of(ast.source@, content),
                        applicability: Applicability::MachineApplicable,
                    },
                )
            } else {
                None
            }
        },
        None => None,
    }
}

/// The verdict on expression `e`, whatever context produced it.
pub open spec fn if_verdict(ast: &Ast, e: int) -> Option<FindingView> {
    if ast.has_expr(e) {
        match ast.expr(e).kind {
            ExprKind::If { cond, then, els } => match els {
                Some(x) => else_if_finding(ast, x as int),
                None => nested_if_finding(ast, e, cond as int, then as int),
            },
            ExprKind::IfLet { els, .. } => match els {
                Some(x) => else_if_finding(ast, x as int),
                None => None,
            },
            _ => None,
        }
    } else {
        None
    }
}

/// The verdict on expression `e`: none for code produced by a macro.
pub open spec fn expr_verdict(ast: &Ast, e: int) -> Option<FindingView> {
    if ast.has_expr(e) && ast.expr(e).span.from_expansion() {
        None
    } else {
        if_verdict(ast, e)
    }
}

/// The findings on expressions `0..n`, in order.
pub open spec fn findings_upto(ast: &Ast, n: int) -> Seq<FindingView>
    decreases n,
{
    if n <= 0 {
        Seq::empty()
    } else {
        let prev = findings_upto(ast, n - 1);
        match expr_verdict(ast, n - 1) {
            Some(f) => prev.push(f),
            None => prev,
        }
    }
}

/// The findings on the whole tree.
pub open spec fn ast_findings(ast: &Ast) -> Seq<FindingView> {
    findings_upto(ast, ast.exprs@.len() as int)
}

/// If the block contains only one expression, returns it.
pub fn expr_block(ast: &Ast, block: usize) -> (r: Option<usize>)
    ensures
        r == block_expr(ast, block as int),
{
    if block >= ast.blocks.len() || ast.blocks[block].stmts.len() != 1 {
        return None;
    }
    match ast.blocks[block].stmts[0] {
        Stmt::Expr(e) => Some(e),
        Stmt::Semi(e) => Some(e),
        _ => None,
    }
}

fn needs_paren_under_and(k: ExprKind) -> (r: bool)
    ensures
        r == binds_looser_than_and(k),
{
    match k {
        ExprKind::Binary(op) => op == BinOpKind::Or,
        ExprKind::Assign => true,
        ExprKind::AssignOp(_) => true,
        ExprKind::Range(_) => true,
        _ => false,
    }
}

fn push_and_operand(out: &mut Vec<char>, ast: &Ast, e: usize)
    requires
        ast.has_expr(e as int),
    ensures
        final(out)@ == old(out)@ + and_operand(ast, e as int),
{
    let x = ast.exprs[e];
    let s = snippet(&ast.source, x.span);
    if needs_paren_under_and(x.kind) {
        out.push('(');
        push_chars(out, &s);
        out.push(')');
        proof {
            assert(out@ == old(out)@ + (seq!['('] + s@ + seq![')']));
        }
    } else {
        push_chars(out, &s);
    }
}

/// The condition `l && r` built from the sources of expressions `l` and `r`;
/// an operand whose operator binds looser than `&&` is parenthesized, the other is not.
pub fn sugg_and(ast: &Ast, l: usize, r: usize) -> (t: Vec<char>)
    requires
        ast.has_expr(l as int),
        ast.has_expr(r as int),
    ensures
        t@ == and_text(ast, l as int, r as int),
{
    let mut t: Vec<char> = Vec::new();
    push_and_operand(&mut t, ast, l);
    push_str(&mut t, " && ");
    push_and_operand(&mut t, ast, r);
    t
}

/// Checks the `else` branch `els` of an `if` or `if let` for a block holding only an `if`.
pub fn check_collapsible_maybe_if_let(ast: &Ast, els: usize) -> (r: Option<Finding>)
    ensures
        opt_view(r) == else_if_finding(ast, els as int),
{
    if els >= ast.exprs.len() {
        return None;
    }
    let block = match ast.exprs[els].kind {
        ExprKind::Block(b) => b,
        _ => {
            return None;
        },
    };
    let inner = match expr_block(ast, block) {
        Some(i) => i,
        None => {
            return None;
        },
    };
    if inner >= ast.exprs.len() || ast.exprs[inner].span.in_macro() {
        return None;
    }
    match ast.exprs[inner].kind {
        ExprKind::If { .. } => {},
        ExprKind::IfLet { .. } => {},
        _ => {
            return None;
        },
    }
    let bspan = ast.blocks[block].span;
    let mut message: Vec<char> = Vec::new();
    push_str(&mut message, "this `else { if .. }` block can be collapsed");
    let text = snippet_block(&ast.source, ast.exprs[inner].span);
    Some(
        Finding {
            lint: Lint::CollapsibleIf,
            span: bspan,
            message,
            suggestion: Suggestion {
                span: bspan,
                text,
                applicability: Applicability::MachineApplicable,
            },
        },
    )
}

/// Checks `if check then` (expression `expr`, without `else`) for a `then` block
/// holding only an `if` without `else`.
pub fn check_collapsible_no_if_let(ast: &Ast, expr: usize, check: usize, then: usize) -> (r: Option<Finding>)
    requires
        ast.has_expr(expr as int),
    ensures
        opt_view(r) == nested_if_finding(ast, expr as int, check as int, then as int),
{
    let inner = match expr_block(ast, then) {
        Some(i) => i,
        None => {
            return None;
        },
    };
    if inner >= ast.exprs.len() {
        return None;
    }
    let (check_inner, content) = match ast.exprs[inner].kind {
        ExprKind::If { cond, then: content, els: None } => (cond, content),
        _ => {
            return None;
        },
    };
    if ast.exprs[expr].span.ctxt != ast.exprs[inner].span.ctxt {
        return None;
    }
    if check >= ast.exprs.len() || check_inner >= ast.exprs.len() || content >= ast.blocks.len() {
        return None;
    }
    let mut text: Vec<char> = Vec::new();
    push_str(&mut text, "if ");
    let cond = sugg_and(ast, check, check_inner);
    push_chars(&mut text, &cond);
    push_str(&mut text, " ");
    let body = snippet_block(&ast.source, ast.blocks[content].span);
    push_chars(&mut text, &body);
    let mut message: Vec<char> = Vec::new();
    push_str(&mut message, "this if statement can be collapsed");
    let span = ast.exprs[expr].span;
    Some(
        Finding {
            lint: Lint::CollapsibleIf,
            span,
            message,
            suggestion: Suggestion { span, text, applicability: Applicability::MachineApplicable },
        },
    )
}

/// Checks expression `expr`: the `else` branch of an `if` or `if let`, or the
/// `then` block of an `if` without `else`.
pub fn check_if(ast: &Ast, expr: usize) -> (r: Option<Finding>)
    ensures
        opt_view(r) == if_verdict(ast, expr as int),
{
    if expr >= ast.exprs.len() {
        return None;
    }
    match ast.exprs[expr].kind {
        ExprKind::If { cond, then, els } => match els {
            Some(x) => check_collapsible_maybe_if_let(ast, x),
            None => check_collapsible_no_if_let(ast, expr, cond, then),
        },
        ExprKind::IfLet { els: Some(x), .. } => check_collapsible_maybe_if_let(ast, x),
        _ => None,
    }
}

impl CollapsibleIf {
    pub fn get_lints(&self) -> (r: Vec<Lint>)
        ensures
            r@ == seq![Lint::CollapsibleIf],
    {
        let mut r: Vec<Lint> = Vec::new();
        r.push(Lint::CollapsibleIf);
        r
    }

    /// The finding on expression `expr`, if any; code produced by a macro is not checked.
    pub fn check_expr(&self, ast: &Ast, expr: usize) -> (r: Option<Finding>)
        ensures
            opt_view(r) == expr_verdict(ast, expr as int),
    {
        if expr < ast.exprs.len() && ast.exprs[expr].span.in_macro() {
            None
        } else {
            check_if(ast, expr)
        }
    }

    /// The findings on every expression of the tree, in the order of `ast.exprs`.
    pub fn check_ast(&self, ast: &Ast) -> (r: Vec<Finding>)
        ensures
            views_of(r@) == ast_findings(ast),
    {
        let mut r: Vec<Finding> = Vec::new();
        let mut i: usize = 0;
        while i < ast.exprs.len()
            invariant
                i <= ast.exprs@.len(),
                views_of(r@) == findings_upto(ast, i as int),
            decreases ast.exprs@.len() - i,
        {
            match self.check_expr(ast, i) {
                Some(f) => {
                    r.push(f);
                    proof {
                        assert(views_of(r@) =~= findings_upto(ast, i + 1));
                    }
                },
                None => {},
            }
            i = i + 1;
        }
        r
    }
}

/// The verdict on a node depends on the tree alone: checking the same node of
/// the same unmodified tree again gives the same verdict.
pub proof fn lemma_verdict_repeatable(a: &Ast, b: &Ast, e: int)
    requires
        a.same_tree(b),
    ensures
        expr_verdict(a, e) == expr_verdict(b, e),
{
}

/// Collapsing `else { if .. }` keeps the inner `if` as written: the suggestion
/// replaces exactly the `else` block, and its text differs from the source of
/// the inner `if` only in spaces and tabs, that is, in indentation.
pub proof fn lemma_else_if_edit_keeps_inner(ast: &Ast, e: int)
    requires
        ast.has_expr(e),
        ast.expr(e).kind is If && ast.expr(e).kind->If_els is Some || ast.expr(e).kind is IfLet
            && ast.expr(e).kind->IfLet_els is Some,
        if_verdict(ast, e) is Some,
    ensures
        ({
            let f = if_verdict(ast, e)->0;
            let x = if ast.expr(e).kind is If {
                ast.expr(e).kind->If_els->0
            } else {
                ast.expr(e).kind->IfLet_els->0
            };
            let b = ast.expr(x as int).kind->Block_0 as int;
            let inner = block_expr(ast, b)->0;
            &&& f.sugg_span == ast.block(b).span
            &&& ast.expr(inner as int).kind is If || ast.expr(inner as int).kind is IfLet
            &&& blanks_removed(f.sugg_text) == blanks_removed(
                snippet_of(ast.source@, ast.expr(inner as int).span),
            )
        }),
{
    let x = if ast.expr(e).kind is If {
        ast.expr(e).kind->If_els->0
    } else {
        ast.expr(e).kind->IfLet_els->0
    };
    let b = ast.expr(x as int).kind->Block_0 as int;
    let inner = block_expr(ast, b)->0;
    lemma_reindent_removes_blanks_only(snippet_of(ast.source@, ast.expr(inner as int).span));
}

/// Nested `if`s from different macro-expansion contexts are never collapsed,
/// though the tree has the shape of the pattern.
pub proof fn lemma_no_collapse_across_expansions(ast: &Ast, e: int)
    requires
        ast.has_expr(e),
        ast.expr(e).kind is If,
        ast.expr(e).kind->If_els is None,
        block_expr(ast, ast.expr(e).kind->If_then as int) is Some,
        ({
            let inner = block_expr(ast, ast.expr(e).kind->If_then as int)->0;
            ast.has_expr(inner as int) && ast.expr(inner as int).span.ctxt != ast.expr(e).span.ctxt
        }),
    ensures
        expr_verdict(ast, e) is None,
{
}

/// Every finding on an expression is among the findings on the tree.
pub proof fn lemma_finding_reported(ast: &Ast, e: int, n: int)
    requires
        0 <= e < n,
        expr_verdict(ast, e) is Some,
    ensures
        findings_upto(ast, n).contains(expr_verdict(ast, e)->0),
    decreases n,
{
    if e == n - 1 {
        assert(findings_upto(ast, n).last() == expr_verdict(ast, e)->0);
    } else {
        lemma_finding_reported(ast, e, n - 1);
        let prev = findings_upto(ast, n - 1);
        let k = choose|k: int| 0 <= k < prev.len() && prev[k] == expr_verdict(ast, e)->0;
        assert(findings_upto(ast, n)[k] == prev[k]);
    }
}

/// In a chain of `else { if .. }` blocks, each level whose `else` block holds
/// only an `if` or `if let` is reported on its own, not just the outermost.
pub proof fn lemma_else_chain_levels_reported(ast: &Ast, e: int)
    requires
        ast.has_expr(e),
        !ast.expr(e).span.from_expansion(),
        else_if_finding(
            ast,
            (if ast.expr(e).kind is If {
                ast.expr(e).kind->If_els
            } else {
                ast.expr(e).kind->IfLet_els
            })->0 as int,
        ) is Some,
        ast.expr(e).kind is If && ast.expr(e).kind->If_els is Some || ast.expr(e).kind is IfLet
            && ast.expr(e).kind->IfLet_els is Some,
    ensures
        expr_verdict(ast, e) is Some,
        ast_findings(ast).contains(expr_verdict(ast, e)->0),
{
    lemma_finding_reported(ast, e, ast.exprs@.len() as int);
}

} // verus!
