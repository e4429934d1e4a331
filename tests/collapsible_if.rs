use clippy_lints::ast::{Ast, BinOpKind, Block, Expr, ExprKind, RangeLimits, Span, Stmt};
use clippy_lints::collapsible_if::{check_if, expr_block, sugg_and, CollapsibleIf};
use clippy_lints::diagnostics::{Applicability, Finding, Lint};

fn sp(lo: usize, hi: usize) -> Span {
    Span { lo, hi, ctxt: 0 }
}

fn ex(kind: ExprKind, span: Span) -> Expr {
    Expr { kind, span }
}

fn blk(stmts: Vec<Stmt>, span: Span) -> Block {
    Block { stmts, span }
}

fn chars(s: &str) -> Vec<char> {
    s.chars().collect()
}

fn text(v: &[char]) -> String {
    v.iter().collect()
}

fn at(src: &str, part: &str) -> Span {
    let lo = src.find(part).unwrap();
    sp(lo, lo + part.len())
}

/// `if x { if y { z(); } }`, with the inner `if` in expansion context `inner_ctxt`.
fn nested(inner_ctxt: u32) -> Ast {
    let src = "if x { if y { z(); } }";
    let mut inner = sp(7, 20);
    inner.ctxt = inner_ctxt;
    Ast {
        source: chars(src),
        exprs: vec![
            ex(ExprKind::If { cond: 1, then: 0, els: None }, sp(0, 22)),
            ex(ExprKind::Other, sp(3, 4)),
            ex(ExprKind::If { cond: 3, then: 1, els: None }, inner),
            ex(ExprKind::Other, sp(10, 11)),
            ex(ExprKind::Other, sp(14, 17)),
        ],
        blocks: vec![blk(vec![Stmt::Expr(2)], sp(5, 22)), blk(vec![Stmt::Semi(4)], sp(12, 20))],
    }
}

/// `if <outer> { if <inner> { d(); } }`, the conditions of the given kinds.
fn nested_conds(outer: &str, outer_kind: ExprKind, inner: &str, inner_kind: ExprKind) -> Ast {
    let src = format!("if {} {{ if {} {{ d(); }} }}", outer, inner);
    let o = sp(3, 3 + outer.len());
    let ib = 3 + outer.len() + 3;
    let i = sp(ib + 3, ib + 3 + inner.len());
    let then_lo = i.hi + 1;
    Ast {
        source: chars(&src),
        exprs: vec![
            ex(ExprKind::If { cond: 1, then: 0, els: None }, sp(0, src.len())),
            ex(outer_kind, o),
            ex(ExprKind::If { cond: 3, then: 1, els: None }, sp(ib, then_lo + 8)),
            ex(inner_kind, i),
            ex(ExprKind::Other, sp(then_lo + 2, then_lo + 5)),
        ],
        blocks: vec![
            blk(vec![Stmt::Expr(2)], sp(3 + outer.len() + 1, src.len())),
            blk(vec![Stmt::Semi(4)], sp(then_lo, then_lo + 8)),
        ],
    }
}

fn collapsed(ast: &Ast) -> Vec<String> {
    CollapsibleIf.check_ast(ast).iter().map(|f| text(&f.suggestion.text)).collect()
}

#[test]
fn nested_if_collapses_with_and() {
    let ast = nested(0);
    let fs = CollapsibleIf.check_ast(&ast);
    assert_eq!(fs.len(), 1);
    let f: &Finding = &fs[0];
    assert_eq!(f.lint, Lint::CollapsibleIf);
    assert_eq!(f.span, sp(0, 22));
    assert_eq!(text(&f.message), "this if statement can be collapsed");
    assert_eq!(f.suggestion.span, sp(0, 22));
    assert_eq!(text(&f.suggestion.text), "if x && y { z(); }");
    assert_eq!(f.suggestion.applicability, Applicability::MachineApplicable);
}

#[test]
fn nested_if_across_expansions_is_not_reported() {
    let ast = nested(1);
    assert!(CollapsibleIf.check_ast(&ast).is_empty());
    assert!(check_if(&ast, 0).is_none());
}

#[test]
fn macro_produced_if_is_not_checked() {
    let mut ast = nested(0);
    ast.exprs[0].span.ctxt = 2;
    ast.exprs[2].span.ctxt = 2;
    assert!(CollapsibleIf.check_expr(&ast, 0).is_none());
    assert!(check_if(&ast, 0).is_some());
}

#[test]
fn or_condition_outside_is_parenthesized() {
    let or = ExprKind::Binary(BinOpKind::Or);
    let ast = nested_conds("a || b", or, "c", ExprKind::Other);
    assert_eq!(collapsed(&ast), vec!["if (a || b) && c { d(); }".to_string()]);
}

#[test]
fn or_condition_inside_is_parenthesized() {
    let or = ExprKind::Binary(BinOpKind::Or);
    let ast = nested_conds("c", ExprKind::Other, "a || b", or);
    assert_eq!(collapsed(&ast), vec!["if c && (a || b) { d(); }".to_string()]);
}

#[test]
fn tighter_conditions_are_not_parenthesized() {
    let and = ExprKind::Binary(BinOpKind::And);
    let eq = ExprKind::Binary(BinOpKind::Eq);
    let ast = nested_conds("a && b", and, "x == 1", eq);
    assert_eq!(collapsed(&ast), vec!["if a && b && x == 1 { d(); }".to_string()]);
    let ast = nested_conds("!a", ExprKind::Other, "x as bool", ExprKind::Cast);
    assert_eq!(collapsed(&ast), vec!["if !a && x as bool { d(); }".to_string()]);
}

#[test]
fn looser_operators_are_parenthesized() {
    let ast = nested_conds("a..b", ExprKind::Range(RangeLimits::HalfOpen), "x = y", ExprKind::Assign);
    assert_eq!(sugg_and(&ast, 1, 3), chars("(a..b) && (x = y)"));
    let ast = nested_conds("x += 1", ExprKind::AssignOp(BinOpKind::Add), "c", ExprKind::Other);
    assert_eq!(sugg_and(&ast, 1, 3), chars("(x += 1) && c"));
}

fn else_if_ast() -> Ast {
    let src = "if x { a(); } else { if y { b(); } }";
    Ast {
        source: chars(src),
        exprs: vec![
            ex(ExprKind::If { cond: 1, then: 0, els: Some(3) }, sp(0, 36)),
            ex(ExprKind::Other, at(src, "x")),
            ex(ExprKind::Other, at(src, "a()")),
            ex(ExprKind::Block(1), sp(19, 36)),
            ex(ExprKind::If { cond: 5, then: 2, els: None }, sp(21, 34)),
            ex(ExprKind::Other, at(src, "y")),
            ex(ExprKind::Other, at(src, "b()")),
        ],
        blocks: vec![
            blk(vec![Stmt::Semi(2)], sp(5, 13)),
            blk(vec![Stmt::Expr(4)], sp(19, 36)),
            blk(vec![Stmt::Semi(6)], sp(26, 34)),
        ],
    }
}

#[test]
fn else_block_with_only_if_collapses() {
    let ast = else_if_ast();
    let fs = CollapsibleIf.check_ast(&ast);
    assert_eq!(fs.len(), 1);
    assert_eq!(fs[0].span, sp(19, 36));
    assert_eq!(text(&fs[0].message), "this `else { if .. }` block can be collapsed");
    assert_eq!(fs[0].suggestion.span, sp(19, 36));
    assert_eq!(text(&fs[0].suggestion.text), "if y { b(); }");
    assert_eq!(fs[0].suggestion.applicability, Applicability::MachineApplicable);
}

#[test]
fn else_block_with_macro_if_is_not_reported() {
    let mut ast = else_if_ast();
    ast.exprs[4].span.ctxt = 3;
    assert!(CollapsibleIf.check_ast(&ast).is_empty());
}

#[test]
fn else_block_of_if_let_collapses() {
    let mut ast = else_if_ast();
    ast.exprs[0].kind = ExprKind::IfLet { scrutinee: 1, then: 0, els: Some(3) };
    ast.exprs[4].kind = ExprKind::IfLet { scrutinee: 5, then: 2, els: None };
    assert_eq!(collapsed(&ast), vec!["if y { b(); }".to_string()]);
}

#[test]
fn else_block_with_more_statements_is_not_reported() {
    let mut ast = else_if_ast();
    ast.blocks[1].stmts.push(Stmt::Semi(6));
    assert!(CollapsibleIf.check_ast(&ast).is_empty());
    ast.blocks[1].stmts = vec![Stmt::Local];
    assert!(CollapsibleIf.check_ast(&ast).is_empty());
}

#[test]
fn else_chain_gives_a_finding_per_level() {
    let src = "if a {} else { if b {} else { if c {} } }";
    let ast = Ast {
        source: chars(src),
        exprs: vec![
            ex(ExprKind::If { cond: 1, then: 0, els: Some(2) }, sp(0, 41)),
            ex(ExprKind::Other, sp(3, 4)),
            ex(ExprKind::Block(1), sp(13, 41)),
            ex(ExprKind::If { cond: 4, then: 2, els: Some(5) }, sp(15, 39)),
            ex(ExprKind::Other, sp(18, 19)),
            ex(ExprKind::Block(3), sp(28, 39)),
            ex(ExprKind::If { cond: 7, then: 4, els: None }, sp(30, 37)),
            ex(ExprKind::Other, sp(33, 34)),
        ],
        blocks: vec![
            blk(vec![], sp(5, 7)),
            blk(vec![Stmt::Expr(3)], sp(13, 41)),
            blk(vec![], sp(20, 22)),
            blk(vec![Stmt::Expr(6)], sp(28, 39)),
            blk(vec![], sp(35, 37)),
        ],
    };
    let fs = CollapsibleIf.check_ast(&ast);
    assert_eq!(fs.len(), 2);
    assert_eq!(fs[0].suggestion.span, sp(13, 41));
    assert_eq!(text(&fs[0].suggestion.text), "if b {} else { if c {} }");
    assert_eq!(fs[1].suggestion.span, sp(28, 39));
    assert_eq!(text(&fs[1].suggestion.text), "if c {}");
}

#[test]
fn expr_block_takes_the_sole_expression() {
    let ast = else_if_ast();
    assert_eq!(expr_block(&ast, 0), Some(2));
    assert_eq!(expr_block(&ast, 1), Some(4));
    assert_eq!(expr_block(&ast, 9), None);
    let mut ast = ast;
    ast.blocks[0].stmts = vec![Stmt::Item];
    assert_eq!(expr_block(&ast, 0), None);
    ast.blocks[0].stmts = vec![];
    assert_eq!(expr_block(&ast, 0), None);
}

#[test]
fn unavailable_source_gives_placeholder() {
    let mut ast = nested(0);
    ast.exprs[1].span = sp(30, 40);
    assert_eq!(collapsed(&ast), vec!["if .. && y { z(); }".to_string()]);
}

#[test]
fn multi_line_nested_if_is_reindented() {
    let src = "if x {\n    if y {\n        z();\n    }\n}";
    let inner_lo = src.find("if y").unwrap();
    let body_lo = src.find("{\n        z").unwrap();
    let inner_hi = src.rfind("}\n}").unwrap() + 1;
    let ast = Ast {
        source: chars(src),
        exprs: vec![
            ex(ExprKind::If { cond: 1, then: 0, els: None }, sp(0, src.len())),
            ex(ExprKind::Other, at(src, "x")),
            ex(ExprKind::If { cond: 3, then: 1, els: None }, sp(inner_lo, inner_hi)),
            ex(ExprKind::Other, at(src, "y")),
            ex(ExprKind::Other, at(src, "z()")),
        ],
        blocks: vec![blk(vec![Stmt::Expr(2)], sp(5, src.len())), blk(vec![Stmt::Semi(4)], sp(body_lo, inner_hi))],
    };
    assert_eq!(collapsed(&ast), vec!["if x && y {\n    z();\n}".to_string()]);
}

#[test]
fn multi_line_else_if_is_reindented() {
    let src = "if x {\n} else {\n    if y {\n        b();\n    }\n}";
    let block_lo = src.find("{\n    if").unwrap();
    let inner_lo = src.find("if y").unwrap();
    let inner_hi = src.rfind("}\n}").unwrap() + 1;
    let ast = Ast {
        source: chars(src),
        exprs: vec![
            ex(ExprKind::If { cond: 1, then: 0, els: Some(2) }, sp(0, src.len())),
            ex(ExprKind::Other, at(src, "x")),
            ex(ExprKind::Block(1), sp(block_lo, src.len())),
            ex(ExprKind::If { cond: 4, then: 2, els: None }, sp(inner_lo, inner_hi)),
            ex(ExprKind::Other, at(src, "y")),
        ],
        blocks: vec![
            blk(vec![], sp(5, 8)),
            blk(vec![Stmt::Expr(3)], sp(block_lo, src.len())),
            blk(vec![Stmt::Semi(5)], sp(src.find("{\n        b").unwrap(), inner_hi)),
        ],
    };
    let fs = CollapsibleIf.check_ast(&ast);
    assert_eq!(fs.len(), 1);
    assert_eq!(text(&fs[0].suggestion.text), "if y {\n    b();\n}");
}

#[test]
fn lints_are_listed() {
    assert_eq!(CollapsibleIf.get_lints(), vec![Lint::CollapsibleIf]);
}
