use needless_if::rule::check_expr;
use needless_if::rule::is_any_if_let;
use needless_if::rule::rule_category;
use needless_if::rule::rule_description;
use needless_if::rule::rule_name;
use needless_if::rule::Applicability;
use needless_if::tree::ExprKind;
use needless_if::tree::ExprNode;
use needless_if::tree::Span;
use needless_if::tree::Tree;

fn node(kind: ExprKind, side_effects: bool, snippet: Option<&str>) -> ExprNode {
    ExprNode {
        kind,
        span: Span { lo: 0, hi: 0 },
        in_external_macro: false,
        from_proc_macro: false,
        can_have_side_effects: side_effects,
        snippet: snippet.map(String::from),
    }
}

fn leaf(side_effects: bool, snippet: Option<&str>) -> ExprNode {
    node(ExprKind::Other { children: vec![] }, side_effects, snippet)
}

fn empty_block() -> ExprNode {
    node(ExprKind::Block { stmts: vec![], tail: None }, false, None)
}

/// Builds `if <cond> {}` with the given condition node; returns the tree and
/// the index of the `if`.
fn needless_if_tree(cond_node: ExprNode) -> (Tree, usize) {
    let mut t = Tree::new();
    let cond = t.push(cond_node);
    let blk = t.push(empty_block());
    let iff = t.push(node(
        ExprKind::If { cond, then_branch: blk, else_branch: None },
        false,
        None,
    ));
    (t, iff)
}

#[test]
fn pure_condition_suggests_removal() {
    // `if x > 0 {}`: flagged, and the whole statement can go.
    let (t, iff) = needless_if_tree(leaf(false, Some("x > 0")));
    let d = check_expr(&t, iff).expect("expected a diagnostic");
    assert_eq!(d.rule, "needless_if");
    assert_eq!(d.message, "this conditional branch is empty");
    assert_eq!(d.label, "you can remove it");
    assert_eq!(d.replacement, "");
    assert_eq!(d.applicability, Applicability::MachineApplicable);
}

#[test]
fn side_effecting_condition_is_hoisted() {
    // `if expensive_call(&mut state) {}`: flagged, condition kept.
    let (t, iff) = needless_if_tree(leaf(true, Some("expensive_call(&mut state)")));
    let d = check_expr(&t, iff).expect("expected a diagnostic");
    assert_eq!(d.replacement, "expensive_call(&mut state);");
    assert_eq!(d.applicability, Applicability::MachineApplicable);
}

#[test]
fn flagged_span_is_the_whole_if() {
    let mut t = Tree::new();
    let cond = t.push(leaf(false, Some("x > 0")));
    let blk = t.push(empty_block());
    let mut if_node = node(
        ExprKind::If { cond, then_branch: blk, else_branch: None },
        false,
        None,
    );
    if_node.span = Span { lo: 4, hi: 17 };
    let iff = t.push(if_node);
    let d = check_expr(&t, iff).expect("expected a diagnostic");
    assert_eq!(d.span, Span { lo: 4, hi: 17 });
}

#[test]
fn else_branch_present_emits_nothing() {
    // `if x > 0 {} else { do_thing(); }`: the else arm saves it.
    let mut t = Tree::new();
    let cond = t.push(leaf(false, Some("x > 0")));
    let blk = t.push(empty_block());
    let call = t.push(leaf(true, Some("do_thing()")));
    let els = t.push(node(ExprKind::Block { stmts: vec![call], tail: None }, false, None));
    let iff = t.push(node(
        ExprKind::If { cond, then_branch: blk, else_branch: Some(els) },
        false,
        None,
    ));
    assert!(check_expr(&t, iff).is_none());
}

#[test]
fn nonempty_then_branch_emits_nothing() {
    // A statement in the branch: not needless.
    let mut t = Tree::new();
    let cond = t.push(leaf(false, Some("x > 0")));
    let stmt = t.push(leaf(true, Some("do_thing()")));
    let blk = t.push(node(ExprKind::Block { stmts: vec![stmt], tail: None }, false, None));
    let iff = t.push(node(
        ExprKind::If { cond, then_branch: blk, else_branch: None },
        false,
        None,
    ));
    assert!(check_expr(&t, iff).is_none());
}

#[test]
fn tail_expression_in_then_branch_emits_nothing() {
    let mut t = Tree::new();
    let cond = t.push(leaf(false, Some("x > 0")));
    let tail = t.push(leaf(false, Some("()")));
    let blk = t.push(node(ExprKind::Block { stmts: vec![], tail: Some(tail) }, false, None));
    let iff = t.push(node(
        ExprKind::If { cond, then_branch: blk, else_branch: None },
        false,
        None,
    ));
    assert!(check_expr(&t, iff).is_none());
}

#[test]
fn else_if_arm_is_not_an_independent_candidate() {
    // `if cond1 {} else if cond2 {}`: neither node is flagged — the outer
    // `if` has an else arm, and the inner one sits in that arm.
    let mut t = Tree::new();
    let cond1 = t.push(leaf(false, Some("cond1")));
    let blk1 = t.push(empty_block());
    let cond2 = t.push(leaf(false, Some("cond2")));
    let blk2 = t.push(empty_block());
    let inner = t.push(node(
        ExprKind::If { cond: cond2, then_branch: blk2, else_branch: None },
        false,
        None,
    ));
    let outer = t.push(node(
        ExprKind::If { cond: cond1, then_branch: blk1, else_branch: Some(inner) },
        false,
        None,
    ));
    assert!(check_expr(&t, inner).is_none());
    assert!(check_expr(&t, outer).is_none());
}

#[test]
fn standalone_copy_of_else_arm_is_flagged() {
    // The same `if cond2 {}` shape outside an else slot is a candidate.
    let (t, iff) = needless_if_tree(leaf(false, Some("cond2")));
    assert!(check_expr(&t, iff).is_some());
}

#[test]
fn let_test_condition_emits_nothing() {
    // `if let P = x {}`-shaped condition: suppressed.
    let mut t = Tree::new();
    let scrut = t.push(leaf(false, Some("x")));
    let cond = t.push(node(ExprKind::LetTest { scrutinee: scrut }, false, None));
    let blk = t.push(empty_block());
    let iff = t.push(node(
        ExprKind::If { cond, then_branch: blk, else_branch: None },
        false,
        None,
    ));
    assert!(check_expr(&t, iff).is_none());
}

#[test]
fn deeply_nested_let_test_emits_nothing() {
    // `if f(g(h(let P = x)))` {}: the pattern-binding test sits three calls
    // deep inside the condition and still suppresses the diagnostic.
    let mut t = Tree::new();
    let scrut = t.push(leaf(false, Some("x")));
    let lt = t.push(node(ExprKind::LetTest { scrutinee: scrut }, false, None));
    let h = t.push(node(ExprKind::Other { children: vec![lt] }, true, None));
    let g = t.push(node(ExprKind::Other { children: vec![h] }, true, None));
    let f = t.push(node(ExprKind::Other { children: vec![g] }, true, None));
    let blk = t.push(empty_block());
    let iff = t.push(node(
        ExprKind::If { cond: f, then_branch: blk, else_branch: None },
        false,
        None,
    ));
    assert!(check_expr(&t, iff).is_none());
}

#[test]
fn external_macro_code_emits_nothing() {
    // The same shape as a flagged candidate, but inside a macro expansion.
    let mut t = Tree::new();
    let cond = t.push(leaf(false, Some("x > 0")));
    let blk = t.push(empty_block());
    let mut if_node = node(
        ExprKind::If { cond, then_branch: blk, else_branch: None },
        false,
        None,
    );
    if_node.in_external_macro = true;
    let iff = t.push(if_node);
    assert!(check_expr(&t, iff).is_none());
}

#[test]
fn proc_macro_code_emits_nothing() {
    let mut t = Tree::new();
    let cond = t.push(leaf(false, Some("x > 0")));
    let blk = t.push(empty_block());
    let mut if_node = node(
        ExprKind::If { cond, then_branch: blk, else_branch: None },
        false,
        None,
    );
    if_node.from_proc_macro = true;
    let iff = t.push(if_node);
    assert!(check_expr(&t, iff).is_none());
}

#[test]
fn missing_snippet_degrades_confidence() {
    // The extractor could not recover the condition's text: the suggestion
    // falls back on a placeholder and is no longer automatic.
    let (t, iff) = needless_if_tree(leaf(true, None));
    let d = check_expr(&t, iff).expect("expected a diagnostic");
    assert_eq!(d.replacement, "{ ... };");
    assert_eq!(d.applicability, Applicability::HasPlaceholders);

    let (t2, iff2) = needless_if_tree(leaf(false, None));
    let d2 = check_expr(&t2, iff2).expect("expected a diagnostic");
    assert_eq!(d2.replacement, "");
    assert_eq!(d2.applicability, Applicability::HasPlaceholders);
}

#[test]
fn exactly_one_diagnostic_per_candidate() {
    // A full traversal of the tree around one candidate yields one
    // diagnostic in all.
    let (t, _) = needless_if_tree(leaf(false, Some("x > 0")));
    let mut emitted = 0;
    let mut id = 0;
    while id < t.len() {
        if check_expr(&t, id).is_some() {
            emitted += 1;
        }
        id += 1;
    }
    assert_eq!(emitted, 1);
}

#[test]
fn rewrite_is_idempotent() {
    // `if expensive_call(&mut state) {}` rewrites to the hoisted call; the
    // tree that results from applying the replacement holds the call where
    // the `if` stood, and a re-run over it finds nothing.
    let (t, iff) = needless_if_tree(leaf(true, Some("expensive_call(&mut state)")));
    let d = check_expr(&t, iff).expect("expected a diagnostic");
    assert_eq!(d.replacement, "expensive_call(&mut state);");

    let mut rewritten = Tree::new();
    rewritten.push(leaf(true, Some("expensive_call(&mut state)")));
    let mut id = 0;
    while id < rewritten.len() {
        assert!(check_expr(&rewritten, id).is_none());
        id += 1;
    }

    // The pure variant rewrites to nothing at all: the tree that results
    // holds no node where the `if` stood.
    let (t2, iff2) = needless_if_tree(leaf(false, Some("x > 0")));
    let d2 = check_expr(&t2, iff2).expect("expected a diagnostic");
    assert_eq!(d2.replacement, "");
    let empty = Tree::new();
    assert_eq!(empty.len(), 0);
}

#[test]
fn pattern_binding_search_walks_every_subexpression() {
    let mut t = Tree::new();
    let plain = t.push(leaf(false, Some("x")));
    assert!(!is_any_if_let(&t, plain));

    let scrut = t.push(leaf(false, Some("y")));
    let lt = t.push(node(ExprKind::LetTest { scrutinee: scrut }, false, None));
    assert!(is_any_if_let(&t, lt));

    // The test hides inside a block's tail expression.
    let blk = t.push(node(ExprKind::Block { stmts: vec![plain], tail: Some(lt) }, false, None));
    assert!(is_any_if_let(&t, blk));

    // A block with no pattern-binding test anywhere.
    let other = t.push(node(ExprKind::Block { stmts: vec![plain], tail: None }, false, None));
    assert!(!is_any_if_let(&t, other));
}

#[test]
fn registration_names_the_rule() {
    assert_eq!(rule_name(), "needless_if");
    assert_eq!(rule_category(), "complexity");
    assert_eq!(rule_description(), "checks for empty if branches");
}
