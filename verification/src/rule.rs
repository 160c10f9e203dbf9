//! The rule itself: recognising a needless `if`, the suppression checks, and
//! the diagnostic with its suggested rewrite.
//!
//! A visited node is flagged when it is an `if` whose then-branch is a block
//! with no statements and no tail expression, it carries no `else` arm, it
//! does not lie in an external or generated region, and it is not itself the
//! `else` arm of an enclosing conditional. A structural match is still
//! withheld when the condition contains a pattern-binding test anywhere
//! inside it, or when the node comes from procedural code generation. The
//! suggested replacement deletes the whole statement when the condition is
//! side-effect-free, and otherwise hoists the condition's source text,
//! followed by a statement terminator.

use vstd::prelude::*;

use crate::tree::ExprKind;
use crate::tree::ExprNode;
use crate::tree::Span;
use crate::tree::Tree;
use crate::tree::lemma_child_below;
use crate::tree::spec_children;

verus! {

/// How safely the suggested rewrite can be applied automatically.
#[derive(Clone, Copy, Debug, PartialEq, Eq, Structural)]
pub enum Applicability {
    /// The rewrite is exact and can be applied as it stands.
    MachineApplicable,
    /// The rewrite contains placeholder text and needs manual review.
    HasPlaceholders,
}

/// One emitted diagnostic: everything the host's renderer is handed.
#[derive(Debug)]
pub struct Diagnostic {
    /// The rule's identifying name.
    pub rule: String,
    /// The flagged range: the whole `if`, header through closing brace.
    pub span: Span,
    /// The human-readable description of the finding.
    pub message: String,
    /// The label shown next to the suggested rewrite.
    pub label: String,
    /// The text that replaces the flagged range.
    pub replacement: String,
    /// Whether the rewrite is safe to apply automatically.
    pub applicability: Applicability,
}

/// The rule's identifying name.
pub open spec fn spec_rule_name() -> Seq<char> {
    "needless_if"@
}

/// The rule's category in the host's registry.
pub open spec fn spec_rule_category() -> Seq<char> {
    "complexity"@
}

/// The rule's one-line description.
pub open spec fn spec_rule_description() -> Seq<char> {
    "checks for empty if branches"@
}

/// The fixed diagnostic message.
pub open spec fn spec_message() -> Seq<char> {
    "this conditional branch is empty"@
}

/// The fixed suggestion label.
pub open spec fn spec_label() -> Seq<char> {
    "you can remove it"@
}

/// The placeholder the snippet extractor falls back on when it cannot
/// recover the exact source text.
pub open spec fn spec_placeholder() -> Seq<char> {
    "{ ... }"@
}

/// The condition child of a conditional node's shape; an out-of-range index
/// for any other shape, so that no node appears to be its own condition.
pub open spec fn spec_cond(k: ExprKind) -> int {
    match k {
        ExprKind::If { cond, .. } => cond as int,
        _ => -1,
    }
}

/// Whether some expression within the subtree rooted at `id` — the node
/// itself, or any descendant — is a pattern-binding test. Children are stored
/// below their parents, so the search is bounded by the node's own index.
pub open spec fn spec_any_let(nodes: Seq<ExprNode>, id: int) -> bool
    decreases id, 1int, 0int,
{
    if 0 <= id < nodes.len() {
        if nodes[id].kind is LetTest {
            true
        } else {
            spec_any_let_among(nodes, spec_children(nodes[id].kind), id)
        }
    } else {
        false
    }
}

/// Whether any of the child indices in `cs` that lie below `bound` roots a
/// subtree containing a pattern-binding test.
pub open spec fn spec_any_let_among(nodes: Seq<ExprNode>, cs: Seq<usize>, bound: int) -> bool
    decreases bound, 0int, cs.len(),
{
    if cs.len() == 0 {
        false
    } else {
        (if (cs[0] as int) < bound {
            spec_any_let(nodes, cs[0] as int)
        } else {
            false
        }) || spec_any_let_among(nodes, cs.drop_first(), bound)
    }
}

/// The search over a child list succeeds exactly when one of the children
/// roots a subtree containing a pattern-binding test.
pub proof fn lemma_any_let_among_exists(nodes: Seq<ExprNode>, cs: Seq<usize>, bound: int)
    ensures
        spec_any_let_among(nodes, cs, bound) <==> (exists|x: int|
            0 <= x < cs.len() && (#[trigger] cs[x] as int) < bound && spec_any_let(
                nodes,
                cs[x] as int,
            )),
    decreases cs.len(),
{
    if cs.len() > 0 {
        lemma_any_let_among_exists(nodes, cs.drop_first(), bound);
        if spec_any_let_among(nodes, cs, bound) {
            if (cs[0] as int) < bound && spec_any_let(nodes, cs[0] as int) {
                assert((cs[0] as int) < bound && spec_any_let(nodes, cs[0] as int));
            } else {
                let x = choose|x: int|
                    0 <= x < cs.drop_first().len() && (#[trigger] cs.drop_first()[x] as int)
                        < bound && spec_any_let(nodes, cs.drop_first()[x] as int);
                assert(cs.drop_first()[x] == cs[x + 1]);
                assert((cs[x + 1] as int) < bound && spec_any_let(nodes, cs[x + 1] as int));
            }
        }
        if exists|x: int|
            0 <= x < cs.len() && (#[trigger] cs[x] as int) < bound && spec_any_let(
                nodes,
                cs[x] as int,
            ) {
            let x = choose|x: int|
                0 <= x < cs.len() && (#[trigger] cs[x] as int) < bound && spec_any_let(
                    nodes,
                    cs[x] as int,
                );
            if x == 0 {
                assert(spec_any_let_among(nodes, cs, bound));
            } else {
                assert(cs.drop_first()[x - 1] == cs[x]);
                assert(spec_any_let_among(nodes, cs.drop_first(), bound));
            }
        }
    }
}

/// Whether the node at `b` is a block with no statements and no tail
/// expression: a syntactically empty branch.
pub open spec fn spec_empty_then(nodes: Seq<ExprNode>, b: int) -> bool {
    &&& 0 <= b < nodes.len()
    &&& (nodes[b].kind matches ExprKind::Block { stmts, tail } && stmts@.len() == 0
        && tail is None)
}

/// Whether the node at `id` sits in its parent's `else` slot: it is the
/// continuation of an `if … else if …` chain, not an independent candidate.
pub open spec fn spec_is_else_arm(t: Tree, id: int) -> bool {
    &&& 0 <= id < t.parent@.len()
    &&& (t.parent@[id] matches Some(p) && (p as int) < t.nodes@.len() && (t.nodes@[p as int].kind
        matches ExprKind::If { else_branch, .. } && else_branch == Some(id as usize)))
}

/// The structural match: an `if` with an empty then-block and no `else`,
/// written in the analysed source itself, and not standing as the `else` arm
/// of an enclosing conditional.
pub open spec fn spec_is_candidate(t: Tree, id: int) -> bool {
    &&& 0 <= id < t.nodes@.len()
    &&& (t.nodes@[id].kind matches ExprKind::If { cond, then_branch, else_branch }
        && else_branch is None && spec_empty_then(t.nodes@, then_branch as int))
    &&& !t.nodes@[id].in_external_macro
    &&& !spec_is_else_arm(t, id)
}

/// The suppression filter: a pattern-binding test anywhere inside the
/// condition, or a node that procedural code generation produced.
pub open spec fn spec_suppressed(t: Tree, id: int) -> bool {
    ||| spec_any_let(t.nodes@, spec_cond(t.nodes@[id].kind))
    ||| t.nodes@[id].from_proc_macro
}

/// Whether the rule emits a diagnostic for the node at `id`.
pub open spec fn spec_matches(t: Tree, id: int) -> bool {
    spec_is_candidate(t, id) && !spec_suppressed(t, id)
}

/// The condition's source text as the suggestion renders it: the extracted
/// snippet, or the placeholder when extraction failed.
pub open spec fn spec_snippet_or_placeholder(n: ExprNode) -> Seq<char> {
    match n.snippet {
        Some(s) => s@,
        None => spec_placeholder(),
    }
}

/// The suggested replacement for a flagged node: nothing when the condition
/// is side-effect-free, otherwise the condition's text followed by a
/// statement terminator.
pub open spec fn spec_replacement(t: Tree, id: int) -> Seq<char> {
    let c = spec_cond(t.nodes@[id].kind);
    if t.nodes@[c].can_have_side_effects {
        spec_snippet_or_placeholder(t.nodes@[c]) + ";"@
    } else {
        Seq::<char>::empty()
    }
}

/// The confidence of a flagged node's suggestion: automatic, unless the
/// condition's source text could not be recovered exactly.
pub open spec fn spec_applicability(t: Tree, id: int) -> Applicability {
    let c = spec_cond(t.nodes@[id].kind);
    if t.nodes@[c].snippet is Some {
        Applicability::MachineApplicable
    } else {
        Applicability::HasPlaceholders
    }
}

/// Whether any expression within the subtree rooted at `id` is a
/// pattern-binding test: a full recursive descent with first-match exit.
pub fn is_any_if_let(t: &Tree, id: usize) -> (r: bool)
    requires
        t.wf(),
        id < t.nodes@.len(),
    ensures
        r == spec_any_let(t.nodes@, id as int),
    decreases id,
{
    if let ExprKind::LetTest { .. } = &t.nodes[id].kind {
        return true;
    }
    let cs = crate::tree::children_of(&t.nodes[id].kind);
    let ghost kids = spec_children(t.nodes@[id as int].kind);
    let mut j: usize = 0;
    while j < cs.len()
        invariant
            t.wf(),
            id < t.nodes@.len(),
            j <= cs.len(),
            cs@ == spec_children(t.nodes@[id as int].kind),
            kids == cs@,
            forall|x: int|
                0 <= x < j ==> !((#[trigger] cs@[x] as int) < id && spec_any_let(
                    t.nodes@,
                    cs@[x] as int,
                )),
        decreases cs.len() - j,
    {
        let c = cs[j];
        proof {
            assert(kids[j as int] == c);
            assert(kids.contains(c));
            lemma_child_below(*t, id as int, c);
        }
        if is_any_if_let(t, c) {
            proof {
                lemma_any_let_among_exists(t.nodes@, kids, id as int);
                assert((kids[j as int] as int) < id && spec_any_let(t.nodes@, kids[j as int] as int));
            }
            return true;
        }
        j = j + 1;
    }
    proof {
        lemma_any_let_among_exists(t.nodes@, kids, id as int);
    }
    false
}

/// Inspects one visited node and returns the diagnostic to emit for it, if
/// any. Each node is handled independently: the result is `Some` exactly when
/// the node is a structurally needless `if` that no suppression check
/// withholds, and the diagnostic then carries the flagged span, the fixed
/// message and label, the suggested replacement, and its confidence.
pub fn check_expr(t: &Tree, id: usize) -> (r: Option<Diagnostic>)
    requires
        t.wf(),
        id < t.nodes@.len(),
    ensures
        r is Some <==> spec_matches(*t, id as int),
        r matches Some(d) ==> ({
            &&& d.rule@ == spec_rule_name()
            &&& d.span == t.nodes@[id as int].span
            &&& d.message@ == spec_message()
            &&& d.label@ == spec_label()
            &&& d.replacement@ == spec_replacement(*t, id as int)
            &&& d.applicability == spec_applicability(*t, id as int)
        }),
{
    let (cond, then_branch) = match &t.nodes[id].kind {
        ExprKind::If { cond, then_branch, else_branch } => {
            if else_branch.is_some() {
                return None;
            }
            (*cond, *then_branch)
        },
        _ => {
            return None;
        },
    };
    proof {
        let kids = spec_children(t.nodes@[id as int].kind);
        assert(kids.contains(cond)) by {
            assert(kids[0] == cond);
        }
        assert(kids.contains(then_branch)) by {
            assert(kids[1] == then_branch);
        }
        lemma_child_below(*t, id as int, cond);
        lemma_child_below(*t, id as int, then_branch);
    }
    let empty_then = match &t.nodes[then_branch].kind {
        ExprKind::Block { stmts, tail } => stmts.len() == 0 && tail.is_none(),
        _ => false,
    };
    if !empty_then {
        return None;
    }
    if t.nodes[id].in_external_macro {
        return None;
    }
    if let Some(p) = t.parent[id] {
        if let ExprKind::If { else_branch: Some(e), .. } = &t.nodes[p].kind {
            if *e == id {
                return None;
            }
        }
    }
    if is_any_if_let(t, cond) {
        return None;
    }
    if t.nodes[id].from_proc_macro {
        return None;
    }
    let cond_node = &t.nodes[cond];
    let (snip, applicability) = match &cond_node.snippet {
        Some(s) => (s.clone(), Applicability::MachineApplicable),
        None => ("{ ... }".to_owned(), Applicability::HasPlaceholders),
    };
    let replacement = if cond_node.can_have_side_effects {
        snip.concat(";")
    } else {
        String::new()
    };
    Some(
        Diagnostic {
            rule: "needless_if".to_owned(),
            span: t.nodes[id].span,
            message: "this conditional branch is empty".to_owned(),
            label: "you can remove it".to_owned(),
            replacement,
            applicability,
        },
    )
}

/// The rule's identifying name, as handed to the host's registry.
pub fn rule_name() -> (s: String)
    ensures
        s@ == spec_rule_name(),
{
    "needless_if".to_owned()
}

/// The rule's category, as handed to the host's registry.
pub fn rule_category() -> (s: String)
    ensures
        s@ == spec_rule_category(),
{
    "complexity".to_owned()
}

/// The rule's one-line description, as handed to the host's registry.
pub fn rule_description() -> (s: String)
    ensures
        s@ == spec_rule_description(),
{
    "checks for empty if branches".to_owned()
}

} // verus!
