//! Properties of the rule, stated over the same spec functions that
//! [`crate::rule::check_expr`] is specified with and proved once and for all.

use vstd::prelude::*;

use crate::rule::Applicability;
use crate::rule::lemma_any_let_among_exists;
use crate::rule::spec_any_let;
use crate::rule::spec_applicability;
use crate::rule::spec_cond;
use crate::rule::spec_empty_then;
use crate::rule::spec_is_else_arm;
use crate::rule::spec_matches;
use crate::rule::spec_replacement;
use crate::tree::ExprKind;
use crate::tree::ExprNode;
use crate::tree::Tree;
use crate::tree::spec_children;

verus! {

/// A conditional whose branch holds a statement or a tail expression, or
/// which carries an `else` arm, is never flagged.
pub proof fn lemma_nonempty_or_else_never_flagged(t: Tree, id: int)
    requires
        t.nodes@[id].kind matches ExprKind::If { then_branch, else_branch, .. } && (else_branch
            is Some || !spec_empty_then(t.nodes@, then_branch as int)),
    ensures
        !spec_matches(t, id),
{
}

/// A node that is not a conditional at all is never flagged.
pub proof fn lemma_non_conditional_never_flagged(t: Tree, id: int)
    requires
        !(t.nodes@[id].kind is If),
    ensures
        !spec_matches(t, id),
{
}

/// A conditional with an empty branch and no `else` arm, not standing as the
/// `else` arm of an enclosing conditional, with no pattern-binding test
/// anywhere in its condition, and not originating from an external or
/// generated region, is flagged.
pub proof fn lemma_needless_if_flagged(t: Tree, id: int)
    requires
        0 <= id < t.nodes@.len(),
        t.nodes@[id].kind matches ExprKind::If { cond, then_branch, else_branch } && else_branch
            is None && spec_empty_then(t.nodes@, then_branch as int) && !spec_any_let(
            t.nodes@,
            cond as int,
        ),
        !t.nodes@[id].in_external_macro,
        !t.nodes@[id].from_proc_macro,
        !spec_is_else_arm(t, id),
    ensures
        spec_matches(t, id),
{
}

/// A side-effect-free condition leads to a plain deletion: the suggested
/// replacement is the empty string.
pub proof fn lemma_pure_condition_empty_replacement(t: Tree, id: int)
    requires
        !t.nodes@[spec_cond(t.nodes@[id].kind)].can_have_side_effects,
    ensures
        spec_replacement(t, id) == Seq::<char>::empty(),
{
}

/// A side-effecting condition is hoisted: when its source text was recovered
/// exactly, the suggested replacement is that text followed by a statement
/// terminator, and the rewrite is marked safe to apply automatically.
pub proof fn lemma_side_effect_hoists_condition(t: Tree, id: int)
    requires
        t.nodes@[spec_cond(t.nodes@[id].kind)].can_have_side_effects,
    ensures
        t.nodes@[spec_cond(t.nodes@[id].kind)].snippet matches Some(s) ==> spec_replacement(t, id)
            == s@ + ";"@,
        t.nodes@[spec_cond(t.nodes@[id].kind)].snippet is Some ==> spec_applicability(t, id)
            == Applicability::MachineApplicable,
        t.nodes@[spec_cond(t.nodes@[id].kind)].snippet is None ==> spec_applicability(t, id)
            == Applicability::HasPlaceholders,
{
}

/// The `else` arm of an `if … else if …` chain is never flagged on its own:
/// a conditional stored in its parent's `else` slot fails the parent-aware
/// structural match, whatever its own shape.
pub proof fn lemma_else_arm_never_flagged(t: Tree, outer: usize, inner: usize)
    requires
        (outer as int) < t.nodes@.len(),
        (inner as int) < t.parent@.len(),
        t.nodes@[outer as int].kind matches ExprKind::If { else_branch, .. } && else_branch
            == Some(inner),
        t.parent@[inner as int] == Some(outer),
    ensures
        !spec_matches(t, inner as int),
{
}

/// A pattern-binding test anywhere inside the condition suppresses the
/// diagnostic, however deep it is nested.
pub proof fn lemma_let_in_condition_suppresses(t: Tree, id: int)
    requires
        spec_any_let(t.nodes@, spec_cond(t.nodes@[id].kind)),
    ensures
        !spec_matches(t, id),
{
}

/// A node originating from procedural code generation, or lying in an
/// external or generated region, is never flagged, whatever its shape.
pub proof fn lemma_generated_code_never_flagged(t: Tree, id: int)
    requires
        t.nodes@[id].from_proc_macro || t.nodes@[id].in_external_macro,
    ensures
        !spec_matches(t, id),
{
}

/// The pattern-binding search sees through nesting: a hit inside any child
/// subtree is a hit for the node above it, so a test at any depth reaches the
/// root of the searched condition.
pub proof fn lemma_any_let_through_child(nodes: Seq<ExprNode>, id: int, c: usize)
    requires
        0 <= id < nodes.len(),
        spec_children(nodes[id].kind).contains(c),
        (c as int) < id,
        spec_any_let(nodes, c as int),
    ensures
        spec_any_let(nodes, id),
{
    if nodes[id].kind is LetTest {
    } else {
        let kids = spec_children(nodes[id].kind);
        lemma_any_let_among_exists(nodes, kids, id);
        let j = choose|j: int| 0 <= j < kids.len() && kids[j] == c;
        assert((kids[j] as int) < id && spec_any_let(nodes, kids[j] as int));
    }
}

/// Idempotence of the suggested rewrite. An accepted suggestion either
/// deletes the flagged statement outright — nothing remains at its location —
/// or hoists the condition, so that the expression now standing there is the
/// condition itself. The condition of an `if` is a boolean expression, and an
/// `if` with an empty branch and no `else` has unit type, never boolean; for
/// any tree whose condition respects that typing, re-running the rule on the
/// hoisted condition finds no match, wherever the rewrite left it standing
/// in the parent map.
pub proof fn lemma_rewrite_never_reflagged(t: Tree, id: int, rewritten: Tree)
    requires
        spec_matches(t, id),
        rewritten.nodes@ == t.nodes@,
        !(t.nodes@[spec_cond(t.nodes@[id].kind)].kind matches ExprKind::If {
            then_branch,
            else_branch,
            ..
        } && else_branch is None && spec_empty_then(t.nodes@, then_branch as int)),
    ensures
        !spec_matches(rewritten, spec_cond(t.nodes@[id].kind)),
{
}

} // verus!
