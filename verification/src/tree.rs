//! The expression tree that the rule reads, modelled as an arena.
//!
//! The host owns the parsed program; the rule only borrows it. Nodes live in
//! a vector and refer to their children by index, with every child stored
//! before its parent, so that recursion over a subtree is bounded by the
//! node's own index. A separate vector records each node's syntactic parent,
//! the host's answer to its parent-lookup query. The host's remaining
//! queries — provenance of a span, procedural generation, side-effect
//! freedom, source-text extraction — are recorded per node as plain values.

use vstd::prelude::*;

verus! {

/// A half-open range into the original source text, used to locate a node in
/// diagnostics and to name the text a suggestion replaces.
#[derive(Clone, Copy, Debug, PartialEq, Eq, Structural)]
pub struct Span {
    pub lo: usize,
    pub hi: usize,
}

/// The shape of one expression node. Children are indices into the arena.
#[derive(Debug)]
pub enum ExprKind {
    /// A conditional: condition, then-block, and optional `else` arm. An
    /// `else if` chain appears here as an `If` stored in the `else` slot.
    If { cond: usize, then_branch: usize, else_branch: Option<usize> },
    /// A block: its statements in order, then an optional tail expression.
    Block { stmts: Vec<usize>, tail: Option<usize> },
    /// A pattern-binding conditional test: evaluating it also destructures
    /// its scrutinee, so an empty branch after it can still be meaningful.
    LetTest { scrutinee: usize },
    /// Every other expression form; only its sub-expressions matter here.
    Other { children: Vec<usize> },
}

/// One expression node: its shape, its span, and the host's answers to the
/// queries the rule makes about it.
#[derive(Debug)]
pub struct ExprNode {
    pub kind: ExprKind,
    pub span: Span,
    /// Host answer: does the node's span lie in an external or generated
    /// region of source (for example, a macro expansion)?
    pub in_external_macro: bool,
    /// Host answer: does the node originate from procedural code generation?
    pub from_proc_macro: bool,
    /// Host answer: can evaluating this expression have observable side
    /// effects (calls, mutation, externally visible work)?
    pub can_have_side_effects: bool,
    /// Host answer: the exact source text of the node's span, when the
    /// extractor can recover it; `None` when it cannot (for example, a span
    /// that straddles a macro boundary).
    pub snippet: Option<String>,
}

/// The children of a node, in order: for a conditional its condition, then
/// branch and `else` arm; for a block its statements and tail; for a
/// pattern-binding test its scrutinee.
pub open spec fn spec_children(k: ExprKind) -> Seq<usize> {
    match k {
        ExprKind::If { cond, then_branch, else_branch } => match else_branch {
            Some(e) => seq![cond, then_branch, e],
            None => seq![cond, then_branch],
        },
        ExprKind::Block { stmts, tail } => match tail {
            Some(t) => stmts@.push(t),
            None => stmts@,
        },
        ExprKind::LetTest { scrutinee } => seq![scrutinee],
        ExprKind::Other { children } => children@,
    }
}

/// Every child index of a node with shape `k` lies strictly below `i`.
pub open spec fn children_below(k: ExprKind, i: int) -> bool {
    forall|j: int|
        0 <= j < spec_children(k).len() ==> (#[trigger] spec_children(k)[j]) < i
}

/// The expression tree: the nodes, children before parents, and for each node
/// the host's answer to "what is my syntactic parent".
pub struct Tree {
    pub nodes: Vec<ExprNode>,
    pub parent: Vec<Option<usize>>,
}

impl Tree {
    /// Well-formedness: one parent entry per node; every node's children come
    /// before it; and a recorded parent really has the node among its
    /// children.
    pub open spec fn wf(&self) -> bool {
        &&& self.parent@.len() == self.nodes@.len()
        &&& forall|i: int|
            0 <= i < self.nodes@.len() ==> children_below((#[trigger] self.nodes@[i]).kind, i)
        &&& forall|i: int|
            0 <= i < self.nodes@.len() ==> ((#[trigger] self.parent@[i]) matches Some(p) ==> (p
                as int) < self.nodes@.len() && spec_children(self.nodes@[p as int].kind).contains(
                i as usize,
            ))
    }

    /// An empty tree.
    pub fn new() -> (t: Tree)
        ensures
            t.wf(),
            t.nodes@.len() == 0,
    {
        Tree { nodes: Vec::new(), parent: Vec::new() }
    }

    /// How many nodes the tree holds.
    pub fn len(&self) -> (n: usize)
        ensures
            n == self.nodes@.len(),
    {
        self.nodes.len()
    }

    /// Appends a node whose children are already in the tree and returns its
    /// index. The new node has no parent; each of its children now records
    /// the new node as its parent.
    pub fn push(&mut self, node: ExprNode) -> (id: usize)
        requires
            old(self).wf(),
            children_below(node.kind, old(self).nodes@.len() as int),
        ensures
            final(self).wf(),
            id == old(self).nodes@.len(),
            final(self).nodes@ == old(self).nodes@.push(node),
            final(self).parent@.len() == id + 1,
            final(self).parent@[id as int] is None,
            forall|j: int|
                0 <= j < id ==> #[trigger] final(self).parent@[j] == (if spec_children(
                    node.kind,
                ).contains(j as usize) {
                    Some(id)
                } else {
                    old(self).parent@[j]
                }),
    {
        let ghost gnode = node;
        let id = self.nodes.len();
        let cs = children_of(&node.kind);
        self.nodes.push(node);
        self.parent.push(None);
        let ghost old_parent = old(self).parent@;
        let mut k: usize = 0;
        while k < cs.len()
            invariant
                k <= cs.len(),
                cs@ == spec_children(gnode.kind),
                self.nodes@ == old(self).nodes@.push(gnode),
                id == old(self).nodes@.len(),
                self.parent@.len() == id + 1,
                self.parent@[id as int] is None,
                forall|x: int| 0 <= x < cs@.len() ==> (#[trigger] cs@[x]) < id,
                forall|j: int|
                    0 <= j < id ==> #[trigger] self.parent@[j] == (if (exists|x: int|
                        0 <= x < k && cs@[x] == j as usize) {
                        Some(id)
                    } else {
                        old_parent[j]
                    }),
            decreases cs.len() - k,
        {
            let c = cs[k];
            self.parent.set(c, Some(id));
            proof {
                assert forall|j: int| 0 <= j < id implies #[trigger] self.parent@[j] == (if (
                exists|x: int| 0 <= x < k + 1 && cs@[x] == j as usize) {
                    Some(id)
                } else {
                    old_parent[j]
                }) by {
                    if j == c as int {
                        assert(cs@[k as int] == j as usize);
                    } else {
                        if exists|x: int| 0 <= x < k + 1 && cs@[x] == j as usize {
                            let x = choose|x: int| 0 <= x < k + 1 && cs@[x] == j as usize;
                            assert(x < k);
                        }
                    }
                }
            }
            k = k + 1;
        }
        proof {
            let new_nodes = self.nodes@;
            let n = new_nodes.len() as int;
            assert forall|j: int| 0 <= j < id implies #[trigger] self.parent@[j] == (if spec_children(
                gnode.kind,
            ).contains(j as usize) {
                Some(id)
            } else {
                old_parent[j]
            }) by {
                assert(spec_children(gnode.kind).contains(j as usize) <==> exists|x: int|
                    0 <= x < cs@.len() && cs@[x] == j as usize);
            }
            assert forall|i: int| 0 <= i < n implies children_below(
                (#[trigger] new_nodes[i]).kind,
                i,
            ) by {
                if i < id {
                    assert(new_nodes[i] == old(self).nodes@[i]);
                }
            }
            assert forall|i: int|
                0 <= i < n && (#[trigger] self.parent@[i]) is Some implies {
                let p = self.parent@[i]->0;
                &&& (p as int) < n
                &&& spec_children(new_nodes[p as int].kind).contains(i as usize)
            } by {
                let p = self.parent@[i]->0;
                if i < id && spec_children(gnode.kind).contains(i as usize) {
                    assert(p == id);
                } else {
                    assert(i < id);
                    assert(self.parent@[i] == old_parent[i]);
                    assert(old(self).wf());
                    assert(new_nodes[p as int] == old(self).nodes@[p as int]);
                }
            }
        }
        id
    }
}

/// Every child of a well-formed node lies strictly below the node itself, so
/// in particular it is a valid index.
pub proof fn lemma_child_below(t: Tree, i: int, c: usize)
    requires
        t.wf(),
        0 <= i < t.nodes@.len(),
        spec_children(t.nodes@[i].kind).contains(c),
    ensures
        (c as int) < i,
{
    let k = t.nodes@[i].kind;
    let j = choose|j: int| 0 <= j < spec_children(k).len() && spec_children(k)[j] == c;
    assert(children_below(t.nodes@[i].kind, i));
    assert(spec_children(k)[j] < i);
}

/// The children of a node's shape, as a vector of indices.
pub(crate) fn children_of(k: &ExprKind) -> (cs: Vec<usize>)
    ensures
        cs@ == spec_children(*k),
{
    match k {
        ExprKind::If { cond, then_branch, else_branch } => {
            let mut v: Vec<usize> = Vec::new();
            v.push(*cond);
            v.push(*then_branch);
            if let Some(e) = else_branch {
                v.push(*e);
            }
            proof {
                assert(v@ =~= spec_children(*k));
            }
            v
        },
        ExprKind::Block { stmts, tail } => {
            let mut v: Vec<usize> = Vec::new();
            let mut i: usize = 0;
            while i < stmts.len()
                invariant
                    i <= stmts.len(),
                    v@ == stmts@.subrange(0, i as int),
                decreases stmts.len() - i,
            {
                v.push(stmts[i]);
                proof {
                    assert(v@ =~= stmts@.subrange(0, i + 1 as int));
                }
                i = i + 1;
            }
            proof {
                assert(stmts@.subrange(0, stmts@.len() as int) =~= stmts@);
            }
            if let Some(t) = tail {
                v.push(*t);
            }
            proof {
                assert(v@ =~= spec_children(*k));
            }
            v
        },
        ExprKind::LetTest { scrutinee } => {
            let mut v: Vec<usize> = Vec::new();
            v.push(*scrutinee);
            proof {
                assert(v@ =~= spec_children(*k));
            }
            v
        },
        ExprKind::Other { children } => {
            let mut v: Vec<usize> = Vec::new();
            let mut i: usize = 0;
            while i < children.len()
                invariant
                    i <= children.len(),
                    v@ == children@.subrange(0, i as int),
                decreases children.len() - i,
            {
                v.push(children[i]);
                proof {
                    assert(v@ =~= children@.subrange(0, i + 1 as int));
                }
                i = i + 1;
            }
            proof {
                assert(children@.subrange(0, children@.len() as int) =~= children@);
                assert(v@ =~= spec_children(*k));
            }
            v
        },
    }
}

} // verus!
