//! A static-analysis rule that flags `if` expressions whose then-branch is an
//! empty block and which carry no `else` arm, and builds the rewrite that
//! removes them: a plain deletion when the condition is side-effect-free,
//! otherwise the hoisted condition followed by a statement terminator.
//!
//! The rule reads an immutable expression tree supplied by an analysis host.
//! The tree, and the host's answers to its provenance and purity queries, are
//! modelled in [`tree`]; the rule itself and the diagnostic it produces live
//! in [`rule`]; the properties that hold of the rule are stated and proved in
//! [`laws`].

pub mod laws;
pub mod rule;
pub mod tree;
