//! Lowering of interpolated strings to calls of a formatting function, on a small
//! syntax tree, with the scope-aware traversal and the rule configuration that the
//! rewrite rides on.

pub mod nodes;
pub mod process;
pub mod rules;
