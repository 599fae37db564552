//! The scope-aware traversal: what a processor is, and the walk that offers it every
//! node of a block.

use crate::nodes::{Block, BlockView, Expression, ExpressionView, Statement, StatementView};
use crate::process::weight::{block_weight, expression_weight, statement_weight};
use vstd::prelude::*;

pub mod identifier_tracker;
pub mod laws;
pub mod visitor;
pub mod walk;
pub mod weight;

verus! {

/// The lexical scopes that a traversal is in, as a stack of frames.
///
/// The value of an implementor (its view) is all that the contracts speak of:
/// `frames` counts the open frames in it, and `entered`, `exited` and `declared` say
/// what the three operations do to it.
pub trait Scope: View {
    /// The number of open frames.
    spec fn frames(state: Self::V) -> nat;

    /// The state with one more, empty frame on top.
    spec fn entered(state: Self::V) -> Self::V;

    /// The state without its top frame.
    spec fn exited(state: Self::V) -> Self::V;

    /// The state with `name` recorded in its top frame.
    spec fn declared(state: Self::V, name: Seq<char>) -> Self::V;

    /// Opens a frame.
    fn enter_scope(&mut self)
        ensures
            final(self)@ == Self::entered(old(self)@),
            Self::frames(final(self)@) == Self::frames(old(self)@) + 1,
    ;

    /// Closes the top frame and forgets what was declared in it.
    fn exit_scope(&mut self)
        requires
            Self::frames(old(self)@) > 0,
        ensures
            final(self)@ == Self::exited(old(self)@),
            Self::frames(final(self)@) == Self::frames(old(self)@) - 1,
    ;

    /// Records `name` in the top frame.
    fn declare(&mut self, name: &str)
        ensures
            final(self)@ == Self::declared(old(self)@, name@),
            Self::frames(final(self)@) == Self::frames(old(self)@),
    ;
}

/// What reacts to the nodes of a traversal. Each hook gets one node and may replace
/// its whole value. The three `*_hook` functions say what the hooks do; as they stand
/// here they leave state and node as they are, which is what an empty hook does.
///
/// A hook is called on a node before the walk goes into the node, and the walk then
/// goes into what the hook left there. So that the walk ends, a hook may not make a
/// node heavier (see [`weight`]), and it leaves the open frames as they are.
pub trait NodeProcessor: Scope {
    /// The state and the block after the hook for blocks.
    open spec fn block_hook(state: Self::V, block: BlockView) -> (Self::V, BlockView) {
        (state, block)
    }

    /// The state and the statement after the hook for statements.
    open spec fn statement_hook(state: Self::V, statement: StatementView) -> (
        Self::V,
        StatementView,
    ) {
        (state, statement)
    }

    /// The state and the expression after the hook for expressions.
    open spec fn expression_hook(state: Self::V, expression: ExpressionView) -> (
        Self::V,
        ExpressionView,
    ) {
        (state, expression)
    }

    fn process_block(&mut self, block: &mut Block)
        ensures
            (final(self)@, final(block)@) == Self::block_hook(old(self)@, old(block)@),
            block_weight(final(block)@) <= block_weight(old(block)@),
            Self::frames(final(self)@) == Self::frames(old(self)@),
    ;

    fn process_statement(&mut self, statement: &mut Statement)
        ensures
            (final(self)@, final(statement)@) == Self::statement_hook(
                old(self)@,
                old(statement)@,
            ),
            statement_weight(final(statement)@) <= statement_weight(old(statement)@),
            Self::frames(final(self)@) == Self::frames(old(self)@),
    ;

    fn process_expression(&mut self, expression: &mut Expression)
        ensures
            (final(self)@, final(expression)@) == Self::expression_hook(
                old(self)@,
                old(expression)@,
            ),
            expression_weight(final(expression)@) <= expression_weight(old(expression)@),
            Self::frames(final(self)@) == Self::frames(old(self)@),
    ;
}

} // verus!
