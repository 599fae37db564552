//! What holds of the walk with a processor whose hooks leave every node alone.

use crate::nodes::{
    BlockView, CallView, ExpressionView, FieldView, FunctionView, PrefixView, SegmentView,
    StatementView,
};
use crate::process::walk::{
    walk_block, walk_block_body, walk_call, walk_expression, walk_expression_parts,
    walk_expressions, walk_field, walk_function, walk_prefix, walk_segment, walk_segments,
    walk_statement, walk_statement_parts, walk_statements,
};
use crate::process::weight::{
    block_weight, call_weight, expression_weight, expressions_weight, field_weight,
    function_weight, prefix_weight, segment_weight, segments_weight, statement_weight,
    statements_weight,
};
use crate::process::NodeProcessor;
use vstd::prelude::*;

verus! {

/// Whether the hooks of `P` leave every node as it is, whatever they do to the state.
pub open spec fn leaves_nodes_alone<P: NodeProcessor>() -> bool {
    &&& forall|state: P::V, block: BlockView| (#[trigger] P::block_hook(state, block)).1 == block
    &&& forall|state: P::V, statement: StatementView|
        (#[trigger] P::statement_hook(state, statement)).1 == statement
    &&& forall|state: P::V, expression: ExpressionView|
        (#[trigger] P::expression_hook(state, expression)).1 == expression
}

/// The walk itself changes nothing: where no hook changes a node, the block comes
/// out of the walk as it went in.
pub proof fn lemma_walk_keeps_block<P: NodeProcessor>(state: P::V, block: BlockView)
    requires
        leaves_nodes_alone::<P>(),
    ensures
        walk_block::<P>(state, block).1 == block,
    decreases block_weight(block), 1nat,
{
    lemma_walk_keeps_block_body::<P>(P::entered(state), block);
}

pub proof fn lemma_walk_keeps_block_body<P: NodeProcessor>(state: P::V, block: BlockView)
    requires
        leaves_nodes_alone::<P>(),
    ensures
        walk_block_body::<P>(state, block).1 == block,
    decreases block_weight(block), 0nat,
{
    let hooked_state = P::block_hook(state, block).0;
    lemma_walk_keeps_statements::<P>(hooked_state, block.statements);
}

pub proof fn lemma_walk_keeps_statements<P: NodeProcessor>(state: P::V, list: Seq<StatementView>)
    requires
        leaves_nodes_alone::<P>(),
    ensures
        walk_statements::<P>(state, list).1 == list,
    decreases statements_weight(list), list.len() + 2,
{
    if list.len() > 0 {
        lemma_walk_keeps_statements::<P>(state, list.drop_last());
        let middle = walk_statements::<P>(state, list.drop_last()).0;
        lemma_walk_keeps_statement::<P>(middle, list.last());
        assert(list.drop_last().push(list.last()) =~= list);
    }
}

pub proof fn lemma_walk_keeps_statement<P: NodeProcessor>(state: P::V, statement: StatementView)
    requires
        leaves_nodes_alone::<P>(),
    ensures
        walk_statement::<P>(state, statement).1 == statement,
    decreases statement_weight(statement), 1nat,
{
    let hooked_state = P::statement_hook(state, statement).0;
    lemma_walk_keeps_statement_parts::<P>(hooked_state, statement);
}

pub proof fn lemma_walk_keeps_statement_parts<P: NodeProcessor>(
    state: P::V,
    statement: StatementView,
)
    requires
        leaves_nodes_alone::<P>(),
    ensures
        walk_statement_parts::<P>(state, statement).1 == statement,
    decreases statement_weight(statement), 0nat,
{
    match statement {
        StatementView::LocalAssign(assign) => {
            lemma_walk_keeps_expressions::<P>(state, assign.values);
        },
        StatementView::Call(call) => {
            lemma_walk_keeps_call::<P>(state, call);
        },
        StatementView::Do(block) => {
            lemma_walk_keeps_block::<P>(state, block);
        },
    }
}

pub proof fn lemma_walk_keeps_expressions<P: NodeProcessor>(
    state: P::V,
    list: Seq<ExpressionView>,
)
    requires
        leaves_nodes_alone::<P>(),
    ensures
        walk_expressions::<P>(state, list).1 == list,
    decreases expressions_weight(list), list.len() + 2,
{
    if list.len() > 0 {
        lemma_walk_keeps_expressions::<P>(state, list.drop_last());
        let middle = walk_expressions::<P>(state, list.drop_last()).0;
        lemma_walk_keeps_expression::<P>(middle, list.last());
        assert(list.drop_last().push(list.last()) =~= list);
    }
}

pub proof fn lemma_walk_keeps_expression<P: NodeProcessor>(
    state: P::V,
    expression: ExpressionView,
)
    requires
        leaves_nodes_alone::<P>(),
    ensures
        walk_expression::<P>(state, expression).1 == expression,
    decreases expression_weight(expression), 1nat,
{
    let hooked_state = P::expression_hook(state, expression).0;
    lemma_walk_keeps_expression_parts::<P>(hooked_state, expression);
}

pub proof fn lemma_walk_keeps_expression_parts<P: NodeProcessor>(
    state: P::V,
    expression: ExpressionView,
)
    requires
        leaves_nodes_alone::<P>(),
    ensures
        walk_expression_parts::<P>(state, expression).1 == expression,
    decreases expression_weight(expression), 0nat,
{
    match expression {
        ExpressionView::Identifier(_) => {},
        ExpressionView::String(_) => {},
        ExpressionView::InterpolatedString(segments) => {
            lemma_walk_keeps_segments::<P>(state, segments);
        },
        ExpressionView::Call(call) => {
            lemma_walk_keeps_call::<P>(state, *call);
        },
        ExpressionView::Field(field) => {
            lemma_walk_keeps_field::<P>(state, *field);
        },
        ExpressionView::Parenthese(inner) => {
            lemma_walk_keeps_expression::<P>(state, *inner);
        },
        ExpressionView::Function(function) => {
            lemma_walk_keeps_function::<P>(state, *function);
        },
    }
}

pub proof fn lemma_walk_keeps_segments<P: NodeProcessor>(state: P::V, list: Seq<SegmentView>)
    requires
        leaves_nodes_alone::<P>(),
    ensures
        walk_segments::<P>(state, list).1 == list,
    decreases segments_weight(list), list.len() + 2,
{
    if list.len() > 0 {
        lemma_walk_keeps_segments::<P>(state, list.drop_last());
        let middle = walk_segments::<P>(state, list.drop_last()).0;
        lemma_walk_keeps_segment::<P>(middle, list.last());
        assert(list.drop_last().push(list.last()) =~= list);
    }
}

pub proof fn lemma_walk_keeps_segment<P: NodeProcessor>(state: P::V, segment: SegmentView)
    requires
        leaves_nodes_alone::<P>(),
    ensures
        walk_segment::<P>(state, segment).1 == segment,
    decreases segment_weight(segment), 0nat,
{
    match segment {
        SegmentView::String(_) => {},
        SegmentView::Value(expression) => {
            lemma_walk_keeps_expression::<P>(state, expression);
        },
    }
}

pub proof fn lemma_walk_keeps_prefix<P: NodeProcessor>(state: P::V, prefix: PrefixView)
    requires
        leaves_nodes_alone::<P>(),
    ensures
        walk_prefix::<P>(state, prefix).1 == prefix,
    decreases prefix_weight(prefix), 0nat,
{
    match prefix {
        PrefixView::Identifier(_) => {},
        PrefixView::Call(call) => {
            lemma_walk_keeps_call::<P>(state, *call);
        },
        PrefixView::Field(field) => {
            lemma_walk_keeps_field::<P>(state, *field);
        },
        PrefixView::Parenthese(inner) => {
            lemma_walk_keeps_expression::<P>(state, *inner);
        },
    }
}

pub proof fn lemma_walk_keeps_call<P: NodeProcessor>(state: P::V, call: CallView)
    requires
        leaves_nodes_alone::<P>(),
    ensures
        walk_call::<P>(state, call).1 == call,
    decreases call_weight(call), 0nat,
{
    lemma_walk_keeps_prefix::<P>(state, call.prefix);
    let middle = walk_prefix::<P>(state, call.prefix).0;
    lemma_walk_keeps_expressions::<P>(middle, call.arguments);
}

pub proof fn lemma_walk_keeps_field<P: NodeProcessor>(state: P::V, field: FieldView)
    requires
        leaves_nodes_alone::<P>(),
    ensures
        walk_field::<P>(state, field).1 == field,
    decreases field_weight(field), 0nat,
{
    lemma_walk_keeps_prefix::<P>(state, field.prefix);
}

pub proof fn lemma_walk_keeps_function<P: NodeProcessor>(state: P::V, function: FunctionView)
    requires
        leaves_nodes_alone::<P>(),
    ensures
        walk_function::<P>(state, function).1 == function,
    decreases function_weight(function), 0nat,
{
    let opened = crate::process::walk::declare_all::<P>(P::entered(state), function.parameters);
    lemma_walk_keeps_block::<P>(opened, function.body);
}

} // verus!
