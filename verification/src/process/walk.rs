//! What a traversal does, as functions from the processor's state and a node to the
//! state and the node afterwards.
//!
//! The walk is depth-first and in source order. On a statement or an expression it
//! first applies the processor's hook and then goes into what the hook left. A block
//! opens a frame, as does a function, which declares its parameters in it; a local
//! declaration declares its variables after its values were walked.

use crate::nodes::{
    BlockView, CallView, ExpressionView, FieldView, FunctionView, LocalAssignView, PrefixView,
    SegmentView, StatementView,
};
use crate::process::weight::{
    block_weight, call_weight, expression_weight, expressions_weight, field_weight,
    function_weight, prefix_weight, segment_weight, segments_weight, statement_weight,
    statements_weight,
};
use crate::process::{NodeProcessor, Scope};
use vstd::prelude::*;

verus! {

/// The state after `names` were declared, first to last.
pub open spec fn declare_all<P: Scope>(state: P::V, names: Seq<Seq<char>>) -> P::V
    decreases names.len(),
{
    if names.len() == 0 {
        state
    } else {
        P::declared(declare_all::<P>(state, names.drop_last()), names.last())
    }
}

pub open spec fn walk_block<P: NodeProcessor>(state: P::V, block: BlockView) -> (P::V, BlockView)
    decreases block_weight(block), 1nat,
{
    let (inner, walked) = walk_block_body::<P>(P::entered(state), block);
    (P::exited(inner), walked)
}

/// The walk of a block whose frame is open already.
pub open spec fn walk_block_body<P: NodeProcessor>(state: P::V, block: BlockView) -> (
    P::V,
    BlockView,
)
    decreases block_weight(block), 0nat,
{
    let (hooked_state, hooked) = P::block_hook(state, block);
    if block_weight(hooked) <= block_weight(block) {
        let (end, statements) = walk_statements::<P>(hooked_state, hooked.statements);
        (end, BlockView { statements })
    } else {
        (hooked_state, hooked)
    }
}

pub open spec fn walk_statements<P: NodeProcessor>(state: P::V, list: Seq<StatementView>) -> (
    P::V,
    Seq<StatementView>,
)
    decreases statements_weight(list), list.len() + 2,
{
    if list.len() == 0 {
        (state, list)
    } else {
        let (middle, front) = walk_statements::<P>(state, list.drop_last());
        let (end, last) = walk_statement::<P>(middle, list.last());
        (end, front.push(last))
    }
}

pub open spec fn walk_statement<P: NodeProcessor>(state: P::V, statement: StatementView) -> (
    P::V,
    StatementView,
)
    decreases statement_weight(statement), 1nat,
{
    let (hooked_state, hooked) = P::statement_hook(state, statement);
    if statement_weight(hooked) <= statement_weight(statement) {
        walk_statement_parts::<P>(hooked_state, hooked)
    } else {
        (hooked_state, hooked)
    }
}

/// The walk into a statement, after its hook.
pub open spec fn walk_statement_parts<P: NodeProcessor>(state: P::V, statement: StatementView) -> (
    P::V,
    StatementView,
)
    decreases statement_weight(statement), 0nat,
{
    match statement {
        StatementView::LocalAssign(assign) => {
            let (middle, values) = walk_expressions::<P>(state, assign.values);
            (
                declare_all::<P>(middle, assign.variables),
                StatementView::LocalAssign(
                    LocalAssignView { variables: assign.variables, values },
                ),
            )
        },
        StatementView::Call(call) => {
            let (end, walked) = walk_call::<P>(state, call);
            (end, StatementView::Call(walked))
        },
        StatementView::Do(block) => {
            let (end, walked) = walk_block::<P>(state, block);
            (end, StatementView::Do(walked))
        },
    }
}

pub open spec fn walk_expressions<P: NodeProcessor>(state: P::V, list: Seq<ExpressionView>) -> (
    P::V,
    Seq<ExpressionView>,
)
    decreases expressions_weight(list), list.len() + 2,
{
    if list.len() == 0 {
        (state, list)
    } else {
        let (middle, front) = walk_expressions::<P>(state, list.drop_last());
        let (end, last) = walk_expression::<P>(middle, list.last());
        (end, front.push(last))
    }
}

pub open spec fn walk_expression<P: NodeProcessor>(state: P::V, expression: ExpressionView) -> (
    P::V,
    ExpressionView,
)
    decreases expression_weight(expression), 1nat,
{
    let (hooked_state, hooked) = P::expression_hook(state, expression);
    if expression_weight(hooked) <= expression_weight(expression) {
        walk_expression_parts::<P>(hooked_state, hooked)
    } else {
        (hooked_state, hooked)
    }
}

/// The walk into an expression, after its hook.
pub open spec fn walk_expression_parts<P: NodeProcessor>(
    state: P::V,
    expression: ExpressionView,
) -> (P::V, ExpressionView)
    decreases expression_weight(expression), 0nat,
{
    match expression {
        ExpressionView::Identifier(_) => (state, expression),
        ExpressionView::String(_) => (state, expression),
        ExpressionView::InterpolatedString(segments) => {
            let (end, walked) = walk_segments::<P>(state, segments);
            (end, ExpressionView::InterpolatedString(walked))
        },
        ExpressionView::Call(call) => {
            let (end, walked) = walk_call::<P>(state, *call);
            (end, ExpressionView::Call(Box::new(walked)))
        },
        ExpressionView::Field(field) => {
            let (end, walked) = walk_field::<P>(state, *field);
            (end, ExpressionView::Field(Box::new(walked)))
        },
        ExpressionView::Parenthese(inner) => {
            let (end, walked) = walk_expression::<P>(state, *inner);
            (end, ExpressionView::Parenthese(Box::new(walked)))
        },
        ExpressionView::Function(function) => {
            let (end, walked) = walk_function::<P>(state, *function);
            (end, ExpressionView::Function(Box::new(walked)))
        },
    }
}

pub open spec fn walk_segments<P: NodeProcessor>(state: P::V, list: Seq<SegmentView>) -> (
    P::V,
    Seq<SegmentView>,
)
    decreases segments_weight(list), list.len() + 2,
{
    if list.len() == 0 {
        (state, list)
    } else {
        let (middle, front) = walk_segments::<P>(state, list.drop_last());
        let (end, last) = walk_segment::<P>(middle, list.last());
        (end, front.push(last))
    }
}

pub open spec fn walk_segment<P: NodeProcessor>(state: P::V, segment: SegmentView) -> (
    P::V,
    SegmentView,
)
    decreases segment_weight(segment), 0nat,
{
    match segment {
        SegmentView::String(_) => (state, segment),
        SegmentView::Value(expression) => {
            let (end, walked) = walk_expression::<P>(state, expression);
            (end, SegmentView::Value(walked))
        },
    }
}

pub open spec fn walk_prefix<P: NodeProcessor>(state: P::V, prefix: PrefixView) -> (
    P::V,
    PrefixView,
)
    decreases prefix_weight(prefix), 0nat,
{
    match prefix {
        PrefixView::Identifier(_) => (state, prefix),
        PrefixView::Call(call) => {
            let (end, walked) = walk_call::<P>(state, *call);
            (end, PrefixView::Call(Box::new(walked)))
        },
        PrefixView::Field(field) => {
            let (end, walked) = walk_field::<P>(state, *field);
            (end, PrefixView::Field(Box::new(walked)))
        },
        PrefixView::Parenthese(inner) => {
            let (end, walked) = walk_expression::<P>(state, *inner);
            (end, PrefixView::Parenthese(Box::new(walked)))
        },
    }
}

/// The walk of a call: its prefix, then its arguments.
pub open spec fn walk_call<P: NodeProcessor>(state: P::V, call: CallView) -> (P::V, CallView)
    decreases call_weight(call), 0nat,
{
    let (middle, prefix) = walk_prefix::<P>(state, call.prefix);
    let (end, arguments) = walk_expressions::<P>(middle, call.arguments);
    (end, CallView { prefix, arguments })
}

pub open spec fn walk_field<P: NodeProcessor>(state: P::V, field: FieldView) -> (P::V, FieldView)
    decreases field_weight(field), 0nat,
{
    let (end, prefix) = walk_prefix::<P>(state, field.prefix);
    (end, FieldView { prefix, field: field.field })
}

/// The walk of a function: a frame for its parameters, and in it the walk of its body.
pub open spec fn walk_function<P: NodeProcessor>(state: P::V, function: FunctionView) -> (
    P::V,
    FunctionView,
)
    decreases function_weight(function), 0nat,
{
    let opened = declare_all::<P>(P::entered(state), function.parameters);
    let (inner, body) = walk_block::<P>(opened, function.body);
    (P::exited(inner), FunctionView { parameters: function.parameters, body })
}

} // verus!
