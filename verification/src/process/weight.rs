//! The weight of a node: the measure by which a traversal ends.
//!
//! Every node weighs more than the nodes inside it taken together. An interpolated
//! string weighs as much as a call with one argument more than it has segments, so
//! that the call which formats it is no heavier.

use crate::nodes::{
    BlockView, CallView, ExpressionView, FieldView, FunctionView, PrefixView, SegmentView,
    StatementView,
};
use vstd::prelude::*;

verus! {

pub open spec fn expression_weight(expression: ExpressionView) -> nat
    decreases expression,
{
    match expression {
        ExpressionView::Identifier(_) => 1,
        ExpressionView::String(_) => 1,
        ExpressionView::InterpolatedString(segments) => 4 + segments_weight(segments),
        ExpressionView::Call(call) => 1 + call_weight(*call),
        ExpressionView::Field(field) => 1 + field_weight(*field),
        ExpressionView::Parenthese(inner) => 1 + expression_weight(*inner),
        ExpressionView::Function(function) => 1 + function_weight(*function),
    }
}

pub open spec fn expressions_weight(list: Seq<ExpressionView>) -> nat
    decreases list,
{
    if list.len() == 0 {
        0
    } else {
        expressions_weight(list.drop_last()) + expression_weight(list.last())
    }
}

pub open spec fn segment_weight(segment: SegmentView) -> nat
    decreases segment,
{
    match segment {
        SegmentView::String(_) => 1,
        SegmentView::Value(expression) => 1 + expression_weight(expression),
    }
}

pub open spec fn segments_weight(list: Seq<SegmentView>) -> nat
    decreases list,
{
    if list.len() == 0 {
        0
    } else {
        segments_weight(list.drop_last()) + segment_weight(list.last())
    }
}

pub open spec fn prefix_weight(prefix: PrefixView) -> nat
    decreases prefix,
{
    match prefix {
        PrefixView::Identifier(_) => 1,
        PrefixView::Call(call) => 1 + call_weight(*call),
        PrefixView::Field(field) => 1 + field_weight(*field),
        PrefixView::Parenthese(inner) => 1 + expression_weight(*inner),
    }
}

pub open spec fn call_weight(call: CallView) -> nat
    decreases call,
{
    1 + prefix_weight(call.prefix) + expressions_weight(call.arguments)
}

pub open spec fn field_weight(field: FieldView) -> nat
    decreases field,
{
    1 + prefix_weight(field.prefix)
}

pub open spec fn function_weight(function: FunctionView) -> nat
    decreases function,
{
    1 + block_weight(function.body)
}

pub open spec fn statement_weight(statement: StatementView) -> nat
    decreases statement,
{
    match statement {
        StatementView::LocalAssign(assign) => 1 + expressions_weight(assign.values),
        StatementView::Call(call) => 1 + call_weight(call),
        StatementView::Do(block) => 1 + block_weight(block),
    }
}

pub open spec fn statements_weight(list: Seq<StatementView>) -> nat
    decreases list,
{
    if list.len() == 0 {
        0
    } else {
        statements_weight(list.drop_last()) + statement_weight(list.last())
    }
}

pub open spec fn block_weight(block: BlockView) -> nat
    decreases block,
{
    1 + statements_weight(block.statements)
}

/// An expression of a list weighs no more than the list.
pub proof fn lemma_expression_within(list: Seq<ExpressionView>, index: int)
    requires
        0 <= index < list.len(),
    ensures
        expression_weight(list[index]) <= expressions_weight(list),
    decreases list.len(),
{
    if index < list.len() - 1 {
        lemma_expression_within(list.drop_last(), index);
    }
}

/// A segment of a list weighs no more than the list.
pub proof fn lemma_segment_within(list: Seq<SegmentView>, index: int)
    requires
        0 <= index < list.len(),
    ensures
        segment_weight(list[index]) <= segments_weight(list),
    decreases list.len(),
{
    if index < list.len() - 1 {
        lemma_segment_within(list.drop_last(), index);
    }
}

/// A statement of a list weighs no more than the list.
pub proof fn lemma_statement_within(list: Seq<StatementView>, index: int)
    requires
        0 <= index < list.len(),
    ensures
        statement_weight(list[index]) <= statements_weight(list),
    decreases list.len(),
{
    if index < list.len() - 1 {
        lemma_statement_within(list.drop_last(), index);
    }
}

} // verus!
