//! What the rule makes of a tree, node by node: every interpolated string is
//! replaced where it stands, those inside another one included.

use crate::nodes::{
    BlockView, CallView, ExpressionView, FieldView, FunctionView, LocalAssignView, PrefixView,
    SegmentView, StatementView,
};
use crate::rules::remove_interpolated_string::template::{
    format_template, replacement, segment_values,
};
use vstd::prelude::*;

verus! {

pub open spec fn lower_expression(formatter: Seq<char>, expression: ExpressionView) -> ExpressionView
    decreases expression,
{
    match expression {
        ExpressionView::Identifier(_) => expression,
        ExpressionView::String(_) => expression,
        ExpressionView::InterpolatedString(segments) => replacement(
            formatter,
            lower_segments(formatter, segments),
        ),
        ExpressionView::Call(call) => ExpressionView::Call(
            Box::new(lower_call(formatter, *call)),
        ),
        ExpressionView::Field(field) => ExpressionView::Field(
            Box::new(lower_field(formatter, *field)),
        ),
        ExpressionView::Parenthese(inner) => ExpressionView::Parenthese(
            Box::new(lower_expression(formatter, *inner)),
        ),
        ExpressionView::Function(function) => ExpressionView::Function(
            Box::new(lower_function(formatter, *function)),
        ),
    }
}

pub open spec fn lower_expressions(formatter: Seq<char>, list: Seq<ExpressionView>) -> Seq<
    ExpressionView,
>
    decreases list,
{
    Seq::new(
        list.len(),
        |i: int|
            if 0 <= i < list.len() {
                lower_expression(formatter, list[i])
            } else {
                arbitrary()
            },
    )
}

pub open spec fn lower_segment(formatter: Seq<char>, segment: SegmentView) -> SegmentView
    decreases segment,
{
    match segment {
        SegmentView::String(_) => segment,
        SegmentView::Value(expression) => SegmentView::Value(
            lower_expression(formatter, expression),
        ),
    }
}

pub open spec fn lower_segments(formatter: Seq<char>, list: Seq<SegmentView>) -> Seq<SegmentView>
    decreases list,
{
    Seq::new(
        list.len(),
        |i: int|
            if 0 <= i < list.len() {
                lower_segment(formatter, list[i])
            } else {
                arbitrary()
            },
    )
}

pub open spec fn lower_prefix(formatter: Seq<char>, prefix: PrefixView) -> PrefixView
    decreases prefix,
{
    match prefix {
        PrefixView::Identifier(_) => prefix,
        PrefixView::Call(call) => PrefixView::Call(Box::new(lower_call(formatter, *call))),
        PrefixView::Field(field) => PrefixView::Field(Box::new(lower_field(formatter, *field))),
        PrefixView::Parenthese(inner) => PrefixView::Parenthese(
            Box::new(lower_expression(formatter, *inner)),
        ),
    }
}

pub open spec fn lower_call(formatter: Seq<char>, call: CallView) -> CallView
    decreases call,
{
    CallView {
        prefix: lower_prefix(formatter, call.prefix),
        arguments: lower_expressions(formatter, call.arguments),
    }
}

pub open spec fn lower_field(formatter: Seq<char>, field: FieldView) -> FieldView
    decreases field,
{
    FieldView { prefix: lower_prefix(formatter, field.prefix), field: field.field }
}

pub open spec fn lower_function(formatter: Seq<char>, function: FunctionView) -> FunctionView
    decreases function,
{
    FunctionView {
        parameters: function.parameters,
        body: lower_block(formatter, function.body),
    }
}

pub open spec fn lower_statement(formatter: Seq<char>, statement: StatementView) -> StatementView
    decreases statement,
{
    match statement {
        StatementView::LocalAssign(assign) => StatementView::LocalAssign(
            LocalAssignView {
                variables: assign.variables,
                values: lower_expressions(formatter, assign.values),
            },
        ),
        StatementView::Call(call) => StatementView::Call(lower_call(formatter, call)),
        StatementView::Do(block) => StatementView::Do(lower_block(formatter, block)),
    }
}

pub open spec fn lower_statements(formatter: Seq<char>, list: Seq<StatementView>) -> Seq<
    StatementView,
>
    decreases list,
{
    Seq::new(
        list.len(),
        |i: int|
            if 0 <= i < list.len() {
                lower_statement(formatter, list[i])
            } else {
                arbitrary()
            },
    )
}

pub open spec fn lower_block(formatter: Seq<char>, block: BlockView) -> BlockView
    decreases block,
{
    BlockView { statements: lower_statements(formatter, block.statements) }
}

/// Whether an interpolated string stands in `expression`; one without segments
/// counts only if `empty_counts`.
pub open spec fn expression_interpolates(expression: ExpressionView, empty_counts: bool) -> bool
    decreases expression,
{
    match expression {
        ExpressionView::Identifier(_) => false,
        ExpressionView::String(_) => false,
        ExpressionView::InterpolatedString(segments) => segments.len() > 0 || empty_counts,
        ExpressionView::Call(call) => call_interpolates(*call, empty_counts),
        ExpressionView::Field(field) => field_interpolates(*field, empty_counts),
        ExpressionView::Parenthese(inner) => expression_interpolates(*inner, empty_counts),
        ExpressionView::Function(function) => function_interpolates(*function, empty_counts),
    }
}

pub open spec fn expressions_interpolate(list: Seq<ExpressionView>, empty_counts: bool) -> bool
    decreases list,
{
    list.len() > 0 && (expressions_interpolate(list.drop_last(), empty_counts)
        || expression_interpolates(list.last(), empty_counts))
}

pub open spec fn prefix_interpolates(prefix: PrefixView, empty_counts: bool) -> bool
    decreases prefix,
{
    match prefix {
        PrefixView::Identifier(_) => false,
        PrefixView::Call(call) => call_interpolates(*call, empty_counts),
        PrefixView::Field(field) => field_interpolates(*field, empty_counts),
        PrefixView::Parenthese(inner) => expression_interpolates(*inner, empty_counts),
    }
}

pub open spec fn call_interpolates(call: CallView, empty_counts: bool) -> bool
    decreases call,
{
    prefix_interpolates(call.prefix, empty_counts) || expressions_interpolate(
        call.arguments,
        empty_counts,
    )
}

pub open spec fn field_interpolates(field: FieldView, empty_counts: bool) -> bool
    decreases field,
{
    prefix_interpolates(field.prefix, empty_counts)
}

pub open spec fn function_interpolates(function: FunctionView, empty_counts: bool) -> bool
    decreases function,
{
    block_interpolates(function.body, empty_counts)
}

pub open spec fn statement_interpolates(statement: StatementView, empty_counts: bool) -> bool
    decreases statement,
{
    match statement {
        StatementView::LocalAssign(assign) => expressions_interpolate(
            assign.values,
            empty_counts,
        ),
        StatementView::Call(call) => call_interpolates(call, empty_counts),
        StatementView::Do(block) => block_interpolates(block, empty_counts),
    }
}

pub open spec fn statements_interpolate(list: Seq<StatementView>, empty_counts: bool) -> bool
    decreases list,
{
    list.len() > 0 && (statements_interpolate(list.drop_last(), empty_counts)
        || statement_interpolates(list.last(), empty_counts))
}

pub open spec fn block_interpolates(block: BlockView, empty_counts: bool) -> bool
    decreases block,
{
    statements_interpolate(block.statements, empty_counts)
}

/// A list of expressions interpolates just when one of them does.
pub proof fn lemma_expressions_interpolate(list: Seq<ExpressionView>, empty_counts: bool)
    ensures
        expressions_interpolate(list, empty_counts) <==> exists|i: int|
            0 <= i < list.len() && #[trigger] expression_interpolates(list[i], empty_counts),
    decreases list.len(),
{
    if list.len() > 0 {
        let front = list.drop_last();
        lemma_expressions_interpolate(front, empty_counts);
        if expressions_interpolate(front, empty_counts) {
            let i = choose|i: int|
                0 <= i < front.len() && #[trigger] expression_interpolates(front[i], empty_counts);
            assert(expression_interpolates(list[i], empty_counts));
        }
        if expression_interpolates(list.last(), empty_counts) {
            assert(expression_interpolates(list[list.len() - 1], empty_counts));
        }
        if exists|i: int|
            0 <= i < list.len() && #[trigger] expression_interpolates(list[i], empty_counts) {
            let i = choose|i: int|
                0 <= i < list.len() && #[trigger] expression_interpolates(list[i], empty_counts);
            if i < front.len() {
                assert(expression_interpolates(front[i], empty_counts));
            }
        }
    }
}

/// A list of statements interpolates just when one of them does.
pub proof fn lemma_statements_interpolate(list: Seq<StatementView>, empty_counts: bool)
    ensures
        statements_interpolate(list, empty_counts) <==> exists|i: int|
            0 <= i < list.len() && #[trigger] statement_interpolates(list[i], empty_counts),
    decreases list.len(),
{
    if list.len() > 0 {
        let front = list.drop_last();
        lemma_statements_interpolate(front, empty_counts);
        if statements_interpolate(front, empty_counts) {
            let i = choose|i: int|
                0 <= i < front.len() && #[trigger] statement_interpolates(front[i], empty_counts);
            assert(statement_interpolates(list[i], empty_counts));
        }
        if statement_interpolates(list.last(), empty_counts) {
            assert(statement_interpolates(list[list.len() - 1], empty_counts));
        }
        if exists|i: int|
            0 <= i < list.len() && #[trigger] statement_interpolates(list[i], empty_counts) {
            let i = choose|i: int|
                0 <= i < list.len() && #[trigger] statement_interpolates(list[i], empty_counts);
            if i < front.len() {
                assert(statement_interpolates(front[i], empty_counts));
            }
        }
    }
}

/// Lowering the values inside the segments leaves the template as it is.
pub proof fn lemma_lowered_template(formatter: Seq<char>, segments: Seq<SegmentView>)
    ensures
        format_template(lower_segments(formatter, segments)) == format_template(segments),
    decreases segments.len(),
{
    if segments.len() > 0 {
        lemma_lowered_template(formatter, segments.drop_last());
        let lowered = lower_segments(formatter, segments);
        assert(lowered.drop_last() =~= lower_segments(formatter, segments.drop_last()));
        assert(lowered.last() == lower_segment(formatter, segments.last()));
    }
}

/// The values of lowered segments are the lowered values of the segments.
pub proof fn lemma_lowered_values(formatter: Seq<char>, segments: Seq<SegmentView>)
    ensures
        segment_values(lower_segments(formatter, segments)) == lower_expressions(
            formatter,
            segment_values(segments),
        ),
    decreases segments.len(),
{
    if segments.len() > 0 {
        lemma_lowered_values(formatter, segments.drop_last());
        let lowered = lower_segments(formatter, segments);
        assert(lowered.drop_last() =~= lower_segments(formatter, segments.drop_last()));
        assert(lowered.last() == lower_segment(formatter, segments.last()));
        assert(segment_values(lowered) =~= lower_expressions(
            formatter,
            segment_values(segments),
        ));
    } else {
        assert(segment_values(lower_segments(formatter, segments)) =~= lower_expressions(
            formatter,
            segment_values(segments),
        ));
    }
}

} // verus!
