//! The traversal with the rule's processor does what the lowering says.

use crate::nodes::{
    BlockView, CallView, ExpressionView, FieldView, FunctionView, PrefixView, StatementView,
};
use crate::process::walk::{
    declare_all, walk_block, walk_block_body, walk_call, walk_expression,
    walk_expression_parts, walk_expressions, walk_field, walk_function, walk_prefix,
    walk_statement, walk_statement_parts, walk_statements,
};
use crate::process::Scope;
use crate::process::weight::{
    block_weight, call_weight, expression_weight, expressions_weight, field_weight,
    function_weight, prefix_weight, statement_weight, statements_weight,
};
use crate::rules::remove_interpolated_string::lowering::{
    block_interpolates, call_interpolates, expression_interpolates, expressions_interpolate,
    field_interpolates, function_interpolates, lemma_lowered_template, lemma_lowered_values,
    lower_block, lower_call, lower_expression, lower_expressions, lower_field, lower_function,
    lower_prefix, lower_statement, lower_statements, prefix_interpolates,
    statement_interpolates, statements_interpolate,
};
use crate::rules::remove_interpolated_string::template::{
    format_template, lemma_replacement_weight, segment_values,
};
use crate::rules::remove_interpolated_string::{
    replaced, ProcessorView, RemoveInterpolatedStringProcessor,
};
use vstd::prelude::*;

verus! {

/// The state `after` differs from `before` at most in the scopes and in that a call
/// was generated, which it was if it had been before or if `generated`.
pub open spec fn carried(before: ProcessorView, after: ProcessorView, generated: bool) -> bool {
    &&& after.formatter == before.formatter
    &&& after.needs_formatter == (before.needs_formatter || generated)
}

pub proof fn lemma_declare_all(state: ProcessorView, names: Seq<Seq<char>>)
    ensures
        carried(state, declare_all::<RemoveInterpolatedStringProcessor>(state, names), false),
    decreases names.len(),
{
    if names.len() > 0 {
        lemma_declare_all(state, names.drop_last());
    }
}

pub proof fn lemma_walk_block(state: ProcessorView, block: BlockView)
    ensures
        walk_block::<RemoveInterpolatedStringProcessor>(state, block).1 == lower_block(
            state.formatter,
            block,
        ),
        carried(
            state,
            walk_block::<RemoveInterpolatedStringProcessor>(state, block).0,
            block_interpolates(block, false),
        ),
    decreases block_weight(block), 1nat,
{
    lemma_walk_block_body(RemoveInterpolatedStringProcessor::entered(state), block);
}

pub proof fn lemma_walk_block_body(state: ProcessorView, block: BlockView)
    ensures
        walk_block_body::<RemoveInterpolatedStringProcessor>(state, block).1 == lower_block(
            state.formatter,
            block,
        ),
        carried(
            state,
            walk_block_body::<RemoveInterpolatedStringProcessor>(state, block).0,
            block_interpolates(block, false),
        ),
    decreases block_weight(block), 0nat,
{
    lemma_walk_statements(state, block.statements);
}

pub proof fn lemma_walk_statements(state: ProcessorView, list: Seq<StatementView>)
    ensures
        walk_statements::<RemoveInterpolatedStringProcessor>(state, list).1 == lower_statements(
            state.formatter,
            list,
        ),
        carried(
            state,
            walk_statements::<RemoveInterpolatedStringProcessor>(state, list).0,
            statements_interpolate(list, false),
        ),
    decreases statements_weight(list), list.len() + 2,
{
    if list.len() == 0 {
        assert(lower_statements(state.formatter, list) =~= list);
    } else {
        let front = list.drop_last();
        lemma_walk_statements(state, front);
        let middle = walk_statements::<RemoveInterpolatedStringProcessor>(state, front).0;
        lemma_walk_statement(middle, list.last());
        assert(lower_statements(state.formatter, list) =~= lower_statements(
            state.formatter,
            front,
        ).push(lower_statement(state.formatter, list.last())));
    }
}

pub proof fn lemma_walk_statement(state: ProcessorView, statement: StatementView)
    ensures
        walk_statement::<RemoveInterpolatedStringProcessor>(state, statement).1
            == lower_statement(state.formatter, statement),
        carried(
            state,
            walk_statement::<RemoveInterpolatedStringProcessor>(state, statement).0,
            statement_interpolates(statement, false),
        ),
    decreases statement_weight(statement), 1nat,
{
    lemma_walk_statement_parts(state, statement);
}

pub proof fn lemma_walk_statement_parts(state: ProcessorView, statement: StatementView)
    ensures
        walk_statement_parts::<RemoveInterpolatedStringProcessor>(state, statement).1
            == lower_statement(state.formatter, statement),
        carried(
            state,
            walk_statement_parts::<RemoveInterpolatedStringProcessor>(state, statement).0,
            statement_interpolates(statement, false),
        ),
    decreases statement_weight(statement), 0nat,
{
    match statement {
        StatementView::LocalAssign(assign) => {
            lemma_walk_expressions(state, assign.values);
            let middle = walk_expressions::<RemoveInterpolatedStringProcessor>(
                state,
                assign.values,
            ).0;
            lemma_declare_all(middle, assign.variables);
        },
        StatementView::Call(call) => {
            lemma_walk_call(state, call);
        },
        StatementView::Do(block) => {
            lemma_walk_block(state, block);
        },
    }
}

pub proof fn lemma_walk_expressions(state: ProcessorView, list: Seq<ExpressionView>)
    ensures
        walk_expressions::<RemoveInterpolatedStringProcessor>(state, list).1
            == lower_expressions(state.formatter, list),
        carried(
            state,
            walk_expressions::<RemoveInterpolatedStringProcessor>(state, list).0,
            expressions_interpolate(list, false),
        ),
    decreases expressions_weight(list), list.len() + 2,
{
    if list.len() == 0 {
        assert(lower_expressions(state.formatter, list) =~= list);
    } else {
        let front = list.drop_last();
        lemma_walk_expressions(state, front);
        let middle = walk_expressions::<RemoveInterpolatedStringProcessor>(state, front).0;
        lemma_walk_expression(middle, list.last());
        assert(lower_expressions(state.formatter, list) =~= lower_expressions(
            state.formatter,
            front,
        ).push(lower_expression(state.formatter, list.last())));
    }
}

pub proof fn lemma_walk_expression(state: ProcessorView, expression: ExpressionView)
    ensures
        walk_expression::<RemoveInterpolatedStringProcessor>(state, expression).1
            == lower_expression(state.formatter, expression),
        carried(
            state,
            walk_expression::<RemoveInterpolatedStringProcessor>(state, expression).0,
            expression_interpolates(expression, false),
        ),
    decreases expression_weight(expression), 1nat,
{
    let (hooked_state, hooked) = replaced(state, expression);
    match expression {
        ExpressionView::InterpolatedString(segments) => {
            let formatter = state.formatter;
            lemma_replacement_weight(formatter, segments);
            lemma_walk_expression_parts(hooked_state, hooked);
            lemma_lowered_template(formatter, segments);
            lemma_lowered_values(formatter, segments);
            if segments.len() > 0 {
                let template = ExpressionView::String(format_template(segments));
                let arguments = seq![template] + segment_values(segments);
                assert(lower_expression(formatter, template) == template);
                assert(lower_expressions(formatter, arguments) =~= seq![template]
                    + lower_expressions(formatter, segment_values(segments)));
                let call = CallView { prefix: PrefixView::Identifier(formatter), arguments };
                assert(lower_call(formatter, call) == CallView {
                    prefix: lower_prefix(formatter, call.prefix),
                    arguments: lower_expressions(formatter, arguments),
                });
                assert(lower_prefix(formatter, call.prefix) == call.prefix);
                assert(call_interpolates(call, false) == expression_interpolates(
                    hooked,
                    false,
                ));
            }
        },
        _ => {
            lemma_walk_expression_parts(state, expression);
        },
    }
}

pub proof fn lemma_walk_expression_parts(state: ProcessorView, expression: ExpressionView)
    requires
        !(expression is InterpolatedString),
    ensures
        walk_expression_parts::<RemoveInterpolatedStringProcessor>(state, expression).1
            == lower_expression(state.formatter, expression),
        carried(
            state,
            walk_expression_parts::<RemoveInterpolatedStringProcessor>(state, expression).0,
            expression_interpolates(expression, false),
        ),
    decreases expression_weight(expression), 0nat,
{
    match expression {
        ExpressionView::Identifier(_) => {},
        ExpressionView::String(_) => {},
        ExpressionView::InterpolatedString(_) => {},
        ExpressionView::Call(call) => {
            lemma_walk_call(state, *call);
        },
        ExpressionView::Field(field) => {
            lemma_walk_field(state, *field);
        },
        ExpressionView::Parenthese(inner) => {
            lemma_walk_expression(state, *inner);
        },
        ExpressionView::Function(function) => {
            lemma_walk_function(state, *function);
        },
    }
}

pub proof fn lemma_walk_prefix(state: ProcessorView, prefix: PrefixView)
    ensures
        walk_prefix::<RemoveInterpolatedStringProcessor>(state, prefix).1 == lower_prefix(
            state.formatter,
            prefix,
        ),
        carried(
            state,
            walk_prefix::<RemoveInterpolatedStringProcessor>(state, prefix).0,
            prefix_interpolates(prefix, false),
        ),
    decreases prefix_weight(prefix), 0nat,
{
    match prefix {
        PrefixView::Identifier(_) => {},
        PrefixView::Call(call) => {
            lemma_walk_call(state, *call);
        },
        PrefixView::Field(field) => {
            lemma_walk_field(state, *field);
        },
        PrefixView::Parenthese(inner) => {
            lemma_walk_expression(state, *inner);
        },
    }
}

pub proof fn lemma_walk_call(state: ProcessorView, call: CallView)
    ensures
        walk_call::<RemoveInterpolatedStringProcessor>(state, call).1 == lower_call(
            state.formatter,
            call,
        ),
        carried(
            state,
            walk_call::<RemoveInterpolatedStringProcessor>(state, call).0,
            call_interpolates(call, false),
        ),
    decreases call_weight(call), 0nat,
{
    lemma_walk_prefix(state, call.prefix);
    let middle = walk_prefix::<RemoveInterpolatedStringProcessor>(state, call.prefix).0;
    lemma_walk_expressions(middle, call.arguments);
}

pub proof fn lemma_walk_field(state: ProcessorView, field: FieldView)
    ensures
        walk_field::<RemoveInterpolatedStringProcessor>(state, field).1 == lower_field(
            state.formatter,
            field,
        ),
        carried(
            state,
            walk_field::<RemoveInterpolatedStringProcessor>(state, field).0,
            field_interpolates(field, false),
        ),
    decreases field_weight(field), 0nat,
{
    lemma_walk_prefix(state, field.prefix);
}

pub proof fn lemma_walk_function(state: ProcessorView, function: FunctionView)
    ensures
        walk_function::<RemoveInterpolatedStringProcessor>(state, function).1
            == lower_function(state.formatter, function),
        carried(
            state,
            walk_function::<RemoveInterpolatedStringProcessor>(state, function).0,
            function_interpolates(function, false),
        ),
    decreases function_weight(function), 0nat,
{
    let entered = RemoveInterpolatedStringProcessor::entered(state);
    lemma_declare_all(entered, function.parameters);
    let opened = declare_all::<RemoveInterpolatedStringProcessor>(entered, function.parameters);
    lemma_walk_block(opened, function.body);
}

} // verus!
