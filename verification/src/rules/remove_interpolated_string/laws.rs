//! What holds of the rule on every block.

use crate::nodes::{
    BlockView, CallView, ExpressionView, FieldView, FunctionView, PrefixView, SegmentView,
    StatementView,
};
use crate::rules::remove_interpolated_string::lowering::{
    block_interpolates, call_interpolates, expression_interpolates, expressions_interpolate,
    field_interpolates, function_interpolates, lower_block, lower_call, lower_expression,
    lower_expressions, lower_field, lower_function, lower_prefix, lower_segment,
    lower_segments, lower_statement, lower_statements, prefix_interpolates,
    statement_interpolates, statements_interpolate,
};
use crate::rules::remove_interpolated_string::template::{
    format_template, replacement, segment_values,
};
use crate::rules::remove_interpolated_string::{
    configure_outcome, prelude_statement, rewritten_block, RemoveInterpolatedString,
    DEFAULT_STRING_LIBRARY, STRING_FORMAT_IDENTIFIER,
};
use crate::rules::RuleConfiguration;
use vstd::prelude::*;

verus! {

/// The number of statements in `expression`, those of nested blocks included.
pub open spec fn expression_statements(expression: ExpressionView) -> nat
    decreases expression,
{
    match expression {
        ExpressionView::Identifier(_) => 0,
        ExpressionView::String(_) => 0,
        ExpressionView::InterpolatedString(segments) => segments_statements(segments),
        ExpressionView::Call(call) => call_statements(*call),
        ExpressionView::Field(field) => prefix_statements(field.prefix),
        ExpressionView::Parenthese(inner) => expression_statements(*inner),
        ExpressionView::Function(function) => block_statements(function.body),
    }
}

pub open spec fn expressions_statements(list: Seq<ExpressionView>) -> nat
    decreases list,
{
    if list.len() == 0 {
        0
    } else {
        expressions_statements(list.drop_last()) + expression_statements(list.last())
    }
}

pub open spec fn segment_statements(segment: SegmentView) -> nat
    decreases segment,
{
    match segment {
        SegmentView::String(_) => 0,
        SegmentView::Value(expression) => expression_statements(expression),
    }
}

pub open spec fn segments_statements(list: Seq<SegmentView>) -> nat
    decreases list,
{
    if list.len() == 0 {
        0
    } else {
        segments_statements(list.drop_last()) + segment_statements(list.last())
    }
}

pub open spec fn prefix_statements(prefix: PrefixView) -> nat
    decreases prefix,
{
    match prefix {
        PrefixView::Identifier(_) => 0,
        PrefixView::Call(call) => call_statements(*call),
        PrefixView::Field(field) => prefix_statements(field.prefix),
        PrefixView::Parenthese(inner) => expression_statements(*inner),
    }
}

pub open spec fn call_statements(call: CallView) -> nat
    decreases call,
{
    prefix_statements(call.prefix) + expressions_statements(call.arguments)
}

pub open spec fn statement_statements(statement: StatementView) -> nat
    decreases statement,
{
    match statement {
        StatementView::LocalAssign(assign) => 1 + expressions_statements(assign.values),
        StatementView::Call(call) => 1 + call_statements(call),
        StatementView::Do(block) => 1 + block_statements(block),
    }
}

pub open spec fn statements_statements(list: Seq<StatementView>) -> nat
    decreases list,
{
    if list.len() == 0 {
        0
    } else {
        statements_statements(list.drop_last()) + statement_statements(list.last())
    }
}

/// The number of statements in `block`, those of nested blocks included.
pub open spec fn block_statements(block: BlockView) -> nat
    decreases block,
{
    statements_statements(block.statements)
}

proof fn lemma_values_statements(segments: Seq<SegmentView>)
    ensures
        expressions_statements(segment_values(segments)) == segments_statements(segments),
    decreases segments.len(),
{
    if segments.len() > 0 {
        lemma_values_statements(segments.drop_last());
        match segments.last() {
            SegmentView::String(_) => {
                assert(segment_statements(segments.last()) == 0);
            },
            SegmentView::Value(expression) => {
                let values = segment_values(segments);
                assert(values.drop_last() =~= segment_values(segments.drop_last()));
                assert(values.last() == expression);
                assert(segment_statements(segments.last()) == expression_statements(
                    expression,
                ));
            },
        }
    } else {
        assert(expressions_statements(segment_values(segments)) == 0);
    }
}

proof fn lemma_statements_with_first(first: ExpressionView, rest: Seq<ExpressionView>)
    ensures
        expressions_statements(seq![first] + rest) == expression_statements(first)
            + expressions_statements(rest),
    decreases rest.len(),
{
    let list = seq![first] + rest;
    if rest.len() == 0 {
        assert(list.drop_last() =~= Seq::<ExpressionView>::empty());
        assert(expressions_statements(list.drop_last()) == 0);
        assert(list.last() == first);
    } else {
        lemma_statements_with_first(first, rest.drop_last());
        assert(list.drop_last() =~= seq![first] + rest.drop_last());
        assert(list.last() == rest.last());
    }
}

proof fn lemma_statements_with_statement_first(first: StatementView, rest: Seq<StatementView>)
    ensures
        statements_statements(rest.insert(0, first)) == statement_statements(first)
            + statements_statements(rest),
    decreases rest.len(),
{
    let list = rest.insert(0, first);
    if rest.len() == 0 {
        assert(list.drop_last() =~= Seq::<StatementView>::empty());
        assert(statements_statements(list.drop_last()) == 0);
        assert(list.last() == first);
    } else {
        lemma_statements_with_statement_first(first, rest.drop_last());
        assert(list.drop_last() =~= rest.drop_last().insert(0, first));
        assert(list.last() == rest.last());
    }
}

/// Lowering neither adds a statement nor takes one away, in whatever block.
pub proof fn lemma_lowering_keeps_statements(formatter: Seq<char>, block: BlockView)
    ensures
        block_statements(lower_block(formatter, block)) == block_statements(block),
        lower_block(formatter, block).statements.len() == block.statements.len(),
    decreases block,
{
    lemma_kept_in_statements(formatter, block.statements);
}

proof fn lemma_kept_in_statements(formatter: Seq<char>, list: Seq<StatementView>)
    ensures
        statements_statements(lower_statements(formatter, list)) == statements_statements(list),
    decreases list,
{
    let lowered = lower_statements(formatter, list);
    if list.len() > 0 {
        lemma_kept_in_statements(formatter, list.drop_last());
        lemma_kept_in_statement(formatter, list.last());
        assert(lowered.drop_last() =~= lower_statements(formatter, list.drop_last()));
        assert(lowered.last() == lower_statement(formatter, list.last()));
    }
}

proof fn lemma_kept_in_statement(formatter: Seq<char>, statement: StatementView)
    ensures
        statement_statements(lower_statement(formatter, statement)) == statement_statements(
            statement,
        ),
    decreases statement,
{
    match statement {
        StatementView::LocalAssign(assign) => {
            lemma_kept_in_expressions(formatter, assign.values);
        },
        StatementView::Call(call) => {
            lemma_kept_in_call(formatter, call);
        },
        StatementView::Do(block) => {
            lemma_lowering_keeps_statements(formatter, block);
        },
    }
}

proof fn lemma_kept_in_expressions(formatter: Seq<char>, list: Seq<ExpressionView>)
    ensures
        expressions_statements(lower_expressions(formatter, list)) == expressions_statements(
            list,
        ),
    decreases list,
{
    let lowered = lower_expressions(formatter, list);
    if list.len() > 0 {
        lemma_kept_in_expressions(formatter, list.drop_last());
        lemma_kept_in_expression(formatter, list.last());
        assert(lowered.drop_last() =~= lower_expressions(formatter, list.drop_last()));
        assert(lowered.last() == lower_expression(formatter, list.last()));
    }
}

proof fn lemma_kept_in_segments(formatter: Seq<char>, list: Seq<SegmentView>)
    ensures
        segments_statements(lower_segments(formatter, list)) == segments_statements(list),
    decreases list,
{
    let lowered = lower_segments(formatter, list);
    if list.len() > 0 {
        lemma_kept_in_segments(formatter, list.drop_last());
        assert(lowered.drop_last() =~= lower_segments(formatter, list.drop_last()));
        assert(lowered.last() == lower_segment(formatter, list.last()));
        match list.last() {
            SegmentView::String(_) => {
                assert(segment_statements(list.last()) == 0);
                assert(segment_statements(lowered.last()) == 0);
            },
            SegmentView::Value(expression) => {
                lemma_kept_in_expression(formatter, expression);
                assert(segment_statements(list.last()) == expression_statements(expression));
                assert(segment_statements(lowered.last()) == expression_statements(
                    lower_expression(formatter, expression),
                ));
            },
        }
    }
}

proof fn lemma_kept_in_expression(formatter: Seq<char>, expression: ExpressionView)
    ensures
        expression_statements(lower_expression(formatter, expression)) == expression_statements(
            expression,
        ),
    decreases expression,
{
    match expression {
        ExpressionView::Identifier(_) => {},
        ExpressionView::String(_) => {},
        ExpressionView::InterpolatedString(segments) => {
            let lowered = lower_segments(formatter, segments);
            lemma_kept_in_segments(formatter, segments);
            if segments.len() > 0 {
                let template = ExpressionView::String(format_template(lowered));
                let call = CallView {
                    prefix: PrefixView::Identifier(formatter),
                    arguments: seq![template] + segment_values(lowered),
                };
                lemma_values_statements(lowered);
                lemma_statements_with_first(template, segment_values(lowered));
                assert(expression_statements(template) == 0);
                assert(prefix_statements(call.prefix) == 0);
                assert(call_statements(call) == expressions_statements(call.arguments));
                assert(replacement(formatter, lowered) == ExpressionView::Call(Box::new(call)));
            } else {
                assert(segments_statements(segments) == 0);
            }
        },
        ExpressionView::Call(call) => {
            lemma_kept_in_call(formatter, *call);
        },
        ExpressionView::Field(field) => {
            lemma_kept_in_prefix(formatter, field.prefix);
            assert(lower_field(formatter, *field).prefix == lower_prefix(
                formatter,
                field.prefix,
            ));
        },
        ExpressionView::Parenthese(inner) => {
            lemma_kept_in_expression(formatter, *inner);
        },
        ExpressionView::Function(function) => {
            lemma_lowering_keeps_statements(formatter, function.body);
            assert(lower_function(formatter, *function).body == lower_block(
                formatter,
                function.body,
            ));
        },
    }
}

proof fn lemma_kept_in_prefix(formatter: Seq<char>, prefix: PrefixView)
    ensures
        prefix_statements(lower_prefix(formatter, prefix)) == prefix_statements(prefix),
    decreases prefix,
{
    match prefix {
        PrefixView::Identifier(_) => {},
        PrefixView::Call(call) => {
            lemma_kept_in_call(formatter, *call);
        },
        PrefixView::Field(field) => {
            lemma_kept_in_prefix(formatter, field.prefix);
            assert(lower_field(formatter, *field).prefix == lower_prefix(
                formatter,
                field.prefix,
            ));
        },
        PrefixView::Parenthese(inner) => {
            lemma_kept_in_expression(formatter, *inner);
        },
    }
}

proof fn lemma_kept_in_call(formatter: Seq<char>, call: CallView)
    ensures
        call_statements(lower_call(formatter, call)) == call_statements(call),
    decreases call,
{
    lemma_kept_in_prefix(formatter, call.prefix);
    lemma_kept_in_expressions(formatter, call.arguments);
}

/// A block in which a string with segments stands anywhere, be it in a nested block
/// or in a function, once or many times, gets the declaration of the formatting
/// function exactly once: it is the first statement of the block itself, the
/// statements after it are the lowered statements of the block, and the block has,
/// nested blocks included, one statement more than before.
pub proof fn lemma_single_prelude(block: BlockView)
    requires
        block_interpolates(block, false),
    ensures
        rewritten_block(block).statements.len() == block.statements.len() + 1,
        rewritten_block(block).statements[0] == prelude_statement(),
        rewritten_block(block).statements.skip(1) == lower_statements(
            STRING_FORMAT_IDENTIFIER@,
            block.statements,
        ),
        block_statements(rewritten_block(block)) == block_statements(block) + 1,
{
    let formatter = STRING_FORMAT_IDENTIFIER@;
    let lowered = lower_statements(formatter, block.statements);
    lemma_lowering_keeps_statements(formatter, block);
    lemma_statements_with_statement_first(prelude_statement(), lowered);
    assert(rewritten_block(block).statements.skip(1) =~= lowered);
    assert(statement_statements(prelude_statement()) == 1) by {
        let values = prelude_statement()->LocalAssign_0.values;
        assert(values.drop_last() =~= Seq::<ExpressionView>::empty());
        assert(expressions_statements(values.drop_last()) == 0);
        assert(prefix_statements(PrefixView::Identifier(DEFAULT_STRING_LIBRARY@)) == 0);
        assert(expression_statements(values.last()) == 0);
        assert(expressions_statements(values) == 0);
    }
}

/// A block whose interpolated strings are all without segments gets no declaration:
/// each of them becomes the empty literal, and the block keeps the number of its
/// statements.
pub proof fn lemma_empty_strings_need_no_prelude(block: BlockView)
    requires
        !block_interpolates(block, false),
    ensures
        rewritten_block(block) == lower_block(STRING_FORMAT_IDENTIFIER@, block),
        rewritten_block(block).statements.len() == block.statements.len(),
        block_statements(rewritten_block(block)) == block_statements(block),
        forall|formatter: Seq<char>|
            lower_expression(formatter, ExpressionView::InterpolatedString(Seq::empty()))
                == ExpressionView::String(Seq::empty()),
        !expression_interpolates(ExpressionView::InterpolatedString(Seq::empty()), false),
{
    lemma_lowering_keeps_statements(STRING_FORMAT_IDENTIFIER@, block);
    assert forall|formatter: Seq<char>|
        lower_expression(formatter, ExpressionView::InterpolatedString(Seq::empty()))
            == ExpressionView::String(Seq::empty()) by {
        assert(lower_segments(formatter, Seq::empty()).len() == 0);
    }
}

/// A block without any interpolated string comes out as it went in.
pub proof fn lemma_no_string_no_change(block: BlockView)
    requires
        !block_interpolates(block, true),
    ensures
        rewritten_block(block) == block,
{
    lemma_same_block(STRING_FORMAT_IDENTIFIER@, block);
}

proof fn lemma_same_block(formatter: Seq<char>, block: BlockView)
    requires
        !block_interpolates(block, true),
    ensures
        lower_block(formatter, block) == block,
        !block_interpolates(block, false),
    decreases block,
{
    lemma_same_statements(formatter, block.statements);
}

proof fn lemma_same_statements(formatter: Seq<char>, list: Seq<StatementView>)
    requires
        !statements_interpolate(list, true),
    ensures
        lower_statements(formatter, list) == list,
        !statements_interpolate(list, false),
    decreases list,
{
    if list.len() > 0 {
        lemma_same_statements(formatter, list.drop_last());
        lemma_same_statement(formatter, list.last());
        assert(lower_statements(formatter, list) =~= lower_statements(
            formatter,
            list.drop_last(),
        ).push(lower_statement(formatter, list.last())));
        assert(list.drop_last().push(list.last()) =~= list);
    } else {
        assert(lower_statements(formatter, list) =~= list);
    }
}

proof fn lemma_same_statement(formatter: Seq<char>, statement: StatementView)
    requires
        !statement_interpolates(statement, true),
    ensures
        lower_statement(formatter, statement) == statement,
        !statement_interpolates(statement, false),
    decreases statement,
{
    match statement {
        StatementView::LocalAssign(assign) => {
            lemma_same_expressions(formatter, assign.values);
        },
        StatementView::Call(call) => {
            lemma_same_call(formatter, call);
        },
        StatementView::Do(block) => {
            lemma_same_block(formatter, block);
        },
    }
}

proof fn lemma_same_expressions(formatter: Seq<char>, list: Seq<ExpressionView>)
    requires
        !expressions_interpolate(list, true),
    ensures
        lower_expressions(formatter, list) == list,
        !expressions_interpolate(list, false),
    decreases list,
{
    if list.len() > 0 {
        lemma_same_expressions(formatter, list.drop_last());
        lemma_same_expression(formatter, list.last());
        assert(lower_expressions(formatter, list) =~= lower_expressions(
            formatter,
            list.drop_last(),
        ).push(lower_expression(formatter, list.last())));
        assert(list.drop_last().push(list.last()) =~= list);
    } else {
        assert(lower_expressions(formatter, list) =~= list);
    }
}

proof fn lemma_same_expression(formatter: Seq<char>, expression: ExpressionView)
    requires
        !expression_interpolates(expression, true),
    ensures
        lower_expression(formatter, expression) == expression,
        !expression_interpolates(expression, false),
    decreases expression,
{
    match expression {
        ExpressionView::Identifier(_) => {},
        ExpressionView::String(_) => {},
        ExpressionView::InterpolatedString(_) => {},
        ExpressionView::Call(call) => {
            lemma_same_call(formatter, *call);
        },
        ExpressionView::Field(field) => {
            lemma_same_field(formatter, *field);
        },
        ExpressionView::Parenthese(inner) => {
            lemma_same_expression(formatter, *inner);
        },
        ExpressionView::Function(function) => {
            lemma_same_function(formatter, *function);
        },
    }
}

proof fn lemma_same_prefix(formatter: Seq<char>, prefix: PrefixView)
    requires
        !prefix_interpolates(prefix, true),
    ensures
        lower_prefix(formatter, prefix) == prefix,
        !prefix_interpolates(prefix, false),
    decreases prefix,
{
    match prefix {
        PrefixView::Identifier(_) => {},
        PrefixView::Call(call) => {
            lemma_same_call(formatter, *call);
        },
        PrefixView::Field(field) => {
            lemma_same_field(formatter, *field);
        },
        PrefixView::Parenthese(inner) => {
            lemma_same_expression(formatter, *inner);
        },
    }
}

proof fn lemma_same_call(formatter: Seq<char>, call: CallView)
    requires
        !call_interpolates(call, true),
    ensures
        lower_call(formatter, call) == call,
        !call_interpolates(call, false),
    decreases call,
{
    lemma_same_prefix(formatter, call.prefix);
    lemma_same_expressions(formatter, call.arguments);
}

proof fn lemma_same_field(formatter: Seq<char>, field: FieldView)
    requires
        !field_interpolates(field, true),
    ensures
        lower_field(formatter, field) == field,
        !field_interpolates(field, false),
    decreases field,
{
    lemma_same_prefix(formatter, field.prefix);
}

proof fn lemma_same_function(formatter: Seq<char>, function: FunctionView)
    requires
        !function_interpolates(function, true),
    ensures
        lower_function(formatter, function) == function,
        !function_interpolates(function, false),
    decreases function,
{
    lemma_same_block(formatter, function.body);
}

/// A rule as it is made holds no option, and the empty bag configures it: so a rule
/// that was made, or configured from the empty bag, serialises to the empty bag.
pub proof fn lemma_configuration_round_trip(rule: RemoveInterpolatedString)
    ensures
        rule.configuration() == Map::<Seq<char>, crate::rules::PropertyValueView>::empty(),
        configure_outcome(Seq::empty()) is Ok,
{
}

} // verus!
