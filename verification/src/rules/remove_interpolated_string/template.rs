//! From the segments of an interpolated string to the template and the arguments of
//! the call that formats it.

use crate::nodes::{
    expressions_view, CallView, Expression, ExpressionView, InterpolatedStringExpression,
    InterpolationSegment, PrefixView, SegmentView, StringExpression,
};
use crate::process::weight::{
    call_weight, expression_weight, expressions_weight, prefix_weight, segment_weight,
    segments_weight,
};
use vstd::prelude::*;
use vstd::std_specs::iter::IteratorSpec;

verus! {

/// `String::push` of the standard library: the string afterwards is the string before
/// with `ch` at its end.
pub assume_specification[ std::string::String::push ](text: &mut std::string::String, ch: char)
    ensures
        final(text)@ == old(text)@.push(ch),
;

/// `text` with each `%` written twice, so that the formatting function prints the
/// text as it stands.
pub open spec fn escape_percent(text: Seq<char>) -> Seq<char>
    decreases text.len(),
{
    if text.len() == 0 {
        Seq::empty()
    } else if text.last() == '%' {
        escape_percent(text.drop_last()).push('%').push('%')
    } else {
        escape_percent(text.drop_last()).push(text.last())
    }
}

/// What a value segment leaves in the template.
pub open spec fn placeholder() -> Seq<char> {
    seq!['%', '*']
}

/// What one segment adds to the template.
pub open spec fn segment_template(segment: SegmentView) -> Seq<char> {
    match segment {
        SegmentView::String(text) => escape_percent(text),
        SegmentView::Value(_) => placeholder(),
    }
}

/// The template of an interpolated string: what its segments add, in source order.
pub open spec fn format_template(segments: Seq<SegmentView>) -> Seq<char>
    decreases segments.len(),
{
    if segments.len() == 0 {
        Seq::empty()
    } else {
        format_template(segments.drop_last()) + segment_template(segments.last())
    }
}

/// The expressions of the value segments, in source order.
pub open spec fn segment_values(segments: Seq<SegmentView>) -> Seq<ExpressionView>
    decreases segments.len(),
{
    if segments.len() == 0 {
        Seq::empty()
    } else {
        match segments.last() {
            SegmentView::String(_) => segment_values(segments.drop_last()),
            SegmentView::Value(expression) => segment_values(segments.drop_last()).push(
                expression,
            ),
        }
    }
}

/// What stands in place of the interpolated string `segments`, where the formatting
/// function is reached under the name `formatter`: the empty literal for no segments,
/// else the call of `formatter` on the template and on the values.
pub open spec fn replacement(formatter: Seq<char>, segments: Seq<SegmentView>) -> ExpressionView {
    if segments.len() == 0 {
        ExpressionView::String(Seq::empty())
    } else {
        ExpressionView::Call(
            Box::new(
                CallView {
                    prefix: PrefixView::Identifier(formatter),
                    arguments: seq![ExpressionView::String(format_template(segments))]
                        + segment_values(segments),
                },
            ),
        )
    }
}

/// Escaping goes character by character: the escaped form of two texts in a row is
/// the escaped forms in a row. With what `escape_percent` is on one character, `%%`
/// for `%` and the character itself for any other, this says that every `%` of a
/// text, and nothing else, is doubled.
pub proof fn lemma_escape_concat(front: Seq<char>, back: Seq<char>)
    ensures
        escape_percent(front + back) == escape_percent(front) + escape_percent(back),
    decreases back.len(),
{
    if back.len() == 0 {
        assert(front + back =~= front);
        assert(escape_percent(front) + escape_percent(back) =~= escape_percent(front));
    } else {
        lemma_escape_concat(front, back.drop_last());
        assert((front + back).drop_last() =~= front + back.drop_last());
        assert((front + back).last() == back.last());
        if back.last() == '%' {
            assert(escape_percent(front + back) =~= escape_percent(front) + escape_percent(
                back,
            ));
        } else {
            assert(escape_percent(front + back) =~= escape_percent(front) + escape_percent(
                back,
            ));
        }
    }
}

/// Every character of a text is escaped where it stands: the escaped text is the
/// escaped text before the character, then `%%` if the character is `%` and else the
/// character itself, then the escaped text after it.
pub proof fn lemma_escape_at(text: Seq<char>, index: int)
    requires
        0 <= index < text.len(),
    ensures
        escape_percent(text) == escape_percent(text.take(index)) + (if text[index] == '%' {
            seq!['%', '%']
        } else {
            seq![text[index]]
        }) + escape_percent(text.skip(index + 1)),
{
    let before = text.take(index);
    let here = seq![text[index]];
    let after = text.skip(index + 1);
    assert(text =~= before + here + after);
    lemma_escape_concat(before + here, after);
    lemma_escape_concat(before, here);
    lemma_escape_one(text[index]);
}

/// What escaping does to a text of one character.
pub proof fn lemma_escape_one(ch: char)
    ensures
        escape_percent(seq![ch]) == if ch == '%' {
            seq!['%', '%']
        } else {
            seq![ch]
        },
{
    let text = seq![ch];
    assert(text.drop_last() =~= Seq::<char>::empty());
    assert(escape_percent(text.drop_last()) =~= Seq::<char>::empty());
    if ch == '%' {
        assert(escape_percent(text) =~= seq!['%', '%']);
    } else {
        assert(escape_percent(text) =~= seq![ch]);
    }
}

/// The template follows the segments: the template of two runs of segments in a row
/// is their templates in a row. So each segment leaves its piece, the escaped text or
/// one placeholder, at the place in the template where it stands among the segments.
pub proof fn lemma_template_concat(front: Seq<SegmentView>, back: Seq<SegmentView>)
    ensures
        format_template(front + back) == format_template(front) + format_template(back),
    decreases back.len(),
{
    if back.len() == 0 {
        assert(front + back =~= front);
        assert(format_template(front) + format_template(back) =~= format_template(front));
    } else {
        lemma_template_concat(front, back.drop_last());
        assert((front + back).drop_last() =~= front + back.drop_last());
        assert((front + back).last() == back.last());
        assert(format_template(front + back) =~= format_template(front) + format_template(
            back,
        ));
    }
}

/// Every segment leaves its piece where it stands: the template is the template of
/// the segments before it, then the escaped text of a literal segment or the one
/// placeholder of a value segment, then the template of the segments after it.
pub proof fn lemma_template_at(segments: Seq<SegmentView>, index: int)
    requires
        0 <= index < segments.len(),
    ensures
        format_template(segments) == format_template(segments.take(index)) + (
        match segments[index] {
            SegmentView::String(text) => escape_percent(text),
            SegmentView::Value(_) => placeholder(),
        }) + format_template(segments.skip(index + 1)),
{
    let before = segments.take(index);
    let here = seq![segments[index]];
    let after = segments.skip(index + 1);
    assert(segments =~= before + here + after);
    lemma_template_concat(before + here, after);
    lemma_template_concat(before, here);
    assert(here.drop_last() =~= Seq::<SegmentView>::empty());
    assert(format_template(here.drop_last()) =~= Seq::<char>::empty());
    assert(format_template(here) =~= segment_template(segments[index]));
}

/// The values follow the segments: the values of two runs of segments in a row are
/// their values in a row. A literal segment has no value, and a value segment has its
/// expression as its one value, so the values are the expressions of the value
/// segments, in the order of the segments.
pub proof fn lemma_values_concat(front: Seq<SegmentView>, back: Seq<SegmentView>)
    ensures
        segment_values(front + back) == segment_values(front) + segment_values(back),
    decreases back.len(),
{
    if back.len() == 0 {
        assert(front + back =~= front);
        assert(segment_values(front) + segment_values(back) =~= segment_values(front));
    } else {
        lemma_values_concat(front, back.drop_last());
        assert((front + back).drop_last() =~= front + back.drop_last());
        assert((front + back).last() == back.last());
        assert(segment_values(front + back) =~= segment_values(front) + segment_values(back));
    }
}

/// The arguments of the call that replaces a string with segments are the template
/// and then the values of the segments, unchanged and in their order.
pub proof fn lemma_replacement_arguments(formatter: Seq<char>, segments: Seq<SegmentView>)
    requires
        segments.len() > 0,
    ensures
        replacement(formatter, segments) matches ExpressionView::Call(call) && {
            &&& call.prefix == PrefixView::Identifier(formatter)
            &&& call.arguments.len() == 1 + segment_values(segments).len()
            &&& call.arguments[0] == ExpressionView::String(format_template(segments))
            &&& call.arguments.skip(1) == segment_values(segments)
        },
{
    let arguments = seq![ExpressionView::String(format_template(segments))] + segment_values(
        segments,
    );
    assert(arguments.skip(1) =~= segment_values(segments));
}

/// The weight of a list with one more expression in front.
pub proof fn lemma_weight_with_first(first: ExpressionView, rest: Seq<ExpressionView>)
    ensures
        expressions_weight(seq![first] + rest) == expression_weight(first) + expressions_weight(
            rest,
        ),
    decreases rest.len(),
{
    let list = seq![first] + rest;
    if rest.len() == 0 {
        assert(list.drop_last() =~= Seq::<ExpressionView>::empty());
        assert(expressions_weight(list.drop_last()) == 0);
        assert(list.last() == first);
    } else {
        lemma_weight_with_first(first, rest.drop_last());
        assert(list.drop_last() =~= seq![first] + rest.drop_last());
        assert(list.last() == rest.last());
    }
}

/// The values of segments weigh no more than the segments.
pub proof fn lemma_values_weight(segments: Seq<SegmentView>)
    ensures
        expressions_weight(segment_values(segments)) <= segments_weight(segments),
    decreases segments.len(),
{
    if segments.len() > 0 {
        lemma_values_weight(segments.drop_last());
        match segments.last() {
            SegmentView::String(_) => {},
            SegmentView::Value(expression) => {
                let values = segment_values(segments);
                assert(values.drop_last() =~= segment_values(segments.drop_last()));
                assert(values.last() == expression);
                assert(segment_weight(segments.last()) == 1 + expression_weight(expression));
            },
        }
    }
}

/// What replaces an interpolated string weighs no more than the string.
pub proof fn lemma_replacement_weight(formatter: Seq<char>, segments: Seq<SegmentView>)
    ensures
        expression_weight(replacement(formatter, segments)) <= expression_weight(
            ExpressionView::InterpolatedString(segments),
        ),
{
    if segments.len() > 0 {
        let template = ExpressionView::String(format_template(segments));
        let call = CallView {
            prefix: PrefixView::Identifier(formatter),
            arguments: seq![template] + segment_values(segments),
        };
        lemma_values_weight(segments);
        lemma_weight_with_first(template, segment_values(segments));
        assert(expression_weight(template) == 1);
        assert(prefix_weight(call.prefix) == 1);
        assert(call_weight(call) == 2 + expressions_weight(call.arguments));
    }
}

/// Adds `text` to `template`, each `%` written twice.
pub fn push_escaped(template: &mut String, text: &str)
    ensures
        final(template)@ == old(template)@ + escape_percent(text@),
{
    let ghost before = template@;
    assert(text@.take(0) =~= Seq::<char>::empty());
    for ch in iter: text.chars()
        invariant
            iter.seq() == text@,
            template@ == before + escape_percent(text@.take(iter.index() as int)),
    {
        proof {
            let next = text@.take(iter.index() + 1);
            assert(next.drop_last() =~= text@.take(iter.index() as int));
            assert(next.last() == ch);
        }
        if ch == '%' {
            template.push('%');
            template.push('%');
        } else {
            template.push(ch);
        }
        assert(template@ =~= before + escape_percent(text@.take(iter.index() + 1)));
    }
    assert(text@.take(text@.len() as int) =~= text@);
}

/// The template of `string`.
pub fn build_template(string: &InterpolatedStringExpression) -> (template: String)
    ensures
        template@ == format_template(string@),
{
    let mut template = String::new();
    let mut i: usize = 0;
    assert(string@.take(0) =~= Seq::<SegmentView>::empty());
    while i < string.segments.len()
        invariant
            i <= string.segments.len(),
            template@ == format_template(string@.take(i as int)),
        decreases string.segments.len() - i,
    {
        proof {
            let next = string@.take(i + 1);
            assert(next.drop_last() =~= string@.take(i as int));
            assert(next.last() == string.segments@[i as int]@);
        }
        match &string.segments[i] {
            InterpolationSegment::String(segment) => {
                push_escaped(&mut template, segment.get_value());
            },
            InterpolationSegment::Value(_) => {
                template.push('%');
                template.push('*');
                assert(template@ =~= format_template(string@.take(i as int)) + placeholder());
            },
        }
        i = i + 1;
    }
    assert(string@.take(string@.len() as int) =~= string@);
    template
}

/// The arguments of the call that formats `string`: `template` as a literal, then a
/// copy of the expression of each value segment.
pub fn build_arguments(string: &InterpolatedStringExpression, template: String) -> (arguments:
    Vec<Expression>)
    ensures
        expressions_view(arguments@) == seq![ExpressionView::String(template@)] + segment_values(
            string@,
        ),
{
    let ghost first = seq![ExpressionView::String(template@)];
    let mut arguments: Vec<Expression> = Vec::new();
    arguments.push(Expression::String(StringExpression::new(template)));
    let mut i: usize = 0;
    assert(string@.take(0) =~= Seq::<SegmentView>::empty());
    assert(expressions_view(arguments@) =~= first + segment_values(string@.take(0)));
    while i < string.segments.len()
        invariant
            i <= string.segments.len(),
            expressions_view(arguments@) == first + segment_values(string@.take(i as int)),
        decreases string.segments.len() - i,
    {
        let ghost so_far = expressions_view(arguments@);
        proof {
            let next = string@.take(i + 1);
            assert(next.drop_last() =~= string@.take(i as int));
            assert(next.last() == string.segments@[i as int]@);
        }
        match &string.segments[i] {
            InterpolationSegment::Value(segment) => {
                arguments.push(segment.get_expression().clone());
                assert(expressions_view(arguments@) =~= so_far.push(segment@));
                assert(expressions_view(arguments@) =~= first + segment_values(
                    string@.take(i + 1),
                ));
            },
            InterpolationSegment::String(_) => {},
        }
        i = i + 1;
    }
    assert(string@.take(string@.len() as int) =~= string@);
    arguments
}

} // verus!
