//! The traversal itself: it changes the block in place and does what
//! [`walk_block`] says.

use crate::nodes::{
    expressions_view, identifiers_view, segments_view, statements_view, Block, Expression,
    FieldExpression, FunctionCall, FunctionExpression, Identifier, InterpolationSegment, Prefix,
    Statement,
};
use crate::process::walk::{
    declare_all, walk_block, walk_block_body, walk_call, walk_expression,
    walk_expression_parts, walk_expressions, walk_field, walk_function, walk_prefix,
    walk_segment, walk_segments, walk_statement, walk_statement_parts, walk_statements,
};
use crate::process::weight::{
    block_weight, call_weight, expression_weight, expressions_weight, field_weight,
    function_weight, lemma_expression_within, lemma_segment_within, lemma_statement_within,
    prefix_weight, segment_weight, segments_weight, statement_weight, statements_weight,
};
use crate::process::{NodeProcessor, Scope};
use vstd::prelude::*;

verus! {

/// The traversal that keeps the processor's scopes in step with the blocks and
/// functions it is in.
pub struct ScopeVisitor;

impl ScopeVisitor {
    /// Walks `block` with `processor`: every statement and expression that can be
    /// reached is offered to its hook once, in source order, and every frame that
    /// the walk opens is closed again.
    pub fn visit_block<P: NodeProcessor>(block: &mut Block, processor: &mut P)
        ensures
            (final(processor)@, final(block)@) == walk_block::<P>(old(processor)@, old(block)@),
            P::frames(final(processor)@) == P::frames(old(processor)@),
        decreases block_weight(old(block)@), 1nat,
    {
        processor.enter_scope();
        Self::visit_block_body(block, processor);
        processor.exit_scope();
    }

    /// Walks `block` in the frame that is open.
    pub fn visit_block_body<P: NodeProcessor>(block: &mut Block, processor: &mut P)
        ensures
            (final(processor)@, final(block)@) == walk_block_body::<P>(
                old(processor)@,
                old(block)@,
            ),
            P::frames(final(processor)@) == P::frames(old(processor)@),
        decreases block_weight(old(block)@), 0nat,
    {
        processor.process_block(block);
        Self::visit_statements(&mut block.statements, processor);
    }

    pub fn visit_statements<P: NodeProcessor>(list: &mut Vec<Statement>, processor: &mut P)
        ensures
            (final(processor)@, statements_view(final(list)@)) == walk_statements::<P>(
                old(processor)@,
                statements_view(old(list)@),
            ),
            P::frames(final(processor)@) == P::frames(old(processor)@),
        decreases statements_weight(statements_view(old(list)@)), old(list)@.len() + 2,
    {
        let ghost start = processor@;
        let ghost before = statements_view(list@);
        let n: usize = list.len();
        let mut i: usize = 0;
        assert(before.take(0) =~= Seq::empty());
        assert(statements_view(list@).take(0) =~= Seq::empty());
        while i < n
            invariant
                i <= n,
                n == list.len(),
                before == statements_view(old(list)@),
                before.len() == n,
                forall|k: int| i <= k < n ==> list@[k]@ == before[k],
                (processor@, statements_view(list@).take(i as int)) == walk_statements::<P>(
                    start,
                    before.take(i as int),
                ),
                P::frames(processor@) == P::frames(start),
            decreases n - i,
        {
            let ghost done = statements_view(list@).take(i as int);
            proof {
                lemma_statement_within(before, i as int);
                assert(before.take(i + 1).drop_last() =~= before.take(i as int));
            }
            Self::visit_statement(&mut list[i], processor);
            assert(statements_view(list@).take(i + 1) =~= done.push(list@[i as int]@));
            i = i + 1;
        }
        assert(before.take(n as int) =~= before);
        assert(statements_view(list@).take(n as int) =~= statements_view(list@));
    }

    pub fn visit_statement<P: NodeProcessor>(statement: &mut Statement, processor: &mut P)
        ensures
            (final(processor)@, final(statement)@) == walk_statement::<P>(
                old(processor)@,
                old(statement)@,
            ),
            P::frames(final(processor)@) == P::frames(old(processor)@),
        decreases statement_weight(old(statement)@), 1nat,
    {
        processor.process_statement(statement);
        Self::visit_statement_parts(statement, processor);
    }

    /// Walks into `statement`, whose hook was called.
    pub fn visit_statement_parts<P: NodeProcessor>(statement: &mut Statement, processor: &mut P)
        ensures
            (final(processor)@, final(statement)@) == walk_statement_parts::<P>(
                old(processor)@,
                old(statement)@,
            ),
            P::frames(final(processor)@) == P::frames(old(processor)@),
        decreases statement_weight(old(statement)@), 0nat,
    {
        match statement {
            Statement::LocalAssign(assign) => {
                Self::visit_expressions(&mut assign.values, processor);
                Self::declare_identifiers(&assign.variables, processor);
            },
            Statement::Call(call) => {
                Self::visit_call(call, processor);
            },
            Statement::Do(block) => {
                Self::visit_block(block, processor);
            },
        }
    }

    /// Declares `names` in the top frame, first to last.
    pub fn declare_identifiers<P: Scope>(names: &Vec<Identifier>, processor: &mut P)
        ensures
            final(processor)@ == declare_all::<P>(old(processor)@, identifiers_view(names@)),
            P::frames(final(processor)@) == P::frames(old(processor)@),
    {
        let ghost start = processor@;
        let ghost all = identifiers_view(names@);
        let mut i: usize = 0;
        assert(all.take(0) =~= Seq::empty());
        while i < names.len()
            invariant
                i <= names.len(),
                all == identifiers_view(names@),
                processor@ == declare_all::<P>(start, all.take(i as int)),
                P::frames(processor@) == P::frames(start),
            decreases names.len() - i,
        {
            proof {
                assert(all.take(i + 1).drop_last() =~= all.take(i as int));
            }
            processor.declare(names[i].get_name());
            i = i + 1;
        }
        assert(all.take(names.len() as int) =~= all);
    }

    pub fn visit_expressions<P: NodeProcessor>(list: &mut Vec<Expression>, processor: &mut P)
        ensures
            (final(processor)@, expressions_view(final(list)@)) == walk_expressions::<P>(
                old(processor)@,
                expressions_view(old(list)@),
            ),
            P::frames(final(processor)@) == P::frames(old(processor)@),
        decreases expressions_weight(expressions_view(old(list)@)), old(list)@.len() + 2,
    {
        let ghost start = processor@;
        let ghost before = expressions_view(list@);
        let n: usize = list.len();
        let mut i: usize = 0;
        assert(before.take(0) =~= Seq::empty());
        assert(expressions_view(list@).take(0) =~= Seq::empty());
        while i < n
            invariant
                i <= n,
                n == list.len(),
                before == expressions_view(old(list)@),
                before.len() == n,
                forall|k: int| i <= k < n ==> list@[k]@ == before[k],
                (processor@, expressions_view(list@).take(i as int)) == walk_expressions::<P>(
                    start,
                    before.take(i as int),
                ),
                P::frames(processor@) == P::frames(start),
            decreases n - i,
        {
            let ghost done = expressions_view(list@).take(i as int);
            proof {
                lemma_expression_within(before, i as int);
                assert(before.take(i + 1).drop_last() =~= before.take(i as int));
            }
            Self::visit_expression(&mut list[i], processor);
            assert(expressions_view(list@).take(i + 1) =~= done.push(list@[i as int]@));
            i = i + 1;
        }
        assert(before.take(n as int) =~= before);
        assert(expressions_view(list@).take(n as int) =~= expressions_view(list@));
    }

    pub fn visit_expression<P: NodeProcessor>(expression: &mut Expression, processor: &mut P)
        ensures
            (final(processor)@, final(expression)@) == walk_expression::<P>(
                old(processor)@,
                old(expression)@,
            ),
            P::frames(final(processor)@) == P::frames(old(processor)@),
        decreases expression_weight(old(expression)@), 1nat,
    {
        processor.process_expression(expression);
        Self::visit_expression_parts(expression, processor);
    }

    /// Walks into `expression`, whose hook was called.
    pub fn visit_expression_parts<P: NodeProcessor>(
        expression: &mut Expression,
        processor: &mut P,
    )
        ensures
            (final(processor)@, final(expression)@) == walk_expression_parts::<P>(
                old(processor)@,
                old(expression)@,
            ),
            P::frames(final(processor)@) == P::frames(old(processor)@),
        decreases expression_weight(old(expression)@), 0nat,
    {
        match expression {
            Expression::Identifier(_) => {},
            Expression::String(_) => {},
            Expression::InterpolatedString(string) => {
                Self::visit_segments(&mut string.segments, processor);
            },
            Expression::Call(call) => {
                Self::visit_call(call, processor);
            },
            Expression::Field(field) => {
                Self::visit_field(field, processor);
            },
            Expression::Parenthese(inner) => {
                Self::visit_expression(inner, processor);
            },
            Expression::Function(function) => {
                Self::visit_function(function, processor);
            },
        }
    }

    pub fn visit_segments<P: NodeProcessor>(
        list: &mut Vec<InterpolationSegment>,
        processor: &mut P,
    )
        ensures
            (final(processor)@, segments_view(final(list)@)) == walk_segments::<P>(
                old(processor)@,
                segments_view(old(list)@),
            ),
            P::frames(final(processor)@) == P::frames(old(processor)@),
        decreases segments_weight(segments_view(old(list)@)), old(list)@.len() + 2,
    {
        let ghost start = processor@;
        let ghost before = segments_view(list@);
        let n: usize = list.len();
        let mut i: usize = 0;
        assert(before.take(0) =~= Seq::empty());
        assert(segments_view(list@).take(0) =~= Seq::empty());
        while i < n
            invariant
                i <= n,
                n == list.len(),
                before == segments_view(old(list)@),
                before.len() == n,
                forall|k: int| i <= k < n ==> list@[k]@ == before[k],
                (processor@, segments_view(list@).take(i as int)) == walk_segments::<P>(
                    start,
                    before.take(i as int),
                ),
                P::frames(processor@) == P::frames(start),
            decreases n - i,
        {
            let ghost done = segments_view(list@).take(i as int);
            proof {
                lemma_segment_within(before, i as int);
                assert(before.take(i + 1).drop_last() =~= before.take(i as int));
            }
            Self::visit_segment(&mut list[i], processor);
            assert(segments_view(list@).take(i + 1) =~= done.push(list@[i as int]@));
            i = i + 1;
        }
        assert(before.take(n as int) =~= before);
        assert(segments_view(list@).take(n as int) =~= segments_view(list@));
    }

    pub fn visit_segment<P: NodeProcessor>(segment: &mut InterpolationSegment, processor: &mut P)
        ensures
            (final(processor)@, final(segment)@) == walk_segment::<P>(
                old(processor)@,
                old(segment)@,
            ),
            P::frames(final(processor)@) == P::frames(old(processor)@),
        decreases segment_weight(old(segment)@), 0nat,
    {
        match segment {
            InterpolationSegment::String(_) => {},
            InterpolationSegment::Value(value) => {
                Self::visit_expression(&mut value.value, processor);
            },
        }
    }

    pub fn visit_prefix<P: NodeProcessor>(prefix: &mut Prefix, processor: &mut P)
        ensures
            (final(processor)@, final(prefix)@) == walk_prefix::<P>(
                old(processor)@,
                old(prefix)@,
            ),
            P::frames(final(processor)@) == P::frames(old(processor)@),
        decreases prefix_weight(old(prefix)@), 0nat,
    {
        match prefix {
            Prefix::Identifier(_) => {},
            Prefix::Call(call) => {
                Self::visit_call(call, processor);
            },
            Prefix::Field(field) => {
                Self::visit_field(field, processor);
            },
            Prefix::Parenthese(inner) => {
                Self::visit_expression(inner, processor);
            },
        }
    }

    /// Walks the prefix of `call`, then its arguments.
    pub fn visit_call<P: NodeProcessor>(call: &mut FunctionCall, processor: &mut P)
        ensures
            (final(processor)@, final(call)@) == walk_call::<P>(old(processor)@, old(call)@),
            P::frames(final(processor)@) == P::frames(old(processor)@),
        decreases call_weight(old(call)@), 0nat,
    {
        Self::visit_prefix(&mut call.prefix, processor);
        Self::visit_expressions(&mut call.arguments, processor);
    }

    pub fn visit_field<P: NodeProcessor>(field: &mut FieldExpression, processor: &mut P)
        ensures
            (final(processor)@, final(field)@) == walk_field::<P>(old(processor)@, old(field)@),
            P::frames(final(processor)@) == P::frames(old(processor)@),
        decreases field_weight(old(field)@), 0nat,
    {
        Self::visit_prefix(&mut field.prefix, processor);
    }

    /// Walks the body of `function` in a frame that holds its parameters.
    pub fn visit_function<P: NodeProcessor>(function: &mut FunctionExpression, processor: &mut P)
        ensures
            (final(processor)@, final(function)@) == walk_function::<P>(
                old(processor)@,
                old(function)@,
            ),
            P::frames(final(processor)@) == P::frames(old(processor)@),
        decreases function_weight(old(function)@), 0nat,
    {
        processor.enter_scope();
        Self::declare_identifiers(&function.parameters, processor);
        Self::visit_block(&mut function.body, processor);
        processor.exit_scope();
    }
}

} // verus!
