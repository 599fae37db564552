//! Deep duplication: a copy of a node has the same value as the node and shares
//! nothing with it.

use crate::nodes::{
    expressions_view, identifiers_view, segments_view, statements_view, Block, Expression,
    FieldExpression, FunctionCall, FunctionExpression, Identifier, InterpolatedStringExpression,
    InterpolationSegment, LocalAssignStatement, Prefix, Statement, StringExpression,
    StringSegment, ValueSegment,
};
use vstd::prelude::*;

verus! {

pub fn duplicate_identifiers(list: &Vec<Identifier>) -> (copy: Vec<Identifier>)
    ensures
        identifiers_view(copy@) == identifiers_view(list@),
{
    let mut copy: Vec<Identifier> = Vec::new();
    let mut i: usize = 0;
    while i < list.len()
        invariant
            i <= list.len(),
            copy.len() == i,
            forall|k: int| 0 <= k < i ==> copy@[k].name@ == list@[k].name@,
        decreases list.len() - i,
    {
        copy.push(Identifier { name: list[i].name.clone() });
        i = i + 1;
    }
    assert(identifiers_view(copy@) =~= identifiers_view(list@));
    copy
}

pub fn duplicate_expression(expression: &Expression) -> (copy: Expression)
    ensures
        copy@ == expression@,
    decreases expression,
{
    match expression {
        Expression::Identifier(identifier) => Expression::Identifier(
            Identifier { name: identifier.name.clone() },
        ),
        Expression::String(string) => Expression::String(
            StringExpression { value: string.value.clone() },
        ),
        Expression::InterpolatedString(string) => Expression::InterpolatedString(
            InterpolatedStringExpression { segments: duplicate_segments(&string.segments) },
        ),
        Expression::Call(call) => Expression::Call(Box::new(duplicate_call(call))),
        Expression::Field(field) => Expression::Field(Box::new(duplicate_field(field))),
        Expression::Parenthese(inner) => Expression::Parenthese(
            Box::new(duplicate_expression(inner)),
        ),
        Expression::Function(function) => Expression::Function(
            Box::new(duplicate_function(function)),
        ),
    }
}

pub fn duplicate_function(function: &FunctionExpression) -> (copy: FunctionExpression)
    ensures
        copy@ == function@,
    decreases function,
{
    FunctionExpression {
        parameters: duplicate_identifiers(&function.parameters),
        body: duplicate_block(&function.body),
    }
}

pub fn duplicate_expressions(list: &Vec<Expression>) -> (copy: Vec<Expression>)
    ensures
        expressions_view(copy@) == expressions_view(list@),
    decreases list,
{
    let mut copy: Vec<Expression> = Vec::new();
    let mut i: usize = 0;
    while i < list.len()
        invariant
            i <= list.len(),
            copy.len() == i,
            forall|k: int| 0 <= k < i ==> copy@[k]@ == list@[k]@,
        decreases list.len() - i,
    {
        copy.push(duplicate_expression(&list[i]));
        i = i + 1;
    }
    assert(expressions_view(copy@) =~= expressions_view(list@));
    copy
}

pub fn duplicate_segment(segment: &InterpolationSegment) -> (copy: InterpolationSegment)
    ensures
        copy@ == segment@,
    decreases segment,
{
    match segment {
        InterpolationSegment::String(string) => InterpolationSegment::String(
            StringSegment { value: string.value.clone() },
        ),
        InterpolationSegment::Value(value) => InterpolationSegment::Value(
            ValueSegment { value: Box::new(duplicate_expression(&value.value)) },
        ),
    }
}

pub fn duplicate_segments(list: &Vec<InterpolationSegment>) -> (copy: Vec<InterpolationSegment>)
    ensures
        segments_view(copy@) == segments_view(list@),
    decreases list,
{
    let mut copy: Vec<InterpolationSegment> = Vec::new();
    let mut i: usize = 0;
    while i < list.len()
        invariant
            i <= list.len(),
            copy.len() == i,
            forall|k: int| 0 <= k < i ==> copy@[k]@ == list@[k]@,
        decreases list.len() - i,
    {
        copy.push(duplicate_segment(&list[i]));
        i = i + 1;
    }
    assert(segments_view(copy@) =~= segments_view(list@));
    copy
}

pub fn duplicate_prefix(prefix: &Prefix) -> (copy: Prefix)
    ensures
        copy@ == prefix@,
    decreases prefix,
{
    match prefix {
        Prefix::Identifier(identifier) => Prefix::Identifier(
            Identifier { name: identifier.name.clone() },
        ),
        Prefix::Call(call) => Prefix::Call(Box::new(duplicate_call(call))),
        Prefix::Field(field) => Prefix::Field(Box::new(duplicate_field(field))),
        Prefix::Parenthese(inner) => Prefix::Parenthese(Box::new(duplicate_expression(inner))),
    }
}

pub fn duplicate_call(call: &FunctionCall) -> (copy: FunctionCall)
    ensures
        copy@ == call@,
    decreases call,
{
    FunctionCall {
        prefix: duplicate_prefix(&call.prefix),
        arguments: duplicate_expressions(&call.arguments),
    }
}

pub fn duplicate_field(field: &FieldExpression) -> (copy: FieldExpression)
    ensures
        copy@ == field@,
    decreases field,
{
    FieldExpression {
        prefix: duplicate_prefix(&field.prefix),
        field: Identifier { name: field.field.name.clone() },
    }
}

pub fn duplicate_statement(statement: &Statement) -> (copy: Statement)
    ensures
        copy@ == statement@,
    decreases statement,
{
    match statement {
        Statement::LocalAssign(assign) => Statement::LocalAssign(
            LocalAssignStatement {
                variables: duplicate_identifiers(&assign.variables),
                values: duplicate_expressions(&assign.values),
            },
        ),
        Statement::Call(call) => Statement::Call(duplicate_call(call)),
        Statement::Do(block) => Statement::Do(duplicate_block(block)),
    }
}

pub fn duplicate_block(block: &Block) -> (copy: Block)
    ensures
        copy@ == block@,
    decreases block,
{
    let mut copy: Vec<Statement> = Vec::new();
    let mut i: usize = 0;
    while i < block.statements.len()
        invariant
            i <= block.statements.len(),
            copy.len() == i,
            forall|k: int| 0 <= k < i ==> copy@[k]@ == block.statements@[k]@,
        decreases block.statements.len() - i,
    {
        copy.push(duplicate_statement(&block.statements[i]));
        i = i + 1;
    }
    assert(statements_view(copy@) =~= statements_view(block.statements@));
    Block { statements: copy }
}

impl Clone for Identifier {
    fn clone(&self) -> (copy: Self)
        ensures
            copy@ == self@,
    {
        Identifier { name: self.name.clone() }
    }
}

impl Clone for StringExpression {
    fn clone(&self) -> (copy: Self)
        ensures
            copy@ == self@,
    {
        StringExpression { value: self.value.clone() }
    }
}

impl Clone for StringSegment {
    fn clone(&self) -> (copy: Self)
        ensures
            copy@ == self@,
    {
        StringSegment { value: self.value.clone() }
    }
}

impl Clone for ValueSegment {
    fn clone(&self) -> (copy: Self)
        ensures
            copy@ == self@,
    {
        ValueSegment { value: Box::new(duplicate_expression(&self.value)) }
    }
}

impl Clone for InterpolationSegment {
    fn clone(&self) -> (copy: Self)
        ensures
            copy@ == self@,
    {
        duplicate_segment(self)
    }
}

impl Clone for InterpolatedStringExpression {
    fn clone(&self) -> (copy: Self)
        ensures
            copy@ == self@,
    {
        InterpolatedStringExpression { segments: duplicate_segments(&self.segments) }
    }
}

impl Clone for Prefix {
    fn clone(&self) -> (copy: Self)
        ensures
            copy@ == self@,
    {
        duplicate_prefix(self)
    }
}

impl Clone for FunctionCall {
    fn clone(&self) -> (copy: Self)
        ensures
            copy@ == self@,
    {
        duplicate_call(self)
    }
}

impl Clone for FieldExpression {
    fn clone(&self) -> (copy: Self)
        ensures
            copy@ == self@,
    {
        duplicate_field(self)
    }
}

impl Clone for FunctionExpression {
    fn clone(&self) -> (copy: Self)
        ensures
            copy@ == self@,
    {
        duplicate_function(self)
    }
}

impl Clone for Expression {
    fn clone(&self) -> (copy: Self)
        ensures
            copy@ == self@,
    {
        duplicate_expression(self)
    }
}

impl Clone for LocalAssignStatement {
    fn clone(&self) -> (copy: Self)
        ensures
            copy@ == self@,
    {
        LocalAssignStatement {
            variables: duplicate_identifiers(&self.variables),
            values: duplicate_expressions(&self.values),
        }
    }
}

impl Clone for Statement {
    fn clone(&self) -> (copy: Self)
        ensures
            copy@ == self@,
    {
        duplicate_statement(self)
    }
}

impl Clone for Block {
    fn clone(&self) -> (copy: Self)
        ensures
            copy@ == self@,
    {
        duplicate_block(self)
    }
}

} // verus!
