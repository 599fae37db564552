//! Structural equality: two nodes are equal when their values are.

use crate::nodes::{
    expressions_view, identifiers_view, segments_view, statements_view, Block, Expression,
    FieldExpression, FunctionCall, FunctionExpression, Identifier, InterpolatedStringExpression,
    InterpolationSegment, LocalAssignStatement, Prefix, Statement, StringExpression,
    StringSegment, ValueSegment,
};
use vstd::prelude::*;

verus! {

pub fn same_identifier(left: &Identifier, right: &Identifier) -> (same: bool)
    ensures
        same == (left@ == right@),
{
    left.name == right.name
}

pub fn same_identifiers(left: &Vec<Identifier>, right: &Vec<Identifier>) -> (same: bool)
    ensures
        same == (identifiers_view(left@) == identifiers_view(right@)),
{
    if left.len() != right.len() {
        assert(identifiers_view(left@).len() != identifiers_view(right@).len());
        return false;
    }
    let mut i: usize = 0;
    while i < left.len()
        invariant
            left.len() == right.len(),
            i <= left.len(),
            forall|k: int| 0 <= k < i ==> identifiers_view(left@)[k] == identifiers_view(right@)[k],
        decreases left.len() - i,
    {
        if !same_identifier(&left[i], &right[i]) {
            assert(identifiers_view(left@)[i as int] != identifiers_view(right@)[i as int]);
            return false;
        }
        i = i + 1;
    }
    assert(identifiers_view(left@) =~= identifiers_view(right@));
    true
}

pub fn same_expression(left: &Expression, right: &Expression) -> (same: bool)
    ensures
        same == (left@ == right@),
    decreases left,
{
    match (left, right) {
        (Expression::Identifier(a), Expression::Identifier(b)) => a.name == b.name,
        (Expression::String(a), Expression::String(b)) => a.value == b.value,
        (Expression::InterpolatedString(a), Expression::InterpolatedString(b)) => same_segments(
            &a.segments,
            &b.segments,
        ),
        (Expression::Call(a), Expression::Call(b)) => same_call(a, b),
        (Expression::Field(a), Expression::Field(b)) => same_field(a, b),
        (Expression::Parenthese(a), Expression::Parenthese(b)) => same_expression(a, b),
        (Expression::Function(a), Expression::Function(b)) => same_function(a, b),
        _ => false,
    }
}

pub fn same_expressions(left: &Vec<Expression>, right: &Vec<Expression>) -> (same: bool)
    ensures
        same == (expressions_view(left@) == expressions_view(right@)),
    decreases left,
{
    if left.len() != right.len() {
        assert(expressions_view(left@).len() != expressions_view(right@).len());
        return false;
    }
    let mut i: usize = 0;
    while i < left.len()
        invariant
            left.len() == right.len(),
            i <= left.len(),
            forall|k: int| 0 <= k < i ==> expressions_view(left@)[k] == expressions_view(right@)[k],
        decreases left.len() - i,
    {
        if !same_expression(&left[i], &right[i]) {
            assert(expressions_view(left@)[i as int] != expressions_view(right@)[i as int]);
            return false;
        }
        i = i + 1;
    }
    assert(expressions_view(left@) =~= expressions_view(right@));
    true
}

pub fn same_segment(left: &InterpolationSegment, right: &InterpolationSegment) -> (same: bool)
    ensures
        same == (left@ == right@),
    decreases left,
{
    match (left, right) {
        (InterpolationSegment::String(a), InterpolationSegment::String(b)) => a.value == b.value,
        (InterpolationSegment::Value(a), InterpolationSegment::Value(b)) => same_expression(
            &a.value,
            &b.value,
        ),
        _ => false,
    }
}

pub fn same_segments(left: &Vec<InterpolationSegment>, right: &Vec<InterpolationSegment>) -> (same: bool)
    ensures
        same == (segments_view(left@) == segments_view(right@)),
    decreases left,
{
    if left.len() != right.len() {
        assert(segments_view(left@).len() != segments_view(right@).len());
        return false;
    }
    let mut i: usize = 0;
    while i < left.len()
        invariant
            left.len() == right.len(),
            i <= left.len(),
            forall|k: int| 0 <= k < i ==> segments_view(left@)[k] == segments_view(right@)[k],
        decreases left.len() - i,
    {
        if !same_segment(&left[i], &right[i]) {
            assert(segments_view(left@)[i as int] != segments_view(right@)[i as int]);
            return false;
        }
        i = i + 1;
    }
    assert(segments_view(left@) =~= segments_view(right@));
    true
}

pub fn same_prefix(left: &Prefix, right: &Prefix) -> (same: bool)
    ensures
        same == (left@ == right@),
    decreases left,
{
    match (left, right) {
        (Prefix::Identifier(a), Prefix::Identifier(b)) => a.name == b.name,
        (Prefix::Call(a), Prefix::Call(b)) => same_call(a, b),
        (Prefix::Field(a), Prefix::Field(b)) => same_field(a, b),
        (Prefix::Parenthese(a), Prefix::Parenthese(b)) => same_expression(a, b),
        _ => false,
    }
}

pub fn same_call(left: &FunctionCall, right: &FunctionCall) -> (same: bool)
    ensures
        same == (left@ == right@),
    decreases left,
{
    same_prefix(&left.prefix, &right.prefix) && same_expressions(
        &left.arguments,
        &right.arguments,
    )
}

pub fn same_field(left: &FieldExpression, right: &FieldExpression) -> (same: bool)
    ensures
        same == (left@ == right@),
    decreases left,
{
    same_prefix(&left.prefix, &right.prefix) && left.field.name == right.field.name
}

pub fn same_function(left: &FunctionExpression, right: &FunctionExpression) -> (same: bool)
    ensures
        same == (left@ == right@),
    decreases left,
{
    same_identifiers(&left.parameters, &right.parameters) && same_block(&left.body, &right.body)
}

pub fn same_local_assign(left: &LocalAssignStatement, right: &LocalAssignStatement) -> (same:
    bool)
    ensures
        same == (left@ == right@),
    decreases left,
{
    same_identifiers(&left.variables, &right.variables) && same_expressions(
        &left.values,
        &right.values,
    )
}

pub fn same_statement(left: &Statement, right: &Statement) -> (same: bool)
    ensures
        same == (left@ == right@),
    decreases left,
{
    match (left, right) {
        (Statement::LocalAssign(a), Statement::LocalAssign(b)) => same_local_assign(a, b),
        (Statement::Call(a), Statement::Call(b)) => same_call(a, b),
        (Statement::Do(a), Statement::Do(b)) => same_block(a, b),
        _ => false,
    }
}

pub fn same_statements(left: &Vec<Statement>, right: &Vec<Statement>) -> (same: bool)
    ensures
        same == (statements_view(left@) == statements_view(right@)),
    decreases left,
{
    if left.len() != right.len() {
        assert(statements_view(left@).len() != statements_view(right@).len());
        return false;
    }
    let mut i: usize = 0;
    while i < left.len()
        invariant
            left.len() == right.len(),
            i <= left.len(),
            forall|k: int| 0 <= k < i ==> statements_view(left@)[k] == statements_view(right@)[k],
        decreases left.len() - i,
    {
        if !same_statement(&left[i], &right[i]) {
            assert(statements_view(left@)[i as int] != statements_view(right@)[i as int]);
            return false;
        }
        i = i + 1;
    }
    assert(statements_view(left@) =~= statements_view(right@));
    true
}

pub fn same_block(left: &Block, right: &Block) -> (same: bool)
    ensures
        same == (left@ == right@),
    decreases left,
{
    same_statements(&left.statements, &right.statements)
}

impl PartialEq for Identifier {
    fn eq(&self, other: &Self) -> (same: bool) {
        self.name == other.name
    }
}

impl vstd::std_specs::cmp::PartialEqSpecImpl for Identifier {
    open spec fn obeys_eq_spec() -> bool {
        true
    }

    open spec fn eq_spec(&self, other: &Self) -> bool {
        self@ == other@
    }
}

impl Eq for Identifier {

}

impl PartialEq for StringExpression {
    fn eq(&self, other: &Self) -> (same: bool) {
        self.value == other.value
    }
}

impl vstd::std_specs::cmp::PartialEqSpecImpl for StringExpression {
    open spec fn obeys_eq_spec() -> bool {
        true
    }

    open spec fn eq_spec(&self, other: &Self) -> bool {
        self@ == other@
    }
}

impl Eq for StringExpression {

}

impl PartialEq for StringSegment {
    fn eq(&self, other: &Self) -> (same: bool) {
        self.value == other.value
    }
}

impl vstd::std_specs::cmp::PartialEqSpecImpl for StringSegment {
    open spec fn obeys_eq_spec() -> bool {
        true
    }

    open spec fn eq_spec(&self, other: &Self) -> bool {
        self@ == other@
    }
}

impl Eq for StringSegment {

}

impl PartialEq for ValueSegment {
    fn eq(&self, other: &Self) -> (same: bool) {
        same_expression(&self.value, &other.value)
    }
}

impl vstd::std_specs::cmp::PartialEqSpecImpl for ValueSegment {
    open spec fn obeys_eq_spec() -> bool {
        true
    }

    open spec fn eq_spec(&self, other: &Self) -> bool {
        self@ == other@
    }
}

impl Eq for ValueSegment {

}

impl PartialEq for InterpolationSegment {
    fn eq(&self, other: &Self) -> (same: bool) {
        same_segment(self, other)
    }
}

impl vstd::std_specs::cmp::PartialEqSpecImpl for InterpolationSegment {
    open spec fn obeys_eq_spec() -> bool {
        true
    }

    open spec fn eq_spec(&self, other: &Self) -> bool {
        self@ == other@
    }
}

impl Eq for InterpolationSegment {

}

impl PartialEq for InterpolatedStringExpression {
    fn eq(&self, other: &Self) -> (same: bool) {
        same_segments(&self.segments, &other.segments)
    }
}

impl vstd::std_specs::cmp::PartialEqSpecImpl for InterpolatedStringExpression {
    open spec fn obeys_eq_spec() -> bool {
        true
    }

    open spec fn eq_spec(&self, other: &Self) -> bool {
        self@ == other@
    }
}

impl Eq for InterpolatedStringExpression {

}

impl PartialEq for Prefix {
    fn eq(&self, other: &Self) -> (same: bool) {
        same_prefix(self, other)
    }
}

impl vstd::std_specs::cmp::PartialEqSpecImpl for Prefix {
    open spec fn obeys_eq_spec() -> bool {
        true
    }

    open spec fn eq_spec(&self, other: &Self) -> bool {
        self@ == other@
    }
}

impl Eq for Prefix {

}

impl PartialEq for FunctionCall {
    fn eq(&self, other: &Self) -> (same: bool) {
        same_call(self, other)
    }
}

impl vstd::std_specs::cmp::PartialEqSpecImpl for FunctionCall {
    open spec fn obeys_eq_spec() -> bool {
        true
    }

    open spec fn eq_spec(&self, other: &Self) -> bool {
        self@ == other@
    }
}

impl Eq for FunctionCall {

}

impl PartialEq for FieldExpression {
    fn eq(&self, other: &Self) -> (same: bool) {
        same_field(self, other)
    }
}

impl vstd::std_specs::cmp::PartialEqSpecImpl for FieldExpression {
    open spec fn obeys_eq_spec() -> bool {
        true
    }

    open spec fn eq_spec(&self, other: &Self) -> bool {
        self@ == other@
    }
}

impl Eq for FieldExpression {

}

impl PartialEq for FunctionExpression {
    fn eq(&self, other: &Self) -> (same: bool) {
        same_function(self, other)
    }
}

impl vstd::std_specs::cmp::PartialEqSpecImpl for FunctionExpression {
    open spec fn obeys_eq_spec() -> bool {
        true
    }

    open spec fn eq_spec(&self, other: &Self) -> bool {
        self@ == other@
    }
}

impl Eq for FunctionExpression {

}

impl PartialEq for Expression {
    fn eq(&self, other: &Self) -> (same: bool) {
        same_expression(self, other)
    }
}

impl vstd::std_specs::cmp::PartialEqSpecImpl for Expression {
    open spec fn obeys_eq_spec() -> bool {
        true
    }

    open spec fn eq_spec(&self, other: &Self) -> bool {
        self@ == other@
    }
}

impl Eq for Expression {

}

impl PartialEq for LocalAssignStatement {
    fn eq(&self, other: &Self) -> (same: bool) {
        same_local_assign(self, other)
    }
}

impl vstd::std_specs::cmp::PartialEqSpecImpl for LocalAssignStatement {
    open spec fn obeys_eq_spec() -> bool {
        true
    }

    open spec fn eq_spec(&self, other: &Self) -> bool {
        self@ == other@
    }
}

impl Eq for LocalAssignStatement {

}

impl PartialEq for Statement {
    fn eq(&self, other: &Self) -> (same: bool) {
        same_statement(self, other)
    }
}

impl vstd::std_specs::cmp::PartialEqSpecImpl for Statement {
    open spec fn obeys_eq_spec() -> bool {
        true
    }

    open spec fn eq_spec(&self, other: &Self) -> bool {
        self@ == other@
    }
}

impl Eq for Statement {

}

impl PartialEq for Block {
    fn eq(&self, other: &Self) -> (same: bool) {
        same_block(self, other)
    }
}

impl vstd::std_specs::cmp::PartialEqSpecImpl for Block {
    open spec fn obeys_eq_spec() -> bool {
        true
    }

    open spec fn eq_spec(&self, other: &Self) -> bool {
        self@ == other@
    }
}

impl Eq for Block {

}

} // verus!
