//! Every node that is one case of a larger kind of node converts into it.

use crate::nodes::{
    Block, Expression, FieldExpression, FunctionCall, FunctionExpression, Identifier,
    InterpolatedStringExpression, InterpolationSegment, LocalAssignStatement, Prefix, Statement,
    StringExpression, StringSegment, ValueSegment,
};
use vstd::prelude::*;

verus! {

impl From<Identifier> for Expression {
    /// A reference to the variable that `value` names.
    fn from(value: Identifier) -> (node: Expression) {
        Expression::Identifier(value)
    }
}

impl vstd::std_specs::convert::FromSpecImpl<Identifier> for Expression {
    open spec fn obeys_from_spec() -> bool {
        true
    }

    open spec fn from_spec(value: Identifier) -> Expression {
        Expression::Identifier(value)
    }
}

impl From<StringExpression> for Expression {
    fn from(value: StringExpression) -> (node: Expression) {
        Expression::String(value)
    }
}

impl vstd::std_specs::convert::FromSpecImpl<StringExpression> for Expression {
    open spec fn obeys_from_spec() -> bool {
        true
    }

    open spec fn from_spec(value: StringExpression) -> Expression {
        Expression::String(value)
    }
}

impl From<InterpolatedStringExpression> for Expression {
    fn from(value: InterpolatedStringExpression) -> (node: Expression) {
        Expression::InterpolatedString(value)
    }
}

impl vstd::std_specs::convert::FromSpecImpl<InterpolatedStringExpression> for Expression {
    open spec fn obeys_from_spec() -> bool {
        true
    }

    open spec fn from_spec(value: InterpolatedStringExpression) -> Expression {
        Expression::InterpolatedString(value)
    }
}

impl From<FunctionCall> for Expression {
    fn from(value: FunctionCall) -> (node: Expression) {
        Expression::Call(Box::new(value))
    }
}

impl vstd::std_specs::convert::FromSpecImpl<FunctionCall> for Expression {
    open spec fn obeys_from_spec() -> bool {
        true
    }

    open spec fn from_spec(value: FunctionCall) -> Expression {
        Expression::Call(Box::new(value))
    }
}

impl From<FieldExpression> for Expression {
    fn from(value: FieldExpression) -> (node: Expression) {
        Expression::Field(Box::new(value))
    }
}

impl vstd::std_specs::convert::FromSpecImpl<FieldExpression> for Expression {
    open spec fn obeys_from_spec() -> bool {
        true
    }

    open spec fn from_spec(value: FieldExpression) -> Expression {
        Expression::Field(Box::new(value))
    }
}

impl From<FunctionExpression> for Expression {
    fn from(value: FunctionExpression) -> (node: Expression) {
        Expression::Function(Box::new(value))
    }
}

impl vstd::std_specs::convert::FromSpecImpl<FunctionExpression> for Expression {
    open spec fn obeys_from_spec() -> bool {
        true
    }

    open spec fn from_spec(value: FunctionExpression) -> Expression {
        Expression::Function(Box::new(value))
    }
}

impl From<Identifier> for Prefix {
    fn from(value: Identifier) -> (node: Prefix) {
        Prefix::Identifier(value)
    }
}

impl vstd::std_specs::convert::FromSpecImpl<Identifier> for Prefix {
    open spec fn obeys_from_spec() -> bool {
        true
    }

    open spec fn from_spec(value: Identifier) -> Prefix {
        Prefix::Identifier(value)
    }
}

impl From<FunctionCall> for Prefix {
    fn from(value: FunctionCall) -> (node: Prefix) {
        Prefix::Call(Box::new(value))
    }
}

impl vstd::std_specs::convert::FromSpecImpl<FunctionCall> for Prefix {
    open spec fn obeys_from_spec() -> bool {
        true
    }

    open spec fn from_spec(value: FunctionCall) -> Prefix {
        Prefix::Call(Box::new(value))
    }
}

impl From<FieldExpression> for Prefix {
    fn from(value: FieldExpression) -> (node: Prefix) {
        Prefix::Field(Box::new(value))
    }
}

impl vstd::std_specs::convert::FromSpecImpl<FieldExpression> for Prefix {
    open spec fn obeys_from_spec() -> bool {
        true
    }

    open spec fn from_spec(value: FieldExpression) -> Prefix {
        Prefix::Field(Box::new(value))
    }
}

impl From<StringSegment> for InterpolationSegment {
    fn from(value: StringSegment) -> (node: InterpolationSegment) {
        InterpolationSegment::String(value)
    }
}

impl vstd::std_specs::convert::FromSpecImpl<StringSegment> for InterpolationSegment {
    open spec fn obeys_from_spec() -> bool {
        true
    }

    open spec fn from_spec(value: StringSegment) -> InterpolationSegment {
        InterpolationSegment::String(value)
    }
}

impl From<ValueSegment> for InterpolationSegment {
    fn from(value: ValueSegment) -> (node: InterpolationSegment) {
        InterpolationSegment::Value(value)
    }
}

impl vstd::std_specs::convert::FromSpecImpl<ValueSegment> for InterpolationSegment {
    open spec fn obeys_from_spec() -> bool {
        true
    }

    open spec fn from_spec(value: ValueSegment) -> InterpolationSegment {
        InterpolationSegment::Value(value)
    }
}

impl From<LocalAssignStatement> for Statement {
    fn from(value: LocalAssignStatement) -> (node: Statement) {
        Statement::LocalAssign(value)
    }
}

impl vstd::std_specs::convert::FromSpecImpl<LocalAssignStatement> for Statement {
    open spec fn obeys_from_spec() -> bool {
        true
    }

    open spec fn from_spec(value: LocalAssignStatement) -> Statement {
        Statement::LocalAssign(value)
    }
}

impl From<FunctionCall> for Statement {
    fn from(value: FunctionCall) -> (node: Statement) {
        Statement::Call(value)
    }
}

impl vstd::std_specs::convert::FromSpecImpl<FunctionCall> for Statement {
    open spec fn obeys_from_spec() -> bool {
        true
    }

    open spec fn from_spec(value: FunctionCall) -> Statement {
        Statement::Call(value)
    }
}

impl From<Block> for Statement {
    /// The statement that runs `value` in a scope of its own.
    fn from(value: Block) -> (node: Statement) {
        Statement::Do(value)
    }
}

impl vstd::std_specs::convert::FromSpecImpl<Block> for Statement {
    open spec fn obeys_from_spec() -> bool {
        true
    }

    open spec fn from_spec(value: Block) -> Statement {
        Statement::Do(value)
    }
}

} // verus!
