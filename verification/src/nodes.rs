//! The syntax tree: expressions, statements and blocks, each with the
//! mathematical value (its view) that the contracts of this crate speak of.

use vstd::prelude::*;

pub mod conversion;
pub mod duplication;
pub mod equality;

verus! {

/// The value of an [`Expression`].
pub enum ExpressionView {
    Identifier(Seq<char>),
    String(Seq<char>),
    InterpolatedString(Seq<SegmentView>),
    Call(Box<CallView>),
    Field(Box<FieldView>),
    Parenthese(Box<ExpressionView>),
    Function(Box<FunctionView>),
}

/// The value of a [`Prefix`].
pub enum PrefixView {
    Identifier(Seq<char>),
    Call(Box<CallView>),
    Field(Box<FieldView>),
    Parenthese(Box<ExpressionView>),
}

/// The value of a [`FunctionCall`].
pub struct CallView {
    pub prefix: PrefixView,
    pub arguments: Seq<ExpressionView>,
}

/// The value of a [`FieldExpression`].
pub struct FieldView {
    pub prefix: PrefixView,
    pub field: Seq<char>,
}

/// The value of a [`FunctionExpression`].
pub struct FunctionView {
    pub parameters: Seq<Seq<char>>,
    pub body: BlockView,
}

/// The value of an [`InterpolationSegment`].
pub enum SegmentView {
    String(Seq<char>),
    Value(ExpressionView),
}

/// The value of a [`Statement`].
pub enum StatementView {
    LocalAssign(LocalAssignView),
    Call(CallView),
    Do(BlockView),
}

/// The value of a [`LocalAssignStatement`].
pub struct LocalAssignView {
    pub variables: Seq<Seq<char>>,
    pub values: Seq<ExpressionView>,
}

/// The value of a [`Block`]: its statements in program order.
pub struct BlockView {
    pub statements: Seq<StatementView>,
}

/// A name, as written in the program.
#[derive(Debug)]
pub struct Identifier {
    pub name: String,
}

/// A string literal.
#[derive(Debug)]
pub struct StringExpression {
    pub value: String,
}

/// A literal piece of an interpolated string.
#[derive(Debug)]
pub struct StringSegment {
    pub value: String,
}

/// An embedded expression of an interpolated string.
#[derive(Debug)]
pub struct ValueSegment {
    pub value: Box<Expression>,
}

/// One piece of an interpolated string.
#[derive(Debug)]
pub enum InterpolationSegment {
    String(StringSegment),
    Value(ValueSegment),
}

/// An interpolated string literal: its segments in source order.
#[derive(Debug)]
pub struct InterpolatedStringExpression {
    pub segments: Vec<InterpolationSegment>,
}

/// What can be called or indexed.
#[derive(Debug)]
pub enum Prefix {
    Identifier(Identifier),
    Call(Box<FunctionCall>),
    Field(Box<FieldExpression>),
    Parenthese(Box<Expression>),
}

/// A call of a prefix on a list of arguments.
#[derive(Debug)]
pub struct FunctionCall {
    pub prefix: Prefix,
    pub arguments: Vec<Expression>,
}

/// A member access on a prefix.
#[derive(Debug)]
pub struct FieldExpression {
    pub prefix: Prefix,
    pub field: Identifier,
}

/// An anonymous function: its parameters and its body.
#[derive(Debug)]
pub struct FunctionExpression {
    pub parameters: Vec<Identifier>,
    pub body: Block,
}

/// An expression. Exactly one variant is active; a rewrite replaces the whole value.
#[derive(Debug)]
pub enum Expression {
    Identifier(Identifier),
    String(StringExpression),
    InterpolatedString(InterpolatedStringExpression),
    Call(Box<FunctionCall>),
    Field(Box<FieldExpression>),
    Parenthese(Box<Expression>),
    Function(Box<FunctionExpression>),
}

/// A declaration of local variables with their initial values.
#[derive(Debug)]
pub struct LocalAssignStatement {
    pub variables: Vec<Identifier>,
    pub values: Vec<Expression>,
}

/// A statement.
#[derive(Debug)]
pub enum Statement {
    LocalAssign(LocalAssignStatement),
    Call(FunctionCall),
    Do(Block),
}

/// An ordered list of statements that forms one lexical scope.
#[derive(Debug)]
pub struct Block {
    pub statements: Vec<Statement>,
}

/// The values of a list of names.
pub open spec fn identifiers_view(list: Seq<Identifier>) -> Seq<Seq<char>> {
    Seq::new(list.len(), |i: int| list[i].name@)
}

pub open spec fn expression_view(expression: Expression) -> ExpressionView
    decreases expression,
{
    match expression {
        Expression::Identifier(identifier) => ExpressionView::Identifier(identifier.name@),
        Expression::String(string) => ExpressionView::String(string.value@),
        Expression::InterpolatedString(string) => ExpressionView::InterpolatedString(
            segments_view(string.segments@),
        ),
        Expression::Call(call) => ExpressionView::Call(Box::new(call_view(*call))),
        Expression::Field(field) => ExpressionView::Field(Box::new(field_view(*field))),
        Expression::Parenthese(inner) => ExpressionView::Parenthese(
            Box::new(expression_view(*inner)),
        ),
        Expression::Function(function) => ExpressionView::Function(
            Box::new(function_view(*function)),
        ),
    }
}

pub open spec fn expressions_view(list: Seq<Expression>) -> Seq<ExpressionView>
    decreases list,
{
    Seq::new(
        list.len(),
        |i: int|
            if 0 <= i < list.len() {
                expression_view(list[i])
            } else {
                arbitrary()
            },
    )
}

pub open spec fn segment_view(segment: InterpolationSegment) -> SegmentView
    decreases segment,
{
    match segment {
        InterpolationSegment::String(string) => SegmentView::String(string.value@),
        InterpolationSegment::Value(value) => SegmentView::Value(expression_view(*value.value)),
    }
}

pub open spec fn segments_view(list: Seq<InterpolationSegment>) -> Seq<SegmentView>
    decreases list,
{
    Seq::new(
        list.len(),
        |i: int|
            if 0 <= i < list.len() {
                segment_view(list[i])
            } else {
                arbitrary()
            },
    )
}

pub open spec fn prefix_view(prefix: Prefix) -> PrefixView
    decreases prefix,
{
    match prefix {
        Prefix::Identifier(identifier) => PrefixView::Identifier(identifier.name@),
        Prefix::Call(call) => PrefixView::Call(Box::new(call_view(*call))),
        Prefix::Field(field) => PrefixView::Field(Box::new(field_view(*field))),
        Prefix::Parenthese(inner) => PrefixView::Parenthese(Box::new(expression_view(*inner))),
    }
}

pub open spec fn call_view(call: FunctionCall) -> CallView
    decreases call,
{
    CallView {
        prefix: prefix_view(call.prefix),
        arguments: expressions_view(call.arguments@),
    }
}

pub open spec fn field_view(field: FieldExpression) -> FieldView
    decreases field,
{
    FieldView { prefix: prefix_view(field.prefix), field: field.field.name@ }
}

pub open spec fn function_view(function: FunctionExpression) -> FunctionView
    decreases function,
{
    FunctionView {
        parameters: identifiers_view(function.parameters@),
        body: block_view(function.body),
    }
}

pub open spec fn statement_view(statement: Statement) -> StatementView
    decreases statement,
{
    match statement {
        Statement::LocalAssign(assign) => StatementView::LocalAssign(
            LocalAssignView {
                variables: identifiers_view(assign.variables@),
                values: expressions_view(assign.values@),
            },
        ),
        Statement::Call(call) => StatementView::Call(call_view(call)),
        Statement::Do(block) => StatementView::Do(block_view(block)),
    }
}

pub open spec fn statements_view(list: Seq<Statement>) -> Seq<StatementView>
    decreases list,
{
    Seq::new(
        list.len(),
        |i: int|
            if 0 <= i < list.len() {
                statement_view(list[i])
            } else {
                arbitrary()
            },
    )
}

pub open spec fn block_view(block: Block) -> BlockView
    decreases block,
{
    BlockView { statements: statements_view(block.statements@) }
}

impl View for Identifier {
    type V = Seq<char>;

    open spec fn view(&self) -> Seq<char> {
        self.name@
    }
}

impl View for StringExpression {
    type V = Seq<char>;

    open spec fn view(&self) -> Seq<char> {
        self.value@
    }
}

impl View for StringSegment {
    type V = Seq<char>;

    open spec fn view(&self) -> Seq<char> {
        self.value@
    }
}

impl View for ValueSegment {
    type V = ExpressionView;

    open spec fn view(&self) -> ExpressionView {
        expression_view(*self.value)
    }
}

impl View for InterpolationSegment {
    type V = SegmentView;

    open spec fn view(&self) -> SegmentView {
        segment_view(*self)
    }
}

impl View for InterpolatedStringExpression {
    type V = Seq<SegmentView>;

    open spec fn view(&self) -> Seq<SegmentView> {
        segments_view(self.segments@)
    }
}

impl View for Prefix {
    type V = PrefixView;

    open spec fn view(&self) -> PrefixView {
        prefix_view(*self)
    }
}

impl View for FunctionCall {
    type V = CallView;

    open spec fn view(&self) -> CallView {
        call_view(*self)
    }
}

impl View for FieldExpression {
    type V = FieldView;

    open spec fn view(&self) -> FieldView {
        field_view(*self)
    }
}

impl View for FunctionExpression {
    type V = FunctionView;

    open spec fn view(&self) -> FunctionView {
        function_view(*self)
    }
}

impl View for Expression {
    type V = ExpressionView;

    open spec fn view(&self) -> ExpressionView {
        expression_view(*self)
    }
}

impl View for LocalAssignStatement {
    type V = LocalAssignView;

    open spec fn view(&self) -> LocalAssignView {
        LocalAssignView {
            variables: identifiers_view(self.variables@),
            values: expressions_view(self.values@),
        }
    }
}

impl View for Statement {
    type V = StatementView;

    open spec fn view(&self) -> StatementView {
        statement_view(*self)
    }
}

impl View for Block {
    type V = BlockView;

    open spec fn view(&self) -> BlockView {
        block_view(*self)
    }
}

impl Identifier {
    pub fn new(name: &str) -> (identifier: Identifier)
        ensures
            identifier@ == name@,
    {
        Identifier { name: name.to_owned() }
    }

    pub fn get_name(&self) -> (name: &str)
        ensures
            name@ == self@,
    {
        self.name.as_str()
    }
}

impl StringExpression {
    /// The literal that holds `value`.
    pub fn new(value: String) -> (string: StringExpression)
        ensures
            string@ == value@,
    {
        StringExpression { value }
    }

    /// The literal that holds a copy of `value`.
    pub fn from_value(value: &str) -> (string: StringExpression)
        ensures
            string@ == value@,
    {
        StringExpression { value: value.to_owned() }
    }

    /// The empty literal.
    pub fn empty() -> (string: StringExpression)
        ensures
            string@ == Seq::<char>::empty(),
    {
        StringExpression { value: String::new() }
    }

    pub fn get_value(&self) -> (value: &str)
        ensures
            value@ == self@,
    {
        self.value.as_str()
    }
}

impl StringSegment {
    pub fn new(value: String) -> (segment: StringSegment)
        ensures
            segment@ == value@,
    {
        StringSegment { value }
    }

    pub fn from_value(value: &str) -> (segment: StringSegment)
        ensures
            segment@ == value@,
    {
        StringSegment { value: value.to_owned() }
    }

    pub fn get_value(&self) -> (value: &str)
        ensures
            value@ == self@,
    {
        self.value.as_str()
    }
}

impl ValueSegment {
    pub fn new(expression: Expression) -> (segment: ValueSegment)
        ensures
            segment@ == expression@,
    {
        ValueSegment { value: Box::new(expression) }
    }

    pub fn get_expression(&self) -> (expression: &Expression)
        ensures
            expression@ == self@,
    {
        &*self.value
    }
}

impl InterpolationSegment {
    /// A literal segment that holds a copy of `value`.
    pub fn from_string(value: &str) -> (segment: InterpolationSegment)
        ensures
            segment@ == SegmentView::String(value@),
    {
        InterpolationSegment::String(StringSegment::from_value(value))
    }

    /// A value segment that holds `expression`.
    pub fn from_expression(expression: Expression) -> (segment: InterpolationSegment)
        ensures
            segment@ == SegmentView::Value(expression@),
    {
        InterpolationSegment::Value(ValueSegment::new(expression))
    }
}

impl InterpolatedStringExpression {
    pub fn new(segments: Vec<InterpolationSegment>) -> (string: InterpolatedStringExpression)
        ensures
            string@ == segments_view(segments@),
    {
        InterpolatedStringExpression { segments }
    }

    /// The interpolated string without segments, which stands for the empty string.
    pub fn empty() -> (string: InterpolatedStringExpression)
        ensures
            string@ == Seq::<SegmentView>::empty(),
    {
        let string = InterpolatedStringExpression { segments: Vec::new() };
        assert(string@ =~= Seq::<SegmentView>::empty());
        string
    }

    /// The same interpolated string with `segment` after its last segment.
    pub fn with_segment(self, segment: InterpolationSegment) -> (string:
        InterpolatedStringExpression)
        ensures
            string@ == self@.push(segment@),
    {
        let mut string = self;
        string.push_segment(segment);
        string
    }

    /// Adds `segment` after the last segment.
    pub fn push_segment(&mut self, segment: InterpolationSegment)
        ensures
            final(self)@ == old(self)@.push(segment@),
    {
        self.segments.push(segment);
        assert(self@ =~= old(self)@.push(segment@));
    }

    /// Whether there is no segment at all.
    pub fn is_empty(&self) -> (empty: bool)
        ensures
            empty == (self@.len() == 0),
    {
        self.segments.len() == 0
    }

    /// The number of segments.
    pub fn len(&self) -> (len: usize)
        ensures
            len == self@.len(),
    {
        self.segments.len()
    }

    /// The segment at `index` in source order, if there is one. Reading in turn from
    /// index 0 walks the segments in source order, as often as the caller likes.
    pub fn get_segment(&self, index: usize) -> (segment: Option<&InterpolationSegment>)
        ensures
            index < self@.len() ==> segment is Some && segment->0@ == self@[index as int],
            index >= self@.len() ==> segment is None,
    {
        if index < self.segments.len() {
            Some(&self.segments[index])
        } else {
            None
        }
    }
}

impl Prefix {
    /// The prefix that names `name`.
    pub fn from_name(name: &str) -> (prefix: Prefix)
        ensures
            prefix@ == PrefixView::Identifier(name@),
    {
        Prefix::Identifier(Identifier::new(name))
    }
}

impl FunctionCall {
    /// The call of `prefix` without arguments.
    pub fn from_prefix(prefix: Prefix) -> (call: FunctionCall)
        ensures
            call@ == (CallView { prefix: prefix@, arguments: Seq::empty() }),
    {
        let call = FunctionCall { prefix, arguments: Vec::new() };
        assert(call@.arguments =~= Seq::empty());
        call
    }

    /// The call of the function named `name` without arguments.
    pub fn from_name(name: &str) -> (call: FunctionCall)
        ensures
            call@ == (CallView { prefix: PrefixView::Identifier(name@), arguments: Seq::empty() }),
    {
        FunctionCall::from_prefix(Prefix::from_name(name))
    }

    /// The same call on `arguments` in place of its own.
    pub fn with_arguments(self, arguments: Vec<Expression>) -> (call: FunctionCall)
        ensures
            call@ == (CallView { prefix: self@.prefix, arguments: expressions_view(arguments@) }),
    {
        FunctionCall { prefix: self.prefix, arguments }
    }

    /// The same call with `argument` after its last argument.
    pub fn with_argument(self, argument: Expression) -> (call: FunctionCall)
        ensures
            call@ == (CallView {
                prefix: self@.prefix,
                arguments: self@.arguments.push(argument@),
            }),
    {
        let mut call = self;
        call.arguments.push(argument);
        assert(call@.arguments =~= self@.arguments.push(argument@));
        call
    }

    pub fn get_prefix(&self) -> (prefix: &Prefix)
        ensures
            prefix@ == self@.prefix,
    {
        &self.prefix
    }

    pub fn get_arguments(&self) -> (arguments: &Vec<Expression>)
        ensures
            expressions_view(arguments@) == self@.arguments,
    {
        &self.arguments
    }
}

impl FieldExpression {
    /// The member `field` of `prefix`.
    pub fn new(prefix: Prefix, field: &str) -> (expression: FieldExpression)
        ensures
            expression@ == (FieldView { prefix: prefix@, field: field@ }),
    {
        FieldExpression { prefix, field: Identifier::new(field) }
    }

    pub fn get_prefix(&self) -> (prefix: &Prefix)
        ensures
            prefix@ == self@.prefix,
    {
        &self.prefix
    }

    pub fn get_field(&self) -> (field: &Identifier)
        ensures
            field@ == self@.field,
    {
        &self.field
    }
}

impl FunctionExpression {
    /// The function without parameters whose body is `body`.
    pub fn from_block(body: Block) -> (function: FunctionExpression)
        ensures
            function@ == (FunctionView { parameters: Seq::empty(), body: body@ }),
    {
        let function = FunctionExpression { parameters: Vec::new(), body };
        assert(function@.parameters =~= Seq::empty());
        function
    }

    /// The same function with one more parameter, after its last.
    pub fn with_parameter(self, name: &str) -> (function: FunctionExpression)
        ensures
            function@ == (FunctionView {
                parameters: self@.parameters.push(name@),
                body: self@.body,
            }),
    {
        let mut function = self;
        function.parameters.push(Identifier::new(name));
        assert(function@.parameters =~= self@.parameters.push(name@));
        function
    }
}

impl Expression {
    /// A reference to the variable named `name`.
    pub fn identifier(name: &str) -> (expression: Expression)
        ensures
            expression@ == ExpressionView::Identifier(name@),
    {
        Expression::Identifier(Identifier::new(name))
    }

    /// The string literal that holds a copy of `value`.
    pub fn string(value: &str) -> (expression: Expression)
        ensures
            expression@ == ExpressionView::String(value@),
    {
        Expression::String(StringExpression::from_value(value))
    }

    /// `inner` in parentheses.
    pub fn in_parentheses(inner: Expression) -> (expression: Expression)
        ensures
            expression@ == ExpressionView::Parenthese(Box::new(inner@)),
    {
        Expression::Parenthese(Box::new(inner))
    }
}

impl LocalAssignStatement {
    pub fn new(variables: Vec<Identifier>, values: Vec<Expression>) -> (statement:
        LocalAssignStatement)
        ensures
            statement@ == (LocalAssignView {
                variables: identifiers_view(variables@),
                values: expressions_view(values@),
            }),
    {
        LocalAssignStatement { variables, values }
    }

    /// The declaration of the one variable `name`, without a value.
    pub fn from_variable(name: &str) -> (statement: LocalAssignStatement)
        ensures
            statement@ == (LocalAssignView { variables: seq![name@], values: Seq::empty() }),
    {
        let mut variables: Vec<Identifier> = Vec::new();
        variables.push(Identifier::new(name));
        let statement = LocalAssignStatement { variables, values: Vec::new() };
        assert(statement@.variables =~= seq![name@]);
        assert(statement@.values =~= Seq::empty());
        statement
    }

    /// The same declaration with `value` after its last value.
    pub fn with_value(self, value: Expression) -> (statement: LocalAssignStatement)
        ensures
            statement@ == (LocalAssignView {
                variables: self@.variables,
                values: self@.values.push(value@),
            }),
    {
        let mut statement = self;
        statement.values.push(value);
        assert(statement@.values =~= self@.values.push(value@));
        statement
    }
}

impl Block {
    pub fn new(statements: Vec<Statement>) -> (block: Block)
        ensures
            block@.statements == statements_view(statements@),
    {
        Block { statements }
    }

    /// The block without statements.
    pub fn empty() -> (block: Block)
        ensures
            block@.statements == Seq::<StatementView>::empty(),
    {
        let block = Block { statements: Vec::new() };
        assert(block@.statements =~= Seq::<StatementView>::empty());
        block
    }

    /// The same block with `statement` after its last statement.
    pub fn with_statement(self, statement: Statement) -> (block: Block)
        ensures
            block@.statements == self@.statements.push(statement@),
    {
        let mut block = self;
        block.push_statement(statement);
        block
    }

    /// Adds `statement` after the last statement.
    pub fn push_statement(&mut self, statement: Statement)
        ensures
            final(self)@.statements == old(self)@.statements.push(statement@),
    {
        self.statements.push(statement);
        assert(self@.statements =~= old(self)@.statements.push(statement@));
    }

    /// Puts `statement` at `index`. The statements that stood at `index` and after it
    /// move one place up; none of them changes.
    pub fn insert_statement(&mut self, index: usize, statement: Statement)
        requires
            index <= old(self)@.statements.len(),
        ensures
            final(self)@.statements == old(self)@.statements.insert(index as int, statement@),
    {
        self.statements.insert(index, statement);
        assert(self@.statements =~= old(self)@.statements.insert(index as int, statement@));
    }

    /// The number of statements.
    pub fn len(&self) -> (len: usize)
        ensures
            len == self@.statements.len(),
    {
        self.statements.len()
    }

    /// Whether the block has no statement.
    pub fn is_empty(&self) -> (empty: bool)
        ensures
            empty == (self@.statements.len() == 0),
    {
        self.statements.len() == 0
    }

    /// The statement at `index` in program order, if there is one.
    pub fn get_statement(&self, index: usize) -> (statement: Option<&Statement>)
        ensures
            index < self@.statements.len() ==> statement is Some && statement->0@
                == self@.statements[index as int],
            index >= self@.statements.len() ==> statement is None,
    {
        if index < self.statements.len() {
            Some(&self.statements[index])
        } else {
            None
        }
    }
}

} // verus!
