use darklua::nodes::{
    Block, Expression, FieldExpression, FunctionCall, FunctionExpression, Identifier,
    InterpolatedStringExpression, InterpolationSegment, LocalAssignStatement, Prefix, Statement,
    StringExpression, StringSegment, ValueSegment,
};

fn call(name: &str) -> Statement {
    Statement::Call(FunctionCall::from_name(name))
}

fn sample_expression() -> Expression {
    let string = InterpolatedStringExpression::empty()
        .with_segment(InterpolationSegment::from_string("a%"))
        .with_segment(InterpolationSegment::from_expression(Expression::in_parentheses(
            Expression::identifier("b"),
        )));
    let function = FunctionExpression::from_block(Block::new(vec![
        Statement::LocalAssign(
            LocalAssignStatement::from_variable("x")
                .with_value(Expression::InterpolatedString(string)),
        ),
        Statement::Do(Block::new(vec![call("f")])),
    ]))
    .with_parameter("p");
    Expression::Call(Box::new(
        FunctionCall::from_prefix(Prefix::Field(Box::new(FieldExpression::new(
            Prefix::from_name("lib"),
            "member",
        ))))
        .with_argument(Expression::Function(Box::new(function)))
        .with_argument(Expression::string("s")),
    ))
}

#[test]
fn clone_is_equal_to_its_source() {
    let expression = sample_expression();

    assert_eq!(expression.clone(), expression);
    assert_eq!(expression, sample_expression());
}

#[test]
fn clone_is_independent_of_its_source() {
    let mut block = Block::new(vec![call("a"), call("b")]);
    let copy = block.clone();

    block.push_statement(call("c"));

    assert_eq!(copy, Block::new(vec![call("a"), call("b")]));
    assert_eq!(block.len(), 3);
    assert_ne!(block, copy);
}

#[test]
fn expressions_of_different_kinds_differ() {
    assert_ne!(Expression::identifier("a"), Expression::string("a"));
    assert_ne!(
        Expression::identifier("a"),
        Expression::in_parentheses(Expression::identifier("a"))
    );
    assert_ne!(Expression::identifier("a"), Expression::identifier("b"));
    assert_ne!(
        Expression::InterpolatedString(InterpolatedStringExpression::empty()),
        Expression::string("")
    );
}

#[test]
fn calls_differ_by_prefix_and_arguments() {
    let base = || FunctionCall::from_name("f").with_argument(Expression::identifier("a"));

    assert_eq!(base(), base());
    assert_ne!(
        base(),
        FunctionCall::from_name("g").with_argument(Expression::identifier("a"))
    );
    assert_ne!(base(), base().with_argument(Expression::identifier("b")));
    assert_ne!(
        base(),
        FunctionCall::from_name("f").with_argument(Expression::identifier("b"))
    );
    assert_eq!(
        base().with_arguments(vec![]),
        FunctionCall::from_prefix(Prefix::from_name("f"))
    );
}

#[test]
fn segments_differ_by_kind_and_content() {
    assert_eq!(
        InterpolationSegment::from_string("a"),
        InterpolationSegment::String(StringSegment::from_value("a"))
    );
    assert_ne!(
        InterpolationSegment::from_string("a"),
        InterpolationSegment::from_string("b")
    );
    assert_ne!(
        InterpolationSegment::from_string("a"),
        InterpolationSegment::from_expression(Expression::string("a"))
    );
    assert_eq!(
        InterpolationSegment::from_expression(Expression::string("a")),
        InterpolationSegment::Value(ValueSegment::new(Expression::string("a")))
    );
}

#[test]
fn interpolated_string_reads_segments_in_source_order() {
    let string = InterpolatedStringExpression::new(vec![
        InterpolationSegment::from_string("x="),
        InterpolationSegment::from_expression(Expression::identifier("a")),
    ]);

    assert!(!string.is_empty());
    assert_eq!(string.len(), 2);
    assert_eq!(
        string.get_segment(0),
        Some(&InterpolationSegment::from_string("x="))
    );
    assert_eq!(
        string.get_segment(1),
        Some(&InterpolationSegment::from_expression(Expression::identifier("a")))
    );
    assert_eq!(string.get_segment(2), None);
    assert_eq!(
        string.get_segment(0),
        Some(&InterpolationSegment::from_string("x="))
    );
}

#[test]
fn empty_interpolated_string_has_no_segment() {
    let string = InterpolatedStringExpression::empty();

    assert!(string.is_empty());
    assert_eq!(string.len(), 0);
    assert_eq!(string.get_segment(0), None);
    assert_eq!(string, InterpolatedStringExpression::new(vec![]));
}

#[test]
fn push_segment_adds_at_the_end() {
    let mut string = InterpolatedStringExpression::empty();

    string.push_segment(InterpolationSegment::from_string("a"));
    string.push_segment(InterpolationSegment::from_string("b"));

    assert_eq!(
        string,
        InterpolatedStringExpression::new(vec![
            InterpolationSegment::from_string("a"),
            InterpolationSegment::from_string("b"),
        ])
    );
}

#[test]
fn insert_statement_shifts_the_following_statements() {
    let mut block = Block::new(vec![call("a"), call("c")]);

    block.insert_statement(1, call("b"));
    block.insert_statement(0, call("first"));
    block.insert_statement(4, call("last"));

    assert_eq!(
        block,
        Block::new(vec![
            call("first"),
            call("a"),
            call("b"),
            call("c"),
            call("last")
        ])
    );
    assert_eq!(block.len(), 5);
    assert_eq!(block.get_statement(2), Some(&call("b")));
    assert_eq!(block.get_statement(5), None);
}

#[test]
fn insert_statement_into_empty_block() {
    let mut block = Block::empty();

    assert!(block.is_empty());
    block.insert_statement(0, call("a"));

    assert!(!block.is_empty());
    assert_eq!(block, Block::empty().with_statement(call("a")));
}

#[test]
fn accessors_give_back_what_was_put_in() {
    assert_eq!(Identifier::new("name").get_name(), "name");
    assert_eq!(StringExpression::from_value("text").get_value(), "text");
    assert_eq!(StringExpression::new("text".to_owned()).get_value(), "text");
    assert_eq!(StringExpression::empty().get_value(), "");
    assert_eq!(StringSegment::new("seg".to_owned()).get_value(), "seg");
    assert_eq!(
        ValueSegment::new(Expression::identifier("a")).get_expression(),
        &Expression::identifier("a")
    );

    let field = FieldExpression::new(Prefix::from_name("string"), "format");
    assert_eq!(field.get_prefix(), &Prefix::from_name("string"));
    assert_eq!(field.get_field(), &Identifier::new("format"));

    let call = FunctionCall::from_name("f").with_argument(Expression::string("a"));
    assert_eq!(call.get_prefix(), &Prefix::from_name("f"));
    assert_eq!(call.get_arguments(), &vec![Expression::string("a")]);
}

#[test]
fn local_assign_holds_variables_and_values() {
    let statement =
        LocalAssignStatement::from_variable("a").with_value(Expression::string("v"));

    assert_eq!(
        statement,
        LocalAssignStatement::new(vec![Identifier::new("a")], vec![Expression::string("v")])
    );
    assert_ne!(statement, LocalAssignStatement::from_variable("a"));
    assert_ne!(
        statement,
        LocalAssignStatement::from_variable("b").with_value(Expression::string("v"))
    );
}

#[test]
fn functions_differ_by_parameters_and_body() {
    let function = || FunctionExpression::from_block(Block::new(vec![call("f")]));

    assert_eq!(function(), function());
    assert_ne!(function(), function().with_parameter("a"));
    assert_ne!(function(), FunctionExpression::from_block(Block::empty()));
    assert_eq!(
        function().with_parameter("a").with_parameter("b").clone(),
        function().with_parameter("a").with_parameter("b")
    );
}

#[test]
fn nodes_convert_into_the_kinds_they_are_a_case_of() {
    let call = || FunctionCall::from_name("f");
    let field = || FieldExpression::new(Prefix::from_name("a"), "b");

    assert_eq!(Expression::from(Identifier::new("a")), Expression::identifier("a"));
    assert_eq!(
        Expression::from(StringExpression::from_value("s")),
        Expression::string("s")
    );
    assert_eq!(
        Expression::from(InterpolatedStringExpression::empty()),
        Expression::InterpolatedString(InterpolatedStringExpression::empty())
    );
    assert_eq!(Expression::from(call()), Expression::Call(Box::new(call())));
    assert_eq!(Expression::from(field()), Expression::Field(Box::new(field())));
    assert_eq!(
        Expression::from(FunctionExpression::from_block(Block::empty())),
        Expression::Function(Box::new(FunctionExpression::from_block(Block::empty())))
    );

    assert_eq!(Prefix::from(Identifier::new("a")), Prefix::from_name("a"));
    assert_eq!(Prefix::from(call()), Prefix::Call(Box::new(call())));
    assert_eq!(Prefix::from(field()), Prefix::Field(Box::new(field())));

    let segment: InterpolationSegment = StringSegment::from_value("t").into();
    assert_eq!(segment, InterpolationSegment::from_string("t"));
    let segment: InterpolationSegment = ValueSegment::new(Expression::identifier("a")).into();
    assert_eq!(
        segment,
        InterpolationSegment::from_expression(Expression::identifier("a"))
    );

    let statement: Statement = LocalAssignStatement::from_variable("a").into();
    assert_eq!(
        statement,
        Statement::LocalAssign(LocalAssignStatement::from_variable("a"))
    );
    let statement: Statement = call().into();
    assert_eq!(statement, Statement::Call(call()));
    let statement: Statement = Block::empty().into();
    assert_eq!(statement, Statement::Do(Block::empty()));
}
