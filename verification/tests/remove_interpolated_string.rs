use darklua::nodes::{
    Block, Expression, FieldExpression, FunctionCall, FunctionExpression, Identifier,
    InterpolatedStringExpression, InterpolationSegment, LocalAssignStatement, Prefix, Statement,
    StringExpression,
};
use darklua::rules::remove_interpolated_string::{
    RemoveInterpolatedString, RemoveInterpolatedStringProcessor,
    REMOVE_INTERPOLATED_STRING_RULE_NAME, STRING_FORMAT_IDENTIFIER,
};
use darklua::rules::{
    Context, FlawlessRule, RuleConfiguration, RuleConfigurationError, RuleProperties,
    RulePropertyValue,
};

fn new_rule() -> RemoveInterpolatedString {
    RemoveInterpolatedString::default()
}

fn interpolated(segments: Vec<InterpolationSegment>) -> Expression {
    Expression::InterpolatedString(InterpolatedStringExpression::new(segments))
}

fn text(value: &str) -> InterpolationSegment {
    InterpolationSegment::from_string(value)
}

fn value(expression: Expression) -> InterpolationSegment {
    InterpolationSegment::from_expression(expression)
}

fn format_call(template: &str, values: Vec<Expression>) -> Expression {
    let mut arguments = vec![Expression::string(template)];
    arguments.extend(values);
    Expression::Call(Box::new(
        FunctionCall::from_name("__DARKLUA_STR_FMT").with_arguments(arguments),
    ))
}

fn print_statement(argument: Expression) -> Statement {
    Statement::Call(FunctionCall::from_name("print").with_argument(argument))
}

fn prelude() -> Statement {
    Statement::LocalAssign(LocalAssignStatement::new(
        vec![Identifier::new("__DARKLUA_STR_FMT")],
        vec![Expression::Field(Box::new(FieldExpression::new(
            Prefix::from_name("string"),
            "format",
        )))],
    ))
}

fn process(block: &mut Block) {
    new_rule().flawless_process(block, &Context::default());
}

#[test]
fn serialize_default_rule() {
    let rule = new_rule();

    assert_eq!(
        format!("default_{}", rule.get_name()),
        "default_remove_interpolated_string"
    );
    assert!(rule.serialize_to_properties().is_empty());
}

#[test]
fn configure_with_extra_field_error() {
    let mut rule = new_rule();
    let properties = RuleProperties::new().with_property(
        "prop",
        RulePropertyValue::String("something".to_owned()),
    );

    let result = rule.configure(properties);

    assert_eq!(result.unwrap_err().to_string(), "unexpected field 'prop'");
}

#[test]
fn rule_name_is_stable() {
    assert_eq!(REMOVE_INTERPOLATED_STRING_RULE_NAME, "remove_interpolated_string");
    assert_eq!(new_rule().get_name(), "remove_interpolated_string");
}

#[test]
fn configure_with_empty_properties_round_trips() {
    let mut rule = new_rule();

    assert!(rule.configure(RuleProperties::new()).is_ok());
    assert!(rule.serialize_to_properties().is_empty());
    assert_eq!(rule.serialize_to_properties().len(), 0);
    assert_eq!(rule, new_rule());
}

#[test]
fn configure_rejects_the_first_of_several_fields() {
    let mut rule = new_rule();
    let properties = RuleProperties::new()
        .with_property("first", RulePropertyValue::Boolean(true))
        .with_property("second", RulePropertyValue::Usize(2));

    let error = rule.configure(properties).unwrap_err();

    assert_eq!(
        error,
        RuleConfigurationError::UnexpectedProperty("first".to_owned())
    );
    assert_eq!(rule, new_rule());
}

#[test]
fn string_with_value_becomes_format_call() {
    let mut block = Block::new(vec![print_statement(interpolated(vec![
        text("x="),
        value(Expression::identifier("a")),
        text("!"),
    ]))]);

    process(&mut block);

    let expected = Block::new(vec![
        prelude(),
        print_statement(format_call("x=%*!", vec![Expression::identifier("a")])),
    ]);
    assert_eq!(block, expected);
}

#[test]
fn string_without_segments_becomes_empty_literal() {
    let mut block = Block::new(vec![print_statement(interpolated(vec![]))]);

    process(&mut block);

    let expected = Block::new(vec![print_statement(Expression::string(""))]);
    assert_eq!(block, expected);
    assert_eq!(block.len(), 1);
}

#[test]
fn block_without_interpolated_string_is_unchanged() {
    let build = || {
        Block::new(vec![
            Statement::LocalAssign(
                LocalAssignStatement::from_variable("a").with_value(Expression::string("100%")),
            ),
            print_statement(Expression::in_parentheses(Expression::identifier("a"))),
            Statement::Do(Block::new(vec![print_statement(Expression::Field(Box::new(
                FieldExpression::new(Prefix::from_name("a"), "b"),
            )))])),
        ])
    };
    let mut block = build();

    process(&mut block);

    assert_eq!(block, build());
}

#[test]
fn percent_in_text_is_doubled() {
    let mut block = Block::new(vec![print_statement(interpolated(vec![
        text("100% of "),
        value(Expression::identifier("total")),
        text(" %%"),
    ]))]);

    process(&mut block);

    let expected = Block::new(vec![
        prelude(),
        print_statement(format_call(
            "100%% of %* %%%%",
            vec![Expression::identifier("total")],
        )),
    ]);
    assert_eq!(block, expected);
}

#[test]
fn text_alone_still_goes_through_the_formatter() {
    let mut block = Block::new(vec![print_statement(interpolated(vec![text("héllo")]))]);

    process(&mut block);

    let expected = Block::new(vec![prelude(), print_statement(format_call("héllo", vec![]))]);
    assert_eq!(block, expected);
}

#[test]
fn values_keep_their_order() {
    let mut block = Block::new(vec![print_statement(interpolated(vec![
        value(Expression::identifier("a")),
        text(", "),
        value(Expression::string("b")),
        value(Expression::in_parentheses(Expression::identifier("c"))),
    ]))]);

    process(&mut block);

    let expected = Block::new(vec![
        prelude(),
        print_statement(format_call(
            "%*, %*%*",
            vec![
                Expression::identifier("a"),
                Expression::string("b"),
                Expression::in_parentheses(Expression::identifier("c")),
            ],
        )),
    ]);
    assert_eq!(block, expected);
}

#[test]
fn nested_string_inside_a_value_is_lowered_too() {
    let inner = interpolated(vec![text("<"), value(Expression::identifier("b"))]);
    let mut block = Block::new(vec![print_statement(interpolated(vec![
        text("a"),
        value(inner),
    ]))]);

    process(&mut block);

    let expected = Block::new(vec![
        prelude(),
        print_statement(format_call(
            "a%*",
            vec![format_call("<%*", vec![Expression::identifier("b")])],
        )),
    ]);
    assert_eq!(block, expected);
}

#[test]
fn several_strings_get_a_single_prelude_at_the_top() {
    let string = || interpolated(vec![value(Expression::identifier("a"))]);
    let function = FunctionExpression::from_block(Block::new(vec![print_statement(string())]))
        .with_parameter("a");
    let mut block = Block::new(vec![
        print_statement(string()),
        Statement::Do(Block::new(vec![
            print_statement(string()),
            Statement::Do(Block::new(vec![print_statement(string())])),
        ])),
        Statement::LocalAssign(
            LocalAssignStatement::from_variable("f")
                .with_value(Expression::Function(Box::new(function))),
        ),
    ]);

    process(&mut block);

    let call = || format_call("%*", vec![Expression::identifier("a")]);
    let lowered_function =
        FunctionExpression::from_block(Block::new(vec![print_statement(call())]))
            .with_parameter("a");
    let expected = Block::new(vec![
        prelude(),
        print_statement(call()),
        Statement::Do(Block::new(vec![
            print_statement(call()),
            Statement::Do(Block::new(vec![print_statement(call())])),
        ])),
        Statement::LocalAssign(
            LocalAssignStatement::from_variable("f")
                .with_value(Expression::Function(Box::new(lowered_function))),
        ),
    ]);
    assert_eq!(block, expected);
    assert_eq!(block.len(), 4);
}

#[test]
fn string_in_nested_block_puts_prelude_in_top_block_only() {
    let mut block = Block::new(vec![Statement::Do(Block::new(vec![print_statement(
        interpolated(vec![text("x")]),
    )]))]);

    process(&mut block);

    let expected = Block::new(vec![
        prelude(),
        Statement::Do(Block::new(vec![print_statement(format_call("x", vec![]))])),
    ]);
    assert_eq!(block, expected);
}

#[test]
fn empty_strings_alone_add_no_prelude() {
    let mut block = Block::new(vec![
        print_statement(interpolated(vec![])),
        Statement::Do(Block::new(vec![print_statement(interpolated(vec![]))])),
    ]);

    process(&mut block);

    let expected = Block::new(vec![
        print_statement(Expression::string("")),
        Statement::Do(Block::new(vec![print_statement(Expression::string(""))])),
    ]);
    assert_eq!(block, expected);
}

#[test]
fn string_in_prefix_and_field_is_lowered() {
    let string = || interpolated(vec![text("s")]);
    let prefix = Prefix::Field(Box::new(FieldExpression::new(
        Prefix::Parenthese(Box::new(string())),
        "len",
    )));
    let mut block = Block::new(vec![Statement::Call(
        FunctionCall::from_prefix(prefix).with_argument(string()),
    )]);

    process(&mut block);

    let lowered_prefix = Prefix::Field(Box::new(FieldExpression::new(
        Prefix::Parenthese(Box::new(format_call("s", vec![]))),
        "len",
    )));
    let expected = Block::new(vec![
        prelude(),
        Statement::Call(
            FunctionCall::from_prefix(lowered_prefix).with_argument(format_call("s", vec![])),
        ),
    ]);
    assert_eq!(block, expected);
}

#[test]
fn processor_starts_without_need_of_the_formatter() {
    let processor = RemoveInterpolatedStringProcessor::new(STRING_FORMAT_IDENTIFIER);

    assert!(!processor.needs_string_format());
    assert_eq!(processor.get_identifier_tracker().depth(), 0);
}

#[test]
fn replace_with_builds_the_call_and_remembers_it() {
    let mut processor = RemoveInterpolatedStringProcessor::new("fmt");
    let string = InterpolatedStringExpression::empty()
        .with_segment(text("x="))
        .with_segment(value(Expression::identifier("a")))
        .with_segment(text("!"));

    let replaced = processor.replace_with(&string);

    let expected = Expression::Call(Box::new(FunctionCall::from_name("fmt").with_arguments(
        vec![Expression::string("x=%*!"), Expression::identifier("a")],
    )));
    assert_eq!(replaced, expected);
    assert!(processor.needs_string_format());
}

#[test]
fn replace_with_empty_string_leaves_the_processor_alone() {
    let mut processor = RemoveInterpolatedStringProcessor::new("fmt");

    let replaced = processor.replace_with(&InterpolatedStringExpression::empty());

    assert_eq!(replaced, Expression::String(StringExpression::empty()));
    assert!(!processor.needs_string_format());
}
