use darklua::nodes::{
    Block, Expression, FunctionCall, FunctionExpression, InterpolatedStringExpression,
    InterpolationSegment, LocalAssignStatement, Statement,
};
use darklua::process::identifier_tracker::IdentifierTracker;
use darklua::process::visitor::ScopeVisitor;
use darklua::process::{NodeProcessor, Scope};
use darklua::rules::remove_interpolated_string::RemoveInterpolatedStringProcessor;

#[test]
fn new_tracker_has_no_frame() {
    let tracker = IdentifierTracker::new();

    assert_eq!(tracker.depth(), 0);
    assert!(!tracker.is_declared("a"));
    assert_eq!(IdentifierTracker::default().depth(), 0);
}

#[test]
fn declared_name_is_found_in_its_frame_and_in_inner_frames() {
    let mut tracker = IdentifierTracker::new();
    tracker.enter_scope();
    tracker.declare("a");

    assert!(tracker.is_declared("a"));
    assert!(!tracker.is_declared("b"));

    tracker.enter_scope();
    tracker.declare("b");

    assert_eq!(tracker.depth(), 2);
    assert!(tracker.is_declared("a"));
    assert!(tracker.is_declared("b"));
}

#[test]
fn declarations_of_a_closed_frame_are_forgotten() {
    let mut tracker = IdentifierTracker::new();
    tracker.enter_scope();
    tracker.declare("outer");
    tracker.enter_scope();
    tracker.declare("inner");
    tracker.declare("outer");

    tracker.exit_scope();

    assert_eq!(tracker.depth(), 1);
    assert!(tracker.is_declared("outer"));
    assert!(!tracker.is_declared("inner"));

    tracker.exit_scope();

    assert_eq!(tracker.depth(), 0);
    assert!(!tracker.is_declared("outer"));
}

#[test]
fn declare_without_a_frame_records_nothing() {
    let mut tracker = IdentifierTracker::new();

    tracker.declare("a");

    assert_eq!(tracker.depth(), 0);
    assert!(!tracker.is_declared("a"));

    tracker.enter_scope();
    assert!(!tracker.is_declared("a"));
}

#[test]
fn tracker_is_a_scope() {
    let mut tracker = IdentifierTracker::new();

    Scope::enter_scope(&mut tracker);
    Scope::declare(&mut tracker, "a");
    assert!(tracker.is_declared("a"));
    Scope::exit_scope(&mut tracker);

    assert_eq!(tracker.depth(), 0);
}

fn string(name: &str) -> Expression {
    Expression::InterpolatedString(InterpolatedStringExpression::new(vec![
        InterpolationSegment::from_expression(Expression::identifier(name)),
    ]))
}

fn formatted(name: &str) -> Expression {
    Expression::Call(Box::new(FunctionCall::from_name("fmt").with_arguments(vec![
        Expression::string("%*"),
        Expression::identifier(name),
    ])))
}

fn sample(expression: fn(&str) -> Expression) -> Block {
    let function = FunctionExpression::from_block(Block::new(vec![Statement::Call(
        FunctionCall::from_name("g").with_argument(expression("c")),
    )]))
    .with_parameter("p");
    Block::new(vec![
        Statement::LocalAssign(
            LocalAssignStatement::from_variable("a").with_value(expression("a")),
        ),
        Statement::Do(Block::new(vec![Statement::Call(
            FunctionCall::from_name("f").with_argument(expression("b")),
        )])),
        Statement::LocalAssign(
            LocalAssignStatement::from_variable("h")
                .with_value(Expression::Function(Box::new(function))),
        ),
    ])
}

#[test]
fn visit_block_reaches_every_expression_and_closes_every_frame() {
    let mut block = sample(string);
    let mut processor = RemoveInterpolatedStringProcessor::new("fmt");

    ScopeVisitor::visit_block(&mut block, &mut processor);

    assert_eq!(block, sample(formatted));
    assert!(processor.needs_string_format());
    assert_eq!(processor.get_identifier_tracker().depth(), 0);
    assert!(!processor.get_identifier_tracker().is_declared("a"));
}

#[test]
fn visit_block_body_declares_in_the_open_frame() {
    let mut block = sample(string);
    let mut processor = RemoveInterpolatedStringProcessor::new("fmt");
    processor.enter_scope();

    ScopeVisitor::visit_block_body(&mut block, &mut processor);

    assert_eq!(block, sample(formatted));
    let tracker = processor.get_identifier_tracker();
    assert_eq!(tracker.depth(), 1);
    assert!(tracker.is_declared("a"));
    assert!(tracker.is_declared("h"));
    assert!(!tracker.is_declared("p"));
    assert!(!tracker.is_declared("b"));
}

#[test]
fn visit_expression_replaces_the_expression_itself() {
    let mut expression = string("a");
    let mut processor = RemoveInterpolatedStringProcessor::new("fmt");

    ScopeVisitor::visit_expression(&mut expression, &mut processor);

    assert_eq!(expression, formatted("a"));
}

#[test]
fn hooks_for_blocks_and_statements_leave_them_alone() {
    let mut processor = RemoveInterpolatedStringProcessor::new("fmt");
    let mut block = sample(string);
    let mut statement = Statement::Call(FunctionCall::from_name("f").with_argument(string("a")));

    processor.process_block(&mut block);
    processor.process_statement(&mut statement);

    assert_eq!(block, sample(string));
    assert_eq!(
        statement,
        Statement::Call(FunctionCall::from_name("f").with_argument(string("a")))
    );
    assert!(!processor.needs_string_format());
}

#[test]
fn hook_for_expressions_replaces_only_interpolated_strings() {
    let mut processor = RemoveInterpolatedStringProcessor::new("fmt");
    let mut call = Expression::Call(Box::new(
        FunctionCall::from_name("f").with_argument(string("a")),
    ));

    processor.process_expression(&mut call);

    assert_eq!(
        call,
        Expression::Call(Box::new(
            FunctionCall::from_name("f").with_argument(string("a"))
        ))
    );
    assert!(!processor.needs_string_format());

    let mut interpolated = string("a");
    processor.process_expression(&mut interpolated);

    assert_eq!(interpolated, formatted("a"));
    assert!(processor.needs_string_format());
}
