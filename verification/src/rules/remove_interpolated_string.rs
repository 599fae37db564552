//! The rule that replaces each interpolated string by a call of a formatting function.

use crate::nodes::{
    Block, BlockView, Expression, ExpressionView, FieldExpression, FieldView, FunctionCall,
    Identifier, InterpolatedStringExpression, LocalAssignStatement, LocalAssignView, Prefix,
    PrefixView, Statement, StatementView, StringExpression,
};
use crate::process::identifier_tracker::{with_declaration, IdentifierTracker};
use crate::process::visitor::ScopeVisitor;
use crate::process::{NodeProcessor, Scope};
use crate::rules::remove_interpolated_string::correctness::lemma_walk_block;
use crate::rules::remove_interpolated_string::lowering::{block_interpolates, lower_block};
use crate::rules::{
    ConfigurationErrorView, Context, FlawlessRule, PropertyValueView, RuleConfiguration,
    RuleConfigurationError, RuleProperties,
};
use crate::rules::remove_interpolated_string::template::{
    build_arguments, build_template, lemma_replacement_weight, replacement,
};
use vstd::prelude::*;

pub mod correctness;
pub mod laws;
pub mod lowering;
pub mod template;

verus! {

/// The value of a [`RemoveInterpolatedStringProcessor`].
pub struct ProcessorView {
    /// The name under which the generated calls reach the formatting function.
    pub formatter: Seq<char>,
    /// Whether a call of the formatting function was generated.
    pub needs_formatter: bool,
    /// The open frames.
    pub scopes: Seq<Set<Seq<char>>>,
}

/// The processor of the rule: it replaces interpolated strings and remembers whether
/// it generated a call.
pub struct RemoveInterpolatedStringProcessor {
    string_format_identifier: String,
    define_string_format: bool,
    identifier_tracker: IdentifierTracker,
}

impl View for RemoveInterpolatedStringProcessor {
    type V = ProcessorView;

    closed spec fn view(&self) -> ProcessorView {
        ProcessorView {
            formatter: self.string_format_identifier@,
            needs_formatter: self.define_string_format,
            scopes: self.identifier_tracker@,
        }
    }
}

impl RemoveInterpolatedStringProcessor {
    /// The processor that has generated nothing yet and is in no scope.
    pub fn new(string_format_identifier: &str) -> (processor: RemoveInterpolatedStringProcessor)
        ensures
            processor@ == (ProcessorView {
                formatter: string_format_identifier@,
                needs_formatter: false,
                scopes: Seq::empty(),
            }),
    {
        RemoveInterpolatedStringProcessor {
            string_format_identifier: string_format_identifier.to_owned(),
            define_string_format: false,
            identifier_tracker: IdentifierTracker::default(),
        }
    }

    /// Whether a call of the formatting function was generated.
    pub fn needs_string_format(&self) -> (needed: bool)
        ensures
            needed == self@.needs_formatter,
    {
        self.define_string_format
    }

    /// The scopes that the traversal is in.
    pub fn get_identifier_tracker(&self) -> (tracker: &IdentifierTracker)
        ensures
            tracker@ == self@.scopes,
    {
        &self.identifier_tracker
    }

    /// What stands in place of `string`: the empty literal if it has no segment; else
    /// the call of the formatting function on the template and on a copy of each
    /// value, and the processor remembers that it generated one.
    pub fn replace_with(&mut self, string: &InterpolatedStringExpression) -> (expression:
        Expression)
        ensures
            expression@ == replacement(old(self)@.formatter, string@),
            final(self)@ == (ProcessorView {
                needs_formatter: old(self)@.needs_formatter || string@.len() > 0,
                ..old(self)@
            }),
    {
        if string.is_empty() {
            proof {
                reveal_strlit("");
            }
            let empty = StringExpression::from_value("");
            assert(empty@ =~= Seq::<char>::empty());
            Expression::String(empty)
        } else {
            self.define_string_format = true;
            let format_string = build_template(string);
            let arguments = build_arguments(string, format_string);
            Expression::Call(
                Box::new(
                    FunctionCall::from_prefix(
                        Prefix::from_name(self.string_format_identifier.as_str()),
                    ).with_arguments(arguments),
                ),
            )
        }
    }
}

/// What the hook for expressions does: an interpolated string is replaced, and the
/// state remembers whether a call was generated; the rest stays.
pub open spec fn replaced(state: ProcessorView, expression: ExpressionView) -> (
    ProcessorView,
    ExpressionView,
) {
    match expression {
        ExpressionView::InterpolatedString(segments) => (
            ProcessorView {
                needs_formatter: state.needs_formatter || segments.len() > 0,
                ..state
            },
            replacement(state.formatter, segments),
        ),
        _ => (state, expression),
    }
}

impl Scope for RemoveInterpolatedStringProcessor {
    open spec fn frames(state: ProcessorView) -> nat {
        state.scopes.len()
    }

    open spec fn entered(state: ProcessorView) -> ProcessorView {
        ProcessorView { scopes: state.scopes.push(Set::empty()), ..state }
    }

    open spec fn exited(state: ProcessorView) -> ProcessorView {
        ProcessorView { scopes: state.scopes.drop_last(), ..state }
    }

    open spec fn declared(state: ProcessorView, name: Seq<char>) -> ProcessorView {
        ProcessorView { scopes: with_declaration(state.scopes, name), ..state }
    }

    fn enter_scope(&mut self) {
        self.identifier_tracker.enter_scope();
    }

    fn exit_scope(&mut self) {
        self.identifier_tracker.exit_scope();
    }

    fn declare(&mut self, name: &str) {
        self.identifier_tracker.declare(name);
    }
}

impl NodeProcessor for RemoveInterpolatedStringProcessor {
    open spec fn expression_hook(state: ProcessorView, expression: ExpressionView) -> (
        ProcessorView,
        ExpressionView,
    ) {
        replaced(state, expression)
    }

    fn process_block(&mut self, block: &mut Block) {
    }

    fn process_statement(&mut self, statement: &mut Statement) {
    }

    fn process_expression(&mut self, expression: &mut Expression) {
        proof {
            if let ExpressionView::InterpolatedString(segments) = expression@ {
                lemma_replacement_weight(self@.formatter, segments);
            }
        }
        if let Expression::InterpolatedString(string) = expression {
            *expression = self.replace_with(string);
        }
    }
}

/// The name under which the rule is selected.
pub const REMOVE_INTERPOLATED_STRING_RULE_NAME: &'static str = "remove_interpolated_string";

/// The name that the generated code binds the formatting function to. Nothing checks
/// that the program does not use the name itself.
pub const STRING_FORMAT_IDENTIFIER: &'static str = "__DARKLUA_STR_FMT";

/// The library that holds the formatting function.
pub const DEFAULT_STRING_LIBRARY: &'static str = "string";

/// The name of the formatting function in its library.
pub const DEFAULT_STRING_FORMAT_NAME: &'static str = "format";

/// The declaration that binds [`STRING_FORMAT_IDENTIFIER`] to the formatting function.
pub open spec fn prelude_statement() -> StatementView {
    StatementView::LocalAssign(
        LocalAssignView {
            variables: seq![STRING_FORMAT_IDENTIFIER@],
            values: seq![
                ExpressionView::Field(
                    Box::new(
                        FieldView {
                            prefix: PrefixView::Identifier(DEFAULT_STRING_LIBRARY@),
                            field: DEFAULT_STRING_FORMAT_NAME@,
                        },
                    ),
                ),
            ],
        },
    )
}

/// The block that the rule makes of `block`: every interpolated string lowered, and
/// in front of the statements, once, the declaration of the formatting function if a
/// call of it was generated anywhere in the block.
pub open spec fn rewritten_block(block: BlockView) -> BlockView {
    let lowered = lower_block(STRING_FORMAT_IDENTIFIER@, block);
    if block_interpolates(block, false) {
        BlockView { statements: lowered.statements.insert(0, prelude_statement()) }
    } else {
        lowered
    }
}

/// What `configure` answers to a bag with the names `keys`: the rule has no option,
/// so it takes the empty bag alone and turns any other down for its first name.
pub open spec fn configure_outcome(keys: Seq<Seq<char>>) -> Result<(), ConfigurationErrorView> {
    if keys.len() == 0 {
        Ok(())
    } else {
        Err(ConfigurationErrorView::UnexpectedProperty(keys[0]))
    }
}

/// A rule that removes interpolated strings.
#[derive(Debug, PartialEq, Eq)]
pub struct RemoveInterpolatedString {}

impl Default for RemoveInterpolatedString {
    fn default() -> (rule: RemoveInterpolatedString)
        ensures
            rule == (RemoveInterpolatedString {  }),
    {
        RemoveInterpolatedString {  }
    }
}

impl FlawlessRule for RemoveInterpolatedString {
    /// Lowers every interpolated string of `block` and declares the formatting
    /// function at the top of `block` if a call of it was generated.
    fn flawless_process(&self, block: &mut Block, context: &Context)
        ensures
            final(block)@ == rewritten_block(old(block)@),
    {
        let mut processor = RemoveInterpolatedStringProcessor::new(STRING_FORMAT_IDENTIFIER);
        proof {
            lemma_walk_block(processor@, block@);
        }
        ScopeVisitor::visit_block(block, &mut processor);

        if processor.define_string_format {
            let variables = vec![Identifier::new(STRING_FORMAT_IDENTIFIER)];
            let values = vec![
                Expression::Field(
                    Box::new(
                        FieldExpression::new(
                            Prefix::from_name(DEFAULT_STRING_LIBRARY),
                            DEFAULT_STRING_FORMAT_NAME,
                        ),
                    ),
                ),
            ];
            let prelude = Statement::LocalAssign(LocalAssignStatement::new(variables, values));
            assert(prelude@ =~= prelude_statement()) by {
                assert(prelude@->LocalAssign_0.variables =~= seq![STRING_FORMAT_IDENTIFIER@]);
                assert(prelude@->LocalAssign_0.values =~= prelude_statement()->LocalAssign_0.values);
            }
            block.insert_statement(0, prelude);
        }
    }
}

impl RuleConfiguration for RemoveInterpolatedString {
    open spec fn configuration(&self) -> Map<Seq<char>, PropertyValueView> {
        Map::empty()
    }

    /// Takes the empty bag. Any other bag is turned down for the first of its names,
    /// and the rule is as it was.
    fn configure(&mut self, properties: RuleProperties) -> (result: Result<
        (),
        RuleConfigurationError,
    >)
        ensures
            result is Ok <==> properties.keys().len() == 0,
            match result {
                Ok(_) => configure_outcome(properties.keys()) is Ok,
                Err(error) => configure_outcome(properties.keys()) == Err::<
                    (),
                    ConfigurationErrorView,
                >(error@),
            },
            *final(self) == *old(self),
    {
        match properties.get_key(0) {
            Some(key) => Err(RuleConfigurationError::UnexpectedProperty(key.to_owned())),
            None => Ok(()),
        }
    }

    fn get_name(&self) -> (name: &'static str)
        ensures
            name@ == REMOVE_INTERPOLATED_STRING_RULE_NAME@,
    {
        REMOVE_INTERPOLATED_STRING_RULE_NAME
    }

    fn serialize_to_properties(&self) -> (properties: RuleProperties)
        ensures
            properties.keys() == Seq::<Seq<char>>::empty(),
    {
        RuleProperties::new()
    }
}

} // verus!
