//! The options that a rule knows, as data, and how a property bag is held against
//! them.

use crate::rules::{
    ConfigurationErrorView, PropertyValueView, RuleConfigurationError, RuleProperties,
    RulePropertyValue,
};
use vstd::prelude::*;

verus! {

/// The shape of value that an option takes.
#[derive(Debug, Clone, Copy, PartialEq, Eq, Structural)]
pub enum PropertyShape {
    Boolean,
    String,
    Usize,
    StringList,
}

/// One option of a rule: its name and the shape of its value.
#[derive(Debug)]
pub struct RuleOption {
    pub name: String,
    pub shape: PropertyShape,
}

/// The options that a rule knows.
#[derive(Debug)]
pub struct RuleSchema {
    pub options: Vec<RuleOption>,
}

impl View for RuleSchema {
    type V = Seq<(Seq<char>, PropertyShape)>;

    open spec fn view(&self) -> Seq<(Seq<char>, PropertyShape)> {
        Seq::new(self.options@.len(), |i: int| (self.options@[i].name@, self.options@[i].shape))
    }
}

/// Whether `value` is of the shape `shape`.
pub open spec fn has_shape(value: PropertyValueView, shape: PropertyShape) -> bool {
    match shape {
        PropertyShape::Boolean => value is Boolean,
        PropertyShape::String => value is String,
        PropertyShape::Usize => value is Usize,
        PropertyShape::StringList => value is StringList,
    }
}

/// What the error says of a value that is not of the shape `shape`.
pub open spec fn shape_expected(shape: PropertyShape) -> Seq<char> {
    match shape {
        PropertyShape::Boolean => "boolean value expected"@,
        PropertyShape::String => "string value expected"@,
        PropertyShape::Usize => "unsigned number expected"@,
        PropertyShape::StringList => "list of strings expected"@,
    }
}

/// The shape that `schema` gives the option named `key`: that of the first option of
/// that name, if there is one.
pub open spec fn shape_of(schema: Seq<(Seq<char>, PropertyShape)>, key: Seq<char>) -> Option<
    PropertyShape,
>
    decreases schema.len(),
{
    if schema.len() == 0 {
        None
    } else if schema[0].0 == key {
        Some(schema[0].1)
    } else {
        shape_of(schema.skip(1), key)
    }
}

/// What is wrong with the entry of `key` and `value` for a rule with the options
/// `schema`, if anything: the rule does not know the name, or it knows the name and
/// the value is of another shape.
pub open spec fn entry_fault(
    schema: Seq<(Seq<char>, PropertyShape)>,
    key: Seq<char>,
    value: PropertyValueView,
) -> Option<ConfigurationErrorView> {
    match shape_of(schema, key) {
        None => Some(ConfigurationErrorView::UnexpectedProperty(key)),
        Some(shape) => if has_shape(value, shape) {
            None
        } else {
            Some(ConfigurationErrorView::InvalidPropertyValue(key, shape_expected(shape)))
        },
    }
}

/// The fault of the first entry that has one, in the order of `keys`.
pub open spec fn first_fault(
    schema: Seq<(Seq<char>, PropertyShape)>,
    keys: Seq<Seq<char>>,
    values: Map<Seq<char>, PropertyValueView>,
) -> Option<ConfigurationErrorView>
    decreases keys.len(),
{
    if keys.len() == 0 {
        None
    } else {
        match entry_fault(schema, keys[0], values[keys[0]]) {
            Some(fault) => Some(fault),
            None => first_fault(schema, keys.skip(1), values),
        }
    }
}

impl RuleSchema {
    /// The schema of a rule without options.
    pub fn new() -> (schema: RuleSchema)
        ensures
            schema@ == Seq::<(Seq<char>, PropertyShape)>::empty(),
    {
        let schema = RuleSchema { options: Vec::new() };
        assert(schema@ =~= Seq::<(Seq<char>, PropertyShape)>::empty());
        schema
    }

    /// The same schema with one more option, after the others.
    pub fn with_option(self, name: &str, shape: PropertyShape) -> (schema: RuleSchema)
        ensures
            schema@ == self@.push((name@, shape)),
    {
        let mut schema = self;
        schema.options.push(RuleOption { name: name.to_owned(), shape });
        assert(schema@ =~= self@.push((name@, shape)));
        schema
    }

    /// The shape of the option named `key`, if the schema has one.
    pub fn get_shape(&self, key: &str) -> (shape: Option<PropertyShape>)
        ensures
            shape == shape_of(self@, key@),
    {
        let wanted = key.to_owned();
        let mut i: usize = 0;
        assert(self@.skip(0) =~= self@);
        while i < self.options.len()
            invariant
                i <= self.options.len(),
                wanted@ == key@,
                shape_of(self@, key@) == shape_of(self@.skip(i as int), key@),
            decreases self.options.len() - i,
        {
            assert(self@.skip(i as int).skip(1) =~= self@.skip(i + 1));
            if self.options[i].name == wanted {
                return Some(self.options[i].shape);
            }
            i = i + 1;
        }
        None
    }
}

/// Whether `value` is of the shape `shape`.
pub fn value_has_shape(value: &RulePropertyValue, shape: PropertyShape) -> (fits: bool)
    ensures
        fits == has_shape(value@, shape),
{
    match (value, shape) {
        (RulePropertyValue::Boolean(_), PropertyShape::Boolean) => true,
        (RulePropertyValue::String(_), PropertyShape::String) => true,
        (RulePropertyValue::Usize(_), PropertyShape::Usize) => true,
        (RulePropertyValue::StringList(_), PropertyShape::StringList) => true,
        _ => false,
    }
}

/// The words of [`shape_expected`].
pub fn describe_expected(shape: PropertyShape) -> (reason: String)
    ensures
        reason@ == shape_expected(shape),
{
    match shape {
        PropertyShape::Boolean => "boolean value expected".to_owned(),
        PropertyShape::String => "string value expected".to_owned(),
        PropertyShape::Usize => "unsigned number expected".to_owned(),
        PropertyShape::StringList => "list of strings expected".to_owned(),
    }
}

/// Checks every entry of `properties` against `schema`, in the order in which the
/// names came in. The bag passes if every name is one of the schema and every value
/// is of the shape that the schema gives its name; else the error is that of the
/// first entry at fault.
pub fn verify_properties(properties: &RuleProperties, schema: &RuleSchema) -> (result: Result<
    (),
    RuleConfigurationError,
>)
    ensures
        match result {
            Ok(_) => first_fault(schema@, properties.keys(), properties@) is None,
            Err(error) => first_fault(schema@, properties.keys(), properties@) == Some(error@),
        },
{
    let ghost keys = properties.keys();
    let n: usize = properties.len();
    let mut i: usize = 0;
    assert(keys.skip(0) =~= keys);
    while i < n
        invariant
            i <= n,
            n == keys.len(),
            keys == properties.keys(),
            first_fault(schema@, keys, properties@) == first_fault(
                schema@,
                keys.skip(i as int),
                properties@,
            ),
        decreases n - i,
    {
        assert(keys.skip(i as int).skip(1) =~= keys.skip(i + 1));
        assert(keys.skip(i as int)[0] == keys[i as int]);
        let key = properties.get_key(i).unwrap();
        let value = properties.get_value(i).unwrap();
        match schema.get_shape(key) {
            None => {
                return Err(RuleConfigurationError::UnexpectedProperty(key.to_owned()));
            },
            Some(shape) => {
                if !value_has_shape(value, shape) {
                    return Err(
                        RuleConfigurationError::InvalidPropertyValue(
                            key.to_owned(),
                            describe_expected(shape),
                        ),
                    );
                }
            },
        }
        i = i + 1;
    }
    Ok(())
}

/// A bag passes just when none of its entries is at fault.
pub proof fn lemma_passes_without_fault(
    schema: Seq<(Seq<char>, PropertyShape)>,
    keys: Seq<Seq<char>>,
    values: Map<Seq<char>, PropertyValueView>,
)
    ensures
        first_fault(schema, keys, values) is None <==> forall|i: int|
            0 <= i < keys.len() ==> (#[trigger] entry_fault(schema, keys[i], values[keys[i]]))
                is None,
    decreases keys.len(),
{
    if keys.len() > 0 {
        let rest = keys.skip(1);
        lemma_passes_without_fault(schema, rest, values);
        if first_fault(schema, keys, values) is None {
            assert forall|i: int| 0 <= i < keys.len() implies (#[trigger] entry_fault(
                schema,
                keys[i],
                values[keys[i]],
            )) is None by {
                if i > 0 {
                    assert(rest[i - 1] == keys[i]);
                }
            }
        }
        if forall|i: int|
            0 <= i < keys.len() ==> (#[trigger] entry_fault(schema, keys[i], values[keys[i]]))
                is None {
            assert(entry_fault(schema, keys[0], values[keys[0]]) is None);
            assert forall|i: int| 0 <= i < rest.len() implies (#[trigger] entry_fault(
                schema,
                rest[i],
                values[rest[i]],
            )) is None by {
                assert(rest[i] == keys[i + 1]);
            }
        }
    }
}

/// A rule without options turns down every bag but the empty one, for the first of
/// its names.
pub proof fn lemma_no_option_no_property(
    keys: Seq<Seq<char>>,
    values: Map<Seq<char>, PropertyValueView>,
)
    ensures
        first_fault(Seq::empty(), keys, values) == if keys.len() == 0 {
            None
        } else {
            Some(ConfigurationErrorView::UnexpectedProperty(keys[0]))
        },
{
}

} // verus!
