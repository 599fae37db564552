use darklua::rules::schema::{verify_properties, PropertyShape, RuleSchema};
use darklua::rules::{RuleConfigurationError, RuleProperties, RulePropertyValue};

fn string_value(value: &str) -> RulePropertyValue {
    RulePropertyValue::String(value.to_owned())
}

#[test]
fn new_properties_are_empty() {
    let properties = RuleProperties::new();

    assert!(properties.is_empty());
    assert_eq!(properties.len(), 0);
    assert_eq!(properties.get_key(0), None);
    assert!(properties.get("any").is_none());
    assert!(!properties.contains_key("any"));
}

#[test]
fn properties_keep_insertion_order() {
    let properties = RuleProperties::new()
        .with_property("b", RulePropertyValue::Usize(1))
        .with_property("a", RulePropertyValue::Boolean(false))
        .with_property("c", string_value("x"));

    assert_eq!(properties.len(), 3);
    assert_eq!(properties.get_key(0), Some("b"));
    assert_eq!(properties.get_key(1), Some("a"));
    assert_eq!(properties.get_key(2), Some("c"));
    assert_eq!(properties.get_key(3), None);
    assert_eq!(properties.get_value(1), Some(&RulePropertyValue::Boolean(false)));
    assert_eq!(properties.get_value(3), None);
}

#[test]
fn inserting_an_existing_key_replaces_its_value_in_place() {
    let mut properties = RuleProperties::new()
        .with_property("a", RulePropertyValue::Usize(1))
        .with_property("b", RulePropertyValue::Usize(2));

    properties.insert("a", RulePropertyValue::Usize(3));

    assert_eq!(properties.len(), 2);
    assert_eq!(properties.get_key(0), Some("a"));
    assert_eq!(properties.get("a"), Some(&RulePropertyValue::Usize(3)));
    assert_eq!(properties.get("b"), Some(&RulePropertyValue::Usize(2)));
    assert!(properties.contains_key("b"));
    assert!(!properties.contains_key("c"));
}

#[test]
fn property_values_compare_by_content() {
    let list = |items: &[&str]| {
        RulePropertyValue::StringList(items.iter().map(|item| item.to_string()).collect())
    };

    assert_eq!(list(&["a", "b"]), list(&["a", "b"]));
    assert_ne!(list(&["a", "b"]), list(&["b", "a"]));
    assert_ne!(list(&["a"]), list(&["a", "b"]));
    assert_ne!(string_value("1"), RulePropertyValue::Usize(1));
    assert_eq!(string_value("1"), string_value("1"));
    assert_ne!(RulePropertyValue::Boolean(true), RulePropertyValue::Boolean(false));
}

#[test]
fn unexpected_property_message_names_the_key() {
    let error = RuleConfigurationError::UnexpectedProperty("prop".to_owned());

    assert_eq!(error.to_string(), "unexpected field 'prop'");
}

#[test]
fn invalid_property_value_message_names_key_and_reason() {
    let error = RuleConfigurationError::InvalidPropertyValue(
        "depth".to_owned(),
        "unsigned number expected".to_owned(),
    );

    assert_eq!(
        error.to_string(),
        "unexpected value for field 'depth': unsigned number expected"
    );
}

#[test]
fn errors_compare_by_content() {
    let unexpected = |key: &str| RuleConfigurationError::UnexpectedProperty(key.to_owned());
    let invalid = |key: &str, reason: &str| {
        RuleConfigurationError::InvalidPropertyValue(key.to_owned(), reason.to_owned())
    };

    assert_eq!(unexpected("a"), unexpected("a"));
    assert_ne!(unexpected("a"), unexpected("b"));
    assert_ne!(unexpected("a"), invalid("a", ""));
    assert_eq!(invalid("a", "r"), invalid("a", "r"));
    assert_ne!(invalid("a", "r"), invalid("a", "s"));
}

fn schema() -> RuleSchema {
    RuleSchema::new()
        .with_option("enabled", PropertyShape::Boolean)
        .with_option("name", PropertyShape::String)
        .with_option("depth", PropertyShape::Usize)
        .with_option("names", PropertyShape::StringList)
}

#[test]
fn schema_gives_the_shape_of_a_known_option() {
    let schema = schema();

    assert_eq!(schema.get_shape("enabled"), Some(PropertyShape::Boolean));
    assert_eq!(schema.get_shape("names"), Some(PropertyShape::StringList));
    assert_eq!(schema.get_shape("other"), None);
    assert_eq!(RuleSchema::new().get_shape("enabled"), None);
}

#[test]
fn properties_of_the_right_shapes_pass() {
    let properties = RuleProperties::new()
        .with_property("depth", RulePropertyValue::Usize(3))
        .with_property("names", RulePropertyValue::StringList(vec!["a".to_owned()]))
        .with_property("enabled", RulePropertyValue::Boolean(true))
        .with_property("name", string_value("x"));

    assert_eq!(verify_properties(&properties, &schema()), Ok(()));
    assert_eq!(verify_properties(&RuleProperties::new(), &schema()), Ok(()));
    assert_eq!(verify_properties(&RuleProperties::new(), &RuleSchema::new()), Ok(()));
}

#[test]
fn unknown_property_is_unexpected() {
    let properties = RuleProperties::new()
        .with_property("depth", RulePropertyValue::Usize(3))
        .with_property("prop", string_value("something"));

    assert_eq!(
        verify_properties(&properties, &schema()),
        Err(RuleConfigurationError::UnexpectedProperty("prop".to_owned()))
    );
}

#[test]
fn property_of_the_wrong_shape_is_invalid() {
    let properties = RuleProperties::new().with_property("depth", string_value("3"));

    assert_eq!(
        verify_properties(&properties, &schema()),
        Err(RuleConfigurationError::InvalidPropertyValue(
            "depth".to_owned(),
            "unsigned number expected".to_owned()
        ))
    );
}

#[test]
fn first_entry_at_fault_gives_the_error() {
    let properties = RuleProperties::new()
        .with_property("enabled", RulePropertyValue::Usize(1))
        .with_property("prop", string_value("something"));

    assert_eq!(
        verify_properties(&properties, &schema()),
        Err(RuleConfigurationError::InvalidPropertyValue(
            "enabled".to_owned(),
            "boolean value expected".to_owned()
        ))
    );

    let properties = RuleProperties::new()
        .with_property("prop", string_value("something"))
        .with_property("enabled", RulePropertyValue::Usize(1));

    assert_eq!(
        verify_properties(&properties, &schema()),
        Err(RuleConfigurationError::UnexpectedProperty("prop".to_owned()))
    );
}

#[test]
fn every_shape_has_its_own_reason() {
    let wrong = |key: &str, value: RulePropertyValue| {
        let properties = RuleProperties::new().with_property(key, value);
        match verify_properties(&properties, &schema()) {
            Err(RuleConfigurationError::InvalidPropertyValue(_, reason)) => reason,
            other => panic!("unexpected result: {:?}", other),
        }
    };

    assert_eq!(wrong("name", RulePropertyValue::Boolean(true)), "string value expected");
    assert_eq!(wrong("names", string_value("a")), "list of strings expected");
    assert_eq!(wrong("enabled", string_value("true")), "boolean value expected");
    assert_eq!(
        wrong("depth", RulePropertyValue::StringList(vec![])),
        "unsigned number expected"
    );
}

#[test]
fn schema_without_options_rejects_the_first_key() {
    let properties = RuleProperties::new()
        .with_property("first", RulePropertyValue::Boolean(true))
        .with_property("second", RulePropertyValue::Boolean(true));

    assert_eq!(
        verify_properties(&properties, &RuleSchema::new()),
        Err(RuleConfigurationError::UnexpectedProperty("first".to_owned()))
    );
}
