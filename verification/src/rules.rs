//! Rules and their configuration: the property bag that a rule is configured from
//! and serialises to, and the errors of a configuration that is turned down.

use crate::nodes::Block;
use vstd::prelude::*;

pub mod remove_interpolated_string;
pub mod schema;

verus! {

/// What the pipeline shares with every rule it runs. The rules of this crate read
/// nothing from it.
#[derive(Debug)]
pub struct Context {}

impl Context {
    pub fn new() -> Context {
        Context {  }
    }
}

impl Default for Context {
    fn default() -> Context {
        Context {  }
    }
}

/// The value of a [`RulePropertyValue`].
pub enum PropertyValueView {
    Boolean(bool),
    String(Seq<char>),
    Usize(usize),
    StringList(Seq<Seq<char>>),
}

/// The value of one option, of one of a few shapes.
#[derive(Debug)]
pub enum RulePropertyValue {
    Boolean(bool),
    String(String),
    Usize(usize),
    StringList(Vec<String>),
}

impl View for RulePropertyValue {
    type V = PropertyValueView;

    open spec fn view(&self) -> PropertyValueView {
        match self {
            RulePropertyValue::Boolean(value) => PropertyValueView::Boolean(*value),
            RulePropertyValue::String(value) => PropertyValueView::String(value@),
            RulePropertyValue::Usize(value) => PropertyValueView::Usize(*value),
            RulePropertyValue::StringList(list) => PropertyValueView::StringList(
                Seq::new(list@.len(), |i: int| list@[i]@),
            ),
        }
    }
}

/// One entry of a property bag.
#[derive(Debug)]
struct RuleProperty {
    key: String,
    value: RulePropertyValue,
}

/// A property bag: option names with their values, no name twice. The entries keep
/// the order in which their names came in.
#[derive(Debug)]
pub struct RuleProperties {
    entries: Vec<RuleProperty>,
}

impl View for RuleProperties {
    type V = Map<Seq<char>, PropertyValueView>;

    /// The bag as a map from names to values.
    closed spec fn view(&self) -> Map<Seq<char>, PropertyValueView> {
        Map::new(
            |key: Seq<char>| self.position(key) is Some,
            |key: Seq<char>| self.entries@[self.position(key)->0].value@,
        )
    }
}

impl RuleProperties {
    #[verifier::type_invariant]
    spec fn distinct_keys(&self) -> bool {
        forall|i: int, j: int|
            0 <= i < j < self.entries@.len() ==> self.entries@[i].key@ != self.entries@[j].key@
    }

    /// Where the entry named `key` stands, if there is one.
    closed spec fn position(&self, key: Seq<char>) -> Option<int> {
        if exists|i: int| 0 <= i < self.entries@.len() && self.entries@[i].key@ == key {
            Some(choose|i: int| 0 <= i < self.entries@.len() && self.entries@[i].key@ == key)
        } else {
            None
        }
    }

    /// The names in the bag, in the order in which they came in.
    pub closed spec fn keys(&self) -> Seq<Seq<char>> {
        Seq::new(self.entries@.len(), |i: int| self.entries@[i].key@)
    }

    /// The names of `keys` are the names of the map.
    pub proof fn lemma_keys(&self)
        ensures
            self.keys().to_set() == self@.dom(),
            self@.dom().finite(),
    {
        let keys = self.keys();
        assert forall|key: Seq<char>| keys.to_set().contains(key) == self@.dom().contains(
            key,
        ) by {
            if keys.to_set().contains(key) {
                let i = choose|i: int| 0 <= i < keys.len() && keys[i] == key;
                assert(self.entries@[i].key@ == key);
            }
            if self@.dom().contains(key) {
                let i = self.position(key)->0;
                assert(keys[i] == key);
            }
        }
        assert(keys.to_set() =~= self@.dom());
    }

    /// The empty bag.
    pub fn new() -> (properties: RuleProperties)
        ensures
            properties@ == Map::<Seq<char>, PropertyValueView>::empty(),
            properties.keys() == Seq::<Seq<char>>::empty(),
    {
        let properties = RuleProperties { entries: Vec::new() };
        assert(properties@ =~= Map::<Seq<char>, PropertyValueView>::empty());
        assert(properties.keys() =~= Seq::<Seq<char>>::empty());
        properties
    }

    /// The number of entries. No name stands twice among them.
    pub fn len(&self) -> (len: usize)
        ensures
            len == self.keys().len(),
            self.keys().no_duplicates(),
    {
        proof {
            use_type_invariant(self);
        }
        self.entries.len()
    }

    /// Whether the bag has no entry.
    pub fn is_empty(&self) -> (empty: bool)
        ensures
            empty == (self.keys().len() == 0),
    {
        self.entries.len() == 0
    }

    /// The name of the entry at `index`, in the order in which the names came in.
    pub fn get_key(&self, index: usize) -> (key: Option<&str>)
        ensures
            index < self.keys().len() ==> key is Some && key->0@ == self.keys()[index as int],
            index >= self.keys().len() ==> key is None,
    {
        if index < self.entries.len() {
            Some(self.entries[index].key.as_str())
        } else {
            None
        }
    }

    /// The value of the entry at `index`.
    pub fn get_value(&self, index: usize) -> (value: Option<&RulePropertyValue>)
        ensures
            index < self.keys().len() ==> value is Some && value->0@
                == self@[self.keys()[index as int]],
            index >= self.keys().len() ==> value is None,
    {
        if index < self.entries.len() {
            proof {
                use_type_invariant(self);
                let key = self.entries@[index as int].key@;
                assert(self.position(key) == Some(index as int));
            }
            Some(&self.entries[index].value)
        } else {
            None
        }
    }

    /// Where the entry named `key` stands.
    fn find(&self, key: &str) -> (found: Option<usize>)
        ensures
            found matches Some(index) ==> index < self.entries@.len()
                && self.entries@[index as int].key@ == key@ && self.position(key@) == Some(
                index as int,
            ),
            found is None ==> self.position(key@) is None,
    {
        let wanted = key.to_owned();
        let mut i: usize = 0;
        while i < self.entries.len()
            invariant
                i <= self.entries.len(),
                wanted@ == key@,
                forall|k: int| 0 <= k < i ==> self.entries@[k].key@ != key@,
            decreases self.entries.len() - i,
        {
            if self.entries[i].key == wanted {
                proof {
                    use_type_invariant(self);
                }
                return Some(i);
            }
            i = i + 1;
        }
        None
    }

    /// The value of the option named `key`, if the bag holds one.
    pub fn get(&self, key: &str) -> (value: Option<&RulePropertyValue>)
        ensures
            self@.contains_key(key@) ==> value is Some && value->0@ == self@[key@],
            !self@.contains_key(key@) ==> value is None,
    {
        match self.find(key) {
            Some(index) => Some(&self.entries[index].value),
            None => None,
        }
    }

    /// Whether the bag holds the option named `key`.
    pub fn contains_key(&self, key: &str) -> (found: bool)
        ensures
            found == self@.contains_key(key@),
    {
        self.find(key).is_some()
    }

    /// Sets the option named `key` to `value`. A name that is new to the bag comes
    /// after the names that are in it; one that is in it keeps its place.
    pub fn insert(&mut self, key: &str, value: RulePropertyValue)
        ensures
            final(self)@ == old(self)@.insert(key@, value@),
            final(self).keys() == if old(self)@.contains_key(key@) {
                old(self).keys()
            } else {
                old(self).keys().push(key@)
            },
    {
        let mut taken = RuleProperties::new();
        std::mem::swap(self, &mut taken);
        *self = taken.with_property(key, value);
    }

    /// The same bag with the option named `key` set to `value`.
    pub fn with_property(self, key: &str, value: RulePropertyValue) -> (properties:
        RuleProperties)
        ensures
            properties@ == self@.insert(key@, value@),
            properties.keys() == if self@.contains_key(key@) {
                self.keys()
            } else {
                self.keys().push(key@)
            },
    {
        proof {
            use_type_invariant(&self);
        }
        let found = self.find(key);
        let ghost n = self.entries@.len() as int;
        let RuleProperties { entries } = self;
        let mut entries = entries;
        match found {
            Some(index) => {
                entries[index].value = value;
            },
            None => {
                entries.push(RuleProperty { key: key.to_owned(), value });
            },
        }
        let properties = RuleProperties { entries };
        proof {
            assert forall|other: Seq<char>| other != key@ implies properties.position(other)
                == self.position(other) by {
                if self.position(other) is Some {
                    let i = self.position(other)->0;
                    assert(properties.entries@[i].key@ == other);
                }
                if properties.position(other) is Some {
                    let i = properties.position(other)->0;
                    assert(self.entries@[i].key@ == other);
                }
            }
            if found is Some {
                assert(properties.keys() =~= self.keys());
                assert(properties.entries@[found->0 as int].key@ == key@);
            } else {
                assert(properties.keys() =~= self.keys().push(key@));
                assert(properties.entries@[n].key@ == key@);
            }
            assert(properties.position(key@) is Some);
            assert(properties@ =~= self@.insert(key@, value@));
        }
        properties
    }
}

/// The value of a [`RuleConfigurationError`].
pub enum ConfigurationErrorView {
    UnexpectedProperty(Seq<char>),
    InvalidPropertyValue(Seq<char>, Seq<char>),
}

/// Why a configuration was turned down.
#[derive(Debug)]
pub enum RuleConfigurationError {
    /// The bag holds a name that the rule does not know: the name.
    UnexpectedProperty(String),
    /// The bag holds, under a name that the rule knows, a value that it cannot
    /// take: the name, and what is wrong with the value.
    InvalidPropertyValue(String, String),
}

impl View for RuleConfigurationError {
    type V = ConfigurationErrorView;

    open spec fn view(&self) -> ConfigurationErrorView {
        match self {
            RuleConfigurationError::UnexpectedProperty(key) => {
                ConfigurationErrorView::UnexpectedProperty(key@)
            },
            RuleConfigurationError::InvalidPropertyValue(key, reason) => {
                ConfigurationErrorView::InvalidPropertyValue(key@, reason@)
            },
        }
    }
}

/// The message of an error, as a user reads it.
pub open spec fn error_message(error: ConfigurationErrorView) -> Seq<char> {
    match error {
        ConfigurationErrorView::UnexpectedProperty(key) => "unexpected field '"@ + key + "'"@,
        ConfigurationErrorView::InvalidPropertyValue(key, reason) => "unexpected value for field '"@
            + key + "': "@ + reason,
    }
}

impl RuleConfigurationError {
    /// The message of the error; it names the option at fault.
    pub fn to_string(&self) -> (message: String)
        ensures
            message@ == error_message(self@),
    {
        match self {
            RuleConfigurationError::UnexpectedProperty(key) => {
                let mut message = "unexpected field '".to_owned();
                message.append(key.as_str());
                message.append("'");
                message
            },
            RuleConfigurationError::InvalidPropertyValue(key, reason) => {
                let mut message = "unexpected value for field '".to_owned();
                message.append(key.as_str());
                message.append("': ");
                message.append(reason.as_str());
                message
            },
        }
    }
}

impl PartialEq for RuleConfigurationError {
    fn eq(&self, other: &Self) -> (same: bool) {
        match (self, other) {
            (
                RuleConfigurationError::UnexpectedProperty(a),
                RuleConfigurationError::UnexpectedProperty(b),
            ) => *a == *b,
            (
                RuleConfigurationError::InvalidPropertyValue(a, reason_a),
                RuleConfigurationError::InvalidPropertyValue(b, reason_b),
            ) => *a == *b && *reason_a == *reason_b,
            _ => false,
        }
    }
}

impl vstd::std_specs::cmp::PartialEqSpecImpl for RuleConfigurationError {
    open spec fn obeys_eq_spec() -> bool {
        true
    }

    open spec fn eq_spec(&self, other: &Self) -> bool {
        self@ == other@
    }
}

impl Eq for RuleConfigurationError {

}

/// Whether two lists hold the same strings in the same order.
pub fn same_strings(left: &Vec<String>, right: &Vec<String>) -> (same: bool)
    ensures
        same == (Seq::new(left@.len(), |i: int| left@[i]@) == Seq::new(
            right@.len(),
            |i: int| right@[i]@,
        )),
{
    let ghost left_view = Seq::new(left@.len(), |i: int| left@[i]@);
    let ghost right_view = Seq::new(right@.len(), |i: int| right@[i]@);
    if left.len() != right.len() {
        assert(left_view.len() != right_view.len());
        return false;
    }
    let mut i: usize = 0;
    while i < left.len()
        invariant
            left.len() == right.len(),
            i <= left.len(),
            left_view == Seq::new(left@.len(), |i: int| left@[i]@),
            right_view == Seq::new(right@.len(), |i: int| right@[i]@),
            forall|k: int| 0 <= k < i ==> left@[k]@ == right@[k]@,
        decreases left.len() - i,
    {
        if left[i] != right[i] {
            assert(left_view[i as int] != right_view[i as int]);
            return false;
        }
        i = i + 1;
    }
    assert(left_view =~= right_view);
    true
}

impl PartialEq for RulePropertyValue {
    fn eq(&self, other: &Self) -> (same: bool) {
        match (self, other) {
            (RulePropertyValue::Boolean(a), RulePropertyValue::Boolean(b)) => *a == *b,
            (RulePropertyValue::String(a), RulePropertyValue::String(b)) => *a == *b,
            (RulePropertyValue::Usize(a), RulePropertyValue::Usize(b)) => *a == *b,
            (RulePropertyValue::StringList(a), RulePropertyValue::StringList(b)) => same_strings(
                a,
                b,
            ),
            _ => false,
        }
    }
}

impl vstd::std_specs::cmp::PartialEqSpecImpl for RulePropertyValue {
    open spec fn obeys_eq_spec() -> bool {
        true
    }

    open spec fn eq_spec(&self, other: &Self) -> bool {
        self@ == other@
    }
}

impl Eq for RulePropertyValue {

}

/// What every rule offers to be configured and selected by.
pub trait RuleConfiguration {
    /// The options that the rule holds a value for that is not the default.
    spec fn configuration(&self) -> Map<Seq<char>, PropertyValueView>;

    /// Takes the options of `properties`, or turns the whole bag down: a rule that
    /// returns an error is configured as it was before.
    fn configure(&mut self, properties: RuleProperties) -> (result: Result<
        (),
        RuleConfigurationError,
    >)
        ensures
            result is Err ==> final(self).configuration() == old(self).configuration(),
    ;

    /// The name under which the rule is selected.
    fn get_name(&self) -> &'static str;

    /// The bag of the options that the rule holds.
    fn serialize_to_properties(&self) -> (properties: RuleProperties)
        ensures
            properties@ == self.configuration(),
    ;
}

/// A rule that cannot fail on a block.
pub trait FlawlessRule {
    fn flawless_process(&self, block: &mut Block, context: &Context);
}

} // verus!
