//! JSON documents as a tree of plain values, and the calls into `serde_json`
//! that read and write them.

use vstd::prelude::*;

use crate::text::str_eq;

verus! {

/// `serde_json::Number`, a JSON number as `serde_json` holds it. Opaque
/// here: a number is carried from the parser to the writer untouched.
#[verifier::external_type_specification]
#[verifier::external_body]
pub struct ExNumber(serde_json::Number);

/// `serde_json::Value`, a JSON document as `serde_json` holds it. Opaque
/// here: it only passes between `serde_json` and the conversions below.
#[verifier::external_type_specification]
#[verifier::external_body]
pub struct ExValue(serde_json::Value);

/// A JSON document.
///
/// An object keeps its members as a list of key/value pairs. Where a key
/// occurs more than once, the last occurrence is the member of that name.
#[derive(Debug, PartialEq)]
pub enum JsonValue {
    Null,
    Bool(bool),
    Number(serde_json::Number),
    Text(String),
    Array(Vec<JsonValue>),
    Object(Vec<(String, JsonValue)>),
}

/// A JSON document as a mathematical tree: the view of a `JsonValue`.
pub enum JsonTree {
    Null,
    Bool(bool),
    Number(serde_json::Number),
    Text(Seq<char>),
    Array(Seq<JsonTree>),
    Object(Seq<(Seq<char>, JsonTree)>),
}

/// The tree that a document stands for.
pub open spec fn spec_tree(value: JsonValue) -> JsonTree
    decreases value,
{
    match value {
        JsonValue::Null => JsonTree::Null,
        JsonValue::Bool(b) => JsonTree::Bool(b),
        JsonValue::Number(n) => JsonTree::Number(n),
        JsonValue::Text(s) => JsonTree::Text(s@),
        JsonValue::Array(items) => JsonTree::Array(
            Seq::new(
                items@.len(),
                |i: int|
                    if 0 <= i < items@.len() {
                        spec_tree(items@[i])
                    } else {
                        JsonTree::Null
                    },
            ),
        ),
        JsonValue::Object(fields) => JsonTree::Object(
            Seq::new(
                fields@.len(),
                |i: int|
                    if 0 <= i < fields@.len() {
                        (fields@[i].0@, spec_tree(fields@[i].1))
                    } else {
                        (Seq::empty(), JsonTree::Null)
                    },
            ),
        ),
    }
}

impl View for JsonValue {
    type V = JsonTree;

    open spec fn view(&self) -> JsonTree {
        spec_tree(*self)
    }
}

/// The views of a list of documents.
pub open spec fn spec_trees(items: Seq<JsonValue>) -> Seq<JsonTree> {
    Seq::new(items.len(), |i: int| items[i]@)
}

/// The value of the last pair in `fields` whose key is `key`.
pub open spec fn spec_last_entry(fields: Seq<(Seq<char>, JsonTree)>, key: Seq<char>) -> Option<
    JsonTree,
>
    decreases fields.len(),
{
    if fields.len() == 0 {
        None
    } else if fields.last().0 == key {
        Some(fields.last().1)
    } else {
        spec_last_entry(fields.drop_last(), key)
    }
}

impl JsonTree {
    /// The member named `key` of an object; `None` for a missing member and
    /// for anything that is not an object.
    pub open spec fn spec_member(self, key: Seq<char>) -> Option<JsonTree> {
        match self {
            JsonTree::Object(fields) => spec_last_entry(fields, key),
            _ => None,
        }
    }

    /// The characters of a string value; `None` for every other kind.
    pub open spec fn spec_text(self) -> Option<Seq<char>> {
        match self {
            JsonTree::Text(s) => Some(s),
            _ => None,
        }
    }

    /// The characters of the string member named `key`; `None` where the
    /// member is missing or is not a string.
    pub open spec fn spec_text_member(self, key: Seq<char>) -> Option<Seq<char>> {
        match self.spec_member(key) {
            Some(v) => v.spec_text(),
            None => None,
        }
    }
}

impl JsonValue {
    /// Looks up the member named `key`.
    pub fn member(&self, key: &str) -> (r: Option<&JsonValue>)
        ensures
            match r {
                Some(v) => self@.spec_member(key@) == Some(v@),
                None => self@.spec_member(key@) is None,
            },
    {
        match self {
            JsonValue::Object(fields) => {
                let ghost trees = self@->Object_0;
                let mut i: usize = fields.len();
                assert(trees.take(i as int) =~= trees);
                while i > 0
                    invariant
                        i <= fields.len(),
                        trees.len() == fields@.len(),
                        forall|j: int|
                            0 <= j < trees.len() ==> #[trigger] trees[j] == (
                                fields@[j].0@,
                                fields@[j].1@,
                            ),
                        self@.spec_member(key@) == spec_last_entry(trees, key@),
                        spec_last_entry(trees, key@) == spec_last_entry(
                            trees.take(i as int),
                            key@,
                        ),
                    decreases i,
                {
                    let ghost upto = trees.take(i as int);
                    i = i - 1;
                    assert(upto.drop_last() =~= trees.take(i as int));
                    if str_eq(fields[i].0.as_str(), key) {
                        return Some(&fields[i].1);
                    }
                }
                None
            },
            _ => None,
        }
    }

    /// The string held by a string value.
    pub fn as_str(&self) -> (r: Option<&str>)
        ensures
            match r {
                Some(s) => self@.spec_text() == Some(s@),
                None => self@.spec_text() is None,
            },
    {
        match self {
            JsonValue::Text(s) => Some(s.as_str()),
            _ => None,
        }
    }

    /// The string held by the member named `key`.
    pub fn text_member(&self, key: &str) -> (r: Option<&str>)
        ensures
            match r {
                Some(s) => self@.spec_text_member(key@) == Some(s@),
                None => self@.spec_text_member(key@) is None,
            },
    {
        match self.member(key) {
            Some(v) => v.as_str(),
            None => None,
        }
    }

    /// Whether this is the JSON `null`.
    pub fn is_null(&self) -> (r: bool)
        ensures
            r == (self@ is Null),
    {
        match self {
            JsonValue::Null => true,
            _ => false,
        }
    }
}

/// What `serde_json` makes of `text` read as one JSON document: the document,
/// or `None` where the text is not exactly one well-formed document.
pub uninterp spec fn parsed_json(text: Seq<char>) -> Option<JsonTree>;

/// What `serde_json` makes of `bytes` read as a JSON array: its elements in
/// order, or `None` where the bytes are not exactly one well-formed array.
pub uninterp spec fn parsed_json_array(bytes: Seq<u8>) -> Option<Seq<JsonTree>>;

/// The compact JSON text that `serde_json` writes for an array of `items`, or
/// `None` where it reports a failure.
pub uninterp spec fn serialized_json_array(items: Seq<JsonTree>) -> Option<Seq<u8>>;

/// Rebuilds a `serde_json::Value` as a `JsonValue`, variant by variant. An
/// object's members come out in the order in which `serde_json` walks them.
/// Part of the conversion done by `parse_json` and `parse_json_array`.
#[verifier::external_body]
fn from_serde(v: serde_json::Value) -> JsonValue {
    match v {
        serde_json::Value::Null => JsonValue::Null,
        serde_json::Value::Bool(b) => JsonValue::Bool(b),
        serde_json::Value::Number(n) => JsonValue::Number(n),
        serde_json::Value::String(s) => JsonValue::Text(s),
        serde_json::Value::Array(a) => JsonValue::Array(a.into_iter().map(from_serde).collect()),
        serde_json::Value::Object(o) => JsonValue::Object(
            o.into_iter().map(|(k, v)| (k, from_serde(v))).collect(),
        ),
    }
}

/// Rebuilds a `JsonValue` as a `serde_json::Value`, variant by variant. Where
/// an object repeats a key, `serde_json` keeps the last value given for it.
/// Part of the conversion done by `serialize_json_array`.
#[verifier::external_body]
fn to_serde(v: &JsonValue) -> serde_json::Value {
    match v {
        JsonValue::Null => serde_json::Value::Null,
        JsonValue::Bool(b) => serde_json::Value::Bool(*b),
        JsonValue::Number(n) => serde_json::Value::Number(n.clone()),
        JsonValue::Text(s) => serde_json::Value::String(s.clone()),
        JsonValue::Array(a) => serde_json::Value::Array(a.iter().map(to_serde).collect()),
        JsonValue::Object(o) => serde_json::Value::Object(
            o.iter().map(|(k, v)| (k.clone(), to_serde(v))).collect(),
        ),
    }
}

/// `serde_json::from_str` at type `Value`: parses `text` as one JSON document.
/// The contract only gives the result its name, `parsed_json`; it claims
/// nothing of which texts parse or of what they parse to.
#[verifier::external_body]
pub(crate) fn parse_json(text: &str) -> (r: Option<JsonValue>)
    ensures
        match r {
            Some(value) => parsed_json(text@) == Some(value@),
            None => parsed_json(text@) is None,
        },
{
    serde_json::from_str::<serde_json::Value>(text).ok().map(from_serde)
}

/// `serde_json::from_slice` at type `Vec<Value>`: parses `bytes` as one JSON
/// array. The contract only gives the result its name, `parsed_json_array`.
#[verifier::external_body]
pub(crate) fn parse_json_array(bytes: &[u8]) -> (r: Option<Vec<JsonValue>>)
    ensures
        match r {
            Some(items) => parsed_json_array(bytes@) == Some(spec_trees(items@)),
            None => parsed_json_array(bytes@) is None,
        },
{
    serde_json::from_slice::<Vec<serde_json::Value>>(bytes).ok().map(
        |items| items.into_iter().map(from_serde).collect(),
    )
}

/// `serde_json::to_vec` on a list of values: writes `items` as one compact
/// JSON array. The contract only gives the result its name,
/// `serialized_json_array`.
#[verifier::external_body]
pub(crate) fn serialize_json_array(items: &Vec<JsonValue>) -> (r: Option<Vec<u8>>)
    ensures
        match r {
            Some(bytes) => serialized_json_array(spec_trees(items@)) == Some(bytes@),
            None => serialized_json_array(spec_trees(items@)) is None,
        },
{
    serde_json::to_vec(&items.iter().map(to_serde).collect::<Vec<serde_json::Value>>()).ok()
}

} // verus!
