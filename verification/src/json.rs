//! JSON documents as `serde_json` holds them, with a mathematical model of
//! what a document contains.

use vstd::prelude::*;

verus! {

/// What a JSON document contains. The members of an object have no order
/// and no two of them share a key.
pub enum JsonValue {
    Null,
    Bool(bool),
    /// An integer number. Numbers with a fraction or an exponent are never
    /// read or built here.
    Number(int),
    Str(Seq<char>),
    Array(Seq<JsonValue>),
    Object(Map<Seq<char>, JsonValue>),
}

/// `serde_json::Value`, a JSON document in memory.
#[verifier::external_type_specification]
#[verifier::external_body]
pub struct ExValue(serde_json::Value);

/// `serde_json::Map`, the members of a JSON object.
#[verifier::external_type_specification]
#[verifier::external_body]
#[verifier::reject_recursive_types(K)]
#[verifier::reject_recursive_types(V)]
pub struct ExJsonMap<K, V>(serde_json::Map<K, V>);

/// `serde_json::Error`, why a text was refused.
#[verifier::external_type_specification]
#[verifier::external_body]
pub struct ExJsonError(serde_json::Error);

/// The document that a `serde_json::Value` holds.
pub uninterp spec fn value_contents(v: serde_json::Value) -> JsonValue;

/// The members that a `serde_json::Map` holds, by key.
pub uninterp spec fn map_contents(m: serde_json::Map<String, serde_json::Value>) -> Map<Seq<char>, JsonValue>;

/// The document that `serde_json` reads from the bytes of a text, if it
/// accepts them.
pub uninterp spec fn json_parse(bytes: Seq<u8>) -> Option<JsonValue>;

/// The compact text that `serde_json` writes for a document: no white
/// space, and the members of an object in the order of their keys.
pub uninterp spec fn json_text(doc: JsonValue) -> Seq<char>;

/// The documents held by a sequence of values, in order.
pub open spec fn values_contents(values: Seq<serde_json::Value>) -> Seq<JsonValue> {
    values.map_values(|v: serde_json::Value| value_contents(v))
}

/// The members of an object without members.
pub open spec fn no_members() -> Map<Seq<char>, JsonValue> {
    Map::empty()
}

/// Whether `members` are finitely many, and `n` in number.
pub open spec fn has_size(members: Map<Seq<char>, JsonValue>, n: nat) -> bool {
    members.dom().finite() && members.dom().len() == n
}

impl JsonValue {
    /// The member of an object under a key; `None` for a missing key and for
    /// anything that is no object.
    pub open spec fn member(self, key: Seq<char>) -> Option<JsonValue> {
        match self {
            JsonValue::Object(members) => if members.dom().contains(key) {
                Some(members[key])
            } else {
                None
            },
            _ => None,
        }
    }

    /// The text of a string document.
    pub open spec fn text(self) -> Option<Seq<char>> {
        match self {
            JsonValue::Str(s) => Some(s),
            _ => None,
        }
    }

    /// The items of an array document.
    pub open spec fn items(self) -> Option<Seq<JsonValue>> {
        match self {
            JsonValue::Array(items) => Some(items),
            _ => None,
        }
    }
}

/// `serde_json::from_slice` for a `Value`: whether the bytes are accepted
/// depends on the bytes alone, and so does the document that the value
/// then holds.
#[verifier::external_body]
pub(crate) fn parse_value(bytes: &[u8]) -> (r: Result<serde_json::Value, serde_json::Error>)
    ensures
        match r {
            Ok(v) => json_parse(bytes@) == Some(value_contents(v)),
            Err(_) => json_parse(bytes@) is None,
        },
{
    serde_json::from_slice::<serde_json::Value>(bytes)
}

/// `Value::get` with a string index: the member under `key` if the value is
/// an object that has one.
#[verifier::external_body]
pub(crate) fn value_get<'a>(v: &'a serde_json::Value, key: &str) -> (r: Option<&'a serde_json::Value>)
    ensures
        match r {
            Some(m) => value_contents(*v).member(key@) == Some(value_contents(*m)),
            None => value_contents(*v).member(key@) is None,
        },
{
    v.get(key)
}

/// `Value::as_str`: the text if the value is a string.
pub assume_specification<'a>[ serde_json::Value::as_str ](v: &'a serde_json::Value) -> (r: Option<&'a str>)
    ensures
        match r {
            Some(s) => value_contents(*v).text() == Some(s@),
            None => value_contents(*v).text() is None,
        },
;

/// `Value::as_array`: the items if the value is an array.
pub assume_specification<'a>[ serde_json::Value::as_array ](v: &'a serde_json::Value) -> (r: Option<&'a Vec<serde_json::Value>>)
    ensures
        match r {
            Some(a) => value_contents(*v).items() == Some(values_contents(a@)),
            None => value_contents(*v).items() is None,
        },
;

/// `Value::as_object`: the members if the value is an object.
pub assume_specification<'a>[ serde_json::Value::as_object ](v: &'a serde_json::Value) -> (r: Option<&'a serde_json::Map<String, serde_json::Value>>)
    ensures
        match r {
            Some(m) => value_contents(*v) == JsonValue::Object(map_contents(*m)),
            None => !(value_contents(*v) is Object),
        },
;

/// `Map::len`: the number of members. A map holds finitely many.
#[verifier::external_body]
pub(crate) fn map_len(m: &serde_json::Map<String, serde_json::Value>) -> (n: usize)
    ensures
        has_size(map_contents(*m), n as nat),
{
    m.len()
}

/// `Map::new`: a map without members.
#[verifier::external_body]
pub(crate) fn map_new() -> (r: serde_json::Map<String, serde_json::Value>)
    ensures
        map_contents(r) == no_members(),
{
    serde_json::Map::new()
}

/// `Map::insert`: the member under `key` becomes `value`, whether or not the
/// key was present; the other members stay.
#[verifier::external_body]
pub(crate) fn map_insert(m: &mut serde_json::Map<String, serde_json::Value>, key: String, value: serde_json::Value)
    ensures
        map_contents(*final(m)) == map_contents(*old(m)).insert(key@, value_contents(value)),
{
    m.insert(key, value);
}

/// `Value::from` for a map: the object with the map's members.
#[verifier::external_body]
pub(crate) fn object_value(m: serde_json::Map<String, serde_json::Value>) -> (v: serde_json::Value)
    ensures
        value_contents(v) == JsonValue::Object(map_contents(m)),
{
    serde_json::Value::from(m)
}

/// `Value::from` for a string: the string document with that text.
#[verifier::external_body]
pub(crate) fn string_value(s: String) -> (v: serde_json::Value)
    ensures
        value_contents(v) == JsonValue::Str(s@),
{
    serde_json::Value::from(s)
}

/// `Value::from` for a `u32`: the number document with that value.
#[verifier::external_body]
pub(crate) fn number_value(n: u32) -> (v: serde_json::Value)
    ensures
        value_contents(v) == JsonValue::Number(n as int),
{
    serde_json::Value::from(n)
}

/// `Value::from` for a vector of values: the array of their documents.
#[verifier::external_body]
pub(crate) fn array_value(items: Vec<serde_json::Value>) -> (v: serde_json::Value)
    ensures
        value_contents(v) == JsonValue::Array(values_contents(items@)),
{
    serde_json::Value::from(items)
}

/// `Value::to_string`, the `Display` of a value: its compact JSON text, which
/// depends on the document alone. (The crate is built without its feature
/// `preserve_order`, so that members are written in the order of their keys.)
#[verifier::external_body]
pub(crate) fn value_text(v: &serde_json::Value) -> (s: String)
    ensures
        s@ == json_text(value_contents(*v)),
{
    v.to_string()
}

} // verus!
