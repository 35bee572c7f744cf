//! JSON objects, as `serde_json` holds them, and what they hold.

use vstd::prelude::*;

use crate::text::texts;

verus! {

/// A JSON object.
pub type Object = serde_json::Map<String, serde_json::Value>;

/// `serde_json::Value`, carried inside objects only.
#[verifier::external_type_specification]
#[verifier::external_body]
pub struct ExValue(serde_json::Value);

/// `serde_json::Map`.
#[verifier::external_type_specification]
#[verifier::external_body]
#[verifier::reject_recursive_types(K)]
#[verifier::reject_recursive_types(V)]
pub struct ExMap<K, V>(serde_json::Map<K, V>);

/// A JSON value. A number is given by the bit pattern of the double that
/// `serde_json::Value::as_f64` reads it as.
pub enum Json {
    Null,
    Bool(bool),
    Number(u64),
    Text(Seq<char>),
    Array(Seq<Json>),
    Object(Map<Seq<char>, Json>),
}

/// The contents of a JSON object: each key with its value.
pub type Entries = Map<Seq<char>, Json>;

/// What an object holds.
pub uninterp spec fn entries(object: serde_json::Map<String, serde_json::Value>) -> Entries;

/// A value to be put into an object.
pub enum Field {
    Text(String),
    Texts(Vec<String>),
    Object(Object),
}

impl View for Field {
    type V = Json;

    open spec fn view(&self) -> Json {
        match *self {
            Field::Text(text) => Json::Text(text@),
            Field::Texts(list) => Json::Array(texts(list@).map_values(|t: Seq<char>| Json::Text(t))),
            Field::Object(object) => Json::Object(entries(object)),
        }
    }
}

/// An object without entries: `serde_json::Map::new` gives an empty map.
#[verifier::external_body]
pub(crate) fn empty_object() -> (object: Object)
    ensures
        entries(object) == Entries::empty(),
{
    serde_json::Map::new()
}

/// Puts `field` under `key`: `serde_json::Map::insert` keeps every other entry
/// and replaces the one that stood under the key, if there was one. The field
/// becomes a JSON string, a JSON array of strings or a JSON object.
#[verifier::external_body]
pub(crate) fn insert(object: &mut Object, key: String, field: Field)
    ensures
        entries(*final(object)) == entries(*old(object)).insert(key@, field@),
{
    let value = match field {
        Field::Text(text) => serde_json::Value::String(text),
        Field::Texts(list) => serde_json::Value::from(list),
        Field::Object(inner) => serde_json::Value::Object(inner),
    };
    object.insert(key, value);
}

/// The text under `key`: `serde_json::Value::as_str`, applied to what
/// `serde_json::Map::get` finds, gives the string if the entry is one and
/// nothing otherwise.
#[verifier::external_body]
pub(crate) fn text_under(object: &Object, key: &str) -> (text: Option<String>)
    ensures
        match text {
            Some(found) => entries(*object).contains_key(key@) && entries(*object)[key@]
                == Json::Text(found@),
            None => !(entries(*object).contains_key(key@) && entries(*object)[key@] is Text),
        },
{
    object.get(key)?.as_str().map(str::to_owned)
}

/// The number under `key`, as the bit pattern of a double:
/// `serde_json::Value::as_f64`, applied to what `serde_json::Map::get` finds,
/// gives the number if the entry is one and nothing otherwise.
#[verifier::external_body]
pub(crate) fn number_under(object: &Object, key: &str) -> (bits: Option<u64>)
    ensures
        match bits {
            Some(found) => entries(*object).contains_key(key@) && entries(*object)[key@]
                == Json::Number(found),
            None => !(entries(*object).contains_key(key@) && entries(*object)[key@] is Number),
        },
{
    match object.get(key)?.as_f64() {
        Some(number) => Some(number.to_bits()),
        None => None,
    }
}

} // verus!
