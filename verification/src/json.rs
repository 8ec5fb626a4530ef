//! The session document as `serde_json` holds it.
//!
//! Everything in this file that carries `external_body` is believed, not
//! proved: each such function makes one call into `serde_json`,
//! and its contract restates what that call does in terms of [`JsonModel`].
//! The rest of the crate reasons about documents through these contracts
//! only.

use vstd::prelude::*;

verus! {

/// `serde_json::Value`, a JSON value of any shape. Its inside is not
/// looked at; what is known of a value is known through [`json_model`].
#[verifier::external_type_specification]
#[verifier::external_body]
pub struct ExJsonValue(serde_json::Value);

/// `serde_json::Error`, why a text could not be read or a value not be
/// written. It is only carried through.
#[verifier::external_type_specification]
#[verifier::external_body]
pub struct ExJsonError(serde_json::Error);

/// Mathematical content of a JSON value.
pub enum JsonModel {
    /// `null`.
    Null,
    /// `true` or `false`.
    Bool(bool),
    /// A number, by the digits with which it is written out.
    Number(Seq<char>),
    /// A string, by its characters (not its quoted, escaped form).
    Text(Seq<char>),
    /// An array, by its elements in order.
    Array(Seq<JsonModel>),
    /// An object, by its members: each key occurs once.
    Object(Map<Seq<char>, JsonModel>),
}

impl JsonModel {
    /// The members of an object; nothing else has any.
    pub open spec fn members(self) -> Map<Seq<char>, JsonModel> {
        match self {
            JsonModel::Object(members) => members,
            _ => Map::empty(),
        }
    }

    /// What reading `key` yields: the member of that name, and `null` when
    /// there is none or the value is not an object.
    pub open spec fn member(self, key: Seq<char>) -> JsonModel {
        if self.members().contains_key(key) {
            self.members()[key]
        } else {
            JsonModel::Null
        }
    }

    /// The characters of a string; no other value is text.
    pub open spec fn text(self) -> Option<Seq<char>> {
        match self {
            JsonModel::Text(text) => Some(text),
            _ => None,
        }
    }

    /// Whether a member can be written into the value: an object takes it,
    /// and `null` stands for an object without members.
    pub open spec fn accepts_members(self) -> bool {
        self is Object || self is Null
    }

    /// The object that results from writing `value` under `key`: every other
    /// member is kept as it was.
    pub open spec fn with_member(self, key: Seq<char>, value: JsonModel) -> JsonModel {
        JsonModel::Object(self.members().insert(key, value))
    }
}

/// The content of a `serde_json::Value`.
pub uninterp spec fn json_model(value: serde_json::Value) -> JsonModel;

/// What parsing `text` as JSON gives: the content of the value it denotes,
/// or `None` where `serde_json` rejects the text.
pub uninterp spec fn parsed_json(text: Seq<char>) -> Option<JsonModel>;

/// The compact JSON text that `serde_json` writes for a value of the given
/// content, or `None` where it refuses to write one.
pub uninterp spec fn rendered_json(document: JsonModel) -> Option<Seq<char>>;

/// `serde_json::from_str::<Value>`: parsing depends on the text alone; it
/// succeeds exactly on the texts that [`parsed_json`] accepts, and the value
/// has the content that [`parsed_json`] names.
#[verifier::external_body]
pub(crate) fn parse(text: &str) -> (result: Result<serde_json::Value, serde_json::Error>)
    ensures
        match result {
            Ok(value) => parsed_json(text@) == Some(json_model(value)),
            Err(_) => parsed_json(text@) is None,
        },
{
    serde_json::from_str::<serde_json::Value>(text)
}

/// `Error::to_string`, which writes the error as `serde_json` displays it.
/// Nothing is claimed of the text.
#[verifier::external_body]
pub(crate) fn error_text(failure: &serde_json::Error) -> (result: String) {
    failure.to_string()
}

/// `serde_json::to_string` on a `Value`: the text written depends on the
/// value's content alone (members are written in key order, the map behind
/// an object being a `BTreeMap`), and is the one [`rendered_json`] names.
#[verifier::external_body]
pub(crate) fn render(value: &serde_json::Value) -> (result: Result<String, serde_json::Error>)
    ensures
        match result {
            Ok(text) => rendered_json(json_model(*value)) == Some(text@),
            Err(_) => rendered_json(json_model(*value)) is None,
        },
{
    serde_json::to_string(value)
}

/// `Value::Object(Map::new())`: an object without members.
#[verifier::external_body]
pub(crate) fn empty_object() -> (result: serde_json::Value)
    ensures
        json_model(result) == JsonModel::Object(Map::empty()),
{
    serde_json::Value::Object(serde_json::Map::new())
}

/// `Value::is_object`: true for an object and for nothing else.
#[verifier::external_body]
pub(crate) fn is_object(value: &serde_json::Value) -> (result: bool)
    ensures
        result == (json_model(*value) is Object),
{
    value.is_object()
}

/// `Value::is_null`: true for `null` and for nothing else.
#[verifier::external_body]
pub(crate) fn is_null(value: &serde_json::Value) -> (result: bool)
    ensures
        result == (json_model(*value) is Null),
{
    value.is_null()
}

/// `value[key]`, the `Index<&str>` of `Value`: the member of that name in an
/// object, and a `null` where the object has no such member or the value is
/// not an object. It never panics.
#[verifier::external_body]
pub(crate) fn member<'a>(value: &'a serde_json::Value, key: &str) -> (result: &'a serde_json::Value)
    ensures
        json_model(*result) == json_model(*value).member(key@),
{
    &value[key]
}

/// `Value::as_str`: the characters of a string, `None` for any other value.
#[verifier::external_body]
pub(crate) fn as_text<'a>(value: &'a serde_json::Value) -> (result: Option<&'a str>)
    ensures
        match result {
            Some(text) => json_model(*value).text() == Some(text@),
            None => json_model(*value).text() is None,
        },
{
    value.as_str()
}

/// `value[key] = Value::String(text)`, the `IndexMut<&str>` of `Value`: an
/// object gets the member (in place of one of the same name), `null` becomes
/// an object with that one member, and all other members stay. On any other
/// value it panics, which `requires` rules out.
#[verifier::external_body]
pub(crate) fn set_text(value: &mut serde_json::Value, key: &str, text: String)
    requires
        json_model(*old(value)).accepts_members(),
    ensures
        json_model(*final(value)) == json_model(*old(value)).with_member(
            key@,
            JsonModel::Text(text@),
        ),
{
    value[key] = serde_json::Value::String(text);
}

} // verus!
