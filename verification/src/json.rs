//! JSON documents, as `serde_json` reads them.
use vstd::prelude::*;

verus! {

/// A JSON value. A number is told apart from the rest and not looked into.
pub enum Json {
    Null,
    Bool(bool),
    Number,
    Text(Seq<char>),
    List(Seq<Json>),
    Object(Map<Seq<char>, Json>),
}

impl Json {
    /// The member of an object under a name.
    pub open spec fn member(self, name: Seq<char>) -> Option<Json> {
        match self {
            Json::Object(members) => if members.dom().contains(name) {
                Some(members[name])
            } else {
                None
            },
            _ => None,
        }
    }

    /// The text of the member under a name, where the member is a text.
    pub open spec fn text_member(self, name: Seq<char>) -> Option<Seq<char>> {
        match self.member(name) {
            Some(Json::Text(text)) => Some(text),
            _ => None,
        }
    }

    /// The items of the member under a name, where the member is an array.
    pub open spec fn list_member(self, name: Seq<char>) -> Option<Seq<Json>> {
        match self.member(name) {
            Some(Json::List(items)) => Some(items),
            _ => None,
        }
    }
}

/// `serde_json::Value`: a JSON value as `serde_json` holds it.
#[verifier::external_type_specification]
#[verifier::external_body]
pub struct ExValue(serde_json::Value);

/// What a `serde_json::Value` holds.
pub uninterp spec fn held(value: serde_json::Value) -> Json;

/// What `serde_json::from_str` makes of a document: the value, or the text of
/// its error where the document is not JSON.
pub uninterp spec fn read(document: Seq<char>) -> Result<Json, Seq<char>>;

/// Calls `serde_json::from_str`. The result rests on the document alone, and
/// `read` names it; the error comes as the text that it displays as.
#[verifier::external_body]
pub(crate) fn from_str(document: &str) -> (value: Result<serde_json::Value, String>)
    ensures
        match value {
            Ok(value) => read(document@) == Ok::<Json, Seq<char>>(held(value)),
            Err(failure) => read(document@) == Err::<Json, Seq<char>>(failure@),
        },
{
    match serde_json::from_str(document) {
        Ok(value) => Ok(value),
        Err(failure) => Err(failure.to_string()),
    }
}

/// Calls `serde_json::Value::get` with a name: the member of an object under
/// that name, and nothing where there is none or the value is no object.
#[verifier::external_body]
pub(crate) fn get<'a>(value: &'a serde_json::Value, name: &str) -> (member: Option<
    &'a serde_json::Value,
>)
    ensures
        match member {
            Some(member) => held(*value).member(name@) == Some(held(*member)),
            None => held(*value).member(name@) is None,
        },
{
    value.get(name)
}

/// Calls `serde_json::Value::as_str`: the text of a JSON string, and nothing
/// for any other value.
#[verifier::external_body]
pub(crate) fn as_str<'a>(value: &'a serde_json::Value) -> (text: Option<&'a str>)
    ensures
        match text {
            Some(text) => held(*value) == Json::Text(text@),
            None => !(held(*value) is Text),
        },
{
    value.as_str()
}

/// Calls `serde_json::Value::as_array`: the items of a JSON array in their
/// order, and nothing for any other value.
#[verifier::external_body]
pub(crate) fn as_array<'a>(value: &'a serde_json::Value) -> (items: Option<
    &'a Vec<serde_json::Value>,
>)
    ensures
        match items {
            Some(items) => held(*value) == Json::List(
                items@.map_values(|item: serde_json::Value| held(item)),
            ),
            None => !(held(*value) is List),
        },
{
    value.as_array()
}

/// A copy of the text under a name.
pub(crate) fn text_member(value: &serde_json::Value, name: &str) -> (text: Option<String>)
    ensures
        crate::text::chars(text) == held(*value).text_member(name@),
{
    match get(value, name) {
        Some(member) => match as_str(member) {
            Some(text) => Some(text.to_string()),
            None => None,
        },
        None => None,
    }
}

} // verus!
