//! JSON values as `serde_json` holds them, and what this library states of
//! them.
//!
//! A `serde_json::Value` is opaque to the verifier. Its meaning is given by
//! [`json_view`], a tree of plain values, and every function below says what
//! it does in terms of that tree. Nothing in this module is proved: each item
//! states what the `serde_json` function it names is documented to do.

use vstd::prelude::*;

verus! {

#[verifier::external_type_specification]
#[verifier::external_body]
pub struct ExValue(serde_json::Value);

#[verifier::external_type_specification]
#[verifier::external_body]
pub struct ExError(serde_json::Error);

/// What a JSON value stands for.
pub enum JsonModel {
    Null,
    Bool(bool),
    /// A whole number.
    Integer(int),
    /// A number with a fraction or an exponent, by its decimal text.
    Decimal(Seq<char>),
    Text(Seq<char>),
    List(Seq<JsonModel>),
    /// An object, from member name to member.
    Object(Map<Seq<char>, JsonModel>),
}

/// The members of the object that has none.
pub open spec fn empty_object() -> Map<Seq<char>, JsonModel> {
    Map::<Seq<char>, JsonModel>::empty()
}

/// What a value holds.
pub uninterp spec fn json_view(value: serde_json::Value) -> JsonModel;

/// What parsing a text gives: what the parsed value holds, or the message of
/// the parse error.
pub uninterp spec fn json_parse(text: Seq<char>) -> Result<JsonModel, Seq<char>>;

/// What writing a value on one line gives: the text, or the message of the
/// error.
pub uninterp spec fn json_compact(value: serde_json::Value) -> Result<Seq<char>, Seq<char>>;

/// What writing a value indented gives: the text, or the message of the
/// error.
pub uninterp spec fn json_pretty(value: serde_json::Value) -> Result<Seq<char>, Seq<char>>;

/// The message that an error displays.
pub uninterp spec fn json_error_text(error: serde_json::Error) -> Seq<char>;

/// `serde_json::from_str` for a `Value`: the parsed value, or the error.
/// The outcome depends on the text alone.
#[verifier::external_body]
pub(crate) fn parse_json(text: &str) -> (parsed: Result<serde_json::Value, serde_json::Error>)
    ensures
        match parsed {
            Ok(value) => json_parse(text@) == Ok::<JsonModel, Seq<char>>(json_view(value)),
            Err(error) => json_parse(text@) == Err::<JsonModel, Seq<char>>(json_error_text(error)),
        },
{
    serde_json::from_str::<serde_json::Value>(text)
}

/// `serde_json::to_string`: the value as JSON text on one line, or the
/// error. The outcome depends on the value alone.
#[verifier::external_body]
pub(crate) fn compact_json(value: &serde_json::Value) -> (written: Result<
    String,
    serde_json::Error,
>)
    ensures
        match written {
            Ok(text) => json_compact(*value) == Ok::<Seq<char>, Seq<char>>(text@),
            Err(error) => json_compact(*value) == Err::<Seq<char>, Seq<char>>(
                json_error_text(error),
            ),
        },
{
    serde_json::to_string(value)
}

/// `serde_json::to_string_pretty`: the value as indented JSON text, or the
/// error. The outcome depends on the value alone.
#[verifier::external_body]
pub(crate) fn pretty_json(value: &serde_json::Value) -> (written: Result<
    String,
    serde_json::Error,
>)
    ensures
        match written {
            Ok(text) => json_pretty(*value) == Ok::<Seq<char>, Seq<char>>(text@),
            Err(error) => json_pretty(*value) == Err::<Seq<char>, Seq<char>>(
                json_error_text(error),
            ),
        },
{
    serde_json::to_string_pretty(value)
}

/// The `Display` text of a `serde_json::Error`.
#[verifier::external_body]
pub(crate) fn error_text(error: &serde_json::Error) -> (text: String)
    ensures
        text@ == json_error_text(*error),
{
    error.to_string()
}

/// The variant `Value::Null`.
#[verifier::external_body]
pub(crate) fn json_null() -> (value: serde_json::Value)
    ensures
        json_view(value) == JsonModel::Null,
{
    serde_json::Value::Null
}

/// `Value::from` on a `bool`: the JSON boolean.
#[verifier::external_body]
pub(crate) fn json_bool(flag: bool) -> (value: serde_json::Value)
    ensures
        json_view(value) == JsonModel::Bool(flag),
{
    serde_json::Value::from(flag)
}

/// `Value::from` on a `&str`: the JSON string with the same characters.
#[verifier::external_body]
pub(crate) fn json_text(text: &str) -> (value: serde_json::Value)
    ensures
        json_view(value) == JsonModel::Text(text@),
{
    serde_json::Value::from(text)
}

/// `Value::from` on a `u64`: the JSON number with that value.
#[verifier::external_body]
pub(crate) fn json_u64(number: u64) -> (value: serde_json::Value)
    ensures
        json_view(value) == JsonModel::Integer(number as int),
{
    serde_json::Value::from(number)
}

/// `Value::Object` of `Map::new()`: the object without members.
#[verifier::external_body]
pub(crate) fn json_empty_object() -> (value: serde_json::Value)
    ensures
        json_view(value) == JsonModel::Object(empty_object()),
{
    serde_json::Value::Object(serde_json::Map::new())
}

/// `Map::insert` on the map that `Value::as_object_mut` hands out: the
/// member is added to an object, in place of one of the same name, and
/// a value that is no object is left as it is.
#[verifier::external_body]
pub(crate) fn json_object_insert(object: &mut serde_json::Value, name: &str, member: serde_json::Value)
    ensures
        json_view(*final(object)) == match json_view(*old(object)) {
            JsonModel::Object(members) => JsonModel::Object(
                members.insert(name@, json_view(member)),
            ),
            other => other,
        },
{
    if let Some(members) = object.as_object_mut() {
        members.insert(name.to_owned(), member);
    }
}

/// `Value::get` with a member name: the member of that name, if the value
/// is an object and has one.
#[verifier::external_body]
pub(crate) fn json_member<'a>(object: &'a serde_json::Value, name: &str) -> (member: Option<
    &'a serde_json::Value,
>)
    ensures
        match json_view(*object) {
            JsonModel::Object(members) if members.contains_key(name@) => member matches Some(
                found,
            ) && json_view(*found) == members[name@],
            _ => member is None,
        },
{
    object.get(name)
}

/// `Value::is_object`: whether the value is an object.
pub assume_specification[ serde_json::Value::is_object ](value: &serde_json::Value) -> (yes: bool)
    ensures
        yes == (json_view(*value) is Object),
;

/// `Value::as_bool`: the boolean that the value is, if it is one.
pub assume_specification[ serde_json::Value::as_bool ](value: &serde_json::Value) -> (flag: Option<
    bool,
>)
    ensures
        flag == match json_view(*value) {
            JsonModel::Bool(held) => Some(held),
            _ => None,
        },
;

} // verus!
