//! What this crate takes on trust about `serde_json`: parsing a text into a
//! value, and looking into a value.
//!
//! A `serde_json::Value` is opaque to the verifier. Its content is modelled by
//! a `JsonModel`, and each accessor below says over that model what the
//! accessor of `serde_json` returns.

use vstd::prelude::*;

verus! {

#[verifier::external_type_specification]
#[verifier::external_body]
pub struct ExValue(serde_json::Value);

#[verifier::external_type_specification]
#[verifier::external_body]
pub struct ExJsonError(serde_json::Error);

/// A JSON value. Of a number, the model keeps what `as_u64` and `as_i64` tell
/// of it. The members of an object stand in the order in which the object
/// hands them out.
pub enum JsonModel {
    Null,
    Bool(bool),
    Number { unsigned: Option<u64>, signed: Option<i64> },
    Text(Seq<char>),
    Array(Seq<JsonModel>),
    Object(Seq<(Seq<char>, JsonModel)>),
}

/// What a `serde_json::Value` holds.
pub uninterp spec fn shape(value: serde_json::Value) -> JsonModel;

/// What `serde_json::from_str` makes of a text: the value that it parses to,
/// or nothing where the text is not one JSON value.
pub uninterp spec fn parsed(text: Seq<char>) -> Option<JsonModel>;

/// The first member called `name` at or after place `from`.
pub open spec fn first_named(
    members: Seq<(Seq<char>, JsonModel)>,
    name: Seq<char>,
    from: int,
) -> Option<JsonModel>
    decreases members.len() - from,
{
    if from < 0 || from >= members.len() {
        None
    } else if members[from].0 == name {
        Some(members[from].1)
    } else {
        first_named(members, name, from + 1)
    }
}

/// The member called `name` of an object; nothing for any other value.
pub open spec fn field_of(value: JsonModel, name: Seq<char>) -> Option<JsonModel> {
    match value {
        JsonModel::Object(members) => first_named(members, name, 0),
        _ => None,
    }
}

/// `serde_json::from_str` for a `Value`: succeeds exactly on the texts that
/// are one JSON value, and gives that value.
#[verifier::external_body]
pub(crate) fn parse_value(text: &str) -> (r: Result<serde_json::Value, serde_json::Error>)
    ensures
        r is Ok <==> parsed(text@) is Some,
        r is Ok ==> Some(shape(r->Ok_0)) == parsed(text@),
{
    serde_json::from_str::<serde_json::Value>(text)
}

/// `Value::get` with a string index: the member of that name of an object.
#[verifier::external_body]
pub(crate) fn member<'a>(value: &'a serde_json::Value, name: &str) -> (r: Option<
    &'a serde_json::Value,
>)
    ensures
        r is Some <==> field_of(shape(*value), name@) is Some,
        r is Some ==> Some(shape(*r->Some_0)) == field_of(shape(*value), name@),
{
    value.get(name)
}

/// `Value::is_null`.
#[verifier::external_body]
pub(crate) fn is_null(value: &serde_json::Value) -> (r: bool)
    ensures
        r == (shape(*value) is Null),
{
    value.is_null()
}

/// `Value::as_bool`: the boolean that the value is.
#[verifier::external_body]
pub(crate) fn as_bool(value: &serde_json::Value) -> (r: Option<bool>)
    ensures
        r == (match shape(*value) {
            JsonModel::Bool(b) => Some(b),
            _ => None,
        }),
{
    value.as_bool()
}

/// `Value::as_u64`: the number, where it is a whole number from 0 to the
/// largest `u64`.
#[verifier::external_body]
pub(crate) fn as_u64(value: &serde_json::Value) -> (r: Option<u64>)
    ensures
        r == (match shape(*value) {
            JsonModel::Number { unsigned, .. } => unsigned,
            _ => None,
        }),
{
    value.as_u64()
}

/// `Value::as_i64`: the number, where it is a whole number in the range of
/// `i64`.
#[verifier::external_body]
pub(crate) fn as_i64(value: &serde_json::Value) -> (r: Option<i64>)
    ensures
        r == (match shape(*value) {
            JsonModel::Number { signed, .. } => signed,
            _ => None,
        }),
{
    value.as_i64()
}

/// `Value::as_str`: the text that the value is.
#[verifier::external_body]
pub(crate) fn as_text<'a>(value: &'a serde_json::Value) -> (r: Option<&'a str>)
    ensures
        r is Some <==> shape(*value) is Text,
        r is Some ==> r->Some_0@ == shape(*value)->Text_0,
{
    value.as_str()
}

/// `Value::as_array`: the items of an array.
#[verifier::external_body]
pub(crate) fn as_items<'a>(value: &'a serde_json::Value) -> (r: Option<&'a Vec<serde_json::Value>>)
    ensures
        r is Some <==> shape(*value) is Array,
        r is Some ==> r->Some_0@.len() == shape(*value)->Array_0.len(),
        r is Some ==> forall|i: int|
            0 <= i < r->Some_0@.len() ==> shape(#[trigger] r->Some_0@[i]) == shape(
                *value,
            )->Array_0[i],
{
    value.as_array()
}

/// `Value::as_object` and `Map::iter`: the members of an object, each with
/// its name, in the order in which the object hands them out.
#[verifier::external_body]
pub(crate) fn as_members<'a>(value: &'a serde_json::Value) -> (r: Option<
    Vec<(&'a String, &'a serde_json::Value)>,
>)
    ensures
        r is Some <==> shape(*value) is Object,
        r is Some ==> r->Some_0@.len() == shape(*value)->Object_0.len(),
        r is Some ==> forall|i: int|
            0 <= i < r->Some_0@.len() ==> (#[trigger] r->Some_0@[i]).0@ == shape(
                *value,
            )->Object_0[i].0 && shape(*r->Some_0@[i].1) == shape(*value)->Object_0[i].1,
{
    match value.as_object() {
        Some(members) => Some(members.iter().collect()),
        None => None,
    }
}

} // verus!
