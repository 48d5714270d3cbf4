//! JSON documents, as `serde_json` reads and writes them.
//!
//! The library never looks inside a value of `serde_json` itself. It asks
//! `serde_json` through the functions of this module, and reasons about the
//! answers over [`Json`], a mathematical picture of what a value holds. The
//! contracts of the functions marked `external_body` are taken on trust: each
//! restates what `serde_json` documents for the one call in its body.

use serde_json::Value;
use vstd::prelude::*;

verus! {

#[verifier::external_type_specification]
#[verifier::external_body]
pub struct ExValue(serde_json::Value);

#[verifier::external_type_specification]
#[verifier::external_body]
#[verifier::reject_recursive_types(K)]
#[verifier::reject_recursive_types(V)]
pub struct ExMembers<K, V>(serde_json::Map<K, V>);

#[verifier::external_type_specification]
#[verifier::external_body]
pub struct ExError(serde_json::Error);

/// What a JSON value holds, as far as this library looks into one.
pub enum Json {
    /// A number that is held as an integer: one written without a fraction
    /// or an exponent, and small enough for 64 bits.
    Integer(int),
    /// A string.
    Text(Seq<char>),
    /// An object, by the names of its members.
    Object(Map<Seq<char>, Json>),
    /// Anything else: `null`, a boolean, an array, any other number.
    Other,
}

/// What `value` holds.
pub uninterp spec fn document(value: serde_json::Value) -> Json;

/// The members that `members` holds, by name.
pub uninterp spec fn members_of(members: serde_json::Map<String, serde_json::Value>) -> Map<Seq<char>, Json>;

/// The document that `text` is read as, or `None` where `text` is not the
/// JSON text of exactly one value.
pub uninterp spec fn parsed(text: Seq<char>) -> Option<Json>;

/// The compact JSON text that is written for `doc`.
pub uninterp spec fn rendered(doc: Json) -> Seq<char>;

/// An object whose members are all integers or strings. Such a document
/// determines the value that holds it, and so the text written for it.
pub open spec fn is_flat_object(doc: Json) -> bool {
    doc matches Json::Object(members) && members.dom().finite() && forall|name: Seq<char>|
        #[trigger] members.contains_key(name) ==> members[name] is Integer
            || members[name] is Text
}

/// The member called `name`, if there is one.
pub open spec fn member_of(members: Map<Seq<char>, Json>, name: Seq<char>) -> Option<Json> {
    if members.contains_key(name) {
        Some(members[name])
    } else {
        None
    }
}

/// Whether there are exactly `n` members.
pub open spec fn has_count(members: Map<Seq<char>, Json>, n: nat) -> bool {
    members.dom().finite() && members.dom().len() == n
}

/// The members of `doc`, if it is an object.
pub open spec fn object_of(doc: Json) -> Option<Map<Seq<char>, Json>> {
    match doc {
        Json::Object(members) => Some(members),
        _ => None,
    }
}

/// The integer that `doc` is, if it is one that fits in an `i64`.
pub open spec fn integer_of(doc: Json) -> Option<i64> {
    match doc {
        Json::Integer(n) => if i64::MIN <= n <= i64::MAX {
            Some(n as i64)
        } else {
            None
        },
        _ => None,
    }
}

/// The string that `doc` is, if it is one.
pub open spec fn text_of(doc: Json) -> Option<Seq<char>> {
    match doc {
        Json::Text(s) => Some(s),
        _ => None,
    }
}

/// Calls `serde_json::from_str` to read `text` as one `Value`. Trusted: the
/// outcome depends on `text` alone, so it is given the name [`parsed`]; an
/// error stands for a text that is not JSON (or is nested too deeply, or
/// has anything but white space after the value).
#[verifier::external_body]
pub(crate) fn parse(text: &str) -> (r: Result<Value, serde_json::Error>)
    ensures
        match r {
            Ok(value) => parsed(text@) == Some(document(value)),
            Err(_) => parsed(text@) is None,
        },
{
    serde_json::from_str::<Value>(text)
}

/// Calls `Value::as_object`. Trusted: it returns the members where the
/// value is an object, and `None` for every other value.
#[verifier::external_body]
pub(crate) fn as_object<'a>(value: &'a Value) -> (r: Option<&'a serde_json::Map<String, Value>>)
    ensures
        match r {
            Some(members) => object_of(document(*value)) == Some(members_of(*members)),
            None => object_of(document(*value)) is None,
        },
{
    value.as_object()
}

/// Calls `Map::len`. Trusted: it returns the number of members, of which
/// no two have the same name.
#[verifier::external_body]
pub(crate) fn count(members: &serde_json::Map<String, Value>) -> (n: usize)
    ensures
        has_count(members_of(*members), n as nat),
{
    members.len()
}

/// Calls `Map::get`. Trusted: it returns the member of that name, and
/// `None` where there is none.
#[verifier::external_body]
pub(crate) fn member<'a>(members: &'a serde_json::Map<String, Value>, name: &str) -> (r: Option<
    &'a Value,
>)
    ensures
        match r {
            Some(found) => member_of(members_of(*members), name@) == Some(document(*found)),
            None => member_of(members_of(*members), name@) is None,
        },
{
    members.get(name)
}

/// Calls `Value::as_i64`. Trusted: it returns the number where the value is
/// an integer between `i64::MIN` and `i64::MAX`, and `None` otherwise: for
/// a larger integer, for a number with a fraction or an exponent, and for
/// every value that is not a number.
#[verifier::external_body]
pub(crate) fn as_integer(value: &Value) -> (r: Option<i64>)
    ensures
        r == integer_of(document(*value)),
{
    value.as_i64()
}

/// Calls `Value::as_str`. Trusted: it returns the string where the value is
/// one, and `None` otherwise.
#[verifier::external_body]
pub(crate) fn as_text<'a>(value: &'a Value) -> (r: Option<&'a str>)
    ensures
        match r {
            Some(s) => text_of(document(*value)) == Some(s@),
            None => text_of(document(*value)) is None,
        },
{
    value.as_str()
}

/// Calls `Map::new`. Trusted: the new map has no members.
#[verifier::external_body]
pub(crate) fn no_members() -> (members: serde_json::Map<String, Value>)
    ensures
        members_of(members) == (Map::<Seq<char>, Json>::empty()),
{
    serde_json::Map::new()
}

/// Calls `Map::insert`, and drops the member that it replaced, if any.
/// Trusted: afterwards the map has `member` under `name`, and its other
/// members as before.
#[verifier::external_body]
pub(crate) fn insert(members: &mut serde_json::Map<String, Value>, name: &str, member: Value)
    ensures
        members_of(*final(members)) == members_of(*old(members)).insert(name@, document(member)),
{
    members.insert(name.to_owned(), member);
}

/// Calls `Value::from` on a map. Trusted: the value is the object with
/// those members.
#[verifier::external_body]
pub(crate) fn object_value(members: serde_json::Map<String, Value>) -> (value: Value)
    ensures
        document(value) == Json::Object(members_of(members)),
{
    Value::from(members)
}

/// Calls `Value::from` on an `i64`. Trusted: the value is that integer.
#[verifier::external_body]
pub(crate) fn integer_value(n: i64) -> (value: Value)
    ensures
        document(value) == Json::Integer(n as int),
{
    Value::from(n)
}

/// Calls `Value::from` on a `&str`. Trusted: the value is a string with the
/// same characters.
#[verifier::external_body]
pub(crate) fn text_value(s: &str) -> (value: Value)
    ensures
        document(value) == Json::Text(s@),
{
    Value::from(s)
}

/// Calls `to_string` on a `Value`, which goes through the `Display` that
/// `serde_json` gives it and writes the value in compact form, the members
/// of an object in the order of their names. Trusted: for an object of
/// integers and strings the text depends on the document alone, so it is
/// given the name [`rendered`]. Of other values nothing is claimed.
#[verifier::external_body]
pub(crate) fn render(value: &Value) -> (r: String)
    ensures
        is_flat_object(document(*value)) ==> r@ == rendered(document(*value)),
{
    value.to_string()
}

} // verus!
