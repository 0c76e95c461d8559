//! The JSON documents that the plug sends, as `serde_json` holds them, and the
//! mathematical model through which the rest of the crate reasons about them.
use vstd::prelude::*;

verus! {

/// Trusted: `serde_json::Value`, a JSON document. The verifier sees nothing
/// inside it; what it holds is named by [`json_tree`].
#[verifier::external_type_specification]
#[verifier::external_body]
pub struct ExValue(serde_json::Value);

/// Trusted: `serde_json::Error`, the reason why a text is no JSON document.
/// It is carried to the caller and never looked into.
#[verifier::external_type_specification]
#[verifier::external_body]
pub struct ExJsonError(serde_json::Error);

/// A JSON number: an integer, or a number written with a fraction or an
/// exponent.
pub enum JsonNumber {
    /// An integer between `i64::MIN` and `u64::MAX`.
    Integer(int),
    /// Any other number; the payload is the bit pattern of the double that
    /// holds it.
    Real(nat),
}

/// A JSON document as a mathematical value.
pub enum JsonTree {
    Null,
    Bool(bool),
    Number(JsonNumber),
    Text(Seq<char>),
    Array(Seq<JsonTree>),
    Object(Map<Seq<char>, JsonTree>),
}

/// The document that a `serde_json::Value` holds.
pub uninterp spec fn json_tree(value: serde_json::Value) -> JsonTree;

/// What `serde_json` reads from a text: the document, or `None` where the text
/// is not one JSON document.
pub uninterp spec fn parsed_json(text: Seq<char>) -> Option<JsonTree>;

/// The member of an object under `key`; `None` where `tree` is no object or has
/// no such member.
pub open spec fn member(tree: JsonTree, key: Seq<char>) -> Option<JsonTree> {
    match tree {
        JsonTree::Object(members) => if members.contains_key(key) {
            Some(members[key])
        } else {
            None
        },
        _ => None,
    }
}

/// The document as a signed 64-bit integer, where it is an integer in that
/// range.
pub open spec fn as_signed(tree: JsonTree) -> Option<i64> {
    match tree {
        JsonTree::Number(JsonNumber::Integer(n)) => if i64::MIN <= n <= i64::MAX {
            Some(n as i64)
        } else {
            None
        },
        _ => None,
    }
}

/// The document as an unsigned 64-bit integer, where it is an integer in that
/// range.
pub open spec fn as_unsigned(tree: JsonTree) -> Option<u64> {
    match tree {
        JsonTree::Number(JsonNumber::Integer(n)) => if 0 <= n <= u64::MAX {
            Some(n as u64)
        } else {
            None
        },
        _ => None,
    }
}

/// The document as a string, where it is one.
pub open spec fn as_text(tree: JsonTree) -> Option<Seq<char>> {
    match tree {
        JsonTree::Text(text) => Some(text),
        _ => None,
    }
}

/// Trusted: `serde_json::from_str::<Value>`. The result is determined by the
/// text alone: it is `Ok` with the document that [`parsed_json`] names, or
/// `Err` exactly where [`parsed_json`] is `None`.
#[verifier::external_body]
pub(crate) fn parse_json(text: &str) -> (r: Result<serde_json::Value, serde_json::Error>)
    ensures
        match r {
            Ok(value) => parsed_json(text@) == Some(json_tree(value)),
            Err(_) => parsed_json(text@) is None,
        },
{
    serde_json::from_str::<serde_json::Value>(text)
}

/// Trusted: `serde_json::Value::get` with a string index. It returns the
/// member under `key` where the value is an object that has one, and `None`
/// for every other value and for a missing key.
#[verifier::external_body]
pub(crate) fn value_member<'a>(value: &'a serde_json::Value, key: &str) -> (r: Option<
    &'a serde_json::Value,
>)
    ensures
        match r {
            Some(found) => member(json_tree(*value), key@) == Some(json_tree(*found)),
            None => member(json_tree(*value), key@) is None,
        },
{
    value.get(key)
}

/// The object `tree` with the member under `key` set to `item`.
pub open spec fn with_member(tree: JsonTree, key: Seq<char>, item: JsonTree) -> JsonTree {
    match tree {
        JsonTree::Object(members) => JsonTree::Object(members.insert(key, item)),
        _ => tree,
    }
}

/// Trusted: assignment through `serde_json::Value`'s index operator with a
/// string index. On an object it sets the member under `key` to `item`, adding
/// the member if there was none, and leaves every other member as it was. The
/// operator panics on a value that is neither an object nor null, hence the
/// `requires`.
#[verifier::external_body]
pub(crate) fn set_member(object: &mut serde_json::Value, key: &str, item: serde_json::Value)
    requires
        json_tree(*old(object)) is Object,
    ensures
        json_tree(*final(object)) == with_member(json_tree(*old(object)), key@, json_tree(item)),
{
    object[key] = item;
}

/// Trusted: `serde_json::Value::as_i64` returns the integer that the value
/// holds if it fits `i64`, and `None` for a larger integer, a number with a
/// fraction and every value that is no number.
pub assume_specification[ serde_json::Value::as_i64 ](value: &serde_json::Value) -> (r: Option<i64>)
    ensures
        r == as_signed(json_tree(*value)),
;

/// Trusted: `serde_json::Value::as_u64` returns the integer that the value
/// holds if it is not negative, and `None` for a negative integer, a number
/// with a fraction and every value that is no number.
pub assume_specification[ serde_json::Value::as_u64 ](value: &serde_json::Value) -> (r: Option<u64>)
    ensures
        r == as_unsigned(json_tree(*value)),
;

/// Trusted: `serde_json::Value::as_str` returns the text of a JSON string and
/// `None` for every other value.
pub assume_specification<'a>[ serde_json::Value::as_str ](value: &'a serde_json::Value) -> (r:
    Option<&'a str>)
    ensures
        match r {
            Some(text) => as_text(json_tree(*value)) == Some(text@),
            None => as_text(json_tree(*value)) is None,
        },
;

/// Trusted: `serde_json::Value::is_array` tells whether the value is a JSON
/// array.
pub assume_specification[ serde_json::Value::is_array ](value: &serde_json::Value) -> (r: bool)
    ensures
        r == (json_tree(*value) is Array),
;

/// Trusted: `Clone` for `serde_json::Value` yields a value that holds the same
/// document.
pub assume_specification[ <serde_json::Value as Clone>::clone ](value: &serde_json::Value) -> (r:
    serde_json::Value)
    ensures
        json_tree(r) == json_tree(*value),
;

} // verus!
