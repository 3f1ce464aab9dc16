//! JSON values of `serde_json`, and what they hold.

use vstd::prelude::*;

verus! {

/// What a JSON value holds.
///
/// A number is `Unsigned` when it is an integer that fits in `u64`; any other
/// number stands for its JSON text.
pub enum Json {
    Null,
    Bool(bool),
    Unsigned(u64),
    OtherNumber(Seq<char>),
    Text(Seq<char>),
    Array(Seq<Json>),
    Object(Map<Seq<char>, Json>),
}

impl Json {
    /// The member of an object under `key`; `None` where there is no such
    /// member, or where the value is no object.
    pub open spec fn member(self, key: Seq<char>) -> Option<Json> {
        match self {
            Json::Object(m) => if m.contains_key(key) {
                Some(m[key])
            } else {
                None
            },
            _ => None,
        }
    }

    /// The members of an object; `null` counts as an object without any.
    pub open spec fn members(self) -> Map<Seq<char>, Json> {
        match self {
            Json::Object(m) => m,
            _ => Map::empty(),
        }
    }

    /// A text, or `null` where there is none.
    pub open spec fn text_or_null(text: Option<Seq<char>>) -> Json {
        match text {
            Some(s) => Json::Text(s),
            None => Json::Null,
        }
    }

    /// The array of these numbers.
    pub open spec fn numbers(ns: Seq<u32>) -> Json {
        Json::Array(Seq::new(ns.len(), |i: int| Json::Unsigned(ns[i] as u64)))
    }
}

#[verifier::external_type_specification]
#[verifier::external_body]
pub struct ExValue(serde_json::Value);

#[verifier::external_type_specification]
#[verifier::external_body]
pub struct ExJsonError(serde_json::Error);

/// What a `serde_json::Value` holds: its contents, as a tree of plain values.
pub uninterp spec fn json_tree(v: serde_json::Value) -> Json;

/// The text that a `serde_json::Error` displays.
pub uninterp spec fn json_error_message(e: serde_json::Error) -> Seq<char>;

/// What `serde_json::from_slice::<Value>` makes of `bytes`: the value's
/// contents, or the text of the error.
pub uninterp spec fn json_parse(bytes: Seq<u8>) -> Result<Json, Seq<char>>;

/// The bytes that `serde_json::to_vec` writes for a value with these contents.
pub uninterp spec fn json_encode(tree: Json) -> Seq<u8>;

/// Calls `serde_json::from_slice::<Value>`. The outcome depends on the bytes
/// alone: the contents of the value, or the text of the error.
#[verifier::external_body]
pub(crate) fn value_from_slice(bytes: &[u8]) -> (r: Result<serde_json::Value, serde_json::Error>)
    ensures
        match r {
            Ok(v) => json_parse(bytes@) == Ok::<Json, Seq<char>>(json_tree(v)),
            Err(e) => json_parse(bytes@) == Err::<Json, Seq<char>>(json_error_message(e)),
        },
{
    serde_json::from_slice(bytes)
}

/// Calls `serde_json::Value::get` with a string key: the member under that key
/// where the value is an object that has one, `None` otherwise.
#[verifier::external_body]
pub(crate) fn value_get<'a>(v: &'a serde_json::Value, key: &str) -> (r: Option<&'a serde_json::Value>)
    ensures
        match r {
            Some(m) => json_tree(*v).member(key@) == Some(json_tree(*m)),
            None => json_tree(*v).member(key@) is None,
        },
{
    v.get(key)
}

/// Calls `serde_json::Value::is_null`: whether the value is `null`.
#[verifier::external_body]
pub(crate) fn value_is_null(v: &serde_json::Value) -> (r: bool)
    ensures
        r == (json_tree(*v) is Null),
{
    v.is_null()
}

/// Calls `serde_json::Value::as_u64`: the number, where the value is an
/// integer that fits in `u64`.
#[verifier::external_body]
pub(crate) fn value_as_u64(v: &serde_json::Value) -> (r: Option<u64>)
    ensures
        r == (match json_tree(*v) {
            Json::Unsigned(n) => Some(n),
            _ => None,
        }),
{
    v.as_u64()
}

/// Calls `serde_json::Value::as_bool`: the truth value, where the value is
/// one.
#[verifier::external_body]
pub(crate) fn value_as_bool(v: &serde_json::Value) -> (r: Option<bool>)
    ensures
        r == (match json_tree(*v) {
            Json::Bool(b) => Some(b),
            _ => None,
        }),
{
    v.as_bool()
}

/// Calls `serde_json::Value::as_str`: the text, where the value is a string.
#[verifier::external_body]
pub(crate) fn value_as_str<'a>(v: &'a serde_json::Value) -> (r: Option<&'a str>)
    ensures
        match r {
            Some(s) => json_tree(*v) == Json::Text(s@),
            None => !(json_tree(*v) is Text),
        },
{
    v.as_str()
}

/// Calls `serde_json::to_vec` on a `Value`. The bytes depend on the contents
/// alone. It never fails: the keys of an object are strings, and a `Vec`
/// takes whatever is written to it.
#[verifier::external_body]
pub(crate) fn value_to_vec(v: &serde_json::Value) -> (r: Result<Vec<u8>, serde_json::Error>)
    ensures
        r is Ok,
        r->Ok_0@ == json_encode(json_tree(*v)),
{
    serde_json::to_vec(v)
}

/// Calls `to_string` on a `serde_json::Error`: the text that it displays.
#[verifier::external_body]
pub(crate) fn json_error_text(e: &serde_json::Error) -> (r: String)
    ensures
        r@ == json_error_message(*e),
{
    e.to_string()
}

/// Calls `serde_json::Value::default`: `null`.
#[verifier::external_body]
pub(crate) fn value_null() -> (r: serde_json::Value)
    ensures
        json_tree(r) == Json::Null,
{
    serde_json::Value::default()
}

/// Assigns through `serde_json::Value::index_mut` with a string key: the
/// object gets `member` under that key, in place of what it had there. To
/// assign into `null` makes it an object first. Any other value would panic.
#[verifier::external_body]
pub(crate) fn value_set(v: &mut serde_json::Value, key: &str, member: serde_json::Value)
    requires
        json_tree(*old(v)) is Null || json_tree(*old(v)) is Object,
    ensures
        json_tree(*final(v)) == Json::Object(
            json_tree(*old(v)).members().insert(key@, json_tree(member)),
        ),
{
    v[key] = member;
}

/// Calls `serde_json::Value::from` on a `u64`: that number.
#[verifier::external_body]
pub(crate) fn value_from_u64(n: u64) -> (r: serde_json::Value)
    ensures
        json_tree(r) == Json::Unsigned(n),
{
    serde_json::Value::from(n)
}

/// Calls `serde_json::Value::from` on a `String`: that text.
#[verifier::external_body]
pub(crate) fn value_from_text(s: String) -> (r: serde_json::Value)
    ensures
        json_tree(r) == Json::Text(s@),
{
    serde_json::Value::from(s)
}

/// Calls `serde_json::Value::from` on a `Vec<u32>`: the array of its numbers.
#[verifier::external_body]
pub(crate) fn value_from_numbers(ns: Vec<u32>) -> (r: serde_json::Value)
    ensures
        json_tree(r) == Json::numbers(ns@),
{
    serde_json::Value::from(ns)
}

/// A text, or `null` where there is none.
pub(crate) fn value_text_or_null(text: Option<String>) -> (r: serde_json::Value)
    ensures
        json_tree(r) == Json::text_or_null(
            match text {
                Some(s) => Some(s@),
                None => None,
            },
        ),
{
    match text {
        Some(s) => value_from_text(s),
        None => value_null(),
    }
}

} // verus!
