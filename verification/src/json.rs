//! JSON values, as far as the library reads them.
//!
//! Parsing and navigating are left to `serde_json`. Nothing in this file is
//! proved: each function states what the call it makes is trusted to do, over
//! the strings that a value holds.

use vstd::prelude::*;

verus! {

/// `serde_json::Value`, any JSON value. Its inside is not looked at here;
/// what the library needs of it is named by [`strings_in`].
#[verifier::external_type_specification]
#[verifier::external_body]
pub struct ExValue(serde_json::Value);

/// `serde_json::Error`, why bytes were accepted as no document. It is only
/// carried; nothing is read from it.
#[verifier::external_type_specification]
#[verifier::external_body]
pub struct ExJsonError(serde_json::Error);

/// The strings that a JSON value holds, each under the path of object keys
/// that leads to it. A value that is itself a string holds it under the empty
/// path; an object holds what its members hold, each path with the member's
/// key put in front; null, booleans, numbers and arrays hold nothing.
pub uninterp spec fn strings_in(value: serde_json::Value) -> Map<Seq<Seq<char>>, Seq<char>>;

/// The strings held by the JSON document that `bytes` spell, or `None` where
/// `serde_json::from_slice` accepts them as no document.
pub uninterp spec fn document_strings(bytes: Seq<u8>) -> Option<Map<Seq<Seq<char>>, Seq<char>>>;

/// `serde_json::from_slice`, reading any JSON value. Trusted: the outcome is
/// a function of the bytes alone, named by [`document_strings`].
#[verifier::external_body]
pub(crate) fn parse(bytes: &[u8]) -> (r: Result<serde_json::Value, serde_json::Error>)
    ensures
        match r {
            Ok(value) => document_strings(bytes@) == Some(strings_in(value)),
            Err(_) => document_strings(bytes@) is None,
        },
{
    serde_json::from_slice::<serde_json::Value>(bytes)
}

/// Indexing a `serde_json::Value` by a string key. Trusted: the result is the
/// member under `key` where `value` is an object that has one, and null
/// otherwise; so it holds exactly the strings that `value` holds under paths
/// that begin with `key`.
#[verifier::external_body]
pub(crate) fn member<'a>(value: &'a serde_json::Value, key: &str) -> (r: &'a serde_json::Value)
    ensures
        forall|path: Seq<Seq<char>>| #[trigger]
            strings_in(*r).contains_key(path) <==> strings_in(*value).contains_key(
                seq![key@] + path,
            ),
        forall|path: Seq<Seq<char>>| #[trigger]
            strings_in(*r).contains_key(path) ==> strings_in(*r)[path] == strings_in(
                *value,
            )[seq![key@] + path],
{
    &value[key]
}

/// `serde_json::Value::as_str`. Trusted: the string where `value` is one,
/// `None` otherwise.
#[verifier::external_body]
pub(crate) fn as_string<'a>(value: &'a serde_json::Value) -> (r: Option<&'a str>)
    ensures
        match r {
            Some(s) => strings_in(*value).contains_key(seq![]) && strings_in(*value)[seq![]]
                == s@,
            None => !strings_in(*value).contains_key(seq![]),
        },
{
    value.as_str()
}

} // verus!
