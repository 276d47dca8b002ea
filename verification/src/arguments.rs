//! Call arguments: the JSON object that a tool is invoked with, decoded from
//! the text in which the model wrote it.

use serde_json::Value;
use vstd::prelude::*;

verus! {

/// `serde_json::Map`, the JSON object type. Its entries are reached through
/// [`argument_entries`].
#[verifier::external_type_specification]
#[verifier::external_body]
#[verifier::reject_recursive_types(K)]
#[verifier::reject_recursive_types(V)]
pub struct ExJsonMap<K, V>(serde_json::Map<K, V>);

/// `serde_json::Value`, any JSON value.
#[verifier::external_type_specification]
#[verifier::external_body]
pub struct ExJsonValue(Value);

/// `serde_json::Error`, the reason a text was not decoded.
#[verifier::external_type_specification]
#[verifier::external_body]
pub struct ExJsonError(serde_json::Error);

/// What a JSON object holds: each key with the compact JSON text of the
/// value stored under it.
pub uninterp spec fn argument_entries(object: serde_json::Map<String, Value>) -> Map<
    Seq<char>,
    Seq<char>,
>;

/// What `serde_json::from_str` makes of `raw` when asked for a JSON object:
/// the entries of the object, or `None` where it reports an error.
pub uninterp spec fn decoded_object(raw: Seq<char>) -> Option<Map<Seq<char>, Seq<char>>>;

/// `serde_json::from_str` at the type of JSON objects. The result is a
/// function of the text alone: an object with the entries that
/// [`decoded_object`] names, or an error exactly where it names none.
#[verifier::external_body]
fn parse_object(raw: &str) -> (parsed: Result<serde_json::Map<String, Value>, serde_json::Error>)
    ensures
        match parsed {
            Ok(object) => decoded_object(raw@) == Some(argument_entries(object)),
            Err(_) => decoded_object(raw@) is None,
        },
{
    serde_json::from_str::<serde_json::Map<String, Value>>(raw)
}

/// The arguments of a call were not the text of a JSON object.
#[derive(Debug, Clone, Copy, PartialEq, Eq)]
pub struct ArgumentDecodeError;

/// Decodes the argument text of a call into the object that the tool is
/// invoked with.
pub fn decode_arguments(raw: &str) -> (decoded: Result<
    serde_json::Map<String, Value>,
    ArgumentDecodeError,
>)
    ensures
        match decoded {
            Ok(object) => decoded_object(raw@) == Some(argument_entries(object)),
            Err(_) => decoded_object(raw@) is None,
        },
{
    match parse_object(raw) {
        Ok(object) => Ok(object),
        Err(_) => Err(ArgumentDecodeError),
    }
}

} // verus!
