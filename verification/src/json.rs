//! Trusted boundary around serde_json: parsing a response body and
//! reading fields of the resulting document. The documents are opaque
//! here; what the crate's logic reads of them is named by the
//! uninterpreted functions below.

use vstd::prelude::*;

verus! {

#[verifier::external_type_specification]
#[verifier::external_body]
pub struct ExJsonValue(serde_json::Value);

/// The JSON document a text parses to, or `None` when it is not JSON.
pub uninterp spec fn json_doc(s: Seq<char>) -> Option<serde_json::Value>;

/// Relies on `serde_json::from_str::<Value>`: parses a JSON document;
/// the result is a function of the text alone.
#[verifier::external_body]
pub(crate) fn parse_json(s: &str) -> (r: Option<serde_json::Value>)
    ensures
        r == json_doc(s@),
{
    serde_json::from_str(s).ok()
}

/// The string value at a key of a JSON object; `None` when the key is
/// absent or its value is not a string.
pub uninterp spec fn str_field(v: serde_json::Value, key: Seq<char>) -> Option<Seq<char>>;

/// Relies on serde_json `Value::get` and `Value::as_str`: the string
/// value at a key of a JSON object.
#[verifier::external_body]
pub(crate) fn get_str_field(v: &serde_json::Value, key: &str) -> (r: Option<String>)
    ensures
        r matches Some(s) ==> str_field(*v, key@) == Some(s@),
        r is None ==> str_field(*v, key@) is None,
{
    v.get(key).and_then(|x| x.as_str()).map(|s| s.to_owned())
}

/// The numeric value at a key of a JSON object, as its JSON number
/// token; `None` when the key is absent or its value is not a number.
pub uninterp spec fn num_field(v: serde_json::Value, key: Seq<char>) -> Option<Seq<char>>;

/// Relies on serde_json `Value::get`, `Value::is_number` and the
/// `Display` of `Value`, which prints a number as its JSON token.
#[verifier::external_body]
pub(crate) fn get_num_field(v: &serde_json::Value, key: &str) -> (r: Option<String>)
    ensures
        r matches Some(s) ==> num_field(*v, key@) == Some(s@),
        r is None ==> num_field(*v, key@) is None,
{
    v.get(key).and_then(|x| if x.is_number() { Some(x.to_string()) } else { None })
}

/// The elements of the array at a key of a JSON object, in order;
/// `None` when the key is absent or its value is not an array.
pub uninterp spec fn arr_field(v: serde_json::Value, key: Seq<char>) -> Option<
    Seq<serde_json::Value>,
>;

/// Relies on serde_json `Value::get` and `Value::as_array`: the
/// elements of the array at a key, in their order.
#[verifier::external_body]
pub(crate) fn get_arr_field(v: &serde_json::Value, key: &str) -> (r: Option<
    Vec<serde_json::Value>,
>)
    ensures
        r matches Some(es) ==> arr_field(*v, key@) == Some(es@),
        r is None ==> arr_field(*v, key@) is None,
{
    v.get(key).and_then(|x| x.as_array()).map(|a| a.to_vec())
}

} // verus!
