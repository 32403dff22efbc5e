//! Field extraction from JSON text frames.
//!
//! Control messages arrive as JSON objects; the dispatcher needs only
//! a handful of scalar fields. Each extractor parses the text with
//! `serde_json` and picks one field; what it returns is named by an
//! uninterpreted function of the text alone, so the classification
//! logic built on it can be specified and verified exactly.

use vstd::prelude::*;

verus! {

/// The `u64` at `key` of the JSON object the text parses to, or
/// `None` when the text is not a JSON object, the key is absent, or
/// the value is not an integer that fits `u64`.
pub uninterp spec fn json_u64_field(text: Seq<char>, key: Seq<char>) -> Option<u64>;

/// The string at `key` of the JSON object the text parses to, or
/// `None` when the text is not a JSON object, the key is absent, or
/// the value is not a string.
pub uninterp spec fn json_str_field(text: Seq<char>, key: Seq<char>) -> Option<Seq<char>>;

/// The element count of the array at `key` of the JSON object the
/// text parses to, or `None` when there is no array there.
pub uninterp spec fn json_array_len_field(text: Seq<char>, key: Seq<char>) -> Option<usize>;

/// The string at index `i` of the array at `key`, or `None` when the
/// array is missing, `i` is out of range, or the element is not a
/// string.
pub uninterp spec fn json_str_item(text: Seq<char>, key: Seq<char>, i: int) -> Option<Seq<char>>;

/// Extract an unsigned integer field from a JSON text.
///
/// Relies on `serde_json::from_str::<Value>`, `Value::get` and
/// `Value::as_u64`: the outcome is a function of the text and key.
#[verifier::external_body]
pub(crate) fn json_get_u64(text: &str, key: &str) -> (r: Option<u64>)
    ensures
        r == json_u64_field(text@, key@),
{
    let v = serde_json::from_str::<serde_json::Value>(text).ok()?;
    v.get(key)?.as_u64()
}

/// Extract a string field from a JSON text.
///
/// Relies on `serde_json::from_str::<Value>`, `Value::get` and
/// `Value::as_str`: the outcome is a function of the text and key.
#[verifier::external_body]
pub(crate) fn json_get_str(text: &str, key: &str) -> (r: Option<String>)
    ensures
        r matches Some(s) ==> json_str_field(text@, key@) == Some(s@),
        r is Some <==> json_str_field(text@, key@) is Some,
{
    let v = serde_json::from_str::<serde_json::Value>(text).ok()?;
    let s = v.get(key)?.as_str()?;
    Some(s.to_owned())
}

/// Count the elements of an array field of a JSON text.
///
/// Relies on `serde_json::from_str::<Value>`, `Value::get` and
/// `Value::as_array`: the outcome is a function of the text and key.
#[verifier::external_body]
pub(crate) fn json_get_array_len(text: &str, key: &str) -> (r: Option<usize>)
    ensures
        r == json_array_len_field(text@, key@),
{
    let v = serde_json::from_str::<serde_json::Value>(text).ok()?;
    let arr = v.get(key)?.as_array()?;
    Some(arr.len())
}

/// Extract one string element of an array field of a JSON text.
///
/// Relies on `serde_json::from_str::<Value>`, `Value::get`,
/// `Value::as_array`, `<[Value]>::get` and `Value::as_str`: the
/// outcome is a function of the text, key and index.
#[verifier::external_body]
pub(crate) fn json_get_str_item(text: &str, key: &str, i: usize) -> (r: Option<String>)
    ensures
        r matches Some(s) ==> json_str_item(text@, key@, i as int) == Some(s@),
        r is Some <==> json_str_item(text@, key@, i as int) is Some,
{
    let v = serde_json::from_str::<serde_json::Value>(text).ok()?;
    let arr = v.get(key)?.as_array()?;
    let s = arr.get(i)?.as_str()?;
    Some(s.to_owned())
}

/// The strings among the first `n` elements of the array at `key`, in
/// order, non-string elements dropped.
pub open spec fn spec_string_items(text: Seq<char>, key: Seq<char>, n: nat) -> Seq<Seq<char>>
    decreases n,
{
    if n == 0 {
        Seq::empty()
    } else {
        let prefix = spec_string_items(text, key, (n - 1) as nat);
        match json_str_item(text, key, n - 1) {
            Some(s) => prefix.push(s),
            None => prefix,
        }
    }
}

/// Collect the string elements of the array at `key`, in order,
/// dropping elements that are not strings; `None` when there is no
/// array there.
pub fn json_get_string_array(text: &str, key: &str) -> (r: Option<Vec<String>>)
    ensures
        r matches Some(v) ==> {
            &&& json_array_len_field(text@, key@) matches Some(n)
            &&& v@.map_values(|s: String| s@) == spec_string_items(text@, key@, n as nat)
        },
        r is Some <==> json_array_len_field(text@, key@) is Some,
{
    let n = match json_get_array_len(text, key) {
        Some(n) => n,
        None => {
            return None;
        },
    };
    let mut out: Vec<String> = Vec::new();
    let mut i: usize = 0;
    while i < n
        invariant
            i <= n,
            out@.map_values(|s: String| s@) == spec_string_items(text@, key@, i as nat),
        decreases n - i,
    {
        let ghost prev = out@.map_values(|s: String| s@);
        match json_get_str_item(text, key, i) {
            Some(s) => {
                out.push(s);
                proof {
                    assert(out@.map_values(|s: String| s@) =~= prev.push(
                        json_str_item(text@, key@, i as int).unwrap(),
                    ));
                }
            },
            None => {},
        }
        i = i + 1;
    }
    Some(out)
}

} // verus!
