//! Reading one boolean field of a JSON object.

use vstd::prelude::*;

verus! {

/// `Some(b)` where `text` is a JSON object, as `serde_json` parses it,
/// whose field `key` holds the boolean `b`; `None` otherwise.
pub uninterp spec fn json_bool_field(text: Seq<char>, key: Seq<char>) -> Option<bool>;

/// Parses `text` with `serde_json::from_str` into a `serde_json::Value`,
/// looks up `key` with `Value::get` and reads it with `Value::as_bool`.
/// The contract only names the result: the JSON grammar is
/// `serde_json`'s.
#[verifier::external_body]
pub(crate) fn read_json_bool_field(text: &str, key: &str) -> (r: Option<bool>)
    ensures
        r == json_bool_field(text@, key@),
{
    let value: serde_json::Value = serde_json::from_str(text).ok()?;
    value.get(key)?.as_bool()
}

} // verus!
