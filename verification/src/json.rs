//! The JSON payload of an option, as `serde_json` holds it.
//!
//! A payload is carried through as it was received. The one question the
//! decoder asks of it, whether it is a JSON string and which, is answered by
//! `serde_json` itself.

use vstd::prelude::*;

verus! {

/// `serde_json::Value`, held as an opaque value: nothing is known of what is
/// inside one but what the items below state.
#[verifier::external_type_specification]
#[verifier::external_body]
pub struct ExJsonValue(serde_json::Value);

/// The text that a JSON value holds when it is a JSON string, and `None` for
/// a value of any other kind: what `serde_json::Value::as_str` answers.
pub uninterp spec fn json_text(v: serde_json::Value) -> Option<Seq<char>>;

/// `serde_json::Value::as_str`. Trusted: it returns the associated `str` if
/// the value is a string, and `None` otherwise; `json_text` names that answer.
pub assume_specification[ serde_json::Value::as_str ](v: &serde_json::Value) -> (r: Option<&str>)
    ensures
        r.deep_view() == json_text(*v),
;

/// `Clone::clone` of `serde_json::Value`. Trusted: the copy is the same JSON
/// value as the one it was made from.
pub assume_specification[ <serde_json::Value as Clone>::clone ](v: &serde_json::Value) -> (r:
    serde_json::Value)
    ensures
        r == *v,
;

} // verus!
