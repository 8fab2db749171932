use vstd::prelude::*;

verus! {

// A payload is an arbitrarily structured JSON value that the proxy returns
// unmodified. Verified code carries such a value through opaquely and never
// inspects its shape.
#[verifier::external_type_specification]
#[verifier::external_body]
pub struct ExValue(serde_json::Value);

/// What serde_json's parser yields for a given text: `Some(v)` exactly when
/// the text is a valid JSON document with value `v`. The result depends on
/// the text alone.
pub uninterp spec fn parsed_json(s: Seq<char>) -> Option<serde_json::Value>;

/// Relies on serde_json::from_str: parses a text as an arbitrary JSON value,
/// succeeding exactly on valid JSON documents.
#[verifier::external_body]
pub fn parse_json(s: &str) -> (r: Option<serde_json::Value>)
    ensures
        r == parsed_json(s@),
{
    serde_json::from_str::<serde_json::Value>(s).ok()
}

/// Relies on serde_json::Value's derived Clone: the clone equals the original.
pub assume_specification[ <serde_json::Value as Clone>::clone ](
    v: &serde_json::Value,
) -> (r: serde_json::Value)
    ensures
        r == *v,
;

} // verus!
