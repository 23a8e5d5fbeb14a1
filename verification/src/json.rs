//! JSON texts that records carry, read and written with `serde_json`.

use vstd::prelude::*;

verus! {

/// A name for the list of strings that `serde_json` reads from a text, or `None`
/// where the text is not a JSON array of strings.
pub uninterp spec fn spec_json_string_list(text: Seq<char>) -> Option<Seq<Seq<char>>>;

/// Reads a JSON array of strings with `serde_json::from_str::<Vec<String>>`;
/// the empty list where the text is not one.
#[verifier::external_body]
pub(crate) fn parse_json_string_list(text: &str) -> (r: Vec<String>)
    ensures
        r@.map_values(|t: String| t@) == (match spec_json_string_list(text@) {
            Some(l) => l,
            None => Seq::<Seq<char>>::empty(),
        }),
{
    serde_json::from_str::<Vec<String>>(text).unwrap_or_default()
}

/// A name for the JSON text that `serde_json::to_string` writes for a list of strings.
pub uninterp spec fn spec_json_encode_string_list(items: Seq<Seq<char>>) -> Seq<char>;

/// Writes a list of strings as a JSON array with `serde_json::to_string`
/// (which cannot fail for strings).
#[verifier::external_body]
pub(crate) fn encode_json_string_list(items: &Vec<String>) -> (r: String)
    ensures
        r@ == spec_json_encode_string_list(items@.map_values(|t: String| t@)),
{
    serde_json::to_string(items).unwrap_or_default()
}

/// A name for the compact text of the JSON value that `serde_json` reads from a
/// text (`null` where the text is not JSON).
pub uninterp spec fn spec_json_normalized(text: Seq<char>) -> Seq<char>;

/// Reads a JSON value with `serde_json::from_str` (the default `null` where the
/// text is not JSON) and writes it back in compact form with `to_string`.
#[verifier::external_body]
pub(crate) fn normalize_json(text: &str) -> (r: String)
    ensures
        r@ == spec_json_normalized(text@),
{
    serde_json::from_str::<serde_json::Value>(text).unwrap_or_default().to_string()
}

} // verus!
