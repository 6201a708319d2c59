//! Rendering of structured option values as JSON text, done by
//! `serde_json`.

use crate::text::{decimal_text, join};
use serde_json::Error as JsonError;
use std::collections::HashMap;
use vstd::prelude::*;

verus! {

/// `serde_json::Value`, a JSON value of any shape. Nothing is known of
/// what a value holds.
#[verifier::external_type_specification]
#[verifier::external_body]
pub struct ExJsonValue(serde_json::Value);

/// `serde_json::Error`, the failure that rendering or reading JSON
/// reports. Nothing is known of what it holds.
#[verifier::external_type_specification]
#[verifier::external_body]
pub struct ExJsonError(JsonError);

/// The JSON text of an array of numbers: their decimal numerals between
/// square brackets, with commas and no white space between them.
pub open spec fn number_array_text(numbers: Seq<u32>) -> Seq<char> {
    seq!['['] + join(numbers.map_values(|n: u32| decimal_text(n as nat)), ',') + seq![']']
}

/// Calls `serde_json::to_string` on a vector of numbers. Not proved:
/// that the text, where one comes back, is the compact JSON array of the
/// numbers in their order.
#[verifier::external_body]
pub(crate) fn numbers_to_json(numbers: &Vec<u32>) -> (r: Result<String, JsonError>)
    ensures
        r matches Ok(text) ==> text@ == number_array_text(numbers@),
{
    serde_json::to_string(numbers)
}

/// Calls `serde_json::to_string` on a map from strings to strings. Nothing
/// is claimed of the text: the order of its entries is that in which the
/// map happens to be walked.
#[verifier::external_body]
pub(crate) fn strings_to_json(map: &HashMap<String, String>) -> (r: Result<String, JsonError>) {
    serde_json::to_string(map)
}

/// Calls `serde_json::to_string` on a map from strings to JSON values.
/// Nothing is claimed of the text: the order of its entries is that in
/// which the map happens to be walked.
#[verifier::external_body]
pub(crate) fn values_to_json(map: &HashMap<String, serde_json::Value>) -> (r: Result<
    String,
    JsonError,
>) {
    serde_json::to_string(map)
}

/// Calls `to_string` on a `serde_json::Error`, which gives its message.
/// Nothing is claimed of the message.
#[verifier::external_body]
pub(crate) fn json_error_text(e: &JsonError) -> (r: String) {
    e.to_string()
}

} // verus!
