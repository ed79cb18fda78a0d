//! The wallet-height query: pulls the unsigned `height` field out of the
//! engine's JSON response, falling back to zero — which callers must read
//! as "unknown", never as a literal height of zero.
use vstd::prelude::*;

use crate::json::height_field;
use crate::json::json_height_field;

verus! {

/// The height a caller sees for an optional `height` number: the value,
/// truncated to the word callers use, or zero when the field never
/// arrived.
pub fn height_from_field(field: Option<u64>) -> (r: u32)
    ensures
        r == match field {
            Option::Some(h) => h as u32,
            Option::None => 0u32,
        },
{
    match field {
        Option::Some(h) =>
        #[verifier::truncate]
        (h as u32),
        Option::None => 0,
    }
}

/// Parses the engine's height response and extracts its `height` field:
/// exactly that number (truncated to the caller's word) when the text is
/// a JSON object carrying an unsigned `height`, and zero otherwise.
pub fn height_from_response(text: &str) -> (r: u32)
    ensures
        r == match json_height_field(text@) {
            Option::Some(h) => h as u32,
            Option::None => 0u32,
        },
{
    height_from_field(height_field(text))
}

} // verus!
