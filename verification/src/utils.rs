//! Helpers used by every field transformer.

use vstd::prelude::*;

pub mod color;
pub mod date;
pub mod formatter;
pub mod markdown;

verus! {

/// What a field shows when the record has no value for it.
pub const EMPTY_STR: &'static str = "-";

/// `text`, or the placeholder where `text` is empty.
pub fn filled_or_placeholder(text: String) -> (out: String)
    ensures
        out@ == if text@.len() == 0 {
            EMPTY_STR@
        } else {
            text@
        },
{
    if text.as_str().is_empty() {
        EMPTY_STR.to_owned()
    } else {
        text
    }
}

} // verus!
