//! Small helpers on text.

use vstd::prelude::*;
use vstd::string::StrSliceExecFns;

verus! {

/// Whether two pieces of text hold the same characters.
pub fn same_text(a: &str, b: &str) -> (same: bool)
    ensures
        same == (a@ == b@),
{
    let left = a.to_owned();
    let right = b.to_owned();
    left == right
}

/// The number of characters of `text`, where that number fits.
pub fn char_count(text: &str) -> (count: usize)
    ensures
        count == text@.len(),
{
    text.unicode_len()
}

} // verus!
