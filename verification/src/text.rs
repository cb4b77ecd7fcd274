//! Validation and upper-casing of text.

use vstd::prelude::*;

verus! {

/// The upper-case equivalent of `text` under Unicode's locale-independent
/// case mapping, in which one character may become several.
///
/// The mapping is a table of the standard library and is not written out
/// here: this is the name of what `str::to_uppercase` returns.
pub uninterp spec fn uppercase(text: Seq<char>) -> Seq<char>;

/// Trusted, not proved: `str::to_uppercase` returns a new `String` that
/// depends on the characters of its argument alone, which is what gives
/// [`uppercase`] its meaning. Nothing is claimed about which characters
/// come out.
pub assume_specification[ str::to_uppercase ](text: &str) -> (upper: String)
    ensures
        upper@ == uppercase(text@),
;

/// Validates `data` and transforms it: empty text gives no value, any other
/// text gives its upper-case equivalent.
#[must_use]
pub fn process_data(data: &str) -> (processed: Option<String>)
    ensures
        match processed {
            None => data@.len() == 0,
            Some(upper) => data@.len() > 0 && upper@ == uppercase(data@),
        },
{
    if data.is_empty() {
        None
    } else {
        Some(data.to_uppercase())
    }
}

} // verus!
