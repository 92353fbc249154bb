//! Comparing option texts and wording what is wrong with one.

use vstd::prelude::*;

verus! {

/// Whether two texts are the same, character by character. This is the
/// equality of `str` in std, which compares the bytes of the two slices.
#[verifier::external_body]
pub(crate) fn same_text(a: &str, b: &str) -> (r: bool)
    ensures
        r == (a@ == b@),
{
    a == b
}

/// The words for a text that names none of the values of an option.
pub open spec fn invalid_value_words(text: Seq<char>) -> Seq<char> {
    "Found invalid value '"@ + text + "'."@
}

/// The words for a text that is neither `true` nor `false`.
pub open spec fn invalid_switch_words() -> Seq<char> {
    "provided string was not `true` or `false`"@
}

/// Words the message for a text that names none of the values of an option.
pub fn invalid_value_message(text: &str) -> (r: String)
    ensures
        r@ == invalid_value_words(text@),
{
    let mut message = String::from_str("Found invalid value '");
    message.append(text);
    message.append("'.");
    message
}

} // verus!
