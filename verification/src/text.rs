//! Text operations of the standard library that the verifier has no
//! specification for. Their contracts are taken on trust.

use vstd::prelude::*;

verus! {

/// `str::starts_with` with a string as the pattern: whether the characters
/// of `prefix` are the first characters of `text`. Taken from the standard
/// library's documentation; not proved.
#[verifier::external_body]
pub(crate) fn starts_with(text: &str, prefix: &str) -> (found: bool)
    ensures
        found == prefix@.is_prefix_of(text@),
{
    text.starts_with(prefix)
}

/// The number that `str::parse::<u64>` reads from a text, if it reads one.
pub uninterp spec fn parsed_u64(text: Seq<char>) -> Option<u64>;

/// `str::parse::<u64>`: the result depends on the characters of `text`
/// alone, and a failure to parse is handed back as `None`. What is parsed
/// from which text is not stated here.
#[verifier::external_body]
pub(crate) fn parse_u64(text: &str) -> (number: Option<u64>)
    ensures
        number == parsed_u64(text@),
{
    match text.parse::<u64>() {
        Ok(number) => Some(number),
        Err(_) => None,
    }
}

} // verus!
