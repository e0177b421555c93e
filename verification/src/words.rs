//! Where secret words come from.

use crate::rules::is_lowercase_letter;
use vstd::prelude::*;

verus! {

/// `random_word::gen_len`: a word drawn at random from the crate's list of
/// English words, among those that have `length` letters. The list holds
/// words of 2 to 15 letters, each written with the letters `a` to `z`
/// alone, so for each of these lengths there is a word to draw. For any
/// other length the crate selects its words by an arm that panics: such a
/// length is not accepted here.
#[verifier::external_body]
pub(crate) fn random_word_of_len(length: usize) -> (word: Option<String>)
    requires
        2 <= length <= 15,
    ensures
        word matches Some(w) && w@.len() == length && forall|i: int|
            0 <= i < w@.len() ==> is_lowercase_letter(#[trigger] w@[i]),
{
    match random_word::gen_len(length) {
        Some(word) => Some(word.to_string()),
        None => None,
    }
}

} // verus!
