//! An evaluated guess: the guessed word, and each of its letters with its status.

use crate::evaluator::{evaluate, status_of, GuessChar};
use crate::text::chars_of;
use vstd::prelude::*;

verus! {

/// A guess as it is kept in the history of a game.
#[derive(Debug, PartialEq, Eq)]
pub struct Guess {
    /// The letters of the guess in order, each with its status.
    pub chars: Vec<GuessChar>,
    /// The guess as it was made.
    pub string: String,
}

/// The mathematical value of a `Guess`.
pub ghost struct GuessView {
    pub chars: Seq<GuessChar>,
    pub string: Seq<char>,
}

impl View for Guess {
    type V = GuessView;

    open spec fn view(&self) -> GuessView {
        GuessView { chars: self.chars@, string: self.string@ }
    }
}

/// The letter `c`, guessed at position `i`, with its status.
pub open spec fn marked(secret: Seq<char>, c: char, i: int) -> GuessChar {
    GuessChar { char: c, status: status_of(secret, c, i) }
}

/// The guess `word`, evaluated against `secret`.
pub open spec fn evaluated(secret: Seq<char>, word: Seq<char>) -> GuessView {
    GuessView { chars: Seq::new(word.len(), |i: int| marked(secret, word[i], i)), string: word }
}

impl Guess {
    pub fn new(chars: Vec<GuessChar>, string: String) -> (guess: Self)
        ensures
            guess.chars == chars,
            guess.string == string,
    {
        Self { chars, string }
    }

    /// Evaluates `word` against `secret` and keeps the word with the result.
    pub fn evaluated(secret: &str, word: &str) -> (guess: Self)
        ensures
            guess@ == evaluated(secret@, word@),
    {
        let letters = chars_of(word);
        let statuses = evaluate(secret, word);
        let mut chars: Vec<GuessChar> = Vec::new();
        let mut i: usize = 0;
        while i < letters.len()
            invariant
                i <= letters.len(),
                letters@ == word@,
                statuses@ == crate::evaluator::evaluation(secret@, word@),
                chars@ == evaluated(secret@, word@).chars.take(i as int),
            decreases letters.len() - i,
        {
            chars.push(GuessChar::new(letters[i], statuses[i]));
            i += 1;
        }
        assert(chars@ == evaluated(secret@, word@).chars);
        Guess::new(chars, word.to_owned())
    }
}

impl Clone for Guess {
    fn clone(&self) -> (copy: Self)
        ensures
            copy@ == self@,
    {
        Guess { chars: self.chars.clone(), string: self.string.clone() }
    }
}

} // verus!
