//! The evaluator: how each letter of a guess relates to the secret word.

use crate::text::chars_of;
use vstd::prelude::*;

verus! {

/// What one letter of a guess says about the secret word.
#[derive(Clone, Copy, Debug, PartialEq, Eq, Structural)]
pub enum GuessCharStatus {
    /// The secret holds the letter, and holds it first at this very position.
    Correct,
    /// The secret holds the letter, but first at another position.
    PresentElsewhere,
    /// The secret does not hold the letter.
    Absent,
}

/// One letter of a guess, with its status.
#[derive(Clone, Copy, Debug, PartialEq, Eq, Structural)]
pub struct GuessChar {
    pub char: char,
    pub status: GuessCharStatus,
}

impl GuessChar {
    pub fn new(char: char, status: GuessCharStatus) -> (gc: Self)
        ensures
            gc.char == char,
            gc.status == status,
    {
        Self { char, status }
    }
}

/// `i` is the position at which `c` occurs first in `s`.
pub open spec fn first_occurrence(s: Seq<char>, c: char, i: int) -> bool {
    &&& 0 <= i < s.len()
    &&& s[i] == c
    &&& forall|j: int| 0 <= j < i ==> s[j] != c
}

/// The status of the letter `c`, guessed at position `i`. Only the first
/// occurrence of `c` in the secret is looked at: a letter that the secret
/// repeats is `Correct` at the first of its positions and `PresentElsewhere`
/// at every other.
pub open spec fn status_of(secret: Seq<char>, c: char, i: int) -> GuessCharStatus {
    if !secret.contains(c) {
        GuessCharStatus::Absent
    } else if first_occurrence(secret, c, i) {
        GuessCharStatus::Correct
    } else {
        GuessCharStatus::PresentElsewhere
    }
}

/// The statuses of all the letters of `guess`, position by position.
pub open spec fn evaluation(secret: Seq<char>, guess: Seq<char>) -> Seq<GuessCharStatus> {
    Seq::new(guess.len(), |i: int| status_of(secret, guess[i], i))
}

/// The position at which `c` occurs first in `s`, if it occurs at all.
pub fn find_first(s: &Vec<char>, c: char) -> (found: Option<usize>)
    ensures
        match found {
            Some(p) => first_occurrence(s@, c, p as int),
            None => !s@.contains(c),
        },
{
    let mut i: usize = 0;
    while i < s.len()
        invariant
            i <= s.len(),
            forall|j: int| 0 <= j < i ==> s@[j] != c,
        decreases s.len() - i,
    {
        if s[i] == c {
            return Some(i);
        }
        i += 1;
    }
    None
}

/// The status of the letter `c`, guessed at position `i`.
pub fn classify(secret: &Vec<char>, c: char, i: usize) -> (status: GuessCharStatus)
    ensures
        status == status_of(secret@, c, i as int),
{
    match find_first(secret, c) {
        Some(p) => {
            if p == i {
                GuessCharStatus::Correct
            } else {
                GuessCharStatus::PresentElsewhere
            }
        },
        None => GuessCharStatus::Absent,
    }
}

/// Evaluates `guess` against `secret`, letter by letter.
pub fn evaluate(secret: &str, guess: &str) -> (statuses: Vec<GuessCharStatus>)
    ensures
        statuses@ == evaluation(secret@, guess@),
{
    let secret_chars = chars_of(secret);
    let guess_chars = chars_of(guess);
    let mut statuses: Vec<GuessCharStatus> = Vec::new();
    let mut i: usize = 0;
    while i < guess_chars.len()
        invariant
            i <= guess_chars.len(),
            secret_chars@ == secret@,
            guess_chars@ == guess@,
            statuses@ == evaluation(secret@, guess@).take(i as int),
        decreases guess_chars.len() - i,
    {
        statuses.push(classify(&secret_chars, guess_chars[i], i));
        i += 1;
    }
    statuses
}

} // verus!
