//! The rules of the game as mathematics: what a game is, which outcome a
//! guess has, and which game follows it.

use crate::guess::{evaluated, GuessView};
use crate::text::trimmed;
use vstd::prelude::*;

verus! {

/// The number of letters of the secret word and of every guess.
pub const WORD_LEN: usize = 5;

/// The number of guesses after which the game is lost.
pub const MAX_GUESSES: usize = 6;

/// `c` is one of the letters `a` to `z`.
pub open spec fn is_lowercase_letter(c: char) -> bool {
    'a' <= c <= 'z'
}

/// `word` can be the secret of a game: five lowercase letters.
pub open spec fn is_secret(word: Seq<char>) -> bool {
    &&& word.len() == WORD_LEN
    &&& forall|i: int| 0 <= i < word.len() ==> is_lowercase_letter(#[trigger] word[i])
}

/// Why a guess was turned away.
#[derive(Clone, Copy, Debug, PartialEq, Eq, Structural)]
pub enum RejectReason {
    /// The guess does not have exactly five characters.
    WrongLength,
    /// The same guess stands in the history already.
    DuplicateGuess,
    /// The game was won or lost before this guess.
    GameOver,
}

impl RejectReason {
    /// The reason in words.
    pub open spec fn text(self) -> Seq<char> {
        match self {
            RejectReason::WrongLength => "wrong length"@,
            RejectReason::DuplicateGuess => "duplicate guess"@,
            RejectReason::GameOver => "game already over"@,
        }
    }

    /// The reason in words.
    pub fn message(&self) -> (text: &'static str)
        ensures
            text@ == self.text(),
    {
        match self {
            RejectReason::WrongLength => "wrong length",
            RejectReason::DuplicateGuess => "duplicate guess",
            RejectReason::GameOver => "game already over",
        }
    }
}

/// A game as a value: the secret word and the guesses recorded so far, oldest first.
pub ghost struct GameView {
    pub secret: Seq<char>,
    pub guesses: Seq<Seq<char>>,
}

/// What a guess leads to, as a value.
pub ghost enum OutcomeView {
    /// The guess was turned away and the game is as it was.
    Rejected(RejectReason),
    /// The guess was recorded: its evaluation, and the number of guesses that are left.
    Recorded(GuessView, nat),
    /// The guess is the secret word.
    Won,
    /// The last guess was used up; the secret word is given away.
    Lost(Seq<char>),
}

impl GameView {
    /// The game that starts with `secret`.
    pub open spec fn start(secret: Seq<char>) -> GameView {
        GameView { secret, guesses: Seq::empty() }
    }

    /// What holds of every game that can be reached by play.
    pub open spec fn valid(self) -> bool {
        &&& is_secret(self.secret)
        &&& self.guesses.len() <= MAX_GUESSES
        &&& forall|i: int|
            0 <= i < self.guesses.len() ==> (#[trigger] self.guesses[i]).len() == WORD_LEN
        &&& forall|i: int, j: int|
            0 <= i < j < self.guesses.len() ==> self.guesses[i] != self.guesses[j]
        &&& forall|i: int| 0 <= i < self.guesses.len() - 1 ==> self.guesses[i] != self.secret
    }

    /// The secret word has been guessed.
    pub open spec fn won(self) -> bool {
        self.guesses.contains(self.secret)
    }

    /// All guesses are used up and none of them is the secret word.
    pub open spec fn lost(self) -> bool {
        !self.won() && self.guesses.len() >= MAX_GUESSES
    }

    /// The game is won or lost.
    pub open spec fn over(self) -> bool {
        self.won() || self.lost()
    }

    /// The number of guesses that are left.
    pub open spec fn remaining(self) -> nat {
        if self.guesses.len() <= MAX_GUESSES {
            (MAX_GUESSES - self.guesses.len()) as nat
        } else {
            0
        }
    }

    /// The game with `word` added to its history.
    pub open spec fn record(self, word: Seq<char>) -> GameView {
        GameView { secret: self.secret, guesses: self.guesses.push(word) }
    }

    /// Why `word`, a guess of five characters, is turned away, if it is.
    pub open spec fn refusal(self, word: Seq<char>) -> Option<RejectReason> {
        if self.guesses.contains(word) {
            Some(RejectReason::DuplicateGuess)
        } else if self.over() {
            Some(RejectReason::GameOver)
        } else {
            None
        }
    }

    /// The outcome of the guess `word`, which has five characters.
    pub open spec fn outcome_of_word(self, word: Seq<char>) -> OutcomeView {
        match self.refusal(word) {
            Some(reason) => OutcomeView::Rejected(reason),
            None => {
                if word == self.secret {
                    OutcomeView::Won
                } else if self.guesses.len() + 1 >= MAX_GUESSES {
                    OutcomeView::Lost(self.secret)
                } else {
                    OutcomeView::Recorded(
                        evaluated(self.secret, word),
                        self.record(word).remaining(),
                    )
                }
            },
        }
    }

    /// The game after the guess `word`, which has five characters.
    pub open spec fn after_word(self, word: Seq<char>) -> GameView {
        if self.refusal(word) is None {
            self.record(word)
        } else {
            self
        }
    }

    /// The outcome of the guess `raw`, as the player typed it.
    pub open spec fn outcome(self, raw: Seq<char>) -> OutcomeView {
        if trimmed(raw).len() != WORD_LEN {
            OutcomeView::Rejected(RejectReason::WrongLength)
        } else {
            self.outcome_of_word(trimmed(raw))
        }
    }

    /// The game after the guess `raw`, as the player typed it.
    pub open spec fn after(self, raw: Seq<char>) -> GameView {
        if trimmed(raw).len() != WORD_LEN {
            self
        } else {
            self.after_word(trimmed(raw))
        }
    }

    /// The game after the guesses `raws`, made one after the other.
    pub open spec fn after_all(self, raws: Seq<Seq<char>>) -> GameView
        decreases raws.len(),
    {
        if raws.len() == 0 {
            self
        } else {
            self.after_all(raws.drop_last()).after(raws.last())
        }
    }
}

/// A guess that is not turned away leaves a game that can be reached by play.
pub proof fn lemma_record_valid(game: GameView, word: Seq<char>)
    requires
        game.valid(),
        word.len() == WORD_LEN,
        game.refusal(word) is None,
    ensures
        game.record(word).valid(),
{
    let next = game.record(word);
    assert forall|i: int| 0 <= i < next.guesses.len() - 1 implies next.guesses[i]
        != next.secret by {
        assert(game.guesses[i] == next.guesses[i]);
    }
    assert forall|i: int, j: int| 0 <= i < j < next.guesses.len() implies next.guesses[i]
        != next.guesses[j] by {
        assert(game.guesses[i] == next.guesses[i]);
    }
}

} // verus!
