//! The game itself: the secret word, the history of guesses, and what a guess does.

use crate::guess::{evaluated, Guess};
use crate::rules::{
    is_lowercase_letter, is_secret, lemma_record_valid, GameView, OutcomeView, RejectReason,
    MAX_GUESSES, WORD_LEN,
};
use crate::text::{chars_of, trim};
use crate::words::random_word_of_len;
use vstd::prelude::*;

verus! {

/// What a guess led to.
#[derive(Debug, PartialEq, Eq)]
pub enum GuessOutcome {
    /// The guess was turned away and the game is as it was.
    Rejected(RejectReason),
    /// The guess was recorded: its evaluation, and the number of guesses that are left.
    Recorded(Guess, usize),
    /// The guess is the secret word.
    Won,
    /// The last guess was used up; the secret word is given away.
    Lost(String),
}

impl View for GuessOutcome {
    type V = OutcomeView;

    open spec fn view(&self) -> OutcomeView {
        match self {
            GuessOutcome::Rejected(reason) => OutcomeView::Rejected(*reason),
            GuessOutcome::Recorded(guess, left) => OutcomeView::Recorded(guess@, *left as nat),
            GuessOutcome::Won => OutcomeView::Won,
            GuessOutcome::Lost(secret) => OutcomeView::Lost(secret@),
        }
    }
}

/// Tells whether `word` can be the secret of a game.
pub fn valid_secret(word: &str) -> (ok: bool)
    ensures
        ok == is_secret(word@),
{
    let chars = chars_of(word);
    if chars.len() != WORD_LEN {
        return false;
    }
    let mut i: usize = 0;
    while i < chars.len()
        invariant
            i <= chars.len(),
            chars@ == word@,
            forall|j: int| 0 <= j < i ==> is_lowercase_letter(#[trigger] chars@[j]),
        decreases chars.len() - i,
    {
        if !('a' <= chars[i] && chars[i] <= 'z') {
            return false;
        }
        i += 1;
    }
    true
}

/// A game: the secret word and the guesses recorded so far, oldest first.
pub struct Game {
    guesses: Vec<Guess>,
    word: String,
}

impl View for Game {
    type V = GameView;

    closed spec fn view(&self) -> GameView {
        GameView {
            secret: self.word@,
            guesses: Seq::new(self.guesses@.len(), |i: int| self.guesses@[i].string@),
        }
    }
}

impl Game {
    /// The history is that of a game reached by play, and every guess in it
    /// carries its evaluation against the secret word.
    #[verifier::type_invariant]
    spec fn inv(&self) -> bool {
        &&& self@.valid()
        &&& forall|i: int|
            0 <= i < self.guesses@.len() ==> (#[trigger] self.guesses@[i])@ == evaluated(
                self.word@,
                self.guesses@[i].string@,
            )
    }

    /// A game with the given secret word and no guess made.
    pub fn new(secret: String) -> (game: Self)
        requires
            is_secret(secret@),
        ensures
            game@ == GameView::start(secret@),
            game@.valid(),
    {
        let game = Game { guesses: Vec::new(), word: secret };
        assert(game@.guesses == Seq::<Seq<char>>::empty());
        game
    }

    /// A game whose secret word is drawn at random from a list of English
    /// words, and no guess made.
    pub fn with_random_word() -> (game: Self)
        ensures
            game@ == GameView::start(game@.secret),
            game@.valid(),
    {
        Game::new(random_word_of_len(WORD_LEN).unwrap())
    }

    /// The secret word.
    pub fn secret(&self) -> (word: &String)
        ensures
            word@ == self@.secret,
            is_secret(word@),
    {
        proof {
            use_type_invariant(self);
        }
        &self.word
    }

    /// The guesses recorded so far, oldest first, each with its evaluation.
    pub fn guesses(&self) -> (history: &Vec<Guess>)
        ensures
            self@.valid(),
            history@.len() == self@.guesses.len(),
            forall|i: int|
                0 <= i < history@.len() ==> (#[trigger] history@[i])@ == evaluated(
                    self@.secret,
                    self@.guesses[i],
                ),
    {
        proof {
            use_type_invariant(self);
        }
        &self.guesses
    }

    /// Tells whether `guess` stands in the history already.
    pub fn guess_exists(&self, guess: &String) -> (found: bool)
        ensures
            found == self@.guesses.contains(guess@),
    {
        let mut i: usize = 0;
        while i < self.guesses.len()
            invariant
                i <= self.guesses@.len(),
                forall|j: int| 0 <= j < i ==> self@.guesses[j] != guess@,
            decreases self.guesses@.len() - i,
        {
            if self.guesses[i].string == *guess {
                assert(self@.guesses[i as int] == guess@);
                return true;
            }
            i += 1;
        }
        false
    }

    /// Tells whether the secret word has been guessed.
    pub fn is_won(&self) -> (won: bool)
        ensures
            won == self@.won(),
    {
        self.guess_exists(&self.word)
    }

    /// Tells whether the game is won or lost.
    pub fn is_over(&self) -> (over: bool)
        ensures
            over == self@.over(),
    {
        self.is_won() || self.guesses.len() >= MAX_GUESSES
    }

    /// The number of guesses that are left.
    pub fn remaining_attempts(&self) -> (left: usize)
        ensures
            left == self@.remaining(),
    {
        proof {
            use_type_invariant(self);
        }
        MAX_GUESSES - self.guesses.len()
    }

    /// Takes a guess as the player typed it. The whitespace around it is
    /// dropped; what is left is turned away unless it has five characters, and
    /// is else handled as `check_word` says.
    pub fn guess_word(&mut self, guess: String) -> (outcome: GuessOutcome)
        ensures
            final(self)@ == old(self)@.after(guess@),
            outcome@ == old(self)@.outcome(guess@),
            final(self)@.valid(),
    {
        proof {
            use_type_invariant(&*self);
        }
        let word = trim(guess.as_str());
        if word.unicode_len() != WORD_LEN {
            return GuessOutcome::Rejected(RejectReason::WrongLength);
        }
        let word = word.to_owned();
        self.check_word(&word)
    }

    /// Takes a guess of five characters: turns it away if it was made before
    /// or the game is over, and else evaluates and records it.
    pub fn check_word(&mut self, guess: &String) -> (outcome: GuessOutcome)
        requires
            guess@.len() == WORD_LEN,
        ensures
            final(self)@ == old(self)@.after_word(guess@),
            outcome@ == old(self)@.outcome_of_word(guess@),
            final(self)@.valid(),
    {
        proof {
            use_type_invariant(&*self);
        }
        if self.guess_exists(guess) {
            return GuessOutcome::Rejected(RejectReason::DuplicateGuess);
        }
        if self.is_over() {
            return GuessOutcome::Rejected(RejectReason::GameOver);
        }
        let new_guess = Guess::evaluated(self.word.as_str(), guess.as_str());
        let ghost before = self@;
        let mut guesses: Vec<Guess> = Vec::new();
        std::mem::swap(&mut guesses, &mut self.guesses);
        guesses.push(new_guess);
        proof {
            let history = Seq::new(guesses@.len(), |i: int| guesses@[i].string@);
            assert(history == before.guesses.push(guess@));
            lemma_record_valid(before, guess@);
        }
        self.guesses = guesses;
        assert(self@ == before.record(guess@));
        let made = self.guesses.len();
        if *guess == self.word {
            GuessOutcome::Won
        } else if made >= MAX_GUESSES {
            GuessOutcome::Lost(self.word.clone())
        } else {
            GuessOutcome::Recorded(self.guesses[made - 1].clone(), MAX_GUESSES - made)
        }
    }
}

} // verus!
