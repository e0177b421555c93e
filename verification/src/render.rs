//! The game as text for a terminal: one bracketed cell for each letter of a
//! guess, coloured by its status, and the lines that report on a turn.

use crate::evaluator::{GuessChar, GuessCharStatus};
use crate::game::{Game, GuessOutcome};
use crate::guess::{evaluated, Guess};
use crate::rules::{GameView, OutcomeView, RejectReason, MAX_GUESSES};
use ez_colorize::ColorizeDisplay;
use vstd::prelude::*;

verus! {

/// The escape sequence that ends a colour.
pub open spec fn reset_code() -> Seq<char> {
    seq!['\u{1b}', '[', '0', 'm']
}

/// `c` in green: between the escape sequence for green and the one that ends a colour.
pub open spec fn green_text(c: char) -> Seq<char> {
    seq!['\u{1b}', '[', '3', '2', 'm'] + seq![c] + reset_code()
}

/// `c` in yellow: between the escape sequence for yellow and the one that ends a colour.
pub open spec fn yellow_text(c: char) -> Seq<char> {
    seq!['\u{1b}', '[', '3', '3', 'm'] + seq![c] + reset_code()
}

/// The letter of a guess in the colour of its status: green where it is
/// `Correct`, yellow where it is `PresentElsewhere`, plain where it is `Absent`.
pub open spec fn letter_text(letter: GuessChar) -> Seq<char> {
    match letter.status {
        GuessCharStatus::Correct => green_text(letter.char),
        GuessCharStatus::PresentElsewhere => yellow_text(letter.char),
        GuessCharStatus::Absent => seq![letter.char],
    }
}

/// The letters of a guess, each in its colour and in square brackets.
pub open spec fn row_text(letters: Seq<GuessChar>) -> Seq<char>
    decreases letters.len(),
{
    if letters.len() == 0 {
        Seq::empty()
    } else {
        row_text(letters.drop_last()) + seq!['['] + letter_text(letters.last()) + seq![']']
    }
}

/// `ColorizeDisplay::green` of ez_colorize, applied to a character: the
/// character as it is displayed, after the escape sequence `ESC [ 3 2 m` and
/// before the escape sequence `ESC [ 0 m`.
#[verifier::external_body]
fn green(c: char) -> (text: String)
    ensures
        text@ == green_text(c),
{
    c.green()
}

/// `ColorizeDisplay::yellow` of ez_colorize, applied to a character: the
/// character as it is displayed, after the escape sequence `ESC [ 3 3 m` and
/// before the escape sequence `ESC [ 0 m`.
#[verifier::external_body]
fn yellow(c: char) -> (text: String)
    ensures
        text@ == yellow_text(c),
{
    c.yellow()
}

/// `String::push`: adds `c` at the end of `text`.
#[verifier::external_body]
fn push_char(text: &mut String, c: char)
    ensures
        final(text)@ == old(text)@.push(c),
{
    text.push(c)
}

/// One row of the board: the letters of `guess`, each in its colour and in
/// square brackets.
pub fn render_guess(guess: &Guess) -> (row: String)
    ensures
        row@ == row_text(guess@.chars),
{
    let mut row = String::new();
    let mut i: usize = 0;
    while i < guess.chars.len()
        invariant
            i <= guess.chars@.len(),
            row@ == row_text(guess.chars@.take(i as int)),
        decreases guess.chars@.len() - i,
    {
        let letter = guess.chars[i];
        push_char(&mut row, '[');
        match letter.status {
            GuessCharStatus::Correct => row.append(green(letter.char).as_str()),
            GuessCharStatus::PresentElsewhere => row.append(yellow(letter.char).as_str()),
            GuessCharStatus::Absent => push_char(&mut row, letter.char),
        }
        push_char(&mut row, ']');
        proof {
            let done = guess.chars@.take(i + 1);
            assert(done.drop_last() == guess.chars@.take(i as int));
            assert(done.last() == letter);
        }
        i += 1;
    }
    assert(guess.chars@.take(i as int) == guess.chars@);
    row
}

/// The decimal digit for `n`, a number below ten.
pub open spec fn digit_char(n: nat) -> char {
    ('0' as nat + n) as char
}

/// The decimal digit for `n`.
pub fn digit(n: usize) -> (c: char)
    requires
        n < 10,
    ensures
        c == digit_char(n as nat),
{
    match n {
        0 => '0',
        1 => '1',
        2 => '2',
        3 => '3',
        4 => '4',
        5 => '5',
        6 => '6',
        7 => '7',
        8 => '8',
        _ => '9',
    }
}

/// The board: one row for each guess of the history, oldest first, each
/// followed by a line break.
pub open spec fn board_text(secret: Seq<char>, guesses: Seq<Seq<char>>) -> Seq<char>
    decreases guesses.len(),
{
    if guesses.len() == 0 {
        Seq::empty()
    } else {
        board_text(secret, guesses.drop_last()) + row_text(
            evaluated(secret, guesses.last()).chars,
        ) + seq!['\n']
    }
}

/// The status of a game: the board, and a line that tells how many of the
/// guesses are left.
pub open spec fn status_text(game: GameView) -> Seq<char> {
    board_text(game.secret, game.guesses) + "Guesses Left: "@ + seq![
        digit_char(game.remaining()),
        '/',
        digit_char(MAX_GUESSES as nat),
        '\n',
    ]
}

/// The status of `game` as text.
pub fn render_status(game: &Game) -> (text: String)
    ensures
        text@ == status_text(game@),
{
    let guesses = game.guesses();
    let mut text = String::new();
    let mut i: usize = 0;
    while i < guesses.len()
        invariant
            i <= guesses@.len(),
            guesses@.len() == game@.guesses.len(),
            forall|j: int|
                0 <= j < guesses@.len() ==> (#[trigger] guesses@[j])@ == evaluated(
                    game@.secret,
                    game@.guesses[j],
                ),
            text@ == board_text(game@.secret, game@.guesses.take(i as int)),
        decreases guesses@.len() - i,
    {
        text.append(render_guess(&guesses[i]).as_str());
        push_char(&mut text, '\n');
        proof {
            let done = game@.guesses.take(i + 1);
            assert(done.drop_last() == game@.guesses.take(i as int));
            assert(done.last() == game@.guesses[i as int]);
        }
        i += 1;
    }
    assert(game@.guesses.take(i as int) == game@.guesses);
    text.append("Guesses Left: ");
    push_char(&mut text, digit(game.remaining_attempts()));
    push_char(&mut text, '/');
    push_char(&mut text, digit(MAX_GUESSES));
    push_char(&mut text, '\n');
    text
}

/// What is shown after a turn: the status of the game as the guess left it,
/// with a line before it where the guess was turned away for its length or
/// because the game is over, or where it won the game, and a line after it,
/// which gives the secret word away, where it lost the game.
pub open spec fn turn_text(game: GameView, outcome: OutcomeView) -> Seq<char> {
    match outcome {
        OutcomeView::Rejected(RejectReason::WrongLength) => {
            "Guess must be exactly 5 characters\n"@ + status_text(game)
        },
        OutcomeView::Rejected(RejectReason::DuplicateGuess) => status_text(game),
        OutcomeView::Rejected(RejectReason::GameOver) => {
            "The game is over\n"@ + status_text(game)
        },
        OutcomeView::Recorded(_, _) => status_text(game),
        OutcomeView::Won => "You win!!\n"@ + status_text(game),
        OutcomeView::Lost(secret) => {
            status_text(game) + "You lose. The word was "@ + secret + ".\n"@
        },
    }
}

/// What is shown after a turn that left `game` and had the outcome `outcome`.
pub fn render_turn(game: &Game, outcome: &GuessOutcome) -> (text: String)
    ensures
        text@ == turn_text(game@, outcome@),
{
    let status = render_status(game);
    let mut text = String::new();
    match outcome {
        GuessOutcome::Rejected(RejectReason::WrongLength) => {
            text.append("Guess must be exactly 5 characters\n");
            text.append(status.as_str());
        },
        GuessOutcome::Rejected(RejectReason::DuplicateGuess) => {
            text.append(status.as_str());
        },
        GuessOutcome::Rejected(RejectReason::GameOver) => {
            text.append("The game is over\n");
            text.append(status.as_str());
        },
        GuessOutcome::Recorded(_, _) => {
            text.append(status.as_str());
        },
        GuessOutcome::Won => {
            text.append("You win!!\n");
            text.append(status.as_str());
        },
        GuessOutcome::Lost(secret) => {
            text.append(status.as_str());
            text.append("You lose. The word was ");
            text.append(secret.as_str());
            text.append(".\n");
        },
    }
    text
}

} // verus!
