//! What follows from the rules, stated and proved.

use crate::evaluator::{evaluation, first_occurrence, GuessCharStatus};
use crate::rules::{
    is_secret, lemma_record_valid, GameView, OutcomeView, RejectReason, MAX_GUESSES, WORD_LEN,
};
use crate::text::{is_white_space, trimmed};
use vstd::prelude::*;

verus! {

/// A letter is `Correct` only at a position where the secret holds that letter.
pub proof fn lemma_correct_is_same_letter(secret: Seq<char>, guess: Seq<char>, i: int)
    requires
        0 <= i < guess.len(),
    ensures
        evaluation(secret, guess)[i] == GuessCharStatus::Correct ==> i < secret.len() && guess[i]
            == secret[i],
{
}

/// A letter is `Correct` if and only if the secret holds that letter at the
/// same position. This is stated of every guess, secret and position but
/// those where the two letters agree and the secret holds the letter at an
/// earlier position too: there the letter is `PresentElsewhere`, since only
/// its first occurrence in the secret is looked at.
pub proof fn lemma_correct_iff_same_letter(secret: Seq<char>, guess: Seq<char>, i: int)
    requires
        0 <= i < guess.len(),
        i < secret.len(),
        guess[i] == secret[i] ==> forall|j: int| 0 <= j < i ==> secret[j] != secret[i],
    ensures
        evaluation(secret, guess)[i] == GuessCharStatus::Correct <==> guess[i] == secret[i],
{
    if guess[i] == secret[i] {
        assert(secret.contains(guess[i]));
        assert(first_occurrence(secret, guess[i], i));
    }
}

/// Where the two letters agree and the secret holds the letter at an earlier
/// position too, the letter is `PresentElsewhere`.
pub proof fn lemma_repeated_letter_is_elsewhere(
    secret: Seq<char>,
    guess: Seq<char>,
    i: int,
    earlier: int,
)
    requires
        0 <= i < guess.len(),
        i < secret.len(),
        guess[i] == secret[i],
        0 <= earlier < i,
        secret[earlier] == secret[i],
    ensures
        evaluation(secret, guess)[i] == GuessCharStatus::PresentElsewhere,
{
    assert(secret.contains(guess[i]));
}

/// A letter is `Absent` if and only if the secret does not hold it anywhere.
pub proof fn lemma_absent_iff_not_in_secret(secret: Seq<char>, guess: Seq<char>, i: int)
    requires
        0 <= i < guess.len(),
    ensures
        evaluation(secret, guess)[i] == GuessCharStatus::Absent <==> !secret.contains(guess[i]),
{
}

/// Trimming leaves a word alone that neither begins nor ends with whitespace.
pub proof fn lemma_trimmed_unchanged(word: Seq<char>)
    requires
        word.len() > 0 ==> !is_white_space(word.first()) && !is_white_space(word.last()),
    ensures
        trimmed(word) == word,
{
}

/// Trimming leaves a secret word alone.
pub proof fn lemma_trimmed_secret(secret: Seq<char>)
    requires
        is_secret(secret),
    ensures
        trimmed(secret) == secret,
{
    assert(!is_white_space(secret[0]));
    assert(!is_white_space(secret[secret.len() - 1]));
}

/// The game that starts with a secret word can be reached by play.
pub proof fn lemma_start_valid(secret: Seq<char>)
    requires
        is_secret(secret),
    ensures
        GameView::start(secret).valid(),
        !GameView::start(secret).over(),
{
}

/// Whatever the guess, the game after it can be reached by play if the game
/// before it could.
pub proof fn lemma_after_valid(game: GameView, raw: Seq<char>)
    requires
        game.valid(),
    ensures
        game.after(raw).valid(),
{
    let word = trimmed(raw);
    if word.len() == WORD_LEN && game.refusal(word) is None {
        lemma_record_valid(game, word);
    }
}

/// No guess changes the secret word. A guess that is turned away leaves the
/// game as it was; any other adds itself, trimmed, at the end of the history.
pub proof fn lemma_history_grows_by_one(game: GameView, raw: Seq<char>)
    ensures
        game.after(raw).secret == game.secret,
        game.outcome(raw) is Rejected ==> game.after(raw) == game,
        !(game.outcome(raw) is Rejected) ==> game.after(raw).guesses == game.guesses.push(
            trimmed(raw),
        ),
{
}

/// A guess that does not have five characters once trimmed is turned away
/// for its length, and the game is as it was: so the same guess is turned
/// away in the same way however often it is made.
pub proof fn lemma_malformed_guess_rejected(game: GameView, raw: Seq<char>)
    requires
        trimmed(raw).len() != WORD_LEN,
    ensures
        game.outcome(raw) == OutcomeView::Rejected(RejectReason::WrongLength),
        game.after(raw) == game,
        game.after(raw).outcome(raw) == game.outcome(raw),
        game.after(raw).after(raw) == game,
{
}

/// Any guess that is turned away leaves the game as it was, and is turned
/// away again for the same reason.
pub proof fn lemma_rejection_repeats(game: GameView, raw: Seq<char>)
    requires
        game.outcome(raw) is Rejected,
    ensures
        game.after(raw) == game,
        game.after(raw).outcome(raw) == game.outcome(raw),
{
}

/// A guess that was not turned away is turned away as a duplicate when it
/// is made again, and the history does not grow.
pub proof fn lemma_duplicate_rejected(game: GameView, raw: Seq<char>)
    requires
        !(game.outcome(raw) is Rejected),
    ensures
        game.after(raw).outcome(raw) == OutcomeView::Rejected(RejectReason::DuplicateGuess),
        game.after(raw).after(raw) == game.after(raw),
        game.after(raw).guesses.len() == game.guesses.len() + 1,
{
    let word = trimmed(raw);
    let next = game.after(raw);
    assert(next.guesses[game.guesses.len() as int] == word);
}

/// While the game is not over, guessing the secret word wins it, however
/// many guesses are left.
pub proof fn lemma_secret_wins(game: GameView, raw: Seq<char>)
    requires
        is_secret(game.secret),
        !game.over(),
        raw == game.secret || trimmed(raw) == game.secret,
    ensures
        game.outcome(raw) == OutcomeView::Won,
        game.after(raw).won(),
        game.after(raw).over(),
{
    lemma_trimmed_secret(game.secret);
    let next = game.after(raw);
    assert(next.guesses[game.guesses.len() as int] == game.secret);
}

/// Once the game is over, no guess is recorded and none wins or loses it
/// again: every guess is turned away and the game stays as it is.
pub proof fn lemma_over_is_final(game: GameView, raw: Seq<char>)
    requires
        game.over(),
    ensures
        game.outcome(raw) is Rejected,
        game.after(raw) == game,
{
}

/// `raws` are guesses that each have five characters once trimmed, that
/// differ from each other once trimmed, and of which none is `secret`.
pub open spec fn distinct_misses(secret: Seq<char>, raws: Seq<Seq<char>>) -> bool {
    &&& forall|i: int| 0 <= i < raws.len() ==> (#[trigger] trimmed(raws[i])).len() == WORD_LEN
    &&& forall|i: int| 0 <= i < raws.len() ==> #[trigger] trimmed(raws[i]) != secret
    &&& forall|i: int, j: int|
        0 <= i < j < raws.len() ==> #[trigger] trimmed(raws[i]) != #[trigger] trimmed(raws[j])
}

/// The history that the guesses `raws` leave when each of them is recorded.
pub open spec fn history_of(raws: Seq<Seq<char>>) -> Seq<Seq<char>> {
    Seq::new(raws.len(), |i: int| trimmed(raws[i]))
}

/// All but the last of such guesses are such guesses too, and the history
/// that they leave holds neither the last of them nor the secret word.
proof fn lemma_earlier_misses(secret: Seq<char>, raws: Seq<Seq<char>>)
    requires
        raws.len() > 0,
        distinct_misses(secret, raws),
    ensures
        distinct_misses(secret, raws.drop_last()),
        !history_of(raws.drop_last()).contains(trimmed(raws.last())),
        !history_of(raws.drop_last()).contains(secret),
        !history_of(raws).contains(secret),
        trimmed(raws.last()).len() == WORD_LEN,
        trimmed(raws.last()) != secret,
{
    let earlier = raws.drop_last();
    let last = raws.len() - 1;
    assert forall|i: int| 0 <= i < earlier.len() implies (#[trigger] trimmed(earlier[i])).len()
        == WORD_LEN && trimmed(earlier[i]) != secret by {
        assert(trimmed(raws[i]).len() == WORD_LEN);
    }
    assert forall|i: int, j: int| 0 <= i < j < earlier.len() implies #[trigger] trimmed(
        earlier[i],
    ) != #[trigger] trimmed(earlier[j]) by {
        assert(trimmed(raws[i]) != trimmed(raws[j]));
    }
    assert forall|i: int| 0 <= i < earlier.len() implies history_of(earlier)[i] != trimmed(
        raws.last(),
    ) by {
        assert(trimmed(raws[i]) != trimmed(raws[last]));
    }
    assert forall|i: int| 0 <= i < earlier.len() implies history_of(earlier)[i] != secret by {
        assert(trimmed(raws[i]) != secret);
    }
    assert forall|i: int| 0 <= i < raws.len() implies history_of(raws)[i] != secret by {
        assert(trimmed(raws[i]) != secret);
    }
    assert(trimmed(raws[last]).len() == WORD_LEN);
}

/// Up to six wrong guesses that differ from each other are all recorded, in
/// the order in which they were made.
pub proof fn lemma_misses_are_recorded(secret: Seq<char>, raws: Seq<Seq<char>>)
    requires
        is_secret(secret),
        raws.len() <= MAX_GUESSES,
        distinct_misses(secret, raws),
    ensures
        GameView::start(secret).after_all(raws) == (GameView {
            secret,
            guesses: history_of(raws),
        }),
    decreases raws.len(),
{
    if raws.len() == 0 {
        assert(history_of(raws) == Seq::<Seq<char>>::empty());
    } else {
        let earlier = raws.drop_last();
        lemma_earlier_misses(secret, raws);
        lemma_misses_are_recorded(secret, earlier);
        let before = GameView::start(secret).after_all(earlier);
        assert(before.after(raws.last()).guesses == history_of(raws));
    }
}

/// The turn limit. Of six wrong guesses that differ from each other, the
/// sixth loses the game and gives the secret word away; after it no guess,
/// whatever it is, is recorded.
pub proof fn lemma_turn_limit(secret: Seq<char>, raws: Seq<Seq<char>>, seventh: Seq<char>)
    requires
        is_secret(secret),
        raws.len() == MAX_GUESSES,
        distinct_misses(secret, raws),
    ensures
        GameView::start(secret).after_all(raws.drop_last()).outcome(raws.last())
            == OutcomeView::Lost(secret),
        GameView::start(secret).after_all(raws).guesses.len() == MAX_GUESSES,
        GameView::start(secret).after_all(raws).lost(),
        GameView::start(secret).after_all(raws).outcome(seventh) is Rejected,
        GameView::start(secret).after_all(raws).after(seventh) == GameView::start(
            secret,
        ).after_all(raws),
{
    lemma_earlier_misses(secret, raws);
    lemma_misses_are_recorded(secret, raws.drop_last());
    lemma_misses_are_recorded(secret, raws);
}

} // verus!
