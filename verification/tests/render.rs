use wordle::render::digit;
use wordle::{render_guess, render_status, render_turn, Game, Guess, GuessOutcome, RejectReason};

const GREEN: &str = "\x1b[32m";
const YELLOW: &str = "\x1b[33m";
const RESET: &str = "\x1b[0m";

fn speak_row() -> String {
    format!(
        "[{g}s{r}][{g}p{r}][{y}e{r}][{y}a{r}][k]",
        g = GREEN,
        y = YELLOW,
        r = RESET
    )
}

#[test]
fn row_is_coloured_by_status() {
    let guess = Guess::evaluated("spare", "speak");
    assert_eq!(render_guess(&guess), speak_row());
    assert_eq!(
        render_guess(&guess),
        "[\u{1b}[32ms\u{1b}[0m][\u{1b}[32mp\u{1b}[0m]\
         [\u{1b}[33me\u{1b}[0m][\u{1b}[33ma\u{1b}[0m][k]"
    );
}

#[test]
fn row_of_misses_is_plain() {
    let guess = Guess::evaluated("spare", "mount");
    assert_eq!(render_guess(&guess), "[m][o][u][n][t]");
    assert_eq!(render_guess(&Guess::new(vec![], String::new())), "");
}

#[test]
fn status_of_a_new_game() {
    let game = Game::new(String::from("spare"));
    assert_eq!(render_status(&game), "Guesses Left: 6/6\n");
}

#[test]
fn status_lists_the_guesses_oldest_first() {
    let mut game = Game::new(String::from("spare"));
    game.guess_word(String::from("mount"));
    game.guess_word(String::from("speak"));
    assert_eq!(
        render_status(&game),
        format!("[m][o][u][n][t]\n{}\nGuesses Left: 4/6\n", speak_row())
    );
}

#[test]
fn turn_text_for_each_outcome() {
    let mut game = Game::new(String::from("spare"));

    let outcome = game.guess_word(String::from("foo"));
    assert_eq!(outcome, GuessOutcome::Rejected(RejectReason::WrongLength));
    assert_eq!(
        render_turn(&game, &outcome),
        "Guess must be exactly 5 characters\nGuesses Left: 6/6\n"
    );

    let outcome = game.guess_word(String::from("mount"));
    assert_eq!(render_turn(&game, &outcome), "[m][o][u][n][t]\nGuesses Left: 5/6\n");

    let outcome = game.guess_word(String::from("mount"));
    assert_eq!(outcome, GuessOutcome::Rejected(RejectReason::DuplicateGuess));
    assert_eq!(render_turn(&game, &outcome), "[m][o][u][n][t]\nGuesses Left: 5/6\n");

    let outcome = game.guess_word(String::from("spare"));
    assert_eq!(outcome, GuessOutcome::Won);
    let won_row = format!(
        "[{g}s{r}][{g}p{r}][{g}a{r}][{g}r{r}][{g}e{r}]",
        g = GREEN,
        r = RESET
    );
    assert_eq!(
        render_turn(&game, &outcome),
        format!("You win!!\n[m][o][u][n][t]\n{}\nGuesses Left: 4/6\n", won_row)
    );

    let outcome = game.guess_word(String::from("brick"));
    assert_eq!(outcome, GuessOutcome::Rejected(RejectReason::GameOver));
    assert_eq!(
        render_turn(&game, &outcome),
        format!("The game is over\n[m][o][u][n][t]\n{}\nGuesses Left: 4/6\n", won_row)
    );
}

#[test]
fn turn_text_for_a_lost_game() {
    let mut game = Game::new(String::from("spare"));
    for word in ["mount", "block", "thumb", "jolly", "night"] {
        game.guess_word(String::from(word));
    }
    let outcome = game.guess_word(String::from("window"));
    assert_eq!(outcome, GuessOutcome::Rejected(RejectReason::WrongLength));
    let outcome = game.guess_word(String::from("doubt"));
    assert_eq!(outcome, GuessOutcome::Lost(String::from("spare")));
    assert_eq!(
        render_turn(&game, &outcome),
        "[m][o][u][n][t]\n[b][l][o][c][k]\n[t][h][u][m][b]\n[j][o][l][l][y]\n[n][i][g][h][t]\n\
         [d][o][u][b][t]\nGuesses Left: 0/6\nYou lose. The word was spare.\n"
    );
}

#[test]
fn digits() {
    let expected = ['0', '1', '2', '3', '4', '5', '6', '7', '8', '9'];
    for n in 0..10 {
        assert_eq!(digit(n), expected[n]);
    }
}
