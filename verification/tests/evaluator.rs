use wordle::evaluator::{classify, find_first};
use wordle::{evaluate, Guess, GuessChar, GuessCharStatus};

const C: GuessCharStatus = GuessCharStatus::Correct;
const P: GuessCharStatus = GuessCharStatus::PresentElsewhere;
const A: GuessCharStatus = GuessCharStatus::Absent;

#[test]
fn space_against_spare() {
    assert_eq!(evaluate("spare", "space"), vec![C, C, C, A, C]);
    assert_eq!(evaluate("spare", "speak"), vec![C, C, P, P, A]);
}

#[test]
fn secret_against_itself_is_all_correct() {
    assert_eq!(evaluate("spare", "spare"), vec![C, C, C, C, C]);
    assert_eq!(evaluate("crane", "crane"), vec![C, C, C, C, C]);
}

#[test]
fn nothing_in_common_is_all_absent() {
    assert_eq!(evaluate("spare", "mount"), vec![A, A, A, A, A]);
}

#[test]
fn correct_where_letters_agree() {
    let secret: Vec<char> = "spare".chars().collect();
    for guess in ["space", "crane", "slate", "spore", "pears", "reaps", "eerie"] {
        let letters: Vec<char> = guess.chars().collect();
        let statuses = evaluate("spare", guess);
        assert_eq!(statuses.len(), 5);
        for i in 0..5 {
            assert_eq!(statuses[i] == C, letters[i] == secret[i]);
            assert_eq!(statuses[i] == A, !secret.contains(&letters[i]));
        }
    }
}

#[test]
fn repeated_letter_in_guess_is_counted_each_time() {
    assert_eq!(evaluate("spare", "eerie"), vec![P, P, P, A, C]);
}

#[test]
fn repeated_letter_in_secret_is_correct_at_its_first_place_only() {
    assert_eq!(evaluate("llama", "alley"), vec![P, P, P, A, A]);
    assert_eq!(evaluate("llama", "llama"), vec![C, P, C, C, P]);
    assert_eq!(evaluate("llama", "lemon"), vec![C, A, P, A, A]);
}

#[test]
fn positions_are_counted_in_characters() {
    assert_eq!(evaluate("héllo", "hello"), vec![C, A, C, P, C]);
    assert_eq!(evaluate("spare", "späre"), vec![C, C, A, C, C]);
}

#[test]
fn evaluate_takes_any_lengths() {
    assert_eq!(evaluate("spare", ""), vec![]);
    assert_eq!(evaluate("", "ab"), vec![A, A]);
    assert_eq!(evaluate("ab", "abab"), vec![C, C, P, P]);
}

#[test]
fn first_occurrence_is_found() {
    let word: Vec<char> = "llama".chars().collect();
    assert_eq!(find_first(&word, 'l'), Some(0));
    assert_eq!(find_first(&word, 'a'), Some(2));
    assert_eq!(find_first(&word, 'm'), Some(3));
    assert_eq!(find_first(&word, 'z'), None);
    assert_eq!(find_first(&Vec::new(), 'a'), None);
    assert_eq!(classify(&word, 'a', 2), C);
    assert_eq!(classify(&word, 'a', 4), P);
    assert_eq!(classify(&word, 'z', 0), A);
}

#[test]
fn evaluated_guess_keeps_word_and_letters() {
    let guess = Guess::evaluated("spare", "space");
    assert_eq!(guess.string, "space");
    assert_eq!(
        guess.chars,
        vec![
            GuessChar::new('s', C),
            GuessChar::new('p', C),
            GuessChar::new('a', C),
            GuessChar::new('c', A),
            GuessChar::new('e', C),
        ]
    );
    assert_eq!(guess.clone(), guess);
}

#[test]
fn guess_char_keeps_its_parts() {
    let letter = GuessChar::new('q', P);
    assert_eq!(letter.char, 'q');
    assert_eq!(letter.status, P);
    let guess = Guess::new(vec![letter], String::from("q"));
    assert_eq!(guess.chars, vec![letter]);
    assert_eq!(guess.string, "q");
}
