use hangman::game::{handle_guess, Game, GameError, GuessOutcome, Status, MAX_MISTAKES};

#[test]
fn whole_word_guess_matching_secret_wins() {
    assert_eq!(handle_guess("banana", "banana"), Ok(GuessOutcome::WholeWordCorrect));
}

#[test]
fn whole_word_guess_differing_from_secret_is_incorrect() {
    assert_eq!(handle_guess("bananas", "banana"), Ok(GuessOutcome::WholeWordIncorrect));
    assert_eq!(handle_guess("banan", "banana"), Ok(GuessOutcome::WholeWordIncorrect));
    assert_eq!(handle_guess("ba", "b"), Ok(GuessOutcome::WholeWordIncorrect));
}

#[test]
fn single_letter_in_word_is_correct() {
    assert_eq!(handle_guess("n", "banana"), Ok(GuessOutcome::LetterCorrect('n')));
    assert_eq!(handle_guess("a", "a"), Ok(GuessOutcome::LetterCorrect('a')));
}

#[test]
fn single_letter_not_in_word_is_incorrect() {
    assert_eq!(handle_guess("z", "banana"), Ok(GuessOutcome::LetterIncorrect('z')));
    assert_eq!(handle_guess("é", "cafe"), Ok(GuessOutcome::LetterIncorrect('é')));
}

#[test]
fn single_multibyte_letter_is_a_letter_guess() {
    assert_eq!(handle_guess("é", "café"), Ok(GuessOutcome::LetterCorrect('é')));
}

#[test]
fn empty_guess_is_rejected() {
    assert_eq!(handle_guess("", "banana"), Err(GameError::InvalidGuessInput));
    assert_eq!(handle_guess("", ""), Err(GameError::InvalidGuessInput));
}

#[test]
fn new_game_starts_playing_with_nothing_tried() {
    let g = Game::new(String::from("cat"));
    assert_eq!(g.status(), Status::Playing);
    assert_eq!(g.mistakes(), 0);
    assert!(g.guessed_letters().is_empty());
    assert_eq!(g.secret_word(), "cat");
    assert_eq!(g.chances_left(), MAX_MISTAKES);
}

#[test]
fn repeated_correct_letter_costs_one_mistake() {
    let mut g = Game::new(String::from("cat"));
    assert_eq!(g.take_guess("a"), Ok(GuessOutcome::LetterCorrect('a')));
    assert_eq!(g.mistakes(), 0);
    assert_eq!(g.take_guess("a"), Ok(GuessOutcome::LetterCorrect('a')));
    assert_eq!(g.mistakes(), 1);
    assert_eq!(g.guessed_letters(), &vec!['a']);
    assert_eq!(g.chances_left(), 4);
}

#[test]
fn repeated_wrong_letter_costs_again_but_is_listed_once() {
    let mut g = Game::new(String::from("cat"));
    g.play_turn("z");
    g.play_turn("z");
    assert_eq!(g.mistakes(), 2);
    assert_eq!(g.guessed_letters(), &vec!['z']);
}

#[test]
fn mistakes_and_letters_only_grow() {
    let mut g = Game::new(String::from("hello"));
    let mut last_mistakes = 0;
    let mut last_letters: Vec<char> = Vec::new();
    for guess in ["h", "x", "", "h", "e", "x", "q", "l"] {
        g.play_turn(guess);
        assert!(g.mistakes() >= last_mistakes);
        assert!(g.guessed_letters().starts_with(&last_letters));
        let mut seen = g.guessed_letters().clone();
        seen.sort();
        seen.dedup();
        assert_eq!(seen.len(), g.guessed_letters().len());
        last_mistakes = g.mistakes();
        last_letters = g.guessed_letters().clone();
    }
    assert_eq!(g.guessed_letters(), &vec!['h', 'x', 'e', 'q', 'l']);
    assert_eq!(g.mistakes(), 4);
}

#[test]
fn empty_guess_leaves_game_unchanged() {
    let mut g = Game::new(String::from("cat"));
    g.play_turn("x");
    assert_eq!(g.take_guess(""), Err(GameError::InvalidGuessInput));
    g.play_turn("");
    assert_eq!(g.mistakes(), 1);
    assert_eq!(g.guessed_letters(), &vec!['x']);
    assert_eq!(g.status(), Status::Playing);
}

#[test]
fn spent_budget_loses_even_on_the_right_word() {
    let mut g = Game::new(String::from("cat"));
    for guess in ["b", "d", "e", "f", "g"] {
        g.play_turn(guess);
    }
    assert_eq!(g.mistakes(), 5);
    assert_eq!(g.status(), Status::Playing);
    g.play_turn("cat");
    assert_eq!(g.status(), Status::Lost);
}

#[test]
fn begin_turn_loses_only_when_budget_spent() {
    let mut g = Game::new(String::from("cat"));
    g.begin_turn();
    assert_eq!(g.status(), Status::Playing);
    for guess in ["b", "d", "e", "f", "g"] {
        g.take_guess(guess).unwrap();
    }
    g.begin_turn();
    assert_eq!(g.status(), Status::Lost);
}

#[test]
fn wrong_whole_word_loses_at_once() {
    let mut g = Game::new(String::from("cat"));
    assert_eq!(g.take_guess("dog"), Ok(GuessOutcome::WholeWordIncorrect));
    assert_eq!(g.status(), Status::Lost);
    assert_eq!(g.mistakes(), 0);
}

#[test]
fn finished_game_ignores_further_turns() {
    let mut g = Game::new(String::from("cat"));
    g.play_turn("cat");
    assert_eq!(g.status(), Status::Won);
    g.play_turn("dog");
    g.play_turn("x");
    assert_eq!(g.status(), Status::Won);
    assert_eq!(g.mistakes(), 0);
    assert!(g.guessed_letters().is_empty());
}

#[test]
fn apply_outcome_follows_each_case() {
    let mut g = Game::new(String::from("cat"));
    g.apply_outcome(GuessOutcome::LetterIncorrect('q'));
    assert_eq!(g.mistakes(), 1);
    assert_eq!(g.guessed_letters(), &vec!['q']);
    g.apply_outcome(GuessOutcome::LetterCorrect('c'));
    assert_eq!(g.mistakes(), 1);
    assert_eq!(g.guessed_letters(), &vec!['q', 'c']);
    g.apply_outcome(GuessOutcome::WholeWordCorrect);
    assert_eq!(g.status(), Status::Won);
}

#[test]
fn five_wrong_letters_lose_before_a_sixth_guess() {
    let mut g = Game::new(String::from("cat"));
    for i in 0..5u32 {
        assert_eq!(g.mistakes(), i);
        g.play_turn("d");
        assert_eq!(g.status(), Status::Playing);
    }
    assert_eq!(g.mistakes(), 5);
    assert_eq!(g.guessed_letters(), &vec!['d']);
    g.begin_turn();
    assert_eq!(g.status(), Status::Lost);
}
