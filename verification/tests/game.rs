use guessing_games::game::render_letter;
use guessing_games::game::score_guess;
use guessing_games::Category;
use guessing_games::WordleGame;
use guessing_games::MAX_TRIES;

#[test]
fn score_grape_against_apple() {
    let fb = score_guess("APPLE", "GRAPE");
    assert_eq!(
        fb,
        vec![
            Category::Absent,
            Category::Absent,
            Category::Present,
            Category::Present,
            Category::Exact,
        ]
    );
}

#[test]
fn score_exact_match() {
    let fb = score_guess("APPLE", "APPLE");
    assert_eq!(fb, vec![Category::Exact; 5]);
}

#[test]
fn score_duplicate_letters_stay_present() {
    // The simplified scorer does no duplicate-letter accounting: the two P's
    // of the secret justify `Present` at every non-exact P of the guess.
    let fb = score_guess("APPLE", "PPPPP");
    assert_eq!(
        fb,
        vec![
            Category::Present,
            Category::Exact,
            Category::Exact,
            Category::Present,
            Category::Present,
        ]
    );
}

#[test]
fn score_all_absent() {
    let fb = score_guess("APPLE", "TURNS");
    assert_eq!(fb, vec![Category::Absent; 5]);
}

#[test]
fn game_completes_on_second_guess() {
    let mut game = WordleGame::new("APPLE".to_string());
    assert!(!game.is_complete());
    assert!(game.has_next());

    let fb = game.next("GRAPE".to_string());
    assert_eq!(
        fb,
        vec![
            Category::Absent,
            Category::Absent,
            Category::Present,
            Category::Present,
            Category::Exact,
        ]
    );
    assert!(!game.is_complete());
    assert!(game.has_next());

    let fb = game.next("APPLE".to_string());
    assert_eq!(fb, vec![Category::Exact; 5]);
    assert!(game.is_complete());
    assert!(!game.has_next());
    assert_eq!(game.guess_count(), 2);
}

#[test]
fn game_exhausts_tries_without_match() {
    let mut game = WordleGame::new("APPLE".to_string());
    let mut turns: usize = 0;
    while game.has_next() {
        game.next("CRANE".to_string());
        turns += 1;
        assert!(game.guess_count() <= MAX_TRIES);
    }
    assert_eq!(turns, MAX_TRIES);
    assert_eq!(game.guess_count(), MAX_TRIES);
    assert!(!game.is_complete());
    assert!(!game.has_next());
}

#[test]
fn render_letter_keeps_the_letter() {
    assert!(render_letter('A', Category::Exact).contains('A'));
    assert!(render_letter('B', Category::Present).contains('B'));
    assert!(render_letter('C', Category::Absent).contains('C'));
}

#[test]
fn render_letter_is_bare_or_escaped() {
    let exact = render_letter('A', Category::Exact);
    assert!(exact == "A" || exact == "\x1B[1;92mA\x1B[0m");
    let present = render_letter('B', Category::Present);
    assert!(present == "B" || present == "\x1B[1;33mB\x1B[0m");
    let absent = render_letter('C', Category::Absent);
    assert!(absent == "C" || absent == "\x1B[1;31mC\x1B[0m");
}

#[test]
fn render_last_guess_keeps_the_letters() {
    let mut game = WordleGame::new("APPLE".to_string());
    game.next("GRAPE".to_string());
    let cells = game.render_last_guess();
    assert_eq!(cells.len(), 5);
    for (cell, c) in cells.iter().zip("GRAPE".chars()) {
        assert!(cell.contains(c));
    }
}
