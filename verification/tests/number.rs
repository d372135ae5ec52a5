use guessing_games::number::evaluate_guess;
use guessing_games::number::pick_secret_number;
use guessing_games::number::SECRET_MAX;
use guessing_games::number::SECRET_MIN;
use guessing_games::GuessOutcome;

#[test]
fn secret_number_stays_in_range() {
    for _ in 0..200 {
        let n = pick_secret_number();
        assert!((SECRET_MIN..=SECRET_MAX).contains(&n));
    }
}

#[test]
fn guess_below_secret_is_too_small() {
    assert_eq!(evaluate_guess(5, 7), GuessOutcome::TooSmall);
}

#[test]
fn guess_above_secret_is_too_big() {
    assert_eq!(evaluate_guess(70, 7), GuessOutcome::TooBig);
}

#[test]
fn guess_equal_to_secret_is_correct() {
    assert_eq!(evaluate_guess(42, 42), GuessOutcome::Correct);
}
