use rand::Rng;
use vstd::prelude::*;

verus! {

/// Smallest value the secret number may take.
pub const SECRET_MIN: u32 = 1;

/// Largest value the secret number may take.
pub const SECRET_MAX: u32 = 100;

/// How a guessed number compares to the secret number.
#[derive(Clone, Copy, Debug, PartialEq, Eq, Structural)]
pub enum GuessOutcome {
    /// The guess is below the secret.
    TooSmall,
    /// The guess equals the secret: the player wins.
    Correct,
    /// The guess is above the secret.
    TooBig,
}

/// Relies on rand::thread_rng and rand::Rng::gen_range: a uniform sample
/// from the non-empty range `SECRET_MIN..=SECRET_MAX`, which always lies
/// within that range.
#[verifier::external_body]
fn random_in_range() -> (r: u32)
    ensures
        SECRET_MIN <= r <= SECRET_MAX,
{
    rand::thread_rng().gen_range(SECRET_MIN..=SECRET_MAX)
}

/// Draw a fresh secret number. The draw is random, so nothing beyond its
/// bounds is promised: whatever comes back lies between `SECRET_MIN` and
/// `SECRET_MAX`.
pub fn pick_secret_number() -> (r: u32)
    ensures
        SECRET_MIN <= r <= SECRET_MAX,
{
    random_in_range()
}

/// Compare a guess with the secret: too small, correct, or too big, each
/// exactly when the corresponding ordering holds.
pub fn evaluate_guess(guess: u32, secret: u32) -> (r: GuessOutcome)
    ensures
        (r == GuessOutcome::Correct <==> guess == secret),
        (r == GuessOutcome::TooSmall <==> guess < secret),
        (r == GuessOutcome::TooBig <==> guess > secret),
{
    if guess < secret {
        GuessOutcome::TooSmall
    } else if guess > secret {
        GuessOutcome::TooBig
    } else {
        GuessOutcome::Correct
    }
}

} // verus!
