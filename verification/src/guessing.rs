//! The guessing game's decisions: draw a secret number, judge a guess.
//! Reading guesses and printing hints is the embedding program's part;
//! the judgement itself is total and exact.

use rand::Rng;
use vstd::prelude::*;

verus! {

/// How a guess relates to the secret number.
#[derive(Debug, PartialEq, Eq, Structural, Copy, Clone)]
pub enum GuessOutcome {
    /// The guess is below the secret.
    TooSmall,
    /// The guess is above the secret.
    TooBig,
    /// The guess is the secret.
    Win,
}

/// Judge one guess: below, above, or exactly the secret.
pub fn evaluate_guess(guess: u32, secret: u32) -> (r: GuessOutcome)
    ensures
        r is Win <==> guess == secret,
        r is TooSmall <==> guess < secret,
        r is TooBig <==> guess > secret,
{
    if guess < secret {
        GuessOutcome::TooSmall
    } else if guess > secret {
        GuessOutcome::TooBig
    } else {
        GuessOutcome::Win
    }
}

/// Relies on rand::thread_rng and rand::Rng::gen_range on an inclusive
/// range: returns a value within the bounds; panics only on an empty
/// range, which the precondition excludes.
#[verifier::external_body]
fn random_in_range(lo: u32, hi: u32) -> (r: u32)
    requires
        lo <= hi,
    ensures
        lo <= r <= hi,
{
    rand::thread_rng().gen_range(lo..=hi)
}

/// Draw the secret number for one round: from one to a hundred, bounds
/// included.
pub fn draw_secret() -> (r: u32)
    ensures
        1 <= r <= 100,
{
    random_in_range(1, 100)
}

} // verus!
