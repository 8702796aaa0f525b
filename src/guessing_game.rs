//! The rules of a number guessing game: a secret drawn at random from one
//! to ten, and the verdict on each guess.
use rand::Rng;
use vstd::prelude::*;

verus! {

/// The smallest secret.
pub const LOWEST: u32 = 1;

/// The largest secret.
pub const HIGHEST: u32 = 10;

/// What a guess says about the secret.
#[derive(Debug, Clone, Copy, PartialEq, Eq, Structural)]
pub enum Verdict {
    TooSmall,
    TooBig,
    Win,
}

/// Relies on rand's `Rng::gen_range` on an inclusive range, drawn from
/// `thread_rng`: a value from `low` to `high`; it panics on an empty range.
#[verifier::external_body]
fn random_in_range(low: u32, high: u32) -> (r: u32)
    requires
        low <= high,
    ensures
        low <= r <= high,
{
    rand::thread_rng().gen_range(low..=high)
}

/// Draws the secret of a new game, from one to ten.
pub fn secret_number() -> (r: u32)
    ensures
        LOWEST <= r <= HIGHEST,
{
    random_in_range(LOWEST, HIGHEST)
}

/// Compares a guess with the secret.
pub fn judge(guess: u32, secret: u32) -> (r: Verdict)
    ensures
        guess < secret <==> r == Verdict::TooSmall,
        guess > secret <==> r == Verdict::TooBig,
        guess == secret <==> r == Verdict::Win,
{
    if guess < secret {
        Verdict::TooSmall
    } else if guess > secret {
        Verdict::TooBig
    } else {
        Verdict::Win
    }
}

} // verus!
