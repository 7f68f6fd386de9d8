use vstd::prelude::*;

verus! {

/// The verdict on a guess: `0` when it is right, `1` when it is too high,
/// `-1` when it is too low.
pub open spec fn verdict_of(guess: i32, secret: i32) -> int {
    if guess == secret {
        0
    } else if guess > secret {
        1
    } else {
        -1
    }
}

/// Compares `guess` with `secret`: `0` when equal, `1` when the guess is too
/// high, `-1` when it is too low.
pub fn check_guess(guess: i32, secret: i32) -> (verdict: i32)
    ensures
        verdict == verdict_of(guess, secret),
{
    if guess == secret {
        0
    } else if guess > secret {
        1
    } else {
        -1
    }
}

/// A guess is judged correct exactly when it equals the secret, and two
/// different guesses on opposite sides of the secret get opposite verdicts.
pub proof fn lemma_verdict_sign(guess: i32, secret: i32)
    ensures
        verdict_of(guess, secret) == 0 <==> guess == secret,
        verdict_of(guess, secret) == 1 <==> guess > secret,
        verdict_of(guess, secret) == -1 <==> guess < secret,
        verdict_of(guess, secret) == -verdict_of(secret, guess),
{
}

} // verus!
