//! The computer player: a bisection search for a secret number.
use vstd::prelude::*;

verus! {

/// Largest number of tries the computer player makes before giving up.
pub const TRY_LIMIT: u32 = 10;

/// State of the computer player between two guesses.
#[derive(Clone, Copy, Debug, PartialEq, Eq, Structural)]
pub struct SearchState {
    pub guess: u32,
    pub low: u32,
    pub high: u32,
    pub tries: u32,
}

/// What one step of the search leads to.
#[derive(Clone, Copy, Debug, PartialEq, Eq, Structural)]
pub enum Step {
    /// The current guess is the secret.
    Found,
    /// The current guess missed and the try limit is reached.
    GaveUp,
    /// The current guess missed; the search goes on from this state.
    Next(SearchState),
}

impl SearchState {
    /// The guess always lies between the two bounds.
    pub open spec fn wf(self) -> bool {
        self.low <= self.guess <= self.high
    }

    /// The state after a missed guess: the bound on the side of the miss moves
    /// to the guess, and the next guess is the middle of the new bounds.
    pub open spec fn spec_next(self, secret: u32) -> SearchState {
        if self.guess > secret {
            SearchState {
                guess: (self.low + (self.guess - self.low) / 2) as u32,
                low: self.low,
                high: self.guess,
                tries: (self.tries + 1) as u32,
            }
        } else {
            SearchState {
                guess: (self.high - (self.high - self.guess) / 2) as u32,
                low: self.guess,
                high: self.high,
                tries: (self.tries + 1) as u32,
            }
        }
    }

    /// The outcome of comparing the current guess with the secret.
    pub open spec fn spec_step(self, secret: u32) -> Step {
        if self.guess == secret {
            Step::Found
        } else if self.tries >= TRY_LIMIT {
            Step::GaveUp
        } else {
            Step::Next(self.spec_next(secret))
        }
    }

    /// The try count at which the search started from this state stops.
    pub open spec fn final_tries(self, secret: u32) -> u32
        decreases TRY_LIMIT - self.tries,
    {
        if self.guess == secret || self.tries >= TRY_LIMIT {
            self.tries
        } else {
            self.spec_next(secret).final_tries(secret)
        }
    }

    /// The opening state for a search up to `max`: guess the middle.
    pub fn start(max: u32) -> (r: SearchState)
        ensures
            r == (SearchState { guess: max / 2, low: 0, high: max, tries: 1 }),
            r.wf(),
    {
        SearchState { guess: max / 2, low: 0, high: max, tries: 1 }
    }

    /// Compares the current guess with the secret and narrows the bounds.
    pub fn step(&self, secret: u32) -> (r: Step)
        requires
            self.wf(),
        ensures
            r == self.spec_step(secret),
            r matches Step::Next(n) ==> n.wf() && n.tries == self.tries + 1,
    {
        if self.guess == secret {
            Step::Found
        } else if self.tries >= TRY_LIMIT {
            Step::GaveUp
        } else if self.guess > secret {
            Step::Next(
                SearchState {
                    guess: self.low + (self.guess - self.low) / 2,
                    low: self.low,
                    high: self.guess,
                    tries: self.tries + 1,
                },
            )
        } else {
            Step::Next(
                SearchState {
                    guess: self.high - (self.high - self.guess) / 2,
                    low: self.guess,
                    high: self.high,
                    tries: self.tries + 1,
                },
            )
        }
    }
}

/// Number of tries the bisection player makes for `secret_number` with the
/// range going up to `max`.
pub open spec fn computer_tries(secret_number: u32, max: u32) -> u32 {
    SearchState { guess: max / 2, low: 0, high: max, tries: 1 }.final_tries(secret_number)
}

/// Plays the bisection search and returns how many tries it made, the
/// successful one included; it gives up after `TRY_LIMIT` tries.
pub fn computer_guess(secret_number: u32, max: u32) -> (tries: u32)
    ensures
        tries == computer_tries(secret_number, max),
        1 <= tries <= TRY_LIMIT,
{
    let mut state = SearchState::start(max);
    loop
        invariant
            state.wf(),
            1 <= state.tries <= TRY_LIMIT,
            state.final_tries(secret_number) == computer_tries(secret_number, max),
        decreases TRY_LIMIT - state.tries,
    {
        match state.step(secret_number) {
            Step::Next(next) => {
                state = next;
            },
            _ => {
                return state.tries;
            },
        }
    }
}

/// Two to the power `k`.
pub open spec fn pow2(k: nat) -> nat
    decreases k,
{
    if k == 0 {
        1
    } else {
        2 * pow2((k - 1) as nat)
    }
}

/// The guess is a midpoint of the open interval `(low, high]`, which holds the
/// secret.
pub open spec fn bracketed(s: SearchState, secret: u32) -> bool {
    &&& s.wf()
    &&& s.low < secret <= s.high
    &&& s.low + s.high <= 2 * s.guess + 1
    &&& 2 * s.guess <= s.low + s.high + 1
}

/// A missed guess from a bracketed state keeps the secret bracketed: it stays
/// above the lower bound and at most the upper bound, and the next guess is
/// again a midpoint.
pub proof fn lemma_next_keeps_bracket(s: SearchState, secret: u32)
    requires
        bracketed(s, secret),
        s.guess != secret,
    ensures
        bracketed(s.spec_next(secret), secret),
{
}

/// From a bracketed state whose interval is at most `2^k` wide, the search
/// makes at most `k + 1` further tries.
proof fn lemma_bracketed_bound(s: SearchState, secret: u32, k: nat)
    requires
        bracketed(s, secret),
        s.high - s.low <= pow2(k),
    ensures
        s.final_tries(secret) <= s.tries + k + 1,
    decreases k,
{
    if s.guess == secret || s.tries >= TRY_LIMIT {
    } else {
        let n = s.spec_next(secret);
        if k == 0 {
            assert(n.guess == secret);
            assert(n.final_tries(secret) == n.tries);
        } else {
            assert(pow2(k) == 2 * pow2((k - 1) as nat));
            lemma_next_keeps_bracket(s, secret);
            assert(n.high - n.low <= pow2((k - 1) as nat));
            lemma_bracketed_bound(n, secret, (k - 1) as nat);
        }
    }
}

/// For a secret in `1..=max` with `max` at most `2^k`, the bisection player
/// makes at most `k + 2` tries.
pub proof fn lemma_found_within_log(secret_number: u32, max: u32, k: nat)
    requires
        1 <= secret_number <= max,
        max <= pow2(k),
    ensures
        computer_tries(secret_number, max) <= k + 2,
{
    let s = SearchState { guess: max / 2, low: 0, high: max, tries: 1 };
    lemma_bracketed_bound(s, secret_number, k);
}

/// Every secret from 1 to 100 is found by the bisection player within ten
/// tries when the range goes up to 100.
pub proof fn lemma_found_within_ten(secret_number: u32)
    requires
        1 <= secret_number <= 100,
    ensures
        computer_tries(secret_number, 100) <= 10,
{
    reveal_with_fuel(pow2, 8);
    assert(pow2(7) == 128);
    lemma_found_within_log(secret_number, 100, 7);
}

} // verus!
