//! The game itself: one secret number in [1, 100] and the decaying prize,
//! with the two operations a server exposes — start a new game and evaluate
//! a guess.

use crate::prize::{decayed_n, prize_scaled, Prize, FLOOR_HALVINGS, FLOOR_SCALED};
use crate::rng::random_secret;
use vstd::prelude::*;

verus! {

/// How a guess compares to the secret number.
#[derive(Clone, Copy, Debug, PartialEq, Eq, Structural)]
pub enum GuessOutcome {
    Correct,
    TooLow,
    TooHigh,
}

/// The outcome a guess must get against a secret: equal is correct, below
/// is too low, above is too high.
pub open spec fn outcome_of(secret: int, guess: int) -> GuessOutcome {
    if guess == secret {
        GuessOutcome::Correct
    } else if guess < secret {
        GuessOutcome::TooLow
    } else {
        GuessOutcome::TooHigh
    }
}

/// The reply text for each outcome.
pub open spec fn outcome_message_spec(o: GuessOutcome) -> Seq<char> {
    match o {
        GuessOutcome::Correct => "🎉 Correct! You won!"@,
        GuessOutcome::TooLow => "Too low! Try again."@,
        GuessOutcome::TooHigh => "Too high! Try again."@,
    }
}

/// The reply text for a freshly started game.
pub open spec fn start_message_spec() -> Seq<char> {
    "Game started! Guess a number between 1 and 100."@
}

impl GuessOutcome {
    /// The reply text for this outcome.
    pub fn message(&self) -> (m: String)
        ensures
            m@ == outcome_message_spec(*self),
    {
        match self {
            GuessOutcome::Correct => String::from_str("🎉 Correct! You won!"),
            GuessOutcome::TooLow => String::from_str("Too low! Try again."),
            GuessOutcome::TooHigh => String::from_str("Too high! Try again."),
        }
    }
}

/// The whole state of the game server: the secret number and the prize.
/// There is exactly one game at a time; starting a new game overwrites it.
pub struct GameState {
    secret_number: i32,
    prize: Prize,
}

impl GameState {
    /// The hidden number a guess is compared against.
    pub closed spec fn secret_spec(&self) -> int {
        self.secret_number as int
    }

    /// The halving count of the prize; its exact value is `prize_scaled`
    /// of this count.
    pub closed spec fn prize_halvings(&self) -> nat {
        self.prize@
    }

    /// The secret lies in [1, 100] and the prize count is saturated.
    pub open spec fn wf(&self) -> bool {
        &&& 1 <= self.secret_spec() <= 100
        &&& self.prize_halvings() <= FLOOR_HALVINGS
    }

    /// A fresh game with a chosen secret: full prize, nothing guessed yet.
    pub fn with_secret(secret: i32) -> (g: GameState)
        requires
            1 <= secret <= 100,
        ensures
            g.wf(),
            g.secret_spec() == secret,
            g.prize_halvings() == 0,
    {
        GameState { secret_number: secret, prize: Prize::initial() }
    }

    /// A fresh game with a randomly drawn secret.
    pub fn new_game() -> (g: GameState)
        ensures
            g.wf(),
            g.prize_halvings() == 0,
    {
        GameState::with_secret(random_secret())
    }

    /// Restart with a chosen secret: the prize returns to 1 whatever the
    /// prior state, and the secret is replaced.
    pub fn apply_start(&mut self, new_secret: i32)
        requires
            1 <= new_secret <= 100,
        ensures
            final(self).wf(),
            final(self).secret_spec() == new_secret,
            final(self).prize_halvings() == 0,
    {
        self.secret_number = new_secret;
        self.prize = Prize::initial();
    }

    /// Start a new game: draw a fresh secret in [1, 100], reset the prize
    /// to 1, and return the reply text.
    pub fn start_game(&mut self) -> (m: String)
        ensures
            final(self).wf(),
            1 <= final(self).secret_spec() <= 100,
            final(self).prize_halvings() == 0,
            m@ == start_message_spec(),
    {
        let secret = random_secret();
        self.apply_start(secret);
        String::from_str("Game started! Guess a number between 1 and 100.")
    }

    /// Evaluate one guess.  Any integer is accepted and compared; the
    /// secret never changes; an incorrect guess halves the prize (down to
    /// the floor), a correct one leaves it untouched.
    pub fn make_guess(&mut self, guess: i32) -> (out: GuessOutcome)
        requires
            old(self).wf(),
        ensures
            final(self).wf(),
            out == outcome_of(old(self).secret_spec(), guess as int),
            final(self).secret_spec() == old(self).secret_spec(),
            guess == old(self).secret_spec() ==> final(self).prize_halvings() == old(
                self,
            ).prize_halvings(),
            guess != old(self).secret_spec() ==> final(self).prize_halvings() == decayed_n(
                old(self).prize_halvings(),
                1,
            ),
    {
        let out = if guess == self.secret_number {
            GuessOutcome::Correct
        } else if guess < self.secret_number {
            GuessOutcome::TooLow
        } else {
            GuessOutcome::TooHigh
        };
        if guess != self.secret_number {
            self.prize.decay();
        }
        out
    }

    /// The exact current prize value, scaled by `PRIZE_SCALE`.
    pub fn prize_scaled_value(&self) -> (v: u64)
        requires
            self.wf(),
        ensures
            v == prize_scaled(self.prize_halvings()),
            v >= FLOOR_SCALED,
    {
        self.prize.scaled_value()
    }

    /// The secret number itself (the server logs it when a game starts).
    pub fn secret(&self) -> (s: i32)
        ensures
            s == self.secret_spec(),
    {
        self.secret_number
    }
}

} // verus!
