//! The guessing game: a secret number in `[1, 101]`, at most ten rounds,
//! and a directional hint after every wrong guess.

use vstd::prelude::*;

verus! {

/// Rounds a player may use before the game is lost.
pub const MAX_GUESSES: i32 = 10;

/// Smallest value the secret number can take.
pub const SECRET_MIN: i32 = 1;

/// Largest value the secret number can take (inclusive).
pub const SECRET_MAX: i32 = 101;

/// What a single guess revealed.
#[derive(Clone, Copy, PartialEq, Eq, Structural, Debug)]
pub enum Feedback {
    Correct,
    TooHigh,
    TooLow,
}

/// Where a game stands.
#[derive(Clone, Copy, PartialEq, Eq, Structural, Debug)]
pub enum Status {
    Playing,
    Won,
    Exhausted,
}

/// The hint owed for `guess` against `secret`.
pub open spec fn spec_feedback(secret: int, guess: int) -> Feedback {
    if guess == secret {
        Feedback::Correct
    } else if guess > secret {
        Feedback::TooHigh
    } else {
        Feedback::TooLow
    }
}

/// Classifies one guess against the secret: equal wins, otherwise the
/// hint says on which side the guess fell.
pub fn classify_guess(secret: i32, guess: i32) -> (f: Feedback)
    ensures
        f == spec_feedback(secret as int, guess as int),
        f is Correct <==> guess == secret,
        f is TooHigh <==> guess > secret,
        f is TooLow <==> guess < secret,
{
    if guess == secret {
        Feedback::Correct
    } else if guess > secret {
        Feedback::TooHigh
    } else {
        Feedback::TooLow
    }
}

/// Relies on rand::Rng::gen_range over the inclusive range
/// `SECRET_MIN..=SECRET_MAX`: the sample always lies inside that range,
/// and the range is not empty, so the call does not panic.  Nothing more
/// is promised of a random draw.
#[verifier::external_body]
fn sample_secret() -> (r: i32)
    ensures
        SECRET_MIN <= r <= SECRET_MAX,
{
    rand::Rng::gen_range(&mut rand::thread_rng(), SECRET_MIN..=SECRET_MAX)
}

/// One run of the guessing game.
pub struct GameState {
    /// The number the player is after.
    pub secret: i32,
    /// Valid guesses consumed so far.
    pub counter: i32,
    /// Whether play goes on, was won, or ran out of rounds.
    pub status: Status,
}

impl GameState {
    /// Every reachable game state satisfies this.
    pub open spec fn inv(self) -> bool {
        &&& SECRET_MIN <= self.secret <= SECRET_MAX
        &&& 0 <= self.counter <= MAX_GUESSES
        &&& (self.status is Exhausted ==> self.counter == MAX_GUESSES)
        &&& (self.status is Playing ==> self.counter < MAX_GUESSES)
    }

    /// Starts a game on a given secret, with no guesses spent.
    pub fn new(secret: i32) -> (g: GameState)
        requires
            SECRET_MIN <= secret <= SECRET_MAX,
        ensures
            g.inv(),
            g.secret == secret,
            g.counter == 0,
            g.status is Playing,
    {
        GameState { secret, counter: 0, status: Status::Playing }
    }

    /// Starts a game on a freshly drawn secret.  The secret is random, so
    /// nothing beyond its range is promised of it.
    pub fn new_random() -> (g: GameState)
        ensures
            g.inv(),
            g.counter == 0,
            g.status is Playing,
    {
        let secret = sample_secret();
        GameState::new(secret)
    }

    /// Plays one round: a correct guess wins at once; a wrong guess spends
    /// a round and, when it was the last one, loses the game.
    pub fn step(&mut self, guess: i32) -> (f: Feedback)
        requires
            old(self).inv(),
            old(self).status is Playing,
        ensures
            final(self).inv(),
            final(self).secret == old(self).secret,
            f == spec_feedback(old(self).secret as int, guess as int),
            guess == old(self).secret ==> final(self).status is Won
                && final(self).counter == old(self).counter,
            guess != old(self).secret ==> final(self).counter == old(self).counter + 1
                && (final(self).status is Exhausted <==> old(self).counter + 1 == MAX_GUESSES)
                && (final(self).status is Playing <==> old(self).counter + 1 < MAX_GUESSES),
    {
        let f = classify_guess(self.secret, guess);
        if guess == self.secret {
            self.status = Status::Won;
        } else {
            self.counter = self.counter + 1;
            if self.counter == MAX_GUESSES {
                self.status = Status::Exhausted;
            }
        }
        f
    }
    /// Runs a whole game against a prepared list of guesses, one per
    /// round.  Play stops the moment a guess is correct, and after
    /// `MAX_GUESSES` wrong guesses otherwise; the result gives the final
    /// status and how many rounds were played.  The list must be long
    /// enough to feed every round that can occur.
    pub fn play(secret: i32, guesses: &Vec<i32>) -> (r: (Status, usize))
        requires
            SECRET_MIN <= secret <= SECRET_MAX,
            guesses@.len() >= MAX_GUESSES,
        ensures
            r.1 <= MAX_GUESSES,
            r.0 is Won <==> exists|k: int| 0 <= k < MAX_GUESSES && guesses@[k] == secret,
            r.0 is Won || r.0 is Exhausted,
            r.0 is Won ==> r.1 >= 1 && guesses@[r.1 - 1] == secret
                && (forall|j: int| 0 <= j < r.1 - 1 ==> guesses@[j] != secret),
            r.0 is Exhausted ==> r.1 == MAX_GUESSES
                && (forall|j: int| 0 <= j < MAX_GUESSES ==> guesses@[j] != secret),
    {
        let mut g = GameState::new(secret);
        let mut i: usize = 0;
        while g.status == Status::Playing
            invariant
                g.inv(),
                g.secret == secret,
                guesses@.len() >= MAX_GUESSES,
                g.counter == i,
                forall|j: int| 0 <= j < i ==> guesses@[j] != secret,
                g.status is Won ==> i < MAX_GUESSES && guesses@[i as int] == secret,
            decreases MAX_GUESSES - i + (if g.status is Playing { 1int } else { 0int }),
        {
            let guess = guesses[i];
            let _f = g.step(guess);
            if g.status != Status::Won {
                i = i + 1;
            }
        }
        if g.status == Status::Won {
            (Status::Won, i + 1)
        } else {
            (Status::Exhausted, i)
        }
    }
}

} // verus!
