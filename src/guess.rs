//! Number guessing: a guess that is always between 1 and 100, and a game
//! that judges guesses against a secret number drawn at random.
use rand::Rng;
use vstd::prelude::*;

verus! {

/// A guess between 1 and 100.
pub struct Guess {
    value: i32,
}

impl Guess {
    #[verifier::type_invariant]
    spec fn in_range(&self) -> bool {
        1 <= self.value <= 100
    }

    pub closed spec fn spec_value(&self) -> i32 {
        self.value
    }

    /// A guess of `value`, which must lie between 1 and 100.
    pub fn new(value: i32) -> (r: Guess)
        requires
            1 <= value <= 100,
        ensures
            r.spec_value() == value,
    {
        Guess { value }
    }

    /// The guessed number, always between 1 and 100.
    pub fn value(&self) -> (r: i32)
        ensures
            r == self.spec_value(),
            1 <= r <= 100,
    {
        proof {
            use_type_invariant(self);
        }
        self.value
    }
}

/// How a guess compares with the secret.
#[derive(Clone, Copy, Debug, PartialEq, Eq, Structural)]
pub enum Verdict {
    TooSmall,
    TooBig,
    Win,
}

/// A round of the guessing game.
pub struct Game {
    secret: u32,
}

/// Relies on `rand::thread_rng` and `Rng::gen_range`, which returns a value
/// inside the inclusive range it is given and panics only on an empty one.
#[verifier::external_body]
fn draw_in(lo: u32, hi: u32) -> (r: u32)
    requires
        lo <= hi,
    ensures
        lo <= r <= hi,
{
    rand::thread_rng().gen_range(lo..=hi)
}

impl Game {
    pub closed spec fn spec_secret(&self) -> u32 {
        self.secret
    }

    /// A game whose secret is drawn at random between 1 and 100.
    pub fn new() -> (r: Game)
        ensures
            1 <= r.spec_secret() <= 100,
    {
        Game { secret: draw_in(1, 100) }
    }

    /// A game with the given secret.
    pub fn with_secret(secret: u32) -> (r: Game)
        ensures
            r.spec_secret() == secret,
    {
        Game { secret }
    }

    /// Judges `guess` against the secret.
    pub fn judge(&self, guess: u32) -> (r: Verdict)
        ensures
            guess < self.spec_secret() <==> r == Verdict::TooSmall,
            guess > self.spec_secret() <==> r == Verdict::TooBig,
            guess == self.spec_secret() <==> r == Verdict::Win,
    {
        if guess < self.secret {
            Verdict::TooSmall
        } else if guess > self.secret {
            Verdict::TooBig
        } else {
            Verdict::Win
        }
    }
}

} // verus!
