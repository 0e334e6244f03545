//! How a finished match ended, from the player's side.
use vstd::prelude::*;

verus! {

/// The result of a finished match for the player.
#[derive(Clone, Copy, Debug, PartialEq, Eq, Structural)]
pub enum State {
    Win,
    Loss,
    Tie,
}

impl State {
    /// The announcement shown when the match ends.
    pub open spec fn spec_message(self) -> Seq<char> {
        match self {
            State::Win => "You Win!"@,
            State::Loss => "You Lose!"@,
            State::Tie => "It's a Tie!"@,
        }
    }

    /// The announcement shown when the match ends.
    pub fn message(&self) -> (r: &'static str)
        ensures
            r@ == self.spec_message(),
    {
        match self {
            State::Win => "You Win!",
            State::Loss => "You Lose!",
            State::Tie => "It's a Tie!",
        }
    }
}

} // verus!
