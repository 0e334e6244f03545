//! Rock-paper-scissors: hands, match-length modes and the match state machine.
use vstd::prelude::*;

pub mod game;
pub mod hand;
pub mod mode;
pub mod state;
pub mod text;

pub use game::{Game, RoundOutcome, Side, Tally, Turn};
pub use hand::Hand;
pub use mode::Mode;
pub use state::State;

verus! {

} // verus!
