//! One match in progress: the running tally and the resolution of each round.
use vstd::prelude::*;

use crate::hand::{hand_of_input, Hand};
use crate::mode::Mode;
use crate::state::State;

verus! {

/// Who took a round.
#[derive(Clone, Copy, Debug, PartialEq, Eq, Structural)]
pub enum Side {
    Player,
    Computer,
    Neither,
}

/// The winner of a round: equal hands tie, otherwise `beats` decides.
pub open spec fn round_winner(player: Hand, computer: Hand) -> Side {
    if player == computer {
        Side::Neither
    } else if player.spec_beats(computer) {
        Side::Player
    } else {
        Side::Computer
    }
}

/// The two hands of a round and who took it.
#[derive(Clone, Copy, Debug, PartialEq, Eq, Structural)]
pub struct RoundOutcome {
    pub player: Hand,
    pub computer: Hand,
    pub winner: Side,
}

/// Scores one round.
pub fn resolve(player: Hand, computer: Hand) -> (r: RoundOutcome)
    ensures
        r.player == player,
        r.computer == computer,
        r.winner == round_winner(player, computer),
{
    let winner = if player == computer {
        Side::Neither
    } else if player.beats(&computer) {
        Side::Player
    } else {
        Side::Computer
    };
    RoundOutcome { player, computer, winner }
}

/// The running counters of a match.
#[derive(Clone, Copy, Debug, PartialEq, Eq, Structural)]
pub struct Tally {
    pub player_wins: u8,
    pub computer_wins: u8,
    pub ties: u8,
    pub rounds_played: u8,
}

impl Tally {
    /// Every round played was a win, a loss or a tie.
    pub open spec fn consistent(self) -> bool {
        self.rounds_played as int == self.player_wins as int + self.computer_wins as int
            + self.ties as int
    }

    /// The tally after one more round won by `winner`.
    pub open spec fn after(self, winner: Side) -> Tally {
        Tally {
            player_wins: if winner == Side::Player { (self.player_wins + 1) as u8 } else { self.player_wins },
            computer_wins: if winner == Side::Computer { (self.computer_wins + 1) as u8 } else { self.computer_wins },
            ties: if winner == Side::Neither { (self.ties + 1) as u8 } else { self.ties },
            rounds_played: (self.rounds_played + 1) as u8,
        }
    }

    /// All counters at zero.
    pub fn new() -> (r: Tally)
        ensures
            r.player_wins == 0,
            r.computer_wins == 0,
            r.ties == 0,
            r.rounds_played == 0,
    {
        Tally { player_wins: 0, computer_wins: 0, ties: 0, rounds_played: 0 }
    }
}

/// What became of one line of hand input.
#[derive(Clone, Copy, Debug, PartialEq, Eq, Structural)]
pub enum Turn {
    /// The line named no hand; nothing was played.
    Invalid,
    /// A round was played; the outcome is set when it ended the match.
    Played(RoundOutcome, Option<State>),
}

/// A match: its mode and its tally so far.
#[derive(Clone, Copy, Debug, PartialEq, Eq, Structural)]
pub struct Game {
    pub mode: Mode,
    pub tally: Tally,
}

impl Game {
    /// The tally adds up and stays within the round cap.
    pub open spec fn wf(self) -> bool {
        &&& self.tally.consistent()
        &&& self.tally.rounds_played as int <= self.mode.spec_max_rounds()
    }

    /// The outcome for the current tally, `None` while the match goes on.
    pub open spec fn spec_outcome(self) -> Option<State> {
        self.mode.spec_final_state(
            self.tally.player_wins as int,
            self.tally.computer_wins as int,
            self.tally.rounds_played as int,
        )
    }

    /// A match in `mode` with no round played.
    pub fn new(mode: Mode) -> (r: Game)
        ensures
            r.wf(),
            r.mode == mode,
            r.tally == (Tally { player_wins: 0, computer_wins: 0, ties: 0, rounds_played: 0 }),
            r.spec_outcome() is None,
    {
        Game { mode, tally: Tally::new() }
    }

    /// How the match ended, or `None` while it goes on.
    pub fn outcome(&self) -> (r: Option<State>)
        ensures
            r == self.spec_outcome(),
    {
        self.mode.final_state(self.tally.player_wins, self.tally.computer_wins, self.tally.rounds_played)
    }

    /// Plays one round of a match that is not over: scores the hands, counts
    /// the round and reports the outcome if the match has now ended.
    pub fn play_round(&mut self, player: Hand, computer: Hand) -> (r: (RoundOutcome, Option<State>))
        requires
            old(self).wf(),
            old(self).spec_outcome() is None,
        ensures
            final(self).wf(),
            final(self).mode == old(self).mode,
            r.0.player == player,
            r.0.computer == computer,
            r.0.winner == round_winner(player, computer),
            final(self).tally == old(self).tally.after(r.0.winner),
            r.1 == final(self).spec_outcome(),
    {
        let round = resolve(player, computer);
        match round.winner {
            Side::Player => self.tally.player_wins = self.tally.player_wins + 1,
            Side::Computer => self.tally.computer_wins = self.tally.computer_wins + 1,
            Side::Neither => self.tally.ties = self.tally.ties + 1,
        }
        self.tally.rounds_played = self.tally.rounds_played + 1;
        let end = self.outcome();
        (round, end)
    }

    /// Handles one line of hand input. A line that names no hand leaves the
    /// match untouched; otherwise the computer draws a hand at random and the
    /// round is played.
    pub fn turn(&mut self, input: &str) -> (r: Turn)
        requires
            old(self).wf(),
            old(self).spec_outcome() is None,
        ensures
            final(self).wf(),
            final(self).mode == old(self).mode,
            hand_of_input(input@) is None ==> r == Turn::Invalid && *final(self) == *old(self),
            hand_of_input(input@) matches Some(player) ==> (r matches Turn::Played(round, end) && {
                &&& round.player == player
                &&& round.winner == round_winner(player, round.computer)
                &&& final(self).tally == old(self).tally.after(round.winner)
                &&& end == final(self).spec_outcome()
            }),
    {
        match Hand::from_input(input) {
            None => Turn::Invalid,
            Some(player) => {
                let computer = Hand::random();
                let (round, end) = self.play_round(player, computer);
                Turn::Played(round, end)
            },
        }
    }
}

} // verus!
