//! Match lengths and the rule that decides when a match is over.
use vstd::prelude::*;

use crate::state::State;
use crate::text::{same_text, trim_text, trimmed};

verus! {

/// How many rounds a match may last.
#[derive(Clone, Copy, Debug, PartialEq, Eq, Structural)]
pub enum Mode {
    Single,
    BestOf3,
    BestOf5,
    BestOf7,
}

/// The mode picked by a trimmed menu choice, if any.
pub open spec fn mode_of_choice(t: Seq<char>) -> Option<Mode> {
    if t == "1"@ {
        Some(Mode::Single)
    } else if t == "2"@ {
        Some(Mode::BestOf3)
    } else if t == "3"@ {
        Some(Mode::BestOf5)
    } else if t == "4"@ {
        Some(Mode::BestOf7)
    } else {
        None
    }
}

impl Mode {
    /// The round cap.
    pub open spec fn spec_max_rounds(self) -> int {
        match self {
            Mode::Single => 1,
            Mode::BestOf3 => 3,
            Mode::BestOf5 => 5,
            Mode::BestOf7 => 7,
        }
    }

    /// The majority of the round cap: wins that clinch the match.
    pub open spec fn spec_required_wins(self) -> int {
        self.spec_max_rounds() / 2 + 1
    }

    /// The outcome for the given tallies, or `None` while the match goes on.
    /// A clinch by the player comes first, then one by the computer, then
    /// the comparison of wins once the cap is reached.
    pub open spec fn spec_final_state(self, player_wins: int, computer_wins: int, rounds_played: int) -> Option<State> {
        if player_wins >= self.spec_required_wins() {
            Some(State::Win)
        } else if computer_wins >= self.spec_required_wins() {
            Some(State::Loss)
        } else if rounds_played >= self.spec_max_rounds() {
            if player_wins > computer_wins {
                Some(State::Win)
            } else if computer_wins > player_wins {
                Some(State::Loss)
            } else {
                Some(State::Tie)
            }
        } else {
            None
        }
    }

    /// The round cap: 1, 3, 5 or 7.
    pub fn max_rounds(&self) -> (r: u8)
        ensures
            r == self.spec_max_rounds(),
    {
        match self {
            Mode::Single => 1,
            Mode::BestOf3 => 3,
            Mode::BestOf5 => 5,
            Mode::BestOf7 => 7,
        }
    }

    /// The wins that clinch the match: half the cap, rounded down, plus one.
    pub fn required_wins(&self) -> (r: u8)
        ensures
            r == self.spec_required_wins(),
    {
        self.max_rounds() / 2 + 1
    }

    /// Decides whether the match is over after a round, and how it ended.
    pub fn final_state(&self, player_wins: u8, computer_wins: u8, rounds_played: u8) -> (r: Option<State>)
        ensures
            r == self.spec_final_state(player_wins as int, computer_wins as int, rounds_played as int),
    {
        let max = self.max_rounds();
        let required = self.required_wins();
        if player_wins >= required {
            Some(State::Win)
        } else if computer_wins >= required {
            Some(State::Loss)
        } else if rounds_played >= max {
            if player_wins > computer_wins {
                Some(State::Win)
            } else if computer_wins > player_wins {
                Some(State::Loss)
            } else {
                Some(State::Tie)
            }
        } else {
            None
        }
    }

    /// Reads the menu choice "1", "2", "3" or "4" (surrounding whitespace
    /// ignored) as single, best of 3, best of 5 or best of 7; anything else
    /// gives `None`.
    pub fn from_selection(input: &str) -> (r: Option<Mode>)
        ensures
            r == mode_of_choice(trimmed(input@)),
    {
        let t = trim_text(input);
        if same_text(t, "1") {
            Some(Mode::Single)
        } else if same_text(t, "2") {
            Some(Mode::BestOf3)
        } else if same_text(t, "3") {
            Some(Mode::BestOf5)
        } else if same_text(t, "4") {
            Some(Mode::BestOf7)
        } else {
            None
        }
    }
}

/// Every cap is odd and the wins needed are its strict majority.
pub proof fn lemma_mode_majority(m: Mode)
    ensures
        m.spec_max_rounds() % 2 == 1,
        m.spec_required_wins() == m.spec_max_rounds() / 2 + 1,
        2 * m.spec_required_wins() == m.spec_max_rounds() + 1,
{
}

/// When every round had a winner up to the cap, one side has clinched: the
/// match ends in a win or a loss, never in a tie.
pub proof fn lemma_decisive_rounds_never_tie(m: Mode, player_wins: int, computer_wins: int, rounds_played: int)
    requires
        player_wins >= 0,
        computer_wins >= 0,
        player_wins + computer_wins == m.spec_max_rounds(),
    ensures
        m.spec_final_state(player_wins, computer_wins, rounds_played) == Some(State::Win)
            || m.spec_final_state(player_wins, computer_wins, rounds_played) == Some(State::Loss),
{
}

/// A tie is only ever declared at the cap, on equal wins below the majority.
pub proof fn lemma_tie_only_at_cap(m: Mode, player_wins: int, computer_wins: int, rounds_played: int)
    requires
        m.spec_final_state(player_wins, computer_wins, rounds_played) == Some(State::Tie),
    ensures
        rounds_played >= m.spec_max_rounds(),
        player_wins == computer_wins,
        player_wins < m.spec_required_wins(),
{
}

/// Once the player has clinched, more player wins keep the outcome a win.
pub proof fn lemma_clinch_stable(m: Mode, player_wins: int, more_wins: int, computer_wins: int, rounds_played: int)
    requires
        player_wins >= m.spec_required_wins(),
        more_wins >= player_wins,
    ensures
        m.spec_final_state(player_wins, computer_wins, rounds_played) == Some(State::Win),
        m.spec_final_state(more_wins, computer_wins, rounds_played) == Some(State::Win),
{
}

} // verus!
