//! The three throws and the relation that decides a round.
use rand::Rng;
use vstd::prelude::*;

use crate::text::{
    is_ascii_lower, is_white_space, lower_of, lowercase, same_text, trim_end, trim_start, trim_text,
    trimmed,
};

verus! {

/// One of the three throws.
#[derive(Clone, Copy, Debug, PartialEq, Eq, Structural)]
pub enum Hand {
    Rock,
    Paper,
    Scissors,
}

#[verifier::external_type_specification]
#[verifier::external_body]
pub struct ExThreadRng(rand::rngs::ThreadRng);

/// Relies on `rand::rng`: a handle to the thread-local generator.
pub assume_specification[ rand::rng ]() -> rand::rngs::ThreadRng;

/// Relies on `Rng::random_range` over `lo..=hi`: a value within the range,
/// which must not be empty.
#[verifier::external_body]
fn random_between(rng: &mut rand::rngs::ThreadRng, lo: u8, hi: u8) -> (r: u8)
    requires
        lo <= hi,
    ensures
        lo <= r <= hi,
{
    rng.random_range(lo..=hi)
}

/// The hand named by an already normalised token, if any.
pub open spec fn hand_of_token(t: Seq<char>) -> Option<Hand> {
    if t == "rock"@ {
        Some(Hand::Rock)
    } else if t == "paper"@ {
        Some(Hand::Paper)
    } else if t == "scissors"@ {
        Some(Hand::Scissors)
    } else {
        None
    }
}

/// Every character is a lowercase ASCII letter.
pub open spec fn all_ascii_lower(s: Seq<char>) -> bool {
    forall|i: int| 0 <= i < s.len() ==> is_ascii_lower(#[trigger] s[i])
}

/// The hand that raw input names: trimmed, lowercased, then matched exactly.
pub open spec fn hand_of_input(s: Seq<char>) -> Option<Hand> {
    hand_of_token(lower_of(trimmed(s)))
}

/// The hand that a draw from `1..=3` stands for.
pub open spec fn hand_of_roll(n: u8) -> Hand {
    if n == 1 {
        Hand::Rock
    } else if n == 2 {
        Hand::Paper
    } else {
        Hand::Scissors
    }
}

impl Hand {
    /// The cyclic relation: rock beats scissors, scissors beats paper,
    /// paper beats rock.
    pub open spec fn spec_beats(self, other: Hand) -> bool {
        ||| self == Hand::Rock && other == Hand::Scissors
        ||| self == Hand::Scissors && other == Hand::Paper
        ||| self == Hand::Paper && other == Hand::Rock
    }

    /// The lowercase name of the hand.
    pub open spec fn spec_label(self) -> Seq<char> {
        match self {
            Hand::Rock => "rock"@,
            Hand::Paper => "paper"@,
            Hand::Scissors => "scissors"@,
        }
    }

    /// A hand drawn uniformly from the three.
    pub fn random() -> (r: Hand)
        ensures
            exists|n: u8| 1 <= n <= 3 && r == hand_of_roll(n),
    {
        let mut rng = rand::rng();
        let n = random_between(&mut rng, 1, 3);
        Hand::from_roll(n)
    }

    /// Maps a draw from `1..=3` to a hand; any value above 2 is scissors.
    pub fn from_roll(n: u8) -> (r: Hand)
        ensures
            r == hand_of_roll(n),
    {
        match n {
            1 => Hand::Rock,
            2 => Hand::Paper,
            _ => Hand::Scissors,
        }
    }

    /// Reads a hand from a line of input: surrounding whitespace is trimmed,
    /// case is ignored, and only "rock", "paper" or "scissors" are accepted.
    pub fn from_input(input: &str) -> (r: Option<Hand>)
        ensures
            r == hand_of_input(input@),
            all_ascii_lower(trimmed(input@)) ==> r == hand_of_token(trimmed(input@)),
    {
        let t = trim_text(input);
        let lower = lowercase(t);
        Hand::from_token(lower.as_str())
    }

    /// Reads a hand from a token that is already trimmed and lowercased.
    pub fn from_token(token: &str) -> (r: Option<Hand>)
        ensures
            r == hand_of_token(token@),
            r is None <==> (token@ != "rock"@ && token@ != "paper"@ && token@ != "scissors"@),
    {
        if same_text(token, "rock") {
            Some(Hand::Rock)
        } else if same_text(token, "paper") {
            Some(Hand::Paper)
        } else if same_text(token, "scissors") {
            Some(Hand::Scissors)
        } else {
            None
        }
    }

    /// Whether this hand wins against `other`.
    pub fn beats(&self, other: &Hand) -> (r: bool)
        ensures
            r == self.spec_beats(*other),
    {
        match (self, other) {
            (Hand::Rock, Hand::Scissors) => true,
            (Hand::Scissors, Hand::Paper) => true,
            (Hand::Paper, Hand::Rock) => true,
            _ => false,
        }
    }

    /// The lowercase name of the hand, for display.
    pub fn label(&self) -> (r: &'static str)
        ensures
            r@ == self.spec_label(),
    {
        match self {
            Hand::Rock => "rock",
            Hand::Paper => "paper",
            Hand::Scissors => "scissors",
        }
    }
}

/// No hand beats itself, and of two different hands exactly one beats the
/// other; so whenever `a` beats `b`, `b` does not beat `a`.
pub proof fn lemma_beats_strict(a: Hand, b: Hand)
    ensures
        !a.spec_beats(a),
        a.spec_beats(b) ==> !b.spec_beats(a),
        a != b ==> (a.spec_beats(b) != b.spec_beats(a)),
{
}

/// Reading the name of a hand back gives that hand: the name has no
/// surrounding whitespace, is already lowercase, and is the token of that
/// hand (so `Hand::from_input` maps it to the hand).
pub proof fn lemma_label_round_trip(h: Hand)
    ensures
        trimmed(h.spec_label()) == h.spec_label(),
        all_ascii_lower(h.spec_label()),
        hand_of_token(h.spec_label()) == Some(h),
{
    reveal_strlit("rock");
    reveal_strlit("paper");
    reveal_strlit("scissors");
    let s = h.spec_label();
    assert(!is_white_space(s[0]));
    assert(!is_white_space(s.last()));
    assert(trim_start(s) == s);
    assert(trim_end(s) == s);
}

/// Any token other than the three names is rejected.
pub proof fn lemma_unknown_token_rejected(t: Seq<char>)
    requires
        t != "rock"@,
        t != "paper"@,
        t != "scissors"@,
    ensures
        hand_of_token(t) is None,
{
}

} // verus!
