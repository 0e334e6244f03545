use rps_rs::{Mode, State};

const ALL: [Mode; 4] = [Mode::Single, Mode::BestOf3, Mode::BestOf5, Mode::BestOf7];

#[test]
fn caps_and_majorities() {
    assert_eq!(Mode::Single.max_rounds(), 1);
    assert_eq!(Mode::BestOf3.max_rounds(), 3);
    assert_eq!(Mode::BestOf5.max_rounds(), 5);
    assert_eq!(Mode::BestOf7.max_rounds(), 7);
    assert_eq!(Mode::Single.required_wins(), 1);
    assert_eq!(Mode::BestOf3.required_wins(), 2);
    assert_eq!(Mode::BestOf5.required_wins(), 3);
    assert_eq!(Mode::BestOf7.required_wins(), 4);
    for m in ALL {
        assert_eq!(m.max_rounds() % 2, 1);
        assert_eq!(m.required_wins(), m.max_rounds() / 2 + 1);
    }
}

#[test]
fn single_round_is_final() {
    assert_eq!(Mode::Single.final_state(1, 0, 1), Some(State::Win));
    assert_eq!(Mode::Single.final_state(0, 1, 1), Some(State::Loss));
    assert_eq!(Mode::Single.final_state(0, 0, 1), Some(State::Tie));
    assert_eq!(Mode::Single.final_state(0, 0, 0), None);
}

#[test]
fn best_of_three_early_clinch() {
    assert_eq!(Mode::BestOf3.final_state(1, 0, 1), None);
    assert_eq!(Mode::BestOf3.final_state(2, 0, 2), Some(State::Win));
    assert_eq!(Mode::BestOf3.final_state(0, 2, 2), Some(State::Loss));
}

#[test]
fn best_of_three_tie_break_at_cap() {
    assert_eq!(Mode::BestOf3.final_state(1, 1, 2), None);
    assert_eq!(Mode::BestOf3.final_state(1, 1, 3), Some(State::Tie));
    assert_eq!(Mode::BestOf3.final_state(1, 0, 3), Some(State::Win));
    assert_eq!(Mode::BestOf3.final_state(0, 1, 3), Some(State::Loss));
}

#[test]
fn clinch_outranks_cap() {
    assert_eq!(Mode::BestOf5.final_state(3, 2, 5), Some(State::Win));
    assert_eq!(Mode::BestOf5.final_state(2, 3, 5), Some(State::Loss));
    assert_eq!(Mode::BestOf7.final_state(4, 0, 4), Some(State::Win));
    assert_eq!(Mode::BestOf7.final_state(3, 3, 6), None);
    assert_eq!(Mode::BestOf7.final_state(3, 3, 7), Some(State::Tie));
}

#[test]
fn clinch_stays_won() {
    for m in ALL {
        let req = m.required_wins();
        for p in req..=m.max_rounds() {
            for c in 0..req {
                assert_eq!(m.final_state(p, c, p + c), Some(State::Win));
            }
        }
    }
}

#[test]
fn decisive_rounds_never_tie() {
    for m in ALL {
        let max = m.max_rounds();
        for p in 0..=max {
            let r = m.final_state(p, max - p, max);
            assert!(r == Some(State::Win) || r == Some(State::Loss));
        }
    }
}

#[test]
fn selection_reads_menu_choices() {
    assert_eq!(Mode::from_selection("1"), Some(Mode::Single));
    assert_eq!(Mode::from_selection("2\n"), Some(Mode::BestOf3));
    assert_eq!(Mode::from_selection(" 3 "), Some(Mode::BestOf5));
    assert_eq!(Mode::from_selection("4"), Some(Mode::BestOf7));
}

#[test]
fn selection_rejects_other_text() {
    assert_eq!(Mode::from_selection("9"), None);
    assert_eq!(Mode::from_selection(""), None);
    assert_eq!(Mode::from_selection("12"), None);
    assert_eq!(Mode::from_selection("one"), None);
}

#[test]
fn outcome_messages() {
    assert_eq!(State::Win.message(), "You Win!");
    assert_eq!(State::Loss.message(), "You Lose!");
    assert_eq!(State::Tie.message(), "It's a Tie!");
}
