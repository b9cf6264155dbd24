use spjorts::setup::how_many_rows;
use spjorts::turns::{
    game_over_message, get_score, winner, BowlingState, BowlingStateWrapper, Score,
};

#[test]
fn open_frames_add_pins() {
    assert_eq!(get_score(&[Score::Normal(5); 10]), 50);
    assert_eq!(get_score(&[Score::Normal(0); 10]), 0);
    assert_eq!(get_score(&[]), 0);
}

#[test]
fn spare_adds_next_roll() {
    let mut card = [Score::Normal(0); 10];
    card[0] = Score::Spare;
    card[1] = Score::Normal(3);
    assert_eq!(get_score(&card), 16);
}

#[test]
fn strike_adds_next_two_rolls() {
    let mut card = [Score::Normal(0); 10];
    card[0] = Score::Strike;
    card[1] = Score::Normal(4);
    card[2] = Score::Normal(2);
    assert_eq!(get_score(&card), 22);
}

#[test]
fn all_strikes() {
    assert_eq!(get_score(&[Score::Strike; 10]), 270);
}

#[test]
fn trailing_spare_counts_ten() {
    let mut card = [Score::Normal(1); 10];
    card[9] = Score::Spare;
    assert_eq!(get_score(&card), 19);
}

#[test]
fn score_text() {
    assert_eq!(Score::Normal(0).to_string(), "--");
    assert_eq!(Score::Normal(7).to_string(), "7");
    assert_eq!(Score::Normal(123).to_string(), "123");
    assert_eq!(Score::Strike.to_string(), "X");
    assert_eq!(Score::Spare.to_string(), "/");
    assert_eq!(Score::Unscored.to_string(), "");
}

#[test]
fn winner_is_last_highest() {
    assert_eq!(winner(&vec![(0, 50), (1, 70), (2, 70)]), Some((2, 70)));
    assert_eq!(winner(&vec![(0, 90), (1, 70)]), Some((0, 90)));
    assert_eq!(winner(&vec![]), None);
}

#[test]
fn rows_for_pins() {
    assert_eq!(how_many_rows(0), 0);
    assert_eq!(how_many_rows(1), 1);
    assert_eq!(how_many_rows(2), 2);
    assert_eq!(how_many_rows(3), 2);
    assert_eq!(how_many_rows(4), 3);
    assert_eq!(how_many_rows(6), 3);
    assert_eq!(how_many_rows(10), 4);
    assert_eq!(how_many_rows(11), 5);
}

#[test]
fn fresh_state() {
    let s = BowlingState::default();
    assert_eq!(s.get_throw_num(), 1);
    assert_eq!(s.get_pins_down(), 0);
    assert!(!s.is_throw_done());
}

#[test]
fn render_fresh_card() {
    let s = BowlingState::new();
    let line = "\n    +-------+----+----+----+----+----+----+----+----+----+----+";
    let expected = format!(
        "{}\n    | Plr # | 1  | 2  | 3  | 4  | 5  | 6  | 7  | 8  | 9  | 10 |{}\n--> |  0    |    | ## | ## | ## | ## | ## | ## | ## | ## | ## |{}",
        line, line, line
    );
    assert_eq!(s.render(), expected);
}

#[test]
fn two_player_frames() {
    let mut s = BowlingStateWrapper::new();
    s.set_players(2);
    // Player 0: 3 then 4 more pins.
    for _ in 0..3 {
        s.topple_pin();
    }
    s.inc_throw_num();
    assert_eq!(s.update_frame(), None);
    assert!(!s.is_throw_done());
    assert_eq!(s.get_throw_num(), 2);
    for _ in 0..4 {
        s.topple_pin();
    }
    s.inc_throw_num();
    assert_eq!(s.update_frame(), Some(false));
    assert_eq!(s.get_pins_down(), 0);
    assert_eq!(s.get_throw_num(), 1);
    // Player 1: strike.
    for _ in 0..10 {
        s.topple_pin();
    }
    s.inc_throw_num();
    assert_eq!(s.update_frame(), Some(false));
    let card = s.render();
    assert!(card.contains("\n--> |  0    | 7  |    |"));
    assert!(card.contains("\n    |  1    | X  |    |"));
}

#[test]
fn spare_on_second_throw() {
    let mut s = BowlingState::new();
    for _ in 0..6 {
        s.topple_pin();
    }
    s.inc_throw_num();
    assert_eq!(s.update_frame(), None);
    for _ in 0..4 {
        s.topple_pin();
    }
    s.inc_throw_num();
    assert_eq!(s.update_frame(), Some(false));
    assert!(s.render().contains("--> |  0    | /  |    | ##"));
}

#[test]
fn game_ends_after_last_frame() {
    let mut s = BowlingState::new();
    for frame in 0..10 {
        s.set_strike();
        let over = s.inc_frame();
        assert_eq!(over, frame == 9);
    }
    assert_eq!(s.get_score(), vec![(0, 270)]);
}

#[test]
fn pending_throw_changes_nothing() {
    let mut s = BowlingStateWrapper::new();
    s.topple_pin();
    assert_eq!(s.update_frame(), None);
    assert_eq!(s.get_pins_down(), 1);
    s.reset();
    assert_eq!(s.get_pins_down(), 0);
    s.set_score(4);
    s.set_throw_not_done();
    assert!(!s.is_throw_done());
}

#[test]
fn game_over_names_winner() {
    assert_eq!(
        game_over_message(&vec![(0, 120), (1, 187), (2, 99)]),
        Some(
            "Game Over!\nPlayer 1 wins with a final score of: 187\n\n\n\n\nPlease Restart the Page to Return Home :)"
                .to_string()
        )
    );
    assert_eq!(game_over_message(&vec![]), None);
}

#[test]
fn wrapper_default_matches_fresh_state() {
    let w = BowlingStateWrapper::default();
    assert_eq!(w.render(), BowlingState::default().render());
    assert_eq!(w.get_throw_num(), 1);
}
