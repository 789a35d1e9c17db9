use bridge::table::Dir;
use bridge::trick::Rank;
use bridge::trick::SuitlessTrick;

const ALL_DIRS: [Dir; 4] = [Dir::North, Dir::East, Dir::South, Dir::West];

#[test]
fn test_fresh_record_is_empty_and_not_complete() {
    let t = SuitlessTrick::new();
    assert!(!t.complete());
    for d in ALL_DIRS {
        assert_eq!(t.played_by(d), None);
    }
}

#[test]
fn test_all_four_seats_filled_is_complete() {
    let t = SuitlessTrick::new()
        .with_played(Dir::North, Rank::new(5))
        .unwrap()
        .with_played(Dir::East, Rank::new(9))
        .unwrap()
        .with_played(Dir::South, Rank::new(2))
        .unwrap()
        .with_played(Dir::West, Rank::new(11))
        .unwrap();
    assert!(t.complete());
    assert_eq!(t.played_by(Dir::East), Some(Rank::new(9)));
}

#[test]
fn test_partial_record_is_not_complete() {
    let t = SuitlessTrick::new()
        .with_played(Dir::North, Rank::new(5))
        .unwrap()
        .with_played(Dir::East, Rank::new(9))
        .unwrap()
        .with_played(Dir::West, Rank::new(11))
        .unwrap();
    assert!(!t.complete());
    assert_eq!(t.played_by(Dir::South), None);
}

#[test]
fn test_second_play_for_a_seat_reports_the_prior_rank() {
    let t = SuitlessTrick::new()
        .with_played(Dir::West, Rank::new(7))
        .unwrap();
    let before = t;
    assert_eq!(t.with_played(Dir::West, Rank::new(12)), Err(Rank::new(7)));
    // The conflict left the record it was reported against untouched.
    assert_eq!(t, before);
    assert_eq!(t.played_by(Dir::West), Some(Rank::new(7)));
}

#[test]
fn test_winner_holds_the_highest_rank() {
    let t = SuitlessTrick::new()
        .with_played(Dir::North, Rank::new(5))
        .unwrap()
        .with_played(Dir::East, Rank::new(9))
        .unwrap()
        .with_played(Dir::South, Rank::new(13))
        .unwrap()
        .with_played(Dir::West, Rank::new(1))
        .unwrap();
    assert!(t.complete());
    assert_eq!(t.winner(), Dir::South);
}

#[test]
fn test_winner_before_completeness_beats_the_empty_seats() {
    let t = SuitlessTrick::new()
        .with_played(Dir::East, Rank::new(3))
        .unwrap();
    assert_eq!(t.winner(), Dir::East);
}

#[test]
fn test_rank_codes_round_trip() {
    for code in 1..=13u8 {
        assert_eq!(Rank::new(code).code(), code);
    }
}
