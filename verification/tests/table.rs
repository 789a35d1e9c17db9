use bridge::table::Dir;
use bridge::table::Side;
use bridge::table::Vulnerability;

const ALL_DIRS: [Dir; 4] = [Dir::North, Dir::East, Dir::South, Dir::West];

fn partner(d: Dir) -> Dir {
    match d {
        Dir::North => Dir::South,
        Dir::East => Dir::West,
        Dir::South => Dir::North,
        Dir::West => Dir::East,
    }
}

#[test]
fn test_opponent_is_exactly_the_other_axis() {
    for d in ALL_DIRS {
        assert!(!d.opponent_of(&d));
        assert!(!d.opponent_of(&partner(d)));
        for e in ALL_DIRS {
            if e != d && e != partner(d) {
                assert!(d.opponent_of(&e));
            }
        }
    }
}

#[test]
fn test_dir_ordinal_round_trip() {
    for i in 0..4u8 {
        assert_eq!(Dir::from_int(i).ord(), i);
    }
    for d in ALL_DIRS {
        assert_eq!(Dir::from_int(d.ord()), d);
    }
}

#[test]
fn test_side_ordinal_round_trip() {
    for i in 0..2u8 {
        assert_eq!(Side::from_int(i).ord(), i);
    }
    assert_eq!(Side::from_int(0), Side::NS);
    assert_eq!(Side::from_int(1), Side::WE);
}

#[test]
fn test_vulnerability_ordinal_round_trip() {
    for i in 0..4u8 {
        assert_eq!(Vulnerability::from_int(i).ord(), i);
    }
    assert_eq!(Vulnerability::from_int(0), Vulnerability::Neither);
    assert_eq!(Vulnerability::from_int(3), Vulnerability::Both);
}

#[test]
fn test_dir_text_round_trip() {
    for d in ALL_DIRS {
        let canonical = d.show();
        assert_eq!(Dir::from_str(canonical), Ok(d));
        let alias = canonical.to_lowercase();
        assert_eq!(Dir::from_str(&alias), Ok(d));
    }
    assert_eq!(Dir::show(&Dir::North), "N");
    assert_eq!(Dir::show(&Dir::East), "E");
    assert_eq!(Dir::show(&Dir::South), "S");
    assert_eq!(Dir::show(&Dir::West), "W");
}

#[test]
fn test_dir_invalid_token_is_reported() {
    for bad in ["", "Q", "NN", "north", " N"] {
        assert_eq!(Dir::from_str(bad), Err(bad.to_string()));
    }
}

#[test]
fn test_side_text_round_trip() {
    for s in [Side::NS, Side::WE] {
        let canonical = s.show();
        assert_eq!(Side::from_str(canonical), Ok(s));
        let alias = canonical.to_lowercase();
        assert_eq!(Side::from_str(&alias), Ok(s));
    }
    assert_eq!(Side::show(&Side::NS), "NS");
    assert_eq!(Side::show(&Side::WE), "WE");
}

#[test]
fn test_side_invalid_token_is_reported() {
    for bad in ["", "N", "SN", "Ns", "EW", "ns "] {
        assert_eq!(Side::from_str(bad), Err(()));
    }
}

#[test]
fn test_vulnerability_text_round_trip() {
    for v in [
        Vulnerability::Neither,
        Vulnerability::NS,
        Vulnerability::WE,
        Vulnerability::Both,
    ] {
        let canonical = v.show();
        assert_eq!(Vulnerability::from_str(canonical), Ok(v));
        let alias = canonical.to_lowercase();
        assert_eq!(Vulnerability::from_str(&alias), Ok(v));
    }
    assert_eq!(Vulnerability::show(&Vulnerability::Neither), "None");
    assert_eq!(Vulnerability::show(&Vulnerability::Both), "Both");
}

#[test]
fn test_vulnerability_invalid_token_is_reported() {
    for bad in ["", "X", "NONE", "BotH", "all", "nones"] {
        assert_eq!(Vulnerability::from_str(bad), Err(()));
    }
}

#[test]
fn test_iter_walks_the_three_other_seats_clockwise() {
    let mut it = Dir::North.iter();
    assert_eq!(it.next(), Some(Dir::East));
    assert_eq!(it.next(), Some(Dir::South));
    assert_eq!(it.next(), Some(Dir::West));
    assert_eq!(it.next(), None);
    assert_eq!(it.next(), None);

    let mut it = Dir::South.iter();
    assert_eq!(it.next(), Some(Dir::West));
    assert_eq!(it.next(), Some(Dir::North));
    assert_eq!(it.next(), Some(Dir::East));
    assert_eq!(it.next(), None);
}
