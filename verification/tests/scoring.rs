use bridge::scoring::ContractResult;
use bridge::scoring::Doubling;
use bridge::scoring::Outcome;
use bridge::scoring::Strain;
use bridge::table::Dir;
use bridge::table::Vulnerability;

fn contract(
    vulnerability: Vulnerability,
    level: u8,
    strain: Strain,
    doubling: Doubling,
    declarer: Dir,
    diff: i8,
) -> ContractResult {
    ContractResult {
        vulnerability,
        outcome: Outcome::Played { level, strain, doubling, declarer, diff },
    }
}

#[test]
fn test_passed_board_scores_zero() {
    let contract = ContractResult {
        vulnerability: Vulnerability::Neither,
        outcome: Outcome::Passed,
    };
    assert_eq!(contract.score(), 0)
}

#[test]
fn test_major_partscore_by_ns() {
    let contract = contract(
        Vulnerability::Neither,
        2,
        Strain::Spades,
        Doubling::Undoubled,
        Dir::North,
        0,
    );
    assert_eq!(contract.score(), 110)
}

#[test]
fn test_minor_partscore_by_we() {
    let contract = contract(
        Vulnerability::Neither,
        2,
        Strain::Clubs,
        Doubling::Undoubled,
        Dir::West,
        0,
    );
    assert_eq!(contract.score(), -90)
}

#[test]
fn test_notrump_score_with_overtricks() {
    let contract = contract(
        Vulnerability::Neither,
        2,
        Strain::NoTrump,
        Doubling::Undoubled,
        Dir::North,
        2,
    );
    assert_eq!(contract.score(), 180)
}

#[test]
fn test_vulnerable_partscore() {
    let contract = contract(
        Vulnerability::Both,
        2,
        Strain::NoTrump,
        Doubling::Undoubled,
        Dir::South,
        2,
    );
    assert_eq!(contract.score(), 180)
}

#[test]
fn test_invulnerable_game() {
    let contract = contract(
        Vulnerability::Neither,
        3,
        Strain::NoTrump,
        Doubling::Undoubled,
        Dir::North,
        0,
    );
    assert_eq!(contract.score(), 400)
}

#[test]
fn test_vulerable_game() {
    let contract = contract(
        Vulnerability::Both,
        3,
        Strain::NoTrump,
        Doubling::Undoubled,
        Dir::East,
        0,
    );
    assert_eq!(contract.score(), -600)
}

#[test]
fn test_partscore_doubled() {
    let contract = contract(
        Vulnerability::Neither,
        2,
        Strain::Spades,
        Doubling::Doubled,
        Dir::North,
        0,
    );
    assert_eq!(contract.score(), 470)
}

#[test]
fn test_passed_scores_zero_whatever_the_vulnerability() {
    for v in [
        Vulnerability::Neither,
        Vulnerability::NS,
        Vulnerability::WE,
        Vulnerability::Both,
    ] {
        let c = ContractResult { vulnerability: v, outcome: Outcome::Passed };
        assert_eq!(c.score(), 0);
    }
}

#[test]
fn test_overtricks_strictly_increase_the_score() {
    let made = contract(
        Vulnerability::Neither,
        2,
        Strain::NoTrump,
        Doubling::Undoubled,
        Dir::North,
        0,
    );
    let one_over = contract(
        Vulnerability::Neither,
        2,
        Strain::NoTrump,
        Doubling::Undoubled,
        Dir::North,
        1,
    );
    let two_over = contract(
        Vulnerability::Neither,
        2,
        Strain::NoTrump,
        Doubling::Undoubled,
        Dir::North,
        2,
    );
    assert_eq!(made.score(), 120);
    assert_eq!(one_over.score(), 150);
    assert_eq!(two_over.score(), 180);
}

#[test]
fn test_undertricks_strictly_increase_the_penalty() {
    let down: Vec<i32> = (1..=3i8)
        .map(|n: i8| {
            contract(
                Vulnerability::Both,
                4,
                Strain::Hearts,
                Doubling::Doubled,
                Dir::North,
                -n,
            )
            .score()
        })
        .collect();
    assert_eq!(down, vec![-200, -500, -800]);
}

#[test]
fn test_redoubled_penalties_double_the_doubled_ones() {
    for n in 1..=5 {
        let doubled = contract(
            Vulnerability::Neither,
            3,
            Strain::Diamonds,
            Doubling::Doubled,
            Dir::South,
            -n,
        );
        let redoubled = contract(
            Vulnerability::Neither,
            3,
            Strain::Diamonds,
            Doubling::Redoubled,
            Dir::South,
            -n,
        );
        assert_eq!(redoubled.score(), 2 * doubled.score());
    }
}

#[test]
fn test_undoubled_undertricks_are_flat() {
    let c = contract(
        Vulnerability::Neither,
        1,
        Strain::Clubs,
        Doubling::Undoubled,
        Dir::North,
        -4,
    );
    assert_eq!(c.score(), -200);
    let vulnerable = contract(
        Vulnerability::Both,
        1,
        Strain::Clubs,
        Doubling::Undoubled,
        Dir::North,
        -4,
    );
    assert_eq!(vulnerable.score(), -400);
}

#[test]
fn test_small_slam_bonus() {
    let c = contract(
        Vulnerability::Both,
        6,
        Strain::NoTrump,
        Doubling::Undoubled,
        Dir::North,
        0,
    );
    assert_eq!(c.score(), 190 + 500 + 750);
}

#[test]
fn test_grand_slam_bonus() {
    let c = contract(
        Vulnerability::Neither,
        7,
        Strain::NoTrump,
        Doubling::Undoubled,
        Dir::North,
        0,
    );
    assert_eq!(c.score(), 220 + 300 + 1250);
}

#[test]
fn test_redoubled_insult_and_overtricks() {
    let c = contract(
        Vulnerability::Both,
        2,
        Strain::Hearts,
        Doubling::Redoubled,
        Dir::East,
        1,
    );
    // 240 trick score, 500 vulnerable game, 100 insult, 400 for the overtrick,
    // negated because West/East declared.
    assert_eq!(c.score(), -(240 + 500 + 100 + 400));
}

#[test]
fn test_declarer_swapped_to_the_other_axis_negates_the_score() {
    for diff in [-3, 0, 2] {
        let by_north = contract(
            Vulnerability::Neither,
            3,
            Strain::NoTrump,
            Doubling::Undoubled,
            Dir::North,
            diff,
        );
        let by_east = contract(
            Vulnerability::Neither,
            3,
            Strain::NoTrump,
            Doubling::Undoubled,
            Dir::East,
            diff,
        );
        assert_eq!(by_east.score(), -by_north.score());
    }
    let by_south = contract(
        Vulnerability::Both,
        4,
        Strain::Spades,
        Doubling::Doubled,
        Dir::South,
        1,
    );
    let by_west = contract(
        Vulnerability::Both,
        4,
        Strain::Spades,
        Doubling::Doubled,
        Dir::West,
        1,
    );
    assert_eq!(by_west.score(), -by_south.score());
}
