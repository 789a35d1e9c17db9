//! The scoring calculator: maps a finished contract (level, strain,
//! doubling, declaring seat, trick differential) together with the board's
//! vulnerability to the official signed point score, positive when the
//! North/South pair gained and negative when West/East did.

use vstd::math::abs;
use vstd::prelude::*;

use crate::table::Dir;
use crate::table::Side;
use crate::table::Vulnerability;

verus! {

/// The trump designation of a contract: one of the four suits, or no-trump.
#[derive(Clone, Copy, PartialEq, Eq, Structural, Debug)]
pub enum Strain {
    Clubs,
    Diamonds,
    Hearts,
    Spades,
    NoTrump,
}

/// How often the contract was doubled before play.
#[derive(Clone, Copy, PartialEq, Eq, Structural, Debug)]
pub enum Doubling {
    Undoubled,
    Doubled,
    Redoubled,
}

/// How a board ended: passed out without a contract, or played under a
/// contract of `level` (1 through 7) in `strain`, possibly doubled, by
/// `declarer`, with `diff` tricks taken beyond the contract (0 made
/// exactly, positive overtricks, negative undertricks).
#[derive(Clone, Copy, PartialEq, Eq, Structural, Debug)]
pub enum Outcome {
    Passed,
    Played { level: u8, strain: Strain, doubling: Doubling, declarer: Dir, diff: i8 },
}

/// The result of one board: its outcome under the board's vulnerability.
#[derive(Clone, Copy, PartialEq, Eq, Structural, Debug)]
pub struct ContractResult {
    pub vulnerability: Vulnerability,
    pub outcome: Outcome,
}

impl Outcome {
    /// A played outcome is well formed when its level is a contract level
    /// and it does not lose more tricks than were to be played.
    pub open spec fn wf(self) -> bool {
        match self {
            Outcome::Passed => true,
            Outcome::Played { level, diff, .. } => 1 <= level <= 7 && -(6 + level as int)
                <= diff as int,
        }
    }
}

impl ContractResult {
    pub open spec fn wf(self) -> bool {
        self.outcome.wf()
    }

    /// The official signed point score of the board, from the North/South
    /// pair's perspective.
    pub fn score(&self) -> (r: i32)
        requires
            self.wf(),
        ensures
            r as int == score_spec(*self),
    {
        score_outcome(&self.outcome, self.vulnerability)
    }
}

/// Whether the given axis is vulnerable on a board with the given
/// vulnerability state.
pub open spec fn side_is_vulnerable(s: Side, v: Vulnerability) -> bool {
    match v {
        Vulnerability::Neither => false,
        Vulnerability::NS => s == Side::NS,
        Vulnerability::WE => s == Side::WE,
        Vulnerability::Both => true,
    }
}

/// The undoubled trick score of a made contract: 20 per trick in a minor
/// suit, 30 in a major, and 40 for the first plus 30 for each later trick
/// in no-trump.
pub open spec fn trick_score_base(strain: Strain, level: int) -> int {
    match strain {
        Strain::Clubs => 20 * level,
        Strain::Diamonds => 20 * level,
        Strain::Hearts => 30 * level,
        Strain::Spades => 30 * level,
        Strain::NoTrump => 40 + 30 * (level - 1),
    }
}

/// The factor doubling applies to the trick score.
pub open spec fn doubling_factor(d: Doubling) -> int {
    match d {
        Doubling::Undoubled => 1,
        Doubling::Doubled => 2,
        Doubling::Redoubled => 4,
    }
}

/// The trick score of a made contract: the base value multiplied by the
/// doubling factor.
pub open spec fn trick_score(strain: Strain, doubling: Doubling, level: int) -> int {
    trick_score_base(strain, level) * doubling_factor(doubling)
}

/// The game bonus (300 not vulnerable, 500 vulnerable) when the trick score
/// reaches 100, and the flat partscore bonus of 50 otherwise.
pub open spec fn game_bonus(ts: int, vul: bool) -> int {
    if ts >= 100 {
        if vul {
            500
        } else {
            300
        }
    } else {
        50
    }
}

/// The slam bonus: level 6 adds 500 (750 vulnerable), level 7 adds 1250
/// (1500 vulnerable), and one excludes the other.
pub open spec fn slam_bonus(level: int, vul: bool) -> int {
    if level == 6 {
        if vul {
            750
        } else {
            500
        }
    } else if level == 7 {
        if vul {
            1500
        } else {
            1250
        }
    } else {
        0
    }
}

/// The bonus for making a doubled (50) or redoubled (100) contract.
pub open spec fn insult_bonus(d: Doubling) -> int {
    match d {
        Doubling::Undoubled => 0,
        Doubling::Doubled => 50,
        Doubling::Redoubled => 100,
    }
}

/// The value of each overtrick: the strain's per-trick base value when
/// undoubled, 100 (200 vulnerable) when doubled, twice that when redoubled.
pub open spec fn overtrick_unit(strain: Strain, doubling: Doubling, vul: bool) -> int {
    match doubling {
        Doubling::Undoubled => match strain {
            Strain::Clubs => 20,
            Strain::Diamonds => 20,
            Strain::Hearts => 30,
            Strain::Spades => 30,
            Strain::NoTrump => 30,
        },
        Doubling::Doubled => if vul {
            200
        } else {
            100
        },
        Doubling::Redoubled => if vul {
            400
        } else {
            200
        },
    }
}

/// The points a made contract earns for the declaring axis: trick score,
/// game or partscore bonus, slam bonus, the bonus for a made doubled
/// contract, and the overtricks.
pub open spec fn made_points(
    level: int,
    strain: Strain,
    doubling: Doubling,
    vul: bool,
    over: int,
) -> int {
    let ts = trick_score(strain, doubling, level);
    ts + game_bonus(ts, vul) + slam_bonus(level, vul) + insult_bonus(doubling) + over
        * overtrick_unit(strain, doubling, vul)
}

/// The penalty a failed contract costs the declaring axis, over `under`
/// undertricks: 50 (100 vulnerable) per trick undoubled; doubled, 100 for
/// the first and 200 for each later trick (vulnerable 200 then 300);
/// redoubled, exactly double the doubled figures.
pub open spec fn undertrick_penalty(doubling: Doubling, vul: bool, under: int) -> int {
    match doubling {
        Doubling::Undoubled => if vul {
            100 * under
        } else {
            50 * under
        },
        Doubling::Doubled => if vul {
            200 + 300 * (under - 1)
        } else {
            100 + 200 * (under - 1)
        },
        Doubling::Redoubled => if vul {
            400 + 600 * (under - 1)
        } else {
            200 + 400 * (under - 1)
        },
    }
}

/// The signed score of an outcome from the North/South perspective: zero
/// for a passed board; otherwise the made points or the negated undertrick
/// penalty for the declaring axis, negated again when West/East declared.
pub open spec fn outcome_points(o: Outcome, v: Vulnerability) -> int {
    match o {
        Outcome::Passed => 0,
        Outcome::Played { level, strain, doubling, declarer, diff } => {
            let side = declarer.side_spec();
            let vul = side_is_vulnerable(side, v);
            let magnitude = if diff >= 0 {
                made_points(level as int, strain, doubling, vul, diff as int)
            } else {
                -undertrick_penalty(doubling, vul, -(diff as int))
            };
            if side == Side::NS {
                magnitude
            } else {
                -magnitude
            }
        },
    }
}

/// The signed score of a board's result from the North/South perspective.
pub open spec fn score_spec(c: ContractResult) -> int {
    outcome_points(c.outcome, c.vulnerability)
}

/// The scoring engine: the signed point score of an outcome on a board with
/// the given vulnerability, from the North/South pair's perspective.
pub fn score_outcome(o: &Outcome, v: Vulnerability) -> (r: i32)
    requires
        o.wf(),
    ensures
        r as int == outcome_points(*o, v),
{
    match *o {
        Outcome::Passed => 0,
        Outcome::Played { level, strain, doubling, declarer, diff } => {
            let side = declarer.side();
            let vul = match v {
                Vulnerability::Neither => false,
                Vulnerability::NS => side == Side::NS,
                Vulnerability::WE => side == Side::WE,
                Vulnerability::Both => true,
            };
            let magnitude: i32 = if diff >= 0 {
                made_points_exec(level, strain, doubling, vul, diff)
            } else {
                let under: i32 = -(diff as i32);
                -undertrick_penalty_exec(doubling, vul, under)
            };
            if side == Side::NS {
                magnitude
            } else {
                -magnitude
            }
        },
    }
}

fn made_points_exec(level: u8, strain: Strain, doubling: Doubling, vul: bool, diff: i8) -> (r: i32)
    requires
        1 <= level <= 7,
        diff >= 0,
    ensures
        r as int == made_points(level as int, strain, doubling, vul, diff as int),
{
    let l: i32 = level as i32;
    let base: i32 = match strain {
        Strain::Clubs => 20 * l,
        Strain::Diamonds => 20 * l,
        Strain::Hearts => 30 * l,
        Strain::Spades => 30 * l,
        Strain::NoTrump => 40 + 30 * (l - 1),
    };
    let ts: i32 = match doubling {
        Doubling::Undoubled => base,
        Doubling::Doubled => 2 * base,
        Doubling::Redoubled => 4 * base,
    };
    let bonus: i32 = if ts >= 100 {
        if vul {
            500
        } else {
            300
        }
    } else {
        50
    };
    let slam: i32 = if level == 6 {
        if vul {
            750
        } else {
            500
        }
    } else if level == 7 {
        if vul {
            1500
        } else {
            1250
        }
    } else {
        0
    };
    let insult: i32 = match doubling {
        Doubling::Undoubled => 0,
        Doubling::Doubled => 50,
        Doubling::Redoubled => 100,
    };
    let over: i32 = diff as i32;
    let overtricks: i32 = match doubling {
        Doubling::Undoubled => match strain {
            Strain::Clubs => 20 * over,
            Strain::Diamonds => 20 * over,
            Strain::Hearts => 30 * over,
            Strain::Spades => 30 * over,
            Strain::NoTrump => 30 * over,
        },
        Doubling::Doubled => if vul {
            200 * over
        } else {
            100 * over
        },
        Doubling::Redoubled => if vul {
            400 * over
        } else {
            200 * over
        },
    };
    ts + bonus + slam + insult + overtricks
}

fn undertrick_penalty_exec(doubling: Doubling, vul: bool, under: i32) -> (r: i32)
    requires
        1 <= under <= 128,
    ensures
        r as int == undertrick_penalty(doubling, vul, under as int),
{
    match doubling {
        Doubling::Undoubled => if vul {
            100 * under
        } else {
            50 * under
        },
        Doubling::Doubled => if vul {
            200 + 300 * (under - 1)
        } else {
            100 + 200 * (under - 1)
        },
        Doubling::Redoubled => if vul {
            400 + 600 * (under - 1)
        } else {
            200 + 400 * (under - 1)
        },
    }
}

/// The points of a made contract are positive, and the penalty of a failed
/// one is as well, so the two lemmas below speak of the score's magnitude.
pub proof fn lemma_points_positive(
    level: int,
    strain: Strain,
    doubling: Doubling,
    vul: bool,
    over: int,
    under: int,
)
    requires
        1 <= level <= 7,
        over >= 0,
        under >= 1,
    ensures
        made_points(level, strain, doubling, vul, over) > 0,
        undertrick_penalty(doubling, vul, under) > 0,
{
    let u = overtrick_unit(strain, doubling, vul);
    assert(over * u >= 0) by (nonlinear_arith)
        requires
            over >= 0,
            u >= 20,
    ;
    assert(undertrick_penalty(doubling, vul, under) > 0) by (nonlinear_arith)
        requires
            under >= 1,
    ;
}

/// Law: with the contract's parameters fixed, each further overtrick
/// strictly increases the points a made contract earns, and so the score's
/// magnitude.
pub proof fn lemma_overtricks_monotonic(
    level: int,
    strain: Strain,
    doubling: Doubling,
    vul: bool,
    o1: int,
    o2: int,
)
    requires
        0 <= o1 < o2,
    ensures
        made_points(level, strain, doubling, vul, o1) < made_points(level, strain, doubling, vul, o2),
{
    let u = overtrick_unit(strain, doubling, vul);
    assert(o1 * u < o2 * u) by (nonlinear_arith)
        requires
            0 <= o1 < o2,
            u >= 20,
    ;
}

/// Law: with the contract's parameters fixed, each further undertrick
/// strictly increases the penalty, and so the score's magnitude.
pub proof fn lemma_undertricks_monotonic(doubling: Doubling, vul: bool, u1: int, u2: int)
    requires
        1 <= u1 < u2,
    ensures
        undertrick_penalty(doubling, vul, u1) < undertrick_penalty(doubling, vul, u2),
{
}

/// Law: with the contract's parameters fixed, a result with more overtricks
/// scores strictly more in magnitude than one with fewer.
pub proof fn lemma_overtricks_increase_score_magnitude(
    v: Vulnerability,
    level: u8,
    strain: Strain,
    doubling: Doubling,
    declarer: Dir,
    d1: i8,
    d2: i8,
)
    requires
        1 <= level <= 7,
        0 <= d1 < d2,
    ensures
        abs(outcome_points(Outcome::Played { level, strain, doubling, declarer, diff: d1 }, v))
            < abs(
            outcome_points(Outcome::Played { level, strain, doubling, declarer, diff: d2 }, v),
        ),
{
    let vul = side_is_vulnerable(declarer.side_spec(), v);
    lemma_points_positive(level as int, strain, doubling, vul, d1 as int, 1);
    lemma_points_positive(level as int, strain, doubling, vul, d2 as int, 1);
    lemma_overtricks_monotonic(level as int, strain, doubling, vul, d1 as int, d2 as int);
}

/// Law: with the contract's parameters fixed, a result with more undertricks
/// scores strictly more in magnitude against the declaring axis than one
/// with fewer.
pub proof fn lemma_undertricks_increase_score_magnitude(
    v: Vulnerability,
    level: u8,
    strain: Strain,
    doubling: Doubling,
    declarer: Dir,
    d1: i8,
    d2: i8,
)
    requires
        1 <= level <= 7,
        d2 < d1 <= -1,
    ensures
        abs(outcome_points(Outcome::Played { level, strain, doubling, declarer, diff: d1 }, v))
            < abs(
            outcome_points(Outcome::Played { level, strain, doubling, declarer, diff: d2 }, v),
        ),
{
    let vul = side_is_vulnerable(declarer.side_spec(), v);
    lemma_points_positive(level as int, strain, doubling, vul, 0, -(d1 as int));
    lemma_points_positive(level as int, strain, doubling, vul, 0, -(d2 as int));
    lemma_undertricks_monotonic(doubling, vul, -(d1 as int), -(d2 as int));
}

/// Law: on a board where neither or both axes are vulnerable, moving the
/// same contract and outcome to a declarer of the opposing axis exactly
/// negates the score. (With one axis vulnerable the magnitudes differ, so
/// those boards are left out.)
pub proof fn lemma_declarer_axis_symmetry(
    v: Vulnerability,
    level: u8,
    strain: Strain,
    doubling: Doubling,
    d1: Dir,
    d2: Dir,
    diff: i8,
)
    requires
        d1.side_spec() != d2.side_spec(),
        v == Vulnerability::Neither || v == Vulnerability::Both,
    ensures
        outcome_points(Outcome::Played { level, strain, doubling, declarer: d2, diff }, v)
            == -outcome_points(Outcome::Played { level, strain, doubling, declarer: d1, diff }, v),
{
}

} // verus!
