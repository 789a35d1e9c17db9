//! Categorical enumerations of the table: the four seating directions, the
//! two axes (partnerships), and the board's vulnerability state. Each value
//! has a stable ordinal, a canonical short textual form with one
//! case-insensitive alias, and parsing that rejects every other token.

use vstd::prelude::*;
use vstd::string::StrSliceExecFns;

verus! {

/// One of the four seats, in the fixed clockwise order North, East, South,
/// West.
#[derive(Clone, Copy, PartialEq, Eq, Structural, Debug)]
pub enum Dir {
    North,
    East,
    South,
    West,
}

/// One of the two partnerships: North/South or West/East.
#[derive(Clone, Copy, PartialEq, Eq, Structural, Debug)]
pub enum Side {
    NS,
    WE,
}

/// Which pair(s) of a board are vulnerable.
#[derive(Clone, Copy, PartialEq, Eq, Structural, Debug)]
pub enum Vulnerability {
    Neither,
    NS,
    WE,
    Both,
}

impl Dir {
    /// Stable ordinal of the seat, 0 through 3, in clockwise order.
    pub open spec fn ord_spec(self) -> int {
        match self {
            Dir::North => 0,
            Dir::East => 1,
            Dir::South => 2,
            Dir::West => 3,
        }
    }

    /// The seat with the given ordinal.
    pub open spec fn from_ord_spec(i: int) -> Dir {
        if i == 0 {
            Dir::North
        } else if i == 1 {
            Dir::East
        } else if i == 2 {
            Dir::South
        } else {
            Dir::West
        }
    }

    /// The axis this seat belongs to: North and South pair up, as do East
    /// and West.
    pub open spec fn side_spec(self) -> Side {
        match self {
            Dir::North => Side::NS,
            Dir::East => Side::WE,
            Dir::South => Side::NS,
            Dir::West => Side::WE,
        }
    }

    /// The seat's partner: the other member of its axis.
    pub open spec fn partner_spec(self) -> Dir {
        match self {
            Dir::North => Dir::South,
            Dir::East => Dir::West,
            Dir::South => Dir::North,
            Dir::West => Dir::East,
        }
    }

    /// The next seat clockwise.
    pub open spec fn succ_spec(self) -> Dir {
        match self {
            Dir::North => Dir::East,
            Dir::East => Dir::South,
            Dir::South => Dir::West,
            Dir::West => Dir::North,
        }
    }

    /// The previous seat clockwise.
    pub open spec fn pred_spec(self) -> Dir {
        match self {
            Dir::North => Dir::West,
            Dir::East => Dir::North,
            Dir::South => Dir::East,
            Dir::West => Dir::South,
        }
    }

    /// Two seats are opponents exactly when they sit on different axes.
    pub open spec fn opponent_spec(self, other: Dir) -> bool {
        self.side_spec() != other.side_spec()
    }

    /// The seat with ordinal `i`. Calling this with an out-of-range ordinal
    /// is a caller error, not a recoverable failure.
    pub fn from_int(i: u8) -> (r: Dir)
        requires
            i < 4,
        ensures
            r == Dir::from_ord_spec(i as int),
            r.ord_spec() == i as int,
    {
        if i == 0 {
            Dir::North
        } else if i == 1 {
            Dir::East
        } else if i == 2 {
            Dir::South
        } else {
            Dir::West
        }
    }

    /// The seat's ordinal, 0 through 3.
    pub fn ord(&self) -> (r: u8)
        ensures
            r as int == self.ord_spec(),
    {
        match *self {
            Dir::North => 0,
            Dir::East => 1,
            Dir::South => 2,
            Dir::West => 3,
        }
    }

    /// The axis this seat belongs to.
    pub fn side(&self) -> (r: Side)
        ensures
            r == self.side_spec(),
    {
        match *self {
            Dir::North => Side::NS,
            Dir::East => Side::WE,
            Dir::South => Side::NS,
            Dir::West => Side::WE,
        }
    }

    /// Whether `other` sits on the opposing axis.
    pub fn opponent_of(&self, other: &Dir) -> (r: bool)
        ensures
            r == self.opponent_spec(*other),
    {
        let s1 = self.side();
        let s2 = other.side();
        s1 != s2
    }

    /// A finite, non-restartable walk over the three other seats in
    /// clockwise order starting after this one.
    pub fn iter(&self) -> (r: IterDir)
        ensures
            r.current == *self,
            r.last == self.pred_spec(),
    {
        IterDir { current: *self, last: self.pred() }
    }

    fn pred(&self) -> (r: Dir)
        ensures
            r == self.pred_spec(),
    {
        match *self {
            Dir::North => Dir::West,
            Dir::East => Dir::North,
            Dir::South => Dir::East,
            Dir::West => Dir::South,
        }
    }

    /// The canonical one-letter form of the seat.
    pub open spec fn canonical_spec(self) -> Seq<char> {
        match self {
            Dir::North => seq!['N'],
            Dir::East => seq!['E'],
            Dir::South => seq!['S'],
            Dir::West => seq!['W'],
        }
    }

    /// The documented lower-case alias of the seat's canonical form.
    pub open spec fn alias_spec(self) -> Seq<char> {
        match self {
            Dir::North => seq!['n'],
            Dir::East => seq!['e'],
            Dir::South => seq!['s'],
            Dir::West => seq!['w'],
        }
    }

    /// Which seat, if any, a token denotes.
    pub open spec fn parse_spec(s: Seq<char>) -> Option<Dir> {
        if s.len() == 1 {
            if s[0] == 'N' || s[0] == 'n' {
                Some(Dir::North)
            } else if s[0] == 'E' || s[0] == 'e' {
                Some(Dir::East)
            } else if s[0] == 'S' || s[0] == 's' {
                Some(Dir::South)
            } else if s[0] == 'W' || s[0] == 'w' {
                Some(Dir::West)
            } else {
                None
            }
        } else {
            None
        }
    }

    /// The canonical textual form of the seat.
    pub fn show(&self) -> (r: &'static str)
        ensures
            r@ == self.canonical_spec(),
    {
        proof {
            reveal_strlit("N");
            reveal_strlit("E");
            reveal_strlit("S");
            reveal_strlit("W");
        }
        let r = match *self {
            Dir::North => "N",
            Dir::East => "E",
            Dir::South => "S",
            Dir::West => "W",
        };
        assert(r@ =~= self.canonical_spec());
        r
    }

    /// Parses a seat token; any token that denotes no seat is returned
    /// unchanged as the error.
    pub fn from_str(s: &str) -> (r: Result<Dir, String>)
        ensures
            match r {
                Ok(d) => Dir::parse_spec(s@) == Some(d),
                Err(e) => Dir::parse_spec(s@) is None && e@ == s@,
            },
    {
        let len: usize = s.unicode_len();
        if len == 1 {
            let c = s.get_char(0);
            if c == 'N' || c == 'n' {
                Ok(Dir::North)
            } else if c == 'E' || c == 'e' {
                Ok(Dir::East)
            } else if c == 'S' || c == 's' {
                Ok(Dir::South)
            } else if c == 'W' || c == 'w' {
                Ok(Dir::West)
            } else {
                Err(s.to_owned())
            }
        } else {
            Err(s.to_owned())
        }
    }
}

/// A walk over the three seats that follow `current` clockwise, stopping
/// once it reaches `last`.
pub struct IterDir {
    pub current: Dir,
    pub last: Dir,
}

impl IterDir {
    /// Advances to and returns the next seat clockwise, or returns nothing
    /// once the stopping seat has been reached.
    pub fn next(&mut self) -> (r: Option<Dir>)
        ensures
            final(self).last == old(self).last,
            old(self).current == old(self).last ==> r is None && final(self).current == old(
                self,
            ).current,
            old(self).current != old(self).last ==> r == Some(old(self).current.succ_spec())
                && final(self).current == old(self).current.succ_spec(),
    {
        if self.current == self.last {
            None
        } else {
            let next = match self.current {
                Dir::North => Dir::East,
                Dir::East => Dir::South,
                Dir::South => Dir::West,
                Dir::West => Dir::North,
            };
            self.current = next;
            Some(next)
        }
    }
}

/// Law: the opponent relation is exactly "sits on the other axis". A seat is
/// not its own opponent, a seat is not its partner's opponent, and every
/// seat outside a seat's axis is its opponent.
pub proof fn lemma_opponent_is_cross_axis(d: Dir, e: Dir)
    ensures
        !d.opponent_spec(d),
        !d.opponent_spec(d.partner_spec()),
        e != d && e != d.partner_spec() ==> d.opponent_spec(e),
{
}

/// Law: seat ordinals decode and encode as inverses over 0..4.
pub proof fn lemma_dir_ord_round_trip(d: Dir, i: int)
    ensures
        Dir::from_ord_spec(d.ord_spec()) == d,
        0 <= i < 4 ==> Dir::from_ord_spec(i).ord_spec() == i,
{
}

/// Law: every seat's canonical form and its alias parse back to that seat,
/// so parsing then formatting yields the canonical form again.
pub proof fn lemma_dir_text_round_trip(d: Dir)
    ensures
        Dir::parse_spec(d.canonical_spec()) == Some(d),
        Dir::parse_spec(d.alias_spec()) == Some(d),
{
}

/// Law: the walk that starts after a seat passes each of the other three
/// seats exactly once, clockwise, and ends just before the seat itself.
pub proof fn lemma_iter_covers_the_other_seats(d: Dir)
    ensures
        d.succ_spec().succ_spec().succ_spec() == d.pred_spec(),
        d.succ_spec() != d,
        d.succ_spec().succ_spec() != d,
        d.pred_spec() != d,
        d.succ_spec() != d.succ_spec().succ_spec(),
        d.succ_spec() != d.pred_spec(),
        d.succ_spec().succ_spec() != d.pred_spec(),
{
}

impl Side {
    /// Stable ordinal of the axis.
    pub open spec fn ord_spec(self) -> int {
        match self {
            Side::NS => 0,
            Side::WE => 1,
        }
    }

    /// The axis with the given ordinal.
    pub open spec fn from_ord_spec(i: int) -> Side {
        if i == 0 {
            Side::NS
        } else {
            Side::WE
        }
    }

    /// The axis with ordinal `i`. Calling this with an out-of-range ordinal
    /// is a caller error, not a recoverable failure.
    pub fn from_int(i: u8) -> (r: Side)
        requires
            i < 2,
        ensures
            r == Side::from_ord_spec(i as int),
            r.ord_spec() == i as int,
    {
        if i == 0 {
            Side::NS
        } else {
            Side::WE
        }
    }

    /// The axis's ordinal, 0 or 1.
    pub fn ord(&self) -> (r: u8)
        ensures
            r as int == self.ord_spec(),
    {
        match *self {
            Side::NS => 0,
            Side::WE => 1,
        }
    }

    /// The canonical two-letter form of the axis.
    pub open spec fn canonical_spec(self) -> Seq<char> {
        match self {
            Side::NS => seq!['N', 'S'],
            Side::WE => seq!['W', 'E'],
        }
    }

    /// The documented lower-case alias of the axis's canonical form.
    pub open spec fn alias_spec(self) -> Seq<char> {
        match self {
            Side::NS => seq!['n', 's'],
            Side::WE => seq!['w', 'e'],
        }
    }

    /// Which axis, if any, a token denotes.
    pub open spec fn parse_spec(s: Seq<char>) -> Option<Side> {
        if s.len() == 2 {
            if (s[0] == 'N' && s[1] == 'S') || (s[0] == 'n' && s[1] == 's') {
                Some(Side::NS)
            } else if (s[0] == 'W' && s[1] == 'E') || (s[0] == 'w' && s[1] == 'e') {
                Some(Side::WE)
            } else {
                None
            }
        } else {
            None
        }
    }

    /// The canonical textual form of the axis.
    pub fn show(&self) -> (r: &'static str)
        ensures
            r@ == self.canonical_spec(),
    {
        proof {
            reveal_strlit("NS");
            reveal_strlit("WE");
        }
        let r = match *self {
            Side::NS => "NS",
            Side::WE => "WE",
        };
        assert(r@ =~= self.canonical_spec());
        r
    }

    /// Parses an axis token; any token that denotes no axis is rejected.
    pub fn from_str(s: &str) -> (r: Result<Side, ()>)
        ensures
            match r {
                Ok(side) => Side::parse_spec(s@) == Some(side),
                Err(_) => Side::parse_spec(s@) is None,
            },
    {
        let len: usize = s.unicode_len();
        if len == 2 {
            let c0 = s.get_char(0);
            let c1 = s.get_char(1);
            if (c0 == 'N' && c1 == 'S') || (c0 == 'n' && c1 == 's') {
                Ok(Side::NS)
            } else if (c0 == 'W' && c1 == 'E') || (c0 == 'w' && c1 == 'e') {
                Ok(Side::WE)
            } else {
                Err(())
            }
        } else {
            Err(())
        }
    }
}

/// Law: axis ordinals decode and encode as inverses over 0..2.
pub proof fn lemma_side_ord_round_trip(s: Side, i: int)
    ensures
        Side::from_ord_spec(s.ord_spec()) == s,
        0 <= i < 2 ==> Side::from_ord_spec(i).ord_spec() == i,
{
}

/// Law: every axis's canonical form and its alias parse back to that axis.
pub proof fn lemma_side_text_round_trip(s: Side)
    ensures
        Side::parse_spec(s.canonical_spec()) == Some(s),
        Side::parse_spec(s.alias_spec()) == Some(s),
{
}

impl Vulnerability {
    /// Stable ordinal of the vulnerability state.
    pub open spec fn ord_spec(self) -> int {
        match self {
            Vulnerability::Neither => 0,
            Vulnerability::NS => 1,
            Vulnerability::WE => 2,
            Vulnerability::Both => 3,
        }
    }

    /// The vulnerability state with the given ordinal.
    pub open spec fn from_ord_spec(i: int) -> Vulnerability {
        if i == 0 {
            Vulnerability::Neither
        } else if i == 1 {
            Vulnerability::NS
        } else if i == 2 {
            Vulnerability::WE
        } else {
            Vulnerability::Both
        }
    }

    /// The vulnerability state with ordinal `i`. Calling this with an
    /// out-of-range ordinal is a caller error, not a recoverable failure.
    pub fn from_int(i: u8) -> (r: Vulnerability)
        requires
            i < 4,
        ensures
            r == Vulnerability::from_ord_spec(i as int),
            r.ord_spec() == i as int,
    {
        if i == 0 {
            Vulnerability::Neither
        } else if i == 1 {
            Vulnerability::NS
        } else if i == 2 {
            Vulnerability::WE
        } else {
            Vulnerability::Both
        }
    }

    /// The vulnerability state's ordinal, 0 through 3.
    pub fn ord(&self) -> (r: u8)
        ensures
            r as int == self.ord_spec(),
    {
        match *self {
            Vulnerability::Neither => 0,
            Vulnerability::NS => 1,
            Vulnerability::WE => 2,
            Vulnerability::Both => 3,
        }
    }

    /// The canonical form of the vulnerability state.
    pub open spec fn canonical_spec(self) -> Seq<char> {
        match self {
            Vulnerability::Neither => seq!['N', 'o', 'n', 'e'],
            Vulnerability::NS => seq!['N', 'S'],
            Vulnerability::WE => seq!['W', 'E'],
            Vulnerability::Both => seq!['B', 'o', 't', 'h'],
        }
    }

    /// The documented lower-case alias of the canonical form.
    pub open spec fn alias_spec(self) -> Seq<char> {
        match self {
            Vulnerability::Neither => seq!['n', 'o', 'n', 'e'],
            Vulnerability::NS => seq!['n', 's'],
            Vulnerability::WE => seq!['w', 'e'],
            Vulnerability::Both => seq!['b', 'o', 't', 'h'],
        }
    }

    /// Which vulnerability state, if any, a token denotes.
    pub open spec fn parse_spec(s: Seq<char>) -> Option<Vulnerability> {
        if s.len() == 2 {
            if (s[0] == 'N' && s[1] == 'S') || (s[0] == 'n' && s[1] == 's') {
                Some(Vulnerability::NS)
            } else if (s[0] == 'W' && s[1] == 'E') || (s[0] == 'w' && s[1] == 'e') {
                Some(Vulnerability::WE)
            } else {
                None
            }
        } else if s.len() == 4 {
            if (s[0] == 'N' || s[0] == 'n') && s[1] == 'o' && s[2] == 'n' && s[3] == 'e' {
                Some(Vulnerability::Neither)
            } else if (s[0] == 'B' || s[0] == 'b') && s[1] == 'o' && s[2] == 't' && s[3] == 'h' {
                Some(Vulnerability::Both)
            } else {
                None
            }
        } else {
            None
        }
    }

    /// The canonical textual form of the vulnerability state.
    pub fn show(&self) -> (r: &'static str)
        ensures
            r@ == self.canonical_spec(),
    {
        proof {
            reveal_strlit("None");
            reveal_strlit("NS");
            reveal_strlit("WE");
            reveal_strlit("Both");
        }
        let r = match *self {
            Vulnerability::Neither => "None",
            Vulnerability::NS => "NS",
            Vulnerability::WE => "WE",
            Vulnerability::Both => "Both",
        };
        assert(r@ =~= self.canonical_spec());
        r
    }

    /// Parses a vulnerability token; any token that denotes no vulnerability
    /// state is rejected.
    pub fn from_str(s: &str) -> (r: Result<Vulnerability, ()>)
        ensures
            match r {
                Ok(v) => Vulnerability::parse_spec(s@) == Some(v),
                Err(_) => Vulnerability::parse_spec(s@) is None,
            },
    {
        let len: usize = s.unicode_len();
        if len == 2 {
            let c0 = s.get_char(0);
            let c1 = s.get_char(1);
            if (c0 == 'N' && c1 == 'S') || (c0 == 'n' && c1 == 's') {
                Ok(Vulnerability::NS)
            } else if (c0 == 'W' && c1 == 'E') || (c0 == 'w' && c1 == 'e') {
                Ok(Vulnerability::WE)
            } else {
                Err(())
            }
        } else if len == 4 {
            let c0 = s.get_char(0);
            let c1 = s.get_char(1);
            let c2 = s.get_char(2);
            let c3 = s.get_char(3);
            if (c0 == 'N' || c0 == 'n') && c1 == 'o' && c2 == 'n' && c3 == 'e' {
                Ok(Vulnerability::Neither)
            } else if (c0 == 'B' || c0 == 'b') && c1 == 'o' && c2 == 't' && c3 == 'h' {
                Ok(Vulnerability::Both)
            } else {
                Err(())
            }
        } else {
            Err(())
        }
    }
}

/// Law: vulnerability ordinals decode and encode as inverses over 0..4.
pub proof fn lemma_vulnerability_ord_round_trip(v: Vulnerability, i: int)
    ensures
        Vulnerability::from_ord_spec(v.ord_spec()) == v,
        0 <= i < 4 ==> Vulnerability::from_ord_spec(i).ord_spec() == i,
{
}

/// Law: every vulnerability state's canonical form and its alias parse back
/// to that state.
pub proof fn lemma_vulnerability_text_round_trip(v: Vulnerability)
    ensures
        Vulnerability::parse_spec(v.canonical_spec()) == Some(v),
        Vulnerability::parse_spec(v.alias_spec()) == Some(v),
{
}

} // verus!
