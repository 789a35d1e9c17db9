//! The record of one trick's plays: which of the thirteen ranks, if any,
//! each of the four seats has contributed. The four entries are packed one
//! nibble per seat into a single 16-bit word, nibble value 0 standing for
//! "not yet played" and values 1 through 13 for the ranks 2 through Ace.
//! Updates are non-destructive: recording a play yields a new record.

use vstd::prelude::*;

use crate::table::Dir;

verus! {

/// One of the thirteen ordered card ranks, 2 through Ace, encoded as the
/// integers 1 through 13 so that a higher encoding always beats a lower one
/// and 0 stays free as the empty sentinel.
#[derive(Clone, Copy, PartialEq, Eq, Structural, Debug)]
pub struct Rank {
    code: u8,
}

impl Rank {
    /// The rank's integer encoding.
    pub closed spec fn code_spec(self) -> int {
        self.code as int
    }

    /// A rank encoding is one of 1 through 13.
    pub open spec fn wf(self) -> bool {
        1 <= self.code_spec() <= 13
    }

    /// The rank with the given encoding, 1 (the deuce) through 13 (the
    /// Ace).
    pub fn new(code: u8) -> (r: Rank)
        requires
            1 <= code <= 13,
        ensures
            r.code_spec() == code as int,
            r.wf(),
    {
        Rank { code }
    }

    /// The rank's integer encoding, 1 through 13.
    pub fn code(&self) -> (r: u8)
        ensures
            r as int == self.code_spec(),
    {
        self.code
    }
}

/// How far the nibble of a seat sits from the low end of the packed word:
/// North occupies the rightmost four bits, then East, South and West.
pub open spec fn shift_spec(d: Dir) -> u16 {
    match d {
        Dir::North => 0,
        Dir::East => 4,
        Dir::South => 8,
        Dir::West => 12,
    }
}

/// One trick's plays, packed four bits per seat into one word.
#[derive(Clone, Copy, PartialEq, Eq, Structural, Debug)]
pub struct SuitlessTrick(u16);

impl SuitlessTrick {
    /// The nibble recorded for a seat: 0 while the seat has not played,
    /// otherwise the encoding of the rank it played.
    pub closed spec fn nib_spec(self, d: Dir) -> u16 {
        (self.0 >> shift_spec(d)) & 0xf
    }

    /// Whether a seat has played.
    pub open spec fn filled_spec(self, d: Dir) -> bool {
        self.nib_spec(d) != 0
    }

    /// Every nibble is either the empty sentinel or a rank encoding.
    pub open spec fn wf(self) -> bool {
        forall|d: Dir| self.nib_spec(d) <= 13
    }

    /// A record with no plays yet.
    pub fn new() -> (r: SuitlessTrick)
        ensures
            forall|d: Dir| r.nib_spec(d) == 0,
            r.wf(),
    {
        let r = SuitlessTrick(0);
        assert forall|d: Dir| r.nib_spec(d) == 0 by {
            let s = shift_spec(d);
            assert((0u16 >> s) & 0xf == 0) by (bit_vector);
        }
        r
    }

    fn shift(dir: Dir) -> (r: u16)
        ensures
            r == shift_spec(dir),
            r <= 12,
    {
        match dir {
            Dir::North => 0,
            Dir::East => 4,
            Dir::South => 8,
            Dir::West => 12,
        }
    }

    fn card_of(dir: Dir, rank: Rank) -> (r: u16)
        ensures
            r == (rank.code_spec() as u16) << shift_spec(dir),
    {
        (rank.code() as u16) << SuitlessTrick::shift(dir)
    }

    fn nib(&self, dir: Dir) -> (r: u16)
        ensures
            r == self.nib_spec(dir),
    {
        (self.0 >> SuitlessTrick::shift(dir)) & 0xf
    }

    /// The rank a seat has played, or nothing while it has not played.
    pub fn played_by(&self, dir: Dir) -> (r: Option<Rank>)
        requires
            self.wf(),
        ensures
            self.filled_spec(dir) ==> (r matches Some(k) && k.wf() && k.code_spec()
                == self.nib_spec(dir) as int),
            !self.filled_spec(dir) ==> r is None,
    {
        let v = self.nib(dir);
        assert(v <= 13);
        if v == 0 {
            None
        } else {
            Some(Rank { code: v as u8 })
        }
    }

    /// Records a play for a seat. If the seat has already played, the record
    /// is left as it is and the previously recorded rank is returned as the
    /// conflict; otherwise the result is a new record in which that seat
    /// holds the given rank and every other seat is unchanged.
    pub fn with_played(&self, dir: Dir, rank: Rank) -> (r: Result<SuitlessTrick, Rank>)
        requires
            self.wf(),
            rank.wf(),
        ensures
            self.filled_spec(dir) ==> (r matches Err(k) && k.wf() && k.code_spec()
                == self.nib_spec(dir) as int),
            !self.filled_spec(dir) ==> (r matches Ok(t) && t.wf() && t.nib_spec(dir) as int
                == rank.code_spec() && (forall|e: Dir|
                e != dir ==> t.nib_spec(e) == self.nib_spec(e))),
    {
        match self.played_by(dir) {
            Some(prior) => Err(prior),
            None => {
                let t = SuitlessTrick(self.0 | SuitlessTrick::card_of(dir, rank));
                proof {
                    let b = self.0;
                    let c = rank.code_spec() as u16;
                    let s = shift_spec(dir);
                    assert(((b | (c << s)) >> s) & 0xf == c) by (bit_vector)
                        requires
                            (b >> s) & 0xf == 0,
                            c <= 13,
                            s <= 12,
                            s % 4 == 0,
                    ;
                    assert forall|e: Dir| e != dir implies t.nib_spec(e) == self.nib_spec(e) by {
                        let s2 = shift_spec(e);
                        assert(((b | (c << s)) >> s2) & 0xf == (b >> s2) & 0xf) by (bit_vector)
                            requires
                                c <= 13,
                                s <= 12,
                                s % 4 == 0,
                                s2 <= 12,
                                s2 % 4 == 0,
                                s != s2,
                        ;
                    }
                }
                Ok(t)
            },
        }
    }

    /// Whether all four seats have played.
    pub fn complete(&self) -> (r: bool)
        ensures
            r == forall|d: Dir| self.filled_spec(d),
    {
        let n = self.nib(Dir::North);
        let e = self.nib(Dir::East);
        let s = self.nib(Dir::South);
        let w = self.nib(Dir::West);
        let r = n != 0 && e != 0 && s != 0 && w != 0;
        assert(r == forall|d: Dir| self.filled_spec(d)) by {
            if r {
                assert forall|d: Dir| self.filled_spec(d) by {
                    match d {
                        Dir::North => assert(self.filled_spec(Dir::North)),
                        Dir::East => assert(self.filled_spec(Dir::East)),
                        Dir::South => assert(self.filled_spec(Dir::South)),
                        Dir::West => assert(self.filled_spec(Dir::West)),
                    }
                }
            } else {
                if n == 0 {
                    assert(!self.filled_spec(Dir::North));
                } else if e == 0 {
                    assert(!self.filled_spec(Dir::East));
                } else if s == 0 {
                    assert(!self.filled_spec(Dir::South));
                } else {
                    assert(!self.filled_spec(Dir::West));
                }
            }
        }
        r
    }

    /// The seat currently winning the trick: the one holding the highest
    /// recorded nibble, a seat that has not played counting as 0. When equal
    /// nibbles occur (which complete tricks of one suit never produce), the
    /// latest seat in North, East, South, West order is preferred.
    pub fn winner(&self) -> (r: Dir)
        ensures
            forall|d: Dir| self.nib_spec(d) <= self.nib_spec(r),
            forall|d: Dir| self.nib_spec(d) == self.nib_spec(r) ==> d.ord_spec() <= r.ord_spec(),
    {
        let mut best = Dir::North;
        let mut best_v = self.nib(Dir::North);
        let v_e = self.nib(Dir::East);
        if v_e >= best_v {
            best = Dir::East;
            best_v = v_e;
        }
        let v_s = self.nib(Dir::South);
        if v_s >= best_v {
            best = Dir::South;
            best_v = v_s;
        }
        let v_w = self.nib(Dir::West);
        if v_w >= best_v {
            best = Dir::West;
            best_v = v_w;
        }
        assert forall|d: Dir| self.nib_spec(d) <= self.nib_spec(best) by {
            match d {
                Dir::North => assert(self.nib_spec(Dir::North) <= self.nib_spec(best)),
                Dir::East => assert(self.nib_spec(Dir::East) <= self.nib_spec(best)),
                Dir::South => assert(self.nib_spec(Dir::South) <= self.nib_spec(best)),
                Dir::West => assert(self.nib_spec(Dir::West) <= self.nib_spec(best)),
            }
        }
        best
    }
}

} // verus!
