//! The block the player stands on: a square of the Ulam spiral, labelled with
//! the number the spiral gives it.
use vstd::prelude::*;
use crate::text::{decimal, u32_to_string};

verus! {

/// Farthest ring of the spiral, counted from the centre, whose numbers are
/// computed within `i32`: on the next ring `4 * n * n` overflows.
pub const ULAM_RANGE: i32 = 23_170;

/// On the lowest row of the farthest ring, the last `x` whose number still
/// fits in `i32`; the squares to its right pass `i32::MAX`.
pub const ULAM_LOW_ROW_END: i32 = 18_537;

/// Whether the number of `(x, y)` is computed without `i32` overflow: the
/// square lies within the farthest ring, and not on the right of the lowest
/// row of that ring.
pub open spec fn ulam_fits(x: int, y: int) -> bool {
    &&& -ULAM_RANGE <= x <= ULAM_RANGE
    &&& -ULAM_RANGE <= y <= ULAM_RANGE
    &&& !(y == -ULAM_RANGE && x > ULAM_LOW_ROW_END)
}

/// The number of the square `(x, y)` in the Ulam spiral, as the `ulam` crate
/// numbers it: 0 at the centre, counting outwards ring by ring.
pub open spec fn ulam_number(x: int, y: int) -> int {
    if x == 0 && y == 0 {
        0
    } else if x >= 0 && y >= 0 {
        if y > x {
            4 * y * y - y - x
        } else if x > y {
            4 * x * x - 3 * x + y
        } else {
            4 * x * x - 2 * x
        }
    } else if x <= 0 && y >= 0 {
        if y > -x {
            4 * y * y - y - x
        } else if -x > y {
            4 * x * x - x - y
        } else {
            4 * x * x
        }
    } else if x <= 0 && y <= 0 {
        if -y > -x {
            4 * y * y - 3 * y + x
        } else if -x > -y {
            4 * x * x - x - y
        } else {
            4 * x * x - 2 * x
        }
    } else {
        if -y > x {
            4 * y * y - 3 * y + x
        } else if x > -y {
            4 * x * x - 3 * x + y
        } else {
            4 * x * x + 4 * x
        }
    }
}

/// Every square of `ulam_fits` has a number from 0 to `i32::MAX`, and the
/// rings beyond hold none: there `4 * n * n` alone is past `i32::MAX`.
pub proof fn lemma_ulam_fits_i32(x: int, y: int)
    ensures
        ulam_fits(x, y) ==> 0 <= ulam_number(x, y) <= i32::MAX,
        (x > ULAM_RANGE || x < -ULAM_RANGE) ==> 4 * x * x > i32::MAX,
        (y > ULAM_RANGE || y < -ULAM_RANGE) ==> 4 * y * y > i32::MAX,
{
    assert(4 * x * x == 4 * (x * x)) by (nonlinear_arith);
    assert(4 * y * y == 4 * (y * y)) by (nonlinear_arith);
    assert((x > 23170 || x < -23170) ==> x * x >= 23171 * 23171) by (nonlinear_arith);
    assert((y > 23170 || y < -23170) ==> y * y >= 23171 * 23171) by (nonlinear_arith);
    if ulam_fits(x, y) {
        assert(x * x <= 23170 * 23170) by (nonlinear_arith)
            requires
                -23170 <= x <= 23170,
        ;
        assert(y * y <= 23170 * 23170) by (nonlinear_arith)
            requires
                -23170 <= y <= 23170,
        ;
        assert(x != 0 ==> x * x >= (if x < 0 { -x } else { x })) by (nonlinear_arith);
        assert(y != 0 ==> y * y >= (if y < 0 { -y } else { y })) by (nonlinear_arith);
        assert(x * x >= 0 && y * y >= 0) by (nonlinear_arith);
        assert(-23169 <= x <= 23169 ==> x * x <= 23169 * 23169) by (nonlinear_arith);
        assert(-23169 <= y <= 23169 ==> y * y <= 23169 * 23169) by (nonlinear_arith);
        assert(y == -23170 ==> y * y == 23170 * 23170) by (nonlinear_arith);
        assert(x == 23170 || x == -23170 ==> x * x == 23170 * 23170) by (nonlinear_arith);
    }
}

/// The number of a square of the spiral: `ulam::value_of_coord`, the value
/// that `ulam::prime::get_ulam_point` also reports. Its source picks the
/// spiral's arm with `quad_of_coord` and applies that arm's formula, which
/// `ulam_number` writes out; on the squares of `ulam_fits` none of its
/// `i32` arithmetic overflows (its largest step, `4 * n * n` on the ring
/// `n`, fits up to `ULAM_RANGE`) and every result is at least 0.
#[verifier::external_body]
fn ulam_value(x: i32, y: i32) -> (v: u32)
    requires
        ulam_fits(x as int, y as int),
    ensures
        v as int == ulam_number(x as int, y as int),
{
    ulam::value_of_coord(&ulam::Coord { x, y })
}

/// A side of the block that the player walked out of.
#[derive(Clone, Copy, PartialEq, Eq, Structural, Debug)]
pub enum Edge {
    North,
    East,
    South,
    West,
}

/// The block the player stands on, by its place in the spiral.
pub struct Block {
    pub num: i32,
    pub x: i32,
    pub y: i32,
}

/// Change of the block's place when the player walks out of `edge`.
pub open spec fn edge_delta(edge: Edge) -> (int, int) {
    match edge {
        Edge::East => (1, 0),
        Edge::West => (-1, 0),
        Edge::North => (0, 1),
        Edge::South => (0, -1),
    }
}

/// Text of the block at `(x, y)`: its number in the spiral.
pub open spec fn block_text(x: int, y: int) -> Seq<char> {
    decimal(ulam_number(x, y) as nat)
}

/// Label of the block at `(x, y)`.
pub fn block_label(x: i32, y: i32) -> (s: String)
    requires
        ulam_fits(x as int, y as int),
    ensures
        s@ == block_text(x as int, y as int),
{
    u32_to_string(ulam_value(x, y))
}

/// The block the game starts on, at the centre of the spiral, with its label.
pub fn setup() -> (r: (Block, String))
    ensures
        r.0.x == 0 && r.0.y == 0 && r.0.num == 0,
        r.1@ == block_text(0, 0),
{
    (Block { num: 0, x: 0, y: 0 }, block_label(0, 0))
}

impl Block {
    /// Moves the block across `edge` and returns the new block's label.
    pub fn step(&mut self, edge: Edge) -> (label: String)
        requires
            ulam_fits(old(self).x + edge_delta(edge).0, old(self).y + edge_delta(edge).1),
        ensures
            final(self).x == old(self).x + edge_delta(edge).0,
            final(self).y == old(self).y + edge_delta(edge).1,
            final(self).num == old(self).num,
            label@ == block_text(final(self).x as int, final(self).y as int),
    {
        let (dx, dy): (i32, i32) = match edge {
            Edge::East => (1, 0),
            Edge::West => (-1, 0),
            Edge::North => (0, 1),
            Edge::South => (0, -1),
        };
        self.x = self.x + dx;
        self.y = self.y + dy;
        block_label(self.x, self.y)
    }
}

/// The opposite side.
pub open spec fn opposite(edge: Edge) -> Edge {
    match edge {
        Edge::East => Edge::West,
        Edge::West => Edge::East,
        Edge::North => Edge::South,
        Edge::South => Edge::North,
    }
}

/// Walking out of one side and then out of the opposite side brings the
/// player back to the block they started on.
pub proof fn lemma_step_back(x: int, y: int, edge: Edge)
    ensures
        x + edge_delta(edge).0 + edge_delta(opposite(edge)).0 == x,
        y + edge_delta(edge).1 + edge_delta(opposite(edge)).1 == y,
{
}

} // verus!
