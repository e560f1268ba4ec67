//! The procedural terrain: which tiles of the platform are holes.

use vstd::prelude::*;

verus! {

/// Absolute value of a mathematical integer.
pub open spec fn magnitude(v: int) -> int {
    if v < 0 {
        -v
    } else {
        v
    }
}

/// Remainder of a division that rounds toward zero: it carries the sign of
/// the dividend `a`, whatever the sign of the non-zero divisor `m`.
pub open spec fn rem_toward_zero(a: int, m: int) -> int
    recommends
        m != 0,
{
    if a >= 0 {
        a % magnitude(m)
    } else {
        -((-a) % magnitude(m))
    }
}

/// Length of the hole pattern's period in lane `z`.
pub open spec fn lane_period(z: int) -> int {
    12 + 2 * z
}

/// The terrain rule: tile `(x, z)` is a hole exactly when the remainder of
/// `|x| + 3z` by the lane's period reaches the lane's threshold `10 + z`.
pub open spec fn hole_at(x: int, z: int) -> bool
    recommends
        lane_period(z) != 0,
{
    rem_toward_zero(magnitude(x) + 3 * z, lane_period(z)) >= 10 + z
}

/// Whether the tile in column `x` of lane `z` is a hole.
///
/// The lane's period `12 + 2z` must not be zero; for the lanes of the
/// platform, -1, 0 and 1, it is 10, 12 and 14.
pub fn is_hole(x: i32, z: i32) -> (hole: bool)
    requires
        lane_period(z as int) != 0,
    ensures
        hole == hole_at(x as int, z as int),
{
    let wide_x: i64 = x as i64;
    let wide_z: i64 = z as i64;
    let reach: i64 = if wide_x < 0 {
        -wide_x
    } else {
        wide_x
    };
    let sum: i64 = reach + 3 * wide_z;
    let period: i64 = 12 + 2 * wide_z;
    let span: i64 = if period < 0 {
        -period
    } else {
        period
    };
    let rest: i64 = if sum >= 0 {
        sum % span
    } else {
        -((-sum) % span)
    };
    rest >= 10 + wide_z
}

/// The pattern of each lane of the platform, by its own period and
/// threshold: in lane 0 the last two of every 12 columns are holes, counted
/// from column 0 outward; in lane 1 the pattern has period 14 and is shifted
/// by three columns, with three holes in each period; in lane -1 it has
/// period 10, starts three columns out, and has one hole in each period.
pub proof fn lemma_lane_patterns(x: int)
    ensures
        hole_at(x, 0) == (magnitude(x) % 12 >= 10),
        hole_at(x, 1) == ((magnitude(x) + 3) % 14 >= 11),
        hole_at(x, -1) == (magnitude(x) >= 3 && (magnitude(x) - 3) % 10 >= 9),
{
    let reach = magnitude(x);
    assert(magnitude(lane_period(0)) == 12);
    assert(magnitude(lane_period(1)) == 14);
    assert(magnitude(lane_period(-1)) == 10);
    assert(rem_toward_zero(reach, lane_period(0)) == reach % 12);
    assert(rem_toward_zero(reach + 3, lane_period(1)) == (reach + 3) % 14);
    if reach >= 3 {
        assert(rem_toward_zero(reach - 3, lane_period(-1)) == (reach - 3) % 10);
    } else {
        assert(rem_toward_zero(reach - 3, lane_period(-1)) == -((3 - reach) % 10));
        assert((3 - reach) % 10 == 3 - reach);
    }
}

/// The hole pattern is mirrored about column 0: a column and its negative
/// agree in every lane.
pub proof fn lemma_hole_mirrored(x: int, z: int)
    ensures
        hole_at(x, z) == hole_at(-x, z),
{
}

/// In the lanes whose period is positive and at or to the right of the
/// column where `|x| + 3z` turns non-negative, the pattern repeats with the
/// lane's period.
pub proof fn lemma_hole_periodic(x: int, z: int)
    requires
        lane_period(z) > 0,
        x >= 0,
        x + 3 * z >= 0,
    ensures
        hole_at(x + lane_period(z), z) == hole_at(x, z),
{
    let p = lane_period(z);
    let a = x + 3 * z;
    assert((a + p) % p == a % p) by {
        vstd::arithmetic::div_mod::lemma_mod_add_multiples_vanish(a, p);
    }
}

} // verus!
