//! Lengths, positions and motion in whole numbers.
//!
//! A position is a whole number of sub-units, a billion to the world unit.
//! Times are in nanoseconds and speeds in world units per second, so a speed
//! times a duration is a displacement in sub-units, with nothing rounded.

use vstd::prelude::*;

verus! {

/// Sub-units in one world unit.
pub const UNIT: i64 = 1_000_000_000;

/// A velocity, in world units per second along each axis.
#[derive(Clone, Copy, Debug, PartialEq, Eq, Structural)]
pub struct Vec2 {
    pub x: i32,
    pub y: i32,
}

/// The nearest coordinate to `v` that a position can hold.
pub open spec fn clamp_i64(v: int) -> int {
    if v < i64::MIN {
        i64::MIN as int
    } else if v > i64::MAX {
        i64::MAX as int
    } else {
        v
    }
}

/// The coordinate `pos` shifted by `delta` sub-units, kept within what a
/// position can hold.
pub open spec fn shifted(pos: int, delta: int) -> int {
    clamp_i64(pos + delta)
}

/// Distance covered in `dt_nanos` nanoseconds at `speed` world units per
/// second, in sub-units.
pub open spec fn displacement(speed: int, dt_nanos: int) -> int {
    speed * dt_nanos
}

/// Largest magnitude of a displacement that [`travel`] can return.
pub open spec fn max_displacement() -> int {
    0x8000_0000_0000_0000int * 0xffff_ffff_ffff_ffffint
}

/// Computes [`displacement`]. The result is wider than a coordinate, so that
/// no speed and no duration overflow it.
pub fn travel(speed: i64, dt_nanos: u64) -> (d: i128)
    ensures
        d == displacement(speed as int, dt_nanos as int),
        -max_displacement() <= d <= max_displacement(),
{
    proof {
        let s = speed as int;
        let t = dt_nanos as int;
        assert(-0x8000_0000_0000_0000 * 0xffff_ffff_ffff_ffff <= s * t <= 0x8000_0000_0000_0000
            * 0xffff_ffff_ffff_ffff) by (nonlinear_arith)
            requires
                -0x8000_0000_0000_0000 <= s <= 0x8000_0000_0000_0000,
                0 <= t <= 0xffff_ffff_ffff_ffff,
        ;
    }
    (speed as i128) * (dt_nanos as i128)
}

/// Computes [`shifted`].
pub fn shift(pos: i64, delta: i128) -> (r: i64)
    requires
        -max_displacement() <= delta <= max_displacement(),
    ensures
        r == shifted(pos as int, delta as int),
{
    let sum: i128 = pos as i128 + delta;
    if sum < i64::MIN as i128 {
        i64::MIN
    } else if sum > i64::MAX as i128 {
        i64::MAX
    } else {
        sum as i64
    }
}

/// The kinds of pair that the collision rules test for contact.
#[derive(Clone, Copy, Debug, PartialEq, Eq, Structural)]
pub enum PairKind {
    PlayerBulletShield,
    PlayerBulletInvader,
    InvaderBulletShield,
    InvaderBulletPlayer,
}

/// Contact thresholds of a pair kind along x and along y, in sub-units.
pub open spec fn thresholds(kind: PairKind) -> (int, int) {
    match kind {
        PairKind::PlayerBulletShield => (4 * UNIT, 4 * UNIT),
        PairKind::PlayerBulletInvader => (4 * UNIT, 4 * UNIT),
        PairKind::InvaderBulletShield => (8 * UNIT, 8 * UNIT),
        PairKind::InvaderBulletPlayer => (8 * UNIT, 8 * UNIT),
    }
}

/// Distance between two coordinates.
pub open spec fn gap(a: int, b: int) -> int {
    if a >= b {
        a - b
    } else {
        b - a
    }
}

/// Two things touch when they are closer than the pair's threshold along
/// each axis, taken independently.
pub open spec fn touches(ax: int, ay: int, bx: int, by: int, kind: PairKind) -> bool {
    gap(ax, bx) < thresholds(kind).0 && gap(ay, by) < thresholds(kind).1
}

/// Looks up [`thresholds`].
pub fn pair_thresholds(kind: PairKind) -> (t: (i64, i64))
    ensures
        t.0 == thresholds(kind).0,
        t.1 == thresholds(kind).1,
{
    match kind {
        PairKind::PlayerBulletShield => (4 * UNIT, 4 * UNIT),
        PairKind::PlayerBulletInvader => (4 * UNIT, 4 * UNIT),
        PairKind::InvaderBulletShield => (8 * UNIT, 8 * UNIT),
        PairKind::InvaderBulletPlayer => (8 * UNIT, 8 * UNIT),
    }
}

/// The proximity test shared by every pair kind: decides [`touches`].
pub fn touch(ax: i64, ay: i64, bx: i64, by: i64, kind: PairKind) -> (hit: bool)
    ensures
        hit == touches(ax as int, ay as int, bx as int, by as int, kind),
{
    let t = pair_thresholds(kind);
    let dx: i128 = if ax >= bx {
        ax as i128 - bx as i128
    } else {
        bx as i128 - ax as i128
    };
    let dy: i128 = if ay >= by {
        ay as i128 - by as i128
    } else {
        by as i128 - ay as i128
    };
    dx < t.0 as i128 && dy < t.1 as i128
}

} // verus!
