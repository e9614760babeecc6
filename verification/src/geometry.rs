//! Integer scene geometry. Coordinates are kept in milliunits (one
//! thousandth of a world unit), so per-frame motion of `speed` world units
//! per second over `dt` milliseconds is the exact integer
//! `speed * dt` milliunits and needs no fractions.

use vstd::prelude::*;

verus! {

/// Milliunits in one world unit.
pub const MILLI_PER_UNIT: i64 = 1000;

/// How close (in milliunits) a coin must be to the character to be
/// collected: 30 world units, half the coin sprite's extent.
pub const COLLECTION_RADIUS_MILLI: i64 = 30 * 1000;

/// A 3D translation in milliunits. `z` orders sprites for drawing and
/// never takes part in motion or distance.
#[derive(Clone, Copy, PartialEq, Eq, Structural, Debug)]
pub struct Translation {
    pub x: i64,
    pub y: i64,
    pub z: i64,
}

/// Whether `a` lies within Euclidean distance `radius` of `b`, compared on
/// the x/y plane only.
pub open spec fn within_radius(a: Translation, b: Translation, radius: int) -> bool {
    let dx = a.x - b.x;
    let dy = a.y - b.y;
    dx * dx + dy * dy <= radius * radius
}

/// Decide `within_radius(a, b, COLLECTION_RADIUS_MILLI)` for any two
/// translations, without overflow: a coordinate gap beyond the radius
/// already settles it, and within the radius the squares are small.
pub fn within_collection_radius(a: &Translation, b: &Translation) -> (near: bool)
    ensures
        near == within_radius(*a, *b, COLLECTION_RADIUS_MILLI as int),
{
    let dx: i128 = (a.x as i128) - (b.x as i128);
    let dy: i128 = (a.y as i128) - (b.y as i128);
    let r: i128 = COLLECTION_RADIUS_MILLI as i128;
    if dx < -r || dx > r || dy < -r || dy > r {
        proof {
            lemma_far_axis_is_far(dx as int, dy as int, r as int);
        }
        false
    } else {
        proof {
            assert(0 <= dx * dx <= 900_000_000 && 0 <= dy * dy <= 900_000_000) by (nonlinear_arith)
                requires
                    -30_000 <= dx <= 30_000,
                    -30_000 <= dy <= 30_000,
            ;
        }
        dx * dx + dy * dy <= r * r
    }
}

/// A gap larger than the radius along either axis puts the squared
/// distance past the squared radius.
proof fn lemma_far_axis_is_far(dx: int, dy: int, r: int)
    requires
        r >= 0,
        dx < -r || dx > r || dy < -r || dy > r,
    ensures
        dx * dx + dy * dy > r * r,
{
    assert(dx * dx >= 0 && dy * dy >= 0) by (nonlinear_arith);
    if dx < -r || dx > r {
        assert(dx * dx > r * r) by (nonlinear_arith)
            requires
                dx < -r || dx > r,
                r >= 0,
        ;
    } else {
        assert(dy * dy > r * r) by (nonlinear_arith)
            requires
                dy < -r || dy > r,
                r >= 0,
        ;
    }
}

} // verus!
