//! Fixed-point world coordinates and the small arithmetic helpers that the
//! camera and player systems share: exponential-decay steps toward a target,
//! parallax scaling, and wrapping a coordinate into a cyclic level.

use vstd::prelude::*;
use vstd::arithmetic::div_mod::{
    lemma_div_is_ordered, lemma_div_multiples_vanish, lemma_div_nonincreasing,
    lemma_div_pos_is_pos, lemma_fundamental_div_mod_converse_mod,
};
use vstd::arithmetic::mul::lemma_mul_inequality;

verus! {

/// One world unit in milliunits, the fixed-point scale used for every
/// position, velocity and force in the library.
pub const UNIT: i64 = 1000;

/// Largest magnitude, in milliunits, that a coordinate, velocity or level
/// width handled by the library may take. Generous for any real level while
/// leaving room for every intermediate sum and scaled product in `i64`.
pub const COORD_LIMIT: i64 = 1_000_000_000_000;

/// Denominator of parallax coefficients: 1000 is the foreground (factor
/// one), 350 a typical midground, 250 a typical background.
pub const COEFF_SCALE: i64 = 1000;

/// A world-space point or displacement in milliunits.
#[derive(Clone, Copy, PartialEq, Eq, Structural, Debug)]
pub struct Position {
    pub x: i64,
    pub y: i64,
}

/// Largest magnitude, in milliunits, that a camera coordinate may take.
/// Cameras drift a little off the world positions they track (truncated
/// parallax steps, wrap margins), so they get a wider bound than world
/// coordinates; camera updates saturate here, unreachably far outside any
/// real level.
pub const CAM_LIMIT: i64 = 4_000_000_000_000;

pub open spec fn coord_ok(v: int) -> bool {
    -COORD_LIMIT <= v <= COORD_LIMIT
}

pub open spec fn pos_ok(p: Position) -> bool {
    coord_ok(p.x as int) && coord_ok(p.y as int)
}

pub open spec fn cam_ok(v: int) -> bool {
    -CAM_LIMIT <= v <= CAM_LIMIT
}

/// A camera coordinate saturated at the camera bound.
pub open spec fn sat_cam(v: int) -> int {
    if v > CAM_LIMIT {
        CAM_LIMIT as int
    } else if v < -CAM_LIMIT {
        -CAM_LIMIT as int
    } else {
        v
    }
}

pub fn saturate_cam(v: i64) -> (r: i64)
    ensures
        r == sat_cam(v as int),
        cam_ok(r as int),
{
    if v > CAM_LIMIT {
        CAM_LIMIT
    } else if v < -CAM_LIMIT {
        -CAM_LIMIT
    } else {
        v
    }
}

/// One exponential-decay step of `current` toward `target`: the value moves
/// by the truncated quotient of the remaining distance and `divisor`, so it
/// never overshoots the target.
pub open spec fn approach(current: int, target: int, divisor: int) -> int
    recommends
        1 <= divisor,
{
    if target >= current {
        current + (target - current) / divisor
    } else {
        current - (current - target) / divisor
    }
}

pub fn approach_step(current: i64, target: i64, divisor: i64) -> (r: i64)
    requires
        -8 * COORD_LIMIT <= current <= 8 * COORD_LIMIT,
        -8 * COORD_LIMIT <= target <= 8 * COORD_LIMIT,
        1 <= divisor,
    ensures
        r == approach(current as int, target as int, divisor as int),
        current <= target ==> current <= r <= target,
        target <= current ==> target <= r <= current,
{
    if target >= current {
        let d: i64 = target - current;
        let step: i64 = ((d as u64) / (divisor as u64)) as i64;
        proof {
            lemma_div_pos_is_pos(d as int, divisor as int);
            lemma_div_nonincreasing(d as int, divisor as int);
        }
        current + step
    } else {
        let d: i64 = current - target;
        let step: i64 = ((d as u64) / (divisor as u64)) as i64;
        proof {
            lemma_div_pos_is_pos(d as int, divisor as int);
            lemma_div_nonincreasing(d as int, divisor as int);
        }
        current - step
    }
}

/// A displacement scaled by a parallax coefficient given in thousandths,
/// truncating toward zero, as a background layer moves relative to the
/// foreground.
pub open spec fn scaled(delta: int, coeff: int) -> int
    recommends
        0 <= coeff <= COEFF_SCALE,
{
    if delta >= 0 {
        (delta * coeff) / (COEFF_SCALE as int)
    } else {
        -((-delta) * coeff / (COEFF_SCALE as int))
    }
}

pub fn scale_by_coeff(delta: i64, coeff: u32) -> (r: i64)
    requires
        -8 * COORD_LIMIT <= delta <= 8 * COORD_LIMIT,
        coeff <= COEFF_SCALE as u32,
    ensures
        r == scaled(delta as int, coeff as int),
        delta >= 0 ==> 0 <= r <= delta,
        delta < 0 ==> delta <= r <= 0,
{
    if delta >= 0 {
        proof {
            lemma_mul_inequality(coeff as int, COEFF_SCALE as int, delta as int);
            lemma_div_is_ordered(
                delta as int * coeff as int,
                delta as int * COEFF_SCALE as int,
                COEFF_SCALE as int,
            );
            lemma_div_multiples_vanish(delta as int, COEFF_SCALE as int);
            lemma_div_pos_is_pos(delta as int * coeff as int, COEFF_SCALE as int);
        }
        (((delta as u64) * (coeff as u64)) / (COEFF_SCALE as u64)) as i64
    } else {
        let m: i64 = -delta;
        proof {
            lemma_mul_inequality(coeff as int, COEFF_SCALE as int, m as int);
            lemma_div_is_ordered(
                m as int * coeff as int,
                m as int * COEFF_SCALE as int,
                COEFF_SCALE as int,
            );
            lemma_div_multiples_vanish(m as int, COEFF_SCALE as int);
            lemma_div_pos_is_pos(m as int * coeff as int, COEFF_SCALE as int);
        }
        -((((m as u64) * (coeff as u64)) / (COEFF_SCALE as u64)) as i64)
    }
}

/// The representative of `x` in `[0, w)`, the coordinate's position inside
/// one period of a level that wraps every `w` milliunits.
pub fn wrap_coord(x: i64, w: i64) -> (r: i64)
    requires
        -8 * COORD_LIMIT <= x <= 8 * COORD_LIMIT,
        1 <= w <= COORD_LIMIT,
    ensures
        r == (x as int) % (w as int),
        0 <= r < w,
{
    if x >= 0 {
        ((x as u64) % (w as u64)) as i64
    } else {
        let m: i64 = (((-x) as u64) % (w as u64)) as i64;
        if m == 0 {
            proof {
                let q = -((-x as int) / (w as int));
                vstd::arithmetic::div_mod::lemma_fundamental_div_mod(-x as int, w as int);
                assert(x as int == q * (w as int) + 0) by (nonlinear_arith)
                    requires
                        -x as int == ((-x as int) / (w as int)) * (w as int),
                        q == -((-x as int) / (w as int)),
                ;
                lemma_fundamental_div_mod_converse_mod(x as int, w as int, q, 0);
            }
            0
        } else {
            proof {
                let q = -((-x as int) / (w as int)) - 1;
                vstd::arithmetic::div_mod::lemma_fundamental_div_mod(-x as int, w as int);
                assert(x as int == q * (w as int) + ((w as int) - (m as int)))
                    by (nonlinear_arith)
                    requires
                        -x as int == ((-x as int) / (w as int)) * (w as int) + (m as int),
                        q == -((-x as int) / (w as int)) - 1,
                ;
                lemma_fundamental_div_mod_converse_mod(
                    x as int,
                    w as int,
                    q,
                    (w as int) - (m as int),
                );
            }
            w - m
        }
    }
}

} // verus!
