use vstd::arithmetic::div_mod::{lemma_div_is_ordered, lemma_div_multiples_vanish};
use vstd::prelude::*;

verus! {

/// One full turn, in milliradians (two half-turns of 3142 each).
pub const TAU_MRAD: u32 = 6284;

/// Half a turn, in milliradians.
pub const PI_MRAD: u32 = 3142;

/// Rational approximation of the sine on a half-turn, scaled by 1000:
/// `sin(x) ~ 16 x (pi - x) / (5 pi^2 - 4 x (pi - x))` for `x` in `[0, pi]`.
pub open spec fn sin_half_milli(x: int) -> int {
    16000 * (x * (3142 - x)) / (49360820 - 4 * (x * (3142 - x)))
}

/// Sine over a full turn of milliradians, scaled by 1000: the second
/// half-turn mirrors the first below zero.
pub open spec fn sin_milli_spec(x: int) -> int {
    if x <= 3142 {
        sin_half_milli(x)
    } else {
        -sin_half_milli(x - 3142)
    }
}

proof fn lemma_quad_bound(x: int)
    requires
        0 <= x <= 3142,
    ensures
        0 <= x * (3142 - x) <= 2468041,
{
    assert(0 <= x * (3142 - x) <= 2468041) by (nonlinear_arith)
        requires
            0 <= x <= 3142,
    ;
}

fn sin_half(x: u32) -> (r: i32)
    requires
        x <= 3142,
    ensures
        r == sin_half_milli(x as int),
        0 <= r <= 1000,
{
    proof {
        lemma_quad_bound(x as int);
    }
    let p: u64 = (x as u64) * ((3142 - x) as u64);
    let num: u64 = 16000 * p;
    let den: u64 = 49360820 - 4 * p;
    let q: u64 = num / den;
    proof {
        assert(num <= 1000 * (den as int)) by {
            assert(20000 * (p as int) <= 20000 * 2468041) by (nonlinear_arith)
                requires
                    0 <= p <= 2468041,
            ;
        }
        lemma_div_is_ordered(num as int, 1000 * (den as int), den as int);
        lemma_div_multiples_vanish(1000, den as int);
        assert((den as int) * 1000 == 1000 * (den as int));
    }
    q as i32
}

/// Fixed-point sine: phase in milliradians below one turn, result scaled by
/// 1000 and always within `[-1000, 1000]`.
pub fn sin_milli(x: u32) -> (r: i32)
    requires
        x < 6284,
    ensures
        r == sin_milli_spec(x as int),
        -1000 <= r <= 1000,
{
    if x <= 3142 {
        sin_half(x)
    } else {
        let h = sin_half(x - 3142);
        -h
    }
}

} // verus!
