//! Fixed-point arithmetic for scores and confidences.
//!
//! Every real quantity of the scoring model is held as an integer number of
//! millionths (`SCALE` units make one whole unit). The logistic squashing
//! function is a piecewise-linear interpolation of the true logistic curve
//! between knots spaced half a unit apart, mirrored for negative inputs.
use vstd::arithmetic::div_mod::{lemma_div_is_ordered, lemma_fundamental_div_mod};
use vstd::arithmetic::mul::lemma_mul_inequality;
use vstd::prelude::*;

verus! {

/// Number of fixed-point units in one whole unit.
pub const SCALE: u64 = 1_000_000;

/// Distance between two knots of the logistic table (half a unit).
pub const KNOT_STEP: u64 = 500_000;

/// Index of the last knot: beyond `LAST_KNOT * KNOT_STEP` the curve is flat.
pub const LAST_KNOT: u64 = 16;

/// Logistic value, in millionths, at the input `k / 2`, for `0 <= k <= 16`.
pub open spec fn knot(k: int) -> int {
    if k <= 0 {
        500000
    } else if k == 1 {
        622459
    } else if k == 2 {
        731059
    } else if k == 3 {
        817574
    } else if k == 4 {
        880797
    } else if k == 5 {
        924142
    } else if k == 6 {
        952574
    } else if k == 7 {
        970688
    } else if k == 8 {
        982014
    } else if k == 9 {
        989013
    } else if k == 10 {
        993307
    } else if k == 11 {
        995930
    } else if k == 12 {
        997527
    } else if k == 13 {
        998499
    } else if k == 14 {
        999089
    } else if k == 15 {
        999447
    } else {
        999665
    }
}

/// The squashing curve on non-negative inputs (in millionths).
pub open spec fn logistic_nonneg(m: int) -> int {
    if m >= LAST_KNOT * KNOT_STEP {
        knot(LAST_KNOT as int)
    } else {
        let k: int = m / KNOT_STEP as int;
        let r: int = m % KNOT_STEP as int;
        knot(k) + (knot(k + 1) - knot(k)) * r / KNOT_STEP as int
    }
}

/// The squashing curve: an input `z` (millionths) mapped to a value in
/// `[0, SCALE]`, symmetric about one half: `logistic(-z) == SCALE - logistic(z)`.
pub open spec fn logistic(z: int) -> int {
    if z >= 0 {
        logistic_nonneg(z)
    } else {
        SCALE - logistic_nonneg(-z)
    }
}

proof fn lemma_knot_bounds(k: int)
    ensures
        500000 <= knot(k) <= 999665,
{
}

proof fn lemma_knot_monotone(i: int, j: int)
    requires
        i <= j,
    ensures
        knot(i) <= knot(j),
{
}

proof fn lemma_segment_bounds(k: int, r: int)
    requires
        0 <= k < LAST_KNOT,
        0 <= r < KNOT_STEP,
    ensures
        0 <= (knot(k + 1) - knot(k)) * r / KNOT_STEP as int <= knot(k + 1) - knot(k),
{
    let d: int = knot(k + 1) - knot(k);
    let h: int = KNOT_STEP as int;
    lemma_knot_monotone(k, k + 1);
    lemma_mul_inequality(0, r, d);
    lemma_mul_inequality(r, h, d);
    assert(0 <= d * r) by (nonlinear_arith)
        requires
            0 <= d,
            0 <= r,
    ;
    assert(d * r <= d * h) by (nonlinear_arith)
        requires
            0 <= d,
            r <= h,
    ;
    lemma_div_is_ordered(0, d * r, h);
    lemma_div_is_ordered(d * r, d * h, h);
    assert((d * h) / h == d) by (nonlinear_arith)
        requires
            h > 0,
    ;
}

proof fn lemma_logistic_nonneg_bounds(m: int)
    requires
        m >= 0,
    ensures
        knot(m / KNOT_STEP as int) <= logistic_nonneg(m),
        m < LAST_KNOT * KNOT_STEP ==> logistic_nonneg(m) <= knot(m / KNOT_STEP as int + 1),
        500000 <= logistic_nonneg(m) <= 999665,
{
    let h: int = KNOT_STEP as int;
    if m >= LAST_KNOT * KNOT_STEP {
        assert(m / h >= 16) by {
            lemma_div_is_ordered(16 * h, m, h);
        }
        assert(knot(m / h) == knot(16));
        lemma_knot_bounds(16);
    } else {
        let k: int = m / h;
        assert(0 <= k < 16) by {
            lemma_div_is_ordered(0, m, h);
            lemma_fundamental_div_mod(m, h);
        }
        lemma_segment_bounds(k, m % h);
        lemma_knot_bounds(k);
        lemma_knot_bounds(k + 1);
    }
}

proof fn lemma_logistic_nonneg_monotone(a: int, b: int)
    requires
        0 <= a <= b,
    ensures
        logistic_nonneg(a) <= logistic_nonneg(b),
{
    let h: int = KNOT_STEP as int;
    lemma_logistic_nonneg_bounds(a);
    lemma_logistic_nonneg_bounds(b);
    if b >= LAST_KNOT * KNOT_STEP {
        if a < LAST_KNOT * KNOT_STEP {
            lemma_div_is_ordered(a, LAST_KNOT * KNOT_STEP - 1, h);
            lemma_knot_monotone(a / h + 1, 16);
        }
    } else {
        let ka: int = a / h;
        let kb: int = b / h;
        lemma_div_is_ordered(a, b, h);
        if ka == kb {
            let d: int = knot(ka + 1) - knot(ka);
            lemma_fundamental_div_mod(a, h);
            lemma_fundamental_div_mod(b, h);
            assert(a % h <= b % h);
            lemma_knot_monotone(ka, ka + 1);
            assert(d * (a % h) <= d * (b % h)) by (nonlinear_arith)
                requires
                    0 <= d,
                    a % h <= b % h,
            ;
            lemma_div_is_ordered(d * (a % h), d * (b % h), h);
        } else {
            lemma_knot_monotone(ka + 1, kb);
        }
    }
}

/// The squashing curve never leaves `[0, SCALE]`.
pub proof fn lemma_logistic_bounds(z: int)
    ensures
        0 <= logistic(z) <= SCALE,
        z >= 0 ==> logistic(z) >= SCALE / 2,
        z < 0 ==> logistic(z) <= SCALE / 2,
{
    if z >= 0 {
        lemma_logistic_nonneg_bounds(z);
    } else {
        lemma_logistic_nonneg_bounds(-z);
    }
}

/// The squashing curve is monotone: a larger input never gives a smaller value.
pub proof fn lemma_logistic_monotone(a: int, b: int)
    requires
        a <= b,
    ensures
        logistic(a) <= logistic(b),
{
    lemma_logistic_bounds(a);
    lemma_logistic_bounds(b);
    if a >= 0 {
        lemma_logistic_nonneg_monotone(a, b);
    } else if b < 0 {
        lemma_logistic_nonneg_monotone(-b, -a);
    }
}

fn knot_value(k: u64) -> (r: u64)
    requires
        k <= LAST_KNOT,
    ensures
        r == knot(k as int),
{
    match k {
        0 => 500000,
        1 => 622459,
        2 => 731059,
        3 => 817574,
        4 => 880797,
        5 => 924142,
        6 => 952574,
        7 => 970688,
        8 => 982014,
        9 => 989013,
        10 => 993307,
        11 => 995930,
        12 => 997527,
        13 => 998499,
        14 => 999089,
        15 => 999447,
        _ => 999665,
    }
}

fn logistic_of_magnitude(m: u64) -> (r: u64)
    ensures
        r == logistic_nonneg(m as int),
        500000 <= r <= 999665,
{
    proof {
        lemma_logistic_nonneg_bounds(m as int);
    }
    if m >= LAST_KNOT * KNOT_STEP {
        knot_value(LAST_KNOT)
    } else {
        let k: u64 = m / KNOT_STEP;
        let r: u64 = m % KNOT_STEP;
        proof {
            lemma_div_is_ordered(m as int, (LAST_KNOT * KNOT_STEP - 1) as int, KNOT_STEP as int);
            lemma_segment_bounds(k as int, r as int);
            lemma_knot_monotone(k as int, k as int + 1);
        }
        let lo: u64 = knot_value(k);
        let hi: u64 = knot_value(k + 1);
        assert((hi - lo) * r <= 1_000_000 * 500_000) by (nonlinear_arith)
            requires
                hi - lo <= 1_000_000,
                r < 500_000,
        ;
        lo + (hi - lo) * r / KNOT_STEP
    }
}

/// Evaluates the squashing curve at `z` millionths.
pub fn squash(z: i64) -> (r: u64)
    ensures
        r as int == logistic(z as int),
        r <= SCALE,
{
    proof {
        lemma_logistic_bounds(z as int);
    }
    if z >= 0 {
        logistic_of_magnitude(z as u64)
    } else {
        let m: u64 = if z == i64::MIN {
            i64::MAX as u64 + 1
        } else {
            (-z) as u64
        };
        SCALE - logistic_of_magnitude(m)
    }
}

} // verus!
