//! Exact comparison of products of 128-bit integers, and integer roots of
//! ratios of such products.
//!
//! The statistics of a window are ratios of sums that grow with the square of
//! the sample values.  Comparing such ratios against a threshold by cross
//! multiplication needs up to 256 bits; the functions here provide that, so
//! that every decision of the detectors is exact.

use vstd::prelude::*;

verus! {

/// 2^64 as a mathematical integer.
pub open spec fn limb() -> int {
    0x1_0000_0000_0000_0000
}

/// 2^128 as a mathematical integer.
pub open spec fn limb2() -> int {
    0x1_0000_0000_0000_0000_0000_0000_0000_0000int
}

const LIMB: u128 = 0x1_0000_0000_0000_0000;

proof fn lemma_limb_product(x: u128, y: u128)
    by (nonlinear_arith)
    requires
        x < 0x1_0000_0000_0000_0000,
        y < 0x1_0000_0000_0000_0000,
    ensures
        x * y <= 0xFFFF_FFFF_FFFF_FFFE_0000_0000_0000_0001,
{
}

proof fn lemma_split_product(a0: int, a1: int, b0: int, b1: int, l: int)
    ensures
        (a1 * l + a0) * (b1 * l + b0) == (a1 * b1) * (l * l) + (a0 * b1 + a1 * b0) * l + a0 * b0,
{
    let x = a1 * l;
    let y = b1 * l;
    assert((x + a0) * (y + b0) == x * y + x * b0 + a0 * y + a0 * b0) by (nonlinear_arith);
    assert(x * y == (a1 * b1) * (l * l)) by (nonlinear_arith)
        requires
            x == a1 * l,
            y == b1 * l,
    ;
    assert(x * b0 == (a1 * b0) * l) by (nonlinear_arith)
        requires
            x == a1 * l,
    ;
    assert(a0 * y == (a0 * b1) * l) by (nonlinear_arith)
        requires
            y == b1 * l,
    ;
    assert((a0 * b1 + a1 * b0) * l == (a0 * b1) * l + (a1 * b0) * l) by (nonlinear_arith);
}

/// The full product of two 128-bit integers, as a high and a low half.
pub fn mul_wide(a: u128, b: u128) -> (r: (u128, u128))
    ensures
        r.0 as int * limb2() + r.1 as int == a as int * b as int,
{
    let a0: u128 = a % LIMB;
    let a1: u128 = a / LIMB;
    let b0: u128 = b % LIMB;
    let b1: u128 = b / LIMB;
    proof {
        lemma_limb_product(a0, b0);
        lemma_limb_product(a0, b1);
        lemma_limb_product(a1, b0);
        lemma_limb_product(a1, b1);
    }
    let p00: u128 = a0 * b0;
    let p01: u128 = a0 * b1;
    let p10: u128 = a1 * b0;
    let p11: u128 = a1 * b1;
    let mid: u128 = p00 / LIMB + p01 % LIMB + p10 % LIMB;
    let lo: u128 = p00 % LIMB + (mid % LIMB) * LIMB;
    let hi: u128 = p11 + p01 / LIMB + p10 / LIMB + mid / LIMB;
    proof {
        let l = limb();
        lemma_split_product(a0 as int, a1 as int, b0 as int, b1 as int, l);
        assert(a as int * b as int == p11 * limb2() + (p01 + p10) * l + p00);
    }
    (hi, lo)
}

/// Whether `a * b <= c * d`, decided without overflow.
pub fn product_le(a: u128, b: u128, c: u128, d: u128) -> (r: bool)
    ensures
        r == (a as int * b as int <= c as int * d as int),
{
    let (h1, l1) = mul_wide(a, b);
    let (h2, l2) = mul_wide(c, d);
    h1 < h2 || (h1 == h2 && l1 <= l2)
}

/// Largest ratio, in its own unit, that the library reports: a z-score in
/// thousandths or a percentage in hundredths beyond it is reported as this.
pub const RATIO_CAP: i64 = 1_000_000_000_000;

/// `k` is the largest integer in `0..=cap` whose square times `den` does not
/// exceed `num`: the integer part of the square root of `num / den`, held to
/// `cap`.
pub open spec fn is_scaled_root(k: int, num: int, den: int, cap: int) -> bool {
    &&& 0 <= k <= cap
    &&& k * k * den <= num
    &&& (k == cap || (k + 1) * (k + 1) * den > num)
}

/// The integer that `is_scaled_root` describes.
pub open spec fn scaled_root_spec(num: int, den: int, cap: int) -> int {
    choose|k: int| is_scaled_root(k, num, den, cap)
}

proof fn lemma_square_monotone(a: int, b: int, den: int)
    by (nonlinear_arith)
    requires
        0 <= a <= b,
        0 <= den,
    ensures
        a * a * den <= b * b * den,
{
}

/// At most one integer satisfies `is_scaled_root`, so one that does is the
/// value of `scaled_root_spec`.
pub proof fn lemma_scaled_root_unique(k: int, num: int, den: int, cap: int)
    requires
        0 <= den,
        is_scaled_root(k, num, den, cap),
    ensures
        scaled_root_spec(num, den, cap) == k,
{
    let c = scaled_root_spec(num, den, cap);
    if c < k {
        lemma_square_monotone(c + 1, k, den);
    } else if k < c {
        lemma_square_monotone(k + 1, c, den);
    }
}

/// A scaled root reaches a threshold exactly when the threshold's square
/// times the denominator is within the numerator.
pub proof fn lemma_scaled_root_threshold(num: int, den: int, cap: int, t: int)
    requires
        0 <= den,
        0 <= num,
        0 <= t <= cap,
    ensures
        scaled_root_spec(num, den, cap) >= t <==> t * t * den <= num,
{
    lemma_scaled_root_exists(num, den, cap);
    let c = scaled_root_spec(num, den, cap);
    if c >= t {
        lemma_square_monotone(t, c, den);
    } else {
        lemma_square_monotone(c + 1, t, den);
    }
}

/// Some integer satisfies `is_scaled_root` whenever the numerator and the cap
/// are not negative.
pub proof fn lemma_scaled_root_exists(num: int, den: int, cap: int)
    requires
        0 <= den,
        0 <= num,
        0 <= cap,
    ensures
        is_scaled_root(scaled_root_spec(num, den, cap), num, den, cap),
{
    lemma_scaled_root_search(0, num, den, cap);
}

proof fn lemma_scaled_root_search(k: int, num: int, den: int, cap: int)
    requires
        0 <= den,
        0 <= k <= cap,
        k * k * den <= num,
    ensures
        is_scaled_root(scaled_root_spec(num, den, cap), num, den, cap),
    decreases cap - k,
{
    if k == cap || (k + 1) * (k + 1) * den > num {
        assert(is_scaled_root(k, num, den, cap));
    } else {
        lemma_scaled_root_search(k + 1, num, den, cap);
    }
}

/// The integer part of the square root of `m * x / den`, held to `cap`.
pub fn scaled_root(m: u128, x: u128, den: u128, cap: u64) -> (k: u64)
    ensures
        is_scaled_root(k as int, m as int * x as int, den as int, cap as int),
        k as int == scaled_root_spec(m as int * x as int, den as int, cap as int),
{
    let ghost num = m as int * x as int;
    let mut lo: u128 = 0;
    let mut hi: u128 = cap as u128 + 1;
    while hi - lo > 1
        invariant
            num == m as int * x as int,
            lo < hi <= cap as int + 1,
            lo as int * lo as int * den as int <= num,
            hi == cap as int + 1 || hi as int * hi as int * den as int > num,
        decreases hi - lo,
    {
        let mid: u128 = lo + (hi - lo) / 2;
        assert(mid as int * mid as int <= 0xFFFF_FFFF_FFFF_FFFF * 0xFFFF_FFFF_FFFF_FFFF)
            by (nonlinear_arith)
            requires
                0 <= mid as int <= 0xFFFF_FFFF_FFFF_FFFF,
        ;
        let sq: u128 = mid * mid;
        if product_le(sq, den, m, x) {
            lo = mid;
        } else {
            hi = mid;
        }
    }
    proof {
        lemma_scaled_root_unique(lo as int, num, den as int, cap as int);
    }
    lo as u64
}

/// The absolute value of an integer.
pub open spec fn abs_spec(x: int) -> int {
    if x < 0 {
        -x
    } else {
        x
    }
}

/// `num * scale / den`, cut toward zero and held to `RATIO_CAP` in size; 0
/// when `den` is 0.
pub open spec fn ratio_spec(num: int, den: int, scale: int) -> int {
    if den == 0 {
        0
    } else {
        let q = (abs_spec(num) * scale) / abs_spec(den);
        let m = if q > RATIO_CAP as int {
            RATIO_CAP as int
        } else {
            q
        };
        if (num < 0) != (den < 0) {
            -m
        } else {
            m
        }
    }
}

/// A ratio reaches a threshold in size exactly when the numerator, scaled,
/// is at least the threshold times the denominator in size: what is cut off
/// never decides.
pub proof fn lemma_ratio_threshold(num: int, den: int, scale: int, t: int)
    requires
        den != 0,
        0 <= scale,
        0 <= t <= RATIO_CAP,
    ensures
        abs_spec(ratio_spec(num, den, scale)) >= t <==> abs_spec(num) * scale >= t * abs_spec(den),
{
    let n = abs_spec(num) * scale;
    let d = abs_spec(den);
    let q = n / d;
    assert(q * d <= n < (q + 1) * d && q >= 0) by (nonlinear_arith)
        requires
            q == n / d,
            d > 0,
            n >= 0,
    ;
    if q >= t {
        assert(t * d <= q * d) by (nonlinear_arith)
            requires
                0 <= t <= q,
                d > 0,
        ;
    } else {
        assert((q + 1) * d <= t * d) by (nonlinear_arith)
            requires
                q + 1 <= t,
                d > 0,
        ;
    }
}

/// The size of a 128-bit signed integer, which always fits unsigned.
pub fn magnitude(x: i128) -> (r: u128)
    ensures
        r as int == abs_spec(x as int),
{
    if x >= 0 {
        x as u128
    } else if x == i128::MIN {
        0x8000_0000_0000_0000_0000_0000_0000_0000u128
    } else {
        (-x) as u128
    }
}

/// Largest size of a numerator that `ratio` takes.
pub const RATIO_NUM_LIMIT: i128 = 0x1_0000_0000_0000_0000_0000;

/// `num * scale / den` as `ratio_spec` defines it.
pub fn ratio(num: i128, den: i128, scale: u32) -> (r: i64)
    requires
        -RATIO_NUM_LIMIT <= num <= RATIO_NUM_LIMIT,
    ensures
        r as int == ratio_spec(num as int, den as int, scale as int),
        -RATIO_CAP <= r <= RATIO_CAP,
{
    if den == 0 {
        return 0;
    }
    let n: u128 = magnitude(num);
    let d: u128 = magnitude(den);
    assert(n as int * scale as int <= 0x1_0000_0000_0000_0000_0000 * 0xFFFF_FFFF) by (nonlinear_arith)
        requires
            0 <= n as int <= 0x1_0000_0000_0000_0000_0000,
            0 <= scale as int <= 0xFFFF_FFFF,
    ;
    let q: u128 = (n * (scale as u128)) / d;
    let m: i64 = if q > RATIO_CAP as u128 {
        RATIO_CAP
    } else {
        q as i64
    };
    if (num < 0) != (den < 0) {
        -m
    } else {
        m
    }
}

} // verus!
