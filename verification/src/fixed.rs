//! Exact signed fixed-point scalars.
//!
//! An [`Fx`] holds a raw integer `raw` and denotes the rational number
//! `raw / SCALE`. All operations are total and deterministic: results are
//! truncated toward zero at the scale and saturated into
//! `[-MAX_RAW, MAX_RAW]`, and division by zero yields zero. Every operation
//! has an exact specification over the raw integers, so higher layers can
//! reason about renderer arithmetic as ordinary integer mathematics.

use vstd::prelude::*;

verus! {

/// The denominator of the fixed-point representation: one unit of value.
pub const SCALE: i64 = 65536;

/// The largest raw magnitude a scalar may take; arithmetic saturates here.
pub const MAX_RAW: i64 = 0x7fff_ffff_ffff;

/// Clamp an unbounded integer into the representable raw range.
pub open spec fn sat(x: int) -> int {
    if x > MAX_RAW as int {
        MAX_RAW as int
    } else if x < -(MAX_RAW as int) {
        -(MAX_RAW as int)
    } else {
        x
    }
}

/// The magnitude of an integer.
pub open spec fn absi(x: int) -> int {
    if x >= 0 {
        x
    } else {
        -x
    }
}

/// Division truncated toward zero, for a nonzero divisor.
pub open spec fn tdiv(n: int, d: int) -> int {
    if (n >= 0) == (d >= 0) {
        absi(n) / absi(d)
    } else {
        -(absi(n) / absi(d))
    }
}

/// Raw result of fixed-point addition.
pub open spec fn fx_add_spec(a: int, b: int) -> int {
    sat(a + b)
}

/// Raw result of fixed-point subtraction.
pub open spec fn fx_sub_spec(a: int, b: int) -> int {
    sat(a - b)
}

/// Raw result of fixed-point negation.
pub open spec fn fx_neg_spec(a: int) -> int {
    sat(-a)
}

/// Raw result of fixed-point multiplication.
pub open spec fn fx_mul_spec(a: int, b: int) -> int {
    sat(tdiv(a * b, SCALE as int))
}

/// Raw result of fixed-point division; division by zero yields zero.
pub open spec fn fx_div_spec(a: int, b: int) -> int {
    if b == 0 {
        0
    } else {
        sat(tdiv(a * (SCALE as int), b))
    }
}

/// `r` is the integer square root (floor) of `n`.
pub open spec fn is_sqrt_floor(n: int, r: int) -> bool {
    0 <= r && r * r <= n && n < (r + 1) * (r + 1)
}

/// The integer square root (floor) of `n`; meaningful for `n >= 0`.
pub open spec fn sqrt_floor(n: int) -> int {
    choose|r: int| is_sqrt_floor(n, r)
}

/// Raw result of the fixed-point square root; nonpositive inputs yield zero.
pub open spec fn fx_sqrt_spec(a: int) -> int {
    if a <= 0 {
        0
    } else {
        sqrt_floor(a * (SCALE as int))
    }
}

/// Raw result of raising a scalar to a natural power.
pub open spec fn fx_powi_spec(a: int, n: nat) -> int
    decreases n,
{
    if n == 0 {
        SCALE as int
    } else {
        fx_mul_spec(fx_powi_spec(a, (n - 1) as nat), a)
    }
}

/// The scalar with the given raw value, saturated into range.
pub open spec fn fx(x: int) -> Fx {
    Fx { raw: sat(x) as i64 }
}

/// Fixed-point addition on scalars.
pub open spec fn fadd(a: Fx, b: Fx) -> Fx {
    fx(a.raw + b.raw)
}

/// Fixed-point subtraction on scalars.
pub open spec fn fsub(a: Fx, b: Fx) -> Fx {
    fx(a.raw - b.raw)
}

/// Fixed-point negation on scalars.
pub open spec fn fneg(a: Fx) -> Fx {
    fx(-a.raw)
}

/// Fixed-point multiplication on scalars.
pub open spec fn fmul(a: Fx, b: Fx) -> Fx {
    fx(tdiv(a.raw * b.raw, SCALE as int))
}

/// Fixed-point division on scalars; a zero divisor yields zero.
pub open spec fn fdiv(a: Fx, b: Fx) -> Fx {
    Fx { raw: fx_div_spec(a.raw as int, b.raw as int) as i64 }
}

/// Fixed-point square root on scalars.
pub open spec fn fsqrt(a: Fx) -> Fx {
    Fx { raw: fx_sqrt_spec(a.raw as int) as i64 }
}

/// Fixed-point power on scalars.
pub open spec fn fpowi(a: Fx, n: nat) -> Fx {
    Fx { raw: fx_powi_spec(a.raw as int, n) as i64 }
}

/// Fixed-point magnitude on scalars.
pub open spec fn fabs(a: Fx) -> Fx {
    fx(absi(a.raw as int))
}

/// The zero scalar.
pub open spec fn fx_zero() -> Fx {
    Fx { raw: 0 }
}

/// The unit scalar.
pub open spec fn fx_one() -> Fx {
    Fx { raw: SCALE }
}

/// The scalar two.
pub open spec fn fx_two() -> Fx {
    Fx { raw: 131072 }
}

/// The scalar four.
pub open spec fn fx_four() -> Fx {
    Fx { raw: 262144 }
}

/// The scalar minus one half.
pub open spec fn fx_neg_half() -> Fx {
    Fx { raw: -32768i64 }
}

/// The scalar one half.
pub open spec fn fx_half() -> Fx {
    Fx { raw: 32768 }
}

/// Bound the magnitude of a product by the product of magnitude bounds.
pub proof fn lemma_mul_bounds(a: int, b: int, am: int, bm: int)
    by (nonlinear_arith)
    requires
        -am <= a <= am,
        -bm <= b <= bm,
        0 <= am,
        0 <= bm,
    ensures
        -(am * bm) <= a * b <= am * bm,
{
}

/// An integer square root exists for every nonnegative integer.
pub proof fn lemma_sqrt_floor_exists(n: int)
    requires
        n >= 0,
    ensures
        is_sqrt_floor(n, sqrt_floor(n)),
    decreases n,
{
    if n == 0 {
        assert(is_sqrt_floor(0, 0));
        assert(exists|r: int| is_sqrt_floor(0, r));
    } else {
        lemma_sqrt_floor_exists(n - 1);
        let r = sqrt_floor(n - 1);
        if n < (r + 1) * (r + 1) {
            assert(is_sqrt_floor(n, r));
        } else {
            assert(n == (r + 1) * (r + 1));
            assert((r + 2) * (r + 2) == (r + 1) * (r + 1) + 2 * (r + 1) + 1) by (nonlinear_arith);
            assert(is_sqrt_floor(n, r + 1));
        }
        assert(exists|s: int| is_sqrt_floor(n, s));
    }
}

/// The integer square root is unique.
pub proof fn lemma_sqrt_floor_unique(n: int, r: int)
    requires
        n >= 0,
        is_sqrt_floor(n, r),
    ensures
        r == sqrt_floor(n),
{
    lemma_sqrt_floor_exists(n);
    let s = sqrt_floor(n);
    if r < s {
        assert((r + 1) * (r + 1) <= s * s) by (nonlinear_arith)
            requires
                0 <= r + 1 <= s,
        ;
    } else if s < r {
        assert((s + 1) * (s + 1) <= r * r) by (nonlinear_arith)
            requires
                0 <= s + 1 <= r,
        ;
    }
}

/// Multiplying by a zero scalar yields the zero scalar.
pub proof fn lemma_fx_mul_zero(a: int)
    ensures
        fx_mul_spec(a, 0) == 0,
        fx_mul_spec(0, a) == 0,
{
    assert(a * 0 == 0);
    assert(0 * a == 0);
}

/// Saturate a wide intermediate into an `i64` raw value.
fn sat_i128(x: i128) -> (r: i64)
    ensures
        r as int == sat(x as int),
{
    if x > MAX_RAW as i128 {
        MAX_RAW
    } else if x < -(MAX_RAW as i128) {
        -MAX_RAW
    } else {
        x as i64
    }
}

/// Divide wide magnitudes, reattaching the sign by truncation toward zero.
fn tdiv_i128(n: i128, d: i128) -> (r: i128)
    requires
        d != 0,
        n > i128::MIN,
        d > i128::MIN,
    ensures
        r as int == tdiv(n as int, d as int),
{
    let nm: u128 = if n >= 0 {
        n as u128
    } else {
        (-n) as u128
    };
    let dm: u128 = if d >= 0 {
        d as u128
    } else {
        (-d) as u128
    };
    let q: u128 = nm / dm;
    assert(q <= nm) by (nonlinear_arith)
        requires
            dm > 0 && q == nm as int / dm as int && nm >= 0,
    ;
    if (n >= 0) == (d >= 0) {
        q as i128
    } else {
        -(q as i128)
    }
}

/// A signed fixed-point scalar: the rational number `raw / SCALE`.
#[derive(Clone, Copy, Debug, PartialEq, Eq, Structural)]
pub struct Fx {
    pub raw: i64,
}

impl Fx {
    /// The scalar with the given raw representation.
    pub fn from_raw(raw: i64) -> (r: Fx)
        ensures
            r.raw == raw,
    {
        Fx { raw }
    }

    /// The scalar denoting the integer `n`, saturated if out of range.
    pub fn from_int(n: i64) -> (r: Fx)
        ensures
            r.raw as int == sat(n * (SCALE as int)),
    {
        proof {
            lemma_mul_bounds(n as int, SCALE as int, 0x8000_0000_0000_0000, SCALE as int);
        }
        Fx { raw: sat_i128((n as i128) * (SCALE as i128)) }
    }

    /// Zero.
    pub fn zero() -> (r: Fx)
        ensures
            r.raw == 0,
    {
        Fx { raw: 0 }
    }

    /// One.
    pub fn one() -> (r: Fx)
        ensures
            r.raw == SCALE,
    {
        Fx { raw: SCALE }
    }

    /// Sum of two scalars.
    pub fn add(&self, v: &Fx) -> (r: Fx)
        ensures
            r.raw as int == fx_add_spec(self.raw as int, v.raw as int),
            r == fadd(*self, *v),
    {
        Fx { raw: sat_i128((self.raw as i128) + (v.raw as i128)) }
    }

    /// Difference of two scalars.
    pub fn sub(&self, v: &Fx) -> (r: Fx)
        ensures
            r.raw as int == fx_sub_spec(self.raw as int, v.raw as int),
            r == fsub(*self, *v),
    {
        Fx { raw: sat_i128((self.raw as i128) - (v.raw as i128)) }
    }

    /// Negation.
    pub fn neg(&self) -> (r: Fx)
        ensures
            r.raw as int == fx_neg_spec(self.raw as int),
            r == fneg(*self),
    {
        Fx { raw: sat_i128(-(self.raw as i128)) }
    }

    /// Product of two scalars.
    pub fn mul(&self, v: &Fx) -> (r: Fx)
        ensures
            r.raw as int == fx_mul_spec(self.raw as int, v.raw as int),
            r == fmul(*self, *v),
    {
        proof {
            lemma_mul_bounds(
                self.raw as int,
                v.raw as int,
                0x8000_0000_0000_0000,
                0x8000_0000_0000_0000,
            );
        }
        let p: i128 = (self.raw as i128) * (v.raw as i128);
        let q: i128 = tdiv_i128(p, SCALE as i128);
        Fx { raw: sat_i128(q) }
    }

    /// Quotient of two scalars; a zero divisor yields zero.
    pub fn div(&self, v: &Fx) -> (r: Fx)
        ensures
            r.raw as int == fx_div_spec(self.raw as int, v.raw as int),
            r == fdiv(*self, *v),
    {
        if v.raw == 0 {
            Fx { raw: 0 }
        } else {
            proof {
                lemma_mul_bounds(self.raw as int, SCALE as int, 0x8000_0000_0000_0000, SCALE as int);
            }
            let n: i128 = (self.raw as i128) * (SCALE as i128);
            let q: i128 = tdiv_i128(n, v.raw as i128);
            Fx { raw: sat_i128(q) }
        }
    }

    /// Square root (floor at the fixed-point resolution); nonpositive inputs
    /// yield zero.
    pub fn sqrt(&self) -> (r: Fx)
        ensures
            r.raw as int == fx_sqrt_spec(self.raw as int),
            r == fsqrt(*self),
    {
        if self.raw <= 0 {
            Fx { raw: 0 }
        } else {
            proof {
                lemma_mul_bounds(self.raw as int, SCALE as int, 0x8000_0000_0000_0000, SCALE as int);
            }
            let n: u128 = (self.raw as u128) * (SCALE as u128);
            let s: u128 = isqrt_u128(n);
            proof {
                lemma_sqrt_floor_unique(n as int, s as int);
                assert(s < 0x100_0000_0000) by (nonlinear_arith)
                    requires
                        is_sqrt_floor(n as int, s as int) && (n as int)
                            < 0x1_0000_0000_0000_0000_0000,
                ;
            }
            Fx { raw: s as i64 }
        }
    }

    /// `self` raised to the power `n`.
    pub fn powi(&self, n: u32) -> (r: Fx)
        ensures
            r.raw as int == fx_powi_spec(self.raw as int, n as nat),
            r == fpowi(*self, n as nat),
    {
        let mut acc: Fx = Fx::one();
        let mut i: u32 = 0;
        while i < n
            invariant
                i <= n,
                acc.raw as int == fx_powi_spec(self.raw as int, i as nat),
            decreases n - i,
        {
            acc = acc.mul(self);
            i = i + 1;
        }
        acc
    }

    /// Magnitude.
    pub fn abs(&self) -> (r: Fx)
        ensures
            r.raw as int == sat(absi(self.raw as int)),
            r == fabs(*self),
    {
        if self.raw >= 0 {
            Fx { raw: sat_i128(self.raw as i128) }
        } else {
            Fx { raw: sat_i128(-(self.raw as i128)) }
        }
    }
}

/// The integer square root (floor) of a wide unsigned integer.
fn isqrt_u128(n: u128) -> (r: u128)
    requires
        (n as int) < 0x1_0000_0000_0000_0000_0000_0000_0000_0000,
    ensures
        is_sqrt_floor(n as int, r as int),
{
    let mut lo: u128 = 0;
    let mut hi: u128 = 0x1_0000_0000_0000_0000;
    proof {
        assert((hi as int) * (hi as int) == 0x1_0000_0000_0000_0000_0000_0000_0000_0000)
            by (nonlinear_arith)
            requires
                hi == 0x1_0000_0000_0000_0000,
        ;
    }
    while lo + 1 < hi
        invariant
            lo < hi,
            hi <= 0x1_0000_0000_0000_0000,
            (lo as int) * (lo as int) <= n as int,
            (n as int) < (hi as int) * (hi as int),
        decreases hi - lo,
    {
        let mid: u128 = lo + (hi - lo) / 2;
        proof {
            assert((mid as int) * (mid as int) < 0x1_0000_0000_0000_0000_0000_0000_0000_0000)
                by (nonlinear_arith)
                requires
                    0 <= mid < 0x1_0000_0000_0000_0000,
            ;
        }
        if mid * mid <= n {
            lo = mid;
        } else {
            hi = mid;
        }
    }
    lo
}

} // verus!
