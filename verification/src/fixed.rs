//! Signed 64-bit fixed-point scalars.
//!
//! A raw value `r` stands for the real number `r / SCALE`.  Every operation
//! is total: results saturate into the symmetric range `[-MAX_RAW, MAX_RAW]`
//! and a division by zero yields zero, so no scalar operation can panic and
//! each has an exact integer description that the contracts state in full.

use vstd::prelude::*;

verus! {

/// Decimal scale of the representation: one unit is `SCALE` raw steps.
pub const SCALE: i64 = 1_000_000;

/// Largest raw magnitude a scalar may hold.  The range is symmetric so that
/// negation is always exact.
pub const MAX_RAW: i64 = 0x7fff_ffff_ffff_ffff;

/// Raw value of the scalar one.
pub const ONE_RAW: i64 = 1_000_000;

/// Raw value of the scalar one half.
pub const HALF_RAW: i64 = 500_000;

pub open spec fn abs_i(x: int) -> int {
    if x < 0 {
        -x
    } else {
        x
    }
}

/// Clamp a mathematical integer into the representable raw range.
pub open spec fn sat(x: int) -> int {
    if x > MAX_RAW as int {
        MAX_RAW as int
    } else if x < -(MAX_RAW as int) {
        -(MAX_RAW as int)
    } else {
        x
    }
}

/// Truncating (round-toward-zero) integer division; division by zero is
/// defined as zero.
pub open spec fn tdiv(a: int, b: int) -> int {
    if b == 0 {
        0
    } else if (a < 0) != (b < 0) {
        -(abs_i(a) / abs_i(b))
    } else {
        abs_i(a) / abs_i(b)
    }
}

pub open spec fn fx_add(a: int, b: int) -> int {
    sat(a + b)
}

pub open spec fn fx_sub(a: int, b: int) -> int {
    sat(a - b)
}

pub open spec fn fx_neg(a: int) -> int {
    sat(-a)
}

pub open spec fn fx_mul(a: int, b: int) -> int {
    sat(tdiv(a * b, SCALE as int))
}

pub open spec fn fx_div(a: int, b: int) -> int {
    if b == 0 {
        0
    } else {
        sat(tdiv(a * (SCALE as int), b))
    }
}

pub open spec fn fx_min(a: int, b: int) -> int {
    if a < b {
        a
    } else {
        b
    }
}

pub open spec fn fx_max(a: int, b: int) -> int {
    if a > b {
        a
    } else {
        b
    }
}

/// Floor of the square root of a natural number.
pub open spec fn sqrt_floor(n: nat) -> nat
    decreases n,
{
    if n == 0 {
        0
    } else {
        let r = sqrt_floor((n - 1) as nat);
        if (r + 1) * (r + 1) <= n {
            r + 1
        } else {
            r
        }
    }
}

/// Fixed-point square root: the floor square root of the rescaled raw
/// value; nonpositive inputs yield zero.
pub open spec fn fx_sqrt(a: int) -> int {
    if a <= 0 {
        0
    } else {
        sqrt_floor((a * (SCALE as int)) as nat) as int
    }
}

pub proof fn lemma_sqrt_floor_bounds(n: nat)
    ensures
        sqrt_floor(n) * sqrt_floor(n) <= n,
        n < (sqrt_floor(n) + 1) * (sqrt_floor(n) + 1),
    decreases n,
{
    if n == 0 {
        assert(sqrt_floor(n) == 0);
        assert((sqrt_floor(n) + 1) * (sqrt_floor(n) + 1) == 1) by (nonlinear_arith)
            requires
                sqrt_floor(n) == 0,
        ;
    } else {
        lemma_sqrt_floor_bounds((n - 1) as nat);
        let r = sqrt_floor((n - 1) as nat);
        assert(r * r <= n - 1);
        assert(n - 1 < (r + 1) * (r + 1));
        if (r + 1) * (r + 1) <= n {
            assert(sqrt_floor(n) == r + 1);
            assert(n == (r + 1) * (r + 1));
            assert((r + 1) * (r + 1) < (r + 2) * (r + 2)) by (nonlinear_arith)
                requires
                    r >= 0,
            ;
        } else {
            assert(sqrt_floor(n) == r);
        }
    }
}

pub proof fn lemma_sqrt_floor_unique(n: nat, r: nat)
    requires
        r * r <= n,
        n < (r + 1) * (r + 1),
    ensures
        sqrt_floor(n) == r,
{
    lemma_sqrt_floor_bounds(n);
    let s = sqrt_floor(n);
    if r < s {
        assert((r + 1) * (r + 1) <= s * s) by (nonlinear_arith)
            requires
                r + 1 <= s,
        ;
    }
    if s < r {
        assert((s + 1) * (s + 1) <= r * r) by (nonlinear_arith)
            requires
                s + 1 <= r,
        ;
    }
}

/// The scalar holding a raw value known to fit the representation.
pub open spec fn fix_of(v: int) -> Fix {
    Fix { raw: v as i64 }
}

/// A fixed-point scalar; `raw` counts steps of `1 / SCALE`.
#[derive(Clone, Copy, Debug, PartialEq, Eq, Structural)]
pub struct Fix {
    pub raw: i64,
}

impl View for Fix {
    type V = int;

    open spec fn view(&self) -> int {
        self.raw as int
    }
}

/// Magnitude of a signed raw value as an unsigned word.
fn mag(x: i64) -> (m: u64)
    ensures
        m as int == abs_i(x as int),
{
    if x >= 0 {
        x as u64
    } else {
        let y: i64 = -(x + 1);
        (y as u64) + 1
    }
}

/// Reattach a sign to a magnitude that fits the raw range.
fn apply_sign(m: u64, neg: bool) -> (r: i64)
    requires
        m <= MAX_RAW as u64,
    ensures
        r as int == if neg {
            -(m as int)
        } else {
            m as int
        },
{
    if neg {
        -(m as i64)
    } else {
        m as i64
    }
}

/// Floor square root by binary search; the bound is two to the 84th power,
/// enough for any raw value rescaled once.
fn isqrt_u128(n: u128) -> (r: u64)
    requires
        n < 0x10_0000_0000_0000_0000_0000u128,
    ensures
        (r as int) * (r as int) <= n as int,
        (n as int) < (r as int + 1) * (r as int + 1),
{
    let mut lo: u128 = 0;
    let mut hi: u128 = 0x400_0000_0000u128;
    assert((0x400_0000_0000int + 1) * (0x400_0000_0000int + 1) > 0x10_0000_0000_0000_0000_0000int)
        by (nonlinear_arith);
    while lo < hi
        invariant
            lo <= hi <= 0x400_0000_0000u128,
            n < 0x10_0000_0000_0000_0000_0000u128,
            (lo as int) * (lo as int) <= n as int,
            (n as int) < (hi as int + 1) * (hi as int + 1),
        decreases hi - lo,
    {
        let mid: u128 = lo + (hi - lo + 1) / 2;
        assert(lo < mid <= hi);
        assert(mid * mid <= 0x400_0000_0000u128 * 0x400_0000_0000u128) by (nonlinear_arith)
            requires
                mid <= 0x400_0000_0000u128,
        ;
        if mid * mid <= n {
            lo = mid;
        } else {
            hi = mid - 1;
        }
    }
    lo as u64
}

/// Signs and magnitudes of a product, stated once for the scaled
/// multiplication and division below.
proof fn lemma_mul_signs(a: int, b: int)
    ensures
        abs_i(a * b) == abs_i(a) * abs_i(b),
        a * b < 0 ==> ((a < 0) != (b < 0)),
        ((a < 0) != (b < 0)) ==> a * b <= 0,
{
    if a >= 0 && b >= 0 {
        assert(a * b >= 0) by (nonlinear_arith)
            requires
                a >= 0,
                b >= 0,
        ;
    } else if a < 0 && b < 0 {
        assert(a * b >= 0 && a * b == (-a) * (-b)) by (nonlinear_arith)
            requires
                a < 0,
                b < 0,
        ;
    } else if a < 0 {
        assert(a * b <= 0 && -(a * b) == (-a) * b) by (nonlinear_arith)
            requires
                a < 0,
                b >= 0,
        ;
    } else {
        assert(a * b <= 0 && -(a * b) == a * (-b)) by (nonlinear_arith)
            requires
                a >= 0,
                b < 0,
        ;
    }
}

impl Fix {
    /// The scalar whose raw count is `raw`.
    pub fn from_raw(raw: i64) -> (r: Fix)
        ensures
            r@ == raw as int,
    {
        Fix { raw }
    }

    /// The scalar standing for the whole number `n`, saturated.
    pub fn from_int(n: i64) -> (r: Fix)
        ensures
            r@ == sat(n * (SCALE as int)),
    {
        proof {
            lemma_mul_signs(n as int, SCALE as int);
        }
        match n.checked_mul(SCALE) {
            Some(v) => {
                if v == i64::MIN {
                    Fix { raw: -MAX_RAW }
                } else {
                    Fix { raw: v }
                }
            },
            None => {
                if n > 0 {
                    Fix { raw: MAX_RAW }
                } else {
                    Fix { raw: -MAX_RAW }
                }
            },
        }
    }

    pub fn zero() -> (r: Fix)
        ensures
            r@ == 0,
    {
        Fix { raw: 0 }
    }

    pub fn one() -> (r: Fix)
        ensures
            r@ == ONE_RAW as int,
    {
        Fix { raw: ONE_RAW }
    }

    pub fn add(self, rhs: Fix) -> (r: Fix)
        ensures
            r@ == fx_add(self@, rhs@),
    {
        match self.raw.checked_add(rhs.raw) {
            Some(v) => {
                if v == i64::MIN {
                    Fix { raw: -MAX_RAW }
                } else {
                    Fix { raw: v }
                }
            },
            None => {
                if self.raw > 0 {
                    Fix { raw: MAX_RAW }
                } else {
                    Fix { raw: -MAX_RAW }
                }
            },
        }
    }

    pub fn sub(self, rhs: Fix) -> (r: Fix)
        ensures
            r@ == fx_sub(self@, rhs@),
    {
        match self.raw.checked_sub(rhs.raw) {
            Some(v) => {
                if v == i64::MIN {
                    Fix { raw: -MAX_RAW }
                } else {
                    Fix { raw: v }
                }
            },
            None => {
                if self.raw >= 0 {
                    Fix { raw: MAX_RAW }
                } else {
                    Fix { raw: -MAX_RAW }
                }
            },
        }
    }

    pub fn neg(self) -> (r: Fix)
        ensures
            r@ == fx_neg(self@),
    {
        if self.raw == i64::MIN {
            Fix { raw: MAX_RAW }
        } else {
            Fix { raw: -self.raw }
        }
    }

    pub fn mul(self, rhs: Fix) -> (r: Fix)
        ensures
            r@ == fx_mul(self@, rhs@),
    {
        let neg: bool = (self.raw < 0) != (rhs.raw < 0);
        let am: u64 = mag(self.raw);
        let bm: u64 = mag(rhs.raw);
        assert((am as int) * (bm as int) <= 0xffff_ffff_ffff_ffffint * 0xffff_ffff_ffff_ffffint)
            by (nonlinear_arith)
            requires
                am as int <= 0xffff_ffff_ffff_ffffint,
                bm as int <= 0xffff_ffff_ffff_ffffint,
                0 <= am as int,
                0 <= bm as int,
        ;
        let p: u128 = (am as u128) * (bm as u128);
        let q: u128 = p / (SCALE as u128);
        proof {
            lemma_mul_signs(self@, rhs@);
            assert(p as int == abs_i(self@ * rhs@));
            assert(q as int == abs_i(self@ * rhs@) / (SCALE as int));
        }
        let qc: u64 = if q > (MAX_RAW as u128) {
            MAX_RAW as u64
        } else {
            q as u64
        };
        let out: i64 = apply_sign(qc, neg);
        proof {
            let t = tdiv(self@ * rhs@, SCALE as int);
            if neg {
                assert(t == -(q as int));
            } else {
                assert(t == q as int);
            }
            assert(out as int == sat(t));
        }
        Fix { raw: out }
    }

    pub fn div(self, rhs: Fix) -> (r: Fix)
        ensures
            r@ == fx_div(self@, rhs@),
    {
        if rhs.raw == 0 {
            return Fix { raw: 0 };
        }
        let neg: bool = (self.raw < 0) != (rhs.raw < 0);
        let am: u64 = mag(self.raw);
        let bm: u64 = mag(rhs.raw);
        assert((am as int) * (SCALE as int) <= 0xffff_ffff_ffff_ffffint * 1_000_000int)
            by (nonlinear_arith)
            requires
                am as int <= 0xffff_ffff_ffff_ffffint,
                0 <= am as int,
                SCALE == 1_000_000i64,
        ;
        let p: u128 = (am as u128) * (SCALE as u128);
        let q: u128 = p / (bm as u128);
        proof {
            lemma_mul_signs(self@, SCALE as int);
            assert(p as int == abs_i(self@ * (SCALE as int)));
            assert(q as int == abs_i(self@ * (SCALE as int)) / abs_i(rhs@));
        }
        let qc: u64 = if q > (MAX_RAW as u128) {
            MAX_RAW as u64
        } else {
            q as u64
        };
        let out: i64 = apply_sign(qc, neg);
        proof {
            let t = tdiv(self@ * (SCALE as int), rhs@);
            assert((self@ * (SCALE as int) < 0) == ((self@ < 0) && self@ * (SCALE as int) != 0));
            if neg {
                assert(t == -(q as int));
            } else {
                assert(t == q as int);
            }
            assert(out as int == sat(t));
        }
        Fix { raw: out }
    }

    pub fn sqrt(self) -> (r: Fix)
        ensures
            r@ == fx_sqrt(self@),
    {
        if self.raw <= 0 {
            return Fix { raw: 0 };
        }
        let nraw: u64 = self.raw as u64;
        assert((nraw as int) * (SCALE as int) < 0x10_0000_0000_0000_0000_0000int)
            by (nonlinear_arith)
            requires
                0 <= nraw as int <= 0x7fff_ffff_ffff_ffffint,
                SCALE == 1_000_000i64,
        ;
        let n: u128 = (nraw as u128) * (SCALE as u128);
        let s: u64 = isqrt_u128(n);
        proof {
            lemma_sqrt_floor_unique(n as nat, s as nat);
            assert(s as int <= 0x400_0000_0000int) by (nonlinear_arith)
                requires
                    0 <= s as int,
                    (s as int) * (s as int) < 0x10_0000_0000_0000_0000_0000int,
            ;
        }
        Fix { raw: s as i64 }
    }

    pub fn min(self, rhs: Fix) -> (r: Fix)
        ensures
            r@ == fx_min(self@, rhs@),
    {
        if self.raw < rhs.raw {
            self
        } else {
            rhs
        }
    }

    pub fn max(self, rhs: Fix) -> (r: Fix)
        ensures
            r@ == fx_max(self@, rhs@),
    {
        if self.raw > rhs.raw {
            self
        } else {
            rhs
        }
    }

    pub fn abs(self) -> (r: Fix)
        ensures
            r@ == sat(abs_i(self@)),
    {
        if self.raw < 0 {
            self.neg()
        } else {
            self
        }
    }

    pub fn lt(self, rhs: Fix) -> (r: bool)
        ensures
            r == (self@ < rhs@),
    {
        self.raw < rhs.raw
    }

    pub fn le(self, rhs: Fix) -> (r: bool)
        ensures
            r == (self@ <= rhs@),
    {
        self.raw <= rhs.raw
    }

    pub fn gt(self, rhs: Fix) -> (r: bool)
        ensures
            r == (self@ > rhs@),
    {
        self.raw > rhs.raw
    }

    pub fn ge(self, rhs: Fix) -> (r: bool)
        ensures
            r == (self@ >= rhs@),
    {
        self.raw >= rhs.raw
    }
}

} // verus!
