//! Saturating fixed-point scalar arithmetic.
//!
//! A `Fx` stores a signed count of 1/65536 units in an `i64`, so the value it
//! denotes is `bits / 65536`. All operations saturate at `±i64::MAX` (the
//! symmetric range, so that negation is always exact), and multiplication,
//! division and square root truncate toward zero. Saturated extremes double
//! as the `±infinity` sentinels that ray-parameter intervals use.

use vstd::prelude::*;

verus! {

/// Number of fixed-point units per whole unit.
pub const SCALE: i64 = 65536;

/// Largest admitted magnitude of `bits`; `Fx { bits: MAX_BITS }` acts as `+infinity`.
pub const MAX_BITS: i64 = i64::MAX;

/// A fixed-point scalar: the value `bits / SCALE`.
#[derive(Clone, Copy, PartialEq, Eq, Structural, Debug)]
pub struct Fx {
    pub bits: i64,
}

/// Clamp a mathematical integer into the symmetric representable range.
pub open spec fn sat(x: int) -> int {
    if x > MAX_BITS as int {
        MAX_BITS as int
    } else if x < -(MAX_BITS as int) {
        -(MAX_BITS as int)
    } else {
        x
    }
}

/// The scalar whose bit count is `b`, saturated into range.
pub open spec fn fx_of(b: int) -> Fx {
    Fx { bits: sat(b) as i64 }
}

/// Every scalar produced by the library's operations stays in the symmetric range.
pub open spec fn fx_wf(a: Fx) -> bool {
    -MAX_BITS <= a.bits
}

pub open spec fn s_add(a: Fx, b: Fx) -> Fx {
    fx_of(a.bits + b.bits)
}

pub open spec fn s_sub(a: Fx, b: Fx) -> Fx {
    fx_of(a.bits - b.bits)
}

pub open spec fn s_neg(a: Fx) -> Fx {
    fx_of(-a.bits)
}

/// Integer division rounding toward zero, for a positive divisor.
pub open spec fn trunc_div(n: int, d: int) -> int {
    if n >= 0 {
        n / d
    } else {
        -((-n) / d)
    }
}

/// Integer division rounding toward zero, for any nonzero divisor.
pub open spec fn trunc_div_signed(n: int, d: int) -> int {
    if d > 0 {
        trunc_div(n, d)
    } else {
        -trunc_div(n, -d)
    }
}

pub open spec fn s_mul(a: Fx, b: Fx) -> Fx {
    fx_of(trunc_div(a.bits * b.bits, SCALE as int))
}

/// Division by zero saturates toward the sign of the dividend (`0 / 0` is `0`).
pub open spec fn s_div(a: Fx, b: Fx) -> Fx {
    if b.bits == 0 {
        if a.bits > 0 {
            Fx { bits: MAX_BITS }
        } else if a.bits < 0 {
            Fx { bits: (-MAX_BITS) as i64 }
        } else {
            Fx { bits: 0 }
        }
    } else {
        fx_of(trunc_div_signed(a.bits * SCALE, b.bits as int))
    }
}

pub open spec fn s_abs(a: Fx) -> Fx {
    if a.bits < 0 {
        s_neg(a)
    } else {
        a
    }
}

impl Fx {
    pub open spec fn spec_zero() -> Fx {
        Fx { bits: 0 }
    }

    pub fn zero() -> (r: Fx)
        ensures
            r == Fx::spec_zero(),
    {
        Fx { bits: 0 }
    }

    pub open spec fn spec_one() -> Fx {
        Fx { bits: SCALE }
    }

    pub fn one() -> (r: Fx)
        ensures
            r == Fx::spec_one(),
    {
        Fx { bits: SCALE }
    }

    pub open spec fn spec_infinity() -> Fx {
        Fx { bits: MAX_BITS }
    }

    pub fn infinity() -> (r: Fx)
        ensures
            r == Fx::spec_infinity(),
    {
        Fx { bits: MAX_BITS }
    }

    pub open spec fn spec_neg_infinity() -> Fx {
        Fx { bits: (-MAX_BITS) as i64 }
    }

    pub fn neg_infinity() -> (r: Fx)
        ensures
            r == Fx::spec_neg_infinity(),
    {
        Fx { bits: -MAX_BITS }
    }

    /// The scalar denoting the whole number `i`.
    pub open spec fn spec_from_int(i: int) -> Fx {
        fx_of(i * SCALE)
    }

    pub fn from_int(i: i32) -> (r: Fx)
        ensures
            r.bits == i * SCALE,
            r == Fx::spec_from_int(i as int),
    {
        Fx { bits: (i as i64) * SCALE }
    }

    pub fn from_bits(bits: i64) -> (r: Fx)
        ensures
            r.bits == bits,
    {
        Fx { bits }
    }

    /// The scalar denoting the whole number `w`.
    pub open spec fn spec_from_u32(w: u32) -> Fx {
        Fx { bits: (w * SCALE) as i64 }
    }

    pub fn from_u32(w: u32) -> (r: Fx)
        ensures
            r == Fx::spec_from_u32(w),
    {
        Fx { bits: (w as i64) * SCALE }
    }

    /// The whole part of a scalar, truncated toward zero and clamped into
    /// the unsigned 32-bit range.
    pub open spec fn spec_to_u32_trunc(self) -> u32 {
        if self.bits <= 0 {
            0u32
        } else if (self.bits as int) / (SCALE as int) > u32::MAX {
            u32::MAX
        } else {
            ((self.bits as int) / (SCALE as int)) as u32
        }
    }

    pub fn to_u32_trunc(self) -> (r: u32)
        ensures
            r == self.spec_to_u32_trunc(),
    {
        if self.bits <= 0 {
            0
        } else {
            let q: u64 = (self.bits as u64) / (SCALE as u64);
            if q > u32::MAX as u64 {
                u32::MAX
            } else {
                q as u32
            }
        }
    }
}

/// Clamp an intermediate result into the representable range.
fn sat_i128(x: i128) -> (r: Fx)
    ensures
        r == fx_of(x as int),
{
    if x > MAX_BITS as i128 {
        Fx { bits: MAX_BITS }
    } else if x < -(MAX_BITS as i128) {
        Fx { bits: -MAX_BITS }
    } else {
        Fx { bits: x as i64 }
    }
}

pub fn fx_add(a: Fx, b: Fx) -> (r: Fx)
    ensures
        r == s_add(a, b),
{
    let s: i128 = a.bits as i128 + b.bits as i128;
    sat_i128(s)
}

pub fn fx_sub(a: Fx, b: Fx) -> (r: Fx)
    ensures
        r == s_sub(a, b),
{
    let s: i128 = a.bits as i128 - b.bits as i128;
    sat_i128(s)
}

pub fn fx_neg(a: Fx) -> (r: Fx)
    ensures
        r == s_neg(a),
{
    let s: i128 = -(a.bits as i128);
    sat_i128(s)
}

pub fn fx_abs(a: Fx) -> (r: Fx)
    ensures
        r == s_abs(a),
{
    if a.bits < 0 {
        fx_neg(a)
    } else {
        a
    }
}

pub open spec fn s_min(a: Fx, b: Fx) -> Fx {
    if a.bits <= b.bits {
        a
    } else {
        b
    }
}

pub fn fx_min(a: Fx, b: Fx) -> (r: Fx)
    ensures
        r == s_min(a, b),
{
    if a.bits <= b.bits {
        a
    } else {
        b
    }
}

pub proof fn lemma_mul_bound(x: int, y: int, ax: int, ay: int)
    by (nonlinear_arith)
    requires
        -ax <= x <= ax,
        -ay <= y <= ay,
        0 <= ax,
        0 <= ay,
    ensures
        -(ax * ay) <= x * y <= ax * ay,
{
}

/// Division with truncation toward zero and saturation into the scalar range.
fn sat_trunc_div(n: i128, d: i128) -> (r: Fx)
    requires
        d != 0,
        n > i128::MIN,
        d > i128::MIN,
    ensures
        r == fx_of(trunc_div_signed(n as int, d as int)),
{
    let nn: u128 = if n >= 0 {
        n as u128
    } else {
        (-n) as u128
    };
    let dd: u128 = if d >= 0 {
        d as u128
    } else {
        (-d) as u128
    };
    let q: u128 = nn / dd;
    let negative: bool = (n < 0) != (d < 0);
    if q > MAX_BITS as u128 {
        if negative {
            Fx { bits: -MAX_BITS }
        } else {
            Fx { bits: MAX_BITS }
        }
    } else {
        let qi: i64 = q as i64;
        if negative {
            Fx { bits: -qi }
        } else {
            Fx { bits: qi }
        }
    }
}

pub fn fx_mul(a: Fx, b: Fx) -> (r: Fx)
    ensures
        r == s_mul(a, b),
{
    proof {
        lemma_mul_bound(a.bits as int, b.bits as int, 0x8000000000000000, 0x8000000000000000);
    }
    let p: i128 = (a.bits as i128) * (b.bits as i128);
    sat_trunc_div(p, SCALE as i128)
}

pub fn fx_div(a: Fx, b: Fx) -> (r: Fx)
    ensures
        r == s_div(a, b),
{
    if b.bits == 0 {
        if a.bits > 0 {
            Fx { bits: MAX_BITS }
        } else if a.bits < 0 {
            Fx { bits: -MAX_BITS }
        } else {
            Fx { bits: 0 }
        }
    } else {
        proof {
            lemma_mul_bound(a.bits as int, SCALE as int, 0x8000000000000000, 0x10000);
        }
        let n: i128 = (a.bits as i128) * (SCALE as i128);
        sat_trunc_div(n, b.bits as i128)
    }
}

/// Saturation keeps order.
pub proof fn lemma_sat_monotone(x: int, y: int)
    requires
        x <= y,
    ensures
        sat(x) <= sat(y),
{
}

/// Truncating division by a positive divisor keeps order.
pub proof fn lemma_trunc_div_monotone(n0: int, n1: int, d: int)
    requires
        n0 <= n1,
        0 < d,
    ensures
        trunc_div(n0, d) <= trunc_div(n1, d),
{
    if n0 >= 0 {
        vstd::arithmetic::div_mod::lemma_div_is_ordered(n0, n1, d);
    } else if n1 >= 0 {
        vstd::arithmetic::div_mod::lemma_div_pos_is_pos(-n0, d);
        vstd::arithmetic::div_mod::lemma_div_pos_is_pos(n1, d);
    } else {
        vstd::arithmetic::div_mod::lemma_div_is_ordered(-n1, -n0, d);
    }
}

/// Truncating division is odd in its numerator.
pub proof fn lemma_trunc_div_neg(n: int, d: int)
    requires
        0 < d,
    ensures
        trunc_div(-n, d) == -trunc_div(n, d),
{
}

/// Division keeps numerator order when the divisor is positive.
pub proof fn lemma_s_div_monotone_num(n0: Fx, n1: Fx, d: Fx)
    requires
        n0.bits <= n1.bits,
        d.bits > 0,
    ensures
        s_div(n0, d).bits <= s_div(n1, d).bits,
{
    lemma_trunc_div_monotone(n0.bits * SCALE, n1.bits * SCALE, d.bits as int);
    lemma_sat_monotone(
        trunc_div(n0.bits * SCALE, d.bits as int),
        trunc_div(n1.bits * SCALE, d.bits as int),
    );
}

/// Negating the in-range factor negates the product.
pub proof fn lemma_s_mul_neg_right(a: Fx, b: Fx)
    requires
        fx_wf(b),
    ensures
        s_mul(a, s_neg(b)) == s_neg(s_mul(a, b)),
{
    assert(s_neg(b).bits == -b.bits);
    assert(a.bits * (s_neg(b).bits as int) == -(a.bits * b.bits)) by (nonlinear_arith)
        requires
            s_neg(b).bits == -b.bits,
    ;
    lemma_trunc_div_neg(a.bits * b.bits, SCALE as int);
}

/// Negating both in-range addends negates the sum.
pub proof fn lemma_s_add_neg(a: Fx, b: Fx)
    requires
        fx_wf(a),
        fx_wf(b),
    ensures
        s_add(s_neg(a), s_neg(b)) == s_neg(s_add(a, b)),
{
}

/// `r` is the integer square root of `n`: the greatest `r` with `r * r <= n`.
pub open spec fn is_sqrt_floor(n: int, r: int) -> bool {
    0 <= r && r * r <= n && n < (r + 1) * (r + 1)
}

pub open spec fn sqrt_floor(n: int) -> int {
    choose|r: int| is_sqrt_floor(n, r)
}

pub proof fn lemma_sqrt_floor_exists(n: int)
    requires
        0 <= n,
    ensures
        is_sqrt_floor(n, sqrt_floor(n)),
    decreases n,
{
    if n == 0 {
        assert(is_sqrt_floor(0, 0)) by (nonlinear_arith);
    } else {
        lemma_sqrt_floor_exists(n - 1);
        let r0 = sqrt_floor(n - 1);
        if n < (r0 + 1) * (r0 + 1) {
            assert(is_sqrt_floor(n, r0));
        } else {
            assert(n == (r0 + 1) * (r0 + 1));
            assert(is_sqrt_floor(n, r0 + 1)) by (nonlinear_arith)
                requires
                    n == (r0 + 1) * (r0 + 1),
                    r0 >= 0,
            ;
        }
    }
}

pub proof fn lemma_sqrt_floor_unique(n: int, r: int)
    requires
        is_sqrt_floor(n, r),
    ensures
        r == sqrt_floor(n),
{
    let r2 = sqrt_floor(n);
    assert(is_sqrt_floor(n, r2));
    assert(r == r2) by (nonlinear_arith)
        requires
            0 <= r,
            r * r <= n,
            n < (r + 1) * (r + 1),
            0 <= r2,
            r2 * r2 <= n,
            n < (r2 + 1) * (r2 + 1),
    ;
}

fn isqrt_u128(n: u128) -> (r: u128)
    requires
        n < 0x100000000000000000000u128,
    ensures
        is_sqrt_floor(n as int, r as int),
{
    let mut lo: u128 = 0;
    let mut hi: u128 = 0x10000000000;
    proof {
        assert((0x10000000000int) * (0x10000000000int) == 0x100000000000000000000int);
    }
    while lo + 1 < hi
        invariant
            lo < hi <= 0x10000000000,
            (lo as int) * (lo as int) <= n as int,
            (n as int) < (hi as int) * (hi as int),
        decreases hi - lo,
    {
        let mid: u128 = lo + (hi - lo) / 2;
        proof {
            lemma_mul_bound(mid as int, mid as int, 0x10000000000, 0x10000000000);
        }
        if mid * mid <= n {
            lo = mid;
        } else {
            hi = mid;
        }
    }
    lo
}

/// Square root of a nonpositive scalar is zero (negative inputs have no root;
/// the intersection code tests the discriminant before taking one).
pub open spec fn s_sqrt(a: Fx) -> Fx {
    if a.bits <= 0 {
        Fx { bits: 0 }
    } else {
        fx_of(sqrt_floor(a.bits * SCALE))
    }
}

pub fn fx_sqrt(a: Fx) -> (r: Fx)
    ensures
        r == s_sqrt(a),
{
    if a.bits <= 0 {
        Fx { bits: 0 }
    } else {
        proof {
            lemma_mul_bound(a.bits as int, SCALE as int, 0x8000000000000000, 0x10000);
        }
        let n: u128 = (a.bits as u128) * (SCALE as u128);
        let r = isqrt_u128(n);
        proof {
            lemma_sqrt_floor_unique(n as int, r as int);
            assert((r as int) < 0x10000000000) by (nonlinear_arith)
                requires
                    0 <= r as int,
                    (r as int) * (r as int) <= n as int,
                    (n as int) < 0x100000000000000000000,
            ;
        }
        Fx { bits: r as i64 }
    }
}

} // verus!
