//! Exact fixed-point scalar used throughout the renderer.
//!
//! A real quantity is held as `bits / FX_SCALE` with `FX_SCALE = 2^16`.
//! Every operation saturates its result into `[FX_MIN, FX_MAX]`, so all
//! operations are total and every result is pinned exactly by a spec
//! function over the integer bit patterns.

use vstd::prelude::*;

verus! {

use vstd::arithmetic::div_mod::lemma_div_nonincreasing;
use vstd::arithmetic::div_mod::lemma_div_pos_is_pos;
use vstd::arithmetic::div_mod::lemma_div_multiples_vanish;
use vstd::arithmetic::div_mod::lemma_mod_division_less_than_divisor;
use vstd::arithmetic::div_mod::lemma_mod_add_multiples_vanish;

/// Number of bit units per real unit: resolution is 1/65536.
pub const FX_SCALE: i64 = 65536;

/// Largest representable bit count; symmetric with `FX_MIN` so that
/// negation never overflows.
pub const FX_MAX: i64 = 0x3FFF_FFFF_FFFF_FFFF;

/// Smallest representable bit count.
pub const FX_MIN: i64 = -0x3FFF_FFFF_FFFF_FFFF;

/// A bit count that a `Fx` value can hold.
pub open spec fn in_range(x: int) -> bool {
    FX_MIN <= x <= FX_MAX
}

/// Clip a bit count into the representable range.
pub open spec fn sat(x: int) -> int {
    if x > FX_MAX {
        FX_MAX as int
    } else if x < FX_MIN {
        FX_MIN as int
    } else {
        x
    }
}

/// Division truncated toward zero, as the machine division of the
/// underlying integers behaves.
pub open spec fn tdiv(a: int, b: int) -> int
    recommends
        b != 0,
{
    if a == 0 {
        0
    } else if a > 0 && b > 0 {
        a / b
    } else if a < 0 && b < 0 {
        (a * -1) / (b * -1)
    } else if a < 0 {
        ((a * -1) / b) * -1
    } else {
        (a / (b * -1)) * -1
    }
}

/// Saturating fixed-point addition over bit counts.
pub open spec fn fadd(a: int, b: int) -> int {
    sat(a + b)
}

/// Saturating fixed-point subtraction over bit counts.
pub open spec fn fsub(a: int, b: int) -> int {
    sat(a - b)
}

/// Saturating fixed-point negation over bit counts.
pub open spec fn fneg(a: int) -> int {
    sat(-a)
}

/// Saturating fixed-point multiplication: the exact product is rescaled
/// by `FX_SCALE` with truncation toward zero.
pub open spec fn fmul(a: int, b: int) -> int {
    sat(tdiv(a * b, FX_SCALE as int))
}

/// Saturating fixed-point division. A zero divisor saturates by the
/// dividend's sign, the way an infinity would propagate.
pub open spec fn fdiv(a: int, b: int) -> int {
    if b == 0 {
        if a > 0 {
            FX_MAX as int
        } else if a < 0 {
            FX_MIN as int
        } else {
            0
        }
    } else {
        sat(tdiv(a * FX_SCALE, b))
    }
}

/// Absolute value over bit counts.
pub open spec fn fabs(a: int) -> int {
    sat(if a < 0 { -a } else { a })
}

/// The fractional part: the distance up from the next unit boundary at
/// or below the value, always in `[0, FX_SCALE)`.
pub open spec fn ffract(a: int) -> int {
    a % (FX_SCALE as int)
}

/// The whole units at or below the value (floor), as a plain integer.
pub open spec fn fx_floor(a: int) -> int {
    a / (FX_SCALE as int)
}

/// The smaller of two bit counts.
pub open spec fn fmin(a: int, b: int) -> int {
    if a < b {
        a
    } else {
        b
    }
}

/// The larger of two bit counts.
pub open spec fn fmax(a: int, b: int) -> int {
    if a > b {
        a
    } else {
        b
    }
}

/// The floor as a pixel coordinate, clamped into the `u32` range the
/// way a saturating cast behaves.
pub open spec fn fx_to_u32(a: int) -> int {
    if a < 0 {
        0
    } else if fx_floor(a) > u32::MAX {
        u32::MAX as int
    } else {
        fx_floor(a)
    }
}

/// Clamp over bit counts.
pub open spec fn fclamp(x: int, lo: int, hi: int) -> int {
    if x < lo {
        lo
    } else if x > hi {
        hi
    } else {
        x
    }
}

/// Exact integer square root, rounded down.
pub open spec fn isqrt(n: nat) -> nat
    decreases n,
{
    if n == 0 {
        0
    } else {
        let r = 2 * isqrt(n / 4);
        if (r + 1) * (r + 1) <= n {
            r + 1
        } else {
            r
        }
    }
}

/// Fixed-point square root over bit counts: the scaled radicand's
/// integer square root.
pub open spec fn fsqrt(a: int) -> int
    recommends
        a >= 0,
{
    isqrt((a * FX_SCALE) as nat) as int
}

/// `isqrt` rounds down: its result is the unique `r` with
/// `r * r <= n < (r + 1) * (r + 1)`.
pub proof fn lemma_isqrt_bounds(n: nat)
    ensures
        isqrt(n) * isqrt(n) <= n,
        n < (isqrt(n) + 1) * (isqrt(n) + 1),
    decreases n,
{
    if n == 0 {
        assert(isqrt(n) == 0);
        assert((isqrt(n) + 1) * (isqrt(n) + 1) == 1) by (nonlinear_arith)
            requires
                isqrt(n) == 0,
        ;
    } else {
        lemma_isqrt_bounds(n / 4);
        let s = isqrt(n / 4);
        let r = 2 * s;
        assert(s * s <= n / 4);
        assert(n / 4 < (s + 1) * (s + 1));
        assert(n == 4 * (n / 4) + n % 4) by {
            vstd::arithmetic::div_mod::lemma_fundamental_div_mod(n as int, 4);
        }
        assert(r * r == 4 * (s * s)) by (nonlinear_arith)
            requires
                r == 2 * s,
        ;
        assert(4 * (s * s) <= 4 * (n / 4)) by (nonlinear_arith)
            requires
                s * s <= n / 4,
        ;
        assert((r + 2) * (r + 2) == 4 * ((s + 1) * (s + 1))) by (nonlinear_arith)
            requires
                r == 2 * s,
        ;
        assert(4 * (n / 4) + 4 <= 4 * ((s + 1) * (s + 1))) by (nonlinear_arith)
            requires
                n / 4 < (s + 1) * (s + 1),
        ;
        assert(n % 4 < 4) by {
            lemma_mod_division_less_than_divisor(n as int, 4);
        }
        assert(r * r <= n);
        assert(n < (r + 2) * (r + 2));
        if (r + 1) * (r + 1) <= n {
            assert(isqrt(n) == r + 1);
        } else {
            assert(isqrt(n) == r);
        }
        assert(isqrt(n) * isqrt(n) <= n);
        assert(n < (isqrt(n) + 1) * (isqrt(n) + 1));
    }
}

/// Two integers that both bracket `n` between consecutive squares are
/// the same integer.
pub proof fn lemma_isqrt_unique(n: nat, r1: nat, r2: nat)
    requires
        r1 * r1 <= n < (r1 + 1) * (r1 + 1),
        r2 * r2 <= n < (r2 + 1) * (r2 + 1),
    ensures
        r1 == r2,
{
    if r1 < r2 {
        assert((r1 + 1) * (r1 + 1) <= r2 * r2) by (nonlinear_arith)
            requires
                r1 < r2,
        ;
    }
    if r2 < r1 {
        assert((r2 + 1) * (r2 + 1) <= r1 * r1) by (nonlinear_arith)
            requires
                r2 < r1,
        ;
    }
}

/// Truncating division never grows a magnitude.
pub proof fn lemma_tdiv_bounds(a: int, b: int)
    requires
        b != 0,
    ensures
        tdiv(a, b) <= if a >= 0 { a } else { -a },
        tdiv(a, b) >= if a >= 0 { -a } else { a },
{
    if a == 0 {
    } else if a > 0 && b > 0 {
        lemma_div_pos_is_pos(a, b);
        lemma_div_nonincreasing(a, b);
    } else if a < 0 && b < 0 {
        lemma_div_pos_is_pos(a * -1, b * -1);
        lemma_div_nonincreasing(a * -1, b * -1);
    } else if a < 0 {
        lemma_div_pos_is_pos(a * -1, b);
        lemma_div_nonincreasing(a * -1, b);
    } else {
        lemma_div_pos_is_pos(a, b * -1);
        lemma_div_nonincreasing(a, b * -1);
    }
}

/// Truncating a non-negative value by a positive divisor stays
/// non-negative.
pub proof fn lemma_tdiv_nonneg(a: int, b: int)
    requires
        a >= 0,
        b > 0,
    ensures
        0 <= tdiv(a, b) <= a,
{
    if a > 0 {
        lemma_div_pos_is_pos(a, b);
        lemma_div_nonincreasing(a, b);
    }
}

/// A square is never negative.
pub proof fn lemma_fmul_square_nonneg(a: int)
    ensures
        0 <= fmul(a, a),
{
    assert(a * a >= 0) by (nonlinear_arith);
    lemma_tdiv_nonneg(a * a, FX_SCALE as int);
}

/// A product of non-negative factors is non-negative.
pub proof fn lemma_fmul_nonneg(a: int, b: int)
    requires
        0 <= a,
        0 <= b,
    ensures
        0 <= fmul(a, b),
{
    assert(a * b >= 0) by (nonlinear_arith)
        requires
            0 <= a,
            0 <= b,
    ;
    lemma_tdiv_nonneg(a * b, FX_SCALE as int);
}

/// A product of non-positive factors is non-negative.
pub proof fn lemma_fmul_nonpos_nonpos(a: int, b: int)
    requires
        a <= 0,
        b <= 0,
    ensures
        0 <= fmul(a, b),
{
    assert(a * b >= 0) by (nonlinear_arith)
        requires
            a <= 0,
            b <= 0,
    ;
    lemma_tdiv_nonneg(a * b, FX_SCALE as int);
}

/// A product of factors of opposite sign is non-positive.
pub proof fn lemma_fmul_nonneg_nonpos(a: int, b: int)
    requires
        0 <= a,
        b <= 0,
    ensures
        fmul(a, b) <= 0,
{
    let p = a * b;
    assert(p <= 0) by (nonlinear_arith)
        requires
            0 <= a,
            b <= 0,
            p == a * b,
    ;
    if p < 0 {
        assert(p * -1 >= 0) by (nonlinear_arith)
            requires
                p < 0,
        ;
        lemma_div_pos_is_pos(p * -1, FX_SCALE as int);
    }
}

/// A quotient of non-negative values is non-negative.
pub proof fn lemma_fdiv_nonneg(a: int, b: int)
    requires
        0 <= a,
        0 <= b,
    ensures
        0 <= fdiv(a, b),
{
    if b != 0 {
        lemma_tdiv_nonneg(a * FX_SCALE, b);
    }
}

/// Multiplying by a factor of at most one never grows a
/// non-negative value.
pub proof fn lemma_fmul_le_right(a: int, b: int)
    requires
        0 <= a <= FX_SCALE,
        0 <= b,
    ensures
        fmul(a, b) <= b,
{
    let s = FX_SCALE as int;
    assert(0 <= a * b <= s * b) by (nonlinear_arith)
        requires
            0 <= a <= s,
            0 <= b,
    ;
    lemma_tdiv_nonneg(a * b, s);
    vstd::arithmetic::div_mod::lemma_div_is_ordered(a * b, s * b, s);
    lemma_div_multiples_vanish(b, s);
}

/// Multiplying by one is the identity on representable values.
pub proof fn lemma_fmul_one(a: int)
    requires
        in_range(a),
    ensures
        fmul(a, FX_SCALE as int) == a,
        fmul(FX_SCALE as int, a) == a,
{
    let s = FX_SCALE as int;
    if a == 0 {
    } else if a > 0 {
        lemma_div_multiples_vanish(a, s);
        assert(a * s == s * a) by (nonlinear_arith);
    } else {
        lemma_div_multiples_vanish(-a, s);
        assert((a * s) * -1 == s * (-a)) by (nonlinear_arith);
        assert((s * a) * -1 == s * (-a)) by (nonlinear_arith);
    }
}

/// Multiplying by zero gives zero.
pub proof fn lemma_fmul_zero(a: int)
    ensures
        fmul(a, 0) == 0,
        fmul(0, a) == 0,
{
    assert(a * 0 == 0) by (nonlinear_arith);
    assert(0 * a == 0) by (nonlinear_arith);
}

/// Fixed-point multiplication is commutative.
pub proof fn lemma_fmul_comm(a: int, b: int)
    ensures
        fmul(a, b) == fmul(b, a),
{
    assert(a * b == b * a) by (nonlinear_arith);
}

/// Dividing a nonzero value by itself gives exactly one.
pub proof fn lemma_fdiv_self(a: int)
    requires
        a != 0,
        in_range(a),
    ensures
        fdiv(a, a) == FX_SCALE as int,
{
    let s = FX_SCALE as int;
    if a > 0 {
        assert(a * s > 0) by (nonlinear_arith)
            requires
                a > 0,
                s > 0,
        ;
        assert((a * s) / a == s) by {
            lemma_div_multiples_vanish(s, a);
            assert(a * s == s * a) by (nonlinear_arith);
        }
    } else {
        assert(a * s < 0) by (nonlinear_arith)
            requires
                a < 0,
                s > 0,
        ;
        assert(((a * s) * -1) == (-a) * s) by (nonlinear_arith);
        assert(((-a) * s) / (a * -1) == s) by {
            lemma_div_multiples_vanish(s, -a);
            assert((-a) * s == s * (-a)) by (nonlinear_arith);
        }
    }
}

/// Dividing zero gives zero.
pub proof fn lemma_fdiv_zero(b: int)
    ensures
        fdiv(0, b) == 0,
{
    if b != 0 {
        assert(0 * FX_SCALE == 0) by (nonlinear_arith);
    }
}

/// The fractional part is periodic with period one.
pub proof fn lemma_fract_periodic(a: int)
    ensures
        ffract(a + FX_SCALE) == ffract(a),
{
    lemma_mod_add_multiples_vanish(a, FX_SCALE as int);
}

/// A saturating fixed-point number: `bits / FX_SCALE`.
#[derive(Clone, Copy, PartialEq, Eq, Structural, Debug)]
pub struct Fx {
    bits: i64,
}

impl View for Fx {
    type V = int;

    closed spec fn view(&self) -> int {
        self.bits as int
    }
}

/// Two scalars are the same value exactly when their bit counts
/// agree: the view loses nothing.
pub broadcast proof fn lemma_fx_view_injective(a: Fx, b: Fx)
    ensures
        (#[trigger] a@ == #[trigger] b@) == (a == b),
{
}

/// Clip an intermediate wide result into the representable range.
fn sat_i128(x: i128) -> (r: i64)
    ensures
        r as int == sat(x as int),
{
    if x > FX_MAX as i128 {
        FX_MAX
    } else if x < FX_MIN as i128 {
        FX_MIN
    } else {
        x as i64
    }
}

impl Fx {
    /// Build a value from a raw bit count, clipping into range.
    pub fn from_bits(bits: i64) -> (r: Fx)
        ensures
            r@ == sat(bits as int),
    {
        Fx { bits: sat_i128(bits as i128) }
    }

    /// Build a value from whole units, clipping into range.
    pub fn from_int(v: i64) -> (r: Fx)
        ensures
            r@ == sat(v * FX_SCALE),
    {
        proof {
            assert(-(0x8000_0000_0000_0000 * 0x1_0000) <= (v as int) * 0x1_0000
                <= 0x8000_0000_0000_0000 * 0x1_0000) by (nonlinear_arith)
                requires
                    -0x8000_0000_0000_0000 <= v as int <= 0x8000_0000_0000_0000,
            ;
        }
        Fx { bits: sat_i128((v as i128) * (FX_SCALE as i128)) }
    }

    /// The raw bit count.
    pub fn to_bits(self) -> (r: i64)
        ensures
            r as int == self@,
    {
        self.bits
    }

    /// Zero.
    pub fn zero() -> (r: Fx)
        ensures
            r@ == 0,
    {
        Fx { bits: 0 }
    }

    /// One.
    pub fn one() -> (r: Fx)
        ensures
            r@ == FX_SCALE as int,
    {
        Fx { bits: FX_SCALE }
    }

    /// One half.
    pub fn half() -> (r: Fx)
        ensures
            2 * r@ == FX_SCALE as int,
    {
        Fx { bits: FX_SCALE / 2 }
    }

    /// Saturating addition.
    pub fn add(self, rhs: Fx) -> (r: Fx)
        ensures
            r@ == fadd(self@, rhs@),
    {
        Fx { bits: sat_i128(self.bits as i128 + rhs.bits as i128) }
    }

    /// Saturating subtraction.
    pub fn sub(self, rhs: Fx) -> (r: Fx)
        ensures
            r@ == fsub(self@, rhs@),
    {
        Fx { bits: sat_i128(self.bits as i128 - rhs.bits as i128) }
    }

    /// Saturating negation.
    pub fn neg(self) -> (r: Fx)
        ensures
            r@ == fneg(self@),
    {
        Fx { bits: sat_i128(-(self.bits as i128)) }
    }

    /// Absolute value.
    pub fn abs(self) -> (r: Fx)
        ensures
            r@ == fabs(self@),
    {
        if self.bits < 0 {
            Fx { bits: sat_i128(-(self.bits as i128)) }
        } else {
            Fx { bits: sat_i128(self.bits as i128) }
        }
    }

    /// Saturating multiplication.
    pub fn mul(self, rhs: Fx) -> (r: Fx)
        ensures
            r@ == fmul(self@, rhs@),
    {
        proof {
            let a = self.bits as int;
            let b = rhs.bits as int;
            assert(-(0x8000_0000_0000_0000 * 0x8000_0000_0000_0000) <= a * b
                <= 0x8000_0000_0000_0000 * 0x8000_0000_0000_0000) by (nonlinear_arith)
                requires
                    -0x8000_0000_0000_0000 <= a <= 0x8000_0000_0000_0000,
                    -0x8000_0000_0000_0000 <= b <= 0x8000_0000_0000_0000,
            ;
        }
        let p: i128 = (self.bits as i128) * (rhs.bits as i128);
        proof {
            lemma_tdiv_bounds(p as int, FX_SCALE as int);
        }
        let q: i128 = p.checked_div(FX_SCALE as i128).unwrap();
        Fx { bits: sat_i128(q) }
    }

    /// Saturating division; a zero divisor saturates by the dividend's
    /// sign.
    pub fn div(self, rhs: Fx) -> (r: Fx)
        ensures
            r@ == fdiv(self@, rhs@),
    {
        if rhs.bits == 0 {
            if self.bits > 0 {
                Fx { bits: FX_MAX }
            } else if self.bits < 0 {
                Fx { bits: FX_MIN }
            } else {
                Fx { bits: 0 }
            }
        } else {
            proof {
                let a = self.bits as int;
                assert(-(0x8000_0000_0000_0000 * 0x1_0000) <= a * 0x1_0000
                    <= 0x8000_0000_0000_0000 * 0x1_0000) by (nonlinear_arith)
                    requires
                        -0x8000_0000_0000_0000 <= a <= 0x8000_0000_0000_0000,
                ;
            }
            let n: i128 = (self.bits as i128) * (FX_SCALE as i128);
            proof {
                lemma_tdiv_bounds(n as int, rhs.bits as int);
            }
            let q: i128 = n.checked_div(rhs.bits as i128).unwrap();
            Fx { bits: sat_i128(q) }
        }
    }

    /// The fractional part, in `[0, 1)`.
    pub fn fract(self) -> (r: Fx)
        ensures
            r@ == ffract(self@),
    {
        proof {
            lemma_mod_division_less_than_divisor(self.bits as int, FX_SCALE as int);
            vstd::arithmetic::div_mod::lemma_mod_bound(self.bits as int, FX_SCALE as int);
        }
        Fx { bits: self.bits.checked_rem_euclid(FX_SCALE).unwrap() }
    }

    /// The floor as a plain integer count of whole units.
    pub fn floor_int(self) -> (r: i64)
        ensures
            r as int == fx_floor(self@),
    {
        self.bits.checked_div_euclid(FX_SCALE).unwrap()
    }

    /// The floor as a pixel coordinate; the value must already be a
    /// clamped, non-negative screen coordinate.
    pub fn to_u32_floor(self) -> (r: u32)
        requires
            0 <= self@,
            fx_floor(self@) <= u32::MAX,
        ensures
            r as int == fx_floor(self@),
    {
        proof {
            lemma_div_pos_is_pos(self.bits as int, FX_SCALE as int);
        }
        self.bits.checked_div_euclid(FX_SCALE).unwrap() as u32
    }

    /// The floor as a pixel coordinate, clamped into the `u32` range
    /// the way a saturating cast behaves.
    pub fn to_u32_sat(self) -> (r: u32)
        ensures
            r as int == fx_to_u32(self@),
    {
        if self.bits < 0 {
            0
        } else {
            proof {
                lemma_div_pos_is_pos(self.bits as int, FX_SCALE as int);
            }
            let q: i64 = self.bits.checked_div_euclid(FX_SCALE).unwrap();
            if q > u32::MAX as i64 {
                u32::MAX
            } else {
                q as u32
            }
        }
    }

    /// Comparison: less-or-equal.
    pub fn le(self, rhs: Fx) -> (r: bool)
        ensures
            r == (self@ <= rhs@),
    {
        self.bits <= rhs.bits
    }

    /// Comparison: strictly less.
    pub fn lt(self, rhs: Fx) -> (r: bool)
        ensures
            r == (self@ < rhs@),
    {
        self.bits < rhs.bits
    }

    /// Comparison: greater-or-equal.
    pub fn ge(self, rhs: Fx) -> (r: bool)
        ensures
            r == (self@ >= rhs@),
    {
        self.bits >= rhs.bits
    }

    /// Comparison: strictly greater.
    pub fn gt(self, rhs: Fx) -> (r: bool)
        ensures
            r == (self@ > rhs@),
    {
        self.bits > rhs.bits
    }

    /// The smaller of two values.
    pub fn min(self, rhs: Fx) -> (r: Fx)
        ensures
            r@ == if self@ < rhs@ { self@ } else { rhs@ },
    {
        if self.bits < rhs.bits {
            self
        } else {
            rhs
        }
    }

    /// The larger of two values.
    pub fn max(self, rhs: Fx) -> (r: Fx)
        ensures
            r@ == if self@ > rhs@ { self@ } else { rhs@ },
    {
        if self.bits > rhs.bits {
            self
        } else {
            rhs
        }
    }

    /// Clamp into a closed interval.
    pub fn clamp(self, lo: Fx, hi: Fx) -> (r: Fx)
        ensures
            r@ == fclamp(self@, lo@, hi@),
    {
        if self.bits < lo.bits {
            lo
        } else if self.bits > hi.bits {
            hi
        } else {
            self
        }
    }

    /// Square root of a non-negative value, rounded down to the
    /// resolution.
    pub fn sqrt(self) -> (r: Fx)
        requires
            self@ >= 0,
        ensures
            r@ == fsqrt(self@),
    {
        let n: u128 = (self.bits as u128) * (FX_SCALE as u128);
        let root: u64 = isqrt_exec(n);
        Fx { bits: root as i64 }
    }
}

/// Binary search for the integer square root.
fn isqrt_exec(n: u128) -> (r: u64)
    requires
        n < 0x1_0000_0000_0000_0000_0000,
    ensures
        r as nat == isqrt(n as nat),
        r <= 0x100_0000_0000,
{
    let mut lo: u128 = 0;
    let mut hi: u128 = 0x100_0000_0000;
    proof {
        assert(0x100_0000_0000 * 0x100_0000_0000 == 0x1_0000_0000_0000_0000_0000) by (nonlinear_arith);
    }
    while hi - lo > 1
        invariant
            lo < hi,
            hi <= 0x100_0000_0000,
            lo * lo <= n,
            n < hi * hi,
        decreases hi - lo,
    {
        let mid: u128 = lo + (hi - lo) / 2;
        assert(lo < mid < hi);
        proof {
            assert(mid * mid <= 0x100_0000_0000 * 0x100_0000_0000) by (nonlinear_arith)
                requires
                    mid <= 0x100_0000_0000,
            ;
        }
        let sq: u128 = mid * mid;
        if sq <= n {
            lo = mid;
        } else {
            hi = mid;
        }
    }
    proof {
        lemma_isqrt_bounds(n as nat);
        lemma_isqrt_unique(n as nat, lo as nat, isqrt(n as nat));
    }
    lo as u64
}

} // verus!
