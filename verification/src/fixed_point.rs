//! Deterministic Q24.8 fixed-point scalars and the 2-D geometry built on
//! them.
//!
//! A [`FixedPoint`] is a signed 32-bit integer interpreted with 8 fractional
//! bits, so one whole unit is 256 raw steps and the resolution is 1/256.
//! Every simulation-affecting quantity (position, velocity, health) uses this
//! type; native floating point is never involved, which keeps results
//! bit-identical across machines.
//!
//! Operations whose mathematical result cannot be represented return an
//! [`ArithmeticError`] instead of silently wrapping.

use vstd::prelude::*;

verus! {

use vstd::arithmetic::div_mod::lemma_fundamental_div_mod;
use vstd::arithmetic::div_mod::lemma_fundamental_div_mod_converse;
use vstd::arithmetic::div_mod::lemma_div_multiples_vanish;
use vstd::arithmetic::mul::lemma_mul_strict_inequality;
use vstd::arithmetic::mul::lemma_mul_inequality;
use vstd::arithmetic::power2::pow2;
use vstd::arithmetic::power2::lemma_pow2_adds;
use vstd::arithmetic::power2::lemma_pow2_strictly_increases;
use vstd::arithmetic::power2::lemma2_to64;
use vstd::arithmetic::power2::lemma2_to64_rest;

/// Error raised by a fixed-point operation whose exact result cannot be
/// represented: division by zero, or a value outside the signed 32-bit raw
/// range.
#[derive(Debug, Clone, Copy, PartialEq, Eq, Structural)]
pub enum ArithmeticError {
    DivisionByZero,
    Overflow,
}

/// A Q24.8 fixed-point number: the wrapped `i32` counts steps of 1/256.
#[derive(Debug, Clone, Copy, PartialEq, Eq, PartialOrd, Ord, Hash, Structural)]
pub struct FixedPoint(pub i32);

/// Whether a mathematical integer fits in the raw `i32` backing store.
pub open spec fn in_i32(v: int) -> bool {
    i32::MIN <= v <= i32::MAX
}

/// Whether rounding a raw value to the nearest whole unit moves it up: the
/// fractional part is above one half, or exactly one half on a positive
/// value (halves round away from zero).
pub open spec fn round_goes_up(raw: int) -> bool {
    raw % 256 > 128 || (raw % 256 == 128 && raw > 0)
}

/// Whether the exact sum of two fixed-point numbers is representable.
pub open spec fn fp_add_ok(a: FixedPoint, b: FixedPoint) -> bool {
    in_i32(a.0 + b.0)
}

/// Exact sum of two fixed-point numbers (meaningful when [`fp_add_ok`]).
pub open spec fn fp_add(a: FixedPoint, b: FixedPoint) -> FixedPoint {
    FixedPoint((a.0 + b.0) as i32)
}

/// Whether the exact difference of two fixed-point numbers is representable.
pub open spec fn fp_sub_ok(a: FixedPoint, b: FixedPoint) -> bool {
    in_i32(a.0 - b.0)
}

/// Exact difference of two fixed-point numbers.
pub open spec fn fp_sub(a: FixedPoint, b: FixedPoint) -> FixedPoint {
    FixedPoint((a.0 - b.0) as i32)
}

/// Whether the negation of a fixed-point number is representable.
pub open spec fn fp_neg_ok(a: FixedPoint) -> bool {
    in_i32(-a.0)
}

/// Negation of a fixed-point number.
pub open spec fn fp_neg(a: FixedPoint) -> FixedPoint {
    FixedPoint((-a.0) as i32)
}

/// Whether the scaled product (raw product shifted right by 8) is
/// representable.
pub open spec fn fp_mul_ok(a: FixedPoint, b: FixedPoint) -> bool {
    in_i32((a.0 * b.0) / 256)
}

/// Scaled product of two fixed-point numbers: the raw product shifted
/// arithmetically right by the 8 fractional bits, rounding toward negative
/// infinity.
pub open spec fn fp_mul(a: FixedPoint, b: FixedPoint) -> FixedPoint {
    FixedPoint(((a.0 * b.0) / 256) as i32)
}

impl FixedPoint {
    /// The number zero.
    pub fn zero() -> (r: FixedPoint)
        ensures
            r.0 == 0,
    {
        FixedPoint(0)
    }

    /// Builds the fixed-point number for a whole number of units.
    pub fn from_int(v: i32) -> (r: Result<FixedPoint, ArithmeticError>)
        ensures
            in_i32(v * 256) ==> r == Ok::<FixedPoint, ArithmeticError>(FixedPoint((v * 256) as i32)),
            !in_i32(v * 256) ==> r == Err::<FixedPoint, ArithmeticError>(ArithmeticError::Overflow),
    {
        match v.checked_mul(256) {
            Some(raw) => Ok(FixedPoint(raw)),
            None => Err(ArithmeticError::Overflow),
        }
    }

    /// Exact sum, or `Overflow` when it leaves the 32-bit raw range.
    pub fn checked_add(self, rhs: FixedPoint) -> (r: Result<FixedPoint, ArithmeticError>)
        ensures
            fp_add_ok(self, rhs) ==> r == Ok::<FixedPoint, ArithmeticError>(fp_add(self, rhs)),
            !fp_add_ok(self, rhs) ==> r == Err::<FixedPoint, ArithmeticError>(
                ArithmeticError::Overflow,
            ),
    {
        match self.0.checked_add(rhs.0) {
            Some(raw) => Ok(FixedPoint(raw)),
            None => Err(ArithmeticError::Overflow),
        }
    }

    /// Exact difference, or `Overflow` when it leaves the 32-bit raw range.
    pub fn checked_sub(self, rhs: FixedPoint) -> (r: Result<FixedPoint, ArithmeticError>)
        ensures
            fp_sub_ok(self, rhs) ==> r == Ok::<FixedPoint, ArithmeticError>(fp_sub(self, rhs)),
            !fp_sub_ok(self, rhs) ==> r == Err::<FixedPoint, ArithmeticError>(
                ArithmeticError::Overflow,
            ),
    {
        match self.0.checked_sub(rhs.0) {
            Some(raw) => Ok(FixedPoint(raw)),
            None => Err(ArithmeticError::Overflow),
        }
    }

    /// Exact negation, or `Overflow` for the one unrepresentable input.
    pub fn checked_neg(self) -> (r: Result<FixedPoint, ArithmeticError>)
        ensures
            fp_neg_ok(self) ==> r == Ok::<FixedPoint, ArithmeticError>(fp_neg(self)),
            !fp_neg_ok(self) ==> r == Err::<FixedPoint, ArithmeticError>(ArithmeticError::Overflow),
    {
        if self.0 == i32::MIN {
            Err(ArithmeticError::Overflow)
        } else {
            Ok(FixedPoint(-self.0))
        }
    }

    /// Whole part, rounded toward negative infinity (the arithmetic shift of
    /// the raw value by the 8 fractional bits).
    pub fn whole(self) -> (r: i32)
        ensures
            r == self.0 as int / 256,
    {
        floor_shift8(self.0 as i64) as i32
    }

    /// Fractional part as a raw step count in `0..256`; the raw value is
    /// always `256 * whole + frac`.
    pub fn frac(self) -> (r: i32)
        ensures
            r == self.0 as int % 256,
            self.0 == 256 * (self.0 as int / 256) + r,
    {
        let wh = self.whole();
        proof {
            lemma_fundamental_div_mod(self.0 as int, 256);
        }
        ((self.0 as i64) - 256i64 * (wh as i64)) as i32
    }

    /// Drops the fractional bits, rounding toward negative infinity.
    pub fn trunc(self) -> (r: FixedPoint)
        ensures
            r.0 == 256 * (self.0 as int / 256),
    {
        let wh = self.whole();
        proof {
            lemma_fundamental_div_mod(self.0 as int, 256);
        }
        FixedPoint(((wh as i64) * 256) as i32)
    }

    /// Rounds to the nearest whole unit, halves away from zero.
    ///
    /// The input is restricted so that the rounded-up value still fits in the
    /// raw range (a machine limit on the topmost whole unit).
    pub fn round(self) -> (r: FixedPoint)
        requires
            round_goes_up(self.0 as int) ==> self.0 as int / 256 < 8388607,
        ensures
            round_goes_up(self.0 as int) ==> r.0 == 256 * (self.0 as int / 256 + 1),
            !round_goes_up(self.0 as int) ==> r.0 == 256 * (self.0 as int / 256),
    {
        let f = self.frac();
        let up = f > 128 || (f == 128 && self.0 > 0);
        if up {
            let wh = self.whole();
            proof {
                lemma_fundamental_div_mod(self.0 as int, 256);
            }
            FixedPoint((((wh as i64) + 1) * 256) as i32)
        } else {
            self.trunc()
        }
    }

    /// Absolute value; the raw minimum is excluded because its magnitude is
    /// not representable.
    pub fn abs(self) -> (r: FixedPoint)
        requires
            self.0 != i32::MIN,
        ensures
            r.0 == if self.0 < 0 {
                -self.0 as int
            } else {
                self.0 as int
            },
    {
        if self.0 < 0 {
            FixedPoint(-self.0)
        } else {
            self
        }
    }
}

/// Number of binary digits of `x`: 0 for 0, and the unique `k` with
/// `pow2(k - 1) <= x < pow2(k)` otherwise.  The leading-zero count of a
/// 32-bit value is `32 - bit_len`.
pub open spec fn bit_len(x: nat) -> nat
    decreases x,
{
    if x == 0 {
        0
    } else {
        (1 + bit_len(x / 2)) as nat
    }
}

/// Number of trailing zero bits of a positive `x`: the largest `k` such that
/// `pow2(k)` divides `x` (0 for 0, where every power divides).
pub open spec fn trailing_zeros(x: nat) -> nat
    decreases x,
{
    if x == 0 {
        0
    } else if x % 2 == 1 {
        0
    } else {
        (1 + trailing_zeros(x / 2)) as nat
    }
}

/// The scaled-quotient algorithm on raw magnitudes `na / nb` (with
/// `0 <= na < pow2(31)` and `0 < nb`): the numerator is left-shifted until it
/// fills 31 bits, trailing powers of two are stripped from the denominator,
/// the integer quotient is taken, and the accumulated scaling is shifted back
/// to the 8 fractional bits of the result.
pub open spec fn div_magnitude(na: nat, nb: nat) -> int {
    let adjust_n = 31 - bit_len(na);
    let adjust_d = trailing_zeros(nb);
    let num = na * pow2(adjust_n as nat);
    let den = nb / pow2(adjust_d);
    let q = num / den;
    let change = 8 - adjust_n - adjust_d;
    if change >= 0 {
        (q * pow2(change as nat)) as int
    } else {
        q as int / pow2((-change) as nat) as int
    }
}

/// Full result of fixed-point division on raw values, sign handled
/// separately: division by zero and the unrepresentable magnitude of
/// `i32::MIN` are rejected, and a scaled quotient above `i32::MAX` is an
/// overflow.
pub open spec fn fp_div(a: int, b: int) -> Result<FixedPoint, ArithmeticError> {
    if b == 0 {
        Err(ArithmeticError::DivisionByZero)
    } else if a == i32::MIN || b == i32::MIN {
        Err(ArithmeticError::Overflow)
    } else {
        let na = (if a < 0 {
            -a
        } else {
            a
        }) as nat;
        let nb = (if b < 0 {
            -b
        } else {
            b
        }) as nat;
        let mag = div_magnitude(na, nb);
        if mag > i32::MAX {
            Err(ArithmeticError::Overflow)
        } else if (a < 0) != (b < 0) {
            Ok(FixedPoint((-mag) as i32))
        } else {
            Ok(FixedPoint(mag as i32))
        }
    }
}

impl FixedPoint {
    /// Product scaled back by the 8 fractional bits: the raw product shifted
    /// arithmetically right by 8 (rounding toward negative infinity), or
    /// `Overflow` when that leaves the raw range.
    pub fn checked_mul(self, rhs: FixedPoint) -> (r: Result<FixedPoint, ArithmeticError>)
        ensures
            fp_mul_ok(self, rhs) ==> r == Ok::<FixedPoint, ArithmeticError>(fp_mul(self, rhs)),
            !fp_mul_ok(self, rhs) ==> r == Err::<FixedPoint, ArithmeticError>(
                ArithmeticError::Overflow,
            ),
    {
        proof {
            assert((self.0 as int) * (rhs.0 as int) <= 0x4000_0000_0000_0000
                && (self.0 as int) * (rhs.0 as int) >= -0x4000_0000_0000_0000) by (nonlinear_arith)
                requires
                    -0x8000_0000 <= self.0 as int <= 0x7FFF_FFFF,
                    -0x8000_0000 <= rhs.0 as int <= 0x7FFF_FFFF,
            ;
        }
        let p: i64 = (self.0 as i64) * (rhs.0 as i64);
        let s: i64 = floor_shift8(p);
        if s >= i32::MIN as i64 && s <= i32::MAX as i64 {
            Ok(FixedPoint(s as i32))
        } else {
            Err(ArithmeticError::Overflow)
        }
    }

    /// Precision-preserving division; the result matches [`fp_div`] on the
    /// raw operands exactly, including its error cases.
    pub fn checked_div(self, rhs: FixedPoint) -> (r: Result<FixedPoint, ArithmeticError>)
        ensures
            r == fp_div(self.0 as int, rhs.0 as int),
    {
        if rhs.0 == 0 {
            return Err(ArithmeticError::DivisionByZero);
        }
        if self.0 == i32::MIN || rhs.0 == i32::MIN {
            return Err(ArithmeticError::Overflow);
        }
        let neg: bool = (self.0 < 0) != (rhs.0 < 0);
        let na: u64 = if self.0 < 0 {
            (-(self.0 as i64)) as u64
        } else {
            self.0 as u64
        };
        let nb: u64 = if rhs.0 < 0 {
            (-(rhs.0 as i64)) as u64
        } else {
            rhs.0 as u64
        };
        let bl: u64 = bit_length(na);
        proof {
            lemma2_to64();
            lemma_bit_len_at_most(na as nat, 31);
        }
        let adjust_n: u64 = 31 - bl;
        let shift_n: u64 = pow2_u64(adjust_n);
        proof {
            lemma_bit_len_bounds(na as nat);
            vstd::arithmetic::power2::lemma_pow2_pos((31 - bit_len(na as nat)) as nat);
            lemma_pow2_adds(bit_len(na as nat), (31 - bit_len(na as nat)) as nat);
            lemma_mul_strict_inequality(
                na as int,
                pow2(bit_len(na as nat)) as int,
                pow2((31 - bit_len(na as nat)) as nat) as int,
            );
        }
        let num: u64 = na * shift_n;
        let (den, adjust_d) = strip_twos(nb);
        proof {
            lemma_tz_bound(nb as nat);
            lemma_bit_len_at_most(nb as nat, 31);
            vstd::arithmetic::div_mod::lemma_div_nonincreasing(num as int, den as int);
        }
        let q: u64 = num / den;
        let change: i64 = 8 - (adjust_n as i64) - (adjust_d as i64);
        let mag: u64 = if change >= 0 {
            let m: u64 = pow2_u64(change as u64);
            proof {
                if (change as nat) < 8 {
                    lemma_pow2_strictly_increases(change as nat, 8);
                }
                lemma_mul_inequality(q as int, 0x7FFF_FFFF, m as int);
                lemma_mul_inequality(m as int, 0x100, 0x7FFF_FFFF);
            }
            q * m
        } else {
            q / pow2_u64((-change) as u64)
        };
        if mag > i32::MAX as u64 {
            return Err(ArithmeticError::Overflow);
        }
        let magi: i32 = mag as i32;
        if neg {
            Ok(FixedPoint(-magi))
        } else {
            Ok(FixedPoint(magi))
        }
    }
}

/// Exact power of two as a machine word.
fn pow2_u64(k: u64) -> (r: u64)
    requires
        k <= 62,
    ensures
        r as nat == pow2(k as nat),
        r >= 1,
{
    let mut r: u64 = 1;
    let mut i: u64 = 0;
    proof {
        lemma2_to64();
        lemma2_to64_rest();
    }
    while i < k
        invariant
            i <= k <= 62,
            r as nat == pow2(i as nat),
            r >= 1,
        decreases k - i,
    {
        proof {
            lemma2_to64();
            lemma2_to64_rest();
            lemma_pow2_strictly_increases(i as nat, 62);
            lemma_pow2_adds(i as nat, 1);
        }
        r = r * 2;
        i = i + 1;
    }
    r
}

/// Binary digit count of a machine word, by repeated halving.
fn bit_length(x: u64) -> (r: u64)
    ensures
        r == bit_len(x as nat),
{
    let mut n: u64 = x;
    let mut len: u64 = 0;
    proof {
        lemma2_to64();
        lemma_bit_len_at_most(x as nat, 64);
    }
    while n > 0
        invariant
            bit_len(x as nat) == bit_len(n as nat) + len,
            bit_len(x as nat) <= 64,
        decreases n,
    {
        n = n / 2;
        len = len + 1;
    }
    len
}

/// Splits a positive word into its odd part and its trailing-zero count.
fn strip_twos(x: u64) -> (r: (u64, u64))
    requires
        x >= 1,
    ensures
        r.1 == trailing_zeros(x as nat),
        r.0 as nat == x as nat / pow2(trailing_zeros(x as nat)),
        r.0 >= 1,
{
    let mut n: u64 = x;
    let mut k: u64 = 0;
    proof {
        lemma2_to64();
    }
    while n % 2 == 0
        invariant
            n >= 1,
            x as nat == n as nat * pow2(k as nat),
            pow2(k as nat) <= x as nat,
            trailing_zeros(x as nat) == k + trailing_zeros(n as nat),
        decreases n,
    {
        proof {
            lemma2_to64();
            lemma_pow2_adds(k as nat, 1);
            let h = (n / 2) as nat;
            assert(n as nat == 2 * h);
            assert(h * pow2((k + 1) as nat) == n as nat * pow2(k as nat)) by (nonlinear_arith)
                requires
                    pow2((k + 1) as nat) == pow2(k as nat) * pow2(1),
                    pow2(1) == 2,
                    n as nat == 2 * h,
            ;
            lemma_bound_from_product(x as nat, h, pow2((k + 1) as nat));
            if k + 1 >= 64 {
                if k + 1 > 64 {
                    lemma_pow2_strictly_increases(64, (k + 1) as nat);
                }
                assert(false);
            }
        }
        n = n / 2;
        k = k + 1;
    }
    proof {
        lemma_div_multiples_vanish(n as int, pow2(k as nat) as int);
        vstd::arithmetic::mul::lemma_mul_is_commutative(n as int, pow2(k as nat) as int);
    }
    (n, k)
}

/// A product with a factor of at least one is at least the other factor.
proof fn lemma_bound_from_product(x: nat, a: nat, b: nat)
    requires
        x == a * b,
        a >= 1,
    ensures
        b <= x,
{
    lemma_mul_inequality(1, a as int, b as int);
}

/// Digit-count bounds: `x < pow2(bit_len(x))`, and for positive `x` also
/// `pow2(bit_len(x) - 1) <= x`.
proof fn lemma_bit_len_bounds(x: nat)
    ensures
        x < pow2(bit_len(x)),
        x >= 1 ==> pow2((bit_len(x) - 1) as nat) <= x,
    decreases x,
{
    lemma2_to64();
    if x != 0 {
        let h = x / 2;
        lemma_bit_len_bounds(h);
        assert(bit_len(x) == 1 + bit_len(h));
        lemma_pow2_adds(bit_len(h), 1);
        assert(pow2(bit_len(x)) == pow2(bit_len(h)) * 2);
        assert(x < pow2(bit_len(x)));
        if h == 0 {
            assert(pow2((bit_len(x) - 1) as nat) == 1);
        } else {
            lemma_pow2_adds((bit_len(h) - 1) as nat, 1);
            assert(pow2(bit_len(h)) == pow2((bit_len(h) - 1) as nat) * 2);
            assert(pow2((bit_len(x) - 1) as nat) <= x);
        }
    }
}

/// A value below `pow2(k)` has at most `k` binary digits.
proof fn lemma_bit_len_at_most(x: nat, k: nat)
    requires
        x < pow2(k),
    ensures
        bit_len(x) <= k,
{
    if x >= 1 && bit_len(x) > k {
        lemma_bit_len_bounds(x);
        if (bit_len(x) - 1) as nat > k {
            lemma_pow2_strictly_increases(k, (bit_len(x) - 1) as nat);
        }
    }
}

/// The trailing-zero count never exceeds the digit count.
proof fn lemma_tz_bound(x: nat)
    ensures
        trailing_zeros(x) <= bit_len(x),
    decreases x,
{
    if x > 0 && x % 2 == 0 {
        lemma_tz_bound(x / 2);
    }
}

/// Arithmetic shift right by 8 of a wide intermediate value: floor division
/// by 256, computed through magnitudes to stay in unsigned machine division.
fn floor_shift8(w: i64) -> (q: i64)
    requires
        -0x4000_0000_0000_0000 <= w <= 0x4000_0000_0000_0000,
    ensures
        q == w as int / 256,
{
    if w >= 0 {
        ((w as u64) / 256) as i64
    } else {
        let m: u64 = (-w) as u64;
        let q0: u64 = (m + 255) / 256;
        proof {
            lemma_floor_shift(w as int, 256);
        }
        -(q0 as i64)
    }
}

/// Floor division of `w` by the positive divisor `d`, phrased for the
/// negative-numerator branch computed through magnitudes: the ceiling of
/// `-w / d`, negated, is the floor of `w / d`.
proof fn lemma_floor_shift(w: int, d: int)
    requires
        w < 0,
        d > 0,
    ensures
        -((-w + d - 1) / d) == w / d,
{
    let q = w / d;
    let r = w % d;
    lemma_fundamental_div_mod(w, d);
    assert(w == d * q + r);
    assert((-w + d - 1) == (-q) * d + (d - 1 - r)) by (nonlinear_arith)
        requires
            w == d * q + r,
    ;
    lemma_fundamental_div_mod_converse(-w + d - 1, d, -q, d - 1 - r);
}


impl FixedPoint {
    /// Count of binary digits spanned by the magnitude: the bit width (32)
    /// minus the leading-zero count plus the trailing-zero count of the
    /// absolute raw value, with the all-zero value spanning the full width.
    pub fn significant_digits(self) -> (r: usize)
        requires
            self.0 != i32::MIN,
        ensures
            self.0 == 0 ==> r == 32,
            self.0 != 0 ==> r == bit_len(fp_magnitude(self) as nat) + trailing_zeros(
                fp_magnitude(self) as nat,
            ),
    {
        if self.0 == 0 {
            return 32;
        }
        let m: u64 = if self.0 < 0 {
            (-(self.0 as i64)) as u64
        } else {
            self.0 as u64
        };
        let bl: u64 = bit_length(m);
        let (_odd, tz) = strip_twos(m);
        proof {
            lemma2_to64();
            lemma_bit_len_at_most(m as nat, 31);
            lemma_tz_bound(m as nat);
        }
        (bl + tz) as usize
    }
}

/// Magnitude of the raw value as a mathematical integer.
pub open spec fn fp_magnitude(a: FixedPoint) -> int {
    if a.0 < 0 {
        -a.0 as int
    } else {
        a.0 as int
    }
}

/// A pair of fixed-point coordinates; the simulation's positions and
/// velocities.
#[derive(Debug, Clone, Copy, PartialEq, Eq, Hash, Structural)]
pub struct Vec2 {
    pub x: FixedPoint,
    pub y: FixedPoint,
}

/// Whether the componentwise sum of two vectors is representable.
pub open spec fn vec2_add_ok(a: Vec2, b: Vec2) -> bool {
    fp_add_ok(a.x, b.x) && fp_add_ok(a.y, b.y)
}

/// Componentwise sum of two vectors.
pub open spec fn vec2_add(a: Vec2, b: Vec2) -> Vec2 {
    Vec2 { x: fp_add(a.x, b.x), y: fp_add(a.y, b.y) }
}

/// Whether scaling both components by a fixed-point factor is representable.
pub open spec fn vec2_scale_ok(v: Vec2, s: FixedPoint) -> bool {
    fp_mul_ok(v.x, s) && fp_mul_ok(v.y, s)
}

/// Componentwise scaled product of a vector and a fixed-point factor.
pub open spec fn vec2_scale(v: Vec2, s: FixedPoint) -> Vec2 {
    Vec2 { x: fp_mul(v.x, s), y: fp_mul(v.y, s) }
}

impl Vec2 {
    /// Builds the vector with the given coordinates.
    pub fn new(x: FixedPoint, y: FixedPoint) -> (r: Vec2)
        ensures
            r == (Vec2 { x, y }),
    {
        Vec2 { x, y }
    }

    /// Componentwise sum, or `Overflow` when either component overflows.
    pub fn checked_add(self, rhs: Vec2) -> (r: Result<Vec2, ArithmeticError>)
        ensures
            vec2_add_ok(self, rhs) ==> r == Ok::<Vec2, ArithmeticError>(vec2_add(self, rhs)),
            !vec2_add_ok(self, rhs) ==> r == Err::<Vec2, ArithmeticError>(ArithmeticError::Overflow),
    {
        let x = self.x.checked_add(rhs.x)?;
        let y = self.y.checked_add(rhs.y)?;
        Ok(Vec2 { x, y })
    }

    /// Componentwise difference, or `Overflow` when either component
    /// overflows.
    pub fn checked_sub(self, rhs: Vec2) -> (r: Result<Vec2, ArithmeticError>)
        ensures
            fp_sub_ok(self.x, rhs.x) && fp_sub_ok(self.y, rhs.y) ==> r == Ok::<
                Vec2,
                ArithmeticError,
            >(Vec2 { x: fp_sub(self.x, rhs.x), y: fp_sub(self.y, rhs.y) }),
            !(fp_sub_ok(self.x, rhs.x) && fp_sub_ok(self.y, rhs.y)) ==> r == Err::<
                Vec2,
                ArithmeticError,
            >(ArithmeticError::Overflow),
    {
        let x = self.x.checked_sub(rhs.x)?;
        let y = self.y.checked_sub(rhs.y)?;
        Ok(Vec2 { x, y })
    }

    /// Componentwise negation, or `Overflow` when either component is the
    /// unrepresentable minimum.
    pub fn checked_neg(self) -> (r: Result<Vec2, ArithmeticError>)
        ensures
            fp_neg_ok(self.x) && fp_neg_ok(self.y) ==> r == Ok::<Vec2, ArithmeticError>(
                Vec2 { x: fp_neg(self.x), y: fp_neg(self.y) },
            ),
            !(fp_neg_ok(self.x) && fp_neg_ok(self.y)) ==> r == Err::<Vec2, ArithmeticError>(
                ArithmeticError::Overflow,
            ),
    {
        let x = self.x.checked_neg()?;
        let y = self.y.checked_neg()?;
        Ok(Vec2 { x, y })
    }

    /// Componentwise scaled product with a fixed-point factor, or `Overflow`.
    pub fn checked_mul(self, rhs: FixedPoint) -> (r: Result<Vec2, ArithmeticError>)
        ensures
            vec2_scale_ok(self, rhs) ==> r == Ok::<Vec2, ArithmeticError>(vec2_scale(self, rhs)),
            !vec2_scale_ok(self, rhs) ==> r == Err::<Vec2, ArithmeticError>(
                ArithmeticError::Overflow,
            ),
    {
        let x = self.x.checked_mul(rhs)?;
        let y = self.y.checked_mul(rhs)?;
        Ok(Vec2 { x, y })
    }

    /// Componentwise precision-preserving division by a fixed-point divisor.
    pub fn checked_div(self, rhs: FixedPoint) -> (r: Result<Vec2, ArithmeticError>)
        ensures
            fp_div(self.x.0 as int, rhs.0 as int) is Ok && fp_div(self.y.0 as int, rhs.0 as int)
                is Ok ==> r == Ok::<Vec2, ArithmeticError>(
                Vec2 {
                    x: fp_div(self.x.0 as int, rhs.0 as int)->Ok_0,
                    y: fp_div(self.y.0 as int, rhs.0 as int)->Ok_0,
                },
            ),
            fp_div(self.x.0 as int, rhs.0 as int) is Err ==> r == Err::<Vec2, ArithmeticError>(
                fp_div(self.x.0 as int, rhs.0 as int)->Err_0,
            ),
            fp_div(self.x.0 as int, rhs.0 as int) is Ok && fp_div(self.y.0 as int, rhs.0 as int)
                is Err ==> r == Err::<Vec2, ArithmeticError>(
                fp_div(self.y.0 as int, rhs.0 as int)->Err_0,
            ),
    {
        let x = self.x.checked_div(rhs)?;
        let y = self.y.checked_div(rhs)?;
        Ok(Vec2 { x, y })
    }
}

/// An axis-aligned box given by its minimum and maximum corners; hitbox and
/// hurtbox geometry.
#[derive(Debug, Clone, Copy, PartialEq, Eq, Structural)]
pub struct Rect {
    pub min: Vec2,
    pub max: Vec2,
}

/// Strict axis-aligned overlap: boxes that merely touch along an edge do not
/// overlap.
pub open spec fn rect_overlaps(a: Rect, b: Rect) -> bool {
    a.max.x.0 > b.min.x.0 && a.min.x.0 < b.max.x.0 && a.min.y.0 < b.max.y.0 && a.max.y.0 > b.min.y.0
}

/// Whether translating a rectangle by an offset keeps both corners
/// representable.
pub open spec fn rect_offset_ok(r: Rect, o: Vec2) -> bool {
    vec2_add_ok(r.min, o) && vec2_add_ok(r.max, o)
}

/// A rectangle translated by an offset.
pub open spec fn rect_offset(r: Rect, o: Vec2) -> Rect {
    Rect { min: vec2_add(r.min, o), max: vec2_add(r.max, o) }
}

impl Rect {
    /// Builds the box with the given corners.
    pub fn new(min: Vec2, max: Vec2) -> (r: Rect)
        ensures
            r == (Rect { min, max }),
    {
        Rect { min, max }
    }

    /// X coordinate of the minimum corner.
    pub fn left(&self) -> (r: FixedPoint)
        ensures
            r == self.min.x,
    {
        self.min.x
    }

    /// X coordinate of the maximum corner.
    pub fn right(&self) -> (r: FixedPoint)
        ensures
            r == self.max.x,
    {
        self.max.x
    }

    /// Y coordinate of the minimum corner.
    pub fn top(&self) -> (r: FixedPoint)
        ensures
            r == self.min.y,
    {
        self.min.y
    }

    /// Y coordinate of the maximum corner.
    pub fn bottom(&self) -> (r: FixedPoint)
        ensures
            r == self.max.y,
    {
        self.max.y
    }

    /// Strict axis-aligned intersection test.
    pub fn overlaps(self, other: Rect) -> (r: bool)
        ensures
            r == rect_overlaps(self, other),
    {
        self.max.x.0 > other.min.x.0 && self.min.x.0 < other.max.x.0 && self.min.y.0
            < other.max.y.0 && self.max.y.0 > other.min.y.0
    }

    /// Translates the box by a vector, or `Overflow` when a corner leaves the
    /// raw range.
    pub fn offset(self, offset: Vec2) -> (r: Result<Rect, ArithmeticError>)
        ensures
            rect_offset_ok(self, offset) ==> r == Ok::<Rect, ArithmeticError>(
                rect_offset(self, offset),
            ),
            !rect_offset_ok(self, offset) ==> r == Err::<Rect, ArithmeticError>(
                ArithmeticError::Overflow,
            ),
    {
        let min = self.min.checked_add(offset)?;
        let max = self.max.checked_add(offset)?;
        Ok(Rect { min, max })
    }
}


/// Fixed-point algebra: for every representable value, adding the negation
/// gives exactly zero, and the magnitude is never negative.
pub proof fn lemma_add_neg_is_zero(a: FixedPoint)
    requires
        fp_neg_ok(a),
    ensures
        fp_add_ok(a, fp_neg(a)),
        fp_add(a, fp_neg(a)) == FixedPoint(0),
        fp_magnitude(a) >= 0,
{
}

} // verus!
