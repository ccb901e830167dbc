//! I80F48 fixed-point numbers, modelled by their raw bits.
//!
//! A value `x` is held as the integer `x.bits == x * 2^48`. Multiplication,
//! division, rounding and conversion to integers are done by the `fixed`
//! crate; comparisons and conversions from integers are exact integer
//! operations on the bits.

use vstd::prelude::*;
use fixed::types::I80F48;

verus! {

/// 2^48, the number of bits of one unit.
pub open spec fn scale() -> int {
    281474976710656
}

/// Largest value of an `i128`.
pub open spec fn i128_max() -> int {
    170141183460469231731687303715884105727
}

/// Smallest value of an `i128`.
pub open spec fn i128_min() -> int {
    -170141183460469231731687303715884105728
}

pub open spec fn fits_i128(v: int) -> bool {
    i128_min() <= v <= i128_max()
}

pub open spec fn abs_int(v: int) -> int {
    if v < 0 { -v } else { v }
}

/// Integer division rounding toward zero, as Rust's `/` on integers.
pub open spec fn div_toward_zero(n: int, d: int) -> int {
    let q = abs_int(n) / abs_int(d);
    if (n < 0) == (d < 0) { q } else { -q }
}

/// Bits of the product of two I80F48 numbers given by their bits:
/// the exact product rounded toward minus infinity.
pub open spec fn mul_bits_spec(a: int, b: int) -> int {
    (a * b) / scale()
}

/// Bits of the quotient of two I80F48 numbers given by their bits:
/// the exact quotient rounded toward zero.
pub open spec fn div_bits_spec(a: int, b: int) -> int {
    div_toward_zero(a * scale(), b)
}

/// The largest integer not above the value with bits `a`.
pub open spec fn int_floor(a: int) -> int {
    a / scale()
}

/// The value with bits `a`, rounded down to an integer and clamped into
/// the range of `u64`.
pub open spec fn clamp_u64_spec(a: int) -> int {
    if int_floor(a) < 0 {
        0
    } else if int_floor(a) > u64::MAX {
        u64::MAX as int
    } else {
        int_floor(a)
    }
}

/// The value with bits `a`, rounded down to an integer and clamped into
/// the range of `i64`.
pub open spec fn clamp_i64_spec(a: int) -> int {
    if int_floor(a) < i64::MIN {
        i64::MIN as int
    } else if int_floor(a) > i64::MAX {
        i64::MAX as int
    } else {
        int_floor(a)
    }
}

/// The integer part of a value lies at most one unit below it.
pub proof fn lemma_int_floor(a: int)
    ensures
        int_floor(a) * scale() <= a < (int_floor(a) + 1) * scale(),
        (int_floor(a) * scale()) % scale() == 0,
{
    vstd::arithmetic::div_mod::lemma_fundamental_div_mod(a, scale());
    vstd::arithmetic::div_mod::lemma_mod_bound(a, scale());
    vstd::arithmetic::div_mod::lemma_mod_multiples_basic(int_floor(a), scale());
    assert(int_floor(a) * scale() <= a < (int_floor(a) + 1) * scale()) by (nonlinear_arith)
        requires
            a == scale() * (a / scale()) + a % scale(),
            0 <= a % scale() < scale(),
            int_floor(a) == a / scale();
}

/// A non-negative quote amount (bits) converted at a positive price (bits)
/// and rounded down to whole tokens gives the most tokens worth at most
/// that amount: `tokens * price <= amount < (tokens + 1) * price`.
pub proof fn lemma_tokens_at_price(amount: int, price: int)
    requires
        amount >= 0,
        price > 0,
    ensures
        int_floor(div_bits_spec(amount, price)) * price <= amount,
        amount < (int_floor(div_bits_spec(amount, price)) + 1) * price,
        int_floor(div_bits_spec(amount, price)) >= 0,
{
    let n = amount * scale();
    assert(n >= 0) by (nonlinear_arith) requires amount >= 0, n == amount * scale(), scale() > 0;
    let q = n / price;
    assert(div_bits_spec(amount, price) == q);
    vstd::arithmetic::div_mod::lemma_fundamental_div_mod(n, price);
    vstd::arithmetic::div_mod::lemma_mod_bound(n, price);
    assert(q >= 0) by (nonlinear_arith)
        requires n == price * q + n % price, 0 <= n % price < price, n >= 0, price > 0;
    lemma_int_floor(q);
    let a = int_floor(q);
    assert(a * price <= amount) by (nonlinear_arith)
        requires
            n == price * q + n % price, 0 <= n % price,
            a * scale() <= q, n == amount * scale(), price > 0, scale() > 0;
    assert(amount < (a + 1) * price) by (nonlinear_arith)
        requires
            n == price * q + n % price, n % price < price,
            q < (a + 1) * scale(), n == amount * scale(), price > 0, scale() > 0;
    assert(a >= 0) by (nonlinear_arith) requires q >= 0, q < (a + 1) * scale(), scale() > 0;
}

/// The product of a whole number of tokens with a price is exact.
pub proof fn lemma_quote_value_exact(tokens: int, price: int)
    ensures
        mul_bits_spec(tokens * scale(), price) == tokens * price,
{
    assert(tokens * scale() * price == (tokens * price) * scale()) by (nonlinear_arith);
    vstd::arithmetic::div_mod::lemma_div_multiples_vanish(tokens * price, scale());
    assert(scale() * (tokens * price) == (tokens * price) * scale()) by (nonlinear_arith);
}

/// Multiplies two I80F48 numbers with `fixed`'s `*`.
/// `fixed` rounds the wide product toward minus infinity and panics (with
/// debug assertions) when the result does not fit; the contract says so.
#[verifier::external_body]
fn mul_bits(a: i128, b: i128) -> (r: i128)
    requires
        fits_i128(mul_bits_spec(a as int, b as int)),
    ensures
        r == mul_bits_spec(a as int, b as int),
{
    (I80F48::from_bits(a) * I80F48::from_bits(b)).to_bits()
}

/// Divides two I80F48 numbers with `fixed`'s `/`.
/// `fixed` divides the widened dividend `a * 2^48` by `b`, rounding toward
/// zero, and panics on a zero divisor or (with debug assertions) when the
/// quotient does not fit; the contract says so.
#[verifier::external_body]
fn div_bits(a: i128, b: i128) -> (r: i128)
    requires
        b != 0,
        fits_i128(div_bits_spec(a as int, b as int)),
    ensures
        r == div_bits_spec(a as int, b as int),
{
    (I80F48::from_bits(a) / I80F48::from_bits(b)).to_bits()
}

/// Rounds an I80F48 number down with `fixed`'s `floor`, which clears the
/// fractional bits (it cannot overflow for this type).
#[verifier::external_body]
fn floor_bits(a: i128) -> (r: i128)
    ensures
        r == int_floor(a as int) * scale(),
{
    I80F48::from_bits(a).floor().to_bits()
}

/// Converts an I80F48 number to `u64` with `fixed`'s `to_num`, which
/// discards the fractional bits (rounding toward minus infinity) and panics
/// (with debug assertions) when the integer does not fit.
#[verifier::external_body]
fn to_u64_bits(a: i128) -> (r: u64)
    requires
        0 <= int_floor(a as int) <= u64::MAX,
    ensures
        r == int_floor(a as int),
{
    I80F48::from_bits(a).to_num::<u64>()
}

/// Converts an I80F48 number to `i64` with `fixed`'s `to_num`, which
/// discards the fractional bits (rounding toward minus infinity) and panics
/// (with debug assertions) when the integer does not fit.
#[verifier::external_body]
fn to_i64_bits(a: i128) -> (r: i64)
    requires
        i64::MIN <= int_floor(a as int) <= i64::MAX,
    ensures
        r == int_floor(a as int),
{
    I80F48::from_bits(a).to_num::<i64>()
}

/// An I80F48 fixed-point number: 80 integer bits and 48 fractional bits.
#[derive(Clone, Copy, PartialEq, Eq, Structural, Debug)]
pub struct Fixed {
    /// The raw two's complement bits: the value times 2^48.
    pub bits: i128,
}

impl Fixed {
    /// The value times 2^48.
    pub open spec fn val(self) -> int {
        self.bits as int
    }

    /// The number from its raw bits.
    pub fn from_bits(bits: i128) -> (r: Fixed)
        ensures
            r.val() == bits,
    {
        Fixed { bits }
    }

    /// Zero.
    pub fn zero() -> (r: Fixed)
        ensures
            r.val() == 0,
    {
        Fixed { bits: 0 }
    }

    /// The exact value of an unsigned integer.
    pub fn from_u64(v: u64) -> (r: Fixed)
        ensures
            r.val() == v * scale(),
    {
        assert(v * scale() <= u64::MAX * scale());
        Fixed { bits: (v as i128) * 281474976710656i128 }
    }

    /// The exact value of a signed integer.
    pub fn from_i64(v: i64) -> (r: Fixed)
        ensures
            r.val() == v * scale(),
    {
        assert(v * scale() <= i64::MAX * scale()) by (nonlinear_arith)
            requires v <= i64::MAX;
        assert(v * scale() >= i64::MIN * scale()) by (nonlinear_arith)
            requires v >= i64::MIN;
        Fixed { bits: (v as i128) * 281474976710656i128 }
    }

    /// Product, rounded toward minus infinity.
    pub fn product(self, rhs: Fixed) -> (r: Fixed)
        requires
            fits_i128(mul_bits_spec(self.val(), rhs.val())),
        ensures
            r.val() == mul_bits_spec(self.val(), rhs.val()),
    {
        Fixed { bits: mul_bits(self.bits, rhs.bits) }
    }

    /// Quotient, rounded toward zero.
    pub fn quotient(self, rhs: Fixed) -> (r: Fixed)
        requires
            rhs.val() != 0,
            fits_i128(div_bits_spec(self.val(), rhs.val())),
        ensures
            r.val() == div_bits_spec(self.val(), rhs.val()),
    {
        Fixed { bits: div_bits(self.bits, rhs.bits) }
    }

    /// Difference; exact.
    pub fn difference(self, rhs: Fixed) -> (r: Fixed)
        requires
            fits_i128(self.val() - rhs.val()),
        ensures
            r.val() == self.val() - rhs.val(),
    {
        Fixed { bits: self.bits - rhs.bits }
    }

    /// The largest integer not above the value.
    pub fn floor(self) -> (r: Fixed)
        ensures
            r.val() == int_floor(self.val()) * scale(),
            r.val() % scale() == 0,
            r.val() <= self.val() < r.val() + scale(),
    {
        proof { lemma_int_floor(self.val()); }
        Fixed { bits: floor_bits(self.bits) }
    }

    /// The smaller of two numbers.
    pub fn min(self, rhs: Fixed) -> (r: Fixed)
        ensures
            r.val() == if self.val() <= rhs.val() { self.val() } else { rhs.val() },
    {
        if self.bits <= rhs.bits { self } else { rhs }
    }

    /// The larger of two numbers.
    pub fn max(self, rhs: Fixed) -> (r: Fixed)
        ensures
            r.val() == if self.val() >= rhs.val() { self.val() } else { rhs.val() },
    {
        if self.bits >= rhs.bits { self } else { rhs }
    }

    /// Whether an unsigned integer is below this number; exact.
    pub fn exceeds_u64(self, v: u64) -> (r: bool)
        ensures
            r == (v * scale() < self.val()),
    {
        Self::from_u64(v).bits < self.bits
    }

    /// Whether an unsigned integer is above this number; exact.
    pub fn below_u64(self, v: u64) -> (r: bool)
        ensures
            r == (v * scale() > self.val()),
    {
        Self::from_u64(v).bits > self.bits
    }

    /// Rounds down and converts to `u64`; the integer must fit.
    pub fn to_u64(self) -> (r: u64)
        requires
            0 <= int_floor(self.val()) <= u64::MAX,
        ensures
            r == int_floor(self.val()),
    {
        to_u64_bits(self.bits)
    }

    /// Rounds down and converts to `u64`, clamping into its range.
    pub fn clamp_to_u64(self) -> (r: u64)
        ensures
            r == clamp_u64_spec(self.val()),
            self.val() < scale() ==> r == 0,
            self.val() >= u64::MAX * scale() ==> r == u64::MAX,
            scale() <= self.val() < u64::MAX * scale() ==> r * scale() <= self.val() < (r + 1) * scale(),
    {
        proof { lemma_int_floor(self.val()); }
        if self.bits <= 0 {
            assert(int_floor(self.val()) <= 0);
            0
        } else if self.bits >= 18446744073709551615i128 * 281474976710656i128 {
            assert(int_floor(self.val()) >= u64::MAX);
            u64::MAX
        } else {
            to_u64_bits(self.bits)
        }
    }

    /// Rounds down and converts to `i64`, clamping into its range.
    pub fn clamp_to_i64(self) -> (r: i64)
        ensures
            r == clamp_i64_spec(self.val()),
            self.val() < (i64::MIN + 1) * scale() ==> r == i64::MIN,
            self.val() >= i64::MAX * scale() ==> r == i64::MAX,
            (i64::MIN + 1) * scale() <= self.val() < i64::MAX * scale() ==> r * scale() <= self.val() < (r + 1) * scale(),
    {
        proof { lemma_int_floor(self.val()); }
        if self.bits <= -9223372036854775808i128 * 281474976710656i128 {
            assert(int_floor(self.val()) <= i64::MIN);
            i64::MIN
        } else if self.bits >= 9223372036854775807i128 * 281474976710656i128 {
            assert(int_floor(self.val()) >= i64::MAX);
            i64::MAX
        } else {
            to_i64_bits(self.bits)
        }
    }
}

} // verus!
