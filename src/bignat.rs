//! Arbitrary-precision unsigned integers held as base-2^32 digits, with the
//! arithmetic that the hints need delegated to `num_bigint`.

use num_bigint::BigUint;
use num_traits::ToPrimitive;
use vstd::arithmetic::power2::pow2;
use vstd::prelude::*;

verus! {

/// The number denoted by little-endian base-2^32 digits.
pub open spec fn digits_value(d: Seq<u32>) -> nat
    decreases d.len(),
{
    if d.len() == 0 {
        0
    } else {
        (d[0] as nat + 0x1_0000_0000 * digits_value(d.drop_first())) as nat
    }
}

/// The value of a hexadecimal digit, either case.
pub open spec fn hex_digit_value(c: char) -> nat {
    if '0' <= c && c <= '9' {
        (c as u32 - '0' as u32) as nat
    } else if 'a' <= c && c <= 'f' {
        (c as u32 - 'a' as u32 + 10) as nat
    } else if 'A' <= c && c <= 'F' {
        (c as u32 - 'A' as u32 + 10) as nat
    } else {
        0
    }
}

pub open spec fn is_hex_digit(c: char) -> bool {
    ('0' <= c && c <= '9') || ('a' <= c && c <= 'f') || ('A' <= c && c <= 'F')
}

/// The number written by hexadecimal digits, most significant first.
pub open spec fn hex_value(s: Seq<char>) -> nat
    decreases s.len(),
{
    if s.len() == 0 {
        0
    } else {
        (16 * hex_value(s.drop_last()) + hex_digit_value(s.last())) as nat
    }
}

/// A nonempty string of hexadecimal digits only.
pub open spec fn is_hex_numeral(s: Seq<char>) -> bool {
    s.len() > 0 && forall|i: int| 0 <= i < s.len() ==> is_hex_digit(#[trigger] s[i])
}

/// The decimal digit of `d`, below ten.
pub open spec fn decimal_digit(d: nat) -> char {
    if d == 0 {
        '0'
    } else if d == 1 {
        '1'
    } else if d == 2 {
        '2'
    } else if d == 3 {
        '3'
    } else if d == 4 {
        '4'
    } else if d == 5 {
        '5'
    } else if d == 6 {
        '6'
    } else if d == 7 {
        '7'
    } else if d == 8 {
        '8'
    } else {
        '9'
    }
}

/// The decimal numeral of `n`, most significant digit first, without
/// leading zeros.
pub open spec fn decimal_spec(n: nat) -> Seq<char>
    decreases n,
{
    if n < 10 {
        seq![decimal_digit(n)]
    } else {
        decimal_spec(n / 10).push(decimal_digit(n % 10))
    }
}

/// An unsigned integer of any size: the digits are least significant first.
#[derive(Debug, Clone)]
pub struct BigNat {
    pub digits: Vec<u32>,
}

impl View for BigNat {
    type V = nat;

    open spec fn view(&self) -> nat {
        digits_value(self.digits@)
    }
}

/// Relies on `BigUint::from(u128)` and `BigUint::to_u32_digits`: the digits of `v`.
#[verifier::external_body]
fn big_from_u128(v: u128) -> (r: BigNat)
    ensures
        r@ == v,
{
    BigNat { digits: BigUint::from(v).to_u32_digits() }
}

/// Relies on `BigUint::new` and `ToPrimitive::to_u128` for `BigUint`: the value
/// when it fits in 128 bits, `None` otherwise.
#[verifier::external_body]
fn big_to_u128(n: &BigNat) -> (r: Option<u128>)
    ensures
        n@ < pow2(128) ==> r == Some(n@ as u128),
        n@ >= pow2(128) ==> r is None,
{
    BigUint::new(n.digits.clone()).to_u128()
}

/// Relies on `Shl<usize>` for `BigUint`: multiplication by a power of two.
#[verifier::external_body]
fn big_shl(a: &BigNat, bits: usize) -> (r: BigNat)
    ensures
        r@ == a@ * pow2(bits as nat),
{
    BigNat { digits: (BigUint::new(a.digits.clone()) << bits).to_u32_digits() }
}

/// Relies on `Add` for `BigUint`: the sum.
#[verifier::external_body]
fn big_add(a: &BigNat, b: &BigNat) -> (r: BigNat)
    ensures
        r@ == a@ + b@,
{
    BigNat { digits: (BigUint::new(a.digits.clone()) + BigUint::new(b.digits.clone())).to_u32_digits() }
}

/// Relies on `Mul` for `BigUint`: the product.
#[verifier::external_body]
fn big_mul(a: &BigNat, b: &BigNat) -> (r: BigNat)
    ensures
        r@ == a@ * b@,
{
    BigNat { digits: (BigUint::new(a.digits.clone()) * BigUint::new(b.digits.clone())).to_u32_digits() }
}

/// Relies on `PartialOrd::lt` for `BigUint`: numeric order.
#[verifier::external_body]
fn big_lt(a: &BigNat, b: &BigNat) -> (r: bool)
    ensures
        r == (a@ < b@),
{
    BigUint::new(a.digits.clone()) < BigUint::new(b.digits.clone())
}

/// Relies on `num_integer::div_rem` for `BigUint`, which panics on a zero
/// divisor: the Euclidean quotient and remainder.
#[verifier::external_body]
fn big_div_rem(a: &BigNat, d: &BigNat) -> (r: (BigNat, BigNat))
    requires
        d@ != 0,
    ensures
        r.0@ == a@ / d@,
        r.1@ == a@ % d@,
{
    let (q, m) = num_integer::div_rem(BigUint::new(a.digits.clone()), BigUint::new(d.digits.clone()));
    (BigNat { digits: q.to_u32_digits() }, BigNat { digits: m.to_u32_digits() })
}

/// Relies on `Num::from_str_radix` for `BigUint` in radix 16: a nonempty string
/// of hexadecimal digits is read as that number.
#[verifier::external_body]
fn big_from_hex(s: &str) -> (r: Option<BigNat>)
    ensures
        is_hex_numeral(s@) ==> r is Some && r.unwrap()@ == hex_value(s@),
{
    match <BigUint as num_traits::Num>::from_str_radix(s, 16) {
        Ok(b) => Some(BigNat { digits: b.to_u32_digits() }),
        Err(_) => None,
    }
}

/// Relies on `Display` for `BigUint` through `ToString`: the decimal numeral.
#[verifier::external_body]
fn big_to_decimal(n: &BigNat) -> (r: String)
    ensures
        r@ == decimal_spec(n@),
{
    BigUint::new(n.digits.clone()).to_string()
}

impl BigNat {
    /// The decimal numeral of the number.
    pub fn to_decimal(&self) -> (r: String)
        ensures
            r@ == decimal_spec(self@),
    {
        big_to_decimal(self)
    }

    /// The number written in hexadecimal by `s`, or `None` where `s` is no
    /// numeral that the parser accepts.
    pub fn from_hex(s: &str) -> (r: Option<BigNat>)
        ensures
            is_hex_numeral(s@) ==> r is Some && r.unwrap()@ == hex_value(s@),
    {
        big_from_hex(s)
    }

    /// The number `v`.
    pub fn from_u128(v: u128) -> (r: BigNat)
        ensures
            r@ == v,
    {
        big_from_u128(v)
    }

    /// The number `2^e`.
    pub fn pow2(e: usize) -> (r: BigNat)
        ensures
            r@ == pow2(e as nat),
    {
        let one = big_from_u128(1);
        big_shl(&one, e)
    }

    /// The value, where it fits in 128 bits.
    pub fn to_u128(&self) -> (r: Option<u128>)
        ensures
            self@ < pow2(128) ==> r == Some(self@ as u128),
            self@ >= pow2(128) ==> r is None,
    {
        big_to_u128(self)
    }

    /// `self * 2^bits`.
    pub fn shl(&self, bits: usize) -> (r: BigNat)
        ensures
            r@ == self@ * pow2(bits as nat),
    {
        big_shl(self, bits)
    }

    /// `self + other`.
    pub fn add(&self, other: &BigNat) -> (r: BigNat)
        ensures
            r@ == self@ + other@,
    {
        big_add(self, other)
    }

    /// `self * other`.
    pub fn mul(&self, other: &BigNat) -> (r: BigNat)
        ensures
            r@ == self@ * other@,
    {
        big_mul(self, other)
    }

    /// Whether `self < other`.
    pub fn lt(&self, other: &BigNat) -> (r: bool)
        ensures
            r == (self@ < other@),
    {
        big_lt(self, other)
    }

    /// Whether `self <= other`.
    pub fn le(&self, other: &BigNat) -> (r: bool)
        ensures
            r == (self@ <= other@),
    {
        !big_lt(other, self)
    }

    /// Whether the number is zero.
    pub fn is_zero(&self) -> (r: bool)
        ensures
            r == (self@ == 0),
    {
        let zero = big_from_u128(0);
        !big_lt(&zero, self)
    }

    /// The Euclidean quotient and remainder of `self` by a nonzero `d`.
    pub fn div_rem(&self, d: &BigNat) -> (r: (BigNat, BigNat))
        requires
            d@ != 0,
        ensures
            r.0@ == self@ / d@,
            r.1@ == self@ % d@,
    {
        big_div_rem(self, d)
    }
}

} // verus!
