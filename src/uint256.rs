//! A 256-bit unsigned integer carried as a low and a high limb.

use crate::bignat::BigNat;
use vstd::arithmetic::div_mod::{lemma_fundamental_div_mod, lemma_fundamental_div_mod_converse};
use vstd::arithmetic::power2::{lemma_pow2_pos, pow2};
use vstd::prelude::*;

verus! {

/// The number whose limbs are `low` and `high`: `low + high * 2^128`.
pub open spec fn merge_spec(low: nat, high: nat) -> nat {
    (low + high * pow2(128)) as nat
}

/// The limbs of `n`: `(n mod 2^128, n / 2^128)`.
pub open spec fn split_spec(n: nat) -> (nat, nat) {
    ((n % pow2(128)) as nat, (n / pow2(128)) as nat)
}

/// A wide integer: two limbs, each a field element's value. Limbs that come
/// from a split are below `2^128`; limbs read from memory are taken as given.
#[derive(Debug, Clone)]
pub struct Uint256 {
    pub low: BigNat,
    pub high: BigNat,
}

impl Uint256 {
    /// The number this pair stands for.
    pub open spec fn value(&self) -> nat {
        merge_spec(self.low@, self.high@)
    }

    /// Both limbs are below `2^128`.
    pub open spec fn limbs_bounded(&self) -> bool {
        self.low@ < pow2(128) && self.high@ < pow2(128)
    }

    /// The pair of the given limbs.
    pub fn from_values(low: BigNat, high: BigNat) -> (r: Uint256)
        ensures
            r.low == low,
            r.high == high,
    {
        Uint256 { low, high }
    }

    /// The canonical encoding of `num`: its value modulo `2^128` and its
    /// value shifted right by 128 bits.
    pub fn split(num: &BigNat) -> (r: Uint256)
        ensures
            (r.low@, r.high@) == split_spec(num@),
            r.value() == num@,
    {
        proof {
            lemma_pow2_pos(128);
        }
        let base = BigNat::pow2(128);
        let (high, low) = num.div_rem(&base);
        proof {
            lemma_merge_split(num@);
        }
        Uint256 { low, high }
    }

    /// The encoding of a single field element's value, split as by `split`.
    pub fn from_felt(value: &BigNat) -> (r: Uint256)
        ensures
            (r.low@, r.high@) == split_spec(value@),
            r.value() == value@,
    {
        Uint256::split(value)
    }

    /// The number this pair stands for: `high * 2^128 + low`.
    pub fn merge(&self) -> (r: BigNat)
        ensures
            r@ == self.value(),
    {
        let shifted = self.high.shl(128);
        shifted.add(&self.low)
    }
}

/// Splitting the number made of two limbs below `2^128` gives those limbs back.
pub proof fn lemma_split_merge(low: nat, high: nat)
    requires
        low < pow2(128),
    ensures
        split_spec(merge_spec(low, high)) == (low, high),
{
    lemma_pow2_pos(128);
    lemma_fundamental_div_mod_converse(
        merge_spec(low, high) as int,
        pow2(128) as int,
        high as int,
        low as int,
    );
}

/// Merging the limbs of a split gives the number back.
pub proof fn lemma_merge_split(n: nat)
    ensures
        merge_spec(split_spec(n).0, split_spec(n).1) == n,
        split_spec(n).0 < pow2(128),
{
    lemma_pow2_pos(128);
    lemma_fundamental_div_mod(n as int, pow2(128) as int);
    assert(pow2(128) * (n / pow2(128)) == (n / pow2(128)) * pow2(128)) by (nonlinear_arith);
}

} // verus!
