//! Exact unsigned division of wide integers.

use crate::error::HintFault;
use crate::uint256::{lemma_merge_split, merge_spec, split_spec, Uint256};
use vstd::arithmetic::div_mod::lemma_fundamental_div_mod;
use vstd::arithmetic::power2::{lemma_pow2_adds, lemma_pow2_pos, pow2};
use vstd::prelude::*;

verus! {

/// Divides `a` by `div`, both taken as `high * 2^128 + low`, and returns the
/// quotient and the remainder in their canonical split form. A zero divisor
/// is an `ArithmeticFault`.
pub fn uint256_unsigned_div_rem(a: &Uint256, div: &Uint256) -> (r: Result<(Uint256, Uint256), HintFault>)
    ensures
        r is Ok <==> div.value() != 0,
        match r {
            Ok((q, m)) => {
                &&& (q.low@, q.high@) == split_spec(a.value() / div.value())
                &&& (m.low@, m.high@) == split_spec(a.value() % div.value())
            },
            Err(e) => e is ArithmeticFault,
        },
{
    let a_num = a.merge();
    let div_num = div.merge();
    if div_num.is_zero() {
        return Err(HintFault::ArithmeticFault);
    }
    let (quotient, remainder) = a_num.div_rem(&div_num);
    let quotient = Uint256::split(&quotient);
    let remainder = Uint256::split(&remainder);
    Ok((quotient, remainder))
}

/// A number below `2^256` splits into two limbs below `2^128`.
pub proof fn lemma_split_bounded(n: nat)
    requires
        n < pow2(256),
    ensures
        split_spec(n).0 < pow2(128),
        split_spec(n).1 < pow2(128),
{
    lemma_pow2_pos(128);
    lemma_pow2_adds(128, 128);
    lemma_merge_split(n);
    let p = pow2(128);
    let h = n / p;
    assert(h < p) by (nonlinear_arith)
        requires
            n < p * p,
            p > 0,
            h == n / p,
    {};
}

/// For operands below `2^256` and a nonzero divisor, the quotient and the
/// remainder of the merged operands are those of `a` by `d`: `m < d`,
/// `q * d + m == a`, both split into limbs below `2^128`, and those limbs
/// merge back into `q` and `m`.
pub proof fn lemma_div_rem_limbs(a: nat, d: nat)
    requires
        a < pow2(256),
        0 < d < pow2(256),
    ensures
        ({
            let (al, ah) = split_spec(a);
            let (dl, dh) = split_spec(d);
            let q = merge_spec(al, ah) / merge_spec(dl, dh);
            let m = merge_spec(al, ah) % merge_spec(dl, dh);
            &&& q == a / d
            &&& m == a % d
            &&& m < d
            &&& q * d + m == a
            &&& split_spec(q).0 < pow2(128) && split_spec(q).1 < pow2(128)
            &&& split_spec(m).0 < pow2(128) && split_spec(m).1 < pow2(128)
            &&& merge_spec(split_spec(q).0, split_spec(q).1) == q
            &&& merge_spec(split_spec(m).0, split_spec(m).1) == m
        }),
{
    lemma_merge_split(a);
    lemma_merge_split(d);
    let q = a / d;
    let m = a % d;
    lemma_fundamental_div_mod(a as int, d as int);
    assert(q * d == d * q) by (nonlinear_arith);
    assert(q <= a) by (nonlinear_arith)
        requires
            d > 0,
            q == a / d,
    {};
    lemma_split_bounded(q);
    lemma_split_bounded(m);
    lemma_merge_split(q);
    lemma_merge_split(m);
}

} // verus!
