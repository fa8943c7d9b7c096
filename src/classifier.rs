//! Classification of an address against the `2^250` bound and against the
//! program's `ADDR_BOUND` constant.

use crate::bignat::{decimal_spec, hex_value, is_hex_numeral, BigNat};
use crate::error::HintFault;
use vstd::arithmetic::power2::pow2;
use vstd::prelude::*;
use vstd::string::StringExecFns;

verus! {

/// The relations between `ADDR_BOUND` and the field's modulus under which the
/// `is_small` classification is meaningful.
pub open spec fn addr_bound_valid(addr_bound: nat, prime: nat) -> bool {
    &&& pow2(250) < addr_bound
    &&& addr_bound <= pow2(251)
    &&& 2 * pow2(250) < prime
    &&& prime < 2 * addr_bound
}

/// The flag written for a test: 1 where it holds, 0 otherwise.
pub open spec fn flag(b: bool) -> u8 {
    if b {
        1
    } else {
        0
    }
}

/// The message of a failed check on `ADDR_BOUND`, with the bound in decimal.
pub open spec fn addr_bound_message_spec(addr_bound: nat) -> Seq<char> {
    "assert (2**250 < "@ + decimal_spec(addr_bound) + " <= 2**251) and (2 * 2**250 < PRIME) and ("@
        + decimal_spec(addr_bound) + " * 2 > PRIME); normalize_address() cannot be used with the current constants."@
}

/// Builds the message of a failed check on `ADDR_BOUND`.
fn addr_bound_message(addr_bound: &BigNat) -> (r: String)
    ensures
        r@ == addr_bound_message_spec(addr_bound@),
{
    let d = addr_bound.to_decimal();
    let mut msg = String::from_str("assert (2**250 < ");
    msg.append(d.as_str());
    msg.append(" <= 2**251) and (2 * 2**250 < PRIME) and (");
    msg.append(d.as_str());
    msg.append(" * 2 > PRIME); normalize_address() cannot be used with the current constants.");
    proof {
        reveal_strlit("assert (2**250 < ");
        reveal_strlit(" <= 2**251) and (2 * 2**250 < PRIME) and (");
        reveal_strlit(" * 2 > PRIME); normalize_address() cannot be used with the current constants.");
        assert(msg@ =~= addr_bound_message_spec(addr_bound@));
    }
    msg
}

/// Reads the field's modulus from its hexadecimal digits (no `0x` prefix).
pub fn parse_prime(hex: &str) -> (r: Result<BigNat, HintFault>)
    ensures
        is_hex_numeral(hex@) ==> r is Ok && r.unwrap()@ == hex_value(hex@),
        r matches Err(e) ==> e is CouldntParsePrime,
{
    match BigNat::from_hex(hex) {
        Some(p) => Ok(p),
        None => Err(HintFault::CouldntParsePrime),
    }
}

/// Checks `2^250 < addr_bound <= 2^251` and `2 * 2^250 < prime < 2 * addr_bound`;
/// where one fails, the fault names the bound.
pub fn check_addr_bound(addr_bound: &BigNat, prime: &BigNat) -> (r: Result<(), HintFault>)
    ensures
        r is Ok <==> addr_bound_valid(addr_bound@, prime@),
        r matches Err(e) ==> e is AssertionFailed,
        r matches Err(HintFault::AssertionFailed(m)) ==> m@ == addr_bound_message_spec(addr_bound@),
{
    let p250 = BigNat::pow2(250);
    let p251 = BigNat::pow2(251);
    let two = BigNat::from_u128(2);
    let twice_p250 = two.mul(&p250);
    let twice_bound = two.mul(addr_bound);
    if !(p250.lt(addr_bound) && addr_bound.le(&p251) && twice_p250.lt(prime) && prime.lt(
        &twice_bound,
    )) {
        return Err(HintFault::AssertionFailed(addr_bound_message(addr_bound)));
    }
    Ok(())
}

/// The `is_small` flag of `addr`: 1 where `addr < addr_bound`, else 0, once
/// the bound has passed `check_addr_bound` against `prime`.
pub fn is_small_flag(addr_bound: &BigNat, prime: &BigNat, addr: &BigNat) -> (r: Result<u8, HintFault>)
    ensures
        r is Ok <==> addr_bound_valid(addr_bound@, prime@),
        match r {
            Ok(f) => f == flag(addr@ < addr_bound@),
            Err(HintFault::AssertionFailed(m)) => m@ == addr_bound_message_spec(addr_bound@),
            Err(_) => false,
        },
{
    check_addr_bound(addr_bound, prime)?;
    if addr.lt(addr_bound) {
        Ok(1)
    } else {
        Ok(0)
    }
}

/// The `is_250` flag of `addr`: 1 where `addr < 2^250`, else 0.
pub fn is_250_flag(addr: &BigNat) -> (r: u8)
    ensures
        r == flag(addr@ < pow2(250)),
{
    let bound = BigNat::pow2(250);
    if addr.lt(&bound) {
        1
    } else {
        0
    }
}

} // verus!
