use common_hints::bignat::BigNat;
use common_hints::classifier::{check_addr_bound, is_250_flag, is_small_flag, parse_prime};
use common_hints::divider::uint256_unsigned_div_rem;
use common_hints::error::HintFault;
use common_hints::registry::{
    extended_hint_table, CommonHint, HintTable, ALON_HINT, NORMALIZE_ADDRESS_SET_IS_250_HINT,
    NORMALIZE_ADDRESS_SET_IS_SMALL_HINT,
};
use common_hints::uint256::Uint256;

const PRIME_HEX: &str = "800000000000011000000000000000000000000000000000000000000000001";

fn n(v: u128) -> BigNat {
    BigNat::from_u128(v)
}

fn hex(s: &str) -> BigNat {
    BigNat::from_hex(s).unwrap()
}

fn same(a: &BigNat, b: &BigNat) -> bool {
    !a.lt(b) && !b.lt(a)
}

fn u256(low: u128, high: u128) -> Uint256 {
    Uint256::from_values(n(low), n(high))
}

fn prime() -> BigNat {
    parse_prime(PRIME_HEX).unwrap()
}

/// 2^250 - 1: a 3 followed by 62 hexadecimal f digits.
fn below_2_250() -> BigNat {
    hex(&format!("3{}", "f".repeat(62)))
}

#[test]
fn end_to_end_five_by_two() {
    let (q, r) = uint256_unsigned_div_rem(&u256(5, 0), &u256(2, 0)).unwrap();
    assert_eq!(q.low.to_u128(), Some(2));
    assert_eq!(q.high.to_u128(), Some(0));
    assert_eq!(r.low.to_u128(), Some(1));
    assert_eq!(r.high.to_u128(), Some(0));
}

#[test]
fn division_by_zero_is_arithmetic_fault() {
    let r = uint256_unsigned_div_rem(&u256(5, 7), &u256(0, 0));
    assert!(matches!(r, Err(HintFault::ArithmeticFault)));
}

#[test]
fn division_uses_high_limbs() {
    // a = 3 * 2^128 + 10, d = 2^128: q = 3, r = 10.
    let (q, r) = uint256_unsigned_div_rem(&u256(10, 3), &u256(0, 1)).unwrap();
    assert_eq!(q.low.to_u128(), Some(3));
    assert_eq!(q.high.to_u128(), Some(0));
    assert_eq!(r.low.to_u128(), Some(10));
    assert_eq!(r.high.to_u128(), Some(0));
}

#[test]
fn division_of_largest_by_one() {
    let (q, r) = uint256_unsigned_div_rem(&u256(u128::MAX, u128::MAX), &u256(1, 0)).unwrap();
    assert_eq!(q.low.to_u128(), Some(u128::MAX));
    assert_eq!(q.high.to_u128(), Some(u128::MAX));
    assert_eq!(r.low.to_u128(), Some(0));
    assert_eq!(r.high.to_u128(), Some(0));
}

#[test]
fn division_quotient_and_remainder_recompose() {
    let a = u256(123_456_789, 987_654_321);
    let d = u256(1_000_003, 17);
    let (q, r) = uint256_unsigned_div_rem(&a, &d).unwrap();
    let qn = q.merge();
    let rn = r.merge();
    let dn = d.merge();
    assert!(rn.lt(&dn));
    assert!(same(&qn.mul(&dn).add(&rn), &a.merge()));
    assert!(q.low.to_u128().is_some() && q.high.to_u128().is_some());
}

#[test]
fn division_with_wide_quotient() {
    // a = 2^255 + 1, d = 2: q = 2^254, r = 1.
    let (q, r) = uint256_unsigned_div_rem(&u256(1, 1u128 << 127), &u256(2, 0)).unwrap();
    assert_eq!(q.low.to_u128(), Some(0));
    assert_eq!(q.high.to_u128(), Some(1u128 << 126));
    assert_eq!(r.low.to_u128(), Some(1));
    assert_eq!(r.high.to_u128(), Some(0));
}

#[test]
fn split_merge_round_trip() {
    let u = u256(0xdead_beef, 0x1234_5678_9abc);
    let back = Uint256::split(&u.merge());
    assert_eq!(back.low.to_u128(), Some(0xdead_beef));
    assert_eq!(back.high.to_u128(), Some(0x1234_5678_9abc));
}

#[test]
fn split_of_two_pow_128() {
    let s = Uint256::split(&BigNat::pow2(128));
    assert_eq!(s.low.to_u128(), Some(0));
    assert_eq!(s.high.to_u128(), Some(1));
}

#[test]
fn from_felt_splits_value() {
    let v = BigNat::pow2(200).add(&n(42));
    let s = Uint256::from_felt(&v);
    assert_eq!(s.low.to_u128(), Some(42));
    assert_eq!(s.high.to_u128(), Some(1u128 << 72));
}

#[test]
fn merge_of_limbs() {
    let m = u256(7, 1).merge();
    assert!(same(&m, &BigNat::pow2(128).add(&n(7))));
    assert_eq!(m.to_u128(), None);
}

#[test]
fn is_250_below_and_at_bound() {
    assert_eq!(is_250_flag(&below_2_250()), 1);
    assert_eq!(is_250_flag(&BigNat::pow2(250)), 0);
    assert_eq!(is_250_flag(&n(0)), 1);
}

#[test]
fn is_small_with_bound_just_above_2_250_fails_check() {
    // With ADDR_BOUND = 2^250 + 1, 2 * ADDR_BOUND is below the field's
    // modulus, so the check on the constants fails whatever the address.
    let bound = BigNat::pow2(250).add(&n(1));
    let p = prime();
    assert!(matches!(is_small_flag(&bound, &p, &BigNat::pow2(250)), Err(HintFault::AssertionFailed(_))));
    assert!(matches!(is_small_flag(&bound, &p, &bound), Err(HintFault::AssertionFailed(_))));
}

#[test]
fn is_small_around_a_valid_bound() {
    // ADDR_BOUND = 2^251 - 256, the bound that programs use.
    let bound = hex(&format!("7{}00", "f".repeat(60)));
    let p = prime();
    let below = hex(&format!("7{}eff", "f".repeat(59)));
    assert_eq!(is_small_flag(&bound, &p, &below).unwrap(), 1);
    assert_eq!(is_small_flag(&bound, &p, &bound).unwrap(), 0);
    assert_eq!(is_small_flag(&bound, &p, &n(0)).unwrap(), 1);
}

#[test]
fn is_small_classifies_against_bound() {
    // A modulus for which ADDR_BOUND = 2^250 + 1 passes the check.
    let bound = BigNat::pow2(250).add(&n(1));
    let p = BigNat::pow2(251).add(&n(1));
    assert_eq!(is_small_flag(&bound, &p, &BigNat::pow2(250)).unwrap(), 1);
    assert_eq!(is_small_flag(&bound, &p, &bound).unwrap(), 0);
}

#[test]
fn is_small_bound_above_2_251_fails() {
    let bound = BigNat::pow2(251).add(&n(1));
    let p = prime();
    for addr in [n(0), BigNat::pow2(250), bound.clone()] {
        assert!(matches!(is_small_flag(&bound, &p, &addr), Err(HintFault::AssertionFailed(_))));
    }
}

#[test]
fn check_addr_bound_message_names_bound() {
    let bound = n(1000);
    match check_addr_bound(&bound, &prime()) {
        Err(HintFault::AssertionFailed(msg)) => {
            assert!(msg.contains("2**250 < 1000 <= 2**251"));
            assert!(msg.contains("normalize_address() cannot be used with the current constants."));
        }
        other => panic!("unexpected {:?}", other),
    }
}

#[test]
fn check_addr_bound_edges() {
    let p = prime();
    assert!(check_addr_bound(&BigNat::pow2(250), &p).is_err());
    assert!(check_addr_bound(&BigNat::pow2(251), &p).is_ok());
    // A modulus not above 2 * 2^250 fails.
    assert!(check_addr_bound(&BigNat::pow2(251), &BigNat::pow2(251)).is_err());
}

#[test]
fn parse_prime_reads_modulus() {
    let p = prime();
    let expected = BigNat::pow2(251).add(&n(17).mul(&BigNat::pow2(192))).add(&n(1));
    assert!(same(&p, &expected));
}

#[test]
fn parse_prime_rejects_non_hex() {
    assert!(matches!(parse_prime("xyz"), Err(HintFault::CouldntParsePrime)));
    assert!(matches!(parse_prime(""), Err(HintFault::CouldntParsePrime)));
}

#[test]
fn bignat_arithmetic() {
    assert_eq!(n(6).add(&n(7)).to_u128(), Some(13));
    assert_eq!(n(6).mul(&n(7)).to_u128(), Some(42));
    assert_eq!(n(3).shl(4).to_u128(), Some(48));
    let (q, r) = n(47).div_rem(&n(5));
    assert_eq!(q.to_u128(), Some(9));
    assert_eq!(r.to_u128(), Some(2));
    assert!(n(1).lt(&n(2)));
    assert!(!n(2).lt(&n(2)));
    assert!(n(2).le(&n(2)));
    assert!(n(0).is_zero());
    assert!(!n(5).is_zero());
    assert_eq!(BigNat::pow2(127).to_u128(), Some(1u128 << 127));
    assert_eq!(BigNat::pow2(128).to_u128(), None);
    assert_eq!(hex("ff").to_u128(), Some(255));
    assert_eq!(hex("Ab").to_u128(), Some(171));
}

#[test]
fn registry_holds_three_hints() {
    let t = extended_hint_table();
    assert_eq!(t.len(), 3);
    assert_eq!(t.get(&NORMALIZE_ADDRESS_SET_IS_SMALL_HINT.to_string()), Some(CommonHint::NormalizeAddressSetIsSmall));
    assert_eq!(t.get(&NORMALIZE_ADDRESS_SET_IS_250_HINT.to_string()), Some(CommonHint::NormalizeAddressSetIs250));
    assert_eq!(t.get(&ALON_HINT.to_string()), Some(CommonHint::Alon));
    assert_eq!(t.get(&"unknown".to_string()), None);
}

#[test]
fn registry_last_insert_wins() {
    let mut t = HintTable::new();
    t.insert("h".to_string(), CommonHint::Alon);
    t.insert("g".to_string(), CommonHint::NormalizeAddressSetIs250);
    t.insert("h".to_string(), CommonHint::NormalizeAddressSetIsSmall);
    assert_eq!(t.get(&"h".to_string()), Some(CommonHint::NormalizeAddressSetIsSmall));
    assert_eq!(t.get(&"g".to_string()), Some(CommonHint::NormalizeAddressSetIs250));
    assert_eq!(t.entries().len(), 3);
}

#[test]
fn decimal_numerals() {
    assert_eq!(n(0).to_decimal(), "0");
    assert_eq!(n(1000).to_decimal(), "1000");
    assert_eq!(BigNat::pow2(128).to_decimal(), "340282366920938463463374607431768211456");
}

#[test]
fn addr_bound_message_is_exact() {
    let bound = BigNat::pow2(251).add(&n(1));
    let expected = format!(
        "assert (2**250 < {b} <= 2**251) and (2 * 2**250 < PRIME) and ({b} * 2 > PRIME); normalize_address() cannot be used with the current constants.",
        b = "3618502788666131106986593281521497120414687020801267626233049500247285301249"
    );
    match check_addr_bound(&bound, &prime()) {
        Err(HintFault::AssertionFailed(msg)) => assert_eq!(msg, expected),
        other => panic!("unexpected {:?}", other),
    }
}
