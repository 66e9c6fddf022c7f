use lean_ffi::bignat::Nat;
use lean_ffi::digits::{le_bytes_to_limbs, limbs_to_le_bytes};
use lean_ffi::natural::{mpz_limb_count, encode_nat, encode_nat_from_bytes, nat_from_limbs, nat_from_scalar, NatEncoding};
use lean_ffi::object::LeanOwned;
use num_bigint::BigUint;

fn big(x: u128) -> Nat {
    Nat(BigUint::from(x))
}

#[test]
fn nat_bytes_roundtrip() {
    let n = big(0x0102_0304_0506_0708_090a);
    let bytes = n.to_le_bytes();
    assert_eq!(bytes, vec![0x0a, 0x09, 0x08, 0x07, 0x06, 0x05, 0x04, 0x03, 0x02, 0x01]);
    assert_eq!(Nat::from_le_bytes(&bytes), n);
    assert_eq!(big(0).to_le_bytes(), vec![0]);
    assert_eq!(Nat::from_le_bytes(&[]), big(0));
    assert_eq!(Nat::from_le_bytes(&[5, 0, 0]).to_le_bytes(), vec![5]);
}

#[test]
fn nat_to_u64_fits_or_not() {
    assert_eq!(big(42).to_u64(), Some(42));
    assert_eq!(big(u64::MAX as u128).to_u64(), Some(u64::MAX));
    assert_eq!(big(1u128 << 64).to_u64(), None);
    assert_eq!(Nat::from_u64(99), big(99));
}

#[test]
fn limbs_to_bytes_is_little_endian() {
    let bytes = limbs_to_le_bytes(&[0x0102_0304_0506_0708, 0xff]);
    assert_eq!(bytes, vec![8, 7, 6, 5, 4, 3, 2, 1, 0xff, 0, 0, 0, 0, 0, 0, 0]);
    assert!(limbs_to_le_bytes(&[]).is_empty());
}

#[test]
fn bytes_to_limbs_packs_eight_per_limb() {
    assert_eq!(le_bytes_to_limbs(&[1, 2, 3]), vec![0x030201]);
    assert_eq!(
        le_bytes_to_limbs(&[8, 7, 6, 5, 4, 3, 2, 1, 9]),
        vec![0x0102_0304_0506_0708, 9]
    );
    assert!(le_bytes_to_limbs(&[]).is_empty());
    let limbs = vec![u64::MAX, 0, 7];
    assert_eq!(le_bytes_to_limbs(&limbs_to_le_bytes(&limbs)), limbs);
}

#[test]
fn nat_from_limbs_reads_mpz_limbs() {
    assert_eq!(nat_from_limbs(&[]), big(0));
    assert_eq!(nat_from_limbs(&[5]), big(5));
    assert_eq!(nat_from_limbs(&[1, 1]), big((1u128 << 64) + 1));
    assert_eq!(nat_from_limbs(&[0, 0, 1]).0, BigUint::from(1u8) << 128usize);
}

#[test]
fn nat_from_scalar_unboxes() {
    let w = LeanOwned::box_usize(1234);
    assert_eq!(nat_from_scalar(&w), big(1234));
}

fn check_encodings(n: &Nat, expect: &str, payload: &[u64]) {
    for e in [encode_nat(n), encode_nat_from_bytes(n)] {
        match e {
            NatEncoding::Scalar(v) => {
                assert_eq!(expect, "scalar");
                assert_eq!(vec![v as u64], payload.to_vec());
            }
            NatEncoding::Word(v) => {
                assert_eq!(expect, "word");
                assert_eq!(vec![v], payload.to_vec());
            }
            NatEncoding::Limbs(ls) => {
                assert_eq!(expect, "limbs");
                assert_eq!(ls, payload.to_vec());
            }
        }
    }
}

#[test]
fn encoding_picks_the_smallest_representation() {
    let max_small = (usize::MAX >> 1) as u64;
    check_encodings(&big(0), "scalar", &[0]);
    check_encodings(&big(7), "scalar", &[7]);
    check_encodings(&big(max_small as u128), "scalar", &[max_small]);
    if max_small < u64::MAX {
        check_encodings(&big(max_small as u128 + 1), "word", &[max_small + 1]);
    }
    check_encodings(&big(u64::MAX as u128), "word", &[u64::MAX]);
    check_encodings(&big(1u128 << 64), "limbs", &[0, 1]);
    check_encodings(&big(u128::MAX), "limbs", &[u64::MAX, u64::MAX]);
}

#[test]
fn encoding_from_limbs_follows_the_runtime() {
    assert!(matches!(NatEncoding::of_limbs(&[]), NatEncoding::Scalar(0)));
    assert!(matches!(NatEncoding::of_limbs(&[9]), NatEncoding::Scalar(9)));
    assert!(matches!(NatEncoding::of_limbs(&[u64::MAX]), NatEncoding::Word(u64::MAX)));
    match NatEncoding::of_limbs(&[3, 4]) {
        NatEncoding::Limbs(ls) => assert_eq!(ls, vec![3, 4]),
        _ => panic!("two limbs go through GMP"),
    }
}

#[test]
fn mpz_limb_count_is_the_size_magnitude() {
    assert_eq!(mpz_limb_count(0), 0);
    assert_eq!(mpz_limb_count(3), 3);
    assert_eq!(mpz_limb_count(-3), 3);
    assert_eq!(mpz_limb_count(i32::MIN), 1usize << 31);
}

fn decode(e: NatEncoding) -> Nat {
    match e {
        NatEncoding::Scalar(v) => nat_from_scalar(&LeanOwned::box_usize(v)),
        NatEncoding::Word(x) => nat_from_limbs(&[x]),
        NatEncoding::Limbs(ls) => nat_from_limbs(&ls),
    }
}

#[test]
fn encode_then_decode_gives_the_number_back() {
    let max_small = (usize::MAX >> 1) as u128;
    for x in [0u128, 1, 7, max_small, max_small + 1, u64::MAX as u128, 1u128 << 64, u128::MAX] {
        let n = big(x);
        assert_eq!(decode(encode_nat(&n)), n);
        assert_eq!(decode(encode_nat_from_bytes(&n)), n);
    }
    let huge = Nat::from_le_bytes(&[0xab; 40]);
    assert_eq!(decode(encode_nat(&huge)), huge);
    assert_eq!(decode(encode_nat_from_bytes(&huge)), huge);
}

#[test]
fn cloned_nat_is_equal() {
    let n = Nat::from_le_bytes(&[1, 2, 3, 4, 5, 6, 7, 8, 9, 10, 11]);
    let c = n.clone();
    assert_eq!(c, n);
    assert_eq!(c.to_le_bytes(), n.to_le_bytes());
}

#[test]
fn encoding_from_limbs_drops_high_zero_limbs() {
    assert!(matches!(NatEncoding::of_limbs(&[5, 0]), NatEncoding::Scalar(5)));
    assert!(matches!(NatEncoding::of_limbs(&[0, 0, 0]), NatEncoding::Scalar(0)));
    assert!(matches!(NatEncoding::of_limbs(&[u64::MAX, 0]), NatEncoding::Word(u64::MAX)));
    match NatEncoding::of_limbs(&[3, 4, 0, 0]) {
        NatEncoding::Limbs(ls) => assert_eq!(ls, vec![3, 4]),
        _ => panic!("two significant limbs go through GMP"),
    }
}

#[test]
fn zero_is_zero() {
    assert_eq!(Nat::zero(), big(0));
    assert_eq!(Nat::zero().to_u64(), Some(0));
}

#[test]
fn nat_arithmetic_and_from() {
    let a = Nat::from(u64::MAX);
    let b = Nat::from(2u64);
    assert_eq!(a.add(&b), big(u64::MAX as u128 + 2));
    assert_eq!(a.mul(&b), big(u64::MAX as u128 * 2));
    assert_eq!(Nat::zero().add(&b), b);
    assert_eq!(Nat::zero().mul(&a), big(0));
}
