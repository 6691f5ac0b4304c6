use ff::PrimeField;
use plonk_circuit::domain::{log_size_of, power_of_two, primitive_root};
use plonk_circuit::field::Scalar;

fn s(value: u64) -> Scalar {
    Scalar::from_u64(value)
}

fn bytes_of(value: u64) -> [u8; 32] {
    let mut bytes = [0u8; 32];
    bytes[..8].copy_from_slice(&value.to_le_bytes());
    bytes
}

const MODULUS_BYTES: [u8; 32] = [
    0x01, 0x00, 0x00, 0x00, 0xff, 0xff, 0xff, 0xff, 0xfe, 0x5b, 0xfe, 0xff, 0x02, 0xa4, 0xbd, 0x53,
    0x05, 0xd8, 0xa1, 0x09, 0x08, 0xd8, 0x39, 0x33, 0x48, 0x7d, 0x9d, 0x29, 0x53, 0xa7, 0xed, 0x73,
];

#[test]
fn zero_and_one_have_their_encodings() {
    assert_eq!(Scalar::zero().to_bytes(), [0u8; 32]);
    assert_eq!(Scalar::one().to_bytes(), bytes_of(1));
    assert_ne!(Scalar::zero(), Scalar::one());
}

#[test]
fn from_u64_is_little_endian() {
    assert_eq!(s(0), Scalar::zero());
    assert_eq!(s(1), Scalar::one());
    assert_eq!(s(7).to_bytes(), bytes_of(7));
    assert_eq!(s(0x0102030405060708).to_bytes(), bytes_of(0x0102030405060708));
    assert_eq!(s(u64::MAX).to_bytes(), bytes_of(u64::MAX));
}

#[test]
fn sum_of_small_values() {
    assert_eq!(s(5).plus(&s(3)), s(8));
    assert_eq!(s(5).plus(&s(0)), s(5));
    let mut carry = [0u8; 32];
    carry[8] = 1;
    assert_eq!(s(u64::MAX).plus(&s(1)).to_bytes(), carry);
}

#[test]
fn sum_wraps_at_the_modulus() {
    let mut top = MODULUS_BYTES;
    top[0] = 0x00;
    let minus_one = s(1).negated();
    assert_eq!(minus_one.to_bytes(), top);
    assert_eq!(minus_one.plus(&s(1)), s(0));
    assert_eq!(minus_one.plus(&s(3)), s(2));
}

#[test]
fn difference_of_values() {
    assert_eq!(s(5).minus(&s(3)), s(2));
    assert_eq!(s(3).minus(&s(3)), s(0));
    assert_eq!(s(3).minus(&s(5)), s(2).negated());
    assert_eq!(s(3).minus(&s(5)).plus(&s(5)), s(3));
}

#[test]
fn product_of_values() {
    assert_eq!(s(5).times(&s(3)), s(15));
    assert_eq!(s(5).times(&s(0)), s(0));
    assert_eq!(s(5).times(&s(1)), s(5));
    assert_eq!(s(1).negated().times(&s(1).negated()), s(1));
    let mut square = [0u8; 32];
    square[8] = 1;
    assert_eq!(s(1 << 32).times(&s(1 << 32)).to_bytes(), square);
}

#[test]
fn negation_of_values() {
    assert_eq!(s(0).negated(), s(0));
    assert_eq!(s(7).negated().plus(&s(7)), s(0));
    assert_eq!(s(7).negated().negated(), s(7));
    assert_ne!(s(7).negated(), s(7));
}

#[test]
fn zero_has_no_inverse() {
    assert_eq!(s(0).inverse(), None);
}

#[test]
fn inverse_times_element_is_one() {
    for value in [1u64, 2, 7, 13, 1 << 40, u64::MAX] {
        let inverse = s(value).inverse().unwrap();
        assert_eq!(inverse.times(&s(value)), s(1));
    }
    assert_eq!(s(1).inverse(), Some(s(1)));
    assert_eq!(s(1).negated().inverse(), Some(s(1).negated()));
    let half = s(2).inverse().unwrap();
    assert_eq!(half.plus(&half), s(1));
}

#[test]
fn powers_of_values() {
    assert_eq!(s(2).pow(10), s(1024));
    assert_eq!(s(3).pow(0), s(1));
    assert_eq!(s(0).pow(0), s(1));
    assert_eq!(s(0).pow(5), s(0));
    assert_eq!(s(3).pow(1), s(3));
    assert_eq!(s(7).pow(3), s(343));
    assert_eq!(s(1).negated().pow(2), s(1));
    assert_eq!(s(1).negated().pow(3), s(1).negated());
}

#[test]
fn equality_goes_by_value() {
    assert!(s(5).equals(&s(5)));
    assert!(!s(5).equals(&s(6)));
    assert!(s(2).plus(&s(3)).equals(&s(5)));
    assert!(!s(1).negated().equals(&s(1)));
}

#[test]
fn primitive_root_is_the_known_constant() {
    let expected: [u8; 32] = [
        0x2b, 0x0d, 0x9f, 0x43, 0x1f, 0x97, 0x29, 0x38, 0xb9, 0x80, 0x22, 0x8c, 0x50, 0x83, 0x36,
        0xb6, 0xb4, 0x13, 0xc8, 0x22, 0x19, 0x68, 0x9b, 0xd0, 0x20, 0x1f, 0xe8, 0xdf, 0x9e, 0xa1,
        0xa2, 0x16,
    ];
    assert_eq!(primitive_root().to_bytes(), expected);
    assert_eq!(primitive_root().to_bytes(), bls12_381::Scalar::root_of_unity().to_bytes());
}

#[test]
fn primitive_root_is_the_generator_to_the_odd_cofactor() {
    // t = (q - 1) / 2^32, as four little-endian limbs
    let t: [u64; 4] =
        [0xfffe5bfeffffffff, 0x09a1d80553bda402, 0x299d7d483339d808, 0x0000000073eda753];
    let expected = bls12_381::Scalar::from(7u64).pow_vartime(&t);
    assert_eq!(primitive_root().to_bytes(), expected.to_bytes());
}

#[test]
fn primitive_root_has_order_two_to_the_32() {
    let root = primitive_root();
    assert_eq!(root.pow(1 << 32), s(1));
    assert_eq!(root.pow(1 << 31), s(1).negated());
    assert_ne!(root.pow(1 << 30), s(1));
}

#[test]
fn arithmetic_agrees_with_the_field_crate() {
    let a = bls12_381::Scalar::from(0xdead_beef_u64).pow_vartime(&[5, 0, 0, 0]);
    let b = bls12_381::Scalar::from(0x1234_5678_9abc_u64).pow_vartime(&[7, 0, 0, 0]);
    let mine_a = s(0xdead_beef).pow(5);
    let mine_b = s(0x1234_5678_9abc).pow(7);
    assert_eq!(mine_a.to_bytes(), a.to_bytes());
    assert_eq!(mine_b.to_bytes(), b.to_bytes());
    assert_eq!(mine_a.plus(&mine_b).to_bytes(), (a + b).to_bytes());
    assert_eq!(mine_a.minus(&mine_b).to_bytes(), (a - b).to_bytes());
    assert_eq!(mine_a.times(&mine_b).to_bytes(), (a * b).to_bytes());
    assert_eq!(mine_a.negated().to_bytes(), (-a).to_bytes());
    assert_eq!(mine_a.inverse().unwrap().to_bytes(), a.invert().unwrap().to_bytes());
}

#[test]
fn log_size_is_the_least_exponent() {
    let expected: [(usize, u32); 12] = [
        (0, 0),
        (1, 0),
        (2, 1),
        (3, 2),
        (4, 2),
        (5, 3),
        (8, 3),
        (9, 4),
        (16, 4),
        (17, 5),
        (1024, 10),
        (1025, 11),
    ];
    for (count, exponent) in expected {
        assert_eq!(log_size_of(count), exponent);
    }
}

#[test]
fn powers_of_two() {
    assert_eq!(power_of_two(0), 1);
    assert_eq!(power_of_two(1), 2);
    assert_eq!(power_of_two(10), 1024);
    assert_eq!(power_of_two(32), 1 << 32);
    assert_eq!(power_of_two(63), 1 << 63);
}

#[test]
fn encoding_round_trip() {
    for element in [s(0), s(1), s(7), s(u64::MAX), s(1).negated(), s(3).inverse().unwrap()] {
        assert_eq!(Scalar::from_bytes(&element.to_bytes()), Some(element));
    }
    assert_eq!(Scalar::from_bytes(&bytes_of(7)), Some(s(7)));
}

#[test]
fn encoding_at_or_above_the_modulus_is_refused() {
    assert_eq!(Scalar::from_bytes(&MODULUS_BYTES), None);
    assert_eq!(Scalar::from_bytes(&[0xff; 32]), None);
    let mut above = MODULUS_BYTES;
    above[0] = 0x02;
    assert_eq!(Scalar::from_bytes(&above), None);
    let mut below = MODULUS_BYTES;
    below[0] = 0x00;
    assert_eq!(Scalar::from_bytes(&below), Some(s(1).negated()));
}
