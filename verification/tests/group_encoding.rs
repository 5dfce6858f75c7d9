use ff::{Field, PrimeField};
use group::{Group, GroupEncoding};
use p256::{ProjectivePoint, Scalar as P256Scalar};

use sigma_proofs::group::serialization::{
    deserialize_messages, group_elt_serialized_len, serialize_messages, NargMessage,
};
use sigma_proofs::group::{GroupElement, PrimeGroup, Scalar, P256};
use sigma_proofs::Error;

fn scalar(s: &P256Scalar) -> Scalar<P256> {
    Scalar::from_narg_bytes(&s.to_repr()).unwrap()
}

fn p256(s: &Scalar<P256>) -> P256Scalar {
    P256Scalar::from_repr(*p256::FieldBytes::from_slice(&s.to_narg_bytes())).unwrap()
}

#[test]
fn p256_sizes() {
    assert_eq!(group_elt_serialized_len::<P256>(), 33);
    assert_eq!(P256::element_repr_len(), 33);
    assert_eq!(P256::scalar_repr_len(), 32);
    assert_eq!(P256::scalar_num_bits(), 256);
    assert_eq!(P256::wide_repr_len(), 64);
}

#[test]
fn point_reads_back_its_encoding() {
    let point = ProjectivePoint::generator() * P256Scalar::from(42u64);
    let bytes = point.to_bytes();
    let element = GroupElement::<P256>::from_narg_bytes(&bytes).unwrap();
    assert_eq!(element.to_narg_bytes(), bytes.to_vec());
}

#[test]
fn invalid_point_is_rejected() {
    let mut bytes = [0u8; 33];
    bytes[0] = 0x02;
    bytes[32] = 0x05;
    let x_not_on_curve = (0u8..=255).any(|b| {
        bytes[31] = b;
        GroupElement::<P256>::from_narg_bytes(&bytes).is_none()
    });
    assert!(x_not_on_curve);
    assert!(GroupElement::<P256>::from_narg_bytes(&[0x07; 33]).is_none());
    assert!(GroupElement::<P256>::from_narg_bytes(&[0x02; 32]).is_none());
    let good = (ProjectivePoint::generator()).to_bytes();
    let mut longer = good.to_vec();
    longer.push(0);
    assert!(GroupElement::<P256>::from_narg_bytes(&longer).is_none());
}

#[test]
fn scalar_reads_back_its_representation() {
    let s = P256Scalar::from(123456789u64);
    let sc = scalar(&s);
    assert_eq!(sc.to_narg_bytes(), s.to_repr().to_vec());
}

#[test]
fn noncanonical_scalar_is_rejected() {
    assert!(Scalar::<P256>::from_narg_bytes(&[0xff; 32]).is_none());
    assert!(Scalar::<P256>::from_narg_bytes(&[0x00; 31]).is_none());
    let minus_one = -P256Scalar::ONE;
    assert!(Scalar::<P256>::from_narg_bytes(&minus_one.to_repr()).is_some());
}

#[test]
fn scalar_arithmetic_matches_p256() {
    let a = P256Scalar::from(11u64);
    let b = -P256Scalar::from(5u64);
    let c = P256Scalar::from(1u64 << 40);
    let r = Scalar::mul_add(&scalar(&a), &scalar(&b), &scalar(&c));
    assert_eq!(p256(&r), a + b * c);
    assert_eq!(p256(&scalar(&a).neg()), -a);
}

#[test]
fn point_arithmetic_matches_p256() {
    let x = P256Scalar::from(9u64);
    let y = P256Scalar::from(13u64);
    let gx = GroupElement::<P256>::mul_generator(&scalar(&x));
    assert_eq!(gx.to_narg_bytes(), (ProjectivePoint::generator() * x).to_bytes().to_vec());
    let gxy = gx.mul(&scalar(&y)).unwrap();
    assert_eq!(gxy.to_narg_bytes(), (ProjectivePoint::generator() * (x * y)).to_bytes().to_vec());
    let sum = gx.add(&gxy).unwrap();
    assert_eq!(
        sum.to_narg_bytes(),
        (ProjectivePoint::generator() * (x + x * y)).to_bytes().to_vec()
    );
}

#[test]
fn messages_round_trip() {
    let scalars: Vec<Scalar<P256>> =
        (1u64..5).map(|i| scalar(&P256Scalar::from(i * 1000))).collect();
    let bytes = serialize_messages(&scalars);
    assert_eq!(bytes.len(), 4 * 32);
    let mut buf = &bytes[..];
    let read: Vec<Scalar<P256>> = deserialize_messages(4, &mut buf).unwrap();
    assert!(buf.is_empty());
    for (a, b) in read.iter().zip(scalars.iter()) {
        assert!(a.narg_eq(b));
    }
}

#[test]
fn deserialize_messages_advances_the_cursor() {
    let points: Vec<GroupElement<P256>> = (1u64..4)
        .map(|i| GroupElement::mul_generator(&scalar(&P256Scalar::from(i))))
        .collect();
    let mut bytes = serialize_messages(&points);
    bytes.extend_from_slice(b"rest");
    let mut buf = &bytes[..];
    let read: Vec<GroupElement<P256>> = deserialize_messages(2, &mut buf).unwrap();
    assert_eq!(read.len(), 2);
    assert_eq!(buf.len(), 33 + 4);
    assert!(read[1].narg_eq(&points[1]));
}

#[test]
fn deserialize_messages_fails_on_short_or_invalid_input() {
    let points: Vec<GroupElement<P256>> =
        vec![GroupElement::mul_generator(&scalar(&P256Scalar::from(7u64)))];
    let bytes = serialize_messages(&points);
    let mut buf = &bytes[..];
    let r: Result<Vec<GroupElement<P256>>, Error> = deserialize_messages(2, &mut buf);
    assert_eq!(r.map(|v| v.len()), Err(Error::VerificationFailure));
    let bad = [0x09u8; 33];
    let mut buf = &bad[..];
    let r: Result<Vec<GroupElement<P256>>, Error> = deserialize_messages(1, &mut buf);
    assert_eq!(r.map(|v| v.len()), Err(Error::VerificationFailure));
    let mut empty: &[u8] = &[];
    let r: Result<Vec<GroupElement<P256>>, Error> = deserialize_messages(0, &mut empty);
    assert_eq!(r.map(|v| v.len()), Ok(0));
}

#[test]
fn serialize_messages_into_appends() {
    let scalars = vec![scalar(&P256Scalar::from(1u64))];
    let mut out = b"prefix".to_vec();
    sigma_proofs::group::serialization::serialize_messages_into(&scalars, &mut out);
    assert_eq!(&out[..6], b"prefix");
    assert_eq!(out.len(), 6 + 32);
    assert_eq!(out[6 + 31], 1);
}

#[test]
fn scalar_arithmetic_reduces_modulo_the_order() {
    let order_minus_one: [u8; 32] = [
        0xff, 0xff, 0xff, 0xff, 0x00, 0x00, 0x00, 0x00, 0xff, 0xff, 0xff, 0xff, 0xff, 0xff, 0xff, 0xff,
        0xbc, 0xe6, 0xfa, 0xad, 0xa7, 0x17, 0x9e, 0x84, 0xf3, 0xb9, 0xca, 0xc2, 0xfc, 0x63, 0x25, 0x50,
    ];
    let mut two = [0u8; 32];
    two[31] = 2;
    let mut one = [0u8; 32];
    one[31] = 1;
    let a = Scalar::<P256>::from_narg_bytes(&order_minus_one).unwrap();
    let b = Scalar::<P256>::from_narg_bytes(&two).unwrap();
    let c = Scalar::<P256>::from_narg_bytes(&one).unwrap();
    // (n - 1) + 2 * 1 = n + 1, which is 1 modulo n.
    assert_eq!(Scalar::mul_add(&a, &b, &c).to_narg_bytes(), one.to_vec());
    // -(n - 1) = 1 modulo n, and -1 = n - 1.
    assert_eq!(a.neg().to_narg_bytes(), one.to_vec());
    assert_eq!(c.neg().to_narg_bytes(), order_minus_one.to_vec());
}

#[test]
fn uniform_map_reduces_the_wide_integer_modulo_the_order() {
    // The 64 bytes encode 2^256, and 2^256 mod n = 2^256 - n.
    let mut wide = [0u8; 64];
    wide[31] = 1;
    let expected: [u8; 32] = [
        0, 0, 0, 0, 255, 255, 255, 255, 0, 0, 0, 0, 0, 0, 0, 0, 67, 25, 5, 82, 88, 232, 97, 123, 12, 70,
        53, 61, 3, 156, 218, 175,
    ];
    assert_eq!(Scalar::<P256>::from_uniform(&wide).to_narg_bytes(), expected.to_vec());
}
