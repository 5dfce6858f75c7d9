use bls12_381::{G1Affine, G1Projective, Scalar as BlsScalar};

use sigma_proofs::codec::Shake128DuplexSponge;
use sigma_proofs::group::serialization::{group_elt_serialized_len, NargMessage};
use sigma_proofs::group::{Bls12381G1, GroupElement, PrimeGroup, Scalar};
use sigma_proofs::rng::{scalar_from_uniform_bytes, uniform_scalar_byte_len, CryptoRngCore};
use sigma_proofs::{Error, Nizk, Schnorr};

struct Counter(u8);

impl CryptoRngCore for Counter {
    fn fill_bytes(&mut self, dest: &mut [u8]) -> Result<(), sigma_proofs::Error> {
        for b in dest.iter_mut() {
            *b = self.0;
            self.0 = self.0.wrapping_mul(31).wrapping_add(7);
        }
        Ok(())
    }
}

fn be(s: &BlsScalar) -> Vec<u8> {
    let mut b = s.to_bytes().to_vec();
    b.reverse();
    b
}

fn scalar(s: &BlsScalar) -> Scalar<Bls12381G1> {
    Scalar::from_narg_bytes(&be(s)).unwrap()
}

fn compressed(p: &G1Projective) -> Vec<u8> {
    G1Affine::from(p).to_compressed().to_vec()
}

#[test]
fn bls12_381_sizes() {
    assert_eq!(group_elt_serialized_len::<Bls12381G1>(), 48);
    assert_eq!(Bls12381G1::scalar_repr_len(), 32);
    assert_eq!(Bls12381G1::scalar_num_bits(), 255);
    assert_eq!(Bls12381G1::wide_repr_len(), 64);
    assert_eq!(uniform_scalar_byte_len::<Bls12381G1>(), 48);
}

#[test]
fn bls12_381_scalars_are_big_endian() {
    let s = scalar(&BlsScalar::from(258u64));
    let bytes = s.to_narg_bytes();
    assert_eq!(bytes[31], 2);
    assert_eq!(bytes[30], 1);
    assert!(Scalar::<Bls12381G1>::from_narg_bytes(&[0xff; 32]).is_none());
}

#[test]
fn bls12_381_arithmetic_matches_the_crate() {
    let x = BlsScalar::from(17u64);
    let y = -BlsScalar::from(3u64);
    let gx = GroupElement::<Bls12381G1>::mul_generator(&scalar(&x));
    assert_eq!(gx.to_narg_bytes(), compressed(&(G1Projective::generator() * x)));
    let gxy = gx.mul(&scalar(&y)).unwrap();
    assert_eq!(gxy.to_narg_bytes(), compressed(&(G1Projective::generator() * (x * y))));
    let sum = gx.add(&gxy).unwrap();
    assert_eq!(sum.to_narg_bytes(), compressed(&(G1Projective::generator() * (x + x * y))));
    let r = Scalar::mul_add(&scalar(&x), &scalar(&y), &scalar(&x));
    assert_eq!(r.to_narg_bytes(), be(&(x + y * x)));
    assert_eq!(scalar(&x).neg().to_narg_bytes(), be(&(-x)));
}

#[test]
fn bls12_381_points_read_back() {
    let p = compressed(&(G1Projective::generator() * BlsScalar::from(5u64)));
    let e = GroupElement::<Bls12381G1>::from_narg_bytes(&p).unwrap();
    assert_eq!(e.to_narg_bytes(), p);
    assert!(GroupElement::<Bls12381G1>::from_narg_bytes(&[0u8; 48]).is_none());
}

#[test]
fn bls12_381_uniform_decoding_reduces_the_wide_integer() {
    let mut uniform = [0u8; 48];
    uniform[47] = 9;
    let s: Scalar<Bls12381G1> = scalar_from_uniform_bytes(&uniform);
    assert_eq!(s.to_narg_bytes(), be(&BlsScalar::from(9u64)));
}

#[test]
fn bls12_381_schnorr_proofs_verify() {
    let witness = scalar(&BlsScalar::from(0xdead_beefu64));
    let nizk: Nizk<Schnorr<Bls12381G1>, Shake128DuplexSponge<Bls12381G1>> =
        Nizk::new(b"bls session", Schnorr::from_witness(&witness));
    let batchable = nizk.prove_batchable(&witness, &mut Counter(1)).unwrap();
    assert_eq!(batchable.len(), 48 + 32);
    assert!(nizk.verify_batchable(&batchable).is_ok());
    let compact = nizk.prove_compact(&witness, &mut Counter(1)).unwrap();
    assert_eq!(compact.len(), 32 + 32);
    assert!(nizk.verify_compact(&compact).is_ok());
    let mut tampered = compact.clone();
    tampered[63] ^= 1;
    assert_eq!(nizk.verify_compact(&tampered), Err(Error::VerificationFailure));
    let mut tampered = batchable.clone();
    tampered[79] ^= 1;
    assert_eq!(nizk.verify_batchable(&tampered), Err(Error::VerificationFailure));
}

#[test]
fn bls12_381_scalar_arithmetic_reduces_modulo_the_order() {
    let order_minus_one: [u8; 32] = [
        0x73, 0xed, 0xa7, 0x53, 0x29, 0x9d, 0x7d, 0x48, 0x33, 0x39, 0xd8, 0x08, 0x09, 0xa1, 0xd8, 0x05,
        0x53, 0xbd, 0xa4, 0x02, 0xff, 0xfe, 0x5b, 0xfe, 0xff, 0xff, 0xff, 0xff, 0x00, 0x00, 0x00, 0x00,
    ];
    let mut two = [0u8; 32];
    two[31] = 2;
    let mut one = [0u8; 32];
    one[31] = 1;
    let a = Scalar::<Bls12381G1>::from_narg_bytes(&order_minus_one).unwrap();
    let b = Scalar::<Bls12381G1>::from_narg_bytes(&two).unwrap();
    let c = Scalar::<Bls12381G1>::from_narg_bytes(&one).unwrap();
    // (r - 1) + 2 * 1 = r + 1, which is 1 modulo r.
    assert_eq!(Scalar::mul_add(&a, &b, &c).to_narg_bytes(), one.to_vec());
    assert_eq!(a.neg().to_narg_bytes(), one.to_vec());
    assert_eq!(c.neg().to_narg_bytes(), order_minus_one.to_vec());
    // The order itself is not a canonical scalar.
    let mut order = order_minus_one;
    order[31] = 1;
    assert!(Scalar::<Bls12381G1>::from_narg_bytes(&order).is_none());
}

#[test]
fn bls12_381_uniform_map_reduces_modulo_the_order() {
    // The 64 bytes encode 2^256.
    let mut wide = [0u8; 64];
    wide[31] = 1;
    let expected: [u8; 32] = [
        24, 36, 177, 89, 172, 197, 5, 111, 153, 140, 79, 239, 236, 188, 79, 245, 88, 132, 183, 250, 0,
        3, 72, 2, 0, 0, 0, 1, 255, 255, 255, 254,
    ];
    assert_eq!(Scalar::<Bls12381G1>::from_uniform(&wide).to_narg_bytes(), expected.to_vec());
}
