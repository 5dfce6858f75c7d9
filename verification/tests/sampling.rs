use ff::PrimeField;

use sigma_proofs::group::serialization::NargMessage;
use sigma_proofs::group::{Scalar, P256};
use sigma_proofs::rng::{
    random_scalars_vec, sample_by_decoding, scalar_from_uniform_bytes, uniform_scalar_byte_len,
    CryptoRngCore, ScalarCompatible, ScalarCompatibleRepr,
};

struct Counter(u8);

impl CryptoRngCore for Counter {
    fn fill_bytes(&mut self, dest: &mut [u8]) -> Result<(), sigma_proofs::Error> {
        for b in dest.iter_mut() {
            *b = self.0;
            self.0 = self.0.wrapping_add(1);
        }
        Ok(())
    }
}

fn decode_wide(wide: &[u8; 64]) -> Vec<u8> {
    let mut repr = <p256::Scalar as spongefish::Decoding<[u8]>>::Repr::default();
    repr.as_mut().copy_from_slice(wide);
    let s = <p256::Scalar as spongefish::Decoding<[u8]>>::decode(repr);
    s.to_repr().to_vec()
}

#[test]
fn uniform_length_is_scalar_bytes_plus_sixteen() {
    assert_eq!(uniform_scalar_byte_len::<P256>(), 48);
    let repr = ScalarCompatibleRepr::<P256>::default();
    assert_eq!(repr.len(), 48);
}

#[test]
fn uniform_bytes_are_right_aligned() {
    let uniform: Vec<u8> = (1u8..=48).collect();
    let mut wide = [0u8; 64];
    wide[16..].copy_from_slice(&uniform);
    let s: Scalar<P256> = scalar_from_uniform_bytes(&uniform);
    assert_eq!(s.to_narg_bytes(), decode_wide(&wide));
    let mut left_aligned = [0u8; 64];
    left_aligned[..48].copy_from_slice(&uniform);
    assert_ne!(s.to_narg_bytes(), decode_wide(&left_aligned));
}

#[test]
fn small_uniform_values_decode_to_themselves() {
    let mut uniform = [0u8; 48];
    uniform[47] = 5;
    let s: Scalar<P256> = scalar_from_uniform_bytes(&uniform);
    assert_eq!(s.to_narg_bytes(), p256::Scalar::from(5u64).to_repr().to_vec());
}

#[test]
fn scalar_compatible_decodes_its_buffer() {
    let mut repr = ScalarCompatibleRepr::<P256>::default();
    for (i, b) in repr.as_mut().iter_mut().enumerate() {
        *b = i as u8;
    }
    let decoded = ScalarCompatible::decode(repr);
    let uniform: Vec<u8> = (0u8..48).collect();
    let mut wide = [0u8; 64];
    wide[16..].copy_from_slice(&uniform);
    assert_eq!(decoded.0.to_narg_bytes(), decode_wide(&wide));
    let mut out = Vec::new();
    decoded.serialize_into_narg(&mut out);
    assert_eq!(out, decode_wide(&wide));
}

#[test]
fn sampling_decodes_the_random_bytes() {
    let mut rng = Counter(0);
    let s: Scalar<P256> = sample_by_decoding(&mut rng).unwrap();
    let mut wide = [0u8; 64];
    for i in 0..48 {
        wide[16 + i] = i as u8;
    }
    assert_eq!(s.to_narg_bytes(), decode_wide(&wide));
}

#[test]
fn sampling_many_draws_fresh_bytes_each_time() {
    let mut rng = Counter(0);
    let v: Vec<Scalar<P256>> = random_scalars_vec(&mut rng, 3).unwrap();
    assert_eq!(v.len(), 3);
    let mut wide = [0u8; 64];
    for i in 0..48 {
        wide[16 + i] = (48 + i) as u8;
    }
    assert_eq!(v[1].to_narg_bytes(), decode_wide(&wide));
    assert!(!v[0].narg_eq(&v[1]));
    assert!(random_scalars_vec::<P256, Counter>(&mut rng, 0).unwrap().is_empty());
}

#[test]
fn os_rng_samples_distinct_scalars() {
    let mut rng = rand_core::OsRng;
    let v: Vec<Scalar<P256>> = random_scalars_vec(&mut rng, 2).unwrap();
    assert!(!v[0].narg_eq(&v[1]));
}

struct Broken;

impl CryptoRngCore for Broken {
    fn fill_bytes(&mut self, _dest: &mut [u8]) -> Result<(), sigma_proofs::Error> {
        Err(sigma_proofs::Error::RandomnessUnavailable)
    }
}

#[test]
fn failing_source_fails_sampling() {
    assert_eq!(
        sample_by_decoding::<P256, Broken>(&mut Broken).map(|s| s.to_narg_bytes()),
        Err(sigma_proofs::Error::RandomnessUnavailable)
    );
    assert_eq!(
        random_scalars_vec::<P256, Broken>(&mut Broken, 2).map(|v| v.len()),
        Err(sigma_proofs::Error::RandomnessUnavailable)
    );
    assert_eq!(random_scalars_vec::<P256, Broken>(&mut Broken, 0).map(|v| v.len()), Ok(0));
}
