use ff::PrimeField;
use group::{Group, GroupEncoding};
use p256::{ProjectivePoint, Scalar as P256Scalar};

use sigma_proofs::codec::Shake128DuplexSponge;
use sigma_proofs::group::serialization::NargMessage;
use sigma_proofs::group::{GroupElement, Scalar, P256};
use sigma_proofs::rng::CryptoRngCore;
use sigma_proofs::{DuplexSpongeInterface, Error, Nizk, Schnorr, ShakeDuplexSponge};
use sigma_proofs::{SigmaProtocol, SigmaProtocolSimulator};

/// A deterministic random generator: the SHAKE128 stream of a seed, read in
/// order.
struct TestDrng {
    sponge: ShakeDuplexSponge,
    offset: usize,
}

impl TestDrng {
    fn from_seed(seed: &[u8]) -> Self {
        let prefix = b"sigma-proofs/TestDRNG/SHAKE128";
        let mut iv = [0u8; 64];
        iv[..prefix.len()].copy_from_slice(prefix);
        let mut sponge = ShakeDuplexSponge::new(iv);
        sponge.absorb(seed);
        TestDrng { sponge, offset: 0 }
    }
}

impl CryptoRngCore for TestDrng {
    fn fill_bytes(&mut self, dest: &mut [u8]) -> Result<(), sigma_proofs::Error> {
        let end = self.offset + dest.len();
        dest.copy_from_slice(&self.sponge.squeeze(end)[self.offset..]);
        self.offset = end;
        Ok(())
    }
}

fn scalar(s: &P256Scalar) -> Scalar<P256> {
    Scalar::from_narg_bytes(&s.to_repr()).unwrap()
}

type SchnorrNizk = Nizk<Schnorr<P256>, Shake128DuplexSponge<P256>>;

fn setup() -> (SchnorrNizk, Scalar<P256>) {
    let witness = scalar(&P256Scalar::from(0x1234_5678_9abc_def0u64));
    (Nizk::new(b"test session", Schnorr::from_witness(&witness)), witness)
}

#[test]
fn schnorr_public_is_witness_times_generator() {
    let x = P256Scalar::from(77u64);
    let statement = Schnorr::<P256>::from_witness(&scalar(&x));
    let expected = (ProjectivePoint::generator() * x).to_bytes();
    assert_eq!(statement.public.to_narg_bytes(), expected.to_vec());
    assert_eq!(statement.instance_label(), expected.to_vec());
    assert_eq!(statement.commitment_len(), 1);
    assert_eq!(statement.response_len(), 1);
    assert_eq!(&statement.protocol_identifier()[..26], b"schnorr/discrete-logarithm");
    assert!(statement.protocol_identifier()[26..].iter().all(|b| *b == 0));
}

#[test]
fn batchable_proof_verifies() {
    let (nizk, witness) = setup();
    let mut rng = TestDrng::from_seed(b"proof_generation_seed");
    let proof = nizk.prove_batchable(&witness, &mut rng).unwrap();
    assert_eq!(proof.len(), 33 + 32);
    assert!(nizk.verify_batchable(&proof).is_ok());
}

#[test]
fn batchable_proof_is_deterministic_for_a_seeded_rng() {
    let (nizk, witness) = setup();
    let p1 = nizk.prove_batchable(&witness, &mut TestDrng::from_seed(b"seed")).unwrap();
    let p2 = nizk.prove_batchable(&witness, &mut TestDrng::from_seed(b"seed")).unwrap();
    let p3 = nizk.prove_batchable(&witness, &mut TestDrng::from_seed(b"other seed")).unwrap();
    assert_eq!(p1, p2);
    assert_ne!(p1, p3);
}

#[test]
fn batchable_proof_with_trailing_byte_fails() {
    let (nizk, witness) = setup();
    let mut proof = nizk.prove_batchable(&witness, &mut TestDrng::from_seed(b"s")).unwrap();
    proof.push(0);
    assert_eq!(nizk.verify_batchable(&proof), Err(Error::VerificationFailure));
}

#[test]
fn truncated_batchable_proof_fails() {
    let (nizk, witness) = setup();
    let proof = nizk.prove_batchable(&witness, &mut TestDrng::from_seed(b"s")).unwrap();
    assert_eq!(nizk.verify_batchable(&proof[..proof.len() - 1]), Err(Error::VerificationFailure));
    assert_eq!(nizk.verify_batchable(&[]), Err(Error::VerificationFailure));
}

#[test]
fn tampered_batchable_response_fails() {
    let (nizk, witness) = setup();
    let mut proof = nizk.prove_batchable(&witness, &mut TestDrng::from_seed(b"s")).unwrap();
    let last = proof.len() - 1;
    proof[last] ^= 1;
    assert_eq!(nizk.verify_batchable(&proof), Err(Error::VerificationFailure));
}

#[test]
fn batchable_proof_with_invalid_point_fails() {
    let (nizk, witness) = setup();
    let mut proof = nizk.prove_batchable(&witness, &mut TestDrng::from_seed(b"s")).unwrap();
    proof[0] = 0x07;
    assert_eq!(nizk.verify_batchable(&proof), Err(Error::VerificationFailure));
}

#[test]
fn batchable_proof_is_bound_to_the_session() {
    let (nizk, witness) = setup();
    let proof = nizk.prove_batchable(&witness, &mut TestDrng::from_seed(b"s")).unwrap();
    let other: SchnorrNizk = Nizk::new(b"another session", Schnorr::from_witness(&witness));
    assert_eq!(other.verify_batchable(&proof), Err(Error::VerificationFailure));
}

#[test]
fn batchable_proof_is_bound_to_the_statement() {
    let (nizk, witness) = setup();
    let proof = nizk.prove_batchable(&witness, &mut TestDrng::from_seed(b"s")).unwrap();
    let other_witness = scalar(&P256Scalar::from(5u64));
    let other: SchnorrNizk = Nizk::new(b"test session", Schnorr::from_witness(&other_witness));
    assert_eq!(other.verify_batchable(&proof), Err(Error::VerificationFailure));
}

#[test]
fn wrong_witness_is_refused() {
    let (nizk, _) = setup();
    let wrong = scalar(&P256Scalar::from(3u64));
    assert_eq!(
        nizk.prove_batchable(&wrong, &mut TestDrng::from_seed(b"s")),
        Err(Error::InvalidInstanceWitnessPair)
    );
    assert_eq!(
        nizk.prove_compact(&wrong, &mut TestDrng::from_seed(b"s")),
        Err(Error::InvalidInstanceWitnessPair)
    );
}

#[test]
fn compact_proof_verifies() {
    let (nizk, witness) = setup();
    let mut rng = TestDrng::from_seed(b"proof_generation_seed");
    let proof = nizk.prove_compact(&witness, &mut rng).unwrap();
    assert_eq!(proof.len(), 32 + 32);
    assert!(nizk.verify_compact(&proof).is_ok());
}

#[test]
fn compact_and_batchable_share_the_response() {
    let (nizk, witness) = setup();
    let batchable = nizk.prove_batchable(&witness, &mut TestDrng::from_seed(b"s")).unwrap();
    let compact = nizk.prove_compact(&witness, &mut TestDrng::from_seed(b"s")).unwrap();
    assert_eq!(batchable[33..], compact[32..]);
}

#[test]
fn compact_proof_challenge_is_the_codec_challenge() {
    let (nizk, witness) = setup();
    let batchable = nizk.prove_batchable(&witness, &mut TestDrng::from_seed(b"s")).unwrap();
    let compact = nizk.prove_compact(&witness, &mut TestDrng::from_seed(b"s")).unwrap();
    let commitment = GroupElement::<P256>::from_narg_bytes(&batchable[..33]).unwrap();
    let mut codec = <Shake128DuplexSponge<P256> as sigma_proofs::Codec>::new(
        &nizk.interactive_proof.protocol_identifier(),
        b"test session",
        &nizk.interactive_proof.instance_label(),
    );
    sigma_proofs::Codec::prover_message(&mut codec, &commitment.to_narg_bytes());
    let challenge = sigma_proofs::Codec::verifier_challenge(&mut codec);
    assert_eq!(challenge.to_narg_bytes(), compact[..32].to_vec());
}

#[test]
fn tampered_compact_proof_fails() {
    let (nizk, witness) = setup();
    let mut proof = nizk.prove_compact(&witness, &mut TestDrng::from_seed(b"s")).unwrap();
    proof[5] ^= 0x10;
    assert_eq!(nizk.verify_compact(&proof), Err(Error::VerificationFailure));
    let mut proof = nizk.prove_compact(&witness, &mut TestDrng::from_seed(b"s")).unwrap();
    proof[40] ^= 0x10;
    assert_eq!(nizk.verify_compact(&proof), Err(Error::VerificationFailure));
}

#[test]
fn compact_proof_with_trailing_byte_fails() {
    let (nizk, witness) = setup();
    let mut proof = nizk.prove_compact(&witness, &mut TestDrng::from_seed(b"s")).unwrap();
    proof.push(1);
    assert_eq!(nizk.verify_compact(&proof), Err(Error::VerificationFailure));
    assert_eq!(nizk.verify_compact(&proof[..10]), Err(Error::VerificationFailure));
}

#[test]
fn compact_proof_with_noncanonical_challenge_fails() {
    let (nizk, witness) = setup();
    let mut proof = nizk.prove_compact(&witness, &mut TestDrng::from_seed(b"s")).unwrap();
    for b in proof[..32].iter_mut() {
        *b = 0xff;
    }
    assert_eq!(nizk.verify_compact(&proof), Err(Error::VerificationFailure));
}

#[test]
fn simulated_transcript_verifies_interactively() {
    let (nizk, _) = setup();
    let mut rng = TestDrng::from_seed(b"simulation");
    let (commitment, challenge, response) =
        nizk.interactive_proof.simulate_transcript(&mut rng).unwrap();
    assert!(nizk
        .interactive_proof
        .verify_transcript(&commitment, &challenge, &response)
        .is_ok());
    let recomputed = nizk
        .interactive_proof
        .simulate_commitment(&challenge, &response)
        .unwrap();
    assert!(recomputed[0].narg_eq(&commitment[0]));
}

#[test]
fn simulate_commitment_rejects_wrong_response_count() {
    let (nizk, witness) = setup();
    assert_eq!(
        nizk.interactive_proof
            .simulate_commitment(&witness, &[])
            .map(|v| v.len()),
        Err(Error::VerificationFailure)
    );
}

struct FailingRng;

impl CryptoRngCore for FailingRng {
    fn fill_bytes(&mut self, _dest: &mut [u8]) -> Result<(), Error> {
        Err(Error::RandomnessUnavailable)
    }
}

#[test]
fn failing_random_source_fails_the_provers() {
    let (nizk, witness) = setup();
    assert_eq!(nizk.prove_batchable(&witness, &mut FailingRng), Err(Error::RandomnessUnavailable));
    assert_eq!(nizk.prove_compact(&witness, &mut FailingRng), Err(Error::RandomnessUnavailable));
    assert!(nizk.interactive_proof.simulate_transcript(&mut FailingRng).is_err());
}

#[test]
fn invalid_witness_is_refused_before_sampling() {
    let (nizk, _) = setup();
    let wrong = scalar(&P256Scalar::from(3u64));
    assert_eq!(nizk.prove_batchable(&wrong, &mut FailingRng), Err(Error::InvalidInstanceWitnessPair));
}

#[test]
fn proving_from_a_commitment_matches_proving() {
    let (nizk, witness) = setup();
    let (commitment, state) = nizk
        .interactive_proof
        .prover_commit(&witness, &mut TestDrng::from_seed(b"s"))
        .unwrap();
    let from_commitment = nizk.prove_batchable_from_commitment(commitment, state).unwrap();
    let direct = nizk.prove_batchable(&witness, &mut TestDrng::from_seed(b"s")).unwrap();
    assert_eq!(from_commitment, direct);
    let (commitment, state) = nizk
        .interactive_proof
        .prover_commit(&witness, &mut TestDrng::from_seed(b"s"))
        .unwrap();
    let compact = nizk.prove_compact_from_commitment(commitment, state).unwrap();
    assert_eq!(compact, nizk.prove_compact(&witness, &mut TestDrng::from_seed(b"s")).unwrap());
}

#[test]
fn verifiers_refuse_with_verification_failure() {
    let (nizk, witness) = setup();
    let proof = nizk.prove_batchable(&witness, &mut TestDrng::from_seed(b"s")).unwrap();
    let (other, _) = setup();
    let mut swapped = proof.clone();
    swapped[40] ^= 0x01;
    assert_eq!(other.verify_batchable(&swapped), Err(Error::VerificationFailure));
    assert_eq!(nizk.verify_batchable(&proof), nizk.verify_batchable(&proof));
}
