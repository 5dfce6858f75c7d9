//! The Schnorr protocol: a proof of knowledge of the discrete logarithm of a
//! group element to the base of the group's generator.

use vstd::prelude::*;
use crate::errors::Error;
use crate::codec::{ByteSchnorrCodec, Codec};
use crate::duplex_sponge::DuplexSpongeInterface;
use crate::fiat_shamir::{lemma_honest_batchable_proof_verifies, lemma_honest_compact_proof_verifies, Nizk};
use crate::group::{is_scalar_repr, lemma_scalar_reads_back, GroupElement, PrimeGroup, Scalar};
use crate::group::serialization::{concat_bytes, narg_parts, reads_back, NargMessage};
use crate::rng::{drawn_blocks, is_decoded_sample, pad_left, sample_by_decoding, spec_decode_uniform, uniform_scalar_len, CryptoRngCore};
use crate::traits::{SigmaProtocol, SigmaProtocolSimulator, Transcript};

verus! {

/// The Schnorr protocol for the statement "I know `x` with `public = x * G`",
/// where `G` is the generator.
///
/// The prover commits to `k * G` for a random `k`, and responds to the
/// challenge `c` with `k + c * x`; the verifier checks
/// `response * G == commitment + c * public`.
pub struct Schnorr<G: PrimeGroup> {
    /// The element whose discrete logarithm is known.
    pub public: GroupElement<G>,
}

/// The ASCII bytes of `schnorr/discrete-logarithm`, then zeros up to 64 bytes.
pub open spec fn schnorr_protocol_id() -> Seq<u8> {
    seq![
        115u8, 99u8, 104u8, 110u8, 111u8, 114u8, 114u8, 47u8, 100u8, 105u8, 115u8, 99u8, 114u8,
        101u8, 116u8, 101u8, 45u8, 108u8, 111u8, 103u8, 97u8, 114u8, 105u8, 116u8, 104u8, 109u8,
    ] + Seq::new(38, |i: int| 0u8)
}

impl<G: PrimeGroup> Schnorr<G> {
    /// The statement about the element `public`.
    pub fn new(public: GroupElement<G>) -> (r: Self)
        ensures
            r.public == public,
    {
        Schnorr { public }
    }

    /// The statement that `witness` is a discrete logarithm of.
    pub fn from_witness(witness: &Scalar<G>) -> (r: Self)
        ensures
            r.public.narg_bytes() == G::spec_mul_generator(witness.narg_bytes()),
    {
        Schnorr { public: GroupElement::mul_generator(witness) }
    }
}

impl<G: PrimeGroup> SigmaProtocol for Schnorr<G> {
    type Commitment = GroupElement<G>;
    type ProverState = (Scalar<G>, Scalar<G>);
    type Response = Scalar<G>;
    type Witness = Scalar<G>;
    type Challenge = Scalar<G>;

    open spec fn spec_protocol_identifier(&self) -> Seq<u8> {
        schnorr_protocol_id()
    }

    open spec fn spec_instance_label(&self) -> Seq<u8> {
        self.public.narg_bytes()
    }

    open spec fn spec_commitment_len(&self) -> nat {
        1
    }

    open spec fn spec_response_len(&self) -> nat {
        1
    }

    /// `witness * G == public`.
    open spec fn spec_witness_valid(&self, witness: Scalar<G>) -> bool {
        G::spec_mul_generator(witness.narg_bytes()) == self.public.narg_bytes()
    }

    /// One commitment `nonce * G`, for a nonce decoded from uniform bytes, and
    /// the state `(nonce, witness)`.
    open spec fn spec_committed(
        &self,
        witness: Scalar<G>,
        commitment: Seq<Seq<u8>>,
        state: (Scalar<G>, Scalar<G>),
    ) -> bool {
        &&& is_decoded_sample(state.0)
        &&& is_scalar_repr::<G>(state.0.narg_bytes())
        &&& is_scalar_repr::<G>(state.1.narg_bytes())
        &&& state.1.narg_bytes() == witness.narg_bytes()
        &&& commitment == seq![G::spec_mul_generator(state.0.narg_bytes())]
    }

    /// One block, of the length a scalar is sampled from.
    open spec fn spec_commit_draws(&self) -> (nat, nat) {
        (1, uniform_scalar_len(G::spec_scalar_num_bits()))
    }

    /// The nonce is the decoding of the one block, the state keeps it and the
    /// witness, and the commitment is `nonce * G`.
    open spec fn spec_committed_from(
        &self,
        witness: Scalar<G>,
        blocks: Seq<Seq<u8>>,
        commitment: Seq<Seq<u8>>,
        state: (Scalar<G>, Scalar<G>),
    ) -> bool {
        &&& blocks.len() == 1
        &&& state.0.narg_bytes() == spec_decode_uniform::<G>(blocks[0])
        &&& state.1.narg_bytes() == witness.narg_bytes()
        &&& commitment == seq![G::spec_mul_generator(state.0.narg_bytes())]
    }

    /// An invalid witness is refused with `Error::InvalidInstanceWitnessPair`.
    open spec fn spec_witness_error(&self, witness: Scalar<G>) -> Error {
        Error::InvalidInstanceWitnessPair
    }

    /// The response is `nonce + challenge * witness`.
    open spec fn spec_prover_response(&self, state: (Scalar<G>, Scalar<G>), challenge: Seq<u8>) -> Result<Seq<Seq<u8>>, Error> {
        Ok(seq![G::spec_scalar_add(state.0.narg_bytes(), G::spec_scalar_mul(challenge, state.1.narg_bytes()))])
    }

    /// One commitment `R` and one response `s`, with
    /// `s * G == R + challenge * public`.
    open spec fn spec_verify_transcript(&self, commitment: Seq<Seq<u8>>, challenge: Seq<u8>, response: Seq<Seq<u8>>) -> bool {
        commitment.len() == 1 && response.len() == 1 && match G::spec_mul(self.public.narg_bytes(), challenge) {
            None => false,
            Some(scaled) => G::spec_add(commitment[0], scaled) == Some(G::spec_mul_generator(response[0])),
        }
    }

    /// Commits to `nonce * G` for a nonce sampled from `rng`, and keeps the
    /// nonce and the witness.
    fn prover_commit<R: CryptoRngCore>(&self, witness: &Scalar<G>, rng: &mut R) -> (r: Result<
        (Vec<GroupElement<G>>, (Scalar<G>, Scalar<G>)),
        Error,
    >)
        ensures
            !self.spec_witness_valid(*witness) ==> r == Err::<(Vec<GroupElement<G>>, (Scalar<G>, Scalar<G>)), Error>(
                Error::InvalidInstanceWitnessPair,
            ),
            r matches Ok((commitment, state)) ==> is_decoded_sample(state.0)
                && state.1.narg_bytes() == witness.narg_bytes()
                && commitment@.len() == 1
                && commitment@[0].narg_bytes() == G::spec_mul_generator(state.0.narg_bytes()),
    {
        let image = GroupElement::mul_generator(witness);
        if !image.narg_eq(&self.public) {
            return Err(Error::InvalidInstanceWitnessPair);
        }
        let ghost start = *rng;
        let nonce: Scalar<G> = sample_by_decoding::<G, R>(rng)?;
        proof {
            if start.spec_described() {
                let len = uniform_scalar_len(G::spec_scalar_num_bits());
                let block = start.spec_fill(len)->Some_0.1;
                assert(drawn_blocks(start, len, 0) == Some((start, Seq::<Seq<u8>>::empty())));
                assert(drawn_blocks(start, len, 1) == Some((*rng, seq![block])));
            }
        }
        proof {
            use_type_invariant(&nonce);
            use_type_invariant(witness);
        }
        let commitment = GroupElement::mul_generator(&nonce);
        let mut commitments: Vec<GroupElement<G>> = Vec::new();
        commitments.push(commitment);
        let kept = witness.clone();
        assert(narg_parts(commitments@) =~= seq![commitment.narg_bytes()]);
        Ok((commitments, (nonce, kept)))
    }

    fn prover_response(&self, state: (Scalar<G>, Scalar<G>), challenge: &Scalar<G>) -> (r: Result<
        Vec<Scalar<G>>,
        Error,
    >) {
        let (nonce, witness) = state;
        let response = Scalar::mul_add(&nonce, challenge, &witness);
        let mut responses: Vec<Scalar<G>> = Vec::new();
        responses.push(response);
        assert(narg_parts(responses@) =~= seq![response.narg_bytes()]);
        Ok(responses)
    }

    fn verify_transcript(
        &self,
        commitment: &[GroupElement<G>],
        challenge: &Scalar<G>,
        response: &[Scalar<G>],
    ) -> (r: Result<(), Error>) {
        if commitment.len() != 1 || response.len() != 1 {
            return Err(Error::VerificationFailure);
        }
        let scaled = match self.public.mul(challenge) {
            Some(e) => e,
            None => {
                return Err(Error::VerificationFailure);
            },
        };
        let rhs = match commitment[0].add(&scaled) {
            Some(e) => e,
            None => {
                return Err(Error::VerificationFailure);
            },
        };
        let lhs = GroupElement::mul_generator(&response[0]);
        if lhs.narg_eq(&rhs) {
            Ok(())
        } else {
            Err(Error::VerificationFailure)
        }
    }

    fn commitment_len(&self) -> (r: usize) {
        1
    }

    fn response_len(&self) -> (r: usize) {
        1
    }

    fn protocol_identifier(&self) -> (r: [u8; 64]) {
        let prefix: [u8; 26] = [
            115u8, 99u8, 104u8, 110u8, 111u8, 114u8, 114u8, 47u8, 100u8, 105u8, 115u8, 99u8, 114u8,
            101u8, 116u8, 101u8, 45u8, 108u8, 111u8, 103u8, 97u8, 114u8, 105u8, 116u8, 104u8, 109u8,
        ];
        let mut id = [0u8; 64];
        let mut i: usize = 0;
        while i < 26
            invariant
                i <= 26,
                id@.len() == 64,
                forall|j: int| 0 <= j < i ==> id@[j] == prefix@[j],
                forall|j: int| i <= j < 64 ==> id@[j] == 0u8,
            decreases 26 - i,
        {
            id[i] = prefix[i];
            i = i + 1;
        }
        assert(id@ =~= schnorr_protocol_id());
        id
    }

    fn instance_label(&self) -> (r: Vec<u8>) {
        self.public.to_narg_bytes()
    }
}

impl<G: PrimeGroup> SigmaProtocolSimulator for Schnorr<G> {
    /// The commitment `response * G - challenge * public`.
    open spec fn spec_simulate_commitment(&self, challenge: Seq<u8>, response: Seq<Seq<u8>>) -> Option<Seq<Seq<u8>>> {
        if response.len() != 1 {
            None
        } else {
            match G::spec_mul(self.public.narg_bytes(), G::spec_scalar_neg(challenge)) {
                None => None,
                Some(scaled) => match G::spec_add(G::spec_mul_generator(response[0]), scaled) {
                    None => None,
                    Some(commitment) => Some(seq![commitment]),
                },
            }
        }
    }

    /// One sampled scalar.
    fn simulate_response<R: CryptoRngCore>(&self, rng: &mut R) -> (r: Result<Vec<Scalar<G>>, Error>)
        ensures
            r matches Ok(v) ==> v@.len() == 1 && is_decoded_sample(v@[0]),
    {
        let mut responses: Vec<Scalar<G>> = Vec::new();
        responses.push(sample_by_decoding::<G, R>(rng)?);
        Ok(responses)
    }

    /// Fails with `Error::VerificationFailure` when the commitment cannot be
    /// recomputed.
    fn simulate_commitment(&self, challenge: &Scalar<G>, response: &[Scalar<G>]) -> (r: Result<
        Vec<GroupElement<G>>,
        Error,
    >)
        ensures
            r matches Err(e) ==> e == Error::VerificationFailure,
    {
        if response.len() != 1 {
            return Err(Error::VerificationFailure);
        }
        let scaled = match self.public.mul(&challenge.neg()) {
            Some(e) => e,
            None => {
                return Err(Error::VerificationFailure);
            },
        };
        let base = GroupElement::mul_generator(&response[0]);
        let commitment = match base.add(&scaled) {
            Some(e) => e,
            None => {
                return Err(Error::VerificationFailure);
            },
        };
        let mut commitments: Vec<GroupElement<G>> = Vec::new();
        commitments.push(commitment);
        assert(narg_parts(commitments@) =~= seq![commitment.narg_bytes()]);
        Ok(commitments)
    }

    /// A sampled challenge and response, and the commitment that
    /// `simulate_commitment` recomputes from them.
    fn simulate_transcript<R: CryptoRngCore>(&self, rng: &mut R) -> (r: Result<Transcript<Self>, Error>)
        ensures
            r matches Ok((commitment, challenge, response)) ==> is_decoded_sample(challenge)
                && response@.len() == 1
                && is_decoded_sample(response@[0])
                && self.spec_simulate_commitment(challenge.narg_bytes(), narg_parts(response@))
                == Some(narg_parts(commitment@)),
            r matches Err(e) ==> e == Error::RandomnessUnavailable || (e == Error::VerificationFailure
                && exists|challenge: Scalar<G>, response: Scalar<G>|
                is_decoded_sample(challenge) && is_decoded_sample(response)
                && #[trigger] self.spec_simulate_commitment(
                    challenge.narg_bytes(),
                    seq![response.narg_bytes()],
                ) is None),
    {
        let challenge: Scalar<G> = sample_by_decoding::<G, R>(rng)?;
        let response = self.simulate_response(rng)?;
        proof {
            assert(narg_parts(response@) =~= seq![response@[0].narg_bytes()]);
        }
        match self.simulate_commitment(&challenge, response.as_slice()) {
            Ok(commitment) => Ok((commitment, challenge, response)),
            Err(e) => {
                proof {
                    let witness_response = response@[0];
                    assert(self.spec_simulate_commitment(
                        challenge.narg_bytes(),
                        seq![witness_response.narg_bytes()],
                    ) is None);
                }
                Err(e)
            },
        }
    }
}

/// The laws of the group's points that the completeness of the Schnorr
/// protocol rests on, for canonical scalar representations `k`, `c` and `x`:
/// multiplying the generator is a homomorphism, so that
/// `(k + c * x) * G == k * G + c * (x * G)` and
/// `(k + c * x) * G + (-c) * (x * G) == k * G`.
///
/// The point arithmetic is computed by the group's crate and named, not
/// described, so these laws are hypotheses of the lemmas below; the scalar
/// arithmetic is described exactly and its laws are proved.
pub open spec fn schnorr_group_laws<G: PrimeGroup>() -> bool {
    forall|k: Seq<u8>, c: Seq<u8>, x: Seq<u8>|
        is_scalar_repr::<G>(k) && is_scalar_repr::<G>(c) && is_scalar_repr::<G>(x) ==> {
            let s = #[trigger] G::spec_scalar_add(k, G::spec_scalar_mul(c, x));
            &&& G::spec_mul(G::spec_mul_generator(x), c) matches Some(p)
                && G::spec_add(G::spec_mul_generator(k), p) == Some(G::spec_mul_generator(s))
            &&& G::spec_mul(G::spec_mul_generator(x), G::spec_scalar_neg(c)) matches Some(q)
                && G::spec_add(G::spec_mul_generator(s), q) == Some(G::spec_mul_generator(k))
        }
}

/// Completeness of batchable Schnorr proofs: in a group that obeys
/// `schnorr_group_laws`, when the prover committed on a valid witness (as
/// `prover_commit` does) and the commitment element reads back from its
/// bytes, proving succeeds and the proof is accepted.
pub proof fn lemma_schnorr_batchable_proof_verifies<G: PrimeGroup, H: DuplexSpongeInterface>(
    nizk: Nizk<Schnorr<G>, ByteSchnorrCodec<G, H>>,
    witness: Scalar<G>,
    commitment: Seq<Seq<u8>>,
    state: (Scalar<G>, Scalar<G>),
)
    requires
        schnorr_group_laws::<G>(),
        nizk.interactive_proof.spec_witness_valid(witness),
        nizk.interactive_proof.spec_committed(witness, commitment, state),
        reads_back::<GroupElement<G>>(commitment[0]),
    ensures
        nizk.batchable_outcome(commitment, state) matches Ok(proof) && nizk.batchable_accepts(proof),
{
    let k = state.0.narg_bytes();
    let x = state.1.narg_bytes();
    let c = nizk.spec_challenge(concat_bytes(commitment));
    let s = G::spec_scalar_add(k, G::spec_scalar_mul(c, x));
    lemma_challenge_is_canonical(nizk, concat_bytes(commitment));
    G::lemma_scalar_ops_canonical(c, x);
    G::lemma_scalar_ops_canonical(k, G::spec_scalar_mul(c, x));
    lemma_scalar_reads_back::<G>(s);
    let response = seq![s];
    assert(nizk.interactive_proof.spec_prover_response(state, c) == Ok::<Seq<Seq<u8>>, Error>(response));
    assert(forall|i: int| 0 <= i < response.len() ==> reads_back::<Scalar<G>>(#[trigger] response[i]));
    assert(forall|i: int| 0 <= i < commitment.len() ==> reads_back::<GroupElement<G>>(#[trigger] commitment[i]));
    lemma_honest_batchable_proof_verifies(nizk, commitment, state);
}

/// Completeness of compact Schnorr proofs: in a group that obeys
/// `schnorr_group_laws`, when the prover committed on a valid witness (as
/// `prover_commit` does), proving succeeds and the proof is accepted.
pub proof fn lemma_schnorr_compact_proof_verifies<G: PrimeGroup, H: DuplexSpongeInterface>(
    nizk: Nizk<Schnorr<G>, ByteSchnorrCodec<G, H>>,
    witness: Scalar<G>,
    commitment: Seq<Seq<u8>>,
    state: (Scalar<G>, Scalar<G>),
)
    requires
        schnorr_group_laws::<G>(),
        nizk.interactive_proof.spec_witness_valid(witness),
        nizk.interactive_proof.spec_committed(witness, commitment, state),
    ensures
        nizk.compact_outcome(commitment, state) matches Ok(proof) && nizk.compact_accepts(proof),
{
    let k = state.0.narg_bytes();
    let x = state.1.narg_bytes();
    let c = nizk.spec_challenge(concat_bytes(commitment));
    let s = G::spec_scalar_add(k, G::spec_scalar_mul(c, x));
    lemma_challenge_is_canonical(nizk, concat_bytes(commitment));
    G::lemma_scalar_ops_canonical(c, x);
    G::lemma_scalar_ops_canonical(k, G::spec_scalar_mul(c, x));
    lemma_scalar_reads_back::<G>(s);
    lemma_scalar_reads_back::<G>(c);
    let response = seq![s];
    assert(nizk.interactive_proof.spec_prover_response(state, c) == Ok::<Seq<Seq<u8>>, Error>(response));
    assert(forall|i: int| 0 <= i < response.len() ==> reads_back::<Scalar<G>>(#[trigger] response[i]));
    lemma_honest_compact_proof_verifies(nizk, commitment, state);
}

/// The challenges that `ByteSchnorrCodec` derives are canonical scalars: they
/// come from the group's uniform map.
proof fn lemma_challenge_is_canonical<G: PrimeGroup, H: DuplexSpongeInterface>(
    nizk: Nizk<Schnorr<G>, ByteSchnorrCodec<G, H>>,
    commitment_bytes: Seq<u8>,
)
    ensures
        is_scalar_repr::<G>(nizk.spec_challenge(commitment_bytes)),
{
    let state = ByteSchnorrCodec::<G, H>::spec_prover_message(
        ByteSchnorrCodec::<G, H>::spec_new(
            nizk.interactive_proof.spec_protocol_identifier(),
            nizk.session_id@,
            nizk.interactive_proof.spec_instance_label(),
        ),
        commitment_bytes,
    );
    let squeezed = H::spec_squeeze(state, uniform_scalar_len(G::spec_scalar_num_bits())).1;
    let wide = pad_left(squeezed, G::spec_wide_repr_len());
    G::lemma_scalar_from_wide_canonical(wide);
}

/// Schnorr proofs are determined by what the random source delivers: two
/// commitments made on the same witness from the same drawn blocks give the
/// same batchable proof and the same compact proof (or the same error). So
/// proving twice from a described source in the same state gives the same
/// result.
pub proof fn lemma_schnorr_proofs_are_determined_by_the_source<G: PrimeGroup, C: Codec<Challenge = Scalar<G>>>(
    nizk: Nizk<Schnorr<G>, C>,
    witness: Scalar<G>,
    blocks: Seq<Seq<u8>>,
    commitment1: Seq<Seq<u8>>,
    state1: (Scalar<G>, Scalar<G>),
    commitment2: Seq<Seq<u8>>,
    state2: (Scalar<G>, Scalar<G>),
)
    requires
        nizk.interactive_proof.spec_committed_from(witness, blocks, commitment1, state1),
        nizk.interactive_proof.spec_committed_from(witness, blocks, commitment2, state2),
    ensures
        commitment1 == commitment2,
        nizk.batchable_outcome(commitment1, state1) == nizk.batchable_outcome(commitment2, state2),
        nizk.compact_outcome(commitment1, state1) == nizk.compact_outcome(commitment2, state2),
{
}

} // verus!
