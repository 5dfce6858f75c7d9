//! The Fiat-Shamir transformation of Sigma protocols into non-interactive
//! proofs.
//!
//! `Nizk` wraps an interactive Sigma protocol and a codec; the codec derives
//! the verifier's challenge from the protocol's identifiers and the prover's
//! commitment.

use core::marker::PhantomData;
use vstd::prelude::*;
use crate::codec::Codec;
use crate::errors::Error;
use crate::group::serialization::{
    concat_bytes, deserialize_messages, lemma_read_messages_of_concat, narg_parts, read_messages,
    reads_back, serialize_messages, serialize_messages_into, NargMessage,
};
use crate::rng::{drawn_blocks, CryptoRngCore};
use crate::traits::{SigmaProtocol, SigmaProtocolSimulator};

verus! {

/// The bytes of a successful result, or its error.
pub open spec fn bytes_result(r: Result<Vec<u8>, Error>) -> Result<Seq<u8>, Error> {
    match r {
        Ok(v) => Ok(v@),
        Err(e) => Err(e),
    }
}

/// A non-interactive proof system obtained from the Sigma protocol `P` by the
/// Fiat-Shamir transformation with the codec `C`.
pub struct Nizk<P: SigmaProtocol, C: Codec> {
    /// The session identifier that domain-separates the proofs.
    pub session_id: Vec<u8>,
    /// The underlying interactive proof.
    pub interactive_proof: P,
    /// Marks the codec that the proof system uses.
    pub _phantom: PhantomData<C>,
}

impl<P: SigmaProtocol, C: Codec<Challenge = P::Challenge>> Nizk<P, C> {
    /// Constructs a proof system for `interactive_proof` in the session
    /// `session_identifier`.
    pub fn new(session_identifier: &[u8], interactive_proof: P) -> (r: Self)
        ensures
            r.session_id@ == session_identifier@,
            r.interactive_proof == interactive_proof,
    {
        Nizk {
            session_id: vstd::slice::slice_to_vec(session_identifier),
            interactive_proof,
            _phantom: PhantomData,
        }
    }

    /// The NARG bytes of the challenge that the codec derives for a
    /// commitment serialized as `commitment_bytes`.
    pub open spec fn spec_challenge(&self, commitment_bytes: Seq<u8>) -> Seq<u8> {
        C::spec_verifier_challenge(
            C::spec_prover_message(
                C::spec_new(
                    self.interactive_proof.spec_protocol_identifier(),
                    self.session_id@,
                    self.interactive_proof.spec_instance_label(),
                ),
                commitment_bytes,
            ),
        ).1
    }

    /// What proving gives once the protocol committed to `commitment` (NARG
    /// bytes of each message) keeping `state`: the serialized commitment
    /// followed by the serialized response to the challenge derived from it,
    /// or the error the response fails with.
    pub open spec fn batchable_outcome(&self, commitment: Seq<Seq<u8>>, state: P::ProverState) -> Result<Seq<u8>, Error> {
        match self.interactive_proof.spec_prover_response(state, self.spec_challenge(concat_bytes(commitment))) {
            Ok(response) => Ok(concat_bytes(commitment) + concat_bytes(response)),
            Err(e) => Err(e),
        }
    }

    /// Whether `proof` is made of `commitment_len()` commitments followed by
    /// `response_len()` responses, and of nothing more.
    pub open spec fn batchable_well_formed(&self, proof: Seq<u8>) -> bool {
        match read_messages::<P::Commitment>(self.interactive_proof.spec_commitment_len(), proof) {
            None => false,
            Some((commitment, used)) => match read_messages::<P::Response>(
                self.interactive_proof.spec_response_len(),
                proof.skip(used as int),
            ) {
                None => false,
                Some((response, rest_used)) => used + rest_used == proof.len(),
            },
        }
    }

    /// Whether `proof` is a batchable proof that verifies: it is well formed,
    /// and the protocol accepts its commitment and response with the challenge
    /// that the codec derives from the commitment.
    pub open spec fn batchable_accepts(&self, proof: Seq<u8>) -> bool {
        match read_messages::<P::Commitment>(self.interactive_proof.spec_commitment_len(), proof) {
            None => false,
            Some((commitment, used)) => match read_messages::<P::Response>(
                self.interactive_proof.spec_response_len(),
                proof.skip(used as int),
            ) {
                None => false,
                Some((response, rest_used)) => used + rest_used == proof.len()
                    && self.interactive_proof.spec_verify_transcript(
                    commitment,
                    self.spec_challenge(concat_bytes(commitment)),
                    response,
                ),
            },
        }
    }

    /// Generates a batchable proof: the serialized commitment followed by the
    /// serialized response to the challenge derived from that commitment.
    ///
    /// Fails with the protocol's error when the witness is not valid, with
    /// `Error::RandomnessUnavailable` when the random source fails, and with
    /// the protocol's error when its response fails. With a valid witness and
    /// a source that never fails, it gives the outcome of one commitment.
    pub fn prove_batchable<R: CryptoRngCore>(&self, witness: &P::Witness, rng: &mut R) -> (r: Result<Vec<u8>, Error>)
        ensures
            !self.interactive_proof.spec_witness_valid(*witness)
                ==> bytes_result(r) == Err::<Seq<u8>, Error>(self.interactive_proof.spec_witness_error(*witness)),
            self.interactive_proof.spec_witness_valid(*witness) ==> bytes_result(r) == Err::<Seq<u8>, Error>(Error::RandomnessUnavailable)
                || exists|commitment: Seq<P::Commitment>, state: P::ProverState|
                commitment.len() == self.interactive_proof.spec_commitment_len()
                && self.interactive_proof.spec_committed(*witness, narg_parts(commitment), state)
                && bytes_result(r) == #[trigger] self.batchable_outcome(narg_parts(commitment), state),
            self.interactive_proof.spec_witness_valid(*witness) && old(rng).spec_never_fails()
                ==> exists|commitment: Seq<P::Commitment>, state: P::ProverState|
                commitment.len() == self.interactive_proof.spec_commitment_len()
                && self.interactive_proof.spec_committed(*witness, narg_parts(commitment), state)
                && bytes_result(r) == #[trigger] self.batchable_outcome(narg_parts(commitment), state),
            self.interactive_proof.spec_witness_valid(*witness) && old(rng).spec_described() ==> match drawn_blocks(
                *old(rng),
                self.interactive_proof.spec_commit_draws().1,
                self.interactive_proof.spec_commit_draws().0,
            ) {
                Some((next, blocks)) => *final(rng) == next
                    && exists|commitment: Seq<P::Commitment>, state: P::ProverState|
                    commitment.len() == self.interactive_proof.spec_commitment_len()
                    && self.interactive_proof.spec_committed_from(*witness, blocks, narg_parts(commitment), state)
                    && bytes_result(r) == #[trigger] self.batchable_outcome(narg_parts(commitment), state),
                None => bytes_result(r) == Err::<Seq<u8>, Error>(Error::RandomnessUnavailable),
            },
    {
        let (commitment, ip_state) = self.interactive_proof.prover_commit(witness, rng)?;
        self.prove_batchable_from_commitment(commitment, ip_state)
    }

    /// The batchable proof for a commitment and prover state that the
    /// protocol produced: derives the challenge from the commitment, asks the
    /// protocol for its response, and serializes commitment and response.
    pub fn prove_batchable_from_commitment(&self, commitment: Vec<P::Commitment>, state: P::ProverState) -> (r: Result<Vec<u8>, Error>)
        ensures
            bytes_result(r) == self.batchable_outcome(narg_parts(commitment@), state),
    {
        let protocol_id = self.interactive_proof.protocol_identifier();
        let instance_label = self.interactive_proof.instance_label();
        let commitment_bytes = serialize_messages(commitment.as_slice());
        let mut codec = C::new(&protocol_id, self.session_id.as_slice(), instance_label.as_slice());
        codec.prover_message(commitment_bytes.as_slice());
        let challenge = codec.verifier_challenge();
        let response = self.interactive_proof.prover_response(state, &challenge)?;
        let mut proof = commitment_bytes;
        serialize_messages_into(response.as_slice(), &mut proof);
        Ok(proof)
    }

    /// Verifies a batchable proof.
    ///
    /// Succeeds exactly when the proof is made of the expected commitments and
    /// responses and the protocol accepts them with the challenge the codec
    /// derives from the commitment; fails with `Error::VerificationFailure`
    /// otherwise.
    pub fn verify_batchable(&self, narg_string: &[u8]) -> (r: Result<(), Error>)
        ensures
            r == if self.batchable_accepts(narg_string@) {
                Ok::<(), Error>(())
            } else {
                Err::<(), Error>(Error::VerificationFailure)
            },
    {
        let protocol_id = self.interactive_proof.protocol_identifier();
        let instance_label = self.interactive_proof.instance_label();
        let commitment_len = self.interactive_proof.commitment_len();
        let response_len = self.interactive_proof.response_len();
        let mut cursor = narg_string;
        let commitment = deserialize_messages::<P::Commitment>(commitment_len, &mut cursor)?;
        let commitment_bytes = serialize_messages(commitment.as_slice());
        let mut codec = C::new(&protocol_id, self.session_id.as_slice(), instance_label.as_slice());
        codec.prover_message(commitment_bytes.as_slice());
        let challenge = codec.verifier_challenge();
        let response = deserialize_messages::<P::Response>(response_len, &mut cursor)?;
        if !cursor.is_empty() {
            return Err(Error::VerificationFailure);
        }
        match self.interactive_proof.verify_transcript(commitment.as_slice(), &challenge, response.as_slice()) {
            Ok(()) => Ok(()),
            Err(_) => Err(Error::VerificationFailure),
        }
    }
}

impl<P: SigmaProtocolSimulator, C: Codec<Challenge = P::Challenge>> Nizk<P, C> {
    /// Whether `proof` is made of a challenge followed by `response_len()`
    /// responses, and of nothing more.
    pub open spec fn compact_well_formed(&self, proof: Seq<u8>) -> bool {
        match P::Challenge::narg_read(proof) {
            None => false,
            Some((challenge, used)) => match read_messages::<P::Response>(
                self.interactive_proof.spec_response_len(),
                proof.skip(used as int),
            ) {
                None => false,
                Some((response, rest_used)) => used + rest_used == proof.len(),
            },
        }
    }

    /// Whether `proof` is a compact proof that verifies: it is well formed,
    /// the simulator recomputes a commitment from its challenge and response,
    /// and the codec derives that same challenge from that commitment.
    pub open spec fn compact_accepts(&self, proof: Seq<u8>) -> bool {
        match P::Challenge::narg_read(proof) {
            None => false,
            Some((challenge, used)) => match read_messages::<P::Response>(
                self.interactive_proof.spec_response_len(),
                proof.skip(used as int),
            ) {
                None => false,
                Some((response, rest_used)) => used + rest_used == proof.len()
                    && match self.interactive_proof.spec_simulate_commitment(challenge, response) {
                    None => false,
                    Some(commitment) => self.spec_challenge(concat_bytes(commitment)) == challenge,
                },
            },
        }
    }

    /// What compact proving gives once the protocol committed to
    /// `commitment` keeping `state`: the serialized challenge derived from the
    /// commitment followed by the serialized response, or the error the
    /// response fails with.
    pub open spec fn compact_outcome(&self, commitment: Seq<Seq<u8>>, state: P::ProverState) -> Result<Seq<u8>, Error> {
        let challenge = self.spec_challenge(concat_bytes(commitment));
        match self.interactive_proof.spec_prover_response(state, challenge) {
            Ok(response) => Ok(challenge + concat_bytes(response)),
            Err(e) => Err(e),
        }
    }

    /// Generates a compact proof: the serialized challenge followed by the
    /// serialized response.
    ///
    /// Fails as `prove_batchable` does.
    pub fn prove_compact<R: CryptoRngCore>(&self, witness: &P::Witness, rng: &mut R) -> (r: Result<Vec<u8>, Error>)
        ensures
            !self.interactive_proof.spec_witness_valid(*witness)
                ==> bytes_result(r) == Err::<Seq<u8>, Error>(self.interactive_proof.spec_witness_error(*witness)),
            self.interactive_proof.spec_witness_valid(*witness) ==> bytes_result(r) == Err::<Seq<u8>, Error>(Error::RandomnessUnavailable)
                || exists|commitment: Seq<P::Commitment>, state: P::ProverState|
                commitment.len() == self.interactive_proof.spec_commitment_len()
                && self.interactive_proof.spec_committed(*witness, narg_parts(commitment), state)
                && bytes_result(r) == #[trigger] self.compact_outcome(narg_parts(commitment), state),
            self.interactive_proof.spec_witness_valid(*witness) && old(rng).spec_never_fails()
                ==> exists|commitment: Seq<P::Commitment>, state: P::ProverState|
                commitment.len() == self.interactive_proof.spec_commitment_len()
                && self.interactive_proof.spec_committed(*witness, narg_parts(commitment), state)
                && bytes_result(r) == #[trigger] self.compact_outcome(narg_parts(commitment), state),
            self.interactive_proof.spec_witness_valid(*witness) && old(rng).spec_described() ==> match drawn_blocks(
                *old(rng),
                self.interactive_proof.spec_commit_draws().1,
                self.interactive_proof.spec_commit_draws().0,
            ) {
                Some((next, blocks)) => *final(rng) == next
                    && exists|commitment: Seq<P::Commitment>, state: P::ProverState|
                    commitment.len() == self.interactive_proof.spec_commitment_len()
                    && self.interactive_proof.spec_committed_from(*witness, blocks, narg_parts(commitment), state)
                    && bytes_result(r) == #[trigger] self.compact_outcome(narg_parts(commitment), state),
                None => bytes_result(r) == Err::<Seq<u8>, Error>(Error::RandomnessUnavailable),
            },
    {
        let (commitment, ip_state) = self.interactive_proof.prover_commit(witness, rng)?;
        self.prove_compact_from_commitment(commitment, ip_state)
    }

    /// The compact proof for a commitment and prover state that the protocol
    /// produced: derives the challenge from the commitment, asks the protocol
    /// for its response, and serializes challenge and response.
    pub fn prove_compact_from_commitment(&self, commitment: Vec<P::Commitment>, state: P::ProverState) -> (r: Result<Vec<u8>, Error>)
        ensures
            bytes_result(r) == self.compact_outcome(narg_parts(commitment@), state),
    {
        let protocol_id = self.interactive_proof.protocol_identifier();
        let instance_label = self.interactive_proof.instance_label();
        let commitment_bytes = serialize_messages(commitment.as_slice());
        let mut codec = C::new(&protocol_id, self.session_id.as_slice(), instance_label.as_slice());
        codec.prover_message(commitment_bytes.as_slice());
        let challenge = codec.verifier_challenge();
        let response = self.interactive_proof.prover_response(state, &challenge)?;
        let mut proof: Vec<u8> = Vec::new();
        challenge.serialize_into_narg(&mut proof);
        serialize_messages_into(response.as_slice(), &mut proof);
        Ok(proof)
    }

    /// Verifies a compact proof.
    ///
    /// Succeeds exactly when the proof is made of a challenge and the
    /// expected responses, the simulator recomputes a commitment from them,
    /// and the codec derives that challenge from that commitment; fails with
    /// `Error::VerificationFailure` otherwise.
    pub fn verify_compact(&self, proof: &[u8]) -> (r: Result<(), Error>)
        ensures
            r == if self.compact_accepts(proof@) {
                Ok::<(), Error>(())
            } else {
                Err::<(), Error>(Error::VerificationFailure)
            },
    {
        let mut cursor = proof;
        let protocol_id = self.interactive_proof.protocol_identifier();
        let instance_label = self.interactive_proof.instance_label();
        let challenge = match P::Challenge::deserialize_from_narg(cursor) {
            Some((challenge, n)) => {
                cursor = &cursor[n..cursor.len()];
                challenge
            },
            None => {
                return Err(Error::VerificationFailure);
            },
        };
        let response_len = self.interactive_proof.response_len();
        let response = deserialize_messages::<P::Response>(response_len, &mut cursor)?;
        if !cursor.is_empty() {
            return Err(Error::VerificationFailure);
        }
        let commitment = match self.interactive_proof.simulate_commitment(&challenge, response.as_slice()) {
            Ok(commitment) => commitment,
            Err(_) => {
                return Err(Error::VerificationFailure);
            },
        };
        let commitment_bytes = serialize_messages(commitment.as_slice());
        let mut codec = C::new(&protocol_id, self.session_id.as_slice(), instance_label.as_slice());
        codec.prover_message(commitment_bytes.as_slice());
        let recomputed_challenge = codec.verifier_challenge();
        if !challenge.narg_eq(&recomputed_challenge) {
            return Err(Error::VerificationFailure);
        }
        Ok(())
    }
}

/// Completeness of batchable proofs: the serialized commitment followed by
/// the serialized response is accepted exactly when the protocol accepts the
/// commitment and response with the challenge that the codec derives from
/// the commitment, provided the counts are right and each message reads back
/// from its own bytes.
pub proof fn lemma_batchable_completeness<P: SigmaProtocol, C: Codec<Challenge = P::Challenge>>(
    nizk: Nizk<P, C>,
    commitment: Seq<Seq<u8>>,
    response: Seq<Seq<u8>>,
)
    requires
        commitment.len() == nizk.interactive_proof.spec_commitment_len(),
        response.len() == nizk.interactive_proof.spec_response_len(),
        forall|i: int| 0 <= i < commitment.len() ==> reads_back::<P::Commitment>(#[trigger] commitment[i]),
        forall|i: int| 0 <= i < response.len() ==> reads_back::<P::Response>(#[trigger] response[i]),
    ensures
        nizk.batchable_well_formed(concat_bytes(commitment) + concat_bytes(response)),
        nizk.batchable_accepts(concat_bytes(commitment) + concat_bytes(response))
            == nizk.interactive_proof.spec_verify_transcript(
            commitment,
            nizk.spec_challenge(concat_bytes(commitment)),
            response,
        ),
{
    let proof = concat_bytes(commitment) + concat_bytes(response);
    lemma_read_messages_of_concat::<P::Commitment>(commitment, concat_bytes(response));
    let used = concat_bytes(commitment).len();
    assert(proof.skip(used as int) =~= concat_bytes(response) + seq![]);
    lemma_read_messages_of_concat::<P::Response>(response, seq![]);
}

/// Completeness of compact proofs: a serialized challenge followed by a
/// serialized response is accepted exactly when the simulator recomputes a
/// commitment from them from which the codec derives that same challenge,
/// provided the count is right and each message reads back from its own
/// bytes.
pub proof fn lemma_compact_completeness<P: SigmaProtocolSimulator, C: Codec<Challenge = P::Challenge>>(
    nizk: Nizk<P, C>,
    challenge: Seq<u8>,
    response: Seq<Seq<u8>>,
)
    requires
        response.len() == nizk.interactive_proof.spec_response_len(),
        reads_back::<P::Challenge>(challenge),
        forall|i: int| 0 <= i < response.len() ==> reads_back::<P::Response>(#[trigger] response[i]),
    ensures
        nizk.compact_well_formed(challenge + concat_bytes(response)),
        nizk.compact_accepts(challenge + concat_bytes(response))
            == match nizk.interactive_proof.spec_simulate_commitment(challenge, response) {
            None => false,
            Some(commitment) => nizk.spec_challenge(concat_bytes(commitment)) == challenge,
        },
{
    let proof = challenge + concat_bytes(response);
    assert(P::Challenge::narg_read(proof) == Some((challenge, challenge.len())));
    assert(proof.skip(challenge.len() as int) =~= concat_bytes(response) + seq![]);
    lemma_read_messages_of_concat::<P::Response>(response, seq![]);
}

/// Honest batchable proofs verify: when the protocol committed to
/// `commitment` keeping `state`, its response to the derived challenge is
/// accepted by its verifier, the counts are right and every message reads
/// back from its own bytes, proving succeeds and the proof is accepted.
pub proof fn lemma_honest_batchable_proof_verifies<P: SigmaProtocol, C: Codec<Challenge = P::Challenge>>(
    nizk: Nizk<P, C>,
    commitment: Seq<Seq<u8>>,
    state: P::ProverState,
)
    requires
        commitment.len() == nizk.interactive_proof.spec_commitment_len(),
        forall|i: int| 0 <= i < commitment.len() ==> reads_back::<P::Commitment>(#[trigger] commitment[i]),
        nizk.interactive_proof.spec_prover_response(state, nizk.spec_challenge(concat_bytes(commitment)))
            matches Ok(response)
            && response.len() == nizk.interactive_proof.spec_response_len()
            && (forall|i: int| 0 <= i < response.len() ==> reads_back::<P::Response>(#[trigger] response[i]))
            && nizk.interactive_proof.spec_verify_transcript(
            commitment,
            nizk.spec_challenge(concat_bytes(commitment)),
            response,
        ),
    ensures
        nizk.batchable_outcome(commitment, state) matches Ok(proof) && nizk.batchable_accepts(proof),
{
    let response = nizk.interactive_proof.spec_prover_response(
        state,
        nizk.spec_challenge(concat_bytes(commitment)),
    )->Ok_0;
    lemma_batchable_completeness(nizk, commitment, response);
}

/// Honest compact proofs verify: when the protocol committed to `commitment`
/// keeping `state`, the simulator recomputes that commitment from the derived
/// challenge and the response, the count is right and every message reads
/// back from its own bytes, proving succeeds and the proof is accepted.
pub proof fn lemma_honest_compact_proof_verifies<P: SigmaProtocolSimulator, C: Codec<Challenge = P::Challenge>>(
    nizk: Nizk<P, C>,
    commitment: Seq<Seq<u8>>,
    state: P::ProverState,
)
    requires
        reads_back::<P::Challenge>(nizk.spec_challenge(concat_bytes(commitment))),
        nizk.interactive_proof.spec_prover_response(state, nizk.spec_challenge(concat_bytes(commitment)))
            matches Ok(response)
            && response.len() == nizk.interactive_proof.spec_response_len()
            && (forall|i: int| 0 <= i < response.len() ==> reads_back::<P::Response>(#[trigger] response[i]))
            && nizk.interactive_proof.spec_simulate_commitment(
            nizk.spec_challenge(concat_bytes(commitment)),
            response,
        ) == Some(commitment),
    ensures
        nizk.compact_outcome(commitment, state) matches Ok(proof) && nizk.compact_accepts(proof),
{
    let challenge = nizk.spec_challenge(concat_bytes(commitment));
    let response = nizk.interactive_proof.spec_prover_response(state, challenge)->Ok_0;
    lemma_compact_completeness(nizk, challenge, response);
}

/// The two proof forms share their response: from one commitment and prover
/// state, batchable and compact proving both succeed or both fail with the
/// same error, and on success the batchable proof is the serialized
/// commitment and the compact proof the serialized challenge, each followed
/// by the same serialized response.
pub proof fn lemma_proof_forms_share_response<P: SigmaProtocolSimulator, C: Codec<Challenge = P::Challenge>>(
    nizk: Nizk<P, C>,
    commitment: Seq<Seq<u8>>,
    state: P::ProverState,
)
    ensures
        match (nizk.batchable_outcome(commitment, state), nizk.compact_outcome(commitment, state)) {
            (Ok(batchable), Ok(compact)) => {
                let commitment_bytes = concat_bytes(commitment);
                let challenge = nizk.spec_challenge(commitment_bytes);
                &&& batchable.take(commitment_bytes.len() as int) == commitment_bytes
                &&& compact.take(challenge.len() as int) == challenge
                &&& batchable.skip(commitment_bytes.len() as int) == compact.skip(challenge.len() as int)
            },
            (Err(e1), Err(e2)) => e1 == e2,
            _ => false,
        },
{
    let commitment_bytes = concat_bytes(commitment);
    let challenge = nizk.spec_challenge(commitment_bytes);
    if let Ok(response) = nizk.interactive_proof.spec_prover_response(state, challenge) {
        let r = concat_bytes(response);
        assert((commitment_bytes + r).take(commitment_bytes.len() as int) =~= commitment_bytes);
        assert((commitment_bytes + r).skip(commitment_bytes.len() as int) =~= r);
        assert((challenge + r).take(challenge.len() as int) =~= challenge);
        assert((challenge + r).skip(challenge.len() as int) =~= r);
    }
}

/// Verification is deterministic: two proof systems with the same session,
/// and protocols that agree on identifier, label, counts and verdicts, give
/// the same verdict on every batchable proof.
pub proof fn lemma_batchable_verdict_is_determined<P: SigmaProtocol, C: Codec<Challenge = P::Challenge>>(
    n1: Nizk<P, C>,
    n2: Nizk<P, C>,
    proof: Seq<u8>,
)
    requires
        n1.session_id@ == n2.session_id@,
        n1.interactive_proof.spec_protocol_identifier() == n2.interactive_proof.spec_protocol_identifier(),
        n1.interactive_proof.spec_instance_label() == n2.interactive_proof.spec_instance_label(),
        n1.interactive_proof.spec_commitment_len() == n2.interactive_proof.spec_commitment_len(),
        n1.interactive_proof.spec_response_len() == n2.interactive_proof.spec_response_len(),
        forall|c: Seq<Seq<u8>>, ch: Seq<u8>, r: Seq<Seq<u8>>|
            #[trigger] n1.interactive_proof.spec_verify_transcript(c, ch, r)
                == n2.interactive_proof.spec_verify_transcript(c, ch, r),
    ensures
        n1.batchable_accepts(proof) == n2.batchable_accepts(proof),
{
}

/// Verification is deterministic: two proof systems with the same session,
/// and simulators that agree on identifier, label, counts and recomputed
/// commitments, give the same verdict on every compact proof.
pub proof fn lemma_compact_verdict_is_determined<P: SigmaProtocolSimulator, C: Codec<Challenge = P::Challenge>>(
    n1: Nizk<P, C>,
    n2: Nizk<P, C>,
    proof: Seq<u8>,
)
    requires
        n1.session_id@ == n2.session_id@,
        n1.interactive_proof.spec_protocol_identifier() == n2.interactive_proof.spec_protocol_identifier(),
        n1.interactive_proof.spec_instance_label() == n2.interactive_proof.spec_instance_label(),
        n1.interactive_proof.spec_response_len() == n2.interactive_proof.spec_response_len(),
        forall|ch: Seq<u8>, r: Seq<Seq<u8>>|
            #[trigger] n1.interactive_proof.spec_simulate_commitment(ch, r)
                == n2.interactive_proof.spec_simulate_commitment(ch, r),
    ensures
        n1.compact_accepts(proof) == n2.compact_accepts(proof),
{
}

} // verus!
