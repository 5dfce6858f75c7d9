//! The interface of an interactive Sigma protocol, which `Nizk` compiles into
//! a non-interactive proof.

use vstd::prelude::*;
use crate::errors::Error;
use crate::group::serialization::{narg_parts, NargMessage};
use crate::rng::{drawn_blocks, CryptoRngCore};

verus! {

/// An interactive Sigma protocol: the prover commits, the verifier sends a
/// challenge, the prover responds, and the verifier checks the transcript.
///
/// Messages are identified by their NARG bytes; the verifier's decision is
/// the spec function `spec_verify_transcript` of the transcript.
pub trait SigmaProtocol: Sized {
    /// A prover's first message.
    type Commitment: NargMessage;
    /// What the prover keeps between its commitment and its response.
    type ProverState;
    /// A prover's second message.
    type Response: NargMessage;
    /// The secret that the prover knows.
    type Witness;
    /// The verifier's message.
    type Challenge: NargMessage;

    /// The 64-byte identifier of the protocol.
    spec fn spec_protocol_identifier(&self) -> Seq<u8>;

    /// The label of the instance being proven.
    spec fn spec_instance_label(&self) -> Seq<u8>;

    /// The number of commitment messages.
    spec fn spec_commitment_len(&self) -> nat;

    /// The number of response messages.
    spec fn spec_response_len(&self) -> nat;

    /// Whether `witness` is a witness for the instance.
    spec fn spec_witness_valid(&self, witness: Self::Witness) -> bool;

    /// Whether `prover_commit` on `witness` may give the commitment with these
    /// NARG bytes together with `state`: the relation between the witness,
    /// the commitment and the state that the prover keeps.
    spec fn spec_committed(&self, witness: Self::Witness, commitment: Seq<Seq<u8>>, state: Self::ProverState) -> bool;

    /// How many blocks `prover_commit` fills from the random source, and how
    /// many bytes each.
    spec fn spec_commit_draws(&self) -> (nat, nat);

    /// Whether `prover_commit` on `witness` may give the commitment with
    /// these NARG bytes and `state` when the random source delivered `blocks`:
    /// the blocks fix them.
    spec fn spec_committed_from(
        &self,
        witness: Self::Witness,
        blocks: Seq<Seq<u8>>,
        commitment: Seq<Seq<u8>>,
        state: Self::ProverState,
    ) -> bool;

    /// The error `prover_commit` fails with on a witness that is not valid.
    spec fn spec_witness_error(&self, witness: Self::Witness) -> Error;

    /// What `prover_response` gives from `state` and a challenge with NARG
    /// bytes `challenge`: the NARG bytes of the response, or the error it
    /// fails with.
    spec fn spec_prover_response(&self, state: Self::ProverState, challenge: Seq<u8>) -> Result<Seq<Seq<u8>>, Error>;

    /// Whether the verifier accepts the transcript whose messages have these
    /// NARG bytes.
    spec fn spec_verify_transcript(&self, commitment: Seq<Seq<u8>>, challenge: Seq<u8>, response: Seq<Seq<u8>>) -> bool;

    /// The prover's first message, and the state it keeps for its response.
    ///
    /// Fails with `spec_witness_error` on a witness that is not valid; on a
    /// valid witness it fails only when the random source does, so never with
    /// a source that never fails.
    fn prover_commit<R: CryptoRngCore>(&self, witness: &Self::Witness, rng: &mut R) -> (r: Result<
        (Vec<Self::Commitment>, Self::ProverState),
        Error,
    >)
        ensures
            !self.spec_witness_valid(*witness) ==> (r matches Err(e) && e == self.spec_witness_error(*witness)),
            self.spec_witness_valid(*witness) ==> (r matches Err(e) ==> e == Error::RandomnessUnavailable),
            self.spec_witness_valid(*witness) && old(rng).spec_never_fails() ==> r is Ok && final(rng).spec_never_fails(),
            self.spec_witness_valid(*witness) && old(rng).spec_described() ==> match drawn_blocks(
                *old(rng),
                self.spec_commit_draws().1,
                self.spec_commit_draws().0,
            ) {
                Some((next, blocks)) => r matches Ok((commitment, state)) && *final(rng) == next
                    && self.spec_committed_from(*witness, blocks, narg_parts(commitment@), state),
                None => r is Err,
            },
            r matches Ok((commitment, state)) ==> commitment@.len() == self.spec_commitment_len()
                && self.spec_committed(*witness, narg_parts(commitment@), state),
    ;

    /// The prover's response to `challenge`.
    fn prover_response(&self, state: Self::ProverState, challenge: &Self::Challenge) -> (r: Result<
        Vec<Self::Response>,
        Error,
    >)
        ensures
            match r {
                Ok(v) => self.spec_prover_response(state, challenge.narg_bytes()) == Ok::<_, Error>(narg_parts(v@)),
                Err(e) => self.spec_prover_response(state, challenge.narg_bytes()) == Err::<Seq<Seq<u8>>, _>(e),
            },
    ;

    /// Checks a transcript.
    fn verify_transcript(
        &self,
        commitment: &[Self::Commitment],
        challenge: &Self::Challenge,
        response: &[Self::Response],
    ) -> (r: Result<(), Error>)
        ensures
            r is Ok <==> self.spec_verify_transcript(
                narg_parts(commitment@),
                challenge.narg_bytes(),
                narg_parts(response@),
            ),
    ;

    /// The number of commitment messages.
    fn commitment_len(&self) -> (r: usize)
        ensures
            r == self.spec_commitment_len(),
    ;

    /// The number of response messages.
    fn response_len(&self) -> (r: usize)
        ensures
            r == self.spec_response_len(),
    ;

    /// The 64-byte identifier of the protocol.
    fn protocol_identifier(&self) -> (r: [u8; 64])
        ensures
            r@ == self.spec_protocol_identifier(),
    ;

    /// The label of the instance being proven.
    fn instance_label(&self) -> (r: Vec<u8>)
        ensures
            r@ == self.spec_instance_label(),
    ;
}

/// A transcript: commitment, challenge and response.
pub type Transcript<P> = (
    Vec<<P as SigmaProtocol>::Commitment>,
    <P as SigmaProtocol>::Challenge,
    Vec<<P as SigmaProtocol>::Response>,
);

/// A Sigma protocol with a simulator, which produces accepting transcripts
/// without a witness. The commitment is recomputed from a challenge and a
/// response, which gives compact proofs.
pub trait SigmaProtocolSimulator: SigmaProtocol {
    /// The commitment that `simulate_commitment` recomputes from the NARG
    /// bytes of a challenge and a response, or `None` when it fails.
    spec fn spec_simulate_commitment(&self, challenge: Seq<u8>, response: Seq<Seq<u8>>) -> Option<Seq<Seq<u8>>>;

    /// A random response; fails with `Error::RandomnessUnavailable` when the
    /// random source does.
    fn simulate_response<R: CryptoRngCore>(&self, rng: &mut R) -> (r: Result<Vec<Self::Response>, Error>)
        ensures
            r matches Err(e) ==> e == Error::RandomnessUnavailable,
    ;

    /// The commitment that makes `(commitment, challenge, response)` an
    /// accepting transcript.
    fn simulate_commitment(&self, challenge: &Self::Challenge, response: &[Self::Response]) -> (r: Result<
        Vec<Self::Commitment>,
        Error,
    >)
        ensures
            match r {
                Ok(c) => self.spec_simulate_commitment(challenge.narg_bytes(), narg_parts(response@))
                    == Some(narg_parts(c@)),
                Err(_) => self.spec_simulate_commitment(challenge.narg_bytes(), narg_parts(response@)) is None,
            },
    ;

    /// A simulated transcript.
    fn simulate_transcript<R: CryptoRngCore>(&self, rng: &mut R) -> Result<Transcript<Self>, Error>;
}

} // verus!
