//! Codecs: the domain-separated transcripts that turn prover messages into
//! verifier challenges.

use core::marker::PhantomData;
use vstd::prelude::*;
use crate::duplex_sponge::{lemma_shake_absorb_concatenates, shake128, shake_initial_block, DuplexSpongeInterface, ShakeDuplexSponge};
use crate::group::{PrimeGroup, Scalar};
use crate::group::serialization::{append_bytes, NargMessage};
use crate::rng::{scalar_from_uniform_bytes, spec_decode_uniform, uniform_scalar_byte_len, uniform_scalar_len};

verus! {

/// A domain-separated codec: it is identified by a protocol identifier, a
/// session identifier and an instance label, absorbs prover messages, and
/// produces verifier challenges.
///
/// The output is deterministic: the state of a codec, and so each challenge,
/// is a function of its identifiers and of the messages absorbed, which is
/// what lets prover and verifier derive the same challenges.
pub trait Codec: View + Sized {
    type Challenge: NargMessage;

    /// The state of a fresh codec.
    spec fn spec_new(protocol_identifier: Seq<u8>, session_identifier: Seq<u8>, instance_label: Seq<u8>) -> Self::V;

    /// The state after absorbing `data`.
    spec fn spec_prover_message(state: Self::V, data: Seq<u8>) -> Self::V;

    /// The state after producing a challenge, and the NARG bytes of that
    /// challenge.
    spec fn spec_verifier_challenge(state: Self::V) -> (Self::V, Seq<u8>);

    /// Generates an empty codec identified by the given domain separators.
    fn new(protocol_identifier: &[u8; 64], session_identifier: &[u8], instance_label: &[u8]) -> (r: Self)
        ensures
            r@ == Self::spec_new(protocol_identifier@, session_identifier@, instance_label@),
    ;

    /// Absorbs data into the codec.
    fn prover_message(&mut self, data: &[u8])
        ensures
            final(self)@ == Self::spec_prover_message(old(self)@, data@),
    ;

    /// Produces a challenge from the codec.
    fn verifier_challenge(&mut self) -> (r: Self::Challenge)
        ensures
            final(self)@ == Self::spec_verifier_challenge(old(self)@).0,
            r.narg_bytes() == Self::spec_verifier_challenge(old(self)@).1,
    ;
}

/// The ASCII bytes of `fiat-shamir/session-id`.
pub open spec fn session_iv_prefix() -> Seq<u8> {
    seq![
        102u8, 105u8, 97u8, 116u8, 45u8, 115u8, 104u8, 97u8, 109u8, 105u8, 114u8,
        47u8, 115u8, 101u8, 115u8, 115u8, 105u8, 111u8, 110u8, 45u8, 105u8, 100u8,
    ]
}

/// The initialization vector of the sponge that hashes a session identifier:
/// `fiat-shamir/session-id`, then zeros up to 64 bytes.
pub open spec fn session_iv() -> Seq<u8> {
    session_iv_prefix() + Seq::new(42, |i: int| 0u8)
}

fn make_session_iv() -> (r: [u8; 64])
    ensures
        r@ == session_iv(),
{
    let prefix: [u8; 22] = [
        102u8, 105u8, 97u8, 116u8, 45u8, 115u8, 104u8, 97u8, 109u8, 105u8, 114u8,
        47u8, 115u8, 101u8, 115u8, 115u8, 105u8, 111u8, 110u8, 45u8, 105u8, 100u8,
    ];
    assert(prefix@ =~= session_iv_prefix());
    let mut iv = [0u8; 64];
    let mut i: usize = 0;
    while i < 22
        invariant
            i <= 22,
            prefix@ == session_iv_prefix(),
            iv@.len() == 64,
            forall|j: int| 0 <= j < i ==> iv@[j] == prefix@[j],
            forall|j: int| i <= j < 64 ==> iv@[j] == 0u8,
        decreases 22 - i,
    {
        iv[i] = prefix[i];
        i = i + 1;
    }
    assert(iv@ =~= session_iv());
    iv
}

/// A byte-level Schnorr codec over the group `G` and the duplex sponge `H`.
pub struct ByteSchnorrCodec<G: PrimeGroup, H: DuplexSpongeInterface> {
    sponge: H,
    _marker: PhantomData<G>,
}

impl<G: PrimeGroup, H: DuplexSpongeInterface> View for ByteSchnorrCodec<G, H> {
    type V = H::V;

    closed spec fn view(&self) -> H::V {
        self.sponge@
    }
}

/// The session identifier that a codec over `H` derives from `session`:
/// 32 zero bytes, then 32 bytes squeezed from a sponge seeded with
/// `session_iv()` that absorbed `session`.
pub open spec fn spec_session_id<H: DuplexSpongeInterface>(session: Seq<u8>) -> Seq<u8> {
    Seq::new(32, |i: int| 0u8) + H::spec_squeeze(H::spec_absorb(H::spec_new(session_iv()), session), 32).1
}

impl<G: PrimeGroup, H: DuplexSpongeInterface> Codec for ByteSchnorrCodec<G, H> {
    type Challenge = Scalar<G>;

    open spec fn spec_new(protocol_identifier: Seq<u8>, session_identifier: Seq<u8>, instance_label: Seq<u8>) -> H::V {
        H::spec_absorb(
            H::spec_absorb(H::spec_new(protocol_identifier), spec_session_id::<H>(session_identifier)),
            instance_label,
        )
    }

    open spec fn spec_prover_message(state: H::V, data: Seq<u8>) -> H::V {
        H::spec_absorb(state, data)
    }

    open spec fn spec_verifier_challenge(state: H::V) -> (H::V, Seq<u8>) {
        let squeezed = H::spec_squeeze(state, uniform_scalar_len(G::spec_scalar_num_bits()));
        (squeezed.0, spec_decode_uniform::<G>(squeezed.1))
    }

    fn new(protocol_identifier: &[u8; 64], session_identifier: &[u8], instance_label: &[u8]) -> (r: Self) {
        let iv = make_session_iv();
        let mut session_hash_state = H::new(iv);
        session_hash_state.absorb(session_identifier);
        let squeezed = session_hash_state.squeeze(32);
        let mut session_id: Vec<u8> = Vec::new();
        let mut i: usize = 0;
        while i < 32
            invariant
                i <= 32,
                session_id@ == Seq::new(i as nat, |j: int| 0u8),
            decreases 32 - i,
        {
            session_id.push(0u8);
            i = i + 1;
            assert(session_id@ =~= Seq::new(i as nat, |j: int| 0u8));
        }
        append_bytes(&mut session_id, squeezed.as_slice());
        assert(session_id@ =~= spec_session_id::<H>(session_identifier@));
        let mut sponge = H::new(*protocol_identifier);
        sponge.absorb(session_id.as_slice());
        sponge.absorb(instance_label);
        ByteSchnorrCodec { sponge, _marker: PhantomData }
    }

    fn prover_message(&mut self, data: &[u8]) {
        self.sponge.absorb(data);
    }

    fn verifier_challenge(&mut self) -> (r: Scalar<G>) {
        let len = uniform_scalar_byte_len::<G>();
        let bytes = self.sponge.squeeze(len);
        scalar_from_uniform_bytes::<G>(bytes.as_slice())
    }
}

/// A `ByteSchnorrCodec` over the SHAKE128 duplex sponge.
pub type Shake128DuplexSponge<G> = ByteSchnorrCodec<G, ShakeDuplexSponge>;

/// Over the SHAKE128 sponge, absorbing two prover messages one after the
/// other is the same as absorbing their concatenation, so a batch of messages
/// may be absorbed as one serialized string.
pub proof fn lemma_prover_messages_concatenate<G: PrimeGroup>(state: Seq<u8>, a: Seq<u8>, b: Seq<u8>)
    ensures
        Shake128DuplexSponge::<G>::spec_prover_message(Shake128DuplexSponge::<G>::spec_prover_message(state, a), b)
            == Shake128DuplexSponge::<G>::spec_prover_message(state, a + b),
{
    lemma_shake_absorb_concatenates(state, a, b, 0);
}

/// A fresh SHAKE128 codec has absorbed the block of the protocol identifier,
/// then the session identifier's hash (32 zero bytes followed by the first 32
/// bytes of SHAKE128 over the block of `session_iv()` and the whole session
/// identifier), then the instance label; the challenge after the prover's
/// message `message` is the scalar decoded from the first
/// `ceil(num_bits / 8) + 16` bytes of SHAKE128 over all of that and the
/// message.
pub proof fn lemma_shake_codec_challenge<G: PrimeGroup>(
    protocol_identifier: Seq<u8>,
    session_identifier: Seq<u8>,
    instance_label: Seq<u8>,
    message: Seq<u8>,
)
    ensures
        Shake128DuplexSponge::<G>::spec_new(protocol_identifier, session_identifier, instance_label)
            == shake_initial_block(protocol_identifier) + Seq::new(32, |i: int| 0u8)
            + shake128(shake_initial_block(session_iv()) + session_identifier, 32) + instance_label,
        Shake128DuplexSponge::<G>::spec_verifier_challenge(
            Shake128DuplexSponge::<G>::spec_prover_message(
                Shake128DuplexSponge::<G>::spec_new(protocol_identifier, session_identifier, instance_label),
                message,
            ),
        ).1 == spec_decode_uniform::<G>(
            shake128(
                shake_initial_block(protocol_identifier) + Seq::new(32, |i: int| 0u8)
                    + shake128(shake_initial_block(session_iv()) + session_identifier, 32) + instance_label
                    + message,
                uniform_scalar_len(G::spec_scalar_num_bits()),
            ),
        ),
{
    let zeros = Seq::new(32, |i: int| 0u8);
    let hash = shake128(shake_initial_block(session_iv()) + session_identifier, 32);
    assert(spec_session_id::<ShakeDuplexSponge>(session_identifier) == zeros + hash);
    assert(shake_initial_block(protocol_identifier) + (zeros + hash) + instance_label
        =~= shake_initial_block(protocol_identifier) + zeros + hash + instance_label);
}

} // verus!
