//! Duplex sponges: the hash objects that absorb prover messages and are
//! squeezed for verifier challenges.

use vstd::prelude::*;

verus! {

/// A duplex sponge over bytes, seeded by a 64-byte initialization vector.
///
/// Its behaviour is given by three spec functions over its abstract state
/// (its view): the state it starts in, the state after absorbing, and the
/// state and output after squeezing.
pub trait DuplexSpongeInterface: View + Sized {
    /// The state of a sponge created from `iv`.
    spec fn spec_new(iv: Seq<u8>) -> Self::V;

    /// The state after absorbing `input` in `state`.
    spec fn spec_absorb(state: Self::V, input: Seq<u8>) -> Self::V;

    /// The state after squeezing `length` bytes from `state`, and those bytes.
    spec fn spec_squeeze(state: Self::V, length: nat) -> (Self::V, Seq<u8>);

    /// Creates a sponge from an initialization vector.
    fn new(iv: [u8; 64]) -> (r: Self)
        ensures
            r@ == Self::spec_new(iv@),
    ;

    /// Absorbs `input`.
    fn absorb(&mut self, input: &[u8])
        ensures
            final(self)@ == Self::spec_absorb(old(self)@, input@),
    ;

    /// Squeezes `length` bytes.
    fn squeeze(&mut self, length: usize) -> (r: Vec<u8>)
        ensures
            final(self)@ == Self::spec_squeeze(old(self)@, length as nat).0,
            r@ == Self::spec_squeeze(old(self)@, length as nat).1,
            r@.len() == length,
    ;
}

/// The first `length` bytes of the SHAKE128 output on `input`.
pub uninterp spec fn shake128(input: Seq<u8>, length: nat) -> Seq<u8>;

/// Computes the first `length` bytes of SHAKE128 on `input` with
/// `sha3::Shake128`'s `ExtendableOutput::digest_xof`. The contract claims the
/// result is the one named by `shake128`, and that it has the length of the
/// output buffer that the call fills.
#[verifier::external_body]
fn shake128_digest(input: &[u8], length: usize) -> (r: Vec<u8>)
    ensures
        r@ == shake128(input@, length as nat),
        r@.len() == length,
{
    let mut out = vec![0u8; length];
    <sha3::Shake128 as sha3::digest::ExtendableOutput>::digest_xof(input, &mut out);
    out
}

/// The number of bytes SHAKE128 absorbs per permutation call.
pub const SHAKE128_RATE: usize = 168;

/// A duplex sponge built on SHAKE128.
///
/// The initialization vector is absorbed as a whole block (padded with zeros
/// to the rate of SHAKE128). Absorbing appends to the input; squeezing reads
/// the SHAKE128 output of everything absorbed so far, from its start, and
/// leaves the state unchanged.
pub struct ShakeDuplexSponge {
    absorbed: Vec<u8>,
}

impl View for ShakeDuplexSponge {
    type V = Seq<u8>;

    closed spec fn view(&self) -> Seq<u8> {
        self.absorbed@
    }
}

/// The initial block of a SHAKE128 sponge: `iv`, then zeros up to the rate.
pub open spec fn shake_initial_block(iv: Seq<u8>) -> Seq<u8> {
    iv + Seq::new((SHAKE128_RATE - iv.len()) as nat, |i: int| 0u8)
}

impl DuplexSpongeInterface for ShakeDuplexSponge {
    open spec fn spec_new(iv: Seq<u8>) -> Seq<u8> {
        shake_initial_block(iv)
    }

    open spec fn spec_absorb(state: Seq<u8>, input: Seq<u8>) -> Seq<u8> {
        state + input
    }

    open spec fn spec_squeeze(state: Seq<u8>, length: nat) -> (Seq<u8>, Seq<u8>) {
        (state, shake128(state, length))
    }

    fn new(iv: [u8; 64]) -> (r: Self) {
        let mut absorbed: Vec<u8> = Vec::new();
        let mut i: usize = 0;
        while i < SHAKE128_RATE
            invariant
                i <= SHAKE128_RATE,
                absorbed@.len() == i,
                forall|j: int| 0 <= j < i ==> absorbed@[j] == shake_initial_block(iv@)[j],
            decreases SHAKE128_RATE - i,
        {
            if i < 64 {
                absorbed.push(iv[i]);
            } else {
                absorbed.push(0u8);
            }
            i = i + 1;
        }
        let r = ShakeDuplexSponge { absorbed };
        assert(r@ =~= shake_initial_block(iv@));
        r
    }

    fn absorb(&mut self, input: &[u8]) {
        crate::group::serialization::append_bytes(&mut self.absorbed, input);
    }

    fn squeeze(&mut self, length: usize) -> (r: Vec<u8>) {
        shake128_digest(self.absorbed.as_slice(), length)
    }
}

/// Absorbing is associative: absorbing `a` then `b` leaves a SHAKE128 sponge
/// in the state that absorbing `a + b` at once does, and squeezing does not
/// change the state.
pub proof fn lemma_shake_absorb_concatenates(state: Seq<u8>, a: Seq<u8>, b: Seq<u8>, length: nat)
    ensures
        ShakeDuplexSponge::spec_absorb(ShakeDuplexSponge::spec_absorb(state, a), b)
            == ShakeDuplexSponge::spec_absorb(state, a + b),
        ShakeDuplexSponge::spec_squeeze(state, length).0 == state,
{
    assert(state + a + b =~= state + (a + b));
}

} // verus!
