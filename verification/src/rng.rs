//! Sampling scalars from a cryptographically secure source of random bytes.

use core::marker::PhantomData;
use vstd::prelude::*;
use crate::errors::Error;
use crate::group::{PrimeGroup, Scalar};
use crate::group::serialization::NargMessage;

verus! {

/// A cryptographically secure source of random bytes.
///
/// A source may describe itself further: as one that never fails
/// (`spec_never_fails`), and as one whose output is a function of its state
/// (`spec_described`, with `spec_fill` giving that output), as a seeded
/// generator is. The operating system's source claims neither.
pub trait CryptoRngCore: Sized {
    /// Whether the source never fails to deliver bytes, now and after any
    /// number of fills. A source claims this only by saying so.
    open spec fn spec_never_fails(&self) -> bool {
        false
    }

    /// Whether the source's output is described by `spec_fill`. A source
    /// claims this only by saying so.
    open spec fn spec_described(&self) -> bool {
        false
    }

    /// For a described source, what filling `len` bytes gives: the source's
    /// next state and the bytes, or `None` when the source fails.
    open spec fn spec_fill(&self, len: nat) -> Option<(Self, Seq<u8>)> {
        None
    }

    /// Fills `dest` with random bytes; fails with
    /// `Error::RandomnessUnavailable` when the source cannot deliver them.
    fn fill_bytes(&mut self, dest: &mut [u8]) -> (r: Result<(), Error>)
        ensures
            final(dest)@.len() == old(dest)@.len(),
            r matches Err(e) ==> e == Error::RandomnessUnavailable,
            old(self).spec_never_fails() ==> r is Ok && final(self).spec_never_fails(),
            old(self).spec_described() ==> match old(self).spec_fill(old(dest)@.len()) {
                Some((next, bytes)) => r is Ok && *final(self) == next && final(dest)@ == bytes
                    && final(self).spec_described(),
                None => r is Err,
            },
    ;
}

#[verifier::external_type_specification]
#[verifier::external_body]
pub struct ExOsRng(rand_core::OsRng);

/// Fills `dest` with `rand_core::OsRng`'s `RngCore::try_fill_bytes`, which
/// writes random bytes from the operating system into the whole buffer and
/// reports whether the operating system's source delivered them. Only that the
/// buffer keeps its length is claimed: the bytes are random, and whether the
/// source fails depends on the machine.
#[verifier::external_body]
fn os_try_fill_bytes(rng: &mut rand_core::OsRng, dest: &mut [u8]) -> (r: bool)
    ensures
        final(dest)@.len() == old(dest)@.len(),
{
    rand_core::RngCore::try_fill_bytes(rng, dest).is_ok()
}

/// The operating system's source may fail, and its output is not a function
/// of any state here: it claims neither description.
impl CryptoRngCore for rand_core::OsRng {
    fn fill_bytes(&mut self, dest: &mut [u8]) -> (r: Result<(), Error>) {
        if os_try_fill_bytes(self, dest) {
            Ok(())
        } else {
            Err(Error::RandomnessUnavailable)
        }
    }
}

/// The number of uniform bytes sampled for one scalar of a group whose order
/// has `num_bits` bits: `ceil(num_bits / 8) + 16`, so that reducing them
/// modulo the order leaves a negligible bias.
pub open spec fn uniform_scalar_len(num_bits: nat) -> nat {
    (num_bits + 7) / 8 + 16
}

/// `ceil(num_bits / 8) + 16` for the group `G`.
pub fn uniform_scalar_byte_len<G: PrimeGroup>() -> (r: usize)
    ensures
        r == uniform_scalar_len(G::spec_scalar_num_bits()),
        r <= G::spec_wide_repr_len(),
{
    proof {
        G::lemma_uniform_len_fits();
    }
    let bits = G::scalar_num_bits();
    let padded: u32 = bits + 7;
    let shifted: u32 = padded >> 3;
    assert(shifted == padded / 8) by (bit_vector)
        requires
            shifted == padded >> 3,
    ;
    let ns = shifted as usize;
    ns + 16
}

/// The bytes `buf` placed at the end of a buffer of `len` zero bytes.
pub open spec fn pad_left(buf: Seq<u8>, len: nat) -> Seq<u8> {
    Seq::new((len - buf.len()) as nat, |i: int| 0u8) + buf
}

/// A buffer of `ceil(num_bits / 8) + 16` bytes, to be filled with uniform
/// bytes and decoded as a scalar of `G`.
pub struct ScalarCompatibleRepr<G: PrimeGroup>(Vec<u8>, PhantomData<G>);

impl<G: PrimeGroup> ScalarCompatibleRepr<G> {
    /// The bytes of the buffer.
    pub closed spec fn bytes(&self) -> Seq<u8> {
        self.0@
    }

    /// Whether the buffer has the length that sampling a scalar of `G` uses.
    pub open spec fn has_uniform_len(&self) -> bool {
        self.bytes().len() == uniform_scalar_len(G::spec_scalar_num_bits())
    }

    /// The length of the buffer.
    pub fn len(&self) -> (r: usize)
        ensures
            r == self.bytes().len(),
    {
        self.0.len()
    }

    /// The buffer, for filling.
    pub fn as_mut(&mut self) -> (r: &mut [u8])
        ensures
            r@ == old(self).bytes(),
            final(self).bytes() == final(r)@,
    {
        self.0.as_mut_slice()
    }
}

impl<G: PrimeGroup> Default for ScalarCompatibleRepr<G> {
    fn default() -> (r: Self)
        ensures
            r.has_uniform_len(),
            r.bytes() == Seq::new(uniform_scalar_len(G::spec_scalar_num_bits()), |i: int| 0u8),
    {
        let len = uniform_scalar_byte_len::<G>();
        let mut bytes: Vec<u8> = Vec::new();
        let mut i: usize = 0;
        while i < len
            invariant
                i <= len,
                bytes@ == Seq::new(i as nat, |j: int| 0u8),
            decreases len - i,
        {
            bytes.push(0u8);
            i = i + 1;
            assert(bytes@ =~= Seq::new(i as nat, |j: int| 0u8));
        }
        ScalarCompatibleRepr(bytes, PhantomData)
    }
}

/// A scalar of `G` sampled the way codecs derive challenges: from
/// `ceil(num_bits / 8) + 16` uniform bytes, mapped onto a scalar by the
/// group's uniform map.
pub struct ScalarCompatible<G: PrimeGroup>(pub Scalar<G>);

/// The canonical representation of the scalar of `G` decoded from the uniform
/// bytes `buf`: `buf` is right-aligned in the input of the uniform map of `G`.
pub open spec fn spec_decode_uniform<G: PrimeGroup>(buf: Seq<u8>) -> Seq<u8> {
    G::spec_scalar_from_wide(pad_left(buf, G::spec_wide_repr_len()))
}

/// Decodes uniform bytes, right-aligned in the input of the uniform map, as a
/// scalar.
pub fn scalar_from_uniform_bytes<G: PrimeGroup>(buf: &[u8]) -> (r: Scalar<G>)
    requires
        buf@.len() <= G::spec_wide_repr_len(),
    ensures
        r.narg_bytes() == spec_decode_uniform::<G>(buf@),
{
    let wide_len = G::wide_repr_len();
    let start = wide_len - buf.len();
    let mut wide: Vec<u8> = Vec::new();
    let mut i: usize = 0;
    while i < wide_len
        invariant
            i <= wide_len,
            wide_len == G::spec_wide_repr_len(),
            start == wide_len - buf@.len(),
            wide@.len() == i,
            forall|j: int| 0 <= j < i ==> wide@[j] == pad_left(buf@, wide_len as nat)[j],
        decreases wide_len - i,
    {
        if i < start {
            wide.push(0u8);
        } else {
            wide.push(buf[i - start]);
        }
        i = i + 1;
    }
    assert(wide@ =~= pad_left(buf@, wide_len as nat));
    Scalar::from_uniform(wide.as_slice())
}

impl<G: PrimeGroup> ScalarCompatible<G> {
    /// Decodes a filled buffer as a scalar.
    pub fn decode(buf: ScalarCompatibleRepr<G>) -> (r: Self)
        requires
            buf.has_uniform_len(),
        ensures
            r.0.narg_bytes() == spec_decode_uniform::<G>(buf.bytes()),
    {
        proof {
            G::lemma_uniform_len_fits();
        }
        ScalarCompatible(scalar_from_uniform_bytes::<G>(buf.0.as_slice()))
    }
}

impl<G: PrimeGroup> NargMessage for ScalarCompatible<G> {
    open spec fn narg_bytes(&self) -> Seq<u8> {
        self.0.narg_bytes()
    }

    open spec fn narg_read(buf: Seq<u8>) -> Option<(Seq<u8>, nat)> {
        Scalar::<G>::narg_read(buf)
    }

    fn serialize_into_narg(&self, out: &mut Vec<u8>) {
        self.0.serialize_into_narg(out)
    }

    fn deserialize_from_narg(buf: &[u8]) -> (r: Option<(Self, usize)>) {
        match Scalar::<G>::deserialize_from_narg(buf) {
            Some((s, n)) => Some((ScalarCompatible(s), n)),
            None => None,
        }
    }

    fn narg_eq(&self, other: &Self) -> (r: bool) {
        self.0.narg_eq(&other.0)
    }
}

/// Whether `s` is a scalar decoded from some `ceil(num_bits / 8) + 16`
/// bytes, which is what sampling gives whatever the random bytes were.
pub open spec fn is_decoded_sample<G: PrimeGroup>(s: Scalar<G>) -> bool {
    exists|bytes: Seq<u8>|
        bytes.len() == uniform_scalar_len(G::spec_scalar_num_bits())
        && s.narg_bytes() == #[trigger] spec_decode_uniform::<G>(bytes)
}

/// Samples a scalar of `G` by decoding uniform bytes drawn from `rng`; fails
/// with `Error::RandomnessUnavailable` when `rng` does.
///
/// It draws one block of `ceil(num_bits / 8) + 16` bytes, so from a described
/// source the scalar is the decoding of that source's next block.
pub fn sample_by_decoding<G: PrimeGroup, R: CryptoRngCore>(rng: &mut R) -> (r: Result<Scalar<G>, Error>)
    ensures
        match r {
            Ok(s) => is_decoded_sample(s),
            Err(e) => e == Error::RandomnessUnavailable,
        },
        old(rng).spec_never_fails() ==> r is Ok && final(rng).spec_never_fails(),
        old(rng).spec_described() ==> match old(rng).spec_fill(uniform_scalar_len(G::spec_scalar_num_bits())) {
            Some((next, bytes)) => r matches Ok(s) && s.narg_bytes() == spec_decode_uniform::<G>(bytes)
                && *final(rng) == next && final(rng).spec_described(),
            None => r is Err,
        },
{
    let mut rep = ScalarCompatibleRepr::<G>::default();
    rng.fill_bytes(rep.as_mut())?;
    let ghost filled = rep.bytes();
    let s = ScalarCompatible::decode(rep).0;
    assert(s.narg_bytes() == spec_decode_uniform::<G>(filled));
    Ok(s)
}

/// The `n` blocks of `len` bytes that a described source delivers one after
/// the other, with the source's state after the last; `None` when one of the
/// fills fails.
pub open spec fn drawn_blocks<R: CryptoRngCore>(rng: R, len: nat, n: nat) -> Option<(R, Seq<Seq<u8>>)>
    decreases n,
{
    if n == 0 {
        Some((rng, seq![]))
    } else {
        match drawn_blocks(rng, len, (n - 1) as nat) {
            Some((state, blocks)) => match state.spec_fill(len) {
                Some((next, block)) => Some((next, blocks.push(block))),
                None => None,
            },
            None => None,
        }
    }
}

/// Once a fill has failed, drawing more blocks fails too.
proof fn lemma_drawn_blocks_stay_failed<R: CryptoRngCore>(rng: R, len: nat, m: nat, n: nat)
    requires
        m <= n,
        drawn_blocks(rng, len, m) is None,
    ensures
        drawn_blocks(rng, len, n) is None,
    decreases n,
{
    if m < n {
        lemma_drawn_blocks_stay_failed(rng, len, m, (n - 1) as nat);
    }
}

/// Samples `n` scalars of `G`, each by decoding uniform bytes drawn from
/// `rng`; fails with `Error::RandomnessUnavailable` when `rng` does.
///
/// Each scalar comes from a fill of its own: from a described source, the
/// `k`-th scalar is the decoding of the `k`-th block of
/// `ceil(num_bits / 8) + 16` bytes that the source delivers.
pub fn random_scalars_vec<G: PrimeGroup, R: CryptoRngCore>(rng: &mut R, n: usize) -> (r: Result<Vec<Scalar<G>>, Error>)
    ensures
        match r {
            Ok(v) => v@.len() == n && forall|k: int| 0 <= k < n ==> is_decoded_sample(#[trigger] v@[k]),
            Err(e) => e == Error::RandomnessUnavailable,
        },
        old(rng).spec_never_fails() ==> r is Ok && final(rng).spec_never_fails(),
        old(rng).spec_described() ==> match drawn_blocks(*old(rng), uniform_scalar_len(G::spec_scalar_num_bits()), n as nat) {
            Some((next, blocks)) => r matches Ok(v) && *final(rng) == next
                && forall|k: int| 0 <= k < n ==> #[trigger] v@[k].narg_bytes() == spec_decode_uniform::<G>(blocks[k]),
            None => r is Err,
        },
{
    let ghost start = *rng;
    let ghost len = uniform_scalar_len(G::spec_scalar_num_bits());
    let ghost mut blocks: Seq<Seq<u8>> = seq![];
    let mut v: Vec<Scalar<G>> = Vec::new();
    let mut i: usize = 0;
    while i < n
        invariant
            i <= n,
            v@.len() == i,
            start == *old(rng),
            len == uniform_scalar_len(G::spec_scalar_num_bits()),
            forall|k: int| 0 <= k < i ==> is_decoded_sample(#[trigger] v@[k]),
            start.spec_never_fails() ==> rng.spec_never_fails(),
            start.spec_described() ==> rng.spec_described() && blocks.len() == i
                && drawn_blocks(start, len, i as nat) == Some((*rng, blocks))
                && forall|k: int| 0 <= k < i ==> #[trigger] v@[k].narg_bytes() == spec_decode_uniform::<G>(blocks[k]),
        decreases n - i,
    {
        let ghost before = *rng;
        let s = match sample_by_decoding::<G, R>(rng) {
            Ok(s) => s,
            Err(e) => {
                proof {
                    if start.spec_described() {
                        lemma_drawn_blocks_stay_failed(start, len, (i + 1) as nat, n as nat);
                    }
                }
                return Err(e);
            },
        };
        let ghost old_blocks = blocks;
        proof {
            if start.spec_described() {
                blocks = blocks.push(before.spec_fill(len)->Some_0.1);
                assert(drawn_blocks(start, len, (i + 1) as nat) == Some((*rng, blocks)));
            }
        }
        let ghost old_v = v@;
        v.push(s);
        proof {
            if start.spec_described() {
                assert forall|k: int| 0 <= k < i + 1 implies #[trigger] v@[k].narg_bytes()
                    == spec_decode_uniform::<G>(blocks[k]) by {
                    if k < i {
                        assert(v@[k] == old_v[k]);
                        assert(blocks[k] == old_blocks[k]);
                    }
                }
            }
        }
        i = i + 1;
    }
    Ok(v)
}

} // verus!
