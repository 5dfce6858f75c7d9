//! The G1 group of BLS12-381, through the `bls12_381` crate and its
//! `spongefish` encodings: compressed points and big-endian scalars.

use vstd::prelude::*;
use super::big_endian::{be_bytes, be_nat, lemma_be_bytes_of_residue, lemma_byte_range_32};
use super::PrimeGroup;

verus! {

/// The G1 group of the BLS12-381 pairing-friendly curve.
pub struct Bls12381G1;

/// What `spongefish` reads from the 48-byte compressed representation `repr`
/// as a G1 point, re-encoded as that point's NARG string; `None` when `repr`
/// represents no point.
pub uninterp spec fn bls12_381_g1_from_repr(repr: Seq<u8>) -> Option<Seq<u8>>;

/// The order `r` of the G1 group, the modulus of BLS12-381 scalars.
pub open spec fn bls12_381_order() -> nat {
    0x73eda753299d7d483339d80809a1d80553bda402fffe5bfeffffffff00000001nat
}

/// Whether the 32 bytes `repr` are the canonical representation of a
/// BLS12-381 scalar: a big-endian integer below the order.
pub open spec fn bls12_381_scalar_is_canonical(repr: Seq<u8>) -> bool {
    be_nat(repr) < bls12_381_order()
}

/// The canonical representation of the BLS12-381 scalar `value mod r`: 32
/// bytes, big-endian.
pub open spec fn bls12_381_scalar(value: nat) -> Seq<u8> {
    be_bytes(32, value % bls12_381_order())
}

/// NARG encoding of the G1 generator multiplied by the scalar with canonical
/// representation `scalar`.
pub uninterp spec fn bls12_381_g1_mul_generator(scalar: Seq<u8>) -> Seq<u8>;

/// NARG encoding of the G1 point with compressed encoding `element`
/// multiplied by the scalar with canonical representation `scalar`; `None`
/// when `element` is not the compressed encoding of a point.
pub uninterp spec fn bls12_381_g1_mul(element: Seq<u8>, scalar: Seq<u8>) -> Option<Seq<u8>>;

/// NARG encoding of the sum of the G1 points with compressed encodings `a`
/// and `b`; `None` when one of them is not the compressed encoding of a point.
pub uninterp spec fn bls12_381_g1_add(a: Seq<u8>, b: Seq<u8>) -> Option<Seq<u8>>;

/// Length of `<bls12_381::G1Projective as GroupEncoding>::Repr`, the 48-byte
/// compressed encoding.
#[verifier::external_body]
fn g1_repr_len() -> (r: usize)
    ensures
        r == 48,
{
    AsRef::<[u8]>::as_ref(&<::bls12_381::G1Projective as ::group::GroupEncoding>::Repr::default()).len()
}

/// Length of `<bls12_381::Scalar as ff::PrimeField>::Repr`, 32 bytes.
#[verifier::external_body]
fn bls_scalar_repr_len() -> (r: usize)
    ensures
        r == 32,
{
    AsRef::<[u8]>::as_ref(&<::bls12_381::Scalar as ::ff::PrimeField>::Repr::default()).len()
}

/// `<bls12_381::Scalar as ff::PrimeField>::NUM_BITS`, which the crate sets to
/// 255.
#[verifier::external_body]
fn bls_scalar_num_bits() -> (r: u32)
    ensures
        r == 255,
{
    <::bls12_381::Scalar as ::ff::PrimeField>::NUM_BITS
}

/// Length of `<bls12_381::Scalar as spongefish::Decoding>::Repr`, which
/// `spongefish` makes a 64-byte array.
#[verifier::external_body]
fn bls_wide_repr_len() -> (r: usize)
    ensures
        r == 64,
{
    let mut repr = <::bls12_381::Scalar as ::spongefish::Decoding<[u8]>>::Repr::default();
    repr.as_mut().len()
}

/// Reads a point with `spongefish::NargDeserialize` for
/// `bls12_381::G1Projective` (which decodes the 48 bytes with
/// `G1Affine::from_compressed`) and writes it back with
/// `spongefish::NargSerialize`. Only that the result is the one named by
/// `bls12_381_g1_from_repr` is claimed.
#[verifier::external_body]
fn bls_read_point(repr: &[u8]) -> (r: Option<Vec<u8>>)
    requires
        repr@.len() == 48,
    ensures
        match r {
            Some(e) => bls12_381_g1_from_repr(repr@) == Some(e@),
            None => bls12_381_g1_from_repr(repr@) is None,
        },
{
    let mut cursor = repr;
    let point = <::bls12_381::G1Projective as ::spongefish::NargDeserialize>::deserialize_from_narg(&mut cursor).ok()?;
    let mut out = Vec::new();
    ::spongefish::NargSerialize::serialize_into_narg(&point, &mut out);
    Some(out)
}

/// Reads a scalar with `spongefish::NargDeserialize` for
/// `bls12_381::Scalar`, which succeeds exactly when `Scalar::from_bytes`
/// accepts the reversed 32 bytes, that is when they are a big-endian integer
/// below the order.
#[verifier::external_body]
fn bls_scalar_canonical(repr: &[u8]) -> (r: bool)
    requires
        repr@.len() == 32,
    ensures
        r == bls12_381_scalar_is_canonical(repr@),
{
    let mut cursor = repr;
    <::bls12_381::Scalar as ::spongefish::NargDeserialize>::deserialize_from_narg(&mut cursor).is_ok()
}

/// Maps 64 uniform bytes onto a scalar with `spongefish::Decoding` for
/// `bls12_381::Scalar`, which reverses them and reduces them with
/// `Scalar::from_bytes_wide` (a little-endian integer modulo `r`), that is
/// the 64 bytes read as one big-endian integer modulo `r`; the scalar is
/// written with `spongefish::NargSerialize` (`Scalar::to_bytes` reversed, 32
/// big-endian bytes).
#[verifier::external_body]
fn bls_decode_wide(wide: &[u8]) -> (r: Vec<u8>)
    requires
        wide@.len() == 64,
    ensures
        r@ == bls12_381_scalar(be_nat(wide@)),
{
    let mut repr = <::bls12_381::Scalar as ::spongefish::Decoding<[u8]>>::Repr::default();
    repr.as_mut().copy_from_slice(wide);
    let scalar = <::bls12_381::Scalar as ::spongefish::Decoding<[u8]>>::decode(repr);
    let mut out = Vec::new();
    ::spongefish::NargSerialize::serialize_into_narg(&scalar, &mut out);
    out
}

/// `G1Projective::generator() * Scalar` on a canonical scalar (read with
/// `spongefish::NargDeserialize`, which cannot fail on it), written with
/// `spongefish::NargSerialize`; the result is claimed to be the one named by
/// `bls12_381_g1_mul_generator`.
#[verifier::external_body]
fn bls_mul_gen(scalar: &[u8]) -> (r: Vec<u8>)
    requires
        scalar@.len() == 32,
        bls12_381_scalar_is_canonical(scalar@),
    ensures
        r@ == bls12_381_g1_mul_generator(scalar@),
{
    let s = <::bls12_381::Scalar as ::spongefish::NargDeserialize>::deserialize_from_narg(&mut &scalar[..]).unwrap();
    let mut out = Vec::new();
    ::spongefish::NargSerialize::serialize_into_narg(&(::bls12_381::G1Projective::generator() * s), &mut out);
    out
}

/// `G1Projective * Scalar` on a point decoded with `G1Affine::from_compressed`
/// and a canonical scalar, written with `spongefish::NargSerialize`; the
/// result is claimed to be the one named by `bls12_381_g1_mul`.
#[verifier::external_body]
fn bls_mul(element: &[u8], scalar: &[u8]) -> (r: Option<Vec<u8>>)
    requires
        scalar@.len() == 32,
        bls12_381_scalar_is_canonical(scalar@),
    ensures
        match r {
            Some(e) => bls12_381_g1_mul(element@, scalar@) == Some(e@),
            None => bls12_381_g1_mul(element@, scalar@) is None,
        },
{
    let bytes: &[u8; 48] = element.try_into().ok()?;
    let point: Option<::bls12_381::G1Affine> = ::bls12_381::G1Affine::from_compressed(bytes).into();
    let s = <::bls12_381::Scalar as ::spongefish::NargDeserialize>::deserialize_from_narg(&mut &scalar[..]).unwrap();
    let mut out = Vec::new();
    ::spongefish::NargSerialize::serialize_into_narg(&(::bls12_381::G1Projective::from(point?) * s), &mut out);
    Some(out)
}

/// `G1Projective + G1Projective` on points decoded as in `bls_mul`, written
/// with `spongefish::NargSerialize`; the result is claimed to be the one named
/// by `bls12_381_g1_add`.
#[verifier::external_body]
fn bls_add(a: &[u8], b: &[u8]) -> (r: Option<Vec<u8>>)
    ensures
        match r {
            Some(e) => bls12_381_g1_add(a@, b@) == Some(e@),
            None => bls12_381_g1_add(a@, b@) is None,
        },
{
    let pa: Option<::bls12_381::G1Affine> = ::bls12_381::G1Affine::from_compressed(a.try_into().ok()?).into();
    let pb: Option<::bls12_381::G1Affine> = ::bls12_381::G1Affine::from_compressed(b.try_into().ok()?).into();
    let sum = ::bls12_381::G1Projective::from(pa?) + ::bls12_381::G1Projective::from(pb?);
    let mut out = Vec::new();
    ::spongefish::NargSerialize::serialize_into_narg(&sum, &mut out);
    Some(out)
}

/// `Scalar + Scalar` (addition modulo `r`) on canonical scalars read with
/// `spongefish::NargDeserialize`, written with `spongefish::NargSerialize`
/// (32 big-endian bytes).
#[verifier::external_body]
fn bls_scalar_add(a: &[u8], b: &[u8]) -> (r: Vec<u8>)
    requires
        a@.len() == 32,
        b@.len() == 32,
        bls12_381_scalar_is_canonical(a@),
        bls12_381_scalar_is_canonical(b@),
    ensures
        r@ == bls12_381_scalar(be_nat(a@) + be_nat(b@)),
{
    let sa = <::bls12_381::Scalar as ::spongefish::NargDeserialize>::deserialize_from_narg(&mut &a[..]).unwrap();
    let sb = <::bls12_381::Scalar as ::spongefish::NargDeserialize>::deserialize_from_narg(&mut &b[..]).unwrap();
    let mut out = Vec::new();
    ::spongefish::NargSerialize::serialize_into_narg(&(sa + sb), &mut out);
    out
}

/// `Scalar * Scalar` (multiplication modulo `r`) on canonical scalars read
/// with `spongefish::NargDeserialize`, written with
/// `spongefish::NargSerialize` (32 big-endian bytes).
#[verifier::external_body]
fn bls_scalar_mul(a: &[u8], b: &[u8]) -> (r: Vec<u8>)
    requires
        a@.len() == 32,
        b@.len() == 32,
        bls12_381_scalar_is_canonical(a@),
        bls12_381_scalar_is_canonical(b@),
    ensures
        r@ == bls12_381_scalar(be_nat(a@) * be_nat(b@)),
{
    let sa = <::bls12_381::Scalar as ::spongefish::NargDeserialize>::deserialize_from_narg(&mut &a[..]).unwrap();
    let sb = <::bls12_381::Scalar as ::spongefish::NargDeserialize>::deserialize_from_narg(&mut &b[..]).unwrap();
    let mut out = Vec::new();
    ::spongefish::NargSerialize::serialize_into_narg(&(sa * sb), &mut out);
    out
}

/// `-Scalar` (negation modulo `r`) on a canonical scalar read with
/// `spongefish::NargDeserialize`, written with `spongefish::NargSerialize`
/// (32 big-endian bytes).
#[verifier::external_body]
fn bls_neg(s: &[u8]) -> (r: Vec<u8>)
    requires
        s@.len() == 32,
        bls12_381_scalar_is_canonical(s@),
    ensures
        r@ == bls12_381_scalar((bls12_381_order() - be_nat(s@)) as nat),
{
    let scalar = <::bls12_381::Scalar as ::spongefish::NargDeserialize>::deserialize_from_narg(&mut &s[..]).unwrap();
    let mut out = Vec::new();
    ::spongefish::NargSerialize::serialize_into_narg(&(-scalar), &mut out);
    out
}

impl PrimeGroup for Bls12381G1 {
    open spec fn spec_element_repr_len() -> nat {
        48
    }

    open spec fn spec_scalar_repr_len() -> nat {
        32
    }

    open spec fn spec_scalar_num_bits() -> nat {
        255
    }

    open spec fn spec_wide_repr_len() -> nat {
        64
    }

    open spec fn spec_read_element(repr: Seq<u8>) -> Option<Seq<u8>> {
        bls12_381_g1_from_repr(repr)
    }

    open spec fn spec_is_canonical_scalar(repr: Seq<u8>) -> bool {
        bls12_381_scalar_is_canonical(repr)
    }

    open spec fn spec_scalar_from_wide(wide: Seq<u8>) -> Seq<u8> {
        bls12_381_scalar(be_nat(wide))
    }

    open spec fn spec_mul_generator(scalar: Seq<u8>) -> Seq<u8> {
        bls12_381_g1_mul_generator(scalar)
    }

    open spec fn spec_mul(element: Seq<u8>, scalar: Seq<u8>) -> Option<Seq<u8>> {
        bls12_381_g1_mul(element, scalar)
    }

    open spec fn spec_add(a: Seq<u8>, b: Seq<u8>) -> Option<Seq<u8>> {
        bls12_381_g1_add(a, b)
    }

    open spec fn spec_scalar_add(a: Seq<u8>, b: Seq<u8>) -> Seq<u8> {
        bls12_381_scalar(be_nat(a) + be_nat(b))
    }

    open spec fn spec_scalar_mul(a: Seq<u8>, b: Seq<u8>) -> Seq<u8> {
        bls12_381_scalar(be_nat(a) * be_nat(b))
    }

    open spec fn spec_scalar_neg(s: Seq<u8>) -> Seq<u8> {
        bls12_381_scalar((bls12_381_order() - be_nat(s)) as nat)
    }

    proof fn lemma_uniform_len_fits() {
    }

    proof fn lemma_scalar_ops_canonical(a: Seq<u8>, b: Seq<u8>) {
        lemma_bls12_381_scalar_is_canonical(be_nat(a) + be_nat(b));
        lemma_bls12_381_scalar_is_canonical(be_nat(a) * be_nat(b));
        lemma_bls12_381_scalar_is_canonical((bls12_381_order() - be_nat(a)) as nat);
    }

    proof fn lemma_scalar_from_wide_canonical(wide: Seq<u8>) {
        lemma_bls12_381_scalar_is_canonical(be_nat(wide));
    }

    fn mul_generator(scalar: &[u8]) -> (r: Vec<u8>) {
        bls_mul_gen(scalar)
    }

    fn mul(element: &[u8], scalar: &[u8]) -> (r: Option<Vec<u8>>) {
        bls_mul(element, scalar)
    }

    fn add(a: &[u8], b: &[u8]) -> (r: Option<Vec<u8>>) {
        bls_add(a, b)
    }

    fn scalar_add(a: &[u8], b: &[u8]) -> (r: Vec<u8>) {
        proof {
            lemma_bls12_381_scalar_is_canonical(be_nat(a@) + be_nat(b@));
        }
        bls_scalar_add(a, b)
    }

    fn scalar_mul(a: &[u8], b: &[u8]) -> (r: Vec<u8>) {
        proof {
            lemma_bls12_381_scalar_is_canonical(be_nat(a@) * be_nat(b@));
        }
        bls_scalar_mul(a, b)
    }

    fn scalar_neg(s: &[u8]) -> (r: Vec<u8>) {
        proof {
            lemma_bls12_381_scalar_is_canonical((bls12_381_order() - be_nat(s@)) as nat);
        }
        bls_neg(s)
    }

    fn element_repr_len() -> (r: usize) {
        g1_repr_len()
    }

    fn scalar_repr_len() -> (r: usize) {
        bls_scalar_repr_len()
    }

    fn scalar_num_bits() -> (r: u32) {
        bls_scalar_num_bits()
    }

    fn wide_repr_len() -> (r: usize) {
        bls_wide_repr_len()
    }

    fn read_element(repr: &[u8]) -> (r: Option<Vec<u8>>) {
        bls_read_point(repr)
    }

    fn is_canonical_scalar(repr: &[u8]) -> (r: bool) {
        bls_scalar_canonical(repr)
    }

    fn scalar_from_wide(wide: &[u8]) -> (r: Vec<u8>) {
        proof {
            lemma_bls12_381_scalar_is_canonical(be_nat(wide@));
        }
        bls_decode_wide(wide)
    }
}

/// The representation of `value mod r` is 32 bytes long, canonical, and
/// encodes `value mod r`.
pub proof fn lemma_bls12_381_scalar_is_canonical(value: nat)
    ensures
        bls12_381_scalar(value).len() == 32,
        bls12_381_scalar_is_canonical(bls12_381_scalar(value)),
        be_nat(bls12_381_scalar(value)) == value % bls12_381_order(),
{
    lemma_byte_range_32();
    lemma_be_bytes_of_residue(32, value, bls12_381_order());
}

} // verus!
