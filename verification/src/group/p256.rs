//! The NIST P-256 curve, through the `p256` crate and its `spongefish`
//! encodings.

use vstd::prelude::*;
use super::big_endian::{be_bytes, be_nat, lemma_be_bytes_of_residue, lemma_byte_range_32};
use super::PrimeGroup;

verus! {

/// The NIST P-256 curve, with the encodings of the `p256` crate as seen by
/// `spongefish`: compressed SEC1 points and big-endian scalars.
pub struct P256;

/// What `spongefish` reads from the compressed SEC1 representation `repr` as a
/// P-256 point, re-encoded as that point's NARG string; `None` when `repr`
/// represents no point.
pub uninterp spec fn p256_point_from_repr(repr: Seq<u8>) -> Option<Seq<u8>>;

/// The order `n` of the P-256 group, the modulus of its scalars.
pub open spec fn p256_order() -> nat {
    0xffffffff00000000ffffffffffffffffbce6faada7179e84f3b9cac2fc632551nat
}

/// Whether the 32 bytes `repr` are the canonical representation of a P-256
/// scalar: a big-endian integer below the order.
pub open spec fn p256_scalar_is_canonical(repr: Seq<u8>) -> bool {
    be_nat(repr) < p256_order()
}

/// The canonical representation of the P-256 scalar `value mod n`: 32 bytes,
/// big-endian.
pub open spec fn p256_scalar(value: nat) -> Seq<u8> {
    be_bytes(32, value % p256_order())
}

/// NARG encoding of the P-256 generator multiplied by the scalar with
/// canonical representation `scalar`.
pub uninterp spec fn p256_mul_generator(scalar: Seq<u8>) -> Seq<u8>;

/// NARG encoding of the P-256 point with NARG encoding `element` multiplied by
/// the scalar with canonical representation `scalar`; `None` when `element`
/// is not the SEC1 encoding of a point.
pub uninterp spec fn p256_point_mul(element: Seq<u8>, scalar: Seq<u8>) -> Option<Seq<u8>>;

/// NARG encoding of the sum of the P-256 points with NARG encodings `a` and
/// `b`; `None` when one of them is not the SEC1 encoding of a point.
pub uninterp spec fn p256_point_add(a: Seq<u8>, b: Seq<u8>) -> Option<Seq<u8>>;

/// `Group::generator() * Scalar` on a canonical scalar (decoded with
/// `PrimeField::from_repr`, which cannot fail on it), written with
/// `spongefish::NargSerialize`; the result is claimed to be the one named by
/// `p256_mul_generator`.
#[verifier::external_body]
fn p256_mul_gen(scalar: &[u8]) -> (r: Vec<u8>)
    requires
        scalar@.len() == 32,
        p256_scalar_is_canonical(scalar@),
    ensures
        r@ == p256_mul_generator(scalar@),
{
    let s: ::p256::Scalar = ::ff::PrimeField::from_repr(*::p256::FieldBytes::from_slice(scalar)).unwrap();
    let point = <::p256::ProjectivePoint as ::group::Group>::generator() * s;
    let mut out = Vec::new();
    ::spongefish::NargSerialize::serialize_into_narg(&point, &mut out);
    out
}

/// `ProjectivePoint * Scalar` on a point decoded with
/// `EncodedPoint::from_bytes` and `FromEncodedPoint::from_encoded_point` and a
/// canonical scalar, written with `spongefish::NargSerialize`; the result is claimed to be the one named by
/// `p256_point_mul`.
#[verifier::external_body]
fn p256_mul(element: &[u8], scalar: &[u8]) -> (r: Option<Vec<u8>>)
    requires
        scalar@.len() == 32,
        p256_scalar_is_canonical(scalar@),
    ensures
        match r {
            Some(e) => p256_point_mul(element@, scalar@) == Some(e@),
            None => p256_point_mul(element@, scalar@) is None,
        },
{
    let encoded = ::p256::EncodedPoint::from_bytes(element).ok()?;
    let point: Option<::p256::ProjectivePoint> =
        ::p256::elliptic_curve::sec1::FromEncodedPoint::from_encoded_point(&encoded).into();
    let s: ::p256::Scalar = ::ff::PrimeField::from_repr(*::p256::FieldBytes::from_slice(scalar)).unwrap();
    let mut out = Vec::new();
    ::spongefish::NargSerialize::serialize_into_narg(&(point? * s), &mut out);
    Some(out)
}

/// `ProjectivePoint + ProjectivePoint` on points decoded as in `p256_mul`,
/// written with `spongefish::NargSerialize`; the result is claimed to be the one named by `p256_point_add`.
#[verifier::external_body]
fn p256_add(a: &[u8], b: &[u8]) -> (r: Option<Vec<u8>>)
    ensures
        match r {
            Some(e) => p256_point_add(a@, b@) == Some(e@),
            None => p256_point_add(a@, b@) is None,
        },
{
    let ea = ::p256::EncodedPoint::from_bytes(a).ok()?;
    let eb = ::p256::EncodedPoint::from_bytes(b).ok()?;
    let pa: Option<::p256::ProjectivePoint> = ::p256::elliptic_curve::sec1::FromEncodedPoint::from_encoded_point(&ea).into();
    let pb: Option<::p256::ProjectivePoint> = ::p256::elliptic_curve::sec1::FromEncodedPoint::from_encoded_point(&eb).into();
    let mut out = Vec::new();
    ::spongefish::NargSerialize::serialize_into_narg(&(pa? + pb?), &mut out);
    Some(out)
}

/// `Scalar + Scalar` (`Scalar::add`, addition modulo `n`) on canonical
/// scalars decoded with `PrimeField::from_repr`, written with
/// `spongefish::NargSerialize` (`Scalar::to_bytes`, 32 big-endian bytes).
#[verifier::external_body]
fn p256_scalar_add(a: &[u8], b: &[u8]) -> (r: Vec<u8>)
    requires
        a@.len() == 32,
        b@.len() == 32,
        p256_scalar_is_canonical(a@),
        p256_scalar_is_canonical(b@),
    ensures
        r@ == p256_scalar(be_nat(a@) + be_nat(b@)),
{
    let sa: ::p256::Scalar = ::ff::PrimeField::from_repr(*::p256::FieldBytes::from_slice(a)).unwrap();
    let sb: ::p256::Scalar = ::ff::PrimeField::from_repr(*::p256::FieldBytes::from_slice(b)).unwrap();
    let mut out = Vec::new();
    ::spongefish::NargSerialize::serialize_into_narg(&(sa + sb), &mut out);
    out
}

/// `Scalar * Scalar` (`Scalar::multiply`, multiplication modulo `n`) on
/// canonical scalars decoded with `PrimeField::from_repr`, written with
/// `spongefish::NargSerialize` (`Scalar::to_bytes`, 32 big-endian bytes).
#[verifier::external_body]
fn p256_scalar_mul(a: &[u8], b: &[u8]) -> (r: Vec<u8>)
    requires
        a@.len() == 32,
        b@.len() == 32,
        p256_scalar_is_canonical(a@),
        p256_scalar_is_canonical(b@),
    ensures
        r@ == p256_scalar(be_nat(a@) * be_nat(b@)),
{
    let sa: ::p256::Scalar = ::ff::PrimeField::from_repr(*::p256::FieldBytes::from_slice(a)).unwrap();
    let sb: ::p256::Scalar = ::ff::PrimeField::from_repr(*::p256::FieldBytes::from_slice(b)).unwrap();
    let mut out = Vec::new();
    ::spongefish::NargSerialize::serialize_into_narg(&(sa * sb), &mut out);
    out
}

/// `-Scalar` (`Scalar::ZERO - s`, modulo `n`) on a canonical scalar decoded
/// with `PrimeField::from_repr`, written with `spongefish::NargSerialize`
/// (`Scalar::to_bytes`, 32 big-endian bytes).
#[verifier::external_body]
fn p256_neg(s: &[u8]) -> (r: Vec<u8>)
    requires
        s@.len() == 32,
        p256_scalar_is_canonical(s@),
    ensures
        r@ == p256_scalar((p256_order() - be_nat(s@)) as nat),
{
    let scalar: ::p256::Scalar = ::ff::PrimeField::from_repr(*::p256::FieldBytes::from_slice(s)).unwrap();
    let mut out = Vec::new();
    ::spongefish::NargSerialize::serialize_into_narg(&(-scalar), &mut out);
    out
}

/// Length of `<p256::ProjectivePoint as GroupEncoding>::Repr`, the 33-byte
/// compressed SEC1 encoding.
#[verifier::external_body]
fn p256_element_repr_len() -> (r: usize)
    ensures
        r == 33,
{
    AsRef::<[u8]>::as_ref(&<::p256::ProjectivePoint as ::group::GroupEncoding>::Repr::default()).len()
}

/// Length of `<p256::Scalar as ff::PrimeField>::Repr`, 32 bytes.
#[verifier::external_body]
fn p256_scalar_repr_len() -> (r: usize)
    ensures
        r == 32,
{
    AsRef::<[u8]>::as_ref(&<::p256::Scalar as ::ff::PrimeField>::Repr::default()).len()
}

/// `<p256::Scalar as ff::PrimeField>::NUM_BITS`, which the crate sets to 256.
#[verifier::external_body]
fn p256_scalar_num_bits() -> (r: u32)
    ensures
        r == 256,
{
    <::p256::Scalar as ::ff::PrimeField>::NUM_BITS
}

/// Length of `<p256::Scalar as spongefish::Decoding>::Repr`, which `spongefish`
/// makes a 64-byte array.
#[verifier::external_body]
fn p256_wide_repr_len() -> (r: usize)
    ensures
        r == 64,
{
    let mut repr = <::p256::Scalar as ::spongefish::Decoding<[u8]>>::Repr::default();
    repr.as_mut().len()
}

/// Reads a point with `spongefish::NargDeserialize` for `p256::ProjectivePoint`
/// (which decodes the 33 bytes with `GroupEncoding::from_bytes`) and writes it
/// back with `spongefish::NargSerialize`. The contract claims only that the
/// result is the one named by `p256_point_from_repr`.
#[verifier::external_body]
fn p256_read_point(repr: &[u8]) -> (r: Option<Vec<u8>>)
    requires
        repr@.len() == 33,
    ensures
        match r {
            Some(e) => p256_point_from_repr(repr@) == Some(e@),
            None => p256_point_from_repr(repr@) is None,
        },
{
    let mut cursor = repr;
    match <::p256::ProjectivePoint as ::spongefish::NargDeserialize>::deserialize_from_narg(&mut cursor) {
        Ok(point) => {
            let mut out = Vec::new();
            ::spongefish::NargSerialize::serialize_into_narg(&point, &mut out);
            Some(out)
        },
        Err(_) => None,
    }
}

/// Reads a scalar with `spongefish::NargDeserialize` for `p256::Scalar`, which
/// succeeds exactly when `p256::Scalar::from_repr` accepts the 32 bytes, that
/// is when they are a big-endian integer below the order.
#[verifier::external_body]
fn p256_scalar_canonical(repr: &[u8]) -> (r: bool)
    requires
        repr@.len() == 32,
    ensures
        r == p256_scalar_is_canonical(repr@),
{
    let mut cursor = repr;
    <::p256::Scalar as ::spongefish::NargDeserialize>::deserialize_from_narg(&mut cursor).is_ok()
}

/// Maps 64 uniform bytes onto a scalar with `spongefish::Decoding` for
/// `p256::Scalar`, which reduces each 32-byte half modulo `n` and computes
/// `high * 2^256 + low` modulo `n`, that is the 64 bytes read as one
/// big-endian integer modulo `n`; the scalar is written with
/// `spongefish::NargSerialize` (`Scalar::to_bytes`, 32 big-endian bytes).
#[verifier::external_body]
fn p256_decode_wide(wide: &[u8]) -> (r: Vec<u8>)
    requires
        wide@.len() == 64,
    ensures
        r@ == p256_scalar(be_nat(wide@)),
{
    let mut repr = <::p256::Scalar as ::spongefish::Decoding<[u8]>>::Repr::default();
    repr.as_mut().copy_from_slice(wide);
    let scalar = <::p256::Scalar as ::spongefish::Decoding<[u8]>>::decode(repr);
    let mut out = Vec::new();
    ::spongefish::NargSerialize::serialize_into_narg(&scalar, &mut out);
    out
}

impl PrimeGroup for P256 {
    open spec fn spec_element_repr_len() -> nat {
        33
    }

    open spec fn spec_scalar_repr_len() -> nat {
        32
    }

    open spec fn spec_scalar_num_bits() -> nat {
        256
    }

    open spec fn spec_wide_repr_len() -> nat {
        64
    }

    open spec fn spec_read_element(repr: Seq<u8>) -> Option<Seq<u8>> {
        p256_point_from_repr(repr)
    }

    open spec fn spec_is_canonical_scalar(repr: Seq<u8>) -> bool {
        p256_scalar_is_canonical(repr)
    }

    open spec fn spec_scalar_from_wide(wide: Seq<u8>) -> Seq<u8> {
        p256_scalar(be_nat(wide))
    }

    open spec fn spec_mul_generator(scalar: Seq<u8>) -> Seq<u8> {
        p256_mul_generator(scalar)
    }

    open spec fn spec_mul(element: Seq<u8>, scalar: Seq<u8>) -> Option<Seq<u8>> {
        p256_point_mul(element, scalar)
    }

    open spec fn spec_add(a: Seq<u8>, b: Seq<u8>) -> Option<Seq<u8>> {
        p256_point_add(a, b)
    }

    open spec fn spec_scalar_add(a: Seq<u8>, b: Seq<u8>) -> Seq<u8> {
        p256_scalar(be_nat(a) + be_nat(b))
    }

    open spec fn spec_scalar_mul(a: Seq<u8>, b: Seq<u8>) -> Seq<u8> {
        p256_scalar(be_nat(a) * be_nat(b))
    }

    open spec fn spec_scalar_neg(s: Seq<u8>) -> Seq<u8> {
        p256_scalar((p256_order() - be_nat(s)) as nat)
    }

    proof fn lemma_uniform_len_fits() {
    }

    proof fn lemma_scalar_ops_canonical(a: Seq<u8>, b: Seq<u8>) {
        lemma_p256_scalar_is_canonical(be_nat(a) + be_nat(b));
        lemma_p256_scalar_is_canonical(be_nat(a) * be_nat(b));
        lemma_p256_scalar_is_canonical((p256_order() - be_nat(a)) as nat);
    }

    proof fn lemma_scalar_from_wide_canonical(wide: Seq<u8>) {
        lemma_p256_scalar_is_canonical(be_nat(wide));
    }

    fn mul_generator(scalar: &[u8]) -> (r: Vec<u8>) {
        p256_mul_gen(scalar)
    }

    fn mul(element: &[u8], scalar: &[u8]) -> (r: Option<Vec<u8>>) {
        p256_mul(element, scalar)
    }

    fn add(a: &[u8], b: &[u8]) -> (r: Option<Vec<u8>>) {
        p256_add(a, b)
    }

    fn scalar_add(a: &[u8], b: &[u8]) -> (r: Vec<u8>) {
        proof {
            lemma_p256_scalar_is_canonical(be_nat(a@) + be_nat(b@));
        }
        p256_scalar_add(a, b)
    }

    fn scalar_mul(a: &[u8], b: &[u8]) -> (r: Vec<u8>) {
        proof {
            lemma_p256_scalar_is_canonical(be_nat(a@) * be_nat(b@));
        }
        p256_scalar_mul(a, b)
    }

    fn scalar_neg(s: &[u8]) -> (r: Vec<u8>) {
        proof {
            lemma_p256_scalar_is_canonical((p256_order() - be_nat(s@)) as nat);
        }
        p256_neg(s)
    }

    fn element_repr_len() -> (r: usize) {
        p256_element_repr_len()
    }

    fn scalar_repr_len() -> (r: usize) {
        p256_scalar_repr_len()
    }

    fn scalar_num_bits() -> (r: u32) {
        p256_scalar_num_bits()
    }

    fn wide_repr_len() -> (r: usize) {
        p256_wide_repr_len()
    }

    fn read_element(repr: &[u8]) -> (r: Option<Vec<u8>>) {
        p256_read_point(repr)
    }

    fn is_canonical_scalar(repr: &[u8]) -> (r: bool) {
        p256_scalar_canonical(repr)
    }

    fn scalar_from_wide(wide: &[u8]) -> (r: Vec<u8>) {
        proof {
            lemma_p256_scalar_is_canonical(be_nat(wide@));
        }
        p256_decode_wide(wide)
    }
}

/// The representation of `value mod n` is 32 bytes long, canonical, and
/// encodes `value mod n`.
pub proof fn lemma_p256_scalar_is_canonical(value: nat)
    ensures
        p256_scalar(value).len() == 32,
        p256_scalar_is_canonical(p256_scalar(value)),
        be_nat(p256_scalar(value)) == value % p256_order(),
{
    lemma_byte_range_32();
    lemma_be_bytes_of_residue(32, value, p256_order());
}

} // verus!
