//! Byte-level description of the prime-order groups that proofs are built over,
//! and the group elements and scalars that travel in proofs.

pub mod big_endian;
pub mod bls12_381;
pub mod p256;
pub mod serialization;

use core::marker::PhantomData;
use vstd::prelude::*;
use serialization::{append_bytes, bytes_eq, reads_back, NargMessage};

pub use self::bls12_381::Bls12381G1;
pub use self::p256::P256;

verus! {

/// A prime-order group, described by the canonical encodings of its elements
/// and of its scalars.
///
/// A group element is read from a representation of `element_repr_len()` bytes,
/// and is written to a proof as its NARG encoding. A scalar is read from, and
/// written as, its canonical big-endian representation of `scalar_repr_len()`
/// bytes. A uniformly distributed scalar is obtained from `wide_repr_len()`
/// uniform bytes.
pub trait PrimeGroup: Sized {
    /// Length in bytes of the representation an element is read from.
    spec fn spec_element_repr_len() -> nat;

    /// Length in bytes of a scalar's canonical representation.
    spec fn spec_scalar_repr_len() -> nat;

    /// Bit length of the group order.
    spec fn spec_scalar_num_bits() -> nat;

    /// Length in bytes of the input of the uniform map onto scalars.
    spec fn spec_wide_repr_len() -> nat;

    /// The NARG encoding of the element that `repr` represents, or `None`
    /// when `repr` represents no element.
    spec fn spec_read_element(repr: Seq<u8>) -> Option<Seq<u8>>;

    /// Whether `repr` is the canonical representation of a scalar.
    spec fn spec_is_canonical_scalar(repr: Seq<u8>) -> bool;

    /// The canonical representation of the scalar that the uniform map sends
    /// `wide` to.
    spec fn spec_scalar_from_wide(wide: Seq<u8>) -> Seq<u8>;

    /// NARG encoding of the generator multiplied by the scalar `scalar`.
    spec fn spec_mul_generator(scalar: Seq<u8>) -> Seq<u8>;

    /// NARG encoding of the element with NARG encoding `element` multiplied by
    /// the scalar `scalar`, or `None` when `element` encodes no element.
    spec fn spec_mul(element: Seq<u8>, scalar: Seq<u8>) -> Option<Seq<u8>>;

    /// NARG encoding of the sum of the elements with NARG encodings `a` and
    /// `b`, or `None` when one of them encodes no element.
    spec fn spec_add(a: Seq<u8>, b: Seq<u8>) -> Option<Seq<u8>>;

    /// Canonical representation of the scalar `a + b`.
    spec fn spec_scalar_add(a: Seq<u8>, b: Seq<u8>) -> Seq<u8>;

    /// Canonical representation of the scalar `a * b`.
    spec fn spec_scalar_mul(a: Seq<u8>, b: Seq<u8>) -> Seq<u8>;

    /// Canonical representation of the scalar `-s`.
    spec fn spec_scalar_neg(s: Seq<u8>) -> Seq<u8>;

    /// Length in bytes of the representation an element is read from.
    fn element_repr_len() -> (r: usize)
        ensures
            r == Self::spec_element_repr_len(),
    ;

    /// Length in bytes of a scalar's canonical representation.
    fn scalar_repr_len() -> (r: usize)
        ensures
            r == Self::spec_scalar_repr_len(),
    ;

    /// Bit length of the group order.
    fn scalar_num_bits() -> (r: u32)
        ensures
            r == Self::spec_scalar_num_bits(),
    ;

    /// Length in bytes of the input of the uniform map onto scalars.
    fn wide_repr_len() -> (r: usize)
        ensures
            r == Self::spec_wide_repr_len(),
    ;

    /// Reads the element that `repr` represents and gives its NARG encoding.
    fn read_element(repr: &[u8]) -> (r: Option<Vec<u8>>)
        requires
            repr@.len() == Self::spec_element_repr_len(),
        ensures
            match r {
                Some(e) => Self::spec_read_element(repr@) == Some(e@),
                None => Self::spec_read_element(repr@) is None,
            },
    ;

    /// Whether `repr` is the canonical representation of a scalar.
    fn is_canonical_scalar(repr: &[u8]) -> (r: bool)
        requires
            repr@.len() == Self::spec_scalar_repr_len(),
        ensures
            r == Self::spec_is_canonical_scalar(repr@),
    ;

    /// The generator multiplied by a scalar.
    fn mul_generator(scalar: &[u8]) -> (r: Vec<u8>)
        requires
            scalar@.len() == Self::spec_scalar_repr_len() && Self::spec_is_canonical_scalar(scalar@),
        ensures
            r@ == Self::spec_mul_generator(scalar@),
    ;

    /// An element multiplied by a scalar.
    fn mul(element: &[u8], scalar: &[u8]) -> (r: Option<Vec<u8>>)
        requires
            scalar@.len() == Self::spec_scalar_repr_len() && Self::spec_is_canonical_scalar(scalar@),
        ensures
            match r {
                Some(e) => Self::spec_mul(element@, scalar@) == Some(e@),
                None => Self::spec_mul(element@, scalar@) is None,
            },
    ;

    /// The sum of two elements.
    fn add(a: &[u8], b: &[u8]) -> (r: Option<Vec<u8>>)
        ensures
            match r {
                Some(e) => Self::spec_add(a@, b@) == Some(e@),
                None => Self::spec_add(a@, b@) is None,
            },
    ;

    /// The scalar `a + b`.
    fn scalar_add(a: &[u8], b: &[u8]) -> (r: Vec<u8>)
        requires
            a@.len() == Self::spec_scalar_repr_len() && Self::spec_is_canonical_scalar(a@),
            b@.len() == Self::spec_scalar_repr_len() && Self::spec_is_canonical_scalar(b@),
        ensures
            r@ == Self::spec_scalar_add(a@, b@),
            r@.len() == Self::spec_scalar_repr_len() && Self::spec_is_canonical_scalar(r@),
    ;

    /// The scalar `a * b`.
    fn scalar_mul(a: &[u8], b: &[u8]) -> (r: Vec<u8>)
        requires
            a@.len() == Self::spec_scalar_repr_len() && Self::spec_is_canonical_scalar(a@),
            b@.len() == Self::spec_scalar_repr_len() && Self::spec_is_canonical_scalar(b@),
        ensures
            r@ == Self::spec_scalar_mul(a@, b@),
            r@.len() == Self::spec_scalar_repr_len() && Self::spec_is_canonical_scalar(r@),
    ;

    /// The scalar `-s`.
    fn scalar_neg(s: &[u8]) -> (r: Vec<u8>)
        requires
            s@.len() == Self::spec_scalar_repr_len() && Self::spec_is_canonical_scalar(s@),
        ensures
            r@ == Self::spec_scalar_neg(s@),
            r@.len() == Self::spec_scalar_repr_len() && Self::spec_is_canonical_scalar(r@),
    ;

    /// The uniform bytes needed for a scalar, `ceil(num_bits / 8) + 16`, fit
    /// in the input of the uniform map, and the bit length is small.
    proof fn lemma_uniform_len_fits()
        ensures
            Self::spec_scalar_num_bits() <= 65536,
            (Self::spec_scalar_num_bits() + 7) / 8 + 16 <= Self::spec_wide_repr_len(),
    ;

    /// Scalar addition, multiplication and negation give canonical
    /// representations.
    proof fn lemma_scalar_ops_canonical(a: Seq<u8>, b: Seq<u8>)
        requires
            a.len() == Self::spec_scalar_repr_len() && Self::spec_is_canonical_scalar(a),
            b.len() == Self::spec_scalar_repr_len() && Self::spec_is_canonical_scalar(b),
        ensures
            Self::spec_scalar_add(a, b).len() == Self::spec_scalar_repr_len(),
            Self::spec_is_canonical_scalar(Self::spec_scalar_add(a, b)),
            Self::spec_scalar_mul(a, b).len() == Self::spec_scalar_repr_len(),
            Self::spec_is_canonical_scalar(Self::spec_scalar_mul(a, b)),
            Self::spec_scalar_neg(a).len() == Self::spec_scalar_repr_len(),
            Self::spec_is_canonical_scalar(Self::spec_scalar_neg(a)),
    ;

    /// The uniform map gives canonical representations.
    proof fn lemma_scalar_from_wide_canonical(wide: Seq<u8>)
        ensures
            Self::spec_scalar_from_wide(wide).len() == Self::spec_scalar_repr_len(),
            Self::spec_is_canonical_scalar(Self::spec_scalar_from_wide(wide)),
    ;

    /// Maps `wide_repr_len()` uniform bytes onto a scalar.
    fn scalar_from_wide(wide: &[u8]) -> (r: Vec<u8>)
        requires
            wide@.len() == Self::spec_wide_repr_len(),
        ensures
            r@ == Self::spec_scalar_from_wide(wide@),
            r@.len() == Self::spec_scalar_repr_len(),
            Self::spec_is_canonical_scalar(r@),
    ;
}

/// Whether `repr` is the canonical representation of a scalar of `G`, of the
/// right length.
pub open spec fn is_scalar_repr<G: PrimeGroup>(repr: Seq<u8>) -> bool {
    repr.len() == G::spec_scalar_repr_len() && G::spec_is_canonical_scalar(repr)
}

/// An element of the group `G`, held as its NARG encoding.
pub struct GroupElement<G: PrimeGroup> {
    narg: Vec<u8>,
    _group: PhantomData<G>,
}

/// A scalar of the group `G`, held as its canonical representation, which is
/// also its NARG encoding.
pub struct Scalar<G: PrimeGroup> {
    repr: Vec<u8>,
    _group: PhantomData<G>,
}

impl<G: PrimeGroup> GroupElement<G> {
    /// The generator multiplied by `scalar`.
    pub fn mul_generator(scalar: &Scalar<G>) -> (r: Self)
        ensures
            r.narg_bytes() == G::spec_mul_generator(scalar.narg_bytes()),
    {
        proof {
            use_type_invariant(scalar);
        }
        GroupElement { narg: G::mul_generator(scalar.repr.as_slice()), _group: PhantomData }
    }

    /// The element multiplied by `scalar`; `None` when the element's encoding
    /// does not decode.
    pub fn mul(&self, scalar: &Scalar<G>) -> (r: Option<Self>)
        ensures
            match r {
                Some(e) => G::spec_mul(self.narg_bytes(), scalar.narg_bytes()) == Some(e.narg_bytes()),
                None => G::spec_mul(self.narg_bytes(), scalar.narg_bytes()) is None,
            },
    {
        proof {
            use_type_invariant(scalar);
        }
        match G::mul(self.narg.as_slice(), scalar.repr.as_slice()) {
            Some(narg) => Some(GroupElement { narg, _group: PhantomData }),
            None => None,
        }
    }

    /// The sum of two elements; `None` when an encoding does not decode.
    pub fn add(&self, other: &Self) -> (r: Option<Self>)
        ensures
            match r {
                Some(e) => G::spec_add(self.narg_bytes(), other.narg_bytes()) == Some(e.narg_bytes()),
                None => G::spec_add(self.narg_bytes(), other.narg_bytes()) is None,
            },
    {
        match G::add(self.narg.as_slice(), other.narg.as_slice()) {
            Some(narg) => Some(GroupElement { narg, _group: PhantomData }),
            None => None,
        }
    }

    /// The element's NARG encoding.
    pub fn to_narg_bytes(&self) -> (r: Vec<u8>)
        ensures
            r@ == self.narg_bytes(),
    {
        self.narg.clone()
    }

    /// Reads an element from `bytes`, which must hold exactly its
    /// representation.
    pub fn from_narg_bytes(bytes: &[u8]) -> (r: Option<Self>)
        ensures
            match r {
                Some(e) => Self::narg_read(bytes@) == Some((e.narg_bytes(), bytes@.len())),
                None => !(Self::narg_read(bytes@) matches Some((_, n)) && n == bytes@.len()),
            },
    {
        match Self::deserialize_from_narg(bytes) {
            Some((e, n)) => if n == bytes.len() {
                Some(e)
            } else {
                None
            },
            None => None,
        }
    }
}

impl<G: PrimeGroup> NargMessage for GroupElement<G> {
    closed spec fn narg_bytes(&self) -> Seq<u8> {
        self.narg@
    }

    open spec fn narg_read(buf: Seq<u8>) -> Option<(Seq<u8>, nat)> {
        let n = G::spec_element_repr_len();
        if buf.len() < n {
            None
        } else {
            match G::spec_read_element(buf.take(n as int)) {
                Some(e) => Some((e, n)),
                None => None,
            }
        }
    }

    fn serialize_into_narg(&self, out: &mut Vec<u8>) {
        append_bytes(out, self.narg.as_slice());
    }

    fn deserialize_from_narg(buf: &[u8]) -> (r: Option<(Self, usize)>) {
        let n = G::element_repr_len();
        if buf.len() < n {
            return None;
        }
        let repr = &buf[0..n];
        match G::read_element(repr) {
            Some(narg) => Some((GroupElement { narg, _group: PhantomData }, n)),
            None => None,
        }
    }

    fn narg_eq(&self, other: &Self) -> (r: bool) {
        bytes_eq(self.narg.as_slice(), other.narg.as_slice())
    }
}

impl<G: PrimeGroup> Scalar<G> {
    /// A scalar holds a canonical representation of the right length.
    #[verifier::type_invariant]
    pub open spec fn is_canonical(self) -> bool {
        is_scalar_repr::<G>(self.narg_bytes())
    }

    /// The scalar `a + b * c`.
    pub fn mul_add(a: &Self, b: &Self, c: &Self) -> (r: Self)
        ensures
            r.narg_bytes() == G::spec_scalar_add(a.narg_bytes(), G::spec_scalar_mul(b.narg_bytes(), c.narg_bytes())),
    {
        proof {
            use_type_invariant(a);
            use_type_invariant(b);
            use_type_invariant(c);
        }
        let product = G::scalar_mul(b.repr.as_slice(), c.repr.as_slice());
        Scalar { repr: G::scalar_add(a.repr.as_slice(), product.as_slice()), _group: PhantomData }
    }

    /// The scalar `-self`.
    pub fn neg(&self) -> (r: Self)
        ensures
            r.narg_bytes() == G::spec_scalar_neg(self.narg_bytes()),
    {
        proof {
            use_type_invariant(self);
        }
        Scalar { repr: G::scalar_neg(self.repr.as_slice()), _group: PhantomData }
    }

    /// The scalar's canonical representation.
    pub fn to_narg_bytes(&self) -> (r: Vec<u8>)
        ensures
            r@ == self.narg_bytes(),
    {
        self.repr.clone()
    }

    /// Reads a scalar from `bytes`, which must hold exactly its canonical
    /// representation.
    pub fn from_narg_bytes(bytes: &[u8]) -> (r: Option<Self>)
        ensures
            match r {
                Some(s) => s.narg_bytes() == bytes@ && Self::narg_read(bytes@) == Some((bytes@, bytes@.len())),
                None => !(Self::narg_read(bytes@) matches Some((_, n)) && n == bytes@.len()),
            },
    {
        match Self::deserialize_from_narg(bytes) {
            Some((s, n)) => if n == bytes.len() {
                assert(bytes@.take(n as int) =~= bytes@);
                Some(s)
            } else {
                None
            },
            None => None,
        }
    }

    /// The scalar that the uniform map of `G` sends `wide` to.
    pub fn from_uniform(wide: &[u8]) -> (r: Self)
        requires
            wide@.len() == G::spec_wide_repr_len(),
        ensures
            r.narg_bytes() == G::spec_scalar_from_wide(wide@),
    {
        Scalar { repr: G::scalar_from_wide(wide), _group: PhantomData }
    }
}

impl<G: PrimeGroup> Clone for Scalar<G> {
    fn clone(&self) -> (r: Self)
        ensures
            r.narg_bytes() == self.narg_bytes(),
    {
        proof {
            use_type_invariant(self);
        }
        Scalar { repr: self.repr.clone(), _group: PhantomData }
    }
}

impl<G: PrimeGroup> Clone for GroupElement<G> {
    fn clone(&self) -> (r: Self)
        ensures
            r.narg_bytes() == self.narg_bytes(),
    {
        GroupElement { narg: self.narg.clone(), _group: PhantomData }
    }
}

impl<G: PrimeGroup> NargMessage for Scalar<G> {
    closed spec fn narg_bytes(&self) -> Seq<u8> {
        self.repr@
    }

    open spec fn narg_read(buf: Seq<u8>) -> Option<(Seq<u8>, nat)> {
        let n = G::spec_scalar_repr_len();
        if buf.len() >= n && G::spec_is_canonical_scalar(buf.take(n as int)) {
            Some((buf.take(n as int), n))
        } else {
            None
        }
    }

    fn serialize_into_narg(&self, out: &mut Vec<u8>) {
        append_bytes(out, self.repr.as_slice());
    }

    fn deserialize_from_narg(buf: &[u8]) -> (r: Option<(Self, usize)>) {
        let n = G::scalar_repr_len();
        if buf.len() < n {
            return None;
        }
        let repr = &buf[0..n];
        if G::is_canonical_scalar(repr) {
            Some((Scalar { repr: vstd::slice::slice_to_vec(repr), _group: PhantomData }, n))
        } else {
            None
        }
    }

    fn narg_eq(&self, other: &Self) -> (r: bool) {
        bytes_eq(self.repr.as_slice(), other.repr.as_slice())
    }
}

/// A canonical scalar representation is read back as itself: reading a
/// scalar from a buffer that starts with it gives that scalar and consumes
/// exactly its bytes.
pub proof fn lemma_scalar_reads_back<G: PrimeGroup>(repr: Seq<u8>)
    requires
        repr.len() == G::spec_scalar_repr_len(),
        G::spec_is_canonical_scalar(repr),
    ensures
        reads_back::<Scalar<G>>(repr),
{
    assert forall|rest: Seq<u8>| #[trigger] Scalar::<G>::narg_read(repr + rest) == Some((repr, repr.len())) by {
        assert((repr + rest).take(repr.len() as int) =~= repr);
    }
}

} // verus!
