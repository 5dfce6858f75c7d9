//! Serialization and deserialization of the prover messages that make up a
//! proof: group elements and scalars, read and written in their canonical
//! encodings.

use vstd::prelude::*;
use crate::errors::Error;
use super::{GroupElement, PrimeGroup};

verus! {

/// A message that can be written to, and read back from, a NARG string (the
/// byte string of a non-interactive proof).
///
/// A message is identified by its NARG bytes: two messages with the same
/// bytes are the same message.
pub trait NargMessage: Sized {
    /// The bytes that serializing the message appends to a NARG string.
    spec fn narg_bytes(&self) -> Seq<u8>;

    /// What reading a message from the front of `buf` gives: the NARG bytes of
    /// the message read and the number of bytes consumed, or `None` when the
    /// front of `buf` holds no message of this type.
    spec fn narg_read(buf: Seq<u8>) -> Option<(Seq<u8>, nat)>;

    /// Appends the message's NARG bytes to `out`.
    fn serialize_into_narg(&self, out: &mut Vec<u8>)
        ensures
            final(out)@ == old(out)@ + self.narg_bytes(),
    ;

    /// Reads a message from the front of `buf`, and says how many bytes it
    /// consumed.
    fn deserialize_from_narg(buf: &[u8]) -> (r: Option<(Self, usize)>)
        ensures
            match r {
                Some((m, n)) => Self::narg_read(buf@) == Some((m.narg_bytes(), n as nat))
                    && n <= buf@.len(),
                None => Self::narg_read(buf@) is None,
            },
    ;

    /// Whether two messages are the same message.
    fn narg_eq(&self, other: &Self) -> (r: bool)
        ensures
            r == (self.narg_bytes() == other.narg_bytes()),
    ;
}

/// The NARG bytes of each message of `messages`, in order.
pub open spec fn narg_parts<T: NargMessage>(messages: Seq<T>) -> Seq<Seq<u8>> {
    messages.map_values(|m: T| m.narg_bytes())
}

/// The concatenation of byte strings.
pub open spec fn concat_bytes(parts: Seq<Seq<u8>>) -> Seq<u8>
    decreases parts.len(),
{
    if parts.len() == 0 {
        seq![]
    } else {
        concat_bytes(parts.drop_last()) + parts.last()
    }
}

/// The NARG string of a list of messages: their NARG bytes, one after the other.
pub open spec fn messages_bytes<T: NargMessage>(messages: Seq<T>) -> Seq<u8> {
    concat_bytes(narg_parts(messages))
}

/// What reading `len` messages of type `T`, one after the other, from the
/// front of `buf` gives: the NARG bytes of each message and the number of
/// bytes consumed, or `None` when one of them cannot be read.
pub open spec fn read_messages<T: NargMessage>(len: nat, buf: Seq<u8>) -> Option<(Seq<Seq<u8>>, nat)>
    decreases len,
{
    if len == 0 {
        Some((seq![], 0))
    } else {
        match read_messages::<T>((len - 1) as nat, buf) {
            None => None,
            Some((parts, used)) => match T::narg_read(buf.skip(used as int)) {
                None => None,
                Some((part, n)) => Some((parts.push(part), used + n)),
            },
        }
    }
}

/// Appends `bytes` to `out`.
pub(crate) fn append_bytes(out: &mut Vec<u8>, bytes: &[u8])
    ensures
        final(out)@ == old(out)@ + bytes@,
{
    out.extend_from_slice(bytes);
    assert(out@ =~= old(out)@ + bytes@);
}

/// Whether two byte strings are equal.
pub(crate) fn bytes_eq(a: &[u8], b: &[u8]) -> (r: bool)
    ensures
        r == (a@ == b@),
{
    if a.len() != b.len() {
        return false;
    }
    let mut i: usize = 0;
    while i < a.len()
        invariant
            a@.len() == b@.len(),
            i <= a@.len(),
            forall|j: int| 0 <= j < i ==> a@[j] == b@[j],
        decreases a@.len() - i,
    {
        if a[i] != b[i] {
            return false;
        }
        i = i + 1;
    }
    assert(a@ =~= b@);
    true
}

/// The number of bytes of the serialized representation of a group element:
/// reading any element from a proof consumes exactly that many bytes.
pub fn group_elt_serialized_len<G: PrimeGroup>() -> (r: usize)
    ensures
        r == G::spec_element_repr_len(),
        forall|buf: Seq<u8>| #[trigger] GroupElement::<G>::narg_read(buf) matches Some((_, n)) ==> n == r,
{
    G::element_repr_len()
}

/// Appends the NARG bytes of each message to `out`, in order.
pub fn serialize_messages_into<T: NargMessage>(messages: &[T], out: &mut Vec<u8>)
    ensures
        final(out)@ == old(out)@ + messages_bytes(messages@),
{
    let mut i: usize = 0;
    while i < messages.len()
        invariant
            i <= messages@.len(),
            out@ == old(out)@ + messages_bytes(messages@.take(i as int)),
        decreases messages@.len() - i,
    {
        let ghost before = out@;
        messages[i].serialize_into_narg(out);
        proof {
            let taken = messages@.take(i as int + 1);
            assert(taken.drop_last() =~= messages@.take(i as int));
            assert(narg_parts(taken).drop_last() =~= narg_parts(taken.drop_last()));
            assert(out@ =~= old(out)@ + messages_bytes(taken));
        }
        i = i + 1;
    }
    assert(messages@.take(messages@.len() as int) =~= messages@);
}

/// The NARG string of a list of messages.
pub fn serialize_messages<T: NargMessage>(messages: &[T]) -> (r: Vec<u8>)
    ensures
        r@ == messages_bytes(messages@),
{
    let mut out = Vec::new();
    serialize_messages_into(messages, &mut out);
    assert(out@ =~= messages_bytes(messages@));
    out
}

/// Reads `len` messages, one after the other, from the front of `*buf`, and
/// advances `*buf` past them. Fails with `Error::VerificationFailure` when one
/// of them cannot be read.
pub fn deserialize_messages<T: NargMessage>(len: usize, buf: &mut &[u8]) -> (r: Result<Vec<T>, Error>)
    ensures
        match read_messages::<T>(len as nat, old(buf)@) {
            Some((parts, used)) => r matches Ok(v) && narg_parts(v@) == parts
                && used <= old(buf)@.len()
                && final(buf)@ == old(buf)@.skip(used as int),
            None => r == Err::<Vec<T>, Error>(Error::VerificationFailure),
        },
{
    let ghost start = *buf;
    assert(start@ == old(buf)@);
    let total: usize = buf.len();
    let mut out: Vec<T> = Vec::new();
    let mut i: usize = 0;
    let mut used: usize = 0;
    while i < len
        invariant
            i <= len,
            used <= start@.len(),
            total == start@.len(),
            start@ == old(buf)@,
            buf@ == start@.skip(used as int),
            read_messages::<T>(i as nat, start@) == Some((narg_parts(out@), used as nat)),
        decreases len - i,
    {
        let cur: &[u8] = *buf;
        match T::deserialize_from_narg(cur) {
            Some((m, n)) => {
                proof {
                    assert(start@.skip(used as int) =~= cur@);
                }
                let rest = &cur[n..cur.len()];
                *buf = rest;
                out.push(m);
                proof {
                    assert(narg_parts(out@) =~= narg_parts(out@.drop_last()).push(m.narg_bytes()));
                    assert(rest@ =~= start@.skip(used as int + n as int));
                }
                used = used + n;
                i = i + 1;
            },
            None => {
                proof {
                    assert(start@.skip(used as int) =~= cur@);
                    lemma_read_messages_fails_after::<T>(i as nat, len as nat, start@);
                }
                return Err(Error::VerificationFailure);
            },
        }
    }
    Ok(out)
}

/// Once reading `i` messages fails, or reading one more message after them
/// fails, reading any `len > i` messages fails.
proof fn lemma_read_messages_fails_after<T: NargMessage>(i: nat, len: nat, buf: Seq<u8>)
    requires
        i < len,
        match read_messages::<T>(i, buf) {
            None => true,
            Some((_, used)) => T::narg_read(buf.skip(used as int)) is None,
        },
    ensures
        read_messages::<T>(len, buf) is None,
    decreases len - i,
{
    if len == i + 1 {
    } else {
        lemma_read_messages_fails_after::<T>(i, (len - 1) as nat, buf);
    }
}

/// Whether the message with NARG bytes `part` is read back from any buffer
/// that starts with `part`, consuming exactly `part`.
pub open spec fn reads_back<T: NargMessage>(part: Seq<u8>) -> bool {
    forall|rest: Seq<u8>| #[trigger] T::narg_read(part + rest) == Some((part, part.len()))
}

/// Reading back what was written: reading `parts.len()` messages from the
/// concatenation of their NARG bytes, followed by anything, gives those
/// messages and consumes exactly their bytes, provided each message reads
/// back.
pub proof fn lemma_read_messages_of_concat<T: NargMessage>(parts: Seq<Seq<u8>>, rest: Seq<u8>)
    requires
        forall|i: int| 0 <= i < parts.len() ==> reads_back::<T>(#[trigger] parts[i]),
    ensures
        read_messages::<T>(parts.len(), concat_bytes(parts) + rest)
            == Some((parts, concat_bytes(parts).len())),
    decreases parts.len(),
{
    if parts.len() > 0 {
        let init = parts.drop_last();
        let last = parts.last();
        assert(forall|i: int| 0 <= i < init.len() ==> init[i] == parts[i]);
        let buf = concat_bytes(parts) + rest;
        assert(buf =~= concat_bytes(init) + (last + rest));
        lemma_read_messages_of_concat::<T>(init, last + rest);
        let used = concat_bytes(init).len();
        assert(buf.skip(used as int) =~= last + rest);
        assert(reads_back::<T>(parts[parts.len() - 1]));
        assert(T::narg_read(last + rest) == Some((last, last.len())));
        assert(init.push(last) =~= parts);
    }
}

} // verus!
