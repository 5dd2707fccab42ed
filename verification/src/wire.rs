//! The two bytes of a DNS datagram that the forwarder reads and rewrites.
//!
//! Every DNS message starts with a 16-bit transaction identifier in network
//! byte order. The forwarder is transparent to everything behind it: it reads
//! the identifier, replaces it on the copy that goes upstream, and puts the
//! client's own identifier back on the reply.

use vstd::prelude::*;

verus! {

/// The 16-bit number whose big-endian encoding is `hi`, `lo`.
pub open spec fn be16(hi: u8, lo: u8) -> u16 {
    (hi as int * 256 + lo as int) as u16
}

/// Whether a datagram is long enough to hold a transaction identifier.
pub open spec fn has_id(bytes: Seq<u8>) -> bool {
    bytes.len() >= 2
}

/// The transaction identifier of a datagram: its first two bytes, big-endian.
pub open spec fn id_of(bytes: Seq<u8>) -> u16
    recommends
        has_id(bytes),
{
    be16(bytes[0], bytes[1])
}

/// The datagram `bytes` with its transaction identifier replaced by `id`.
/// Everything from the third byte on is kept.
pub open spec fn with_id(bytes: Seq<u8>, id: u16) -> Seq<u8>
    recommends
        has_id(bytes),
{
    bytes.update(0, (id / 256) as u8).update(1, (id % 256) as u8)
}

/// `simple_dns::header_buffer::id_unchecked` reads the packet identifier from
/// the head of a buffer: `u16::from_be_bytes` of its first two bytes. It panics
/// on a buffer of fewer than two bytes, which the precondition rules out.
pub assume_specification[ simple_dns::header_buffer::id_unchecked ](buffer: &[u8]) -> (id: u16)
    requires
        buffer@.len() >= 2,
    ensures
        id == be16(buffer@[0], buffer@[1]),
;

/// Reads the transaction identifier of a datagram, if it is long enough to
/// have one. Nothing behind the first two bytes is looked at, so a datagram
/// that is no well-formed DNS message still has an identifier.
pub fn transaction_id(datagram: &Vec<u8>) -> (id: Option<u16>)
    ensures
        has_id(datagram@) ==> id == Some(id_of(datagram@)),
        !has_id(datagram@) ==> id is None,
{
    if datagram.len() >= 2 {
        Some(simple_dns::header_buffer::id_unchecked(datagram.as_slice()))
    } else {
        None
    }
}

/// Overwrites the transaction identifier of a datagram with `id` and reports
/// whether there was room for it. A datagram of fewer than two bytes is left
/// as it is.
pub fn set_transaction_id(datagram: &mut Vec<u8>, id: u16) -> (done: bool)
    ensures
        done == has_id(old(datagram)@),
        done ==> final(datagram)@ == with_id(old(datagram)@, id),
        !done ==> final(datagram)@ == old(datagram)@,
{
    if datagram.len() < 2 {
        return false;
    }
    let hi: u8 = (id / 256) as u8;
    let lo: u8 = (id % 256) as u8;
    datagram[0] = hi;
    datagram[1] = lo;
    true
}

/// Writing an identifier and reading it back gives the identifier written,
/// and touches nothing but the first two bytes.
pub proof fn lemma_with_id_reads_back(bytes: Seq<u8>, id: u16)
    requires
        has_id(bytes),
    ensures
        has_id(with_id(bytes, id)),
        id_of(with_id(bytes, id)) == id,
        with_id(bytes, id).len() == bytes.len(),
        forall|i: int| 2 <= i < bytes.len() ==> with_id(bytes, id)[i] == bytes[i],
{
}

/// Writing back the identifier that a datagram already has changes nothing.
pub proof fn lemma_with_own_id(bytes: Seq<u8>)
    requires
        has_id(bytes),
    ensures
        with_id(bytes, id_of(bytes)) == bytes,
{
    assert(with_id(bytes, id_of(bytes)) =~= bytes);
}

/// A datagram that was given the identifier of another starts with the first
/// two bytes of the other.
pub proof fn lemma_with_id_of_copies_head(bytes: Seq<u8>, source: Seq<u8>)
    requires
        has_id(bytes),
        has_id(source),
    ensures
        with_id(bytes, id_of(source))[0] == source[0],
        with_id(bytes, id_of(source))[1] == source[1],
        with_id(bytes, id_of(source)).len() == bytes.len(),
        forall|i: int| 2 <= i < bytes.len() ==> with_id(bytes, id_of(source))[i] == bytes[i],
{
}

/// Two datagrams have the same identifier exactly when they agree in their
/// first two bytes.
pub proof fn lemma_same_id_same_head(a: Seq<u8>, b: Seq<u8>)
    requires
        has_id(a),
        has_id(b),
    ensures
        id_of(a) == id_of(b) <==> (a[0] == b[0] && a[1] == b[1]),
{
}

} // verus!
