//! Packet and acknowledgement commitments: SHA-256 digests that bind what
//! the counterparty later proves.
use vstd::prelude::*;

use crate::channel::Packet;
use crate::client::Height;

verus! {

/// The SHA-256 digest of `b`.
pub uninterp spec fn sha256_of(b: Seq<u8>) -> Seq<u8>;

/// Relies on `sha2::Sha256::digest`: the SHA-256 digest of the bytes, which
/// is 32 bytes long.
#[verifier::external_body]
fn sha256(b: &[u8]) -> (r: Vec<u8>)
    ensures
        r@ == sha256_of(b@),
        r@.len() == 32,
{
    <sha2::Sha256 as sha2::Digest>::digest(b).to_vec()
}

/// The byte of `n` at position `k` counted from the least significant end.
pub open spec fn byte_of(n: u64, k: u64) -> u8 {
    ((n >> (8 * k) as u64) & 0xff) as u8
}

/// The eight bytes of `n`, most significant first.
pub open spec fn be64(n: u64) -> Seq<u8> {
    seq![
        byte_of(n, 7),
        byte_of(n, 6),
        byte_of(n, 5),
        byte_of(n, 4),
        byte_of(n, 3),
        byte_of(n, 2),
        byte_of(n, 1),
        byte_of(n, 0),
    ]
}

fn push_be64(out: &mut Vec<u8>, n: u64)
    ensures
        final(out)@ == old(out)@ + be64(n),
{
    let ghost start = out@;
    out.push(((n >> 56u64) & 0xff) as u8);
    out.push(((n >> 48u64) & 0xff) as u8);
    out.push(((n >> 40u64) & 0xff) as u8);
    out.push(((n >> 32u64) & 0xff) as u8);
    out.push(((n >> 24u64) & 0xff) as u8);
    out.push(((n >> 16u64) & 0xff) as u8);
    out.push(((n >> 8u64) & 0xff) as u8);
    out.push((n & 0xff) as u8);
    assert(n >> 0u64 == n) by (bit_vector);
    assert(out@ =~= start + be64(n));
}

/// The revision number and height of a timeout; `(0, 0)` when it is not set.
pub open spec fn timeout_pair(h: Option<Height>) -> (u64, u64) {
    match h {
        Some(h) => h@,
        None => (0, 0),
    }
}

/// `H(be64(timeout_timestamp) || be64(revision) || be64(height) || H(data))`.
pub open spec fn packet_commitment_spec(data: Seq<u8>, timeout_height: Option<Height>, timeout_timestamp: u64) -> Seq<u8> {
    sha256_of(
        be64(timeout_timestamp) + be64(timeout_pair(timeout_height).0) + be64(
            timeout_pair(timeout_height).1,
        ) + sha256_of(data),
    )
}

/// The commitment that the sender of `packet` stores.
pub fn compute_packet_commitment(packet: &Packet) -> (r: Vec<u8>)
    ensures
        r@ == packet_commitment_spec(
            packet.data@,
            packet.timeout_height_on_b,
            packet.timeout_timestamp_on_b,
        ),
{
    let (rev, height) = match &packet.timeout_height_on_b {
        Some(h) => (h.revision_number(), h.revision_height()),
        None => (0u64, 0u64),
    };
    let mut buf: Vec<u8> = Vec::new();
    push_be64(&mut buf, packet.timeout_timestamp_on_b);
    push_be64(&mut buf, rev);
    push_be64(&mut buf, height);
    let data_hash = sha256(packet.data.as_slice());
    let mut i: usize = 0;
    let ghost start = buf@;
    while i < data_hash.len()
        invariant
            i <= data_hash@.len(),
            buf@ == start + data_hash@.subrange(0, i as int),
        decreases data_hash@.len() - i,
    {
        buf.push(data_hash[i]);
        i = i + 1;
        assert(buf@ =~= start + data_hash@.subrange(0, i as int));
    }
    assert(data_hash@.subrange(0, data_hash@.len() as int) =~= data_hash@);
    sha256(buf.as_slice())
}

/// Compares two byte strings.
pub fn bytes_eq(a: &Vec<u8>, b: &Vec<u8>) -> (r: bool)
    ensures
        r == (a@ == b@),
{
    if a.len() != b.len() {
        return false;
    }
    let mut i: usize = 0;
    while i < a.len()
        invariant
            a@.len() == b@.len(),
            i <= a@.len(),
            forall|j: int| 0 <= j < i ==> a@[j] == b@[j],
        decreases a@.len() - i,
    {
        if a[i] != b[i] {
            return false;
        }
        i = i + 1;
    }
    assert(a@ =~= b@);
    true
}

/// The commitment that the receiver stores for the acknowledgement `ack`.
pub fn compute_ack_commitment(ack: &Vec<u8>) -> (r: Vec<u8>)
    ensures
        r@ == sha256_of(ack@),
{
    sha256(ack.as_slice())
}

} // verus!
