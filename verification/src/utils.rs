//! Hashing helpers: the 256-bit hash used throughout, and the digests that
//! messages and vouchers are signed over.

use vstd::prelude::*;

verus! {

/// The BLAKE2b hash of `data` with an output of `length` bytes, as
/// `blake2b_simd` computes it.
pub uninterp spec fn blake2b_digest(length: nat, data: Seq<u8>) -> Seq<u8>;

/// Calls `blake2b_simd::Params::hash_length`, `to_state`, `update` and
/// `finalize`: the unkeyed BLAKE2b hash of `data` with `length` output bytes.
/// The crate accepts output lengths from 1 to 64 and returns exactly that many
/// bytes.
#[verifier::external_body]
fn blake2b(length: usize, data: &[u8]) -> (digest: Vec<u8>)
    requires
        1 <= length <= 64,
    ensures
        digest@ == blake2b_digest(length as nat, data@),
        digest@.len() == length,
{
    blake2b_simd::Params::new().hash_length(length).to_state().update(data).finalize().as_bytes().to_vec()
}

/// The 256-bit hash of `data`.
pub open spec fn blake2b_256_digest(data: Seq<u8>) -> Seq<u8> {
    blake2b_digest(32, data)
}

/// The fixed head of the content identifier of a binary object: version 1,
/// the binary-object codec, the 256-bit hash function, a digest of 32 bytes.
pub open spec fn cid_prefix() -> Seq<u8> {
    seq![0x01u8, 0x71u8, 0xa0u8, 0xe4u8, 0x02u8, 0x20u8]
}

/// The bytes of the content identifier of an encoded object: the fixed head
/// followed by the 256-bit hash of the encoding. A message is signed over
/// these bytes.
pub open spec fn cid_bytes_of(encoded: Seq<u8>) -> Seq<u8> {
    cid_prefix() + blake2b_256_digest(encoded)
}

/// The 32-byte digest that the elliptic-curve scheme signs for an encoded
/// message: the hash of its content identifier.
pub open spec fn message_digest(encoded: Seq<u8>) -> Seq<u8> {
    blake2b_256_digest(cid_bytes_of(encoded))
}

/// The 32-byte digest that is signed for a voucher: the hash of its signing
/// bytes, with no content identifier in between.
pub open spec fn voucher_digest(signing_bytes: Seq<u8>) -> Seq<u8> {
    blake2b_256_digest(signing_bytes)
}

/// The byte strings that a list of vectors holds, in the same order.
pub open spec fn byte_strings(list: Seq<Vec<u8>>) -> Seq<Seq<u8>> {
    Seq::new(list.len(), |i: int| list[i]@)
}

/// Whether two byte strings hold the same bytes.
pub fn bytes_eq(a: &[u8], b: &[u8]) -> (same: bool)
    ensures
        same == (a@ == b@),
{
    if a.len() != b.len() {
        return false;
    }
    let n = a.len();
    let mut i: usize = 0;
    while i < n
        invariant
            i <= n,
            n == a@.len(),
            n == b@.len(),
            a@.take(i as int) == b@.take(i as int),
        decreases n - i,
    {
        if a[i] != b[i] {
            return false;
        }
        assert(a@.take(i + 1) == a@.take(i as int).push(a@[i as int]));
        assert(b@.take(i + 1) == b@.take(i as int).push(b@[i as int]));
        i = i + 1;
    }
    assert(a@.take(n as int) == a@);
    assert(b@.take(n as int) == b@);
    true
}

/// Copies the bytes from position `from` up to, not including, position `to`.
pub fn copy_range(bytes: &[u8], from: usize, to: usize) -> (part: Vec<u8>)
    requires
        from <= to <= bytes@.len(),
    ensures
        part@ == bytes@.subrange(from as int, to as int),
{
    let mut part: Vec<u8> = Vec::new();
    let mut i: usize = from;
    while i < to
        invariant
            from <= i <= to,
            to <= bytes@.len(),
            part@ == bytes@.subrange(from as int, i as int),
        decreases to - i,
    {
        part.push(bytes[i]);
        assert(bytes@.subrange(from as int, i + 1) == bytes@.subrange(from as int, i as int).push(
            bytes@[i as int],
        ));
        i = i + 1;
    }
    part
}

/// Copies `N` bytes into an array.
pub fn array_of<const N: usize>(bytes: &[u8]) -> (a: [u8; N])
    requires
        bytes@.len() == N,
    ensures
        a@ == bytes@,
{
    let mut a = [0u8; N];
    let mut i: usize = 0;
    while i < N
        invariant
            i <= N,
            bytes@.len() == N,
            a@.len() == N,
            forall|j: int| 0 <= j < i ==> a@[j] == bytes@[j],
        decreases N - i,
    {
        a[i] = bytes[i];
        i = i + 1;
    }
    assert(a@ =~= bytes@);
    a
}

/// Copies an array into a vector.
pub fn vec_of<const N: usize>(a: &[u8; N]) -> (bytes: Vec<u8>)
    ensures
        bytes@ == a@,
        bytes@.len() == N,
{
    let mut bytes: Vec<u8> = Vec::with_capacity(N);
    let mut i: usize = 0;
    while i < N
        invariant
            i <= N,
            a@.len() == N,
            bytes@ == a@.take(i as int),
        decreases N - i,
    {
        bytes.push(a[i]);
        assert(a@.take(i + 1) == a@.take(i as int).push(a@[i as int]));
        i = i + 1;
    }
    assert(a@.take(N as int) == a@);
    bytes
}

/// Hashes `ingest` to 32 bytes.
pub fn blake2b_256(ingest: &[u8]) -> (digest: Vec<u8>)
    ensures
        digest@ == blake2b_256_digest(ingest@),
        digest@.len() == 32,
{
    blake2b(32, ingest)
}

/// The bytes of the content identifier of an encoded object.
pub fn cid_bytes(encoded: &[u8]) -> (bytes: Vec<u8>)
    ensures
        bytes@ == cid_bytes_of(encoded@),
        bytes@.len() == 38,
{
    let hash = blake2b_256(encoded);
    let mut bytes: Vec<u8> = Vec::with_capacity(38);
    bytes.push(0x01u8);
    bytes.push(0x71u8);
    bytes.push(0xa0u8);
    bytes.push(0xe4u8);
    bytes.push(0x02u8);
    bytes.push(0x20u8);
    assert(bytes@ == cid_prefix());
    bytes.extend_from_slice(hash.as_slice());
    bytes
}

/// The digest to sign for an encoded message.
pub fn get_digest(message: &[u8]) -> (digest: Vec<u8>)
    ensures
        digest@ == message_digest(message@),
        digest@.len() == 32,
{
    let cid = cid_bytes(message);
    blake2b_256(cid.as_slice())
}

/// The digest to sign for the signing bytes of a voucher.
pub fn get_digest_voucher(signing_bytes: &[u8]) -> (digest: Vec<u8>)
    ensures
        digest@ == voucher_digest(signing_bytes@),
        digest@.len() == 32,
{
    blake2b_256(signing_bytes)
}

} // verus!
