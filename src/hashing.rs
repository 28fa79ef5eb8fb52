//! SHA-256 digests, their lower-case hex form, preimage checks and
//! commitment-id derivation.

use sha2::Digest;
use vstd::prelude::*;
use vstd::utf8::encode_utf8;

verus! {

/// The SHA-256 digest of a byte sequence (32 bytes).
pub uninterp spec fn sha256_of(data: Seq<u8>) -> Seq<u8>;

/// The lower-case hexadecimal digit for a value below 16.
pub open spec fn hex_digit(n: u8) -> char {
    seq!['0', '1', '2', '3', '4', '5', '6', '7', '8', '9', 'a', 'b', 'c', 'd', 'e', 'f'][n as int]
}

/// Two lower-case hex digits per byte, high nibble first.
pub open spec fn hex_lower(b: Seq<u8>) -> Seq<char> {
    Seq::new(
        2 * b.len(),
        |i: int|
            if i % 2 == 0 {
                hex_digit(b[i / 2] / 16)
            } else {
                hex_digit(b[i / 2] % 16)
            },
    )
}

/// The hashlock that a preimage (a string, hashed as its UTF-8 bytes) unlocks.
pub open spec fn digest_hex(s: Seq<char>) -> Seq<char> {
    hex_lower(sha256_of(encode_utf8(s)))
}

/// The eight bytes of `x`, least significant first.
pub open spec fn le_bytes(x: u64) -> Seq<u8> {
    seq![
        x as u8,
        (x >> 8u64) as u8,
        (x >> 16u64) as u8,
        (x >> 24u64) as u8,
        (x >> 32u64) as u8,
        (x >> 40u64) as u8,
        (x >> 48u64) as u8,
        (x >> 56u64) as u8,
    ]
}

/// The bytes that a commitment id hashes: sender, receiver, amount, hashlock
/// and timelock, in that order.
pub open spec fn commitment_bytes(
    sender: Seq<char>,
    receiver: Seq<char>,
    amount: u64,
    hashlock: Seq<char>,
    timelock: u64,
) -> Seq<u8> {
    encode_utf8(sender) + encode_utf8(receiver) + le_bytes(amount) + encode_utf8(hashlock)
        + le_bytes(timelock)
}

/// The commitment id of a contract's defining tuple.
pub open spec fn commitment_id_of(
    sender: Seq<char>,
    receiver: Seq<char>,
    amount: u64,
    hashlock: Seq<char>,
    timelock: u64,
) -> Seq<char> {
    hex_lower(sha256_of(commitment_bytes(sender, receiver, amount, hashlock, timelock)))
}

/// Relies on sha2's `Sha256` digest: a 32-byte digest that depends on the
/// input bytes alone.
#[verifier::external_body]
fn sha256_digest(data: &[u8]) -> (r: Vec<u8>)
    ensures
        r@ == sha256_of(data@),
        r@.len() == 32,
{
    sha2::Sha256::digest(data).to_vec()
}

/// Relies on hex::encode: each byte becomes two lower-case hex digits, high
/// nibble first.
#[verifier::external_body]
fn hex_encode(data: &[u8]) -> (r: String)
    ensures
        r@ == hex_lower(data@),
{
    hex::encode(data)
}


/// Appends `bytes` to `out`.
fn append_bytes(out: &mut Vec<u8>, bytes: &[u8])
    ensures
        final(out)@ == old(out)@ + bytes@,
{
    let mut i: usize = 0;
    while i < bytes.len()
        invariant
            i <= bytes@.len(),
            out@ == old(out)@ + bytes@.subrange(0, i as int),
        decreases bytes@.len() - i,
    {
        out.push(bytes[i]);
        i = i + 1;
        assert(bytes@.subrange(0, i as int) == bytes@.subrange(0, i - 1) + seq![bytes@[i - 1]]);
    }
    assert(bytes@.subrange(0, i as int) == bytes@);
}

/// Appends the little-endian bytes of `x` to `out`.
fn append_le_bytes(out: &mut Vec<u8>, x: u64)
    ensures
        final(out)@ == old(out)@ + le_bytes(x),
{
    out.push(x as u8);
    out.push((x >> 8) as u8);
    out.push((x >> 16) as u8);
    out.push((x >> 24) as u8);
    out.push((x >> 32) as u8);
    out.push((x >> 40) as u8);
    out.push((x >> 48) as u8);
    out.push((x >> 56) as u8);
    assert(out@ == old(out)@ + le_bytes(x));
}

/// The lower-case hex SHA-256 digest of the UTF-8 bytes of `input`.
pub fn sha256_hash(input: &str) -> (r: String)
    ensures
        r@ == digest_hex(input@),
        r@.len() == 64,
{
    let digest = sha256_digest(input.as_bytes());
    hex_encode(digest.as_slice())
}

/// Whether `preimage` hashes to exactly `hashlock` (case-sensitive).
pub fn verify_preimage(preimage: &str, hashlock: &str) -> (r: bool)
    ensures
        r == (digest_hex(preimage@) == hashlock@),
{
    let digest = sha256_hash(preimage);
    digest == hashlock.to_owned()
}

/// Derives the commitment id of a contract from its defining tuple.
pub fn generate_lock_id(
    sender: &str,
    receiver: &str,
    amount: u64,
    hashlock: &str,
    timelock: u64,
) -> (r: String)
    ensures
        r@ == commitment_id_of(sender@, receiver@, amount, hashlock@, timelock),
        r@.len() == 64,
{
    let mut data: Vec<u8> = Vec::new();
    append_bytes(&mut data, sender.as_bytes());
    append_bytes(&mut data, receiver.as_bytes());
    append_le_bytes(&mut data, amount);
    append_bytes(&mut data, hashlock.as_bytes());
    append_le_bytes(&mut data, timelock);
    assert(data@ == commitment_bytes(sender@, receiver@, amount, hashlock@, timelock));
    let digest = sha256_digest(data.as_slice());
    hex_encode(digest.as_slice())
}

/// Hashes a preimage as a hashlock is formed.
pub fn hash_preimage(preimage: String) -> (r: String)
    ensures
        r@ == digest_hex(preimage@),
        r@.len() == 64,
{
    sha256_hash(preimage.as_str())
}

/// Whether `preimage` unlocks `hashlock`.
pub fn verify_preimage_hash(preimage: String, hashlock: String) -> (r: bool)
    ensures
        r == (digest_hex(preimage@) == hashlock@),
{
    verify_preimage(preimage.as_str(), hashlock.as_str())
}

} // verus!
