use vstd::prelude::*;

use crate::error::ClientError;

verus! {

#[verifier::external_type_specification]
#[verifier::external_body]
pub struct ExBlake3Hasher(blake3::Hasher);

/// The 32-byte BLAKE3 hash of `input`.
pub uninterp spec fn blake3_of(input: Seq<u8>) -> Seq<u8>;

/// The bytes fed so far into an incremental BLAKE3 hasher.
pub uninterp spec fn hasher_input(h: blake3::Hasher) -> Seq<u8>;

/// The lowercase hexadecimal digit for a value below 16.
pub open spec fn hex_digit(n: int) -> char {
    seq!['0', '1', '2', '3', '4', '5', '6', '7', '8', '9', 'a', 'b', 'c', 'd', 'e', 'f'][n]
}

/// Lowercase hex rendering: two digits per byte, high nibble first.
pub open spec fn hex_lower(b: Seq<u8>) -> Seq<char> {
    Seq::new(
        2 * b.len(),
        |i: int|
            if i % 2 == 0 {
                hex_digit(b[i / 2] as int / 16)
            } else {
                hex_digit(b[i / 2] as int % 16)
            },
    )
}

/// The wire form of the digest of `data`: 64 lowercase hex characters.
pub open spec fn digest_hex(data: Seq<u8>) -> Seq<char> {
    hex_lower(blake3_of(data))
}

/// Relies on blake3::Hasher::new: a fresh hasher has seen no input.
#[verifier::external_body]
fn hasher_new() -> (r: blake3::Hasher)
    ensures
        hasher_input(r) == Seq::<u8>::empty(),
{
    blake3::Hasher::new()
}

/// Relies on blake3::Hasher::update: the bytes are added after those already fed.
#[verifier::external_body]
fn hasher_update(h: &mut blake3::Hasher, data: &[u8])
    ensures
        hasher_input(*final(h)) == hasher_input(*old(h)) + data@,
{
    h.update(data);
}

/// Relies on blake3::Hasher::finalize and Hash::as_bytes: the 32-byte hash of
/// everything fed so far, leaving the hasher as it was.
#[verifier::external_body]
fn hasher_finalize(h: &blake3::Hasher) -> (r: Vec<u8>)
    ensures
        r@ == blake3_of(hasher_input(*h)),
        r@.len() == 32,
{
    h.finalize().as_bytes().to_vec()
}

/// Relies on hex::encode: two lowercase hex digits per byte, high nibble first.
#[verifier::external_body]
fn hex_encode(b: &[u8]) -> (r: String)
    ensures
        r@ == hex_lower(b@),
{
    hex::encode(b)
}

/// Streams bytes through BLAKE3 and yields the lowercase hex digest.
pub struct ContentHasher {
    inner: blake3::Hasher,
}

impl View for ContentHasher {
    type V = Seq<u8>;

    /// The bytes fed so far.
    closed spec fn view(&self) -> Seq<u8> {
        hasher_input(self.inner)
    }
}

impl ContentHasher {
    pub fn new() -> (r: ContentHasher)
        ensures
            r@ == Seq::<u8>::empty(),
    {
        ContentHasher { inner: hasher_new() }
    }

    /// Feeds one chunk.
    pub fn update(&mut self, data: &[u8])
        ensures
            final(self)@ == old(self)@ + data@,
    {
        hasher_update(&mut self.inner, data);
    }

    /// The hex digest of all bytes fed so far.
    pub fn finish_hex(&self) -> (r: String)
        ensures
            r@ == digest_hex(self@),
            r@.len() == 64,
    {
        let raw = hasher_finalize(&self.inner);
        hex_encode(raw.as_slice())
    }
}

/// Compares the digest the server reported with the one computed over the
/// received file. A mismatch carries both digests.
pub fn check_digest(remote: &String, local: &String) -> (r: Result<(), ClientError>)
    ensures
        remote@ == local@ <==> r is Ok,
        remote@ != local@ ==> (match r {
            Err(ClientError::HashMismatch { remote: a, local: b }) => a@ == remote@ && b@ == local@,
            _ => false,
        }),
{
    if remote.eq(local) {
        Ok(())
    } else {
        Err(ClientError::HashMismatch { remote: remote.clone(), local: local.clone() })
    }
}

} // verus!
