use vstd::prelude::*;
use vstd::string::*;
use sha2::{Digest, Sha256};
use crate::text::{hex_lower, hex_text};

verus! {

/// The SHA-256 digest of a byte string.
pub uninterp spec fn sha256(data: Seq<u8>) -> Seq<u8>;

/// `Sha256::digest` of the `sha2` crate: the result is the SHA-256 digest of
/// `data`, which is always 32 bytes long.
#[verifier::external_body]
fn sha256_digest(data: &[u8]) -> (out: Vec<u8>)
    ensures
        out@ == sha256(data@),
        out@.len() == 32,
{
    Sha256::digest(data).to_vec()
}

/// The identifier derived from `data`: its SHA-256 digest in lower-case hexadecimal.
pub open spec fn hash_text(data: Seq<u8>) -> Seq<char> {
    hex_lower(sha256(data))
}

/// Derives an identifier from `data`.
pub fn generate_hash(data: &[u8]) -> (id: String)
    ensures
        id@ == hash_text(data@),
{
    let digest = sha256_digest(data);
    hex_text(digest.as_slice())
}

/// Derives an identifier from the UTF-8 bytes of `seed`.
pub fn hash_of_text(seed: &str) -> (id: String)
    ensures
        id@ == hash_text(vstd::utf8::encode_utf8(seed@)),
{
    generate_hash(seed.as_bytes())
}

} // verus!
