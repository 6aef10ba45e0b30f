//! What the running application derives from its configuration.

use sha2::{Digest, Sha512};
use vstd::prelude::*;

verus! {

/// The length of a SHA-512 digest in bytes.
pub const DIGEST_BYTES: usize = 64;

/// The SHA-512 digest of a run of bytes, as `sha2` computes it.
pub uninterp spec fn sha512_of(data: Seq<u8>) -> Seq<u8>;

/// Hashes the bytes with `sha2::Sha512::digest`. The contract names the
/// digest, which depends on the bytes alone, and states its length: SHA-512
/// gives 64 bytes.
#[verifier::external_body]
fn sha512(data: &[u8]) -> (r: Vec<u8>)
    ensures
        r@ == sha512_of(data@),
        r@.len() == DIGEST_BYTES,
{
    Sha512::digest(data).to_vec()
}

/// The bytes from which the key of the session cookies is made: the SHA-512
/// digest of the configured secret.
pub fn cookie_key_material(cookie_secret: &str) -> (r: Vec<u8>)
    ensures
        r@ == sha512_of(vstd::utf8::encode_utf8(cookie_secret@)),
        r@.len() == DIGEST_BYTES,
{
    sha512(cookie_secret.as_bytes())
}

} // verus!
