//! Stretching of key material into a seed.

use vstd::prelude::*;

verus! {

/// The longest key that HKDF with SHA-256 can put out: 255 blocks of 32
/// bytes.
pub const HKDF_SHA256_MAX_LEN: usize = 8160;

/// The key of `key_len` bytes that HKDF with HMAC-SHA-256 derives from
/// `key_material` and `salt`, with no context information.
pub uninterp spec fn hkdf_hmac_sha256_key(
    key_material: Seq<u8>,
    salt: Seq<u8>,
    key_len: nat,
) -> Seq<u8>;

/// Calls `bc_crypto::hash::hkdf_hmac_sha256`. Trusted: the key it returns
/// depends on the three arguments alone and is `key_len` bytes long. The
/// call panics if more than 255 blocks are asked for, which `requires`
/// leaves out.
#[verifier::external_body]
pub(crate) fn hkdf_hmac_sha256(key_material: &[u8], salt: &[u8], key_len: usize) -> (key: Vec<u8>)
    requires
        key_len <= HKDF_SHA256_MAX_LEN,
    ensures
        key@ == hkdf_hmac_sha256_key(key_material@, salt@, key_len as nat),
        key@.len() == key_len,
{
    bc_crypto::hash::hkdf_hmac_sha256(key_material, salt, key_len)
}

/// The 32 bytes that `data` is stretched to: the HKDF key of that length
/// with an empty salt.
pub open spec fn extended_key(data: Seq<u8>) -> Seq<u8> {
    hkdf_hmac_sha256_key(data, Seq::empty(), 32)
}

/// Stretches key material of any length to 32 bytes, one way and always to
/// the same bytes.
pub fn extend_key(data: &[u8]) -> (key: [u8; 32])
    ensures
        key@ == extended_key(data@),
{
    let salt: Vec<u8> = Vec::new();
    let stretched = hkdf_hmac_sha256(data, salt.as_slice(), 32);
    let mut key = [0u8; 32];
    let mut i: usize = 0;
    while i < 32
        invariant
            i <= 32,
            stretched@.len() == 32,
            forall|k: int| 0 <= k < i ==> key@[k] == stretched@[k],
        decreases 32 - i,
    {
        key[i] = stretched[i];
        i += 1;
    }
    assert(key@ =~= stretched@);
    assert(salt@ =~= Seq::<u8>::empty());
    key
}

} // verus!
