//! The root secret of a chain.

use crate::hex_text::{hex_encode, hex_text};
use vstd::prelude::*;

verus! {

/// The number of bytes in a seed.
pub const PROVENANCE_SEED_LENGTH: usize = 32;

/// The root secret of a chain: 32 bytes, fixed once created.
#[derive(Clone, Copy, Debug, PartialEq, Eq, Hash)]
pub struct ProvenanceSeed([u8; 32]);

impl View for ProvenanceSeed {
    type V = Seq<u8>;

    closed spec fn view(&self) -> Seq<u8> {
        self.0@
    }
}

impl ProvenanceSeed {
    /// A seed is always 32 bytes long.
    pub proof fn lemma_len(&self)
        ensures
            self@.len() == 32,
    {
    }

    /// The seed that holds the given bytes.
    pub fn from_bytes(bytes: [u8; 32]) -> (seed: Self)
        ensures
            seed@ == bytes@,
    {
        ProvenanceSeed(bytes)
    }

    /// The bytes of the seed.
    pub fn to_bytes(&self) -> (bytes: [u8; 32])
        ensures
            bytes@ == self@,
    {
        self.0
    }

    /// The seed as 64 lower-case hexadecimal digits.
    pub fn hex(&self) -> (text: String)
        ensures
            text@ == hex_text(self@),
    {
        hex_encode(self.0.as_slice())
    }
}

} // verus!
