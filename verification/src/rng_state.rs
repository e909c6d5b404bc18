//! The state of a chain's byte stream between two marks.

use crate::decimal_text::{byte_list_string, byte_list_text};
use vstd::prelude::*;
use vstd::string::StringExecFns;

verus! {

/// The text of a stream state: its name, and in round and square brackets
/// its bytes in decimal.
pub open spec fn rng_state_text(bytes: Seq<u8>) -> Seq<char> {
    "RngState(["@ + byte_list_text(bytes) + "])"@
}

/// Thirty-two bytes of exported stream state. They determine every byte the
/// stream will put out.
#[derive(Clone, Copy, Debug, PartialEq, Eq, Hash)]
pub struct RngState([u8; 32]);

impl View for RngState {
    type V = Seq<u8>;

    closed spec fn view(&self) -> Seq<u8> {
        self.0@
    }
}

impl RngState {
    /// A stream state is always 32 bytes long.
    pub proof fn lemma_len(&self)
        ensures
            self@.len() == 32,
    {
    }

    /// The state that holds the given bytes.
    pub fn from_bytes(bytes: [u8; 32]) -> (state: Self)
        ensures
            state@ == bytes@,
    {
        RngState(bytes)
    }

    /// The bytes of the state.
    pub fn to_bytes(&self) -> (bytes: [u8; 32])
        ensures
            bytes@ == self@,
    {
        self.0
    }

    /// The state as text, as its `Debug` form shows it on one line.
    pub fn debug_string(&self) -> (text: String)
        ensures
            text@ == rng_state_text(self@),
    {
        let mut text = String::from_str("RngState([");
        let list = byte_list_string(self.0.as_slice());
        text.append(list.as_str());
        text.append("])");
        text
    }
}

} // verus!
