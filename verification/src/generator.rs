//! The generator of one chain of provenance marks.

use crate::crypto_utils::{extend_key, extended_key};
use crate::decimal_text::{decimal_string, decimal_text};
use crate::hex_text::{hex_encode, hex_text};
use crate::mark::{info_view, MarkView, ProvenanceMark};
use crate::resolution::ProvenanceMarkResolution;
use crate::rng_state::{rng_state_text, RngState};
use crate::seed::ProvenanceSeed;
use crate::xoshiro256starstar::{
    bytes_drawn, data_of_words, words_after, words_of_data, Xoshiro256StarStar,
};
use dcbor::Date;
use vstd::prelude::*;
use vstd::slice::{slice_subrange, slice_to_vec};
use vstd::string::{StringExecFns, StringSliceAdditionalSpecFns};

verus! {

/// The state of a generator as mathematical values. The pair of `next_seq`
/// and `rng_state` is all that changes from one mark to the next.
pub struct GeneratorState {
    pub res: ProvenanceMarkResolution,
    pub seed: Seq<u8>,
    pub chain_id: Seq<u8>,
    pub next_seq: u32,
    pub rng_state: Seq<u8>,
}

impl GeneratorState {
    /// The seed and the stream state hold 32 bytes each, and the chain
    /// identifier is as long as the resolution's links.
    pub open spec fn wf(self) -> bool {
        &&& self.seed.len() == 32
        &&& self.rng_state.len() == 32
        &&& self.chain_id.len() == self.res.link_length()
    }

    /// The link length of the chain.
    pub open spec fn link_length(self) -> nat {
        self.res.link_length() as nat
    }

    /// The state of a fresh chain grown from `seed`: the chain identifier is
    /// the first link-length bytes of the seed, no mark has been made, and
    /// the stream starts from the whole seed.
    pub open spec fn from_seed(res: ProvenanceMarkResolution, seed: Seq<u8>) -> GeneratorState {
        GeneratorState {
            res,
            seed,
            chain_id: seed.subrange(0, res.link_length() as int),
            next_seq: 0,
            rng_state: seed,
        }
    }

    /// The stream as it stands once the key of the next mark has been taken:
    /// untouched for the genesis mark, whose key is the chain identifier, and
    /// advanced by one link otherwise.
    pub open spec fn stream_after_key(self) -> Seq<u64> {
        if self.next_seq == 0 {
            words_of_data(self.rng_state)
        } else {
            words_after(words_of_data(self.rng_state), self.link_length())
        }
    }

    /// The key of the next mark.
    pub open spec fn key(self) -> Seq<u8> {
        if self.next_seq == 0 {
            self.chain_id
        } else {
            bytes_drawn(words_of_data(self.rng_state), self.link_length())
        }
    }

    /// The key that the mark after the next one will have: what the stream
    /// puts out after the key of the next mark.
    pub open spec fn next_key(self) -> Seq<u8> {
        bytes_drawn(self.stream_after_key(), self.link_length())
    }

    /// The next mark of the chain, made for `date` with payload `info`.
    pub open spec fn mark(self, date: Date, info: Option<Seq<u8>>) -> MarkView {
        MarkView {
            res: self.res,
            key: self.key(),
            next_key: self.next_key(),
            chain_id: self.chain_id,
            seq: self.next_seq,
            date,
            info,
        }
    }

    /// The one-line text that shows the state: the chain identifier and the
    /// seed in hexadecimal, the resolution by name, the next sequence number
    /// in decimal and the stream state as a list of bytes.
    pub open spec fn display_text(self) -> Seq<char> {
        "ProvenanceMarkGenerator(chainID: "@ + hex_text(self.chain_id) + ", res: "@
            + self.res.spec_name() + ", seed: "@ + hex_text(self.seed) + ", nextSeq: "@
            + decimal_text(self.next_seq as nat) + ", rngState: "@ + rng_state_text(self.rng_state)
            + ")"@
    }

    /// The state after the next mark has been made. The stream state stays
    /// as it is across the genesis mark and moves on by one link otherwise;
    /// the bytes looked at for `next_key` leave no trace in it.
    pub open spec fn successor(self) -> GeneratorState {
        GeneratorState {
            res: self.res,
            seed: self.seed,
            chain_id: self.chain_id,
            next_seq: (self.next_seq + 1) as u32,
            rng_state: if self.next_seq == 0 {
                self.rng_state
            } else {
                data_of_words(self.stream_after_key())
            },
        }
    }
}

/// The generator of one chain of provenance marks. It owns all the state of
/// the chain and hands out its marks one by one, in order.
#[derive(Debug)]
pub struct ProvenanceMarkGenerator {
    res: ProvenanceMarkResolution,
    seed: ProvenanceSeed,
    chain_id: Vec<u8>,
    next_seq: u32,
    rng_state: RngState,
}

impl View for ProvenanceMarkGenerator {
    type V = GeneratorState;

    closed spec fn view(&self) -> GeneratorState {
        GeneratorState {
            res: self.res,
            seed: self.seed@,
            chain_id: self.chain_id@,
            next_seq: self.next_seq,
            rng_state: self.rng_state@,
        }
    }
}

impl Clone for ProvenanceMarkGenerator {
    /// A checkpoint of the generator: a second generator in the same state.
    fn clone(&self) -> (copy: Self)
        ensures
            copy@ == self@,
    {
        proof {
            use_type_invariant(self);
        }
        ProvenanceMarkGenerator {
            res: self.res,
            seed: self.seed,
            chain_id: self.chain_id.clone(),
            next_seq: self.next_seq,
            rng_state: self.rng_state,
        }
    }
}

impl ProvenanceMarkGenerator {
    #[verifier::type_invariant]
    spec fn chain_id_fits(self) -> bool {
        self.chain_id@.len() == self.res.link_length()
    }

    /// Starts a fresh chain from `seed`.
    pub fn new_with_seed(res: ProvenanceMarkResolution, seed: ProvenanceSeed) -> (generator: Self)
        ensures
            generator@ == GeneratorState::from_seed(res, seed@),
            generator@.wf(),
    {
        let bytes = seed.to_bytes();
        let chain_id = slice_to_vec(slice_subrange(bytes.as_slice(), 0, res.link_length()));
        Self::new(res, seed, chain_id, 0, RngState::from_bytes(bytes))
    }

    /// Starts a fresh chain from a passphrase: the seed is the passphrase's
    /// UTF-8 bytes stretched to 32 bytes.
    pub fn new_with_passphrase(res: ProvenanceMarkResolution, passphrase: &str) -> (generator: Self)
        ensures
            generator@ == GeneratorState::from_seed(res, extended_key(passphrase.spec_bytes())),
            generator@.wf(),
    {
        let seed_data = extend_key(passphrase.as_bytes());
        let seed = ProvenanceSeed::from_bytes(seed_data);
        Self::new_with_seed(res, seed)
    }

    /// Starts a fresh chain from 32 bytes drawn from a source of randomness.
    pub fn new_using(res: ProvenanceMarkResolution, random_data: [u8; 32]) -> (generator: Self)
        ensures
            generator@ == GeneratorState::from_seed(res, random_data@),
            generator@.wf(),
    {
        Self::new_with_seed(res, ProvenanceSeed::from_bytes(random_data))
    }

    /// Takes up a chain from the five values of a checkpoint.
    pub fn new(
        res: ProvenanceMarkResolution,
        seed: ProvenanceSeed,
        chain_id: Vec<u8>,
        next_seq: u32,
        rng_state: RngState,
    ) -> (generator: Self)
        requires
            chain_id@.len() == res.link_length(),
        ensures
            generator@ == (GeneratorState {
                res,
                seed: seed@,
                chain_id: chain_id@,
                next_seq,
                rng_state: rng_state@,
            }),
            generator@.wf(),
    {
        proof {
            seed.lemma_len();
            rng_state.lemma_len();
        }
        ProvenanceMarkGenerator { res, seed, chain_id, next_seq, rng_state }
    }

    /// Makes the next mark of the chain, for `date` and with the optional
    /// encoded payload `info`, and moves the generator on by one mark.
    pub fn next(&mut self, date: Date, info: Option<Vec<u8>>) -> (mark: ProvenanceMark)
        requires
            old(self)@.next_seq < u32::MAX,
        ensures
            mark@ == old(self)@.mark(date, info_view(info)),
            mark@.wf(),
            final(self)@ == old(self)@.successor(),
    {
        proof {
            use_type_invariant(&*self);
        }
        let data: [u8; 32] = self.rng_state.to_bytes();
        let mut rng = Xoshiro256StarStar::from_data(&data);

        let seq = self.next_seq;
        self.next_seq = seq + 1;

        let key;
        if seq == 0 {
            key = self.chain_id.clone();
        } else {
            key = rng.next_bytes(self.res.link_length());
            self.rng_state = RngState::from_bytes(rng.to_data());
        }

        let next_key = rng.peek_bytes(self.res.link_length());

        ProvenanceMark::new(
            self.res,
            key,
            next_key,
            self.chain_id.clone(),
            seq,
            date,
            info,
        ).unwrap()
    }

    /// The state of the generator on one line, for a log or a debugger.
    pub fn to_string(&self) -> (text: String)
        ensures
            text@ == self@.display_text(),
    {
        let mut text = String::from_str("ProvenanceMarkGenerator(chainID: ");
        text.append(hex_encode(self.chain_id.as_slice()).as_str());
        text.append(", res: ");
        text.append(self.res.name());
        text.append(", seed: ");
        text.append(self.seed.hex().as_str());
        text.append(", nextSeq: ");
        text.append(decimal_string(self.next_seq).as_str());
        text.append(", rngState: ");
        text.append(self.rng_state.debug_string().as_str());
        text.append(")");
        text
    }

    /// The resolution of the chain.
    pub fn res(&self) -> (res: ProvenanceMarkResolution)
        ensures
            res == self@.res,
    {
        self.res
    }

    /// The seed the chain was grown from.
    pub fn seed(&self) -> (seed: &ProvenanceSeed)
        ensures
            seed@ == self@.seed,
    {
        &self.seed
    }

    /// The identifier of the chain, which is also the key of its first mark.
    pub fn chain_id(&self) -> (chain_id: &Vec<u8>)
        ensures
            chain_id@ == self@.chain_id,
            chain_id@.len() == self@.res.link_length(),
    {
        proof {
            use_type_invariant(self);
        }
        &self.chain_id
    }

    /// The sequence number that the next mark will have.
    pub fn next_seq(&self) -> (next_seq: u32)
        ensures
            next_seq == self@.next_seq,
    {
        self.next_seq
    }

    /// The state of the byte stream that the later keys come from.
    pub fn rng_state(&self) -> (rng_state: &RngState)
        ensures
            rng_state@ == self@.rng_state,
    {
        &self.rng_state
    }
}

} // verus!
