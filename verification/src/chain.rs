//! What holds of every chain that a generator grows.

use crate::generator::{GeneratorState, ProvenanceMarkGenerator};
use crate::resolution::ProvenanceMarkResolution;
use crate::xoshiro256starstar::{
    bytes_drawn, lemma_bytes_drawn_add, lemma_bytes_drawn_len, lemma_data_survives_import,
    lemma_words_after_add, lemma_words_after_len, lemma_words_survive_export, words_after,
    words_of_data,
};
use dcbor::Date;
use vstd::prelude::*;

verus! {

/// The state a generator is in after it has made `n` marks from state `s`.
pub open spec fn state_after(s: GeneratorState, n: nat) -> GeneratorState
    decreases n,
{
    if n == 0 {
        s
    } else {
        state_after(s, (n - 1) as nat).successor()
    }
}

/// Making a mark leaves a well-formed state well-formed, and leaves the
/// resolution, the seed and the chain identifier as they are.
pub proof fn lemma_successor_keeps_chain(s: GeneratorState)
    requires
        s.wf(),
    ensures
        s.successor().wf(),
        s.successor().res == s.res,
        s.successor().seed == s.seed,
        s.successor().chain_id == s.chain_id,
{
    lemma_data_survives_import(s.rng_state);
    lemma_words_after_len(words_of_data(s.rng_state), s.link_length());
    lemma_words_survive_export(s.stream_after_key());
}

/// The same holds after any number of marks.
pub proof fn lemma_state_after_keeps_chain(s: GeneratorState, n: nat)
    requires
        s.wf(),
    ensures
        state_after(s, n).wf(),
        state_after(s, n).res == s.res,
        state_after(s, n).seed == s.seed,
        state_after(s, n).chain_id == s.chain_id,
    decreases n,
{
    if n > 0 {
        lemma_state_after_keeps_chain(s, (n - 1) as nat);
        lemma_successor_keeps_chain(state_after(s, (n - 1) as nat));
    }
}

/// Every mark is well-formed: its key, its next key and its chain identifier
/// are as long as the links of the chain.
pub proof fn lemma_mark_wf(s: GeneratorState, date: Date, info: Option<Seq<u8>>)
    requires
        s.wf(),
    ensures
        s.mark(date, info).wf(),
{
    lemma_bytes_drawn_len(words_of_data(s.rng_state), s.link_length());
    lemma_bytes_drawn_len(s.stream_after_key(), s.link_length());
}

/// Two generators made from the same resolution and seed put out the same
/// marks for the same calls: after any number of marks they are in the same
/// state, and the mark each makes next for one date and payload is the same.
pub proof fn lemma_same_seed_same_chain(
    first: ProvenanceMarkGenerator,
    second: ProvenanceMarkGenerator,
    res: ProvenanceMarkResolution,
    seed: Seq<u8>,
    n: nat,
    date: Date,
    info: Option<Seq<u8>>,
)
    requires
        first@ == GeneratorState::from_seed(res, seed),
        second@ == GeneratorState::from_seed(res, seed),
    ensures
        state_after(first@, n) == state_after(second@, n),
        state_after(first@, n).mark(date, info) == state_after(second@, n).mark(date, info),
{
}

/// The first mark of a fresh chain has the chain identifier as its key, and
/// the chain identifier is the first link-length bytes of the seed.
pub proof fn lemma_genesis_key(
    res: ProvenanceMarkResolution,
    seed: Seq<u8>,
    date: Date,
    info: Option<Seq<u8>>,
)
    requires
        seed.len() == 32,
    ensures
        GeneratorState::from_seed(res, seed).wf(),
        GeneratorState::from_seed(res, seed).mark(date, info).seq == 0,
        GeneratorState::from_seed(res, seed).mark(date, info).key == GeneratorState::from_seed(
            res,
            seed,
        ).chain_id,
        GeneratorState::from_seed(res, seed).chain_id == seed.subrange(
            0,
            res.link_length() as int,
        ),
{
}

/// Whatever the stream state, a mark with sequence number zero has the chain
/// identifier as its key.
pub proof fn lemma_first_key_is_chain_id(s: GeneratorState, date: Date, info: Option<Seq<u8>>)
    requires
        s.next_seq == 0,
    ensures
        s.mark(date, info).key == s.chain_id,
{
}

/// Two marks made one after the other are linked: the next key of the
/// earlier is the key of the later, whatever their dates and payloads.
pub proof fn lemma_adjacent_marks_link(
    s: GeneratorState,
    date: Date,
    info: Option<Seq<u8>>,
    later_date: Date,
    later_info: Option<Seq<u8>>,
)
    requires
        s.wf(),
        s.next_seq < u32::MAX,
    ensures
        s.mark(date, info).next_key == s.successor().mark(later_date, later_info).key,
        s.mark(date, info).chain_id == s.successor().mark(later_date, later_info).chain_id,
        s.mark(date, info).seq + 1 == s.successor().mark(later_date, later_info).seq,
{
    lemma_data_survives_import(s.rng_state);
    lemma_words_after_len(words_of_data(s.rng_state), s.link_length());
    lemma_words_survive_export(s.stream_after_key());
}

/// A generator counts its marks: after `n` marks the sequence number has
/// grown by `n`.
pub proof fn lemma_sequence_numbers_count(s: GeneratorState, n: nat)
    requires
        s.next_seq + n <= u32::MAX,
    ensures
        state_after(s, n).next_seq == s.next_seq + n,
    decreases n,
{
    if n > 0 {
        lemma_sequence_numbers_count(s, (n - 1) as nat);
    }
}

/// Along a fresh chain the sequence numbers are 0, 1, 2, and so on, and
/// every mark is linked to the one before it.
pub proof fn lemma_fresh_chain(
    res: ProvenanceMarkResolution,
    seed: Seq<u8>,
    n: nat,
    date: Date,
    info: Option<Seq<u8>>,
    later_date: Date,
    later_info: Option<Seq<u8>>,
)
    requires
        seed.len() == 32,
        n < u32::MAX,
    ensures
        state_after(GeneratorState::from_seed(res, seed), n).mark(date, info).seq == n,
        state_after(GeneratorState::from_seed(res, seed), n + 1).mark(
            later_date,
            later_info,
        ).seq == n + 1,
        state_after(GeneratorState::from_seed(res, seed), n).mark(date, info).next_key
            == state_after(GeneratorState::from_seed(res, seed), n + 1).mark(
            later_date,
            later_info,
        ).key,
{
    let fresh = GeneratorState::from_seed(res, seed);
    lemma_sequence_numbers_count(fresh, n);
    lemma_sequence_numbers_count(fresh, n + 1);
    lemma_state_after_keeps_chain(fresh, n);
    lemma_adjacent_marks_link(state_after(fresh, n), date, info, later_date, later_info);
}

/// Link `k` of the stream that starts in state `w`, for links of `len`
/// bytes: the bytes the stream puts out after it has put out `k` links.
pub open spec fn link(w: Seq<u64>, len: nat, k: nat) -> Seq<u8> {
    bytes_drawn(words_after(w, k * len), len)
}

/// Link `k` is the slice of the stream from byte `k * len` up to byte
/// `(k + 1) * len`.
pub proof fn lemma_link_is_slice(w: Seq<u64>, len: nat, k: nat)
    ensures
        link(w, len, k).len() == len,
        (k + 1) * len == k * len + len,
        link(w, len, k) == bytes_drawn(w, (k + 1) * len).subrange(
            (k * len) as int,
            ((k + 1) * len) as int,
        ),
{
    assert((k + 1) * len == k * len + len) by (nonlinear_arith);
    lemma_bytes_drawn_add(w, k * len, len);
    lemma_bytes_drawn_len(w, k * len);
    lemma_bytes_drawn_len(words_after(w, k * len), len);
    assert(link(w, len, k) =~= bytes_drawn(w, k * len + len).subrange(
        (k * len) as int,
        (k * len + len) as int,
    ));
}

/// The number of links that a fresh chain has taken from its stream when it
/// has made `n` marks: none for the genesis mark, one for each later mark.
pub open spec fn links_taken(n: nat) -> nat {
    if n == 0 {
        0
    } else {
        (n - 1) as nat
    }
}

/// After `n` marks the stream of a fresh chain stands where the stream
/// seeded by the whole seed stands after `links_taken(n)` links.
pub proof fn lemma_fresh_chain_stream(res: ProvenanceMarkResolution, seed: Seq<u8>, n: nat)
    requires
        seed.len() == 32,
        n <= u32::MAX,
    ensures
        state_after(GeneratorState::from_seed(res, seed), n).next_seq == n,
        state_after(GeneratorState::from_seed(res, seed), n).wf(),
        words_of_data(state_after(GeneratorState::from_seed(res, seed), n).rng_state)
            == words_after(words_of_data(seed), links_taken(n) * (res.link_length() as nat)),
    decreases n,
{
    let fresh = GeneratorState::from_seed(res, seed);
    let len = res.link_length() as nat;
    let start = words_of_data(seed);
    lemma_sequence_numbers_count(fresh, n);
    lemma_state_after_keeps_chain(fresh, n);
    if n == 0 {
        assert(0 * len == 0) by (nonlinear_arith);
    } else {
        let earlier = (n - 1) as nat;
        let s = state_after(fresh, earlier);
        lemma_fresh_chain_stream(res, seed, earlier);
        lemma_state_after_keeps_chain(fresh, earlier);
        if earlier == 0 {
            assert(0 * len == 0) by (nonlinear_arith);
        } else {
            let taken = links_taken(earlier);
            assert((taken + 1) * len == taken * len + len) by (nonlinear_arith);
            lemma_words_after_add(start, taken * len, len);
            lemma_words_after_len(start, taken * len + len);
            lemma_words_survive_export(s.stream_after_key());
        }
    }
}

/// The keys of a fresh chain are the links of one stream, the one seeded by
/// the whole seed: mark `n` previews link `n` as its next key, and every
/// mark after the genesis mark has link `n - 1` as its key.
pub proof fn lemma_fresh_chain_keys(res: ProvenanceMarkResolution, seed: Seq<u8>, n: nat)
    requires
        seed.len() == 32,
        n <= u32::MAX,
    ensures
        state_after(GeneratorState::from_seed(res, seed), n).next_key() == link(
            words_of_data(seed),
            res.link_length() as nat,
            n,
        ),
        n > 0 ==> state_after(GeneratorState::from_seed(res, seed), n).key() == link(
            words_of_data(seed),
            res.link_length() as nat,
            (n - 1) as nat,
        ),
{
    let fresh = GeneratorState::from_seed(res, seed);
    let s = state_after(fresh, n);
    let len = res.link_length() as nat;
    let start = words_of_data(seed);
    lemma_fresh_chain_stream(res, seed, n);
    lemma_state_after_keeps_chain(fresh, n);
    assert(s.link_length() == len);
    if n == 0 {
        assert(0 * len == 0) by (nonlinear_arith);
        assert(s.stream_after_key() == words_after(start, 0 * len));
    } else {
        let taken = (n - 1) as nat;
        assert((taken + 1) * len == taken * len + len) by (nonlinear_arith);
        lemma_words_after_add(start, taken * len, len);
        assert(s.stream_after_key() == words_after(start, n * len));
    }
}

/// Going back to a checkpoint brings the same mark again: a generator and a
/// copy of it make the same next mark and are in the same state afterwards.
/// What was looked at for the next key of a mark has left nothing behind.
pub proof fn lemma_checkpoint_repeats(
    generator: ProvenanceMarkGenerator,
    checkpoint: ProvenanceMarkGenerator,
    date: Date,
    info: Option<Seq<u8>>,
)
    requires
        checkpoint@ == generator@,
    ensures
        checkpoint@.mark(date, info) == generator@.mark(date, info),
        checkpoint@.successor() == generator@.successor(),
{
}

/// A generator taken up from the five values of another continues the same
/// chain: the two make the same next mark and reach the same state.
pub proof fn lemma_checkpoint_round_trip(
    generator: ProvenanceMarkGenerator,
    restored: ProvenanceMarkGenerator,
    date: Date,
    info: Option<Seq<u8>>,
)
    requires
        restored@ == (GeneratorState {
            res: generator@.res,
            seed: generator@.seed,
            chain_id: generator@.chain_id,
            next_seq: generator@.next_seq,
            rng_state: generator@.rng_state,
        }),
    ensures
        restored@ == generator@,
        restored@.mark(date, info) == generator@.mark(date, info),
        restored@.successor() == generator@.successor(),
{
}

} // verus!
