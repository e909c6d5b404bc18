//! One mark of a chain.

use crate::resolution::ProvenanceMarkResolution;
use dcbor::Date;
use vstd::prelude::*;

verus! {

/// The date type of `dcbor`. A mark carries it unread.
#[verifier::external_type_specification]
#[verifier::external_body]
pub struct ExDate(dcbor::Date);

/// Why a mark could not be built.
#[derive(Clone, Copy, Debug, PartialEq, Eq, Structural)]
pub enum MarkError {
    /// The key is not as long as the resolution's links.
    InvalidKeyLength,
    /// The next key is not as long as the resolution's links.
    InvalidNextKeyLength,
    /// The chain identifier is not as long as the resolution's links.
    InvalidChainIdLength,
}

/// What a mark says, as mathematical values.
pub struct MarkView {
    pub res: ProvenanceMarkResolution,
    pub key: Seq<u8>,
    pub next_key: Seq<u8>,
    pub chain_id: Seq<u8>,
    pub seq: u32,
    pub date: Date,
    pub info: Option<Seq<u8>>,
}

impl MarkView {
    /// The three links of the mark are as long as its resolution asks.
    pub open spec fn wf(self) -> bool {
        &&& self.key.len() == self.res.link_length()
        &&& self.next_key.len() == self.res.link_length()
        &&& self.chain_id.len() == self.res.link_length()
    }
}

/// The optional payload of a mark as a mathematical value.
pub open spec fn info_view(info: Option<Vec<u8>>) -> Option<Seq<u8>> {
    match info {
        Some(bytes) => Some(bytes@),
        None => None,
    }
}

/// What `ProvenanceMark::new` returns for the given fields: the first link of
/// the wrong length is reported, in the order key, next key, chain
/// identifier; otherwise the mark holds the fields unchanged.
pub open spec fn checked_mark(fields: MarkView) -> Result<MarkView, MarkError> {
    if fields.key.len() != fields.res.link_length() {
        Err(MarkError::InvalidKeyLength)
    } else if fields.next_key.len() != fields.res.link_length() {
        Err(MarkError::InvalidNextKeyLength)
    } else if fields.chain_id.len() != fields.res.link_length() {
        Err(MarkError::InvalidChainIdLength)
    } else {
        Ok(fields)
    }
}

/// One mark of a chain. It binds a sequence number, a date and an optional
/// payload to the chain, and links to its successor through `next_key`.
#[derive(Debug, PartialEq, Eq)]
pub struct ProvenanceMark {
    res: ProvenanceMarkResolution,
    key: Vec<u8>,
    next_key: Vec<u8>,
    chain_id: Vec<u8>,
    seq: u32,
    date: Date,
    info: Option<Vec<u8>>,
}

impl View for ProvenanceMark {
    type V = MarkView;

    closed spec fn view(&self) -> MarkView {
        MarkView {
            res: self.res,
            key: self.key@,
            next_key: self.next_key@,
            chain_id: self.chain_id@,
            seq: self.seq,
            date: self.date,
            info: info_view(self.info),
        }
    }
}

impl Clone for ProvenanceMark {
    /// A copy that says what the mark says.
    fn clone(&self) -> (copy: Self)
        ensures
            copy@ == self@,
    {
        proof {
            use_type_invariant(self);
        }
        let info = match &self.info {
            Some(bytes) => Some(bytes.clone()),
            None => None,
        };
        ProvenanceMark {
            res: self.res,
            key: self.key.clone(),
            next_key: self.next_key.clone(),
            chain_id: self.chain_id.clone(),
            seq: self.seq,
            date: self.date,
            info,
        }
    }
}

impl ProvenanceMark {
    #[verifier::type_invariant]
    spec fn links_fit(self) -> bool {
        self@.wf()
    }

    /// Builds a mark from its fields. Each of the key, the next key and the
    /// chain identifier must be as long as the resolution's links.
    pub fn new(
        res: ProvenanceMarkResolution,
        key: Vec<u8>,
        next_key: Vec<u8>,
        chain_id: Vec<u8>,
        seq: u32,
        date: Date,
        info: Option<Vec<u8>>,
    ) -> (result: Result<Self, MarkError>)
        ensures
            match checked_mark(
                (MarkView {
                    res,
                    key: key@,
                    next_key: next_key@,
                    chain_id: chain_id@,
                    seq,
                    date,
                    info: info_view(info),
                }),
            ) {
                Ok(fields) => result is Ok && result->Ok_0@ == fields && fields.wf(),
                Err(e) => result == Err::<Self, MarkError>(e),
            },
    {
        let len = res.link_length();
        if key.len() != len {
            return Err(MarkError::InvalidKeyLength);
        }
        if next_key.len() != len {
            return Err(MarkError::InvalidNextKeyLength);
        }
        if chain_id.len() != len {
            return Err(MarkError::InvalidChainIdLength);
        }
        Ok(ProvenanceMark { res, key, next_key, chain_id, seq, date, info })
    }

    /// The resolution of the chain the mark belongs to.
    pub fn res(&self) -> (res: ProvenanceMarkResolution)
        ensures
            res == self@.res,
    {
        self.res
    }

    /// The key of this mark.
    pub fn key(&self) -> (key: &Vec<u8>)
        ensures
            key@ == self@.key,
            self@.wf(),
    {
        proof {
            use_type_invariant(self);
        }
        &self.key
    }

    /// The key that the next mark of the chain will have.
    pub fn next_key(&self) -> (next_key: &Vec<u8>)
        ensures
            next_key@ == self@.next_key,
            self@.wf(),
    {
        proof {
            use_type_invariant(self);
        }
        &self.next_key
    }

    /// The identifier of the chain the mark belongs to.
    pub fn chain_id(&self) -> (chain_id: &Vec<u8>)
        ensures
            chain_id@ == self@.chain_id,
            self@.wf(),
    {
        proof {
            use_type_invariant(self);
        }
        &self.chain_id
    }

    /// The position of the mark in its chain, counted from zero.
    pub fn seq(&self) -> (seq: u32)
        ensures
            seq == self@.seq,
    {
        self.seq
    }

    /// The date the mark was made for.
    pub fn date(&self) -> (date: Date)
        ensures
            date == self@.date,
    {
        self.date
    }

    /// The payload of the mark, if it has one.
    pub fn info(&self) -> (info: &Option<Vec<u8>>)
        ensures
            info_view(*info) == self@.info,
    {
        &self.info
    }
}

} // verus!
