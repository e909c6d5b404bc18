//! The resolution of a chain: how wide its links are.

use vstd::prelude::*;

verus! {

/// The resolution of a provenance-mark chain. It fixes the link length, the
/// byte width shared by the chain identifier and by every key of the chain.
#[derive(Clone, Copy, Debug, PartialEq, Eq, Hash, Structural)]
pub enum ProvenanceMarkResolution {
    Low,
    Medium,
    Quartile,
    High,
}

impl ProvenanceMarkResolution {
    /// The link length in bytes, as a specification value.
    pub open spec fn spec_link_length(&self) -> usize {
        match self {
            ProvenanceMarkResolution::Low => 4,
            ProvenanceMarkResolution::Medium => 8,
            ProvenanceMarkResolution::Quartile => 16,
            ProvenanceMarkResolution::High => 32,
        }
    }

    /// The lower-case name of the resolution, as a specification value.
    pub open spec fn spec_name(&self) -> Seq<char> {
        match self {
            ProvenanceMarkResolution::Low => "low"@,
            ProvenanceMarkResolution::Medium => "medium"@,
            ProvenanceMarkResolution::Quartile => "quartile"@,
            ProvenanceMarkResolution::High => "high"@,
        }
    }

    /// The byte width of the chain identifier and of every key.
    #[verifier::when_used_as_spec(spec_link_length)]
    pub fn link_length(&self) -> (n: usize)
        ensures
            n == self.spec_link_length(),
            0 < n <= 32,
    {
        match self {
            ProvenanceMarkResolution::Low => 4,
            ProvenanceMarkResolution::Medium => 8,
            ProvenanceMarkResolution::Quartile => 16,
            ProvenanceMarkResolution::High => 32,
        }
    }

    /// The lower-case name of the resolution.
    pub fn name(&self) -> (s: &'static str)
        ensures
            s@ == self.spec_name(),
    {
        match self {
            ProvenanceMarkResolution::Low => "low",
            ProvenanceMarkResolution::Medium => "medium",
            ProvenanceMarkResolution::Quartile => "quartile",
            ProvenanceMarkResolution::High => "high",
        }
    }
}

} // verus!
