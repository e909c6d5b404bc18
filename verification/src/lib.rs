//! Deterministic generation of provenance-mark chains.
//!
//! A chain is an ordered sequence of marks that share one chain identifier.
//! Every mark carries its own key and a preview of the key of its successor,
//! so two neighbouring marks can be recognised as consecutive by anyone who
//! holds them, without the seed the chain was grown from.

pub mod chain;
pub mod crypto_utils;
pub mod decimal_text;
pub mod generator;
pub mod hex_text;
pub mod mark;
pub mod resolution;
pub mod rng_state;
pub mod seed;
pub mod xoshiro256starstar;

pub use generator::{GeneratorState, ProvenanceMarkGenerator};
pub use mark::{MarkError, ProvenanceMark};
pub use resolution::ProvenanceMarkResolution;
pub use rng_state::RngState;
pub use seed::ProvenanceSeed;
pub use xoshiro256starstar::Xoshiro256StarStar;
