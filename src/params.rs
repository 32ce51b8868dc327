//! The public parameters shared by prover and verifier. A proof verifies only
//! under the parameters it was made with, so they form one versioned set.
use vstd::prelude::*;
use vstd::string::StringExecFns;

verus! {

/// Version of the public parameter set below.
pub const PROTOCOL_VERSION: u32 = 1;

/// Domain-separation label of the proof transcript.
pub const TRANSCRIPT_LABEL: &'static str = "CreditScoreProofFinal";

/// Number of Bulletproof generators per party.
pub const GENERATOR_CAPACITY: usize = 64;

/// Number of values a proof may aggregate.
pub const PARTY_CAPACITY: usize = 1;

/// Bit width of the proven range `[0, 2^RANGE_BITS)`.
pub const RANGE_BITS: usize = 64;

/// A set of public proof parameters.
pub struct ProofParams {
    pub version: u32,
    pub label: &'static str,
    pub gens_capacity: usize,
    pub party_capacity: usize,
    pub range_bits: usize,
}

impl ProofParams {
    /// The parameters of the current protocol version.
    pub fn standard() -> (r: ProofParams)
        ensures
            r.is_standard(),
    {
        ProofParams {
            version: PROTOCOL_VERSION,
            label: TRANSCRIPT_LABEL,
            gens_capacity: GENERATOR_CAPACITY,
            party_capacity: PARTY_CAPACITY,
            range_bits: RANGE_BITS,
        }
    }

    /// Whether these are the parameters of the current protocol version.
    pub fn check_standard(&self) -> (r: bool)
        ensures
            r == self.is_standard(),
    {
        let label = String::from_str(self.label);
        let standard = String::from_str(TRANSCRIPT_LABEL);
        self.version == PROTOCOL_VERSION && label == standard && self.gens_capacity
            == GENERATOR_CAPACITY && self.party_capacity == PARTY_CAPACITY && self.range_bits
            == RANGE_BITS
    }

    pub open spec fn is_standard(&self) -> bool {
        &&& self.version == PROTOCOL_VERSION
        &&& self.label@ == TRANSCRIPT_LABEL@
        &&& self.gens_capacity == GENERATOR_CAPACITY
        &&& self.party_capacity == PARTY_CAPACITY
        &&& self.range_bits == RANGE_BITS
    }
}

} // verus!
