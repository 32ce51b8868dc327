//! Building a threshold proof: a commitment to `score - threshold` with a proof
//! that the committed value lies in `[0, 2^64)`, and checking such a proof.
use vstd::prelude::*;
use vstd::string::StringExecFns;
use vstd::arithmetic::power2::{lemma2_to64, pow2};
pub use crate::crypto::ZkProof;
use crate::crypto::{
    generators, made_under, proof_error_message, proof_parses, prove_single, random_blinding, verify_single,
    ProofOrigin,
};
use crate::decimal::{decimal, decimal_string};
use crate::params::{ProofParams, GENERATOR_CAPACITY, PARTY_CAPACITY, RANGE_BITS, TRANSCRIPT_LABEL};

verus! {

/// Whether `o` records a proof made under `params` over a value in its range.
pub open spec fn accepted_under(o: ProofOrigin, params: ProofParams) -> bool {
    &&& made_under(
        o,
        params.label@,
        params.gens_capacity as nat,
        params.party_capacity as nat,
        params.range_bits as nat,
    )
    &&& o.value < pow2(params.range_bits as nat)
}

/// Whether `o` records a proof made under the standard parameters.
pub open spec fn made_under_standard(o: ProofOrigin) -> bool {
    made_under(
        o,
        TRANSCRIPT_LABEL@,
        GENERATOR_CAPACITY as nat,
        PARTY_CAPACITY as nat,
        RANGE_BITS as nat,
    )
}

/// Why a proof was not produced.
pub enum ProtocolError {
    /// The score is below the threshold.
    ThresholdNotMet,
    /// The proof system refused, with its message.
    ProofSystem(String),
}

/// A job as the prover sees it.
pub struct JobPayload {
    pub user_id: String,
    pub score: u64,
    pub threshold: u64,
}

/// A proof made under the standard parameters over a 64-bit value is accepted
/// under any standard parameter set: every proof that `prove` returns passes
/// `verify_proof` with `ProofParams::standard()`.
pub proof fn lemma_standard_accepts(o: ProofOrigin, params: ProofParams)
    requires
        made_under_standard(o),
        o.value <= u64::MAX,
        params.is_standard(),
    ensures
        accepted_under(o, params),
{
    lemma2_to64();
}

/// The message of a proof refused because `score < threshold`.
pub open spec fn threshold_message(score: nat, threshold: nat) -> Seq<char> {
    "Condition not met: Score "@ + decimal(score) + " is less than threshold "@ + decimal(
        threshold,
    ) + "."@
}

/// The prefix of the message of a proof that the proof system itself refused.
pub open spec fn proof_failure_prefix() -> Seq<char> {
    "Proof generation failed: "@
}

/// The secret value a proof commits to, if the score meets the threshold.
pub open spec fn secret_of(score: u64, threshold: u64) -> Option<u64> {
    if score >= threshold {
        Some((score - threshold) as u64)
    } else {
        None
    }
}

/// The explanation of a refused threshold, as text.
pub fn threshold_not_met_message(score: u64, threshold: u64) -> (r: String)
    ensures
        r@ == threshold_message(score as nat, threshold as nat),
{
    let mut m = String::from_str("Condition not met: Score ");
    m.append(decimal_string(score).as_str());
    m.append(" is less than threshold ");
    m.append(decimal_string(threshold).as_str());
    m.append(".");
    m
}

/// The value to commit to: `score - threshold`, or `None` when the score is
/// below the threshold.
pub fn secret_value(score: u64, threshold: u64) -> (r: Option<u64>)
    ensures
        r == secret_of(score, threshold),
{
    if score < threshold {
        None
    } else {
        Some(score - threshold)
    }
}

/// Proves that `score >= threshold` without revealing `score`: commits to
/// `score - threshold` under a fresh random blinding factor and proves the
/// committed value lies in `[0, 2^64)`, under the standard parameters.
///
/// Fails with `ThresholdNotMet` exactly when `score < threshold`; any other
/// failure comes from the proof system.
pub fn prove(score: u64, threshold: u64) -> (r: Result<ZkProof, ProtocolError>)
    ensures
        score < threshold <==> r matches Err(ProtocolError::ThresholdNotMet),
        r matches Ok(z) ==> {
            &&& z.origin() matches Some(o)
            &&& made_under_standard(o)
            &&& o.value == score - threshold
            &&& z.well_formed()
            &&& proof_parses(z.spec_proof_bytes())
        },
{
    let secret = match secret_value(score, threshold) {
        None => {
            return Err(ProtocolError::ThresholdNotMet);
        },
        Some(v) => v,
    };
    let gens = generators(GENERATOR_CAPACITY, PARTY_CAPACITY);
    let blinding = random_blinding();
    match prove_single(&gens, TRANSCRIPT_LABEL, secret, &blinding, RANGE_BITS) {
        Ok(z) => Ok(z),
        Err(e) => Err(ProtocolError::ProofSystem(proof_error_message(&e))),
    }
}

/// `prove`, with its failure as text: the threshold message when
/// `score < threshold`, else the proof system's message behind a fixed prefix.
pub fn generate_credit_score_proof(score: u64, threshold: u64) -> (r: Result<ZkProof, String>)
    ensures
        score < threshold ==> r is Err && r->Err_0@ == threshold_message(
            score as nat,
            threshold as nat,
        ),
        score >= threshold ==> (r is Ok || proof_failure_prefix().is_prefix_of(r->Err_0@)),
        r matches Ok(z) ==> {
            &&& z.origin() matches Some(o)
            &&& made_under_standard(o)
            &&& o.value == score - threshold
            &&& z.well_formed()
            &&& proof_parses(z.spec_proof_bytes())
        },
{
    match prove(score, threshold) {
        Ok(z) => Ok(z),
        Err(ProtocolError::ThresholdNotMet) => Err(threshold_not_met_message(score, threshold)),
        Err(ProtocolError::ProofSystem(message)) => {
            let mut m = String::from_str("Proof generation failed: ");
            m.append(message.as_str());
            proof {
                reveal_strlit("Proof generation failed: ");
                assert(proof_failure_prefix().is_prefix_of(m@));
            }
            Err(m)
        },
    }
}

/// Checks `proof` under the public parameters `params`. A proof made under
/// `params` over a value in the range is accepted; an unsupported range width, or fewer generators than
/// the width or no party, is always rejected.
///
/// A valid proof shows only that the committed value lies in the range. It
/// does not bind that value to `score - threshold`: the checker never learns
/// the score, so that link rests on the prover computing the difference
/// honestly. Binding it would take a second commitment, to the score, and a
/// proof of the linear relation between the two commitments and the threshold.
pub fn verify_proof(proof: &ZkProof, params: &ProofParams) -> (r: bool)
    ensures
        proof.origin() matches Some(o) && accepted_under(o, *params) ==> r,
        r ==> (params.range_bits == 8 || params.range_bits == 16 || params.range_bits == 32
            || params.range_bits == 64),
        r ==> params.gens_capacity >= params.range_bits && params.party_capacity >= 1,
{
    let gens = generators(params.gens_capacity, params.party_capacity);
    verify_single(proof, &gens, params.label, params.range_bits).is_ok()
}

} // verus!
