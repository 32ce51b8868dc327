//! The independent check of a published result artifact under the public
//! parameters, with no access to the service that produced it.
use vstd::prelude::*;
use vstd::string::StringExecFns;
use crate::codec::{base64_decoding, decode_base64};
use crate::crypto::{commitment_from_slice, proof_parses, range_proof_from_bytes};
use crate::decimal::{decimal, decimal_string};
use crate::job::{opt_view, JobResult, STATUS_COMPLETED};
use crate::params::ProofParams;
use crate::protocol::{verify_proof, ZkProof};

verus! {

/// Why an artifact was not accepted.
#[derive(Debug, PartialEq, Eq, Structural)]
pub enum VerifyError {
    /// The artifact's status is not `COMPLETED`.
    NotCompleted,
    /// The proof or the commitment field is missing.
    MissingProof,
    /// A field is not valid base64, or its bytes are not a proof or a commitment.
    ArtifactDecode,
    /// The proof does not verify.
    Cryptographic,
    /// The checker's parameters are not the standard set of this protocol
    /// version.
    ProtocolVersion,
}

/// The proof and commitment bytes an artifact carries, or why it carries none.
pub open spec fn artifact_bytes(
    status: Seq<char>,
    proof_b64: Option<Seq<char>>,
    commitment_b64: Option<Seq<char>>,
) -> Result<(Seq<u8>, Seq<u8>), VerifyError> {
    if status != STATUS_COMPLETED@ {
        Err(VerifyError::NotCompleted)
    } else if proof_b64 is None || commitment_b64 is None {
        Err(VerifyError::MissingProof)
    } else {
        match (base64_decoding(proof_b64->Some_0), base64_decoding(commitment_b64->Some_0)) {
            (Some(p), Some(c)) => if c.len() == 32 {
                Ok((p, c))
            } else {
                Err(VerifyError::ArtifactDecode)
            },
            _ => Err(VerifyError::ArtifactDecode),
        }
    }
}

/// A completed result whose fields encode proof bytes `p` and a 32-byte
/// commitment `c` decodes back to exactly `p` and `c`: the transport form loses
/// nothing.
pub proof fn lemma_transport_round_trip(result: JobResult, p: Seq<u8>, c: Seq<u8>)
    requires
        result.is_completed(),
        base64_decoding(result.proof_b64->Some_0@) == Some(p),
        base64_decoding(result.commitment_b64->Some_0@) == Some(c),
        c.len() == 32,
    ensures
        artifact_bytes(result.status@, opt_view(result.proof_b64), opt_view(result.commitment_b64))
            == Ok::<(Seq<u8>, Seq<u8>), VerifyError>((p, c)),
{
}

/// Extracts the proof and commitment bytes from an artifact's fields.
pub fn decode_artifact(
    status: &String,
    proof_b64: &Option<String>,
    commitment_b64: &Option<String>,
) -> (r: Result<(Vec<u8>, Vec<u8>), VerifyError>)
    ensures
        match r {
            Ok((p, c)) => artifact_bytes(status@, opt_view(*proof_b64), opt_view(*commitment_b64))
                == Ok::<(Seq<u8>, Seq<u8>), VerifyError>((p@, c@)),
            Err(e) => artifact_bytes(status@, opt_view(*proof_b64), opt_view(*commitment_b64))
                == Err::<(Seq<u8>, Seq<u8>), VerifyError>(e),
        },
{
    let completed = String::from_str(STATUS_COMPLETED);
    if !(*status == completed) {
        return Err(VerifyError::NotCompleted);
    }
    let (ps, cs) = match (proof_b64, commitment_b64) {
        (Some(ps), Some(cs)) => (ps, cs),
        _ => {
            return Err(VerifyError::MissingProof);
        },
    };
    let p = match decode_base64(ps) {
        Some(p) => p,
        None => {
            return Err(VerifyError::ArtifactDecode);
        },
    };
    let c = match decode_base64(cs) {
        Some(c) => c,
        None => {
            return Err(VerifyError::ArtifactDecode);
        },
    };
    if c.len() != 32 {
        return Err(VerifyError::ArtifactDecode);
    }
    Ok((p, c))
}

/// Checks an artifact under `params`: the parameters must be the standard set
/// of this protocol version (any other set is a version mismatch), the fields must decode, and the proof must verify against the
/// commitment.
pub fn verify_artifact(
    status: &String,
    proof_b64: &Option<String>,
    commitment_b64: &Option<String>,
    params: &ProofParams,
) -> (r: Result<(), VerifyError>)
    ensures
        !params.is_standard() ==> r == Err::<(), VerifyError>(VerifyError::ProtocolVersion),
        params.is_standard() ==> match artifact_bytes(
            status@,
            opt_view(*proof_b64),
            opt_view(*commitment_b64),
        ) {
            Err(e) => r == Err::<(), VerifyError>(e),
            Ok((p, _)) => {
                &&& (p.len() % 32 != 0 || p.len() < 224) ==> r == Err::<(), VerifyError>(
                    VerifyError::ArtifactDecode,
                )
                &&& !proof_parses(p) ==> r == Err::<(), VerifyError>(VerifyError::ArtifactDecode)
                &&& proof_parses(p) ==> (r is Ok || r == Err::<(), VerifyError>(
                    VerifyError::Cryptographic,
                ))
            },
        },
        r is Ok ==> (params.range_bits == 8 || params.range_bits == 16 || params.range_bits == 32
            || params.range_bits == 64),
        r is Ok ==> params.gens_capacity >= params.range_bits && params.party_capacity >= 1,
{
    if !params.check_standard() {
        return Err(VerifyError::ProtocolVersion);
    }
    let (p, c) = match decode_artifact(status, proof_b64, commitment_b64) {
        Ok(pc) => pc,
        Err(e) => {
            return Err(e);
        },
    };
    let proof = match range_proof_from_bytes(p.as_slice()) {
        Ok(proof) => proof,
        Err(_) => {
            return Err(VerifyError::ArtifactDecode);
        },
    };
    let commitment = commitment_from_slice(c.as_slice());
    if verify_proof(&ZkProof::from_parts(proof, commitment), params) {
        Ok(())
    } else {
        Err(VerifyError::Cryptographic)
    }
}

/// The human-facing statement of a verification outcome against the publicly
/// agreed `threshold`.
pub open spec fn verdict(outcome: Result<(), VerifyError>, threshold: nat) -> Seq<char> {
    match outcome {
        Ok(_) => "SUCCESS: The proof is cryptographically valid. The user's score is confirmed to be >= "@
            + decimal(threshold) + "."@,
        Err(VerifyError::NotCompleted) => "Verification FAILED: The job status was not 'COMPLETED'."@,
        Err(VerifyError::MissingProof) => "Verification FAILED: Missing proof or commitment in API response."@,
        Err(VerifyError::ArtifactDecode) => "Verification FAILED: The proof or commitment could not be decoded."@,
        Err(VerifyError::Cryptographic) => "FAILURE: The proof is invalid!"@,
        Err(VerifyError::ProtocolVersion) => "Verification FAILED: The public parameters are not those of this protocol version."@,
    }
}

/// The statement of `outcome` for a verifier who agreed on `threshold`.
pub fn verdict_message(outcome: &Result<(), VerifyError>, threshold: u64) -> (r: String)
    ensures
        r@ == verdict(*outcome, threshold as nat),
{
    match outcome {
        Ok(_) => {
            let mut m = String::from_str(
                "SUCCESS: The proof is cryptographically valid. The user's score is confirmed to be >= ",
            );
            m.append(decimal_string(threshold).as_str());
            m.append(".");
            m
        },
        Err(VerifyError::NotCompleted) => String::from_str(
            "Verification FAILED: The job status was not 'COMPLETED'.",
        ),
        Err(VerifyError::MissingProof) => String::from_str(
            "Verification FAILED: Missing proof or commitment in API response.",
        ),
        Err(VerifyError::ArtifactDecode) => String::from_str(
            "Verification FAILED: The proof or commitment could not be decoded.",
        ),
        Err(VerifyError::Cryptographic) => String::from_str("FAILURE: The proof is invalid!"),
        Err(VerifyError::ProtocolVersion) => String::from_str(
            "Verification FAILED: The public parameters are not those of this protocol version.",
        ),
    }
}

} // verus!
