use std::collections::HashSet;

use zk_credit::audit::{decode_artifact, verdict_message, verify_artifact, VerifyError};
use zk_credit::codec::{decode_base64, encode_base64};
use zk_credit::decimal::decimal_string;
use zk_credit::job::{
    process_job, result_key, JobPayload, JobResult, VerificationRequest, RESULT_TTL_SECS,
};
use zk_credit::params::{ProofParams, PROTOCOL_VERSION, TRANSCRIPT_LABEL};
use zk_credit::protocol::{
    generate_credit_score_proof, prove, ProtocolError, secret_value, threshold_not_met_message, verify_proof,
};
use zk_credit::service::{
    status_reply, submit, submit_reply, StatusReply, StoreLookup, SubmitReply,
};

fn request(score: u64, threshold: u64) -> VerificationRequest {
    VerificationRequest { user_id: "alice".to_string(), score, threshold }
}

fn payload(job_id: &str, score: u64, threshold: u64) -> JobPayload {
    JobPayload { job_id: job_id.to_string(), user_id: "alice".to_string(), score, threshold }
}

fn check(result: &JobResult, params: &ProofParams) -> Result<(), VerifyError> {
    verify_artifact(&result.status, &result.proof_b64, &result.commitment_b64, params)
}

#[test]
fn decimal_renders_digits() {
    assert_eq!(decimal_string(0), "0");
    assert_eq!(decimal_string(7), "7");
    assert_eq!(decimal_string(10), "10");
    assert_eq!(decimal_string(700), "700");
    assert_eq!(decimal_string(u64::MAX), "18446744073709551615");
}

#[test]
fn secret_is_the_difference() {
    assert_eq!(secret_value(750, 700), Some(50));
    assert_eq!(secret_value(700, 700), Some(0));
    assert_eq!(secret_value(650, 700), None);
}

#[test]
fn proof_above_threshold_verifies() {
    let proof = generate_credit_score_proof(750, 700).ok().unwrap();
    assert!(verify_proof(&proof, &ProofParams::standard()));
}

#[test]
fn proof_at_range_edges_verifies() {
    for (score, threshold) in [(0u64, 0u64), (700, 700), (u64::MAX, 0), (u64::MAX, u64::MAX)] {
        let proof = generate_credit_score_proof(score, threshold).ok().unwrap();
        assert!(verify_proof(&proof, &ProofParams::standard()));
    }
}

#[test]
fn proof_below_threshold_is_refused() {
    match generate_credit_score_proof(650, 700) {
        Err(m) => assert_eq!(m, "Condition not met: Score 650 is less than threshold 700."),
        Ok(_) => panic!("a score below the threshold was proved"),
    }
    assert!(generate_credit_score_proof(0, 1).is_err());
    assert_eq!(
        threshold_not_met_message(u64::MAX - 1, u64::MAX),
        "Condition not met: Score 18446744073709551614 is less than threshold 18446744073709551615."
    );
}

#[test]
fn failed_result_carries_no_proof() {
    let write = process_job(Some(payload("j1", 650, 700))).unwrap();
    assert_eq!(write.result.status, "FAILED");
    assert_eq!(
        write.result.error_message.as_deref(),
        Some("Condition not met: Score 650 is less than threshold 700.")
    );
    assert!(write.result.proof_b64.is_none());
    assert!(write.result.commitment_b64.is_none());
}

#[test]
fn base64_known_values() {
    assert_eq!(encode_base64(&vec![1u8, 2, 3]), "AQID");
    assert_eq!(encode_base64(&vec![]), "");
    assert_eq!(encode_base64(&vec![0xffu8]), "/w==");
    assert_eq!(decode_base64(&"AQID".to_string()), Some(vec![1u8, 2, 3]));
    assert_eq!(decode_base64(&"!!".to_string()), None);
    assert_eq!(decode_base64(&"/x==".to_string()), None);
}

#[test]
fn transport_round_trip_keeps_the_proof() {
    let proof = generate_credit_score_proof(750, 700).ok().unwrap();
    let result = JobResult::completed(&proof);
    let (p, c) = decode_artifact(&result.status, &result.proof_b64, &result.commitment_b64).unwrap();
    assert_eq!(p, proof.range_proof().to_bytes());
    assert_eq!(c, proof.commitment().to_bytes().to_vec());
    assert_eq!(check(&result, &ProofParams::standard()), Ok(()));
}

#[test]
fn completed_fields_encode_the_bytes() {
    let result = JobResult::completed_from_bytes(&vec![1u8, 2, 3], &vec![0u8; 32]);
    assert_eq!(result.status, "COMPLETED");
    assert_eq!(result.error_message, None);
    assert_eq!(result.proof_b64.as_deref(), Some("AQID"));
    assert_eq!(
        result.commitment_b64.as_deref(),
        Some("AAAAAAAAAAAAAAAAAAAAAAAAAAAAAAAAAAAAAAAAAAA=")
    );
}

#[test]
fn job_ids_are_distinct() {
    let mut seen = HashSet::new();
    for _ in 0..1000 {
        let job = submit(request(750, 700));
        assert_eq!(job.job_id.len(), 36);
        assert!(seen.insert(job.job_id));
    }
}

#[test]
fn submit_keeps_the_request() {
    let job = submit(request(750, 700));
    assert_eq!(job.user_id, "alice");
    assert_eq!(job.score, 750);
    assert_eq!(job.threshold, 700);
}

#[test]
fn malformed_payload_writes_nothing_and_later_jobs_run() {
    assert!(process_job(None).is_none());
    let write = process_job(Some(payload("j2", 750, 700))).unwrap();
    assert_eq!(write.key, "zkp:result:j2");
    assert_eq!(write.ttl_secs, 86400);
    assert_eq!(write.result.status, "COMPLETED");
}

#[test]
fn result_key_and_retention() {
    assert_eq!(result_key(&"abc".to_string()), "zkp:result:abc");
    assert_eq!(RESULT_TTL_SECS, 86400);
}

#[test]
fn end_to_end_success_and_failure() {
    let job = submit(request(750, 700));
    let write = process_job(Some(job)).unwrap();
    assert_eq!(write.result.status, "COMPLETED");
    assert!(write.result.proof_b64.is_some());
    assert!(write.result.commitment_b64.is_some());
    let outcome = check(&write.result, &ProofParams::standard());
    assert_eq!(outcome, Ok(()));
    assert_eq!(
        verdict_message(&outcome, 700),
        "SUCCESS: The proof is cryptographically valid. The user's score is confirmed to be >= 700."
    );

    let job = submit(request(650, 700));
    let write = process_job(Some(job)).unwrap();
    assert_eq!(write.result.status, "FAILED");
    assert!(write.result.error_message.is_some());
    assert!(write.result.proof_b64.is_none() && write.result.commitment_b64.is_none());
    assert_eq!(check(&write.result, &ProofParams::standard()), Err(VerifyError::NotCompleted));
}

#[test]
fn other_parameters_reject_the_proof() {
    let proof = generate_credit_score_proof(750, 700).ok().unwrap();
    let std = ProofParams::standard();
    let other_label = ProofParams { label: "CreditScoreProofV2", ..ProofParams::standard() };
    let few_gens = ProofParams { gens_capacity: 32, ..ProofParams::standard() };
    let narrow = ProofParams { range_bits: 32, ..ProofParams::standard() };
    let odd_width = ProofParams { range_bits: 63, ..ProofParams::standard() };
    assert_eq!(std.label, TRANSCRIPT_LABEL);
    for _ in 0..3 {
        assert!(verify_proof(&proof, &std));
        assert!(!verify_proof(&proof, &other_label));
        assert!(!verify_proof(&proof, &few_gens));
        assert!(!verify_proof(&proof, &narrow));
        assert!(!verify_proof(&proof, &odd_width));
    }
}

#[test]
fn artifact_errors_are_distinct() {
    let status = "COMPLETED".to_string();
    let good = encode_base64(&vec![0u8; 32]);
    assert_eq!(
        decode_artifact(&"FAILED".to_string(), &Some(good.clone()), &Some(good.clone())),
        Err(VerifyError::NotCompleted)
    );
    assert_eq!(decode_artifact(&status, &None, &Some(good.clone())), Err(VerifyError::MissingProof));
    assert_eq!(
        decode_artifact(&status, &Some("@@".to_string()), &Some(good.clone())),
        Err(VerifyError::ArtifactDecode)
    );
    assert_eq!(
        decode_artifact(&status, &Some(good.clone()), &Some(encode_base64(&vec![0u8; 31]))),
        Err(VerifyError::ArtifactDecode)
    );
    let params = ProofParams::standard();
    assert_eq!(
        verify_artifact(&status, &Some(encode_base64(&vec![0u8; 40])), &Some(good.clone()), &params),
        Err(VerifyError::ArtifactDecode)
    );
    let proof = generate_credit_score_proof(750, 700).ok().unwrap();
    let other = generate_credit_score_proof(900, 700).ok().unwrap();
    let swapped = JobResult::completed(&proof);
    let foreign = encode_base64(&other.commitment().to_bytes().to_vec());
    assert_eq!(
        verify_artifact(&status, &swapped.proof_b64, &Some(foreign), &params),
        Err(VerifyError::Cryptographic)
    );
}

#[test]
fn other_protocol_version_is_refused() {
    let proof = generate_credit_score_proof(750, 700).ok().unwrap();
    let result = JobResult::completed(&proof);
    let later = ProofParams { version: PROTOCOL_VERSION + 1, ..ProofParams::standard() };
    assert_eq!(check(&result, &later), Err(VerifyError::ProtocolVersion));
    assert_eq!(check(&result, &ProofParams::standard()), Ok(()));
}

#[test]
fn non_standard_parameters_are_a_version_error() {
    let proof = generate_credit_score_proof(750, 700).ok().unwrap();
    let result = JobResult::completed(&proof);
    let few = ProofParams { gens_capacity: 8, ..ProofParams::standard() };
    let no_party = ProofParams { party_capacity: 0, ..ProofParams::standard() };
    assert_eq!(check(&result, &few), Err(VerifyError::ProtocolVersion));
    assert_eq!(check(&result, &no_party), Err(VerifyError::ProtocolVersion));
    assert!(!verify_proof(&proof, &few));
    assert!(!verify_proof(&proof, &no_party));
    let other_label = ProofParams { label: "CreditScoreProofV2", ..ProofParams::standard() };
    assert_eq!(check(&result, &other_label), Err(VerifyError::ProtocolVersion));
}

#[test]
fn verdicts_name_each_failure() {
    assert_eq!(
        verdict_message(&Err(VerifyError::NotCompleted), 700),
        "Verification FAILED: The job status was not 'COMPLETED'."
    );
    assert_eq!(
        verdict_message(&Err(VerifyError::MissingProof), 700),
        "Verification FAILED: Missing proof or commitment in API response."
    );
    assert_eq!(
        verdict_message(&Err(VerifyError::ArtifactDecode), 700),
        "Verification FAILED: The proof or commitment could not be decoded."
    );
    assert_eq!(
        verdict_message(&Err(VerifyError::Cryptographic), 700),
        "FAILURE: The proof is invalid!"
    );
    assert_eq!(
        verdict_message(&Err(VerifyError::ProtocolVersion), 700),
        "Verification FAILED: The public parameters are not those of this protocol version."
    );
}

#[test]
fn gateway_and_status_replies() {
    match submit_reply("id-1".to_string(), true) {
        SubmitReply::Accepted(id) => assert_eq!(id, "id-1"),
        SubmitReply::ServerError => panic!("an enqueued job was refused"),
    }
    assert_eq!(submit_reply("id-1".to_string(), true).code(), 202);
    assert_eq!(submit_reply("id-1".to_string(), false).code(), 500);
    assert!(matches!(submit_reply("id-1".to_string(), false), SubmitReply::ServerError));

    let found = status_reply(StoreLookup::Present("{}".to_string()));
    assert_eq!(found.code(), 200);
    assert!(matches!(found, StatusReply::Found(ref s) if s == "{}"));
    let absent = status_reply(StoreLookup::Absent);
    assert_eq!(absent.code(), 404);
    match absent {
        StatusReply::NotFound(m) => assert_eq!(
            m,
            "No result found for this job_id. It may still be processing, the ID may be unknown, or the result may have expired."
        ),
        _ => panic!("an absent result was not reported as not found"),
    }
    assert_eq!(status_reply(StoreLookup::Unavailable).code(), 500);
}

#[test]
fn prove_reports_typed_errors() {
    assert!(matches!(prove(650, 700), Err(ProtocolError::ThresholdNotMet)));
    let proof = prove(750, 700).ok().unwrap();
    assert!(verify_proof(&proof, &ProofParams::standard()));
    assert_eq!(proof.proof_bytes(), &proof.range_proof().to_bytes());
    assert_eq!(proof.commitment_bytes(), &proof.commitment().to_bytes().to_vec());
}

#[test]
fn job_ids_have_uuid_v4_shape() {
    let id = submit(request(1, 0)).job_id;
    let chars: Vec<char> = id.chars().collect();
    assert_eq!(chars.len(), 36);
    for (i, c) in chars.iter().enumerate() {
        if i == 8 || i == 13 || i == 18 || i == 23 {
            assert_eq!(*c, '-');
        } else {
            assert!(c.is_ascii_digit() || ('a'..='f').contains(c));
        }
    }
    assert_eq!(chars[14], '4');
    assert!(['8', '9', 'a', 'b'].contains(&chars[19]));
}

#[test]
fn base64_length_is_padded() {
    for n in 0..10usize {
        assert_eq!(encode_base64(&vec![7u8; n]).len(), 4 * ((n + 2) / 3));
    }
}
