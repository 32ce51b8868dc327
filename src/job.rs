//! The job pipeline: submission, the worker's handling of one queued payload,
//! the results it stores, and the replies of the status endpoint.
use vstd::prelude::*;
use vstd::string::StringExecFns;
use crate::codec::{base64_decoding, encode_base64};
use crate::protocol::{
    generate_credit_score_proof, proof_failure_prefix, threshold_message, ZkProof,
};

verus! {

/// Name of the queue that carries serialized job payloads.
pub const JOB_QUEUE: &'static str = "zkp:jobs";

/// Namespace of the keys under which results are stored.
pub const RESULT_KEY_PREFIX: &'static str = "zkp:result:";

/// How long a stored result stays visible, in seconds (24 hours).
pub const RESULT_TTL_SECS: u64 = 86400;

/// Status of a job whose proof was produced.
pub const STATUS_COMPLETED: &'static str = "COMPLETED";

/// Status of a job whose proof was refused.
pub const STATUS_FAILED: &'static str = "FAILED";

/// A submitter's request: prove that `score >= threshold`.
pub struct VerificationRequest {
    pub user_id: String,
    pub score: u64,
    pub threshold: u64,
}

/// What is placed on the job queue.
pub struct JobPayload {
    pub job_id: String,
    pub user_id: String,
    pub score: u64,
    pub threshold: u64,
}

/// The stored outcome of a job.
pub struct JobResult {
    pub status: String,
    pub error_message: Option<String>,
    pub proof_b64: Option<String>,
    pub commitment_b64: Option<String>,
}

/// A result to store: `result` under `key`, visible for `ttl_secs` seconds.
pub struct StoreWrite {
    pub key: String,
    pub result: JobResult,
    pub ttl_secs: u64,
}

pub open spec fn opt_view(o: Option<String>) -> Option<Seq<char>> {
    match o {
        Some(s) => Some(s@),
        None => None,
    }
}

impl JobResult {
    /// A completed result: both proof fields present, no error.
    pub open spec fn is_completed(&self) -> bool {
        &&& self.status@ == STATUS_COMPLETED@
        &&& self.error_message is None
        &&& self.proof_b64 is Some
        &&& self.commitment_b64 is Some
    }

    /// A failed result with message `msg`: no proof fields.
    pub open spec fn is_failed_with(&self, msg: Seq<char>) -> bool {
        &&& self.status@ == STATUS_FAILED@
        &&& opt_view(self.error_message) == Some(msg)
        &&& self.proof_b64 is None
        &&& self.commitment_b64 is None
    }

    /// Every result is either completed or failed, never a mix.
    pub open spec fn wf(&self) -> bool {
        self.is_completed() || exists|m: Seq<char>| self.is_failed_with(m)
    }

    /// The result of a refused job.
    pub fn failed(message: String) -> (r: JobResult)
        ensures
            r.is_failed_with(message@),
            r.wf(),
    {
        let r = JobResult {
            status: String::from_str(STATUS_FAILED),
            error_message: Some(message),
            proof_b64: None,
            commitment_b64: None,
        };
        assert(r.is_failed_with(message@));
        r
    }

    /// The result of a proved job, carrying the proof and commitment bytes
    /// as base64 text. Decoding either field gives back its bytes exactly.
    pub fn completed_from_bytes(proof_bytes: &Vec<u8>, commitment_bytes: &Vec<u8>) -> (r: JobResult)
        ensures
            r.is_completed(),
            r.wf(),
            base64_decoding(r.proof_b64->Some_0@) == Some(proof_bytes@),
            base64_decoding(r.commitment_b64->Some_0@) == Some(commitment_bytes@),
    {
        JobResult {
            status: String::from_str(STATUS_COMPLETED),
            error_message: None,
            proof_b64: Some(encode_base64(proof_bytes)),
            commitment_b64: Some(encode_base64(commitment_bytes)),
        }
    }

    /// The result of a proved job: its fields decode to exactly the proof's
    /// and the commitment's wire bytes.
    pub fn completed(proof: &ZkProof) -> (r: JobResult)
        ensures
            r.is_completed(),
            r.wf(),
            base64_decoding(r.proof_b64->Some_0@) == Some(proof.spec_proof_bytes()),
            base64_decoding(r.commitment_b64->Some_0@) == Some(proof.spec_commitment_bytes()),
    {
        JobResult::completed_from_bytes(proof.proof_bytes(), proof.commitment_bytes())
    }

    /// The result recording the outcome of a proof attempt.
    pub fn from_outcome(outcome: Result<ZkProof, String>) -> (r: JobResult)
        ensures
            r.wf(),
            match outcome {
                Ok(_) => r.is_completed(),
                Err(m) => r.is_failed_with(m@),
            },
    {
        match outcome {
            Ok(p) => JobResult::completed(&p),
            Err(m) => JobResult::failed(m),
        }
    }
}

/// A well-formed result whose status is `FAILED` carries neither a proof nor a
/// commitment, and one whose status is `COMPLETED` carries both.
pub proof fn lemma_failed_carries_no_proof(r: JobResult)
    requires
        r.wf(),
    ensures
        r.status@ == STATUS_FAILED@ ==> r.proof_b64 is None && r.commitment_b64 is None,
        r.status@ == STATUS_COMPLETED@ ==> r.proof_b64 is Some && r.commitment_b64 is Some,
{
    reveal_strlit("FAILED");
    reveal_strlit("COMPLETED");
    assert(STATUS_FAILED@[0] != STATUS_COMPLETED@[0]);
}

/// The key under which the result of job `job_id` is stored.
pub open spec fn result_key_of(job_id: Seq<char>) -> Seq<char> {
    RESULT_KEY_PREFIX@ + job_id
}

/// The key under which the result of job `job_id` is stored.
pub fn result_key(job_id: &String) -> (r: String)
    ensures
        r@ == result_key_of(job_id@),
{
    let mut k = String::from_str(RESULT_KEY_PREFIX);
    k.append(job_id.as_str());
    k
}

impl JobPayload {
    /// The payload that carries `request` as job `job_id`.
    pub fn from_request(job_id: String, request: VerificationRequest) -> (r: JobPayload)
        ensures
            r.job_id@ == job_id@,
            r.user_id@ == request.user_id@,
            r.score == request.score,
            r.threshold == request.threshold,
    {
        JobPayload {
            job_id,
            user_id: request.user_id,
            score: request.score,
            threshold: request.threshold,
        }
    }
}

/// The worker's handling of one payload taken from the queue: `None` when it
/// could not be decoded (nothing is stored for it), otherwise the proof outcome
/// to store under the job's key for the fixed retention time.
pub fn process_job(payload: Option<JobPayload>) -> (r: Option<StoreWrite>)
    ensures
        payload is None <==> r is None,
        payload matches Some(job) ==> {
            let w = r->Some_0;
            &&& w.key@ == result_key_of(job.job_id@)
            &&& w.ttl_secs == RESULT_TTL_SECS
            &&& w.result.wf()
            &&& job.score < job.threshold ==> w.result.is_failed_with(
                threshold_message(job.score as nat, job.threshold as nat),
            )
            &&& job.score >= job.threshold ==> (w.result.is_completed() || exists|m: Seq<char>|
                proof_failure_prefix().is_prefix_of(m) && #[trigger] w.result.is_failed_with(m))
        },
{
    match payload {
        None => None,
        Some(job) => {
            let outcome = generate_credit_score_proof(job.score, job.threshold);
            let ghost g = outcome;
            let result = JobResult::from_outcome(outcome);
            proof {
                if job.score >= job.threshold && !result.is_completed() {
                    assert(result.is_failed_with(g->Err_0@));
                }
            }
            Some(StoreWrite { key: result_key(&job.job_id), result, ttl_secs: RESULT_TTL_SECS })
        },
    }
}

} // verus!
