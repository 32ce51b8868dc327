//! The decisions of the submission gateway and the status endpoint. The
//! transport (HTTP, the queue and the store) hands them plain outcomes.
use vstd::prelude::*;
use vstd::string::StringExecFns;
use crate::job::{JobPayload, VerificationRequest};

verus! {

/// HTTP status of an accepted submission.
pub const CODE_ACCEPTED: u16 = 202;

/// HTTP status of a found result.
pub const CODE_OK: u16 = 200;

/// HTTP status of a result that is not (or no longer) in the store.
pub const CODE_NOT_FOUND: u16 = 404;

/// HTTP status of a queue or store failure.
pub const CODE_SERVER_ERROR: u16 = 500;

/// A lowercase hexadecimal digit.
pub open spec fn is_lower_hex(c: char) -> bool {
    ('0' <= c && c <= '9') || ('a' <= c && c <= 'f')
}

/// The hyphenated lowercase text of a version-4 UUID: 8-4-4-4-12 hex digits,
/// the version digit `4`, and a variant digit of 8, 9, a or b.
pub open spec fn is_uuid_v4_text(s: Seq<char>) -> bool {
    &&& s.len() == 36
    &&& forall|i: int|
        0 <= i < 36 ==> if i == 8 || i == 13 || i == 18 || i == 23 {
            s[i] == '-'
        } else {
            is_lower_hex(#[trigger] s[i])
        }
    &&& s[14] == '4'
    &&& (s[19] == '8' || s[19] == '9' || s[19] == 'a' || s[19] == 'b')
}

/// Relies on `uuid::Uuid::new_v4` and its `Display` form, the hyphenated
/// lowercase text: a random version-4 job identifier.
#[verifier::external_body]
fn new_job_id() -> (r: String)
    ensures
        is_uuid_v4_text(r@),
{
    uuid::Uuid::new_v4().to_string()
}

/// Turns a request into the payload to enqueue, under a freshly drawn job
/// identifier.
pub fn submit(request: VerificationRequest) -> (r: JobPayload)
    ensures
        is_uuid_v4_text(r.job_id@),
        r.user_id@ == request.user_id@,
        r.score == request.score,
        r.threshold == request.threshold,
{
    JobPayload::from_request(new_job_id(), request)
}

/// The gateway's reply to a submission.
pub enum SubmitReply {
    /// The payload was enqueued as this job.
    Accepted(String),
    /// The payload could not be enqueued: no job identifier is handed out.
    ServerError,
}

impl SubmitReply {
    pub open spec fn spec_code(&self) -> u16 {
        match self {
            SubmitReply::Accepted(_) => CODE_ACCEPTED,
            SubmitReply::ServerError => CODE_SERVER_ERROR,
        }
    }

    /// The HTTP status of the reply.
    pub fn code(&self) -> (r: u16)
        ensures
            r == self.spec_code(),
    {
        match self {
            SubmitReply::Accepted(_) => CODE_ACCEPTED,
            SubmitReply::ServerError => CODE_SERVER_ERROR,
        }
    }
}

/// The reply once the push of job `job_id` has been tried: the identifier is
/// returned only when the payload was enqueued.
pub fn submit_reply(job_id: String, enqueued: bool) -> (r: SubmitReply)
    ensures
        enqueued ==> (r matches SubmitReply::Accepted(id) && id@ == job_id@),
        !enqueued ==> r is ServerError,
{
    if enqueued {
        SubmitReply::Accepted(job_id)
    } else {
        SubmitReply::ServerError
    }
}

/// What a lookup in the result store gave.
pub enum StoreLookup {
    /// The stored, serialized result.
    Present(String),
    /// No value under the key: still processing, unknown, or expired.
    Absent,
    /// The store could not be reached.
    Unavailable,
}

/// The status endpoint's reply.
pub enum StatusReply {
    /// The stored result, as it was stored.
    Found(String),
    /// No result: the message says why that may be.
    NotFound(String),
    /// The store failed.
    ServerError,
}

/// The message of a reply for which no result is stored.
pub open spec fn not_found_message() -> Seq<char> {
    "No result found for this job_id. It may still be processing, the ID may be unknown, or the result may have expired."@
}

impl StatusReply {
    pub open spec fn spec_code(&self) -> u16 {
        match self {
            StatusReply::Found(_) => CODE_OK,
            StatusReply::NotFound(_) => CODE_NOT_FOUND,
            StatusReply::ServerError => CODE_SERVER_ERROR,
        }
    }

    /// The HTTP status of the reply.
    pub fn code(&self) -> (r: u16)
        ensures
            r == self.spec_code(),
    {
        match self {
            StatusReply::Found(_) => CODE_OK,
            StatusReply::NotFound(_) => CODE_NOT_FOUND,
            StatusReply::ServerError => CODE_SERVER_ERROR,
        }
    }
}

/// The status endpoint's reply to a lookup: a present result as it is, an
/// absent one as not found (with the message that states the ambiguity), and a
/// store failure as a server error.
pub fn status_reply(lookup: StoreLookup) -> (r: StatusReply)
    ensures
        match lookup {
            StoreLookup::Present(s) => r matches StatusReply::Found(t) && t@ == s@,
            StoreLookup::Absent => r matches StatusReply::NotFound(m) && m@ == not_found_message(),
            StoreLookup::Unavailable => r is ServerError,
        },
{
    match lookup {
        StoreLookup::Present(s) => StatusReply::Found(s),
        StoreLookup::Absent => StatusReply::NotFound(
            String::from_str(
                "No result found for this job_id. It may still be processing, the ID may be unknown, or the result may have expired.",
            ),
        ),
        StoreLookup::Unavailable => StatusReply::ServerError,
    }
}

} // verus!
