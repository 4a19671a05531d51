//! The enrollment protocol: how backend responses are classified, how long
//! to wait between attempts, and what a status poll means for the device.
use vstd::prelude::*;
use vstd::string::*;
use vstd::utf8::*;
use crate::sysinfo::SystemInfo;
use crate::text::{concat, concat3, has_infix, lower_of, same_text, to_lowercase, to_owned_text, bytes_contain};

verus! {

/// Enrollment status reported by the backend for this device.
#[derive(Debug)]
pub enum EnrollmentStatus {
    /// Approved; the backend handed out a credential.
    Approved,
    /// Waiting for an administrator.
    Pending,
    /// The device was revoked.
    Revoked,
    /// A status word this agent does not know.
    Unknown(String),
}

impl PartialEq for EnrollmentStatus {
    fn eq(&self, other: &EnrollmentStatus) -> (r: bool) {
        match (self, other) {
            (EnrollmentStatus::Approved, EnrollmentStatus::Approved) => true,
            (EnrollmentStatus::Pending, EnrollmentStatus::Pending) => true,
            (EnrollmentStatus::Revoked, EnrollmentStatus::Revoked) => true,
            (EnrollmentStatus::Unknown(a), EnrollmentStatus::Unknown(b)) => same_text(a.as_str(), b.as_str()),
            _ => false,
        }
    }
}

impl vstd::std_specs::cmp::PartialEqSpecImpl for EnrollmentStatus {
    open spec fn obeys_eq_spec() -> bool {
        true
    }

    open spec fn eq_spec(&self, other: &EnrollmentStatus) -> bool {
        match (self, other) {
            (EnrollmentStatus::Approved, EnrollmentStatus::Approved) => true,
            (EnrollmentStatus::Pending, EnrollmentStatus::Pending) => true,
            (EnrollmentStatus::Revoked, EnrollmentStatus::Revoked) => true,
            (EnrollmentStatus::Unknown(a), EnrollmentStatus::Unknown(b)) => a@ == b@,
            _ => false,
        }
    }
}

impl EnrollmentStatus {
    /// Display name of the status.
    pub fn as_str(&self) -> (r: &'static str)
        ensures
            r@ == match self {
                EnrollmentStatus::Approved => "Approved"@,
                EnrollmentStatus::Pending => "Pending"@,
                EnrollmentStatus::Revoked => "Revoked"@,
                EnrollmentStatus::Unknown(_) => "Unknown"@,
            },
    {
        match self {
            EnrollmentStatus::Approved => "Approved",
            EnrollmentStatus::Pending => "Pending",
            EnrollmentStatus::Revoked => "Revoked",
            EnrollmentStatus::Unknown(_) => "Unknown",
        }
    }
}

/// HTTP status codes in the 2xx range.
pub open spec fn is_success_status(status: u16) -> bool {
    200 <= status <= 299
}

/// Whether an HTTP status code means success.
pub fn is_success(status: u16) -> (r: bool)
    ensures
        r == is_success_status(status),
{
    200 <= status && status <= 299
}

/// The UTF-8 text (already case-folded) names one of the rejection tokens.
pub open spec fn has_rejection_token(folded: Seq<u8>) -> bool {
    ||| has_infix(folded, encode_utf8("revoked"@))
    ||| has_infix(folded, encode_utf8("rejected"@))
    ||| has_infix(folded, encode_utf8("banned"@))
    ||| has_infix(folded, encode_utf8("invalid"@))
}

/// A response is a rejection iff it is a 403 whose case-folded body holds a
/// rejection token.
pub open spec fn is_rejection(status: u16, folded: Seq<u8>) -> bool {
    status == 403 && has_rejection_token(folded)
}

/// Rejection test on a body that is already lower-cased.
pub fn is_rejection_folded(status: u16, folded_body: &str) -> (r: bool)
    ensures
        r == is_rejection(status, encode_utf8(folded_body@)),
{
    if status != 403 {
        return false;
    }
    let b = folded_body.as_bytes();
    bytes_contain(b, "revoked".as_bytes()) || bytes_contain(b, "rejected".as_bytes())
        || bytes_contain(b, "banned".as_bytes()) || bytes_contain(b, "invalid".as_bytes())
}

/// Whether an error response means the backend rejected this device for good
/// (stop retrying) rather than failed for now.
pub fn is_rejection_response(status: u16, body: &str) -> (r: bool)
    ensures
        r == is_rejection(status, encode_utf8(lower_of(body@))),
{
    let folded = to_lowercase(body);
    is_rejection_folded(status, folded.as_str())
}

/// How an enrollment attempt ended.
#[derive(Debug, Clone, Copy, PartialEq, Eq, Structural)]
pub enum ResponseClass {
    /// 2xx: the submission was accepted.
    Accepted,
    /// Permanent refusal: stop retrying.
    Rejected,
    /// Anything else: retry later.
    Transient,
}

pub open spec fn response_class(status: u16, folded: Seq<u8>) -> ResponseClass {
    if is_success_status(status) {
        ResponseClass::Accepted
    } else if is_rejection(status, folded) {
        ResponseClass::Rejected
    } else {
        ResponseClass::Transient
    }
}

/// A response is a rejection exactly when it is a 403 whose case-folded body
/// holds a rejection token; every other unsuccessful response is transient.
pub proof fn lemma_classification(status: u16, folded: Seq<u8>)
    ensures
        response_class(status, folded) == ResponseClass::Rejected <==> (status == 403 && has_rejection_token(folded)),
        !is_success_status(status) && !(status == 403 && has_rejection_token(folded))
            ==> response_class(status, folded) == ResponseClass::Transient,
        response_class(status, folded) == ResponseClass::Accepted <==> is_success_status(status),
{
}

/// Classifies an enrollment response whose body is already lower-cased.
pub fn classify_folded(status: u16, folded_body: &str) -> (r: ResponseClass)
    ensures
        r == response_class(status, encode_utf8(folded_body@)),
{
    if is_success(status) {
        ResponseClass::Accepted
    } else if is_rejection_folded(status, folded_body) {
        ResponseClass::Rejected
    } else {
        ResponseClass::Transient
    }
}

/// Classifies an enrollment response.
pub fn classify_response(status: u16, body: &str) -> (r: ResponseClass)
    ensures
        r == response_class(status, encode_utf8(lower_of(body@))),
{
    let folded = to_lowercase(body);
    classify_folded(status, folded.as_str())
}

/// Seconds to wait after the transient failure numbered `n` (from 0).
pub open spec fn retry_delay(n: nat) -> u64 {
    if n == 0 {
        30
    } else if n == 1 {
        60
    } else if n == 2 {
        120
    } else if n == 3 {
        240
    } else {
        300
    }
}

/// The wait schedule doubles from 30 s and stays at 300 s from the fifth wait on.
pub proof fn lemma_retry_schedule(n: nat)
    ensures
        n < 4 ==> retry_delay(n) == 30 * vstd::arithmetic::power2::pow2(n),
        n >= 4 ==> retry_delay(n) == 300,
        retry_delay(n) <= 300,
        retry_delay(n) <= retry_delay(n + 1),
{
    vstd::arithmetic::power2::lemma2_to64();
}

/// The attempt counter stops at five, which loses nothing: after `k`
/// transient failures the next wait is the `k`-th of the schedule.
pub proof fn lemma_capped_counter_follows_schedule(k: nat)
    ensures
        retry_delay(if k < 5 { k } else { 5 }) == retry_delay(k),
{
}

/// Why enrollment stopped without success.
#[derive(Debug)]
pub enum EnrollError {
    /// The backend refused the device; holds the response body.
    Rejected(String),
    /// The cancellation signal fired during a wait.
    Cancelled,
}

/// What the enrollment loop does next.
#[derive(Debug)]
pub enum EnrollStep {
    /// The submission was accepted.
    Done,
    /// Stop with an error.
    Fail(EnrollError),
    /// Wait this many seconds (racing cancellation), then send again.
    Retry(u64),
}

/// Attempt counter of the enrollment retry loop.
pub struct EnrollRetry {
    /// Transient failures seen so far, counted up to five.
    attempt: u32,
}

impl EnrollRetry {
    pub closed spec fn attempt_spec(&self) -> u32 {
        self.attempt
    }

    pub open spec fn wf(&self) -> bool {
        self.attempt_spec() <= 5
    }

    /// Transient failures seen so far, counted up to five.
    pub fn attempts(&self) -> (r: u32)
        ensures
            r == self.attempt_spec(),
    {
        self.attempt
    }

    /// A fresh counter, before the first attempt.
    pub fn new() -> (r: EnrollRetry)
        ensures
            r.attempt_spec() == 0,
            r.wf(),
    {
        EnrollRetry { attempt: 0 }
    }

    /// Registers a transient failure and returns the wait before the next attempt.
    pub fn next_delay(&mut self) -> (secs: u64)
        requires
            old(self).wf(),
        ensures
            final(self).wf(),
            secs == retry_delay(old(self).attempt_spec() as nat),
            final(self).attempt_spec() == if old(self).attempt_spec() < 5 { old(self).attempt_spec() + 1 } else { 5 },
    {
        let secs: u64 = if self.attempt == 0 {
            30
        } else if self.attempt == 1 {
            60
        } else if self.attempt == 2 {
            120
        } else if self.attempt == 3 {
            240
        } else {
            300
        };
        if self.attempt < 5 {
            self.attempt = self.attempt + 1;
        }
        secs
    }

    /// Decides on a response from the backend.
    pub fn on_response(&mut self, status: u16, body: &str) -> (step: EnrollStep)
        requires
            old(self).wf(),
        ensures
            final(self).wf(),
            match response_class(status, encode_utf8(lower_of(body@))) {
                ResponseClass::Accepted => step is Done && final(self).attempt_spec() == old(self).attempt_spec(),
                ResponseClass::Rejected => (step matches EnrollStep::Fail(EnrollError::Rejected(b))
                    && b@ == body@) && final(self).attempt_spec() == old(self).attempt_spec(),
                ResponseClass::Transient => step == EnrollStep::Retry(
                    retry_delay(old(self).attempt_spec() as nat),
                ) && final(self).attempt_spec() == if old(self).attempt_spec() < 5 {
                    old(self).attempt_spec() + 1
                } else {
                    5
                },
            },
    {
        match classify_response(status, body) {
            ResponseClass::Accepted => EnrollStep::Done,
            ResponseClass::Rejected => EnrollStep::Fail(EnrollError::Rejected(to_owned_text(body))),
            ResponseClass::Transient => EnrollStep::Retry(self.next_delay()),
        }
    }

    /// Decides after the request could not be sent at all.
    pub fn on_network_error(&mut self) -> (step: EnrollStep)
        requires
            old(self).wf(),
        ensures
            final(self).wf(),
            step == EnrollStep::Retry(retry_delay(old(self).attempt_spec() as nat)),
            final(self).attempt_spec() == if old(self).attempt_spec() < 5 { old(self).attempt_spec() + 1 } else { 5 },
    {
        EnrollStep::Retry(self.next_delay())
    }
}

/// What to do with the stored credential after a status poll.
#[derive(Debug)]
pub enum CredentialAction {
    /// Leave it as it is.
    Keep,
    /// Persist this credential.
    Save(String),
    /// Remove it.
    Delete,
}

/// The meaning of one successful `/api/check` answer.
#[derive(Debug)]
pub struct CheckOutcome {
    pub status: EnrollmentStatus,
    pub credential: CredentialAction,
}

/// Interprets the `status` and `api_key` fields of an `/api/check` answer.
/// An approval without a key counts as pending.
pub fn interpret_check(status: &str, api_key: Option<String>) -> (r: CheckOutcome)
    ensures
        status@ == "approved"@ ==> match api_key {
            Some(k) => r.status is Approved && (r.credential matches CredentialAction::Save(s)
                && s@ == k@),
            None => r.status is Pending && r.credential is Keep,
        },
        status@ == "pending"@ ==> r.status is Pending && r.credential is Keep,
        status@ == "revoked"@ ==> r.status is Revoked && r.credential is Delete,
        status@ != "approved"@ && status@ != "pending"@ && status@ != "revoked"@ ==> (
        r.status matches EnrollmentStatus::Unknown(s) && s@ == status@) && r.credential is Keep,
{
    proof {
        reveal_strlit("approved");
        reveal_strlit("pending");
        reveal_strlit("revoked");
        assert("approved"@.len() != "pending"@.len());
        assert("approved"@.len() != "revoked"@.len());
        assert("pending"@[0] != "revoked"@[0]);
    }
    if same_text(status, "approved") {
        match api_key {
            Some(k) => CheckOutcome { status: EnrollmentStatus::Approved, credential: CredentialAction::Save(k) },
            None => CheckOutcome { status: EnrollmentStatus::Pending, credential: CredentialAction::Keep },
        }
    } else if same_text(status, "pending") {
        CheckOutcome { status: EnrollmentStatus::Pending, credential: CredentialAction::Keep }
    } else if same_text(status, "revoked") {
        CheckOutcome { status: EnrollmentStatus::Revoked, credential: CredentialAction::Delete }
    } else {
        CheckOutcome {
            status: EnrollmentStatus::Unknown(to_owned_text(status)),
            credential: CredentialAction::Keep,
        }
    }
}

/// What the approval poll does after one poll.
#[derive(Debug, Clone, Copy, PartialEq, Eq, Structural)]
pub enum PollStep {
    /// Approved: the credential is stored; stop polling.
    Approved,
    /// Revoked while waiting: stop with an error.
    Revoked,
    /// Pending, unknown, or a failed poll: wait one interval and poll again.
    Wait,
}

/// Decides the approval poll from one poll result (`None`: the poll failed).
pub fn approval_poll_step(result: &Option<EnrollmentStatus>) -> (r: PollStep)
    ensures
        r == match result {
            Some(EnrollmentStatus::Approved) => PollStep::Approved,
            Some(EnrollmentStatus::Revoked) => PollStep::Revoked,
            _ => PollStep::Wait,
        },
{
    match result {
        Some(EnrollmentStatus::Approved) => PollStep::Approved,
        Some(EnrollmentStatus::Revoked) => PollStep::Revoked,
        _ => PollStep::Wait,
    }
}

/// Body of `POST /api/enroll`.
#[derive(Debug)]
pub struct EnrollRequest {
    pub hostname: String,
    pub os: String,
    pub hardware_fingerprint: String,
    pub cpu_model: String,
    pub cpu_cores: usize,
    pub total_ram_bytes: u64,
}

/// Body of `POST /api/check`.
#[derive(Debug)]
pub struct CheckRequest {
    pub hostname: String,
    pub hardware_fingerprint: String,
}

impl EnrollRequest {
    /// The enrollment request describing this host; the OS is its name and
    /// version separated by a space.
    pub fn from_system(info: &SystemInfo) -> (r: EnrollRequest)
        ensures
            r.hostname@ == info.hostname@,
            r.os@ == info.os_name@ + " "@ + info.os_version@,
            r.hardware_fingerprint@ == info.hardware_fingerprint@,
            r.cpu_model@ == info.cpu_model@,
            r.cpu_cores == info.cpu_cores,
            r.total_ram_bytes == info.total_ram_bytes,
    {
        EnrollRequest {
            hostname: to_owned_text(info.hostname.as_str()),
            os: concat3(info.os_name.as_str(), " ", info.os_version.as_str()),
            hardware_fingerprint: to_owned_text(info.hardware_fingerprint.as_str()),
            cpu_model: to_owned_text(info.cpu_model.as_str()),
            cpu_cores: info.cpu_cores,
            total_ram_bytes: info.total_ram_bytes,
        }
    }
}

impl CheckRequest {
    /// The status check request identifying this host.
    pub fn from_system(info: &SystemInfo) -> (r: CheckRequest)
        ensures
            r.hostname@ == info.hostname@,
            r.hardware_fingerprint@ == info.hardware_fingerprint@,
    {
        CheckRequest {
            hostname: to_owned_text(info.hostname.as_str()),
            hardware_fingerprint: to_owned_text(info.hardware_fingerprint.as_str()),
        }
    }
}

/// Backend endpoint for enrollment requests.
pub fn enroll_url(base_url: &str) -> (r: String)
    ensures
        r@ == base_url@ + "/api/enroll"@,
{
    concat(base_url, "/api/enroll")
}

/// Backend endpoint for status checks.
pub fn check_url(base_url: &str) -> (r: String)
    ensures
        r@ == base_url@ + "/api/check"@,
{
    concat(base_url, "/api/check")
}

} // verus!
