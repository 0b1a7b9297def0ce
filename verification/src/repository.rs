//! The redacted read side of the ledger and the manual retry decision.

use vstd::prelude::*;
use vstd::string::*;

use crate::digest::{stable_id, stable_id_text};
use crate::domain::{RetryKind, MAX_SAFE_WIRE_INTEGER};
use crate::error::{ErrorCode, NotificationError, NotificationResult};
use crate::events::{RetryInsert, RetryVerdict, REVISION_EXHAUSTED};
use crate::public::{colon_joined, join_colon};
use crate::text::same_text;
use crate::time::UtcTime;

verus! {

pub const ADMIN_ATTEMPT_LIMIT: usize = 10;

pub const ADMIN_RECEIPT_LIMIT: usize = 1_000;

pub const ADMIN_RETRY_REQUEST_LIMIT: usize = 1_000;

#[derive(Debug, Clone, PartialEq, Eq)]
pub struct DeliverySummary {
    pub id: String,
    pub recipient_mask: String,
    pub template_id: String,
    pub template_version: String,
    pub locale: String,
    pub status: String,
    pub revision: i64,
    pub attempt_count: i32,
    pub max_attempts: i32,
    pub redacted_preview: String,
    pub content_digest: String,
    pub correlation_id: String,
    pub next_attempt_at: Option<UtcTime>,
    pub final_reason: Option<String>,
    pub created_at: UtcTime,
    pub updated_at: UtcTime,
}

#[derive(Debug, Clone, PartialEq, Eq)]
pub struct AttemptRecord {
    pub id: String,
    pub sequence: i32,
    pub function_run_id: String,
    pub status: String,
    pub provider: Option<String>,
    pub remote_receipt_id: Option<String>,
    pub failure_code: Option<String>,
    pub failure_classification: Option<String>,
    pub started_at: UtcTime,
    pub completed_at: Option<UtcTime>,
}

#[derive(Debug, Clone, PartialEq, Eq)]
pub struct ReceiptRecord {
    pub id: String,
    pub attempt_id: String,
    pub kind: String,
    pub source: String,
    pub remote_id: String,
    pub digest: String,
    pub observed_at: UtcTime,
}

#[derive(Debug, Clone, PartialEq, Eq)]
pub struct RetryRecord {
    pub id: String,
    pub kind: String,
    pub requested_by: Option<String>,
    pub source_revision: i64,
    pub decision: String,
    pub reason: Option<String>,
    pub scheduled_at: Option<UtcTime>,
    pub created_at: UtcTime,
}

#[derive(Debug, Clone, PartialEq, Eq)]
pub struct DeliveryDetail {
    pub delivery: DeliverySummary,
    pub attempts: Vec<AttemptRecord>,
    pub receipts: Vec<ReceiptRecord>,
    pub retry_requests: Vec<RetryRecord>,
}

pub const EVIDENCE_OVERFLOW: &'static str =
    "Notification delivery evidence exceeds the bounded Admin projection";

/// The failure of a delivery with more evidence than a projection holds.
pub fn admin_evidence_overflow() -> (error: NotificationError)
    ensures
        error.is(ErrorCode::EvidenceOverflow, EVIDENCE_OVERFLOW@),
{
    NotificationError::new(ErrorCode::EvidenceOverflow, EVIDENCE_OVERFLOW)
}

/// Whether the evidence fits in one projection.
pub open spec fn evidence_fits(attempts: nat, receipts: nat, retry_requests: nat) -> bool {
    &&& attempts <= ADMIN_ATTEMPT_LIMIT
    &&& receipts <= ADMIN_RECEIPT_LIMIT
    &&& retry_requests <= ADMIN_RETRY_REQUEST_LIMIT
}

/// How many rows to read so that evidence past `limit` shows.
pub fn probe_limit(limit: usize) -> (rows: i64)
    requires
        limit < i64::MAX,
    ensures
        rows == limit + 1,
{
    limit as i64 + 1
}

/// The detail of a delivery with all of its evidence; evidence past a limit is
/// an overflow and never cut off.
pub fn get_delivery(
    delivery: DeliverySummary,
    attempts: Vec<AttemptRecord>,
    receipts: Vec<ReceiptRecord>,
    retry_requests: Vec<RetryRecord>,
) -> (r: NotificationResult<DeliveryDetail>)
    ensures
        if evidence_fits(attempts@.len(), receipts@.len(), retry_requests@.len()) {
            r matches Ok(detail) && detail.delivery == delivery && detail.attempts == attempts
                && detail.receipts == receipts && detail.retry_requests == retry_requests
        } else {
            r matches Err(error) && error.is(ErrorCode::EvidenceOverflow, EVIDENCE_OVERFLOW@)
        },
{
    if attempts.len() > ADMIN_ATTEMPT_LIMIT || receipts.len() > ADMIN_RECEIPT_LIMIT
        || retry_requests.len() > ADMIN_RETRY_REQUEST_LIMIT {
        return Err(admin_evidence_overflow());
    }
    Ok(DeliveryDetail { delivery, attempts, receipts, retry_requests })
}

/// What is read of stored rows up to one past `limit`.
pub open spec fn probed<T>(stored: Seq<T>, limit: int) -> Seq<T> {
    if stored.len() > limit + 1 {
        stored.take(limit + 1)
    } else {
        stored
    }
}

/// Evidence is never cut off: reading one row past each limit is an overflow
/// exactly where the stored evidence is, and reads all of it otherwise.
pub proof fn law_evidence_is_never_truncated(
    attempts: Seq<AttemptRecord>,
    receipts: Seq<ReceiptRecord>,
    retry_requests: Seq<RetryRecord>,
)
    ensures
        evidence_fits(
            probed(attempts, ADMIN_ATTEMPT_LIMIT as int).len(),
            probed(receipts, ADMIN_RECEIPT_LIMIT as int).len(),
            probed(retry_requests, ADMIN_RETRY_REQUEST_LIMIT as int).len(),
        ) <==> evidence_fits(attempts.len(), receipts.len(), retry_requests.len()),
        evidence_fits(attempts.len(), receipts.len(), retry_requests.len()) ==> {
            &&& probed(attempts, ADMIN_ATTEMPT_LIMIT as int) == attempts
            &&& probed(receipts, ADMIN_RECEIPT_LIMIT as int) == receipts
            &&& probed(retry_requests, ADMIN_RETRY_REQUEST_LIMIT as int) == retry_requests
        },
{
}

/// What a manual retry led to.
#[derive(Debug, Clone, PartialEq, Eq)]
pub struct RetryResult {
    pub delivery_id: String,
    pub revision: i64,
    pub status: String,
    pub scheduled_at: UtcTime,
    pub idempotent_replay: bool,
}

/// A retry request that was stored before under the same key, with the present
/// state of its delivery.
#[derive(Debug)]
pub struct StoredRetry {
    pub revision: i64,
    pub status: String,
    pub scheduled_at: Option<UtcTime>,
}

/// The delivery for which a retry is requested.
#[derive(Debug)]
pub struct RetryTarget {
    pub status: String,
    pub revision: i64,
    pub attempt_count: i32,
    pub max_attempts: i32,
}

/// The stored effect of a manual retry: the decision, and the delivery due at
/// once under a new revision.
#[derive(Debug)]
pub struct ManualRetry {
    pub request: RetryInsert,
    pub result: RetryResult,
}

pub const RETRY_WAS_REJECTED: &'static str = "Existing manual retry request was rejected";

pub const DELIVERY_NOT_FOUND: &'static str = "Notification delivery was not found";

pub const REVISION_STALE: &'static str = "Notification delivery revision is stale";

pub const NOT_ELIGIBLE: &'static str = "Notification delivery is not eligible for retry";

pub const CHANGED_WHILE_SCHEDULED: &'static str =
    "Notification delivery changed while retry was scheduled";

/// The name of the lock that serialises manual retries with one key.
pub fn manual_retry_lock(delivery_id: &str, idempotency_key: &str) -> (name: String)
    ensures
        name@ == colon_joined("notification:manual-retry"@, delivery_id@, idempotency_key@),
{
    join_colon("notification:manual-retry", delivery_id, idempotency_key)
}

impl RetryResult {
    /// Whether this replays the stored request with the schedule `at`.
    pub open spec fn replays(
        self,
        delivery_id: Seq<char>,
        stored: StoredRetry,
        at: UtcTime,
    ) -> bool {
        &&& self.delivery_id@ == delivery_id
        &&& self.revision == stored.revision
        &&& self.status == stored.status
        &&& self.scheduled_at == at
        &&& self.idempotent_replay
    }
}

/// The answer to a retry request that was stored before.
pub fn replay_manual_retry(delivery_id: &str, stored: StoredRetry) -> (r: NotificationResult<
    RetryResult,
>)
    ensures
        match stored.scheduled_at {
            Some(at) => r matches Ok(result) && result.replays(delivery_id@, stored, at),
            None => r matches Err(error) && error.is(ErrorCode::Conflict, RETRY_WAS_REJECTED@),
        },
{
    match stored.scheduled_at {
        Some(scheduled_at) => Ok(
            RetryResult {
                delivery_id: delivery_id.to_owned(),
                revision: stored.revision,
                status: stored.status,
                scheduled_at,
                idempotent_replay: true,
            },
        ),
        None => Err(NotificationError::new(ErrorCode::Conflict, RETRY_WAS_REJECTED)),
    }
}

/// Whether a manual retry may be scheduled: a retry is already planned and an
/// attempt is left.
pub open spec fn retry_eligible(
    status: Seq<char>,
    attempt_count: i32,
    max_attempts: i32,
) -> bool {
    status == "retry_scheduled"@ && attempt_count < max_attempts
}

/// Whether a manual retry may be scheduled.
pub fn is_retry_eligible(status: &str, attempt_count: i32, max_attempts: i32) -> (r: bool)
    ensures
        r == retry_eligible(status@, attempt_count, max_attempts),
{
    same_text(status, "retry_scheduled") && attempt_count < max_attempts
}

/// Why a manual retry is refused, if it is.
pub open spec fn manual_retry_refusal(
    target: Option<RetryTarget>,
    expected_revision: i64,
) -> Option<(ErrorCode, Seq<char>)> {
    match target {
        None => Some((ErrorCode::NotFound, DELIVERY_NOT_FOUND@)),
        Some(found) => if found.revision != expected_revision {
            Some((ErrorCode::Conflict, REVISION_STALE@))
        } else if found.revision >= MAX_SAFE_WIRE_INTEGER {
            Some((ErrorCode::Conflict, REVISION_EXHAUSTED@))
        } else if !retry_eligible(found.status@, found.attempt_count, found.max_attempts) {
            Some((ErrorCode::Conflict, NOT_ELIGIBLE@))
        } else {
            None
        },
    }
}

impl ManualRetry {
    /// Whether this is the effect of an accepted request.
    pub open spec fn schedules(
        self,
        delivery_id: Seq<char>,
        expected_revision: i64,
        idempotency_key: Seq<char>,
        requested_by: Seq<char>,
        now: UtcTime,
    ) -> bool {
        &&& self.request.id@ == stable_id_text(
            "ntf_rty"@,
            colon_joined("manual"@, delivery_id, idempotency_key),
        )
        &&& self.request.delivery_id@ == delivery_id
        &&& self.request.kind is Manual
        &&& self.request.requested_by matches Some(by) && by@ == requested_by
        &&& self.request.source_revision == expected_revision
        &&& self.request.idempotency_key@ == idempotency_key
        &&& self.request.decision is Scheduled
        &&& self.request.reason@ == "operator_retry_now"@
        &&& self.request.scheduled_at == Some(now)
        &&& self.request.created_at == now
        &&& self.result.delivery_id@ == delivery_id
        &&& self.result.revision == expected_revision + 1
        &&& self.result.status@ == "retry_scheduled"@
        &&& self.result.scheduled_at == now
        &&& !self.result.idempotent_replay
    }
}

/// Decides a manual retry that was not stored before. It is a "retry now" for
/// a delivery whose retry is already planned; permanent, exhausted,
/// in-progress, delivered and ambiguous deliveries are refused.
pub fn request_manual_retry(
    delivery_id: &str,
    target: Option<RetryTarget>,
    expected_revision: i64,
    idempotency_key: &str,
    requested_by: &str,
    now: UtcTime,
) -> (r: NotificationResult<ManualRetry>)
    ensures
        match manual_retry_refusal(target, expected_revision) {
            Some((code, message)) => r matches Err(error) && error.is(code, message),
            None => r matches Ok(retry) && retry.schedules(
                delivery_id@,
                expected_revision,
                idempotency_key@,
                requested_by@,
                now,
            ),
        },
{
    let found = match target {
        Some(found) => found,
        None => {
            return Err(NotificationError::new(ErrorCode::NotFound, DELIVERY_NOT_FOUND));
        },
    };
    if found.revision != expected_revision {
        return Err(NotificationError::new(ErrorCode::Conflict, REVISION_STALE));
    }
    if found.revision >= MAX_SAFE_WIRE_INTEGER {
        return Err(NotificationError::new(ErrorCode::Conflict, REVISION_EXHAUSTED));
    }
    if !is_retry_eligible(found.status.as_str(), found.attempt_count, found.max_attempts) {
        return Err(NotificationError::new(ErrorCode::Conflict, NOT_ELIGIBLE));
    }
    let name = join_colon("manual", delivery_id, idempotency_key);
    Ok(
        ManualRetry {
            request: RetryInsert {
                id: stable_id("ntf_rty", name.as_str()),
                delivery_id: delivery_id.to_owned(),
                kind: RetryKind::Manual,
                requested_by: Some(requested_by.to_owned()),
                source_revision: expected_revision,
                idempotency_key: idempotency_key.to_owned(),
                decision: RetryVerdict::Scheduled,
                reason: "operator_retry_now".to_owned(),
                scheduled_at: Some(now),
                created_at: now,
            },
            result: RetryResult {
                delivery_id: delivery_id.to_owned(),
                revision: expected_revision + 1,
                status: "retry_scheduled".to_owned(),
                scheduled_at: now,
                idempotent_replay: false,
            },
        },
    )
}

/// What a manual retry request leads to.
#[derive(Debug)]
pub enum RetryDecision {
    /// The request was decided before; nothing is stored.
    Replay(RetryResult),
    /// The request is new; its effect is stored.
    Schedule(ManualRetry),
}

/// Whether `r` decides a manual retry request, given what is stored under its
/// key and the delivery that it names.
pub open spec fn decides_retry(
    r: NotificationResult<RetryDecision>,
    delivery_id: Seq<char>,
    stored: Option<StoredRetry>,
    target: Option<RetryTarget>,
    expected_revision: i64,
    idempotency_key: Seq<char>,
    requested_by: Seq<char>,
    now: UtcTime,
) -> bool {
    match stored {
        Some(request) => match request.scheduled_at {
            Some(at) => r matches Ok(RetryDecision::Replay(result)) && result.replays(
                delivery_id,
                request,
                at,
            ),
            None => r matches Err(error) && error.is(ErrorCode::Conflict, RETRY_WAS_REJECTED@),
        },
        None => match manual_retry_refusal(target, expected_revision) {
            Some((code, message)) => r matches Err(error) && error.is(code, message),
            None => r matches Ok(RetryDecision::Schedule(retry)) && retry.schedules(
                delivery_id,
                expected_revision,
                idempotency_key,
                requested_by,
                now,
            ),
        },
    }
}

/// Decides a manual retry request. `stored` is what is stored under its key; a
/// request that was stored before is answered from it, whatever the delivery
/// and the expected revision are now.
pub fn decide_manual_retry(
    delivery_id: &str,
    stored: Option<StoredRetry>,
    target: Option<RetryTarget>,
    expected_revision: i64,
    idempotency_key: &str,
    requested_by: &str,
    now: UtcTime,
) -> (r: NotificationResult<RetryDecision>)
    ensures
        decides_retry(
            r,
            delivery_id@,
            stored,
            target,
            expected_revision,
            idempotency_key@,
            requested_by@,
            now,
        ),
{
    match stored {
        Some(request) => match replay_manual_retry(delivery_id, request) {
            Ok(result) => Ok(RetryDecision::Replay(result)),
            Err(error) => Err(error),
        },
        None => match request_manual_retry(
            delivery_id,
            target,
            expected_revision,
            idempotency_key,
            requested_by,
            now,
        ) {
            Ok(retry) => Ok(RetryDecision::Schedule(retry)),
            Err(error) => Err(error),
        },
    }
}

/// Only a delivery whose retry is already planned can be retried by hand: a
/// delivery in any other status is refused, whatever the revision and the
/// attempts left.
pub proof fn law_manual_retry_only_from_planned_retry(
    target: RetryTarget,
    expected_revision: i64,
    status: crate::domain::DeliveryStatus,
)
    requires
        target.status@ == status.name(),
        status !is RetryScheduled,
    ensures
        manual_retry_refusal(Some(target), expected_revision) is Some,
{
    crate::domain::lemma_status_names_differ();
    assert(crate::domain::DeliveryStatus::RetryScheduled.name() == "retry_scheduled"@);
}

/// A manual retry is decided once: a repeat under the same key replays the
/// stored schedule and stores nothing, whenever it comes, whatever revision it
/// expects and whatever became of the delivery. A request under another key at
/// the old revision is stale.
pub proof fn law_manual_retry_is_idempotent(
    delivery_id: Seq<char>,
    target: Option<RetryTarget>,
    revision: i64,
    key: Seq<char>,
    by: Seq<char>,
    now: UtcTime,
    first: NotificationResult<RetryDecision>,
    retry: ManualRetry,
    stored: StoredRetry,
    again_target: Option<RetryTarget>,
    again_revision: i64,
    again_by: Seq<char>,
    later: UtcTime,
    again: NotificationResult<RetryDecision>,
    after: RetryTarget,
)
    requires
        decides_retry(first, delivery_id, None, target, revision, key, by, now),
        first == Ok::<RetryDecision, NotificationError>(RetryDecision::Schedule(retry)),
        stored.scheduled_at == retry.request.scheduled_at,
        decides_retry(
            again,
            delivery_id,
            Some(stored),
            again_target,
            again_revision,
            key,
            again_by,
            later,
        ),
        after.revision == retry.result.revision,
    ensures
        again matches Ok(RetryDecision::Replay(result)) && result.delivery_id@
            == retry.result.delivery_id@ && result.scheduled_at == retry.result.scheduled_at
            && result.idempotent_replay && result.revision == stored.revision && result.status
            == stored.status,
        retry.result.revision == revision + 1,
        retry.result.revision <= MAX_SAFE_WIRE_INTEGER,
        manual_retry_refusal(Some(after), revision) == Some(
            (ErrorCode::Conflict, REVISION_STALE@),
        ),
{
}

} // verus!
