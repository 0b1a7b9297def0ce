//! The admin role: the redacted ledger and the manual retry.

use vstd::prelude::*;

verus! {

/// The identity of the admin capability.
pub const CAPABILITY_ID: &'static str = "lenso.notification.admin@1";

#[derive(Debug, Clone, Copy, PartialEq, Eq, Structural)]
pub enum DeliveryStatus {
    Queued,
    Attempting,
    Accepted,
    RetryScheduled,
    Delivered,
    Failed,
    DeliveryUnknown,
}

#[derive(Debug, Clone, PartialEq, Eq)]
pub struct Delivery {
    pub attempt_count: i64,
    pub content_digest: String,
    pub correlation_id: String,
    pub created_at: String,
    pub final_reason: Option<String>,
    pub id: String,
    pub locale: String,
    pub max_attempts: i64,
    pub next_attempt_at: Option<String>,
    pub recipient_mask: String,
    pub redacted_preview: String,
    pub retry_now_eligible: bool,
    pub revision: i64,
    pub status: DeliveryStatus,
    pub template_id: String,
    pub template_version: String,
    pub updated_at: String,
}

#[derive(Debug, Clone, Copy, PartialEq, Eq, Structural)]
pub enum AttemptStatus {
    Dispatching,
    Accepted,
    TemporaryFailure,
    PermanentFailure,
    DeliveryUnknown,
}

#[derive(Debug, Clone, PartialEq, Eq)]
pub struct Attempt {
    pub completed_at: Option<String>,
    pub failure_classification: Option<String>,
    pub failure_code: Option<String>,
    pub id: String,
    pub provider: Option<String>,
    pub remote_receipt_id: Option<String>,
    pub run_id: String,
    pub sequence: i64,
    pub started_at: String,
    pub status: AttemptStatus,
}

#[derive(Debug, Clone, Copy, PartialEq, Eq, Structural)]
pub enum ReceiptKind {
    Accepted,
    Delivered,
    Bounced,
    Rejected,
}

#[derive(Debug, Clone, PartialEq, Eq)]
pub struct Receipt {
    pub attempt_id: String,
    pub digest: String,
    pub id: String,
    pub kind: ReceiptKind,
    pub observed_at: String,
    pub remote_id: String,
    pub source: String,
}

#[derive(Debug, Clone, Copy, PartialEq, Eq, Structural)]
pub enum RetryRecordKind {
    Automatic,
    Manual,
}

#[derive(Debug, Clone, Copy, PartialEq, Eq, Structural)]
pub enum RetryRecordDecision {
    Scheduled,
    Rejected,
}

#[derive(Debug, Clone, PartialEq, Eq)]
pub struct RetryRecord {
    pub created_at: String,
    pub decision: RetryRecordDecision,
    pub id: String,
    pub kind: RetryRecordKind,
    pub reason: Option<String>,
    pub requested_by: Option<String>,
    pub scheduled_at: Option<String>,
    pub source_revision: i64,
}

#[derive(Debug, Clone, PartialEq, Eq)]
pub struct GetDeliveryRequest {
    pub delivery_id: String,
}

#[derive(Debug, Clone, PartialEq, Eq)]
pub struct GetDeliveryResponse {
    pub attempts: Vec<Attempt>,
    pub delivery: Delivery,
    pub open_in_story_correlation_id: String,
    pub receipts: Vec<Receipt>,
    pub retry_requests: Vec<RetryRecord>,
}

#[derive(Debug, Clone, Copy, PartialEq, Eq, Structural)]
pub enum GetDeliveryError {
    DeliveryNotFound,
    EvidenceOverflow,
    InvalidRequest,
    Unauthorized,
    Unknown,
}

#[derive(Debug, Clone, PartialEq, Eq)]
pub struct ListDeliveriesRequest {
    pub cursor: Option<String>,
    pub limit: Option<i64>,
    pub status: Option<DeliveryStatus>,
}

#[derive(Debug, Clone, PartialEq, Eq)]
pub struct ListDeliveriesResponse {
    pub next_cursor: Option<String>,
    pub records: Vec<Delivery>,
}

#[derive(Debug, Clone, Copy, PartialEq, Eq, Structural)]
pub enum ListDeliveriesError {
    InvalidFilter,
    Unauthorized,
    Unknown,
}

#[derive(Debug, Clone, PartialEq, Eq)]
pub struct RetryDeliveryRequest {
    pub delivery_id: String,
    pub idempotency_key: String,
    pub revision: i64,
}

#[derive(Debug, Clone, Copy, PartialEq, Eq, Structural)]
pub enum RetryDeliveryResponseStatus {
    RetryScheduled,
}

#[derive(Debug, Clone, PartialEq, Eq)]
pub struct RetryDeliveryResponse {
    pub delivery_id: String,
    pub idempotent_replay: bool,
    pub revision: i64,
    pub scheduled_at: String,
    pub status: RetryDeliveryResponseStatus,
}

#[derive(Debug, Clone, Copy, PartialEq, Eq, Structural)]
pub enum RetryDeliveryError {
    DeliveryNotFound,
    IdempotencyConflict,
    InvalidRequest,
    RetryNotAllowed,
    StaleRevision,
    Unauthorized,
    Unknown,
}

} // verus!
