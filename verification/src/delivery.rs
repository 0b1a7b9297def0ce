//! The delivery role: the worker's dispatch and authoritative receipts.

use vstd::prelude::*;

verus! {

/// The identity of the delivery capability.
pub const CAPABILITY_ID: &'static str = "lenso.notification.delivery@1";

/// The status of a delivery after a dispatch.
#[derive(Debug, Clone, Copy, PartialEq, Eq, Structural)]
pub enum DispatchDueResponseStatus {
    Accepted,
    RetryScheduled,
    Failed,
    DeliveryUnknown,
}

#[derive(Debug, Clone, PartialEq, Eq)]
pub struct DispatchDueResponse {
    pub attempt_id: String,
    pub delivery_id: String,
    pub next_attempt_at: Option<String>,
    pub observed_at: String,
    pub run_id: String,
    pub status: DispatchDueResponseStatus,
}

#[derive(Debug, Clone, Copy, PartialEq, Eq, Structural)]
pub enum DispatchDueError {
    DispatchRejected,
    NoDeliveryDue,
    Unauthorized,
}

#[derive(Debug, Clone, Copy, PartialEq, Eq, Structural)]
pub enum ObserveReceiptRequestKind {
    Delivered,
    Bounced,
    Rejected,
}

/// An authoritative receipt. Nothing in it names its source: that is the
/// caller.
#[derive(Debug, Clone, PartialEq, Eq)]
pub struct ObserveReceiptRequest {
    pub observation_id: String,
    pub delivery_id: String,
    pub attempt_id: String,
    pub run_id: String,
    pub kind: ObserveReceiptRequestKind,
    pub observed_at: String,
    pub remote_id: String,
    pub digest: String,
}

#[derive(Debug, Clone, Copy, PartialEq, Eq, Structural)]
pub struct ObserveReceiptResponse {
    pub recorded: bool,
}

#[derive(Debug, Clone, Copy, PartialEq, Eq, Structural)]
pub enum ObserveReceiptError {
    DeliveryNotFound,
    InvalidReceipt,
    ReceiptConflict,
    Unauthorized,
}

} // verus!
