//! Observations and dispatch messages exchanged with the outside world.

use vstd::prelude::*;

use crate::time::UtcTime;

verus! {

pub const EMAIL_DISPATCH_REQUESTED_EVENT: &'static str = "lenso.email.dispatch-requested.v1";

pub const EMAIL_DISPATCH_OBSERVED_EVENT: &'static str = "lenso.email.dispatch-observed.v1";

pub const EMAIL_RECEIPT_OBSERVED_EVENT: &'static str = "lenso.email.receipt-observed.v1";

pub const RUNTIME_FUNCTION_TERMINAL_EVENT: &'static str = "lenso.runtime-function-terminal.v1";

pub const ORGANIZATION_INVITATION_ACCEPTED_EVENT: &'static str =
    "lenso.organization.invitation-accepted.v1";

pub const ORGANIZATION_INVITATION_REVOKED_EVENT: &'static str =
    "lenso.organization.invitation-revoked.v1";

pub const ORGANIZATION_INVITATION_EXPIRED_EVENT: &'static str =
    "lenso.organization.invitation-expired.v1";

#[derive(Debug, Clone, PartialEq, Eq)]
pub struct EmailDispatchRequested {
    pub delivery_id: String,
    pub attempt_id: String,
    pub function_run_id: String,
    pub idempotency_key: String,
    pub channel: EmailChannel,
    pub recipient: DispatchRecipient,
    pub message: DispatchMessage,
    pub context: DispatchContext,
}

#[derive(Debug, Clone, Copy, PartialEq, Eq, Structural)]
pub enum EmailChannel {
    Email,
}

#[derive(Debug, Clone, PartialEq, Eq)]
pub struct DispatchRecipient {
    pub address: String,
}

#[derive(Debug, Clone, PartialEq, Eq)]
pub struct DispatchMessage {
    pub template_id: String,
    pub template_version: String,
    pub locale: String,
    pub subject: String,
    pub text: String,
    pub html: String,
    pub content_digest: String,
}

#[derive(Debug, Clone, PartialEq, Eq)]
pub struct DispatchContext {
    pub correlation_id: String,
}

/// What a provider reports about one dispatch.
#[derive(Debug, Clone, Copy, PartialEq, Eq, Structural)]
pub enum DispatchOutcome {
    Accepted,
    TemporaryFailure,
    PermanentFailure,
    DeliveryUnknown,
}

impl DispatchOutcome {
    /// The name of the outcome in observations.
    pub open spec fn name(self) -> Seq<char> {
        match self {
            DispatchOutcome::Accepted => "accepted"@,
            DispatchOutcome::TemporaryFailure => "temporary_failure"@,
            DispatchOutcome::PermanentFailure => "permanent_failure"@,
            DispatchOutcome::DeliveryUnknown => "delivery_unknown"@,
        }
    }

    pub fn as_str(self) -> (name: &'static str)
        ensures
            name@ == self.name(),
    {
        match self {
            DispatchOutcome::Accepted => "accepted",
            DispatchOutcome::TemporaryFailure => "temporary_failure",
            DispatchOutcome::PermanentFailure => "permanent_failure",
            DispatchOutcome::DeliveryUnknown => "delivery_unknown",
        }
    }
}

#[derive(Debug, Clone, PartialEq, Eq)]
pub struct RemoteReceiptSummary {
    pub remote_id: String,
    pub source: String,
    pub digest: String,
}

#[derive(Debug, Clone, PartialEq, Eq)]
pub struct SanitizedFailure {
    pub code: String,
    pub classification: String,
    pub retry_after_ms: Option<u64>,
}

#[derive(Debug, Clone, PartialEq, Eq)]
pub struct EmailDispatchObserved {
    pub delivery_id: String,
    pub attempt_id: String,
    pub function_run_id: String,
    pub outcome: DispatchOutcome,
    pub provider: String,
    pub observed_at: UtcTime,
    pub remote_receipt: Option<RemoteReceiptSummary>,
    pub failure: Option<SanitizedFailure>,
}

/// What an authoritative receipt says about a dispatched message.
#[derive(Debug, Clone, Copy, PartialEq, Eq, Structural)]
pub enum ReceiptKind {
    Delivered,
    Bounced,
    Rejected,
}

impl ReceiptKind {
    /// The stored name of the kind.
    pub open spec fn name(self) -> Seq<char> {
        match self {
            ReceiptKind::Delivered => "delivered"@,
            ReceiptKind::Bounced => "bounced"@,
            ReceiptKind::Rejected => "rejected"@,
        }
    }

    pub fn as_str(self) -> (name: &'static str)
        ensures
            name@ == self.name(),
    {
        match self {
            ReceiptKind::Delivered => "delivered",
            ReceiptKind::Bounced => "bounced",
            ReceiptKind::Rejected => "rejected",
        }
    }
}

#[derive(Debug, Clone, PartialEq, Eq)]
pub struct EmailReceiptObserved {
    pub delivery_id: String,
    pub attempt_id: String,
    pub function_run_id: String,
    pub kind: ReceiptKind,
    pub source: String,
    pub observed_at: UtcTime,
    pub remote_id: String,
    pub digest: String,
}

#[derive(Debug, Clone, PartialEq, Eq)]
pub struct RuntimeFunctionTerminal {
    pub failure_classification: String,
    pub failure_code: String,
    pub function_name: String,
    pub function_run_id: String,
    pub owner_module: String,
    pub terminal_state: String,
}

#[derive(Debug, Clone, PartialEq, Eq)]
pub struct OrganizationInvitationLifecycle {
    pub invitation_id: String,
    pub organization_id: String,
    pub observed_at: UtcTime,
}

} // verus!
