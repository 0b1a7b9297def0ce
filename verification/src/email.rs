//! The email-dispatch role that carries messages out.

use vstd::prelude::*;

use crate::error::RuntimeFailure;

verus! {

/// The identity of the email-dispatch capability.
pub const CAPABILITY_ID: &'static str = "lenso.email-dispatch@1";

#[derive(PartialEq, Eq)]
pub struct DispatchRequestRecipient {
    pub address: String,
}

#[derive(PartialEq, Eq)]
pub struct DispatchRequestMessage {
    pub template_id: String,
    pub template_version: String,
    pub locale: String,
    pub subject: String,
    pub text: String,
    pub html: String,
    pub content_digest: String,
}

/// One message for one recipient. It has no `Debug` output of its own:
/// `debug_text` shows it without the recipient and the message.
#[derive(PartialEq, Eq)]
pub struct DispatchRequest {
    pub delivery_id: String,
    pub attempt_id: String,
    pub run_id: String,
    pub idempotency_key: String,
    pub recipient: DispatchRequestRecipient,
    pub message: DispatchRequestMessage,
    pub correlation_id: String,
}

impl Clone for DispatchRequest {
    fn clone(&self) -> (copy: Self)
        ensures
            copy == *self,
    {
        DispatchRequest {
            delivery_id: self.delivery_id.clone(),
            attempt_id: self.attempt_id.clone(),
            run_id: self.run_id.clone(),
            idempotency_key: self.idempotency_key.clone(),
            recipient: DispatchRequestRecipient { address: self.recipient.address.clone() },
            message: DispatchRequestMessage {
                template_id: self.message.template_id.clone(),
                template_version: self.message.template_version.clone(),
                locale: self.message.locale.clone(),
                subject: self.message.subject.clone(),
                text: self.message.text.clone(),
                html: self.message.html.clone(),
                content_digest: self.message.content_digest.clone(),
            },
            correlation_id: self.correlation_id.clone(),
        }
    }
}

#[derive(Debug, Clone, Copy, PartialEq, Eq, Structural)]
pub enum DispatchResponseOutcome {
    Accepted,
    TemporaryFailure,
    PermanentFailure,
    DeliveryUnknown,
}

#[derive(Debug, Clone, PartialEq, Eq)]
pub struct DispatchResponseRemoteReceipt {
    pub remote_id: String,
    pub source: String,
    pub digest: String,
}

#[derive(Debug, Clone, PartialEq, Eq)]
pub struct DispatchResponseFailure {
    pub code: String,
    pub classification: String,
    pub retry_after_ms: Option<i64>,
}

/// What a provider answers.
#[derive(Debug, Clone, PartialEq, Eq)]
pub struct DispatchResponse {
    pub outcome: DispatchResponseOutcome,
    pub provider: String,
    pub observed_at: String,
    pub remote_receipt: Option<DispatchResponseRemoteReceipt>,
    pub failure: Option<DispatchResponseFailure>,
}

/// Why a provider refused a message before any effect.
#[derive(Debug, Clone, Copy, PartialEq, Eq, Structural)]
pub enum DispatchError {
    InvalidDispatch,
    UnsupportedMessage,
    Unknown,
}

/// How an invocation of the provider ended.
#[derive(Debug)]
pub enum DispatchReply {
    Response(DispatchResponse),
    Domain(DispatchError),
    Runtime(RuntimeFailure),
}

/// The boundary that providers of the capability keep.
pub const CONTRACT: &'static str = "# Email Dispatch Capability

`lenso.email-dispatch@1` is the explicit external-effect boundary used by the
Notification Plugin. A Provider owns provider credentials, transport calls,
and provider-specific evidence; Notification owns intent, attempt, receipt,
retry, and terminal-state policy.

The `invalid_dispatch` and `unsupported_message` Domain errors are
**pre-effect rejections**. A Provider may return either error only before it has
started any external effect. After an external effect starts, an uncertain
result must be returned as a successful response whose outcome is
`delivery_unknown`, or as a Runtime failure when no trustworthy response can be
formed. Notification treats Runtime and invalid protocol responses after
invocation as terminal `delivery_unknown`; it never silently retries them.
";

} // verus!
