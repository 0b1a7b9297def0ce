//! The transactional role: intents and invitation observations of business
//! callers.

use vstd::prelude::*;

verus! {

/// The identity of the transactional capability.
pub const CAPABILITY_ID: &'static str = "lenso.notification.transactional@1";

#[derive(Debug, Clone, PartialEq, Eq)]
pub struct CreateOrganizationInvitationRequestSource {
    pub entity_type: String,
    pub entity_id: String,
}

#[derive(Debug, Clone, Copy, PartialEq, Eq, Structural)]
pub enum CreateOrganizationInvitationRequestRecipientLocale {
    En,
    EnUS,
}

#[derive(Clone, PartialEq, Eq)]
pub struct CreateOrganizationInvitationRequestRecipient {
    pub address: String,
    pub display_name: Option<String>,
    pub locale: CreateOrganizationInvitationRequestRecipientLocale,
}

#[derive(Clone, PartialEq, Eq)]
pub struct CreateOrganizationInvitationRequestTemplate {
    pub organization_id: String,
    pub organization_name: String,
    pub invitation_id: String,
    pub invitation_url: String,
    pub inviter_display_name: Option<String>,
    pub role_name: Option<String>,
    pub expires_at: String,
}

/// A request to invite someone into an organization. Nothing in it names the
/// requesting module: that is the caller.
#[derive(Clone, PartialEq, Eq)]
pub struct CreateOrganizationInvitationRequest {
    pub source: CreateOrganizationInvitationRequestSource,
    pub recipient: CreateOrganizationInvitationRequestRecipient,
    pub template: CreateOrganizationInvitationRequestTemplate,
    pub idempotency_key: String,
    pub correlation_id: String,
    pub causation_id: Option<String>,
    pub requested_by: Option<String>,
}

/// The only status that acceptance of an intent reports.
#[derive(Debug, Clone, Copy, PartialEq, Eq, Structural)]
pub enum IntentStatus {
    Queued,
}

/// What the caller of an accepted intent is answered.
#[derive(Debug, Clone, PartialEq, Eq)]
pub struct IntentResponse {
    pub delivery_id: String,
    pub idempotent_replay: bool,
    pub intent_id: String,
    pub status: IntentStatus,
}

#[derive(Debug, Clone, Copy, PartialEq, Eq, Structural)]
pub enum CreateOrganizationInvitationError {
    IdempotencyConflict,
    InvalidIntent,
    Unauthorized,
}

#[derive(Debug, Clone, Copy, PartialEq, Eq, Structural)]
pub enum CreateAccessRequestNotificationRequestEvent {
    Submitted,
    Approved,
    Denied,
    Expiring,
}

#[derive(Debug, Clone, Copy, PartialEq, Eq, Structural)]
pub enum CreateAccessRequestNotificationRequestRecipientLocale {
    En,
    EnUS,
}

#[derive(Clone, PartialEq, Eq)]
pub struct CreateAccessRequestNotificationRequestRecipient {
    pub address: String,
    pub display_name: Option<String>,
    pub locale: CreateAccessRequestNotificationRequestRecipientLocale,
}

#[derive(Debug, Clone, PartialEq, Eq)]
pub struct CreateAccessRequestNotificationRequestRole {
    pub role_id: String,
    pub display_name: Option<String>,
}

#[derive(Debug, Clone, PartialEq, Eq)]
pub struct CreateAccessRequestNotificationRequestScope {
    pub kind: String,
    pub id: String,
    pub display_name: Option<String>,
}

/// A request to tell someone about the course of an access request. It has no
/// `Debug` output of its own: `debug_text` shows it without the recipient.
#[derive(Clone, PartialEq, Eq)]
pub struct CreateAccessRequestNotificationRequest {
    pub request_id: String,
    pub organization_id: String,
    pub event: CreateAccessRequestNotificationRequestEvent,
    pub recipient: CreateAccessRequestNotificationRequestRecipient,
    pub role: CreateAccessRequestNotificationRequestRole,
    pub scope: CreateAccessRequestNotificationRequestScope,
    pub expires_at: Option<String>,
    pub idempotency_key: String,
    pub correlation_id: String,
    pub causation_id: Option<String>,
    pub requested_by: Option<String>,
}

#[derive(Debug, Clone, Copy, PartialEq, Eq, Structural)]
pub enum CreateAccessRequestNotificationError {
    IdempotencyConflict,
    InvalidIntent,
    Unauthorized,
}

#[derive(Debug, Clone, Copy, PartialEq, Eq, Structural)]
pub enum ObserveInvitationLifecycleRequestLifecycle {
    Accepted,
    Expired,
    Revoked,
}

/// What a caller observed of an invitation of its own.
#[derive(Debug, Clone, PartialEq, Eq)]
pub struct ObserveInvitationLifecycleRequest {
    pub observation_id: String,
    pub organization_id: String,
    pub invitation_id: String,
    pub lifecycle: ObserveInvitationLifecycleRequestLifecycle,
    pub observed_at: String,
}

#[derive(Debug, Clone, Copy, PartialEq, Eq, Structural)]
pub struct ObserveInvitationLifecycleResponse {
    pub recorded: bool,
}

#[derive(Debug, Clone, Copy, PartialEq, Eq, Structural)]
pub enum ObserveInvitationLifecycleError {
    InvalidObservation,
    ObservationConflict,
    Unauthorized,
}

} // verus!
