//! Notification intents: their validation, their idempotency and the rows that
//! one new intent adds to the ledger.

use vstd::prelude::*;
use vstd::string::*;

use crate::digest::{digest_text, encoded_digest, stable_id, stable_id_text, valid_digest,
    valid_digest_text};
use crate::domain::DeliveryStatus;
use crate::error::{ErrorCode, NotificationError, NotificationResult};
use crate::snapshot::{content_digest, content_frame, mask_email, masked, preview_of,
    redact_preview, ProtectedValue, SnapshotProtector};
use crate::faults::{accepts_unless, first_fault, optional_fault, required_fault, rule, FaultList};
use crate::text::{begins_with, contains_char, copy_option, option_text, required_bounded,
    same_text, stands_at, within};
use crate::time::UtcTime;

verus! {

pub const ORGANIZATION_INVITATION_TEMPLATE_ID: &'static str = "organization-invitation";

pub const ORGANIZATION_INVITATION_TEMPLATE_VERSION: &'static str = "v1";

pub const ACCESS_REQUEST_TEMPLATE_VERSION: &'static str = "v1";

#[derive(Debug, PartialEq, Eq)]
pub struct IntentSource {
    pub module_id: String,
    pub entity_type: String,
    pub entity_id: String,
}

impl Clone for IntentSource {
    fn clone(&self) -> (copy: Self)
        ensures
            copy == *self,
    {
        IntentSource {
            module_id: self.module_id.clone(),
            entity_type: self.entity_type.clone(),
            entity_id: self.entity_id.clone(),
        }
    }
}

#[derive(Debug, PartialEq, Eq)]
pub struct EmailRecipient {
    pub address: String,
    pub display_name: Option<String>,
    pub locale: String,
}

impl Clone for EmailRecipient {
    fn clone(&self) -> (copy: Self)
        ensures
            copy == *self,
    {
        EmailRecipient {
            address: self.address.clone(),
            display_name: copy_option(&self.display_name),
            locale: self.locale.clone(),
        }
    }
}

#[derive(Debug, PartialEq, Eq)]
pub struct OrganizationInvitationTemplateV1 {
    pub organization_id: String,
    pub organization_name: String,
    pub invitation_id: String,
    pub invitation_url: String,
    pub inviter_display_name: Option<String>,
    pub role_name: Option<String>,
    pub expires_at: UtcTime,
}

impl Clone for OrganizationInvitationTemplateV1 {
    fn clone(&self) -> (copy: Self)
        ensures
            copy == *self,
    {
        OrganizationInvitationTemplateV1 {
            organization_id: self.organization_id.clone(),
            organization_name: self.organization_name.clone(),
            invitation_id: self.invitation_id.clone(),
            invitation_url: self.invitation_url.clone(),
            inviter_display_name: copy_option(&self.inviter_display_name),
            role_name: copy_option(&self.role_name),
            expires_at: self.expires_at,
        }
    }
}

#[derive(Debug, PartialEq, Eq)]
pub struct CreateTransactionalEmailIntent {
    pub source: IntentSource,
    pub recipient: EmailRecipient,
    pub template: OrganizationInvitationTemplateV1,
    pub idempotency_key: String,
    pub correlation_id: String,
    pub causation_id: Option<String>,
    pub requested_by: Option<String>,
}

impl Clone for CreateTransactionalEmailIntent {
    fn clone(&self) -> (copy: Self)
        ensures
            copy == *self,
    {
        CreateTransactionalEmailIntent {
            source: self.source.clone(),
            recipient: self.recipient.clone(),
            template: self.template.clone(),
            idempotency_key: self.idempotency_key.clone(),
            correlation_id: self.correlation_id.clone(),
            causation_id: copy_option(&self.causation_id),
            requested_by: copy_option(&self.requested_by),
        }
    }
}

#[derive(Debug, Clone, Copy, PartialEq, Eq, Structural)]
pub enum AccessRequestNotificationEvent {
    Submitted,
    Approved,
    Denied,
    Expiring,
}

impl AccessRequestNotificationEvent {
    /// The name of the event in idempotency keys.
    pub open spec fn name(self) -> Seq<char> {
        match self {
            AccessRequestNotificationEvent::Submitted => "submitted"@,
            AccessRequestNotificationEvent::Approved => "approved"@,
            AccessRequestNotificationEvent::Denied => "denied"@,
            AccessRequestNotificationEvent::Expiring => "expiring"@,
        }
    }

    pub fn as_str(self) -> (name: &'static str)
        ensures
            name@ == self.name(),
    {
        match self {
            AccessRequestNotificationEvent::Submitted => "submitted",
            AccessRequestNotificationEvent::Approved => "approved",
            AccessRequestNotificationEvent::Denied => "denied",
            AccessRequestNotificationEvent::Expiring => "expiring",
        }
    }
}

#[derive(Debug, PartialEq, Eq)]
pub struct AccessRequestRoleV1 {
    pub role_id: String,
    pub display_name: Option<String>,
}

#[derive(Debug, PartialEq, Eq)]
pub struct AccessRequestScopeV1 {
    pub kind: String,
    pub id: String,
    pub display_name: Option<String>,
}

#[derive(Debug, PartialEq, Eq)]
pub struct AccessRequestNotificationTemplateV1 {
    pub request_id: String,
    pub organization_id: String,
    pub event: AccessRequestNotificationEvent,
    pub role: AccessRequestRoleV1,
    pub scope: AccessRequestScopeV1,
    pub expires_at: Option<UtcTime>,
}

impl Clone for AccessRequestNotificationTemplateV1 {
    fn clone(&self) -> (copy: Self)
        ensures
            copy == *self,
    {
        AccessRequestNotificationTemplateV1 {
            request_id: self.request_id.clone(),
            organization_id: self.organization_id.clone(),
            event: self.event,
            role: AccessRequestRoleV1 {
                role_id: self.role.role_id.clone(),
                display_name: copy_option(&self.role.display_name),
            },
            scope: AccessRequestScopeV1 {
                kind: self.scope.kind.clone(),
                id: self.scope.id.clone(),
                display_name: copy_option(&self.scope.display_name),
            },
            expires_at: self.expires_at,
        }
    }
}

#[derive(Debug, PartialEq, Eq)]
pub struct CreateAccessRequestNotificationIntent {
    pub source: IntentSource,
    pub recipient: EmailRecipient,
    pub template: AccessRequestNotificationTemplateV1,
    pub idempotency_key: String,
    pub correlation_id: String,
    pub causation_id: Option<String>,
    pub requested_by: Option<String>,
}

impl Clone for CreateAccessRequestNotificationIntent {
    fn clone(&self) -> (copy: Self)
        ensures
            copy == *self,
    {
        CreateAccessRequestNotificationIntent {
            source: self.source.clone(),
            recipient: self.recipient.clone(),
            template: self.template.clone(),
            idempotency_key: self.idempotency_key.clone(),
            correlation_id: self.correlation_id.clone(),
            causation_id: copy_option(&self.causation_id),
            requested_by: copy_option(&self.requested_by),
        }
    }
}

/// What a caller learns of an accepted intent.
#[derive(Debug, Clone, PartialEq, Eq)]
pub struct TransactionalIntentReceipt {
    pub intent_id: String,
    pub delivery_id: String,
    pub status: DeliveryStatus,
    pub idempotent_replay: bool,
}

/// A message as the template provider rendered it.
#[derive(Debug, PartialEq, Eq)]
pub struct RenderedTemplate {
    pub template_id: String,
    pub template_version: String,
    pub requested_locale: String,
    pub resolved_locale: String,
    pub fallback_used: bool,
    pub renderer_identity: String,
    pub template_digest: String,
    pub content_digest: String,
    pub subject: String,
    pub text: String,
    pub html: String,
}

impl Clone for RenderedTemplate {
    fn clone(&self) -> (copy: Self)
        ensures
            copy == *self,
    {
        RenderedTemplate {
            template_id: self.template_id.clone(),
            template_version: self.template_version.clone(),
            requested_locale: self.requested_locale.clone(),
            resolved_locale: self.resolved_locale.clone(),
            fallback_used: self.fallback_used,
            renderer_identity: self.renderer_identity.clone(),
            template_digest: self.template_digest.clone(),
            content_digest: self.content_digest.clone(),
            subject: self.subject.clone(),
            text: self.text.clone(),
            html: self.html.clone(),
        }
    }
}

/// Whether `locale` is one of the supported locales.
pub open spec fn supported_locale(locale: Seq<char>) -> bool {
    locale == "en"@ || locale == "en-US"@
}

fn is_supported_locale(locale: &String) -> (r: bool)
    ensures
        r == supported_locale(locale@),
{
    same_text(locale.as_str(), "en") || same_text(locale.as_str(), "en-US")
}

/// Whether an invitation link goes over HTTPS or to the local machine.
pub open spec fn safe_link(url: Seq<char>) -> bool {
    stands_at(url, "https://"@, 0) || stands_at(url, "http://localhost"@, 0)
}

/// Whether an invitation link goes over HTTPS or to the local machine.
pub fn is_safe_link(url: &str) -> (r: bool)
    ensures
        r == safe_link(url@),
{
    begins_with(url, "https://") || begins_with(url, "http://localhost")
}

/// The faults of an invitation intent, in the order in which they are reported.
pub open spec fn invitation_faults(request: CreateTransactionalEmailIntent, now: UtcTime) -> Seq<
    Option<Seq<char>>,
> {
    seq![
        required_fault("source.module_id"@, request.source.module_id@, 1, 160),
        required_fault("source.entity_type"@, request.source.entity_type@, 1, 160),
        required_fault("source.entity_id"@, request.source.entity_id@, 1, 240),
        required_fault("recipient.address"@, request.recipient.address@, 3, 320),
        required_fault("recipient.locale"@, request.recipient.locale@, 2, 32),
        required_fault("idempotency_key"@, request.idempotency_key@, 1, 240),
        required_fault("correlation_id"@, request.correlation_id@, 1, 240),
        required_fault("template.organization_id"@, request.template.organization_id@, 1, 240),
        required_fault("template.organization_name"@, request.template.organization_name@, 1, 240),
        required_fault("template.invitation_id"@, request.template.invitation_id@, 1, 240),
        required_fault("template.invitation_url"@, request.template.invitation_url@, 1, 4_096),
        optional_fault("recipient.display_name"@, request.recipient.display_name, 240),
        optional_fault(
            "template.inviter_display_name"@,
            request.template.inviter_display_name,
            240,
        ),
        optional_fault("template.role_name"@, request.template.role_name, 160),
        optional_fault("causation_id"@, request.causation_id, 240),
        optional_fault("requested_by"@, request.requested_by, 240),
        rule(
            request.recipient.address@.contains('@'),
            "recipient.address must be an email address"@,
        ),
        rule(
            supported_locale(request.recipient.locale@),
            "organization-invitation@v1 supports locale en or en-US"@,
        ),
        rule(
            safe_link(request.template.invitation_url@),
            "template.invitation_url must use HTTPS"@,
        ),
        rule(
            now.before(request.template.expires_at),
            "template.expires_at must be in the future"@,
        ),
        rule(
            request.source.entity_type@ == "organization_invitation"@ && request.source.entity_id@
                == request.template.invitation_id@,
            "Notification source must identify the rendered organization invitation"@,
        ),
    ]
}

/// Accepts an invitation intent, or reports its first fault.
pub fn validate_invitation_request(request: &CreateTransactionalEmailIntent, now: UtcTime) -> (r:
    NotificationResult<()>)
    ensures
        accepts_unless(r, first_fault(invitation_faults(*request, now))),
{
    let mut list = FaultList::empty();
    list.required("source.module_id", &request.source.module_id, 1, 160);
    list.required("source.entity_type", &request.source.entity_type, 1, 160);
    list.required("source.entity_id", &request.source.entity_id, 1, 240);
    list.required("recipient.address", &request.recipient.address, 3, 320);
    list.required("recipient.locale", &request.recipient.locale, 2, 32);
    list.required("idempotency_key", &request.idempotency_key, 1, 240);
    list.required("correlation_id", &request.correlation_id, 1, 240);
    list.required("template.organization_id", &request.template.organization_id, 1, 240);
    list.required("template.organization_name", &request.template.organization_name, 1, 240);
    list.required("template.invitation_id", &request.template.invitation_id, 1, 240);
    list.required("template.invitation_url", &request.template.invitation_url, 1, 4_096);
    list.optional("recipient.display_name", &request.recipient.display_name, 240);
    list.optional("template.inviter_display_name", &request.template.inviter_display_name, 240);
    list.optional("template.role_name", &request.template.role_name, 160);
    list.optional("causation_id", &request.causation_id, 240);
    list.optional("requested_by", &request.requested_by, 240);
    list.rule(
        contains_char(request.recipient.address.as_str(), '@'),
        "recipient.address must be an email address",
    );
    list.rule(
        is_supported_locale(&request.recipient.locale),
        "organization-invitation@v1 supports locale en or en-US",
    );
    list.rule(
        is_safe_link(request.template.invitation_url.as_str()),
        "template.invitation_url must use HTTPS",
    );
    list.rule(
        now.is_before(&request.template.expires_at),
        "template.expires_at must be in the future",
    );
    list.rule(
        same_text(request.source.entity_type.as_str(), "organization_invitation") && same_text(
            request.source.entity_id.as_str(),
            request.template.invitation_id.as_str(),
        ),
        "Notification source must identify the rendered organization invitation",
    );
    assert(list.seen@ =~= invitation_faults(*request, now));
    list.verdict()
}

/// The idempotency key that a request and an event determine.
pub open spec fn access_request_key(
    request_id: Seq<char>,
    event: AccessRequestNotificationEvent,
) -> Seq<char> {
    "access-request:"@ + request_id + ":"@ + event.name()
}

/// The idempotency key that a request and an event determine.
pub fn access_request_idempotency_key(
    request_id: &str,
    event: AccessRequestNotificationEvent,
) -> (key: String)
    ensures
        key@ == access_request_key(request_id@, event),
{
    let mut key = "access-request:".to_owned();
    key.append(request_id);
    key.append(":");
    key.append(event.as_str());
    key
}

/// Two events of one request never share an idempotency key, nor do two
/// requests with the same event.
pub proof fn law_access_request_key_is_injective(
    request_a: Seq<char>,
    event_a: AccessRequestNotificationEvent,
    request_b: Seq<char>,
    event_b: AccessRequestNotificationEvent,
)
    requires
        access_request_key(request_a, event_a) == access_request_key(request_b, event_b),
    ensures
        event_a == event_b,
        request_a == request_b,
{
    reveal_strlit("submitted");
    reveal_strlit("approved");
    reveal_strlit("denied");
    reveal_strlit("expiring");
    reveal_strlit(":");
    let key_a = access_request_key(request_a, event_a);
    let key_b = access_request_key(request_b, event_b);
    let head = "access-request:"@.len() as int;
    assert(key_a.last() == event_a.name().last());
    assert(key_b.last() == event_b.name().last());
    let last = key_a.len() - 1;
    assert(key_a[last - 1] == event_a.name()[event_a.name().len() - 2]);
    assert(key_b[last - 1] == event_b.name()[event_b.name().len() - 2]);
    assert(key_a[last - 2] == event_a.name()[event_a.name().len() - 3]);
    assert(key_b[last - 2] == event_b.name()[event_b.name().len() - 3]);
    assert(key_a[last - 3] == event_a.name()[event_a.name().len() - 4]);
    assert(key_b[last - 3] == event_b.name()[event_b.name().len() - 4]);
    assert(event_a == event_b);
    assert(request_a =~= key_a.subrange(head, head + request_a.len()));
    assert(request_b =~= key_b.subrange(head, head + request_b.len()));
}

/// What is wrong with the expiry that an access-request notification claims.
pub open spec fn expiry_fault(
    event: AccessRequestNotificationEvent,
    expires_at: Option<UtcTime>,
    now: UtcTime,
) -> Option<Seq<char>> {
    match expires_at {
        None => rule(
            event !is Expiring,
            "expiring access-request notifications require a future expiry"@,
        ),
        Some(at) => if event is Expiring {
            rule(now.before(at), "expiring access-request notifications require a future expiry"@)
        } else if event is Denied {
            Some("denied access-request notifications cannot claim an expiry"@)
        } else {
            rule(now.before(at), "access-request notification expiry must be in the future"@)
        },
    }
}

fn expiry_message(
    event: AccessRequestNotificationEvent,
    expires_at: &Option<UtcTime>,
    now: UtcTime,
) -> (fault: Option<String>)
    ensures
        option_text(fault) == expiry_fault(event, *expires_at, now),
{
    match event {
        AccessRequestNotificationEvent::Expiring => {
            if let Some(at) = expires_at {
                if now.is_before(at) {
                    return None;
                }
            }
            Some("expiring access-request notifications require a future expiry".to_owned())
        },
        AccessRequestNotificationEvent::Denied => match expires_at {
            Some(_) => Some(
                "denied access-request notifications cannot claim an expiry".to_owned(),
            ),
            None => None,
        },
        _ => match expires_at {
            Some(at) => if now.is_before(at) {
                None
            } else {
                Some("access-request notification expiry must be in the future".to_owned())
            },
            None => None,
        },
    }
}

/// The faults of an access-request intent, in the order in which they are
/// reported.
pub open spec fn access_request_faults(
    request: CreateAccessRequestNotificationIntent,
    now: UtcTime,
) -> Seq<Option<Seq<char>>> {
    seq![
        required_fault("source.module_id"@, request.source.module_id@, 1, 160),
        required_fault("source.entity_type"@, request.source.entity_type@, 1, 160),
        required_fault("source.entity_id"@, request.source.entity_id@, 1, 240),
        required_fault("recipient.address"@, request.recipient.address@, 3, 320),
        required_fault("recipient.locale"@, request.recipient.locale@, 2, 32),
        required_fault("template.request_id"@, request.template.request_id@, 1, 160),
        required_fault("template.organization_id"@, request.template.organization_id@, 1, 240),
        required_fault("template.role.role_id"@, request.template.role.role_id@, 1, 160),
        required_fault("template.scope.kind"@, request.template.scope.kind@, 1, 160),
        required_fault("template.scope.id"@, request.template.scope.id@, 1, 240),
        required_fault("idempotency_key"@, request.idempotency_key@, 1, 240),
        required_fault("correlation_id"@, request.correlation_id@, 1, 240),
        optional_fault("recipient.display_name"@, request.recipient.display_name, 240),
        optional_fault("template.role.display_name"@, request.template.role.display_name, 160),
        optional_fault("template.scope.display_name"@, request.template.scope.display_name, 240),
        optional_fault("causation_id"@, request.causation_id, 240),
        optional_fault("requested_by"@, request.requested_by, 240),
        rule(
            request.recipient.address@.contains('@'),
            "recipient.address must be an email address"@,
        ),
        rule(
            supported_locale(request.recipient.locale@),
            "access-request@v1 supports locale en or en-US"@,
        ),
        rule(
            request.source.entity_type@ == "access_request"@ && request.source.entity_id@
                == request.template.request_id@,
            "Notification source must identify the rendered access request"@,
        ),
        rule(
            request.idempotency_key@ == access_request_key(
                request.template.request_id@,
                request.template.event,
            ),
            "access-request notification idempotency must be request-and-event stable"@,
        ),
        expiry_fault(request.template.event, request.template.expires_at, now),
    ]
}

/// Accepts an access-request intent, or reports its first fault.
pub fn validate_access_request(
    request: &CreateAccessRequestNotificationIntent,
    now: UtcTime,
) -> (r: NotificationResult<()>)
    ensures
        accepts_unless(r, first_fault(access_request_faults(*request, now))),
{
    let mut list = FaultList::empty();
    list.required("source.module_id", &request.source.module_id, 1, 160);
    list.required("source.entity_type", &request.source.entity_type, 1, 160);
    list.required("source.entity_id", &request.source.entity_id, 1, 240);
    list.required("recipient.address", &request.recipient.address, 3, 320);
    list.required("recipient.locale", &request.recipient.locale, 2, 32);
    list.required("template.request_id", &request.template.request_id, 1, 160);
    list.required("template.organization_id", &request.template.organization_id, 1, 240);
    list.required("template.role.role_id", &request.template.role.role_id, 1, 160);
    list.required("template.scope.kind", &request.template.scope.kind, 1, 160);
    list.required("template.scope.id", &request.template.scope.id, 1, 240);
    list.required("idempotency_key", &request.idempotency_key, 1, 240);
    list.required("correlation_id", &request.correlation_id, 1, 240);
    list.optional("recipient.display_name", &request.recipient.display_name, 240);
    list.optional("template.role.display_name", &request.template.role.display_name, 160);
    list.optional("template.scope.display_name", &request.template.scope.display_name, 240);
    list.optional("causation_id", &request.causation_id, 240);
    list.optional("requested_by", &request.requested_by, 240);
    list.rule(
        contains_char(request.recipient.address.as_str(), '@'),
        "recipient.address must be an email address",
    );
    list.rule(
        is_supported_locale(&request.recipient.locale),
        "access-request@v1 supports locale en or en-US",
    );
    list.rule(
        same_text(request.source.entity_type.as_str(), "access_request") && same_text(
            request.source.entity_id.as_str(),
            request.template.request_id.as_str(),
        ),
        "Notification source must identify the rendered access request",
    );
    let key = access_request_idempotency_key(
        request.template.request_id.as_str(),
        request.template.event,
    );
    list.rule(
        same_text(request.idempotency_key.as_str(), key.as_str()),
        "access-request notification idempotency must be request-and-event stable",
    );
    list.note(expiry_message(request.template.event, &request.template.expires_at, now));
    assert(list.seen@ =~= access_request_faults(*request, now));
    list.verdict()
}

/// The template of an access-request event.
pub open spec fn access_request_template(event: AccessRequestNotificationEvent) -> Seq<char> {
    match event {
        AccessRequestNotificationEvent::Submitted => "access-request-submitted"@,
        AccessRequestNotificationEvent::Approved => "access-request-approved"@,
        AccessRequestNotificationEvent::Denied => "access-request-denied"@,
        AccessRequestNotificationEvent::Expiring => "access-request-expiring"@,
    }
}

/// The template of an access-request event.
pub fn access_request_template_id(event: AccessRequestNotificationEvent) -> (id: &'static str)
    ensures
        id@ == access_request_template(event),
{
    match event {
        AccessRequestNotificationEvent::Submitted => "access-request-submitted",
        AccessRequestNotificationEvent::Approved => "access-request-approved",
        AccessRequestNotificationEvent::Denied => "access-request-denied",
        AccessRequestNotificationEvent::Expiring => "access-request-expiring",
    }
}

impl RenderedTemplate {
    /// The digest of the rendered message.
    pub open spec fn message_digest(self) -> Seq<char> {
        digest_text(content_frame(self.subject@, self.text@, self.html@))
    }

    /// Whether the metadata answers the request: the exact template, version
    /// and locale, a truthful fallback flag and well-formed digests.
    pub open spec fn metadata_answers(
        self,
        template_id: Seq<char>,
        version: Seq<char>,
        locale: Seq<char>,
    ) -> bool {
        &&& self.template_id@ == template_id
        &&& self.template_version@ == version
        &&& self.requested_locale@ == locale
        &&& self.fallback_used == (self.requested_locale@ != self.resolved_locale@)
        &&& within(self.resolved_locale@, 2, 32)
        &&& within(self.renderer_identity@, 1, 160)
        &&& valid_digest_text(self.template_digest@)
        &&& valid_digest_text(self.content_digest@)
    }

    /// Whether the message keeps its bounds, its subject is one line, and the
    /// stated digest is the digest of the message.
    pub open spec fn content_sound(self) -> bool {
        &&& within(self.subject@, 1, 998)
        &&& !self.subject@.contains('\r')
        &&& !self.subject@.contains('\n')
        &&& within(self.text@, 1, 131_072)
        &&& within(self.html@, 1, 262_144)
        &&& self.message_digest() == self.content_digest@
    }
}

pub const RENDER_INVALID: &'static str =
    "Notification Template Provider returned an invalid render projection";

/// Accepts a rendered message that answers the request and is bound to its
/// digest.
pub fn validate_rendered_template(
    rendered: &RenderedTemplate,
    expected_template_id: &str,
    expected_version: &str,
    expected_requested_locale: &str,
) -> (r: NotificationResult<()>)
    ensures
        match r {
            Ok(_) => rendered.metadata_answers(
                expected_template_id@,
                expected_version@,
                expected_requested_locale@,
            ) && rendered.content_sound(),
            Err(error) => error.is(ErrorCode::Internal, RENDER_INVALID@) && !(
            rendered.metadata_answers(
                expected_template_id@,
                expected_version@,
                expected_requested_locale@,
            ) && rendered.content_sound()),
        },
{
    let metadata_valid = same_text(rendered.template_id.as_str(), expected_template_id)
        && same_text(rendered.template_version.as_str(), expected_version) && same_text(
        rendered.requested_locale.as_str(),
        expected_requested_locale,
    ) && rendered.fallback_used == !same_text(
        rendered.requested_locale.as_str(),
        rendered.resolved_locale.as_str(),
    ) && required_bounded(rendered.resolved_locale.as_str(), 2, 32) && required_bounded(
        rendered.renderer_identity.as_str(),
        1,
        160,
    ) && valid_digest(rendered.template_digest.as_str()) && valid_digest(
        rendered.content_digest.as_str(),
    );
    let digest = content_digest(
        rendered.subject.as_str(),
        rendered.text.as_str(),
        rendered.html.as_str(),
    );
    let content_valid = required_bounded(rendered.subject.as_str(), 1, 998) && !contains_char(
        rendered.subject.as_str(),
        '\r',
    ) && !contains_char(rendered.subject.as_str(), '\n') && required_bounded(
        rendered.text.as_str(),
        1,
        131_072,
    ) && required_bounded(rendered.html.as_str(), 1, 262_144) && same_text(
        digest.as_str(),
        rendered.content_digest.as_str(),
    );
    if !metadata_valid || !content_valid {
        return Err(NotificationError::new(ErrorCode::Internal, RENDER_INVALID));
    }
    Ok(())
}

/// An accepted intent with everything that is stored of it.
pub struct IntentPersistence {
    pub source: IntentSource,
    pub recipient: EmailRecipient,
    pub idempotency_key: String,
    pub correlation_id: String,
    pub causation_id: Option<String>,
    pub requested_by: Option<String>,
    pub purpose: String,
    pub request_digest: String,
    pub rendered: RenderedTemplate,
}

pub const INVITATION_PURPOSE: &'static str = "transactional.organization_invitation";

pub const ACCESS_REQUEST_PURPOSE: &'static str = "transactional.access_request";

/// Accepts a rendered invitation intent; `encoded` is the serialised request,
/// over which the request digest is taken.
pub fn admit_transactional_email_intent(
    request: &CreateTransactionalEmailIntent,
    encoded: &[u8],
    rendered: &RenderedTemplate,
    now: UtcTime,
) -> (r: NotificationResult<IntentPersistence>)
    ensures
        match first_fault(invitation_faults(*request, now)) {
            Some(message) => r matches Err(error) && error.is(ErrorCode::Validation, message),
            None => if !(rendered.metadata_answers(
                ORGANIZATION_INVITATION_TEMPLATE_ID@,
                ORGANIZATION_INVITATION_TEMPLATE_VERSION@,
                request.recipient.locale@,
            ) && rendered.content_sound()) {
                r matches Err(error) && error.is(ErrorCode::Internal, RENDER_INVALID@)
            } else {
                r matches Ok(intent) && intent.source == request.source && intent.recipient
                    == request.recipient && intent.idempotency_key == request.idempotency_key
                    && intent.correlation_id == request.correlation_id && intent.causation_id
                    == request.causation_id && intent.requested_by == request.requested_by
                    && intent.purpose@ == INVITATION_PURPOSE@ && intent.request_digest@
                    == digest_text(encoded@) && intent.rendered == *rendered
            },
        },
{
    match validate_invitation_request(request, now) {
        Ok(_) => {},
        Err(error) => {
            return Err(error);
        },
    }
    match validate_rendered_template(
        rendered,
        ORGANIZATION_INVITATION_TEMPLATE_ID,
        ORGANIZATION_INVITATION_TEMPLATE_VERSION,
        request.recipient.locale.as_str(),
    ) {
        Ok(_) => {},
        Err(error) => {
            return Err(error);
        },
    }
    Ok(
        IntentPersistence {
            source: request.source.clone(),
            recipient: request.recipient.clone(),
            idempotency_key: request.idempotency_key.clone(),
            correlation_id: request.correlation_id.clone(),
            causation_id: copy_option(&request.causation_id),
            requested_by: copy_option(&request.requested_by),
            purpose: INVITATION_PURPOSE.to_owned(),
            request_digest: encoded_digest(encoded),
            rendered: rendered.clone(),
        },
    )
}

/// Accepts a rendered access-request intent; `encoded` is the serialised
/// request, over which the request digest is taken.
pub fn admit_access_request_notification(
    request: &CreateAccessRequestNotificationIntent,
    encoded: &[u8],
    rendered: &RenderedTemplate,
    now: UtcTime,
) -> (r: NotificationResult<IntentPersistence>)
    ensures
        match first_fault(access_request_faults(*request, now)) {
            Some(message) => r matches Err(error) && error.is(ErrorCode::Validation, message),
            None => if !(rendered.metadata_answers(
                access_request_template(request.template.event),
                ACCESS_REQUEST_TEMPLATE_VERSION@,
                request.recipient.locale@,
            ) && rendered.content_sound()) {
                r matches Err(error) && error.is(ErrorCode::Internal, RENDER_INVALID@)
            } else {
                r matches Ok(intent) && intent.source == request.source && intent.recipient
                    == request.recipient && intent.idempotency_key == request.idempotency_key
                    && intent.correlation_id == request.correlation_id && intent.causation_id
                    == request.causation_id && intent.requested_by == request.requested_by
                    && intent.purpose@ == ACCESS_REQUEST_PURPOSE@ && intent.request_digest@
                    == digest_text(encoded@) && intent.rendered == *rendered
            },
        },
{
    match validate_access_request(request, now) {
        Ok(_) => {},
        Err(error) => {
            return Err(error);
        },
    }
    match validate_rendered_template(
        rendered,
        access_request_template_id(request.template.event),
        ACCESS_REQUEST_TEMPLATE_VERSION,
        request.recipient.locale.as_str(),
    ) {
        Ok(_) => {},
        Err(error) => {
            return Err(error);
        },
    }
    Ok(
        IntentPersistence {
            source: request.source.clone(),
            recipient: request.recipient.clone(),
            idempotency_key: request.idempotency_key.clone(),
            correlation_id: request.correlation_id.clone(),
            causation_id: copy_option(&request.causation_id),
            requested_by: copy_option(&request.requested_by),
            purpose: ACCESS_REQUEST_PURPOSE.to_owned(),
            request_digest: encoded_digest(encoded),
            rendered: rendered.clone(),
        },
    )
}

/// A stored intent with its delivery, found under a source and its key.
#[derive(Debug)]
pub struct StoredIntent {
    pub intent_id: String,
    pub delivery_id: String,
    pub request_digest: String,
    pub status: String,
}

pub const KEY_REUSED: &'static str = "Notification idempotency key was used with different input";

pub const STORED_STATUS_INVALID: &'static str =
    "Notification delivery has an invalid stored status";

/// What a stored intent answers to a request with digest `digest`.
pub open spec fn answers_replay(
    r: NotificationResult<Option<TransactionalIntentReceipt>>,
    existing: Option<StoredIntent>,
    digest: Seq<char>,
) -> bool {
    match existing {
        None => r matches Ok(receipt) && receipt is None,
        Some(stored) => if stored.request_digest@ != digest {
            r matches Err(error) && error.is(ErrorCode::Conflict, KEY_REUSED@)
        } else {
            match crate::domain::delivery_status_named(stored.status@) {
                None => r matches Err(error) && error.is(
                    ErrorCode::Internal,
                    STORED_STATUS_INVALID@,
                ),
                Some(status) => r matches Ok(receipt) && receipt == Some(
                    (TransactionalIntentReceipt {
                        intent_id: stored.intent_id,
                        delivery_id: stored.delivery_id,
                        status,
                        idempotent_replay: true,
                    }),
                ),
            }
        },
    }
}

/// The receipt of an intent that was already accepted with the same input; the
/// same key with other input is a conflict.
pub fn project_idempotent_intent(existing: Option<StoredIntent>, digest: &str) -> (r:
    NotificationResult<Option<TransactionalIntentReceipt>>)
    ensures
        answers_replay(r, existing, digest@),
{
    let stored = match existing {
        Some(stored) => stored,
        None => {
            return Ok(None);
        },
    };
    if !same_text(stored.request_digest.as_str(), digest) {
        return Err(NotificationError::new(ErrorCode::Conflict, KEY_REUSED));
    }
    match DeliveryStatus::from_name(stored.status.as_str()) {
        Some(status) => Ok(
            Some(
                TransactionalIntentReceipt {
                    intent_id: stored.intent_id,
                    delivery_id: stored.delivery_id,
                    status,
                    idempotent_replay: true,
                },
            ),
        ),
        None => Err(NotificationError::new(ErrorCode::Internal, STORED_STATUS_INVALID)),
    }
}

/// The receipt of an invitation that was already accepted, looked up before
/// anything is rendered. `encoded` is the encoded request and `existing` what
/// is stored under its source and key.
pub fn find_transactional_email_intent_replay(
    request: &CreateTransactionalEmailIntent,
    encoded: &[u8],
    existing: Option<StoredIntent>,
    now: UtcTime,
) -> (r: NotificationResult<Option<TransactionalIntentReceipt>>)
    ensures
        match first_fault(invitation_faults(*request, now)) {
            Some(message) => r matches Err(error) && error.is(ErrorCode::Validation, message),
            None => answers_replay(r, existing, digest_text(encoded@)),
        },
{
    match validate_invitation_request(request, now) {
        Ok(_) => project_idempotent_intent(existing, encoded_digest(encoded).as_str()),
        Err(error) => Err(error),
    }
}

/// The receipt of an access-request notification that was already accepted,
/// looked up before anything is rendered. `encoded` is the encoded request and
/// `existing` what is stored under its source and key.
pub fn find_access_request_notification_replay(
    request: &CreateAccessRequestNotificationIntent,
    encoded: &[u8],
    existing: Option<StoredIntent>,
    now: UtcTime,
) -> (r: NotificationResult<Option<TransactionalIntentReceipt>>)
    ensures
        match first_fault(access_request_faults(*request, now)) {
            Some(message) => r matches Err(error) && error.is(ErrorCode::Validation, message),
            None => answers_replay(r, existing, digest_text(encoded@)),
        },
{
    match validate_access_request(request, now) {
        Ok(_) => project_idempotent_intent(existing, encoded_digest(encoded).as_str()),
        Err(error) => Err(error),
    }
}

/// What stands between three parts of an identifier.
pub open spec fn colon_joined(a: Seq<char>, b: Seq<char>, c: Seq<char>) -> Seq<char> {
    a + ":"@ + b + ":"@ + c
}

/// Three parts with a colon between each two.
pub(crate) fn join_colon(a: &str, b: &str, c: &str) -> (text: String)
    ensures
        text@ == colon_joined(a@, b@, c@),
{
    let mut text = a.to_owned();
    text.append(":");
    text.append(b);
    text.append(":");
    text.append(c);
    text
}

impl IntentPersistence {
    /// The name of the lock that serialises requests with one key.
    pub fn lock_name(&self) -> (name: String)
        ensures
            name@ == colon_joined("notification"@, self.source.module_id@, self.idempotency_key@),
    {
        join_colon(
            "notification",
            self.source.module_id.as_str(),
            self.idempotency_key.as_str(),
        )
    }

    /// The identifier of the template release that rendered the message.
    pub open spec fn release_id(self) -> Seq<char> {
        stable_id_text(
            "ntf_tpl"@,
            colon_joined(
                self.rendered.template_id@,
                self.rendered.template_version@,
                self.rendered.resolved_locale@,
            ),
        )
    }

    /// The identifier of the snapshot of the message.
    pub open spec fn snapshot_id(self) -> Seq<char> {
        stable_id_text("ntf_snp"@, self.request_digest@)
    }

    /// The identifier of the intent.
    pub open spec fn intent_id(self) -> Seq<char> {
        stable_id_text(
            "ntf_int"@,
            colon_joined(self.source.module_id@, self.idempotency_key@, self.request_digest@),
        )
    }

    /// The identifier of the delivery.
    pub open spec fn delivery_id(self) -> Seq<char> {
        stable_id_text("ntf_dlv"@, self.intent_id())
    }
}

/// A template release as it is stored; the first release of a template,
/// version and locale stays.
#[derive(Debug)]
pub struct TemplateReleaseRow {
    pub id: String,
    pub template_id: String,
    pub version: String,
    pub locale: String,
    pub renderer_identity: String,
    pub template_digest: String,
    pub created_at: UtcTime,
}

/// How an intent goes on once the ledger was asked for its key.
#[derive(Debug)]
pub enum IntentStart {
    /// The intent was accepted before.
    Replay(TransactionalIntentReceipt),
    /// The intent is new: the release is stored unless it already is.
    Release(TemplateReleaseRow),
}

pub const CONTENT_DIGEST_MISMATCH: &'static str =
    "Notification Template content digest does not match rendered content";

/// Answers a replay, or begins a new intent with its template release.
pub fn start_intent(intent: &IntentPersistence, existing: Option<StoredIntent>, now: UtcTime) -> (r:
    NotificationResult<IntentStart>)
    ensures
        existing is Some ==> match r {
            Ok(IntentStart::Replay(receipt)) => answers_replay(
                Ok(Some(receipt)),
                existing,
                intent.request_digest@,
            ),
            Ok(IntentStart::Release(_)) => false,
            Err(error) => answers_replay(Err(error), existing, intent.request_digest@),
        },
        existing is None ==> match r {
            Ok(IntentStart::Replay(_)) => false,
            Ok(IntentStart::Release(row)) => {
                &&& intent.rendered.message_digest() == intent.rendered.content_digest@
                &&& row.id@ == intent.release_id()
                &&& row.template_id == intent.rendered.template_id
                &&& row.version == intent.rendered.template_version
                &&& row.locale == intent.rendered.resolved_locale
                &&& row.renderer_identity == intent.rendered.renderer_identity
                &&& row.template_digest == intent.rendered.template_digest
                &&& row.created_at == now
            },
            Err(error) => {
                &&& intent.rendered.message_digest() != intent.rendered.content_digest@
                &&& error.is(ErrorCode::Internal, CONTENT_DIGEST_MISMATCH@)
            },
        },
{
    match project_idempotent_intent(existing, intent.request_digest.as_str()) {
        Err(error) => {
            return Err(error);
        },
        Ok(Some(receipt)) => {
            return Ok(IntentStart::Replay(receipt));
        },
        Ok(None) => {},
    }
    let rendered = &intent.rendered;
    let digest = content_digest(
        rendered.subject.as_str(),
        rendered.text.as_str(),
        rendered.html.as_str(),
    );
    if !same_text(digest.as_str(), rendered.content_digest.as_str()) {
        return Err(NotificationError::new(ErrorCode::Internal, CONTENT_DIGEST_MISMATCH));
    }
    let release_name = join_colon(
        rendered.template_id.as_str(),
        rendered.template_version.as_str(),
        rendered.resolved_locale.as_str(),
    );
    Ok(
        IntentStart::Release(
            TemplateReleaseRow {
                id: stable_id("ntf_tpl", release_name.as_str()),
                template_id: rendered.template_id.clone(),
                version: rendered.template_version.clone(),
                locale: rendered.resolved_locale.clone(),
                renderer_identity: rendered.renderer_identity.clone(),
                template_digest: rendered.template_digest.clone(),
                created_at: now,
            },
        ),
    )
}

/// The protected parts of a message and its recipient.
#[derive(Debug)]
pub struct ProtectedMessage {
    pub subject: ProtectedValue,
    pub text: ProtectedValue,
    pub html: ProtectedValue,
    pub recipient: ProtectedValue,
}

#[derive(Debug)]
pub struct SnapshotRow {
    pub id: String,
    pub template_release_id: String,
    pub subject_ciphertext: String,
    pub text_ciphertext: String,
    pub html_ciphertext: String,
    pub protection_key_ref: String,
    pub content_digest: String,
    pub redacted_preview: String,
    pub created_at: UtcTime,
}

#[derive(Debug)]
pub struct IntentRow {
    pub id: String,
    pub purpose: String,
    pub source: IntentSource,
    pub recipient_ciphertext: String,
    pub recipient_key_ref: String,
    pub recipient_mask: String,
    pub locale: String,
    pub snapshot_id: String,
    pub idempotency_key: String,
    pub request_digest: String,
    pub requested_by: Option<String>,
    pub correlation_id: String,
    pub causation_id: Option<String>,
    pub requested_at: UtcTime,
}

#[derive(Debug)]
pub struct DeliveryRow {
    pub id: String,
    pub intent_id: String,
    pub channel: String,
    pub status: DeliveryStatus,
    pub revision: i64,
    pub attempt_count: i32,
    pub max_attempts: i32,
    pub next_attempt_at: UtcTime,
    pub created_at: UtcTime,
    pub updated_at: UtcTime,
}

/// Everything that one new intent adds to the ledger.
#[derive(Debug)]
pub struct IntentRows {
    pub snapshot: SnapshotRow,
    pub intent: IntentRow,
    pub delivery: DeliveryRow,
    pub receipt: TransactionalIntentReceipt,
}

impl IntentRows {
    /// Whether these are the rows of `intent` accepted at `now` with its
    /// message protected as `message`.
    pub open spec fn record(
        self,
        intent: IntentPersistence,
        message: ProtectedMessage,
        now: UtcTime,
    ) -> bool {
        &&& self.snapshot.id@ == intent.snapshot_id()
        &&& self.snapshot.template_release_id@ == intent.release_id()
        &&& self.snapshot.subject_ciphertext == message.subject.ciphertext
        &&& self.snapshot.text_ciphertext == message.text.ciphertext
        &&& self.snapshot.html_ciphertext == message.html.ciphertext
        &&& self.snapshot.protection_key_ref == message.subject.key_reference
        &&& self.snapshot.content_digest@ == intent.rendered.message_digest()
        &&& self.snapshot.redacted_preview@ == preview_of(intent.rendered.text@)
        &&& self.snapshot.created_at == now
        &&& self.intent.id@ == intent.intent_id()
        &&& self.intent.purpose == intent.purpose
        &&& self.intent.source == intent.source
        &&& self.intent.recipient_ciphertext == message.recipient.ciphertext
        &&& self.intent.recipient_key_ref == message.recipient.key_reference
        &&& self.intent.recipient_mask@ == masked(intent.recipient.address@)
        &&& self.intent.locale == intent.recipient.locale
        &&& self.intent.snapshot_id@ == intent.snapshot_id()
        &&& self.intent.idempotency_key == intent.idempotency_key
        &&& self.intent.request_digest == intent.request_digest
        &&& self.intent.requested_by == intent.requested_by
        &&& self.intent.correlation_id == intent.correlation_id
        &&& self.intent.causation_id == intent.causation_id
        &&& self.intent.requested_at == now
        &&& self.delivery.id@ == intent.delivery_id()
        &&& self.delivery.intent_id@ == intent.intent_id()
        &&& self.delivery.channel@ == "email"@
        &&& self.delivery.status is Queued
        &&& self.delivery.revision == 1
        &&& self.delivery.attempt_count == 0
        &&& self.delivery.max_attempts == 4
        &&& self.delivery.next_attempt_at == now
        &&& self.delivery.created_at == now
        &&& self.delivery.updated_at == now
        &&& self.receipt.intent_id@ == intent.intent_id()
        &&& self.receipt.delivery_id@ == intent.delivery_id()
        &&& self.receipt.status is Queued
        &&& !self.receipt.idempotent_replay
    }
}

pub const PROTECTION_KEY_CHANGED: &'static str =
    "Notification snapshot protection key changed during rendering";

pub const RELEASE_IMMUTABLE: &'static str = "Notification template release is immutable";

/// Whether the three parts of a message are protected under one key.
pub open spec fn one_key(
    subject: ProtectedValue,
    text: ProtectedValue,
    html: ProtectedValue,
) -> bool {
    subject.key_reference@ == text.key_reference@ && text.key_reference@ == html.key_reference@
}

/// Accepts the three parts of a message if they are protected under one key.
pub fn require_one_key(subject: &ProtectedValue, text: &ProtectedValue, html: &ProtectedValue) -> (r:
    NotificationResult<()>)
    ensures
        match r {
            Ok(_) => one_key(*subject, *text, *html),
            Err(error) => !one_key(*subject, *text, *html) && error.is(
                ErrorCode::Internal,
                PROTECTION_KEY_CHANGED@,
            ),
        },
{
    if !same_text(subject.key_reference.as_str(), text.key_reference.as_str()) || !same_text(
        text.key_reference.as_str(),
        html.key_reference.as_str(),
    ) {
        return Err(NotificationError::new(ErrorCode::Internal, PROTECTION_KEY_CHANGED));
    }
    Ok(())
}

/// The rows of a new intent whose message is already protected.
pub fn assemble_intent(intent: &IntentPersistence, message: ProtectedMessage, now: UtcTime) -> (rows:
    IntentRows)
    ensures
        rows.record(*intent, message, now),
{
    let rendered = &intent.rendered;
    let release_name = join_colon(
        rendered.template_id.as_str(),
        rendered.template_version.as_str(),
        rendered.resolved_locale.as_str(),
    );
    let intent_name = join_colon(
        intent.source.module_id.as_str(),
        intent.idempotency_key.as_str(),
        intent.request_digest.as_str(),
    );
    let snapshot_id = stable_id("ntf_snp", intent.request_digest.as_str());
    let intent_id = stable_id("ntf_int", intent_name.as_str());
    let delivery_id = stable_id("ntf_dlv", intent_id.as_str());
    let snapshot = SnapshotRow {
        id: snapshot_id.clone(),
        template_release_id: stable_id("ntf_tpl", release_name.as_str()),
        subject_ciphertext: message.subject.ciphertext,
        text_ciphertext: message.text.ciphertext,
        html_ciphertext: message.html.ciphertext,
        protection_key_ref: message.subject.key_reference,
        content_digest: content_digest(
            rendered.subject.as_str(),
            rendered.text.as_str(),
            rendered.html.as_str(),
        ),
        redacted_preview: redact_preview(rendered.text.as_str()),
        created_at: now,
    };
    let intent_row = IntentRow {
        id: intent_id.clone(),
        purpose: intent.purpose.clone(),
        source: intent.source.clone(),
        recipient_ciphertext: message.recipient.ciphertext,
        recipient_key_ref: message.recipient.key_reference,
        recipient_mask: mask_email(intent.recipient.address.as_str()),
        locale: intent.recipient.locale.clone(),
        snapshot_id,
        idempotency_key: intent.idempotency_key.clone(),
        request_digest: intent.request_digest.clone(),
        requested_by: copy_option(&intent.requested_by),
        correlation_id: intent.correlation_id.clone(),
        causation_id: copy_option(&intent.causation_id),
        requested_at: now,
    };
    let delivery = DeliveryRow {
        id: delivery_id.clone(),
        intent_id: intent_id.clone(),
        channel: "email".to_owned(),
        status: DeliveryStatus::Queued,
        revision: 1,
        attempt_count: 0,
        max_attempts: 4,
        next_attempt_at: now,
        created_at: now,
        updated_at: now,
    };
    let receipt = TransactionalIntentReceipt {
        intent_id,
        delivery_id,
        status: DeliveryStatus::Queued,
        idempotent_replay: false,
    };
    IntentRows { snapshot, intent: intent_row, delivery, receipt }
}

/// Whether `message` can be what protecting the message and the recipient of an
/// intent gives: each part protected, and the message under one key.
pub open spec fn message_protected<P: SnapshotProtector>(
    protector: P,
    message: ProtectedMessage,
    intent: IntentPersistence,
) -> bool {
    &&& protector.protects(intent.rendered.subject@, message.subject)
    &&& protector.protects(intent.rendered.text@, message.text)
    &&& protector.protects(intent.rendered.html@, message.html)
    &&& protector.protects(intent.recipient.address@, message.recipient)
    &&& one_key(message.subject, message.text, message.html)
}

/// Whether protecting the message can give parts under different keys.
pub open spec fn key_can_change<P: SnapshotProtector>(
    protector: P,
    intent: IntentPersistence,
) -> bool {
    exists|subject: ProtectedValue, text: ProtectedValue, html: ProtectedValue|
        {
            &&& protector.protects(intent.rendered.subject@, subject)
            &&& protector.protects(intent.rendered.text@, text)
            &&& protector.protects(intent.rendered.html@, html)
            &&& !#[trigger] one_key(subject, text, html)
        }
}

/// Whether protecting the message and the recipient of an intent can fail with
/// `error`: the protector refuses one of the parts, or the key changed between
/// the parts of the message.
pub open spec fn message_refused<P: SnapshotProtector>(
    protector: P,
    error: NotificationError,
    intent: IntentPersistence,
) -> bool {
    ||| protector.refuses(intent.rendered.subject@, error)
    ||| protector.refuses(intent.rendered.text@, error)
    ||| protector.refuses(intent.rendered.html@, error)
    ||| protector.refuses(intent.recipient.address@, error)
    ||| error.is(ErrorCode::Internal, PROTECTION_KEY_CHANGED@) && key_can_change(
        protector,
        intent,
    )
}

/// Protects the message and the recipient of an intent.
fn protect_message<P: SnapshotProtector>(intent: &IntentPersistence, protector: &P) -> (r:
    NotificationResult<ProtectedMessage>)
    ensures
        match r {
            Ok(message) => message_reveals(*protector, message, *intent) && message_protected(
                *protector,
                message,
                *intent,
            ),
            Err(error) => message_refused(*protector, error, *intent),
        },
{
    let subject = match protector.protect(intent.rendered.subject.as_str()) {
        Ok(value) => value,
        Err(error) => {
            return Err(error);
        },
    };
    let text = match protector.protect(intent.rendered.text.as_str()) {
        Ok(value) => value,
        Err(error) => {
            return Err(error);
        },
    };
    let html = match protector.protect(intent.rendered.html.as_str()) {
        Ok(value) => value,
        Err(error) => {
            return Err(error);
        },
    };
    match require_one_key(&subject, &text, &html) {
        Ok(_) => {},
        Err(error) => {
            return Err(error);
        },
    }
    let recipient = match protector.protect(intent.recipient.address.as_str()) {
        Ok(value) => value,
        Err(error) => {
            return Err(error);
        },
    };
    Ok(ProtectedMessage { subject, text, html, recipient })
}

/// Whether the protected parts reveal to the message and the recipient.
pub open spec fn message_reveals<P: SnapshotProtector>(
    protector: P,
    message: ProtectedMessage,
    intent: IntentPersistence,
) -> bool {
    &&& protector.revealed(message.subject.ciphertext@, message.subject.key_reference@) matches Ok(
        subject,
    ) && subject == intent.rendered.subject@
    &&& protector.revealed(message.text.ciphertext@, message.text.key_reference@) matches Ok(text)
        && text == intent.rendered.text@
    &&& protector.revealed(message.html.ciphertext@, message.html.key_reference@) matches Ok(html)
        && html == intent.rendered.html@
    &&& protector.revealed(
        message.recipient.ciphertext@,
        message.recipient.key_reference@,
    ) matches Ok(address) && address == intent.recipient.address@
}

/// The rows of a new intent, once its template release is stored under
/// `stored_template_digest`. What is stored reveals to the rendered message.
pub fn persist_intent<P: SnapshotProtector>(
    intent: &IntentPersistence,
    stored_template_digest: &str,
    now: UtcTime,
    protector: &P,
) -> (r: NotificationResult<IntentRows>)
    ensures
        if stored_template_digest@ != intent.rendered.template_digest@ {
            r matches Err(error) && error.is(ErrorCode::Internal, RELEASE_IMMUTABLE@)
        } else {
            match r {
                Ok(rows) => exists|message: ProtectedMessage|
                    {
                        &&& message_reveals(*protector, message, *intent)
                        &&& message_protected(*protector, message, *intent)
                        &&& #[trigger] rows.record(*intent, message, now)
                    },
                Err(error) => message_refused(*protector, error, *intent),
            }
        },
{
    if !same_text(stored_template_digest, intent.rendered.template_digest.as_str()) {
        return Err(NotificationError::new(ErrorCode::Internal, RELEASE_IMMUTABLE));
    }
    match protect_message(intent, protector) {
        Ok(message) => Ok(assemble_intent(intent, message, now)),
        Err(error) => Err(error),
    }
}

/// An accepted intent stays replayable: whatever status its delivery reached,
/// the same input is answered with the same intent and delivery, and other
/// input under the same key is a conflict.
pub proof fn law_replay_returns_the_accepted_intent(
    intent: IntentPersistence,
    message: ProtectedMessage,
    now: UtcTime,
    rows: IntentRows,
    stored: StoredIntent,
    status: DeliveryStatus,
    digest: Seq<char>,
    r: NotificationResult<Option<TransactionalIntentReceipt>>,
)
    requires
        rows.record(intent, message, now),
        stored.intent_id@ == rows.intent.id@,
        stored.delivery_id@ == rows.delivery.id@,
        stored.request_digest@ == rows.intent.request_digest@,
        stored.status@ == status.name(),
        answers_replay(r, Some(stored), digest),
    ensures
        digest == intent.request_digest@ ==> match r {
            Ok(Some(receipt)) => {
                &&& receipt.intent_id@ == rows.receipt.intent_id@
                &&& receipt.delivery_id@ == rows.receipt.delivery_id@
                &&& receipt.status == status
                &&& receipt.idempotent_replay
            },
            _ => false,
        },
        digest != intent.request_digest@ ==> (r matches Err(error) && error.is(
            ErrorCode::Conflict,
            KEY_REUSED@,
        )),
{
    crate::domain::law_status_name_round_trip(status, stored.status@);
}

} // verus!
