//! Which requests of each role are sound, and what they become once their
//! caller is known.

use vstd::prelude::*;
use vstd::string::*;
use vstd::utf8::*;

use crate::admin;
use crate::config::{authorized, authorized_caller, instance_char, instance_key, is_among};
use crate::contracts::{EmailReceiptObserved, OrganizationInvitationLifecycle, ReceiptKind,
    EMAIL_RECEIPT_OBSERVED_EVENT, ORGANIZATION_INVITATION_ACCEPTED_EVENT,
    ORGANIZATION_INVITATION_EXPIRED_EVENT, ORGANIZATION_INVITATION_REVOKED_EVENT};
use crate::delivery;
use crate::digest::{valid_digest, valid_digest_text};
use crate::domain::MAX_SAFE_WIRE_INTEGER;
use crate::error::PluginError;
use crate::events::ObservationEnvelope;
use crate::faults::first_fault;
use crate::public::{access_request_faults, access_request_idempotency_key, access_request_key,
    invitation_faults, is_safe_link, safe_link, AccessRequestNotificationEvent,
    AccessRequestNotificationTemplateV1, AccessRequestRoleV1, AccessRequestScopeV1,
    CreateAccessRequestNotificationIntent, CreateTransactionalEmailIntent, EmailRecipient,
    IntentSource, OrganizationInvitationTemplateV1};
use crate::text::{at_most_chars, blank, contains_char, optional_bounded, required_bounded,
    same_text, within};
use crate::time::{instant_of, parse_time, time_text, valid_time, UtcTime};
use crate::transactional::{self, CreateAccessRequestNotificationRequest,
    CreateAccessRequestNotificationRequestEvent, CreateOrganizationInvitationRequest,
    ObserveInvitationLifecycleRequest};

verus! {

/// Whether `text` denotes an instant after `now`.
pub open spec fn in_future(text: Seq<char>, now: UtcTime) -> bool {
    instant_of(text) matches Some(at) && now.before(at)
}

fn is_in_future(text: &str, now: UtcTime) -> (r: bool)
    ensures
        r == in_future(text@, now),
{
    match parse_time(text) {
        Some(at) => now.is_before(&at),
        None => false,
    }
}

/// Whether an invitation request keeps every bound.
pub open spec fn sound_create_request(
    request: CreateOrganizationInvitationRequest,
    now: UtcTime,
) -> bool {
    &&& within(request.source.entity_type@, 1, 160)
    &&& request.source.entity_type@ == "organization_invitation"@
    &&& within(request.source.entity_id@, 1, 240)
    &&& within(request.recipient.address@, 3, 320)
    &&& request.recipient.address@.contains('@')
    &&& at_most_chars(request.recipient.display_name, 240)
    &&& within(request.template.organization_id@, 1, 240)
    &&& within(request.template.organization_name@, 1, 240)
    &&& within(request.template.invitation_id@, 1, 240)
    &&& request.source.entity_id@ == request.template.invitation_id@
    &&& within(request.template.invitation_url@, 1, 4_096)
    &&& safe_link(request.template.invitation_url@)
    &&& at_most_chars(request.template.inviter_display_name, 240)
    &&& at_most_chars(request.template.role_name, 160)
    &&& time_text(request.template.expires_at@)
    &&& in_future(request.template.expires_at@, now)
    &&& within(request.idempotency_key@, 1, 240)
    &&& within(request.correlation_id@, 1, 240)
    &&& at_most_chars(request.causation_id, 240)
    &&& at_most_chars(request.requested_by, 240)
}

/// Whether an invitation request keeps every bound.
pub fn valid_create_request(request: &CreateOrganizationInvitationRequest, now: UtcTime) -> (r: bool)
    ensures
        r == sound_create_request(*request, now),
{
    required_bounded(request.source.entity_type.as_str(), 1, 160) && same_text(
        request.source.entity_type.as_str(),
        "organization_invitation",
    ) && required_bounded(request.source.entity_id.as_str(), 1, 240) && required_bounded(
        request.recipient.address.as_str(),
        3,
        320,
    ) && contains_char(request.recipient.address.as_str(), '@') && optional_bounded(
        &request.recipient.display_name,
        240,
    ) && required_bounded(request.template.organization_id.as_str(), 1, 240) && required_bounded(
        request.template.organization_name.as_str(),
        1,
        240,
    ) && required_bounded(request.template.invitation_id.as_str(), 1, 240) && same_text(
        request.source.entity_id.as_str(),
        request.template.invitation_id.as_str(),
    ) && required_bounded(request.template.invitation_url.as_str(), 1, 4_096) && is_safe_link(
        request.template.invitation_url.as_str(),
    ) && optional_bounded(&request.template.inviter_display_name, 240) && optional_bounded(
        &request.template.role_name,
        160,
    ) && valid_time(request.template.expires_at.as_str()) && is_in_future(
        request.template.expires_at.as_str(),
        now,
    ) && required_bounded(request.idempotency_key.as_str(), 1, 240) && required_bounded(
        request.correlation_id.as_str(),
        1,
        240,
    ) && optional_bounded(&request.causation_id, 240) && optional_bounded(
        &request.requested_by,
        240,
    )
}

/// The event of the ledger that a requested event is.
pub open spec fn event_of(event: CreateAccessRequestNotificationRequestEvent) ->
    AccessRequestNotificationEvent {
    match event {
        CreateAccessRequestNotificationRequestEvent::Submitted =>
            AccessRequestNotificationEvent::Submitted,
        CreateAccessRequestNotificationRequestEvent::Approved =>
            AccessRequestNotificationEvent::Approved,
        CreateAccessRequestNotificationRequestEvent::Denied =>
            AccessRequestNotificationEvent::Denied,
        CreateAccessRequestNotificationRequestEvent::Expiring =>
            AccessRequestNotificationEvent::Expiring,
    }
}

fn ledger_event(event: CreateAccessRequestNotificationRequestEvent) -> (r:
    AccessRequestNotificationEvent)
    ensures
        r == event_of(event),
{
    match event {
        CreateAccessRequestNotificationRequestEvent::Submitted => {
            AccessRequestNotificationEvent::Submitted
        },
        CreateAccessRequestNotificationRequestEvent::Approved => {
            AccessRequestNotificationEvent::Approved
        },
        CreateAccessRequestNotificationRequestEvent::Denied => {
            AccessRequestNotificationEvent::Denied
        },
        CreateAccessRequestNotificationRequestEvent::Expiring => {
            AccessRequestNotificationEvent::Expiring
        },
    }
}

/// Whether the claimed expiry suits the event: required and in the future for
/// an expiring request, absent for a denied one, otherwise absent or in the
/// future.
pub open spec fn sound_expiry(
    event: CreateAccessRequestNotificationRequestEvent,
    expires_at: Option<String>,
    now: UtcTime,
) -> bool {
    match expires_at {
        None => event !is Expiring,
        Some(text) => event !is Denied && in_future(text@, now),
    }
}

fn is_sound_expiry(
    event: CreateAccessRequestNotificationRequestEvent,
    expires_at: &Option<String>,
    now: UtcTime,
) -> (r: bool)
    ensures
        r == sound_expiry(event, *expires_at, now),
{
    match expires_at {
        None => match event {
            CreateAccessRequestNotificationRequestEvent::Expiring => false,
            _ => true,
        },
        Some(text) => match event {
            CreateAccessRequestNotificationRequestEvent::Denied => false,
            _ => is_in_future(text.as_str(), now),
        },
    }
}

/// Whether an access-request notification keeps every bound.
pub open spec fn sound_access_request(
    request: CreateAccessRequestNotificationRequest,
    now: UtcTime,
) -> bool {
    &&& within(request.request_id@, 1, 160)
    &&& within(request.organization_id@, 1, 240)
    &&& within(request.recipient.address@, 3, 320)
    &&& request.recipient.address@.contains('@')
    &&& at_most_chars(request.recipient.display_name, 240)
    &&& within(request.role.role_id@, 1, 160)
    &&& at_most_chars(request.role.display_name, 160)
    &&& within(request.scope.kind@, 1, 160)
    &&& within(request.scope.id@, 1, 240)
    &&& at_most_chars(request.scope.display_name, 240)
    &&& request.expires_at matches Some(text) ==> time_text(text@)
    &&& sound_expiry(request.event, request.expires_at, now)
    &&& request.idempotency_key@ == access_request_key(
        request.request_id@,
        event_of(request.event),
    )
    &&& within(request.correlation_id@, 1, 240)
    &&& at_most_chars(request.causation_id, 240)
    &&& at_most_chars(request.requested_by, 240)
}

/// Whether an access-request notification keeps every bound.
pub fn valid_access_request_notification_request(
    request: &CreateAccessRequestNotificationRequest,
    now: UtcTime,
) -> (r: bool)
    ensures
        r == sound_access_request(*request, now),
{
    let key = access_request_idempotency_key(
        request.request_id.as_str(),
        ledger_event(request.event),
    );
    let time_valid = match &request.expires_at {
        Some(text) => valid_time(text.as_str()),
        None => true,
    };
    required_bounded(request.request_id.as_str(), 1, 160) && required_bounded(
        request.organization_id.as_str(),
        1,
        240,
    ) && required_bounded(request.recipient.address.as_str(), 3, 320) && contains_char(
        request.recipient.address.as_str(),
        '@',
    ) && optional_bounded(&request.recipient.display_name, 240) && required_bounded(
        request.role.role_id.as_str(),
        1,
        160,
    ) && optional_bounded(&request.role.display_name, 160) && required_bounded(
        request.scope.kind.as_str(),
        1,
        160,
    ) && required_bounded(request.scope.id.as_str(), 1, 240) && optional_bounded(
        &request.scope.display_name,
        240,
    ) && time_valid && is_sound_expiry(request.event, &request.expires_at, now) && same_text(
        request.idempotency_key.as_str(),
        key.as_str(),
    ) && required_bounded(request.correlation_id.as_str(), 1, 240) && optional_bounded(
        &request.causation_id,
        240,
    ) && optional_bounded(&request.requested_by, 240)
}

/// Whether an invitation observation keeps every bound.
pub open spec fn sound_lifecycle_request(request: ObserveInvitationLifecycleRequest) -> bool {
    &&& within(request.observation_id@, 1, 240)
    &&& within(request.organization_id@, 1, 240)
    &&& within(request.invitation_id@, 1, 240)
    &&& time_text(request.observed_at@)
}

/// Whether an invitation observation keeps every bound.
pub fn valid_lifecycle_request(request: &ObserveInvitationLifecycleRequest) -> (r: bool)
    ensures
        r == sound_lifecycle_request(*request),
{
    required_bounded(request.observation_id.as_str(), 1, 240) && required_bounded(
        request.organization_id.as_str(),
        1,
        240,
    ) && required_bounded(request.invitation_id.as_str(), 1, 240) && valid_time(
        request.observed_at.as_str(),
    )
}

/// Whether a receipt keeps every bound.
pub open spec fn sound_receipt_request(request: delivery::ObserveReceiptRequest) -> bool {
    &&& within(request.observation_id@, 1, 240)
    &&& within(request.delivery_id@, 1, 160)
    &&& within(request.attempt_id@, 1, 160)
    &&& within(request.run_id@, 1, 160)
    &&& time_text(request.observed_at@)
    &&& within(request.remote_id@, 1, 320)
    &&& valid_digest_text(request.digest@)
}

/// Whether a receipt keeps every bound.
pub fn valid_receipt_request(request: &delivery::ObserveReceiptRequest) -> (r: bool)
    ensures
        r == sound_receipt_request(*request),
{
    required_bounded(request.observation_id.as_str(), 1, 240) && required_bounded(
        request.delivery_id.as_str(),
        1,
        160,
    ) && required_bounded(request.attempt_id.as_str(), 1, 160) && required_bounded(
        request.run_id.as_str(),
        1,
        160,
    ) && valid_time(request.observed_at.as_str()) && required_bounded(
        request.remote_id.as_str(),
        1,
        320,
    ) && valid_digest(request.digest.as_str())
}

/// Whether a page request keeps every bound.
pub open spec fn sound_list_request(request: admin::ListDeliveriesRequest) -> bool {
    &&& request.limit matches Some(limit) ==> 1 <= limit <= 200
    &&& request.cursor matches Some(cursor) ==> within(cursor@, 1, 160)
}

/// Whether a page request keeps every bound.
pub fn valid_list_request(request: &admin::ListDeliveriesRequest) -> (r: bool)
    ensures
        r == sound_list_request(*request),
{
    let limit_valid = match request.limit {
        Some(limit) => 1 <= limit && limit <= 200,
        None => true,
    };
    limit_valid && match &request.cursor {
        Some(cursor) => required_bounded(cursor.as_str(), 1, 160),
        None => true,
    }
}

/// Whether a retry request keeps every bound.
pub open spec fn sound_retry_request(request: admin::RetryDeliveryRequest) -> bool {
    &&& within(request.delivery_id@, 1, 160)
    &&& 1 <= request.revision <= MAX_SAFE_WIRE_INTEGER
    &&& within(request.idempotency_key@, 1, 240)
}

/// Whether a retry request keeps every bound.
pub fn valid_retry_request(request: &admin::RetryDeliveryRequest) -> (r: bool)
    ensures
        r == sound_retry_request(*request),
{
    required_bounded(request.delivery_id.as_str(), 1, 160) && 1 <= request.revision
        && request.revision <= MAX_SAFE_WIRE_INTEGER && required_bounded(
        request.idempotency_key.as_str(),
        1,
        240,
    )
}

/// The source of an intent: the module is the caller, whatever the request
/// holds.
pub fn intent_source(
    caller: String,
    source: transactional::CreateOrganizationInvitationRequestSource,
) -> (r: IntentSource)
    ensures
        r.module_id == caller,
        r.entity_type == source.entity_type,
        r.entity_id == source.entity_id,
{
    IntentSource {
        module_id: caller,
        entity_type: source.entity_type,
        entity_id: source.entity_id,
    }
}

/// The name of a locale.
pub open spec fn invitation_locale(
    locale: transactional::CreateOrganizationInvitationRequestRecipientLocale,
) -> Seq<char> {
    match locale {
        transactional::CreateOrganizationInvitationRequestRecipientLocale::En => "en"@,
        transactional::CreateOrganizationInvitationRequestRecipientLocale::EnUS => "en-US"@,
    }
}

/// The name of a locale.
pub open spec fn access_request_locale(
    locale: transactional::CreateAccessRequestNotificationRequestRecipientLocale,
) -> Seq<char> {
    match locale {
        transactional::CreateAccessRequestNotificationRequestRecipientLocale::En => "en"@,
        transactional::CreateAccessRequestNotificationRequestRecipientLocale::EnUS => "en-US"@,
    }
}

/// Whether `intent` is the request of `caller`.
pub open spec fn invites(
    intent: CreateTransactionalEmailIntent,
    caller: Seq<char>,
    request: CreateOrganizationInvitationRequest,
) -> bool {
    &&& intent.source.module_id@ == caller
    &&& intent.source.entity_type == request.source.entity_type
    &&& intent.source.entity_id == request.source.entity_id
    &&& intent.recipient.address == request.recipient.address
    &&& intent.recipient.display_name == request.recipient.display_name
    &&& intent.recipient.locale@ == invitation_locale(request.recipient.locale)
    &&& intent.template.organization_id == request.template.organization_id
    &&& intent.template.organization_name == request.template.organization_name
    &&& intent.template.invitation_id == request.template.invitation_id
    &&& intent.template.invitation_url == request.template.invitation_url
    &&& intent.template.inviter_display_name == request.template.inviter_display_name
    &&& intent.template.role_name == request.template.role_name
    &&& Some(intent.template.expires_at) == instant_of(request.template.expires_at@)
    &&& intent.idempotency_key == request.idempotency_key
    &&& intent.correlation_id == request.correlation_id
    &&& intent.causation_id == request.causation_id
    &&& intent.requested_by == request.requested_by
}

/// The intent that an invitation request of the authenticated caller becomes.
pub fn create_organization_invitation(
    caller: Option<&str>,
    allowed: &Vec<String>,
    request: CreateOrganizationInvitationRequest,
    now: UtcTime,
) -> (r: Result<
    CreateTransactionalEmailIntent,
    PluginError<transactional::CreateOrganizationInvitationError>,
>)
    ensures
        if !(caller matches Some(name) && is_among(name@, allowed@)) {
            r == Err::<CreateTransactionalEmailIntent, _>(
                PluginError::Domain(transactional::CreateOrganizationInvitationError::Unauthorized),
            )
        } else if !sound_create_request(request, now) {
            r == Err::<CreateTransactionalEmailIntent, _>(
                PluginError::Domain(
                    transactional::CreateOrganizationInvitationError::InvalidIntent,
                ),
            )
        } else {
            r matches Ok(intent) && invites(intent, caller->Some_0@, request)
                && intent.template.expires_at.valid()
        },
{
    let caller = match authorized_caller(caller, allowed) {
        Some(name) => name.to_owned(),
        None => {
            return Err(
                PluginError::Domain(transactional::CreateOrganizationInvitationError::Unauthorized),
            );
        },
    };
    if !valid_create_request(&request, now) {
        return Err(
            PluginError::Domain(transactional::CreateOrganizationInvitationError::InvalidIntent),
        );
    }
    let expires_at = match parse_time(request.template.expires_at.as_str()) {
        Some(at) => at,
        None => {
            return Err(
                PluginError::Domain(
                    transactional::CreateOrganizationInvitationError::InvalidIntent,
                ),
            );
        },
    };
    let locale = match request.recipient.locale {
        transactional::CreateOrganizationInvitationRequestRecipientLocale::En => "en",
        transactional::CreateOrganizationInvitationRequestRecipientLocale::EnUS => "en-US",
    };
    Ok(
        CreateTransactionalEmailIntent {
            source: intent_source(caller, request.source),
            recipient: EmailRecipient {
                address: request.recipient.address,
                display_name: request.recipient.display_name,
                locale: locale.to_owned(),
            },
            template: OrganizationInvitationTemplateV1 {
                organization_id: request.template.organization_id,
                organization_name: request.template.organization_name,
                invitation_id: request.template.invitation_id,
                invitation_url: request.template.invitation_url,
                inviter_display_name: request.template.inviter_display_name,
                role_name: request.template.role_name,
                expires_at,
            },
            idempotency_key: request.idempotency_key,
            correlation_id: request.correlation_id,
            causation_id: request.causation_id,
            requested_by: request.requested_by,
        },
    )
}

/// Whether `intent` is the request of `caller`.
pub open spec fn notifies(
    intent: CreateAccessRequestNotificationIntent,
    caller: Seq<char>,
    request: CreateAccessRequestNotificationRequest,
) -> bool {
    &&& intent.source.module_id@ == caller
    &&& intent.source.entity_type@ == "access_request"@
    &&& intent.source.entity_id == request.request_id
    &&& intent.recipient.address == request.recipient.address
    &&& intent.recipient.display_name == request.recipient.display_name
    &&& intent.recipient.locale@ == access_request_locale(request.recipient.locale)
    &&& intent.template.request_id == request.request_id
    &&& intent.template.organization_id == request.organization_id
    &&& intent.template.event == event_of(request.event)
    &&& intent.template.role.role_id == request.role.role_id
    &&& intent.template.role.display_name == request.role.display_name
    &&& intent.template.scope.kind == request.scope.kind
    &&& intent.template.scope.id == request.scope.id
    &&& intent.template.scope.display_name == request.scope.display_name
    &&& match request.expires_at {
        Some(text) => intent.template.expires_at is Some && intent.template.expires_at
            == instant_of(text@),
        None => intent.template.expires_at is None,
    }
    &&& intent.idempotency_key == request.idempotency_key
    &&& intent.correlation_id == request.correlation_id
    &&& intent.causation_id == request.causation_id
    &&& intent.requested_by == request.requested_by
}

/// The intent that an access-request notification of the authenticated caller
/// becomes.
pub fn create_access_request_notification(
    caller: Option<&str>,
    allowed: &Vec<String>,
    request: CreateAccessRequestNotificationRequest,
    now: UtcTime,
) -> (r: Result<
    CreateAccessRequestNotificationIntent,
    PluginError<transactional::CreateAccessRequestNotificationError>,
>)
    ensures
        if !(caller matches Some(name) && is_among(name@, allowed@)) {
            r == Err::<CreateAccessRequestNotificationIntent, _>(
                PluginError::Domain(
                    transactional::CreateAccessRequestNotificationError::Unauthorized,
                ),
            )
        } else if !sound_access_request(request, now) {
            r == Err::<CreateAccessRequestNotificationIntent, _>(
                PluginError::Domain(
                    transactional::CreateAccessRequestNotificationError::InvalidIntent,
                ),
            )
        } else {
            r matches Ok(intent) && notifies(intent, caller->Some_0@, request) && (
            intent.template.expires_at matches Some(at) ==> at.valid())
        },
{
    let caller = match authorized_caller(caller, allowed) {
        Some(name) => name.to_owned(),
        None => {
            return Err(
                PluginError::Domain(
                    transactional::CreateAccessRequestNotificationError::Unauthorized,
                ),
            );
        },
    };
    if !valid_access_request_notification_request(&request, now) {
        return Err(
            PluginError::Domain(transactional::CreateAccessRequestNotificationError::InvalidIntent),
        );
    }
    let expires_at = match &request.expires_at {
        Some(text) => match parse_time(text.as_str()) {
            Some(at) => Some(at),
            None => {
                return Err(
                    PluginError::Domain(
                        transactional::CreateAccessRequestNotificationError::InvalidIntent,
                    ),
                );
            },
        },
        None => None,
    };
    let locale = match request.recipient.locale {
        transactional::CreateAccessRequestNotificationRequestRecipientLocale::En => "en",
        transactional::CreateAccessRequestNotificationRequestRecipientLocale::EnUS => "en-US",
    };
    Ok(
        CreateAccessRequestNotificationIntent {
            source: IntentSource {
                module_id: caller,
                entity_type: "access_request".to_owned(),
                entity_id: request.request_id.clone(),
            },
            recipient: EmailRecipient {
                address: request.recipient.address,
                display_name: request.recipient.display_name,
                locale: locale.to_owned(),
            },
            template: AccessRequestNotificationTemplateV1 {
                request_id: request.request_id,
                organization_id: request.organization_id,
                event: ledger_event(request.event),
                role: AccessRequestRoleV1 {
                    role_id: request.role.role_id,
                    display_name: request.role.display_name,
                },
                scope: AccessRequestScopeV1 {
                    kind: request.scope.kind,
                    id: request.scope.id,
                    display_name: request.scope.display_name,
                },
                expires_at,
            },
            idempotency_key: request.idempotency_key,
            correlation_id: request.correlation_id,
            causation_id: request.causation_id,
            requested_by: request.requested_by,
        },
    )
}

/// The name of the event under which an invitation observation is consumed.
pub open spec fn lifecycle_event(
    lifecycle: transactional::ObserveInvitationLifecycleRequestLifecycle,
) -> Seq<char> {
    match lifecycle {
        transactional::ObserveInvitationLifecycleRequestLifecycle::Accepted =>
            ORGANIZATION_INVITATION_ACCEPTED_EVENT@,
        transactional::ObserveInvitationLifecycleRequestLifecycle::Expired =>
            ORGANIZATION_INVITATION_EXPIRED_EVENT@,
        transactional::ObserveInvitationLifecycleRequestLifecycle::Revoked =>
            ORGANIZATION_INVITATION_REVOKED_EVENT@,
    }
}

/// Whether `event` is version 1 of the named event, observed by `source`.
pub open spec fn surrounds(
    event: ObservationEnvelope,
    id: Seq<char>,
    name: Seq<char>,
    source: Seq<char>,
    aggregate_id: Seq<char>,
    at: UtcTime,
) -> bool {
    &&& event.id@ == id
    &&& event.event_name@ == name
    &&& event.event_version == 1
    &&& event.source_module@ == source
    &&& event.aggregate_id@ == aggregate_id
    &&& event.occurred_at == at
}

/// The observation that an invitation observation of the authenticated caller
/// becomes. Its source is the caller.
pub fn observe_invitation_lifecycle(
    caller: Option<&str>,
    allowed: &Vec<String>,
    request: ObserveInvitationLifecycleRequest,
) -> (r: Result<
    (ObservationEnvelope, OrganizationInvitationLifecycle),
    PluginError<transactional::ObserveInvitationLifecycleError>,
>)
    ensures
        if !(caller matches Some(name) && is_among(name@, allowed@)) {
            r == Err::<(ObservationEnvelope, OrganizationInvitationLifecycle), _>(
                PluginError::Domain(transactional::ObserveInvitationLifecycleError::Unauthorized),
            )
        } else if !sound_lifecycle_request(request) {
            r == Err::<(ObservationEnvelope, OrganizationInvitationLifecycle), _>(
                PluginError::Domain(
                    transactional::ObserveInvitationLifecycleError::InvalidObservation,
                ),
            )
        } else {
            r matches Ok((event, payload)) && Some(payload.observed_at) == instant_of(
                request.observed_at@,
            ) && payload.observed_at.valid() && payload.invitation_id == request.invitation_id
                && payload.organization_id == request.organization_id && surrounds(
                event,
                request.observation_id@,
                lifecycle_event(request.lifecycle),
                caller->Some_0@,
                request.invitation_id@,
                payload.observed_at,
            )
        },
{
    let caller = match authorized_caller(caller, allowed) {
        Some(name) => name.to_owned(),
        None => {
            return Err(
                PluginError::Domain(transactional::ObserveInvitationLifecycleError::Unauthorized),
            );
        },
    };
    if !valid_lifecycle_request(&request) {
        return Err(
            PluginError::Domain(transactional::ObserveInvitationLifecycleError::InvalidObservation),
        );
    }
    let observed_at = match parse_time(request.observed_at.as_str()) {
        Some(at) => at,
        None => {
            return Err(
                PluginError::Domain(
                    transactional::ObserveInvitationLifecycleError::InvalidObservation,
                ),
            );
        },
    };
    let event_name = match request.lifecycle {
        transactional::ObserveInvitationLifecycleRequestLifecycle::Accepted => {
            ORGANIZATION_INVITATION_ACCEPTED_EVENT
        },
        transactional::ObserveInvitationLifecycleRequestLifecycle::Expired => {
            ORGANIZATION_INVITATION_EXPIRED_EVENT
        },
        transactional::ObserveInvitationLifecycleRequestLifecycle::Revoked => {
            ORGANIZATION_INVITATION_REVOKED_EVENT
        },
    };
    Ok(
        (
            ObservationEnvelope {
                id: request.observation_id,
                event_name: event_name.to_owned(),
                event_version: 1,
                source_module: caller,
                aggregate_id: request.invitation_id.clone(),
                occurred_at: observed_at,
            },
            OrganizationInvitationLifecycle {
                invitation_id: request.invitation_id,
                organization_id: request.organization_id,
                observed_at,
            },
        ),
    )
}

/// The receipt kind of the ledger that a requested kind is.
pub open spec fn kind_of(kind: delivery::ObserveReceiptRequestKind) -> ReceiptKind {
    match kind {
        delivery::ObserveReceiptRequestKind::Delivered => ReceiptKind::Delivered,
        delivery::ObserveReceiptRequestKind::Bounced => ReceiptKind::Bounced,
        delivery::ObserveReceiptRequestKind::Rejected => ReceiptKind::Rejected,
    }
}

/// The receipt that `caller` observed. Its source is the caller.
pub fn receipt_observation(
    caller: String,
    request: &delivery::ObserveReceiptRequest,
    kind: ReceiptKind,
    observed_at: UtcTime,
) -> (r: EmailReceiptObserved)
    ensures
        r.delivery_id == request.delivery_id,
        r.attempt_id == request.attempt_id,
        r.function_run_id == request.run_id,
        r.kind == kind,
        r.source == caller,
        r.observed_at == observed_at,
        r.remote_id == request.remote_id,
        r.digest == request.digest,
{
    EmailReceiptObserved {
        delivery_id: request.delivery_id.clone(),
        attempt_id: request.attempt_id.clone(),
        function_run_id: request.run_id.clone(),
        kind,
        source: caller,
        observed_at,
        remote_id: request.remote_id.clone(),
        digest: request.digest.clone(),
    }
}

/// The observation that a receipt of the authenticated caller becomes. Its
/// source is the caller.
pub fn observe_receipt(
    caller: Option<&str>,
    allowed: &Vec<String>,
    request: delivery::ObserveReceiptRequest,
) -> (r: Result<
    (ObservationEnvelope, EmailReceiptObserved),
    PluginError<delivery::ObserveReceiptError>,
>)
    ensures
        if !(caller matches Some(name) && is_among(name@, allowed@)) {
            r == Err::<(ObservationEnvelope, EmailReceiptObserved), _>(
                PluginError::Domain(delivery::ObserveReceiptError::Unauthorized),
            )
        } else if !sound_receipt_request(request) {
            r == Err::<(ObservationEnvelope, EmailReceiptObserved), _>(
                PluginError::Domain(delivery::ObserveReceiptError::InvalidReceipt),
            )
        } else {
            r matches Ok((event, payload)) && Some(payload.observed_at) == instant_of(
                request.observed_at@,
            ) && payload.observed_at.valid() && payload.delivery_id == request.delivery_id
                && payload.attempt_id == request.attempt_id && payload.function_run_id
                == request.run_id && payload.kind == kind_of(request.kind) && payload.source@
                == caller->Some_0@ && payload.remote_id == request.remote_id && payload.digest
                == request.digest && surrounds(
                event,
                request.observation_id@,
                EMAIL_RECEIPT_OBSERVED_EVENT@,
                caller->Some_0@,
                request.delivery_id@,
                payload.observed_at,
            )
        },
{
    let caller = match authorized_caller(caller, allowed) {
        Some(name) => name.to_owned(),
        None => {
            return Err(PluginError::Domain(delivery::ObserveReceiptError::Unauthorized));
        },
    };
    if !valid_receipt_request(&request) {
        return Err(PluginError::Domain(delivery::ObserveReceiptError::InvalidReceipt));
    }
    let observed_at = match parse_time(request.observed_at.as_str()) {
        Some(at) => at,
        None => {
            return Err(PluginError::Domain(delivery::ObserveReceiptError::InvalidReceipt));
        },
    };
    let kind = match request.kind {
        delivery::ObserveReceiptRequestKind::Delivered => ReceiptKind::Delivered,
        delivery::ObserveReceiptRequestKind::Bounced => ReceiptKind::Bounced,
        delivery::ObserveReceiptRequestKind::Rejected => ReceiptKind::Rejected,
    };
    let payload = receipt_observation(caller.clone(), &request, kind, observed_at);
    Ok(
        (
            ObservationEnvelope {
                id: request.observation_id,
                event_name: EMAIL_RECEIPT_OBSERVED_EVENT.to_owned(),
                event_version: 1,
                source_module: caller,
                aggregate_id: request.delivery_id,
                occurred_at: observed_at,
            },
            payload,
        ),
    )
}

/// Admits the worker that asks for due work.
pub fn dispatch_due(caller: Option<&str>, allowed: &Vec<String>) -> (r: Result<
    (),
    PluginError<delivery::DispatchDueError>,
>)
    ensures
        if caller matches Some(name) && is_among(name@, allowed@) {
            r is Ok
        } else {
            r == Err::<(), _>(PluginError::Domain(delivery::DispatchDueError::Unauthorized))
        },
{
    if authorized(caller, allowed) {
        Ok(())
    } else {
        Err(PluginError::Domain(delivery::DispatchDueError::Unauthorized))
    }
}

/// A page to read from the ledger.
#[derive(Debug)]
pub struct PageQuery {
    /// How many records the page shows at most.
    pub limit: i64,
    /// How many rows to read: one more, to see whether there are more.
    pub fetch: i64,
    pub cursor: Option<String>,
    pub status: Option<admin::DeliveryStatus>,
}

/// The page that an administrator asks for.
pub fn list_deliveries(
    caller: Option<&str>,
    allowed: &Vec<String>,
    request: admin::ListDeliveriesRequest,
) -> (r: Result<PageQuery, PluginError<admin::ListDeliveriesError>>)
    ensures
        if !(caller matches Some(name) && is_among(name@, allowed@)) {
            r == Err::<PageQuery, _>(PluginError::Domain(admin::ListDeliveriesError::Unauthorized))
        } else if !sound_list_request(request) {
            r == Err::<PageQuery, _>(PluginError::Domain(admin::ListDeliveriesError::InvalidFilter))
        } else {
            r matches Ok(query) && query.limit == (match request.limit {
                Some(limit) => limit,
                None => 100,
            }) && 1 <= query.limit <= 200 && query.fetch == query.limit + 1 && query.cursor
                == request.cursor && query.status == request.status
        },
{
    if !authorized(caller, allowed) {
        return Err(PluginError::Domain(admin::ListDeliveriesError::Unauthorized));
    }
    if !valid_list_request(&request) {
        return Err(PluginError::Domain(admin::ListDeliveriesError::InvalidFilter));
    }
    let limit: i64 = match request.limit {
        Some(limit) => limit,
        None => 100,
    };
    Ok(PageQuery { limit, fetch: limit + 1, cursor: request.cursor, status: request.status })
}

/// Admits an administrator's request for one delivery.
pub fn get_delivery(
    caller: Option<&str>,
    allowed: &Vec<String>,
    request: &admin::GetDeliveryRequest,
) -> (r: Result<(), PluginError<admin::GetDeliveryError>>)
    ensures
        if !(caller matches Some(name) && is_among(name@, allowed@)) {
            r == Err::<(), _>(PluginError::Domain(admin::GetDeliveryError::Unauthorized))
        } else if !within(request.delivery_id@, 1, 160) {
            r == Err::<(), _>(PluginError::Domain(admin::GetDeliveryError::InvalidRequest))
        } else {
            r is Ok
        },
{
    if !authorized(caller, allowed) {
        return Err(PluginError::Domain(admin::GetDeliveryError::Unauthorized));
    }
    if !required_bounded(request.delivery_id.as_str(), 1, 160) {
        return Err(PluginError::Domain(admin::GetDeliveryError::InvalidRequest));
    }
    Ok(())
}

/// Admits an administrator's retry; what comes back is who requested it. A
/// revision that cannot be raised any more is not retried.
pub fn retry_delivery(
    caller: Option<&str>,
    allowed: &Vec<String>,
    request: &admin::RetryDeliveryRequest,
) -> (r: Result<String, PluginError<admin::RetryDeliveryError>>)
    ensures
        if !(caller matches Some(name) && is_among(name@, allowed@)) {
            r == Err::<String, _>(PluginError::Domain(admin::RetryDeliveryError::Unauthorized))
        } else if !sound_retry_request(*request) {
            r == Err::<String, _>(PluginError::Domain(admin::RetryDeliveryError::InvalidRequest))
        } else if request.revision == MAX_SAFE_WIRE_INTEGER {
            r == Err::<String, _>(PluginError::Domain(admin::RetryDeliveryError::RetryNotAllowed))
        } else {
            r matches Ok(by) && by@ == caller->Some_0@
        },
{
    let caller = match authorized_caller(caller, allowed) {
        Some(name) => name.to_owned(),
        None => {
            return Err(PluginError::Domain(admin::RetryDeliveryError::Unauthorized));
        },
    };
    if !valid_retry_request(request) {
        return Err(PluginError::Domain(admin::RetryDeliveryError::InvalidRequest));
    }
    if request.revision == MAX_SAFE_WIRE_INTEGER {
        return Err(PluginError::Domain(admin::RetryDeliveryError::RetryNotAllowed));
    }
    Ok(caller)
}

/// An instance key is a text that ledger sources can hold.
pub proof fn lemma_instance_key_is_bounded(key: Seq<char>)
    requires
        instance_key(key),
    ensures
        within(key, 1, 160),
{
    assert(instance_char(key[0]));
    assert(!blank(key));
    assert(is_ascii_chars(key)) by {
        assert forall|i: int| 0 <= i < key.len() implies (0 <= #[trigger] key[i] < 128) by {
            assert(instance_char(key[i]));
        }
    }
    is_ascii_chars_encode_utf8(key);
}

/// What an authorized caller requests soundly is accepted by the ledger: the
/// checks at the boundary imply those of the intent.
pub proof fn law_sound_invitation_is_accepted(
    intent: CreateTransactionalEmailIntent,
    caller: Seq<char>,
    request: CreateOrganizationInvitationRequest,
    now: UtcTime,
)
    requires
        instance_key(caller),
        sound_create_request(request, now),
        invites(intent, caller, request),
    ensures
        first_fault(invitation_faults(intent, now)) is None,
{
    lemma_instance_key_is_bounded(caller);
    lemma_locales_are_bounded();
    crate::faults::lemma_no_fault(invitation_faults(intent, now));
}

proof fn lemma_locales_are_bounded()
    ensures
        within("en"@, 2, 32),
        within("en-US"@, 2, 32),
{
    reveal_strlit("en");
    reveal_strlit("en-US");
    assert(!crate::text::white_space("en"@[0]));
    assert(!crate::text::white_space("en-US"@[0]));
}

/// What an authorized caller requests soundly is accepted by the ledger: the
/// checks at the boundary imply those of the intent.
pub proof fn law_sound_access_request_is_accepted(
    intent: CreateAccessRequestNotificationIntent,
    caller: Seq<char>,
    request: CreateAccessRequestNotificationRequest,
    now: UtcTime,
)
    requires
        instance_key(caller),
        sound_access_request(request, now),
        notifies(intent, caller, request),
    ensures
        first_fault(access_request_faults(intent, now)) is None,
{
    lemma_instance_key_is_bounded(caller);
    lemma_locales_are_bounded();
    reveal_strlit("access_request");
    assert(!crate::text::white_space("access_request"@[0]));
    reveal_strlit("access-request:");
    reveal_strlit(":");
    reveal_strlit("submitted");
    reveal_strlit("approved");
    reveal_strlit("denied");
    reveal_strlit("expiring");
    let key = request.idempotency_key@;
    assert(key[0] == 'a');
    assert(!crate::text::white_space(key[0]));
    assert(within(key, 1, 240));
    crate::faults::lemma_no_fault(access_request_faults(intent, now));
}

/// What an authorized observer reports soundly is admitted: its receipt names
/// the source of its envelope.
pub proof fn law_sound_receipt_is_admitted(
    event: ObservationEnvelope,
    payload: EmailReceiptObserved,
    caller: Seq<char>,
    request: delivery::ObserveReceiptRequest,
)
    requires
        instance_key(caller),
        sound_receipt_request(request),
        payload.digest == request.digest,
        payload.remote_id == request.remote_id,
        payload.source@ == caller,
        event.source_module@ == caller,
    ensures
        first_fault(
            crate::events::receipt_faults(payload).push(
                crate::events::source_fault(event.source_module@, payload.source@),
            ),
        ) is None,
{
    lemma_instance_key_is_bounded(caller);
    crate::faults::lemma_no_fault(
        crate::events::receipt_faults(payload).push(
            crate::events::source_fault(event.source_module@, payload.source@),
        ),
    );
}

} // verus!
