//! Requests at the boundary: who is heard, what is accepted, and what becomes
//! of it.

use vstd::prelude::*;

use crate::admin;
use crate::config::instance_key;
use crate::contracts::{EmailReceiptObserved, OrganizationInvitationLifecycle, ReceiptKind};
use crate::delivery;
use crate::error::{NotificationError, PluginError};
use crate::events::ObservationEnvelope;
use crate::laws::{absent_or_short, begins, denotes, digit_of_sixteen, filled, later, later_text,
    listed, sha256_text};
use crate::public::{access_request_faults, access_request_key, invitation_faults,
    validate_access_request, validate_invitation_request, AccessRequestNotificationEvent,
    CreateAccessRequestNotificationIntent, CreateTransactionalEmailIntent, IntentSource};
use crate::requests::{create_access_request_notification, create_organization_invitation,
    dispatch_due, get_delivery, intent_source, lemma_instance_key_is_bounded, list_deliveries,
    observe_invitation_lifecycle, observe_receipt, receipt_observation, retry_delivery,
    valid_access_request_notification_request, valid_create_request, valid_lifecycle_request,
    valid_list_request, valid_receipt_request, valid_retry_request, PageQuery};
use crate::text::{blank, stands_at, white_space};
use crate::time::{instant_of, UtcTime};
use crate::transactional::{CreateAccessRequestNotificationError,
    CreateAccessRequestNotificationRequest, CreateAccessRequestNotificationRequestEvent,
    CreateOrganizationInvitationError, CreateOrganizationInvitationRequest,
    CreateOrganizationInvitationRequestSource, ObserveInvitationLifecycleError,
    ObserveInvitationLifecycleRequest};

verus! {

/// A filled text is one within its bounds.
pub(crate) proof fn lemma_filled(text: Seq<char>, least: nat, most: nat)
    ensures
        filled(text, least, most) <==> crate::text::within(text, least, most),
{
    if !blank(text) {
        let i = choose|i: int| 0 <= i < text.len() && !white_space(#[trigger] text[i]);
        assert(!white_space(text[i]));
    }
}

/// Every field of an accepted invitation is the field of the same name of the
/// request, its source module is the caller, and its expiry is the instant
/// that the request's expiry denotes.
pub proof fn law_invitation_keeps_every_field(
    caller: Option<&str>,
    allowed: &Vec<String>,
    request: CreateOrganizationInvitationRequest,
    now: UtcTime,
    r: Result<CreateTransactionalEmailIntent, PluginError<CreateOrganizationInvitationError>>,
)
    requires
        call_ensures(create_organization_invitation, (caller, allowed, request, now), r),
        r is Ok,
    ensures
        r->Ok_0.source.module_id@ == caller->Some_0@,
        r->Ok_0.source.entity_type@ == request.source.entity_type@,
        r->Ok_0.source.entity_id@ == request.source.entity_id@,
        r->Ok_0.recipient.address@ == request.recipient.address@,
        r->Ok_0.recipient.display_name == request.recipient.display_name,
        request.recipient.locale is En ==> r->Ok_0.recipient.locale@ == "en"@,
        request.recipient.locale is EnUS ==> r->Ok_0.recipient.locale@ == "en-US"@,
        r->Ok_0.template.organization_id@ == request.template.organization_id@,
        r->Ok_0.template.organization_name@ == request.template.organization_name@,
        r->Ok_0.template.invitation_id@ == request.template.invitation_id@,
        r->Ok_0.template.invitation_url@ == request.template.invitation_url@,
        r->Ok_0.template.inviter_display_name == request.template.inviter_display_name,
        r->Ok_0.template.role_name == request.template.role_name,
        denotes(request.template.expires_at@, r->Ok_0.template.expires_at),
        r->Ok_0.idempotency_key@ == request.idempotency_key@,
        r->Ok_0.correlation_id@ == request.correlation_id@,
        r->Ok_0.causation_id == request.causation_id,
        r->Ok_0.requested_by == request.requested_by,
{
}

/// Two accepted invitations become the same intent only where their requests
/// agree in every field and come from the same caller: a difference in any one
/// field, such as the name of the organization, shows in the intent.
pub proof fn law_different_invitations_stay_different(
    caller_a: Option<&str>,
    allowed_a: &Vec<String>,
    request_a: CreateOrganizationInvitationRequest,
    now_a: UtcTime,
    intent_a: CreateTransactionalEmailIntent,
    caller_b: Option<&str>,
    allowed_b: &Vec<String>,
    request_b: CreateOrganizationInvitationRequest,
    now_b: UtcTime,
    intent_b: CreateTransactionalEmailIntent,
)
    requires
        call_ensures(
            create_organization_invitation,
            (caller_a, allowed_a, request_a, now_a),
            Ok::<_, PluginError<CreateOrganizationInvitationError>>(intent_a),
        ),
        call_ensures(
            create_organization_invitation,
            (caller_b, allowed_b, request_b, now_b),
            Ok::<_, PluginError<CreateOrganizationInvitationError>>(intent_b),
        ),
    ensures
        request_a.template.organization_name@ != request_b.template.organization_name@
            ==> intent_a.template.organization_name@ != intent_b.template.organization_name@,
        intent_a == intent_b ==> {
            &&& caller_a->Some_0@ == caller_b->Some_0@
            &&& request_a.source == request_b.source
            &&& request_a.recipient == request_b.recipient
            &&& request_a.template.organization_id == request_b.template.organization_id
            &&& request_a.template.organization_name == request_b.template.organization_name
            &&& request_a.template.invitation_id == request_b.template.invitation_id
            &&& request_a.template.invitation_url == request_b.template.invitation_url
            &&& request_a.template.inviter_display_name == request_b.template.inviter_display_name
            &&& request_a.template.role_name == request_b.template.role_name
            &&& instant_of(request_a.template.expires_at@) == instant_of(
                request_b.template.expires_at@,
            )
            &&& request_a.idempotency_key == request_b.idempotency_key
            &&& request_a.correlation_id == request_b.correlation_id
            &&& request_a.causation_id == request_b.causation_id
            &&& request_a.requested_by == request_b.requested_by
        },
{
    reveal_strlit("en");
    reveal_strlit("en-US");
    assert("en"@.len() != "en-US"@.len());
    if intent_a == intent_b {
        assert(request_a.recipient.locale == request_b.recipient.locale);
        assert(request_a.recipient == request_b.recipient);
        assert(request_a.source == request_b.source);
    }
}

/// Who invites must be listed, and what is requested must be addressed, linked
/// safely, named consistently, bounded and not yet expired. Nobody else is
/// turned away as unauthorized, nothing else is called invalid, and whatever
/// keeps these bounds is accepted.
pub proof fn law_invitation_is_accepted_within_its_bounds(
    caller: Option<&str>,
    allowed: &Vec<String>,
    request: CreateOrganizationInvitationRequest,
    now: UtcTime,
    r: Result<CreateTransactionalEmailIntent, PluginError<CreateOrganizationInvitationError>>,
)
    requires
        call_ensures(create_organization_invitation, (caller, allowed, request, now), r),
    ensures
        !listed(caller, allowed@) <==> r == Err::<CreateTransactionalEmailIntent, _>(
            PluginError::Domain(CreateOrganizationInvitationError::Unauthorized),
        ),
        r is Ok <==> {
            &&& listed(caller, allowed@)
            &&& request.source.entity_type@ == "organization_invitation"@
            &&& request.source.entity_id@ == request.template.invitation_id@
            &&& filled(request.template.invitation_id@, 1, 240)
            &&& filled(request.recipient.address@, 3, 320)
            &&& exists|i: int|
                0 <= i < request.recipient.address@.len() && request.recipient.address@[i] == '@'
            &&& absent_or_short(request.recipient.display_name, 240)
            &&& filled(request.template.organization_id@, 1, 240)
            &&& filled(request.template.organization_name@, 1, 240)
            &&& filled(request.template.invitation_url@, 1, 4_096)
            &&& begins(request.template.invitation_url@, "https://"@) || begins(
                request.template.invitation_url@,
                "http://localhost"@,
            )
            &&& absent_or_short(request.template.inviter_display_name, 240)
            &&& absent_or_short(request.template.role_name, 160)
            &&& later_text(request.template.expires_at@, now)
            &&& filled(request.idempotency_key@, 1, 240)
            &&& filled(request.correlation_id@, 1, 240)
            &&& absent_or_short(request.causation_id, 240)
            &&& absent_or_short(request.requested_by, 240)
        },
        r is Err && listed(caller, allowed@) ==> r == Err::<CreateTransactionalEmailIntent, _>(
            PluginError::Domain(CreateOrganizationInvitationError::InvalidIntent),
        ),
{
    lemma_listed(caller, allowed@);
    lemma_filled(request.source.entity_type@, 1, 160);
    lemma_filled(request.source.entity_id@, 1, 240);
    lemma_filled(request.template.invitation_id@, 1, 240);
    lemma_filled(request.recipient.address@, 3, 320);
    lemma_filled(request.template.organization_id@, 1, 240);
    lemma_filled(request.template.organization_name@, 1, 240);
    lemma_filled(request.template.invitation_url@, 1, 4_096);
    lemma_filled(request.template.expires_at@, 1, 64);
    lemma_filled(request.idempotency_key@, 1, 240);
    lemma_filled(request.correlation_id@, 1, 240);
    let url = request.template.invitation_url@;
    lemma_begins(url, "https://"@);
    lemma_begins(url, "http://localhost"@);
    reveal_strlit("organization_invitation");
    assert(!white_space("organization_invitation"@[0]));
}

/// The text of a digest is the name of the hash and its digits.
pub(crate) proof fn lemma_sha256_text(text: Seq<char>)
    ensures
        sha256_text(text) <==> crate::digest::valid_digest_text(text),
{
    reveal_strlit("sha256:");
    lemma_begins(text, "sha256:"@);
    if crate::digest::valid_digest_text(text) {
        assert forall|i: int| 7 <= i < 71 implies digit_of_sixteen(#[trigger] text[i]) by {
            assert(text.skip(7)[i - 7] == text[i]);
        }
    }
}

/// A listed caller is among the allowed ones.
pub(crate) proof fn lemma_listed(caller: Option<&str>, allowed: Seq<String>)
    ensures
        listed(caller, allowed) <==> (caller matches Some(name) && crate::config::is_among(
            name@,
            allowed,
        )),
{
}

/// A text begins with what stands at its start.
pub(crate) proof fn lemma_begins(text: Seq<char>, part: Seq<char>)
    ensures
        begins(text, part) <==> stands_at(text, part, 0),
{
    if part.len() <= text.len() {
        assert(text.take(part.len() as int) =~= text.subrange(0, part.len() as int));
    }
}

/// Whether two events of an access request are the same.
pub open spec fn same_event(
    requested: CreateAccessRequestNotificationRequestEvent,
    told: AccessRequestNotificationEvent,
) -> bool {
    &&& requested is Submitted <==> told is Submitted
    &&& requested is Approved <==> told is Approved
    &&& requested is Denied <==> told is Denied
    &&& requested is Expiring <==> told is Expiring
}

/// The word that an event of an access request goes by.
pub open spec fn event_word(event: CreateAccessRequestNotificationRequestEvent) -> Seq<char> {
    if event is Submitted {
        "submitted"@
    } else if event is Approved {
        "approved"@
    } else if event is Denied {
        "denied"@
    } else {
        "expiring"@
    }
}

/// Whether `intent` says of the access request what `request` says, field by
/// field, in the name of `caller`.
pub open spec fn says_the_same(
    intent: CreateAccessRequestNotificationIntent,
    caller: Seq<char>,
    request: CreateAccessRequestNotificationRequest,
) -> bool {
    &&& intent.source.module_id@ == caller
    &&& intent.source.entity_type@ == "access_request"@
    &&& intent.source.entity_id@ == request.request_id@
    &&& intent.recipient.address@ == request.recipient.address@
    &&& intent.recipient.display_name == request.recipient.display_name
    &&& request.recipient.locale is En ==> intent.recipient.locale@ == "en"@
    &&& request.recipient.locale is EnUS ==> intent.recipient.locale@ == "en-US"@
    &&& intent.template.request_id@ == request.request_id@
    &&& intent.template.organization_id@ == request.organization_id@
    &&& same_event(request.event, intent.template.event)
    &&& intent.template.role.role_id@ == request.role.role_id@
    &&& intent.template.role.display_name == request.role.display_name
    &&& intent.template.scope.kind@ == request.scope.kind@
    &&& intent.template.scope.id@ == request.scope.id@
    &&& intent.template.scope.display_name == request.scope.display_name
    &&& intent.template.expires_at is Some <==> request.expires_at is Some
    &&& request.expires_at is Some ==> denotes(
        request.expires_at->Some_0@,
        intent.template.expires_at->Some_0,
    )
    &&& intent.idempotency_key@ == request.idempotency_key@
    &&& intent.correlation_id@ == request.correlation_id@
    &&& intent.causation_id == request.causation_id
    &&& intent.requested_by == request.requested_by
}

/// Every field of an accepted access-request notification is the field of the
/// same name of the request, and its event is the requested one.
pub proof fn law_access_request_keeps_every_field(
    caller: Option<&str>,
    allowed: &Vec<String>,
    request: CreateAccessRequestNotificationRequest,
    now: UtcTime,
    r: Result<
        CreateAccessRequestNotificationIntent,
        PluginError<CreateAccessRequestNotificationError>,
    >,
)
    requires
        call_ensures(create_access_request_notification, (caller, allowed, request, now), r),
        r is Ok,
    ensures
        says_the_same(r->Ok_0, caller->Some_0@, request),
{
}

/// Two accepted access-request notifications become the same intent only where
/// their requests agree in every field and come from the same caller.
pub proof fn law_different_access_requests_stay_different(
    caller_a: Option<&str>,
    allowed_a: &Vec<String>,
    request_a: CreateAccessRequestNotificationRequest,
    now_a: UtcTime,
    intent_a: CreateAccessRequestNotificationIntent,
    caller_b: Option<&str>,
    allowed_b: &Vec<String>,
    request_b: CreateAccessRequestNotificationRequest,
    now_b: UtcTime,
    intent_b: CreateAccessRequestNotificationIntent,
)
    requires
        call_ensures(
            create_access_request_notification,
            (caller_a, allowed_a, request_a, now_a),
            Ok::<_, PluginError<CreateAccessRequestNotificationError>>(intent_a),
        ),
        call_ensures(
            create_access_request_notification,
            (caller_b, allowed_b, request_b, now_b),
            Ok::<_, PluginError<CreateAccessRequestNotificationError>>(intent_b),
        ),
        intent_a == intent_b,
    ensures
        caller_a->Some_0@ == caller_b->Some_0@,
        request_a.request_id == request_b.request_id,
        request_a.organization_id == request_b.organization_id,
        request_a.event == request_b.event,
        request_a.recipient == request_b.recipient,
        request_a.role == request_b.role,
        request_a.scope == request_b.scope,
        request_a.expires_at is Some <==> request_b.expires_at is Some,
        request_a.expires_at is Some ==> instant_of(request_a.expires_at->Some_0@) == instant_of(
            request_b.expires_at->Some_0@,
        ),
        request_a.idempotency_key == request_b.idempotency_key,
        request_a.correlation_id == request_b.correlation_id,
        request_a.causation_id == request_b.causation_id,
        request_a.requested_by == request_b.requested_by,
{
    reveal_strlit("en");
    reveal_strlit("en-US");
    assert("en"@.len() != "en-US"@.len());
    assert(request_a.recipient.locale == request_b.recipient.locale);
    assert(request_a.recipient == request_b.recipient);
    assert(request_a.role == request_b.role);
    assert(request_a.scope == request_b.scope);
}

/// An access-request notification is accepted from a listed caller where every
/// text keeps its bounds, the key is the one of its request and event, and the
/// expiry suits the event: required and still to come for an expiring request,
/// absent for a denied one, and otherwise absent or still to come. Nothing else
/// is refused.
pub proof fn law_access_request_is_accepted_within_its_bounds(
    caller: Option<&str>,
    allowed: &Vec<String>,
    request: CreateAccessRequestNotificationRequest,
    now: UtcTime,
    r: Result<
        CreateAccessRequestNotificationIntent,
        PluginError<CreateAccessRequestNotificationError>,
    >,
)
    requires
        call_ensures(create_access_request_notification, (caller, allowed, request, now), r),
    ensures
        !listed(caller, allowed@) <==> r == Err::<CreateAccessRequestNotificationIntent, _>(
            PluginError::Domain(CreateAccessRequestNotificationError::Unauthorized),
        ),
        r is Ok <==> {
            &&& listed(caller, allowed@)
            &&& filled(request.request_id@, 1, 160)
            &&& filled(request.organization_id@, 1, 240)
            &&& filled(request.recipient.address@, 3, 320)
            &&& exists|i: int|
                0 <= i < request.recipient.address@.len() && request.recipient.address@[i] == '@'
            &&& absent_or_short(request.recipient.display_name, 240)
            &&& filled(request.role.role_id@, 1, 160)
            &&& absent_or_short(request.role.display_name, 160)
            &&& filled(request.scope.kind@, 1, 160)
            &&& filled(request.scope.id@, 1, 240)
            &&& absent_or_short(request.scope.display_name, 240)
            &&& request.event is Expiring ==> request.expires_at is Some
            &&& request.event is Denied ==> request.expires_at is None
            &&& request.expires_at is Some ==> later_text(request.expires_at->Some_0@, now)
            &&& request.idempotency_key@ == "access-request:"@ + request.request_id@ + ":"@
                + event_word(request.event)
            &&& filled(request.correlation_id@, 1, 240)
            &&& absent_or_short(request.causation_id, 240)
            &&& absent_or_short(request.requested_by, 240)
        },
        r is Err && listed(caller, allowed@) ==> r == Err::<
            CreateAccessRequestNotificationIntent,
            _,
        >(PluginError::Domain(CreateAccessRequestNotificationError::InvalidIntent)),
{
    lemma_listed(caller, allowed@);
    lemma_filled(request.request_id@, 1, 160);
    lemma_filled(request.organization_id@, 1, 240);
    lemma_filled(request.recipient.address@, 3, 320);
    lemma_filled(request.role.role_id@, 1, 160);
    lemma_filled(request.scope.kind@, 1, 160);
    lemma_filled(request.scope.id@, 1, 240);
    lemma_filled(request.correlation_id@, 1, 240);
    if request.expires_at is Some {
        lemma_filled(request.expires_at->Some_0@, 1, 64);
    }
}

/// The boundary refuses nothing that the ledger accepts, and accepts nothing
/// that the ledger refuses: a listed caller's request is accepted exactly where
/// the ledger finds no fault in the intent that says the same.
pub proof fn law_boundary_and_ledger_agree_on_access_requests(
    caller: Option<&str>,
    allowed: &Vec<String>,
    request: CreateAccessRequestNotificationRequest,
    now: UtcTime,
    r: Result<
        CreateAccessRequestNotificationIntent,
        PluginError<CreateAccessRequestNotificationError>,
    >,
    intent: &CreateAccessRequestNotificationIntent,
    ledger: Result<(), NotificationError>,
)
    requires
        call_ensures(create_access_request_notification, (caller, allowed, request, now), r),
        listed(caller, allowed@),
        instance_key(caller->Some_0@),
        says_the_same(*intent, caller->Some_0@, request),
        request.expires_at is Some ==> filled(request.expires_at->Some_0@, 1, 64),
        call_ensures(validate_access_request, (intent, now), ledger),
    ensures
        r is Ok <==> ledger is Ok,
{
    let faults = access_request_faults(*intent, now);
    lemma_listed(caller, allowed@);
    lemma_instance_key_is_bounded(caller->Some_0@);
    reveal_strlit("en");
    reveal_strlit("en-US");
    assert(!white_space("en"@[0]));
    assert(!white_space("en-US"@[0]));
    reveal_strlit("access_request");
    assert(!white_space("access_request"@[0]));
    assert(access_request_key(request.request_id@, intent.template.event) == access_request_key(
        request.request_id@,
        crate::requests::event_of(request.event),
    ));
    if request.expires_at is Some {
        lemma_filled(request.expires_at->Some_0@, 1, 64);
        assert(instant_of(request.expires_at->Some_0@) == intent.template.expires_at);
    }
    if ledger is Ok {
        crate::faults::lemma_every_fault_is_found(faults);
        assert(faults[5] is None);
        assert(faults[6] is None);
        assert(faults[3] is None);
        assert(faults[7] is None);
        assert(faults[8] is None);
        assert(faults[9] is None);
        assert(faults[11] is None);
        assert(faults[12] is None);
        assert(faults[13] is None);
        assert(faults[14] is None);
        assert(faults[15] is None);
        assert(faults[16] is None);
        assert(faults[17] is None);
        assert(faults[20] is None);
        assert(faults[21] is None);
        assert(r is Ok);
    } else {
        if r is Ok {
            reveal_strlit("access-request:");
            reveal_strlit(":");
            reveal_strlit("submitted");
            reveal_strlit("approved");
            reveal_strlit("denied");
            reveal_strlit("expiring");
            assert(request.idempotency_key@[0] == 'a');
            assert(!white_space(request.idempotency_key@[0]));
            assert(request.idempotency_key@.len() <= 240);
            crate::faults::lemma_no_fault(faults);
        }
    }
}

/// The boundary refuses no invitation that the ledger accepts, and accepts
/// none that the ledger refuses: a listed caller's request is accepted exactly
/// where the ledger finds no fault in the intent that says the same.
pub proof fn law_boundary_and_ledger_agree_on_invitations(
    caller: Option<&str>,
    allowed: &Vec<String>,
    request: CreateOrganizationInvitationRequest,
    now: UtcTime,
    r: Result<CreateTransactionalEmailIntent, PluginError<CreateOrganizationInvitationError>>,
    intent: &CreateTransactionalEmailIntent,
    ledger: Result<(), NotificationError>,
)
    requires
        call_ensures(create_organization_invitation, (caller, allowed, request, now), r),
        listed(caller, allowed@),
        instance_key(caller->Some_0@),
        intent.source.module_id@ == caller->Some_0@,
        intent.source.entity_type@ == request.source.entity_type@,
        intent.source.entity_id@ == request.source.entity_id@,
        intent.recipient.address@ == request.recipient.address@,
        intent.recipient.display_name == request.recipient.display_name,
        intent.recipient.locale@ == (if request.recipient.locale is En {
            "en"@
        } else {
            "en-US"@
        }),
        intent.template.organization_id@ == request.template.organization_id@,
        intent.template.organization_name@ == request.template.organization_name@,
        intent.template.invitation_id@ == request.template.invitation_id@,
        intent.template.invitation_url@ == request.template.invitation_url@,
        intent.template.inviter_display_name == request.template.inviter_display_name,
        intent.template.role_name == request.template.role_name,
        filled(request.template.expires_at@, 1, 64),
        denotes(request.template.expires_at@, intent.template.expires_at),
        intent.idempotency_key@ == request.idempotency_key@,
        intent.correlation_id@ == request.correlation_id@,
        intent.causation_id == request.causation_id,
        intent.requested_by == request.requested_by,
        call_ensures(validate_invitation_request, (intent, now), ledger),
    ensures
        r is Ok <==> ledger is Ok,
{
    let faults = invitation_faults(*intent, now);
    lemma_listed(caller, allowed@);
    lemma_instance_key_is_bounded(caller->Some_0@);
    lemma_filled(request.template.expires_at@, 1, 64);
    reveal_strlit("en");
    reveal_strlit("en-US");
    assert(!white_space("en"@[0]));
    assert(!white_space("en-US"@[0]));
    assert(instant_of(request.template.expires_at@) == Some(intent.template.expires_at));
    if ledger is Ok {
        crate::faults::lemma_every_fault_is_found(faults);
        assert(faults[1] is None);
        assert(faults[2] is None);
        assert(faults[3] is None);
        assert(faults[5] is None);
        assert(faults[6] is None);
        assert(faults[7] is None);
        assert(faults[8] is None);
        assert(faults[9] is None);
        assert(faults[10] is None);
        assert(faults[11] is None);
        assert(faults[12] is None);
        assert(faults[13] is None);
        assert(faults[14] is None);
        assert(faults[15] is None);
        assert(faults[16] is None);
        assert(faults[18] is None);
        assert(faults[19] is None);
        assert(faults[20] is None);
        assert(r is Ok);
    } else if r is Ok {
        crate::faults::lemma_no_fault(faults);
    }
}

/// An invitation observation is taken from a listed caller where its texts keep
/// their bounds. What is recorded names the caller as its source, the
/// observation, the invitation and the organization of the request, and an
/// accepted, expired or revoked invitation is recorded as just that.
pub proof fn law_invitation_observation_is_recorded_as_reported(
    caller: Option<&str>,
    allowed: &Vec<String>,
    request: ObserveInvitationLifecycleRequest,
    r: Result<
        (ObservationEnvelope, OrganizationInvitationLifecycle),
        PluginError<ObserveInvitationLifecycleError>,
    >,
)
    requires
        call_ensures(observe_invitation_lifecycle, (caller, allowed, request), r),
    ensures
        !listed(caller, allowed@) <==> r == Err::<
            (ObservationEnvelope, OrganizationInvitationLifecycle),
            _,
        >(PluginError::Domain(ObserveInvitationLifecycleError::Unauthorized)),
        r is Ok <==> {
            &&& listed(caller, allowed@)
            &&& filled(request.observation_id@, 1, 240)
            &&& filled(request.organization_id@, 1, 240)
            &&& filled(request.invitation_id@, 1, 240)
            &&& filled(request.observed_at@, 1, 64)
            &&& instant_of(request.observed_at@) is Some
        },
        r is Err && listed(caller, allowed@) ==> r == Err::<
            (ObservationEnvelope, OrganizationInvitationLifecycle),
            _,
        >(PluginError::Domain(ObserveInvitationLifecycleError::InvalidObservation)),
        r is Ok ==> {
            let event = r->Ok_0.0;
            let payload = r->Ok_0.1;
            &&& payload.organization_id@ == request.organization_id@
            &&& payload.invitation_id@ == request.invitation_id@
            &&& denotes(request.observed_at@, payload.observed_at)
            &&& event.id@ == request.observation_id@
            &&& event.event_version == 1
            &&& event.source_module@ == caller->Some_0@
            &&& event.aggregate_id@ == request.invitation_id@
            &&& event.occurred_at == payload.observed_at
            &&& request.lifecycle is Accepted ==> event.event_name@
                == "lenso.organization.invitation-accepted.v1"@
            &&& request.lifecycle is Expired ==> event.event_name@
                == "lenso.organization.invitation-expired.v1"@
            &&& request.lifecycle is Revoked ==> event.event_name@
                == "lenso.organization.invitation-revoked.v1"@
        },
{
    lemma_listed(caller, allowed@);
    lemma_filled(request.observation_id@, 1, 240);
    lemma_filled(request.organization_id@, 1, 240);
    lemma_filled(request.invitation_id@, 1, 240);
    lemma_filled(request.observed_at@, 1, 64);
}

/// A receipt is taken from a listed observer where its texts keep their bounds.
/// What is recorded is the receipt that was reported, with the observer as its
/// source: a delivered message as delivered, a bounced one as bounced, a
/// rejected one as rejected, under the name by which each was reported.
pub proof fn law_receipt_is_recorded_as_reported(
    caller: Option<&str>,
    allowed: &Vec<String>,
    request: delivery::ObserveReceiptRequest,
    r: Result<
        (ObservationEnvelope, EmailReceiptObserved),
        PluginError<delivery::ObserveReceiptError>,
    >,
)
    requires
        call_ensures(observe_receipt, (caller, allowed, request), r),
    ensures
        !listed(caller, allowed@) <==> r == Err::<(ObservationEnvelope, EmailReceiptObserved), _>(
            PluginError::Domain(delivery::ObserveReceiptError::Unauthorized),
        ),
        r is Ok <==> {
            &&& listed(caller, allowed@)
            &&& filled(request.observation_id@, 1, 240)
            &&& filled(request.delivery_id@, 1, 160)
            &&& filled(request.attempt_id@, 1, 160)
            &&& filled(request.run_id@, 1, 160)
            &&& filled(request.observed_at@, 1, 64)
            &&& instant_of(request.observed_at@) is Some
            &&& filled(request.remote_id@, 1, 320)
            &&& sha256_text(request.digest@)
        },
        r is Err && listed(caller, allowed@) ==> r == Err::<
            (ObservationEnvelope, EmailReceiptObserved),
            _,
        >(PluginError::Domain(delivery::ObserveReceiptError::InvalidReceipt)),
        r is Ok ==> {
            let event = r->Ok_0.0;
            let payload = r->Ok_0.1;
            &&& payload.kind is Delivered <==> request.kind is Delivered
            &&& payload.kind is Bounced <==> request.kind is Bounced
            &&& payload.kind is Rejected <==> request.kind is Rejected
            &&& payload.kind.name() == (if request.kind is Delivered {
                "delivered"@
            } else if request.kind is Bounced {
                "bounced"@
            } else {
                "rejected"@
            })
            &&& payload.delivery_id@ == request.delivery_id@
            &&& payload.attempt_id@ == request.attempt_id@
            &&& payload.function_run_id@ == request.run_id@
            &&& payload.source@ == caller->Some_0@
            &&& payload.remote_id@ == request.remote_id@
            &&& payload.digest@ == request.digest@
            &&& denotes(request.observed_at@, payload.observed_at)
            &&& event.id@ == request.observation_id@
            &&& event.event_name@ == "lenso.email.receipt-observed.v1"@
            &&& event.event_version == 1
            &&& event.source_module@ == caller->Some_0@
            &&& event.aggregate_id@ == request.delivery_id@
            &&& event.occurred_at == payload.observed_at
        },
{
    lemma_listed(caller, allowed@);
    lemma_filled(request.observation_id@, 1, 240);
    lemma_filled(request.delivery_id@, 1, 160);
    lemma_filled(request.attempt_id@, 1, 160);
    lemma_filled(request.run_id@, 1, 160);
    lemma_filled(request.observed_at@, 1, 64);
    lemma_filled(request.remote_id@, 1, 320);
    lemma_sha256_text(request.digest@);
}

/// Due work is handed to listed workers, and to nobody else.
pub proof fn law_only_listed_workers_are_given_work(
    caller: Option<&str>,
    allowed: &Vec<String>,
    r: Result<(), PluginError<delivery::DispatchDueError>>,
)
    requires
        call_ensures(dispatch_due, (caller, allowed), r),
    ensures
        r is Ok <==> listed(caller, allowed@),
        r is Err ==> r == Err::<(), _>(
            PluginError::Domain(delivery::DispatchDueError::Unauthorized),
        ),
{
    lemma_listed(caller, allowed@);
}

/// A listed administrator gets the page that was asked for: at most 200
/// deliveries and 100 where no number is given, from the given cursor on, in
/// the given status. One row more is read, to see whether there are more.
pub proof fn law_page_is_read_as_asked(
    caller: Option<&str>,
    allowed: &Vec<String>,
    request: admin::ListDeliveriesRequest,
    r: Result<PageQuery, PluginError<admin::ListDeliveriesError>>,
)
    requires
        call_ensures(list_deliveries, (caller, allowed, request), r),
    ensures
        !listed(caller, allowed@) <==> r == Err::<PageQuery, _>(
            PluginError::Domain(admin::ListDeliveriesError::Unauthorized),
        ),
        r is Ok <==> {
            &&& listed(caller, allowed@)
            &&& request.limit is None || 1 <= request.limit->Some_0 <= 200
            &&& request.cursor is None || filled(request.cursor->Some_0@, 1, 160)
        },
        r is Err && listed(caller, allowed@) ==> r == Err::<PageQuery, _>(
            PluginError::Domain(admin::ListDeliveriesError::InvalidFilter),
        ),
        r is Ok ==> {
            &&& request.limit is Some ==> r->Ok_0.limit == request.limit->Some_0
            &&& request.limit is None ==> r->Ok_0.limit == 100
            &&& r->Ok_0.fetch == r->Ok_0.limit + 1
            &&& r->Ok_0.cursor == request.cursor
            &&& r->Ok_0.status == request.status
        },
{
    lemma_listed(caller, allowed@);
    if request.cursor is Some {
        lemma_filled(request.cursor->Some_0@, 1, 160);
    }
}

/// One delivery is looked up for a listed administrator who names it in 1 to
/// 160 characters.
pub proof fn law_delivery_is_looked_up_for_administrators(
    caller: Option<&str>,
    allowed: &Vec<String>,
    request: &admin::GetDeliveryRequest,
    r: Result<(), PluginError<admin::GetDeliveryError>>,
)
    requires
        call_ensures(get_delivery, (caller, allowed, request), r),
    ensures
        !listed(caller, allowed@) <==> r == Err::<(), _>(
            PluginError::Domain(admin::GetDeliveryError::Unauthorized),
        ),
        r is Ok <==> listed(caller, allowed@) && filled(request.delivery_id@, 1, 160),
        r is Err && listed(caller, allowed@) ==> r == Err::<(), _>(
            PluginError::Domain(admin::GetDeliveryError::InvalidRequest),
        ),
{
    lemma_listed(caller, allowed@);
    lemma_filled(request.delivery_id@, 1, 160);
}

/// A retry is requested in the name of the listed administrator who asks for
/// it. The last revision that a wire integer holds cannot be retried; any other
/// positive revision can.
pub proof fn law_retry_is_requested_by_the_administrator(
    caller: Option<&str>,
    allowed: &Vec<String>,
    request: &admin::RetryDeliveryRequest,
    r: Result<String, PluginError<admin::RetryDeliveryError>>,
)
    requires
        call_ensures(retry_delivery, (caller, allowed, request), r),
    ensures
        !listed(caller, allowed@) <==> r == Err::<String, _>(
            PluginError::Domain(admin::RetryDeliveryError::Unauthorized),
        ),
        r is Ok <==> {
            &&& listed(caller, allowed@)
            &&& filled(request.delivery_id@, 1, 160)
            &&& filled(request.idempotency_key@, 1, 240)
            &&& 1 <= request.revision < 9_007_199_254_740_991
        },
        r == Err::<String, _>(
            PluginError::Domain(admin::RetryDeliveryError::RetryNotAllowed),
        ) <==> {
            &&& listed(caller, allowed@)
            &&& filled(request.delivery_id@, 1, 160)
            &&& filled(request.idempotency_key@, 1, 240)
            &&& request.revision == 9_007_199_254_740_991
        },
        r is Err ==> r->Err_0 is Domain && (r->Err_0->Domain_0 is Unauthorized
            || r->Err_0->Domain_0 is InvalidRequest || r->Err_0->Domain_0 is RetryNotAllowed),
        r is Ok ==> r->Ok_0@ == caller->Some_0@,
{
    lemma_listed(caller, allowed@);
    lemma_filled(request.delivery_id@, 1, 160);
    lemma_filled(request.idempotency_key@, 1, 240);
}

/// A request is sound exactly where it is accepted from a listed caller.
pub proof fn law_sound_requests_are_accepted(
    caller: Option<&str>,
    allowed: &Vec<String>,
    now: UtcTime,
    invitation: CreateOrganizationInvitationRequest,
    invited: Result<CreateTransactionalEmailIntent, PluginError<CreateOrganizationInvitationError>>,
    invitation_sound: bool,
    notification: CreateAccessRequestNotificationRequest,
    notified: Result<
        CreateAccessRequestNotificationIntent,
        PluginError<CreateAccessRequestNotificationError>,
    >,
    notification_sound: bool,
    lifecycle: ObserveInvitationLifecycleRequest,
    observed: Result<
        (ObservationEnvelope, OrganizationInvitationLifecycle),
        PluginError<ObserveInvitationLifecycleError>,
    >,
    lifecycle_sound: bool,
    receipt: delivery::ObserveReceiptRequest,
    received: Result<
        (ObservationEnvelope, EmailReceiptObserved),
        PluginError<delivery::ObserveReceiptError>,
    >,
    receipt_sound: bool,
    list: admin::ListDeliveriesRequest,
    page: Result<PageQuery, PluginError<admin::ListDeliveriesError>>,
    list_sound: bool,
    retry: &admin::RetryDeliveryRequest,
    retried: Result<String, PluginError<admin::RetryDeliveryError>>,
    retry_sound: bool,
)
    requires
        listed(caller, allowed@),
        call_ensures(create_organization_invitation, (caller, allowed, invitation, now), invited),
        call_ensures(valid_create_request, (&invitation, now), invitation_sound),
        call_ensures(
            create_access_request_notification,
            (caller, allowed, notification, now),
            notified,
        ),
        call_ensures(
            valid_access_request_notification_request,
            (&notification, now),
            notification_sound,
        ),
        call_ensures(observe_invitation_lifecycle, (caller, allowed, lifecycle), observed),
        call_ensures(valid_lifecycle_request, (&lifecycle,), lifecycle_sound),
        call_ensures(observe_receipt, (caller, allowed, receipt), received),
        call_ensures(valid_receipt_request, (&receipt,), receipt_sound),
        call_ensures(list_deliveries, (caller, allowed, list), page),
        call_ensures(valid_list_request, (&list,), list_sound),
        call_ensures(retry_delivery, (caller, allowed, retry), retried),
        call_ensures(valid_retry_request, (retry,), retry_sound),
    ensures
        invitation_sound <==> invited is Ok,
        notification_sound <==> notified is Ok,
        lifecycle_sound <==> observed is Ok,
        receipt_sound <==> received is Ok,
        list_sound <==> page is Ok,
        retry_sound <==> retried is Ok || retry.revision == 9_007_199_254_740_991 && filled(
            retry.delivery_id@,
            1,
            160,
        ) && filled(retry.idempotency_key@, 1, 240),
{
    lemma_listed(caller, allowed@);
    lemma_filled(retry.delivery_id@, 1, 160);
    lemma_filled(retry.idempotency_key@, 1, 240);
}

/// The source of an intent is its caller, with the entity that the request
/// names; the source of a receipt is its observer, with what was observed.
pub proof fn law_source_is_the_caller(
    caller: String,
    source: CreateOrganizationInvitationRequestSource,
    named: IntentSource,
    observer: String,
    request: &delivery::ObserveReceiptRequest,
    kind: ReceiptKind,
    at: UtcTime,
    receipt: EmailReceiptObserved,
)
    requires
        call_ensures(intent_source, (caller, source), named),
        call_ensures(receipt_observation, (observer, request, kind, at), receipt),
    ensures
        named.module_id@ == caller@,
        named.entity_type@ == source.entity_type@,
        named.entity_id@ == source.entity_id@,
        receipt.source@ == observer@,
        receipt.delivery_id@ == request.delivery_id@,
        receipt.attempt_id@ == request.attempt_id@,
        receipt.function_run_id@ == request.run_id@,
        receipt.remote_id@ == request.remote_id@,
        receipt.digest@ == request.digest@,
        receipt.kind == kind,
        receipt.observed_at == at,
{
}

/// An expiring access request is told of, under its own key, as long as its
/// expiry is still to come, wherever the same request could be told of as
/// submitted; once the expiry has come, it is not.
pub proof fn law_expiring_request_is_told_of_before_it_expires(
    caller: Option<&str>,
    allowed: &Vec<String>,
    request: CreateAccessRequestNotificationRequest,
    early: UtcTime,
    before: Result<
        CreateAccessRequestNotificationIntent,
        PluginError<CreateAccessRequestNotificationError>,
    >,
    late: UtcTime,
    after: Result<
        CreateAccessRequestNotificationIntent,
        PluginError<CreateAccessRequestNotificationError>,
    >,
    at: UtcTime,
    submitted: CreateAccessRequestNotificationRequest,
    told: Result<
        CreateAccessRequestNotificationIntent,
        PluginError<CreateAccessRequestNotificationError>,
    >,
)
    requires
        request.event is Expiring,
        request.expires_at is Some,
        denotes(request.expires_at->Some_0@, at),
        filled(request.expires_at->Some_0@, 1, 64),
        later(early, at),
        !later(late, at),
        call_ensures(create_access_request_notification, (caller, allowed, request, early), before),
        call_ensures(create_access_request_notification, (caller, allowed, request, late), after),
        submitted == (CreateAccessRequestNotificationRequest {
            event: CreateAccessRequestNotificationRequestEvent::Submitted,
            idempotency_key: submitted.idempotency_key,
            ..request
        }),
        call_ensures(create_access_request_notification, (caller, allowed, submitted, early), told),
        told is Ok,
        request.idempotency_key@ == "access-request:"@ + request.request_id@ + ":expiring"@,
    ensures
        before is Ok,
        before->Ok_0.template.event is Expiring,
        after is Err,
{
    reveal_strlit(":");
    reveal_strlit("expiring");
    reveal_strlit(":expiring");
    assert(":"@ + "expiring"@ =~= ":expiring"@);
    assert(request.idempotency_key@ =~= "access-request:"@ + request.request_id@ + ":"@
        + "expiring"@);
    law_access_request_is_accepted_within_its_bounds(caller, allowed, request, early, before);
    law_access_request_is_accepted_within_its_bounds(caller, allowed, request, late, after);
    law_access_request_is_accepted_within_its_bounds(caller, allowed, submitted, early, told);
}

} // verus!
