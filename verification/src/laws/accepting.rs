//! How an intent is accepted: what it must say, what is asked of the template
//! provider, and what is stored.

use vstd::prelude::*;

use crate::error::{ErrorCode, NotificationError};
use crate::laws::boundary::{lemma_begins, lemma_filled};
use crate::laws::{absent_or_short, begins, filled, later, refused};
use crate::public::{access_request_faults, invitation_faults, is_safe_link, validate_access_request,
    validate_invitation_request, AccessRequestNotificationEvent,
    CreateAccessRequestNotificationIntent, CreateTransactionalEmailIntent};
use crate::text::decimal_text;
use crate::time::UtcTime;

verus! {

/// Whether a text holds an at sign.
pub open spec fn has_at(text: Seq<char>) -> bool {
    exists|i: int| 0 <= i < text.len() && text[i] == '@'
}

/// The word that an event of an access request goes by.
pub open spec fn told_word(event: AccessRequestNotificationEvent) -> Seq<char> {
    if event is Submitted {
        "submitted"@
    } else if event is Approved {
        "approved"@
    } else if event is Denied {
        "denied"@
    } else {
        "expiring"@
    }
}

/// Whether messages can be sent in a locale.
pub open spec fn supported(locale: Seq<char>) -> bool {
    locale == "en"@ || locale == "en-US"@
}

/// Whether a link goes over HTTPS or to the local machine.
pub open spec fn links_safely(url: Seq<char>) -> bool {
    begins(url, "https://"@) || begins(url, "http://localhost"@)
}

/// The key that an access-request notification must go under.
pub open spec fn own_key(request: CreateAccessRequestNotificationIntent) -> Seq<char> {
    "access-request:"@ + request.template.request_id@ + ":"@ + told_word(request.template.event)
}

/// The complaint about a text that is blank, too short or too long.
pub open spec fn wrong_length(field: Seq<char>, least: nat, most: nat) -> Seq<char> {
    field + " must contain between "@ + decimal_text(least) + " and "@ + decimal_text(most)
        + " characters"@
}

/// The complaint about a text that is too long.
pub open spec fn too_long(field: Seq<char>, most: nat) -> Seq<char> {
    field + " must contain at most "@ + decimal_text(most) + " characters"@
}

proof fn lemma_first_fault_stands(faults: Seq<Option<Seq<char>>>) -> (at: int)
    requires
        crate::faults::first_fault(faults) is Some,
    ensures
        0 <= at < faults.len(),
        faults[at] == crate::faults::first_fault(faults),
        forall|i: int| 0 <= i < at ==> #[trigger] faults[i] is None,
    decreases faults.len(),
{
    if faults[0] is Some {
        0
    } else {
        let rest = lemma_first_fault_stands(faults.drop_first());
        assert forall|i: int| 0 <= i < rest + 1 implies #[trigger] faults[i] is None by {
            if i > 0 {
                assert(faults.drop_first()[i - 1] is None);
            }
        }
        rest + 1
    }
}

/// What is first wrong with an invitation that cannot be accepted.
pub open spec fn first_complaint_about_invitation(
    request: CreateTransactionalEmailIntent,
    now: UtcTime,
) -> Seq<char> {
    if !filled(request.source.module_id@, 1, 160) {
        wrong_length("source.module_id"@, 1, 160)
    } else if !filled(request.source.entity_type@, 1, 160) {
        wrong_length("source.entity_type"@, 1, 160)
    } else if !filled(request.source.entity_id@, 1, 240) {
        wrong_length("source.entity_id"@, 1, 240)
    } else if !filled(request.recipient.address@, 3, 320) {
        wrong_length("recipient.address"@, 3, 320)
    } else if !filled(request.recipient.locale@, 2, 32) {
        wrong_length("recipient.locale"@, 2, 32)
    } else if !filled(request.idempotency_key@, 1, 240) {
        wrong_length("idempotency_key"@, 1, 240)
    } else if !filled(request.correlation_id@, 1, 240) {
        wrong_length("correlation_id"@, 1, 240)
    } else if !filled(request.template.organization_id@, 1, 240) {
        wrong_length("template.organization_id"@, 1, 240)
    } else if !filled(request.template.organization_name@, 1, 240) {
        wrong_length("template.organization_name"@, 1, 240)
    } else if !filled(request.template.invitation_id@, 1, 240) {
        wrong_length("template.invitation_id"@, 1, 240)
    } else if !filled(request.template.invitation_url@, 1, 4096) {
        wrong_length("template.invitation_url"@, 1, 4096)
    } else if !absent_or_short(request.recipient.display_name, 240) {
        too_long("recipient.display_name"@, 240)
    } else if !absent_or_short(request.template.inviter_display_name, 240) {
        too_long("template.inviter_display_name"@, 240)
    } else if !absent_or_short(request.template.role_name, 160) {
        too_long("template.role_name"@, 160)
    } else if !absent_or_short(request.causation_id, 240) {
        too_long("causation_id"@, 240)
    } else if !absent_or_short(request.requested_by, 240) {
        too_long("requested_by"@, 240)
    } else if !has_at(request.recipient.address@) {
        "recipient.address must be an email address"@
    } else if !supported(request.recipient.locale@) {
        "organization-invitation@v1 supports locale en or en-US"@
    } else if !links_safely(request.template.invitation_url@) {
        "template.invitation_url must use HTTPS"@
    } else if !later(now, request.template.expires_at) {
        "template.expires_at must be in the future"@
    } else {
        "Notification source must identify the rendered organization invitation"@
    }
}

/// An invitation is valid exactly where it names its source, its recipient and
/// the invitation within bounds, is addressed by email in a supported locale,
/// links safely and has not expired. Otherwise the first thing that is wrong
/// is the answer.
pub proof fn law_invitation_is_valid_within_its_bounds(
    request: &CreateTransactionalEmailIntent,
    now: UtcTime,
    r: Result<(), NotificationError>,
)
    requires
        call_ensures(validate_invitation_request, (request, now), r),
    ensures
        r is Ok <==> {
            &&& filled(request.source.module_id@, 1, 160)
            &&& filled(request.source.entity_type@, 1, 160)
            &&& filled(request.source.entity_id@, 1, 240)
            &&& filled(request.recipient.address@, 3, 320)
            &&& filled(request.recipient.locale@, 2, 32)
            &&& filled(request.idempotency_key@, 1, 240)
            &&& filled(request.correlation_id@, 1, 240)
            &&& filled(request.template.organization_id@, 1, 240)
            &&& filled(request.template.organization_name@, 1, 240)
            &&& filled(request.template.invitation_id@, 1, 240)
            &&& filled(request.template.invitation_url@, 1, 4096)
            &&& absent_or_short(request.recipient.display_name, 240)
            &&& absent_or_short(request.template.inviter_display_name, 240)
            &&& absent_or_short(request.template.role_name, 160)
            &&& absent_or_short(request.causation_id, 240)
            &&& absent_or_short(request.requested_by, 240)
            &&& has_at(request.recipient.address@)
            &&& supported(request.recipient.locale@)
            &&& links_safely(request.template.invitation_url@)
            &&& later(now, request.template.expires_at)
            &&& request.source.entity_type@ == "organization_invitation"@
            &&& request.source.entity_id@ == request.template.invitation_id@
        },
        r is Err ==> refused(
            r,
            ErrorCode::Validation,
            first_complaint_about_invitation(*request, now),
        ),
{
    let faults = invitation_faults(*request, now);
    lemma_filled(request.source.module_id@, 1, 160);
    lemma_filled(request.source.entity_type@, 1, 160);
    lemma_filled(request.source.entity_id@, 1, 240);
    lemma_filled(request.recipient.address@, 3, 320);
    lemma_filled(request.recipient.locale@, 2, 32);
    lemma_filled(request.idempotency_key@, 1, 240);
    lemma_filled(request.correlation_id@, 1, 240);
    lemma_filled(request.template.organization_id@, 1, 240);
    lemma_filled(request.template.organization_name@, 1, 240);
    lemma_filled(request.template.invitation_id@, 1, 240);
    lemma_filled(request.template.invitation_url@, 1, 4096);
    lemma_begins(request.template.invitation_url@, "https://"@);
    lemma_begins(request.template.invitation_url@, "http://localhost"@);
    if r is Ok {
        crate::faults::lemma_every_fault_is_found(faults);
        assert(faults[0] is None);
        assert(faults[1] is None);
        assert(faults[2] is None);
        assert(faults[3] is None);
        assert(faults[4] is None);
        assert(faults[5] is None);
        assert(faults[6] is None);
        assert(faults[7] is None);
        assert(faults[8] is None);
        assert(faults[9] is None);
        assert(faults[10] is None);
        assert(faults[11] is None);
        assert(faults[12] is None);
        assert(faults[13] is None);
        assert(faults[14] is None);
        assert(faults[15] is None);
        assert(faults[16] is None);
        assert(faults[17] is None);
        assert(faults[18] is None);
        assert(faults[19] is None);
        assert(faults[20] is None);
    } else {
        let at = lemma_first_fault_stands(faults);
        if at > 0 {
            assert(faults[0] is None);
        }
        if at > 1 {
            assert(faults[1] is None);
        }
        if at > 2 {
            assert(faults[2] is None);
        }
        if at > 3 {
            assert(faults[3] is None);
        }
        if at > 4 {
            assert(faults[4] is None);
        }
        if at > 5 {
            assert(faults[5] is None);
        }
        if at > 6 {
            assert(faults[6] is None);
        }
        if at > 7 {
            assert(faults[7] is None);
        }
        if at > 8 {
            assert(faults[8] is None);
        }
        if at > 9 {
            assert(faults[9] is None);
        }
        if at > 10 {
            assert(faults[10] is None);
        }
        if at > 11 {
            assert(faults[11] is None);
        }
        if at > 12 {
            assert(faults[12] is None);
        }
        if at > 13 {
            assert(faults[13] is None);
        }
        if at > 14 {
            assert(faults[14] is None);
        }
        if at > 15 {
            assert(faults[15] is None);
        }
        if at > 16 {
            assert(faults[16] is None);
        }
        if at > 17 {
            assert(faults[17] is None);
        }
        if at > 18 {
            assert(faults[18] is None);
        }
        if at > 19 {
            assert(faults[19] is None);
        }
        if at > 20 {
            assert(faults[20] is None);
        }
    }
}

/// What is first wrong with an access-request notification that cannot be
/// accepted.
pub open spec fn first_complaint_about_access_request(
    request: CreateAccessRequestNotificationIntent,
    now: UtcTime,
) -> Seq<char> {
    if !filled(request.source.module_id@, 1, 160) {
        wrong_length("source.module_id"@, 1, 160)
    } else if !filled(request.source.entity_type@, 1, 160) {
        wrong_length("source.entity_type"@, 1, 160)
    } else if !filled(request.source.entity_id@, 1, 240) {
        wrong_length("source.entity_id"@, 1, 240)
    } else if !filled(request.recipient.address@, 3, 320) {
        wrong_length("recipient.address"@, 3, 320)
    } else if !filled(request.recipient.locale@, 2, 32) {
        wrong_length("recipient.locale"@, 2, 32)
    } else if !filled(request.template.request_id@, 1, 160) {
        wrong_length("template.request_id"@, 1, 160)
    } else if !filled(request.template.organization_id@, 1, 240) {
        wrong_length("template.organization_id"@, 1, 240)
    } else if !filled(request.template.role.role_id@, 1, 160) {
        wrong_length("template.role.role_id"@, 1, 160)
    } else if !filled(request.template.scope.kind@, 1, 160) {
        wrong_length("template.scope.kind"@, 1, 160)
    } else if !filled(request.template.scope.id@, 1, 240) {
        wrong_length("template.scope.id"@, 1, 240)
    } else if !filled(request.idempotency_key@, 1, 240) {
        wrong_length("idempotency_key"@, 1, 240)
    } else if !filled(request.correlation_id@, 1, 240) {
        wrong_length("correlation_id"@, 1, 240)
    } else if !absent_or_short(request.recipient.display_name, 240) {
        too_long("recipient.display_name"@, 240)
    } else if !absent_or_short(request.template.role.display_name, 160) {
        too_long("template.role.display_name"@, 160)
    } else if !absent_or_short(request.template.scope.display_name, 240) {
        too_long("template.scope.display_name"@, 240)
    } else if !absent_or_short(request.causation_id, 240) {
        too_long("causation_id"@, 240)
    } else if !absent_or_short(request.requested_by, 240) {
        too_long("requested_by"@, 240)
    } else if !has_at(request.recipient.address@) {
        "recipient.address must be an email address"@
    } else if !supported(request.recipient.locale@) {
        "access-request@v1 supports locale en or en-US"@
    } else if !(request.source.entity_type@ == "access_request"@ && request.source.entity_id@
        == request.template.request_id@) {
        "Notification source must identify the rendered access request"@
    } else if !(request.idempotency_key@ == own_key(request)) {
        "access-request notification idempotency must be request-and-event stable"@
    } else if request.template.event is Expiring && !(request.template.expires_at is Some && later(
        now,
        request.template.expires_at->Some_0,
    )) {
        "expiring access-request notifications require a future expiry"@
    } else if request.template.event is Denied && request.template.expires_at is Some {
        "denied access-request notifications cannot claim an expiry"@
    } else {
        "access-request notification expiry must be in the future"@
    }
}

/// An access-request notification is valid exactly where it names its source,
/// its recipient, its role and its scope within bounds, goes under the key of
/// its request and event, and claims an expiry that suits the event. Otherwise
/// the first thing that is wrong is the answer.
pub proof fn law_access_request_is_valid_within_its_bounds(
    request: &CreateAccessRequestNotificationIntent,
    now: UtcTime,
    r: Result<(), NotificationError>,
)
    requires
        call_ensures(validate_access_request, (request, now), r),
    ensures
        r is Ok <==> {
            &&& filled(request.source.module_id@, 1, 160)
            &&& filled(request.source.entity_type@, 1, 160)
            &&& filled(request.source.entity_id@, 1, 240)
            &&& filled(request.recipient.address@, 3, 320)
            &&& filled(request.recipient.locale@, 2, 32)
            &&& filled(request.template.request_id@, 1, 160)
            &&& filled(request.template.organization_id@, 1, 240)
            &&& filled(request.template.role.role_id@, 1, 160)
            &&& filled(request.template.scope.kind@, 1, 160)
            &&& filled(request.template.scope.id@, 1, 240)
            &&& filled(request.idempotency_key@, 1, 240)
            &&& filled(request.correlation_id@, 1, 240)
            &&& absent_or_short(request.recipient.display_name, 240)
            &&& absent_or_short(request.template.role.display_name, 160)
            &&& absent_or_short(request.template.scope.display_name, 240)
            &&& absent_or_short(request.causation_id, 240)
            &&& absent_or_short(request.requested_by, 240)
            &&& has_at(request.recipient.address@)
            &&& supported(request.recipient.locale@)
            &&& request.source.entity_type@ == "access_request"@
            &&& request.source.entity_id@ == request.template.request_id@
            &&& request.idempotency_key@ == own_key(*request)
            &&& request.template.event is Expiring ==> request.template.expires_at is Some
            &&& request.template.event is Denied ==> request.template.expires_at is None
            &&& request.template.expires_at is Some ==> later(
                now,
                request.template.expires_at->Some_0,
            )
        },
        r is Err ==> refused(
            r,
            ErrorCode::Validation,
            first_complaint_about_access_request(*request, now),
        ),
{
    let faults = access_request_faults(*request, now);
    lemma_filled(request.source.module_id@, 1, 160);
    lemma_filled(request.source.entity_type@, 1, 160);
    lemma_filled(request.source.entity_id@, 1, 240);
    lemma_filled(request.recipient.address@, 3, 320);
    lemma_filled(request.recipient.locale@, 2, 32);
    lemma_filled(request.template.request_id@, 1, 160);
    lemma_filled(request.template.organization_id@, 1, 240);
    lemma_filled(request.template.role.role_id@, 1, 160);
    lemma_filled(request.template.scope.kind@, 1, 160);
    lemma_filled(request.template.scope.id@, 1, 240);
    lemma_filled(request.idempotency_key@, 1, 240);
    lemma_filled(request.correlation_id@, 1, 240);
    if r is Ok {
        crate::faults::lemma_every_fault_is_found(faults);
        assert(faults[0] is None);
        assert(faults[1] is None);
        assert(faults[2] is None);
        assert(faults[3] is None);
        assert(faults[4] is None);
        assert(faults[5] is None);
        assert(faults[6] is None);
        assert(faults[7] is None);
        assert(faults[8] is None);
        assert(faults[9] is None);
        assert(faults[10] is None);
        assert(faults[11] is None);
        assert(faults[12] is None);
        assert(faults[13] is None);
        assert(faults[14] is None);
        assert(faults[15] is None);
        assert(faults[16] is None);
        assert(faults[17] is None);
        assert(faults[18] is None);
        assert(faults[19] is None);
        assert(faults[20] is None);
        assert(faults[21] is None);
    } else {
        let at = lemma_first_fault_stands(faults);
        if at > 0 {
            assert(faults[0] is None);
        }
        if at > 1 {
            assert(faults[1] is None);
        }
        if at > 2 {
            assert(faults[2] is None);
        }
        if at > 3 {
            assert(faults[3] is None);
        }
        if at > 4 {
            assert(faults[4] is None);
        }
        if at > 5 {
            assert(faults[5] is None);
        }
        if at > 6 {
            assert(faults[6] is None);
        }
        if at > 7 {
            assert(faults[7] is None);
        }
        if at > 8 {
            assert(faults[8] is None);
        }
        if at > 9 {
            assert(faults[9] is None);
        }
        if at > 10 {
            assert(faults[10] is None);
        }
        if at > 11 {
            assert(faults[11] is None);
        }
        if at > 12 {
            assert(faults[12] is None);
        }
        if at > 13 {
            assert(faults[13] is None);
        }
        if at > 14 {
            assert(faults[14] is None);
        }
        if at > 15 {
            assert(faults[15] is None);
        }
        if at > 16 {
            assert(faults[16] is None);
        }
        if at > 17 {
            assert(faults[17] is None);
        }
        if at > 18 {
            assert(faults[18] is None);
        }
        if at > 19 {
            assert(faults[19] is None);
        }
        if at > 20 {
            assert(faults[20] is None);
        }
        if at > 21 {
            assert(faults[21] is None);
        }
    }
}

/// A link is safe where it goes over HTTPS or to the local machine.
pub proof fn law_safe_link_goes_over_https(url: &str, r: bool)
    requires
        call_ensures(is_safe_link, (url,), r),
    ensures
        r <==> begins(url@, "https://"@) || begins(url@, "http://localhost"@),
{
    lemma_begins(url@, "https://"@);
    lemma_begins(url@, "http://localhost"@);
}

} // verus!
