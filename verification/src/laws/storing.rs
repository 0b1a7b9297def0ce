//! What is asked of the template provider, what its answer must be, and what is
//! stored of an intent.

use vstd::prelude::*;
use vstd::utf8::*;

use crate::creation::{advance_creation, begin_creation, CreationEvent, CreationFailure,
    CreationStage, CreationStep, NewIntent};
use crate::digest::{hex_text, sha256, stable_id_text};
use crate::error::{ErrorCode, NotificationError, PluginError, RuntimeFailure};
use crate::laws::accepting::{first_complaint_about_access_request, first_complaint_about_invitation,
    told_word};
use crate::laws::administering::a_status_word;
use crate::laws::boundary::{lemma_filled, lemma_sha256_text};
use crate::laws::{filled, refused, sha256_text};
use crate::public::{access_request_idempotency_key, access_request_template_id,
    admit_access_request_notification, admit_transactional_email_intent, assemble_intent,
    find_access_request_notification_replay, find_transactional_email_intent_replay, persist_intent,
    project_idempotent_intent, require_one_key, start_intent, validate_access_request,
    validate_invitation_request, validate_rendered_template, AccessRequestNotificationEvent,
    CreateAccessRequestNotificationIntent, CreateTransactionalEmailIntent, IntentPersistence,
    IntentRows, IntentStart, ProtectedMessage, RenderedTemplate, StoredIntent,
    TransactionalIntentReceipt};
use crate::render::{access_request_render_request, map_template_render_error,
    organization_invitation_render_request, rendered_template};
use crate::requests::{create_access_request_notification, create_organization_invitation};
use crate::snapshot::{be_bytes, mask_email, redact_preview, AeadSnapshotProtector, ProtectedValue,
    SnapshotProtector, TestSnapshotProtector};
use crate::template::{RenderInvocationError, RenderRequest, RenderResponse};
use crate::text::{trimmed, trimmed_end, trimmed_start, white_space};
use crate::time::{rfc3339_seconds, UtcTime};
use crate::transactional::{CreateAccessRequestNotificationError,
    CreateAccessRequestNotificationRequest, CreateOrganizationInvitationError,
    CreateOrganizationInvitationRequest};

verus! {

/// Whether `value` is `raw` without the white space at its ends.
pub open spec fn cut(value: Seq<char>, raw: Seq<char>) -> bool {
    exists|from: int, to: int|
        {
            &&& 0 <= from <= to <= raw.len()
            &&& value == #[trigger] raw.subrange(from, to)
            &&& forall|i: int| 0 <= i < from ==> white_space(#[trigger] raw[i])
            &&& forall|i: int| to <= i < raw.len() ==> white_space(#[trigger] raw[i])
            &&& from < to ==> !white_space(raw[from]) && !white_space(raw[to - 1])
        }
}

proof fn lemma_trimmed_start(raw: Seq<char>) -> (from: int)
    ensures
        0 <= from <= raw.len(),
        trimmed_start(raw) == raw.skip(from),
        forall|i: int| 0 <= i < from ==> white_space(#[trigger] raw[i]),
        from < raw.len() ==> !white_space(raw[from]),
    decreases raw.len(),
{
    if raw.len() > 0 && white_space(raw[0]) {
        let rest = raw.drop_first();
        let from = lemma_trimmed_start(rest) + 1;
        assert(raw.skip(from) =~= rest.skip(from - 1));
        assert forall|i: int| 0 <= i < from implies white_space(#[trigger] raw[i]) by {
            if i > 0 {
                assert(white_space(rest[i - 1]));
            }
        }
        if from < raw.len() {
            assert(raw[from] == rest[from - 1]);
        }
        from
    } else {
        assert(raw.skip(0) =~= raw);
        0
    }
}

proof fn lemma_trimmed_end(raw: Seq<char>) -> (to: int)
    ensures
        0 <= to <= raw.len(),
        trimmed_end(raw) == raw.take(to),
        forall|i: int| to <= i < raw.len() ==> white_space(#[trigger] raw[i]),
        0 < to ==> !white_space(raw[to - 1]),
    decreases raw.len(),
{
    if raw.len() > 0 && white_space(raw.last()) {
        let rest = raw.drop_last();
        let to = lemma_trimmed_end(rest);
        assert(raw.take(to) =~= rest.take(to));
        assert forall|i: int| to <= i < raw.len() implies white_space(#[trigger] raw[i]) by {
            if i < rest.len() {
                assert(white_space(rest[i]));
            }
        }
        if to > 0 {
            assert(raw[to - 1] == rest[to - 1]);
        }
        to
    } else {
        assert(raw.take(raw.len() as int) =~= raw);
        raw.len() as int
    }
}

/// A trimmed text is the text without the white space at its ends.
pub(crate) proof fn lemma_cut(raw: Seq<char>)
    ensures
        cut(trimmed(raw), raw),
        trimmed(raw).len() > 0 <==> exists|i: int|
            0 <= i < raw.len() && !white_space(#[trigger] raw[i]),
{
    let from = lemma_trimmed_start(raw);
    let rest = raw.skip(from);
    let length = lemma_trimmed_end(rest);
    let to = from + length;
    assert(rest.take(length) =~= raw.subrange(from, to));
    assert forall|i: int| to <= i < raw.len() implies white_space(#[trigger] raw[i]) by {
        assert(rest[i - from] == raw[i]);
    }
    if from < to {
        assert(rest[length - 1] == raw[to - 1]);
        assert(!white_space(raw[from])) by {
            if white_space(raw[from]) {
                assert(from >= raw.len());
            }
        }
    }
    assert(trimmed(raw) == raw.subrange(from, to));
    if exists|i: int| 0 <= i < raw.len() && !white_space(#[trigger] raw[i]) {
        let i = choose|i: int| 0 <= i < raw.len() && !white_space(#[trigger] raw[i]);
        assert(from <= i < to);
    }
}

/// Whether a variable has the given name and value.
pub open spec fn binds(request: RenderRequest, at: int, name: Seq<char>, value: Seq<char>) -> bool {
    request.variables@[at].name@ == name && request.variables@[at].value@ == value
}

/// Whether a variable has the given name, and holds the given text without the
/// white space at its ends, or nothing where there is none.
pub open spec fn binds_cut(
    request: RenderRequest,
    at: int,
    name: Seq<char>,
    raw: Option<String>,
) -> bool {
    &&& request.variables@[at].name@ == name
    &&& raw is Some ==> cut(request.variables@[at].value@, raw->Some_0@)
    &&& raw is None ==> request.variables@[at].value@.len() == 0
}

/// Whether a variable has the given name, and holds the display name without
/// the white space at its ends, or the identifier where nothing is left of it.
pub open spec fn binds_named(
    request: RenderRequest,
    at: int,
    name: Seq<char>,
    display_name: Option<String>,
    id: Seq<char>,
) -> bool {
    let told = display_name is Some && exists|i: int|
        0 <= i < display_name->Some_0@.len() && !white_space(
            #[trigger] display_name->Some_0@[i],
        );
    &&& request.variables@[at].name@ == name
    &&& told ==> cut(request.variables@[at].value@, display_name->Some_0@)
    &&& !told ==> request.variables@[at].value@ == id
}

/// An invitation is rendered by its own template with what the intent says:
/// every variable holds the field that it is named after.
pub proof fn law_invitation_is_rendered_as_it_is(
    intent: &CreateTransactionalEmailIntent,
    request: RenderRequest,
)
    requires
        call_ensures(organization_invitation_render_request, (intent,), request),
    ensures
        request.template_id@ == "organization-invitation"@,
        request.version is Some && request.version->Some_0@ == "v1"@,
        request.locale@ == intent.recipient.locale@,
        request.variables@.len() == 7,
        binds(
            request,
            0,
            "expires_at"@,
            rfc3339_seconds(intent.template.expires_at.seconds, intent.template.expires_at.nanos),
        ),
        binds(request, 1, "invitation_url"@, intent.template.invitation_url@),
        binds_cut(
            request,
            2,
            "inviter_display_name"@,
            intent.template.inviter_display_name,
        ),
        binds(request, 3, "locale"@, intent.recipient.locale@),
        binds_cut(request, 4, "organization_name"@, Some(intent.template.organization_name)),
        binds_cut(request, 5, "recipient_display_name"@, intent.recipient.display_name),
        binds_cut(request, 6, "role_name"@, intent.template.role_name),
{
    let items = crate::render::variables_of(request.variables@);
    assert(request.variables@.len() == items.len());
    assert forall|i: int| 0 <= i < items.len() implies (#[trigger] items[i]) == (
        request.variables@[i].name@,
        request.variables@[i].value@,
    ) by {}
    assert(items[0].0 == "expires_at"@);
    assert(items[1].0 == "invitation_url"@);
    assert(items[2].0 == "inviter_display_name"@);
    assert(items[3].0 == "locale"@);
    assert(items[4].0 == "organization_name"@);
    assert(items[5].0 == "recipient_display_name"@);
    assert(items[6].0 == "role_name"@);
    lemma_cut(intent.template.organization_name@);
    if intent.template.inviter_display_name is Some {
        lemma_cut(intent.template.inviter_display_name->Some_0@);
    }
    if intent.recipient.display_name is Some {
        lemma_cut(intent.recipient.display_name->Some_0@);
    }
    if intent.template.role_name is Some {
        lemma_cut(intent.template.role_name->Some_0@);
    }
}

/// An access-request notification is rendered by the template of its event with
/// what the intent says; a denied request has no expiry to tell.
pub proof fn law_access_request_is_rendered_as_it_is(
    intent: &CreateAccessRequestNotificationIntent,
    request: RenderRequest,
)
    requires
        call_ensures(access_request_render_request, (intent,), request),
    ensures
        request.template_id@ == (if intent.template.event is Submitted {
            "access-request-submitted"@
        } else if intent.template.event is Approved {
            "access-request-approved"@
        } else if intent.template.event is Denied {
            "access-request-denied"@
        } else {
            "access-request-expiring"@
        }),
        request.version is Some && request.version->Some_0@ == "v1"@,
        request.locale@ == intent.recipient.locale@,
        ({
            let first: int = if intent.template.event is Denied {
                0
            } else {
                1
            };
            &&& request.variables@.len() == 7 + first
            &&& !(intent.template.event is Denied) ==> binds(
                request,
                0,
                "expires_at"@,
                (match intent.template.expires_at {
                    Some(at) => rfc3339_seconds(at.seconds, at.nanos),
                    None => Seq::empty(),
                }),
            )
            &&& binds(request, first, "locale"@, intent.recipient.locale@)
            &&& binds(request, first + 1, "organization_id"@, intent.template.organization_id@)
            &&& binds_cut(
                request,
                first + 2,
                "recipient_display_name"@,
                intent.recipient.display_name,
            )
            &&& binds(request, first + 3, "request_id"@, intent.template.request_id@)
            &&& binds_named(
                request,
                first + 4,
                "role"@,
                intent.template.role.display_name,
                intent.template.role.role_id@,
            )
            &&& binds_named(
                request,
                first + 5,
                "scope"@,
                intent.template.scope.display_name,
                intent.template.scope.id@,
            )
            &&& binds(request, first + 6, "scope_kind"@, intent.template.scope.kind@)
        }),
{
    let items = crate::render::variables_of(request.variables@);
    assert(request.variables@.len() == items.len());
    assert forall|i: int| 0 <= i < items.len() implies (#[trigger] items[i]) == (
        request.variables@[i].name@,
        request.variables@[i].value@,
    ) by {}
    let first: int = if intent.template.event is Denied {
        0
    } else {
        1
    };
    if first == 1 {
        assert(items[0].0 == "expires_at"@);
    }
    assert(items[first].0 == "locale"@);
    assert(items[first + 1].0 == "organization_id"@);
    assert(items[first + 2].0 == "recipient_display_name"@);
    assert(items[first + 3].0 == "request_id"@);
    assert(items[first + 4].0 == "role"@);
    assert(items[first + 5].0 == "scope"@);
    assert(items[first + 6].0 == "scope_kind"@);
    if intent.recipient.display_name is Some {
        lemma_cut(intent.recipient.display_name->Some_0@);
    }
    if intent.template.role.display_name is Some {
        lemma_cut(intent.template.role.display_name->Some_0@);
    }
    if intent.template.scope.display_name is Some {
        lemma_cut(intent.template.scope.display_name->Some_0@);
    }
}

/// A rendered message is what the provider answered, field by field.
pub proof fn law_rendered_message_is_what_was_answered(
    response: RenderResponse,
    rendered: RenderedTemplate,
)
    requires
        call_ensures(rendered_template, (response,), rendered),
    ensures
        rendered.template_id@ == response.template_id@,
        rendered.template_version@ == response.version@,
        rendered.requested_locale@ == response.requested_locale@,
        rendered.resolved_locale@ == response.resolved_locale@,
        rendered.fallback_used == response.fallback_used,
        rendered.renderer_identity@ == response.renderer_identity@,
        rendered.template_digest@ == response.template_digest@,
        rendered.content_digest@ == response.content_digest@,
        rendered.subject@ == response.subject@,
        rendered.text@ == response.text@,
        rendered.html@ == response.html@,
{
}

/// A failed rendering is a failure of the runtime: its own, where it has one,
/// the missing template or the missing permission by name, and otherwise a
/// violation of the template protocol.
pub proof fn law_failed_rendering_is_told(error: RenderInvocationError, failure: RuntimeFailure)
    requires
        call_ensures(map_template_render_error, (error,), failure),
    ensures
        error is Runtime ==> failure == error->Runtime_0,
        error is Domain && error->Domain_0 is NotFound ==> failure is PluginFailure
            && failure->PluginFailure_detail@
            == "required Notification Template version is unavailable"@,
        error is Domain && error->Domain_0 is Unauthorized ==> failure is PluginFailure
            && failure->PluginFailure_detail@
            == "Notification is not authorized to render through its configured Template Provider"@,
        error is Domain && !(error->Domain_0 is NotFound) && !(error->Domain_0 is Unauthorized)
            ==> failure is ProtocolViolation && failure->ProtocolViolation_capability@
            == "lenso.notification-template@1"@,
{
}

/// The text of the digest of some bytes.
pub open spec fn digest_of(bytes: Seq<u8>) -> Seq<char> {
    "sha256:"@ + hex_text(sha256(bytes))
}

/// The length of a text in bytes, as eight bytes, and then its bytes.
pub open spec fn measured(text: Seq<char>) -> Seq<u8> {
    be_bytes(encode_utf8(text).len(), 8) + encode_utf8(text)
}

/// Whether a rendered message answers what was asked: the very template,
/// version and locale, with a truthful word on the fallback, well-formed
/// digests, a subject of one line, and parts within bounds over which the
/// stated digest is taken.
pub open spec fn answers_the_request(
    rendered: RenderedTemplate,
    template_id: Seq<char>,
    version: Seq<char>,
    locale: Seq<char>,
) -> bool {
    &&& rendered.template_id@ == template_id
    &&& rendered.template_version@ == version
    &&& rendered.requested_locale@ == locale
    &&& rendered.fallback_used <==> rendered.resolved_locale@ != locale
    &&& filled(rendered.resolved_locale@, 2, 32)
    &&& filled(rendered.renderer_identity@, 1, 160)
    &&& sha256_text(rendered.template_digest@)
    &&& filled(rendered.subject@, 1, 998)
    &&& forall|i: int|
        0 <= i < rendered.subject@.len() ==> #[trigger] rendered.subject@[i] != '\r'
            && rendered.subject@[i] != '\n'
    &&& filled(rendered.text@, 1, 131_072)
    &&& filled(rendered.html@, 1, 262_144)
    &&& sha256_text(rendered.content_digest@)
    &&& rendered.content_digest@ == digest_of(
        measured(rendered.subject@) + measured(rendered.text@) + measured(rendered.html@),
    )
}

proof fn lemma_answers(
    rendered: RenderedTemplate,
    template_id: Seq<char>,
    version: Seq<char>,
    locale: Seq<char>,
)
    ensures
        answers_the_request(rendered, template_id, version, locale) <==> (
        rendered.metadata_answers(template_id, version, locale) && rendered.content_sound()),
{
    lemma_filled(rendered.resolved_locale@, 2, 32);
    lemma_filled(rendered.renderer_identity@, 1, 160);
    lemma_filled(rendered.subject@, 1, 998);
    lemma_filled(rendered.text@, 1, 131_072);
    lemma_filled(rendered.html@, 1, 262_144);
    lemma_sha256_text(rendered.template_digest@);
    lemma_sha256_text(rendered.content_digest@);
    assert(rendered.message_digest() == digest_of(
        measured(rendered.subject@) + measured(rendered.text@) + measured(rendered.html@),
    ));
    if !rendered.subject@.contains('\r') && !rendered.subject@.contains('\n') {
        let subject = rendered.subject@;
        assert forall|i: int| 0 <= i < subject.len() implies #[trigger] subject[i] != '\r'
            && subject[i] != '\n' by {
            assert(subject.contains(subject[i]));
        }
    }
}

/// A rendered message is accepted exactly where it answers what was asked.
pub proof fn law_rendered_message_answers_the_request(
    rendered: &RenderedTemplate,
    template_id: &str,
    version: &str,
    locale: &str,
    r: Result<(), NotificationError>,
)
    requires
        call_ensures(validate_rendered_template, (rendered, template_id, version, locale), r),
    ensures
        r is Ok <==> answers_the_request(*rendered, template_id@, version@, locale@),
        r is Err ==> refused(
            r,
            ErrorCode::Internal,
            "Notification Template Provider returned an invalid render projection"@,
        ),
{
    lemma_answers(*rendered, template_id@, version@, locale@);
}

/// An accepted invitation keeps its source, its recipient and its key, is told
/// apart by the digest of its encoding, and has the message that was rendered
/// for it by the invitation template.
pub proof fn law_accepted_invitation_is_kept(
    request: &CreateTransactionalEmailIntent,
    encoded: &[u8],
    rendered: &RenderedTemplate,
    now: UtcTime,
    r: Result<IntentPersistence, NotificationError>,
    valid: Result<(), NotificationError>,
)
    requires
        call_ensures(
            admit_transactional_email_intent,
            (request, encoded, rendered, now),
            r,
        ),
        call_ensures(validate_invitation_request, (request, now), valid),
    ensures
        r is Ok <==> valid is Ok && answers_the_request(
            *rendered,
            "organization-invitation"@,
            "v1"@,
            request.recipient.locale@,
        ),
        valid is Err ==> refused(
            r,
            ErrorCode::Validation,
            first_complaint_about_invitation(*request, now),
        ),
        valid is Ok && r is Err ==> refused(
            r,
            ErrorCode::Internal,
            "Notification Template Provider returned an invalid render projection"@,
        ),
        r is Ok ==> {
            &&& r->Ok_0.source == request.source
            &&& r->Ok_0.recipient == request.recipient
            &&& r->Ok_0.idempotency_key@ == request.idempotency_key@
            &&& r->Ok_0.correlation_id@ == request.correlation_id@
            &&& r->Ok_0.causation_id == request.causation_id
            &&& r->Ok_0.requested_by == request.requested_by
            &&& r->Ok_0.purpose@ == "transactional.organization_invitation"@
            &&& r->Ok_0.request_digest@ == digest_of(encoded@)
            &&& r->Ok_0.rendered == *rendered
        },
{
    lemma_answers(
        *rendered,
        "organization-invitation"@,
        "v1"@,
        request.recipient.locale@,
    );
    crate::laws::accepting::law_invitation_is_valid_within_its_bounds(request, now, valid);
}

/// The template of an event.
pub open spec fn template_of(event: AccessRequestNotificationEvent) -> Seq<char> {
    if event is Submitted {
        "access-request-submitted"@
    } else if event is Approved {
        "access-request-approved"@
    } else if event is Denied {
        "access-request-denied"@
    } else {
        "access-request-expiring"@
    }
}

/// An accepted access-request notification keeps its source, its recipient and
/// its key, is told apart by the digest of its encoding, and has the message
/// that was rendered for it by the template of its event.
pub proof fn law_accepted_access_request_is_kept(
    request: &CreateAccessRequestNotificationIntent,
    encoded: &[u8],
    rendered: &RenderedTemplate,
    now: UtcTime,
    r: Result<IntentPersistence, NotificationError>,
    valid: Result<(), NotificationError>,
)
    requires
        call_ensures(
            admit_access_request_notification,
            (request, encoded, rendered, now),
            r,
        ),
        call_ensures(validate_access_request, (request, now), valid),
    ensures
        r is Ok <==> valid is Ok && answers_the_request(
            *rendered,
            template_of(request.template.event),
            "v1"@,
            request.recipient.locale@,
        ),
        valid is Err ==> refused(
            r,
            ErrorCode::Validation,
            first_complaint_about_access_request(*request, now),
        ),
        valid is Ok && r is Err ==> refused(
            r,
            ErrorCode::Internal,
            "Notification Template Provider returned an invalid render projection"@,
        ),
        r is Ok ==> {
            &&& r->Ok_0.source == request.source
            &&& r->Ok_0.recipient == request.recipient
            &&& r->Ok_0.idempotency_key@ == request.idempotency_key@
            &&& r->Ok_0.correlation_id@ == request.correlation_id@
            &&& r->Ok_0.causation_id == request.causation_id
            &&& r->Ok_0.requested_by == request.requested_by
            &&& r->Ok_0.purpose@ == "transactional.access_request"@
            &&& r->Ok_0.request_digest@ == digest_of(encoded@)
            &&& r->Ok_0.rendered == *rendered
        },
{
    lemma_answers(
        *rendered,
        template_of(request.template.event),
        "v1"@,
        request.recipient.locale@,
    );
    crate::laws::accepting::law_access_request_is_valid_within_its_bounds(request, now, valid);
}

/// The key and the template of an access-request notification go by its
/// event.
pub proof fn law_event_names_key_and_template(
    request_id: &str,
    event: AccessRequestNotificationEvent,
    word: &'static str,
    key: String,
    template: &'static str,
)
    requires
        call_ensures(AccessRequestNotificationEvent::as_str, (event,), word),
        call_ensures(access_request_idempotency_key, (request_id, event), key),
        call_ensures(access_request_template_id, (event,), template),
    ensures
        word@ == told_word(event),
        key@ == "access-request:"@ + request_id@ + ":"@ + told_word(event),
        template@ == template_of(event),
        template@ == "access-request-"@ + word@,
{
    reveal_strlit("access-request-");
    reveal_strlit("submitted");
    reveal_strlit("approved");
    reveal_strlit("denied");
    reveal_strlit("expiring");
    reveal_strlit("access-request-submitted");
    reveal_strlit("access-request-approved");
    reveal_strlit("access-request-denied");
    reveal_strlit("access-request-expiring");
    assert(template@ =~= "access-request-"@ + word@);
}

/// An intent that is stored already is answered as it is stored; under another
/// digest it is a conflict, and where none is stored there is nothing to
/// answer.
pub proof fn law_stored_intent_is_answered(
    existing: Option<StoredIntent>,
    digest: &str,
    r: Result<Option<TransactionalIntentReceipt>, NotificationError>,
)
    requires
        call_ensures(project_idempotent_intent, (existing, digest), r),
    ensures
        existing is None <==> (r is Ok && r->Ok_0 is None),
        existing is Some && existing->Some_0.request_digest@ != digest@ ==> refused(
            r,
            ErrorCode::Conflict,
            "Notification idempotency key was used with different input"@,
        ),
        existing is Some && existing->Some_0.request_digest@ == digest@ && !a_status_word(
            existing->Some_0.status@,
        ) ==> refused(
            r,
            ErrorCode::Internal,
            "Notification delivery has an invalid stored status"@,
        ),
        existing is Some && existing->Some_0.request_digest@ == digest@ && a_status_word(
            existing->Some_0.status@,
        ) ==> r is Ok && r->Ok_0 is Some && {
            let receipt = r->Ok_0->Some_0;
            &&& receipt.intent_id@ == existing->Some_0.intent_id@
            &&& receipt.delivery_id@ == existing->Some_0.delivery_id@
            &&& receipt.status.name() == existing->Some_0.status@
            &&& receipt.idempotent_replay
        },
{
}

/// A new intent begins with the release of the template that rendered it, where
/// the message is the one that its digest is taken over; one that is stored
/// already is replayed instead.
pub proof fn law_new_intent_begins_with_its_release(
    intent: &IntentPersistence,
    existing: Option<StoredIntent>,
    now: UtcTime,
    r: Result<IntentStart, NotificationError>,
)
    requires
        call_ensures(start_intent, (intent, existing, now), r),
    ensures
        (r is Ok && r->Ok_0 is Release) <==> existing is None && intent.rendered.content_digest@
            == digest_of(
            measured(intent.rendered.subject@) + measured(intent.rendered.text@) + measured(
                intent.rendered.html@,
            ),
        ),
        existing is None && r is Err ==> refused(
            r,
            ErrorCode::Internal,
            "Notification Template content digest does not match rendered content"@,
        ),
        r is Ok && r->Ok_0 is Release ==> {
            let row = r->Ok_0->Release_0;
            &&& row.template_id@ == intent.rendered.template_id@
            &&& row.version@ == intent.rendered.template_version@
            &&& row.locale@ == intent.rendered.resolved_locale@
            &&& row.renderer_identity@ == intent.rendered.renderer_identity@
            &&& row.template_digest@ == intent.rendered.template_digest@
            &&& row.created_at == now
            &&& row.id@ == stable_id_text(
                "ntf_tpl"@,
                intent.rendered.template_id@ + ":"@ + intent.rendered.template_version@ + ":"@
                    + intent.rendered.resolved_locale@,
            )
        },
        (r is Ok && r->Ok_0 is Replay) <==> existing is Some
            && existing->Some_0.request_digest@ == intent.request_digest@ && a_status_word(
            existing->Some_0.status@,
        ),
        r is Ok && r->Ok_0 is Replay ==> {
            let receipt = r->Ok_0->Replay_0;
            &&& receipt.intent_id@ == existing->Some_0.intent_id@
            &&& receipt.delivery_id@ == existing->Some_0.delivery_id@
            &&& receipt.status.name() == existing->Some_0.status@
            &&& receipt.idempotent_replay
        },
        existing is Some && existing->Some_0.request_digest@ != intent.request_digest@ ==> refused(
            r,
            ErrorCode::Conflict,
            "Notification idempotency key was used with different input"@,
        ),
{
    assert(intent.rendered.message_digest() == digest_of(
        measured(intent.rendered.subject@) + measured(intent.rendered.text@) + measured(
            intent.rendered.html@,
        ),
    ));
}

/// A new intent is stored column by column: each protected part where it
/// belongs, the delivery queued, due at once, at its first revision and with
/// four attempts to come. Its identifiers go by what makes the intent the
/// intent that it is, and the caller is told these and no others.
pub proof fn law_new_intent_is_stored_column_by_column(
    intent: &IntentPersistence,
    message: ProtectedMessage,
    now: UtcTime,
    rows: IntentRows,
)
    requires
        call_ensures(assemble_intent, (intent, message, now), rows),
    ensures
        rows.snapshot.subject_ciphertext@ == message.subject.ciphertext@,
        rows.snapshot.text_ciphertext@ == message.text.ciphertext@,
        rows.snapshot.html_ciphertext@ == message.html.ciphertext@,
        rows.snapshot.protection_key_ref@ == message.subject.key_reference@,
        rows.snapshot.content_digest@ == digest_of(
            measured(intent.rendered.subject@) + measured(intent.rendered.text@) + measured(
                intent.rendered.html@,
            ),
        ),
        rows.snapshot.created_at == now,
        rows.snapshot.id@ == stable_id_text("ntf_snp"@, intent.request_digest@),
        rows.snapshot.template_release_id@ == stable_id_text(
            "ntf_tpl"@,
            intent.rendered.template_id@ + ":"@ + intent.rendered.template_version@ + ":"@
                + intent.rendered.resolved_locale@,
        ),
        rows.intent.id@ == stable_id_text(
            "ntf_int"@,
            intent.source.module_id@ + ":"@ + intent.idempotency_key@ + ":"@
                + intent.request_digest@,
        ),
        rows.intent.purpose@ == intent.purpose@,
        rows.intent.source == intent.source,
        rows.intent.recipient_ciphertext@ == message.recipient.ciphertext@,
        rows.intent.recipient_key_ref@ == message.recipient.key_reference@,
        rows.intent.locale@ == intent.recipient.locale@,
        rows.intent.snapshot_id@ == rows.snapshot.id@,
        rows.intent.idempotency_key@ == intent.idempotency_key@,
        rows.intent.request_digest@ == intent.request_digest@,
        rows.intent.requested_by == intent.requested_by,
        rows.intent.correlation_id@ == intent.correlation_id@,
        rows.intent.causation_id == intent.causation_id,
        rows.intent.requested_at == now,
        rows.delivery.id@ == stable_id_text("ntf_dlv"@, rows.intent.id@),
        rows.delivery.intent_id@ == rows.intent.id@,
        rows.delivery.channel@ == "email"@,
        rows.delivery.status is Queued,
        rows.delivery.revision == 1,
        rows.delivery.attempt_count == 0,
        rows.delivery.max_attempts == 4,
        rows.delivery.next_attempt_at == now,
        rows.delivery.created_at == now,
        rows.delivery.updated_at == now,
        rows.receipt.intent_id@ == rows.intent.id@,
        rows.receipt.delivery_id@ == rows.delivery.id@,
        rows.receipt.status is Queued,
        !rows.receipt.idempotent_replay,
{
}

/// What is shown of an intent is its mask and its redacted preview, never the
/// message or the address itself.
pub proof fn law_new_intent_shows_mask_and_preview(
    intent: &IntentPersistence,
    message: ProtectedMessage,
    now: UtcTime,
    rows: IntentRows,
    address: &str,
    mask: String,
    text: &str,
    preview: String,
)
    requires
        call_ensures(assemble_intent, (intent, message, now), rows),
        address@ == intent.recipient.address@,
        call_ensures(mask_email, (address,), mask),
        text@ == intent.rendered.text@,
        call_ensures(redact_preview, (text,), preview),
    ensures
        rows.intent.recipient_mask@ == mask@,
        rows.snapshot.redacted_preview@ == preview@,
{
}

/// What is stored of a new intent reveals to its message and its recipient,
/// part by part and under one key for the message; a template release that was
/// stored with another digest stops it.
pub proof fn law_stored_intent_reveals_its_message<P: SnapshotProtector>(
    intent: &IntentPersistence,
    stored: &str,
    now: UtcTime,
    protector: &P,
    r: Result<IntentRows, NotificationError>,
)
    requires
        call_ensures(persist_intent::<P>, (intent, stored, now, protector), r),
    ensures
        stored@ != intent.rendered.template_digest@ ==> refused(
            r,
            ErrorCode::Internal,
            "Notification template release is immutable"@,
        ),
        r is Ok ==> {
            let rows = r->Ok_0;
            let key = rows.snapshot.protection_key_ref@;
            &&& stored@ == intent.rendered.template_digest@
            &&& protector.revealed(rows.snapshot.subject_ciphertext@, key) == Ok::<
                Seq<char>,
                crate::error::FailureView,
            >(intent.rendered.subject@)
            &&& protector.revealed(rows.snapshot.text_ciphertext@, key) == Ok::<
                Seq<char>,
                crate::error::FailureView,
            >(intent.rendered.text@)
            &&& protector.revealed(rows.snapshot.html_ciphertext@, key) == Ok::<
                Seq<char>,
                crate::error::FailureView,
            >(intent.rendered.html@)
            &&& protector.revealed(
                rows.intent.recipient_ciphertext@,
                rows.intent.recipient_key_ref@,
            ) == Ok::<Seq<char>, crate::error::FailureView>(intent.recipient.address@)
            &&& rows.delivery.status is Queued
            &&& rows.delivery.intent_id@ == rows.intent.id@
            &&& rows.intent.snapshot_id@ == rows.snapshot.id@
            &&& rows.intent.idempotency_key@ == intent.idempotency_key@
            &&& rows.intent.request_digest@ == intent.request_digest@
            &&& rows.receipt.intent_id@ == rows.intent.id@
            &&& rows.receipt.delivery_id@ == rows.delivery.id@
        },
{
}

/// The parts of a message go together only under one key.
pub proof fn law_message_has_one_key(
    subject: &ProtectedValue,
    text: &ProtectedValue,
    html: &ProtectedValue,
    r: Result<(), NotificationError>,
)
    requires
        call_ensures(require_one_key, (subject, text, html), r),
    ensures
        r is Ok <==> subject.key_reference@ == text.key_reference@ && html.key_reference@
            == subject.key_reference@,
        r is Err ==> refused(
            r,
            ErrorCode::Internal,
            "Notification snapshot protection key changed during rendering"@,
        ),
{
}

/// Whether creation ended with the ledger's refusal.
pub open spec fn creation_refused(step: CreationStep, code: ErrorCode, text: Seq<char>) -> bool {
    &&& step is Answer
    &&& step->Answer_0 is Err
    &&& step->Answer_0->Err_0 is Ledger
    &&& step->Answer_0->Err_0->Ledger_0.code == code
    &&& step->Answer_0->Err_0->Ledger_0.message@ == text
    &&& step->Answer_0->Err_0->Ledger_0.source is None
}

/// Whether creation ended with the intent that is stored under these names.
pub open spec fn creation_answered(
    step: CreationStep,
    intent_id: Seq<char>,
    delivery_id: Seq<char>,
    replay: bool,
) -> bool {
    &&& step is Answer
    &&& step->Answer_0 is Ok
    &&& step->Answer_0->Ok_0.intent_id@ == intent_id
    &&& step->Answer_0->Ok_0.delivery_id@ == delivery_id
    &&& step->Answer_0->Ok_0.idempotent_replay == replay
    &&& step->Answer_0->Ok_0.status is Queued
}

/// What is first wrong with an intent of either purpose.
pub open spec fn first_complaint(intent: NewIntent, now: UtcTime) -> Seq<char> {
    match intent {
        NewIntent::Invitation(request) => first_complaint_about_invitation(request, now),
        NewIntent::AccessRequest(request) => first_complaint_about_access_request(request, now),
    }
}

/// The ledger is asked for an intent exactly where the intent is valid; what is
/// first wrong with another one is the answer.
pub proof fn law_valid_intent_is_looked_up(
    intent: NewIntent,
    now: UtcTime,
    step: CreationStep,
    valid: Result<(), NotificationError>,
)
    requires
        call_ensures(begin_creation, (intent, now), step),
        match intent {
            NewIntent::Invitation(request) => call_ensures(
                validate_invitation_request,
                (&request, now),
                valid,
            ),
            NewIntent::AccessRequest(request) => call_ensures(
                validate_access_request,
                (&request, now),
                valid,
            ),
        },
    ensures
        valid is Ok ==> step is Go && step->Go_0 is Lookup && step->Go_0->Lookup_intent == intent,
        valid is Err ==> creation_refused(
            step,
            ErrorCode::Validation,
            first_complaint(intent, now),
        ),
{
    match intent {
        NewIntent::Invitation(request) => {
            crate::laws::accepting::law_invitation_is_valid_within_its_bounds(
                &request,
                now,
                valid,
            );
        },
        NewIntent::AccessRequest(request) => {
            crate::laws::accepting::law_access_request_is_valid_within_its_bounds(
                &request,
                now,
                valid,
            );
        },
    }
}

/// An intent is created in order: the ledger is asked, the message is rendered,
/// a transaction begins, the ledger is asked again under the lock of the source
/// and the key, the release is stored, the rows are stored, and only a
/// commit is answered as accepted. The failure of a stage is the answer to it,
/// and nothing else ends the creation.
pub proof fn law_creation_takes_one_step_at_a_time<P: SnapshotProtector>(
    stage: CreationStage,
    event: CreationEvent,
    now: UtcTime,
    protector: &P,
    step: CreationStep,
)
    requires
        call_ensures(advance_creation::<P>, (stage, event, now, protector), step),
    ensures
        stage is Lookup && event is Stored ==> {
            &&& step is Go ==> event->Stored_0 is None && step->Go_0 is Render
                && step->Go_0->Render_intent == stage->Lookup_intent
            &&& step is Answer && step->Answer_0 is Ok ==> event->Stored_0 is Some
                && creation_answered(
                step,
                event->Stored_0->Some_0.intent_id@,
                event->Stored_0->Some_0.delivery_id@,
                true,
            )
        },
        stage is Render && event is Rendered ==> step is Go && step->Go_0 is Begin
            && step->Go_0->Begin_intent == stage->Render_intent
            && step->Go_0->Begin_rendered.subject@ == event->Rendered_0.subject@
            && step->Go_0->Begin_rendered.text@ == event->Rendered_0.text@
            && step->Go_0->Begin_rendered.html@ == event->Rendered_0.html@
            && step->Go_0->Begin_rendered.content_digest@ == event->Rendered_0.content_digest@,
        stage is Render && event is NotRendered ==> step is Answer && step->Answer_0 is Err
            && step->Answer_0->Err_0 is Runtime,
        stage is Begin && event is Done && step is Go ==> step->Go_0 is Recheck
            && step->Go_0->Recheck_admitted.rendered == stage->Begin_rendered
            && step->Go_0->Recheck_lock@ == "notification:"@
            + step->Go_0->Recheck_admitted.source.module_id@ + ":"@
            + step->Go_0->Recheck_admitted.idempotency_key@,
        stage is Begin && event is Done && step is Answer ==> step->Answer_0 is Err,
        stage is Recheck && event is Stored && event->Stored_0 is None ==> {
            &&& step is Go ==> step->Go_0 is Release && step->Go_0->Release_admitted
                == stage->Recheck_admitted && step->Go_0->Release_release.template_digest@
                == stage->Recheck_admitted.rendered.template_digest@
            &&& step is Answer ==> creation_refused(
                step,
                ErrorCode::Internal,
                "Notification Template content digest does not match rendered content"@,
            )
        },
        stage is Recheck && event is Stored && event->Stored_0 is Some ==> {
            let stored = event->Stored_0->Some_0;
            let same = stored.request_digest@ == stage->Recheck_admitted.request_digest@;
            &&& !same ==> creation_refused(
                step,
                ErrorCode::Conflict,
                "Notification idempotency key was used with different input"@,
            )
            &&& same && a_status_word(stored.status@) ==> step is Go && step->Go_0 is Commit
                && step->Go_0->Commit_receipt.intent_id@ == stored.intent_id@
                && step->Go_0->Commit_receipt.delivery_id@ == stored.delivery_id@
                && step->Go_0->Commit_receipt.idempotent_replay
        },
        stage is Release && event is Released ==> {
            let admitted = stage->Release_admitted;
            &&& event->Released_0@ != admitted.rendered.template_digest@ ==> creation_refused(
                step,
                ErrorCode::Internal,
                "Notification template release is immutable"@,
            )
            &&& step is Go ==> step->Go_0 is Record
                && step->Go_0->Record_rows.intent.idempotency_key@ == admitted.idempotency_key@
                && step->Go_0->Record_rows.intent.request_digest@ == admitted.request_digest@
                && step->Go_0->Record_rows.delivery.status is Queued
        },
        stage is Record && event is Done ==> step is Go && step->Go_0 is Commit
            && step->Go_0->Commit_receipt == stage->Record_rows.receipt,
        stage is Commit && event is Done ==> creation_answered(
            step,
            stage->Commit_receipt.intent_id@,
            stage->Commit_receipt.delivery_id@,
            stage->Commit_receipt.idempotent_replay,
        ),
        event is Failed && (stage is Lookup || stage is Recheck || stage is Release || stage
            is Record) ==> step == CreationStep::Answer(
            Err(CreationFailure::Ledger(event->Failed_0)),
        ),
        event is Interrupted && (stage is Begin || stage is Commit) ==> step
            == CreationStep::Answer(Err(CreationFailure::Runtime(event->Interrupted_0))),
{
    reveal_strlit("notification");
    reveal_strlit("notification:");
    reveal_strlit(":");
    assert("notification"@ + ":"@ =~= "notification:"@);
    if stage is Begin && event is Done && step is Go {
        let admitted = step->Go_0->Recheck_admitted;
        assert(step->Go_0->Recheck_lock@ =~= "notification:"@ + admitted.source.module_id@ + ":"@
            + admitted.idempotency_key@);
    }
}

/// Where nothing is stored under its source and key, a valid intent is
/// rendered; where its own digest is stored, it is answered without rendering;
/// and where another digest is stored, it is a conflict.
pub proof fn law_looked_up_intent_is_rendered_or_answered<P: SnapshotProtector>(
    intent: NewIntent,
    now: UtcTime,
    begun: CreationStep,
    existing: Option<StoredIntent>,
    protector: &P,
    step: CreationStep,
    encoded: Vec<u8>,
)
    requires
        call_ensures(begin_creation, (intent, now), begun),
        begun is Go,
        call_ensures(
            advance_creation::<P>,
            (CreationStage::Lookup { intent }, CreationEvent::Stored(existing), now, protector),
            step,
        ),
        call_ensures(NewIntent::encoded, (&intent,), encoded),
    ensures
        existing is None ==> step is Go && step->Go_0 is Render && step->Go_0->Render_intent
            == intent,
        existing is Some && existing->Some_0.request_digest@ != digest_of(encoded@)
            ==> creation_refused(
            step,
            ErrorCode::Conflict,
            "Notification idempotency key was used with different input"@,
        ),
        existing is Some && existing->Some_0.request_digest@ == digest_of(encoded@)
            && a_status_word(existing->Some_0.status@) ==> creation_answered(
            step,
            existing->Some_0.intent_id@,
            existing->Some_0.delivery_id@,
            true,
        ),
        existing is Some && existing->Some_0.request_digest@ == digest_of(encoded@)
            && !a_status_word(existing->Some_0.status@) ==> creation_refused(
            step,
            ErrorCode::Internal,
            "Notification delivery has an invalid stored status"@,
        ),
{
}

/// The message that an intent is rendered with is asked for by the template of
/// its own purpose and in its own locale.
pub proof fn law_intent_is_rendered_by_its_own_template<P: SnapshotProtector>(
    intent: NewIntent,
    now: UtcTime,
    protector: &P,
    request: RenderRequest,
)
    requires
        call_ensures(
            advance_creation::<P>,
            (CreationStage::Lookup { intent }, CreationEvent::Stored(None), now, protector),
            CreationStep::Go(CreationStage::Render { intent, request }),
        ),
    ensures
        intent is Invitation ==> request.template_id@ == "organization-invitation"@
            && request.locale@ == intent->Invitation_0.recipient.locale@,
        intent is AccessRequest ==> request.template_id@ == template_of(
            intent->AccessRequest_0.template.event,
        ) && request.locale@ == intent->AccessRequest_0.recipient.locale@,
        request.version is Some && request.version->Some_0@ == "v1"@,
{
}

/// An intent is looked up by its own source and key.
pub proof fn law_intent_goes_under_its_source_and_key(
    intent: &NewIntent,
    module: &str,
    key: &str,
)
    requires
        call_ensures(NewIntent::source_module, (intent,), module),
        call_ensures(NewIntent::idempotency_key, (intent,), key),
    ensures
        *intent matches NewIntent::Invitation(request) ==> module@ == request.source.module_id@
            && key@ == request.idempotency_key@,
        *intent matches NewIntent::AccessRequest(request) ==> module@
            == request.source.module_id@ && key@ == request.idempotency_key@,
{
}

/// An intent that is taken into the transaction keeps what was requested, under
/// the purpose that it has.
pub proof fn law_intent_keeps_what_was_requested<P: SnapshotProtector>(
    intent: NewIntent,
    rendered: RenderedTemplate,
    now: UtcTime,
    protector: &P,
    admitted: IntentPersistence,
    lock: String,
)
    requires
        call_ensures(
            advance_creation::<P>,
            (CreationStage::Begin { intent, rendered }, CreationEvent::Done, now, protector),
            CreationStep::Go(CreationStage::Recheck { admitted, lock }),
        ),
    ensures
        intent matches NewIntent::Invitation(request) ==> {
            &&& admitted.source == request.source
            &&& admitted.recipient == request.recipient
            &&& admitted.idempotency_key@ == request.idempotency_key@
            &&& admitted.correlation_id@ == request.correlation_id@
            &&& admitted.causation_id == request.causation_id
            &&& admitted.requested_by == request.requested_by
            &&& admitted.purpose@ == "transactional.organization_invitation"@
            &&& answers_the_request(
                rendered,
                "organization-invitation"@,
                "v1"@,
                request.recipient.locale@,
            )
        },
        intent matches NewIntent::AccessRequest(request) ==> {
            &&& admitted.source == request.source
            &&& admitted.recipient == request.recipient
            &&& admitted.idempotency_key@ == request.idempotency_key@
            &&& admitted.correlation_id@ == request.correlation_id@
            &&& admitted.causation_id == request.causation_id
            &&& admitted.requested_by == request.requested_by
            &&& admitted.purpose@ == "transactional.access_request"@
            &&& answers_the_request(
                rendered,
                template_of(request.template.event),
                "v1"@,
                request.recipient.locale@,
            )
        },
        admitted.rendered == rendered,
{
    match intent {
        NewIntent::Invitation(request) => {
            lemma_answers(
                rendered,
                "organization-invitation"@,
                "v1"@,
                request.recipient.locale@,
            );
        },
        NewIntent::AccessRequest(request) => {
            lemma_answers(
                rendered,
                template_of(request.template.event),
                "v1"@,
                request.recipient.locale@,
            );
        },
    }
}

/// A request that was accepted before is found by its digest alone, where it is
/// valid; requests with one key of one module wait for each other.
pub proof fn law_accepted_request_is_found_by_its_digest(
    invitation: &CreateTransactionalEmailIntent,
    invitation_valid: Result<(), NotificationError>,
    notification: &CreateAccessRequestNotificationIntent,
    notification_valid: Result<(), NotificationError>,
    encoded: &[u8],
    digest: &str,
    existing: Option<StoredIntent>,
    now: UtcTime,
    invited: Result<Option<TransactionalIntentReceipt>, NotificationError>,
    notified: Result<Option<TransactionalIntentReceipt>, NotificationError>,
    projected: Result<Option<TransactionalIntentReceipt>, NotificationError>,
    persistence: &IntentPersistence,
    lock: String,
)
    requires
        digest@ == digest_of(encoded@),
        call_ensures(validate_invitation_request, (invitation, now), invitation_valid),
        call_ensures(validate_access_request, (notification, now), notification_valid),
        call_ensures(
            find_transactional_email_intent_replay,
            (invitation, encoded, existing, now),
            invited,
        ),
        call_ensures(
            find_access_request_notification_replay,
            (notification, encoded, existing, now),
            notified,
        ),
        call_ensures(project_idempotent_intent, (existing, digest), projected),
        call_ensures(IntentPersistence::lock_name, (persistence,), lock),
    ensures
        invitation_valid is Err ==> invited is Err && invited->Err_0.message@
            == invitation_valid->Err_0.message@ && invited->Err_0.code is Validation,
        invitation_valid is Ok ==> same_answer(invited, projected),
        notification_valid is Err ==> notified is Err && notified->Err_0.message@
            == notification_valid->Err_0.message@ && notified->Err_0.code is Validation,
        notification_valid is Ok ==> same_answer(notified, projected),
        lock@ == "notification"@ + ":"@ + persistence.source.module_id@ + ":"@
            + persistence.idempotency_key@,
{
}

/// Whether two lookups answer alike.
pub open spec fn same_answer(
    a: Result<Option<TransactionalIntentReceipt>, NotificationError>,
    b: Result<Option<TransactionalIntentReceipt>, NotificationError>,
) -> bool {
    &&& a is Ok <==> b is Ok
    &&& a is Ok ==> a->Ok_0 == b->Ok_0
    &&& a is Err ==> a->Err_0.code == b->Err_0.code && a->Err_0.message@ == b->Err_0.message@
}

/// What an invitation says reaches the template provider as it was requested:
/// the name of the organization, the link, who invites, the role and the
/// recipient, each under its own name and no other.
pub proof fn law_invitation_reaches_the_provider(
    caller: Option<&str>,
    allowed: &Vec<String>,
    request: CreateOrganizationInvitationRequest,
    now: UtcTime,
    intent: CreateTransactionalEmailIntent,
    asked: RenderRequest,
)
    requires
        call_ensures(
            create_organization_invitation,
            (caller, allowed, request, now),
            Ok::<_, PluginError<CreateOrganizationInvitationError>>(intent),
        ),
        call_ensures(organization_invitation_render_request, (&intent,), asked),
    ensures
        asked.variables@.len() == 7,
        binds(asked, 1, "invitation_url"@, request.template.invitation_url@),
        binds_cut(asked, 2, "inviter_display_name"@, request.template.inviter_display_name),
        binds_cut(asked, 4, "organization_name"@, Some(request.template.organization_name)),
        binds_cut(asked, 5, "recipient_display_name"@, request.recipient.display_name),
        binds_cut(asked, 6, "role_name"@, request.template.role_name),
        request.recipient.locale is En ==> asked.locale@ == "en"@ && binds(
            asked,
            3,
            "locale"@,
            "en"@,
        ),
        request.recipient.locale is EnUS ==> asked.locale@ == "en-US"@ && binds(
            asked,
            3,
            "locale"@,
            "en-US"@,
        ),
{
    law_invitation_is_rendered_as_it_is(&intent, asked);
}

/// What an access-request notification says reaches the template provider as it
/// was requested, by the template of the requested event.
pub proof fn law_access_request_reaches_the_provider(
    caller: Option<&str>,
    allowed: &Vec<String>,
    request: CreateAccessRequestNotificationRequest,
    now: UtcTime,
    intent: CreateAccessRequestNotificationIntent,
    asked: RenderRequest,
)
    requires
        call_ensures(
            create_access_request_notification,
            (caller, allowed, request, now),
            Ok::<_, PluginError<CreateAccessRequestNotificationError>>(intent),
        ),
        call_ensures(access_request_render_request, (&intent,), asked),
    ensures
        asked.template_id@ == "access-request-"@ + (if request.event is Submitted {
            "submitted"@
        } else if request.event is Approved {
            "approved"@
        } else if request.event is Denied {
            "denied"@
        } else {
            "expiring"@
        }),
        ({
            let first: int = if request.event is Denied {
                0
            } else {
                1
            };
            &&& asked.variables@.len() == 7 + first
            &&& binds(asked, first + 1, "organization_id"@, request.organization_id@)
            &&& binds_cut(
                asked,
                first + 2,
                "recipient_display_name"@,
                request.recipient.display_name,
            )
            &&& binds(asked, first + 3, "request_id"@, request.request_id@)
            &&& binds_named(
                asked,
                first + 4,
                "role"@,
                request.role.display_name,
                request.role.role_id@,
            )
            &&& binds_named(
                asked,
                first + 5,
                "scope"@,
                request.scope.display_name,
                request.scope.id@,
            )
            &&& binds(asked, first + 6, "scope_kind"@, request.scope.kind@)
        }),
{
    law_access_request_is_rendered_as_it_is(&intent, asked);
    reveal_strlit("access-request-");
    reveal_strlit("submitted");
    reveal_strlit("approved");
    reveal_strlit("denied");
    reveal_strlit("expiring");
    reveal_strlit("access-request-submitted");
    reveal_strlit("access-request-approved");
    reveal_strlit("access-request-denied");
    reveal_strlit("access-request-expiring");
    assert("access-request-submitted"@ =~= "access-request-"@ + "submitted"@);
    assert("access-request-approved"@ =~= "access-request-"@ + "approved"@);
    assert("access-request-denied"@ =~= "access-request-"@ + "denied"@);
    assert("access-request-expiring"@ =~= "access-request-"@ + "expiring"@);
}

/// An intent with its message goes on to the transaction exactly where it is
/// still valid and the message answers what was asked; what is wrong with it is
/// the answer otherwise.
pub proof fn law_valid_rendered_intent_goes_on<P: SnapshotProtector>(
    intent: NewIntent,
    rendered: RenderedTemplate,
    now: UtcTime,
    protector: &P,
    step: CreationStep,
    valid: Result<(), NotificationError>,
)
    requires
        call_ensures(
            advance_creation::<P>,
            (CreationStage::Begin { intent, rendered }, CreationEvent::Done, now, protector),
            step,
        ),
        match intent {
            NewIntent::Invitation(request) => call_ensures(
                validate_invitation_request,
                (&request, now),
                valid,
            ),
            NewIntent::AccessRequest(request) => call_ensures(
                validate_access_request,
                (&request, now),
                valid,
            ),
        },
    ensures
        ({
            let answered = match intent {
                NewIntent::Invitation(request) => answers_the_request(
                    rendered,
                    "organization-invitation"@,
                    "v1"@,
                    request.recipient.locale@,
                ),
                NewIntent::AccessRequest(request) => answers_the_request(
                    rendered,
                    template_of(request.template.event),
                    "v1"@,
                    request.recipient.locale@,
                ),
            };
            &&& valid is Ok && answered ==> step is Go && step->Go_0 is Recheck
            &&& valid is Ok && !answered ==> creation_refused(
                step,
                ErrorCode::Internal,
                "Notification Template Provider returned an invalid render projection"@,
            )
            &&& valid is Err ==> creation_refused(
                step,
                ErrorCode::Validation,
                first_complaint(intent, now),
            )
        }),
{
    match intent {
        NewIntent::Invitation(request) => {
            crate::laws::accepting::law_invitation_is_valid_within_its_bounds(
                &request,
                now,
                valid,
            );
            lemma_answers(
                rendered,
                "organization-invitation"@,
                "v1"@,
                request.recipient.locale@,
            );
        },
        NewIntent::AccessRequest(request) => {
            crate::laws::accepting::law_access_request_is_valid_within_its_bounds(
                &request,
                now,
                valid,
            );
            lemma_answers(
                rendered,
                template_of(request.template.event),
                "v1"@,
                request.recipient.locale@,
            );
        },
    }
}

/// A new intent goes on to its release exactly where its message is the one that
/// its digest is taken over; one that is stored already, with a status that is
/// none, is a failure.
pub proof fn law_rechecked_intent_goes_on<P: SnapshotProtector>(
    admitted: IntentPersistence,
    lock: String,
    existing: Option<StoredIntent>,
    now: UtcTime,
    protector: &P,
    step: CreationStep,
)
    requires
        call_ensures(
            advance_creation::<P>,
            (
                CreationStage::Recheck { admitted, lock },
                CreationEvent::Stored(existing),
                now,
                protector,
            ),
            step,
        ),
    ensures
        (step is Go && step->Go_0 is Release) <==> existing is None
            && admitted.rendered.content_digest@ == digest_of(
            measured(admitted.rendered.subject@) + measured(admitted.rendered.text@) + measured(
                admitted.rendered.html@,
            ),
        ),
        existing is Some && existing->Some_0.request_digest@ == admitted.request_digest@
            && !a_status_word(existing->Some_0.status@) ==> creation_refused(
            step,
            ErrorCode::Internal,
            "Notification delivery has an invalid stored status"@,
        ),
{
    assert(admitted.rendered.message_digest() == digest_of(
        measured(admitted.rendered.subject@) + measured(admitted.rendered.text@) + measured(
            admitted.rendered.html@,
        ),
    ));
}

/// A protector that never refuses lets every intent through whose release is
/// stored as it was rendered.
pub proof fn law_only_the_protector_stops_a_released_intent(
    intent: &IntentPersistence,
    stored: &str,
    now: UtcTime,
    test: &TestSnapshotProtector,
    r: Result<IntentRows, NotificationError>,
    sealing: &AeadSnapshotProtector,
    s: Result<IntentRows, NotificationError>,
)
    requires
        stored@ == intent.rendered.template_digest@,
        call_ensures(persist_intent::<TestSnapshotProtector>, (intent, stored, now, test), r),
        call_ensures(persist_intent::<AeadSnapshotProtector>, (intent, stored, now, sealing), s),
    ensures
        r is Ok,
        s is Err ==> s->Err_0.code is Internal && (s->Err_0.message@
            == "Notification snapshot nonce generation failed"@ || s->Err_0.message@
            == "Notification snapshot encryption failed"@),
{
    assert(!crate::public::key_can_change(*test, *intent));
    assert(!crate::public::key_can_change(*sealing, *intent));
}

/// An intent that is stored with a status that is none is a failure.
pub proof fn law_stored_status_is_one(
    intent: &IntentPersistence,
    existing: StoredIntent,
    now: UtcTime,
    r: Result<IntentStart, NotificationError>,
)
    requires
        call_ensures(start_intent, (intent, Some(existing), now), r),
        existing.request_digest@ == intent.request_digest@,
    ensures
        !a_status_word(existing.status@) <==> refused(
            r,
            ErrorCode::Internal,
            "Notification delivery has an invalid stored status"@,
        ),
{
}

} // verus!
