//! How intents are written down to be told apart.

use vstd::prelude::*;
use vstd::utf8::*;

use crate::intent::{encode_access_request, encode_invitation};
use crate::json::{json_members, json_quoted};
use crate::laws::accepting::told_word;
use crate::public::{CreateAccessRequestNotificationIntent, CreateTransactionalEmailIntent};
use crate::time::{rfc3339_exact, UtcTime};

verus! {

/// An optional text in JSON.
pub open spec fn optional(text: Option<String>) -> Seq<char> {
    if text is Some {
        json_quoted(text->Some_0@)
    } else {
        "null"@
    }
}

/// An optional instant in JSON.
pub open spec fn optional_instant(time: Option<UtcTime>) -> Seq<char> {
    if time is Some {
        json_quoted(rfc3339_exact(time->Some_0.seconds, time->Some_0.nanos))
    } else {
        "null"@
    }
}

/// An invitation in JSON: each field by its name, in the order of the fields.
pub open spec fn invitation_written(request: CreateTransactionalEmailIntent) -> Seq<char> {
    "{\"source\":{\"module_id\":"@ + (json_quoted(request.source.module_id@) + (
    ",\"entity_type\":"@ + (json_quoted(request.source.entity_type@) + (
    ",\"entity_id\":"@ + (json_quoted(request.source.entity_id@) + (
    "},\"recipient\":{\"address\":"@ + (json_quoted(request.recipient.address@) + (
    ",\"display_name\":"@ + (optional(request.recipient.display_name) + (
    ",\"locale\":"@ + (json_quoted(request.recipient.locale@) + (
    "},\"template\":{\"organization_id\":"@ + (json_quoted(request.template.organization_id@) + (
    ",\"organization_name\":"@ + (json_quoted(request.template.organization_name@) + (
    ",\"invitation_id\":"@ + (json_quoted(request.template.invitation_id@) + (
    ",\"invitation_url\":"@ + (json_quoted(request.template.invitation_url@) + (
    ",\"inviter_display_name\":"@ + (optional(request.template.inviter_display_name) + (
    ",\"role_name\":"@ + (optional(request.template.role_name) + (
    ",\"expires_at\":"@ + (optional_instant(Some(request.template.expires_at)) + (
    "},\"idempotency_key\":"@ + (json_quoted(request.idempotency_key@) + (
    ",\"correlation_id\":"@ + (json_quoted(request.correlation_id@) + (
    ",\"causation_id\":"@ + (optional(request.causation_id) + (
    ",\"requested_by\":"@ + (optional(request.requested_by) + (
    "}"@
    ))))))))))))))))))))))))))))))))))
}

/// An access-request notification in JSON: each field by its name, in the order
/// of the fields.
pub open spec fn access_request_written(
    request: CreateAccessRequestNotificationIntent,
) -> Seq<char> {
    "{\"source\":{\"module_id\":"@ + (json_quoted(request.source.module_id@) + (
    ",\"entity_type\":"@ + (json_quoted(request.source.entity_type@) + (
    ",\"entity_id\":"@ + (json_quoted(request.source.entity_id@) + (
    "},\"recipient\":{\"address\":"@ + (json_quoted(request.recipient.address@) + (
    ",\"display_name\":"@ + (optional(request.recipient.display_name) + (
    ",\"locale\":"@ + (json_quoted(request.recipient.locale@) + (
    "},\"template\":{\"request_id\":"@ + (json_quoted(request.template.request_id@) + (
    ",\"organization_id\":"@ + (json_quoted(request.template.organization_id@) + (
    ",\"event\":"@ + (json_quoted(told_word(request.template.event)) + (
    ",\"role\":{\"role_id\":"@ + (json_quoted(request.template.role.role_id@) + (
    ",\"display_name\":"@ + (optional(request.template.role.display_name) + (
    "},\"scope\":{\"kind\":"@ + (json_quoted(request.template.scope.kind@) + (
    ",\"id\":"@ + (json_quoted(request.template.scope.id@) + (
    ",\"display_name\":"@ + (optional(request.template.scope.display_name) + (
    "},\"expires_at\":"@ + (optional_instant(request.template.expires_at) + (
    "},\"idempotency_key\":"@ + (json_quoted(request.idempotency_key@) + (
    ",\"correlation_id\":"@ + (json_quoted(request.correlation_id@) + (
    ",\"causation_id\":"@ + (optional(request.causation_id) + (
    ",\"requested_by\":"@ + (optional(request.requested_by) + (
    "}"@
    ))))))))))))))))))))))))))))))))))))))
}

proof fn lemma_next_member(members: Seq<(Seq<char>, Option<Seq<char>>)>, at: int)
    requires
        0 <= at < members.len(),
    ensures
        json_members(members.skip(at)) + "}"@ == members[at].0 + (crate::json::json_option(
            members[at].1,
        ) + (json_members(members.skip(at + 1)) + "}"@)),
{
    let rest = members.skip(at);
    assert(rest[0] == members[at]);
    assert(rest.skip(1) =~= members.skip(at + 1));
    assert(json_members(rest) + "}"@ =~= members[at].0 + (crate::json::json_option(members[at].1)
        + (json_members(members.skip(at + 1)) + "}"@)));
}

proof fn lemma_last_member(members: Seq<(Seq<char>, Option<Seq<char>>)>)
    ensures
        json_members(members.skip(members.len() as int)) + "}"@ == "}"@,
        members.skip(0) == members,
{
    assert(members.skip(members.len() as int) =~= Seq::<(Seq<char>, Option<Seq<char>>)>::empty());
    assert(json_members(members.skip(members.len() as int)) + "}"@ =~= "}"@);
    assert(members.skip(0) =~= members);
}

/// An invitation is written field by field, each under its own name.
pub proof fn law_invitation_is_written_field_by_field(
    request: &CreateTransactionalEmailIntent,
    encoded: Vec<u8>,
)
    requires
        call_ensures(encode_invitation, (request,), encoded),
    ensures
        encoded@ == encode_utf8(invitation_written(*request)),
{
    let members = crate::intent::invitation_members(*request);
    lemma_last_member(members);
    lemma_next_member(members, 16);
    lemma_next_member(members, 15);
    lemma_next_member(members, 14);
    lemma_next_member(members, 13);
    lemma_next_member(members, 12);
    lemma_next_member(members, 11);
    lemma_next_member(members, 10);
    lemma_next_member(members, 9);
    lemma_next_member(members, 8);
    lemma_next_member(members, 7);
    lemma_next_member(members, 6);
    lemma_next_member(members, 5);
    lemma_next_member(members, 4);
    lemma_next_member(members, 3);
    lemma_next_member(members, 2);
    lemma_next_member(members, 1);
    lemma_next_member(members, 0);
}

/// An access-request notification is written field by field, each under its own
/// name.
pub proof fn law_access_request_is_written_field_by_field(
    request: &CreateAccessRequestNotificationIntent,
    encoded: Vec<u8>,
)
    requires
        call_ensures(encode_access_request, (request,), encoded),
    ensures
        encoded@ == encode_utf8(access_request_written(*request)),
{
    let members = crate::intent::access_request_members(*request);
    lemma_last_member(members);
    lemma_next_member(members, 18);
    lemma_next_member(members, 17);
    lemma_next_member(members, 16);
    lemma_next_member(members, 15);
    lemma_next_member(members, 14);
    lemma_next_member(members, 13);
    lemma_next_member(members, 12);
    lemma_next_member(members, 11);
    lemma_next_member(members, 10);
    lemma_next_member(members, 9);
    lemma_next_member(members, 8);
    lemma_next_member(members, 7);
    lemma_next_member(members, 6);
    lemma_next_member(members, 5);
    lemma_next_member(members, 4);
    lemma_next_member(members, 3);
    lemma_next_member(members, 2);
    lemma_next_member(members, 1);
    lemma_next_member(members, 0);
}

/// Invitations whose encodings agree agree in every field, the expiry as it is
/// written.
pub proof fn law_same_encoding_is_the_same_invitation(
    a: &CreateTransactionalEmailIntent,
    a_encoded: Vec<u8>,
    b: &CreateTransactionalEmailIntent,
    b_encoded: Vec<u8>,
)
    requires
        call_ensures(encode_invitation, (a,), a_encoded),
        call_ensures(encode_invitation, (b,), b_encoded),
        a_encoded@ == b_encoded@,
    ensures
        a.source.module_id@ == b.source.module_id@,
        a.source.entity_type@ == b.source.entity_type@,
        a.source.entity_id@ == b.source.entity_id@,
        a.recipient.address@ == b.recipient.address@,
        optional(a.recipient.display_name) == optional(b.recipient.display_name),
        a.recipient.locale@ == b.recipient.locale@,
        a.template.organization_id@ == b.template.organization_id@,
        a.template.organization_name@ == b.template.organization_name@,
        a.template.invitation_id@ == b.template.invitation_id@,
        a.template.invitation_url@ == b.template.invitation_url@,
        optional(a.template.inviter_display_name) == optional(b.template.inviter_display_name),
        optional(a.template.role_name) == optional(b.template.role_name),
        a.idempotency_key@ == b.idempotency_key@,
        a.correlation_id@ == b.correlation_id@,
        optional(a.causation_id) == optional(b.causation_id),
        optional(a.requested_by) == optional(b.requested_by),
{
    crate::text::lemma_same_bytes(
        crate::intent::invitation_text(*a),
        crate::intent::invitation_text(*b),
    );
    crate::intent::lemma_text_tells_invitation(*a, *b);
}

/// Access-request notifications whose encodings agree agree in every field, the
/// expiry as it is written.
pub proof fn law_same_encoding_is_the_same_access_request(
    a: &CreateAccessRequestNotificationIntent,
    a_encoded: Vec<u8>,
    b: &CreateAccessRequestNotificationIntent,
    b_encoded: Vec<u8>,
)
    requires
        call_ensures(encode_access_request, (a,), a_encoded),
        call_ensures(encode_access_request, (b,), b_encoded),
        a_encoded@ == b_encoded@,
    ensures
        a.source.module_id@ == b.source.module_id@,
        a.source.entity_type@ == b.source.entity_type@,
        a.source.entity_id@ == b.source.entity_id@,
        a.recipient.address@ == b.recipient.address@,
        optional(a.recipient.display_name) == optional(b.recipient.display_name),
        a.recipient.locale@ == b.recipient.locale@,
        a.template.request_id@ == b.template.request_id@,
        a.template.organization_id@ == b.template.organization_id@,
        told_word(a.template.event) == told_word(b.template.event),
        a.template.role.role_id@ == b.template.role.role_id@,
        optional(a.template.role.display_name) == optional(b.template.role.display_name),
        a.template.scope.kind@ == b.template.scope.kind@,
        a.template.scope.id@ == b.template.scope.id@,
        optional(a.template.scope.display_name) == optional(b.template.scope.display_name),
        a.idempotency_key@ == b.idempotency_key@,
        a.correlation_id@ == b.correlation_id@,
        optional(a.causation_id) == optional(b.causation_id),
        optional(a.requested_by) == optional(b.requested_by),
{
    crate::text::lemma_same_bytes(
        crate::intent::access_request_text(*a),
        crate::intent::access_request_text(*b),
    );
    crate::intent::lemma_text_tells_access_request(*a, *b);
}

} // verus!
