//! What makes two intent requests the same: every field of them.

use vstd::prelude::*;
use vstd::string::*;
use vstd::utf8::*;

use crate::digest::{collide, digest_text, lemma_digest_texts_differ};
use crate::json::{json_members, lemma_members_are_delimited, lemma_members_split, member_views,
    write_members, JsonMember};
use crate::public::{AccessRequestNotificationEvent, CreateAccessRequestNotificationIntent,
    CreateTransactionalEmailIntent};
use crate::text::option_text;
use crate::time::{exact_text, four_digit_year, reads_back, write_exact, UtcTime};

verus! {

/// The text of an optional instant.
pub open spec fn exact_option(time: Option<UtcTime>) -> Option<Seq<char>> {
    match time {
        Some(at) => Some(exact_text(at)),
        None => None,
    }
}

/// The fields of an invitation, each behind the JSON text that leads to it.
pub open spec fn invitation_members(request: CreateTransactionalEmailIntent) -> Seq<
    (Seq<char>, Option<Seq<char>>),
> {
    seq![
        ("{\"source\":{\"module_id\":"@, Some(request.source.module_id@)),
        (",\"entity_type\":"@, Some(request.source.entity_type@)),
        (",\"entity_id\":"@, Some(request.source.entity_id@)),
        ("},\"recipient\":{\"address\":"@, Some(request.recipient.address@)),
        (",\"display_name\":"@, option_text(request.recipient.display_name)),
        (",\"locale\":"@, Some(request.recipient.locale@)),
        ("},\"template\":{\"organization_id\":"@, Some(request.template.organization_id@)),
        (",\"organization_name\":"@, Some(request.template.organization_name@)),
        (",\"invitation_id\":"@, Some(request.template.invitation_id@)),
        (",\"invitation_url\":"@, Some(request.template.invitation_url@)),
        (",\"inviter_display_name\":"@, option_text(request.template.inviter_display_name)),
        (",\"role_name\":"@, option_text(request.template.role_name)),
        (",\"expires_at\":"@, Some(exact_text(request.template.expires_at))),
        ("},\"idempotency_key\":"@, Some(request.idempotency_key@)),
        (",\"correlation_id\":"@, Some(request.correlation_id@)),
        (",\"causation_id\":"@, option_text(request.causation_id)),
        (",\"requested_by\":"@, option_text(request.requested_by)),
    ]
}

/// An invitation as one JSON object.
pub open spec fn invitation_text(request: CreateTransactionalEmailIntent) -> Seq<char> {
    json_members(invitation_members(request)) + "}"@
}

/// The fields of an access-request notification, each behind the JSON text that
/// leads to it.
pub open spec fn access_request_members(request: CreateAccessRequestNotificationIntent) -> Seq<
    (Seq<char>, Option<Seq<char>>),
> {
    seq![
        ("{\"source\":{\"module_id\":"@, Some(request.source.module_id@)),
        (",\"entity_type\":"@, Some(request.source.entity_type@)),
        (",\"entity_id\":"@, Some(request.source.entity_id@)),
        ("},\"recipient\":{\"address\":"@, Some(request.recipient.address@)),
        (",\"display_name\":"@, option_text(request.recipient.display_name)),
        (",\"locale\":"@, Some(request.recipient.locale@)),
        ("},\"template\":{\"request_id\":"@, Some(request.template.request_id@)),
        (",\"organization_id\":"@, Some(request.template.organization_id@)),
        (",\"event\":"@, Some(request.template.event.name())),
        (",\"role\":{\"role_id\":"@, Some(request.template.role.role_id@)),
        (",\"display_name\":"@, option_text(request.template.role.display_name)),
        ("},\"scope\":{\"kind\":"@, Some(request.template.scope.kind@)),
        (",\"id\":"@, Some(request.template.scope.id@)),
        (",\"display_name\":"@, option_text(request.template.scope.display_name)),
        ("},\"expires_at\":"@, exact_option(request.template.expires_at)),
        ("},\"idempotency_key\":"@, Some(request.idempotency_key@)),
        (",\"correlation_id\":"@, Some(request.correlation_id@)),
        (",\"causation_id\":"@, option_text(request.causation_id)),
        (",\"requested_by\":"@, option_text(request.requested_by)),
    ]
}

/// An access-request notification as one JSON object.
pub open spec fn access_request_text(request: CreateAccessRequestNotificationIntent) -> Seq<char> {
    json_members(access_request_members(request)) + "}"@
}

fn borrowed(text: &Option<String>) -> (r: Option<&str>)
    ensures
        match r {
            Some(found) => option_text(*text) == Some(found@),
            None => option_text(*text) is None,
        },
{
    match text {
        Some(value) => Some(value.as_str()),
        None => None,
    }
}

/// The bytes of an invitation, over which its digest is taken. In the years 0
/// to 9999 they tell the very instant at which the invitation expires.
pub fn encode_invitation(request: &CreateTransactionalEmailIntent) -> (encoded: Vec<u8>)
    requires
        request.template.expires_at.valid(),
    ensures
        encoded@ == encode_utf8(invitation_text(*request)),
        four_digit_year(request.template.expires_at) ==> reads_back(request.template.expires_at),
{
    let expires_at = write_exact(request.template.expires_at);
    let members = vec![
        JsonMember { label: "{\"source\":{\"module_id\":", value: Some(request.source.module_id.as_str()) },
        JsonMember { label: ",\"entity_type\":", value: Some(request.source.entity_type.as_str()) },
        JsonMember { label: ",\"entity_id\":", value: Some(request.source.entity_id.as_str()) },
        JsonMember { label: "},\"recipient\":{\"address\":", value: Some(request.recipient.address.as_str()) },
        JsonMember { label: ",\"display_name\":", value: borrowed(&request.recipient.display_name) },
        JsonMember { label: ",\"locale\":", value: Some(request.recipient.locale.as_str()) },
        JsonMember { label: "},\"template\":{\"organization_id\":", value: Some(request.template.organization_id.as_str()) },
        JsonMember { label: ",\"organization_name\":", value: Some(request.template.organization_name.as_str()) },
        JsonMember { label: ",\"invitation_id\":", value: Some(request.template.invitation_id.as_str()) },
        JsonMember { label: ",\"invitation_url\":", value: Some(request.template.invitation_url.as_str()) },
        JsonMember { label: ",\"inviter_display_name\":", value: borrowed(&request.template.inviter_display_name) },
        JsonMember { label: ",\"role_name\":", value: borrowed(&request.template.role_name) },
        JsonMember { label: ",\"expires_at\":", value: Some(expires_at.as_str()) },
        JsonMember { label: "},\"idempotency_key\":", value: Some(request.idempotency_key.as_str()) },
        JsonMember { label: ",\"correlation_id\":", value: Some(request.correlation_id.as_str()) },
        JsonMember { label: ",\"causation_id\":", value: borrowed(&request.causation_id) },
        JsonMember { label: ",\"requested_by\":", value: borrowed(&request.requested_by) },
    ];
    assert(member_views(members@) =~= invitation_members(*request));
    let mut text = write_members(&members);
    text.append("}");
    text.as_str().as_bytes_vec()
}

/// The bytes of an access-request notification, over which its digest is taken.
/// In the years 0 to 9999 they tell the very instant at which the request
/// expires.
pub fn encode_access_request(request: &CreateAccessRequestNotificationIntent) -> (encoded: Vec<u8>)
    requires
        request.template.expires_at matches Some(at) ==> at.valid(),
    ensures
        encoded@ == encode_utf8(access_request_text(*request)),
        request.template.expires_at matches Some(at) ==> four_digit_year(at) ==> reads_back(at),
{
    let expires_at = match request.template.expires_at {
        Some(at) => Some(write_exact(at)),
        None => None,
    };
    let members = vec![
        JsonMember { label: "{\"source\":{\"module_id\":", value: Some(request.source.module_id.as_str()) },
        JsonMember { label: ",\"entity_type\":", value: Some(request.source.entity_type.as_str()) },
        JsonMember { label: ",\"entity_id\":", value: Some(request.source.entity_id.as_str()) },
        JsonMember { label: "},\"recipient\":{\"address\":", value: Some(request.recipient.address.as_str()) },
        JsonMember { label: ",\"display_name\":", value: borrowed(&request.recipient.display_name) },
        JsonMember { label: ",\"locale\":", value: Some(request.recipient.locale.as_str()) },
        JsonMember { label: "},\"template\":{\"request_id\":", value: Some(request.template.request_id.as_str()) },
        JsonMember { label: ",\"organization_id\":", value: Some(request.template.organization_id.as_str()) },
        JsonMember { label: ",\"event\":", value: Some(request.template.event.as_str()) },
        JsonMember { label: ",\"role\":{\"role_id\":", value: Some(request.template.role.role_id.as_str()) },
        JsonMember { label: ",\"display_name\":", value: borrowed(&request.template.role.display_name) },
        JsonMember { label: "},\"scope\":{\"kind\":", value: Some(request.template.scope.kind.as_str()) },
        JsonMember { label: ",\"id\":", value: Some(request.template.scope.id.as_str()) },
        JsonMember { label: ",\"display_name\":", value: borrowed(&request.template.scope.display_name) },
        JsonMember { label: "},\"expires_at\":", value: borrowed(&expires_at) },
        JsonMember { label: "},\"idempotency_key\":", value: Some(request.idempotency_key.as_str()) },
        JsonMember { label: ",\"correlation_id\":", value: Some(request.correlation_id.as_str()) },
        JsonMember { label: ",\"causation_id\":", value: borrowed(&request.causation_id) },
        JsonMember { label: ",\"requested_by\":", value: borrowed(&request.requested_by) },
    ];
    assert(member_views(members@) =~= access_request_members(*request));
    let mut text = write_members(&members);
    text.append("}");
    text.as_str().as_bytes_vec()
}

/// Whether two invitations agree in every field, their expiries as they are
/// written.
pub open spec fn same_invitation(
    a: CreateTransactionalEmailIntent,
    b: CreateTransactionalEmailIntent,
) -> bool {
    &&& a.source.module_id@ == b.source.module_id@
    &&& a.source.entity_type@ == b.source.entity_type@
    &&& a.source.entity_id@ == b.source.entity_id@
    &&& a.recipient.address@ == b.recipient.address@
    &&& option_text(a.recipient.display_name) == option_text(b.recipient.display_name)
    &&& a.recipient.locale@ == b.recipient.locale@
    &&& a.template.organization_id@ == b.template.organization_id@
    &&& a.template.organization_name@ == b.template.organization_name@
    &&& a.template.invitation_id@ == b.template.invitation_id@
    &&& a.template.invitation_url@ == b.template.invitation_url@
    &&& option_text(a.template.inviter_display_name) == option_text(b.template.inviter_display_name)
    &&& option_text(a.template.role_name) == option_text(b.template.role_name)
    &&& exact_text(a.template.expires_at) == exact_text(b.template.expires_at)
    &&& a.idempotency_key@ == b.idempotency_key@
    &&& a.correlation_id@ == b.correlation_id@
    &&& option_text(a.causation_id) == option_text(b.causation_id)
    &&& option_text(a.requested_by) == option_text(b.requested_by)
}

/// Whether two access-request notifications agree in every field, their
/// expiries as they are written.
pub open spec fn same_access_request(
    a: CreateAccessRequestNotificationIntent,
    b: CreateAccessRequestNotificationIntent,
) -> bool {
    &&& a.source.module_id@ == b.source.module_id@
    &&& a.source.entity_type@ == b.source.entity_type@
    &&& a.source.entity_id@ == b.source.entity_id@
    &&& a.recipient.address@ == b.recipient.address@
    &&& option_text(a.recipient.display_name) == option_text(b.recipient.display_name)
    &&& a.recipient.locale@ == b.recipient.locale@
    &&& a.template.request_id@ == b.template.request_id@
    &&& a.template.organization_id@ == b.template.organization_id@
    &&& a.template.event == b.template.event
    &&& a.template.role.role_id@ == b.template.role.role_id@
    &&& option_text(a.template.role.display_name) == option_text(b.template.role.display_name)
    &&& a.template.scope.kind@ == b.template.scope.kind@
    &&& a.template.scope.id@ == b.template.scope.id@
    &&& option_text(a.template.scope.display_name) == option_text(b.template.scope.display_name)
    &&& exact_option(a.template.expires_at) == exact_option(b.template.expires_at)
    &&& a.idempotency_key@ == b.idempotency_key@
    &&& a.correlation_id@ == b.correlation_id@
    &&& option_text(a.causation_id) == option_text(b.causation_id)
    &&& option_text(a.requested_by) == option_text(b.requested_by)
}

proof fn lemma_event_names_differ(
    a: AccessRequestNotificationEvent,
    b: AccessRequestNotificationEvent,
)
    requires
        a.name() == b.name(),
    ensures
        a == b,
{
    reveal_strlit("submitted");
    reveal_strlit("approved");
    reveal_strlit("denied");
    reveal_strlit("expiring");
    assert("submitted"@[0] == 's' && "approved"@[0] == 'a' && "denied"@[0] == 'd');
    assert("expiring"@[0] == 'e');
    assert(a.name()[0] == b.name()[0]);
}

/// Invitations have the same text exactly where they agree in every field.
pub proof fn lemma_text_tells_invitation(
    a: CreateTransactionalEmailIntent,
    b: CreateTransactionalEmailIntent,
)
    ensures
        invitation_text(a) == invitation_text(b) <==> same_invitation(a, b),
{
    let left = invitation_members(a);
    let right = invitation_members(b);
    if invitation_text(a) == invitation_text(b) {
        lemma_members_are_delimited(left, right, "}"@, "}"@);
        assert(left[0] == right[0]);
        assert(left[1] == right[1]);
        assert(left[2] == right[2]);
        assert(left[3] == right[3]);
        assert(left[4] == right[4]);
        assert(left[5] == right[5]);
        assert(left[6] == right[6]);
        assert(left[7] == right[7]);
        assert(left[8] == right[8]);
        assert(left[9] == right[9]);
        assert(left[10] == right[10]);
        assert(left[11] == right[11]);
        assert(left[12] == right[12]);
        assert(left[13] == right[13]);
        assert(left[14] == right[14]);
        assert(left[15] == right[15]);
        assert(left[16] == right[16]);
    }
    if same_invitation(a, b) {
        assert(left =~= right);
    }
}

/// Access-request notifications have the same text exactly where they agree in
/// every field.
pub proof fn lemma_text_tells_access_request(
    a: CreateAccessRequestNotificationIntent,
    b: CreateAccessRequestNotificationIntent,
)
    ensures
        access_request_text(a) == access_request_text(b) <==> same_access_request(a, b),
{
    let left = access_request_members(a);
    let right = access_request_members(b);
    if access_request_text(a) == access_request_text(b) {
        lemma_members_are_delimited(left, right, "}"@, "}"@);
        assert(left[0] == right[0]);
        assert(left[1] == right[1]);
        assert(left[2] == right[2]);
        assert(left[3] == right[3]);
        assert(left[4] == right[4]);
        assert(left[5] == right[5]);
        assert(left[6] == right[6]);
        assert(left[7] == right[7]);
        assert(left[8] == right[8]);
        assert(left[9] == right[9]);
        assert(left[10] == right[10]);
        assert(left[11] == right[11]);
        assert(left[12] == right[12]);
        assert(left[13] == right[13]);
        assert(left[14] == right[14]);
        assert(left[15] == right[15]);
        assert(left[16] == right[16]);
        assert(left[17] == right[17]);
        assert(left[18] == right[18]);
        lemma_event_names_differ(a.template.event, b.template.event);
    }
    if same_access_request(a, b) {
        assert(left =~= right);
    }
}

/// An invitation and an access-request notification never have the same text.
pub proof fn lemma_purposes_have_different_texts(
    a: CreateTransactionalEmailIntent,
    b: CreateAccessRequestNotificationIntent,
)
    ensures
        invitation_text(a) != access_request_text(b),
{
    let left = invitation_members(a);
    let right = access_request_members(b);
    if invitation_text(a) == access_request_text(b) {
        lemma_members_split(left, 6);
        lemma_members_split(right, 6);
        let after_left = json_members(left.skip(6)) + "}"@;
        let after_right = json_members(right.skip(6)) + "}"@;
        assert(invitation_text(a) =~= json_members(left.take(6)) + after_left);
        assert(access_request_text(b) =~= json_members(right.take(6)) + after_right);
        lemma_members_are_delimited(left.take(6), right.take(6), after_left, after_right);
        reveal_strlit("},\"template\":{\"organization_id\":");
        reveal_strlit("},\"template\":{\"request_id\":");
        let place: int = 15;
        assert(left.skip(6)[0].0 == "},\"template\":{\"organization_id\":"@);
        assert(right.skip(6)[0].0 == "},\"template\":{\"request_id\":"@);
        assert(after_left[place] == left.skip(6)[0].0[place]);
        assert(after_right[place] == right.skip(6)[0].0[place]);
    }
}

/// The same invitation has the same digest, and an invitation that differs in
/// any field has another one, unless the texts of the two collide. Expiries are
/// told apart as they are written: two that are read back from their texts are
/// written alike only where they are the same instant.
pub proof fn law_digest_tells_invitation(
    a: CreateTransactionalEmailIntent,
    b: CreateTransactionalEmailIntent,
)
    requires
        !collide(invitation_text(a), invitation_text(b)),
    ensures
        digest_text(encode_utf8(invitation_text(a))) == digest_text(
            encode_utf8(invitation_text(b)),
        ) <==> same_invitation(a, b),
        same_invitation(a, b) && reads_back(a.template.expires_at) && reads_back(
            b.template.expires_at,
        ) ==> a.template.expires_at == b.template.expires_at,
{
    lemma_text_tells_invitation(a, b);
    if invitation_text(a) != invitation_text(b) {
        lemma_digest_texts_differ(
            encode_utf8(invitation_text(a)),
            encode_utf8(invitation_text(b)),
        );
    }
}

/// The same access-request notification has the same digest, and one that
/// differs in any field has another one, unless the texts of the two collide.
/// Expiries are told apart as they are written: two that are read back from
/// their texts are written alike only where they are the same instant.
pub proof fn law_digest_tells_access_request(
    a: CreateAccessRequestNotificationIntent,
    b: CreateAccessRequestNotificationIntent,
)
    requires
        !collide(access_request_text(a), access_request_text(b)),
    ensures
        digest_text(encode_utf8(access_request_text(a))) == digest_text(
            encode_utf8(access_request_text(b)),
        ) <==> same_access_request(a, b),
        same_access_request(a, b) ==> (a.template.expires_at is Some
            <==> b.template.expires_at is Some),
        same_access_request(a, b) && (a.template.expires_at matches Some(at) ==> reads_back(at))
            && (b.template.expires_at matches Some(at) ==> reads_back(at))
            ==> a.template.expires_at == b.template.expires_at,
{
    lemma_text_tells_access_request(a, b);
    if access_request_text(a) != access_request_text(b) {
        lemma_digest_texts_differ(
            encode_utf8(access_request_text(a)),
            encode_utf8(access_request_text(b)),
        );
    }
}

} // verus!
