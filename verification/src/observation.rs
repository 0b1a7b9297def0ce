//! What makes two observations the same: their content, and not when they are
//! told of.

use vstd::prelude::*;
use vstd::string::*;
use vstd::utf8::*;

use crate::digest::{collide, digest_text, lemma_digest_texts_differ, valid_digest_text};
use crate::error::{ErrorCode, NotificationResult};
use crate::events::{answers_claim, event_digest, ObservationEnvelope, EVENT_REUSED};
use crate::json::{compact_json, json_compact, json_quoted, lemma_quoted_is_delimited, quote_text};
use crate::text::{lemma_decimal_is_delimited, signed_decimal, signed_decimal_text};

verus! {

/// The content of an observation as one JSON object: its id, name, version,
/// source and aggregate, and its payload as compact JSON. When it occurred is
/// left out.
pub open spec fn observation_text(event: ObservationEnvelope, payload: Seq<char>) -> Seq<char> {
    "{\"id\":"@ + json_quoted(event.id@) + ",\"name\":"@ + json_quoted(event.event_name@)
        + ",\"version\":"@ + signed_decimal_text(event.event_version as int) + ",\"source\":"@
        + json_quoted(event.source_module@) + ",\"aggregateId\":"@ + json_quoted(
        event.aggregate_id@,
    ) + ",\"payload\":"@ + payload + "}"@
}

/// The digest of an observation whose payload is the given compact JSON.
pub open spec fn observation_digest_text(
    event: ObservationEnvelope,
    payload: Seq<char>,
) -> Seq<char> {
    digest_text(encode_utf8(observation_text(event, payload)))
}

/// The digest of an observation with an encoded payload. There is none where
/// the payload is no JSON.
pub fn observation_digest(event: &ObservationEnvelope, payload: &str) -> (digest: Option<String>)
    ensures
        match json_compact(payload@) {
            Some(text) => digest matches Some(found) && found@ == observation_digest_text(
                *event,
                text,
            ) && valid_digest_text(found@),
            None => digest is None,
        },
{
    let payload = match compact_json(payload) {
        Some(payload) => payload,
        None => {
            return None;
        },
    };
    let mut text = "{\"id\":".to_owned();
    text.append(quote_text(event.id.as_str()).as_str());
    text.append(",\"name\":");
    text.append(quote_text(event.event_name.as_str()).as_str());
    text.append(",\"version\":");
    text.append(signed_decimal(event.event_version).as_str());
    text.append(",\"source\":");
    text.append(quote_text(event.source_module.as_str()).as_str());
    text.append(",\"aggregateId\":");
    text.append(quote_text(event.aggregate_id.as_str()).as_str());
    text.append(",\"payload\":");
    text.append(payload.as_str());
    text.append("}");
    Some(event_digest(text.as_str().as_bytes()))
}

/// Whether two observations tell the same under the same id.
pub open spec fn same_content(
    a: ObservationEnvelope,
    a_payload: Seq<char>,
    b: ObservationEnvelope,
    b_payload: Seq<char>,
) -> bool {
    &&& a.id@ == b.id@
    &&& a.event_name@ == b.event_name@
    &&& a.event_version == b.event_version
    &&& a.source_module@ == b.source_module@
    &&& a.aggregate_id@ == b.aggregate_id@
    &&& a_payload == b_payload
}

/// The text of an observation from its payload on.
spec fn payload_part(payload: Seq<char>) -> Seq<char> {
    ",\"payload\":"@ + (payload + "}"@)
}

/// The text of an observation from its source on.
spec fn source_part(event: ObservationEnvelope, payload: Seq<char>) -> Seq<char> {
    ",\"source\":"@ + (json_quoted(event.source_module@) + (",\"aggregateId\":"@ + (json_quoted(
        event.aggregate_id@,
    ) + payload_part(payload))))
}

/// The text of an observation from its version on.
spec fn version_part(event: ObservationEnvelope, payload: Seq<char>) -> Seq<char> {
    ",\"version\":"@ + (signed_decimal_text(event.event_version as int) + source_part(event, payload))
}

proof fn lemma_text_parts(event: ObservationEnvelope, payload: Seq<char>)
    ensures
        observation_text(event, payload) == "{\"id\":"@ + (json_quoted(event.id@) + (
        ",\"name\":"@ + (json_quoted(event.event_name@) + version_part(event, payload)))),
{
    let head = "{\"id\":"@ + json_quoted(event.id@) + ",\"name\":"@ + json_quoted(event.event_name@);
    let middle = head + ",\"version\":"@ + signed_decimal_text(event.event_version as int);
    let tail = middle + ",\"source\":"@ + json_quoted(event.source_module@) + ",\"aggregateId\":"@
        + json_quoted(event.aggregate_id@);
    assert(observation_text(event, payload) =~= tail + payload_part(payload));
    assert(tail + payload_part(payload) =~= middle + source_part(event, payload));
    assert(middle + source_part(event, payload) =~= head + version_part(event, payload));
    assert(head + version_part(event, payload) =~= "{\"id\":"@ + (json_quoted(event.id@) + (
    ",\"name\":"@ + (json_quoted(event.event_name@) + version_part(event, payload)))));
}

proof fn lemma_payload_part(a: Seq<char>, b: Seq<char>)
    requires
        payload_part(a) == payload_part(b),
    ensures
        a == b,
{
    lemma_same_rest(",\"payload\":"@, a + "}"@, b + "}"@);
    assert((a + "}"@).len() == (b + "}"@).len());
    assert(a =~= (a + "}"@).take(a.len() as int));
    assert(b =~= (b + "}"@).take(a.len() as int));
}

proof fn lemma_source_part(
    a: ObservationEnvelope,
    a_payload: Seq<char>,
    b: ObservationEnvelope,
    b_payload: Seq<char>,
)
    requires
        source_part(a, a_payload) == source_part(b, b_payload),
    ensures
        a.source_module@ == b.source_module@,
        a.aggregate_id@ == b.aggregate_id@,
        a_payload == b_payload,
{
    let a_last = json_quoted(a.aggregate_id@) + payload_part(a_payload);
    let b_last = json_quoted(b.aggregate_id@) + payload_part(b_payload);
    let a_next = ",\"aggregateId\":"@ + a_last;
    let b_next = ",\"aggregateId\":"@ + b_last;
    lemma_same_rest(
        ",\"source\":"@,
        json_quoted(a.source_module@) + a_next,
        json_quoted(b.source_module@) + b_next,
    );
    lemma_quoted_is_delimited(a.source_module@, b.source_module@, a_next, b_next);
    lemma_same_rest(",\"aggregateId\":"@, a_last, b_last);
    lemma_quoted_is_delimited(
        a.aggregate_id@,
        b.aggregate_id@,
        payload_part(a_payload),
        payload_part(b_payload),
    );
    lemma_payload_part(a_payload, b_payload);
}

/// Observations have the same text exactly where they have the same content.
pub proof fn lemma_text_tells_content(
    a: ObservationEnvelope,
    a_payload: Seq<char>,
    b: ObservationEnvelope,
    b_payload: Seq<char>,
)
    ensures
        observation_text(a, a_payload) == observation_text(b, b_payload) <==> same_content(
            a,
            a_payload,
            b,
            b_payload,
        ),
{
    lemma_text_parts(a, a_payload);
    lemma_text_parts(b, b_payload);
    if observation_text(a, a_payload) == observation_text(b, b_payload) {
        let a_name = json_quoted(a.event_name@) + version_part(a, a_payload);
        let b_name = json_quoted(b.event_name@) + version_part(b, b_payload);
        let a_rest = ",\"name\":"@ + a_name;
        let b_rest = ",\"name\":"@ + b_name;
        lemma_same_rest("{\"id\":"@, json_quoted(a.id@) + a_rest, json_quoted(b.id@) + b_rest);
        lemma_quoted_is_delimited(a.id@, b.id@, a_rest, b_rest);
        lemma_same_rest(",\"name\":"@, a_name, b_name);
        lemma_quoted_is_delimited(
            a.event_name@,
            b.event_name@,
            version_part(a, a_payload),
            version_part(b, b_payload),
        );
        let a_source = source_part(a, a_payload);
        let b_source = source_part(b, b_payload);
        lemma_same_rest(
            ",\"version\":"@,
            signed_decimal_text(a.event_version as int) + a_source,
            signed_decimal_text(b.event_version as int) + b_source,
        );
        reveal_strlit(",\"source\":");
        lemma_decimal_is_delimited(
            a.event_version as int,
            b.event_version as int,
            a_source,
            b_source,
        );
        lemma_source_part(a, a_payload, b, b_payload);
    }
}

proof fn lemma_same_rest(head: Seq<char>, a: Seq<char>, b: Seq<char>)
    requires
        head + a == head + b,
    ensures
        a == b,
{
    assert(a =~= (head + a).skip(head.len() as int));
    assert(b =~= (head + b).skip(head.len() as int));
}

/// Observations have the same digest exactly where they have the same content,
/// unless their texts collide.
pub proof fn lemma_digest_tells_content(
    a: ObservationEnvelope,
    a_payload: Seq<char>,
    b: ObservationEnvelope,
    b_payload: Seq<char>,
)
    requires
        !collide(observation_text(a, a_payload), observation_text(b, b_payload)),
    ensures
        observation_digest_text(a, a_payload) == observation_digest_text(b, b_payload)
            <==> same_content(a, a_payload, b, b_payload),
{
    let left = observation_text(a, a_payload);
    let right = observation_text(b, b_payload);
    lemma_text_tells_content(a, a_payload, b, b_payload);
    if left != right {
        lemma_digest_texts_differ(encode_utf8(left), encode_utf8(right));
    }
}

/// Under an id that was recorded for one observation, another one is a replay
/// where it has the same name, version, source, aggregate and payload, and a
/// conflict where any of these differs. When the two occurred makes no
/// difference.
pub proof fn law_replay_is_told_by_content(
    first: ObservationEnvelope,
    first_payload: Seq<char>,
    again: ObservationEnvelope,
    again_payload: Seq<char>,
    r: NotificationResult<bool>,
)
    requires
        answers_claim(
            r,
            Some(observation_digest_text(first, first_payload)),
            observation_digest_text(again, again_payload),
        ),
        !collide(observation_text(first, first_payload), observation_text(again, again_payload)),
    ensures
        same_content(first, first_payload, again, again_payload) ==> (r matches Ok(replay)
            && replay),
        !same_content(first, first_payload, again, again_payload) ==> (r matches Err(error)
            && error.is(ErrorCode::Conflict, EVENT_REUSED@)),
{
    lemma_digest_tells_content(first, first_payload, again, again_payload);
}

} // verus!
