//! What the console may ask for, and what it is answered.

use vstd::prelude::*;

use crate::business_api::{detail_response, get_delivery, list_deliveries, non_empty, page_response,
    parse_i64, retry_delivery, retry_response, summary_response, validate_surface_request, ApiError,
    AttemptResponse, ConsolePage, DeliveryDetailResponse, DeliveryListQuery, DeliveryPageResponse,
    DeliverySummaryResponse, ReceiptResponse, RetryDeliveryRequest, RetryDeliveryResponse,
    RetryResponseRecord, SurfaceHeaders};
use crate::laws::administering::a_status_word;
use crate::laws::boundary::lemma_sha256_text;
use crate::laws::{clipped, sha256_text};
use crate::repository::{AttemptRecord, DeliveryDetail, DeliverySummary, ReceiptRecord, RetryRecord,
    RetryResult};
use crate::text::white_space;

verus! {

/// Whether a character is one of the ten digits.
pub open spec fn digit(c: char) -> bool {
    '0' <= c <= '9'
}

/// Whether a text is digits, one at least, with one sign in front or none.
pub open spec fn spells_integer(text: Seq<char>) -> bool {
    let from: int = if text.len() > 0 && (text[0] == '-' || text[0] == '+') {
        1
    } else {
        0
    };
    text.len() > from && forall|i: int| from <= i < text.len() ==> digit(#[trigger] text[i])
}

proof fn lemma_spelled(text: Seq<char>)
    ensures
        crate::business_api::integer_value(text) is Some <==> spells_integer(text),
{
    let signed = text.len() > 0 && (text[0] == '-' || text[0] == '+');
    let digits = if signed {
        text.drop_first()
    } else {
        text
    };
    if spells_integer(text) {
        assert forall|i: int| 0 <= i < digits.len() implies '0' <= #[trigger] digits[i] <= '9' by {
            if signed {
                assert(digit(text[i + 1]));
            } else {
                assert(digit(text[i]));
            }
        }
    }
    if crate::business_api::all_digits(digits) {
        assert forall|i: int|
            (if signed {
                1int
            } else {
                0
            }) <= i < text.len() implies digit(#[trigger] text[i]) by {
            if signed {
                assert(digits[i - 1] == text[i]);
            }
        }
    }
}

/// Nothing but an integer is read, and a lone digit is read as itself.
pub proof fn law_only_integers_are_read(text: &str, r: Option<i64>)
    requires
        call_ensures(parse_i64, (text,), r),
    ensures
        r is Some ==> spells_integer(text@),
        text@.len() == 1 && digit(text@[0]) ==> r is Some && r->Some_0 == text@[0] as int
            - '0' as int,
        text@.len() == 2 && text@[0] == '-' && digit(text@[1]) ==> r is Some && r->Some_0
            == '0' as int - text@[1] as int,
        text@.len() == 2 && text@[0] == '+' && digit(text@[1]) ==> r is Some && r->Some_0
            == text@[1] as int - '0' as int,
{
    lemma_spelled(text@);
    reveal_with_fuel(crate::business_api::digits_value, 2);
    if text@.len() == 1 {
        assert(text@.drop_last() =~= Seq::<char>::empty());
    }
    if text@.len() == 2 {
        assert(text@.drop_first() =~= seq![text@[1]]);
        assert(text@.drop_first().drop_last() =~= Seq::<char>::empty());
    }
}

/// A digit more makes ten times as much and the digit, away from zero on the
/// side of the sign; what does not fit in 64 bits is not read.
pub proof fn law_a_digit_more_is_ten_times_as_much(
    text: &str,
    r: Option<i64>,
    longer: &str,
    s: Option<i64>,
    next: char,
)
    requires
        call_ensures(parse_i64, (text,), r),
        call_ensures(parse_i64, (longer,), s),
        longer@ == text@.push(next),
        digit(next),
        r is Some,
    ensures
        ({
            let value = if text@[0] == '-' {
                10 * r->Some_0 - (next as int - '0' as int)
            } else {
                10 * r->Some_0 + (next as int - '0' as int)
            };
            s == (if i64::MIN <= value <= i64::MAX {
                Some(value as i64)
            } else {
                None
            })
        }),
{
    lemma_spelled(text@);
    lemma_spelled(longer@);
    let signed = text@[0] == '-' || text@[0] == '+';
    let digits = if signed {
        text@.drop_first()
    } else {
        text@
    };
    let more = if signed {
        longer@.drop_first()
    } else {
        longer@
    };
    assert(longer@[0] == text@[0]);
    assert(more =~= digits.push(next));
    assert(more.drop_last() =~= digits);
    assert(spells_integer(longer@)) by {
        let from: int = if signed {
            1
        } else {
            0
        };
        assert forall|i: int| from <= i < longer@.len() implies digit(#[trigger] longer@[i]) by {
            if i < text@.len() {
                assert(digit(text@[i]));
            }
        }
    }
}

/// Whether a header is there and not blank.
pub open spec fn given(header: Option<String>) -> bool {
    header is Some && exists|i: int|
        0 <= i < header->Some_0@.len() && !white_space(#[trigger] header->Some_0@[i])
}

/// Whether a request comes from the console, in time, for the operation and
/// under the capability, in the name of somebody and with an authority.
pub open spec fn comes_from_the_console(
    headers: SurfaceHeaders,
    operation: Seq<char>,
    capability: Seq<char>,
    now: i64,
) -> bool {
    &&& headers.contract_digest is Some
    &&& headers.contract_digest->Some_0@
        == "sha256:ebbbec96b0657a1158850b1fddbee702367387dfb7f610c9c1ab15d4200089f5"@
    &&& headers.operation_id is Some
    &&& headers.operation_id->Some_0@ == operation
    &&& headers.capability is Some
    &&& headers.capability->Some_0@ == capability
    &&& given(headers.delegated_actor)
    &&& given(headers.service_id)
    &&& headers.delegated_authority is Some
    &&& sha256_text(headers.delegated_authority->Some_0@)
    &&& headers.deadline_unix_ms is Some
    &&& crate::business_api::i64_value(headers.deadline_unix_ms->Some_0@) is Some
    &&& crate::business_api::i64_value(headers.deadline_unix_ms->Some_0@)->Some_0 > now
}

/// Whether the console was turned away as a stranger.
pub open spec fn forbidden<T>(r: Result<T, ApiError>) -> bool {
    r is Err && r->Err_0.code is Forbidden && r->Err_0.message@
        == "Notification Business API request is not bound to an accepted Console Surface operation"@
}

/// Whether the console was told what is wrong with its request.
pub open spec fn faulted<T>(r: Result<T, ApiError>, text: Seq<char>) -> bool {
    r is Err && r->Err_0.code is Validation && r->Err_0.message@ == text
}

proof fn lemma_given(header: Option<String>)
    ensures
        given(header) <==> crate::business_api::header_given(header),
{
    if header is Some && !crate::text::blank(header->Some_0@) {
        let text = header->Some_0@;
        let i = choose|i: int| 0 <= i < text.len() && !white_space(#[trigger] text[i]);
        assert(!white_space(text[i]));
    }
}

proof fn lemma_comes_from_the_console(
    headers: SurfaceHeaders,
    operation: Seq<char>,
    capability: Seq<char>,
    now: i64,
)
    ensures
        comes_from_the_console(headers, operation, capability, now)
            <==> crate::business_api::bound_to(headers, operation, capability, now),
{
    lemma_given(headers.delegated_actor);
    lemma_given(headers.service_id);
    if headers.delegated_authority is Some {
        lemma_sha256_text(headers.delegated_authority->Some_0@);
    }
}

/// A request is heard exactly where it comes from the console, for the
/// operation that it is made for.
pub proof fn law_console_is_heard(
    headers: &SurfaceHeaders,
    operation: &str,
    capability: &str,
    now: i64,
    r: Result<(), ApiError>,
)
    requires
        call_ensures(validate_surface_request, (headers, operation, capability, now), r),
    ensures
        r is Ok <==> comes_from_the_console(*headers, operation@, capability@, now),
        r is Err ==> forbidden(r),
{
    lemma_comes_from_the_console(*headers, operation@, capability@, now);
}

/// A request whose deadline is read as a number is heard before it, and at the
/// deadline or after it no more.
pub proof fn law_deadline_is_kept(
    headers: &SurfaceHeaders,
    operation: &str,
    capability: &str,
    now: i64,
    r: Result<(), ApiError>,
    deadline: &str,
    at: i64,
)
    requires
        call_ensures(validate_surface_request, (headers, operation, capability, now), r),
        headers.deadline_unix_ms is Some,
        deadline@ == headers.deadline_unix_ms->Some_0@,
        call_ensures(parse_i64, (deadline,), Some(at)),
    ensures
        r is Ok ==> now < at,
        now >= at ==> forbidden(r),
{
}

/// The console gets the page that it asked for: between 1 and 200 deliveries,
/// 100 where no number is given, from the cursor on and in the status named.
pub proof fn law_console_page_is_read_as_asked(
    headers: &SurfaceHeaders,
    query: DeliveryListQuery,
    now: i64,
    r: Result<ConsolePage, ApiError>,
)
    requires
        call_ensures(list_deliveries, (headers, query, now), r),
    ensures
        ({
            let heard = comes_from_the_console(
                *headers,
                "notification/http/GET:/deliveries"@,
                "notification.deliveries.read"@,
                now,
            );
            let fits = query.limit is None || 1 <= query.limit->Some_0 <= 200;
            let named = query.status is None || a_status_word(query.status->Some_0@);
            &&& !heard ==> forbidden(r)
            &&& heard && !fits ==> faulted(r, "limit must be between 1 and 200"@)
            &&& heard && fits && !named ==> faulted(
                r,
                "status is not a Notification delivery status"@,
            )
            &&& heard && fits && named ==> r is Ok
        }),
        r is Ok ==> {
            &&& query.limit is Some ==> r->Ok_0.limit == query.limit->Some_0
            &&& query.limit is None ==> r->Ok_0.limit == 100
            &&& r->Ok_0.fetch == r->Ok_0.limit + 1
            &&& r->Ok_0.cursor == query.cursor
            &&& r->Ok_0.status == query.status
        },
{
    lemma_comes_from_the_console(
        *headers,
        "notification/http/GET:/deliveries"@,
        "notification.deliveries.read"@,
        now,
    );
}

/// Whether a text can stand as one segment of a path.
pub open spec fn stands_in_a_path(text: Seq<char>) -> bool {
    text.len() > 0 && forall|i: int|
        0 <= i < text.len() ==> {
            let c = #[trigger] text[i];
            digit(c) || 'a' <= c <= 'z' || 'A' <= c <= 'Z' || c == '.' || c == '_' || c == '~'
                || c == '-'
        }
}

/// One delivery is looked up for the console under a name that can stand in a
/// path.
pub proof fn law_console_looks_one_delivery_up(
    headers: &SurfaceHeaders,
    delivery_id: &str,
    now: i64,
    r: Result<(), ApiError>,
)
    requires
        call_ensures(get_delivery, (headers, delivery_id, now), r),
    ensures
        ({
            let heard = comes_from_the_console(
                *headers,
                "notification/http/GET:/deliveries/{id}"@,
                "notification.deliveries.read"@,
                now,
            );
            &&& !heard ==> forbidden(r)
            &&& heard && !stands_in_a_path(delivery_id@) ==> faulted(
                r,
                "delivery_id contains an unsafe path character"@,
            )
            &&& heard && stands_in_a_path(delivery_id@) ==> r is Ok
        }),
{
    lemma_comes_from_the_console(
        *headers,
        "notification/http/GET:/deliveries/{id}"@,
        "notification.deliveries.read"@,
        now,
    );
    lemma_path(delivery_id@);
}

proof fn lemma_path(text: Seq<char>)
    ensures
        stands_in_a_path(text) <==> crate::business_api::safe_segment(text),
{
    if stands_in_a_path(text) {
        assert forall|i: int| 0 <= i < text.len() implies crate::text::ascii_alphanumeric(
            #[trigger] text[i],
        ) || text[i] == '.' || text[i] == '_' || text[i] == '~' || text[i] == '-' by {}
    }
}

/// A retry is requested in the name of the actor whom the console speaks for,
/// at a positive revision and under a key.
pub proof fn law_console_asks_for_a_retry(
    headers: &SurfaceHeaders,
    delivery_id: &str,
    input: &RetryDeliveryRequest,
    now: i64,
    r: Result<String, ApiError>,
)
    requires
        call_ensures(retry_delivery, (headers, delivery_id, input, now), r),
    ensures
        ({
            let heard = comes_from_the_console(
                *headers,
                "notification/http/POST:/deliveries/{id}/retry"@,
                "notification.deliveries.retry"@,
                now,
            );
            let whole = input.revision >= 1 && exists|i: int|
                0 <= i < input.idempotency_key@.len() && !white_space(
                    #[trigger] input.idempotency_key@[i],
                );
            &&& !heard ==> forbidden(r)
            &&& heard && !stands_in_a_path(delivery_id@) ==> faulted(
                r,
                "delivery_id contains an unsafe path character"@,
            )
            &&& heard && stands_in_a_path(delivery_id@) && !whole ==> faulted(
                r,
                "revision and idempotency_key are required"@,
            )
            &&& heard && stands_in_a_path(delivery_id@) && whole ==> r is Ok
        }),
        r is Ok ==> clipped(r->Ok_0@, headers.delegated_actor->Some_0@, 240),
{
    lemma_comes_from_the_console(
        *headers,
        "notification/http/POST:/deliveries/{id}/retry"@,
        "notification.deliveries.retry"@,
        now,
    );
    lemma_path(delivery_id@);
    lemma_given(Some(input.idempotency_key));
}

/// Whether the console is told of a delivery what is stored of it.
pub open spec fn told_as_stored(shown: DeliverySummaryResponse, value: DeliverySummary) -> bool {
    &&& shown.id@ == value.id@
    &&& shown.recipient_mask@ == value.recipient_mask@
    &&& shown.template_id@ == value.template_id@
    &&& shown.template_version@ == value.template_version@
    &&& shown.locale@ == value.locale@
    &&& shown.status@ == value.status@
    &&& shown.revision == value.revision
    &&& shown.attempt_count == value.attempt_count
    &&& shown.max_attempts == value.max_attempts
    &&& shown.redacted_preview@ == value.redacted_preview@
    &&& shown.content_digest@ == value.content_digest@
    &&& shown.correlation_id@ == value.correlation_id@
    &&& shown.next_attempt_at == value.next_attempt_at
    &&& shown.final_reason == value.final_reason
    &&& shown.created_at == value.created_at
    &&& shown.updated_at == value.updated_at
    &&& shown.retry_now_eligible <==> value.status@ == "retry_scheduled"@ && value.attempt_count
        < value.max_attempts
}

/// The console is told of a delivery what is stored of it.
pub proof fn law_console_is_told_what_is_stored(
    value: &DeliverySummary,
    shown: DeliverySummaryResponse,
)
    requires
        call_ensures(summary_response, (value,), shown),
    ensures
        told_as_stored(shown, *value),
{
}

/// A console page shows the first deliveries that were read, up to the limit,
/// and where to go on exactly where more were read.
pub proof fn law_console_page_shows_the_first_deliveries(
    rows: &Vec<DeliverySummary>,
    limit: i64,
    page: DeliveryPageResponse,
)
    requires
        call_ensures(page_response, (rows, limit), page),
        1 <= limit,
    ensures
        page.records@.len() == (if rows@.len() <= limit {
            rows@.len() as int
        } else {
            limit as int
        }),
        forall|i: int|
            0 <= i < page.records@.len() ==> told_as_stored(#[trigger] page.records@[i], rows@[i]),
        page.next_cursor is Some <==> rows@.len() > limit,
        page.next_cursor is Some ==> page.next_cursor->Some_0@ == rows@[limit - 1].id@,
{
}

/// Whether the console is told of an attempt what is stored of it.
pub open spec fn attempt_told(shown: AttemptResponse, value: AttemptRecord) -> bool {
    &&& shown.id@ == value.id@
    &&& shown.sequence == value.sequence
    &&& shown.function_run_id@ == value.function_run_id@
    &&& shown.status@ == value.status@
    &&& shown.provider == value.provider
    &&& shown.remote_receipt_id == value.remote_receipt_id
    &&& shown.failure_code == value.failure_code
    &&& shown.failure_classification == value.failure_classification
    &&& shown.started_at == value.started_at
    &&& shown.completed_at == value.completed_at
}

/// Whether the console is told of a receipt what is stored of it.
pub open spec fn receipt_told(shown: ReceiptResponse, value: ReceiptRecord) -> bool {
    &&& shown.id@ == value.id@
    &&& shown.attempt_id@ == value.attempt_id@
    &&& shown.kind@ == value.kind@
    &&& shown.source@ == value.source@
    &&& shown.remote_id@ == value.remote_id@
    &&& shown.digest@ == value.digest@
    &&& shown.observed_at == value.observed_at
}

/// Whether the console is told of a retry decision what is stored of it.
pub open spec fn retry_told(shown: RetryResponseRecord, value: RetryRecord) -> bool {
    &&& shown.id@ == value.id@
    &&& shown.kind@ == value.kind@
    &&& shown.requested_by == value.requested_by
    &&& shown.source_revision == value.source_revision
    &&& shown.decision@ == value.decision@
    &&& shown.reason == value.reason
    &&& shown.scheduled_at == value.scheduled_at
    &&& shown.created_at == value.created_at
}

/// The console is told of a delivery with all of its evidence, in order.
pub proof fn law_console_is_told_all_evidence(
    value: &DeliveryDetail,
    shown: DeliveryDetailResponse,
)
    requires
        call_ensures(detail_response, (value,), shown),
    ensures
        told_as_stored(shown.delivery, value.delivery),
        shown.open_in_story_correlation_id@ == value.delivery.correlation_id@,
        shown.attempts@.len() == value.attempts@.len(),
        forall|i: int|
            0 <= i < shown.attempts@.len() ==> attempt_told(
                #[trigger] shown.attempts@[i],
                value.attempts@[i],
            ),
        shown.receipts@.len() == value.receipts@.len(),
        forall|i: int|
            0 <= i < shown.receipts@.len() ==> receipt_told(
                #[trigger] shown.receipts@[i],
                value.receipts@[i],
            ),
        shown.retry_requests@.len() == value.retry_requests@.len(),
        forall|i: int|
            0 <= i < shown.retry_requests@.len() ==> retry_told(
                #[trigger] shown.retry_requests@[i],
                value.retry_requests@[i],
            ),
{
}

/// The console is told of a retry what was decided.
pub proof fn law_console_is_told_of_a_retry(result: RetryResult, shown: RetryDeliveryResponse)
    requires
        call_ensures(retry_response, (result,), shown),
    ensures
        shown.delivery_id@ == result.delivery_id@,
        shown.revision == result.revision,
        shown.status@ == result.status@,
        shown.scheduled_at == result.scheduled_at,
        shown.idempotent_replay == result.idempotent_replay,
{
}

/// A text is given where it is not blank.
pub proof fn law_given_text_is_not_blank(text: &str, r: bool)
    requires
        call_ensures(non_empty, (text,), r),
    ensures
        r <==> exists|i: int| 0 <= i < text@.len() && !white_space(#[trigger] text@[i]),
{
    if !crate::text::blank(text@) {
        let i = choose|i: int| 0 <= i < text@.len() && !white_space(#[trigger] text@[i]);
        assert(!white_space(text@[i]));
    }
}

} // verus!
