//! The console's view of deliveries: requests bound to a console surface, and
//! redacted answers.

use vstd::prelude::*;

use crate::digest::{valid_digest, valid_digest_text};
use crate::domain::{delivery_status_named, DeliveryStatus};
use crate::module::{NOTIFICATION_DELIVERIES_READ, NOTIFICATION_DELIVERIES_RETRY};
use crate::repository::{is_retry_eligible, retry_eligible, AttemptRecord, DeliveryDetail,
    DeliverySummary, ReceiptRecord, RetryRecord, RetryResult};
use crate::text::{ascii_alphanumeric, blank, bounded, chars_of, is_blank, leading, same_text};
use crate::time::UtcTime;

verus! {

pub const NOTIFICATION_CONTRACT_DIGEST: &'static str =
    "sha256:ebbbec96b0657a1158850b1fddbee702367387dfb7f610c9c1ab15d4200089f5";

pub const LIST_DELIVERIES_OPERATION: &'static str = "notification/http/GET:/deliveries";

pub const GET_DELIVERY_OPERATION: &'static str = "notification/http/GET:/deliveries/{id}";

pub const RETRY_DELIVERY_OPERATION: &'static str = "notification/http/POST:/deliveries/{id}/retry";

pub const DEFAULT_LIMIT: i64 = 100;

pub const MAX_LIMIT: i64 = 200;

#[derive(Debug)]
pub struct DeliveryListQuery {
    pub limit: Option<i64>,
    pub cursor: Option<String>,
    pub status: Option<String>,
}

#[derive(Debug)]
pub struct DeliverySummaryResponse {
    pub id: String,
    pub recipient_mask: String,
    pub template_id: String,
    pub template_version: String,
    pub locale: String,
    pub status: String,
    pub revision: i64,
    pub attempt_count: i32,
    pub max_attempts: i32,
    pub redacted_preview: String,
    pub content_digest: String,
    pub correlation_id: String,
    pub next_attempt_at: Option<UtcTime>,
    pub final_reason: Option<String>,
    pub created_at: UtcTime,
    pub updated_at: UtcTime,
    pub retry_now_eligible: bool,
}

#[derive(Debug)]
pub struct DeliveryPageResponse {
    pub records: Vec<DeliverySummaryResponse>,
    pub next_cursor: Option<String>,
}

#[derive(Debug)]
pub struct AttemptResponse {
    pub id: String,
    pub sequence: i32,
    pub function_run_id: String,
    pub status: String,
    pub provider: Option<String>,
    pub remote_receipt_id: Option<String>,
    pub failure_code: Option<String>,
    pub failure_classification: Option<String>,
    pub started_at: UtcTime,
    pub completed_at: Option<UtcTime>,
}

#[derive(Debug)]
pub struct ReceiptResponse {
    pub id: String,
    pub attempt_id: String,
    pub kind: String,
    pub source: String,
    pub remote_id: String,
    pub digest: String,
    pub observed_at: UtcTime,
}

#[derive(Debug)]
pub struct RetryResponseRecord {
    pub id: String,
    pub kind: String,
    pub requested_by: Option<String>,
    pub source_revision: i64,
    pub decision: String,
    pub reason: Option<String>,
    pub scheduled_at: Option<UtcTime>,
    pub created_at: UtcTime,
}

#[derive(Debug)]
pub struct DeliveryDetailResponse {
    pub delivery: DeliverySummaryResponse,
    pub attempts: Vec<AttemptResponse>,
    pub receipts: Vec<ReceiptResponse>,
    pub retry_requests: Vec<RetryResponseRecord>,
    pub open_in_story_correlation_id: String,
}

#[derive(Debug)]
pub struct RetryDeliveryRequest {
    pub revision: i64,
    pub idempotency_key: String,
}

#[derive(Debug)]
pub struct RetryDeliveryResponse {
    pub delivery_id: String,
    pub revision: i64,
    pub status: String,
    pub scheduled_at: UtcTime,
    pub idempotent_replay: bool,
}

/// The kinds of refusal.
#[derive(Debug, Clone, Copy, PartialEq, Eq, Structural)]
pub enum ApiErrorCode {
    Forbidden,
    Validation,
}

/// Why a request is refused.
#[derive(Debug)]
pub struct ApiError {
    pub code: ApiErrorCode,
    pub message: String,
}

impl ApiError {
    /// Whether this is the refusal `code` with the text `message`.
    pub open spec fn is(self, code: ApiErrorCode, message: Seq<char>) -> bool {
        self.code == code && self.message@ == message
    }
}

fn api_error(code: ApiErrorCode, message: &str) -> (error: ApiError)
    ensures
        error.is(code, message@),
{
    ApiError { code, message: message.to_owned() }
}

// The console surface

/// The readable values of the headers that bind a request to a console surface.
#[derive(Debug)]
pub struct SurfaceHeaders {
    pub contract_digest: Option<String>,
    pub operation_id: Option<String>,
    pub capability: Option<String>,
    pub delegated_actor: Option<String>,
    pub service_id: Option<String>,
    pub delegated_authority: Option<String>,
    pub deadline_unix_ms: Option<String>,
}

/// The number that decimal digits spell.
pub open spec fn digits_value(digits: Seq<char>) -> int
    decreases digits.len(),
{
    if digits.len() == 0 {
        0
    } else {
        digits_value(digits.drop_last()) * 10 + (digits.last() as int - '0' as int)
    }
}

/// Whether a text consists of decimal digits, of at least one.
pub open spec fn all_digits(text: Seq<char>) -> bool {
    text.len() > 0 && forall|i: int| 0 <= i < text.len() ==> '0' <= #[trigger] text[i] <= '9'
}

/// The integer that a text spells: digits, with a sign in front or without.
pub open spec fn integer_value(text: Seq<char>) -> Option<int> {
    let signed = text.len() > 0 && (text[0] == '-' || text[0] == '+');
    let digits = if signed {
        text.drop_first()
    } else {
        text
    };
    if !all_digits(digits) {
        None
    } else if signed && text[0] == '-' {
        Some(-digits_value(digits))
    } else {
        Some(digits_value(digits))
    }
}

/// The integer that a text spells, if it fits in 64 bits.
pub open spec fn i64_value(text: Seq<char>) -> Option<int> {
    match integer_value(text) {
        Some(value) => if i64::MIN <= value <= i64::MAX {
            Some(value)
        } else {
            None
        },
        None => None,
    }
}

proof fn lemma_digits_grow(digits: Seq<char>, count: int)
    requires
        0 <= count <= digits.len(),
        forall|i: int| 0 <= i < digits.len() ==> '0' <= #[trigger] digits[i] <= '9',
    ensures
        0 <= digits_value(digits.take(count)) <= digits_value(digits),
    decreases digits.len(),
{
    if count == digits.len() {
        assert(digits.take(count) =~= digits);
        if count > 0 {
            assert(digits.drop_last().take(count - 1) =~= digits.drop_last());
            lemma_digits_grow(digits.drop_last(), count - 1);
        }
    } else {
        lemma_digits_grow(digits.drop_last(), count);
        assert(digits.drop_last().take(count) =~= digits.take(count));
    }
}

/// The integer that a text spells, if it fits in 64 bits.
pub fn parse_i64(value: &str) -> (r: Option<i64>)
    ensures
        match r {
            Some(number) => i64_value(value@) == Some(number as int),
            None => i64_value(value@) is None,
        },
{
    let chars = chars_of(value);
    let signed = chars.len() > 0 && (chars[0] == '-' || chars[0] == '+');
    let negative = signed && chars[0] == '-';
    let start: usize = if signed {
        1
    } else {
        0
    };
    let ghost digits = if signed {
        value@.drop_first()
    } else {
        value@
    };
    assert(digits =~= value@.skip(start as int));
    if start == chars.len() {
        return None;
    }
    let mut sum: i128 = 0;
    let mut place: usize = start;
    assert(digits.take(0) =~= Seq::<char>::empty());
    while place < chars.len()
        invariant
            start <= place <= chars@.len(),
            chars@ == value@,
            digits == value@.skip(start as int),
            0 <= sum <= 9_223_372_036_854_775_808,
            sum == digits_value(digits.take(place - start)),
            forall|i: int| 0 <= i < place - start ==> '0' <= #[trigger] digits[i] <= '9',
            signed == (value@.len() > 0 && (value@[0] == '-' || value@[0] == '+')),
            digits == (if signed {
                value@.drop_first()
            } else {
                value@
            }),
        decreases chars@.len() - place,
    {
        let c = chars[place];
        assert(c == digits[place - start]);
        if c < '0' || c > '9' {
            assert(!all_digits(digits));
            return None;
        }
        let digit: i128 = (c as u32 - '0' as u32) as i128;
        sum = sum * 10 + digit;
        place += 1;
        proof {
            let longer = digits.take(place - start);
            assert(longer.drop_last() =~= digits.take(place - start - 1));
            assert(longer.last() == c);
        }
        if sum > 9_223_372_036_854_775_808 {
            proof {
                if all_digits(digits) {
                    lemma_digits_grow(digits, place - start);
                }
            }
            return None;
        }
    }
    assert(digits.take(place - start) =~= digits);
    if negative {
        Some((-sum) as i64)
    } else if sum > 9_223_372_036_854_775_807 {
        None
    } else {
        Some(sum as i64)
    }
}

/// Whether an optional header is there with the given value.
pub open spec fn header_is(header: Option<String>, value: Seq<char>) -> bool {
    header matches Some(text) && text@ == value
}

fn is_header(header: &Option<String>, value: &str) -> (r: bool)
    ensures
        r == header_is(*header, value@),
{
    match header {
        Some(text) => same_text(text.as_str(), value),
        None => false,
    }
}

/// Whether an optional header is there and not blank.
pub open spec fn header_given(header: Option<String>) -> bool {
    header matches Some(text) && !blank(text@)
}

/// Whether a text is not blank.
pub fn non_empty(value: &str) -> (r: bool)
    ensures
        r == !blank(value@),
{
    !is_blank(value)
}

fn is_given(header: &Option<String>) -> (r: bool)
    ensures
        r == header_given(*header),
{
    match header {
        Some(text) => non_empty(text.as_str()),
        None => false,
    }
}

/// Whether the headers bind a request at `now_unix_ms` to the operation and
/// the capability of a console surface.
pub open spec fn bound_to(
    headers: SurfaceHeaders,
    operation: Seq<char>,
    capability: Seq<char>,
    now_unix_ms: i64,
) -> bool {
    &&& header_is(headers.contract_digest, NOTIFICATION_CONTRACT_DIGEST@)
    &&& header_is(headers.operation_id, operation)
    &&& header_is(headers.capability, capability)
    &&& header_given(headers.delegated_actor)
    &&& header_given(headers.service_id)
    &&& headers.delegated_authority matches Some(authority) && valid_digest_text(authority@)
    &&& headers.deadline_unix_ms matches Some(deadline) && (
    i64_value(deadline@) matches Some(value) && value > now_unix_ms)
}

pub const NOT_BOUND: &'static str =
    "Notification Business API request is not bound to an accepted Console Surface operation";

/// Accepts a request that is bound to the operation and the capability.
pub fn validate_surface_request(
    headers: &SurfaceHeaders,
    operation: &str,
    capability: &str,
    now_unix_ms: i64,
) -> (r: Result<(), ApiError>)
    ensures
        if bound_to(*headers, operation@, capability@, now_unix_ms) {
            r is Ok
        } else {
            r matches Err(error) && error.is(ApiErrorCode::Forbidden, NOT_BOUND@)
        },
{
    let authority_valid = match &headers.delegated_authority {
        Some(authority) => valid_digest(authority.as_str()),
        None => false,
    };
    let in_time = match &headers.deadline_unix_ms {
        Some(deadline) => match parse_i64(deadline.as_str()) {
            Some(value) => value > now_unix_ms,
            None => false,
        },
        None => false,
    };
    if is_header(&headers.contract_digest, NOTIFICATION_CONTRACT_DIGEST) && is_header(
        &headers.operation_id,
        operation,
    ) && is_header(&headers.capability, capability) && is_given(&headers.delegated_actor)
        && is_given(&headers.service_id) && authority_valid && in_time {
        Ok(())
    } else {
        Err(api_error(ApiErrorCode::Forbidden, NOT_BOUND))
    }
}

pub const LIMIT_OUT_OF_RANGE: &'static str = "limit must be between 1 and 200";

pub const UNKNOWN_STATUS: &'static str = "status is not a Notification delivery status";

pub const UNSAFE_DELIVERY_ID: &'static str = "delivery_id contains an unsafe path character";

pub const RETRY_INCOMPLETE: &'static str = "revision and idempotency_key are required";

fn validate_status(status: &Option<String>) -> (r: Result<(), ApiError>)
    ensures
        if status matches Some(name) ==> delivery_status_named(name@) is Some {
            r is Ok
        } else {
            r matches Err(error) && error.is(ApiErrorCode::Validation, UNKNOWN_STATUS@)
        },
{
    match status {
        Some(name) => match DeliveryStatus::from_name(name.as_str()) {
            Some(_) => Ok(()),
            None => Err(api_error(ApiErrorCode::Validation, UNKNOWN_STATUS)),
        },
        None => Ok(()),
    }
}

/// Whether a text can stand as one segment of a path.
pub open spec fn safe_segment(text: Seq<char>) -> bool {
    text.len() > 0 && forall|i: int|
        0 <= i < text.len() ==> ascii_alphanumeric(#[trigger] text[i]) || text[i] == '.' || text[i]
            == '_' || text[i] == '~' || text[i] == '-'
}

fn require_resource_id(value: &str) -> (r: Result<(), ApiError>)
    ensures
        if safe_segment(value@) {
            r is Ok
        } else {
            r matches Err(error) && error.is(ApiErrorCode::Validation, UNSAFE_DELIVERY_ID@)
        },
{
    let chars = chars_of(value);
    if chars.len() == 0 {
        return Err(api_error(ApiErrorCode::Validation, UNSAFE_DELIVERY_ID));
    }
    let mut place: usize = 0;
    while place < chars.len()
        invariant
            place <= chars@.len(),
            chars@ == value@,
            forall|i: int|
                0 <= i < place ==> ascii_alphanumeric(#[trigger] value@[i]) || value@[i] == '.'
                    || value@[i] == '_' || value@[i] == '~' || value@[i] == '-',
        decreases chars@.len() - place,
    {
        let c = chars[place];
        assert(c == value@[place as int]);
        if !((c >= '0' && c <= '9') || (c >= 'a' && c <= 'z') || (c >= 'A' && c <= 'Z') || c == '.'
            || c == '_' || c == '~' || c == '-') {
            return Err(api_error(ApiErrorCode::Validation, UNSAFE_DELIVERY_ID));
        }
        place += 1;
    }
    Ok(())
}

/// The page to read for the console.
#[derive(Debug)]
pub struct ConsolePage {
    /// How many records the page shows at most.
    pub limit: i64,
    /// How many rows to read: one more, to see whether there are more.
    pub fetch: i64,
    pub cursor: Option<String>,
    pub status: Option<String>,
}

/// How many records a page shows at most.
pub open spec fn page_limit(query: DeliveryListQuery) -> int {
    match query.limit {
        Some(limit) => limit as int,
        None => DEFAULT_LIMIT as int,
    }
}

/// Admits a request for a page of deliveries.
pub fn list_deliveries(headers: &SurfaceHeaders, query: DeliveryListQuery, now_unix_ms: i64) -> (r:
    Result<ConsolePage, ApiError>)
    ensures
        if !bound_to(
            *headers,
            LIST_DELIVERIES_OPERATION@,
            NOTIFICATION_DELIVERIES_READ@,
            now_unix_ms,
        ) {
            r matches Err(error) && error.is(ApiErrorCode::Forbidden, NOT_BOUND@)
        } else if !(1 <= page_limit(query) <= MAX_LIMIT) {
            r matches Err(error) && error.is(ApiErrorCode::Validation, LIMIT_OUT_OF_RANGE@)
        } else if query.status matches Some(name) && delivery_status_named(name@) is None {
            r matches Err(error) && error.is(ApiErrorCode::Validation, UNKNOWN_STATUS@)
        } else {
            r matches Ok(page) && page.limit == page_limit(query) && page.fetch == page.limit + 1
                && page.cursor == query.cursor && page.status == query.status
        },
{
    if let Err(error) = validate_surface_request(
        headers,
        LIST_DELIVERIES_OPERATION,
        NOTIFICATION_DELIVERIES_READ,
        now_unix_ms,
    ) {
        return Err(error);
    }
    let limit: i64 = match query.limit {
        Some(limit) => limit,
        None => DEFAULT_LIMIT,
    };
    if limit < 1 || limit > MAX_LIMIT {
        return Err(api_error(ApiErrorCode::Validation, LIMIT_OUT_OF_RANGE));
    }
    if let Err(error) = validate_status(&query.status) {
        return Err(error);
    }
    Ok(ConsolePage { limit, fetch: limit + 1, cursor: query.cursor, status: query.status })
}

/// Admits a request for one delivery.
pub fn get_delivery(headers: &SurfaceHeaders, delivery_id: &str, now_unix_ms: i64) -> (r: Result<
    (),
    ApiError,
>)
    ensures
        if !bound_to(*headers, GET_DELIVERY_OPERATION@, NOTIFICATION_DELIVERIES_READ@, now_unix_ms) {
            r matches Err(error) && error.is(ApiErrorCode::Forbidden, NOT_BOUND@)
        } else if !safe_segment(delivery_id@) {
            r matches Err(error) && error.is(ApiErrorCode::Validation, UNSAFE_DELIVERY_ID@)
        } else {
            r is Ok
        },
{
    if let Err(error) = validate_surface_request(
        headers,
        GET_DELIVERY_OPERATION,
        NOTIFICATION_DELIVERIES_READ,
        now_unix_ms,
    ) {
        return Err(error);
    }
    require_resource_id(delivery_id)
}

/// Admits a retry; what comes back is who requested it.
pub fn retry_delivery(
    headers: &SurfaceHeaders,
    delivery_id: &str,
    input: &RetryDeliveryRequest,
    now_unix_ms: i64,
) -> (r: Result<String, ApiError>)
    ensures
        if !bound_to(
            *headers,
            RETRY_DELIVERY_OPERATION@,
            NOTIFICATION_DELIVERIES_RETRY@,
            now_unix_ms,
        ) {
            r matches Err(error) && error.is(ApiErrorCode::Forbidden, NOT_BOUND@)
        } else if !safe_segment(delivery_id@) {
            r matches Err(error) && error.is(ApiErrorCode::Validation, UNSAFE_DELIVERY_ID@)
        } else if input.revision <= 0 || blank(input.idempotency_key@) {
            r matches Err(error) && error.is(ApiErrorCode::Validation, RETRY_INCOMPLETE@)
        } else {
            r matches Ok(by) && by@ == leading(headers.delegated_actor->Some_0@, 240)
        },
{
    if let Err(error) = validate_surface_request(
        headers,
        RETRY_DELIVERY_OPERATION,
        NOTIFICATION_DELIVERIES_RETRY,
        now_unix_ms,
    ) {
        return Err(error);
    }
    if let Err(error) = require_resource_id(delivery_id) {
        return Err(error);
    }
    if input.revision <= 0 || !non_empty(input.idempotency_key.as_str()) {
        return Err(api_error(ApiErrorCode::Validation, RETRY_INCOMPLETE));
    }
    let actor = match &headers.delegated_actor {
        Some(actor) => actor.as_str(),
        None => "unknown",
    };
    Ok(bounded(actor, 240))
}

// Answers

/// Whether `shown` is the answer about a stored delivery.
pub open spec fn summarizes(shown: DeliverySummaryResponse, value: DeliverySummary) -> bool {
    &&& shown.id == value.id
    &&& shown.recipient_mask == value.recipient_mask
    &&& shown.template_id == value.template_id
    &&& shown.template_version == value.template_version
    &&& shown.locale == value.locale
    &&& shown.status == value.status
    &&& shown.revision == value.revision
    &&& shown.attempt_count == value.attempt_count
    &&& shown.max_attempts == value.max_attempts
    &&& shown.redacted_preview == value.redacted_preview
    &&& shown.content_digest == value.content_digest
    &&& shown.correlation_id == value.correlation_id
    &&& shown.next_attempt_at == value.next_attempt_at
    &&& shown.final_reason == value.final_reason
    &&& shown.created_at == value.created_at
    &&& shown.updated_at == value.updated_at
    &&& shown.retry_now_eligible == retry_eligible(
        value.status@,
        value.attempt_count,
        value.max_attempts,
    )
}

/// The answer about a stored delivery.
pub fn summary_response(value: &DeliverySummary) -> (shown: DeliverySummaryResponse)
    ensures
        summarizes(shown, *value),
{
    DeliverySummaryResponse {
        id: value.id.clone(),
        recipient_mask: value.recipient_mask.clone(),
        template_id: value.template_id.clone(),
        template_version: value.template_version.clone(),
        locale: value.locale.clone(),
        status: value.status.clone(),
        revision: value.revision,
        attempt_count: value.attempt_count,
        max_attempts: value.max_attempts,
        redacted_preview: value.redacted_preview.clone(),
        content_digest: value.content_digest.clone(),
        correlation_id: value.correlation_id.clone(),
        next_attempt_at: value.next_attempt_at,
        final_reason: value.final_reason.clone(),
        created_at: value.created_at,
        updated_at: value.updated_at,
        retry_now_eligible: is_retry_eligible(
            value.status.as_str(),
            value.attempt_count,
            value.max_attempts,
        ),
    }
}

/// The answer about a page of stored deliveries, of which one more was read
/// than the page shows.
pub fn page_response(rows: &Vec<DeliverySummary>, limit: i64) -> (page: DeliveryPageResponse)
    requires
        1 <= limit <= MAX_LIMIT,
    ensures
        page.records@.len() == (if rows@.len() > limit {
            limit as nat
        } else {
            rows@.len()
        }),
        forall|i: int|
            0 <= i < page.records@.len() ==> summarizes(#[trigger] page.records@[i], rows@[i]),
        if rows@.len() > limit {
            page.next_cursor matches Some(cursor) && cursor@ == rows@[limit - 1].id@
        } else {
            page.next_cursor is None
        },
{
    let has_more = rows.len() > limit as usize;
    let count: usize = if has_more {
        limit as usize
    } else {
        rows.len()
    };
    let mut records: Vec<DeliverySummaryResponse> = Vec::new();
    let mut next: usize = 0;
    while next < count
        invariant
            next <= count <= rows@.len(),
            records@.len() == next,
            forall|i: int| 0 <= i < next ==> summarizes(#[trigger] records@[i], rows@[i]),
        decreases count - next,
    {
        records.push(summary_response(&rows[next]));
        next += 1;
    }
    let next_cursor = if has_more {
        Some(records[count - 1].id.clone())
    } else {
        None
    };
    DeliveryPageResponse { records, next_cursor }
}

/// Whether `shown` is the answer about a stored attempt.
pub open spec fn tells_attempt(shown: AttemptResponse, value: AttemptRecord) -> bool {
    &&& shown.id == value.id
    &&& shown.sequence == value.sequence
    &&& shown.function_run_id == value.function_run_id
    &&& shown.status == value.status
    &&& shown.provider == value.provider
    &&& shown.remote_receipt_id == value.remote_receipt_id
    &&& shown.failure_code == value.failure_code
    &&& shown.failure_classification == value.failure_classification
    &&& shown.started_at == value.started_at
    &&& shown.completed_at == value.completed_at
}

fn attempt_response(value: &AttemptRecord) -> (shown: AttemptResponse)
    ensures
        tells_attempt(shown, *value),
{
    AttemptResponse {
        id: value.id.clone(),
        sequence: value.sequence,
        function_run_id: value.function_run_id.clone(),
        status: value.status.clone(),
        provider: value.provider.clone(),
        remote_receipt_id: value.remote_receipt_id.clone(),
        failure_code: value.failure_code.clone(),
        failure_classification: value.failure_classification.clone(),
        started_at: value.started_at,
        completed_at: value.completed_at,
    }
}

/// Whether `shown` is the answer about a stored receipt.
pub open spec fn tells_receipt(shown: ReceiptResponse, value: ReceiptRecord) -> bool {
    &&& shown.id == value.id
    &&& shown.attempt_id == value.attempt_id
    &&& shown.kind == value.kind
    &&& shown.source == value.source
    &&& shown.remote_id == value.remote_id
    &&& shown.digest == value.digest
    &&& shown.observed_at == value.observed_at
}

fn receipt_response(value: &ReceiptRecord) -> (shown: ReceiptResponse)
    ensures
        tells_receipt(shown, *value),
{
    ReceiptResponse {
        id: value.id.clone(),
        attempt_id: value.attempt_id.clone(),
        kind: value.kind.clone(),
        source: value.source.clone(),
        remote_id: value.remote_id.clone(),
        digest: value.digest.clone(),
        observed_at: value.observed_at,
    }
}

/// Whether `shown` is the answer about a stored retry decision.
pub open spec fn tells_retry(shown: RetryResponseRecord, value: RetryRecord) -> bool {
    &&& shown.id == value.id
    &&& shown.kind == value.kind
    &&& shown.requested_by == value.requested_by
    &&& shown.source_revision == value.source_revision
    &&& shown.decision == value.decision
    &&& shown.reason == value.reason
    &&& shown.scheduled_at == value.scheduled_at
    &&& shown.created_at == value.created_at
}

fn retry_record_response(value: &RetryRecord) -> (shown: RetryResponseRecord)
    ensures
        tells_retry(shown, *value),
{
    RetryResponseRecord {
        id: value.id.clone(),
        kind: value.kind.clone(),
        requested_by: value.requested_by.clone(),
        source_revision: value.source_revision,
        decision: value.decision.clone(),
        reason: value.reason.clone(),
        scheduled_at: value.scheduled_at,
        created_at: value.created_at,
    }
}

/// The answer about a delivery with its evidence.
pub fn detail_response(value: &DeliveryDetail) -> (shown: DeliveryDetailResponse)
    ensures
        summarizes(shown.delivery, value.delivery),
        shown.open_in_story_correlation_id == value.delivery.correlation_id,
        shown.attempts@.len() == value.attempts@.len(),
        forall|i: int|
            0 <= i < shown.attempts@.len() ==> tells_attempt(
                #[trigger] shown.attempts@[i],
                value.attempts@[i],
            ),
        shown.receipts@.len() == value.receipts@.len(),
        forall|i: int|
            0 <= i < shown.receipts@.len() ==> tells_receipt(
                #[trigger] shown.receipts@[i],
                value.receipts@[i],
            ),
        shown.retry_requests@.len() == value.retry_requests@.len(),
        forall|i: int|
            0 <= i < shown.retry_requests@.len() ==> tells_retry(
                #[trigger] shown.retry_requests@[i],
                value.retry_requests@[i],
            ),
{
    let mut attempts: Vec<AttemptResponse> = Vec::new();
    let mut next: usize = 0;
    while next < value.attempts.len()
        invariant
            next <= value.attempts@.len(),
            attempts@.len() == next,
            forall|i: int|
                0 <= i < next ==> tells_attempt(#[trigger] attempts@[i], value.attempts@[i]),
        decreases value.attempts@.len() - next,
    {
        attempts.push(attempt_response(&value.attempts[next]));
        next += 1;
    }
    let mut receipts: Vec<ReceiptResponse> = Vec::new();
    next = 0;
    while next < value.receipts.len()
        invariant
            next <= value.receipts@.len(),
            receipts@.len() == next,
            forall|i: int|
                0 <= i < next ==> tells_receipt(#[trigger] receipts@[i], value.receipts@[i]),
        decreases value.receipts@.len() - next,
    {
        receipts.push(receipt_response(&value.receipts[next]));
        next += 1;
    }
    let mut retry_requests: Vec<RetryResponseRecord> = Vec::new();
    next = 0;
    while next < value.retry_requests.len()
        invariant
            next <= value.retry_requests@.len(),
            retry_requests@.len() == next,
            forall|i: int|
                0 <= i < next ==> tells_retry(
                    #[trigger] retry_requests@[i],
                    value.retry_requests@[i],
                ),
        decreases value.retry_requests@.len() - next,
    {
        retry_requests.push(retry_record_response(&value.retry_requests[next]));
        next += 1;
    }
    DeliveryDetailResponse {
        delivery: summary_response(&value.delivery),
        attempts,
        receipts,
        retry_requests,
        open_in_story_correlation_id: value.delivery.correlation_id.clone(),
    }
}

/// The answer to a retry.
pub fn retry_response(result: RetryResult) -> (shown: RetryDeliveryResponse)
    ensures
        shown.delivery_id == result.delivery_id,
        shown.revision == result.revision,
        shown.status == result.status,
        shown.scheduled_at == result.scheduled_at,
        shown.idempotent_replay == result.idempotent_replay,
{
    RetryDeliveryResponse {
        delivery_id: result.delivery_id,
        revision: result.revision,
        status: result.status,
        scheduled_at: result.scheduled_at,
        idempotent_replay: result.idempotent_replay,
    }
}

} // verus!
