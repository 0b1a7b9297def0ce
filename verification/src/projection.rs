//! What an administrator sees of the ledger: stored records that keep every
//! bound of the admin capability, and nothing else.

use vstd::prelude::*;

use crate::admin;
use crate::digest::{valid_digest, valid_digest_text};
use crate::dispatch::{format_optional_time, optional_time};
use crate::domain::{delivery_status_named, DeliveryStatus, MAX_SAFE_WIRE_INTEGER};
use crate::error::{plugin_failure, RuntimeFailure};
use crate::faults::{first_fault, lemma_first_fault_at, lemma_no_fault};
use crate::repository::{evidence_fits, is_retry_eligible, probed, retry_eligible, AttemptRecord,
    DeliveryDetail, DeliverySummary, ReceiptRecord, RetryRecord, RetryResult,
    ADMIN_ATTEMPT_LIMIT, ADMIN_RECEIPT_LIMIT, ADMIN_RETRY_REQUEST_LIMIT};
use crate::text::{at_most_chars, char_count, option_text, optional_bounded, required_bounded,
    same_text, within};
use crate::time::{format_time, formatted_time, UtcTime};

verus! {

pub const PROJECTION_INVALID: &'static str =
    "stored Notification Admin projection violates its bounded Capability Contract";

fn invalid_admin_projection() -> (failure: RuntimeFailure)
    ensures
        failure.is_plugin_failure(PROJECTION_INVALID@),
{
    plugin_failure(PROJECTION_INVALID)
}

/// Whether the failure is the plugin failure that `fault` describes.
pub open spec fn reports(failure: RuntimeFailure, fault: Option<Seq<char>>) -> bool {
    fault matches Some(message) && failure.is_plugin_failure(message)
}

/// Why a stored instant has no text.
pub open spec fn time_fault(time: UtcTime) -> Option<Seq<char>> {
    match formatted_time(time) {
        Ok(_) => None,
        Err(message) => Some(message),
    }
}

/// Why an optional stored instant has no text.
pub open spec fn optional_time_fault(time: Option<UtcTime>) -> Option<Seq<char>> {
    match time {
        Some(at) => time_fault(at),
        None => None,
    }
}

/// Whether an optional stored instant is one.
pub open spec fn optional_valid(time: Option<UtcTime>) -> bool {
    time matches Some(at) ==> at.valid()
}

/// Whether `text` is the text of the stored instant.
pub open spec fn shows_time(text: String, time: UtcTime) -> bool {
    formatted_time(time) == Ok::<Seq<char>, Seq<char>>(text@)
}

/// Whether `text` is the text of the optional stored instant.
pub open spec fn shows_optional_time(text: Option<String>, time: Option<UtcTime>) -> bool {
    optional_time(time) == Ok::<Option<Seq<char>>, Seq<char>>(option_text(text))
}

/// The first of three faults.
pub open spec fn earliest(
    a: Option<Seq<char>>,
    b: Option<Seq<char>>,
    c: Option<Seq<char>>,
) -> Option<Seq<char>> {
    if a is Some {
        a
    } else if b is Some {
        b
    } else {
        c
    }
}

// Deliveries

/// The shown form of a status.
pub open spec fn shown_status(status: DeliveryStatus) -> admin::DeliveryStatus {
    match status {
        DeliveryStatus::Queued => admin::DeliveryStatus::Queued,
        DeliveryStatus::Attempting => admin::DeliveryStatus::Attempting,
        DeliveryStatus::Accepted => admin::DeliveryStatus::Accepted,
        DeliveryStatus::RetryScheduled => admin::DeliveryStatus::RetryScheduled,
        DeliveryStatus::Delivered => admin::DeliveryStatus::Delivered,
        DeliveryStatus::Failed => admin::DeliveryStatus::Failed,
        DeliveryStatus::DeliveryUnknown => admin::DeliveryStatus::DeliveryUnknown,
    }
}

/// The shown form of a status.
pub fn status_shown(status: DeliveryStatus) -> (shown: admin::DeliveryStatus)
    ensures
        shown == shown_status(status),
{
    match status {
        DeliveryStatus::Queued => admin::DeliveryStatus::Queued,
        DeliveryStatus::Attempting => admin::DeliveryStatus::Attempting,
        DeliveryStatus::Accepted => admin::DeliveryStatus::Accepted,
        DeliveryStatus::RetryScheduled => admin::DeliveryStatus::RetryScheduled,
        DeliveryStatus::Delivered => admin::DeliveryStatus::Delivered,
        DeliveryStatus::Failed => admin::DeliveryStatus::Failed,
        DeliveryStatus::DeliveryUnknown => admin::DeliveryStatus::DeliveryUnknown,
    }
}

/// The stored name of a shown status.
pub open spec fn admin_status_name(status: admin::DeliveryStatus) -> Seq<char> {
    match status {
        admin::DeliveryStatus::Queued => "queued"@,
        admin::DeliveryStatus::Attempting => "attempting"@,
        admin::DeliveryStatus::Accepted => "accepted"@,
        admin::DeliveryStatus::RetryScheduled => "retry_scheduled"@,
        admin::DeliveryStatus::Delivered => "delivered"@,
        admin::DeliveryStatus::Failed => "failed"@,
        admin::DeliveryStatus::DeliveryUnknown => "delivery_unknown"@,
    }
}

/// The stored name of a shown status.
pub fn admin_status(status: admin::DeliveryStatus) -> (name: &'static str)
    ensures
        name@ == admin_status_name(status),
{
    match status {
        admin::DeliveryStatus::Queued => "queued",
        admin::DeliveryStatus::Attempting => "attempting",
        admin::DeliveryStatus::Accepted => "accepted",
        admin::DeliveryStatus::RetryScheduled => "retry_scheduled",
        admin::DeliveryStatus::Delivered => "delivered",
        admin::DeliveryStatus::Failed => "failed",
        admin::DeliveryStatus::DeliveryUnknown => "delivery_unknown",
    }
}

/// Whether a stored delivery keeps the bounds of what is shown of it.
pub open spec fn delivery_in_bounds(value: DeliverySummary) -> bool {
    &&& within(value.id@, 1, 160)
    &&& within(value.recipient_mask@, 3, 320)
    &&& within(value.template_id@, 1, 160)
    &&& within(value.template_version@, 1, 80)
    &&& within(value.locale@, 2, 32)
    &&& 1 <= value.revision <= MAX_SAFE_WIRE_INTEGER
    &&& 0 <= value.attempt_count <= 10
    &&& 1 <= value.max_attempts <= 10
    &&& value.attempt_count <= value.max_attempts
    &&& value.redacted_preview@.len() <= 160
    &&& valid_digest_text(value.content_digest@)
    &&& within(value.correlation_id@, 1, 240)
    &&& at_most_chars(value.final_reason, 160)
    &&& delivery_status_named(value.status@) is Some
}

/// Why a stored delivery is not shown, if it is not.
pub open spec fn delivery_fault(value: DeliverySummary) -> Option<Seq<char>> {
    if !delivery_in_bounds(value) {
        Some(PROJECTION_INVALID@)
    } else {
        earliest(
            time_fault(value.created_at),
            optional_time_fault(value.next_attempt_at),
            time_fault(value.updated_at),
        )
    }
}

/// Whether `shown` is what is shown of a stored delivery.
pub open spec fn shows_delivery(shown: admin::Delivery, value: DeliverySummary) -> bool {
    &&& shown.attempt_count == value.attempt_count
    &&& shown.content_digest == value.content_digest
    &&& shown.correlation_id == value.correlation_id
    &&& shows_time(shown.created_at, value.created_at)
    &&& shown.final_reason == value.final_reason
    &&& shown.id == value.id
    &&& shown.locale == value.locale
    &&& shown.max_attempts == value.max_attempts
    &&& shows_optional_time(shown.next_attempt_at, value.next_attempt_at)
    &&& shown.recipient_mask == value.recipient_mask
    &&& shown.redacted_preview == value.redacted_preview
    &&& shown.retry_now_eligible == retry_eligible(
        value.status@,
        value.attempt_count,
        value.max_attempts,
    )
    &&& shown.revision == value.revision
    &&& delivery_status_named(value.status@) matches Some(status) && shown.status == shown_status(
        status,
    )
    &&& shown.template_id == value.template_id
    &&& shown.template_version == value.template_version
    &&& shows_time(shown.updated_at, value.updated_at)
}

impl DeliverySummary {
    /// Whether the stored instants are instants.
    pub open spec fn timely(self) -> bool {
        self.created_at.valid() && optional_valid(self.next_attempt_at) && self.updated_at.valid()
    }
}

/// What is shown of a stored delivery.
pub fn admin_delivery(value: &DeliverySummary) -> (r: Result<admin::Delivery, RuntimeFailure>)
    requires
        value.timely(),
    ensures
        match r {
            Ok(shown) => delivery_fault(*value) is None && shows_delivery(shown, *value),
            Err(failure) => reports(failure, delivery_fault(*value)),
        },
{
    if !required_bounded(value.id.as_str(), 1, 160) || !required_bounded(
        value.recipient_mask.as_str(),
        3,
        320,
    ) || !required_bounded(value.template_id.as_str(), 1, 160) || !required_bounded(
        value.template_version.as_str(),
        1,
        80,
    ) || !required_bounded(value.locale.as_str(), 2, 32) || value.revision < 1 || value.revision
        > MAX_SAFE_WIRE_INTEGER || value.attempt_count < 0 || value.attempt_count > 10
        || value.max_attempts < 1 || value.max_attempts > 10 || value.attempt_count
        > value.max_attempts || char_count(value.redacted_preview.as_str()) > 160 || !valid_digest(
        value.content_digest.as_str(),
    ) || !required_bounded(value.correlation_id.as_str(), 1, 240) || !optional_bounded(
        &value.final_reason,
        160,
    ) {
        return Err(invalid_admin_projection());
    }
    let status = match DeliveryStatus::from_name(value.status.as_str()) {
        Some(status) => status_shown(status),
        None => {
            return Err(invalid_admin_projection());
        },
    };
    let created_at = match format_time(value.created_at) {
        Ok(text) => text,
        Err(failure) => {
            return Err(failure);
        },
    };
    let next_attempt_at = match format_optional_time(&value.next_attempt_at) {
        Ok(text) => text,
        Err(failure) => {
            return Err(failure);
        },
    };
    let updated_at = match format_time(value.updated_at) {
        Ok(text) => text,
        Err(failure) => {
            return Err(failure);
        },
    };
    let retry_now_eligible = is_retry_eligible(
        value.status.as_str(),
        value.attempt_count,
        value.max_attempts,
    );
    Ok(
        admin::Delivery {
            attempt_count: value.attempt_count as i64,
            content_digest: value.content_digest.clone(),
            correlation_id: value.correlation_id.clone(),
            created_at,
            final_reason: value.final_reason.clone(),
            id: value.id.clone(),
            locale: value.locale.clone(),
            max_attempts: value.max_attempts as i64,
            next_attempt_at,
            recipient_mask: value.recipient_mask.clone(),
            redacted_preview: value.redacted_preview.clone(),
            retry_now_eligible,
            revision: value.revision,
            status,
            template_id: value.template_id.clone(),
            template_version: value.template_version.clone(),
            updated_at,
        },
    )
}

// Attempts

/// The attempt status stored under `name`, if it is the name of one.
pub open spec fn attempt_status_named(name: Seq<char>) -> Option<admin::AttemptStatus> {
    if name == "dispatching"@ {
        Some(admin::AttemptStatus::Dispatching)
    } else if name == "accepted"@ {
        Some(admin::AttemptStatus::Accepted)
    } else if name == "temporary_failure"@ {
        Some(admin::AttemptStatus::TemporaryFailure)
    } else if name == "permanent_failure"@ {
        Some(admin::AttemptStatus::PermanentFailure)
    } else if name == "delivery_unknown"@ {
        Some(admin::AttemptStatus::DeliveryUnknown)
    } else {
        None
    }
}

fn attempt_status(name: &str) -> (r: Option<admin::AttemptStatus>)
    ensures
        r == attempt_status_named(name@),
{
    if same_text(name, "dispatching") {
        Some(admin::AttemptStatus::Dispatching)
    } else if same_text(name, "accepted") {
        Some(admin::AttemptStatus::Accepted)
    } else if same_text(name, "temporary_failure") {
        Some(admin::AttemptStatus::TemporaryFailure)
    } else if same_text(name, "permanent_failure") {
        Some(admin::AttemptStatus::PermanentFailure)
    } else if same_text(name, "delivery_unknown") {
        Some(admin::AttemptStatus::DeliveryUnknown)
    } else {
        None
    }
}

/// Whether a stored attempt keeps the bounds of what is shown of it.
pub open spec fn attempt_in_bounds(value: AttemptRecord) -> bool {
    &&& within(value.id@, 1, 160)
    &&& 1 <= value.sequence <= 10
    &&& within(value.function_run_id@, 1, 160)
    &&& at_most_chars(value.provider, 160)
    &&& at_most_chars(value.remote_receipt_id, 320)
    &&& at_most_chars(value.failure_code, 160)
    &&& at_most_chars(value.failure_classification, 160)
    &&& attempt_status_named(value.status@) is Some
}

/// Why a stored attempt is not shown, if it is not.
pub open spec fn attempt_fault(value: AttemptRecord) -> Option<Seq<char>> {
    if !attempt_in_bounds(value) {
        Some(PROJECTION_INVALID@)
    } else {
        earliest(optional_time_fault(value.completed_at), time_fault(value.started_at), None)
    }
}

/// Whether `shown` is what is shown of a stored attempt.
pub open spec fn shows_attempt(shown: admin::Attempt, value: AttemptRecord) -> bool {
    &&& shows_optional_time(shown.completed_at, value.completed_at)
    &&& shown.failure_classification == value.failure_classification
    &&& shown.failure_code == value.failure_code
    &&& shown.id == value.id
    &&& shown.provider == value.provider
    &&& shown.remote_receipt_id == value.remote_receipt_id
    &&& shown.run_id == value.function_run_id
    &&& shown.sequence == value.sequence
    &&& shows_time(shown.started_at, value.started_at)
    &&& Some(shown.status) == attempt_status_named(value.status@)
}

impl AttemptRecord {
    /// Whether the stored instants are instants.
    pub open spec fn timely(self) -> bool {
        self.started_at.valid() && optional_valid(self.completed_at)
    }
}

/// What is shown of a stored attempt.
pub fn admin_attempt(value: &AttemptRecord) -> (r: Result<admin::Attempt, RuntimeFailure>)
    requires
        value.timely(),
    ensures
        match r {
            Ok(shown) => attempt_fault(*value) is None && shows_attempt(shown, *value),
            Err(failure) => reports(failure, attempt_fault(*value)),
        },
{
    if !required_bounded(value.id.as_str(), 1, 160) || value.sequence < 1 || value.sequence > 10
        || !required_bounded(value.function_run_id.as_str(), 1, 160) || !optional_bounded(
        &value.provider,
        160,
    ) || !optional_bounded(&value.remote_receipt_id, 320) || !optional_bounded(
        &value.failure_code,
        160,
    ) || !optional_bounded(&value.failure_classification, 160) {
        return Err(invalid_admin_projection());
    }
    let status = match attempt_status(value.status.as_str()) {
        Some(status) => status,
        None => {
            return Err(invalid_admin_projection());
        },
    };
    let completed_at = match format_optional_time(&value.completed_at) {
        Ok(text) => text,
        Err(failure) => {
            return Err(failure);
        },
    };
    let started_at = match format_time(value.started_at) {
        Ok(text) => text,
        Err(failure) => {
            return Err(failure);
        },
    };
    Ok(
        admin::Attempt {
            completed_at,
            failure_classification: value.failure_classification.clone(),
            failure_code: value.failure_code.clone(),
            id: value.id.clone(),
            provider: value.provider.clone(),
            remote_receipt_id: value.remote_receipt_id.clone(),
            run_id: value.function_run_id.clone(),
            sequence: value.sequence as i64,
            started_at,
            status,
        },
    )
}

// Receipts

/// The receipt kind stored under `name`, if it is the name of one.
pub open spec fn receipt_kind_named(name: Seq<char>) -> Option<admin::ReceiptKind> {
    if name == "accepted"@ {
        Some(admin::ReceiptKind::Accepted)
    } else if name == "delivered"@ {
        Some(admin::ReceiptKind::Delivered)
    } else if name == "bounced"@ {
        Some(admin::ReceiptKind::Bounced)
    } else if name == "rejected"@ {
        Some(admin::ReceiptKind::Rejected)
    } else {
        None
    }
}

fn receipt_kind(name: &str) -> (r: Option<admin::ReceiptKind>)
    ensures
        r == receipt_kind_named(name@),
{
    if same_text(name, "accepted") {
        Some(admin::ReceiptKind::Accepted)
    } else if same_text(name, "delivered") {
        Some(admin::ReceiptKind::Delivered)
    } else if same_text(name, "bounced") {
        Some(admin::ReceiptKind::Bounced)
    } else if same_text(name, "rejected") {
        Some(admin::ReceiptKind::Rejected)
    } else {
        None
    }
}

/// Whether a stored receipt keeps the bounds of what is shown of it.
pub open spec fn receipt_in_bounds(value: ReceiptRecord) -> bool {
    &&& within(value.id@, 1, 160)
    &&& within(value.attempt_id@, 1, 160)
    &&& within(value.source@, 1, 160)
    &&& within(value.remote_id@, 1, 320)
    &&& valid_digest_text(value.digest@)
    &&& receipt_kind_named(value.kind@) is Some
}

/// Why a stored receipt is not shown, if it is not.
pub open spec fn receipt_fault(value: ReceiptRecord) -> Option<Seq<char>> {
    if !receipt_in_bounds(value) {
        Some(PROJECTION_INVALID@)
    } else {
        time_fault(value.observed_at)
    }
}

/// Whether `shown` is what is shown of a stored receipt.
pub open spec fn shows_receipt(shown: admin::Receipt, value: ReceiptRecord) -> bool {
    &&& shown.attempt_id == value.attempt_id
    &&& shown.digest == value.digest
    &&& shown.id == value.id
    &&& Some(shown.kind) == receipt_kind_named(value.kind@)
    &&& shows_time(shown.observed_at, value.observed_at)
    &&& shown.remote_id == value.remote_id
    &&& shown.source == value.source
}

/// What is shown of a stored receipt.
pub fn admin_receipt(value: &ReceiptRecord) -> (r: Result<admin::Receipt, RuntimeFailure>)
    requires
        value.observed_at.valid(),
    ensures
        match r {
            Ok(shown) => receipt_fault(*value) is None && shows_receipt(shown, *value),
            Err(failure) => reports(failure, receipt_fault(*value)),
        },
{
    if !required_bounded(value.id.as_str(), 1, 160) || !required_bounded(
        value.attempt_id.as_str(),
        1,
        160,
    ) || !required_bounded(value.source.as_str(), 1, 160) || !required_bounded(
        value.remote_id.as_str(),
        1,
        320,
    ) || !valid_digest(value.digest.as_str()) {
        return Err(invalid_admin_projection());
    }
    let kind = match receipt_kind(value.kind.as_str()) {
        Some(kind) => kind,
        None => {
            return Err(invalid_admin_projection());
        },
    };
    let observed_at = match format_time(value.observed_at) {
        Ok(text) => text,
        Err(failure) => {
            return Err(failure);
        },
    };
    Ok(
        admin::Receipt {
            attempt_id: value.attempt_id.clone(),
            digest: value.digest.clone(),
            id: value.id.clone(),
            kind,
            observed_at,
            remote_id: value.remote_id.clone(),
            source: value.source.clone(),
        },
    )
}

// Retry decisions

/// The kind of retry stored under `name`, if it is the name of one.
pub open spec fn retry_kind_named(name: Seq<char>) -> Option<admin::RetryRecordKind> {
    if name == "automatic"@ {
        Some(admin::RetryRecordKind::Automatic)
    } else if name == "manual"@ {
        Some(admin::RetryRecordKind::Manual)
    } else {
        None
    }
}

/// The decision stored under `name`, if it is the name of one.
pub open spec fn retry_decision_named(name: Seq<char>) -> Option<admin::RetryRecordDecision> {
    if name == "scheduled"@ {
        Some(admin::RetryRecordDecision::Scheduled)
    } else if name == "rejected"@ {
        Some(admin::RetryRecordDecision::Rejected)
    } else {
        None
    }
}

/// Whether a stored retry decision keeps the bounds of what is shown of it.
pub open spec fn retry_in_bounds(value: RetryRecord) -> bool {
    &&& within(value.id@, 1, 160)
    &&& at_most_chars(value.requested_by, 240)
    &&& 1 <= value.source_revision <= MAX_SAFE_WIRE_INTEGER
    &&& at_most_chars(value.reason, 160)
    &&& retry_kind_named(value.kind@) is Some
    &&& retry_decision_named(value.decision@) is Some
}

/// Why a stored retry decision is not shown, if it is not.
pub open spec fn retry_record_fault(value: RetryRecord) -> Option<Seq<char>> {
    if !retry_in_bounds(value) {
        Some(PROJECTION_INVALID@)
    } else {
        earliest(time_fault(value.created_at), optional_time_fault(value.scheduled_at), None)
    }
}

/// Whether `shown` is what is shown of a stored retry decision.
pub open spec fn shows_retry_record(shown: admin::RetryRecord, value: RetryRecord) -> bool {
    &&& shows_time(shown.created_at, value.created_at)
    &&& Some(shown.decision) == retry_decision_named(value.decision@)
    &&& shown.id == value.id
    &&& Some(shown.kind) == retry_kind_named(value.kind@)
    &&& shown.reason == value.reason
    &&& shown.requested_by == value.requested_by
    &&& shows_optional_time(shown.scheduled_at, value.scheduled_at)
    &&& shown.source_revision == value.source_revision
}

impl RetryRecord {
    /// Whether the stored instants are instants.
    pub open spec fn timely(self) -> bool {
        self.created_at.valid() && optional_valid(self.scheduled_at)
    }
}

/// What is shown of a stored retry decision.
pub fn admin_retry_record(value: &RetryRecord) -> (r: Result<admin::RetryRecord, RuntimeFailure>)
    requires
        value.timely(),
    ensures
        match r {
            Ok(shown) => retry_record_fault(*value) is None && shows_retry_record(shown, *value),
            Err(failure) => reports(failure, retry_record_fault(*value)),
        },
{
    if !required_bounded(value.id.as_str(), 1, 160) || !optional_bounded(&value.requested_by, 240)
        || value.source_revision < 1 || value.source_revision > MAX_SAFE_WIRE_INTEGER
        || !optional_bounded(&value.reason, 160) {
        return Err(invalid_admin_projection());
    }
    let kind = if same_text(value.kind.as_str(), "automatic") {
        admin::RetryRecordKind::Automatic
    } else if same_text(value.kind.as_str(), "manual") {
        admin::RetryRecordKind::Manual
    } else {
        return Err(invalid_admin_projection());
    };
    let decision = if same_text(value.decision.as_str(), "scheduled") {
        admin::RetryRecordDecision::Scheduled
    } else if same_text(value.decision.as_str(), "rejected") {
        admin::RetryRecordDecision::Rejected
    } else {
        return Err(invalid_admin_projection());
    };
    let created_at = match format_time(value.created_at) {
        Ok(text) => text,
        Err(failure) => {
            return Err(failure);
        },
    };
    let scheduled_at = match format_optional_time(&value.scheduled_at) {
        Ok(text) => text,
        Err(failure) => {
            return Err(failure);
        },
    };
    Ok(
        admin::RetryRecord {
            created_at,
            decision,
            id: value.id.clone(),
            kind,
            reason: value.reason.clone(),
            requested_by: value.requested_by.clone(),
            scheduled_at,
            source_revision: value.source_revision,
        },
    )
}

/// Why the result of a manual retry is not shown, if it is not.
pub open spec fn retry_result_fault(value: RetryResult) -> Option<Seq<char>> {
    if !within(value.delivery_id@, 1, 160) || value.revision < 1 || value.revision
        > MAX_SAFE_WIRE_INTEGER || value.status@ != "retry_scheduled"@ {
        Some(PROJECTION_INVALID@)
    } else {
        time_fault(value.scheduled_at)
    }
}

/// The answer to a manual retry.
pub fn admin_retry(value: RetryResult) -> (r: Result<admin::RetryDeliveryResponse, RuntimeFailure>)
    requires
        value.scheduled_at.valid(),
    ensures
        match r {
            Ok(response) => {
                &&& retry_result_fault(value) is None
                &&& response.delivery_id == value.delivery_id
                &&& response.idempotent_replay == value.idempotent_replay
                &&& response.revision == value.revision
                &&& shows_time(response.scheduled_at, value.scheduled_at)
                &&& response.status is RetryScheduled
            },
            Err(failure) => reports(failure, retry_result_fault(value)),
        },
{
    if !required_bounded(value.delivery_id.as_str(), 1, 160) || value.revision < 1 || value.revision
        > MAX_SAFE_WIRE_INTEGER || !same_text(value.status.as_str(), "retry_scheduled") {
        return Err(invalid_admin_projection());
    }
    let scheduled_at = match format_time(value.scheduled_at) {
        Ok(text) => text,
        Err(failure) => {
            return Err(failure);
        },
    };
    Ok(
        admin::RetryDeliveryResponse {
            delivery_id: value.delivery_id,
            idempotent_replay: value.idempotent_replay,
            revision: value.revision,
            scheduled_at,
            status: admin::RetryDeliveryResponseStatus::RetryScheduled,
        },
    )
}

/// The faults of stored attempts, in order.
pub open spec fn attempt_faults(values: Seq<AttemptRecord>) -> Seq<Option<Seq<char>>> {
    values.map_values(|value: AttemptRecord| attempt_fault(value))
}

/// The faults of stored receipts, in order.
pub open spec fn receipt_faults(values: Seq<ReceiptRecord>) -> Seq<Option<Seq<char>>> {
    values.map_values(|value: ReceiptRecord| receipt_fault(value))
}

/// The faults of stored retry decisions, in order.
pub open spec fn retry_record_faults(values: Seq<RetryRecord>) -> Seq<Option<Seq<char>>> {
    values.map_values(|value: RetryRecord| retry_record_fault(value))
}

/// The faults of stored deliveries, in order.
pub open spec fn delivery_faults(values: Seq<DeliverySummary>) -> Seq<Option<Seq<char>>> {
    values.map_values(|value: DeliverySummary| delivery_fault(value))
}

fn admin_attempts(values: &Vec<AttemptRecord>) -> (r: Result<Vec<admin::Attempt>, RuntimeFailure>)
    requires
        forall|i: int| 0 <= i < values@.len() ==> #[trigger] values@[i].timely(),
    ensures
        match r {
            Ok(shown) => {
                &&& first_fault(attempt_faults(values@)) is None
                &&& shown@.len() == values@.len()
                &&& forall|i: int|
                    0 <= i < shown@.len() ==> shows_attempt(#[trigger] shown@[i], values@[i])
            },
            Err(failure) => reports(failure, first_fault(attempt_faults(values@))),
        },
{
    let mut shown: Vec<admin::Attempt> = Vec::new();
    let mut next: usize = 0;
    while next < values.len()
        invariant
            next <= values@.len(),
            shown@.len() == next,
            forall|i: int| 0 <= i < values@.len() ==> #[trigger] values@[i].timely(),
            forall|i: int| 0 <= i < next ==> #[trigger] attempt_faults(values@)[i] is None,
            forall|i: int| 0 <= i < next ==> shows_attempt(#[trigger] shown@[i], values@[i]),
        decreases values@.len() - next,
    {
        match admin_attempt(&values[next]) {
            Ok(record) => {
                shown.push(record);
            },
            Err(failure) => {
                proof {
                    lemma_first_fault_at(attempt_faults(values@), next as int);
                }
                return Err(failure);
            },
        }
        next += 1;
    }
    proof {
        lemma_no_fault(attempt_faults(values@));
    }
    Ok(shown)
}

fn admin_receipts(values: &Vec<ReceiptRecord>) -> (r: Result<Vec<admin::Receipt>, RuntimeFailure>)
    requires
        forall|i: int| 0 <= i < values@.len() ==> (#[trigger] values@[i]).observed_at.valid(),
    ensures
        match r {
            Ok(shown) => {
                &&& first_fault(receipt_faults(values@)) is None
                &&& shown@.len() == values@.len()
                &&& forall|i: int|
                    0 <= i < shown@.len() ==> shows_receipt(#[trigger] shown@[i], values@[i])
            },
            Err(failure) => reports(failure, first_fault(receipt_faults(values@))),
        },
{
    let mut shown: Vec<admin::Receipt> = Vec::new();
    let mut next: usize = 0;
    while next < values.len()
        invariant
            next <= values@.len(),
            shown@.len() == next,
            forall|i: int| 0 <= i < values@.len() ==> (#[trigger] values@[i]).observed_at.valid(),
            forall|i: int| 0 <= i < next ==> #[trigger] receipt_faults(values@)[i] is None,
            forall|i: int| 0 <= i < next ==> shows_receipt(#[trigger] shown@[i], values@[i]),
        decreases values@.len() - next,
    {
        match admin_receipt(&values[next]) {
            Ok(record) => {
                shown.push(record);
            },
            Err(failure) => {
                proof {
                    lemma_first_fault_at(receipt_faults(values@), next as int);
                }
                return Err(failure);
            },
        }
        next += 1;
    }
    proof {
        lemma_no_fault(receipt_faults(values@));
    }
    Ok(shown)
}

fn admin_retry_records(values: &Vec<RetryRecord>) -> (r: Result<Vec<admin::RetryRecord>, RuntimeFailure>)
    requires
        forall|i: int| 0 <= i < values@.len() ==> #[trigger] values@[i].timely(),
    ensures
        match r {
            Ok(shown) => {
                &&& first_fault(retry_record_faults(values@)) is None
                &&& shown@.len() == values@.len()
                &&& forall|i: int|
                    0 <= i < shown@.len() ==> shows_retry_record(#[trigger] shown@[i], values@[i])
            },
            Err(failure) => reports(failure, first_fault(retry_record_faults(values@))),
        },
{
    let mut shown: Vec<admin::RetryRecord> = Vec::new();
    let mut next: usize = 0;
    while next < values.len()
        invariant
            next <= values@.len(),
            shown@.len() == next,
            forall|i: int| 0 <= i < values@.len() ==> #[trigger] values@[i].timely(),
            forall|i: int| 0 <= i < next ==> #[trigger] retry_record_faults(values@)[i] is None,
            forall|i: int| 0 <= i < next ==> shows_retry_record(#[trigger] shown@[i], values@[i]),
        decreases values@.len() - next,
    {
        match admin_retry_record(&values[next]) {
            Ok(record) => {
                shown.push(record);
            },
            Err(failure) => {
                proof {
                    lemma_first_fault_at(retry_record_faults(values@), next as int);
                }
                return Err(failure);
            },
        }
        next += 1;
    }
    proof {
        lemma_no_fault(retry_record_faults(values@));
    }
    Ok(shown)
}

impl DeliveryDetail {
    /// Whether the stored instants are instants.
    pub open spec fn timely(self) -> bool {
        &&& self.delivery.timely()
        &&& forall|i: int| 0 <= i < self.attempts@.len() ==> #[trigger] self.attempts@[i].timely()
        &&& forall|i: int|
            0 <= i < self.receipts@.len() ==> (#[trigger] self.receipts@[i]).observed_at.valid()
        &&& forall|i: int|
            0 <= i < self.retry_requests@.len() ==> #[trigger] self.retry_requests@[i].timely()
    }
}

/// Why the detail of a delivery is not shown, if it is not.
pub open spec fn detail_fault(value: DeliveryDetail) -> Option<Seq<char>> {
    if !evidence_fits(value.attempts@.len(), value.receipts@.len(), value.retry_requests@.len()) {
        Some(PROJECTION_INVALID@)
    } else {
        earliest(
            first_fault(attempt_faults(value.attempts@)),
            delivery_fault(value.delivery),
            earliest(
                first_fault(receipt_faults(value.receipts@)),
                first_fault(retry_record_faults(value.retry_requests@)),
                None,
            ),
        )
    }
}

/// Whether `shown` is what is shown of a delivery with its evidence.
pub open spec fn shows_detail(shown: admin::GetDeliveryResponse, value: DeliveryDetail) -> bool {
    &&& shown.attempts@.len() == value.attempts@.len()
    &&& forall|i: int|
        0 <= i < shown.attempts@.len() ==> shows_attempt(
            #[trigger] shown.attempts@[i],
            value.attempts@[i],
        )
    &&& shows_delivery(shown.delivery, value.delivery)
    &&& shown.open_in_story_correlation_id == value.delivery.correlation_id
    &&& shown.receipts@.len() == value.receipts@.len()
    &&& forall|i: int|
        0 <= i < shown.receipts@.len() ==> shows_receipt(
            #[trigger] shown.receipts@[i],
            value.receipts@[i],
        )
    &&& shown.retry_requests@.len() == value.retry_requests@.len()
    &&& forall|i: int|
        0 <= i < shown.retry_requests@.len() ==> shows_retry_record(
            #[trigger] shown.retry_requests@[i],
            value.retry_requests@[i],
        )
}

/// What is shown of a delivery with all of its evidence.
pub fn admin_detail(value: DeliveryDetail) -> (r: Result<
    admin::GetDeliveryResponse,
    RuntimeFailure,
>)
    requires
        value.timely(),
    ensures
        match r {
            Ok(shown) => detail_fault(value) is None && shows_detail(shown, value),
            Err(failure) => reports(failure, detail_fault(value)),
        },
{
    if value.attempts.len() > ADMIN_ATTEMPT_LIMIT || value.receipts.len() > ADMIN_RECEIPT_LIMIT
        || value.retry_requests.len() > ADMIN_RETRY_REQUEST_LIMIT {
        return Err(invalid_admin_projection());
    }
    let correlation_id = value.delivery.correlation_id.clone();
    let attempts = match admin_attempts(&value.attempts) {
        Ok(shown) => shown,
        Err(failure) => {
            return Err(failure);
        },
    };
    let delivery = match admin_delivery(&value.delivery) {
        Ok(shown) => shown,
        Err(failure) => {
            return Err(failure);
        },
    };
    let receipts = match admin_receipts(&value.receipts) {
        Ok(shown) => shown,
        Err(failure) => {
            return Err(failure);
        },
    };
    let retry_requests = match admin_retry_records(&value.retry_requests) {
        Ok(shown) => shown,
        Err(failure) => {
            return Err(failure);
        },
    };
    Ok(
        admin::GetDeliveryResponse {
            attempts,
            delivery,
            open_in_story_correlation_id: correlation_id,
            receipts,
            retry_requests,
        },
    )
}

/// The rows that a page of at most `limit` records shows.
pub open spec fn page_rows(rows: Seq<DeliverySummary>, limit: int) -> Seq<DeliverySummary> {
    if rows.len() > limit {
        rows.take(limit)
    } else {
        rows
    }
}

/// Whether `page` shows the first rows, and says where to go on exactly when
/// there are more.
pub open spec fn shows_page(
    page: admin::ListDeliveriesResponse,
    rows: Seq<DeliverySummary>,
    limit: int,
) -> bool {
    &&& page.records@.len() == page_rows(rows, limit).len()
    &&& forall|i: int|
        0 <= i < page.records@.len() ==> shows_delivery(#[trigger] page.records@[i], rows[i])
    &&& if rows.len() > limit {
        page.next_cursor matches Some(cursor) && cursor@ == page.records@.last().id@
    } else {
        page.next_cursor is None
    }
}

/// The page that `rows` are shown as, of which one more was read than the page
/// shows.
pub fn delivery_page(rows: Vec<DeliverySummary>, limit: i64) -> (r: Result<
    admin::ListDeliveriesResponse,
    RuntimeFailure,
>)
    requires
        1 <= limit <= 200,
        forall|i: int| 0 <= i < rows@.len() ==> #[trigger] rows@[i].timely(),
    ensures
        match r {
            Ok(page) => {
                &&& first_fault(delivery_faults(page_rows(rows@, limit as int))) is None
                &&& shows_page(page, rows@, limit as int)
            },
            Err(failure) => reports(
                failure,
                first_fault(delivery_faults(page_rows(rows@, limit as int))),
            ),
        },
{
    let has_more = rows.len() > limit as usize;
    let count: usize = if has_more {
        limit as usize
    } else {
        rows.len()
    };
    let ghost faults = delivery_faults(page_rows(rows@, limit as int));
    let mut records: Vec<admin::Delivery> = Vec::new();
    let mut next: usize = 0;
    while next < count
        invariant
            next <= count <= rows@.len(),
            1 <= limit,
            count == page_rows(rows@, limit as int).len(),
            faults == delivery_faults(page_rows(rows@, limit as int)),
            records@.len() == next,
            forall|i: int| 0 <= i < rows@.len() ==> #[trigger] rows@[i].timely(),
            forall|i: int| 0 <= i < next ==> #[trigger] faults[i] is None,
            forall|i: int| 0 <= i < next ==> shows_delivery(#[trigger] records@[i], rows@[i]),
        decreases count - next,
    {
        assert(faults[next as int] == delivery_fault(rows@[next as int]));
        match admin_delivery(&rows[next]) {
            Ok(record) => {
                records.push(record);
            },
            Err(failure) => {
                proof {
                    lemma_first_fault_at(faults, next as int);
                }
                return Err(failure);
            },
        }
        next += 1;
    }
    proof {
        lemma_no_fault(faults);
    }
    let next_cursor = if has_more {
        Some(records[count - 1].id.clone())
    } else {
        None
    };
    Ok(admin::ListDeliveriesResponse { next_cursor, records })
}

/// No page shows more records than it was asked for.
pub proof fn law_page_is_bounded(
    page: admin::ListDeliveriesResponse,
    rows: Seq<DeliverySummary>,
    limit: int,
)
    requires
        0 <= limit,
        shows_page(page, rows, limit),
    ensures
        page.records@.len() <= limit,
        page.next_cursor is Some <==> rows.len() > page.records@.len(),
{
}

/// Pages follow each other without a gap: a page without a cursor ends the
/// ledger, and a cursor marks the one row after which everything is left that
/// the page does not show.
pub proof fn law_pages_follow_each_other(
    page: admin::ListDeliveriesResponse,
    ledger: Seq<DeliverySummary>,
    limit: int,
)
    requires
        1 <= limit,
        forall|i: int, j: int|
            0 <= i < j < ledger.len() ==> (#[trigger] ledger[i]).id@ != (#[trigger] ledger[j]).id@,
        shows_page(page, probed(ledger, limit), limit),
    ensures
        forall|i: int|
            0 <= i < page.records@.len() ==> shows_delivery(#[trigger] page.records@[i], ledger[i]),
        match page.next_cursor {
            None => page.records@.len() == ledger.len(),
            Some(cursor) => {
                &&& page.records@.len() == limit < ledger.len()
                &&& forall|k: int|
                    0 <= k < ledger.len() ==> ((#[trigger] ledger[k]).id@ == cursor@ <==> k == limit
                        - 1)
            },
        },
{
    let rows = probed(ledger, limit);
    assert forall|i: int| 0 <= i < page.records@.len() implies shows_delivery(
        #[trigger] page.records@[i],
        ledger[i],
    ) by {
        assert(rows[i] == ledger[i]);
    }
    if rows.len() > limit {
        assert(shows_delivery(page.records@[limit - 1], ledger[limit - 1]));
        assert(page.records@.last() == page.records@[limit - 1]);
    }
}

/// Whatever is shown of a delivery keeps every bound of the admin capability,
/// and a retry is offered exactly where the manual retry would not be refused
/// for the state of the delivery.
pub proof fn law_shown_delivery_is_bounded(shown: admin::Delivery, value: DeliverySummary)
    requires
        delivery_fault(value) is None,
        shows_delivery(shown, value),
    ensures
        within(shown.id@, 1, 160),
        within(shown.recipient_mask@, 3, 320),
        within(shown.template_id@, 1, 160),
        within(shown.template_version@, 1, 80),
        within(shown.locale@, 2, 32),
        1 <= shown.revision <= MAX_SAFE_WIRE_INTEGER,
        0 <= shown.attempt_count <= shown.max_attempts <= 10,
        shown.redacted_preview@.len() <= 160,
        valid_digest_text(shown.content_digest@),
        within(shown.correlation_id@, 1, 240),
        crate::time::time_text(shown.created_at@),
        crate::time::time_text(shown.updated_at@),
        shown.retry_now_eligible <==> shown.status is RetryScheduled && shown.attempt_count
            < shown.max_attempts,
        admin_status_name(shown.status) == value.status@,
{
    let status = delivery_status_named(value.status@)->Some_0;
    assert(shown.status == shown_status(status));
    assert(value.status@ == admin_status_name(shown.status));
    crate::domain::lemma_status_names_differ();
    assert(status.name() == value.status@);
    assert(DeliveryStatus::RetryScheduled.name() == "retry_scheduled"@);
}

} // verus!
