//! What administrators see of the ledger, and what they may do to it.

use vstd::prelude::*;

use crate::admin;
use crate::domain::DeliveryStatus;
use crate::error::{ErrorCode, NotificationError, RuntimeFailure};
use crate::laws::boundary::{lemma_filled, lemma_sha256_text};
use crate::laws::observing::last_revision;
use crate::laws::{absent_or_short, can_be_told, filled, refused, sha256_text, tells, tells_any};
use crate::projection::{admin_attempt, admin_delivery, admin_detail, admin_receipt, admin_retry,
    admin_retry_record, admin_status, attempt_faults, delivery_page, receipt_faults,
    retry_record_faults, status_shown};
use crate::repository::{admin_evidence_overflow, decide_manual_retry, get_delivery,
    is_retry_eligible, manual_retry_lock, probe_limit, replay_manual_retry, request_manual_retry,
    AttemptRecord, DeliveryDetail, DeliverySummary, ManualRetry, ReceiptRecord, RetryDecision,
    RetryRecord, RetryResult, RetryTarget, StoredRetry};
use crate::time::UtcTime;

verus! {

/// The word that a shown status stands for.
pub open spec fn status_word(status: admin::DeliveryStatus) -> Seq<char> {
    if status is Queued {
        "queued"@
    } else if status is Attempting {
        "attempting"@
    } else if status is Accepted {
        "accepted"@
    } else if status is RetryScheduled {
        "retry_scheduled"@
    } else if status is Delivered {
        "delivered"@
    } else if status is Failed {
        "failed"@
    } else {
        "delivery_unknown"@
    }
}

/// Whether `word` is one of the seven words for a status.
pub open spec fn a_status_word(word: Seq<char>) -> bool {
    word == "queued"@ || word == "attempting"@ || word == "accepted"@ || word
        == "retry_scheduled"@ || word == "delivered"@ || word == "failed"@ || word
        == "delivery_unknown"@
}

proof fn lemma_status_words()
    ensures
        "queued"@.len() == 6,
        "queued"@[0] == 'q',
        "attempting"@.len() == 10,
        "accepted"@.len() == 8,
        "retry_scheduled"@.len() == 15,
        "delivered"@.len() == 9,
        "failed"@.len() == 6,
        "failed"@[0] == 'f',
        "delivery_unknown"@.len() == 16,
{
    reveal_strlit("queued");
    reveal_strlit("attempting");
    reveal_strlit("accepted");
    reveal_strlit("retry_scheduled");
    reveal_strlit("delivered");
    reveal_strlit("failed");
    reveal_strlit("delivery_unknown");
}

/// A status is shown under the name it is stored by, and found by it again.
pub proof fn law_status_keeps_its_name(
    status: DeliveryStatus,
    name: &'static str,
    shown: admin::DeliveryStatus,
    shown_name: &'static str,
    found: Option<DeliveryStatus>,
)
    requires
        call_ensures(DeliveryStatus::as_str, (status,), name),
        call_ensures(status_shown, (status,), shown),
        call_ensures(admin_status, (shown,), shown_name),
        call_ensures(DeliveryStatus::from_name, (shown_name,), found),
    ensures
        shown_name@ == name@,
        name@ == status_word(shown),
        found == Some(status),
        status is Queued <==> name@ == "queued"@,
        status is Attempting <==> name@ == "attempting"@,
        status is Accepted <==> name@ == "accepted"@,
        status is RetryScheduled <==> name@ == "retry_scheduled"@,
        status is Delivered <==> name@ == "delivered"@,
        status is Failed <==> name@ == "failed"@,
        status is DeliveryUnknown <==> name@ == "delivery_unknown"@,
{
    lemma_status_words();
}

/// A text is the name of a status exactly where it is one of the seven words,
/// and of which one goes by the word.
pub proof fn law_status_is_read_by_its_word(value: &str, r: Option<DeliveryStatus>)
    requires
        call_ensures(DeliveryStatus::from_name, (value,), r),
    ensures
        r is Some <==> a_status_word(value@),
        value@ == "queued"@ ==> r == Some(DeliveryStatus::Queued),
        value@ == "attempting"@ ==> r == Some(DeliveryStatus::Attempting),
        value@ == "accepted"@ ==> r == Some(DeliveryStatus::Accepted),
        value@ == "retry_scheduled"@ ==> r == Some(DeliveryStatus::RetryScheduled),
        value@ == "delivered"@ ==> r == Some(DeliveryStatus::Delivered),
        value@ == "failed"@ ==> r == Some(DeliveryStatus::Failed),
        value@ == "delivery_unknown"@ ==> r == Some(DeliveryStatus::DeliveryUnknown),
{
    lemma_status_words();
}

/// Delivered, failed and unknown deliveries are at their end, and no others.
pub proof fn law_three_statuses_are_the_end(status: DeliveryStatus, r: bool)
    requires
        call_ensures(DeliveryStatus::is_terminal, (status,), r),
    ensures
        r <==> status is Delivered || status is Failed || status is DeliveryUnknown,
{
}

/// Which status may come after which.
pub proof fn law_status_may_change(from: DeliveryStatus, to: DeliveryStatus, r: bool)
    requires
        call_ensures(crate::domain::can_transition, (from, to), r),
    ensures
        r && (from is Queued || from is RetryScheduled) ==> to is Attempting,
        to is Attempting ==> (r <==> from is Queued || from is RetryScheduled),
        to is Accepted ==> (r <==> from is Attempting),
        to is Delivered || to is DeliveryUnknown ==> (r <==> from is Attempting || from
            is Accepted),
        to is Failed ==> (r <==> from is Attempting || from is Accepted),
        to is RetryScheduled ==> (r <==> from is Attempting || from is Accepted || from is Failed),
        to is Queued ==> !r,
        from is Delivered || from is DeliveryUnknown ==> !r,
{
}

/// Whether a stored delivery can be shown.
pub open spec fn showable(value: DeliverySummary) -> bool {
    &&& filled(value.id@, 1, 160)
    &&& filled(value.recipient_mask@, 3, 320)
    &&& filled(value.template_id@, 1, 160)
    &&& filled(value.template_version@, 1, 80)
    &&& filled(value.locale@, 2, 32)
    &&& 1 <= value.revision <= last_revision()
    &&& 0 <= value.attempt_count <= value.max_attempts
    &&& 1 <= value.max_attempts <= 10
    &&& value.redacted_preview@.len() <= 160
    &&& sha256_text(value.content_digest@)
    &&& filled(value.correlation_id@, 1, 240)
    &&& absent_or_short(value.final_reason, 160)
    &&& a_status_word(value.status@)
    &&& can_be_told(value.created_at)
    &&& value.next_attempt_at is Some ==> can_be_told(value.next_attempt_at->Some_0)
    &&& can_be_told(value.updated_at)
}

/// Whether what is shown of a delivery is what is stored, field by field, and a
/// retry is offered exactly where one is planned and an attempt is left.
pub open spec fn shown_as_stored(shown: admin::Delivery, value: DeliverySummary) -> bool {
    &&& shown.id@ == value.id@
    &&& shown.recipient_mask@ == value.recipient_mask@
    &&& shown.template_id@ == value.template_id@
    &&& shown.template_version@ == value.template_version@
    &&& shown.locale@ == value.locale@
    &&& status_word(shown.status) == value.status@
    &&& shown.revision == value.revision
    &&& shown.attempt_count == value.attempt_count
    &&& shown.max_attempts == value.max_attempts
    &&& shown.redacted_preview@ == value.redacted_preview@
    &&& shown.content_digest@ == value.content_digest@
    &&& shown.correlation_id@ == value.correlation_id@
    &&& tells_any(shown.next_attempt_at, value.next_attempt_at)
    &&& shown.final_reason == value.final_reason
    &&& tells(shown.created_at@, value.created_at)
    &&& tells(shown.updated_at@, value.updated_at)
    &&& shown.retry_now_eligible <==> shown.status is RetryScheduled && shown.attempt_count
        < shown.max_attempts
}

/// An instant that can be told has a text.
pub(crate) proof fn lemma_can_be_told(time: UtcTime)
    ensures
        can_be_told(time) <==> crate::projection::time_fault(time) is None,
        can_be_told(time) ==> crate::time::formatted_time(time) == Ok::<Seq<char>, Seq<char>>(
            crate::time::rfc3339_millis(time.seconds, time.nanos),
        ),
        crate::time::formatted_time(time) is Ok ==> crate::time::formatted_time(time)->Ok_0
            == crate::time::rfc3339_millis(time.seconds, time.nanos),
{
    lemma_filled(crate::time::rfc3339_millis(time.seconds, time.nanos), 1, 64);
    assert(crate::time::new_year(0) == -62_167_219_200);
    assert(crate::time::new_year(10_000) == 253_402_300_800);
}

/// A delivery is shown exactly where it keeps every bound, and as it is stored.
pub proof fn law_delivery_is_shown_as_stored(
    value: &DeliverySummary,
    r: Result<admin::Delivery, RuntimeFailure>,
)
    requires
        call_ensures(admin_delivery, (value,), r),
    ensures
        r is Ok <==> showable(*value),
        r is Ok ==> shown_as_stored(r->Ok_0, *value),
        r is Err ==> r->Err_0 is PluginFailure,
{
    lemma_status_words();
    lemma_filled(value.id@, 1, 160);
    lemma_filled(value.recipient_mask@, 3, 320);
    lemma_filled(value.template_id@, 1, 160);
    lemma_filled(value.template_version@, 1, 80);
    lemma_filled(value.locale@, 2, 32);
    lemma_filled(value.correlation_id@, 1, 240);
    lemma_sha256_text(value.content_digest@);
    lemma_can_be_told(value.created_at);
    lemma_can_be_told(value.updated_at);
    if value.next_attempt_at is Some {
        lemma_can_be_told(value.next_attempt_at->Some_0);
    }
}

/// The word that a shown status of an attempt stands for.
pub open spec fn attempt_word(status: admin::AttemptStatus) -> Seq<char> {
    if status is Dispatching {
        "dispatching"@
    } else if status is Accepted {
        "accepted"@
    } else if status is TemporaryFailure {
        "temporary_failure"@
    } else if status is PermanentFailure {
        "permanent_failure"@
    } else {
        "delivery_unknown"@
    }
}

/// Whether what is shown of an attempt is what is stored.
pub open spec fn attempt_shown_as_stored(shown: admin::Attempt, value: AttemptRecord) -> bool {
    &&& shown.id@ == value.id@
    &&& shown.sequence == value.sequence
    &&& shown.run_id@ == value.function_run_id@
    &&& attempt_word(shown.status) == value.status@
    &&& shown.provider == value.provider
    &&& shown.remote_receipt_id == value.remote_receipt_id
    &&& shown.failure_code == value.failure_code
    &&& shown.failure_classification == value.failure_classification
    &&& tells(shown.started_at@, value.started_at)
    &&& tells_any(shown.completed_at, value.completed_at)
}

/// Whether a stored attempt can be shown.
pub open spec fn attempt_showable(value: AttemptRecord) -> bool {
    &&& filled(value.id@, 1, 160)
    &&& 1 <= value.sequence <= 10
    &&& filled(value.function_run_id@, 1, 160)
    &&& absent_or_short(value.provider, 160)
    &&& absent_or_short(value.remote_receipt_id, 320)
    &&& absent_or_short(value.failure_code, 160)
    &&& absent_or_short(value.failure_classification, 160)
    &&& value.status@ == "dispatching"@ || value.status@ == "accepted"@ || value.status@
        == "temporary_failure"@ || value.status@ == "permanent_failure"@ || value.status@
        == "delivery_unknown"@
    &&& can_be_told(value.started_at)
    &&& value.completed_at is Some ==> can_be_told(value.completed_at->Some_0)
}

/// An attempt is shown exactly where it keeps every bound, and as it is stored.
pub proof fn law_attempt_is_shown_as_stored(
    value: &AttemptRecord,
    r: Result<admin::Attempt, RuntimeFailure>,
)
    requires
        call_ensures(admin_attempt, (value,), r),
    ensures
        r is Ok <==> attempt_showable(*value),
        r is Ok ==> attempt_shown_as_stored(r->Ok_0, *value),
{
    lemma_filled(value.id@, 1, 160);
    lemma_filled(value.function_run_id@, 1, 160);
    lemma_can_be_told(value.started_at);
    if value.completed_at is Some {
        lemma_can_be_told(value.completed_at->Some_0);
    }
}

/// The word that a shown kind of receipt stands for.
pub open spec fn receipt_word(kind: admin::ReceiptKind) -> Seq<char> {
    if kind is Accepted {
        "accepted"@
    } else if kind is Delivered {
        "delivered"@
    } else if kind is Bounced {
        "bounced"@
    } else {
        "rejected"@
    }
}

/// Whether what is shown of a receipt is what is stored.
pub open spec fn receipt_shown_as_stored(shown: admin::Receipt, value: ReceiptRecord) -> bool {
    &&& shown.id@ == value.id@
    &&& shown.attempt_id@ == value.attempt_id@
    &&& receipt_word(shown.kind) == value.kind@
    &&& shown.source@ == value.source@
    &&& shown.remote_id@ == value.remote_id@
    &&& shown.digest@ == value.digest@
    &&& tells(shown.observed_at@, value.observed_at)
}

/// Whether a stored receipt can be shown.
pub open spec fn receipt_showable(value: ReceiptRecord) -> bool {
    &&& filled(value.id@, 1, 160)
    &&& filled(value.attempt_id@, 1, 160)
    &&& filled(value.source@, 1, 160)
    &&& filled(value.remote_id@, 1, 320)
    &&& sha256_text(value.digest@)
    &&& value.kind@ == "accepted"@ || value.kind@ == "delivered"@ || value.kind@ == "bounced"@
        || value.kind@ == "rejected"@
    &&& can_be_told(value.observed_at)
}

/// A receipt is shown exactly where it keeps every bound, and as it is stored.
pub proof fn law_receipt_is_shown_as_stored(
    value: &ReceiptRecord,
    r: Result<admin::Receipt, RuntimeFailure>,
)
    requires
        call_ensures(admin_receipt, (value,), r),
    ensures
        r is Ok <==> receipt_showable(*value),
        r is Ok ==> receipt_shown_as_stored(r->Ok_0, *value),
{
    lemma_filled(value.id@, 1, 160);
    lemma_filled(value.attempt_id@, 1, 160);
    lemma_filled(value.source@, 1, 160);
    lemma_filled(value.remote_id@, 1, 320);
    lemma_sha256_text(value.digest@);
    lemma_can_be_told(value.observed_at);
}

/// Whether what is shown of a retry decision is what is stored.
pub open spec fn retry_shown_as_stored(shown: admin::RetryRecord, value: RetryRecord) -> bool {
    &&& shown.id@ == value.id@
    &&& shown.kind is Automatic <==> value.kind@ == "automatic"@
    &&& shown.kind is Manual <==> value.kind@ == "manual"@
    &&& shown.requested_by == value.requested_by
    &&& shown.source_revision == value.source_revision
    &&& shown.decision is Scheduled <==> value.decision@ == "scheduled"@
    &&& shown.decision is Rejected <==> value.decision@ == "rejected"@
    &&& shown.reason == value.reason
    &&& tells_any(shown.scheduled_at, value.scheduled_at)
    &&& tells(shown.created_at@, value.created_at)
}

/// Whether a stored retry decision can be shown.
pub open spec fn retry_showable(value: RetryRecord) -> bool {
    &&& filled(value.id@, 1, 160)
    &&& absent_or_short(value.requested_by, 240)
    &&& 1 <= value.source_revision <= last_revision()
    &&& absent_or_short(value.reason, 160)
    &&& value.kind@ == "automatic"@ || value.kind@ == "manual"@
    &&& value.decision@ == "scheduled"@ || value.decision@ == "rejected"@
    &&& can_be_told(value.created_at)
    &&& value.scheduled_at is Some ==> can_be_told(value.scheduled_at->Some_0)
}

/// A retry decision is shown exactly where it keeps every bound, and as it is
/// stored.
pub proof fn law_retry_decision_is_shown_as_stored(
    value: &RetryRecord,
    r: Result<admin::RetryRecord, RuntimeFailure>,
)
    requires
        call_ensures(admin_retry_record, (value,), r),
    ensures
        r is Ok <==> retry_showable(*value),
        r is Ok ==> retry_shown_as_stored(r->Ok_0, *value),
{
    reveal_strlit("automatic");
    reveal_strlit("manual");
    reveal_strlit("scheduled");
    reveal_strlit("rejected");
    assert("automatic"@.len() == 9);
    assert("manual"@.len() == 6);
    assert("scheduled"@.len() == 9);
    assert("rejected"@.len() == 8);
    lemma_filled(value.id@, 1, 160);
    lemma_can_be_told(value.created_at);
    if value.scheduled_at is Some {
        lemma_can_be_told(value.scheduled_at->Some_0);
    }
}

/// The detail of a delivery shows all of its attempts, receipts and retry
/// decisions, in order and as they are stored, and refers to the delivery's own
/// story. It is shown exactly where each of them can be, and no more than 10
/// attempts, 1000 receipts and 1000 retry decisions are there.
pub proof fn law_detail_shows_all_evidence(
    value: DeliveryDetail,
    r: Result<admin::GetDeliveryResponse, RuntimeFailure>,
)
    requires
        call_ensures(admin_detail, (value,), r),
    ensures
        r is Ok ==> {
            let shown = r->Ok_0;
            &&& shown_as_stored(shown.delivery, value.delivery)
            &&& shown.open_in_story_correlation_id@ == value.delivery.correlation_id@
            &&& shown.attempts@.len() == value.attempts@.len()
            &&& forall|i: int|
                0 <= i < value.attempts@.len() ==> attempt_shown_as_stored(
                    shown.attempts@[i],
                    #[trigger] value.attempts@[i],
                )
            &&& shown.receipts@.len() == value.receipts@.len()
            &&& forall|i: int|
                0 <= i < value.receipts@.len() ==> receipt_shown_as_stored(
                    shown.receipts@[i],
                    #[trigger] value.receipts@[i],
                )
            &&& shown.retry_requests@.len() == value.retry_requests@.len()
            &&& forall|i: int|
                0 <= i < value.retry_requests@.len() ==> retry_shown_as_stored(
                    shown.retry_requests@[i],
                    #[trigger] value.retry_requests@[i],
                )
        },
        r is Ok <==> {
            &&& value.attempts@.len() <= 10
            &&& value.receipts@.len() <= 1_000
            &&& value.retry_requests@.len() <= 1_000
            &&& showable(value.delivery)
            &&& forall|i: int|
                0 <= i < value.attempts@.len() ==> attempt_showable(#[trigger] value.attempts@[i])
            &&& forall|i: int|
                0 <= i < value.receipts@.len() ==> receipt_showable(#[trigger] value.receipts@[i])
            &&& forall|i: int|
                0 <= i < value.retry_requests@.len() ==> retry_showable(
                    #[trigger] value.retry_requests@[i],
                )
        },
{
    lemma_showable(value.delivery);
    assert forall|i: int| 0 <= i < value.attempts@.len() implies (attempt_showable(
        #[trigger] value.attempts@[i],
    ) <==> attempt_faults(value.attempts@)[i] is None) by {
        lemma_attempt_showable(value.attempts@[i]);
    }
    assert forall|i: int| 0 <= i < value.receipts@.len() implies (receipt_showable(
        #[trigger] value.receipts@[i],
    ) <==> receipt_faults(value.receipts@)[i] is None) by {
        lemma_receipt_showable(value.receipts@[i]);
    }
    assert forall|i: int| 0 <= i < value.retry_requests@.len() implies (retry_showable(
        #[trigger] value.retry_requests@[i],
    ) <==> retry_record_faults(value.retry_requests@)[i] is None) by {
        lemma_retry_showable(value.retry_requests@[i]);
    }
    if r is Ok {
        let shown = r->Ok_0;
        crate::faults::lemma_every_fault_is_found(attempt_faults(value.attempts@));
        crate::faults::lemma_every_fault_is_found(receipt_faults(value.receipts@));
        crate::faults::lemma_every_fault_is_found(retry_record_faults(value.retry_requests@));
        lemma_delivery_shown(shown.delivery, value.delivery);
        assert forall|i: int| 0 <= i < value.attempts@.len() implies attempt_showable(
            #[trigger] value.attempts@[i],
        ) && attempt_shown_as_stored(shown.attempts@[i], value.attempts@[i]) by {
            assert(attempt_faults(value.attempts@)[i] is None);
            lemma_attempt_shown(shown.attempts@[i], value.attempts@[i]);
        }
        assert forall|i: int| 0 <= i < value.receipts@.len() implies receipt_showable(
            #[trigger] value.receipts@[i],
        ) && receipt_shown_as_stored(shown.receipts@[i], value.receipts@[i]) by {
            assert(receipt_faults(value.receipts@)[i] is None);
            lemma_receipt_shown(shown.receipts@[i], value.receipts@[i]);
        }
        assert forall|i: int| 0 <= i < value.retry_requests@.len() implies retry_showable(
            #[trigger] value.retry_requests@[i],
        ) && retry_shown_as_stored(shown.retry_requests@[i], value.retry_requests@[i]) by {
            assert(retry_record_faults(value.retry_requests@)[i] is None);
            lemma_retry_shown(shown.retry_requests@[i], value.retry_requests@[i]);
        }
    } else {
        if (forall|i: int|
            0 <= i < value.attempts@.len() ==> attempt_showable(#[trigger] value.attempts@[i])) && (
        forall|i: int|
            0 <= i < value.receipts@.len() ==> receipt_showable(#[trigger] value.receipts@[i])) && (
        forall|i: int|
            0 <= i < value.retry_requests@.len() ==> retry_showable(
                #[trigger] value.retry_requests@[i],
            )) {
            assert forall|i: int| 0 <= i < attempt_faults(value.attempts@).len() implies (
            #[trigger] attempt_faults(value.attempts@)[i]) is None by {
                assert(attempt_showable(value.attempts@[i]));
            }
            assert forall|i: int| 0 <= i < receipt_faults(value.receipts@).len() implies (
            #[trigger] receipt_faults(value.receipts@)[i]) is None by {
                assert(receipt_showable(value.receipts@[i]));
            }
            assert forall|i: int|
                0 <= i < retry_record_faults(value.retry_requests@).len() implies (
            #[trigger] retry_record_faults(value.retry_requests@)[i]) is None by {
                assert(retry_showable(value.retry_requests@[i]));
            }
            crate::faults::lemma_no_fault(attempt_faults(value.attempts@));
            crate::faults::lemma_no_fault(receipt_faults(value.receipts@));
            crate::faults::lemma_no_fault(retry_record_faults(value.retry_requests@));
        }
    }
}

proof fn lemma_showable(value: DeliverySummary)
    ensures
        showable(value) <==> crate::projection::delivery_fault(value) is None,
{
    lemma_filled(value.id@, 1, 160);
    lemma_filled(value.recipient_mask@, 3, 320);
    lemma_filled(value.template_id@, 1, 160);
    lemma_filled(value.template_version@, 1, 80);
    lemma_filled(value.locale@, 2, 32);
    lemma_filled(value.correlation_id@, 1, 240);
    lemma_sha256_text(value.content_digest@);
    lemma_can_be_told(value.created_at);
    lemma_can_be_told(value.updated_at);
    if value.next_attempt_at is Some {
        lemma_can_be_told(value.next_attempt_at->Some_0);
    }
}

proof fn lemma_delivery_shown(shown: admin::Delivery, value: DeliverySummary)
    requires
        crate::projection::shows_delivery(shown, value),
    ensures
        shown_as_stored(shown, value),
{
    lemma_status_words();
    lemma_can_be_told(value.created_at);
    lemma_can_be_told(value.updated_at);
    if value.next_attempt_at is Some {
        lemma_can_be_told(value.next_attempt_at->Some_0);
    }
}

proof fn lemma_attempt_showable(value: AttemptRecord)
    ensures
        attempt_showable(value) <==> crate::projection::attempt_fault(value) is None,
{
    lemma_filled(value.id@, 1, 160);
    lemma_filled(value.function_run_id@, 1, 160);
    lemma_can_be_told(value.started_at);
    if value.completed_at is Some {
        lemma_can_be_told(value.completed_at->Some_0);
    }
}

proof fn lemma_attempt_shown(shown: admin::Attempt, value: AttemptRecord)
    requires
        crate::projection::shows_attempt(shown, value),
    ensures
        attempt_shown_as_stored(shown, value),
{
    lemma_can_be_told(value.started_at);
    if value.completed_at is Some {
        lemma_can_be_told(value.completed_at->Some_0);
    }
}

proof fn lemma_receipt_showable(value: ReceiptRecord)
    ensures
        receipt_showable(value) <==> crate::projection::receipt_fault(value) is None,
{
    lemma_filled(value.id@, 1, 160);
    lemma_filled(value.attempt_id@, 1, 160);
    lemma_filled(value.source@, 1, 160);
    lemma_filled(value.remote_id@, 1, 320);
    lemma_sha256_text(value.digest@);
    lemma_can_be_told(value.observed_at);
}

proof fn lemma_receipt_shown(shown: admin::Receipt, value: ReceiptRecord)
    requires
        crate::projection::shows_receipt(shown, value),
    ensures
        receipt_shown_as_stored(shown, value),
{
    lemma_can_be_told(value.observed_at);
}

proof fn lemma_retry_showable(value: RetryRecord)
    ensures
        retry_showable(value) <==> crate::projection::retry_record_fault(value) is None,
{
    lemma_filled(value.id@, 1, 160);
    lemma_can_be_told(value.created_at);
    if value.scheduled_at is Some {
        lemma_can_be_told(value.scheduled_at->Some_0);
    }
}

proof fn lemma_retry_shown(shown: admin::RetryRecord, value: RetryRecord)
    requires
        crate::projection::shows_retry_record(shown, value),
    ensures
        retry_shown_as_stored(shown, value),
{
    reveal_strlit("automatic");
    reveal_strlit("manual");
    reveal_strlit("scheduled");
    reveal_strlit("rejected");
    assert("automatic"@.len() == 9);
    assert("manual"@.len() == 6);
    assert("scheduled"@.len() == 9);
    assert("rejected"@.len() == 8);
    lemma_can_be_told(value.created_at);
    if value.scheduled_at is Some {
        lemma_can_be_told(value.scheduled_at->Some_0);
    }
}

/// A page shows the first deliveries that were read, in order and as they are
/// stored, up to the limit. It names the last of them as the place to go on
/// from exactly where more were read than it shows.
pub proof fn law_page_shows_the_first_deliveries(
    rows: Vec<DeliverySummary>,
    limit: i64,
    r: Result<admin::ListDeliveriesResponse, RuntimeFailure>,
)
    requires
        call_ensures(delivery_page, (rows, limit), r),
        1 <= limit,
    ensures
        r is Ok ==> {
            let page = r->Ok_0;
            &&& page.records@.len() == (if rows@.len() <= limit {
                rows@.len() as int
            } else {
                limit as int
            })
            &&& forall|i: int|
                0 <= i < page.records@.len() ==> shown_as_stored(
                    #[trigger] page.records@[i],
                    rows@[i],
                )
            &&& page.next_cursor is Some <==> rows@.len() > limit
            &&& page.next_cursor is Some ==> page.next_cursor->Some_0@ == rows@[limit - 1].id@
        },
        r is Ok <==> forall|i: int|
            0 <= i < rows@.len() && i < limit ==> showable(#[trigger] rows@[i]),
{
    let shown = crate::projection::page_rows(rows@, limit as int);
    let faults = crate::projection::delivery_faults(shown);
    assert forall|i: int| 0 <= i < faults.len() implies (showable(#[trigger] rows@[i])
        <==> faults[i] is None) by {
        lemma_showable(rows@[i]);
    }
    if r is Ok {
        crate::faults::lemma_every_fault_is_found(faults);
        let page = r->Ok_0;
        assert forall|i: int| 0 <= i < page.records@.len() implies shown_as_stored(
            #[trigger] page.records@[i],
            rows@[i],
        ) by {
            lemma_delivery_shown(page.records@[i], rows@[i]);
        }
        assert forall|i: int| 0 <= i < rows@.len() && i < limit implies showable(
            #[trigger] rows@[i],
        ) by {
            assert(faults[i] is None);
        }
        if rows@.len() > limit {
            assert(page.records@.last() == page.records@[limit - 1]);
            assert(shown_as_stored(page.records@[limit - 1], rows@[limit - 1]));
        }
    } else if forall|i: int| 0 <= i < rows@.len() && i < limit ==> showable(#[trigger] rows@[i]) {
        assert forall|i: int| 0 <= i < faults.len() implies (#[trigger] faults[i]) is None by {
            assert(showable(rows@[i]));
        }
        crate::faults::lemma_no_fault(faults);
    }
}

/// The evidence of a delivery is handed over whole, or it is an overflow.
pub proof fn law_evidence_is_whole_or_overflows(
    delivery: DeliverySummary,
    attempts: Vec<AttemptRecord>,
    receipts: Vec<ReceiptRecord>,
    retry_requests: Vec<RetryRecord>,
    r: Result<DeliveryDetail, NotificationError>,
)
    requires
        call_ensures(get_delivery, (delivery, attempts, receipts, retry_requests), r),
    ensures
        r is Ok <==> attempts@.len() <= 10 && receipts@.len() <= 1_000 && retry_requests@.len()
            <= 1_000,
        r is Ok ==> r->Ok_0.delivery == delivery && r->Ok_0.attempts == attempts
            && r->Ok_0.receipts == receipts && r->Ok_0.retry_requests == retry_requests,
        r is Err ==> refused(
            r,
            ErrorCode::EvidenceOverflow,
            "Notification delivery evidence exceeds the bounded Admin projection"@,
        ),
{
}

/// A delivery whose retry is planned is scheduled at once where the
/// administrator saw its present revision, a revision is left and an attempt is
/// left; every other request is refused, with the reason that applies first.
pub proof fn law_planned_retry_is_never_refused(
    delivery_id: &str,
    target: Option<RetryTarget>,
    expected: i64,
    key: &str,
    by: &str,
    now: UtcTime,
    r: Result<ManualRetry, NotificationError>,
)
    requires
        call_ensures(request_manual_retry, (delivery_id, target, expected, key, by, now), r),
    ensures
        r is Ok <==> {
            &&& target is Some
            &&& target->Some_0.status@ == "retry_scheduled"@
            &&& target->Some_0.revision == expected
            &&& target->Some_0.revision < last_revision()
            &&& target->Some_0.attempt_count < target->Some_0.max_attempts
        },
        target is None ==> refused(
            r,
            ErrorCode::NotFound,
            "Notification delivery was not found"@,
        ),
        target is Some && target->Some_0.revision != expected ==> refused(
            r,
            ErrorCode::Conflict,
            "Notification delivery revision is stale"@,
        ),
        target is Some && target->Some_0.revision == expected && expected >= last_revision()
            ==> refused(
            r,
            ErrorCode::Conflict,
            "Notification delivery revision exhausted the portable wire range"@,
        ),
        r is Err && target is Some && target->Some_0.revision == expected && expected
            < last_revision() ==> refused(
            r,
            ErrorCode::Conflict,
            "Notification delivery is not eligible for retry"@,
        ),
        r is Ok ==> retry_stored_as_asked(
            r->Ok_0,
            delivery_id@,
            expected,
            key@,
            by@,
            now,
        ),
{
}

/// Whether a retry is stored as it was asked for, due at once, under the next
/// revision.
pub open spec fn retry_stored_as_asked(
    retry: ManualRetry,
    delivery_id: Seq<char>,
    expected: i64,
    key: Seq<char>,
    by: Seq<char>,
    now: UtcTime,
) -> bool {
    &&& retry.request.delivery_id@ == delivery_id
    &&& retry.request.kind is Manual
    &&& retry.request.requested_by is Some
    &&& retry.request.requested_by->Some_0@ == by
    &&& retry.request.source_revision == expected
    &&& retry.request.idempotency_key@ == key
    &&& retry.request.decision is Scheduled
    &&& retry.request.reason@ == "operator_retry_now"@
    &&& retry.request.scheduled_at == Some(now)
    &&& retry.request.created_at == now
    &&& retry.result.delivery_id@ == delivery_id
    &&& retry.result.revision == expected + 1
    &&& retry.result.status@ == "retry_scheduled"@
    &&& retry.result.scheduled_at == now
    &&& !retry.result.idempotent_replay
}

/// What is offered is granted: a delivery that is shown as eligible for a retry
/// is scheduled at its shown revision, below the last one; and one that is not
/// shown as eligible is refused, at any revision.
pub proof fn law_offered_retry_is_granted(
    value: &DeliverySummary,
    shown: admin::Delivery,
    delivery_id: &str,
    target: RetryTarget,
    expected: i64,
    key: &str,
    by: &str,
    now: UtcTime,
    r: Result<ManualRetry, NotificationError>,
)
    requires
        call_ensures(admin_delivery, (value,), Ok::<admin::Delivery, RuntimeFailure>(shown)),
        target.status@ == value.status@,
        target.revision == value.revision,
        target.attempt_count == value.attempt_count,
        target.max_attempts == value.max_attempts,
        call_ensures(request_manual_retry, (delivery_id, Some(target), expected, key, by, now), r),
    ensures
        shown.retry_now_eligible && expected == shown.revision && expected < last_revision() ==> r
            is Ok,
        !shown.retry_now_eligible ==> r is Err,
{
    law_delivery_is_shown_as_stored(value, Ok::<admin::Delivery, RuntimeFailure>(shown));
    law_planned_retry_is_never_refused(
        delivery_id,
        Some(target),
        expected,
        key,
        by,
        now,
        r,
    );
    lemma_status_words();
}

/// A retry may be asked for where one is planned and an attempt is left.
pub proof fn law_retry_is_offered_where_one_is_planned(
    status: &str,
    count: i32,
    most: i32,
    r: bool,
)
    requires
        call_ensures(is_retry_eligible, (status, count, most), r),
    ensures
        r <==> status@ == "retry_scheduled"@ && count < most,
{
}

/// A retry that was decided before is answered from what was stored, whatever
/// is asked now; only a new one is decided by the state of the delivery.
pub proof fn law_retry_is_decided_once(
    delivery_id: &str,
    stored: Option<StoredRetry>,
    target: Option<RetryTarget>,
    expected: i64,
    key: &str,
    by: &str,
    now: UtcTime,
    r: Result<RetryDecision, NotificationError>,
)
    requires
        call_ensures(
            decide_manual_retry,
            (delivery_id, stored, target, expected, key, by, now),
            r,
        ),
    ensures
        (r is Ok && r->Ok_0 is Replay) <==> stored is Some && stored->Some_0.scheduled_at is Some,
        r is Ok && r->Ok_0 is Replay ==> replays_what_is_stored(
            r->Ok_0->Replay_0,
            delivery_id@,
            stored->Some_0,
        ),
        stored is Some && stored->Some_0.scheduled_at is None ==> refused(
            r,
            ErrorCode::Conflict,
            "Existing manual retry request was rejected"@,
        ),
        (r is Ok && r->Ok_0 is Schedule) <==> {
            &&& stored is None
            &&& target is Some
            &&& target->Some_0.status@ == "retry_scheduled"@
            &&& target->Some_0.revision == expected
            &&& target->Some_0.revision < last_revision()
            &&& target->Some_0.attempt_count < target->Some_0.max_attempts
        },
        r is Ok && r->Ok_0 is Schedule ==> retry_stored_as_asked(
            r->Ok_0->Schedule_0,
            delivery_id@,
            expected,
            key@,
            by@,
            now,
        ),
        stored is None && target is None ==> refused(
            r,
            ErrorCode::NotFound,
            "Notification delivery was not found"@,
        ),
        stored is None && target is Some && target->Some_0.revision != expected ==> refused(
            r,
            ErrorCode::Conflict,
            "Notification delivery revision is stale"@,
        ),
{
}

/// Whether a replay says what is stored, and that it is a replay.
pub open spec fn replays_what_is_stored(
    result: RetryResult,
    delivery_id: Seq<char>,
    stored: StoredRetry,
) -> bool {
    &&& result.delivery_id@ == delivery_id
    &&& result.revision == stored.revision
    &&& result.status@ == stored.status@
    &&& Some(result.scheduled_at) == stored.scheduled_at
    &&& result.idempotent_replay
}

/// A stored retry is replayed as it was scheduled; one that was rejected stays
/// a conflict.
pub proof fn law_stored_retry_is_replayed(
    delivery_id: &str,
    stored: StoredRetry,
    r: Result<RetryResult, NotificationError>,
)
    requires
        call_ensures(replay_manual_retry, (delivery_id, stored), r),
    ensures
        r is Ok <==> stored.scheduled_at is Some,
        r is Ok ==> replays_what_is_stored(r->Ok_0, delivery_id@, stored),
        r is Err ==> refused(
            r,
            ErrorCode::Conflict,
            "Existing manual retry request was rejected"@,
        ),
{
}

/// The answer to a retry tells the delivery, its new revision, when it is due
/// and whether it was decided before, exactly where these keep their bounds.
pub proof fn law_retry_is_answered_as_decided(
    value: RetryResult,
    r: Result<admin::RetryDeliveryResponse, RuntimeFailure>,
)
    requires
        call_ensures(admin_retry, (value,), r),
    ensures
        r is Ok <==> {
            &&& filled(value.delivery_id@, 1, 160)
            &&& 1 <= value.revision <= last_revision()
            &&& value.status@ == "retry_scheduled"@
            &&& can_be_told(value.scheduled_at)
        },
        r is Ok ==> {
            &&& r->Ok_0.delivery_id@ == value.delivery_id@
            &&& r->Ok_0.idempotent_replay == value.idempotent_replay
            &&& r->Ok_0.revision == value.revision
            &&& tells(r->Ok_0.scheduled_at@, value.scheduled_at)
            &&& r->Ok_0.status is RetryScheduled
        },
{
    lemma_filled(value.delivery_id@, 1, 160);
    lemma_can_be_told(value.scheduled_at);
}

/// One row more is read than is shown, so that more evidence than fits shows as
/// an overflow; and retries under one key of one delivery wait for each other.
pub proof fn law_overflow_shows_and_retries_wait(
    limit: usize,
    rows: i64,
    overflow: NotificationError,
    delivery_id: &str,
    key: &str,
    lock: String,
)
    requires
        call_ensures(probe_limit, (limit,), rows),
        call_ensures(admin_evidence_overflow, (), overflow),
        call_ensures(manual_retry_lock, (delivery_id, key), lock),
    ensures
        rows == limit + 1,
        overflow.code is EvidenceOverflow,
        overflow.message@
            == "Notification delivery evidence exceeds the bounded Admin projection"@,
        lock@ == "notification:manual-retry"@ + ":"@ + delivery_id@ + ":"@ + key@,
{
}

/// Whether a record is not shown because it breaks a bound.
pub open spec fn hidden_for_its_bounds<T>(r: Result<T, RuntimeFailure>) -> bool {
    r is Err && r->Err_0 is PluginFailure && r->Err_0->PluginFailure_detail@
        == "stored Notification Admin projection violates its bounded Capability Contract"@
}

/// A record whose instants can be told is hidden only for its bounds, and says
/// so.
pub proof fn law_hidden_record_breaks_a_bound(
    delivery: &DeliverySummary,
    delivery_shown: Result<admin::Delivery, RuntimeFailure>,
    attempt: &AttemptRecord,
    attempt_shown: Result<admin::Attempt, RuntimeFailure>,
    receipt: &ReceiptRecord,
    receipt_shown: Result<admin::Receipt, RuntimeFailure>,
    retry: &RetryRecord,
    retry_shown: Result<admin::RetryRecord, RuntimeFailure>,
    result: RetryResult,
    result_shown: Result<admin::RetryDeliveryResponse, RuntimeFailure>,
)
    requires
        call_ensures(admin_delivery, (delivery,), delivery_shown),
        call_ensures(admin_attempt, (attempt,), attempt_shown),
        call_ensures(admin_receipt, (receipt,), receipt_shown),
        call_ensures(admin_retry_record, (retry,), retry_shown),
        call_ensures(admin_retry, (result,), result_shown),
    ensures
        delivery_shown is Err && can_be_told(delivery.created_at) && can_be_told(
            delivery.updated_at,
        ) && (delivery.next_attempt_at is None || can_be_told(delivery.next_attempt_at->Some_0))
            ==> hidden_for_its_bounds(delivery_shown),
        attempt_shown is Err && can_be_told(attempt.started_at) && (attempt.completed_at is None
            || can_be_told(attempt.completed_at->Some_0)) ==> hidden_for_its_bounds(attempt_shown),
        receipt_shown is Err && can_be_told(receipt.observed_at) ==> hidden_for_its_bounds(
            receipt_shown,
        ),
        retry_shown is Err && can_be_told(retry.created_at) && (retry.scheduled_at is None
            || can_be_told(retry.scheduled_at->Some_0)) ==> hidden_for_its_bounds(retry_shown),
        result_shown is Err && can_be_told(result.scheduled_at) ==> hidden_for_its_bounds(
            result_shown,
        ),
{
    lemma_can_be_told(delivery.created_at);
    lemma_can_be_told(delivery.updated_at);
    if delivery.next_attempt_at is Some {
        lemma_can_be_told(delivery.next_attempt_at->Some_0);
    }
    lemma_can_be_told(attempt.started_at);
    if attempt.completed_at is Some {
        lemma_can_be_told(attempt.completed_at->Some_0);
    }
    lemma_can_be_told(receipt.observed_at);
    lemma_can_be_told(retry.created_at);
    if retry.scheduled_at is Some {
        lemma_can_be_told(retry.scheduled_at->Some_0);
    }
    lemma_can_be_told(result.scheduled_at);
}

/// A manual retry is stored under the name of its delivery and its key: the same
/// request made again, by anybody and at any time, has the same name.
pub proof fn law_manual_retry_is_named_by_its_key(
    delivery_id: &str,
    target: Option<RetryTarget>,
    expected: i64,
    key: &str,
    by: &str,
    now: UtcTime,
    retry: ManualRetry,
)
    requires
        call_ensures(
            request_manual_retry,
            (delivery_id, target, expected, key, by, now),
            Ok::<ManualRetry, NotificationError>(retry),
        ),
    ensures
        retry.request.id@ == crate::digest::stable_id_text(
            "ntf_rty"@,
            "manual"@ + ":"@ + delivery_id@ + ":"@ + key@,
        ),
{
}

} // verus!
