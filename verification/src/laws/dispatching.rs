//! What is sent to the email provider, and what its replies lead to.

use vstd::prelude::*;

use crate::contracts::EmailDispatchObserved;
use crate::delivery::{DispatchDueError, DispatchDueResponse, DispatchDueResponseStatus};
use crate::digest::stable_id_text;
use crate::dispatch::{delivery_status, dispatch_due_response, dispatch_envelope,
    dispatch_observation, dispatch_request, format_optional_time, permanent_rejection, settle_reply,
    unknown_dispatch, valid_dispatch_response, DispatchAftermath};
use crate::domain::DeliveryStatus;
use crate::email::{DispatchReply, DispatchRequest, DispatchResponse, DispatchResponseFailure};
use crate::error::{ErrorCode, NotificationError, PluginError, RuntimeFailure};
use crate::events::{apply_dispatch_observation, DispatchEffect, DispatchTarget,
    ObservationEnvelope};
use crate::laws::administering::lemma_can_be_told;
use crate::laws::boundary::{lemma_filled, lemma_sha256_text};
use crate::laws::observing::{ends, last_revision, waits};
use crate::laws::{can_be_told, denotes, filled, later, refused, sha256_text, tells_any};
use crate::repository::DeliverySummary;
use crate::runtime::{claim_one_due, DispatchWork, DueClaim, DueRow};
use crate::snapshot::SnapshotProtector;
use crate::text::signed_decimal_text;
use crate::time::{instant_of, UtcTime};
use crate::worker::{advance_worker, WorkerEvent, WorkerStage, WorkerStep};

verus! {

/// Whether a failure is told in 1 to 160 characters and classified by the given
/// word.
pub open spec fn classified(failure: Option<DispatchResponseFailure>, word: Seq<char>) -> bool {
    &&& failure is Some
    &&& filled(failure->Some_0.code@, 1, 160)
    &&& filled(failure->Some_0.classification@, 1, 160)
    &&& failure->Some_0.classification@ == word
}

/// Whether a response can be trusted: it comes from the bound provider, its
/// evidence is the provider's own, and it tells one story. Only an accepted
/// message has a receipt, every other outcome has a failure of its own name,
/// and only a temporary one asks for a wait, of at most a day.
pub open spec fn trustworthy(response: DispatchResponse, provider: Seq<char>) -> bool {
    &&& response.provider@ == provider
    &&& filled(response.observed_at@, 1, 64)
    &&& instant_of(response.observed_at@) is Some
    &&& response.remote_receipt is Some ==> {
        &&& response.outcome is Accepted
        &&& filled(response.remote_receipt->Some_0.remote_id@, 1, 320)
        &&& response.remote_receipt->Some_0.source@ == provider
        &&& sha256_text(response.remote_receipt->Some_0.digest@)
    }
    &&& response.outcome is Accepted ==> response.failure is None
    &&& response.outcome is TemporaryFailure ==> classified(
        response.failure,
        "temporary_failure"@,
    ) && (response.failure->Some_0.retry_after_ms is None || 0
        <= response.failure->Some_0.retry_after_ms->Some_0 <= 86_400_000)
    &&& response.outcome is PermanentFailure ==> classified(
        response.failure,
        "permanent_failure"@,
    ) && response.failure->Some_0.retry_after_ms is None
    &&& response.outcome is DeliveryUnknown ==> classified(response.failure, "delivery_unknown"@)
        && response.failure->Some_0.retry_after_ms is None
}

/// Whether an observation is about the claimed attempt, by the bound provider.
pub open spec fn is_about(
    observed: EmailDispatchObserved,
    work: DispatchWork,
    provider: Seq<char>,
) -> bool {
    &&& observed.delivery_id@ == work.claim.delivery_id@
    &&& observed.attempt_id@ == work.claim.attempt_id@
    &&& observed.function_run_id@ == work.claim.run_id@
    &&& observed.provider@ == provider
}

/// Whether an observation says what the response says, the outcome by its name
/// and everything else as it stands.
pub open spec fn says_what_the_provider_said(
    observed: EmailDispatchObserved,
    response: DispatchResponse,
) -> bool {
    &&& observed.outcome is Accepted <==> response.outcome is Accepted
    &&& observed.outcome is TemporaryFailure <==> response.outcome is TemporaryFailure
    &&& observed.outcome is PermanentFailure <==> response.outcome is PermanentFailure
    &&& observed.outcome is DeliveryUnknown <==> response.outcome is DeliveryUnknown
    &&& observed.outcome.name() == (if response.outcome is Accepted {
        "accepted"@
    } else if response.outcome is TemporaryFailure {
        "temporary_failure"@
    } else if response.outcome is PermanentFailure {
        "permanent_failure"@
    } else {
        "delivery_unknown"@
    })
    &&& denotes(response.observed_at@, observed.observed_at)
    &&& observed.remote_receipt is Some <==> response.remote_receipt is Some
    &&& response.remote_receipt is Some ==> {
        let kept = observed.remote_receipt->Some_0;
        let given = response.remote_receipt->Some_0;
        kept.remote_id@ == given.remote_id@ && kept.source@ == given.source@ && kept.digest@
            == given.digest@
    }
    &&& observed.failure is Some <==> response.failure is Some
    &&& response.failure is Some ==> {
        let kept = observed.failure->Some_0;
        let given = response.failure->Some_0;
        &&& kept.code@ == given.code@
        &&& kept.classification@ == given.classification@
        &&& kept.retry_after_ms is Some <==> given.retry_after_ms is Some
        &&& given.retry_after_ms is Some ==> kept.retry_after_ms->Some_0
            == given.retry_after_ms->Some_0
    }
}

proof fn lemma_trustworthy(response: DispatchResponse, provider: Seq<char>)
    ensures
        trustworthy(response, provider) <==> crate::dispatch::sound_response(response, provider),
{
    lemma_filled(response.observed_at@, 1, 64);
    if response.remote_receipt is Some {
        lemma_filled(response.remote_receipt->Some_0.remote_id@, 1, 320);
        lemma_sha256_text(response.remote_receipt->Some_0.digest@);
    }
    if response.failure is Some {
        lemma_filled(response.failure->Some_0.code@, 1, 160);
        lemma_filled(response.failure->Some_0.classification@, 1, 160);
    }
}

/// A trustworthy response is recorded as it stands, with the outcome that the
/// provider stated; no other response is.
pub proof fn law_provider_is_taken_at_its_word(
    work: &DispatchWork,
    provider: &str,
    response: DispatchResponse,
    r: Result<EmailDispatchObserved, RuntimeFailure>,
)
    requires
        call_ensures(dispatch_observation, (work, provider, response), r),
    ensures
        r is Ok <==> trustworthy(response, provider@),
        r is Ok ==> is_about(r->Ok_0, *work, provider@) && says_what_the_provider_said(
            r->Ok_0,
            response,
        ),
        r is Err ==> r->Err_0 is ProtocolViolation && r->Err_0->ProtocolViolation_capability@
            == "lenso.email-dispatch@1"@,
{
    lemma_trustworthy(response, provider@);
}

/// Whether an observation reports one failure, by its code and class, with no
/// evidence and no wait.
pub open spec fn only_fails(
    observed: EmailDispatchObserved,
    code: Seq<char>,
    class: Seq<char>,
    at: UtcTime,
) -> bool {
    &&& observed.observed_at == at
    &&& observed.remote_receipt is None
    &&& observed.failure is Some
    &&& observed.failure->Some_0.code@ == code
    &&& observed.failure->Some_0.classification@ == class
    &&& observed.failure->Some_0.retry_after_ms is None
}

/// Every reply is recorded for the claimed attempt: a trustworthy response as
/// it stands, a refusal before any effect as a permanent failure, and anything
/// else as unknown. A response leaves the answer to the ledger, a refusal is
/// answered as one, and anything else as a failure of the runtime.
pub proof fn law_reply_is_recorded_as_it_is(
    work: &DispatchWork,
    provider: &str,
    now: UtcTime,
    reply: DispatchReply,
    aftermath: DispatchAftermath,
)
    requires
        call_ensures(settle_reply, (work, provider, now, reply), aftermath),
    ensures
        is_about(aftermath.observed, *work, provider@),
        reply is Response && trustworthy(reply->Response_0, provider@) ==> aftermath.failure
            is None && says_what_the_provider_said(aftermath.observed, reply->Response_0),
        reply is Response && !trustworthy(reply->Response_0, provider@) ==> {
            &&& aftermath.observed.outcome is DeliveryUnknown
            &&& only_fails(
                aftermath.observed,
                "email_dispatch_protocol_failure"@,
                "delivery_unknown"@,
                now,
            )
            &&& aftermath.failure is Some
            &&& aftermath.failure->Some_0 is Runtime
            &&& aftermath.failure->Some_0->Runtime_0 is ProtocolViolation
        },
        reply is Domain && !(reply->Domain_0 is Unknown) ==> {
            &&& aftermath.observed.outcome is PermanentFailure
            &&& only_fails(
                aftermath.observed,
                (if reply->Domain_0 is InvalidDispatch {
                    "email_invalid_dispatch"@
                } else {
                    "email_unsupported_message"@
                }),
                "permanent_failure"@,
                now,
            )
            &&& aftermath.failure == Some(PluginError::Domain(DispatchDueError::DispatchRejected))
        },
        reply is Domain && reply->Domain_0 is Unknown ==> {
            &&& aftermath.observed.outcome is DeliveryUnknown
            &&& only_fails(
                aftermath.observed,
                "email_dispatch_unknown_domain_error"@,
                "delivery_unknown"@,
                now,
            )
            &&& aftermath.failure is Some
            &&& aftermath.failure->Some_0 is Runtime
            &&& aftermath.failure->Some_0->Runtime_0 is ProtocolViolation
        },
        reply is Runtime ==> {
            &&& aftermath.observed.outcome is DeliveryUnknown
            &&& only_fails(
                aftermath.observed,
                "email_dispatch_runtime_failure"@,
                "delivery_unknown"@,
                now,
            )
            &&& aftermath.failure == Some(
                PluginError::<DispatchDueError>::Runtime(reply->Runtime_0),
            )
        },
{
    if reply is Response {
        lemma_trustworthy(reply->Response_0, provider@);
    }
}

/// From the reply to the ledger: the delivery whose attempt waits for a reply
/// ends as the provider said. It is accepted exactly where the provider
/// accepted the message, retried or exhausted exactly where it reported a
/// temporary failure, failed where the message was refused for good, and
/// unknown, with no retry, wherever the provider said so or said nothing that
/// can be trusted.
pub proof fn law_delivery_follows_the_reply(
    work: &DispatchWork,
    provider: &str,
    now: UtcTime,
    reply: DispatchReply,
    aftermath: DispatchAftermath,
    event: ObservationEnvelope,
    target: DispatchTarget,
    r: Result<DispatchEffect, NotificationError>,
)
    requires
        call_ensures(settle_reply, (work, provider, now, reply), aftermath),
        call_ensures(dispatch_envelope, (work, &aftermath.observed), event),
        call_ensures(
            apply_dispatch_observation,
            (Some(target), &event, &aftermath.observed),
            r,
        ),
        target.delivery_status@ == "attempting"@,
        target.attempt_status@ == "dispatching"@,
        target.function_run_id@ == work.claim.run_id@,
        target.revision < last_revision(),
    ensures
        r is Ok && r->Ok_0 is Settle && {
            let settlement = r->Ok_0->Settle_0;
            let change = settlement.delivery.change;
            let trusted = reply is Response && trustworthy(reply->Response_0, provider@);
            let outcome = reply->Response_0.outcome;
            &&& settlement.delivery.delivery_id@ == work.claim.delivery_id@
            &&& change is Accepted <==> trusted && outcome is Accepted
            &&& trusted && outcome is TemporaryFailure <==> settlement.retry is Some
            &&& change is RetryScheduled ==> trusted && outcome is TemporaryFailure
            &&& trusted && outcome is PermanentFailure ==> ends(
                change,
                DeliveryStatus::Failed,
                "permanent_failure"@,
            )
            &&& reply is Domain && !(reply->Domain_0 is Unknown) ==> ends(
                change,
                DeliveryStatus::Failed,
                "permanent_failure"@,
            )
            &&& (trusted && outcome is DeliveryUnknown) || (reply is Response && !trusted) || (
            reply is Domain && reply->Domain_0 is Unknown) || reply is Runtime <==> ends(
                change,
                DeliveryStatus::DeliveryUnknown,
                "ambiguous_external_effect"@,
            )
        },
{
    if reply is Response {
        lemma_trustworthy(reply->Response_0, provider@);
    }
    crate::laws::observing::law_dispatch_observation_is_for_a_waiting_attempt(
        Some(target),
        &event,
        &aftermath.observed,
        r,
    );
    assert(waits(Some(target), aftermath.observed));
}

/// The observation of an attempt comes from the provider, about the delivery,
/// under an id that only the attempt determines.
pub proof fn law_attempt_has_one_observation(
    work: &DispatchWork,
    observed: &EmailDispatchObserved,
    event: ObservationEnvelope,
)
    requires
        call_ensures(dispatch_envelope, (work, observed), event),
    ensures
        event.id@ == "dispatch-observation:"@ + work.claim.attempt_id@,
        event.event_name@ == "lenso.email.dispatch-observed.v1"@,
        event.event_version == 1,
        event.source_module@ == observed.provider@,
        event.aggregate_id@ == work.claim.delivery_id@,
        event.occurred_at == observed.observed_at,
{
}

/// The provider is sent the request that was claimed.
pub proof fn law_claimed_request_is_sent(work: &DispatchWork, request: DispatchRequest)
    requires
        call_ensures(dispatch_request, (work,), request),
    ensures
        request.delivery_id@ == work.request.delivery_id@,
        request.attempt_id@ == work.request.attempt_id@,
        request.run_id@ == work.request.run_id@,
        request.idempotency_key@ == work.request.idempotency_key@,
        request.recipient == work.request.recipient,
        request.message == work.request.message,
        request.correlation_id@ == work.request.correlation_id@,
{
}

/// Whether a delivery waits for an attempt whose time has come.
pub open spec fn time_has_come(row: DueRow, now: UtcTime) -> bool {
    &&& row.status@ == "queued"@ || row.status@ == "retry_scheduled"@
    &&& row.next_attempt_at is Some
    &&& !later(now, row.next_attempt_at->Some_0)
}

/// A delivery is claimed exactly where its time has come, an attempt and a
/// revision are left, and the whole message can be revealed. A delivery whose
/// time has not come is left alone.
pub proof fn law_due_delivery_is_claimed<P: SnapshotProtector>(
    row: DueRow,
    now: UtcTime,
    protector: &P,
    r: Result<Option<DueClaim>, NotificationError>,
)
    requires
        call_ensures(claim_one_due::<P>, (row, now, protector), r),
    ensures
        !time_has_come(row, now) <==> r == Ok::<Option<DueClaim>, NotificationError>(None),
        time_has_come(row, now) && row.revision >= last_revision() ==> refused(
            r,
            ErrorCode::Conflict,
            "Notification delivery revision exhausted the portable wire range"@,
        ),
        time_has_come(row, now) && row.revision < last_revision() && row.attempt_count
            >= row.max_attempts ==> refused(
            r,
            ErrorCode::Conflict,
            "Notification delivery exhausted before dispatch"@,
        ),
        (r is Ok && r->Ok_0 is Some) <==> {
            &&& time_has_come(row, now)
            &&& row.revision < last_revision()
            &&& row.attempt_count < row.max_attempts
            &&& protector.revealed(row.recipient_ciphertext@, row.recipient_key_ref@) is Ok
            &&& protector.revealed(row.subject_ciphertext@, row.protection_key_ref@) is Ok
            &&& protector.revealed(row.text_ciphertext@, row.protection_key_ref@) is Ok
            &&& protector.revealed(row.html_ciphertext@, row.protection_key_ref@) is Ok
        },
{
}

/// A claim takes the next attempt and the next revision of the delivery, and
/// hands out its message part by part: each part is what its own protected text
/// reveals, and each name is the stored one. The attempt, the run and the event
/// are named by the delivery and the number of the attempt alone, so that the
/// same claim made again names them alike.
pub proof fn law_claim_hands_out_the_stored_message<P: SnapshotProtector>(
    row: DueRow,
    now: UtcTime,
    protector: &P,
    claim: DueClaim,
)
    requires
        call_ensures(
            claim_one_due::<P>,
            (row, now, protector),
            Ok::<Option<DueClaim>, NotificationError>(Some(claim)),
        ),
    ensures
        claim.expected_revision == row.revision,
        claim.new_revision == row.revision + 1,
        claim.attempt.sequence == row.attempt_count + 1,
        claim.attempt.started_at == now,
        claim.attempt.delivery_id@ == row.delivery_id@,
        claim.attempt.id@ == stable_id_text(
            "ntf_att"@,
            row.delivery_id@ + ":"@ + signed_decimal_text(row.attempt_count + 1),
        ),
        claim.attempt.function_run_id@ == stable_id_text("ntf_run"@, claim.attempt.id@),
        claim.attempt.dispatch_event_id@ == stable_id_text("dispatch"@, claim.attempt.id@),
        claim.work.claim.delivery_id@ == row.delivery_id@,
        claim.work.claim.attempt_id@ == claim.attempt.id@,
        claim.work.claim.run_id@ == claim.attempt.function_run_id@,
        claim.work.request.delivery_id@ == row.delivery_id@,
        claim.work.request.attempt_id@ == claim.attempt.id@,
        claim.work.request.run_id@ == claim.attempt.function_run_id@,
        claim.work.request.idempotency_key@ == claim.attempt.id@,
        protector.revealed(row.recipient_ciphertext@, row.recipient_key_ref@) == Ok::<
            Seq<char>,
            crate::error::FailureView,
        >(claim.work.request.recipient.address@),
        protector.revealed(row.subject_ciphertext@, row.protection_key_ref@) == Ok::<
            Seq<char>,
            crate::error::FailureView,
        >(claim.work.request.message.subject@),
        protector.revealed(row.text_ciphertext@, row.protection_key_ref@) == Ok::<
            Seq<char>,
            crate::error::FailureView,
        >(claim.work.request.message.text@),
        protector.revealed(row.html_ciphertext@, row.protection_key_ref@) == Ok::<
            Seq<char>,
            crate::error::FailureView,
        >(claim.work.request.message.html@),
        claim.work.request.message.template_id@ == row.template_id@,
        claim.work.request.message.template_version@ == row.template_version@,
        claim.work.request.message.locale@ == row.locale@,
        claim.work.request.message.content_digest@ == row.content_digest@,
        claim.work.request.correlation_id@ == row.correlation_id@,
{
}

/// The worker is told the status by its own name; no other status follows a
/// dispatch.
pub proof fn law_worker_is_told_the_stored_status(
    status: &str,
    r: Result<DispatchDueResponseStatus, RuntimeFailure>,
)
    requires
        call_ensures(delivery_status, (status,), r),
    ensures
        (r is Ok && r->Ok_0 is Accepted) <==> status@ == "accepted"@,
        (r is Ok && r->Ok_0 is RetryScheduled) <==> status@ == "retry_scheduled"@,
        (r is Ok && r->Ok_0 is Failed) <==> status@ == "failed"@,
        (r is Ok && r->Ok_0 is DeliveryUnknown) <==> status@ == "delivery_unknown"@,
        r is Err ==> r->Err_0 is PluginFailure && r->Err_0->PluginFailure_detail@
            == "stored delivery status `"@ + status@ + "` is invalid after dispatch"@,
{
    reveal_strlit("accepted");
    reveal_strlit("retry_scheduled");
    reveal_strlit("failed");
    reveal_strlit("delivery_unknown");
    assert("accepted"@.len() == 8);
    assert("retry_scheduled"@.len() == 15);
    assert("failed"@.len() == 6);
    assert("delivery_unknown"@.len() == 16);
}

/// The answer to the worker names the claimed attempt, and tells the status and
/// the next attempt that the ledger holds after the dispatch.
pub proof fn law_worker_is_told_what_the_ledger_holds(
    work: &DispatchWork,
    observed_at: UtcTime,
    summary: Option<&DeliverySummary>,
    r: Result<DispatchDueResponse, RuntimeFailure>,
)
    requires
        call_ensures(dispatch_due_response, (work, observed_at, summary), r),
    ensures
        summary is None ==> r is Err && r->Err_0 is PluginFailure
            && r->Err_0->PluginFailure_detail@ == "claimed delivery disappeared"@,
        r is Ok ==> {
            let delivery = summary->Some_0;
            let response = r->Ok_0;
            &&& response.attempt_id@ == work.claim.attempt_id@
            &&& response.delivery_id@ == work.claim.delivery_id@
            &&& response.run_id@ == work.claim.run_id@
            &&& response.observed_at@ == crate::time::rfc3339_millis(
                observed_at.seconds,
                observed_at.nanos,
            )
            &&& response.next_attempt_at is Some <==> delivery.next_attempt_at is Some
            &&& response.next_attempt_at is Some ==> response.next_attempt_at->Some_0@
                == crate::time::rfc3339_millis(
                delivery.next_attempt_at->Some_0.seconds,
                delivery.next_attempt_at->Some_0.nanos,
            )
            &&& response.status is Accepted <==> delivery.status@ == "accepted"@
            &&& response.status is RetryScheduled <==> delivery.status@ == "retry_scheduled"@
            &&& response.status is Failed <==> delivery.status@ == "failed"@
            &&& response.status is DeliveryUnknown <==> delivery.status@ == "delivery_unknown"@
        },
{
    reveal_strlit("accepted");
    reveal_strlit("retry_scheduled");
    reveal_strlit("failed");
    reveal_strlit("delivery_unknown");
    assert("accepted"@.len() == 8);
    assert("retry_scheduled"@.len() == 15);
    assert("failed"@.len() == 6);
    assert("delivery_unknown"@.len() == 16);
}

/// The worker goes from the claim to the provider, from its reply to the ledger
/// and from there to the answer. Nothing due is answered as such, a failure of
/// the ledger is answered by its text, and an answer that the reply itself
/// calls for is given only once the reply is recorded.
pub proof fn law_worker_takes_one_step_at_a_time(
    stage: WorkerStage,
    event: WorkerEvent,
    provider: &str,
    now: UtcTime,
    step: WorkerStep,
)
    requires
        call_ensures(advance_worker, (stage, event, provider, now), step),
    ensures
        stage is Claim && event is Claimed ==> match event->Claimed_0 {
            Some(claim) => step == WorkerStep::Go(WorkerStage::Dispatch { work: claim.work }),
            None => step == WorkerStep::Answer(
                Err(PluginError::Domain(DispatchDueError::NoDeliveryDue)),
            ),
        },
        stage is Dispatch && event is Replied ==> step is Go && step->Go_0 is Record
            && step->Go_0->Record_work == stage->Dispatch_work && is_about(
            step->Go_0->Record_aftermath.observed,
            stage->Dispatch_work,
            provider@,
        ),
        stage is Record && event is Recorded ==> match stage->Record_aftermath.failure {
            Some(failure) => step == WorkerStep::Answer(Err(failure)),
            None => step is Go && step->Go_0 is Read && step->Go_0->Read_work
                == stage->Record_work && step->Go_0->Read_observed_at
                == stage->Record_aftermath.observed.observed_at,
        },
        stage is Read && event is Found ==> step is Answer && (step->Answer_0 is Ok
            ==> step->Answer_0->Ok_0.delivery_id@ == stage->Read_work.claim.delivery_id@
            && step->Answer_0->Ok_0.attempt_id@ == stage->Read_work.claim.attempt_id@) && (
        step->Answer_0 is Err ==> step->Answer_0->Err_0 is Runtime),
        event is Failed && !(stage is Dispatch) ==> step is Answer && step->Answer_0 is Err
            && step->Answer_0->Err_0 is Runtime && step->Answer_0->Err_0->Runtime_0
            is PluginFailure && step->Answer_0->Err_0->Runtime_0->PluginFailure_detail@
            == event->Failed_0.message@,
        stage is Dispatch && !(event is Replied) ==> step == WorkerStep::Go(stage),
{
}

/// A response is valid exactly where it can be trusted.
pub proof fn law_valid_response_can_be_trusted(
    response: &DispatchResponse,
    provider: &str,
    r: bool,
)
    requires
        call_ensures(valid_dispatch_response, (response, provider), r),
    ensures
        r <==> trustworthy(*response, provider@),
{
    lemma_trustworthy(*response, provider@);
}

/// A rejection before any effect is permanent, and a dispatch whose effect
/// nobody knows is unknown; each tells its code, and neither is tried again.
pub proof fn law_rejections_and_unknown_effects_are_told_apart(
    work: &DispatchWork,
    provider: &str,
    code: &str,
    at: UtcTime,
    rejected: EmailDispatchObserved,
    unknown: EmailDispatchObserved,
)
    requires
        call_ensures(permanent_rejection, (work, provider, code, at), rejected),
        call_ensures(unknown_dispatch, (work, provider, at, code), unknown),
    ensures
        is_about(rejected, *work, provider@),
        rejected.outcome is PermanentFailure,
        only_fails(rejected, code@, "permanent_failure"@, at),
        is_about(unknown, *work, provider@),
        unknown.outcome is DeliveryUnknown,
        only_fails(unknown, code@, "delivery_unknown"@, at),
{
}

/// An optional instant is told where there is one.
pub proof fn law_optional_instant_is_told(
    time: &Option<UtcTime>,
    r: Result<Option<String>, RuntimeFailure>,
)
    requires
        call_ensures(format_optional_time, (time,), r),
    ensures
        r is Ok <==> time is None || can_be_told(time->Some_0),
        r is Ok ==> tells_any(r->Ok_0, *time),
{
    if time is Some {
        lemma_can_be_told(time->Some_0);
    }
}

/// Whether the ledger's state after a dispatch can be told to the worker.
pub open spec fn can_be_answered(summary: Option<DeliverySummary>, observed_at: UtcTime) -> bool {
    let delivery = summary->Some_0;
    &&& summary is Some
    &&& delivery.status@ == "accepted"@ || delivery.status@ == "retry_scheduled"@
        || delivery.status@ == "failed"@ || delivery.status@ == "delivery_unknown"@
    &&& delivery.next_attempt_at is None || can_be_told(delivery.next_attempt_at->Some_0)
    &&& can_be_told(observed_at)
}

/// The worker is answered exactly where the ledger's state after the dispatch
/// can be told, at the end of its steps as well.
pub proof fn law_worker_is_answered_where_it_can_be(
    work: DispatchWork,
    observed_at: UtcTime,
    summary: Option<DeliverySummary>,
    reference: Option<&DeliverySummary>,
    r: Result<DispatchDueResponse, RuntimeFailure>,
    provider: &str,
    now: UtcTime,
    step: WorkerStep,
)
    requires
        reference == (match summary {
            Some(delivery) => Some(&delivery),
            None => None,
        }),
        call_ensures(dispatch_due_response, (&work, observed_at, reference), r),
        call_ensures(
            advance_worker,
            (WorkerStage::Read { work, observed_at }, WorkerEvent::Found(summary), provider, now),
            step,
        ),
    ensures
        r is Ok <==> can_be_answered(summary, observed_at),
        step is Answer,
        step->Answer_0 is Ok <==> can_be_answered(summary, observed_at),
        r is Err ==> r->Err_0 is PluginFailure,
        r is Ok ==> step->Answer_0->Ok_0.status == r->Ok_0.status
            && step->Answer_0->Ok_0.observed_at@ == r->Ok_0.observed_at@
            && step->Answer_0->Ok_0.delivery_id@ == r->Ok_0.delivery_id@
            && step->Answer_0->Ok_0.run_id@ == r->Ok_0.run_id@,
{
    lemma_can_be_told(observed_at);
    if summary is Some && summary->Some_0.next_attempt_at is Some {
        lemma_can_be_told(summary->Some_0.next_attempt_at->Some_0);
    }
}

} // verus!
