//! What a provider's reply to a dispatch means for the ledger and the worker.

use vstd::prelude::*;
use vstd::string::*;

use crate::contracts::{DispatchOutcome, EmailDispatchObserved, RemoteReceiptSummary,
    SanitizedFailure, EMAIL_DISPATCH_OBSERVED_EVENT};
use crate::delivery::{DispatchDueError, DispatchDueResponse, DispatchDueResponseStatus};
use crate::digest::{valid_digest, valid_digest_text};
use crate::email::{DispatchError, DispatchReply, DispatchRequest, DispatchResponse,
    DispatchResponseFailure, DispatchResponseOutcome, CAPABILITY_ID};
use crate::error::{plugin_failure, protocol_violation, PluginError, RuntimeFailure};
use crate::events::{dispatch_faults, present, source_fault, ObservationEnvelope};
use crate::repository::DeliverySummary;
use crate::requests::surrounds;
use crate::runtime::DispatchWork;
use crate::text::{option_text, required_bounded, same_text, within};
use crate::time::{format_time, formatted_time, instant_of, parse_time, time_text, valid_time,
    UtcTime};

verus! {

/// The request that a provider is sent.
pub fn dispatch_request(work: &DispatchWork) -> (request: DispatchRequest)
    ensures
        request == work.request,
{
    work.request.clone()
}

/// Whether failure metadata is bounded and classified as given.
pub open spec fn sound_failure(
    failure: DispatchResponseFailure,
    classification: Seq<char>,
) -> bool {
    &&& within(failure.code@, 1, 160)
    &&& within(failure.classification@, 1, 160)
    &&& failure.classification@ == classification
}

fn valid_dispatch_failure(failure: &DispatchResponseFailure, classification: &str) -> (r: bool)
    ensures
        r == sound_failure(*failure, classification@),
{
    required_bounded(failure.code.as_str(), 1, 160) && required_bounded(
        failure.classification.as_str(),
        1,
        160,
    ) && same_text(failure.classification.as_str(), classification)
}

/// Whether a response comes from the bound provider and keeps every bound, and
/// its outcome, receipt, failure and retry delay agree.
pub open spec fn sound_response(response: DispatchResponse, provider: Seq<char>) -> bool {
    &&& response.provider@ == provider
    &&& time_text(response.observed_at@)
    &&& response.remote_receipt matches Some(receipt) ==> {
        &&& within(receipt.remote_id@, 1, 320)
        &&& receipt.source@ == provider
        &&& valid_digest_text(receipt.digest@)
    }
    &&& match response.outcome {
        DispatchResponseOutcome::Accepted => response.failure is None,
        DispatchResponseOutcome::TemporaryFailure => response.remote_receipt is None && (
        response.failure matches Some(failure) && sound_failure(failure, "temporary_failure"@) && (
        failure.retry_after_ms matches Some(delay) ==> 0 <= delay <= 86_400_000)),
        DispatchResponseOutcome::PermanentFailure => response.remote_receipt is None && (
        response.failure matches Some(failure) && sound_failure(failure, "permanent_failure"@)
            && failure.retry_after_ms is None),
        DispatchResponseOutcome::DeliveryUnknown => response.remote_receipt is None && (
        response.failure matches Some(failure) && sound_failure(failure, "delivery_unknown"@)
            && failure.retry_after_ms is None),
    }
}

/// Whether a response of the bound provider is sound.
pub fn valid_dispatch_response(response: &DispatchResponse, email_provider_instance: &str) -> (r: bool)
    ensures
        r == sound_response(*response, email_provider_instance@),
{
    if !same_text(response.provider.as_str(), email_provider_instance) || !valid_time(
        response.observed_at.as_str(),
    ) {
        return false;
    }
    let receipt_valid = match &response.remote_receipt {
        Some(receipt) => required_bounded(receipt.remote_id.as_str(), 1, 320) && same_text(
            receipt.source.as_str(),
            email_provider_instance,
        ) && valid_digest(receipt.digest.as_str()),
        None => true,
    };
    if !receipt_valid {
        return false;
    }
    match response.outcome {
        DispatchResponseOutcome::Accepted => response.failure.is_none(),
        DispatchResponseOutcome::TemporaryFailure => response.remote_receipt.is_none()
            && match &response.failure {
            Some(failure) => valid_dispatch_failure(failure, "temporary_failure")
                && match failure.retry_after_ms {
                Some(delay) => 0 <= delay && delay <= 86_400_000,
                None => true,
            },
            None => false,
        },
        DispatchResponseOutcome::PermanentFailure => response.remote_receipt.is_none()
            && match &response.failure {
            Some(failure) => valid_dispatch_failure(failure, "permanent_failure")
                && failure.retry_after_ms.is_none(),
            None => false,
        },
        DispatchResponseOutcome::DeliveryUnknown => response.remote_receipt.is_none()
            && match &response.failure {
            Some(failure) => valid_dispatch_failure(failure, "delivery_unknown")
                && failure.retry_after_ms.is_none(),
            None => false,
        },
    }
}

/// The outcome of the ledger that a response's outcome is.
pub open spec fn outcome_of(outcome: DispatchResponseOutcome) -> DispatchOutcome {
    match outcome {
        DispatchResponseOutcome::Accepted => DispatchOutcome::Accepted,
        DispatchResponseOutcome::TemporaryFailure => DispatchOutcome::TemporaryFailure,
        DispatchResponseOutcome::PermanentFailure => DispatchOutcome::PermanentFailure,
        DispatchResponseOutcome::DeliveryUnknown => DispatchOutcome::DeliveryUnknown,
    }
}

/// Whether `observed` is about the claimed attempt and the bound provider.
pub open spec fn observes(
    observed: EmailDispatchObserved,
    work: DispatchWork,
    provider: Seq<char>,
) -> bool {
    &&& observed.delivery_id == work.claim.delivery_id
    &&& observed.attempt_id == work.claim.attempt_id
    &&& observed.function_run_id == work.claim.run_id
    &&& observed.provider@ == provider
}

/// Whether `observed` reports a failure without further evidence.
pub open spec fn reports_failure(
    observed: EmailDispatchObserved,
    code: Seq<char>,
    classification: Seq<char>,
    at: UtcTime,
) -> bool {
    &&& observed.observed_at == at
    &&& observed.remote_receipt is None
    &&& observed.failure matches Some(failure) && failure.code@ == code
        && failure.classification@ == classification && failure.retry_after_ms is None
}

/// Whether `observed` is what a sound response says.
pub open spec fn transcribes(
    observed: EmailDispatchObserved,
    response: DispatchResponse,
    provider: Seq<char>,
) -> bool {
    &&& observed.outcome == outcome_of(response.outcome)
    &&& Some(observed.observed_at) == instant_of(response.observed_at@)
    &&& match response.remote_receipt {
        Some(receipt) => observed.remote_receipt matches Some(summary) && summary.remote_id
            == receipt.remote_id && summary.source@ == provider && summary.digest
            == receipt.digest,
        None => observed.remote_receipt is None,
    }
    &&& match response.failure {
        Some(failure) => observed.failure matches Some(sanitized) && sanitized.code == failure.code
            && sanitized.classification == failure.classification
            && match failure.retry_after_ms {
            Some(delay) => sanitized.retry_after_ms matches Some(wait) && wait == delay,
            None => sanitized.retry_after_ms is None,
        },
        None => observed.failure is None,
    }
}

fn email_protocol_violation() -> (failure: RuntimeFailure)
    ensures
        failure.is_protocol_violation(CAPABILITY_ID@),
{
    protocol_violation(CAPABILITY_ID)
}

/// The observation that a response is; an unsound response is a violation of
/// the email protocol.
pub fn dispatch_observation(
    work: &DispatchWork,
    email_provider_instance: &str,
    response: DispatchResponse,
) -> (r: Result<EmailDispatchObserved, RuntimeFailure>)
    ensures
        match r {
            Ok(observed) => {
                &&& sound_response(response, email_provider_instance@)
                &&& observes(observed, *work, email_provider_instance@)
                &&& transcribes(observed, response, email_provider_instance@)
                &&& observed.observed_at.valid()
            },
            Err(failure) => {
                &&& !sound_response(response, email_provider_instance@)
                &&& failure.is_protocol_violation(CAPABILITY_ID@)
            },
        },
{
    if !valid_dispatch_response(&response, email_provider_instance) {
        return Err(email_protocol_violation());
    }
    let observed_at = match parse_time(response.observed_at.as_str()) {
        Some(at) => at,
        None => {
            return Err(email_protocol_violation());
        },
    };
    let outcome = match response.outcome {
        DispatchResponseOutcome::Accepted => DispatchOutcome::Accepted,
        DispatchResponseOutcome::TemporaryFailure => DispatchOutcome::TemporaryFailure,
        DispatchResponseOutcome::PermanentFailure => DispatchOutcome::PermanentFailure,
        DispatchResponseOutcome::DeliveryUnknown => DispatchOutcome::DeliveryUnknown,
    };
    let failure = match response.failure {
        Some(failure) => {
            let retry_after_ms: Option<u64> = match failure.retry_after_ms {
                Some(delay) => Some(delay as u64),
                None => None,
            };
            Some(
                SanitizedFailure {
                    code: failure.code,
                    classification: failure.classification,
                    retry_after_ms,
                },
            )
        },
        None => None,
    };
    let remote_receipt = match response.remote_receipt {
        Some(receipt) => Some(
            RemoteReceiptSummary {
                remote_id: receipt.remote_id,
                source: email_provider_instance.to_owned(),
                digest: receipt.digest,
            },
        ),
        None => None,
    };
    Ok(
        EmailDispatchObserved {
            delivery_id: work.claim.delivery_id.clone(),
            attempt_id: work.claim.attempt_id.clone(),
            function_run_id: work.claim.run_id.clone(),
            outcome,
            provider: email_provider_instance.to_owned(),
            observed_at,
            remote_receipt,
            failure,
        },
    )
}

fn failed_dispatch(
    work: &DispatchWork,
    email_provider_instance: &str,
    outcome: DispatchOutcome,
    code: &str,
    classification: &str,
    observed_at: UtcTime,
) -> (observed: EmailDispatchObserved)
    ensures
        observes(observed, *work, email_provider_instance@),
        observed.outcome == outcome,
        reports_failure(observed, code@, classification@, observed_at),
{
    EmailDispatchObserved {
        delivery_id: work.claim.delivery_id.clone(),
        attempt_id: work.claim.attempt_id.clone(),
        function_run_id: work.claim.run_id.clone(),
        outcome,
        provider: email_provider_instance.to_owned(),
        observed_at,
        remote_receipt: None,
        failure: Some(
            SanitizedFailure {
                code: code.to_owned(),
                classification: classification.to_owned(),
                retry_after_ms: None,
            },
        ),
    }
}

/// The observation of a message that the provider refused before any effect.
pub fn permanent_rejection(
    work: &DispatchWork,
    email_provider_instance: &str,
    code: &str,
    observed_at: UtcTime,
) -> (observed: EmailDispatchObserved)
    ensures
        observes(observed, *work, email_provider_instance@),
        observed.outcome is PermanentFailure,
        reports_failure(observed, code@, "permanent_failure"@, observed_at),
{
    failed_dispatch(
        work,
        email_provider_instance,
        DispatchOutcome::PermanentFailure,
        code,
        "permanent_failure",
        observed_at,
    )
}

/// The observation of a dispatch whose effect nobody knows.
pub fn unknown_dispatch(
    work: &DispatchWork,
    email_provider_instance: &str,
    observed_at: UtcTime,
    code: &str,
) -> (observed: EmailDispatchObserved)
    ensures
        observes(observed, *work, email_provider_instance@),
        observed.outcome is DeliveryUnknown,
        reports_failure(observed, code@, "delivery_unknown"@, observed_at),
{
    failed_dispatch(
        work,
        email_provider_instance,
        DispatchOutcome::DeliveryUnknown,
        code,
        "delivery_unknown",
        observed_at,
    )
}

/// The envelope in which the observation of a claimed attempt is consumed. One
/// attempt has one observation; its source is the provider.
pub fn dispatch_envelope(work: &DispatchWork, observed: &EmailDispatchObserved) -> (event:
    ObservationEnvelope)
    ensures
        surrounds(
            event,
            "dispatch-observation:"@ + work.claim.attempt_id@,
            EMAIL_DISPATCH_OBSERVED_EVENT@,
            observed.provider@,
            work.claim.delivery_id@,
            observed.observed_at,
        ),
{
    let mut id = "dispatch-observation:".to_owned();
    id.append(work.claim.attempt_id.as_str());
    ObservationEnvelope {
        id,
        event_name: EMAIL_DISPATCH_OBSERVED_EVENT.to_owned(),
        event_version: 1,
        source_module: observed.provider.clone(),
        aggregate_id: work.claim.delivery_id.clone(),
        occurred_at: observed.observed_at,
    }
}

/// What follows from a reply: the observation to record first, and then the
/// failure to answer with, or nothing where the ledger's state is the answer.
pub struct DispatchAftermath {
    pub observed: EmailDispatchObserved,
    pub failure: Option<PluginError<DispatchDueError>>,
}

impl DispatchAftermath {
    /// Whether this is what follows from `reply`.
    pub open spec fn settles(
        self,
        work: DispatchWork,
        provider: Seq<char>,
        now: UtcTime,
        reply: DispatchReply,
    ) -> bool {
        &&& observes(self.observed, work, provider)
        &&& match reply {
            DispatchReply::Response(response) => if sound_response(
                response,
                provider,
            ) {
                transcribes(self.observed, response, provider)
                    && self.failure is None
            } else {
                self.observed.outcome is DeliveryUnknown && reports_failure(
                    self.observed,
                    "email_dispatch_protocol_failure"@,
                    "delivery_unknown"@,
                    now,
                ) && (self.failure matches Some(PluginError::Runtime(failure))
                    && failure.is_protocol_violation(CAPABILITY_ID@))
            },
            DispatchReply::Domain(DispatchError::InvalidDispatch) =>
                self.observed.outcome is PermanentFailure && reports_failure(
                    self.observed,
                    "email_invalid_dispatch"@,
                    "permanent_failure"@,
                    now,
                ) && self.failure == Some(
                    PluginError::Domain(DispatchDueError::DispatchRejected),
                ),
            DispatchReply::Domain(DispatchError::UnsupportedMessage) =>
                self.observed.outcome is PermanentFailure && reports_failure(
                    self.observed,
                    "email_unsupported_message"@,
                    "permanent_failure"@,
                    now,
                ) && self.failure == Some(
                    PluginError::Domain(DispatchDueError::DispatchRejected),
                ),
            DispatchReply::Domain(DispatchError::Unknown) =>
                self.observed.outcome is DeliveryUnknown && reports_failure(
                    self.observed,
                    "email_dispatch_unknown_domain_error"@,
                    "delivery_unknown"@,
                    now,
                ) && (self.failure matches Some(PluginError::Runtime(failure))
                    && failure.is_protocol_violation(CAPABILITY_ID@)),
            DispatchReply::Runtime(inner) => self.observed.outcome is DeliveryUnknown
                && reports_failure(
                self.observed,
                "email_dispatch_runtime_failure"@,
                "delivery_unknown"@,
                now,
            ) && self.failure == Some(PluginError::<DispatchDueError>::Runtime(inner)),
        }
    }
}

/// What a reply of the provider leads to. Every reply is recorded before
/// anything is answered, and only a sound response or a refusal before any
/// effect is taken at its word: everything else is ambiguous.
pub fn settle_reply(
    work: &DispatchWork,
    email_provider_instance: &str,
    now: UtcTime,
    reply: DispatchReply,
) -> (aftermath: DispatchAftermath)
    requires
        now.valid(),
    ensures
        aftermath.settles(*work, email_provider_instance@, now, reply),
        aftermath.observed.observed_at.valid(),
{
    match reply {
        DispatchReply::Response(response) => match dispatch_observation(
            work,
            email_provider_instance,
            response,
        ) {
            Ok(observed) => DispatchAftermath { observed, failure: None },
            Err(failure) => DispatchAftermath {
                observed: unknown_dispatch(
                    work,
                    email_provider_instance,
                    now,
                    "email_dispatch_protocol_failure",
                ),
                failure: Some(PluginError::Runtime(failure)),
            },
        },
        DispatchReply::Domain(DispatchError::InvalidDispatch) => DispatchAftermath {
            observed: permanent_rejection(
                work,
                email_provider_instance,
                "email_invalid_dispatch",
                now,
            ),
            failure: Some(PluginError::Domain(DispatchDueError::DispatchRejected)),
        },
        DispatchReply::Domain(DispatchError::UnsupportedMessage) => DispatchAftermath {
            observed: permanent_rejection(
                work,
                email_provider_instance,
                "email_unsupported_message",
                now,
            ),
            failure: Some(PluginError::Domain(DispatchDueError::DispatchRejected)),
        },
        DispatchReply::Domain(DispatchError::Unknown) => DispatchAftermath {
            observed: unknown_dispatch(
                work,
                email_provider_instance,
                now,
                "email_dispatch_unknown_domain_error",
            ),
            failure: Some(PluginError::Runtime(email_protocol_violation())),
        },
        DispatchReply::Runtime(inner) => DispatchAftermath {
            observed: unknown_dispatch(
                work,
                email_provider_instance,
                now,
                "email_dispatch_runtime_failure",
            ),
            failure: Some(PluginError::Runtime(inner)),
        },
    }
}

/// The status that a dispatch left, if it is one that a dispatch leaves.
pub open spec fn dispatched_status(status: Seq<char>) -> Option<DispatchDueResponseStatus> {
    if status == "accepted"@ {
        Some(DispatchDueResponseStatus::Accepted)
    } else if status == "retry_scheduled"@ {
        Some(DispatchDueResponseStatus::RetryScheduled)
    } else if status == "failed"@ {
        Some(DispatchDueResponseStatus::Failed)
    } else if status == "delivery_unknown"@ {
        Some(DispatchDueResponseStatus::DeliveryUnknown)
    } else {
        None
    }
}

/// The message about a status that no dispatch leaves.
pub open spec fn undispatched_message(status: Seq<char>) -> Seq<char> {
    "stored delivery status `"@ + status + "` is invalid after dispatch"@
}

/// The status that a dispatch left.
pub fn delivery_status(status: &str) -> (r: Result<DispatchDueResponseStatus, RuntimeFailure>)
    ensures
        match dispatched_status(status@) {
            Some(found) => r matches Ok(answer) && answer == found,
            None => r matches Err(failure) && failure.is_plugin_failure(
                undispatched_message(status@),
            ),
        },
{
    if same_text(status, "accepted") {
        Ok(DispatchDueResponseStatus::Accepted)
    } else if same_text(status, "retry_scheduled") {
        Ok(DispatchDueResponseStatus::RetryScheduled)
    } else if same_text(status, "failed") {
        Ok(DispatchDueResponseStatus::Failed)
    } else if same_text(status, "delivery_unknown") {
        Ok(DispatchDueResponseStatus::DeliveryUnknown)
    } else {
        let mut message = "stored delivery status `".to_owned();
        message.append(status);
        message.append("` is invalid after dispatch");
        Err(plugin_failure(message.as_str()))
    }
}

/// The text of an optional stored instant, or why it has none.
pub open spec fn optional_time(time: Option<UtcTime>) -> Result<Option<Seq<char>>, Seq<char>> {
    match time {
        None => Ok(None),
        Some(at) => match formatted_time(at) {
            Ok(text) => Ok(Some(text)),
            Err(message) => Err(message),
        },
    }
}

/// The text of an optional stored instant.
pub fn format_optional_time(time: &Option<UtcTime>) -> (r: Result<Option<String>, RuntimeFailure>)
    requires
        time matches Some(at) ==> at.valid(),
    ensures
        match optional_time(*time) {
            Ok(expected) => r matches Ok(found) && option_text(found) == expected,
            Err(message) => r matches Err(failure) && failure.is_plugin_failure(message),
        },
{
    match time {
        None => Ok(None),
        Some(at) => match format_time(*at) {
            Ok(text) => Ok(Some(text)),
            Err(failure) => Err(failure),
        },
    }
}

pub const DELIVERY_DISAPPEARED: &'static str = "claimed delivery disappeared";

/// Why the state of the ledger after a dispatch cannot be answered, if it
/// cannot.
pub open spec fn dispatch_answer_fault(
    summary: Option<DeliverySummary>,
    observed_at: UtcTime,
) -> Option<Seq<char>> {
    match summary {
        None => Some(DELIVERY_DISAPPEARED@),
        Some(delivery) => match optional_time(delivery.next_attempt_at) {
            Err(message) => Some(message),
            Ok(_) => match formatted_time(observed_at) {
                Err(message) => Some(message),
                Ok(_) => match dispatched_status(delivery.status@) {
                    None => Some(undispatched_message(delivery.status@)),
                    Some(_) => None,
                },
            },
        },
    }
}

/// Whether `r` answers with the state of the ledger after the dispatch.
pub open spec fn answers_dispatch(
    r: Result<DispatchDueResponse, RuntimeFailure>,
    work: DispatchWork,
    observed_at: UtcTime,
    summary: Option<DeliverySummary>,
) -> bool {
    match dispatch_answer_fault(summary, observed_at) {
        Some(message) => r matches Err(failure) && failure.is_plugin_failure(message),
        None => r matches Ok(response) && response.attempt_id == work.claim.attempt_id
            && response.delivery_id == work.claim.delivery_id && response.run_id
            == work.claim.run_id && Ok::<Option<Seq<char>>, Seq<char>>(
            option_text(response.next_attempt_at),
        ) == optional_time(summary->Some_0.next_attempt_at) && Ok::<Seq<char>, Seq<char>>(
            response.observed_at@,
        ) == formatted_time(observed_at) && Some(response.status) == dispatched_status(
            summary->Some_0.status@,
        ),
    }
}

/// The answer to the worker: the state of the ledger after the dispatch.
pub fn dispatch_due_response(
    work: &DispatchWork,
    observed_at: UtcTime,
    summary: Option<&DeliverySummary>,
) -> (r: Result<DispatchDueResponse, RuntimeFailure>)
    requires
        observed_at.valid(),
        summary matches Some(delivery) ==> (delivery.next_attempt_at matches Some(at)
            ==> at.valid()),
    ensures
        answers_dispatch(
            r,
            *work,
            observed_at,
            (match summary {
                Some(delivery) => Some(*delivery),
                None => None,
            }),
        ),
{
    let delivery = match summary {
        Some(delivery) => delivery,
        None => {
            return Err(plugin_failure(DELIVERY_DISAPPEARED));
        },
    };
    let next_attempt_at = match format_optional_time(&delivery.next_attempt_at) {
        Ok(text) => text,
        Err(failure) => {
            return Err(failure);
        },
    };
    let observed_text = match format_time(observed_at) {
        Ok(text) => text,
        Err(failure) => {
            return Err(failure);
        },
    };
    let status = match delivery_status(delivery.status.as_str()) {
        Ok(status) => status,
        Err(failure) => {
            return Err(failure);
        },
    };
    Ok(
        DispatchDueResponse {
            attempt_id: work.claim.attempt_id.clone(),
            delivery_id: work.claim.delivery_id.clone(),
            next_attempt_at,
            observed_at: observed_text,
            run_id: work.claim.run_id.clone(),
            status,
        },
    )
}

/// Whether a reply leaves open what became of the message: it is neither a
/// refusal before any effect nor a sound response, or it is one that itself
/// says so.
pub open spec fn ambiguous(reply: DispatchReply, provider: Seq<char>) -> bool {
    match reply {
        DispatchReply::Response(response) => !sound_response(response, provider)
            || response.outcome is DeliveryUnknown,
        DispatchReply::Domain(error) => error is Unknown,
        DispatchReply::Runtime(_) => true,
    }
}

/// A reply that leaves open what became of the message is recorded as unknown,
/// never as something to try again. Unless the provider itself said so in a
/// sound response, it is answered with a runtime failure.
pub proof fn law_ambiguous_reply_is_unknown(
    aftermath: DispatchAftermath,
    work: DispatchWork,
    provider: Seq<char>,
    now: UtcTime,
    reply: DispatchReply,
)
    requires
        aftermath.settles(work, provider, now, reply),
        ambiguous(reply, provider),
    ensures
        aftermath.observed.outcome is DeliveryUnknown,
        aftermath.observed.remote_receipt is None,
        (reply matches DispatchReply::Response(response) && sound_response(response, provider))
            ==> aftermath.failure is None,
        !(reply matches DispatchReply::Response(response) && sound_response(response, provider))
            ==> (aftermath.failure matches Some(PluginError::Runtime(_))),
{
}

/// Whatever a provider replies, what is recorded of it is admitted by the
/// ledger and bound to the claimed attempt.
pub proof fn law_settled_reply_is_admitted(
    aftermath: DispatchAftermath,
    event: ObservationEnvelope,
    work: DispatchWork,
    provider: Seq<char>,
    now: UtcTime,
    reply: DispatchReply,
)
    requires
        aftermath.settles(work, provider, now, reply),
        event.source_module@ == aftermath.observed.provider@,
        crate::config::instance_key(provider),
        present(work.claim.delivery_id@, 160),
        present(work.claim.attempt_id@, 160),
        present(work.claim.run_id@, 160),
    ensures
        crate::faults::first_fault(
            dispatch_faults(aftermath.observed).push(
                source_fault(event.source_module@, aftermath.observed.provider@),
            ),
        ) is None,
        aftermath.observed.attempt_id == work.claim.attempt_id,
        aftermath.observed.delivery_id == work.claim.delivery_id,
{
    crate::requests::lemma_instance_key_is_bounded(provider);
    crate::faults::lemma_no_fault(
        dispatch_faults(aftermath.observed).push(
            source_fault(event.source_module@, aftermath.observed.provider@),
        ),
    );
}

} // verus!
