//! What observations do to the ledger.

use vstd::prelude::*;

use crate::contracts::{DispatchOutcome, EmailDispatchObserved, EmailReceiptObserved,
    OrganizationInvitationLifecycle, ReceiptKind, RuntimeFunctionTerminal};
use crate::delivery::{ObserveReceiptError, ObserveReceiptRequest};
use crate::digest::stable_id_text;
use crate::domain::{AttemptStatus, DeliveryStatus, RetryKind};
use crate::error::{ErrorCode, NotificationError, PluginError};
use crate::events::{admit_dispatch_observation, admit_receipt_observation, admit_source,
    apply_dispatch_observation, apply_invitation_lifecycle, apply_receipt, apply_runtime_terminal,
    claim_event, dispatch_faults, effect_is_in_range, event_digest, expected_payload, known_receipt,
    late_observation_is_compatible, payload_invalid, receipt_faults, require_one_row, source_fault,
    validate_dispatch_observation, validate_receipt, validate_runtime_terminal, AttemptEvidence,
    DeliveryChange, DeliveryUpdate, DispatchEffect, DispatchSettlement, DispatchTarget,
    LifecycleCandidate, LifecycleSettlement, NotificationEventHandler, ObservationEnvelope,
    PayloadKind, ReceiptSettlement, ReceiptTarget, RetryVerdict, TerminalSettlement,
    TerminalTarget};
use crate::laws::{clipped, filled, later, refused, sha256_text};
use crate::laws::boundary::{lemma_filled, lemma_sha256_text};
use crate::requests::{observe_invitation_lifecycle, observe_receipt};
use crate::time::UtcTime;
use crate::transactional::{ObserveInvitationLifecycleError, ObserveInvitationLifecycleRequest};

verus! {

/// The largest revision.
pub open spec fn last_revision() -> int {
    9_007_199_254_740_991
}

/// Whether the attempt that a dispatch observation names still waits for it.
pub open spec fn waits(target: Option<DispatchTarget>, payload: EmailDispatchObserved) -> bool {
    &&& target is Some
    &&& target->Some_0.function_run_id@ == payload.function_run_id@
    &&& target->Some_0.delivery_status@ == "attempting"@
    &&& target->Some_0.attempt_status@ == "dispatching"@
    &&& target->Some_0.revision < last_revision()
}

/// Whether a receipt came before the dispatch observation and says the same:
/// delivered what was accepted, or failed what was refused for good.
pub open spec fn comes_late(
    target: Option<DispatchTarget>,
    payload: EmailDispatchObserved,
) -> bool {
    &&& target is Some
    &&& target->Some_0.function_run_id@ == payload.function_run_id@
    &&& target->Some_0.has_receipt
    &&& (target->Some_0.delivery_status@ == "delivered"@ && payload.outcome is Accepted) || (
    target->Some_0.delivery_status@ == "failed"@ && payload.outcome is PermanentFailure)
}

proof fn lemma_words_differ()
    ensures
        "attempting"@ != "delivered"@,
        "attempting"@ != "failed"@,
        "delivered"@ != "failed"@,
        "accepted"@ != "attempting"@,
        "accepted"@ != "delivered"@,
        "accepted"@ != "failed"@,
        "queued"@ != "retry_scheduled"@,
{
    reveal_strlit("attempting");
    reveal_strlit("delivered");
    reveal_strlit("failed");
    reveal_strlit("accepted");
    reveal_strlit("queued");
    reveal_strlit("retry_scheduled");
    assert("attempting"@.len() == 10);
    assert("delivered"@.len() == 9);
    assert("failed"@.len() == 6);
    assert("accepted"@.len() == 8);
    assert("queued"@.len() == 6);
    assert("retry_scheduled"@.len() == 15);
}

/// A dispatch observation settles exactly the attempt that waits for it, and
/// adds evidence exactly where a receipt that says the same came first. Any
/// other observation is refused, with the reason that applies first.
pub proof fn law_dispatch_observation_is_for_a_waiting_attempt(
    target: Option<DispatchTarget>,
    event: &ObservationEnvelope,
    payload: &EmailDispatchObserved,
    r: Result<DispatchEffect, NotificationError>,
)
    requires
        call_ensures(apply_dispatch_observation, (target, event, payload), r),
    ensures
        (r is Ok && r->Ok_0 is Settle) <==> waits(target, *payload),
        (r is Ok && r->Ok_0 is Absorb) <==> comes_late(target, *payload),
        target is None ==> refused(
            r,
            ErrorCode::NotFound,
            "Email dispatch observation does not match a Notification attempt"@,
        ),
        target is Some && target->Some_0.function_run_id@ != payload.function_run_id@ ==> refused(
            r,
            ErrorCode::Conflict,
            "Email dispatch observation function run does not match"@,
        ),
        target is Some && target->Some_0.function_run_id@ == payload.function_run_id@ ==> {
            &&& target->Some_0.delivery_status@ != "attempting"@ && r is Err ==> refused(
                r,
                ErrorCode::Conflict,
                "Notification delivery is not waiting for a dispatch observation"@,
            )
            &&& target->Some_0.delivery_status@ == "attempting"@ && r is Err ==> refused(
                r,
                ErrorCode::Conflict,
                (if target->Some_0.attempt_status@ == "dispatching"@ {
                    "Notification delivery revision exhausted the portable wire range"@
                } else {
                    "Notification attempt already has a business observation"@
                }),
            )
        },
{
    lemma_words_differ();
}

/// Whether an update raises the revision of the delivery by one, at the given
/// instant.
pub open spec fn raises(
    update: DeliveryUpdate,
    delivery_id: Seq<char>,
    revision: i64,
    at: UtcTime,
) -> bool {
    &&& update.delivery_id@ == delivery_id
    &&& update.expected_revision == revision
    &&& update.new_revision == revision + 1
    &&& update.updated_at == at
}

/// Whether a change ends a delivery in the given status for the given reason.
pub open spec fn ends(change: DeliveryChange, status: DeliveryStatus, reason: Seq<char>) -> bool {
    change is Finalized && change->status == status && change->reason@ == reason
}

/// Whether evidence holds what an observation says, within the stored bounds.
pub open spec fn holds_what_was_said(
    evidence: AttemptEvidence,
    payload: EmailDispatchObserved,
) -> bool {
    &&& evidence.attempt_id@ == payload.attempt_id@
    &&& evidence.function_run_id@ == payload.function_run_id@
    &&& clipped(evidence.provider@, payload.provider@, 160)
    &&& evidence.completed_at == payload.observed_at
    &&& evidence.remote_receipt_id is Some <==> payload.remote_receipt is Some
    &&& evidence.remote_receipt_source is Some <==> payload.remote_receipt is Some
    &&& evidence.remote_receipt_digest is Some <==> payload.remote_receipt is Some
    &&& payload.remote_receipt is Some ==> {
        let receipt = payload.remote_receipt->Some_0;
        &&& clipped(evidence.remote_receipt_id->Some_0@, receipt.remote_id@, 320)
        &&& clipped(evidence.remote_receipt_source->Some_0@, receipt.source@, 160)
        &&& evidence.remote_receipt_digest->Some_0@ == receipt.digest@
    }
    &&& evidence.failure_code is Some <==> payload.failure is Some
    &&& evidence.failure_classification is Some <==> payload.failure is Some
    &&& payload.failure is Some ==> {
        let failure = payload.failure->Some_0;
        &&& clipped(evidence.failure_code->Some_0@, failure.code@, 160)
        &&& clipped(evidence.failure_classification->Some_0@, failure.classification@, 160)
    }
}

/// An attempt ends as the provider said: an accepted message leaves its
/// delivery accepted, a message refused for good fails it, and a message whose
/// fate is unknown leaves it unknown, with no retry and no receipt. What the
/// provider said is kept as evidence, whatever it said.
pub proof fn law_attempt_ends_as_the_provider_said(
    target: DispatchTarget,
    event: &ObservationEnvelope,
    payload: &EmailDispatchObserved,
    settlement: DispatchSettlement,
)
    requires
        call_ensures(
            apply_dispatch_observation,
            (Some(target), event, payload),
            Ok::<DispatchEffect, NotificationError>(DispatchEffect::Settle(settlement)),
        ),
    ensures
        raises(settlement.delivery, payload.delivery_id@, target.revision, payload.observed_at),
        holds_what_was_said(settlement.evidence, *payload),
        payload.outcome is Accepted <==> settlement.attempt_status is Accepted,
        payload.outcome is TemporaryFailure <==> settlement.attempt_status is TemporaryFailure,
        payload.outcome is PermanentFailure <==> settlement.attempt_status is PermanentFailure,
        payload.outcome is DeliveryUnknown <==> settlement.attempt_status is DeliveryUnknown,
        payload.outcome is Accepted <==> settlement.delivery.change is Accepted,
        payload.outcome is PermanentFailure ==> ends(
            settlement.delivery.change,
            DeliveryStatus::Failed,
            "permanent_failure"@,
        ),
        payload.outcome is DeliveryUnknown ==> ends(
            settlement.delivery.change,
            DeliveryStatus::DeliveryUnknown,
            "ambiguous_external_effect"@,
        ),
        payload.outcome is TemporaryFailure ==> settlement.delivery.change is RetryScheduled
            || ends(
            settlement.delivery.change,
            DeliveryStatus::Failed,
            "retry_exhausted"@,
        ),
        settlement.retry is Some <==> payload.outcome is TemporaryFailure,
        settlement.receipt is Some <==> payload.outcome is Accepted && payload.remote_receipt
            is Some,
        settlement.receipt is Some ==> {
            let row = settlement.receipt->Some_0;
            let remote = payload.remote_receipt->Some_0;
            &&& row.kind@ == "accepted"@
            &&& row.delivery_id@ == payload.delivery_id@
            &&& row.attempt_id@ == payload.attempt_id@
            &&& clipped(row.source@, remote.source@, 160)
            &&& clipped(row.remote_id@, remote.remote_id@, 320)
            &&& row.digest@ == remote.digest@
            &&& row.observed_at == payload.observed_at
            &&& row.recorded_at == payload.observed_at
        },
{
    lemma_words_differ();
}

/// Evidence that comes after a receipt is what the provider said.
pub proof fn law_late_evidence_is_what_the_provider_said(
    target: Option<DispatchTarget>,
    event: &ObservationEnvelope,
    payload: &EmailDispatchObserved,
    evidence: AttemptEvidence,
)
    requires
        call_ensures(
            apply_dispatch_observation,
            (target, event, payload),
            Ok::<DispatchEffect, NotificationError>(DispatchEffect::Absorb(evidence)),
        ),
    ensures
        holds_what_was_said(evidence, *payload),
{
}

/// The pause after an attempt, in milliseconds.
pub open spec fn pause_after(attempt: int) -> int {
    if attempt == 1 {
        60_000
    } else if attempt == 2 {
        300_000
    } else {
        1_800_000
    }
}

/// After a temporary failure of the first, second or third attempt, with an
/// attempt left, the next one is due after one minute, five minutes or half an
/// hour, or as much later as the provider asked for, but no more than a day for
/// its asking. Otherwise the delivery fails as exhausted. The decision is
/// stored once, under the observation that led to it.
pub proof fn law_temporary_failure_is_tried_again(
    target: DispatchTarget,
    event: &ObservationEnvelope,
    payload: &EmailDispatchObserved,
    settlement: DispatchSettlement,
)
    requires
        call_ensures(
            apply_dispatch_observation,
            (Some(target), event, payload),
            Ok::<DispatchEffect, NotificationError>(DispatchEffect::Settle(settlement)),
        ),
        payload.outcome is TemporaryFailure,
    ensures
        settlement.retry is Some,
        ({
            let retry = settlement.retry->Some_0;
            let change = settlement.delivery.change;
            let left = 1 <= target.attempt_count <= 3 && target.attempt_count
                < target.max_attempts;
            let planned = payload.observed_at.plus_millis(pause_after(target.attempt_count as int));
            let asks = payload.failure is Some && payload.failure->Some_0.retry_after_ms is Some;
            let wait = payload.failure->Some_0.retry_after_ms->Some_0;
            let asked = payload.observed_at.plus_millis(
                if wait <= 86_400_000 {
                    wait as int
                } else {
                    86_400_000
                },
            );
            &&& retry.delivery_id@ == payload.delivery_id@
            &&& retry.kind is Automatic
            &&& retry.requested_by is None
            &&& retry.source_revision == target.revision
            &&& retry.idempotency_key@ == event.id@
            &&& retry.created_at == payload.observed_at
            &&& left <==> change is RetryScheduled
            &&& left ==> {
                &&& retry.decision is Scheduled
                &&& retry.reason@ == "temporary_failure"@
                &&& retry.scheduled_at == Some(change->next_attempt_at)
                &&& change->next_attempt_at == (if asks && later(planned, asked) {
                    asked
                } else {
                    planned
                })
            }
            &&& !left ==> {
                &&& retry.decision is Rejected
                &&& retry.reason@ == "retry_exhausted"@
                &&& retry.scheduled_at is None
                &&& ends(change, DeliveryStatus::Failed, "retry_exhausted"@)
            }
        }),
{
    lemma_words_differ();
    assert(crate::domain::default_delays().len() == 3);
    let planned = payload.observed_at.plus_millis(pause_after(target.attempt_count as int));
    let wait = payload.failure->Some_0.retry_after_ms->Some_0;
    let asked = payload.observed_at.plus_millis(
        if wait <= 86_400_000 {
            wait as int
        } else {
            86_400_000
        },
    );
    if !asked.before(planned) && !later(planned, asked) {
        assert(asked == planned);
    }
}

/// A receipt ends exactly a delivery that is being attempted or was accepted,
/// by the run that attempted it. Any other receipt is refused, with the reason
/// that applies first.
pub proof fn law_receipt_is_for_an_open_delivery(
    target: Option<ReceiptTarget>,
    event: &ObservationEnvelope,
    payload: &EmailReceiptObserved,
    r: Result<ReceiptSettlement, NotificationError>,
)
    requires
        call_ensures(apply_receipt, (target, event, payload), r),
    ensures
        r is Ok <==> {
            &&& target is Some
            &&& target->Some_0.function_run_id@ == payload.function_run_id@
            &&& target->Some_0.delivery_status@ == "attempting"@ || target->Some_0.delivery_status@
                == "accepted"@
            &&& target->Some_0.revision < last_revision()
        },
        target is None ==> refused(
            r,
            ErrorCode::NotFound,
            "Email receipt does not match a Notification attempt"@,
        ),
        target is Some && target->Some_0.function_run_id@ != payload.function_run_id@ ==> refused(
            r,
            ErrorCode::Conflict,
            "Email receipt function run does not match"@,
        ),
        target is Some && target->Some_0.function_run_id@ == payload.function_run_id@ && r is Err
            ==> refused(
            r,
            ErrorCode::Conflict,
            (if target->Some_0.delivery_status@ == "attempting"@ || target->Some_0.delivery_status@
                == "accepted"@ {
                "Notification delivery revision exhausted the portable wire range"@
            } else {
                "Email receipt would regress a terminal Notification delivery"@
            }),
        ),
{
}

/// A delivery ends as delivered exactly where the receipt is one of delivery.
/// A bounced or rejected message fails it, for just that reason. The receipt is
/// stored as it was observed.
pub proof fn law_delivery_ends_as_the_receipt_says(
    target: ReceiptTarget,
    event: &ObservationEnvelope,
    payload: &EmailReceiptObserved,
    settlement: ReceiptSettlement,
)
    requires
        call_ensures(
            apply_receipt,
            (Some(target), event, payload),
            Ok::<ReceiptSettlement, NotificationError>(settlement),
        ),
    ensures
        raises(settlement.delivery, payload.delivery_id@, target.revision, payload.observed_at),
        payload.kind is Delivered <==> settlement.delivery.change is Delivered,
        payload.kind is Delivered <==> settlement.attempt_status is Accepted,
        payload.kind is Bounced ==> settlement.attempt_status is PermanentFailure && ends(
            settlement.delivery.change,
            DeliveryStatus::Failed,
            "bounced"@,
        ),
        payload.kind is Rejected ==> settlement.attempt_status is PermanentFailure && ends(
            settlement.delivery.change,
            DeliveryStatus::Failed,
            "rejected"@,
        ),
        settlement.receipt.kind@ == (if payload.kind is Delivered {
            "delivered"@
        } else if payload.kind is Bounced {
            "bounced"@
        } else {
            "rejected"@
        }),
        settlement.receipt.delivery_id@ == payload.delivery_id@,
        settlement.receipt.attempt_id@ == payload.attempt_id@,
        clipped(settlement.receipt.source@, payload.source@, 160),
        clipped(settlement.receipt.remote_id@, payload.remote_id@, 320),
        settlement.receipt.digest@ == payload.digest@,
        settlement.receipt.observed_at == payload.observed_at,
        settlement.receipt.recorded_at == event.occurred_at,
{
}

/// Where the runtime gives up on a dispatch that is still under way, the fate
/// of the message is unknown; where none is under way, nothing changes.
pub proof fn law_abandoned_dispatch_is_unknown(
    target: Option<TerminalTarget>,
    event: &ObservationEnvelope,
    payload: &RuntimeFunctionTerminal,
    r: Result<Option<TerminalSettlement>, NotificationError>,
)
    requires
        call_ensures(apply_runtime_terminal, (target, event, payload), r),
    ensures
        target is None <==> r == Ok::<Option<TerminalSettlement>, NotificationError>(None),
        r is Err <==> target is Some && target->Some_0.revision >= last_revision(),
        r is Err ==> refused(
            r,
            ErrorCode::Conflict,
            "Notification delivery revision exhausted the portable wire range"@,
        ),
        r is Ok && target is Some ==> r->Ok_0 is Some && {
            let found = target->Some_0;
            let settlement = r->Ok_0->Some_0;
            &&& settlement.attempt_id@ == found.attempt_id@
            &&& clipped(settlement.failure_code@, payload.failure_code@, 160)
            &&& settlement.failure_classification@ == payload.failure_classification@
            &&& settlement.completed_at == event.occurred_at
            &&& raises(settlement.delivery, found.delivery_id@, found.revision, event.occurred_at)
            &&& ends(
                settlement.delivery.change,
                DeliveryStatus::DeliveryUnknown,
                "provider_runtime_terminal_without_business_observation"@,
            )
        },
{
}

/// Whether a delivery is one that an invitation's end calls off: requested by
/// the observing source for that invitation, no later than the observation, and
/// still waiting for an attempt.
pub open spec fn called_off(
    candidate: LifecycleCandidate,
    source: Seq<char>,
    payload: OrganizationInvitationLifecycle,
) -> bool {
    &&& candidate.source_module@ == source
    &&& candidate.source_entity_type@ == "organization_invitation"@
    &&& candidate.source_entity_id@ == payload.invitation_id@
    &&& candidate.status@ == "queued"@ || candidate.status@ == "retry_scheduled"@
    &&& !later(payload.observed_at, candidate.requested_at)
}

/// The word for what became of an invitation.
pub open spec fn invitation_word(event_name: Seq<char>) -> Seq<char> {
    if event_name == "lenso.organization.invitation-accepted.v1"@ {
        "accepted"@
    } else if event_name == "lenso.organization.invitation-expired.v1"@ {
        "expired"@
    } else {
        "revoked"@
    }
}

/// Whether `update` calls off the delivery of `candidate`.
pub open spec fn calls_off(
    update: DeliveryUpdate,
    candidate: LifecycleCandidate,
    event: ObservationEnvelope,
) -> bool {
    &&& raises(update, candidate.delivery_id@, candidate.revision, event.occurred_at)
    &&& ends(
        update.change,
        DeliveryStatus::Failed,
        "source_invitation_"@ + invitation_word(event.event_name@),
    )
}

/// The end of an invitation calls off every delivery that still waits to
/// announce it, each once and in order, and no other delivery. What became of
/// the invitation is stored, and is the reason.
pub proof fn law_invitation_end_calls_off_what_waits(
    event: &ObservationEnvelope,
    payload: &OrganizationInvitationLifecycle,
    candidates: &Vec<LifecycleCandidate>,
    r: Result<LifecycleSettlement, NotificationError>,
)
    requires
        call_ensures(apply_invitation_lifecycle, (event, payload, candidates), r),
    ensures
        r is Err <==> exists|i: int|
            0 <= i < candidates@.len() && called_off(
                #[trigger] candidates@[i],
                event.source_module@,
                *payload,
            ) && candidates@[i].revision >= last_revision(),
        r is Err ==> refused(
            r,
            ErrorCode::Conflict,
            "Notification delivery revision exhausted the portable wire range"@,
        ),
        r is Ok ==> {
            let row = r->Ok_0.event;
            let updates = r->Ok_0.cancellations@;
            let chosen = candidates@.filter(
                |candidate: LifecycleCandidate|
                    called_off(candidate, event.source_module@, *payload),
            );
            &&& row.event_id@ == event.id@
            &&& row.source_module@ == event.source_module@
            &&& row.source_entity_type@ == "organization_invitation"@
            &&& row.source_entity_id@ == payload.invitation_id@
            &&& row.lifecycle@ == invitation_word(event.event_name@)
            &&& row.observed_at == payload.observed_at
            &&& row.recorded_at == event.occurred_at
            &&& updates.len() == chosen.len()
            &&& forall|k: int|
                0 <= k < updates.len() ==> calls_off(#[trigger] updates[k], chosen[k], *event)
            &&& forall|i: int|
                0 <= i < candidates@.len() && called_off(
                    #[trigger] candidates@[i],
                    event.source_module@,
                    *payload,
                ) ==> exists|k: int|
                    0 <= k < updates.len() && calls_off(
                        #[trigger] updates[k],
                        candidates@[i],
                        *event,
                    )
        },
{
    let ours = |candidate: LifecycleCandidate|
        called_off(candidate, event.source_module@, *payload);
    let theirs = |candidate: LifecycleCandidate|
        candidate.cancelled(event.source_module@, *payload);
    assert forall|candidate: LifecycleCandidate| called_off(
        candidate,
        event.source_module@,
        *payload,
    ) == #[trigger] candidate.cancelled(event.source_module@, *payload) by {}
    assert(ours =~= theirs);
    if r is Ok {
        let updates = r->Ok_0.cancellations@;
        let chosen = candidates@.filter(ours);
        assert forall|k: int| 0 <= k < updates.len() implies calls_off(
            #[trigger] updates[k],
            chosen[k],
            *event,
        ) by {
            assert(crate::events::cancels(updates[k], chosen[k], *event));
        }
        assert forall|i: int|
            0 <= i < candidates@.len() && called_off(
                #[trigger] candidates@[i],
                event.source_module@,
                *payload,
            ) implies exists|k: int|
            0 <= k < updates.len() && calls_off(#[trigger] updates[k], candidates@[i], *event) by {
            candidates@.lemma_filter_contains(ours, i);
            let k = chosen.index_of(candidates@[i]);
            assert(chosen[k] == candidates@[i]);
            assert(calls_off(updates[k], chosen[k], *event));
        }
    }
    if exists|i: int|
        0 <= i < candidates@.len() && called_off(
            #[trigger] candidates@[i],
            event.source_module@,
            *payload,
        ) && candidates@[i].revision >= last_revision() {
        let i = choose|i: int|
            0 <= i < candidates@.len() && called_off(
                #[trigger] candidates@[i],
                event.source_module@,
                *payload,
            ) && candidates@[i].revision >= last_revision();
        assert(candidates@[i].cancelled(event.source_module@, *payload));
    }
    if r is Err {
        let i = choose|i: int|
            0 <= i < candidates@.len() && (#[trigger] candidates@[i]).cancelled(
                event.source_module@,
                *payload,
            ) && candidates@[i].revision >= crate::domain::MAX_SAFE_WIRE_INTEGER;
        assert(called_off(candidates@[i], event.source_module@, *payload));
    }
}

/// What became of an invitation goes from the report to the ledger: an
/// accepted invitation is stored and named as accepted, an expired one as
/// expired, a revoked one as revoked.
pub proof fn law_invitation_end_is_stored_as_reported(
    caller: Option<&str>,
    allowed: &Vec<String>,
    request: ObserveInvitationLifecycleRequest,
    event: ObservationEnvelope,
    payload: OrganizationInvitationLifecycle,
    candidates: &Vec<LifecycleCandidate>,
    settlement: LifecycleSettlement,
)
    requires
        call_ensures(
            observe_invitation_lifecycle,
            (caller, allowed, request),
            Ok::<_, PluginError<ObserveInvitationLifecycleError>>((event, payload)),
        ),
        call_ensures(
            apply_invitation_lifecycle,
            (&event, &payload, candidates),
            Ok::<_, NotificationError>(settlement),
        ),
    ensures
        settlement.event.lifecycle@ == (if request.lifecycle is Accepted {
            "accepted"@
        } else if request.lifecycle is Expired {
            "expired"@
        } else {
            "revoked"@
        }),
        settlement.event.source_module@ == caller->Some_0@,
        settlement.event.source_entity_id@ == request.invitation_id@,
        settlement.event.event_id@ == request.observation_id@,
        forall|k: int|
            0 <= k < settlement.cancellations@.len() ==> ends(
                (#[trigger] settlement.cancellations@[k]).change,
                DeliveryStatus::Failed,
                "source_invitation_"@ + settlement.event.lifecycle@,
            ),
{
    reveal_strlit("lenso.organization.invitation-accepted.v1");
    reveal_strlit("lenso.organization.invitation-expired.v1");
    reveal_strlit("lenso.organization.invitation-revoked.v1");
    assert("lenso.organization.invitation-accepted.v1"@[30] == 'a');
    assert("lenso.organization.invitation-expired.v1"@[30] == 'e');
    assert("lenso.organization.invitation-revoked.v1"@[30] == 'r');
    law_invitation_end_calls_off_what_waits(
        &event,
        &payload,
        candidates,
        Ok::<LifecycleSettlement, NotificationError>(settlement),
    );
    assert forall|k: int| 0 <= k < settlement.cancellations@.len() implies ends(
        (#[trigger] settlement.cancellations@[k]).change,
        DeliveryStatus::Failed,
        "source_invitation_"@ + settlement.event.lifecycle@,
    ) by {}
}

/// A delivery that a receipt ends is delivered exactly where the observer
/// reported a delivery, and otherwise failed by the name that was reported.
pub proof fn law_delivered_only_where_a_delivery_was_reported(
    caller: Option<&str>,
    allowed: &Vec<String>,
    request: ObserveReceiptRequest,
    event: ObservationEnvelope,
    payload: EmailReceiptObserved,
    target: ReceiptTarget,
    settlement: ReceiptSettlement,
)
    requires
        call_ensures(
            observe_receipt,
            (caller, allowed, request),
            Ok::<_, PluginError<ObserveReceiptError>>((event, payload)),
        ),
        call_ensures(
            apply_receipt,
            (Some(target), &event, &payload),
            Ok::<_, NotificationError>(settlement),
        ),
    ensures
        settlement.delivery.change is Delivered <==> request.kind is Delivered,
        request.kind is Bounced ==> ends(
            settlement.delivery.change,
            DeliveryStatus::Failed,
            "bounced"@,
        ),
        request.kind is Rejected ==> ends(
            settlement.delivery.change,
            DeliveryStatus::Failed,
            "rejected"@,
        ),
        settlement.delivery.delivery_id@ == request.delivery_id@,
        settlement.receipt.attempt_id@ == request.attempt_id@,
        settlement.receipt.digest@ == request.digest@,
        clipped(settlement.receipt.source@, caller->Some_0@, 160),
        clipped(settlement.receipt.remote_id@, request.remote_id@, 320),
        target.function_run_id@ == request.run_id@,
{
}

/// A change leaves its delivery in the status that it names, and ends it with
/// a reason exactly where it is the last one.
pub proof fn law_change_names_its_status(
    change: &DeliveryChange,
    status: DeliveryStatus,
    reason: Option<&str>,
)
    requires
        call_ensures(DeliveryChange::new_status, (change,), status),
        call_ensures(DeliveryChange::final_reason, (change,), reason),
    ensures
        change is Accepted ==> status is Accepted && reason is None,
        change is RetryScheduled ==> status is RetryScheduled && reason is None,
        change is Delivered ==> status is Delivered && reason is Some && reason->Some_0@
            == "authoritative_delivery_receipt"@,
        change is Finalized ==> status == change->status && reason is Some && reason->Some_0@
            == change->reason@,
{
}

/// One name, one stored word.
pub proof fn law_words_of_the_ledger(
    outcome: DispatchOutcome,
    outcome_word: &'static str,
    kind: ReceiptKind,
    kind_word: &'static str,
    attempt: AttemptStatus,
    attempt_word: &'static str,
    retry: RetryKind,
    retry_word: &'static str,
    verdict: RetryVerdict,
    verdict_word: &'static str,
)
    requires
        call_ensures(DispatchOutcome::as_str, (outcome,), outcome_word),
        call_ensures(ReceiptKind::as_str, (kind,), kind_word),
        call_ensures(AttemptStatus::as_str, (attempt,), attempt_word),
        call_ensures(RetryKind::as_str, (retry,), retry_word),
        call_ensures(RetryVerdict::as_str, (verdict,), verdict_word),
    ensures
        outcome is Accepted ==> outcome_word@ == "accepted"@,
        outcome is TemporaryFailure ==> outcome_word@ == "temporary_failure"@,
        outcome is PermanentFailure ==> outcome_word@ == "permanent_failure"@,
        outcome is DeliveryUnknown ==> outcome_word@ == "delivery_unknown"@,
        kind is Delivered ==> kind_word@ == "delivered"@,
        kind is Bounced ==> kind_word@ == "bounced"@,
        kind is Rejected ==> kind_word@ == "rejected"@,
        attempt is Dispatching ==> attempt_word@ == "dispatching"@,
        attempt is Accepted ==> attempt_word@ == "accepted"@,
        attempt is TemporaryFailure ==> attempt_word@ == "temporary_failure"@,
        attempt is PermanentFailure ==> attempt_word@ == "permanent_failure"@,
        attempt is DeliveryUnknown ==> attempt_word@ == "delivery_unknown"@,
        retry is Automatic ==> retry_word@ == "automatic"@,
        retry is Manual ==> retry_word@ == "manual"@,
        verdict is Scheduled ==> verdict_word@ == "scheduled"@,
        verdict is Rejected ==> verdict_word@ == "rejected"@,
{
}

/// An attempt goes by the word of the outcome that ended it.
pub proof fn law_attempt_goes_by_its_outcome(
    target: DispatchTarget,
    event: &ObservationEnvelope,
    payload: &EmailDispatchObserved,
    settlement: DispatchSettlement,
    outcome_word: &'static str,
    attempt_word: &'static str,
)
    requires
        call_ensures(
            apply_dispatch_observation,
            (Some(target), event, payload),
            Ok::<DispatchEffect, NotificationError>(DispatchEffect::Settle(settlement)),
        ),
        call_ensures(DispatchOutcome::as_str, (payload.outcome,), outcome_word),
        call_ensures(AttemptStatus::as_str, (settlement.attempt_status,), attempt_word),
    ensures
        outcome_word@ == attempt_word@,
{
    lemma_words_differ();
}

/// An observation is consumed once: the first is new, the same again is a
/// replay, and other content under the same id is a conflict.
pub proof fn law_observation_is_new_or_the_same(
    consumed: Option<&str>,
    digest: &str,
    r: Result<bool, NotificationError>,
)
    requires
        call_ensures(claim_event, (consumed, digest), r),
    ensures
        consumed is None <==> r == Ok::<bool, NotificationError>(false),
        consumed is Some && consumed->Some_0@ == digest@ <==> r == Ok::<bool, NotificationError>(
            true,
        ),
        r is Err ==> refused(
            r,
            ErrorCode::Conflict,
            "Notification Event id was replayed with different content"@,
        ),
{
}

/// A receipt is recorded once: the first is new, the same again is known, and
/// another digest under the same identity is a conflict.
pub proof fn law_receipt_is_new_or_the_same(
    recorded: Option<&str>,
    payload: &EmailReceiptObserved,
    r: Result<bool, NotificationError>,
)
    requires
        call_ensures(known_receipt, (recorded, payload), r),
    ensures
        recorded is None <==> r == Ok::<bool, NotificationError>(false),
        recorded is Some && recorded->Some_0@ == payload.digest@ <==> r == Ok::<
            bool,
            NotificationError,
        >(true),
        r is Err ==> refused(
            r,
            ErrorCode::Conflict,
            "Email receipt identity was replayed with a different digest"@,
        ),
{
}

/// An update holds where it changed one row, and is a conflict where it
/// changed none or several.
pub proof fn law_update_changes_one_row(
    rows: u64,
    message: &str,
    r: Result<(), NotificationError>,
)
    requires
        call_ensures(require_one_row, (rows, message), r),
    ensures
        rows == 1 ==> r is Ok,
        rows != 1 ==> refused(r, ErrorCode::Conflict, message@),
{
}

/// An event is taken by the handler of its name, in version 1, and by no other;
/// what it carries goes by the name.
pub proof fn law_event_goes_to_its_handler(
    handler: &NotificationEventHandler,
    event: &ObservationEnvelope,
    r: Result<PayloadKind, NotificationError>,
)
    requires
        call_ensures(NotificationEventHandler::handle, (handler, event), r),
    ensures
        event.event_name@ != handler.event_name@ || event.event_version != 1 ==> refused(
            r,
            ErrorCode::Validation,
            "Notification received an undeclared Event contract"@,
        ),
        event.event_name@ == handler.event_name@ && event.event_version == 1 ==> {
            &&& event.event_name@ == "lenso.email.dispatch-observed.v1"@ ==> r == Ok::<
                PayloadKind,
                NotificationError,
            >(PayloadKind::Dispatch)
            &&& event.event_name@ == "lenso.email.receipt-observed.v1"@ ==> r == Ok::<
                PayloadKind,
                NotificationError,
            >(PayloadKind::Receipt)
            &&& event.event_name@ == "lenso.runtime-function-terminal.v1"@ ==> r == Ok::<
                PayloadKind,
                NotificationError,
            >(PayloadKind::RuntimeTerminal)
            &&& event.event_name@ == "lenso.organization.invitation-accepted.v1"@
                || event.event_name@ == "lenso.organization.invitation-expired.v1"@
                || event.event_name@ == "lenso.organization.invitation-revoked.v1"@ ==> r == Ok::<
                PayloadKind,
                NotificationError,
            >(PayloadKind::InvitationLifecycle)
            &&& r is Ok ==> event.event_name@ == "lenso.email.dispatch-observed.v1"@
                || event.event_name@ == "lenso.email.receipt-observed.v1"@ || event.event_name@
                == "lenso.runtime-function-terminal.v1"@ || event.event_name@
                == "lenso.organization.invitation-accepted.v1"@ || event.event_name@
                == "lenso.organization.invitation-expired.v1"@ || event.event_name@
                == "lenso.organization.invitation-revoked.v1"@
            &&& r is Err ==> refused(
                r,
                ErrorCode::Validation,
                "Notification Event handler is misconfigured"@,
            )
        },
{
    reveal_strlit("lenso.email.dispatch-observed.v1");
    reveal_strlit("lenso.email.receipt-observed.v1");
    reveal_strlit("lenso.runtime-function-terminal.v1");
    reveal_strlit("lenso.organization.invitation-accepted.v1");
    reveal_strlit("lenso.organization.invitation-expired.v1");
    reveal_strlit("lenso.organization.invitation-revoked.v1");
    assert("lenso.email.dispatch-observed.v1"@.len() == 32);
    assert("lenso.email.receipt-observed.v1"@.len() == 31);
    assert("lenso.runtime-function-terminal.v1"@.len() == 34);
    assert("lenso.organization.invitation-accepted.v1"@.len() == 41);
    assert("lenso.organization.invitation-expired.v1"@.len() == 40);
    assert("lenso.organization.invitation-revoked.v1"@.len() == 40);
}

/// Each handler handles its own event under its own name.
pub proof fn law_handlers_are_named(
    dispatch: NotificationEventHandler,
    receipt: NotificationEventHandler,
    terminal: NotificationEventHandler,
    accepted: NotificationEventHandler,
    revoked: NotificationEventHandler,
)
    requires
        call_ensures(NotificationEventHandler::dispatch_observed, (), dispatch),
        call_ensures(NotificationEventHandler::receipt_observed, (), receipt),
        call_ensures(NotificationEventHandler::runtime_terminal, (), terminal),
        call_ensures(NotificationEventHandler::invitation_accepted, (), accepted),
        call_ensures(NotificationEventHandler::invitation_revoked, (), revoked),
    ensures
        dispatch.handler_name@ == "notification.apply-email-dispatch-observation.v1"@,
        dispatch.event_name@ == "lenso.email.dispatch-observed.v1"@,
        receipt.handler_name@ == "notification.apply-email-receipt.v1"@,
        receipt.event_name@ == "lenso.email.receipt-observed.v1"@,
        terminal.handler_name@ == "notification.apply-runtime-terminal.v1"@,
        terminal.event_name@ == "lenso.runtime-function-terminal.v1"@,
        accepted.handler_name@ == "notification.apply-invitation-accepted.v1"@,
        accepted.event_name@ == "lenso.organization.invitation-accepted.v1"@,
        revoked.handler_name@ == "notification.apply-invitation-revoked.v1"@,
        revoked.event_name@ == "lenso.organization.invitation-revoked.v1"@,
{
}

/// A dispatch observation is let in from the provider that it reports, with its
/// identities and its evidence within bounds, and with a failure wherever the
/// message was not accepted; nothing else is let in, and nothing more is asked.
pub proof fn law_dispatch_observation_is_let_in(
    event: &ObservationEnvelope,
    payload: &EmailDispatchObserved,
    r: Result<(), NotificationError>,
)
    requires
        call_ensures(admit_dispatch_observation, (event, payload), r),
    ensures
        r is Ok <==> {
            &&& event.source_module@ == payload.provider@
            &&& filled(payload.provider@, 1, 160)
            &&& 1 <= payload.delivery_id@.len() <= 160
            &&& 1 <= payload.attempt_id@.len() <= 160
            &&& 1 <= payload.function_run_id@.len() <= 160
            &&& payload.outcome is Accepted || payload.failure is Some
            &&& payload.remote_receipt is Some ==> {
                &&& sha256_text(payload.remote_receipt->Some_0.digest@)
                &&& payload.remote_receipt->Some_0.remote_id@.len() <= 320
                &&& payload.remote_receipt->Some_0.source@.len() <= 160
            }
        },
        r is Err ==> r->Err_0.code is Validation && r->Err_0.source is None,
        payload.provider@.len() == 0 || payload.provider@.len() > 160 ==> refused(
            r,
            ErrorCode::Validation,
            "Email dispatch observation provider is invalid"@,
        ),
        r is Err && 1 <= payload.provider@.len() <= 160 ==> refused(
            r,
            ErrorCode::Validation,
            (if !(1 <= payload.delivery_id@.len() <= 160) {
                "Email dispatch observation deliveryId is invalid"@
            } else if !(1 <= payload.attempt_id@.len() <= 160) {
                "Email dispatch observation attemptId is invalid"@
            } else if !(1 <= payload.function_run_id@.len() <= 160) {
                "Email dispatch observation functionRunId is invalid"@
            } else if payload.outcome !is Accepted && payload.failure is None {
                "Email failure observation requires sanitized failure metadata"@
            } else if payload.remote_receipt is Some && !sha256_text(
                payload.remote_receipt->Some_0.digest@,
            ) {
                "Email evidence digest is invalid"@
            } else if payload.remote_receipt is Some && !(
            payload.remote_receipt->Some_0.remote_id@.len() <= 320
                && payload.remote_receipt->Some_0.source@.len() <= 160) {
                "Email remote receipt metadata exceeds bounds"@
            } else if !filled(event.source_module@, 1, 160) {
                "Notification observation source is invalid"@
            } else {
                "Notification observation source does not match its payload"@
            }),
        ),
{
    let faults = dispatch_faults(*payload).push(
        source_fault(event.source_module@, payload.provider@),
    );
    lemma_filled(event.source_module@, 1, 160);
    lemma_filled(payload.provider@, 1, 160);
    if payload.remote_receipt is Some {
        lemma_sha256_text(payload.remote_receipt->Some_0.digest@);
    }
    if r is Ok {
        crate::faults::lemma_every_fault_is_found(faults);
        assert(faults[0] is None);
        assert(faults[1] is None);
        assert(faults[2] is None);
        assert(faults[3] is None);
        assert(faults[4] is None);
        assert(faults[5] is None);
        assert(faults[6] is None);
        assert(faults[7] is None);
    } else {
        lemma_first_of_eight(faults);
        if faults[7] is None {
            assert(faults[0] is Some || faults[1] is Some || faults[2] is Some || faults[3] is Some
                || faults[4] is Some || faults[5] is Some || faults[6] is Some);
        }
    }
}

proof fn lemma_first_of_eight(faults: Seq<Option<Seq<char>>>)
    requires
        faults.len() == 8,
    ensures
        crate::faults::first_fault(faults) == (if faults[0] is Some {
            faults[0]
        } else if faults[1] is Some {
            faults[1]
        } else if faults[2] is Some {
            faults[2]
        } else if faults[3] is Some {
            faults[3]
        } else if faults[4] is Some {
            faults[4]
        } else if faults[5] is Some {
            faults[5]
        } else if faults[6] is Some {
            faults[6]
        } else {
            faults[7]
        }),
{
    if faults[0] is Some {
        crate::faults::lemma_first_fault_at(faults, 0);
    } else if faults[1] is Some {
        crate::faults::lemma_first_fault_at(faults, 1);
    } else if faults[2] is Some {
        crate::faults::lemma_first_fault_at(faults, 2);
    } else if faults[3] is Some {
        crate::faults::lemma_first_fault_at(faults, 3);
    } else if faults[4] is Some {
        crate::faults::lemma_first_fault_at(faults, 4);
    } else if faults[5] is Some {
        crate::faults::lemma_first_fault_at(faults, 5);
    } else if faults[6] is Some {
        crate::faults::lemma_first_fault_at(faults, 6);
    } else if faults[7] is Some {
        crate::faults::lemma_first_fault_at(faults, 7);
    } else {
        crate::faults::lemma_no_fault(faults);
    }
}

/// A receipt is let in from the observer that it names, with its digest and its
/// identity within bounds; nothing else is let in, and nothing more is asked.
pub proof fn law_receipt_is_let_in(
    event: &ObservationEnvelope,
    payload: &EmailReceiptObserved,
    r: Result<(), NotificationError>,
)
    requires
        call_ensures(admit_receipt_observation, (event, payload), r),
    ensures
        r is Ok <==> {
            &&& event.source_module@ == payload.source@
            &&& filled(payload.source@, 1, 160)
            &&& 1 <= payload.remote_id@.len() <= 320
            &&& sha256_text(payload.digest@)
        },
        r is Err ==> refused(
            r,
            ErrorCode::Validation,
            (if !sha256_text(payload.digest@) {
                "Email evidence digest is invalid"@
            } else if !(1 <= payload.remote_id@.len() <= 320 && 1 <= payload.source@.len()
                <= 160) {
                "Email receipt identity is invalid"@
            } else if !filled(event.source_module@, 1, 160) {
                "Notification observation source is invalid"@
            } else {
                "Notification observation source does not match its payload"@
            }),
        ),
{
    let faults = receipt_faults(*payload).push(source_fault(event.source_module@, payload.source@));
    lemma_filled(event.source_module@, 1, 160);
    lemma_filled(payload.source@, 1, 160);
    lemma_sha256_text(payload.digest@);
    if r is Ok {
        crate::faults::lemma_every_fault_is_found(faults);
        assert(faults[0] is None);
        assert(faults[1] is None);
        assert(faults[2] is None);
    } else {
        if faults[0] is Some {
            crate::faults::lemma_first_fault_at(faults, 0);
        } else if faults[1] is Some {
            crate::faults::lemma_first_fault_at(faults, 1);
        } else if faults[2] is Some {
            crate::faults::lemma_first_fault_at(faults, 2);
        } else {
            crate::faults::lemma_no_fault(faults);
        }
    }
}

/// Only the death of an email dispatch is let in as the end of a run.
pub proof fn law_only_a_dead_dispatch_is_let_in(
    payload: &RuntimeFunctionTerminal,
    r: Result<(), NotificationError>,
)
    requires
        call_ensures(validate_runtime_terminal, (payload,), r),
    ensures
        r is Ok <==> {
            &&& payload.owner_module@ == "lenso/email-delivery"@
            &&& payload.function_name@ == "lenso.email.dispatch.v1"@
            &&& payload.terminal_state@ == "dead"@
            &&& payload.failure_classification@ == "permanent_failure"@
                || payload.failure_classification@ == "retry_exhausted"@
        },
        r is Err ==> refused(
            r,
            ErrorCode::Validation,
            "Runtime terminal observation is not for the Email dispatch contract"@,
        ),
{
}

/// An observation without an origin of its own is let in from any source that
/// is named in 1 to 160 characters.
pub proof fn law_named_source_is_let_in(
    event: &ObservationEnvelope,
    r: Result<(), NotificationError>,
)
    requires
        call_ensures(admit_source, (event,), r),
    ensures
        r is Ok <==> filled(event.source_module@, 1, 160),
        r is Err ==> refused(
            r,
            ErrorCode::Validation,
            "Notification observation source is invalid"@,
        ),
{
    lemma_filled(event.source_module@, 1, 160);
}

/// A handler takes the events of its own name; a payload that does not decode
/// is told with its cause.
pub proof fn law_payload_goes_by_the_event(
    handler: &NotificationEventHandler,
    event: &ObservationEnvelope,
    handled: Result<PayloadKind, NotificationError>,
    name: &str,
    expected: Result<PayloadKind, NotificationError>,
    cause: &str,
    error: NotificationError,
    encoded: &[u8],
    digest: String,
)
    requires
        call_ensures(NotificationEventHandler::handle, (handler, event), handled),
        name@ == handler.event_name@,
        call_ensures(expected_payload, (name, event), expected),
        call_ensures(payload_invalid, (cause,), error),
        call_ensures(event_digest, (encoded,), digest),
    ensures
        handled is Ok <==> expected is Ok,
        handled is Ok ==> handled->Ok_0 == expected->Ok_0,
        handled is Err ==> handled->Err_0.message@ == expected->Err_0.message@,
        error.code is Validation,
        error.message@ == "Notification Event payload is invalid"@,
        error.source is Some && error.source->Some_0@ == cause@,
        digest@ == crate::laws::storing::digest_of(encoded@),
{
}

/// An observation is let in exactly where it is sound in itself and its source
/// is the one that it names.
pub proof fn law_sound_observation_of_its_source_is_let_in(
    event: &ObservationEnvelope,
    dispatch: &EmailDispatchObserved,
    dispatch_sound: Result<(), NotificationError>,
    dispatch_let_in: Result<(), NotificationError>,
    receipt: &EmailReceiptObserved,
    receipt_sound: Result<(), NotificationError>,
    receipt_let_in: Result<(), NotificationError>,
)
    requires
        call_ensures(validate_dispatch_observation, (dispatch,), dispatch_sound),
        call_ensures(admit_dispatch_observation, (event, dispatch), dispatch_let_in),
        call_ensures(validate_receipt, (receipt,), receipt_sound),
        call_ensures(admit_receipt_observation, (event, receipt), receipt_let_in),
    ensures
        dispatch_let_in is Ok <==> dispatch_sound is Ok && filled(event.source_module@, 1, 160)
            && event.source_module@ == dispatch.provider@,
        dispatch_sound is Err ==> dispatch_let_in is Err && dispatch_let_in->Err_0.message@
            == dispatch_sound->Err_0.message@,
        receipt_let_in is Ok <==> receipt_sound is Ok && filled(event.source_module@, 1, 160)
            && event.source_module@ == receipt.source@,
        receipt_sound is Err ==> receipt_let_in is Err && receipt_let_in->Err_0.message@
            == receipt_sound->Err_0.message@,
{
    lemma_filled(event.source_module@, 1, 160);
    crate::faults::lemma_first_fault_push(
        dispatch_faults(*dispatch),
        source_fault(event.source_module@, dispatch.provider@),
    );
    crate::faults::lemma_first_fault_push(
        receipt_faults(*receipt),
        source_fault(event.source_module@, receipt.source@),
    );
}

/// After a receipt, only an observation that says the same is taken.
pub proof fn law_late_observation_says_the_same(
    status: &str,
    has_receipt: bool,
    outcome: DispatchOutcome,
    r: bool,
)
    requires
        call_ensures(late_observation_is_compatible, (status, has_receipt, outcome), r),
    ensures
        outcome is Accepted ==> (r <==> has_receipt && status@ == "delivered"@),
        outcome is PermanentFailure ==> (r <==> has_receipt && status@ == "failed"@),
        outcome is TemporaryFailure || outcome is DeliveryUnknown ==> !r,
{
}

/// Only a temporary failure of a waiting attempt can lead past the calendar, and
/// only near its end.
pub proof fn law_effects_stay_in_the_calendar(
    target: &Option<DispatchTarget>,
    payload: &EmailDispatchObserved,
    r: bool,
)
    requires
        call_ensures(effect_is_in_range, (target, payload), r),
    ensures
        !(payload.outcome is TemporaryFailure) ==> r,
        !waits(*target, *payload) && !comes_late(*target, *payload) ==> r,
        payload.observed_at.nanos < 1_000_000_000 && -8_334_601_228_800
            <= payload.observed_at.seconds < 8_210_266_876_799 - 86_400 ==> r,
{
    lemma_words_differ();
    assert(crate::domain::default_delays().len() == 3);
}

/// A receipt is stored under the name of its source, its remote id and its kind,
/// and an automatic retry under that of the observation that led to it: the
/// same again has the same name.
pub proof fn law_records_are_named_by_what_they_record(
    target: DispatchTarget,
    event: &ObservationEnvelope,
    payload: &EmailDispatchObserved,
    settlement: DispatchSettlement,
    receipt_target: ReceiptTarget,
    receipt_event: &ObservationEnvelope,
    receipt: &EmailReceiptObserved,
    kind: &'static str,
    receipt_settlement: ReceiptSettlement,
)
    requires
        call_ensures(
            apply_dispatch_observation,
            (Some(target), event, payload),
            Ok::<DispatchEffect, NotificationError>(DispatchEffect::Settle(settlement)),
        ),
        call_ensures(
            apply_receipt,
            (Some(receipt_target), receipt_event, receipt),
            Ok::<ReceiptSettlement, NotificationError>(receipt_settlement),
        ),
        call_ensures(ReceiptKind::as_str, (receipt.kind,), kind),
    ensures
        settlement.receipt is Some ==> settlement.receipt->Some_0.id@ == stable_id_text(
            "ntf_rcp"@,
            payload.remote_receipt->Some_0.source@ + ":"@
                + payload.remote_receipt->Some_0.remote_id@ + ":"@ + "accepted"@,
        ),
        settlement.retry is Some ==> settlement.retry->Some_0.id@ == stable_id_text(
            "ntf_rty"@,
            event.id@,
        ),
        receipt_settlement.receipt.id@ == stable_id_text(
            "ntf_rcp"@,
            receipt.source@ + ":"@ + receipt.remote_id@ + ":"@ + kind@,
        ),
{
    lemma_words_differ();
}

} // verus!
