//! How observations are consumed, and what tells one from another.

use vstd::prelude::*;
use vstd::utf8::*;

use crate::consumption::{advance_consumption, begin_consumption, ConsumptionEvent, ConsumptionStage,
    ConsumptionStep, Observation};
use crate::contracts::{EmailDispatchObserved, EmailReceiptObserved, OrganizationInvitationLifecycle,
    RuntimeFunctionTerminal};
use crate::error::{ErrorCode, NotificationError};
use crate::events::{admit_dispatch_observation, admit_receipt_observation, admit_source,
    validate_runtime_terminal, DispatchTarget, LifecycleCandidate, ObservationEnvelope,
    ReceiptTarget, TerminalTarget};
use crate::json::{json_compact, json_quoted};
use crate::laws::observing::{called_off, calls_off, comes_late, ends, holds_what_was_said,
    invitation_word, last_revision, raises, waits};
use crate::laws::storing::digest_of;
use crate::observation::observation_digest;
use crate::text::signed_decimal_text;
use crate::time::UtcTime;

verus! {

/// Whether the observation was refused with the given code and text.
pub open spec fn turned_away(step: ConsumptionStep, code: ErrorCode, text: Seq<char>) -> bool {
    &&& step is Answer
    &&& step->Answer_0 is Err
    &&& step->Answer_0->Err_0.code == code
    &&& step->Answer_0->Err_0.message@ == text
    &&& step->Answer_0->Err_0.source is None
}

/// The digest of an observation is taken over its id, name, version, source,
/// aggregate and compact payload, and not over when it occurred; a payload that
/// is no JSON has none.
pub proof fn law_observation_is_told_by_its_content(
    event: &ObservationEnvelope,
    payload: &str,
    digest: Option<String>,
)
    requires
        call_ensures(observation_digest, (event, payload), digest),
    ensures
        digest is Some <==> json_compact(payload@) is Some,
        digest is Some ==> digest->Some_0@ == digest_of(
            encode_utf8(
                "{\"id\":"@ + json_quoted(event.id@) + ",\"name\":"@ + json_quoted(
                    event.event_name@,
                ) + ",\"version\":"@ + signed_decimal_text(event.event_version as int)
                    + ",\"source\":"@ + json_quoted(event.source_module@) + ",\"aggregateId\":"@
                    + json_quoted(event.aggregate_id@) + ",\"payload\":"@ + json_compact(
                    payload@,
                )->Some_0 + "}"@,
            ),
        ),
{
}

/// Two observations with the same content have the same digest, whenever each
/// occurred.
pub proof fn law_when_it_occurred_makes_no_difference(
    a: &ObservationEnvelope,
    b: &ObservationEnvelope,
    payload: &str,
    a_digest: Option<String>,
    b_digest: Option<String>,
)
    requires
        a.id@ == b.id@,
        a.event_name@ == b.event_name@,
        a.event_version == b.event_version,
        a.source_module@ == b.source_module@,
        a.aggregate_id@ == b.aggregate_id@,
        call_ensures(observation_digest, (a, payload), a_digest),
        call_ensures(observation_digest, (b, payload), b_digest),
    ensures
        a_digest is Some <==> b_digest is Some,
        a_digest is Some ==> a_digest->Some_0@ == b_digest->Some_0@,
{
}

/// An observation is consumed at the instant that it was observed; the end of a
/// run at the instant that it occurred.
pub proof fn law_observation_counts_from_when_it_was_observed(
    observation: &Observation,
    envelope: &ObservationEnvelope,
    at: UtcTime,
)
    requires
        call_ensures(Observation::consumed_at, (observation, envelope), at),
    ensures
        *observation matches Observation::Dispatch(payload) ==> at == payload.observed_at,
        *observation matches Observation::Receipt(payload) ==> at == payload.observed_at,
        *observation matches Observation::Lifecycle(payload) ==> at == payload.observed_at,
        *observation is Terminal ==> at == envelope.occurred_at,
{
}

/// An observation is consumed only where it is let in, by the rule for what it
/// tells; what it is refused for is the answer. It is then claimed under the
/// digest of its content.
pub proof fn law_observation_is_let_in_before_it_is_claimed(
    envelope: &ObservationEnvelope,
    payload: &str,
    observation: Observation,
    step: ConsumptionStep,
    verdict: Result<(), NotificationError>,
    digest: Option<String>,
)
    requires
        call_ensures(begin_consumption, (envelope, payload, observation), step),
        match observation {
            Observation::Dispatch(told) => call_ensures(
                admit_dispatch_observation,
                (envelope, &told),
                verdict,
            ),
            Observation::Receipt(told) => call_ensures(
                admit_receipt_observation,
                (envelope, &told),
                verdict,
            ),
            Observation::Terminal(told) => call_ensures(
                validate_runtime_terminal,
                (&told,),
                verdict,
            ),
            Observation::Lifecycle(_) => call_ensures(admit_source, (envelope,), verdict),
        },
        call_ensures(observation_digest, (envelope, payload), digest),
    ensures
        verdict is Err ==> turned_away(step, ErrorCode::Validation, verdict->Err_0.message@),
        verdict is Ok && digest is None ==> turned_away(
            step,
            ErrorCode::Internal,
            "Notification Event cannot be hashed"@,
        ),
        verdict is Ok && digest is Some ==> step is Go && step->Go_0 is Claim
            && step->Go_0->Claim_observation == observation && step->Go_0->Claim_digest@
            == digest->Some_0@,
{
}

/// A new observation goes on to what it is about, a receipt by way of its
/// identity; the same again changes nothing; and other content under the same
/// id is a conflict.
pub proof fn law_claimed_observation_goes_on(
    observation: Observation,
    digest: String,
    recorded: Option<String>,
    envelope: &ObservationEnvelope,
    step: ConsumptionStep,
)
    requires
        call_ensures(
            advance_consumption,
            (
                ConsumptionStage::Claim { observation, digest },
                ConsumptionEvent::Claimed(recorded),
                envelope,
            ),
            step,
        ),
    ensures
        recorded is None && observation is Receipt ==> step == ConsumptionStep::Go(
            ConsumptionStage::Identify { receipt: observation->Receipt_0 },
        ),
        recorded is None && !(observation is Receipt) ==> step == ConsumptionStep::Go(
            ConsumptionStage::Find { observation },
        ),
        recorded is Some && recorded->Some_0@ == digest@ ==> step == ConsumptionStep::Go(
            ConsumptionStage::Commit,
        ),
        recorded is Some && recorded->Some_0@ != digest@ ==> turned_away(
            step,
            ErrorCode::Conflict,
            "Notification Event id was replayed with different content"@,
        ),
{
}

/// A new receipt goes on to its attempt, a known one changes nothing, and
/// another digest under the same identity is a conflict.
pub proof fn law_identified_receipt_goes_on(
    receipt: EmailReceiptObserved,
    known: Option<String>,
    envelope: &ObservationEnvelope,
    step: ConsumptionStep,
)
    requires
        call_ensures(
            advance_consumption,
            (
                ConsumptionStage::Identify { receipt },
                ConsumptionEvent::Identified(known),
                envelope,
            ),
            step,
        ),
    ensures
        known is None ==> step == ConsumptionStep::Go(
            ConsumptionStage::Find { observation: Observation::Receipt(receipt) },
        ),
        known is Some && known->Some_0@ == receipt.digest@ ==> step == ConsumptionStep::Go(
            ConsumptionStage::Commit,
        ),
        known is Some && known->Some_0@ != receipt.digest@ ==> turned_away(
            step,
            ErrorCode::Conflict,
            "Email receipt identity was replayed with a different digest"@,
        ),
{
}

/// A dispatch observation has the effect on what was found that its outcome
/// calls for, and only where an attempt waits for it or a receipt came first.
pub proof fn law_found_attempt_is_settled(
    payload: EmailDispatchObserved,
    target: Option<DispatchTarget>,
    envelope: &ObservationEnvelope,
    step: ConsumptionStep,
)
    requires
        call_ensures(
            advance_consumption,
            (
                ConsumptionStage::Find { observation: Observation::Dispatch(payload) },
                ConsumptionEvent::FoundDispatch(target),
                envelope,
            ),
            step,
        ),
    ensures
        waits(target, payload) ==> step is Go && step->Go_0 is Store && step->Go_0->Store_effect
            is Dispatch && {
            let settlement = step->Go_0->Store_effect->Dispatch_0;
            let change = settlement.delivery.change;
            &&& raises(
                settlement.delivery,
                payload.delivery_id@,
                target->Some_0.revision,
                payload.observed_at,
            )
            &&& holds_what_was_said(settlement.evidence, payload)
            &&& payload.outcome is Accepted <==> change is Accepted
            &&& payload.outcome is TemporaryFailure <==> settlement.retry is Some
            &&& payload.outcome is PermanentFailure ==> ends(
                change,
                crate::domain::DeliveryStatus::Failed,
                "permanent_failure"@,
            )
            &&& payload.outcome is DeliveryUnknown ==> ends(
                change,
                crate::domain::DeliveryStatus::DeliveryUnknown,
                "ambiguous_external_effect"@,
            )
        },
        comes_late(target, payload) ==> step is Go && step->Go_0 is Store
            && step->Go_0->Store_effect is Absorbed && holds_what_was_said(
            step->Go_0->Store_effect->Absorbed_0,
            payload,
        ),
        !waits(target, payload) && !comes_late(target, payload) ==> step is Answer
            && step->Answer_0 is Err,
{
    reveal_strlit("attempting");
    reveal_strlit("delivered");
    reveal_strlit("failed");
    assert("attempting"@.len() == 10);
    assert("delivered"@.len() == 9);
    assert("failed"@.len() == 6);
}

/// A receipt ends what was found, as the receipt says, where it is still open.
pub proof fn law_found_delivery_is_ended_by_its_receipt(
    payload: EmailReceiptObserved,
    target: Option<ReceiptTarget>,
    envelope: &ObservationEnvelope,
    step: ConsumptionStep,
)
    requires
        call_ensures(
            advance_consumption,
            (
                ConsumptionStage::Find { observation: Observation::Receipt(payload) },
                ConsumptionEvent::FoundReceipt(target),
                envelope,
            ),
            step,
        ),
    ensures
        ({
            let open = target is Some && target->Some_0.function_run_id@
                == payload.function_run_id@ && (target->Some_0.delivery_status@ == "attempting"@
                || target->Some_0.delivery_status@ == "accepted"@) && target->Some_0.revision
                < last_revision();
            &&& open ==> step is Go && step->Go_0 is Store && step->Go_0->Store_effect is Receipt
                && {
                let settlement = step->Go_0->Store_effect->Receipt_0;
                &&& raises(
                    settlement.delivery,
                    payload.delivery_id@,
                    target->Some_0.revision,
                    payload.observed_at,
                )
                &&& payload.kind is Delivered <==> settlement.delivery.change is Delivered
                &&& settlement.receipt.digest@ == payload.digest@
                &&& settlement.receipt.recorded_at == envelope.occurred_at
            }
            &&& !open ==> step is Answer && step->Answer_0 is Err
        }),
{
}

/// A run that ended without an observation leaves its delivery unknown; where
/// no attempt was under way, nothing is stored.
pub proof fn law_found_run_is_unknown(
    payload: RuntimeFunctionTerminal,
    target: Option<TerminalTarget>,
    envelope: &ObservationEnvelope,
    step: ConsumptionStep,
)
    requires
        call_ensures(
            advance_consumption,
            (
                ConsumptionStage::Find { observation: Observation::Terminal(payload) },
                ConsumptionEvent::FoundRun(target),
                envelope,
            ),
            step,
        ),
    ensures
        target is None ==> step == ConsumptionStep::Go(ConsumptionStage::Commit),
        target is Some && target->Some_0.revision >= last_revision() ==> turned_away(
            step,
            ErrorCode::Conflict,
            "Notification delivery revision exhausted the portable wire range"@,
        ),
        target is Some && target->Some_0.revision < last_revision() ==> step is Go
            && step->Go_0 is Store && step->Go_0->Store_effect is Terminal && {
            let settlement = step->Go_0->Store_effect->Terminal_0;
            &&& settlement.attempt_id@ == target->Some_0.attempt_id@
            &&& raises(
                settlement.delivery,
                target->Some_0.delivery_id@,
                target->Some_0.revision,
                envelope.occurred_at,
            )
            &&& ends(
                settlement.delivery.change,
                crate::domain::DeliveryStatus::DeliveryUnknown,
                "provider_runtime_terminal_without_business_observation"@,
            )
        },
{
}

/// The end of an invitation calls off what was found and still waits, and
/// nothing else.
pub proof fn law_found_deliveries_are_called_off(
    payload: OrganizationInvitationLifecycle,
    candidates: Vec<LifecycleCandidate>,
    envelope: &ObservationEnvelope,
    step: ConsumptionStep,
)
    requires
        call_ensures(
            advance_consumption,
            (
                ConsumptionStage::Find { observation: Observation::Lifecycle(payload) },
                ConsumptionEvent::FoundDeliveries(candidates),
                envelope,
            ),
            step,
        ),
    ensures
        step is Go ==> step->Go_0 is Store && step->Go_0->Store_effect is Lifecycle && {
            let settlement = step->Go_0->Store_effect->Lifecycle_0;
            let chosen = candidates@.filter(
                |candidate: LifecycleCandidate|
                    called_off(candidate, envelope.source_module@, payload),
            );
            &&& settlement.event.lifecycle@ == invitation_word(envelope.event_name@)
            &&& settlement.event.source_entity_id@ == payload.invitation_id@
            &&& settlement.cancellations@.len() == chosen.len()
            &&& forall|k: int|
                0 <= k < chosen.len() ==> calls_off(
                    #[trigger] settlement.cancellations@[k],
                    chosen[k],
                    *envelope,
                )
        },
        step is Answer <==> exists|i: int|
            0 <= i < candidates@.len() && called_off(
                #[trigger] candidates@[i],
                envelope.source_module@,
                payload,
            ) && candidates@[i].revision >= last_revision(),
{
    let ours = |candidate: LifecycleCandidate|
        called_off(candidate, envelope.source_module@, payload);
    let theirs = |candidate: LifecycleCandidate|
        candidate.cancelled(envelope.source_module@, payload);
    assert forall|candidate: LifecycleCandidate| called_off(
        candidate,
        envelope.source_module@,
        payload,
    ) == #[trigger] candidate.cancelled(envelope.source_module@, payload) by {}
    assert(ours =~= theirs);
    if step is Go {
        let settlement = step->Go_0->Store_effect->Lifecycle_0;
        let chosen = candidates@.filter(ours);
        assert forall|k: int| 0 <= k < chosen.len() implies calls_off(
            #[trigger] settlement.cancellations@[k],
            chosen[k],
            *envelope,
        ) by {
            assert(crate::events::cancels(settlement.cancellations@[k], chosen[k], *envelope));
        }
    }
    if exists|i: int|
        0 <= i < candidates@.len() && called_off(
            #[trigger] candidates@[i],
            envelope.source_module@,
            payload,
        ) && candidates@[i].revision >= last_revision() {
        let i = choose|i: int|
            0 <= i < candidates@.len() && called_off(
                #[trigger] candidates@[i],
                envelope.source_module@,
                payload,
            ) && candidates@[i].revision >= last_revision();
        assert(candidates@[i].cancelled(envelope.source_module@, payload));
    }
    if step is Answer {
        let i = choose|i: int|
            0 <= i < candidates@.len() && (#[trigger] candidates@[i]).cancelled(
                envelope.source_module@,
                payload,
            ) && candidates@[i].revision >= crate::domain::MAX_SAFE_WIRE_INTEGER;
        assert(called_off(candidates@[i], envelope.source_module@, payload));
    }
}

/// What is stored is committed, what is committed is answered as consumed, and
/// what the ledger could not do is the answer.
pub proof fn law_consumption_ends_with_a_commit(
    stage: ConsumptionStage,
    event: ConsumptionEvent,
    envelope: &ObservationEnvelope,
    step: ConsumptionStep,
)
    requires
        call_ensures(advance_consumption, (stage, event, envelope), step),
    ensures
        event is Failed ==> step == ConsumptionStep::Answer(Err(event->Failed_0)),
        stage is Store && event is Done ==> step == ConsumptionStep::Go(ConsumptionStage::Commit),
        stage is Commit && event is Done ==> step == ConsumptionStep::Answer(Ok(())),
        step is Answer && step->Answer_0 is Ok ==> stage is Commit && event is Done,
        step is Go && step->Go_0 is Store && !(stage is Store) ==> stage is Find,
{
}

} // verus!
