//! What holds of a delivery over all operations: every change of a stored
//! delivery is one of six steps, and whatever steps it takes, its revision
//! counts them, its attempts stay bounded and its end stays final.

use vstd::prelude::*;

use crate::contracts::{EmailDispatchObserved, EmailReceiptObserved,
    OrganizationInvitationLifecycle, RuntimeFunctionTerminal};
use crate::domain::{follows, lemma_status_names_differ, DeliveryStatus, MAX_SAFE_WIRE_INTEGER};
use crate::events::{cancels, dispatch_refusal, receipt_refusal, DeliveryUpdate,
    DispatchSettlement, DispatchTarget, LifecycleCandidate, ObservationEnvelope,
    ReceiptSettlement, ReceiptTarget, TerminalSettlement, TerminalTarget};
use crate::public::{IntentPersistence, IntentRows, ProtectedMessage};
use crate::repository::{manual_retry_refusal, ManualRetry, RetryTarget};
use crate::runtime::{DueClaim, DueRow};
use crate::time::UtcTime;

verus! {

/// What changes of a stored delivery.
pub struct DeliveryState {
    pub status: DeliveryStatus,
    pub revision: int,
    pub attempt_count: int,
    pub max_attempts: int,
}

/// One change of a stored delivery, with what decided it.
pub enum LedgerStep {
    /// A due attempt is claimed.
    Claim {
        row: DueRow,
        now: UtcTime,
        parts: (Seq<char>, Seq<char>, Seq<char>, Seq<char>),
        claim: DueClaim,
    },
    /// A provider's answer is recorded.
    Dispatch {
        event_id: Seq<char>,
        target: DispatchTarget,
        payload: EmailDispatchObserved,
        settlement: DispatchSettlement,
    },
    /// An authoritative receipt is recorded.
    Receipt {
        occurred_at: UtcTime,
        target: ReceiptTarget,
        payload: EmailReceiptObserved,
        settlement: ReceiptSettlement,
    },
    /// The runtime gave an attempt up.
    Terminal {
        event: ObservationEnvelope,
        target: TerminalTarget,
        payload: RuntimeFunctionTerminal,
        settlement: TerminalSettlement,
    },
    /// The source of the intent ended it.
    Cancel {
        event: ObservationEnvelope,
        payload: OrganizationInvitationLifecycle,
        candidate: LifecycleCandidate,
        update: DeliveryUpdate,
    },
    /// An administrator moves a planned retry forward.
    ManualRetry {
        target: RetryTarget,
        delivery_id: Seq<char>,
        idempotency_key: Seq<char>,
        requested_by: Seq<char>,
        now: UtcTime,
        retry: ManualRetry,
    },
}

impl DeliveryState {
    /// Whether this is the state of a delivery that was just recorded.
    pub open spec fn fresh(self, rows: IntentRows) -> bool {
        &&& self.status == rows.delivery.status
        &&& self.revision == rows.delivery.revision
        &&& self.attempt_count == rows.delivery.attempt_count
        &&& self.max_attempts == rows.delivery.max_attempts
    }

    /// The state after a conditional update at this state's revision.
    pub open spec fn updated(self, update: DeliveryUpdate) -> DeliveryState {
        DeliveryState {
            status: update.change.status(),
            revision: update.new_revision as int,
            ..self
        }
    }

    /// Whether the attempts and the revision are in range.
    pub open spec fn bounded(self) -> bool {
        &&& 0 <= self.attempt_count <= self.max_attempts
        &&& 1 <= self.revision <= MAX_SAFE_WIRE_INTEGER
    }
}

impl LedgerStep {
    /// Whether this step was decided on `before` and leaves `after`.
    pub open spec fn takes(self, before: DeliveryState, after: DeliveryState) -> bool {
        match self {
            LedgerStep::Claim { row, now, parts, claim } => {
                &&& row.status@ == before.status.name()
                &&& row.revision == before.revision
                &&& row.attempt_count == before.attempt_count
                &&& row.max_attempts == before.max_attempts
                &&& row.due(now)
                &&& row.revision < MAX_SAFE_WIRE_INTEGER
                &&& row.attempt_count < row.max_attempts
                &&& claim.claims(row, now, parts)
                &&& after == DeliveryState {
                    status: DeliveryStatus::Attempting,
                    revision: claim.new_revision as int,
                    attempt_count: claim.attempt.sequence as int,
                    ..before
                }
            },
            LedgerStep::Dispatch { event_id, target, payload, settlement } => {
                &&& target.delivery_status@ == before.status.name()
                &&& target.revision == before.revision
                &&& target.attempt_count == before.attempt_count
                &&& target.max_attempts == before.max_attempts
                &&& target.delivery_status@ == "attempting"@
                &&& dispatch_refusal(Some(target), payload) is None
                &&& settlement.settles(event_id, target, payload)
                &&& after == before.updated(settlement.delivery)
            },
            LedgerStep::Receipt { occurred_at, target, payload, settlement } => {
                &&& target.delivery_status@ == before.status.name()
                &&& target.revision == before.revision
                &&& receipt_refusal(Some(target), payload) is None
                &&& settlement.settles(occurred_at, target, payload)
                &&& after == before.updated(settlement.delivery)
            },
            LedgerStep::Terminal { event, target, payload, settlement } => {
                &&& before.status is Attempting
                &&& target.revision == before.revision
                &&& settlement.settles(target, event, payload)
                &&& after == before.updated(settlement.delivery)
            },
            LedgerStep::Cancel { event, payload, candidate, update } => {
                &&& candidate.status@ == before.status.name()
                &&& candidate.revision == before.revision
                &&& candidate.cancelled(event.source_module@, payload)
                &&& cancels(update, candidate, event)
                &&& after == before.updated(update)
            },
            LedgerStep::ManualRetry {
                target,
                delivery_id,
                idempotency_key,
                requested_by,
                now,
                retry,
            } => {
                &&& target.status@ == before.status.name()
                &&& target.revision == before.revision
                &&& target.attempt_count == before.attempt_count
                &&& target.max_attempts == before.max_attempts
                &&& manual_retry_refusal(Some(target), target.revision) is None
                &&& retry.schedules(delivery_id, target.revision, idempotency_key, requested_by, now)
                &&& after == DeliveryState {
                    status: DeliveryStatus::RetryScheduled,
                    revision: retry.result.revision as int,
                    ..before
                }
            },
        }
    }

    /// Whether this step records a receipt that proves the delivery.
    pub open spec fn proves_delivery(self) -> bool {
        self matches LedgerStep::Receipt { payload, .. } && payload.kind is Delivered
    }
}

/// A delivery starts queued, under its first revision and with no attempt used.
pub proof fn law_delivery_starts_queued(
    state: DeliveryState,
    rows: IntentRows,
    intent: IntentPersistence,
    message: ProtectedMessage,
    now: UtcTime,
)
    requires
        rows.record(intent, message, now),
        state.fresh(rows),
    ensures
        state.status is Queued,
        state.revision == 1,
        state.attempt_count == 0,
        state.bounded(),
{
}

/// Every step raises the revision by one, keeps attempts bounded, starts from a
/// delivery that has not ended, and delivers only by an authoritative receipt.
pub proof fn law_every_step_keeps_the_ledger(
    step: LedgerStep,
    before: DeliveryState,
    after: DeliveryState,
)
    requires
        before.bounded(),
        step.takes(before, after),
    ensures
        after.bounded(),
        after.revision == before.revision + 1,
        after.max_attempts == before.max_attempts,
        after.attempt_count == before.attempt_count + (if step is Claim {
            1int
        } else {
            0
        }),
        !before.status.terminal(),
        after.status is Delivered <==> step.proves_delivery(),
        step is Claim ==> before.status is Queued || before.status is RetryScheduled,
        after.status is Attempting <==> step is Claim,
        !(step is Cancel) && !(step is ManualRetry) ==> follows(before.status, after.status),
        step is Cancel ==> after.status is Failed,
        step is ManualRetry ==> before.status is RetryScheduled && after.status is RetryScheduled,
{
    lemma_status_names_differ();
    assert(DeliveryStatus::Queued.name() == "queued"@);
    assert(DeliveryStatus::Attempting.name() == "attempting"@);
    assert(DeliveryStatus::Accepted.name() == "accepted"@);
    assert(DeliveryStatus::RetryScheduled.name() == "retry_scheduled"@);
}

/// Whether `states` are the states of one delivery between the given steps.
pub open spec fn history(states: Seq<DeliveryState>, steps: Seq<LedgerStep>) -> bool {
    &&& states.len() == steps.len() + 1
    &&& forall|i: int| 0 <= i < steps.len() ==> (#[trigger] steps[i]).takes(states[i], states[i + 1])
}

/// How many of the first `count` steps claim an attempt.
pub open spec fn claims_among(steps: Seq<LedgerStep>, count: int) -> int
    decreases count,
{
    if count <= 0 {
        0
    } else {
        claims_among(steps, count - 1) + (if steps[count - 1] is Claim {
            1int
        } else {
            0
        })
    }
}

/// Over any history the revision counts the steps, the attempt count counts the
/// claims and never passes its bound, and nothing follows a delivery's end.
pub proof fn law_history_is_bounded_and_final(
    states: Seq<DeliveryState>,
    steps: Seq<LedgerStep>,
    at: int,
)
    requires
        history(states, steps),
        states[0].bounded(),
        0 <= at <= steps.len(),
    ensures
        states[at].bounded(),
        states[at].revision == states[0].revision + at,
        states[at].max_attempts == states[0].max_attempts,
        states[at].attempt_count == states[0].attempt_count + claims_among(steps, at),
        claims_among(steps, at) <= states[0].max_attempts - states[0].attempt_count,
        states[at].status.terminal() ==> at == steps.len(),
    decreases at,
{
    if at > 0 {
        law_history_is_bounded_and_final(states, steps, at - 1);
        assert(steps[at - 1].takes(states[at - 1], states[at - 1 + 1]));
        law_every_step_keeps_the_ledger(steps[at - 1], states[at - 1], states[at]);
    }
    if at < steps.len() {
        assert(steps[at].takes(states[at], states[at + 1]));
        law_every_step_keeps_the_ledger(steps[at], states[at], states[at + 1]);
    }
}

/// A delivery that was recorded and is delivered has an authoritative receipt
/// of delivery as its last step: acceptance by a provider is never enough.
pub proof fn law_delivered_is_proved_by_a_receipt(
    states: Seq<DeliveryState>,
    steps: Seq<LedgerStep>,
)
    requires
        history(states, steps),
        states[0].bounded(),
        states[0].status is Queued,
        states.last().status is Delivered,
    ensures
        steps.len() > 0,
        steps.last().proves_delivery(),
{
    let last = steps.len() - 1;
    law_history_is_bounded_and_final(states, steps, last);
    assert(steps[last].takes(states[last], states[last + 1]));
    law_every_step_keeps_the_ledger(steps[last], states[last], states[last + 1]);
}

} // verus!
