//! How an observation is consumed, step by step: what is asked of the ledger,
//! and in which order.

use vstd::prelude::*;

use crate::contracts::{EmailDispatchObserved, EmailReceiptObserved,
    OrganizationInvitationLifecycle, RuntimeFunctionTerminal};
use crate::digest::collide;
use crate::domain::MAX_SAFE_WIRE_INTEGER;
use crate::error::{ErrorCode, NotificationError, NotificationResult};
use crate::events::{admit_dispatch_observation, admit_receipt_observation, admit_source,
    apply_dispatch_observation, apply_invitation_lifecycle, apply_receipt, apply_runtime_terminal,
    cancellation_exhausted, claim_event, dispatch_faults, dispatch_refusal, effect_in_range,
    email_dispatch_ended, known_receipt, receipt_faults, receipt_refusal, sound_source,
    source_fault, validate_runtime_terminal, AttemptEvidence, DispatchEffect, DispatchSettlement,
    DispatchTarget, LifecycleCandidate, LifecycleSettlement, ObservationEnvelope, ReceiptSettlement,
    ReceiptTarget, TerminalSettlement, TerminalTarget, EVENT_REUSED, RECEIPT_REUSED,
    REVISION_EXHAUSTED, SOURCE_INVALID, TERMINAL_FOREIGN};
use crate::faults::{first_fault, rule};
use crate::json::json_compact;
use crate::observation::{lemma_digest_tells_content, observation_digest,
    observation_digest_text, observation_text, same_content};
use crate::time::UtcTime;

verus! {

/// What an observation tells.
#[derive(Debug)]
pub enum Observation {
    Dispatch(EmailDispatchObserved),
    Receipt(EmailReceiptObserved),
    Terminal(RuntimeFunctionTerminal),
    Lifecycle(OrganizationInvitationLifecycle),
}

impl Observation {
    /// Why the observation is refused before the ledger is asked, if it is.
    pub open spec fn fault(self, envelope: ObservationEnvelope) -> Option<Seq<char>> {
        match self {
            Observation::Dispatch(payload) => first_fault(
                dispatch_faults(payload).push(
                    source_fault(envelope.source_module@, payload.provider@),
                ),
            ),
            Observation::Receipt(payload) => first_fault(
                receipt_faults(payload).push(
                    source_fault(envelope.source_module@, payload.source@),
                ),
            ),
            Observation::Terminal(payload) => rule(
                email_dispatch_ended(payload),
                TERMINAL_FOREIGN@,
            ),
            Observation::Lifecycle(_) => rule(
                sound_source(envelope.source_module@),
                SOURCE_INVALID@,
            ),
        }
    }

    /// The instant at which the observation counts as consumed.
    pub open spec fn instant(self, envelope: ObservationEnvelope) -> UtcTime {
        match self {
            Observation::Dispatch(payload) => payload.observed_at,
            Observation::Receipt(payload) => payload.observed_at,
            Observation::Terminal(_) => envelope.occurred_at,
            Observation::Lifecycle(payload) => payload.observed_at,
        }
    }

    /// The instant at which the observation counts as consumed.
    pub fn consumed_at(&self, envelope: &ObservationEnvelope) -> (at: UtcTime)
        ensures
            at == self.instant(*envelope),
    {
        match self {
            Observation::Dispatch(payload) => payload.observed_at,
            Observation::Receipt(payload) => payload.observed_at,
            Observation::Terminal(_) => envelope.occurred_at,
            Observation::Lifecycle(payload) => payload.observed_at,
        }
    }
}

/// What an observation changes in the ledger.
#[derive(Debug)]
pub enum LedgerEffect {
    /// A late observation fills in what its attempt lacks.
    Absorbed(AttemptEvidence),
    Dispatch(DispatchSettlement),
    Receipt(ReceiptSettlement),
    Terminal(TerminalSettlement),
    Lifecycle(LifecycleSettlement),
}

/// What is done next for an observation.
#[derive(Debug)]
pub enum ConsumptionStage {
    /// A transaction begins and records the observation under its id, with the
    /// digest of its content.
    Claim { observation: Observation, digest: String },
    /// The ledger is asked for the receipt of the same identity.
    Identify { receipt: EmailReceiptObserved },
    /// The ledger is asked for what the observation is about.
    Find { observation: Observation },
    /// The effect of the observation is stored.
    Store { effect: LedgerEffect },
    /// The transaction is committed.
    Commit,
}

/// What came of a stage.
#[derive(Debug)]
pub enum ConsumptionEvent {
    /// The digest under which the id was recorded before, if it was.
    Claimed(Option<String>),
    /// The digest of the known receipt, if there is one.
    Identified(Option<String>),
    /// The attempt that a dispatch observation names.
    FoundDispatch(Option<DispatchTarget>),
    /// The attempt that a receipt names.
    FoundReceipt(Option<ReceiptTarget>),
    /// The attempt whose run ended without an observation.
    FoundRun(Option<TerminalTarget>),
    /// The deliveries of an invitation.
    FoundDeliveries(Vec<LifecycleCandidate>),
    /// The stage was carried out.
    Done,
    /// The ledger could not carry the stage out.
    Failed(NotificationError),
}

/// What follows from an event: the next stage, or the answer.
#[derive(Debug)]
pub enum ConsumptionStep {
    Go(ConsumptionStage),
    Answer(NotificationResult<()>),
}

impl ConsumptionStep {
    /// Whether this refuses the observation.
    pub open spec fn refuses(self, code: ErrorCode, message: Seq<char>) -> bool {
        self matches ConsumptionStep::Answer(Err(error)) && error.is(code, message)
    }
}

/// Whether the next attempt that a dispatch observation leads to is in the
/// calendar's range.
pub open spec fn consumption_in_range(stage: ConsumptionStage, event: ConsumptionEvent) -> bool {
    match (stage, event) {
        (
            ConsumptionStage::Find { observation: Observation::Dispatch(payload) },
            ConsumptionEvent::FoundDispatch(target),
        ) => payload.observed_at.valid() && effect_in_range(target, payload),
        _ => true,
    }
}

/// Whether `step` is what follows from `event` at `stage`. An event that cannot
/// come of the stage leaves it as it is.
pub open spec fn consumption_follows(
    step: ConsumptionStep,
    stage: ConsumptionStage,
    event: ConsumptionEvent,
    envelope: ObservationEnvelope,
) -> bool {
    match (stage, event) {
        (ConsumptionStage::Claim { observation, digest }, ConsumptionEvent::Claimed(recorded)) =>
            match recorded {
            None => match observation {
                Observation::Receipt(receipt) => step == ConsumptionStep::Go(
                    ConsumptionStage::Identify { receipt },
                ),
                _ => step == ConsumptionStep::Go(ConsumptionStage::Find { observation }),
            },
            Some(stored) => if stored@ == digest@ {
                step == ConsumptionStep::Go(ConsumptionStage::Commit)
            } else {
                step.refuses(ErrorCode::Conflict, EVENT_REUSED@)
            },
        },
        (ConsumptionStage::Identify { receipt }, ConsumptionEvent::Identified(known)) =>
            match known {
            None => step == ConsumptionStep::Go(
                ConsumptionStage::Find { observation: Observation::Receipt(receipt) },
            ),
            Some(stored) => if stored@ == receipt.digest@ {
                step == ConsumptionStep::Go(ConsumptionStage::Commit)
            } else {
                step.refuses(ErrorCode::Conflict, RECEIPT_REUSED@)
            },
        },
        (
            ConsumptionStage::Find { observation: Observation::Dispatch(payload) },
            ConsumptionEvent::FoundDispatch(target),
        ) => match dispatch_refusal(target, payload) {
            Some((code, message)) => step.refuses(code, message),
            None => match step {
                ConsumptionStep::Go(
                    ConsumptionStage::Store { effect: LedgerEffect::Absorbed(evidence) },
                ) => target->Some_0.delivery_status@ != "attempting"@ && evidence.given_by(
                    payload,
                ),
                ConsumptionStep::Go(
                    ConsumptionStage::Store { effect: LedgerEffect::Dispatch(settlement) },
                ) => target->Some_0.delivery_status@ == "attempting"@ && settlement.settles(
                    envelope.id@,
                    target->Some_0,
                    payload,
                ),
                _ => false,
            },
        },
        (
            ConsumptionStage::Find { observation: Observation::Receipt(payload) },
            ConsumptionEvent::FoundReceipt(target),
        ) => match receipt_refusal(target, payload) {
            Some((code, message)) => step.refuses(code, message),
            None => step matches ConsumptionStep::Go(
                ConsumptionStage::Store { effect: LedgerEffect::Receipt(settlement) },
            ) && settlement.settles(envelope.occurred_at, target->Some_0, payload),
        },
        (
            ConsumptionStage::Find { observation: Observation::Terminal(payload) },
            ConsumptionEvent::FoundRun(target),
        ) => match target {
            None => step == ConsumptionStep::Go(ConsumptionStage::Commit),
            Some(found) => if found.revision >= MAX_SAFE_WIRE_INTEGER {
                step.refuses(ErrorCode::Conflict, REVISION_EXHAUSTED@)
            } else {
                step matches ConsumptionStep::Go(
                    ConsumptionStage::Store { effect: LedgerEffect::Terminal(settlement) },
                ) && settlement.settles(found, envelope, payload)
            },
        },
        (
            ConsumptionStage::Find { observation: Observation::Lifecycle(payload) },
            ConsumptionEvent::FoundDeliveries(candidates),
        ) => if cancellation_exhausted(candidates@, envelope.source_module@, payload) {
            step.refuses(ErrorCode::Conflict, REVISION_EXHAUSTED@)
        } else {
            step matches ConsumptionStep::Go(
                ConsumptionStage::Store { effect: LedgerEffect::Lifecycle(settlement) },
            ) && settlement.settles(envelope, payload, candidates@)
        },
        (ConsumptionStage::Store { .. }, ConsumptionEvent::Done) => step == ConsumptionStep::Go(
            ConsumptionStage::Commit,
        ),
        (ConsumptionStage::Commit, ConsumptionEvent::Done) => step == ConsumptionStep::Answer(
            Ok(()),
        ),
        (_, ConsumptionEvent::Failed(error)) => step == ConsumptionStep::Answer(Err(error)),
        _ => step == ConsumptionStep::Go(stage),
    }
}

pub const EVENT_NOT_HASHED: &'static str = "Notification Event cannot be hashed";

/// Whether `step` begins the consumption of an observation with an encoded
/// payload: an unsound observation is refused before the ledger is asked.
pub open spec fn consumption_begins(
    step: ConsumptionStep,
    envelope: ObservationEnvelope,
    payload: Seq<char>,
    observation: Observation,
) -> bool {
    match observation.fault(envelope) {
        Some(message) => step.refuses(ErrorCode::Validation, message),
        None => match json_compact(payload) {
            Some(text) => step matches ConsumptionStep::Go(
                ConsumptionStage::Claim { observation: claimed, digest },
            ) && claimed == observation && digest@ == observation_digest_text(envelope, text),
            None => step.refuses(ErrorCode::Internal, EVENT_NOT_HASHED@),
        },
    }
}

/// How the consumption of an observation begins. `payload` is the encoded
/// payload.
pub fn begin_consumption(
    envelope: &ObservationEnvelope,
    payload: &str,
    observation: Observation,
) -> (step: ConsumptionStep)
    ensures
        consumption_begins(step, *envelope, payload@, observation),
{
    let verdict = match &observation {
        Observation::Dispatch(payload) => admit_dispatch_observation(envelope, payload),
        Observation::Receipt(payload) => admit_receipt_observation(envelope, payload),
        Observation::Terminal(payload) => validate_runtime_terminal(payload),
        Observation::Lifecycle(_) => admit_source(envelope),
    };
    if let Err(error) = verdict {
        return ConsumptionStep::Answer(Err(error));
    }
    match observation_digest(envelope, payload) {
        Some(digest) => ConsumptionStep::Go(ConsumptionStage::Claim { observation, digest }),
        None => ConsumptionStep::Answer(
            Err(NotificationError::new(ErrorCode::Internal, EVENT_NOT_HASHED)),
        ),
    }
}

fn borrowed(text: &Option<String>) -> (r: Option<&str>)
    ensures
        match *text {
            Some(value) => r matches Some(found) && found@ == value@,
            None => r is None,
        },
{
    match text {
        Some(value) => Some(value.as_str()),
        None => None,
    }
}

fn store(effect: LedgerEffect) -> (step: ConsumptionStep)
    ensures
        step == ConsumptionStep::Go(ConsumptionStage::Store { effect }),
{
    ConsumptionStep::Go(ConsumptionStage::Store { effect })
}

/// What follows from what came of a stage.
pub fn advance_consumption(
    stage: ConsumptionStage,
    event: ConsumptionEvent,
    envelope: &ObservationEnvelope,
) -> (step: ConsumptionStep)
    requires
        consumption_in_range(stage, event),
    ensures
        consumption_follows(step, stage, event, *envelope),
{
    match (stage, event) {
        (_, ConsumptionEvent::Failed(error)) => ConsumptionStep::Answer(Err(error)),
        (ConsumptionStage::Claim { observation, digest }, ConsumptionEvent::Claimed(recorded)) =>
            match claim_event(borrowed(&recorded), digest.as_str()) {
            Err(error) => ConsumptionStep::Answer(Err(error)),
            Ok(true) => ConsumptionStep::Go(ConsumptionStage::Commit),
            Ok(false) => match observation {
                Observation::Receipt(receipt) => ConsumptionStep::Go(
                    ConsumptionStage::Identify { receipt },
                ),
                observation => ConsumptionStep::Go(ConsumptionStage::Find { observation }),
            },
        },
        (ConsumptionStage::Identify { receipt }, ConsumptionEvent::Identified(known)) =>
            match known_receipt(borrowed(&known), &receipt) {
            Err(error) => ConsumptionStep::Answer(Err(error)),
            Ok(true) => ConsumptionStep::Go(ConsumptionStage::Commit),
            Ok(false) => ConsumptionStep::Go(
                ConsumptionStage::Find { observation: Observation::Receipt(receipt) },
            ),
        },
        (
            ConsumptionStage::Find { observation: Observation::Dispatch(payload) },
            ConsumptionEvent::FoundDispatch(target),
        ) => match apply_dispatch_observation(target, envelope, &payload) {
            Err(error) => ConsumptionStep::Answer(Err(error)),
            Ok(DispatchEffect::Absorb(evidence)) => store(LedgerEffect::Absorbed(evidence)),
            Ok(DispatchEffect::Settle(settlement)) => store(LedgerEffect::Dispatch(settlement)),
        },
        (
            ConsumptionStage::Find { observation: Observation::Receipt(payload) },
            ConsumptionEvent::FoundReceipt(target),
        ) => match apply_receipt(target, envelope, &payload) {
            Err(error) => ConsumptionStep::Answer(Err(error)),
            Ok(settlement) => store(LedgerEffect::Receipt(settlement)),
        },
        (
            ConsumptionStage::Find { observation: Observation::Terminal(payload) },
            ConsumptionEvent::FoundRun(target),
        ) => match apply_runtime_terminal(target, envelope, &payload) {
            Err(error) => ConsumptionStep::Answer(Err(error)),
            Ok(None) => ConsumptionStep::Go(ConsumptionStage::Commit),
            Ok(Some(settlement)) => store(LedgerEffect::Terminal(settlement)),
        },
        (
            ConsumptionStage::Find { observation: Observation::Lifecycle(payload) },
            ConsumptionEvent::FoundDeliveries(candidates),
        ) => match apply_invitation_lifecycle(envelope, &payload, &candidates) {
            Err(error) => ConsumptionStep::Answer(Err(error)),
            Ok(settlement) => store(LedgerEffect::Lifecycle(settlement)),
        },
        (ConsumptionStage::Store { .. }, ConsumptionEvent::Done) => ConsumptionStep::Go(
            ConsumptionStage::Commit,
        ),
        (ConsumptionStage::Commit, ConsumptionEvent::Done) => ConsumptionStep::Answer(Ok(())),
        (stage, _) => ConsumptionStep::Go(stage),
    }
}

/// An observation is consumed once: under an id that was recorded for one
/// observation, one with the same name, version, source, aggregate and payload
/// changes nothing, and one in which any of these differs is refused as a
/// conflict. When the two occurred makes no difference, and nothing more is
/// stored in either case.
pub proof fn law_an_observation_is_consumed_once(
    begun: ConsumptionStep,
    step: ConsumptionStep,
    observation: Observation,
    digest: String,
    stored: String,
    first: ObservationEnvelope,
    first_payload: Seq<char>,
    again: ObservationEnvelope,
    payload: Seq<char>,
    again_payload: Seq<char>,
)
    requires
        stored@ == observation_digest_text(first, first_payload),
        json_compact(payload) == Some(again_payload),
        begun == ConsumptionStep::Go(ConsumptionStage::Claim { observation, digest }),
        consumption_begins(begun, again, payload, observation),
        consumption_follows(
            step,
            ConsumptionStage::Claim { observation, digest },
            ConsumptionEvent::Claimed(Some(stored)),
            again,
        ),
        !collide(observation_text(first, first_payload), observation_text(again, again_payload)),
    ensures
        same_content(first, first_payload, again, again_payload) ==> step == ConsumptionStep::Go(
            ConsumptionStage::Commit,
        ),
        !same_content(first, first_payload, again, again_payload) ==> step.refuses(
            ErrorCode::Conflict,
            EVENT_REUSED@,
        ),
{
    lemma_digest_tells_content(first, first_payload, again, again_payload);
}

/// A receipt counts once: one that is known under its identity changes nothing,
/// and one that tells something else under that identity is refused.
pub proof fn law_a_receipt_counts_once(
    step: ConsumptionStep,
    receipt: EmailReceiptObserved,
    stored: String,
    envelope: ObservationEnvelope,
)
    requires
        consumption_follows(
            step,
            ConsumptionStage::Identify { receipt },
            ConsumptionEvent::Identified(Some(stored)),
            envelope,
        ),
    ensures
        stored@ == receipt.digest@ ==> step == ConsumptionStep::Go(ConsumptionStage::Commit),
        stored@ != receipt.digest@ ==> step.refuses(ErrorCode::Conflict, RECEIPT_REUSED@),
{
}

/// How far along a stage is.
pub open spec fn consumption_rank(stage: ConsumptionStage) -> nat {
    match stage {
        ConsumptionStage::Claim { .. } => 0,
        ConsumptionStage::Identify { .. } => 1,
        ConsumptionStage::Find { .. } => 2,
        ConsumptionStage::Store { .. } => 3,
        ConsumptionStage::Commit => 4,
    }
}

/// An effect is stored at most once, and only one that the ledger's own state
/// allows: a step never goes back, and storing follows only on finding what the
/// observation is about.
pub proof fn law_effects_follow_the_found_state(
    step: ConsumptionStep,
    stage: ConsumptionStage,
    event: ConsumptionEvent,
    envelope: ObservationEnvelope,
)
    requires
        consumption_follows(step, stage, event, envelope),
    ensures
        step matches ConsumptionStep::Go(next) ==> next == stage || consumption_rank(next)
            > consumption_rank(stage),
        step matches ConsumptionStep::Go(ConsumptionStage::Store { .. }) ==> stage is Find || step
            == ConsumptionStep::Go(stage),
        step matches ConsumptionStep::Answer(answer) ==> answer is Ok ==> stage is Commit,
{
}

} // verus!
