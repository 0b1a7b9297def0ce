//! How one due delivery is dispatched, step by step: what is asked of the
//! ledger and of the email provider, and in which order.

use vstd::prelude::*;

use crate::answers::claimed_work;
use crate::contracts::EMAIL_DISPATCH_OBSERVED_EVENT;
use crate::delivery::{DispatchDueError, DispatchDueResponse};
use crate::dispatch::{answers_dispatch, dispatch_due_response, dispatch_envelope, settle_reply,
    DispatchAftermath};
use crate::email::DispatchReply;
use crate::error::{ledger_failure, NotificationError, PluginError};
use crate::events::ObservationEnvelope;
use crate::repository::DeliverySummary;
use crate::requests::surrounds;
use crate::runtime::{DispatchWork, DueClaim};
use crate::time::UtcTime;

verus! {

/// What is done next for a due delivery.
pub enum WorkerStage {
    /// The ledger is asked to claim one due delivery.
    Claim,
    /// The email provider is sent the claimed message.
    Dispatch { work: DispatchWork },
    /// The observation of the attempt is recorded in the ledger.
    Record { work: DispatchWork, aftermath: DispatchAftermath, event: ObservationEnvelope },
    /// The ledger is asked for the delivery after the dispatch.
    Read { work: DispatchWork, observed_at: UtcTime },
}

/// What came of a stage.
pub enum WorkerEvent {
    /// The claimed delivery, if one was due.
    Claimed(Option<DueClaim>),
    /// What the provider replied.
    Replied(DispatchReply),
    /// The observation is recorded.
    Recorded,
    /// The delivery in the ledger, if it is there.
    Found(Option<DeliverySummary>),
    /// The ledger could not carry the stage out.
    Failed(NotificationError),
}

/// What follows from an event: the next stage, or the answer.
pub enum WorkerStep {
    Go(WorkerStage),
    Answer(Result<DispatchDueResponse, PluginError<DispatchDueError>>),
}

impl WorkerStage {
    /// Whether the instants of the stage are in the calendar's range.
    pub open spec fn timely(self) -> bool {
        match self {
            WorkerStage::Record { aftermath, .. } => aftermath.observed.observed_at.valid(),
            WorkerStage::Read { observed_at, .. } => observed_at.valid(),
            _ => true,
        }
    }
}

impl WorkerEvent {
    /// Whether the instants of the event are in the calendar's range.
    pub open spec fn timely(self) -> bool {
        self matches WorkerEvent::Found(Some(delivery)) ==> (
        delivery.next_attempt_at matches Some(at) ==> at.valid())
    }
}

impl WorkerStep {
    /// Whether this answers with the failure of the ledger.
    pub open spec fn reports(self, error: NotificationError) -> bool {
        self matches WorkerStep::Answer(Err(PluginError::Runtime(failure)))
            && failure.is_plugin_failure(error.text())
    }
}

/// Whether `step` is what follows from `event` at `stage`. An event that cannot
/// come of the stage leaves it as it is.
pub open spec fn worker_follows(
    step: WorkerStep,
    stage: WorkerStage,
    event: WorkerEvent,
    provider: Seq<char>,
    now: UtcTime,
) -> bool {
    match (stage, event) {
        (WorkerStage::Claim, WorkerEvent::Claimed(Some(claim))) => step == WorkerStep::Go(
            WorkerStage::Dispatch { work: claim.work },
        ),
        (WorkerStage::Claim, WorkerEvent::Claimed(None)) => step == WorkerStep::Answer(
            Err(PluginError::Domain(DispatchDueError::NoDeliveryDue)),
        ),
        (WorkerStage::Dispatch { work }, WorkerEvent::Replied(reply)) => step
            matches WorkerStep::Go(WorkerStage::Record { work: claimed, aftermath, event })
            && claimed == work && aftermath.settles(work, provider, now, reply) && surrounds(
            event,
            "dispatch-observation:"@ + work.claim.attempt_id@,
            EMAIL_DISPATCH_OBSERVED_EVENT@,
            aftermath.observed.provider@,
            work.claim.delivery_id@,
            aftermath.observed.observed_at,
        ),
        (WorkerStage::Record { work, aftermath, .. }, WorkerEvent::Recorded) =>
            match aftermath.failure {
            Some(failure) => step == WorkerStep::Answer(Err(failure)),
            None => step == WorkerStep::Go(
                WorkerStage::Read { work, observed_at: aftermath.observed.observed_at },
            ),
        },
        (WorkerStage::Read { work, observed_at }, WorkerEvent::Found(summary)) => match step {
            WorkerStep::Answer(Ok(response)) => answers_dispatch(
                Ok(response),
                work,
                observed_at,
                summary,
            ),
            WorkerStep::Answer(Err(PluginError::Runtime(failure))) => answers_dispatch(
                Err(failure),
                work,
                observed_at,
                summary,
            ),
            _ => false,
        },
        (WorkerStage::Claim, WorkerEvent::Failed(error))
        | (WorkerStage::Record { .. }, WorkerEvent::Failed(error))
        | (WorkerStage::Read { .. }, WorkerEvent::Failed(error)) => step.reports(error),
        _ => step == WorkerStep::Go(stage),
    }
}

/// What follows from what came of a stage, for the bound email provider.
pub fn advance_worker(
    stage: WorkerStage,
    event: WorkerEvent,
    email_provider_instance: &str,
    now: UtcTime,
) -> (step: WorkerStep)
    requires
        now.valid(),
        stage.timely(),
        event.timely(),
    ensures
        worker_follows(step, stage, event, email_provider_instance@, now),
        step matches WorkerStep::Go(next) ==> next.timely(),
{
    match (stage, event) {
        (WorkerStage::Claim, WorkerEvent::Claimed(claim)) => match claimed_work(claim) {
            Ok(found) => WorkerStep::Go(WorkerStage::Dispatch { work: found.work }),
            Err(failure) => WorkerStep::Answer(Err(failure)),
        },
        (WorkerStage::Dispatch { work }, WorkerEvent::Replied(reply)) => {
            let aftermath = settle_reply(&work, email_provider_instance, now, reply);
            let event = dispatch_envelope(&work, &aftermath.observed);
            WorkerStep::Go(WorkerStage::Record { work, aftermath, event })
        },
        (WorkerStage::Record { work, aftermath, .. }, WorkerEvent::Recorded) =>
            match aftermath.failure {
            Some(failure) => WorkerStep::Answer(Err(failure)),
            None => WorkerStep::Go(
                WorkerStage::Read { work, observed_at: aftermath.observed.observed_at },
            ),
        },
        (WorkerStage::Read { work, observed_at }, WorkerEvent::Found(summary)) =>
            match dispatch_due_response(&work, observed_at, summary.as_ref()) {
            Ok(response) => WorkerStep::Answer(Ok(response)),
            Err(failure) => WorkerStep::Answer(Err(PluginError::Runtime(failure))),
        },
        (WorkerStage::Claim, WorkerEvent::Failed(error))
        | (WorkerStage::Record { .. }, WorkerEvent::Failed(error))
        | (WorkerStage::Read { .. }, WorkerEvent::Failed(error)) => WorkerStep::Answer(
            Err(PluginError::Runtime(ledger_failure(&error))),
        ),
        (stage, _) => WorkerStep::Go(stage),
    }
}

/// How far along a stage is.
pub open spec fn worker_rank(stage: WorkerStage) -> nat {
    match stage {
        WorkerStage::Claim => 0,
        WorkerStage::Dispatch { .. } => 1,
        WorkerStage::Record { .. } => 2,
        WorkerStage::Read { .. } => 3,
    }
}

/// Whether an event can come of a stage.
pub open spec fn worker_fits(stage: WorkerStage, event: WorkerEvent) -> bool {
    match stage {
        WorkerStage::Claim => event is Claimed || event is Failed,
        WorkerStage::Dispatch { .. } => event is Replied,
        WorkerStage::Record { .. } => event is Recorded || event is Failed,
        WorkerStage::Read { .. } => event is Found || event is Failed,
    }
}

/// The provider is sent a message at most once in a run, and only one that was
/// claimed: what came of a stage leads to a later stage or to the answer, and
/// dispatching follows only on a claim.
pub proof fn law_only_a_claimed_message_is_sent_once(
    step: WorkerStep,
    stage: WorkerStage,
    event: WorkerEvent,
    provider: Seq<char>,
    now: UtcTime,
)
    requires
        worker_follows(step, stage, event, provider, now),
    ensures
        step matches WorkerStep::Go(next) ==> next == stage || worker_rank(next) > worker_rank(
            stage,
        ),
        worker_fits(stage, event) ==> (step matches WorkerStep::Go(next) ==> worker_rank(next)
            > worker_rank(stage)),
        step matches WorkerStep::Go(WorkerStage::Dispatch { work }) ==> !(stage is Dispatch) ==> {
            &&& event matches WorkerEvent::Claimed(Some(claim))
            &&& claim.work == work
        },
{
}

/// Every reply is recorded before anything is answered, and what is recorded
/// is about the attempt that was claimed.
pub proof fn law_every_reply_is_recorded_first(
    step: WorkerStep,
    stage: WorkerStage,
    event: WorkerEvent,
    provider: Seq<char>,
    now: UtcTime,
)
    requires
        worker_follows(step, stage, event, provider, now),
        stage is Dispatch,
    ensures
        step is Go,
        event is Replied ==> (step matches WorkerStep::Go(
            WorkerStage::Record { work, aftermath, event },
        ) && work == stage->Dispatch_work && aftermath.observed.attempt_id
            == work.claim.attempt_id && aftermath.observed.delivery_id == work.claim.delivery_id
            && event.aggregate_id@ == work.claim.delivery_id@),
{
}

} // verus!
