//! How an intent is created, step by step: what is asked of the ledger and of
//! the template provider, and in which order.

use vstd::prelude::*;
use vstd::utf8::*;

use crate::answers::intent_response;
use crate::digest::{collide, digest_text, lemma_digest_texts_differ};
use crate::domain::{delivery_status_named, law_status_name_round_trip, DeliveryStatus};
use crate::error::{ErrorCode, NotificationError, NotificationResult, RuntimeFailure};
use crate::faults::first_fault;
use crate::intent::{access_request_text, encode_access_request, encode_invitation, invitation_text,
    lemma_purposes_have_different_texts, lemma_text_tells_access_request,
    lemma_text_tells_invitation, same_access_request, same_invitation};
use crate::public::{access_request_faults, access_request_template,
    admit_access_request_notification, admit_transactional_email_intent, answers_replay,
    colon_joined, find_access_request_notification_replay,
    find_transactional_email_intent_replay, invitation_faults, message_protected,
    message_refused, message_reveals, persist_intent, start_intent, validate_access_request,
    validate_invitation_request, CreateAccessRequestNotificationIntent,
    CreateTransactionalEmailIntent, EmailRecipient, IntentPersistence, IntentRows, IntentSource,
    IntentStart, ProtectedMessage, RenderedTemplate, StoredIntent, TemplateReleaseRow, TransactionalIntentReceipt,
    ACCESS_REQUEST_PURPOSE, ACCESS_REQUEST_TEMPLATE_VERSION, CONTENT_DIGEST_MISMATCH,
    INVITATION_PURPOSE, KEY_REUSED, ORGANIZATION_INVITATION_TEMPLATE_ID,
    ORGANIZATION_INVITATION_TEMPLATE_VERSION, RELEASE_IMMUTABLE, RENDER_INVALID,
    STORED_STATUS_INVALID};
use crate::render::{access_request_render_request, asks_access_request, asks_invitation,
    explains_render, map_template_render_error, organization_invitation_render_request,
    rendered_of, rendered_template};
use crate::snapshot::SnapshotProtector;
use crate::template::{RenderInvocationError, RenderRequest, RenderResponse};
use crate::time::UtcTime;
use crate::transactional::IntentResponse;

verus! {

/// An intent of either purpose.
pub enum NewIntent {
    Invitation(CreateTransactionalEmailIntent),
    AccessRequest(CreateAccessRequestNotificationIntent),
}

impl NewIntent {
    /// The source that requests the intent.
    pub open spec fn source(self) -> IntentSource {
        match self {
            NewIntent::Invitation(request) => request.source,
            NewIntent::AccessRequest(request) => request.source,
        }
    }

    /// The recipient of the message.
    pub open spec fn recipient(self) -> EmailRecipient {
        match self {
            NewIntent::Invitation(request) => request.recipient,
            NewIntent::AccessRequest(request) => request.recipient,
        }
    }

    /// The key under which the intent is accepted once.
    pub open spec fn key(self) -> String {
        match self {
            NewIntent::Invitation(request) => request.idempotency_key,
            NewIntent::AccessRequest(request) => request.idempotency_key,
        }
    }

    /// What is wrong with the intent at the given instant.
    pub open spec fn faults(self, now: UtcTime) -> Seq<Option<Seq<char>>> {
        match self {
            NewIntent::Invitation(request) => invitation_faults(request, now),
            NewIntent::AccessRequest(request) => access_request_faults(request, now),
        }
    }

    /// Whether the instants of the intent are in the calendar's range.
    pub open spec fn timely(self) -> bool {
        match self {
            NewIntent::Invitation(request) => request.template.expires_at.valid(),
            NewIntent::AccessRequest(request) => request.template.expires_at matches Some(at)
                ==> at.valid(),
        }
    }

    /// Whether `request` asks for the template of the intent.
    pub open spec fn asks(self, request: RenderRequest) -> bool {
        match self {
            NewIntent::Invitation(intent) => asks_invitation(request, intent),
            NewIntent::AccessRequest(intent) => asks_access_request(request, intent),
        }
    }

    /// Whether a rendered message answers the intent's request.
    pub open spec fn answered_by(self, rendered: RenderedTemplate) -> bool {
        &&& match self {
            NewIntent::Invitation(request) => rendered.metadata_answers(
                ORGANIZATION_INVITATION_TEMPLATE_ID@,
                ORGANIZATION_INVITATION_TEMPLATE_VERSION@,
                request.recipient.locale@,
            ),
            NewIntent::AccessRequest(request) => rendered.metadata_answers(
                access_request_template(request.template.event),
                ACCESS_REQUEST_TEMPLATE_VERSION@,
                request.recipient.locale@,
            ),
        }
        &&& rendered.content_sound()
    }

    /// The intent as one JSON object.
    pub open spec fn text(self) -> Seq<char> {
        match self {
            NewIntent::Invitation(request) => invitation_text(request),
            NewIntent::AccessRequest(request) => access_request_text(request),
        }
    }

    /// The digest that tells whether an intent is a replay.
    pub open spec fn digest(self) -> Seq<char> {
        digest_text(encode_utf8(self.text()))
    }

    /// Whether two intents have the same purpose and agree in every field.
    pub open spec fn same(self, other: NewIntent) -> bool {
        match (self, other) {
            (NewIntent::Invitation(a), NewIntent::Invitation(b)) => same_invitation(a, b),
            (NewIntent::AccessRequest(a), NewIntent::AccessRequest(b)) => same_access_request(a, b),
            _ => false,
        }
    }

    /// Whether `admitted` is the intent with its rendered message.
    pub open spec fn becomes(
        self,
        admitted: IntentPersistence,
        rendered: RenderedTemplate,
    ) -> bool {
        &&& admitted.source == self.source()
        &&& admitted.recipient == self.recipient()
        &&& admitted.idempotency_key == self.key()
        &&& admitted.request_digest@ == self.digest()
        &&& admitted.rendered == rendered
        &&& match self {
            NewIntent::Invitation(request) => {
                &&& admitted.purpose@ == INVITATION_PURPOSE@
                &&& admitted.correlation_id == request.correlation_id
                &&& admitted.causation_id == request.causation_id
                &&& admitted.requested_by == request.requested_by
            },
            NewIntent::AccessRequest(request) => {
                &&& admitted.purpose@ == ACCESS_REQUEST_PURPOSE@
                &&& admitted.correlation_id == request.correlation_id
                &&& admitted.causation_id == request.causation_id
                &&& admitted.requested_by == request.requested_by
            },
        }
    }

    /// The module that requests the intent.
    pub fn source_module(&self) -> (module: &str)
        ensures
            module@ == self.source().module_id@,
    {
        match self {
            NewIntent::Invitation(request) => request.source.module_id.as_str(),
            NewIntent::AccessRequest(request) => request.source.module_id.as_str(),
        }
    }

    /// The key under which the intent is accepted once.
    pub fn idempotency_key(&self) -> (key: &str)
        ensures
            key@ == self.key()@,
    {
        match self {
            NewIntent::Invitation(request) => request.idempotency_key.as_str(),
            NewIntent::AccessRequest(request) => request.idempotency_key.as_str(),
        }
    }

    /// The bytes over which the digest is taken.
    pub fn encoded(&self) -> (encoded: Vec<u8>)
        requires
            self.timely(),
        ensures
            encoded@ == encode_utf8(self.text()),
    {
        match self {
            NewIntent::Invitation(request) => encode_invitation(request),
            NewIntent::AccessRequest(request) => encode_access_request(request),
        }
    }

    fn find_replay(&self, existing: Option<StoredIntent>, now: UtcTime) -> (r: NotificationResult<
        Option<TransactionalIntentReceipt>,
    >)
        requires
            self.timely(),
        ensures
            match first_fault(self.faults(now)) {
                Some(message) => r matches Err(error) && error.is(ErrorCode::Validation, message),
                None => answers_replay(r, existing, self.digest()),
            },
    {
        let encoded = self.encoded();
        match self {
            NewIntent::Invitation(request) => find_transactional_email_intent_replay(
                request,
                encoded.as_slice(),
                existing,
                now,
            ),
            NewIntent::AccessRequest(request) => find_access_request_notification_replay(
                request,
                encoded.as_slice(),
                existing,
                now,
            ),
        }
    }

    fn render_request(&self) -> (request: RenderRequest)
        requires
            self.timely(),
        ensures
            self.asks(request),
    {
        match self {
            NewIntent::Invitation(intent) => organization_invitation_render_request(intent),
            NewIntent::AccessRequest(intent) => access_request_render_request(intent),
        }
    }

    fn admit_rendered(&self, rendered: &RenderedTemplate, now: UtcTime) -> (r: NotificationResult<
        IntentPersistence,
    >)
        requires
            self.timely(),
        ensures
            match first_fault(self.faults(now)) {
                Some(message) => r matches Err(error) && error.is(ErrorCode::Validation, message),
                None => if self.answered_by(*rendered) {
                    r matches Ok(admitted) && self.becomes(admitted, *rendered)
                } else {
                    r matches Err(error) && error.is(ErrorCode::Internal, RENDER_INVALID@)
                },
            },
    {
        let encoded = self.encoded();
        match self {
            NewIntent::Invitation(request) => admit_transactional_email_intent(
                request,
                encoded.as_slice(),
                rendered,
                now,
            ),
            NewIntent::AccessRequest(request) => admit_access_request_notification(
                request,
                encoded.as_slice(),
                rendered,
                now,
            ),
        }
    }
}

/// What is done next for an intent that is being created.
pub enum CreationStage {
    /// The ledger is asked for an intent under the same source and key.
    Lookup { intent: NewIntent },
    /// The template provider is asked for the message.
    Render { intent: NewIntent, request: RenderRequest },
    /// A transaction begins.
    Begin { intent: NewIntent, rendered: RenderedTemplate },
    /// The transaction takes the lock and asks the ledger again.
    Recheck { admitted: IntentPersistence, lock: String },
    /// The template release is stored unless there is one already.
    Release { admitted: IntentPersistence, release: TemplateReleaseRow },
    /// The snapshot, the intent and its delivery are stored.
    Record { rows: IntentRows },
    /// The transaction is committed.
    Commit { receipt: TransactionalIntentReceipt },
}

impl CreationStage {
    /// Whether the instants of the intent are in the calendar's range.
    pub open spec fn timely(self) -> bool {
        match self {
            CreationStage::Lookup { intent } => intent.timely(),
            CreationStage::Render { intent, .. } => intent.timely(),
            CreationStage::Begin { intent, .. } => intent.timely(),
            _ => true,
        }
    }
}

/// What came of a stage.
pub enum CreationEvent {
    /// What the ledger holds under the source and the key.
    Stored(Option<StoredIntent>),
    /// The provider rendered the message.
    Rendered(RenderResponse),
    /// The provider did not render the message.
    NotRendered(RenderInvocationError),
    /// The digest of the stored template release.
    Released(String),
    /// The stage was carried out.
    Done,
    /// The ledger could not carry the stage out.
    Failed(NotificationError),
    /// The transaction could not begin or could not be committed.
    Interrupted(RuntimeFailure),
}

/// Why an intent was not created.
pub enum CreationFailure {
    Ledger(NotificationError),
    Runtime(RuntimeFailure),
}

/// What follows from an event: the next stage, or the answer.
pub enum CreationStep {
    Go(CreationStage),
    Answer(Result<IntentResponse, CreationFailure>),
}

impl CreationStep {
    /// Whether this answers with a ledger failure.
    pub open spec fn refuses(self, code: ErrorCode, message: Seq<char>) -> bool {
        self matches CreationStep::Answer(Err(CreationFailure::Ledger(error))) && error.is(
            code,
            message,
        )
    }

    /// Whether this answers with an accepted intent.
    pub open spec fn accepts(self, receipt: TransactionalIntentReceipt) -> bool {
        self matches CreationStep::Answer(Ok(response)) && response.intent_id == receipt.intent_id
            && response.delivery_id == receipt.delivery_id && response.idempotent_replay
            == receipt.idempotent_replay && response.status is Queued
    }
}

/// The receipt of an intent that is stored already, or why there is none.
pub open spec fn replay_of(stored: StoredIntent, digest: Seq<char>) -> Result<
    TransactionalIntentReceipt,
    (ErrorCode, Seq<char>),
> {
    if stored.request_digest@ != digest {
        Err((ErrorCode::Conflict, KEY_REUSED@))
    } else {
        match delivery_status_named(stored.status@) {
            None => Err((ErrorCode::Internal, STORED_STATUS_INVALID@)),
            Some(status) => Ok(
                TransactionalIntentReceipt {
                    intent_id: stored.intent_id,
                    delivery_id: stored.delivery_id,
                    status,
                    idempotent_replay: true,
                },
            ),
        }
    }
}

/// Whether `release` is the template release of the rendered message.
pub open spec fn releases(
    release: TemplateReleaseRow,
    admitted: IntentPersistence,
    now: UtcTime,
) -> bool {
    &&& release.id@ == admitted.release_id()
    &&& release.template_id == admitted.rendered.template_id
    &&& release.version == admitted.rendered.template_version
    &&& release.locale == admitted.rendered.resolved_locale
    &&& release.renderer_identity == admitted.rendered.renderer_identity
    &&& release.template_digest == admitted.rendered.template_digest
    &&& release.created_at == now
}

/// Whether `rows` record the intent with a message that reveals to the rendered
/// one.
pub open spec fn records_protected<P: SnapshotProtector>(
    rows: IntentRows,
    admitted: IntentPersistence,
    now: UtcTime,
    protector: P,
) -> bool {
    exists|message: ProtectedMessage|
        {
            &&& message_reveals(protector, message, admitted)
            &&& message_protected(protector, message, admitted)
            &&& #[trigger] rows.record(admitted, message, now)
        }
}

/// Whether `step` is what follows from `event` at `stage`. An event that cannot
/// come of the stage leaves it as it is.
pub open spec fn creation_follows<P: SnapshotProtector>(
    step: CreationStep,
    stage: CreationStage,
    event: CreationEvent,
    now: UtcTime,
    protector: P,
) -> bool {
    match (stage, event) {
        (CreationStage::Lookup { intent }, CreationEvent::Stored(existing)) => match first_fault(
            intent.faults(now),
        ) {
            Some(message) => step.refuses(ErrorCode::Validation, message),
            None => match existing {
                None => step matches CreationStep::Go(
                    CreationStage::Render { intent: asked, request },
                ) && asked == intent && intent.asks(request),
                Some(stored) => match replay_of(stored, intent.digest()) {
                    Ok(receipt) => step.accepts(receipt),
                    Err((code, message)) => step.refuses(code, message),
                },
            },
        },
        (CreationStage::Render { intent, .. }, CreationEvent::Rendered(response)) => step
            == CreationStep::Go(
            CreationStage::Begin { intent, rendered: rendered_of(response) },
        ),
        (CreationStage::Render { .. }, CreationEvent::NotRendered(error)) => step
            matches CreationStep::Answer(Err(CreationFailure::Runtime(failure)))
            && explains_render(failure, error),
        (CreationStage::Begin { intent, rendered }, CreationEvent::Done) => match first_fault(
            intent.faults(now),
        ) {
            Some(message) => step.refuses(ErrorCode::Validation, message),
            None => if intent.answered_by(rendered) {
                step matches CreationStep::Go(CreationStage::Recheck { admitted, lock })
                    && intent.becomes(admitted, rendered) && lock@ == colon_joined(
                    "notification"@,
                    intent.source().module_id@,
                    intent.key()@,
                )
            } else {
                step.refuses(ErrorCode::Internal, RENDER_INVALID@)
            },
        },
        (CreationStage::Recheck { admitted, .. }, CreationEvent::Stored(existing)) =>
            match existing {
            None => if admitted.rendered.message_digest() == admitted.rendered.content_digest@ {
                step matches CreationStep::Go(CreationStage::Release { admitted: kept, release })
                    && kept == admitted && releases(release, admitted, now)
            } else {
                step.refuses(ErrorCode::Internal, CONTENT_DIGEST_MISMATCH@)
            },
            Some(stored) => match replay_of(stored, admitted.request_digest@) {
                Ok(receipt) => step == CreationStep::Go(CreationStage::Commit { receipt }),
                Err((code, message)) => step.refuses(code, message),
            },
        },
        (CreationStage::Release { admitted, .. }, CreationEvent::Released(stored_digest)) =>
            if stored_digest@ != admitted.rendered.template_digest@ {
            step.refuses(ErrorCode::Internal, RELEASE_IMMUTABLE@)
        } else {
            match step {
                CreationStep::Go(CreationStage::Record { rows }) => records_protected(
                    rows,
                    admitted,
                    now,
                    protector,
                ),
                CreationStep::Answer(Err(CreationFailure::Ledger(error))) => message_refused(
                    protector,
                    error,
                    admitted,
                ),
                _ => false,
            }
        },
        (CreationStage::Record { rows }, CreationEvent::Done) => step == CreationStep::Go(
            CreationStage::Commit { receipt: rows.receipt },
        ),
        (CreationStage::Commit { receipt }, CreationEvent::Done) => step.accepts(receipt),
        (CreationStage::Lookup { .. }, CreationEvent::Failed(error))
        | (CreationStage::Recheck { .. }, CreationEvent::Failed(error))
        | (CreationStage::Release { .. }, CreationEvent::Failed(error))
        | (CreationStage::Record { .. }, CreationEvent::Failed(error)) => step
            == CreationStep::Answer(Err(CreationFailure::Ledger(error))),
        (CreationStage::Begin { .. }, CreationEvent::Interrupted(failure))
        | (CreationStage::Commit { .. }, CreationEvent::Interrupted(failure)) => step
            == CreationStep::Answer(Err(CreationFailure::Runtime(failure))),
        _ => step == CreationStep::Go(stage),
    }
}

fn refused(error: NotificationError) -> (step: CreationStep)
    ensures
        step == CreationStep::Answer(Err(CreationFailure::Ledger(error))),
{
    CreationStep::Answer(Err(CreationFailure::Ledger(error)))
}

fn after_lookup(intent: NewIntent, existing: Option<StoredIntent>, now: UtcTime) -> (step:
    CreationStep)
    requires
        intent.timely(),
    ensures
        match first_fault(intent.faults(now)) {
            Some(message) => step.refuses(ErrorCode::Validation, message),
            None => match existing {
                None => step matches CreationStep::Go(
                    CreationStage::Render { intent: asked, request },
                ) && asked == intent && intent.asks(request),
                Some(stored) => match replay_of(stored, intent.digest()) {
                    Ok(receipt) => step.accepts(receipt),
                    Err((code, message)) => step.refuses(code, message),
                },
            },
        },
{
    match intent.find_replay(existing, now) {
        Err(error) => refused(error),
        Ok(Some(receipt)) => CreationStep::Answer(Ok(intent_response(receipt))),
        Ok(None) => {
            let request = intent.render_request();
            CreationStep::Go(CreationStage::Render { intent, request })
        },
    }
}

fn after_recheck(
    admitted: IntentPersistence,
    existing: Option<StoredIntent>,
    now: UtcTime,
) -> (step: CreationStep)
    ensures
        match existing {
            None => if admitted.rendered.message_digest() == admitted.rendered.content_digest@ {
                step matches CreationStep::Go(
                    CreationStage::Release { admitted: kept, release },
                ) && kept == admitted && releases(release, admitted, now)
            } else {
                step.refuses(ErrorCode::Internal, CONTENT_DIGEST_MISMATCH@)
            },
            Some(stored) => match replay_of(stored, admitted.request_digest@) {
                Ok(receipt) => step == CreationStep::Go(CreationStage::Commit { receipt }),
                Err((code, message)) => step.refuses(code, message),
            },
        },
{
    match start_intent(&admitted, existing, now) {
        Err(error) => refused(error),
        Ok(IntentStart::Replay(receipt)) => CreationStep::Go(CreationStage::Commit { receipt }),
        Ok(IntentStart::Release(release)) => CreationStep::Go(
            CreationStage::Release { admitted, release },
        ),
    }
}

/// How the creation of an intent begins: a faulty intent is refused before the
/// ledger is asked.
pub fn begin_creation(intent: NewIntent, now: UtcTime) -> (step: CreationStep)
    ensures
        match first_fault(intent.faults(now)) {
            Some(message) => step.refuses(ErrorCode::Validation, message),
            None => step == CreationStep::Go(CreationStage::Lookup { intent }),
        },
{
    let verdict = match &intent {
        NewIntent::Invitation(request) => validate_invitation_request(request, now),
        NewIntent::AccessRequest(request) => validate_access_request(request, now),
    };
    match verdict {
        Ok(()) => CreationStep::Go(CreationStage::Lookup { intent }),
        Err(error) => refused(error),
    }
}

/// What follows from what came of a stage.
///
/// Whether the message can be protected depends on the protector alone; where
/// it cannot, the step answers with the protector's error, or with the error
/// that its key changed.
pub fn advance_creation<P: SnapshotProtector>(
    stage: CreationStage,
    event: CreationEvent,
    now: UtcTime,
    protector: &P,
) -> (step: CreationStep)
    requires
        stage.timely(),
    ensures
        creation_follows(step, stage, event, now, *protector),
        step matches CreationStep::Go(next) ==> next.timely(),
{
    match (stage, event) {
        (CreationStage::Lookup { intent }, CreationEvent::Stored(existing)) => after_lookup(
            intent,
            existing,
            now,
        ),
        (CreationStage::Render { intent, .. }, CreationEvent::Rendered(response)) =>
            CreationStep::Go(
            CreationStage::Begin { intent, rendered: rendered_template(response) },
        ),
        (CreationStage::Render { .. }, CreationEvent::NotRendered(error)) => CreationStep::Answer(
            Err(CreationFailure::Runtime(map_template_render_error(error))),
        ),
        (CreationStage::Begin { intent, rendered }, CreationEvent::Done) => {
            match intent.admit_rendered(&rendered, now) {
                Ok(admitted) => {
                    let lock = admitted.lock_name();
                    CreationStep::Go(CreationStage::Recheck { admitted, lock })
                },
                Err(error) => refused(error),
            }
        },
        (CreationStage::Recheck { admitted, .. }, CreationEvent::Stored(existing)) => after_recheck(
            admitted,
            existing,
            now,
        ),
        (CreationStage::Release { admitted, .. }, CreationEvent::Released(stored_digest)) =>
            match persist_intent(&admitted, stored_digest.as_str(), now, protector) {
            Ok(rows) => CreationStep::Go(CreationStage::Record { rows }),
            Err(error) => refused(error),
        },
        (CreationStage::Record { rows }, CreationEvent::Done) => CreationStep::Go(
            CreationStage::Commit { receipt: rows.receipt },
        ),
        (CreationStage::Commit { receipt }, CreationEvent::Done) => CreationStep::Answer(
            Ok(intent_response(receipt)),
        ),
        (CreationStage::Lookup { .. }, CreationEvent::Failed(error))
        | (CreationStage::Recheck { .. }, CreationEvent::Failed(error))
        | (CreationStage::Release { .. }, CreationEvent::Failed(error))
        | (CreationStage::Record { .. }, CreationEvent::Failed(error)) => refused(error),
        (CreationStage::Begin { .. }, CreationEvent::Interrupted(failure))
        | (CreationStage::Commit { .. }, CreationEvent::Interrupted(failure)) =>
            CreationStep::Answer(Err(CreationFailure::Runtime(failure))),
        (stage, _) => CreationStep::Go(stage),
    }
}

/// How far along a stage is.
pub open spec fn creation_rank(stage: CreationStage) -> nat {
    match stage {
        CreationStage::Lookup { .. } => 0,
        CreationStage::Render { .. } => 1,
        CreationStage::Begin { .. } => 2,
        CreationStage::Recheck { .. } => 3,
        CreationStage::Release { .. } => 4,
        CreationStage::Record { .. } => 5,
        CreationStage::Commit { .. } => 6,
    }
}

/// Whether an event can come of a stage.
pub open spec fn creation_fits(stage: CreationStage, event: CreationEvent) -> bool {
    match stage {
        CreationStage::Lookup { .. } => event is Stored || event is Failed,
        CreationStage::Render { .. } => event is Rendered || event is NotRendered,
        CreationStage::Begin { .. } => event is Done || event is Interrupted,
        CreationStage::Recheck { .. } => event is Stored || event is Failed,
        CreationStage::Release { .. } => event is Released || event is Failed,
        CreationStage::Record { .. } => event is Done || event is Failed,
        CreationStage::Commit { .. } => event is Done || event is Interrupted,
    }
}

/// Creation never goes back, and it ends: what came of a stage leads to a later
/// stage or to the answer, so the message is rendered at most once and the
/// intent is stored at most once.
pub proof fn law_creation_never_goes_back<P: SnapshotProtector>(
    step: CreationStep,
    stage: CreationStage,
    event: CreationEvent,
    now: UtcTime,
    protector: P,
)
    requires
        creation_follows(step, stage, event, now, protector),
    ensures
        step matches CreationStep::Go(next) ==> next == stage || creation_rank(next)
            > creation_rank(stage),
        creation_fits(stage, event) ==> (step matches CreationStep::Go(next) ==> creation_rank(
            next,
        ) > creation_rank(stage)),
{
}

/// An intent that is stored already is answered without rendering anything,
/// whatever the template provider would do.
pub proof fn law_replay_needs_no_rendering<P: SnapshotProtector>(
    step: CreationStep,
    intent: NewIntent,
    stored: StoredIntent,
    now: UtcTime,
    protector: P,
)
    requires
        creation_follows(
            step,
            CreationStage::Lookup { intent },
            CreationEvent::Stored(Some(stored)),
            now,
            protector,
        ),
    ensures
        step is Answer,
{
}

/// Nothing is stored that was not rendered: a failed rendering answers with a
/// failure, a transaction begins only with a message that was rendered for this
/// very intent, and it goes on only where the message answers the request.
pub proof fn law_only_a_rendered_intent_is_stored<P: SnapshotProtector>(
    step: CreationStep,
    stage: CreationStage,
    event: CreationEvent,
    now: UtcTime,
    protector: P,
)
    requires
        creation_follows(step, stage, event, now, protector),
    ensures
        stage is Render && event is NotRendered ==> (step matches CreationStep::Answer(
            answer,
        ) && answer is Err),
        step matches CreationStep::Go(CreationStage::Begin { intent, rendered }) ==> !(
        stage is Begin) ==> {
            &&& stage matches CreationStage::Render { intent: asked, .. }
            &&& event matches CreationEvent::Rendered(response)
            &&& intent == asked
            &&& rendered == rendered_of(response)
        },
        step matches CreationStep::Go(CreationStage::Recheck { admitted, .. }) ==> !(
        stage is Recheck) ==> {
            &&& stage matches CreationStage::Begin { intent, rendered }
            &&& intent.answered_by(rendered)
            &&& intent.becomes(admitted, rendered)
            &&& first_fault(intent.faults(now)) is None
        },
        step matches CreationStep::Go(CreationStage::Record { rows }) ==> !(stage is Record) ==> {
            &&& stage matches CreationStage::Release { admitted, .. }
            &&& records_protected(rows, admitted, now, protector)
        },
{
}

/// A new intent that is carried through every stage is answered as queued under
/// the identity that its source, key and request fix.
pub proof fn law_created_intent_is_answered_as_queued<P: SnapshotProtector>(
    recorded: CreationStep,
    committed: CreationStep,
    answered: CreationStep,
    admitted: IntentPersistence,
    release: TemplateReleaseRow,
    stored_digest: String,
    rows: IntentRows,
    now: UtcTime,
    protector: P,
)
    requires
        recorded == CreationStep::Go(CreationStage::Record { rows }),
        creation_follows(
            recorded,
            CreationStage::Release { admitted, release },
            CreationEvent::Released(stored_digest),
            now,
            protector,
        ),
        creation_follows(
            committed,
            CreationStage::Record { rows },
            CreationEvent::Done,
            now,
            protector,
        ),
        creation_follows(
            answered,
            CreationStage::Commit { receipt: rows.receipt },
            CreationEvent::Done,
            now,
            protector,
        ),
    ensures
        committed == CreationStep::Go(CreationStage::Commit { receipt: rows.receipt }),
        answered matches CreationStep::Answer(Ok(response)) && response.intent_id@
            == admitted.intent_id() && response.delivery_id@ == admitted.delivery_id()
            && !response.idempotent_replay && response.status is Queued,
{
}

/// Intents have the same digest exactly where they have the same purpose and
/// agree in every field, unless their texts collide.
pub proof fn lemma_digest_tells_intent(a: NewIntent, b: NewIntent)
    requires
        !collide(a.text(), b.text()),
    ensures
        a.digest() == b.digest() <==> a.same(b),
{
    match (a, b) {
        (NewIntent::Invitation(x), NewIntent::Invitation(y)) => {
            lemma_text_tells_invitation(x, y);
        },
        (NewIntent::AccessRequest(x), NewIntent::AccessRequest(y)) => {
            lemma_text_tells_access_request(x, y);
        },
        (NewIntent::Invitation(x), NewIntent::AccessRequest(y)) => {
            lemma_purposes_have_different_texts(x, y);
        },
        (NewIntent::AccessRequest(x), NewIntent::Invitation(y)) => {
            lemma_purposes_have_different_texts(y, x);
        },
    }
    if a.text() != b.text() {
        lemma_digest_texts_differ(encode_utf8(a.text()), encode_utf8(b.text()));
    }
}

/// An intent is accepted once: where one is stored under the same source and
/// key, the same request is answered with it, whatever became of its delivery,
/// and a request that differs in any field is a conflict. Both hold before
/// anything is rendered and again under the lock.
pub proof fn law_changed_input_conflicts<P: SnapshotProtector>(
    first: NewIntent,
    again: NewIntent,
    stored: StoredIntent,
    status: DeliveryStatus,
    looked_up: CreationStep,
    rechecked: CreationStep,
    admitted: IntentPersistence,
    rendered: RenderedTemplate,
    lock: String,
    now: UtcTime,
    protector: P,
)
    requires
        stored.request_digest@ == first.digest(),
        stored.status@ == status.name(),
        first_fault(again.faults(now)) is None,
        again.becomes(admitted, rendered),
        creation_follows(
            looked_up,
            CreationStage::Lookup { intent: again },
            CreationEvent::Stored(Some(stored)),
            now,
            protector,
        ),
        creation_follows(
            rechecked,
            CreationStage::Recheck { admitted, lock },
            CreationEvent::Stored(Some(stored)),
            now,
            protector,
        ),
        !collide(first.text(), again.text()),
    ensures
        first.same(again) ==> {
            &&& looked_up matches CreationStep::Answer(Ok(response))
            &&& response.intent_id == stored.intent_id
            &&& response.delivery_id == stored.delivery_id
            &&& response.idempotent_replay
            &&& rechecked matches CreationStep::Go(CreationStage::Commit { receipt })
            &&& receipt.intent_id == stored.intent_id
            &&& receipt.delivery_id == stored.delivery_id
            &&& receipt.idempotent_replay
        },
        !first.same(again) ==> looked_up.refuses(ErrorCode::Conflict, KEY_REUSED@)
            && rechecked.refuses(ErrorCode::Conflict, KEY_REUSED@),
{
    lemma_digest_tells_intent(first, again);
    law_status_name_round_trip(status, stored.status@);
}

} // verus!
