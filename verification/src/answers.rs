//! How the ledger's outcomes are answered by each capability.

use vstd::prelude::*;
use vstd::string::*;

use crate::admin;
use crate::delivery;
use crate::error::{ledger_failure, plugin_failure, ErrorCode, NotificationError, PluginError,
    RuntimeFailure};
use crate::events::REVISION_EXHAUSTED;
use crate::public::TransactionalIntentReceipt;
use crate::repository::{NOT_ELIGIBLE, REVISION_STALE};
use crate::runtime::DueClaim;
use crate::text::{contains_text, occurs};
use crate::transactional::{CreateAccessRequestNotificationError,
    CreateOrganizationInvitationError, IntentResponse, IntentStatus,
    ObserveInvitationLifecycleError};

verus! {

pub const NOT_PREPARED: &'static str = "Notification Plugin is not prepared";

/// The failure of every operation before the plugin is prepared.
pub fn not_prepared() -> (failure: RuntimeFailure)
    ensures
        failure.is_plugin_failure(NOT_PREPARED@),
{
    plugin_failure(NOT_PREPARED)
}

/// Whether `answer` is the domain answer, where there is one, and otherwise the
/// runtime failure with the public text of `error`.
pub open spec fn answers<E>(
    answer: PluginError<E>,
    domain: Option<E>,
    error: NotificationError,
) -> bool {
    match domain {
        Some(expected) => answer == PluginError::Domain(expected),
        None => answer matches PluginError::Runtime(failure) && failure.is_plugin_failure(
            error.text(),
        ),
    }
}

fn answer_with<E>(domain: Option<E>, error: NotificationError) -> (answer: PluginError<E>)
    ensures
        answers(answer, domain, error),
{
    match domain {
        Some(expected) => PluginError::Domain(expected),
        None => PluginError::Runtime(ledger_failure(&error)),
    }
}

/// The domain answer to a failed invitation.
pub open spec fn create_answer(code: ErrorCode) -> Option<CreateOrganizationInvitationError> {
    match code {
        ErrorCode::Validation => Some(CreateOrganizationInvitationError::InvalidIntent),
        ErrorCode::Conflict => Some(CreateOrganizationInvitationError::IdempotencyConflict),
        _ => None,
    }
}

pub fn map_create_error(error: NotificationError) -> (answer: PluginError<
    CreateOrganizationInvitationError,
>)
    ensures
        answers(answer, create_answer(error.code), error),
{
    let domain = match error.code {
        ErrorCode::Validation => Some(CreateOrganizationInvitationError::InvalidIntent),
        ErrorCode::Conflict => Some(CreateOrganizationInvitationError::IdempotencyConflict),
        _ => None,
    };
    answer_with(domain, error)
}

/// The domain answer to a failed access-request notification.
pub open spec fn access_request_answer(code: ErrorCode) -> Option<
    CreateAccessRequestNotificationError,
> {
    match code {
        ErrorCode::Validation => Some(CreateAccessRequestNotificationError::InvalidIntent),
        ErrorCode::Conflict => Some(CreateAccessRequestNotificationError::IdempotencyConflict),
        _ => None,
    }
}

pub fn map_access_request_create_error(error: NotificationError) -> (answer: PluginError<
    CreateAccessRequestNotificationError,
>)
    ensures
        answers(answer, access_request_answer(error.code), error),
{
    let domain = match error.code {
        ErrorCode::Validation => Some(CreateAccessRequestNotificationError::InvalidIntent),
        ErrorCode::Conflict => Some(CreateAccessRequestNotificationError::IdempotencyConflict),
        _ => None,
    };
    answer_with(domain, error)
}

/// The domain answer to a failed invitation observation.
pub open spec fn lifecycle_answer(code: ErrorCode) -> Option<ObserveInvitationLifecycleError> {
    match code {
        ErrorCode::Validation => Some(ObserveInvitationLifecycleError::InvalidObservation),
        ErrorCode::Conflict => Some(ObserveInvitationLifecycleError::ObservationConflict),
        _ => None,
    }
}

pub fn map_lifecycle_error(error: NotificationError) -> (answer: PluginError<
    ObserveInvitationLifecycleError,
>)
    ensures
        answers(answer, lifecycle_answer(error.code), error),
{
    let domain = match error.code {
        ErrorCode::Validation => Some(ObserveInvitationLifecycleError::InvalidObservation),
        ErrorCode::Conflict => Some(ObserveInvitationLifecycleError::ObservationConflict),
        _ => None,
    };
    answer_with(domain, error)
}

/// The domain answer to a failed receipt.
pub open spec fn receipt_answer(code: ErrorCode) -> Option<delivery::ObserveReceiptError> {
    match code {
        ErrorCode::Validation => Some(delivery::ObserveReceiptError::InvalidReceipt),
        ErrorCode::NotFound => Some(delivery::ObserveReceiptError::DeliveryNotFound),
        ErrorCode::Conflict => Some(delivery::ObserveReceiptError::ReceiptConflict),
        _ => None,
    }
}

pub fn map_receipt_error(error: NotificationError) -> (answer: PluginError<
    delivery::ObserveReceiptError,
>)
    ensures
        answers(answer, receipt_answer(error.code), error),
{
    let domain = match error.code {
        ErrorCode::Validation => Some(delivery::ObserveReceiptError::InvalidReceipt),
        ErrorCode::NotFound => Some(delivery::ObserveReceiptError::DeliveryNotFound),
        ErrorCode::Conflict => Some(delivery::ObserveReceiptError::ReceiptConflict),
        _ => None,
    };
    answer_with(domain, error)
}

/// The domain answer to a failed look at one delivery.
pub open spec fn get_answer(code: ErrorCode) -> Option<admin::GetDeliveryError> {
    match code {
        ErrorCode::EvidenceOverflow => Some(admin::GetDeliveryError::EvidenceOverflow),
        _ => None,
    }
}

pub fn map_get_error(error: NotificationError) -> (answer: PluginError<admin::GetDeliveryError>)
    ensures
        answers(answer, get_answer(error.code), error),
{
    let domain = match error.code {
        ErrorCode::EvidenceOverflow => Some(admin::GetDeliveryError::EvidenceOverflow),
        _ => None,
    };
    answer_with(domain, error)
}

/// The domain answer to a failed retry. Conflicts are told apart by what their
/// text says.
pub open spec fn retry_answer(code: ErrorCode, message: Seq<char>) -> Option<
    admin::RetryDeliveryError,
> {
    match code {
        ErrorCode::NotFound => Some(admin::RetryDeliveryError::DeliveryNotFound),
        ErrorCode::Conflict => Some(
            if occurs(message, "revision is stale"@) {
                admin::RetryDeliveryError::StaleRevision
            } else if occurs(message, "not eligible"@) {
                admin::RetryDeliveryError::RetryNotAllowed
            } else {
                admin::RetryDeliveryError::IdempotencyConflict
            },
        ),
        _ => None,
    }
}

pub fn map_retry_error(error: NotificationError) -> (answer: PluginError<
    admin::RetryDeliveryError,
>)
    ensures
        answers(answer, retry_answer(error.code, error.text()), error),
{
    let domain = match error.code {
        ErrorCode::NotFound => Some(admin::RetryDeliveryError::DeliveryNotFound),
        ErrorCode::Conflict => if contains_text(error.message(), "revision is stale") {
            Some(admin::RetryDeliveryError::StaleRevision)
        } else if contains_text(error.message(), "not eligible") {
            Some(admin::RetryDeliveryError::RetryNotAllowed)
        } else {
            Some(admin::RetryDeliveryError::IdempotencyConflict)
        },
        _ => None,
    };
    answer_with(domain, error)
}

/// The answer to an accepted intent.
pub fn intent_response(receipt: TransactionalIntentReceipt) -> (response: IntentResponse)
    ensures
        response.delivery_id == receipt.delivery_id,
        response.idempotent_replay == receipt.idempotent_replay,
        response.intent_id == receipt.intent_id,
        response.status is Queued,
{
    IntentResponse {
        delivery_id: receipt.delivery_id,
        idempotent_replay: receipt.idempotent_replay,
        intent_id: receipt.intent_id,
        status: IntentStatus::Queued,
    }
}

pub const ONE_EMAIL_PROVIDER: &'static str =
    "Notification requires exactly one lenso.email-dispatch@1 Provider";

/// The instance of the email provider: there must be exactly one.
pub fn bound_email_provider(instances: &Vec<String>) -> (r: Result<String, RuntimeFailure>)
    ensures
        if instances@.len() == 1 {
            r matches Ok(instance) && instance == instances@[0]
        } else {
            r matches Err(RuntimeFailure::InvalidResolvedPlan { detail }) && detail@
                == ONE_EMAIL_PROVIDER@
        },
{
    if instances.len() == 1 {
        Ok(instances[0].clone())
    } else {
        Err(RuntimeFailure::InvalidResolvedPlan { detail: ONE_EMAIL_PROVIDER.to_owned() })
    }
}

/// The failure of a secret that its provider refused, without its value.
pub fn secret_rejected(reference: &str) -> (failure: RuntimeFailure)
    ensures
        failure.is_plugin_failure("secret `"@ + reference@ + "` was rejected"@),
{
    let mut detail = "secret `".to_owned();
    detail.append(reference);
    detail.append("` was rejected");
    plugin_failure(detail.as_str())
}

/// The claim to dispatch, or the answer that nothing is due.
pub fn claimed_work(claim: Option<DueClaim>) -> (r: Result<
    DueClaim,
    PluginError<delivery::DispatchDueError>,
>)
    ensures
        match claim {
            Some(found) => r == Ok::<DueClaim, PluginError<delivery::DispatchDueError>>(found),
            None => r == Err::<DueClaim, _>(
                PluginError::Domain(delivery::DispatchDueError::NoDeliveryDue),
            ),
        },
{
    match claim {
        Some(found) => Ok(found),
        None => Err(PluginError::Domain(delivery::DispatchDueError::NoDeliveryDue)),
    }
}

/// Whether `a` stands in none of the first `count` places with `b` standing
/// `gap` places further on.
spec fn no_pair(text: Seq<char>, a: char, b: char, gap: int, count: int) -> bool
    decreases count,
{
    count <= 0 || (!(text[count - 1] == a && text[count - 1 + gap] == b) && no_pair(
        text,
        a,
        b,
        gap,
        count - 1,
    ))
}

proof fn lemma_no_pair(text: Seq<char>, part: Seq<char>, gap: int, count: int, at: int)
    requires
        0 <= gap < part.len(),
        no_pair(text, part[0], part[gap], gap, count),
        at < count,
    ensures
        !crate::text::stands_at(text, part, at),
    decreases count,
{
    if crate::text::stands_at(text, part, at) {
        let found = text.subrange(at, at + part.len());
        assert(found[0] == text[at] && found[gap] == text[at + gap]);
        if at < count - 1 {
            lemma_no_pair(text, part, gap, count - 1, at);
        }
    }
}

/// Each refusal of a manual retry has an answer of its own: a missing
/// delivery, a stale revision and a delivery that may not be retried.
pub proof fn law_retry_refusals_are_told_apart(
    target: Option<crate::repository::RetryTarget>,
    expected_revision: i64,
)
    requires
        crate::repository::manual_retry_refusal(target, expected_revision) is Some,
    ensures
        ({
            let refusal = crate::repository::manual_retry_refusal(
                target,
                expected_revision,
            )->Some_0;
            let answer = retry_answer(refusal.0, refusal.1);
            &&& answer is Some
            &&& answer->Some_0 is DeliveryNotFound <==> target is None
            &&& answer->Some_0 is StaleRevision <==> (target matches Some(found) && found.revision
                != expected_revision)
            &&& answer->Some_0 is RetryNotAllowed <==> refusal.1 == NOT_ELIGIBLE@
        }),
{
    reveal_strlit("Notification delivery was not found");
    reveal_strlit("Notification delivery revision is stale");
    reveal_strlit("Notification delivery revision exhausted the portable wire range");
    reveal_strlit("Notification delivery is not eligible for retry");
    reveal_strlit("revision is stale");
    reveal_strlit("not eligible");
    let refusal = crate::repository::manual_retry_refusal(target, expected_revision)->Some_0;
    let stale = "revision is stale"@;
    let not = "not eligible"@;
    assert(REVISION_STALE@.subrange(22, 39) =~= stale);
    assert(crate::text::stands_at(REVISION_STALE@, stale, 22));
    assert(NOT_ELIGIBLE@.subrange(25, 37) =~= not);
    assert(crate::text::stands_at(NOT_ELIGIBLE@, not, 25));
    reveal_with_fuel(no_pair, 54);
    assert(no_pair(NOT_ELIGIBLE@, 'r', 'i', 9, 31));
    assert(no_pair(REVISION_EXHAUSTED@, 'r', 'i', 9, 48));
    assert(no_pair(REVISION_EXHAUSTED@, 'n', 'o', 1, 53));
    assert forall|at: int| !#[trigger] crate::text::stands_at(NOT_ELIGIBLE@, stale, at) by {
        if at < 31 {
            lemma_no_pair(NOT_ELIGIBLE@, stale, 9, 31, at);
        }
    }
    assert forall|at: int| !#[trigger] crate::text::stands_at(REVISION_EXHAUSTED@, stale, at) by {
        if at < 48 {
            lemma_no_pair(REVISION_EXHAUSTED@, stale, 9, 48, at);
        }
    }
    assert forall|at: int| !#[trigger] crate::text::stands_at(REVISION_EXHAUSTED@, not, at) by {
        if at < 53 {
            lemma_no_pair(REVISION_EXHAUSTED@, not, 1, 53, at);
        }
    }
}

} // verus!
