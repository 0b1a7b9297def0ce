//! Claiming due deliveries for dispatch.

use vstd::prelude::*;
use vstd::string::*;

use crate::digest::{stable_id, stable_id_text};
use crate::domain::MAX_SAFE_WIRE_INTEGER;
use crate::email::{DispatchRequest, DispatchRequestMessage, DispatchRequestRecipient};
use crate::error::{ErrorCode, FailureView, NotificationError, NotificationResult};
use crate::events::REVISION_EXHAUSTED;
use crate::snapshot::{ProtectedValue, SnapshotProtector};
use crate::text::{same_text, signed_decimal, signed_decimal_text};
use crate::time::UtcTime;

verus! {

/// The identity of one claimed attempt.
#[derive(Debug, PartialEq, Eq)]
pub struct DispatchClaim {
    pub delivery_id: String,
    pub attempt_id: String,
    pub run_id: String,
}

/// A claimed attempt with the message to dispatch.
#[derive(PartialEq, Eq)]
pub struct DispatchWork {
    pub claim: DispatchClaim,
    pub request: DispatchRequest,
}

/// A delivery that may be claimed, with its protected message.
#[derive(Debug)]
pub struct DueRow {
    pub delivery_id: String,
    pub status: String,
    pub next_attempt_at: Option<UtcTime>,
    pub revision: i64,
    pub attempt_count: i32,
    pub max_attempts: i32,
    pub correlation_id: String,
    pub recipient_ciphertext: String,
    pub recipient_key_ref: String,
    pub locale: String,
    pub subject_ciphertext: String,
    pub text_ciphertext: String,
    pub html_ciphertext: String,
    pub protection_key_ref: String,
    pub content_digest: String,
    pub template_id: String,
    pub template_version: String,
}

impl DueRow {
    /// Whether an attempt of the delivery is due at `now`.
    pub open spec fn due(self, now: UtcTime) -> bool {
        &&& self.status@ == "queued"@ || self.status@ == "retry_scheduled"@
        &&& self.next_attempt_at matches Some(at) && at.at_most(now)
    }

    fn is_due(&self, now: &UtcTime) -> (r: bool)
        ensures
            r == self.due(*now),
    {
        (same_text(self.status.as_str(), "queued") || same_text(
            self.status.as_str(),
            "retry_scheduled",
        )) && match &self.next_attempt_at {
            Some(at) => !now.is_before(at),
            None => false,
        }
    }

    /// The number of the attempt that a claim starts.
    pub open spec fn next_sequence(self) -> int {
        self.attempt_count + 1
    }

    /// The identifier of the attempt that a claim starts.
    pub open spec fn attempt_id(self) -> Seq<char> {
        stable_id_text(
            "ntf_att"@,
            self.delivery_id@ + ":"@ + signed_decimal_text(self.next_sequence()),
        )
    }
}

/// The attempt that a claim adds to the ledger before anything is dispatched.
#[derive(Debug)]
pub struct AttemptInsert {
    pub id: String,
    pub delivery_id: String,
    pub sequence: i32,
    pub function_run_id: String,
    pub dispatch_event_id: String,
    pub started_at: UtcTime,
}

/// The effect of a claim: the new attempt, the delivery under its new revision
/// and attempt count, and the work for the provider.
pub struct DueClaim {
    pub attempt: AttemptInsert,
    pub expected_revision: i64,
    pub new_revision: i64,
    pub work: DispatchWork,
}

pub const EXHAUSTED_BEFORE_DISPATCH: &'static str =
    "Notification delivery exhausted before dispatch";

pub const CHANGED_WHILE_CLAIMED: &'static str =
    "Notification delivery changed while it was being claimed";

/// The parts of a message as they are revealed, or what is told of the first
/// failure. The recipient comes first, then subject, text and HTML.
pub open spec fn revealed_parts<P: SnapshotProtector>(protector: P, row: DueRow) -> Result<
    (Seq<char>, Seq<char>, Seq<char>, Seq<char>),
    FailureView,
> {
    match protector.revealed(row.recipient_ciphertext@, row.recipient_key_ref@) {
        Err(failure) => Err(failure),
        Ok(address) => match protector.revealed(row.subject_ciphertext@, row.protection_key_ref@) {
            Err(failure) => Err(failure),
            Ok(subject) => match protector.revealed(row.text_ciphertext@, row.protection_key_ref@) {
                Err(failure) => Err(failure),
                Ok(text) => match protector.revealed(
                    row.html_ciphertext@,
                    row.protection_key_ref@,
                ) {
                    Err(failure) => Err(failure),
                    Ok(html) => Ok((address, subject, text, html)),
                },
            },
        },
    }
}

impl DueClaim {
    /// Whether this claims `row` at `now` with the revealed message parts.
    pub open spec fn claims(
        self,
        row: DueRow,
        now: UtcTime,
        parts: (Seq<char>, Seq<char>, Seq<char>, Seq<char>),
    ) -> bool {
        let run_id = stable_id_text("ntf_run"@, row.attempt_id());
        &&& self.attempt.id@ == row.attempt_id()
        &&& self.attempt.delivery_id@ == row.delivery_id@
        &&& self.attempt.sequence == row.next_sequence()
        &&& self.attempt.function_run_id@ == run_id
        &&& self.attempt.dispatch_event_id@ == stable_id_text("dispatch"@, row.attempt_id())
        &&& self.attempt.started_at == now
        &&& self.expected_revision == row.revision
        &&& self.new_revision == row.revision + 1
        &&& self.work.claim.delivery_id@ == row.delivery_id@
        &&& self.work.claim.attempt_id@ == row.attempt_id()
        &&& self.work.claim.run_id@ == run_id
        &&& self.work.request.delivery_id@ == row.delivery_id@
        &&& self.work.request.attempt_id@ == row.attempt_id()
        &&& self.work.request.run_id@ == run_id
        &&& self.work.request.idempotency_key@ == row.attempt_id()
        &&& self.work.request.recipient.address@ == parts.0
        &&& self.work.request.message.template_id == row.template_id
        &&& self.work.request.message.template_version == row.template_version
        &&& self.work.request.message.locale == row.locale
        &&& self.work.request.message.subject@ == parts.1
        &&& self.work.request.message.text@ == parts.2
        &&& self.work.request.message.html@ == parts.3
        &&& self.work.request.message.content_digest == row.content_digest
        &&& self.work.request.correlation_id == row.correlation_id
    }
}

fn unprotect_part<P: SnapshotProtector>(
    protector: &P,
    ciphertext: &String,
    key_reference: &String,
) -> (r: NotificationResult<String>)
    ensures
        crate::snapshot::reveals(r, protector.revealed(ciphertext@, key_reference@)),
{
    protector.unprotect(
        &ProtectedValue { ciphertext: ciphertext.clone(), key_reference: key_reference.clone() },
    )
}

/// Claims a due delivery: the attempt, the new state of the delivery and the
/// work for the provider. A delivery that is not due is not claimed.
pub fn claim_one_due<P: SnapshotProtector>(row: DueRow, now: UtcTime, protector: &P) -> (r:
    NotificationResult<Option<DueClaim>>)
    ensures
        if !row.due(now) {
            r matches Ok(claim) && claim is None
        } else if row.revision >= MAX_SAFE_WIRE_INTEGER {
            r matches Err(error) && error.is(ErrorCode::Conflict, REVISION_EXHAUSTED@)
        } else if row.attempt_count >= row.max_attempts {
            r matches Err(error) && error.is(ErrorCode::Conflict, EXHAUSTED_BEFORE_DISPATCH@)
        } else {
            match revealed_parts(*protector, row) {
                Err(failure) => r matches Err(error) && error.told() == failure,
                Ok(parts) => r matches Ok(Some(claim)) && claim.claims(row, now, parts),
            }
        },
{
    if !row.is_due(&now) {
        return Ok(None);
    }
    if row.revision >= MAX_SAFE_WIRE_INTEGER {
        return Err(NotificationError::new(ErrorCode::Conflict, REVISION_EXHAUSTED));
    }
    if row.attempt_count >= row.max_attempts {
        return Err(NotificationError::new(ErrorCode::Conflict, EXHAUSTED_BEFORE_DISPATCH));
    }
    let sequence: i32 = row.attempt_count + 1;
    let mut attempt_name = row.delivery_id.clone();
    attempt_name.append(":");
    attempt_name.append(signed_decimal(sequence).as_str());
    let attempt_id = stable_id("ntf_att", attempt_name.as_str());
    let run_id = stable_id("ntf_run", attempt_id.as_str());
    let dispatch_event_id = stable_id("dispatch", attempt_id.as_str());
    let address = match unprotect_part(
        protector,
        &row.recipient_ciphertext,
        &row.recipient_key_ref,
    ) {
        Ok(text) => text,
        Err(error) => {
            return Err(error);
        },
    };
    let subject = match unprotect_part(
        protector,
        &row.subject_ciphertext,
        &row.protection_key_ref,
    ) {
        Ok(text) => text,
        Err(error) => {
            return Err(error);
        },
    };
    let text = match unprotect_part(protector, &row.text_ciphertext, &row.protection_key_ref) {
        Ok(text) => text,
        Err(error) => {
            return Err(error);
        },
    };
    let html = match unprotect_part(protector, &row.html_ciphertext, &row.protection_key_ref) {
        Ok(text) => text,
        Err(error) => {
            return Err(error);
        },
    };
    let attempt = AttemptInsert {
        id: attempt_id.clone(),
        delivery_id: row.delivery_id.clone(),
        sequence,
        function_run_id: run_id.clone(),
        dispatch_event_id,
        started_at: now,
    };
    let request = DispatchRequest {
        delivery_id: row.delivery_id.clone(),
        attempt_id: attempt_id.clone(),
        run_id: run_id.clone(),
        idempotency_key: attempt_id.clone(),
        recipient: DispatchRequestRecipient { address },
        message: DispatchRequestMessage {
            template_id: row.template_id,
            template_version: row.template_version,
            locale: row.locale,
            subject,
            text,
            html,
            content_digest: row.content_digest,
        },
        correlation_id: row.correlation_id,
    };
    let claim = DispatchClaim { delivery_id: row.delivery_id, attempt_id, run_id };
    Ok(
        Some(
            DueClaim {
                attempt,
                expected_revision: row.revision,
                new_revision: row.revision + 1,
                work: DispatchWork { claim, request },
            },
        ),
    )
}

/// What is dispatched is what was accepted: the message revealed for a claim is
/// the rendered message and the recipient of the intent.
pub proof fn law_claim_reveals_the_accepted_message<P: SnapshotProtector>(
    protector: P,
    intent: crate::public::IntentPersistence,
    message: crate::public::ProtectedMessage,
    accepted_at: UtcTime,
    rows: crate::public::IntentRows,
    row: DueRow,
)
    requires
        rows.record(intent, message, accepted_at),
        crate::public::message_reveals(protector, message, intent),
        crate::public::one_key(message.subject, message.text, message.html),
        row.recipient_ciphertext@ == rows.intent.recipient_ciphertext@,
        row.recipient_key_ref@ == rows.intent.recipient_key_ref@,
        row.subject_ciphertext@ == rows.snapshot.subject_ciphertext@,
        row.text_ciphertext@ == rows.snapshot.text_ciphertext@,
        row.html_ciphertext@ == rows.snapshot.html_ciphertext@,
        row.protection_key_ref@ == rows.snapshot.protection_key_ref@,
    ensures
        revealed_parts(protector, row) == Ok::<
            (Seq<char>, Seq<char>, Seq<char>, Seq<char>),
            FailureView,
        >(
            (
                intent.recipient.address@,
                intent.rendered.subject@,
                intent.rendered.text@,
                intent.rendered.html@,
            ),
        ),
{
}

/// A claim follows the status rules and uses up one attempt of those allowed.
pub proof fn law_claim_is_an_allowed_attempt(
    row: DueRow,
    now: UtcTime,
    parts: (Seq<char>, Seq<char>, Seq<char>, Seq<char>),
    claim: DueClaim,
    status: crate::domain::DeliveryStatus,
)
    requires
        row.due(now),
        row.status@ == status.name(),
        row.attempt_count < row.max_attempts,
        row.revision < MAX_SAFE_WIRE_INTEGER,
        claim.claims(row, now, parts),
    ensures
        crate::domain::follows(status, crate::domain::DeliveryStatus::Attempting),
        claim.attempt.sequence == row.attempt_count + 1,
        claim.attempt.sequence <= row.max_attempts,
        claim.new_revision == row.revision + 1,
        claim.new_revision <= MAX_SAFE_WIRE_INTEGER,
{
    crate::domain::lemma_status_names_differ();
    assert(crate::domain::DeliveryStatus::Queued.name() == "queued"@);
    assert(crate::domain::DeliveryStatus::RetryScheduled.name() == "retry_scheduled"@);
}

/// A delivery whose next attempt is planned for later is not due yet.
pub proof fn law_no_early_attempt(row: DueRow, now: UtcTime, at: UtcTime)
    requires
        row.next_attempt_at == Some(at),
        now.before(at),
    ensures
        !row.due(now),
{
}

/// An ambiguous delivery is never claimed, at any instant.
pub proof fn law_unknown_is_never_claimed(row: DueRow, now: UtcTime)
    requires
        row.status@ == "delivery_unknown"@,
    ensures
        !row.due(now),
{
    crate::domain::lemma_unknown_name_differs();
}

} // verus!
