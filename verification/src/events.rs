//! Observations of dispatches, receipts, runtime ends and invitations: which
//! are admitted and what each does to the ledger.

use vstd::prelude::*;
use vstd::string::*;

use crate::contracts::{DispatchOutcome, EmailDispatchObserved, EmailReceiptObserved,
    OrganizationInvitationLifecycle, ReceiptKind, RuntimeFunctionTerminal,
    EMAIL_DISPATCH_OBSERVED_EVENT, EMAIL_RECEIPT_OBSERVED_EVENT,
    ORGANIZATION_INVITATION_ACCEPTED_EVENT, ORGANIZATION_INVITATION_EXPIRED_EVENT,
    ORGANIZATION_INVITATION_REVOKED_EVENT, RUNTIME_FUNCTION_TERMINAL_EVENT};
use crate::digest::{digest_text, encoded_digest, stable_id, stable_id_text, valid_digest,
    valid_digest_text};
use crate::domain::{follows, AttemptStatus, DeliveryStatus, RetryKind, RetryPolicy,
    MAX_SAFE_WIRE_INTEGER};
use crate::error::{ErrorCode, NotificationError, NotificationResult};
use crate::faults::{accepts_unless, first_fault, rule, FaultList};
use crate::public::{colon_joined, join_colon};
use crate::text::{bounded, char_count, leading, required_bounded, same_text, within};
use crate::time::{add_millis, UtcTime};

verus! {

pub const EMAIL_RUNTIME_OWNER: &'static str = "lenso/email-delivery";

pub const EMAIL_DISPATCH_FUNCTION: &'static str = "lenso.email.dispatch.v1";

/// The most characters of an observation's source.
pub const SOURCE_LIMIT: usize = 160;

/// What surrounds the payload of an observation.
#[derive(Debug, PartialEq, Eq)]
pub struct ObservationEnvelope {
    pub id: String,
    pub event_name: String,
    pub event_version: i32,
    pub source_module: String,
    pub aggregate_id: String,
    pub occurred_at: UtcTime,
}

/// Which payload an event carries.
#[derive(Debug, Clone, Copy, PartialEq, Eq, Structural)]
pub enum PayloadKind {
    Dispatch,
    Receipt,
    RuntimeTerminal,
    InvitationLifecycle,
}

/// The payload that an event of the given name carries.
pub open spec fn payload_named(name: Seq<char>) -> Option<PayloadKind> {
    if name == EMAIL_DISPATCH_OBSERVED_EVENT@ {
        Some(PayloadKind::Dispatch)
    } else if name == EMAIL_RECEIPT_OBSERVED_EVENT@ {
        Some(PayloadKind::Receipt)
    } else if name == RUNTIME_FUNCTION_TERMINAL_EVENT@ {
        Some(PayloadKind::RuntimeTerminal)
    } else if name == ORGANIZATION_INVITATION_ACCEPTED_EVENT@ || name
        == ORGANIZATION_INVITATION_REVOKED_EVENT@ || name
        == ORGANIZATION_INVITATION_EXPIRED_EVENT@ {
        Some(PayloadKind::InvitationLifecycle)
    } else {
        None
    }
}

pub const UNDECLARED_EVENT: &'static str = "Notification received an undeclared Event contract";

pub const UNKNOWN_EVENT: &'static str = "Notification Event handler is misconfigured";

pub const PAYLOAD_INVALID: &'static str = "Notification Event payload is invalid";

pub const SOURCE_INVALID: &'static str = "Notification observation source is invalid";

pub const SOURCE_MISMATCH: &'static str =
    "Notification observation source does not match its payload";

/// Whether `r` tells the payload of an event that a handler of events of the
/// given name received. Only version 1 of the expected event is declared.
pub open spec fn expects_payload(
    r: NotificationResult<PayloadKind>,
    expected_event_name: Seq<char>,
    event: ObservationEnvelope,
) -> bool {
    if event.event_name@ != expected_event_name || event.event_version != 1 {
        r matches Err(error) && error.is(ErrorCode::Validation, UNDECLARED_EVENT@)
    } else {
        match payload_named(expected_event_name) {
            Some(kind) => r matches Ok(found) && found == kind,
            None => r matches Err(error) && error.is(ErrorCode::Validation, UNKNOWN_EVENT@),
        }
    }
}

/// The payload to decode for an event that a handler of `expected_event_name`
/// received.
pub fn expected_payload(expected_event_name: &str, event: &ObservationEnvelope) -> (r:
    NotificationResult<PayloadKind>)
    ensures
        expects_payload(r, expected_event_name@, *event),
{
    if !same_text(event.event_name.as_str(), expected_event_name) || event.event_version != 1 {
        return Err(NotificationError::new(ErrorCode::Validation, UNDECLARED_EVENT));
    }
    if same_text(expected_event_name, EMAIL_DISPATCH_OBSERVED_EVENT) {
        Ok(PayloadKind::Dispatch)
    } else if same_text(expected_event_name, EMAIL_RECEIPT_OBSERVED_EVENT) {
        Ok(PayloadKind::Receipt)
    } else if same_text(expected_event_name, RUNTIME_FUNCTION_TERMINAL_EVENT) {
        Ok(PayloadKind::RuntimeTerminal)
    } else if same_text(expected_event_name, ORGANIZATION_INVITATION_ACCEPTED_EVENT) || same_text(
        expected_event_name,
        ORGANIZATION_INVITATION_REVOKED_EVENT,
    ) || same_text(expected_event_name, ORGANIZATION_INVITATION_EXPIRED_EVENT) {
        Ok(PayloadKind::InvitationLifecycle)
    } else {
        Err(NotificationError::new(ErrorCode::Validation, UNKNOWN_EVENT))
    }
}

pub const DISPATCH_HANDLER: &'static str = "notification.apply-email-dispatch-observation.v1";

pub const RECEIPT_HANDLER: &'static str = "notification.apply-email-receipt.v1";

pub const TERMINAL_HANDLER: &'static str = "notification.apply-runtime-terminal.v1";

pub const INVITATION_ACCEPTED_HANDLER: &'static str = "notification.apply-invitation-accepted.v1";

pub const INVITATION_REVOKED_HANDLER: &'static str = "notification.apply-invitation-revoked.v1";

/// Handles the events of one name.
#[derive(Debug, Clone, Copy)]
pub struct NotificationEventHandler {
    pub handler_name: &'static str,
    pub event_name: &'static str,
}

impl NotificationEventHandler {
    /// Whether this is the named handler of the named event.
    pub open spec fn handles(self, handler_name: Seq<char>, event_name: Seq<char>) -> bool {
        self.handler_name@ == handler_name && self.event_name@ == event_name
    }

    pub fn dispatch_observed() -> (handler: Self)
        ensures
            handler.handles(DISPATCH_HANDLER@, EMAIL_DISPATCH_OBSERVED_EVENT@),
    {
        NotificationEventHandler {
            handler_name: DISPATCH_HANDLER,
            event_name: EMAIL_DISPATCH_OBSERVED_EVENT,
        }
    }

    pub fn receipt_observed() -> (handler: Self)
        ensures
            handler.handles(RECEIPT_HANDLER@, EMAIL_RECEIPT_OBSERVED_EVENT@),
    {
        NotificationEventHandler {
            handler_name: RECEIPT_HANDLER,
            event_name: EMAIL_RECEIPT_OBSERVED_EVENT,
        }
    }

    pub fn runtime_terminal() -> (handler: Self)
        ensures
            handler.handles(TERMINAL_HANDLER@, RUNTIME_FUNCTION_TERMINAL_EVENT@),
    {
        NotificationEventHandler {
            handler_name: TERMINAL_HANDLER,
            event_name: RUNTIME_FUNCTION_TERMINAL_EVENT,
        }
    }

    pub fn invitation_accepted() -> (handler: Self)
        ensures
            handler.handles(INVITATION_ACCEPTED_HANDLER@, ORGANIZATION_INVITATION_ACCEPTED_EVENT@),
    {
        NotificationEventHandler {
            handler_name: INVITATION_ACCEPTED_HANDLER,
            event_name: ORGANIZATION_INVITATION_ACCEPTED_EVENT,
        }
    }

    pub fn invitation_revoked() -> (handler: Self)
        ensures
            handler.handles(INVITATION_REVOKED_HANDLER@, ORGANIZATION_INVITATION_REVOKED_EVENT@),
    {
        NotificationEventHandler {
            handler_name: INVITATION_REVOKED_HANDLER,
            event_name: ORGANIZATION_INVITATION_REVOKED_EVENT,
        }
    }

    /// The payload to decode for an event that this handler received.
    pub fn handle(&self, event: &ObservationEnvelope) -> (r: NotificationResult<PayloadKind>)
        ensures
            expects_payload(r, self.event_name@, *event),
    {
        expected_payload(self.event_name, event)
    }
}

/// The failure of a payload that does not decode.
pub fn payload_invalid(cause: &str) -> (error: NotificationError)
    ensures
        error.code == ErrorCode::Validation,
        error.text() == PAYLOAD_INVALID@,
        error.cause() == Some(cause@),
{
    NotificationError::new(ErrorCode::Validation, PAYLOAD_INVALID).with_source(cause)
}

/// Whether an observation may come from `source`.
pub open spec fn sound_source(source: Seq<char>) -> bool {
    within(source, 1, SOURCE_LIMIT as nat)
}

/// What is wrong with the source of an observation whose payload names
/// `claimed` as its origin.
pub open spec fn source_fault(source: Seq<char>, claimed: Seq<char>) -> Option<Seq<char>> {
    if !sound_source(source) {
        Some(SOURCE_INVALID@)
    } else {
        rule(source == claimed, SOURCE_MISMATCH@)
    }
}

/// Accepts an observation whose source is sound and the one its payload names.
fn bind_source(source: &String, claimed: &String) -> (r: NotificationResult<()>)
    ensures
        accepts_unless(r, source_fault(source@, claimed@)),
{
    if !required_bounded(source.as_str(), 1, SOURCE_LIMIT) {
        return Err(NotificationError::new(ErrorCode::Validation, SOURCE_INVALID));
    }
    if !same_text(source.as_str(), claimed.as_str()) {
        return Err(NotificationError::new(ErrorCode::Validation, SOURCE_MISMATCH));
    }
    Ok(())
}

/// A text with at least one and at most `limit` characters.
pub open spec fn present(value: Seq<char>, limit: nat) -> bool {
    1 <= value.len() <= limit
}

fn is_present(value: &String, limit: usize) -> (r: bool)
    ensures
        r == present(value@, limit as nat),
{
    let length: usize = char_count(value.as_str());
    1 <= length && length <= limit
}

/// The faults of a dispatch observation, in the order in which they are
/// reported.
pub open spec fn dispatch_faults(payload: EmailDispatchObserved) -> Seq<Option<Seq<char>>> {
    seq![
        rule(
            present(payload.provider@, 160),
            "Email dispatch observation provider is invalid"@,
        ),
        rule(
            present(payload.delivery_id@, 160),
            "Email dispatch observation deliveryId is invalid"@,
        ),
        rule(
            present(payload.attempt_id@, 160),
            "Email dispatch observation attemptId is invalid"@,
        ),
        rule(
            present(payload.function_run_id@, 160),
            "Email dispatch observation functionRunId is invalid"@,
        ),
        rule(
            payload.outcome is Accepted || payload.failure is Some,
            "Email failure observation requires sanitized failure metadata"@,
        ),
        rule(
            payload.remote_receipt matches Some(receipt) ==> valid_digest_text(receipt.digest@),
            "Email evidence digest is invalid"@,
        ),
        rule(
            payload.remote_receipt matches Some(receipt) ==> receipt.remote_id@.len() <= 320
                && receipt.source@.len() <= 160,
            "Email remote receipt metadata exceeds bounds"@,
        ),
    ]
}

/// Accepts a dispatch observation, or reports its first fault.
pub fn validate_dispatch_observation(payload: &EmailDispatchObserved) -> (r: NotificationResult<()>)
    ensures
        accepts_unless(r, first_fault(dispatch_faults(*payload))),
{
    let mut list = FaultList::empty();
    list.rule(
        is_present(&payload.provider, 160),
        "Email dispatch observation provider is invalid",
    );
    list.rule(
        is_present(&payload.delivery_id, 160),
        "Email dispatch observation deliveryId is invalid",
    );
    list.rule(
        is_present(&payload.attempt_id, 160),
        "Email dispatch observation attemptId is invalid",
    );
    list.rule(
        is_present(&payload.function_run_id, 160),
        "Email dispatch observation functionRunId is invalid",
    );
    let accepted = match payload.outcome {
        DispatchOutcome::Accepted => true,
        _ => false,
    };
    list.rule(
        accepted || payload.failure.is_some(),
        "Email failure observation requires sanitized failure metadata",
    );
    let (digest_valid, bounds_kept) = match &payload.remote_receipt {
        Some(receipt) => (
            valid_digest(receipt.digest.as_str()),
            char_count(receipt.remote_id.as_str()) <= 320 && char_count(receipt.source.as_str())
                <= 160,
        ),
        None => (true, true),
    };
    list.rule(digest_valid, "Email evidence digest is invalid");
    list.rule(bounds_kept, "Email remote receipt metadata exceeds bounds");
    assert(list.seen@ =~= dispatch_faults(*payload));
    list.verdict()
}

/// Admits a dispatch observation before anything is read or written: it is
/// sound, and its source is the provider that it reports.
pub fn admit_dispatch_observation(event: &ObservationEnvelope, payload: &EmailDispatchObserved) -> (r:
    NotificationResult<()>)
    ensures
        accepts_unless(
            r,
            first_fault(
                dispatch_faults(*payload).push(
                    source_fault(event.source_module@, payload.provider@),
                ),
            ),
        ),
{
    proof {
        crate::faults::lemma_first_fault_push(
            dispatch_faults(*payload),
            source_fault(event.source_module@, payload.provider@),
        );
    }
    match validate_dispatch_observation(payload) {
        Ok(_) => bind_source(&event.source_module, &payload.provider),
        Err(error) => Err(error),
    }
}

/// The faults of a receipt observation, in the order in which they are
/// reported.
pub open spec fn receipt_faults(payload: EmailReceiptObserved) -> Seq<Option<Seq<char>>> {
    seq![
        rule(valid_digest_text(payload.digest@), "Email evidence digest is invalid"@),
        rule(
            present(payload.remote_id@, 320) && present(payload.source@, 160),
            "Email receipt identity is invalid"@,
        ),
    ]
}

/// Accepts a receipt observation, or reports its first fault.
pub fn validate_receipt(payload: &EmailReceiptObserved) -> (r: NotificationResult<()>)
    ensures
        accepts_unless(r, first_fault(receipt_faults(*payload))),
{
    let mut list = FaultList::empty();
    list.rule(valid_digest(payload.digest.as_str()), "Email evidence digest is invalid");
    list.rule(
        is_present(&payload.remote_id, 320) && is_present(&payload.source, 160),
        "Email receipt identity is invalid",
    );
    assert(list.seen@ =~= receipt_faults(*payload));
    list.verdict()
}

/// Admits a receipt observation before anything is read or written: it is
/// sound, and its source is the observer that it names.
pub fn admit_receipt_observation(event: &ObservationEnvelope, payload: &EmailReceiptObserved) -> (r:
    NotificationResult<()>)
    ensures
        accepts_unless(
            r,
            first_fault(
                receipt_faults(*payload).push(source_fault(event.source_module@, payload.source@)),
            ),
        ),
{
    proof {
        crate::faults::lemma_first_fault_push(
            receipt_faults(*payload),
            source_fault(event.source_module@, payload.source@),
        );
    }
    match validate_receipt(payload) {
        Ok(_) => bind_source(&event.source_module, &payload.source),
        Err(error) => Err(error),
    }
}

pub const TERMINAL_FOREIGN: &'static str =
    "Runtime terminal observation is not for the Email dispatch contract";

/// Whether a runtime end is the end of an email dispatch.
pub open spec fn email_dispatch_ended(payload: RuntimeFunctionTerminal) -> bool {
    &&& payload.owner_module@ == EMAIL_RUNTIME_OWNER@
    &&& payload.function_name@ == EMAIL_DISPATCH_FUNCTION@
    &&& payload.terminal_state@ == "dead"@
    &&& payload.failure_classification@ == "permanent_failure"@
        || payload.failure_classification@ == "retry_exhausted"@
}

/// Accepts the end of an email dispatch and no other runtime end.
pub fn validate_runtime_terminal(payload: &RuntimeFunctionTerminal) -> (r: NotificationResult<()>)
    ensures
        accepts_unless(r, rule(email_dispatch_ended(*payload), TERMINAL_FOREIGN@)),
{
    if same_text(payload.owner_module.as_str(), EMAIL_RUNTIME_OWNER) && same_text(
        payload.function_name.as_str(),
        EMAIL_DISPATCH_FUNCTION,
    ) && same_text(payload.terminal_state.as_str(), "dead") && (same_text(
        payload.failure_classification.as_str(),
        "permanent_failure",
    ) || same_text(payload.failure_classification.as_str(), "retry_exhausted")) {
        Ok(())
    } else {
        Err(NotificationError::new(ErrorCode::Validation, TERMINAL_FOREIGN))
    }
}

/// Admits an observation that names no origin of its own: its source is sound.
pub fn admit_source(event: &ObservationEnvelope) -> (r: NotificationResult<()>)
    ensures
        accepts_unless(r, rule(sound_source(event.source_module@), SOURCE_INVALID@)),
{
    if required_bounded(event.source_module.as_str(), 1, SOURCE_LIMIT) {
        Ok(())
    } else {
        Err(NotificationError::new(ErrorCode::Validation, SOURCE_INVALID))
    }
}

/// The digest of an encoded observation.
pub fn event_digest(encoded: &[u8]) -> (digest: String)
    ensures
        digest@ == digest_text(encoded@),
        valid_digest_text(digest@),
{
    encoded_digest(encoded)
}

pub const EVENT_REUSED: &'static str = "Notification Event id was replayed with different content";

/// Whether `r` tells if an observation with the given digest was consumed before,
/// under an id that was recorded with the digest `consumed`, if it was.
pub open spec fn answers_claim(
    r: NotificationResult<bool>,
    consumed: Option<Seq<char>>,
    digest: Seq<char>,
) -> bool {
    match consumed {
        None => r matches Ok(replay) && !replay,
        Some(stored) => if stored == digest {
            r matches Ok(replay) && replay
        } else {
            r matches Err(error) && error.is(ErrorCode::Conflict, EVENT_REUSED@)
        },
    }
}

/// Whether an observation was consumed before. `consumed` is the digest stored
/// under its id, if one was stored already; the same id with other content is a
/// conflict.
pub fn claim_event(consumed: Option<&str>, digest: &str) -> (r: NotificationResult<bool>)
    ensures
        answers_claim(
            r,
            (match consumed {
                Some(stored) => Some(stored@),
                None => None,
            }),
            digest@,
        ),
{
    match consumed {
        None => Ok(false),
        Some(stored) => if same_text(stored, digest) {
            Ok(true)
        } else {
            Err(NotificationError::new(ErrorCode::Conflict, EVENT_REUSED))
        },
    }
}

/// What is known of the attempt and the delivery that a dispatch observation
/// names.
#[derive(Debug)]
pub struct DispatchTarget {
    pub delivery_status: String,
    pub revision: i64,
    pub attempt_count: i32,
    pub max_attempts: i32,
    pub function_run_id: String,
    pub attempt_status: String,
    pub has_receipt: bool,
}

/// What an observation tells about an attempt, clipped to the stored bounds.
#[derive(Debug)]
pub struct AttemptEvidence {
    pub attempt_id: String,
    pub function_run_id: String,
    pub provider: String,
    pub remote_receipt_id: Option<String>,
    pub remote_receipt_source: Option<String>,
    pub remote_receipt_digest: Option<String>,
    pub failure_code: Option<String>,
    pub failure_classification: Option<String>,
    pub completed_at: UtcTime,
}

impl AttemptEvidence {
    /// Whether this is the evidence that `payload` gives.
    pub open spec fn given_by(self, payload: EmailDispatchObserved) -> bool {
        &&& self.attempt_id == payload.attempt_id
        &&& self.function_run_id == payload.function_run_id
        &&& self.provider@ == leading(payload.provider@, 160)
        &&& match payload.remote_receipt {
            Some(receipt) => {
                &&& self.remote_receipt_id matches Some(id) && id@ == leading(
                    receipt.remote_id@,
                    320,
                )
                &&& self.remote_receipt_source matches Some(source) && source@ == leading(
                    receipt.source@,
                    160,
                )
                &&& self.remote_receipt_digest == Some(receipt.digest)
            },
            None => {
                &&& self.remote_receipt_id is None
                &&& self.remote_receipt_source is None
                &&& self.remote_receipt_digest is None
            },
        }
        &&& match payload.failure {
            Some(failure) => {
                &&& self.failure_code matches Some(code) && code@ == leading(failure.code@, 160)
                &&& self.failure_classification matches Some(class) && class@ == leading(
                    failure.classification@,
                    160,
                )
            },
            None => self.failure_code is None && self.failure_classification is None,
        }
        &&& self.completed_at == payload.observed_at
    }
}

fn evidence_of(payload: &EmailDispatchObserved) -> (evidence: AttemptEvidence)
    ensures
        evidence.given_by(*payload),
{
    let (remote_receipt_id, remote_receipt_source, remote_receipt_digest) =
        match &payload.remote_receipt {
        Some(receipt) => (
            Some(bounded(receipt.remote_id.as_str(), 320)),
            Some(bounded(receipt.source.as_str(), 160)),
            Some(receipt.digest.clone()),
        ),
        None => (None, None, None),
    };
    let (failure_code, failure_classification) = match &payload.failure {
        Some(failure) => (
            Some(bounded(failure.code.as_str(), 160)),
            Some(bounded(failure.classification.as_str(), 160)),
        ),
        None => (None, None),
    };
    AttemptEvidence {
        attempt_id: payload.attempt_id.clone(),
        function_run_id: payload.function_run_id.clone(),
        provider: bounded(payload.provider.as_str(), 160),
        remote_receipt_id,
        remote_receipt_source,
        remote_receipt_digest,
        failure_code,
        failure_classification,
        completed_at: payload.observed_at,
    }
}

/// What changes in a delivery besides its revision.
#[derive(Debug)]
pub enum DeliveryChange {
    /// The provider accepted the message.
    Accepted,
    /// Another attempt is due.
    RetryScheduled { next_attempt_at: UtcTime },
    /// An authoritative receipt proves the delivery.
    Delivered,
    /// Nothing more is attempted.
    Finalized { status: DeliveryStatus, reason: String },
}

impl DeliveryChange {
    /// The status after the change.
    pub open spec fn status(self) -> DeliveryStatus {
        match self {
            DeliveryChange::Accepted => DeliveryStatus::Accepted,
            DeliveryChange::RetryScheduled { .. } => DeliveryStatus::RetryScheduled,
            DeliveryChange::Delivered => DeliveryStatus::Delivered,
            DeliveryChange::Finalized { status, .. } => status,
        }
    }

    /// The status after the change.
    pub fn new_status(&self) -> (status: DeliveryStatus)
        ensures
            status == self.status(),
    {
        match self {
            DeliveryChange::Accepted => DeliveryStatus::Accepted,
            DeliveryChange::RetryScheduled { .. } => DeliveryStatus::RetryScheduled,
            DeliveryChange::Delivered => DeliveryStatus::Delivered,
            DeliveryChange::Finalized { status, .. } => *status,
        }
    }

    /// The reason that is stored with a delivery that the change ends.
    pub open spec fn reason(self) -> Option<Seq<char>> {
        match self {
            DeliveryChange::Accepted | DeliveryChange::RetryScheduled { .. } => None,
            DeliveryChange::Delivered => Some(DELIVERED_REASON@),
            DeliveryChange::Finalized { reason, .. } => Some(reason@),
        }
    }

    /// The reason that is stored with a delivery that the change ends.
    pub fn final_reason(&self) -> (reason: Option<&str>)
        ensures
            match self.reason() {
                Some(text) => reason matches Some(found) && found@ == text,
                None => reason is None,
            },
    {
        match self {
            DeliveryChange::Accepted | DeliveryChange::RetryScheduled { .. } => None,
            DeliveryChange::Delivered => Some(DELIVERED_REASON),
            DeliveryChange::Finalized { reason, .. } => Some(reason.as_str()),
        }
    }

    /// Whether this ends the delivery as `status` for the given reason.
    pub open spec fn finalizes(self, status: DeliveryStatus, reason: Seq<char>) -> bool {
        self matches DeliveryChange::Finalized { status: found, reason: text } && found == status
            && text@ == reason
    }
}

/// A change of one delivery, made only at the revision it was decided at.
#[derive(Debug)]
pub struct DeliveryUpdate {
    pub delivery_id: String,
    pub expected_revision: i64,
    pub new_revision: i64,
    pub change: DeliveryChange,
    pub updated_at: UtcTime,
}

impl DeliveryUpdate {
    /// Whether the change applies to the given delivery and revision, at the
    /// given instant, and raises the revision by one.
    pub open spec fn applies(self, delivery_id: Seq<char>, revision: i64, at: UtcTime) -> bool {
        &&& self.delivery_id@ == delivery_id
        &&& self.expected_revision == revision
        &&& self.new_revision == revision + 1
        &&& self.new_revision <= MAX_SAFE_WIRE_INTEGER
        &&& self.updated_at == at
    }
}

/// A receipt as it is stored.
#[derive(Debug)]
pub struct ReceiptInsert {
    pub id: String,
    pub delivery_id: String,
    pub attempt_id: String,
    pub kind: String,
    pub source: String,
    pub remote_id: String,
    pub digest: String,
    pub observed_at: UtcTime,
    pub recorded_at: UtcTime,
}

impl ReceiptInsert {
    /// Whether this records a receipt of the given kind and identity.
    pub open spec fn records(
        self,
        delivery_id: Seq<char>,
        attempt_id: Seq<char>,
        kind: Seq<char>,
        source: Seq<char>,
        remote_id: Seq<char>,
        digest: Seq<char>,
    ) -> bool {
        &&& self.id@ == stable_id_text("ntf_rcp"@, colon_joined(source, remote_id, kind))
        &&& self.delivery_id@ == delivery_id
        &&& self.attempt_id@ == attempt_id
        &&& self.kind@ == kind
        &&& self.source@ == leading(source, 160)
        &&& self.remote_id@ == leading(remote_id, 320)
        &&& self.digest@ == digest
    }
}

fn receipt_insert(
    delivery_id: &str,
    attempt_id: &str,
    kind: &str,
    source: &str,
    remote_id: &str,
    digest: &str,
    observed_at: UtcTime,
    recorded_at: UtcTime,
) -> (row: ReceiptInsert)
    ensures
        row.records(delivery_id@, attempt_id@, kind@, source@, remote_id@, digest@),
        row.observed_at == observed_at,
        row.recorded_at == recorded_at,
{
    let name = join_colon(source, remote_id, kind);
    ReceiptInsert {
        id: stable_id("ntf_rcp", name.as_str()),
        delivery_id: delivery_id.to_owned(),
        attempt_id: attempt_id.to_owned(),
        kind: kind.to_owned(),
        source: bounded(source, 160),
        remote_id: bounded(remote_id, 320),
        digest: digest.to_owned(),
        observed_at,
        recorded_at,
    }
}

/// Whether another attempt was scheduled.
#[derive(Debug, Clone, Copy, PartialEq, Eq, Structural)]
pub enum RetryVerdict {
    Scheduled,
    Rejected,
}

impl RetryVerdict {
    /// The stored name of the verdict.
    pub open spec fn name(self) -> Seq<char> {
        match self {
            RetryVerdict::Scheduled => "scheduled"@,
            RetryVerdict::Rejected => "rejected"@,
        }
    }

    pub fn as_str(self) -> (name: &'static str)
        ensures
            name@ == self.name(),
    {
        match self {
            RetryVerdict::Scheduled => "scheduled",
            RetryVerdict::Rejected => "rejected",
        }
    }
}

/// A retry decision as it is stored.
#[derive(Debug)]
pub struct RetryInsert {
    pub id: String,
    pub delivery_id: String,
    pub kind: RetryKind,
    pub requested_by: Option<String>,
    pub source_revision: i64,
    pub idempotency_key: String,
    pub decision: RetryVerdict,
    pub reason: String,
    pub scheduled_at: Option<UtcTime>,
    pub created_at: UtcTime,
}

impl RetryInsert {
    /// Whether this is the automatic decision that the observation `event_id`
    /// led to.
    pub open spec fn automatic(
        self,
        event_id: Seq<char>,
        delivery_id: Seq<char>,
        revision: i64,
        at: UtcTime,
    ) -> bool {
        &&& self.id@ == stable_id_text("ntf_rty"@, event_id)
        &&& self.delivery_id@ == delivery_id
        &&& self.kind is Automatic
        &&& self.requested_by is None
        &&& self.source_revision == revision
        &&& self.idempotency_key@ == event_id
        &&& self.created_at == at
    }

    /// Whether another attempt is scheduled at `next` after a temporary failure.
    pub open spec fn schedules(self, next: UtcTime) -> bool {
        self.decision is Scheduled && self.reason@ == "temporary_failure"@ && self.scheduled_at
            == Some(next)
    }

    /// Whether no attempt is left.
    pub open spec fn exhausts(self) -> bool {
        self.decision is Rejected && self.reason@ == "retry_exhausted"@ && self.scheduled_at
            is None
    }
}

/// What a dispatch observation does to an attempt that was waiting for it.
#[derive(Debug)]
pub struct DispatchSettlement {
    pub attempt_status: AttemptStatus,
    pub evidence: AttemptEvidence,
    pub delivery: DeliveryUpdate,
    pub receipt: Option<ReceiptInsert>,
    pub retry: Option<RetryInsert>,
}

/// What a dispatch observation does to the ledger.
#[derive(Debug)]
pub enum DispatchEffect {
    /// A receipt came first: only missing evidence of the attempt is filled in.
    Absorb(AttemptEvidence),
    /// The attempt ends.
    Settle(DispatchSettlement),
}

/// Whether an observation that comes after an authoritative receipt agrees
/// with it.
pub open spec fn late_compatible(
    delivery_status: Seq<char>,
    has_receipt: bool,
    outcome: DispatchOutcome,
) -> bool {
    has_receipt && ((delivery_status == "delivered"@ && outcome is Accepted) || (delivery_status
        == "failed"@ && outcome is PermanentFailure))
}

/// Whether an observation that comes after an authoritative receipt agrees
/// with it.
pub fn late_observation_is_compatible(
    delivery_status: &str,
    has_receipt: bool,
    outcome: DispatchOutcome,
) -> (r: bool)
    ensures
        r == late_compatible(delivery_status@, has_receipt, outcome),
{
    has_receipt && match outcome {
        DispatchOutcome::Accepted => same_text(delivery_status, "delivered"),
        DispatchOutcome::PermanentFailure => same_text(delivery_status, "failed"),
        _ => false,
    }
}

/// The longest wait that a provider can ask for, in milliseconds.
pub const RETRY_AFTER_LIMIT: u64 = 86_400_000;

/// The wait in milliseconds that the provider asked for, within its bound.
pub open spec fn requested_wait(payload: EmailDispatchObserved) -> Option<int> {
    match payload.failure {
        Some(failure) => match failure.retry_after_ms {
            Some(wait) => Some(
                if wait < RETRY_AFTER_LIMIT {
                    wait as int
                } else {
                    RETRY_AFTER_LIMIT as int
                },
            ),
            None => None,
        },
        None => None,
    }
}

/// The delay in seconds that the policy sets after the given attempt.
pub open spec fn policy_delay(target: DispatchTarget) -> Option<int> {
    let index = target.attempt_count - 1;
    if target.attempt_count >= target.max_attempts || index < 0 || index
        >= crate::domain::default_delays().len() {
        None
    } else {
        Some(crate::domain::default_delays()[index] as int)
    }
}

/// When the next attempt is due after a temporary failure: after the delay of
/// the policy, or later where the provider asked for it.
pub open spec fn retry_at(target: DispatchTarget, payload: EmailDispatchObserved) -> Option<
    UtcTime,
> {
    match policy_delay(target) {
        None => None,
        Some(seconds) => {
            let planned = payload.observed_at.plus_millis(seconds * 1_000);
            match requested_wait(payload) {
                None => Some(planned),
                Some(wait) => {
                    let asked = payload.observed_at.plus_millis(wait);
                    Some(
                        if asked.before(planned) {
                            planned
                        } else {
                            asked
                        },
                    )
                },
            }
        },
    }
}

/// Whether the instants that a temporary failure leads to are in range.
pub open spec fn retry_in_range(target: DispatchTarget, payload: EmailDispatchObserved) -> bool {
    payload.outcome is TemporaryFailure ==> match policy_delay(target) {
        None => true,
        Some(seconds) => {
            &&& payload.observed_at.has_plus_millis(seconds * 1_000)
            &&& requested_wait(payload) matches Some(wait)
                ==> payload.observed_at.has_plus_millis(wait)
        },
    }
}

fn delays_fit(target: &DispatchTarget, payload: &EmailDispatchObserved) -> (r: bool)
    requires
        payload.observed_at.valid(),
    ensures
        r == retry_in_range(*target, *payload),
{
    match payload.outcome {
        DispatchOutcome::TemporaryFailure => {},
        _ => {
            return true;
        },
    }
    let policy = RetryPolicy::with_max_attempts(target.max_attempts);
    assert(policy.delay_after(target.attempt_count) == match policy_delay(*target) {
        Some(seconds) => Some(seconds as i64),
        None => None,
    });
    let seconds: i64 = match policy.delay(target.attempt_count) {
        Some(seconds) => seconds,
        None => {
            return true;
        },
    };
    if !payload.observed_at.has_room(seconds as u64 * 1_000) {
        return false;
    }
    match &payload.failure {
        Some(failure) => match failure.retry_after_ms {
            Some(wait) => {
                let bounded_wait: u64 = if wait < RETRY_AFTER_LIMIT {
                    wait
                } else {
                    RETRY_AFTER_LIMIT
                };
                payload.observed_at.has_room(bounded_wait)
            },
            None => true,
        },
        None => true,
    }
}

fn schedule_retry(target: &DispatchTarget, payload: &EmailDispatchObserved) -> (next: Option<
    UtcTime,
>)
    requires
        payload.observed_at.valid(),
        payload.outcome is TemporaryFailure,
        retry_in_range(*target, *payload),
    ensures
        next == retry_at(*target, *payload),
{
    let policy = RetryPolicy::with_max_attempts(target.max_attempts);
    assert(policy.delay_after(target.attempt_count) == match policy_delay(*target) {
        Some(seconds) => Some(seconds as i64),
        None => None,
    });
    let planned = match policy.next_at(target.attempt_count, payload.observed_at) {
        Some(planned) => planned,
        None => {
            return None;
        },
    };
    match &payload.failure {
        Some(failure) => match failure.retry_after_ms {
            Some(wait) => {
                let bounded_wait: u64 = if wait < RETRY_AFTER_LIMIT {
                    wait
                } else {
                    RETRY_AFTER_LIMIT
                };
                let asked = add_millis(payload.observed_at, bounded_wait as i64);
                Some(planned.later_of(asked))
            },
            None => Some(planned),
        },
        None => Some(planned),
    }
}

pub const NO_SUCH_ATTEMPT: &'static str =
    "Email dispatch observation does not match a Notification attempt";

pub const DISPATCH_RUN_MISMATCH: &'static str =
    "Email dispatch observation function run does not match";

pub const NOT_WAITING: &'static str =
    "Notification delivery is not waiting for a dispatch observation";

pub const ALREADY_OBSERVED: &'static str =
    "Notification attempt already has a business observation";

pub const REVISION_EXHAUSTED: &'static str =
    "Notification delivery revision exhausted the portable wire range";

/// Why a dispatch observation has no effect, if it has none.
pub open spec fn dispatch_refusal(
    target: Option<DispatchTarget>,
    payload: EmailDispatchObserved,
) -> Option<(ErrorCode, Seq<char>)> {
    match target {
        None => Some((ErrorCode::NotFound, NO_SUCH_ATTEMPT@)),
        Some(found) => if found.function_run_id@ != payload.function_run_id@ {
            Some((ErrorCode::Conflict, DISPATCH_RUN_MISMATCH@))
        } else if found.delivery_status@ != "attempting"@ {
            if late_compatible(found.delivery_status@, found.has_receipt, payload.outcome) {
                None
            } else {
                Some((ErrorCode::Conflict, NOT_WAITING@))
            }
        } else if found.attempt_status@ != "dispatching"@ {
            Some((ErrorCode::Conflict, ALREADY_OBSERVED@))
        } else if found.revision >= MAX_SAFE_WIRE_INTEGER {
            Some((ErrorCode::Conflict, REVISION_EXHAUSTED@))
        } else {
            None
        },
    }
}

/// The failure of a dispatch observation that has no effect.
fn refuse_dispatch(target: &Option<DispatchTarget>, payload: &EmailDispatchObserved) -> (r: Option<
    NotificationError,
>)
    ensures
        match dispatch_refusal(*target, *payload) {
            Some((code, message)) => r matches Some(error) && error.is(code, message),
            None => r is None,
        },
{
    let found = match target {
        Some(found) => found,
        None => {
            return Some(NotificationError::new(ErrorCode::NotFound, NO_SUCH_ATTEMPT));
        },
    };
    if !same_text(found.function_run_id.as_str(), payload.function_run_id.as_str()) {
        return Some(NotificationError::new(ErrorCode::Conflict, DISPATCH_RUN_MISMATCH));
    }
    if !same_text(found.delivery_status.as_str(), "attempting") {
        if late_observation_is_compatible(
            found.delivery_status.as_str(),
            found.has_receipt,
            payload.outcome,
        ) {
            return None;
        }
        return Some(NotificationError::new(ErrorCode::Conflict, NOT_WAITING));
    }
    if !same_text(found.attempt_status.as_str(), "dispatching") {
        return Some(NotificationError::new(ErrorCode::Conflict, ALREADY_OBSERVED));
    }
    if found.revision >= MAX_SAFE_WIRE_INTEGER {
        return Some(NotificationError::new(ErrorCode::Conflict, REVISION_EXHAUSTED));
    }
    None
}

/// Whether every instant that a dispatch observation leads to is in range; one
/// that has no effect leads to none.
pub open spec fn effect_in_range(
    target: Option<DispatchTarget>,
    payload: EmailDispatchObserved,
) -> bool {
    dispatch_refusal(target, payload) is None ==> retry_in_range(target->Some_0, payload)
}

/// Whether every instant that a dispatch observation leads to is in range.
pub fn effect_is_in_range(
    target: &Option<DispatchTarget>,
    payload: &EmailDispatchObserved,
) -> (r: bool)
    requires
        payload.observed_at.valid(),
    ensures
        r == effect_in_range(*target, *payload),
{
    match (refuse_dispatch(target, payload), target) {
        (None, Some(found)) => delays_fit(found, payload),
        _ => true,
    }
}

/// The status of an attempt that ended with the given outcome.
pub open spec fn attempt_status_of(outcome: DispatchOutcome) -> AttemptStatus {
    match outcome {
        DispatchOutcome::Accepted => AttemptStatus::Accepted,
        DispatchOutcome::TemporaryFailure => AttemptStatus::TemporaryFailure,
        DispatchOutcome::PermanentFailure => AttemptStatus::PermanentFailure,
        DispatchOutcome::DeliveryUnknown => AttemptStatus::DeliveryUnknown,
    }
}

impl DispatchSettlement {
    /// Whether this is what the observation `event_id` with the given payload
    /// does to `target`, which was waiting for it.
    pub open spec fn settles(
        self,
        event_id: Seq<char>,
        target: DispatchTarget,
        payload: EmailDispatchObserved,
    ) -> bool {
        &&& self.attempt_status == attempt_status_of(payload.outcome)
        &&& self.evidence.given_by(payload)
        &&& self.delivery.applies(payload.delivery_id@, target.revision, payload.observed_at)
        &&& match payload.outcome {
            DispatchOutcome::Accepted => {
                &&& self.delivery.change is Accepted
                &&& self.retry is None
                &&& match payload.remote_receipt {
                    Some(remote) => self.receipt matches Some(row) && row.records(
                        payload.delivery_id@,
                        payload.attempt_id@,
                        "accepted"@,
                        remote.source@,
                        remote.remote_id@,
                        remote.digest@,
                    ) && row.observed_at == payload.observed_at && row.recorded_at
                        == payload.observed_at,
                    None => self.receipt is None,
                }
            },
            DispatchOutcome::TemporaryFailure => {
                &&& self.receipt is None
                &&& self.retry matches Some(retry) && retry.automatic(
                    event_id,
                    payload.delivery_id@,
                    target.revision,
                    payload.observed_at,
                ) && match retry_at(target, payload) {
                    Some(next) => self.delivery.change == (DeliveryChange::RetryScheduled {
                        next_attempt_at: next,
                    }) && retry.schedules(next),
                    None => self.delivery.change.finalizes(
                        DeliveryStatus::Failed,
                        "retry_exhausted"@,
                    ) && retry.exhausts(),
                }
            },
            DispatchOutcome::PermanentFailure => {
                &&& self.receipt is None
                &&& self.retry is None
                &&& self.delivery.change.finalizes(DeliveryStatus::Failed, "permanent_failure"@)
            },
            DispatchOutcome::DeliveryUnknown => {
                &&& self.receipt is None
                &&& self.retry is None
                &&& self.delivery.change.finalizes(
                    DeliveryStatus::DeliveryUnknown,
                    "ambiguous_external_effect"@,
                )
            },
        }
    }
}

fn automatic_retry(
    event_id: &str,
    delivery_id: &str,
    revision: i64,
    next: Option<UtcTime>,
    at: UtcTime,
) -> (row: RetryInsert)
    ensures
        row.automatic(event_id@, delivery_id@, revision, at),
        match next {
            Some(instant) => row.schedules(instant),
            None => row.exhausts(),
        },
{
    let (decision, reason) = match next {
        Some(_) => (RetryVerdict::Scheduled, "temporary_failure"),
        None => (RetryVerdict::Rejected, "retry_exhausted"),
    };
    RetryInsert {
        id: stable_id("ntf_rty", event_id),
        delivery_id: delivery_id.to_owned(),
        kind: RetryKind::Automatic,
        requested_by: None,
        source_revision: revision,
        idempotency_key: event_id.to_owned(),
        decision,
        reason: reason.to_owned(),
        scheduled_at: next,
        created_at: at,
    }
}

/// What a dispatch observation does to the ledger, given the attempt and the
/// delivery that it names.
pub fn apply_dispatch_observation(
    target: Option<DispatchTarget>,
    event: &ObservationEnvelope,
    payload: &EmailDispatchObserved,
) -> (r: NotificationResult<DispatchEffect>)
    requires
        payload.observed_at.valid(),
        effect_in_range(target, *payload),
    ensures
        match dispatch_refusal(target, *payload) {
            Some((code, message)) => r matches Err(error) && error.is(code, message),
            None => match r {
                Ok(DispatchEffect::Absorb(evidence)) => target->Some_0.delivery_status@
                    != "attempting"@ && evidence.given_by(*payload),
                Ok(DispatchEffect::Settle(settlement)) => target->Some_0.delivery_status@
                    == "attempting"@ && settlement.settles(event.id@, target->Some_0, *payload),
                Err(_) => false,
            },
        },
{
    if let Some(error) = refuse_dispatch(&target, payload) {
        return Err(error);
    }
    let found = match target {
        Some(found) => found,
        None => {
            return Err(NotificationError::new(ErrorCode::NotFound, NO_SUCH_ATTEMPT));
        },
    };
    if !same_text(found.delivery_status.as_str(), "attempting") {
        return Ok(DispatchEffect::Absorb(evidence_of(payload)));
    }
    let at = payload.observed_at;
    let mut receipt: Option<ReceiptInsert> = None;
    let mut retry: Option<RetryInsert> = None;
    let (attempt_status, change) = match payload.outcome {
        DispatchOutcome::Accepted => {
            if let Some(remote) = &payload.remote_receipt {
                receipt =
                Some(
                    receipt_insert(
                        payload.delivery_id.as_str(),
                        payload.attempt_id.as_str(),
                        "accepted",
                        remote.source.as_str(),
                        remote.remote_id.as_str(),
                        remote.digest.as_str(),
                        at,
                        at,
                    ),
                );
            }
            (AttemptStatus::Accepted, DeliveryChange::Accepted)
        },
        DispatchOutcome::TemporaryFailure => {
            let next = schedule_retry(&found, payload);
            retry =
            Some(
                automatic_retry(
                    event.id.as_str(),
                    payload.delivery_id.as_str(),
                    found.revision,
                    next,
                    at,
                ),
            );
            let change = match next {
                Some(next_attempt_at) => DeliveryChange::RetryScheduled { next_attempt_at },
                None => DeliveryChange::Finalized {
                    status: DeliveryStatus::Failed,
                    reason: "retry_exhausted".to_owned(),
                },
            };
            (AttemptStatus::TemporaryFailure, change)
        },
        DispatchOutcome::PermanentFailure => (
            AttemptStatus::PermanentFailure,
            DeliveryChange::Finalized {
                status: DeliveryStatus::Failed,
                reason: "permanent_failure".to_owned(),
            },
        ),
        DispatchOutcome::DeliveryUnknown => (
            AttemptStatus::DeliveryUnknown,
            DeliveryChange::Finalized {
                status: DeliveryStatus::DeliveryUnknown,
                reason: "ambiguous_external_effect".to_owned(),
            },
        ),
    };
    Ok(
        DispatchEffect::Settle(
            DispatchSettlement {
                attempt_status,
                evidence: evidence_of(payload),
                delivery: DeliveryUpdate {
                    delivery_id: payload.delivery_id.clone(),
                    expected_revision: found.revision,
                    new_revision: found.revision + 1,
                    change,
                    updated_at: at,
                },
                receipt,
                retry,
            },
        ),
    )
}

pub const RECEIPT_REUSED: &'static str =
    "Email receipt identity was replayed with a different digest";

/// Whether the receipt is already recorded. `recorded` is the digest stored
/// under its source, remote id and kind; another digest there is a conflict.
pub fn known_receipt(recorded: Option<&str>, payload: &EmailReceiptObserved) -> (r:
    NotificationResult<bool>)
    ensures
        match recorded {
            None => r matches Ok(known) && !known,
            Some(digest) => if digest@ == payload.digest@ {
                r matches Ok(known) && known
            } else {
                r matches Err(error) && error.is(ErrorCode::Conflict, RECEIPT_REUSED@)
            },
        },
{
    match recorded {
        None => Ok(false),
        Some(digest) => if same_text(digest, payload.digest.as_str()) {
            Ok(true)
        } else {
            Err(NotificationError::new(ErrorCode::Conflict, RECEIPT_REUSED))
        },
    }
}

/// What is known of the attempt and the delivery that a receipt names.
#[derive(Debug)]
pub struct ReceiptTarget {
    pub delivery_status: String,
    pub revision: i64,
    pub function_run_id: String,
}

/// What a new receipt does to the ledger. The attempt keeps its completion
/// instant where it has one.
#[derive(Debug)]
pub struct ReceiptSettlement {
    pub receipt: ReceiptInsert,
    pub attempt_status: AttemptStatus,
    pub delivery: DeliveryUpdate,
}

pub const NO_RECEIPT_ATTEMPT: &'static str = "Email receipt does not match a Notification attempt";

pub const RECEIPT_RUN_MISMATCH: &'static str = "Email receipt function run does not match";

pub const RECEIPT_REGRESSION: &'static str =
    "Email receipt would regress a terminal Notification delivery";

/// Whether a receipt may still end a delivery in the given status.
pub open spec fn awaits_receipt(delivery_status: Seq<char>) -> bool {
    delivery_status == "attempting"@ || delivery_status == "accepted"@
}

/// Why a new receipt has no effect, if it has none.
pub open spec fn receipt_refusal(
    target: Option<ReceiptTarget>,
    payload: EmailReceiptObserved,
) -> Option<(ErrorCode, Seq<char>)> {
    match target {
        None => Some((ErrorCode::NotFound, NO_RECEIPT_ATTEMPT@)),
        Some(found) => if found.function_run_id@ != payload.function_run_id@ {
            Some((ErrorCode::Conflict, RECEIPT_RUN_MISMATCH@))
        } else if !awaits_receipt(found.delivery_status@) {
            Some((ErrorCode::Conflict, RECEIPT_REGRESSION@))
        } else if found.revision >= MAX_SAFE_WIRE_INTEGER {
            Some((ErrorCode::Conflict, REVISION_EXHAUSTED@))
        } else {
            None
        },
    }
}

impl ReceiptSettlement {
    /// Whether this is what the receipt, observed in an envelope of the given
    /// instant, does to `target`.
    pub open spec fn settles(
        self,
        occurred_at: UtcTime,
        target: ReceiptTarget,
        payload: EmailReceiptObserved,
    ) -> bool {
        &&& self.receipt.records(
            payload.delivery_id@,
            payload.attempt_id@,
            payload.kind.name(),
            payload.source@,
            payload.remote_id@,
            payload.digest@,
        )
        &&& self.receipt.observed_at == payload.observed_at
        &&& self.receipt.recorded_at == occurred_at
        &&& self.delivery.applies(payload.delivery_id@, target.revision, payload.observed_at)
        &&& if payload.kind is Delivered {
            self.attempt_status is Accepted && self.delivery.change is Delivered
                && self.delivery.change.reason() == Some(DELIVERED_REASON@)
        } else {
            self.attempt_status is PermanentFailure && self.delivery.change.finalizes(
                DeliveryStatus::Failed,
                payload.kind.name(),
            )
        }
    }
}

/// The reason stored with a delivery that a receipt proves.
pub const DELIVERED_REASON: &'static str = "authoritative_delivery_receipt";

/// What a new receipt does to the ledger, given the attempt and the delivery
/// that it names.
pub fn apply_receipt(
    target: Option<ReceiptTarget>,
    event: &ObservationEnvelope,
    payload: &EmailReceiptObserved,
) -> (r: NotificationResult<ReceiptSettlement>)
    ensures
        match receipt_refusal(target, *payload) {
            Some((code, message)) => r matches Err(error) && error.is(code, message),
            None => r matches Ok(settlement) && settlement.settles(
                event.occurred_at,
                target->Some_0,
                *payload,
            ),
        },
{
    let found = match target {
        Some(found) => found,
        None => {
            return Err(NotificationError::new(ErrorCode::NotFound, NO_RECEIPT_ATTEMPT));
        },
    };
    if !same_text(found.function_run_id.as_str(), payload.function_run_id.as_str()) {
        return Err(NotificationError::new(ErrorCode::Conflict, RECEIPT_RUN_MISMATCH));
    }
    if !same_text(found.delivery_status.as_str(), "attempting") && !same_text(
        found.delivery_status.as_str(),
        "accepted",
    ) {
        return Err(NotificationError::new(ErrorCode::Conflict, RECEIPT_REGRESSION));
    }
    if found.revision >= MAX_SAFE_WIRE_INTEGER {
        return Err(NotificationError::new(ErrorCode::Conflict, REVISION_EXHAUSTED));
    }
    let receipt = receipt_insert(
        payload.delivery_id.as_str(),
        payload.attempt_id.as_str(),
        payload.kind.as_str(),
        payload.source.as_str(),
        payload.remote_id.as_str(),
        payload.digest.as_str(),
        payload.observed_at,
        event.occurred_at,
    );
    let (attempt_status, change) = match payload.kind {
        ReceiptKind::Delivered => (AttemptStatus::Accepted, DeliveryChange::Delivered),
        ReceiptKind::Bounced | ReceiptKind::Rejected => (
            AttemptStatus::PermanentFailure,
            DeliveryChange::Finalized {
                status: DeliveryStatus::Failed,
                reason: payload.kind.as_str().to_owned(),
            },
        ),
    };
    Ok(
        ReceiptSettlement {
            receipt,
            attempt_status,
            delivery: DeliveryUpdate {
                delivery_id: payload.delivery_id.clone(),
                expected_revision: found.revision,
                new_revision: found.revision + 1,
                change,
                updated_at: payload.observed_at,
            },
        },
    )
}

/// A dispatching attempt of an attempting delivery.
#[derive(Debug)]
pub struct TerminalTarget {
    pub attempt_id: String,
    pub delivery_id: String,
    pub revision: i64,
}

/// What the runtime's end of a dispatch does to the attempt that it ran.
#[derive(Debug)]
pub struct TerminalSettlement {
    pub attempt_id: String,
    pub failure_code: String,
    pub failure_classification: String,
    pub completed_at: UtcTime,
    pub delivery: DeliveryUpdate,
}

pub const TERMINAL_REASON: &'static str = "provider_runtime_terminal_without_business_observation";

impl TerminalSettlement {
    /// Whether this is what the runtime's end in `event` does to `target`.
    pub open spec fn settles(
        self,
        target: TerminalTarget,
        event: ObservationEnvelope,
        payload: RuntimeFunctionTerminal,
    ) -> bool {
        &&& self.attempt_id == target.attempt_id
        &&& self.failure_code@ == leading(payload.failure_code@, 160)
        &&& self.failure_classification == payload.failure_classification
        &&& self.completed_at == event.occurred_at
        &&& self.delivery.applies(target.delivery_id@, target.revision, event.occurred_at)
        &&& self.delivery.change.finalizes(DeliveryStatus::DeliveryUnknown, TERMINAL_REASON@)
    }
}

/// What the runtime's end of a dispatch does to the ledger: an attempt that is
/// still dispatching becomes ambiguous; without one nothing happens.
pub fn apply_runtime_terminal(
    target: Option<TerminalTarget>,
    event: &ObservationEnvelope,
    payload: &RuntimeFunctionTerminal,
) -> (r: NotificationResult<Option<TerminalSettlement>>)
    ensures
        match target {
            None => r matches Ok(settlement) && settlement is None,
            Some(found) => if found.revision >= MAX_SAFE_WIRE_INTEGER {
                r matches Err(error) && error.is(ErrorCode::Conflict, REVISION_EXHAUSTED@)
            } else {
                r matches Ok(Some(settlement)) && settlement.settles(found, *event, *payload)
            },
        },
{
    let found = match target {
        Some(found) => found,
        None => {
            return Ok(None);
        },
    };
    if found.revision >= MAX_SAFE_WIRE_INTEGER {
        return Err(NotificationError::new(ErrorCode::Conflict, REVISION_EXHAUSTED));
    }
    Ok(
        Some(
            TerminalSettlement {
                attempt_id: found.attempt_id,
                failure_code: bounded(payload.failure_code.as_str(), 160),
                failure_classification: payload.failure_classification.clone(),
                completed_at: event.occurred_at,
                delivery: DeliveryUpdate {
                    delivery_id: found.delivery_id,
                    expected_revision: found.revision,
                    new_revision: found.revision + 1,
                    change: DeliveryChange::Finalized {
                        status: DeliveryStatus::DeliveryUnknown,
                        reason: TERMINAL_REASON.to_owned(),
                    },
                    updated_at: event.occurred_at,
                },
            },
        ),
    )
}

/// What became of an invitation.
pub open spec fn lifecycle_name(event_name: Seq<char>) -> Seq<char> {
    if event_name == ORGANIZATION_INVITATION_ACCEPTED_EVENT@ {
        "accepted"@
    } else if event_name == ORGANIZATION_INVITATION_EXPIRED_EVENT@ {
        "expired"@
    } else {
        "revoked"@
    }
}

/// The kind of source entity that invitations are.
pub const INVITATION_ENTITY: &'static str = "organization_invitation";

/// A delivery that an invitation observation may cancel.
#[derive(Debug)]
pub struct LifecycleCandidate {
    pub delivery_id: String,
    pub status: String,
    pub revision: i64,
    pub source_module: String,
    pub source_entity_type: String,
    pub source_entity_id: String,
    pub requested_at: UtcTime,
}

impl LifecycleCandidate {
    /// Whether the observation cancels this delivery: it was requested by the
    /// observing source for that invitation, not after the observation, and
    /// still waits for an attempt.
    pub open spec fn cancelled(
        self,
        source: Seq<char>,
        payload: OrganizationInvitationLifecycle,
    ) -> bool {
        &&& self.source_module@ == source
        &&& self.source_entity_type@ == INVITATION_ENTITY@
        &&& self.source_entity_id@ == payload.invitation_id@
        &&& self.status@ == "queued"@ || self.status@ == "retry_scheduled"@
        &&& self.requested_at.at_most(payload.observed_at)
    }

    fn is_cancelled(&self, source: &str, payload: &OrganizationInvitationLifecycle) -> (r: bool)
        ensures
            r == self.cancelled(source@, *payload),
    {
        same_text(self.source_module.as_str(), source) && same_text(
            self.source_entity_type.as_str(),
            INVITATION_ENTITY,
        ) && same_text(self.source_entity_id.as_str(), payload.invitation_id.as_str()) && (
        same_text(self.status.as_str(), "queued") || same_text(
            self.status.as_str(),
            "retry_scheduled",
        )) && !payload.observed_at.is_before(&self.requested_at)
    }
}

/// An invitation observation as it is stored.
#[derive(Debug)]
pub struct LifecycleEventRow {
    pub event_id: String,
    pub source_module: String,
    pub source_entity_type: String,
    pub source_entity_id: String,
    pub lifecycle: String,
    pub observed_at: UtcTime,
    pub recorded_at: UtcTime,
}

/// What an invitation observation does to the ledger.
#[derive(Debug)]
pub struct LifecycleSettlement {
    pub event: LifecycleEventRow,
    pub cancellations: Vec<DeliveryUpdate>,
}

/// The deliveries that the observation cancels, in their order.
pub open spec fn cancelled_among(
    candidates: Seq<LifecycleCandidate>,
    source: Seq<char>,
    payload: OrganizationInvitationLifecycle,
) -> Seq<LifecycleCandidate> {
    candidates.filter(|candidate: LifecycleCandidate| candidate.cancelled(source, payload))
}

/// Why an invitation observation cancels a delivery.
pub open spec fn cancellation_reason(event_name: Seq<char>) -> Seq<char> {
    "source_invitation_"@ + lifecycle_name(event_name)
}

/// Whether `update` cancels `candidate` for the observation in `event`.
pub open spec fn cancels(
    update: DeliveryUpdate,
    candidate: LifecycleCandidate,
    event: ObservationEnvelope,
) -> bool {
    &&& update.applies(candidate.delivery_id@, candidate.revision, event.occurred_at)
    &&& update.change.finalizes(DeliveryStatus::Failed, cancellation_reason(event.event_name@))
}

impl LifecycleSettlement {
    /// Whether this is what the observation does to the given deliveries.
    pub open spec fn settles(
        self,
        event: ObservationEnvelope,
        payload: OrganizationInvitationLifecycle,
        candidates: Seq<LifecycleCandidate>,
    ) -> bool {
        let chosen = cancelled_among(candidates, event.source_module@, payload);
        &&& self.event.event_id == event.id
        &&& self.event.source_module == event.source_module
        &&& self.event.source_entity_type@ == INVITATION_ENTITY@
        &&& self.event.source_entity_id == payload.invitation_id
        &&& self.event.lifecycle@ == lifecycle_name(event.event_name@)
        &&& self.event.observed_at == payload.observed_at
        &&& self.event.recorded_at == event.occurred_at
        &&& self.cancellations@.len() == chosen.len()
        &&& forall|i: int|
            0 <= i < chosen.len() ==> cancels(#[trigger] self.cancellations@[i], chosen[i], event)
    }
}

/// Whether some delivery that the observation cancels has no revision left.
pub open spec fn cancellation_exhausted(
    candidates: Seq<LifecycleCandidate>,
    source: Seq<char>,
    payload: OrganizationInvitationLifecycle,
) -> bool {
    exists|i: int|
        0 <= i < candidates.len() && (#[trigger] candidates[i]).cancelled(source, payload)
            && candidates[i].revision >= MAX_SAFE_WIRE_INTEGER
}

fn lifecycle_of(event_name: &str) -> (name: &'static str)
    ensures
        name@ == lifecycle_name(event_name@),
{
    if same_text(event_name, ORGANIZATION_INVITATION_ACCEPTED_EVENT) {
        "accepted"
    } else if same_text(event_name, ORGANIZATION_INVITATION_EXPIRED_EVENT) {
        "expired"
    } else {
        "revoked"
    }
}

/// What an invitation observation does to the ledger. `candidates` are the
/// deliveries of the invitation; those of other sources are never touched.
pub fn apply_invitation_lifecycle(
    event: &ObservationEnvelope,
    payload: &OrganizationInvitationLifecycle,
    candidates: &Vec<LifecycleCandidate>,
) -> (r: NotificationResult<LifecycleSettlement>)
    ensures
        match r {
            Ok(settlement) => !cancellation_exhausted(
                candidates@,
                event.source_module@,
                *payload,
            ) && settlement.settles(*event, *payload, candidates@),
            Err(error) => cancellation_exhausted(candidates@, event.source_module@, *payload)
                && error.is(ErrorCode::Conflict, REVISION_EXHAUSTED@),
        },
{
    let lifecycle = lifecycle_of(event.event_name.as_str());
    let mut reason = "source_invitation_".to_owned();
    reason.append(lifecycle);
    let mut cancellations: Vec<DeliveryUpdate> = Vec::new();
    let ghost chosen_by = |candidate: LifecycleCandidate|
        candidate.cancelled(event.source_module@, *payload);
    let mut i: usize = 0;
    proof {
        reveal(Seq::filter);
        assert(candidates@.take(0) =~= Seq::<LifecycleCandidate>::empty());
    }
    while i < candidates.len()
        invariant
            i <= candidates@.len(),
            reason@ == cancellation_reason(event.event_name@),
            chosen_by == (|candidate: LifecycleCandidate|
                candidate.cancelled(event.source_module@, *payload)),
            cancellations@.len() == candidates@.take(i as int).filter(chosen_by).len(),
            forall|j: int|
                0 <= j < cancellations@.len() ==> cancels(
                    #[trigger] cancellations@[j],
                    candidates@.take(i as int).filter(chosen_by)[j],
                    *event,
                ),
            forall|j: int|
                0 <= j < i && (#[trigger] candidates@[j]).cancelled(event.source_module@, *payload)
                    ==> candidates@[j].revision < MAX_SAFE_WIRE_INTEGER,
        decreases candidates@.len() - i,
    {
        let candidate = &candidates[i];
        proof {
            reveal(Seq::filter);
            assert(candidates@.take(i + 1).drop_last() =~= candidates@.take(i as int));
        }
        if candidate.is_cancelled(event.source_module.as_str(), payload) {
            if candidate.revision >= MAX_SAFE_WIRE_INTEGER {
                assert(candidates@[i as int].cancelled(event.source_module@, *payload));
                return Err(NotificationError::new(ErrorCode::Conflict, REVISION_EXHAUSTED));
            }
            cancellations.push(
                DeliveryUpdate {
                    delivery_id: candidate.delivery_id.clone(),
                    expected_revision: candidate.revision,
                    new_revision: candidate.revision + 1,
                    change: DeliveryChange::Finalized {
                        status: DeliveryStatus::Failed,
                        reason: reason.clone(),
                    },
                    updated_at: event.occurred_at,
                },
            );
        }
        i = i + 1;
    }
    assert(candidates@.take(i as int) =~= candidates@);
    Ok(
        LifecycleSettlement {
            event: LifecycleEventRow {
                event_id: event.id.clone(),
                source_module: event.source_module.clone(),
                source_entity_type: INVITATION_ENTITY.to_owned(),
                source_entity_id: payload.invitation_id.clone(),
                lifecycle: lifecycle.to_owned(),
                observed_at: payload.observed_at,
                recorded_at: event.occurred_at,
            },
            cancellations,
        },
    )
}

pub const CHANGED_BEFORE_FINALIZATION: &'static str =
    "Notification delivery changed before finalization";

/// Accepts a conditional update that changed exactly one row.
pub fn require_one_row(rows_affected: u64, message: &str) -> (r: NotificationResult<()>)
    ensures
        match r {
            Ok(_) => rows_affected == 1,
            Err(error) => rows_affected != 1 && error.is(ErrorCode::Conflict, message@),
        },
{
    if rows_affected != 1 {
        return Err(NotificationError::new(ErrorCode::Conflict, message));
    }
    Ok(())
}

/// A settled dispatch moves its delivery along an allowed transition, raises
/// the revision by exactly one within the portable range, and never claims a
/// delivery: provider acceptance is not delivery.
pub proof fn law_dispatch_settlement_is_a_transition(
    settlement: DispatchSettlement,
    event_id: Seq<char>,
    target: DispatchTarget,
    payload: EmailDispatchObserved,
)
    requires
        settlement.settles(event_id, target, payload),
    ensures
        follows(DeliveryStatus::Attempting, settlement.delivery.change.status()),
        settlement.delivery.change.status() !is Delivered,
        settlement.delivery.new_revision == target.revision + 1,
        settlement.delivery.new_revision <= MAX_SAFE_WIRE_INTEGER,
        payload.outcome is DeliveryUnknown ==> settlement.delivery.change.status()
            is DeliveryUnknown && settlement.retry is None,
{
}

/// A settled receipt moves its delivery along an allowed transition to a
/// terminal status, and only a receipt of delivery proves the delivery.
pub proof fn law_receipt_settlement_is_terminal(
    settlement: ReceiptSettlement,
    occurred_at: UtcTime,
    target: ReceiptTarget,
    payload: EmailReceiptObserved,
    status: DeliveryStatus,
)
    requires
        receipt_refusal(Some(target), payload) is None,
        settlement.settles(occurred_at, target, payload),
        target.delivery_status@ == status.name(),
    ensures
        follows(status, settlement.delivery.change.status()),
        settlement.delivery.change.status().terminal(),
        settlement.delivery.change.status() is Delivered <==> payload.kind is Delivered,
        settlement.delivery.new_revision == target.revision + 1,
{
    crate::domain::lemma_status_names_differ();
    assert(DeliveryStatus::Attempting.name() == "attempting"@);
    assert(DeliveryStatus::Accepted.name() == "accepted"@);
}

/// A retry is never earlier than the policy's delay nor than the wait that the
/// provider asked for, and it always lies after the failure.
pub proof fn law_retry_waits_long_enough(target: DispatchTarget, payload: EmailDispatchObserved)
    requires
        payload.outcome is TemporaryFailure,
        payload.observed_at.valid(),
        retry_in_range(target, payload),
    ensures
        retry_at(target, payload) matches Some(next) ==> {
            &&& target.attempt_count < target.max_attempts
            &&& payload.observed_at.before(next)
            &&& policy_delay(target) matches Some(seconds) && payload.observed_at.plus_millis(
                seconds * 1_000,
            ).at_most(next)
            &&& requested_wait(payload) matches Some(wait)
                ==> payload.observed_at.plus_millis(wait).at_most(next)
        },
{
    if let Some(seconds) = policy_delay(target) {
        crate::time::lemma_plus_millis_is_later(payload.observed_at, seconds * 1_000);
    }
}

/// An ambiguous delivery is closed to every observation: no dispatch
/// observation settles or amends it, no receipt ends it, and no invitation
/// observation cancels it.
pub proof fn law_unknown_is_closed_to_observations(
    dispatch: DispatchTarget,
    observed: EmailDispatchObserved,
    receipt: ReceiptTarget,
    reported: EmailReceiptObserved,
    candidate: LifecycleCandidate,
    source: Seq<char>,
    lifecycle: OrganizationInvitationLifecycle,
)
    requires
        dispatch.delivery_status@ == "delivery_unknown"@,
        receipt.delivery_status@ == "delivery_unknown"@,
        candidate.status@ == "delivery_unknown"@,
    ensures
        dispatch_refusal(Some(dispatch), observed) is Some,
        receipt_refusal(Some(receipt), reported) is Some,
        !candidate.cancelled(source, lifecycle),
{
    crate::domain::lemma_unknown_name_differs();
}

proof fn lemma_filtered_is_part(
    candidates: Seq<LifecycleCandidate>,
    chosen: spec_fn(LifecycleCandidate) -> bool,
    i: int,
)
    requires
        0 <= i < candidates.filter(chosen).len(),
    ensures
        candidates.contains(candidates.filter(chosen)[i]),
    decreases candidates.len(),
{
    reveal(Seq::filter);
    if candidates.len() > 0 {
        let rest = candidates.drop_last();
        if i < rest.filter(chosen).len() {
            lemma_filtered_is_part(rest, chosen, i);
            let j = choose|j: int| 0 <= j < rest.len() && rest[j] == rest.filter(chosen)[i];
            assert(candidates[j] == candidates.filter(chosen)[i]);
        } else {
            assert(candidates[candidates.len() - 1] == candidates.filter(chosen)[i]);
        }
    }
}

/// An invitation observation touches only deliveries that the observing source
/// requested for that invitation and that still wait for an attempt.
pub proof fn law_lifecycle_is_scoped_to_its_source(
    settlement: LifecycleSettlement,
    event: ObservationEnvelope,
    payload: OrganizationInvitationLifecycle,
    candidates: Seq<LifecycleCandidate>,
)
    requires
        settlement.settles(event, payload, candidates),
    ensures
        forall|i: int| 0 <= i < settlement.cancellations@.len() ==> {
            let candidate = cancelled_among(candidates, event.source_module@, payload)[i];
            &&& (#[trigger] settlement.cancellations@[i]).delivery_id@ == candidate.delivery_id@
            &&& candidates.contains(candidate)
            &&& candidate.source_module@ == event.source_module@
            &&& candidate.source_entity_id@ == payload.invitation_id@
            &&& candidate.status@ == "queued"@ || candidate.status@ == "retry_scheduled"@
            &&& candidate.requested_at.at_most(payload.observed_at)
        },
{
    let chosen = |candidate: LifecycleCandidate| candidate.cancelled(event.source_module@, payload);
    assert forall|i: int| 0 <= i < settlement.cancellations@.len() implies {
        let candidate = cancelled_among(candidates, event.source_module@, payload)[i];
        &&& (#[trigger] settlement.cancellations@[i]).delivery_id@ == candidate.delivery_id@
        &&& candidates.contains(candidate)
        &&& candidate.source_module@ == event.source_module@
        &&& candidate.source_entity_id@ == payload.invitation_id@
        &&& candidate.status@ == "queued"@ || candidate.status@ == "retry_scheduled"@
        &&& candidate.requested_at.at_most(payload.observed_at)
    } by {
        let candidate = candidates.filter(chosen)[i];
        assert(cancels(settlement.cancellations@[i], candidate, event));
        candidates.lemma_filter_pred(chosen, i);
        lemma_filtered_is_part(candidates, chosen, i);
    }
}

} // verus!
