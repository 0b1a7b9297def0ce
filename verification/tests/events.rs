use notification::contracts::{
    DispatchOutcome, EmailDispatchObserved, EmailReceiptObserved, OrganizationInvitationLifecycle,
    ReceiptKind, RemoteReceiptSummary, RuntimeFunctionTerminal, SanitizedFailure,
    EMAIL_DISPATCH_OBSERVED_EVENT, EMAIL_RECEIPT_OBSERVED_EVENT,
    ORGANIZATION_INVITATION_ACCEPTED_EVENT, ORGANIZATION_INVITATION_EXPIRED_EVENT,
    ORGANIZATION_INVITATION_REVOKED_EVENT, RUNTIME_FUNCTION_TERMINAL_EVENT,
};
use notification::domain::{AttemptStatus, DeliveryStatus, MAX_SAFE_WIRE_INTEGER};
use notification::error::ErrorCode;
use notification::events::{
    admit_dispatch_observation, admit_receipt_observation, admit_source,
    apply_dispatch_observation, apply_invitation_lifecycle, apply_receipt, apply_runtime_terminal,
    claim_event, effect_is_in_range, event_digest, expected_payload, known_receipt, late_observation_is_compatible,
    payload_invalid, require_one_row, validate_dispatch_observation,
    validate_receipt, validate_runtime_terminal, DeliveryChange, DispatchEffect, DispatchTarget,
    LifecycleCandidate, NotificationEventHandler, ObservationEnvelope, PayloadKind, ReceiptTarget,
    RetryVerdict, TerminalTarget, EMAIL_DISPATCH_FUNCTION, EMAIL_RUNTIME_OWNER,
};
use notification::time::UtcTime;

fn at(seconds: i64) -> UtcTime {
    UtcTime::at(1_780_000_000 + seconds, 250_000_000).expect("valid instant")
}

fn observed(outcome: DispatchOutcome) -> EmailDispatchObserved {
    EmailDispatchObserved {
        delivery_id: "ntf_dlv_1".to_owned(),
        attempt_id: "ntf_att_1".to_owned(),
        function_run_id: "ntf_run_1".to_owned(),
        outcome,
        provider: "smtp".to_owned(),
        observed_at: at(0),
        remote_receipt: None,
        failure: None,
    }
}

fn failed(outcome: DispatchOutcome, retry_after_ms: Option<u64>) -> EmailDispatchObserved {
    EmailDispatchObserved {
        failure: Some(SanitizedFailure {
            code: "provider_code".to_owned(),
            classification: outcome.as_str().to_owned(),
            retry_after_ms,
        }),
        ..observed(outcome)
    }
}

fn target() -> DispatchTarget {
    DispatchTarget {
        delivery_status: "attempting".to_owned(),
        revision: 2,
        attempt_count: 1,
        max_attempts: 4,
        function_run_id: "ntf_run_1".to_owned(),
        attempt_status: "dispatching".to_owned(),
        has_receipt: false,
    }
}

fn envelope(event_name: &str, source: &str) -> ObservationEnvelope {
    ObservationEnvelope {
        id: "obs_1".to_owned(),
        event_name: event_name.to_owned(),
        event_version: 1,
        source_module: source.to_owned(),
        aggregate_id: "ntf_dlv_1".to_owned(),
        occurred_at: at(5),
    }
}

fn receipt(kind: ReceiptKind) -> EmailReceiptObserved {
    EmailReceiptObserved {
        delivery_id: "ntf_dlv_1".to_owned(),
        attempt_id: "ntf_att_1".to_owned(),
        function_run_id: "ntf_run_1".to_owned(),
        kind,
        source: "smtp".to_owned(),
        observed_at: at(3),
        remote_id: "remote_1".to_owned(),
        digest: format!("sha256:{}", "a".repeat(64)),
    }
}

fn settle(payload: &EmailDispatchObserved, target: DispatchTarget) -> notification::events::DispatchSettlement {
    let event = envelope(EMAIL_DISPATCH_OBSERVED_EVENT, "smtp");
    match apply_dispatch_observation(Some(target), &event, payload).expect("effect") {
        DispatchEffect::Settle(settlement) => settlement,
        DispatchEffect::Absorb(_) => panic!("absorbed"),
    }
}

fn refusal(payload: &EmailDispatchObserved, target: Option<DispatchTarget>) -> (ErrorCode, String) {
    let event = envelope(EMAIL_DISPATCH_OBSERVED_EVENT, "smtp");
    let error = apply_dispatch_observation(target, &event, payload).expect_err("refused");
    (error.code, error.message().to_owned())
}

#[test]
fn validation_distinguishes_accepted_from_delivery() {
    let observed = EmailDispatchObserved {
        delivery_id: "ntf_dlv_1".to_owned(),
        attempt_id: "ntf_att_1".to_owned(),
        function_run_id: "ntf_run_1".to_owned(),
        outcome: DispatchOutcome::Accepted,
        provider: "smtp".to_owned(),
        observed_at: at(0),
        remote_receipt: None,
        failure: None,
    };
    validate_dispatch_observation(&observed).expect("SMTP acceptance is a known outcome");
    assert_ne!(observed.outcome.as_str(), "delivered");
}

#[test]
fn late_dispatch_absorption_requires_receipt_and_compatible_terminal_state() {
    assert!(late_observation_is_compatible(
        "delivered",
        true,
        DispatchOutcome::Accepted
    ));
    assert!(late_observation_is_compatible(
        "failed",
        true,
        DispatchOutcome::PermanentFailure
    ));
    assert!(!late_observation_is_compatible(
        "delivered",
        true,
        DispatchOutcome::TemporaryFailure
    ));
    assert!(!late_observation_is_compatible(
        "delivered",
        true,
        DispatchOutcome::DeliveryUnknown
    ));
    assert!(!late_observation_is_compatible(
        "delivered",
        false,
        DispatchOutcome::Accepted
    ));
}

#[test]
fn runtime_terminal_is_bound_to_email_delivery_owner_and_function() {
    let valid = RuntimeFunctionTerminal {
        failure_classification: "retry_exhausted".to_owned(),
        failure_code: "provider_unavailable".to_owned(),
        function_name: EMAIL_DISPATCH_FUNCTION.to_owned(),
        function_run_id: "ntf_run_1".to_owned(),
        owner_module: EMAIL_RUNTIME_OWNER.to_owned(),
        terminal_state: "dead".to_owned(),
    };
    validate_runtime_terminal(&valid).expect("valid terminal");
    let mut wrong_owner = valid.clone();
    wrong_owner.owner_module = "lenso/another-provider".to_owned();
    assert_eq!(
        validate_runtime_terminal(&wrong_owner)
            .expect_err("owner rejected")
            .code,
        ErrorCode::Validation
    );
    let mut wrong_function = valid;
    wrong_function.function_name = "lenso.email.receipt-check.v1".to_owned();
    assert_eq!(
        validate_runtime_terminal(&wrong_function)
            .expect_err("function rejected")
            .code,
        ErrorCode::Validation
    );
}

#[test]
fn payloads_follow_the_event_name_and_version() {
    let kinds = [
        (EMAIL_DISPATCH_OBSERVED_EVENT, PayloadKind::Dispatch),
        (EMAIL_RECEIPT_OBSERVED_EVENT, PayloadKind::Receipt),
        (RUNTIME_FUNCTION_TERMINAL_EVENT, PayloadKind::RuntimeTerminal),
        (ORGANIZATION_INVITATION_ACCEPTED_EVENT, PayloadKind::InvitationLifecycle),
        (ORGANIZATION_INVITATION_REVOKED_EVENT, PayloadKind::InvitationLifecycle),
        (ORGANIZATION_INVITATION_EXPIRED_EVENT, PayloadKind::InvitationLifecycle),
    ];
    for (name, kind) in kinds {
        assert_eq!(expected_payload(name, &envelope(name, "smtp")).expect("declared"), kind);
        let mut newer = envelope(name, "smtp");
        newer.event_version = 2;
        let error = expected_payload(name, &newer).expect_err("undeclared");
        assert_eq!(error.message(), "Notification received an undeclared Event contract");
    }
    let error = expected_payload("other", &envelope("other", "smtp")).expect_err("unknown");
    assert_eq!(error.message(), "Notification Event handler is misconfigured");
    let error = payload_invalid("missing field");
    assert_eq!(error.message(), "Notification Event payload is invalid");
    assert_eq!(error.source(), Some("missing field"));
}

#[test]
fn handlers_take_the_events_of_their_name() {
    let handlers = [
        (
            NotificationEventHandler::dispatch_observed(),
            "notification.apply-email-dispatch-observation.v1",
            EMAIL_DISPATCH_OBSERVED_EVENT,
            PayloadKind::Dispatch,
        ),
        (
            NotificationEventHandler::receipt_observed(),
            "notification.apply-email-receipt.v1",
            EMAIL_RECEIPT_OBSERVED_EVENT,
            PayloadKind::Receipt,
        ),
        (
            NotificationEventHandler::runtime_terminal(),
            "notification.apply-runtime-terminal.v1",
            RUNTIME_FUNCTION_TERMINAL_EVENT,
            PayloadKind::RuntimeTerminal,
        ),
        (
            NotificationEventHandler::invitation_accepted(),
            "notification.apply-invitation-accepted.v1",
            ORGANIZATION_INVITATION_ACCEPTED_EVENT,
            PayloadKind::InvitationLifecycle,
        ),
        (
            NotificationEventHandler::invitation_revoked(),
            "notification.apply-invitation-revoked.v1",
            ORGANIZATION_INVITATION_REVOKED_EVENT,
            PayloadKind::InvitationLifecycle,
        ),
    ];
    for (handler, handler_name, event_name, kind) in handlers {
        assert_eq!(handler.handler_name, handler_name);
        assert_eq!(handler.event_name, event_name);
        assert_eq!(handler.handle(&envelope(event_name, "smtp")).expect("declared"), kind);
        let error = handler.handle(&envelope("other", "smtp")).expect_err("undeclared");
        assert_eq!(error.message(), "Notification received an undeclared Event contract");
    }
}

#[test]
fn observations_are_bound_to_their_source() {
    let payload = observed(DispatchOutcome::Accepted);
    let bound = |source: &str| {
        admit_dispatch_observation(&envelope(EMAIL_DISPATCH_OBSERVED_EVENT, source), &payload)
    };
    assert!(bound("smtp").is_ok());
    assert_eq!(
        bound("other").expect_err("mismatch").message(),
        "Notification observation source does not match its payload"
    );
    assert_eq!(
        bound(" ").expect_err("blank").message(),
        "Notification observation source is invalid"
    );
    let event = envelope(EMAIL_RECEIPT_OBSERVED_EVENT, "other");
    assert!(admit_receipt_observation(&event, &receipt(ReceiptKind::Bounced)).is_err());
    let event = envelope(EMAIL_RECEIPT_OBSERVED_EVENT, "smtp");
    assert!(admit_receipt_observation(&event, &receipt(ReceiptKind::Bounced)).is_ok());
    assert!(admit_source(&event).is_ok());
    assert!(admit_source(&envelope(EMAIL_RECEIPT_OBSERVED_EVENT, &"x".repeat(161))).is_err());
}

#[test]
fn unsound_observations_are_named() {
    let message = |payload: EmailDispatchObserved| {
        validate_dispatch_observation(&payload)
            .expect_err("rejected")
            .message()
            .to_owned()
    };
    let base = || observed(DispatchOutcome::Accepted);
    assert_eq!(
        message(EmailDispatchObserved { provider: String::new(), ..base() }),
        "Email dispatch observation provider is invalid"
    );
    assert_eq!(
        message(EmailDispatchObserved { delivery_id: "x".repeat(161), ..base() }),
        "Email dispatch observation deliveryId is invalid"
    );
    assert_eq!(
        message(EmailDispatchObserved { attempt_id: String::new(), ..base() }),
        "Email dispatch observation attemptId is invalid"
    );
    assert_eq!(
        message(EmailDispatchObserved { function_run_id: String::new(), ..base() }),
        "Email dispatch observation functionRunId is invalid"
    );
    assert_eq!(
        message(observed(DispatchOutcome::PermanentFailure)),
        "Email failure observation requires sanitized failure metadata"
    );
    let summary = |remote_id: String, digest: String| {
        Some(RemoteReceiptSummary { remote_id, source: "smtp".to_owned(), digest })
    };
    let digest = format!("sha256:{}", "a".repeat(64));
    assert_eq!(
        message(EmailDispatchObserved {
            remote_receipt: summary("remote".to_owned(), "sha256:x".to_owned()),
            ..base()
        }),
        "Email evidence digest is invalid"
    );
    assert_eq!(
        message(EmailDispatchObserved { remote_receipt: summary("x".repeat(321), digest), ..base() }),
        "Email remote receipt metadata exceeds bounds"
    );
    let mut no_remote = receipt(ReceiptKind::Delivered);
    no_remote.remote_id = String::new();
    assert_eq!(
        validate_receipt(&no_remote).expect_err("rejected").message(),
        "Email receipt identity is invalid"
    );
    let mut no_digest = receipt(ReceiptKind::Delivered);
    no_digest.digest = String::new();
    assert_eq!(
        validate_receipt(&no_digest).expect_err("rejected").message(),
        "Email evidence digest is invalid"
    );
}

#[test]
fn events_are_consumed_once() {
    let digest = event_digest(b"payload");
    assert!(!claim_event(None, &digest).expect("new"));
    assert!(claim_event(Some(&digest), &digest).expect("replay"));
    let error = claim_event(Some("sha256:other"), &digest).expect_err("conflict");
    assert_eq!(error.code, ErrorCode::Conflict);
    assert_eq!(
        error.message(),
        "Notification Event id was replayed with different content"
    );
}

#[test]
fn acceptance_is_never_delivery() {
    let mut payload = observed(DispatchOutcome::Accepted);
    payload.remote_receipt = Some(RemoteReceiptSummary {
        remote_id: "remote_1".to_owned(),
        source: "smtp".to_owned(),
        digest: format!("sha256:{}", "a".repeat(64)),
    });
    let settlement = settle(&payload, target());
    assert_eq!(settlement.attempt_status, AttemptStatus::Accepted);
    assert!(matches!(settlement.delivery.change, DeliveryChange::Accepted));
    assert_eq!(settlement.delivery.expected_revision, 2);
    assert_eq!(settlement.delivery.new_revision, 3);
    let inserted = settlement.receipt.expect("receipt");
    assert_eq!(inserted.kind, "accepted");
    assert_eq!(inserted.remote_id, "remote_1");
    assert!(settlement.retry.is_none());
}

#[test]
fn temporary_failures_wait_for_policy_and_provider() {
    let next = |retry_after_ms: Option<u64>, attempt_count: i32| {
        let payload = failed(DispatchOutcome::TemporaryFailure, retry_after_ms);
        let settlement = settle(&payload, DispatchTarget { attempt_count, ..target() });
        let retry = settlement.retry.expect("decision");
        assert_eq!(retry.decision, RetryVerdict::Scheduled);
        assert_eq!(retry.reason, "temporary_failure");
        retry.scheduled_at.expect("scheduled")
    };
    assert_eq!(next(None, 1), at(60));
    assert_eq!(next(Some(1_000), 1), at(60));
    assert_eq!(next(Some(120_000), 1), at(120));
    assert_eq!(next(None, 2), at(300));
    assert_eq!(next(None, 3), at(1_800));
    assert_eq!(next(Some(u64::MAX), 3), at(86_400));
}

#[test]
fn exhausted_retries_fail_the_delivery() {
    let payload = failed(DispatchOutcome::TemporaryFailure, None);
    let settlement = settle(&payload, DispatchTarget { attempt_count: 4, ..target() });
    let retry = settlement.retry.expect("decision");
    assert_eq!(retry.decision, RetryVerdict::Rejected);
    assert_eq!(retry.reason, "retry_exhausted");
    assert_eq!(retry.scheduled_at, None);
    assert_eq!(settlement.delivery.change.new_status(), DeliveryStatus::Failed);
}

#[test]
fn permanent_and_unknown_results_are_final() {
    let settlement = settle(&failed(DispatchOutcome::PermanentFailure, None), target());
    assert_eq!(settlement.delivery.change.new_status(), DeliveryStatus::Failed);
    assert!(settlement.retry.is_none());
    let settlement = settle(&failed(DispatchOutcome::DeliveryUnknown, None), target());
    assert_eq!(
        settlement.delivery.change.new_status(),
        DeliveryStatus::DeliveryUnknown
    );
    assert!(settlement.retry.is_none());
}

#[test]
fn dispatch_observations_that_do_not_fit_are_refused() {
    let payload = failed(DispatchOutcome::DeliveryUnknown, None);
    assert_eq!(
        refusal(&payload, None),
        (
            ErrorCode::NotFound,
            "Email dispatch observation does not match a Notification attempt".to_owned()
        )
    );
    assert_eq!(
        refusal(&payload, Some(DispatchTarget { function_run_id: "other".to_owned(), ..target() })),
        (
            ErrorCode::Conflict,
            "Email dispatch observation function run does not match".to_owned()
        )
    );
    assert_eq!(
        refusal(
            &payload,
            Some(DispatchTarget { delivery_status: "delivery_unknown".to_owned(), ..target() })
        ),
        (
            ErrorCode::Conflict,
            "Notification delivery is not waiting for a dispatch observation".to_owned()
        )
    );
    assert_eq!(
        refusal(&payload, Some(DispatchTarget { attempt_status: "accepted".to_owned(), ..target() })),
        (
            ErrorCode::Conflict,
            "Notification attempt already has a business observation".to_owned()
        )
    );
    assert_eq!(
        refusal(&payload, Some(DispatchTarget { revision: MAX_SAFE_WIRE_INTEGER, ..target() })),
        (
            ErrorCode::Conflict,
            "Notification delivery revision exhausted the portable wire range".to_owned()
        )
    );
}

#[test]
fn late_acceptance_is_absorbed_after_a_receipt() {
    let event = envelope(EMAIL_DISPATCH_OBSERVED_EVENT, "smtp");
    let payload = observed(DispatchOutcome::Accepted);
    let late = DispatchTarget {
        delivery_status: "delivered".to_owned(),
        has_receipt: true,
        ..target()
    };
    match apply_dispatch_observation(Some(late), &event, &payload).expect("absorbed") {
        DispatchEffect::Absorb(evidence) => assert_eq!(evidence.attempt_id, "ntf_att_1"),
        DispatchEffect::Settle(_) => panic!("settled"),
    }
}

#[test]
fn retries_past_the_calendar_are_out_of_range() {
    let last = chrono::DateTime::<chrono::Utc>::MAX_UTC.timestamp();
    let mut payload = failed(DispatchOutcome::TemporaryFailure, None);
    assert!(effect_is_in_range(&Some(target()), &payload));
    payload.observed_at = UtcTime::at(last - 59, 0).expect("valid instant");
    assert!(!effect_is_in_range(&Some(target()), &payload));
    payload.observed_at = UtcTime::at(last - 60, 0).expect("valid instant");
    assert!(effect_is_in_range(&Some(target()), &payload));
    payload.failure = failed(DispatchOutcome::TemporaryFailure, Some(61_000)).failure;
    assert!(!effect_is_in_range(&Some(target()), &payload));
    let settled = DispatchTarget { attempt_status: "accepted".to_owned(), ..target() };
    assert!(effect_is_in_range(&Some(settled), &payload));
    assert!(effect_is_in_range(&None, &payload));
    let exhausted = DispatchTarget { attempt_count: 4, ..target() };
    assert!(effect_is_in_range(&Some(exhausted), &payload));
    payload.outcome = DispatchOutcome::DeliveryUnknown;
    assert!(effect_is_in_range(&Some(target()), &payload));
}

#[test]
fn receipts_are_known_by_their_digest() {
    let payload = receipt(ReceiptKind::Delivered);
    assert!(!known_receipt(None, &payload).expect("new"));
    assert!(known_receipt(Some(&payload.digest), &payload).expect("known"));
    assert_eq!(
        known_receipt(Some("sha256:other"), &payload).expect_err("conflict").code,
        ErrorCode::Conflict
    );
}

#[test]
fn receipts_prove_the_end_of_a_delivery() {
    let event = envelope(EMAIL_RECEIPT_OBSERVED_EVENT, "smtp");
    let target = |status: &str| ReceiptTarget {
        delivery_status: status.to_owned(),
        revision: 3,
        function_run_id: "ntf_run_1".to_owned(),
    };
    for (kind, status) in [
        (ReceiptKind::Delivered, DeliveryStatus::Delivered),
        (ReceiptKind::Bounced, DeliveryStatus::Failed),
        (ReceiptKind::Rejected, DeliveryStatus::Failed),
    ] {
        let settlement =
            apply_receipt(Some(target("accepted")), &event, &receipt(kind)).expect("settled");
        assert_eq!(settlement.delivery.change.new_status(), status);
        assert_eq!(settlement.delivery.new_revision, 4);
        assert_eq!(settlement.receipt.kind, kind.as_str());
    }
    let refused = |found: Option<ReceiptTarget>| {
        apply_receipt(found, &event, &receipt(ReceiptKind::Delivered))
            .expect_err("refused")
            .message()
            .to_owned()
    };
    assert_eq!(refused(None), "Email receipt does not match a Notification attempt");
    assert_eq!(
        refused(Some(ReceiptTarget { function_run_id: "other".to_owned(), ..target("accepted") })),
        "Email receipt function run does not match"
    );
    assert_eq!(
        refused(Some(target("delivery_unknown"))),
        "Email receipt would regress a terminal Notification delivery"
    );
    assert_eq!(
        refused(Some(ReceiptTarget { revision: MAX_SAFE_WIRE_INTEGER, ..target("accepted") })),
        "Notification delivery revision exhausted the portable wire range"
    );
}

#[test]
fn runtime_ends_leave_the_delivery_unknown() {
    let event = envelope(RUNTIME_FUNCTION_TERMINAL_EVENT, "runtime");
    let payload = RuntimeFunctionTerminal {
        failure_classification: "retry_exhausted".to_owned(),
        failure_code: "x".repeat(200),
        function_name: EMAIL_DISPATCH_FUNCTION.to_owned(),
        function_run_id: "ntf_run_1".to_owned(),
        owner_module: EMAIL_RUNTIME_OWNER.to_owned(),
        terminal_state: "dead".to_owned(),
    };
    assert!(apply_runtime_terminal(None, &event, &payload)
        .expect("nothing waits")
        .is_none());
    let settlement = apply_runtime_terminal(
        Some(TerminalTarget {
            attempt_id: "ntf_att_1".to_owned(),
            delivery_id: "ntf_dlv_1".to_owned(),
            revision: 2,
        }),
        &event,
        &payload,
    )
    .expect("settled")
    .expect("waiting attempt");
    assert_eq!(settlement.failure_code.len(), 160);
    assert_eq!(
        settlement.delivery.change.new_status(),
        DeliveryStatus::DeliveryUnknown
    );
    let error = apply_runtime_terminal(
        Some(TerminalTarget {
            attempt_id: "ntf_att_1".to_owned(),
            delivery_id: "ntf_dlv_1".to_owned(),
            revision: MAX_SAFE_WIRE_INTEGER,
        }),
        &event,
        &payload,
    )
    .expect_err("refused");
    assert_eq!(error.code, ErrorCode::Conflict);
}

#[test]
fn lifecycles_cancel_only_waiting_work_of_their_source() {
    let candidate = |id: &str, status: &str, source: &str, requested: i64| LifecycleCandidate {
        delivery_id: id.to_owned(),
        status: status.to_owned(),
        revision: 1,
        source_module: source.to_owned(),
        source_entity_type: "organization_invitation".to_owned(),
        source_entity_id: "invite_1".to_owned(),
        requested_at: at(requested),
    };
    let candidates = vec![
        candidate("queued", "queued", "organization-blue", 0),
        candidate("scheduled", "retry_scheduled", "organization-blue", 0),
        candidate("attempting", "attempting", "organization-blue", 0),
        candidate("red", "queued", "organization-red", 0),
        candidate("later", "queued", "organization-blue", 100),
    ];
    for name in [
        ORGANIZATION_INVITATION_ACCEPTED_EVENT,
        ORGANIZATION_INVITATION_REVOKED_EVENT,
        ORGANIZATION_INVITATION_EXPIRED_EVENT,
    ] {
        let event = envelope(name, "organization-blue");
        let payload = OrganizationInvitationLifecycle {
            invitation_id: "invite_1".to_owned(),
            organization_id: "org_1".to_owned(),
            observed_at: at(5),
        };
        let settlement =
            apply_invitation_lifecycle(&event, &payload, &candidates).expect("settled");
        let cancelled: Vec<&str> = settlement
            .cancellations
            .iter()
            .map(|update| update.delivery_id.as_str())
            .collect();
        assert_eq!(cancelled, vec!["queued", "scheduled"]);
        assert_eq!(settlement.event.source_module, "organization-blue");
        for update in &settlement.cancellations {
            assert_eq!(update.change.new_status(), DeliveryStatus::Failed);
            assert_eq!(update.new_revision, 2);
        }
    }
}

#[test]
fn updates_touch_exactly_one_row() {
    assert!(require_one_row(1, "changed").is_ok());
    let error = require_one_row(0, "changed").expect_err("lost update");
    assert_eq!(error.code, ErrorCode::Conflict);
    assert_eq!(error.message(), "changed");
    assert!(require_one_row(2, "changed").is_err());
}
