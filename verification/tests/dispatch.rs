use notification::admin;
use notification::answers::{
    bound_email_provider, claimed_work, intent_response, map_access_request_create_error,
    map_create_error, map_get_error, map_lifecycle_error, map_receipt_error, map_retry_error,
    not_prepared, secret_rejected,
};
use notification::contracts::DispatchOutcome;
use notification::delivery;
use notification::dispatch::{
    delivery_status, dispatch_due_response, dispatch_envelope, dispatch_observation,
    dispatch_request, settle_reply, unknown_dispatch,
};
use notification::domain::{DeliveryStatus as StoredDeliveryStatus, MAX_SAFE_WIRE_INTEGER};
use notification::email::{
    self, DispatchError, DispatchReply, DispatchRequest, DispatchResponseOutcome,
};
use notification::error::{ErrorCode, NotificationError, PluginError, RuntimeFailure};
use notification::projection::{
    admin_attempt, admin_delivery, admin_detail, admin_receipt, admin_retry, admin_retry_record,
    admin_status, delivery_page,
};
use notification::public::TransactionalIntentReceipt;
use notification::repository::{
    AttemptRecord, DeliveryDetail, DeliverySummary, ReceiptRecord, RetryRecord, RetryResult,
    ADMIN_ATTEMPT_LIMIT,
};
use notification::runtime::{AttemptInsert, DispatchClaim, DispatchWork, DueClaim};
use notification::time::UtcTime;
use notification::transactional;

fn now() -> UtcTime {
    let now = chrono::Utc::now();
    UtcTime::at(now.timestamp(), now.timestamp_subsec_nanos()).expect("valid instant")
}

fn dispatch_work() -> DispatchWork {
    DispatchWork {
        claim: DispatchClaim {
            delivery_id: "delivery".to_owned(),
            attempt_id: "attempt".to_owned(),
            run_id: "run".to_owned(),
        },
        request: DispatchRequest {
            delivery_id: "delivery".to_owned(),
            attempt_id: "attempt".to_owned(),
            run_id: "run".to_owned(),
            idempotency_key: "attempt".to_owned(),
            recipient: email::DispatchRequestRecipient {
                address: "member@example.com".to_owned(),
            },
            message: email::DispatchRequestMessage {
                template_id: "organization-invitation".to_owned(),
                template_version: "v1".to_owned(),
                locale: "en".to_owned(),
                subject: "secret".to_owned(),
                text: "secret".to_owned(),
                html: "secret".to_owned(),
                content_digest: format!("sha256:{}", "a".repeat(64)),
            },
            correlation_id: "correlation".to_owned(),
        },
    }
}

fn accepted() -> email::DispatchResponse {
    email::DispatchResponse {
        failure: None,
        observed_at: "2026-08-30T00:00:00Z".to_owned(),
        outcome: DispatchResponseOutcome::Accepted,
        provider: "email-provider-blue".to_owned(),
        remote_receipt: Some(email::DispatchResponseRemoteReceipt {
            digest: format!("sha256:{}", "a".repeat(64)),
            remote_id: "remote".to_owned(),
            source: "email-provider-blue".to_owned(),
        }),
    }
}

fn summary(now: UtcTime) -> DeliverySummary {
    DeliverySummary {
        id: "delivery".to_owned(),
        recipient_mask: "a***@example.test".to_owned(),
        template_id: "organization-invitation".to_owned(),
        template_version: "v1".to_owned(),
        locale: "en".to_owned(),
        status: "queued".to_owned(),
        revision: 1,
        attempt_count: 0,
        max_attempts: 4,
        redacted_preview: "Invitation".to_owned(),
        content_digest: format!("sha256:{}", "a".repeat(64)),
        correlation_id: "story".to_owned(),
        next_attempt_at: Some(now),
        final_reason: None,
        created_at: now,
        updated_at: now,
    }
}

fn attempt(now: UtcTime) -> AttemptRecord {
    AttemptRecord {
        id: "attempt".to_owned(),
        sequence: 1,
        function_run_id: "run".to_owned(),
        status: "dispatching".to_owned(),
        provider: None,
        remote_receipt_id: None,
        failure_code: None,
        failure_classification: None,
        started_at: now,
        completed_at: None,
    }
}

#[test]
fn native_admin_outputs_reject_unbounded_or_nonportable_storage_values() {
    let now = now();
    let summary = summary(now);
    assert!(admin_delivery(&summary).is_ok());
    assert!(admin_delivery(&DeliverySummary {
        revision: MAX_SAFE_WIRE_INTEGER + 1,
        ..summary.clone()
    })
    .is_err());
    assert!(admin_delivery(&DeliverySummary {
        id: "x".repeat(161),
        ..summary.clone()
    })
    .is_err());

    let attempt = attempt(now);
    assert!(admin_attempt(&attempt).is_ok());
    assert!(admin_attempt(&AttemptRecord {
        function_run_id: "x".repeat(161),
        ..attempt.clone()
    })
    .is_err());

    let detail = DeliveryDetail {
        delivery: summary,
        attempts: vec![attempt; ADMIN_ATTEMPT_LIMIT + 1],
        receipts: Vec::new(),
        retry_requests: Vec::new(),
    };
    assert!(admin_detail(detail).is_err());

    let mapped = map_get_error(NotificationError::new(
        ErrorCode::EvidenceOverflow,
        "bounded evidence overflow fixture",
    ));
    assert!(matches!(
        mapped,
        PluginError::Domain(admin::GetDeliveryError::EvidenceOverflow)
    ));

    assert!(admin_retry(RetryResult {
        delivery_id: "delivery".to_owned(),
        revision: MAX_SAFE_WIRE_INTEGER + 1,
        status: "retry_scheduled".to_owned(),
        scheduled_at: now,
        idempotent_replay: false,
    })
    .is_err());
}

#[test]
fn native_email_response_validation_rejects_invalid_bounds_and_cross_fields() {
    let work = dispatch_work();
    let email_provider_instance = "email-provider-blue";
    let accepted = accepted();
    let accepted_observation =
        dispatch_observation(&work, email_provider_instance, accepted.clone())
            .expect("bound Provider response is valid");
    assert_eq!(accepted_observation.provider, email_provider_instance);
    assert_eq!(
        accepted_observation
            .remote_receipt
            .expect("accepted receipt")
            .source,
        email_provider_instance
    );

    let temporary = email::DispatchResponse {
        failure: Some(email::DispatchResponseFailure {
            classification: "temporary_failure".to_owned(),
            code: "rate_limited".to_owned(),
            retry_after_ms: Some(1_000),
        }),
        observed_at: "2026-08-30T00:00:00Z".to_owned(),
        outcome: DispatchResponseOutcome::TemporaryFailure,
        provider: "email-provider-blue".to_owned(),
        remote_receipt: None,
    };
    assert!(dispatch_observation(&work, email_provider_instance, temporary.clone()).is_ok());

    let invalid = [
        email::DispatchResponse {
            provider: String::new(),
            ..accepted.clone()
        },
        email::DispatchResponse {
            provider: "different-provider".to_owned(),
            ..accepted.clone()
        },
        email::DispatchResponse {
            observed_at: "not-a-time".to_owned(),
            ..accepted.clone()
        },
        email::DispatchResponse {
            observed_at: format!("2026-08-30T00:00:00.{}Z", "1".repeat(50)),
            ..accepted.clone()
        },
        email::DispatchResponse {
            failure: Some(email::DispatchResponseFailure {
                classification: "permanent_failure".to_owned(),
                code: "should-not-exist".to_owned(),
                retry_after_ms: None,
            }),
            ..accepted.clone()
        },
        email::DispatchResponse {
            outcome: DispatchResponseOutcome::PermanentFailure,
            remote_receipt: None,
            failure: None,
            ..accepted.clone()
        },
        email::DispatchResponse {
            outcome: DispatchResponseOutcome::DeliveryUnknown,
            remote_receipt: None,
            failure: None,
            ..accepted.clone()
        },
        email::DispatchResponse {
            remote_receipt: Some(email::DispatchResponseRemoteReceipt {
                remote_id: String::new(),
                ..accepted.remote_receipt.clone().expect("accepted receipt")
            }),
            ..accepted.clone()
        },
        email::DispatchResponse {
            remote_receipt: Some(email::DispatchResponseRemoteReceipt {
                remote_id: "x".repeat(321),
                ..accepted.remote_receipt.clone().expect("accepted receipt")
            }),
            ..accepted.clone()
        },
        email::DispatchResponse {
            remote_receipt: Some(email::DispatchResponseRemoteReceipt {
                source: "different-provider".to_owned(),
                ..accepted.remote_receipt.clone().expect("accepted receipt")
            }),
            ..accepted.clone()
        },
        email::DispatchResponse {
            remote_receipt: Some(email::DispatchResponseRemoteReceipt {
                digest: "sha256:not-a-digest".to_owned(),
                ..accepted.remote_receipt.clone().expect("accepted receipt")
            }),
            ..accepted.clone()
        },
        email::DispatchResponse {
            failure: Some(email::DispatchResponseFailure {
                retry_after_ms: Some(-1),
                ..temporary.failure.clone().expect("temporary failure")
            }),
            ..temporary.clone()
        },
        email::DispatchResponse {
            failure: Some(email::DispatchResponseFailure {
                retry_after_ms: Some(86_400_001),
                ..temporary.failure.clone().expect("temporary failure")
            }),
            ..temporary.clone()
        },
        email::DispatchResponse {
            failure: Some(email::DispatchResponseFailure {
                code: String::new(),
                ..temporary.failure.clone().expect("temporary failure")
            }),
            ..temporary.clone()
        },
        email::DispatchResponse {
            failure: Some(email::DispatchResponseFailure {
                code: "x".repeat(161),
                ..temporary.failure.clone().expect("temporary failure")
            }),
            ..temporary.clone()
        },
        email::DispatchResponse {
            failure: Some(email::DispatchResponseFailure {
                classification: String::new(),
                ..temporary.failure.clone().expect("temporary failure")
            }),
            ..temporary.clone()
        },
        email::DispatchResponse {
            failure: Some(email::DispatchResponseFailure {
                classification: "x".repeat(161),
                ..temporary.failure.clone().expect("temporary failure")
            }),
            ..temporary.clone()
        },
        email::DispatchResponse {
            failure: Some(email::DispatchResponseFailure {
                classification: "permanent_failure".to_owned(),
                ..temporary.failure.clone().expect("temporary failure")
            }),
            ..temporary.clone()
        },
        email::DispatchResponse {
            remote_receipt: accepted.remote_receipt,
            ..temporary
        },
    ];
    for response in invalid {
        assert!(matches!(
            dispatch_observation(&work, email_provider_instance, response),
            Err(RuntimeFailure::ProtocolViolation { capability })
                if capability == email::CAPABILITY_ID
        ));
    }
}

#[test]
fn unknown_dispatch_is_terminal_and_redaction_safe() {
    let work = dispatch_work();
    let observation = unknown_dispatch(&work, "email-provider-blue", now(), "runtime_failure");
    assert_eq!(observation.outcome, DispatchOutcome::DeliveryUnknown);
    assert!(observation.failure.is_some());
    assert!(!format!("{observation:?}").contains("member@example.com"));
}

#[test]
fn stored_delivery_unknown_never_maps_to_a_retry_state() {
    assert_eq!(
        delivery_status("delivery_unknown").unwrap(),
        delivery::DispatchDueResponseStatus::DeliveryUnknown
    );
    assert!(notification::domain::can_transition(
        StoredDeliveryStatus::Attempting,
        StoredDeliveryStatus::DeliveryUnknown
    ));
    assert!(!notification::domain::can_transition(
        StoredDeliveryStatus::DeliveryUnknown,
        StoredDeliveryStatus::RetryScheduled
    ));
}

#[test]
fn every_reply_is_recorded_before_it_is_answered() {
    let work = dispatch_work();
    let now = now();
    let settle = |reply: DispatchReply| settle_reply(&work, "email-provider-blue", now, reply);
    let code = |reply: DispatchReply| {
        settle(reply).observed.failure.expect("failure").code
    };

    let aftermath = settle(DispatchReply::Response(accepted()));
    assert!(aftermath.failure.is_none());
    assert_eq!(aftermath.observed.outcome, DispatchOutcome::Accepted);
    let event = dispatch_envelope(&work, &aftermath.observed);
    assert_eq!(event.id, "dispatch-observation:attempt");
    assert_eq!(event.source_module, "email-provider-blue");
    assert!(notification::events::admit_dispatch_observation(&event, &aftermath.observed).is_ok());

    let aftermath = settle(DispatchReply::Domain(DispatchError::InvalidDispatch));
    assert_eq!(aftermath.observed.outcome, DispatchOutcome::PermanentFailure);
    assert!(matches!(
        aftermath.failure,
        Some(PluginError::Domain(delivery::DispatchDueError::DispatchRejected))
    ));
    assert_eq!(
        code(DispatchReply::Domain(DispatchError::InvalidDispatch)),
        "email_invalid_dispatch"
    );
    assert_eq!(
        code(DispatchReply::Domain(DispatchError::UnsupportedMessage)),
        "email_unsupported_message"
    );

    let aftermath = settle(DispatchReply::Domain(DispatchError::Unknown));
    assert_eq!(aftermath.observed.outcome, DispatchOutcome::DeliveryUnknown);
    assert!(matches!(
        aftermath.failure,
        Some(PluginError::Runtime(RuntimeFailure::ProtocolViolation { .. }))
    ));
    assert_eq!(
        code(DispatchReply::Domain(DispatchError::Unknown)),
        "email_dispatch_unknown_domain_error"
    );

    let aftermath = settle(DispatchReply::Runtime(RuntimeFailure::DeadlineExceeded { request_id: 7 }));
    assert_eq!(aftermath.observed.outcome, DispatchOutcome::DeliveryUnknown);
    assert!(matches!(
        aftermath.failure,
        Some(PluginError::Runtime(RuntimeFailure::DeadlineExceeded { request_id: 7 }))
    ));
    assert_eq!(
        code(DispatchReply::Runtime(RuntimeFailure::AdmissionClosed)),
        "email_dispatch_runtime_failure"
    );

    let mut foreign = accepted();
    foreign.provider = "different-provider".to_owned();
    let aftermath = settle(DispatchReply::Response(foreign.clone()));
    assert_eq!(aftermath.observed.outcome, DispatchOutcome::DeliveryUnknown);
    assert_eq!(aftermath.observed.provider, "email-provider-blue");
    assert_eq!(code(DispatchReply::Response(foreign)), "email_dispatch_protocol_failure");
    assert!(dispatch_request(&work) == work.request);
}

#[test]
fn workers_are_answered_from_the_ledger() {
    let work = dispatch_work();
    let time = UtcTime::at(1_780_000_000, 5_000_000).expect("valid instant");
    let row = |status: &str| DeliverySummary {
        status: status.to_owned(),
        next_attempt_at: Some(time),
        ..summary(time)
    };
    let response =
        dispatch_due_response(&work, time, Some(&row("retry_scheduled"))).expect("answer");
    assert_eq!(response.status, delivery::DispatchDueResponseStatus::RetryScheduled);
    assert_eq!(response.observed_at, "2026-05-28T20:26:40.005Z");
    assert_eq!(response.next_attempt_at.as_deref(), Some("2026-05-28T20:26:40.005Z"));
    assert_eq!(response.attempt_id, "attempt");
    let detail = |failure: RuntimeFailure| match failure {
        RuntimeFailure::PluginFailure { detail } => detail,
        other => panic!("{other:?}"),
    };
    assert_eq!(
        detail(dispatch_due_response(&work, time, Some(&row("queued"))).expect_err("invalid")),
        "stored delivery status `queued` is invalid after dispatch"
    );
    assert_eq!(
        detail(dispatch_due_response(&work, time, None).expect_err("missing")),
        "claimed delivery disappeared"
    );
}

#[test]
fn projections_show_what_is_stored() {
    let now = UtcTime::at(1_780_000_000, 0).expect("valid instant");
    let shown = admin_delivery(&DeliverySummary {
        status: "retry_scheduled".to_owned(),
        attempt_count: 1,
        ..summary(now)
    })
    .expect("shown");
    assert!(shown.retry_now_eligible);
    assert_eq!(shown.status, admin::DeliveryStatus::RetryScheduled);
    assert_eq!(shown.created_at, "2026-05-28T20:26:40.000Z");
    let exhausted = admin_delivery(&DeliverySummary {
        status: "retry_scheduled".to_owned(),
        attempt_count: 4,
        ..summary(now)
    })
    .expect("shown");
    assert!(!exhausted.retry_now_eligible);
    assert!(admin_delivery(&DeliverySummary { status: "sent".to_owned(), ..summary(now) }).is_err());
    let expanded = UtcTime::at(253_402_300_800, 0).expect("valid instant");
    assert!(admin_delivery(&DeliverySummary { updated_at: expanded, ..summary(now) }).is_err());
    let receipt = ReceiptRecord {
        id: "receipt".to_owned(),
        attempt_id: "attempt".to_owned(),
        kind: "bounced".to_owned(),
        source: "smtp".to_owned(),
        remote_id: "remote".to_owned(),
        digest: format!("sha256:{}", "a".repeat(64)),
        observed_at: now,
    };
    assert_eq!(admin_receipt(&receipt).expect("shown").kind, admin::ReceiptKind::Bounced);
    assert!(admin_receipt(&ReceiptRecord { kind: "opened".to_owned(), ..receipt.clone() }).is_err());
    let retry = RetryRecord {
        id: "retry".to_owned(),
        kind: "manual".to_owned(),
        requested_by: Some("console".to_owned()),
        source_revision: 3,
        decision: "scheduled".to_owned(),
        reason: Some("operator_retry_now".to_owned()),
        scheduled_at: Some(now),
        created_at: now,
    };
    assert_eq!(
        admin_retry_record(&retry).expect("shown").kind,
        admin::RetryRecordKind::Manual
    );
    assert!(admin_retry_record(&RetryRecord { decision: "later".to_owned(), ..retry.clone() }).is_err());
    let detail = admin_detail(DeliveryDetail {
        delivery: summary(now),
        attempts: vec![attempt(now)],
        receipts: vec![receipt],
        retry_requests: vec![retry],
    })
    .expect("shown");
    assert_eq!(detail.open_in_story_correlation_id, "story");
    assert_eq!(detail.attempts.len(), 1);
    assert_eq!(detail.receipts.len(), 1);
    assert_eq!(detail.retry_requests.len(), 1);
    let result = admin_retry(RetryResult {
        delivery_id: "delivery".to_owned(),
        revision: 4,
        status: "retry_scheduled".to_owned(),
        scheduled_at: now,
        idempotent_replay: true,
    })
    .expect("shown");
    assert!(result.idempotent_replay);
}

#[test]
fn pages_say_where_to_go_on() {
    let now = now();
    let rows = |count: usize| {
        (0..count)
            .map(|index| DeliverySummary { id: format!("ntf_dlv_{index}"), ..summary(now) })
            .collect::<Vec<_>>()
    };
    let page = delivery_page(rows(3), 2).expect("page");
    assert_eq!(page.records.len(), 2);
    assert_eq!(page.next_cursor.as_deref(), Some("ntf_dlv_1"));
    let page = delivery_page(rows(2), 2).expect("page");
    assert_eq!(page.records.len(), 2);
    assert_eq!(page.next_cursor, None);
    let page = delivery_page(Vec::new(), 2).expect("page");
    assert!(page.records.is_empty());
    let mut broken = rows(3);
    broken[2].revision = 0;
    assert!(delivery_page(broken, 2).is_ok());
    let mut broken = rows(3);
    broken[1].revision = 0;
    assert!(delivery_page(broken, 2).is_err());
}

#[test]
fn ledger_failures_are_answered_by_their_code() {
    let error = |code: ErrorCode, message: &str| NotificationError::new(code, message);
    assert!(matches!(
        map_create_error(error(ErrorCode::Validation, "x")),
        PluginError::Domain(transactional::CreateOrganizationInvitationError::InvalidIntent)
    ));
    assert!(matches!(
        map_create_error(error(ErrorCode::Conflict, "x")),
        PluginError::Domain(transactional::CreateOrganizationInvitationError::IdempotencyConflict)
    ));
    assert!(matches!(
        map_create_error(error(ErrorCode::Internal, "x")),
        PluginError::Runtime(RuntimeFailure::PluginFailure { detail }) if detail == "x"
    ));
    assert!(matches!(
        map_lifecycle_error(error(ErrorCode::Conflict, "x")),
        PluginError::Domain(transactional::ObserveInvitationLifecycleError::ObservationConflict)
    ));
    assert!(matches!(
        map_receipt_error(error(ErrorCode::NotFound, "x")),
        PluginError::Domain(delivery::ObserveReceiptError::DeliveryNotFound)
    ));
    assert!(matches!(
        map_get_error(error(ErrorCode::NotFound, "x")),
        PluginError::Runtime(RuntimeFailure::PluginFailure { .. })
    ));
    for (message, expected) in [
        ("Notification delivery revision is stale", admin::RetryDeliveryError::StaleRevision),
        (
            "Notification delivery is not eligible for retry",
            admin::RetryDeliveryError::RetryNotAllowed,
        ),
        (
            "Existing manual retry request was rejected",
            admin::RetryDeliveryError::IdempotencyConflict,
        ),
    ] {
        match map_retry_error(error(ErrorCode::Conflict, message)) {
            PluginError::Domain(found) => assert_eq!(found, expected),
            PluginError::Runtime(failure) => panic!("{failure:?}"),
        }
    }
}

#[test]
fn preparation_failures_are_explained() {
    let detail = |failure: RuntimeFailure| match failure {
        RuntimeFailure::PluginFailure { detail } => detail,
        RuntimeFailure::InvalidResolvedPlan { detail } => detail,
        other => panic!("{other:?}"),
    };
    assert_eq!(detail(not_prepared()), "Notification Plugin is not prepared");
    assert_eq!(
        detail(secret_rejected("notification/database")),
        "secret `notification/database` was rejected"
    );
    let one = vec!["email".to_owned()];
    assert_eq!(bound_email_provider(&one).expect("one"), "email");
    for instances in [Vec::new(), vec!["a".to_owned(), "b".to_owned()]] {
        assert_eq!(
            detail(bound_email_provider(&instances).expect_err("not one")),
            "Notification requires exactly one lenso.email-dispatch@1 Provider"
        );
    }
}

#[test]
fn following_the_cursor_reads_the_whole_ledger_once() {
    let now = now();
    let ledger: Vec<DeliverySummary> = (0..7)
        .map(|index| DeliverySummary { id: format!("ntf_dlv_{}", 9 - index), ..summary(now) })
        .collect();
    let mut read: Vec<String> = Vec::new();
    let mut cursor: Option<String> = None;
    loop {
        let rows: Vec<DeliverySummary> = ledger
            .iter()
            .filter(|row| cursor.as_ref().is_none_or(|cursor| row.id < *cursor))
            .take(4)
            .cloned()
            .collect();
        let page = delivery_page(rows, 3).expect("page");
        read.extend(page.records.into_iter().map(|record| record.id));
        match page.next_cursor {
            Some(next) => cursor = Some(next),
            None => break,
        }
    }
    let ids: Vec<String> = ledger.iter().map(|row| row.id.clone()).collect();
    assert_eq!(read, ids);
}

#[test]
fn shown_statuses_have_their_stored_names() {
    for (status, name) in [
        (admin::DeliveryStatus::Queued, "queued"),
        (admin::DeliveryStatus::Attempting, "attempting"),
        (admin::DeliveryStatus::Accepted, "accepted"),
        (admin::DeliveryStatus::RetryScheduled, "retry_scheduled"),
        (admin::DeliveryStatus::Delivered, "delivered"),
        (admin::DeliveryStatus::Failed, "failed"),
        (admin::DeliveryStatus::DeliveryUnknown, "delivery_unknown"),
    ] {
        assert_eq!(admin_status(status), name);
    }
}

#[test]
fn intents_are_answered_as_queued() {
    let response = intent_response(TransactionalIntentReceipt {
        intent_id: "ntf_int_1".to_owned(),
        delivery_id: "ntf_dlv_1".to_owned(),
        status: StoredDeliveryStatus::Delivered,
        idempotent_replay: true,
    });
    assert_eq!(response.intent_id, "ntf_int_1");
    assert_eq!(response.delivery_id, "ntf_dlv_1");
    assert!(response.idempotent_replay);
    assert_eq!(response.status, transactional::IntentStatus::Queued);
    let error = |code: ErrorCode| NotificationError::new(code, "x");
    assert!(matches!(
        map_access_request_create_error(error(ErrorCode::Validation)),
        PluginError::Domain(transactional::CreateAccessRequestNotificationError::InvalidIntent)
    ));
    assert!(matches!(
        map_access_request_create_error(error(ErrorCode::Conflict)),
        PluginError::Domain(
            transactional::CreateAccessRequestNotificationError::IdempotencyConflict
        )
    ));
    assert!(matches!(
        map_access_request_create_error(error(ErrorCode::NotFound)),
        PluginError::Runtime(RuntimeFailure::PluginFailure { .. })
    ));
}

#[test]
fn nothing_due_is_a_domain_answer() {
    assert!(matches!(
        claimed_work(None),
        Err(PluginError::Domain(delivery::DispatchDueError::NoDeliveryDue))
    ));
    let claim = DueClaim {
        attempt: AttemptInsert {
            id: "attempt".to_owned(),
            delivery_id: "delivery".to_owned(),
            sequence: 1,
            function_run_id: "run".to_owned(),
            dispatch_event_id: "dispatch".to_owned(),
            started_at: now(),
        },
        expected_revision: 1,
        new_revision: 2,
        work: dispatch_work(),
    };
    match claimed_work(Some(claim)) {
        Ok(claim) => assert_eq!(claim.work.claim.delivery_id, "delivery"),
        Err(_) => panic!("claimed"),
    }
}
