use notification::contracts::{
    DispatchOutcome, EmailDispatchObserved, EmailReceiptObserved, OrganizationInvitationLifecycle,
    ReceiptKind, RemoteReceiptSummary, SanitizedFailure, EMAIL_DISPATCH_OBSERVED_EVENT,
    EMAIL_RECEIPT_OBSERVED_EVENT, ORGANIZATION_INVITATION_REVOKED_EVENT,
};
use notification::domain::{DeliveryStatus, MAX_SAFE_WIRE_INTEGER};
use notification::error::ErrorCode;
use notification::events::{
    apply_dispatch_observation, apply_invitation_lifecycle, apply_receipt, claim_event,
    event_digest, DeliveryChange, DeliveryUpdate, DispatchEffect, DispatchTarget,
    LifecycleCandidate, ObservationEnvelope, ReceiptTarget,
};
use notification::public::{
    admit_transactional_email_intent, persist_intent, start_intent,
    CreateTransactionalEmailIntent, EmailRecipient, IntentRows, IntentSource, IntentStart,
    OrganizationInvitationTemplateV1, RenderedTemplate, StoredIntent,
};
use notification::repository::{
    decide_manual_retry, get_delivery, manual_retry_lock, probe_limit, replay_manual_retry,
    request_manual_retry, RetryDecision,
    AttemptRecord, DeliverySummary, ReceiptRecord, RetryTarget, StoredRetry,
    ADMIN_RECEIPT_LIMIT,
};
use notification::runtime::{claim_one_due, DueClaim, DueRow};
use notification::snapshot::{content_digest, AeadSnapshotProtector, TestSnapshotProtector};
use notification::time::UtcTime;

fn at(seconds: i64) -> UtcTime {
    UtcTime::at(1_780_000_000 + seconds, 0).expect("valid instant")
}

fn invitation_request(suffix: &str) -> CreateTransactionalEmailIntent {
    CreateTransactionalEmailIntent {
        source: IntentSource {
            module_id: "organization".to_owned(),
            entity_type: "organization_invitation".to_owned(),
            entity_id: format!("org_invite_{suffix}"),
        },
        recipient: EmailRecipient {
            address: "member@example.com".to_owned(),
            display_name: None,
            locale: "en".to_owned(),
        },
        template: OrganizationInvitationTemplateV1 {
            organization_id: "org_test".to_owned(),
            organization_name: "Test Organization".to_owned(),
            invitation_id: format!("org_invite_{suffix}"),
            invitation_url: format!("https://example.test/invitations/secret-token-{suffix}"),
            inviter_display_name: Some("Operator".to_owned()),
            role_name: Some("Member".to_owned()),
            expires_at: at(86_400),
        },
        idempotency_key: format!("organization-invitation:org_invite_{suffix}"),
        correlation_id: format!("corr_notification_{suffix}"),
        causation_id: Some(format!("obs_invitation_{suffix}")),
        requested_by: Some("usr_test".to_owned()),
    }
}

fn invitation_render(request: &CreateTransactionalEmailIntent) -> RenderedTemplate {
    let subject = format!("Invitation to join {}", request.template.organization_name);
    let text = format!("Accept invitation: {}", request.template.invitation_url);
    let html = format!(
        "<p><a href=\"{}\">Accept invitation</a></p>",
        request.template.invitation_url
    );
    RenderedTemplate {
        template_id: "organization-invitation".to_owned(),
        template_version: "v1".to_owned(),
        requested_locale: request.recipient.locale.clone(),
        resolved_locale: request.recipient.locale.clone(),
        fallback_used: false,
        renderer_identity: "lenso.notification-template.renderer/safe-sections@1".to_owned(),
        template_digest: format!("sha256:{}", "a".repeat(64)),
        content_digest: content_digest(&subject, &text, &html),
        subject,
        text,
        html,
    }
}

/// One delivery as the ledger keeps it.
struct Delivery {
    rows: IntentRows,
    template_id: String,
    template_version: String,
    status: DeliveryStatus,
    revision: i64,
    attempt_count: i32,
    next_attempt_at: Option<UtcTime>,
}

fn accept(suffix: &str, now: UtcTime) -> Delivery {
    let request = invitation_request(suffix);
    let rendered = invitation_render(&request);
    let intent = admit_transactional_email_intent(&request, suffix.as_bytes(), &rendered, now)
        .ok()
        .expect("admitted");
    let release = match start_intent(&intent, None, now).expect("started") {
        IntentStart::Release(release) => release,
        IntentStart::Replay(_) => panic!("replayed"),
    };
    let rows = persist_intent(&intent, &release.template_digest, now, &TestSnapshotProtector)
        .expect("recorded");
    let replay = start_intent(
        &intent,
        Some(StoredIntent {
            intent_id: rows.intent.id.clone(),
            delivery_id: rows.delivery.id.clone(),
            request_digest: rows.intent.request_digest.clone(),
            status: "queued".to_owned(),
        }),
        now,
    );
    match replay.expect("replay") {
        IntentStart::Replay(receipt) => {
            assert_eq!(receipt.intent_id, rows.receipt.intent_id);
            assert!(receipt.idempotent_replay);
        }
        IntentStart::Release(_) => panic!("released twice"),
    }
    Delivery {
        status: rows.delivery.status,
        revision: rows.delivery.revision,
        attempt_count: rows.delivery.attempt_count,
        next_attempt_at: Some(rows.delivery.next_attempt_at),
        template_id: rendered.template_id,
        template_version: rendered.template_version,
        rows,
    }
}

impl Delivery {
    fn due_row(&self) -> DueRow {
        DueRow {
            delivery_id: self.rows.delivery.id.clone(),
            status: self.status.as_str().to_owned(),
            next_attempt_at: self.next_attempt_at,
            revision: self.revision,
            attempt_count: self.attempt_count,
            max_attempts: self.rows.delivery.max_attempts,
            correlation_id: self.rows.intent.correlation_id.clone(),
            recipient_ciphertext: self.rows.intent.recipient_ciphertext.clone(),
            recipient_key_ref: self.rows.intent.recipient_key_ref.clone(),
            locale: self.rows.intent.locale.clone(),
            subject_ciphertext: self.rows.snapshot.subject_ciphertext.clone(),
            text_ciphertext: self.rows.snapshot.text_ciphertext.clone(),
            html_ciphertext: self.rows.snapshot.html_ciphertext.clone(),
            protection_key_ref: self.rows.snapshot.protection_key_ref.clone(),
            content_digest: self.rows.snapshot.content_digest.clone(),
            template_id: self.template_id.clone(),
            template_version: self.template_version.clone(),
        }
    }

    fn claim(&mut self, now: UtcTime) -> Option<DueClaim> {
        let claim = claim_one_due(self.due_row(), now, &TestSnapshotProtector)
            .ok()
            .expect("claim")?;
        assert_eq!(claim.expected_revision, self.revision);
        self.status = DeliveryStatus::Attempting;
        self.revision = claim.new_revision;
        self.attempt_count = claim.attempt.sequence;
        self.next_attempt_at = None;
        Some(claim)
    }

    fn update(&mut self, update: DeliveryUpdate) {
        assert_eq!(update.delivery_id, self.rows.delivery.id);
        assert_eq!(update.expected_revision, self.revision);
        assert_eq!(update.new_revision, self.revision + 1);
        self.revision = update.new_revision;
        self.status = update.change.new_status();
        self.next_attempt_at = match update.change {
            DeliveryChange::RetryScheduled { next_attempt_at } => Some(next_attempt_at),
            _ => None,
        };
    }

    fn target(&self, claim: &DueClaim) -> DispatchTarget {
        DispatchTarget {
            delivery_status: self.status.as_str().to_owned(),
            revision: self.revision,
            attempt_count: self.attempt_count,
            max_attempts: self.rows.delivery.max_attempts,
            function_run_id: claim.attempt.function_run_id.clone(),
            attempt_status: "dispatching".to_owned(),
            has_receipt: false,
        }
    }

    fn observed(&self, claim: &DueClaim, outcome: DispatchOutcome, at: UtcTime) -> EmailDispatchObserved {
        EmailDispatchObserved {
            delivery_id: self.rows.delivery.id.clone(),
            attempt_id: claim.work.claim.attempt_id.clone(),
            function_run_id: claim.work.claim.run_id.clone(),
            outcome,
            provider: "fixture.email-dispatch".to_owned(),
            observed_at: at,
            remote_receipt: None,
            failure: None,
        }
    }
}

fn event(id: &str, name: &str, occurred_at: UtcTime) -> ObservationEnvelope {
    ObservationEnvelope {
        id: id.to_owned(),
        event_name: name.to_owned(),
        event_version: 1,
        source_module: "fixture.email-dispatch".to_owned(),
        aggregate_id: "notification-test".to_owned(),
        occurred_at,
    }
}

fn settle(delivery: &mut Delivery, claim: &DueClaim, id: &str, payload: &EmailDispatchObserved) {
    let event = event(id, EMAIL_DISPATCH_OBSERVED_EVENT, payload.observed_at);
    match apply_dispatch_observation(Some(delivery.target(claim)), &event, payload).expect("effect") {
        DispatchEffect::Settle(settlement) => delivery.update(settlement.delivery),
        DispatchEffect::Absorb(_) => panic!("absorbed"),
    }
}

#[test]
fn messages_go_from_intent_to_receipt() {
    let now = at(0);
    let mut delivery = accept("primary", now);
    assert_eq!(delivery.status, DeliveryStatus::Queued);
    assert!(!delivery.rows.intent.recipient_ciphertext.contains("member@example.com"));
    assert!(!delivery.rows.snapshot.redacted_preview.contains("secret-token"));

    let first = delivery.claim(now).expect("queued delivery is due");
    assert_eq!(first.work.request.recipient.address, "member@example.com");
    assert!(first.work.request.message.text.contains("secret-token-primary"));
    assert!(delivery.claim(now).is_none());

    let failed_at = at(1);
    let mut temporary = delivery.observed(&first, DispatchOutcome::TemporaryFailure, failed_at);
    temporary.failure = Some(SanitizedFailure {
        code: "provider_rate_limited".to_owned(),
        classification: "temporary_failure".to_owned(),
        retry_after_ms: Some(120_000),
    });
    let digest = event_digest(b"temporary");
    assert!(!claim_event(None, &digest).expect("first"));
    settle(&mut delivery, &first, "obs_dispatch_failed_primary", &temporary);
    assert!(claim_event(Some(&digest), &digest).expect("replay"));
    assert_eq!(delivery.status, DeliveryStatus::RetryScheduled);
    assert!(delivery.claim(at(1 + 119)).is_none());

    let manual_at = at(3);
    let target = |delivery: &Delivery| {
        Some(RetryTarget {
            status: delivery.status.as_str().to_owned(),
            revision: delivery.revision,
            attempt_count: delivery.attempt_count,
            max_attempts: delivery.rows.delivery.max_attempts,
        })
    };
    let scheduled_revision = delivery.revision;
    let retry = request_manual_retry(
        &delivery.rows.delivery.id,
        target(&delivery),
        scheduled_revision,
        "manual-retry-primary",
        "operator-fixture",
        manual_at,
    )
    .expect("scheduled");
    assert!(!retry.result.idempotent_replay);
    delivery.revision = retry.result.revision;
    delivery.next_attempt_at = Some(retry.result.scheduled_at);
    let replay = replay_manual_retry(
        &delivery.rows.delivery.id,
        StoredRetry {
            revision: delivery.revision,
            status: "retry_scheduled".to_owned(),
            scheduled_at: retry.request.scheduled_at,
        },
    )
    .expect("replay");
    assert!(replay.idempotent_replay);
    assert_eq!(replay.scheduled_at, manual_at);
    // A repeat under the same key is a replay, whatever revision it expects.
    let decide = |stored: Option<StoredRetry>, revision: i64| {
        decide_manual_retry(
            &delivery.rows.delivery.id,
            stored,
            target(&delivery),
            revision,
            "manual-retry-primary",
            "operator-fixture",
            manual_at,
        )
    };
    let stored = |scheduled_at: Option<UtcTime>| StoredRetry {
        revision: 9,
        status: "delivered".to_owned(),
        scheduled_at,
    };
    match decide(Some(stored(retry.request.scheduled_at)), scheduled_revision) {
        Ok(RetryDecision::Replay(result)) => {
            assert_eq!(result.scheduled_at, retry.result.scheduled_at);
            assert_eq!(result.revision, 9);
            assert_eq!(result.status, "delivered");
            assert!(result.idempotent_replay);
        }
        _ => panic!("not replayed"),
    }
    let rejected = decide(Some(stored(None)), scheduled_revision).expect_err("rejected");
    assert_eq!(rejected.message(), "Existing manual retry request was rejected");
    assert!(matches!(decide(None, delivery.revision), Ok(RetryDecision::Schedule(_))));
    assert!(decide(None, scheduled_revision).is_err());
    assert_eq!(
        manual_retry_lock("ntf_dlv_1", "key"),
        "notification:manual-retry:ntf_dlv_1:key"
    );
    let stale = request_manual_retry(
        &delivery.rows.delivery.id,
        target(&delivery),
        scheduled_revision,
        "other-key",
        "operator-fixture",
        manual_at,
    )
    .expect_err("stale");
    assert_eq!(stale.message(), "Notification delivery revision is stale");

    let second = delivery.claim(manual_at).expect("manual retry is due");
    assert_ne!(second.work.claim.attempt_id, first.work.claim.attempt_id);
    let mut accepted = delivery.observed(&second, DispatchOutcome::Accepted, at(4));
    accepted.remote_receipt = Some(RemoteReceiptSummary {
        source: "fixture.email-dispatch".to_owned(),
        remote_id: "remote-primary".to_owned(),
        digest: format!("sha256:{}", "b".repeat(64)),
    });
    settle(&mut delivery, &second, "obs_dispatch_accepted_primary", &accepted);
    assert_eq!(delivery.status, DeliveryStatus::Accepted);

    let payload = EmailReceiptObserved {
        delivery_id: delivery.rows.delivery.id.clone(),
        attempt_id: second.work.claim.attempt_id.clone(),
        function_run_id: second.work.claim.run_id.clone(),
        kind: ReceiptKind::Delivered,
        source: "fixture.email-dispatch".to_owned(),
        observed_at: at(5),
        remote_id: "remote-primary".to_owned(),
        digest: format!("sha256:{}", "a".repeat(64)),
    };
    let settlement = apply_receipt(
        Some(ReceiptTarget {
            delivery_status: delivery.status.as_str().to_owned(),
            revision: delivery.revision,
            function_run_id: second.attempt.function_run_id.clone(),
        }),
        &event("obs_receipt_delivered_primary", EMAIL_RECEIPT_OBSERVED_EVENT, at(5)),
        &payload,
    )
    .expect("receipt");
    delivery.update(settlement.delivery);
    assert_eq!(delivery.status, DeliveryStatus::Delivered);
    assert!(delivery.claim(at(100_000)).is_none());
}

#[test]
fn ambiguous_results_are_never_retried() {
    let now = at(0);
    let mut delivery = accept("unknown", now);
    let claim = delivery.claim(now).expect("due");
    let mut unknown = delivery.observed(&claim, DispatchOutcome::DeliveryUnknown, at(1));
    unknown.failure = Some(SanitizedFailure {
        code: "provider_result_ambiguous".to_owned(),
        classification: "delivery_unknown".to_owned(),
        retry_after_ms: None,
    });
    settle(&mut delivery, &claim, "obs_dispatch_unknown", &unknown);
    assert_eq!(delivery.status, DeliveryStatus::DeliveryUnknown);
    assert!(delivery.claim(at(3_601)).is_none());
    let refused = request_manual_retry(
        &delivery.rows.delivery.id,
        Some(RetryTarget {
            status: "delivery_unknown".to_owned(),
            revision: delivery.revision,
            attempt_count: 1,
            max_attempts: 4,
        }),
        delivery.revision,
        "key",
        "operator",
        at(2),
    )
    .expect_err("refused");
    assert_eq!(refused.message(), "Notification delivery is not eligible for retry");
}

#[test]
fn exhausted_revisions_fail_closed() {
    let now = at(0);
    let mut delivery = accept("revision", now);
    delivery.revision = MAX_SAFE_WIRE_INTEGER;
    let error = claim_one_due(delivery.due_row(), now, &TestSnapshotProtector)
        .err()
        .expect("refused");
    assert_eq!(error.code, ErrorCode::Conflict);
    let lifecycle = apply_invitation_lifecycle(
        &ObservationEnvelope {
            source_module: "organization".to_owned(),
            ..event("obs_revision_lifecycle", ORGANIZATION_INVITATION_REVOKED_EVENT, now)
        },
        &OrganizationInvitationLifecycle {
            invitation_id: "org_invite_revision".to_owned(),
            organization_id: "org_test".to_owned(),
            observed_at: now,
        },
        &vec![LifecycleCandidate {
            delivery_id: delivery.rows.delivery.id.clone(),
            status: "queued".to_owned(),
            revision: MAX_SAFE_WIRE_INTEGER,
            source_module: "organization".to_owned(),
            source_entity_type: "organization_invitation".to_owned(),
            source_entity_id: "org_invite_revision".to_owned(),
            requested_at: now,
        }],
    )
    .expect_err("refused");
    assert_eq!(lifecycle.code, ErrorCode::Conflict);
    let retry = request_manual_retry(
        &delivery.rows.delivery.id,
        Some(RetryTarget {
            status: "retry_scheduled".to_owned(),
            revision: MAX_SAFE_WIRE_INTEGER,
            attempt_count: 0,
            max_attempts: 4,
        }),
        MAX_SAFE_WIRE_INTEGER,
        "retry-revision-overflow",
        "console-blue",
        now,
    )
    .expect_err("refused");
    assert_eq!(retry.code, ErrorCode::Conflict);
}

#[test]
fn spent_attempts_and_wrong_keys_are_not_dispatched() {
    let now = at(0);
    let delivery = accept("spent", now);
    let spent = DueRow { attempt_count: 4, ..delivery.due_row() };
    let error = claim_one_due(spent, now, &TestSnapshotProtector).err().expect("refused");
    assert_eq!(error.message(), "Notification delivery exhausted before dispatch");
    let key = "BwcHBwcHBwcHBwcHBwcHBwcHBwcHBwcHBwcHBwcHBwc=";
    let other = AeadSnapshotProtector::from_base64_key(key, "secret:key".to_owned())
        .ok()
        .expect("protector");
    let error = claim_one_due(delivery.due_row(), now, &other).err().expect("refused");
    assert_eq!(error.code, ErrorCode::Validation);
    assert_eq!(error.message(), "Notification snapshot key reference does not match");
}

#[test]
fn evidence_is_never_cut_off() {
    let summary = DeliverySummary {
        id: "delivery".to_owned(),
        recipient_mask: "a***@example.test".to_owned(),
        template_id: "organization-invitation".to_owned(),
        template_version: "v1".to_owned(),
        locale: "en".to_owned(),
        status: "delivered".to_owned(),
        revision: 1,
        attempt_count: 1,
        max_attempts: 4,
        redacted_preview: "Invitation".to_owned(),
        content_digest: format!("sha256:{}", "a".repeat(64)),
        correlation_id: "story".to_owned(),
        next_attempt_at: None,
        final_reason: None,
        created_at: at(0),
        updated_at: at(0),
    };
    let receipt = ReceiptRecord {
        id: "receipt".to_owned(),
        attempt_id: "attempt".to_owned(),
        kind: "accepted".to_owned(),
        source: "smtp".to_owned(),
        remote_id: "remote".to_owned(),
        digest: format!("sha256:{}", "d".repeat(64)),
        observed_at: at(0),
    };
    let attempts: Vec<AttemptRecord> = Vec::new();
    let full = get_delivery(
        summary.clone(),
        attempts.clone(),
        vec![receipt.clone(); ADMIN_RECEIPT_LIMIT],
        Vec::new(),
    )
    .expect("fits");
    assert_eq!(full.receipts.len(), 1_000);
    let overflow = get_delivery(
        summary,
        attempts,
        vec![receipt; ADMIN_RECEIPT_LIMIT + 1],
        Vec::new(),
    )
    .expect_err("overflow");
    assert_eq!(overflow.code, ErrorCode::EvidenceOverflow);
    assert_eq!(probe_limit(ADMIN_RECEIPT_LIMIT), 1_001);
}
