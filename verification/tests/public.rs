use notification::domain::DeliveryStatus;
use notification::error::ErrorCode;
use notification::public::{
    access_request_idempotency_key, access_request_template_id, admit_access_request_notification,
    admit_transactional_email_intent, find_access_request_notification_replay,
    find_transactional_email_intent_replay, persist_intent, project_idempotent_intent,
    start_intent, validate_access_request, validate_invitation_request,
    validate_rendered_template, AccessRequestNotificationEvent,
    AccessRequestNotificationTemplateV1, AccessRequestRoleV1, AccessRequestScopeV1,
    CreateAccessRequestNotificationIntent, CreateTransactionalEmailIntent, EmailRecipient,
    IntentSource, IntentStart, OrganizationInvitationTemplateV1, RenderedTemplate, StoredIntent,
};
use notification::snapshot::{content_digest, SnapshotProtector, TestSnapshotProtector};
use notification::time::UtcTime;

fn now() -> UtcTime {
    let now = chrono::Utc::now();
    UtcTime::at(now.timestamp(), now.timestamp_subsec_nanos()).expect("valid instant")
}

fn hours_after(time: UtcTime, hours: i64) -> UtcTime {
    UtcTime::at(time.seconds + hours * 3_600, time.nanos).expect("valid instant")
}

fn invitation(now: UtcTime) -> CreateTransactionalEmailIntent {
    CreateTransactionalEmailIntent {
        source: IntentSource {
            module_id: "organization".to_owned(),
            entity_type: "organization_invitation".to_owned(),
            entity_id: "inv_1".to_owned(),
        },
        recipient: EmailRecipient {
            address: "member@example.com".to_owned(),
            display_name: None,
            locale: "en".to_owned(),
        },
        template: OrganizationInvitationTemplateV1 {
            organization_id: "org_1".to_owned(),
            organization_name: "Acme".to_owned(),
            invitation_id: "inv_1".to_owned(),
            invitation_url: "https://example.test/invite/token".to_owned(),
            inviter_display_name: None,
            role_name: None,
            expires_at: hours_after(now, 1),
        },
        idempotency_key: "organization-invitation:inv_1".to_owned(),
        correlation_id: "corr_1".to_owned(),
        causation_id: None,
        requested_by: None,
    }
}

fn access_request_fixture(now: UtcTime) -> CreateAccessRequestNotificationIntent {
    CreateAccessRequestNotificationIntent {
        source: IntentSource {
            module_id: "access-requests".to_owned(),
            entity_type: "access_request".to_owned(),
            entity_id: "ar_1".to_owned(),
        },
        recipient: EmailRecipient {
            address: "member@example.com".to_owned(),
            display_name: None,
            locale: "en".to_owned(),
        },
        template: AccessRequestNotificationTemplateV1 {
            request_id: "ar_1".to_owned(),
            organization_id: "org_1".to_owned(),
            event: AccessRequestNotificationEvent::Submitted,
            role: AccessRequestRoleV1 {
                role_id: "role_member".to_owned(),
                display_name: Some("Member".to_owned()),
            },
            scope: AccessRequestScopeV1 {
                kind: "organization".to_owned(),
                id: "org_1".to_owned(),
                display_name: Some("Acme".to_owned()),
            },
            expires_at: Some(hours_after(now, 1)),
        },
        idempotency_key: "access-request:ar_1:submitted".to_owned(),
        correlation_id: "corr_1".to_owned(),
        causation_id: None,
        requested_by: Some("subject_1".to_owned()),
    }
}

fn rendered_template(
    template_id: &str,
    requested_locale: &str,
    resolved_locale: &str,
) -> RenderedTemplate {
    let subject = "Subject".to_owned();
    let text = "Text".to_owned();
    let html = "<p>Text</p>".to_owned();
    RenderedTemplate {
        template_id: template_id.to_owned(),
        template_version: "v1".to_owned(),
        requested_locale: requested_locale.to_owned(),
        resolved_locale: resolved_locale.to_owned(),
        fallback_used: requested_locale != resolved_locale,
        renderer_identity: "lenso.notification-template.renderer/safe-sections@1".to_owned(),
        template_digest: format!("sha256:{}", "a".repeat(64)),
        content_digest: content_digest(&subject, &text, &html),
        subject,
        text,
        html,
    }
}

#[test]
fn rendered_template_projection_is_digest_bound_and_version_exact() {
    let mut rendered = rendered_template("organization-invitation", "en", "en");
    validate_rendered_template(&rendered, "organization-invitation", "v1", "en")
        .expect("valid render projection");

    rendered.template_version = "v2".to_owned();
    assert_eq!(
        validate_rendered_template(&rendered, "organization-invitation", "v1", "en")
            .expect_err("version mismatch")
            .code,
        ErrorCode::Internal
    );

    rendered.template_version = "v1".to_owned();
    rendered.content_digest = format!("sha256:{}", "0".repeat(64));
    assert_eq!(
        validate_rendered_template(&rendered, "organization-invitation", "v1", "en")
            .expect_err("content digest mismatch")
            .code,
        ErrorCode::Internal
    );
}

#[test]
fn only_organization_invitation_is_accepted() {
    let now = now();
    let request = CreateTransactionalEmailIntent {
        source: IntentSource {
            module_id: "organization".to_owned(),
            entity_type: "arbitrary_campaign".to_owned(),
            entity_id: "inv_1".to_owned(),
        },
        ..invitation(now)
    };
    assert_eq!(
        validate_invitation_request(&request, now)
            .expect_err("campaign rejected")
            .code,
        ErrorCode::Validation
    );
}

#[test]
fn rendered_template_fallback_metadata_must_be_self_consistent() {
    let mut rendered = rendered_template("access-request-submitted", "en-US", "en");
    rendered.fallback_used = true;
    validate_rendered_template(&rendered, "access-request-submitted", "v1", "en-US")
        .expect("valid fallback projection");

    rendered.fallback_used = false;
    assert_eq!(
        validate_rendered_template(&rendered, "access-request-submitted", "v1", "en-US")
            .expect_err("inconsistent fallback metadata")
            .code,
        ErrorCode::Internal
    );
}

#[test]
fn access_request_requires_request_event_idempotency_and_bounded_expiry_semantics() {
    let now = now();
    let mut request = access_request_fixture(now);
    validate_access_request(&request, now).expect("submitted fixture");

    request.idempotency_key = "caller-chosen-key".to_owned();
    assert_eq!(
        validate_access_request(&request, now)
            .expect_err("unstable idempotency")
            .code,
        ErrorCode::Validation
    );

    let mut expiring = access_request_fixture(now);
    expiring.template.event = AccessRequestNotificationEvent::Expiring;
    expiring.template.expires_at = None;
    expiring.idempotency_key = format!("access-request:{}:expiring", expiring.template.request_id);
    assert_eq!(
        validate_access_request(&expiring, now)
            .expect_err("expiring requires expiry")
            .code,
        ErrorCode::Validation
    );

    let mut denied = access_request_fixture(now);
    denied.template.event = AccessRequestNotificationEvent::Denied;
    denied.idempotency_key = format!("access-request:{}:denied", denied.template.request_id);
    assert_eq!(
        validate_access_request(&denied, now)
            .expect_err("denied has no expiry claim")
            .code,
        ErrorCode::Validation
    );
}

#[test]
fn invitation_bounds_are_named_in_order() {
    let now = now();
    let message = |request: &CreateTransactionalEmailIntent| {
        validate_invitation_request(request, now)
            .expect_err("rejected")
            .message()
            .to_owned()
    };
    validate_invitation_request(&invitation(now), now).expect("accepted");
    let mut request = invitation(now);
    request.recipient.address = "nobody".to_owned();
    let without_at = message(&request);
    request.idempotency_key = String::new();
    assert_ne!(message(&invitation_with_expiry(now, 0)), without_at);
    request.recipient.display_name = Some("x".repeat(241));
    request.source.module_id = "x".repeat(161);
    assert!(message(&request).contains("must contain between 1 and 160 characters"));
    let mut insecure = invitation(now);
    insecure.template.invitation_url = "http://example.test/invite".to_owned();
    assert!(validate_invitation_request(&insecure, now).is_err());
    let mut locale = invitation(now);
    locale.recipient.locale = "de".to_owned();
    assert!(validate_invitation_request(&locale, now).is_err());
}

fn invitation_with_expiry(now: UtcTime, hours: i64) -> CreateTransactionalEmailIntent {
    let mut request = invitation(now);
    request.template.expires_at = hours_after(now, hours);
    request
}

#[test]
fn expired_invitations_are_refused() {
    let now = now();
    assert!(validate_invitation_request(&invitation_with_expiry(now, 0), now).is_err());
    assert!(validate_invitation_request(&invitation_with_expiry(now, -1), now).is_err());
    assert!(validate_invitation_request(&invitation_with_expiry(now, 1), now).is_ok());
}

#[test]
fn access_request_keys_and_templates_name_the_event() {
    for (event, name) in [
        (AccessRequestNotificationEvent::Submitted, "submitted"),
        (AccessRequestNotificationEvent::Approved, "approved"),
        (AccessRequestNotificationEvent::Denied, "denied"),
        (AccessRequestNotificationEvent::Expiring, "expiring"),
    ] {
        assert_eq!(event.as_str(), name);
        assert_eq!(
            access_request_idempotency_key("ar_1", event),
            format!("access-request:ar_1:{name}")
        );
        assert_eq!(
            access_request_template_id(event),
            format!("access-request-{name}")
        );
    }
}

#[test]
fn replays_are_answered_and_changed_input_conflicts() {
    let now = now();
    let request = invitation(now);
    let digest = notification::snapshot::request_digest(b"encoded");
    let stored = |request_digest: &str, status: &str| {
        Some(StoredIntent {
            intent_id: "intent".to_owned(),
            delivery_id: "delivery".to_owned(),
            request_digest: request_digest.to_owned(),
            status: status.to_owned(),
        })
    };
    let receipt = find_transactional_email_intent_replay(
        &request,
        b"encoded",
        stored(&digest, "delivered"),
        now,
    )
    .expect("replay")
    .expect("receipt");
    assert_eq!(receipt.intent_id, "intent");
    assert_eq!(receipt.delivery_id, "delivery");
    assert_eq!(receipt.status, DeliveryStatus::Delivered);
    assert!(receipt.idempotent_replay);
    let conflict = find_transactional_email_intent_replay(
        &request,
        b"changed",
        stored(&digest, "queued"),
        now,
    )
    .expect_err("conflict");
    assert_eq!(conflict.code, ErrorCode::Conflict);
    assert!(find_transactional_email_intent_replay(&request, b"encoded", None, now)
        .expect("new")
        .is_none());
    let corrupt = project_idempotent_intent(stored(&digest, "sent"), &digest).expect_err("corrupt");
    assert_eq!(corrupt.code, ErrorCode::Internal);
    let access = access_request_fixture(now);
    assert!(find_access_request_notification_replay(&access, b"encoded", None, now)
        .expect("new")
        .is_none());
    let mut invalid = access_request_fixture(now);
    invalid.idempotency_key = "key".to_owned();
    assert_eq!(
        find_access_request_notification_replay(&invalid, b"encoded", None, now)
            .expect_err("invalid")
            .code,
        ErrorCode::Validation
    );
}

#[test]
fn new_intents_are_recorded_protected() {
    let now = now();
    let request = invitation(now);
    let mut rendered = rendered_template("organization-invitation", "en", "en");
    rendered.text = "Join at https://example.test/invite/token".to_owned();
    rendered.content_digest = content_digest(&rendered.subject, &rendered.text, &rendered.html);
    let intent =
        admit_transactional_email_intent(&request, b"encoded", &rendered, now).expect("admitted");
    assert_eq!(intent.purpose, "transactional.organization_invitation");
    assert_eq!(
        intent.lock_name(),
        format!("notification:{}:{}", request.source.module_id, request.idempotency_key)
    );
    let release = match start_intent(&intent, None, now).expect("started") {
        IntentStart::Release(row) => row,
        IntentStart::Replay(_) => panic!("replayed"),
    };
    assert_eq!(release.version, "v1");
    let protector = TestSnapshotProtector;
    let rows =
        persist_intent(&intent, &release.template_digest, now, &protector).expect("recorded");
    assert_eq!(rows.delivery.status, DeliveryStatus::Queued);
    assert_eq!(rows.delivery.revision, 1);
    assert_eq!(rows.delivery.max_attempts, 4);
    assert_eq!(rows.intent.recipient_mask, "m***@example.com");
    assert_eq!(rows.snapshot.redacted_preview, "Join at [link redacted]");
    assert!(!rows.snapshot.text_ciphertext.contains("token"));
    assert_eq!(
        protector
            .unprotect(&notification::snapshot::ProtectedValue {
                ciphertext: rows.snapshot.text_ciphertext.clone(),
                key_reference: rows.snapshot.protection_key_ref.clone(),
            })
            .expect("revealed"),
        rendered.text
    );
    assert_eq!(rows.receipt.intent_id, rows.intent.id);
    assert_eq!(rows.receipt.delivery_id, rows.delivery.id);
    let other = persist_intent(&intent, "sha256:other", now, &protector).expect_err("changed");
    assert_eq!(other.code, ErrorCode::Internal);
    let access = access_request_fixture(now);
    let wrong = admit_access_request_notification(&access, b"encoded", &rendered, now)
        .err()
        .expect("wrong template");
    assert_eq!(wrong.code, ErrorCode::Internal);
    let own = rendered_template("access-request-submitted", "en", "en");
    let admitted =
        admit_access_request_notification(&access, b"encoded", &own, now).expect("admitted");
    assert_eq!(admitted.purpose, "transactional.access_request");
}
