use notification::admin;
use notification::config::{authorized, NotificationConfig, NotificationConfigError};
use notification::contracts::ReceiptKind;
use notification::delivery;
use notification::domain::MAX_SAFE_WIRE_INTEGER;
use notification::error::{PluginError, RuntimeFailure};
use notification::requests::{
    create_access_request_notification, create_organization_invitation, dispatch_due,
    get_delivery, intent_source, list_deliveries, observe_invitation_lifecycle, observe_receipt,
    receipt_observation, retry_delivery, valid_access_request_notification_request,
    valid_create_request, valid_lifecycle_request, valid_list_request, valid_receipt_request,
    valid_retry_request,
};
use notification::text::required_bounded;
use notification::time::UtcTime;
use notification::transactional;

fn time(text: &str) -> UtcTime {
    let time = chrono::DateTime::parse_from_rfc3339(text).expect("timestamp");
    UtcTime::at(time.timestamp(), time.timestamp_subsec_nanos()).expect("valid instant")
}

fn unprepared_config() -> NotificationConfig {
    NotificationConfig::new(
        "notification/database",
        "notification/snapshot-key",
        vec!["organization-blue".to_owned()],
        vec!["notification-worker-blue".to_owned()],
        vec!["email-provider-blue".to_owned()],
        vec!["console-blue".to_owned()],
    )
    .expect("valid unprepared test Plugin")
}

fn generated_request() -> transactional::CreateOrganizationInvitationRequest {
    transactional::CreateOrganizationInvitationRequest {
        causation_id: Some("obs_invitation_fixture".to_owned()),
        correlation_id: "corr_notification_fixture".to_owned(),
        idempotency_key: "organization-invitation:fixture".to_owned(),
        recipient: transactional::CreateOrganizationInvitationRequestRecipient {
            address: "member@example.com".to_owned(),
            display_name: Some("Member".to_owned()),
            locale: transactional::CreateOrganizationInvitationRequestRecipientLocale::En,
        },
        requested_by: Some("usr_fixture".to_owned()),
        source: transactional::CreateOrganizationInvitationRequestSource {
            entity_id: "invite_fixture".to_owned(),
            entity_type: "organization_invitation".to_owned(),
        },
        template: transactional::CreateOrganizationInvitationRequestTemplate {
            expires_at: "2026-09-01T00:00:00Z".to_owned(),
            invitation_id: "invite_fixture".to_owned(),
            invitation_url: "https://example.test/invitations/secret".to_owned(),
            inviter_display_name: Some("Operator".to_owned()),
            organization_id: "org_fixture".to_owned(),
            organization_name: "Fixture Organization".to_owned(),
            role_name: Some("Member".to_owned()),
        },
    }
}

fn generated_access_request() -> transactional::CreateAccessRequestNotificationRequest {
    transactional::CreateAccessRequestNotificationRequest {
        causation_id: Some("access_request_fixture:submitted".to_owned()),
        correlation_id: "corr_access_request_fixture".to_owned(),
        event: transactional::CreateAccessRequestNotificationRequestEvent::Submitted,
        expires_at: Some("2026-09-01T00:00:00Z".to_owned()),
        idempotency_key: "access-request:ar_fixture:submitted".to_owned(),
        organization_id: "org_fixture".to_owned(),
        recipient: transactional::CreateAccessRequestNotificationRequestRecipient {
            address: "requester@example.com".to_owned(),
            display_name: Some("Requester".to_owned()),
            locale: transactional::CreateAccessRequestNotificationRequestRecipientLocale::En,
        },
        request_id: "ar_fixture".to_owned(),
        requested_by: Some("subject_fixture".to_owned()),
        role: transactional::CreateAccessRequestNotificationRequestRole {
            display_name: Some("Member".to_owned()),
            role_id: "role_member".to_owned(),
        },
        scope: transactional::CreateAccessRequestNotificationRequestScope {
            display_name: Some("Fixture Organization".to_owned()),
            id: "org_fixture".to_owned(),
            kind: "organization".to_owned(),
        },
    }
}

fn receipt_request() -> delivery::ObserveReceiptRequest {
    delivery::ObserveReceiptRequest {
        attempt_id: "attempt".to_owned(),
        delivery_id: "delivery".to_owned(),
        digest: format!("sha256:{}", "a".repeat(64)),
        kind: delivery::ObserveReceiptRequestKind::Delivered,
        observation_id: "observation".to_owned(),
        observed_at: "2026-08-30T00:00:00Z".to_owned(),
        remote_id: "remote".to_owned(),
        run_id: "run".to_owned(),
    }
}

fn lifecycle_request() -> transactional::ObserveInvitationLifecycleRequest {
    transactional::ObserveInvitationLifecycleRequest {
        invitation_id: "invite".to_owned(),
        lifecycle: transactional::ObserveInvitationLifecycleRequestLifecycle::Revoked,
        observation_id: "observation".to_owned(),
        observed_at: "2026-08-30T00:00:00Z".to_owned(),
        organization_id: "organization".to_owned(),
    }
}

fn invalid_create_requests() -> Vec<transactional::CreateOrganizationInvitationRequest> {
    let base = generated_request();
    vec![
        transactional::CreateOrganizationInvitationRequest {
            source: transactional::CreateOrganizationInvitationRequestSource {
                entity_type: "x".repeat(161),
                ..base.source.clone()
            },
            ..base.clone()
        },
        transactional::CreateOrganizationInvitationRequest {
            source: transactional::CreateOrganizationInvitationRequestSource {
                entity_id: "x".repeat(241),
                ..base.source.clone()
            },
            ..base.clone()
        },
        transactional::CreateOrganizationInvitationRequest {
            recipient: transactional::CreateOrganizationInvitationRequestRecipient {
                address: format!("a@{}", "x".repeat(319)),
                ..base.recipient.clone()
            },
            ..base.clone()
        },
        transactional::CreateOrganizationInvitationRequest {
            recipient: transactional::CreateOrganizationInvitationRequestRecipient {
                display_name: Some("x".repeat(241)),
                ..base.recipient.clone()
            },
            ..base.clone()
        },
        transactional::CreateOrganizationInvitationRequest {
            template: transactional::CreateOrganizationInvitationRequestTemplate {
                organization_id: "x".repeat(241),
                ..base.template.clone()
            },
            ..base.clone()
        },
        transactional::CreateOrganizationInvitationRequest {
            template: transactional::CreateOrganizationInvitationRequestTemplate {
                organization_name: "x".repeat(241),
                ..base.template.clone()
            },
            ..base.clone()
        },
        transactional::CreateOrganizationInvitationRequest {
            template: transactional::CreateOrganizationInvitationRequestTemplate {
                invitation_id: "x".repeat(241),
                ..base.template.clone()
            },
            ..base.clone()
        },
        transactional::CreateOrganizationInvitationRequest {
            template: transactional::CreateOrganizationInvitationRequestTemplate {
                invitation_url: format!("https://{}", "x".repeat(4_089)),
                ..base.template.clone()
            },
            ..base.clone()
        },
        transactional::CreateOrganizationInvitationRequest {
            template: transactional::CreateOrganizationInvitationRequestTemplate {
                inviter_display_name: Some("x".repeat(241)),
                ..base.template.clone()
            },
            ..base.clone()
        },
        transactional::CreateOrganizationInvitationRequest {
            template: transactional::CreateOrganizationInvitationRequestTemplate {
                role_name: Some("x".repeat(161)),
                ..base.template.clone()
            },
            ..base.clone()
        },
        transactional::CreateOrganizationInvitationRequest {
            template: transactional::CreateOrganizationInvitationRequestTemplate {
                expires_at: "not-a-time".to_owned(),
                ..base.template.clone()
            },
            ..base.clone()
        },
        transactional::CreateOrganizationInvitationRequest {
            idempotency_key: "x".repeat(241),
            ..base.clone()
        },
        transactional::CreateOrganizationInvitationRequest {
            correlation_id: "x".repeat(241),
            ..base.clone()
        },
        transactional::CreateOrganizationInvitationRequest {
            causation_id: Some("x".repeat(241)),
            ..base.clone()
        },
        transactional::CreateOrganizationInvitationRequest {
            requested_by: Some("x".repeat(241)),
            ..base
        },
    ]
}

#[test]
fn caller_identity_is_derived_and_cannot_be_spoofed_by_payload() {
    let request = generated_request();
    let source = intent_source("organization-blue".to_owned(), request.source);
    assert_eq!(source.module_id, "organization-blue");
    let receipt = receipt_observation(
        "email-provider-blue".to_owned(),
        &receipt_request(),
        ReceiptKind::Delivered,
        time("2026-08-30T00:00:00Z"),
    );
    assert_eq!(receipt.source, "email-provider-blue");
}

#[test]
fn observation_authorities_are_disjoint_per_operation() {
    let config = unprepared_config();
    assert!(matches!(
        dispatch_due(Some("email-provider-blue"), &config.dispatch_callers),
        Err(PluginError::Domain(delivery::DispatchDueError::Unauthorized))
    ));
    assert!(matches!(
        observe_receipt(
            Some("notification-worker-blue"),
            &config.receipt_callers,
            receipt_request(),
        ),
        Err(PluginError::Domain(delivery::ObserveReceiptError::Unauthorized))
    ));
    assert!(matches!(
        observe_invitation_lifecycle(
            Some("notification-worker-blue"),
            &config.transactional_callers,
            lifecycle_request(),
        ),
        Err(PluginError::Domain(
            transactional::ObserveInvitationLifecycleError::Unauthorized
        ))
    ));
}

#[test]
fn native_typed_requests_revalidate_every_bound_before_state_or_dependencies() {
    let config = unprepared_config();
    let now = time("2026-08-30T00:00:00Z");
    for request in invalid_create_requests() {
        assert!(!valid_create_request(&request, now));
        assert!(matches!(
            create_organization_invitation(
                Some("organization-blue"),
                &config.transactional_callers,
                request,
                now,
            ),
            Err(PluginError::Domain(
                transactional::CreateOrganizationInvitationError::InvalidIntent
            ))
        ));
    }

    let mut invalid_access_request = generated_access_request();
    invalid_access_request.idempotency_key = "caller-selected".to_owned();
    assert!(!valid_access_request_notification_request(
        &invalid_access_request,
        now
    ));
    assert!(matches!(
        create_access_request_notification(
            Some("organization-blue"),
            &config.transactional_callers,
            invalid_access_request,
            now,
        ),
        Err(PluginError::Domain(
            transactional::CreateAccessRequestNotificationError::InvalidIntent
        ))
    ));

    let lifecycle = lifecycle_request();
    assert!(valid_lifecycle_request(&lifecycle));
    for request in [
        transactional::ObserveInvitationLifecycleRequest {
            observation_id: "x".repeat(241),
            ..lifecycle.clone()
        },
        transactional::ObserveInvitationLifecycleRequest {
            organization_id: "x".repeat(241),
            ..lifecycle.clone()
        },
        transactional::ObserveInvitationLifecycleRequest {
            invitation_id: "x".repeat(241),
            ..lifecycle.clone()
        },
        transactional::ObserveInvitationLifecycleRequest {
            observed_at: "not-a-time".to_owned(),
            ..lifecycle
        },
    ] {
        assert!(!valid_lifecycle_request(&request));
        assert!(matches!(
            observe_invitation_lifecycle(
                Some("organization-blue"),
                &config.transactional_callers,
                request,
            ),
            Err(PluginError::Domain(
                transactional::ObserveInvitationLifecycleError::InvalidObservation
            ))
        ));
    }

    let receipt = receipt_request();
    assert!(valid_receipt_request(&receipt));
    for request in [
        delivery::ObserveReceiptRequest {
            observation_id: "x".repeat(241),
            ..receipt.clone()
        },
        delivery::ObserveReceiptRequest {
            delivery_id: "x".repeat(161),
            ..receipt.clone()
        },
        delivery::ObserveReceiptRequest {
            attempt_id: "x".repeat(161),
            ..receipt.clone()
        },
        delivery::ObserveReceiptRequest {
            run_id: "x".repeat(161),
            ..receipt.clone()
        },
        delivery::ObserveReceiptRequest {
            observed_at: "not-a-time".to_owned(),
            ..receipt.clone()
        },
        delivery::ObserveReceiptRequest {
            remote_id: "x".repeat(321),
            ..receipt.clone()
        },
        delivery::ObserveReceiptRequest {
            digest: "sha256:not-a-digest".to_owned(),
            ..receipt
        },
    ] {
        assert!(!valid_receipt_request(&request));
        assert!(matches!(
            observe_receipt(Some("email-provider-blue"), &config.receipt_callers, request),
            Err(PluginError::Domain(
                delivery::ObserveReceiptError::InvalidReceipt
            ))
        ));
    }

    for request in [
        admin::ListDeliveriesRequest {
            cursor: None,
            limit: Some(0),
            status: None,
        },
        admin::ListDeliveriesRequest {
            cursor: None,
            limit: Some(201),
            status: None,
        },
        admin::ListDeliveriesRequest {
            cursor: Some("x".repeat(161)),
            limit: None,
            status: None,
        },
        admin::ListDeliveriesRequest {
            cursor: Some(String::new()),
            limit: None,
            status: None,
        },
    ] {
        assert!(!valid_list_request(&request));
        assert!(matches!(
            list_deliveries(Some("console-blue"), &config.admin_callers, request),
            Err(PluginError::Domain(
                admin::ListDeliveriesError::InvalidFilter
            ))
        ));
    }

    for delivery_id in [String::new(), "x".repeat(161)] {
        assert!(!required_bounded(&delivery_id, 1, 160));
        assert!(matches!(
            get_delivery(
                Some("console-blue"),
                &config.admin_callers,
                &admin::GetDeliveryRequest { delivery_id },
            ),
            Err(PluginError::Domain(admin::GetDeliveryError::InvalidRequest))
        ));
    }

    for request in [
        admin::RetryDeliveryRequest {
            delivery_id: "x".repeat(161),
            idempotency_key: "retry".to_owned(),
            revision: 1,
        },
        admin::RetryDeliveryRequest {
            delivery_id: "delivery".to_owned(),
            idempotency_key: "x".repeat(241),
            revision: 1,
        },
        admin::RetryDeliveryRequest {
            delivery_id: "delivery".to_owned(),
            idempotency_key: "retry".to_owned(),
            revision: 0,
        },
        admin::RetryDeliveryRequest {
            delivery_id: "delivery".to_owned(),
            idempotency_key: "retry".to_owned(),
            revision: MAX_SAFE_WIRE_INTEGER + 1,
        },
    ] {
        assert!(!valid_retry_request(&request));
        assert!(matches!(
            retry_delivery(Some("console-blue"), &config.admin_callers, &request),
            Err(PluginError::Domain(
                admin::RetryDeliveryError::InvalidRequest
            ))
        ));
    }

    let maximum_revision = admin::RetryDeliveryRequest {
        delivery_id: "delivery".to_owned(),
        idempotency_key: "retry".to_owned(),
        revision: MAX_SAFE_WIRE_INTEGER,
    };
    assert!(valid_retry_request(&maximum_revision));
    assert!(matches!(
        retry_delivery(Some("console-blue"), &config.admin_callers, &maximum_revision),
        Err(PluginError::Domain(
            admin::RetryDeliveryError::RetryNotAllowed
        ))
    ));
}

#[test]
fn configuration_rejects_ambient_or_ambiguous_authority() {
    let config = NotificationConfig::new(
        "notification/database",
        "notification/snapshot-key",
        vec!["organization".to_owned()],
        vec!["notification-worker".to_owned()],
        vec!["email-provider".to_owned()],
        vec!["notification-console-http".to_owned()],
    )
    .expect("valid config");
    assert_eq!(config.schema, "notification");

    let mut duplicate_secret = config.clone();
    duplicate_secret.snapshot_key_secret = duplicate_secret.database_url_secret.clone();
    assert_eq!(
        duplicate_secret.validate(),
        Err(NotificationConfigError::InvalidSecretReference)
    );

    let mut ambient = config;
    ambient.admin_callers.clear();
    assert_eq!(
        ambient.validate(),
        Err(NotificationConfigError::InvalidCallers)
    );
}

#[test]
fn configuration_faults_are_told_apart() {
    let config = unprepared_config();
    let mut schema = config.clone();
    schema.schema = "other".to_owned();
    assert_eq!(schema.validate(), Err(NotificationConfigError::InvalidSchema));
    assert_eq!(
        NotificationConfigError::InvalidSchema.message(),
        "the legacy Notification schema identity must remain `notification`"
    );
    for reference in ["", "/a", "a/", "a//b", "a/../b", "./a", "a b", "ä"] {
        let mut secret = config.clone();
        secret.database_url_secret = reference.to_owned();
        assert_eq!(
            secret.validate(),
            Err(NotificationConfigError::InvalidSecretReference),
            "{reference}"
        );
    }
    for callers in [
        vec!["a".to_owned(), "a".to_owned()],
        vec![String::new()],
        vec!["a b".to_owned()],
        vec!["x".repeat(161)],
        (0..65).map(|index| format!("caller-{index}")).collect(),
    ] {
        let mut repeated = config.clone();
        repeated.receipt_callers = callers;
        assert_eq!(repeated.validate(), Err(NotificationConfigError::InvalidCallers));
    }
    let failure = notification::config::validate_config(&schema).expect_err("refused");
    assert!(matches!(failure, RuntimeFailure::InvalidResolvedPlan { .. }));
    assert!(notification::config::validate_config(&config).is_ok());
}

#[test]
fn authority_is_an_exact_caller() {
    let allowed = vec!["console-blue".to_owned()];
    assert!(authorized(Some("console-blue"), &allowed));
    assert!(!authorized(Some("console"), &allowed));
    assert!(!authorized(None, &allowed));
}

#[test]
fn sound_requests_become_intents_of_their_caller() {
    let config = unprepared_config();
    let now = time("2026-08-30T00:00:00Z");
    let intent = create_organization_invitation(
        Some("organization-blue"),
        &config.transactional_callers,
        generated_request(),
        now,
    )
    .ok()
    .expect("accepted");
    assert_eq!(intent.source.module_id, "organization-blue");
    assert_eq!(intent.recipient.locale, "en");
    assert_eq!(intent.template.expires_at, time("2026-09-01T00:00:00Z"));
    assert!(notification::public::validate_invitation_request(&intent, now).is_ok());
    let access = create_access_request_notification(
        Some("organization-blue"),
        &config.transactional_callers,
        generated_access_request(),
        now,
    )
    .ok()
    .expect("accepted");
    assert_eq!(access.source.entity_type, "access_request");
    assert_eq!(access.source.entity_id, "ar_fixture");
    assert!(notification::public::validate_access_request(&access, now).is_ok());
    assert!(matches!(
        create_organization_invitation(
            None,
            &config.transactional_callers,
            generated_request(),
            now,
        ),
        Err(PluginError::Domain(
            transactional::CreateOrganizationInvitationError::Unauthorized
        ))
    ));
}

#[test]
fn sound_observations_carry_their_caller_as_source() {
    let config = unprepared_config();
    let (event, payload) = observe_receipt(
        Some("email-provider-blue"),
        &config.receipt_callers,
        receipt_request(),
    )
    .ok()
    .expect("admitted");
    assert_eq!(event.source_module, "email-provider-blue");
    assert_eq!(payload.source, "email-provider-blue");
    assert!(notification::events::admit_receipt_observation(&event, &payload).is_ok());
    let (event, payload) = observe_invitation_lifecycle(
        Some("organization-blue"),
        &config.transactional_callers,
        lifecycle_request(),
    )
    .ok()
    .expect("admitted");
    assert_eq!(event.event_name, "lenso.organization.invitation-revoked.v1");
    assert_eq!(event.source_module, "organization-blue");
    assert_eq!(payload.invitation_id, "invite");
    assert!(dispatch_due(Some("notification-worker-blue"), &config.dispatch_callers).is_ok());
}

#[test]
fn pages_read_one_row_more_than_they_show() {
    let allowed = vec!["console-blue".to_owned()];
    let request = |limit: Option<i64>| admin::ListDeliveriesRequest {
        cursor: Some("ntf_dlv_1".to_owned()),
        limit,
        status: Some(admin::DeliveryStatus::Failed),
    };
    let query = list_deliveries(Some("console-blue"), &allowed, request(None)).expect("query");
    assert_eq!((query.limit, query.fetch), (100, 101));
    assert_eq!(query.status, Some(admin::DeliveryStatus::Failed));
    let query = list_deliveries(Some("console-blue"), &allowed, request(Some(200))).expect("query");
    assert_eq!((query.limit, query.fetch), (200, 201));
    let by = retry_delivery(
        Some("console-blue"),
        &allowed,
        &admin::RetryDeliveryRequest {
            delivery_id: "delivery".to_owned(),
            idempotency_key: "retry".to_owned(),
            revision: 1,
        },
    );
    assert_eq!(by.expect("admitted"), "console-blue");
}
