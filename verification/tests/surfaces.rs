use notification::admin;
use notification::agent_tools::{
    find_tool, list_arguments, map_get_delivery_error, map_list_deliveries_error,
    map_retry_delivery_error, success, tool_definitions, ExecuteError, Tool, ToolExecutionClass,
    GET_DELIVERY_TOOL, LIST_DELIVERIES_TOOL, RETRY_DELIVERY_TOOL,
};
use notification::business_api::{
    detail_response, get_delivery, list_deliveries, non_empty, page_response, parse_i64,
    retry_delivery, retry_response, summary_response, ApiErrorCode, DeliveryListQuery,
    DeliverySummaryResponse, RetryDeliveryRequest, SurfaceHeaders, GET_DELIVERY_OPERATION,
    LIST_DELIVERIES_OPERATION, NOTIFICATION_CONTRACT_DIGEST, RETRY_DELIVERY_OPERATION,
};
use notification::email;
use notification::module::{
    manifest, ConsoleSurfacePresentation, ModuleConfigActivation, ModuleConfigScope,
    ModuleHttpMethod, ModuleMigrationActivation, NOTIFICATION_DELIVERIES_READ, NOTIFICATION_DELIVERIES_RETRY,
};
use notification::repository::{
    AttemptRecord, DeliveryDetail, DeliverySummary, ReceiptRecord, RetryRecord, RetryResult,
};
use notification::time::UtcTime;
use notification::transactional::{
    CreateAccessRequestNotificationRequest, CreateAccessRequestNotificationRequestEvent,
    CreateAccessRequestNotificationRequestRecipient,
    CreateAccessRequestNotificationRequestRecipientLocale,
    CreateAccessRequestNotificationRequestRole, CreateAccessRequestNotificationRequestScope,
};

fn now() -> UtcTime {
    let now = chrono::Utc::now();
    UtcTime::at(now.timestamp(), now.timestamp_subsec_nanos()).expect("valid instant")
}

#[test]
fn domain_rejections_are_documented_as_pre_effect_only() {
    let contract = email::CONTRACT;
    assert!(contract.contains("pre-effect rejections"));
    assert!(contract.contains("only before it has"));
    assert!(contract.contains("started any external effect"));
    assert!(contract.contains("terminal `delivery_unknown`"));
    assert!(contract.contains("never silently retries"));
}

#[test]
fn access_request_recipient_is_redacted_from_debug() {
    let request = CreateAccessRequestNotificationRequest {
        causation_id: None,
        correlation_id: "corr_1".to_owned(),
        event: CreateAccessRequestNotificationRequestEvent::Submitted,
        expires_at: Some("2026-09-01T00:00:00Z".to_owned()),
        idempotency_key: "access-request:ar_1:submitted".to_owned(),
        organization_id: "org_1".to_owned(),
        recipient: CreateAccessRequestNotificationRequestRecipient {
            address: "private@example.com".to_owned(),
            display_name: Some("Private Person".to_owned()),
            locale: CreateAccessRequestNotificationRequestRecipientLocale::En,
        },
        request_id: "ar_1".to_owned(),
        requested_by: Some("subject_1".to_owned()),
        role: CreateAccessRequestNotificationRequestRole {
            display_name: Some("Member".to_owned()),
            role_id: "role_member".to_owned(),
        },
        scope: CreateAccessRequestNotificationRequestScope {
            display_name: Some("Acme".to_owned()),
            id: "org_1".to_owned(),
            kind: "organization".to_owned(),
        },
    };
    let debug = request.debug_text();
    assert!(!debug.contains("private@example.com"));
    assert!(!debug.contains("Private Person"));
    assert!(debug.contains("<redacted>"));
    assert_eq!(
        debug,
        "CreateAccessRequestNotificationRequest { causation_id: None, correlation_id: \"corr_1\", \
         event: Submitted, expires_at: Some(\"2026-09-01T00:00:00Z\"), \
         idempotency_key: \"access-request:ar_1:submitted\", organization_id: \"org_1\", \
         recipient: \"<redacted>\", request_id: \"ar_1\", requested_by: Some(\"subject_1\"), \
         role_id: \"role_member\", role_display_name: Some(\"Member\"), \
         scope_kind: \"organization\", scope_id: \"org_1\", scope_display_name: Some(\"Acme\") }"
    );
}

#[test]
fn dispatches_are_described_without_recipient_and_message() {
    let request = |address: &str, text: &str| email::DispatchRequest {
        delivery_id: "delivery".to_owned(),
        attempt_id: "attempt".to_owned(),
        run_id: "run".to_owned(),
        idempotency_key: "attempt".to_owned(),
        recipient: email::DispatchRequestRecipient { address: address.to_owned() },
        message: email::DispatchRequestMessage {
            template_id: "organization-invitation".to_owned(),
            template_version: "v1".to_owned(),
            locale: "en".to_owned(),
            subject: text.to_owned(),
            text: text.to_owned(),
            html: text.to_owned(),
            content_digest: format!("sha256:{}", "a".repeat(64)),
        },
        correlation_id: "correlation".to_owned(),
    };
    let first = request("member@example.com", "secret").debug_text();
    assert!(!first.contains("member@example.com"));
    assert!(!first.contains("secret"));
    assert_eq!(first, request("other@example.com", "other").debug_text());
}

const SCHEMA: &str = "{ \"type\": \"object\" }";

#[test]
fn catalog_has_two_reads_and_one_explicit_mutation() {
    let tools = tool_definitions(SCHEMA, SCHEMA, SCHEMA).expect("schemas are JSON");
    assert_eq!(tools.len(), 3);
    assert_eq!(
        tools
            .iter()
            .filter(|tool| tool.execution == ToolExecutionClass::ParallelSafe)
            .count(),
        2
    );
    assert_eq!(
        tools
            .iter()
            .filter(|tool| tool.execution == ToolExecutionClass::Exclusive)
            .count(),
        1
    );
    assert_eq!(tools[2].name, RETRY_DELIVERY_TOOL);
    assert_eq!(tools[0].input_schema_json, "{\"type\":\"object\"}");
    assert!(tool_definitions(SCHEMA, "not json", SCHEMA).is_none());
}

#[test]
fn requests_and_domain_failures_preserve_contract_semantics() {
    let decode = |arguments: &str| {
        let value: serde_json::Value = serde_json::from_str(arguments).expect("JSON");
        list_arguments(
            value["cursor"].as_str().map(str::to_owned),
            value["limit"].as_i64(),
            value["status"].as_str().map(str::to_owned),
        )
    };
    let list = decode(r#"{"limit":50,"status":"failed"}"#).unwrap();
    assert_eq!(list.limit, Some(50));
    assert_eq!(list.status, Some(admin::DeliveryStatus::Failed));
    assert!(decode(r#"{"limit":50,"status":"failure"}"#).is_err());
    assert_eq!(
        map_get_delivery_error(&admin::GetDeliveryError::DeliveryNotFound),
        ExecuteError::NotFound
    );
    assert_eq!(
        map_retry_delivery_error(&admin::RetryDeliveryError::Unauthorized),
        ExecuteError::PermissionDenied
    );
    assert!(matches!(
        map_retry_delivery_error(&admin::RetryDeliveryError::RetryNotAllowed),
        ExecuteError::ExecutionFailed { .. }
    ));
}

#[test]
fn tool_calls_are_found_by_name_and_answered_in_json() {
    assert_eq!(find_tool(LIST_DELIVERIES_TOOL), Ok(Tool::ListDeliveries));
    assert_eq!(find_tool(GET_DELIVERY_TOOL), Ok(Tool::GetDelivery));
    assert_eq!(find_tool(RETRY_DELIVERY_TOOL), Ok(Tool::RetryDelivery));
    assert_eq!(find_tool("other"), Err(ExecuteError::NotFound));
    let response = success(GET_DELIVERY_TOOL, "{}".to_owned());
    assert_eq!(
        response.metadata_json,
        "{\"tool\":\"notification_admin_get_delivery\"}"
    );
    let reason = |error: ExecuteError| match error {
        ExecuteError::ExecutionFailed { payload } => {
            assert_eq!(
                payload.message,
                "Notification administration rejected the requested operation."
            );
            assert_eq!(
                payload.details_json,
                format!("{{\"domain_error\":\"{}\"}}", payload.reason_code)
            );
            payload.reason_code
        }
        other => panic!("{other:?}"),
    };
    assert_eq!(
        reason(map_retry_delivery_error(&admin::RetryDeliveryError::StaleRevision)),
        "stale_revision"
    );
    assert_eq!(
        reason(map_retry_delivery_error(&admin::RetryDeliveryError::IdempotencyConflict)),
        "idempotency_conflict"
    );
    assert_eq!(
        reason(map_get_delivery_error(&admin::GetDeliveryError::EvidenceOverflow)),
        "evidence_overflow"
    );
    assert_eq!(
        reason(map_list_deliveries_error(&admin::ListDeliveriesError::Unknown)),
        "unknown_domain_error"
    );
    assert_eq!(
        map_list_deliveries_error(&admin::ListDeliveriesError::InvalidFilter),
        ExecuteError::InvalidArguments
    );
}

fn summary(id: &str) -> DeliverySummary {
    DeliverySummary {
        id: id.to_owned(),
        recipient_mask: "a***@example.com".to_owned(),
        template_id: "organization-invitation".to_owned(),
        template_version: "v1".to_owned(),
        locale: "en".to_owned(),
        status: "retry_scheduled".to_owned(),
        revision: 1,
        attempt_count: 1,
        max_attempts: 4,
        redacted_preview: "Join with [link redacted]".to_owned(),
        content_digest: format!("sha256:{}", "0".repeat(64)),
        correlation_id: "corr_1".to_owned(),
        next_attempt_at: None,
        final_reason: None,
        created_at: now(),
        updated_at: now(),
    }
}

#[test]
fn api_response_shape_has_no_sensitive_body_fields() {
    let response = DeliverySummaryResponse {
        id: "ntf_dlv_1".to_owned(),
        recipient_mask: "a***@example.com".to_owned(),
        template_id: "organization-invitation".to_owned(),
        template_version: "v1".to_owned(),
        locale: "en".to_owned(),
        status: "queued".to_owned(),
        revision: 1,
        attempt_count: 0,
        max_attempts: 4,
        redacted_preview: "Join with [link redacted]".to_owned(),
        content_digest: format!("sha256:{}", "0".repeat(64)),
        correlation_id: "corr_1".to_owned(),
        next_attempt_at: None,
        final_reason: None,
        created_at: now(),
        updated_at: now(),
        retry_now_eligible: false,
    };
    let encoded = format!("{response:?}");
    for forbidden in ["ciphertext", "subject", "html", "invitation_url", "token"] {
        assert!(!encoded.contains(forbidden), "leaked field {forbidden}");
    }
}

fn headers(operation: &str, capability: &str) -> SurfaceHeaders {
    SurfaceHeaders {
        contract_digest: Some(NOTIFICATION_CONTRACT_DIGEST.to_owned()),
        operation_id: Some(operation.to_owned()),
        capability: Some(capability.to_owned()),
        delegated_actor: Some("actor".to_owned()),
        service_id: Some("service".to_owned()),
        delegated_authority: Some(format!("sha256:{}", "a".repeat(64))),
        deadline_unix_ms: Some("1001".to_owned()),
    }
}

#[test]
fn console_requests_are_bound_to_their_surface() {
    let list = || headers(LIST_DELIVERIES_OPERATION, NOTIFICATION_DELIVERIES_READ);
    let query = || DeliveryListQuery { limit: None, cursor: None, status: Some("failed".to_owned()) };
    let page = list_deliveries(&list(), query(), 1_000).expect("admitted");
    assert_eq!((page.limit, page.fetch), (100, 101));
    let refused = |headers: SurfaceHeaders| {
        let error = list_deliveries(&headers, query(), 1_000).expect_err("refused");
        assert_eq!(error.code, ApiErrorCode::Forbidden);
    };
    refused(SurfaceHeaders { contract_digest: None, ..list() });
    refused(SurfaceHeaders { operation_id: Some(GET_DELIVERY_OPERATION.to_owned()), ..list() });
    refused(SurfaceHeaders { capability: Some(NOTIFICATION_DELIVERIES_RETRY.to_owned()), ..list() });
    refused(SurfaceHeaders { delegated_actor: Some(" ".to_owned()), ..list() });
    refused(SurfaceHeaders { service_id: None, ..list() });
    refused(SurfaceHeaders { delegated_authority: Some("sha256:x".to_owned()), ..list() });
    refused(SurfaceHeaders { deadline_unix_ms: Some("1000".to_owned()), ..list() });
    refused(SurfaceHeaders { deadline_unix_ms: Some("soon".to_owned()), ..list() });
    let limited = |limit: i64| {
        list_deliveries(
            &list(),
            DeliveryListQuery { limit: Some(limit), cursor: None, status: None },
            1_000,
        )
    };
    assert_eq!(limited(0).expect_err("refused").message, "limit must be between 1 and 200");
    assert!(limited(201).is_err());
    assert!(limited(200).is_ok());
    let unknown = list_deliveries(
        &list(),
        DeliveryListQuery { limit: None, cursor: None, status: Some("sent".to_owned()) },
        1_000,
    );
    assert_eq!(
        unknown.expect_err("refused").message,
        "status is not a Notification delivery status"
    );
}

#[test]
fn console_paths_and_bodies_are_checked() {
    let get = headers(GET_DELIVERY_OPERATION, NOTIFICATION_DELIVERIES_READ);
    assert!(get_delivery(&get, "ntf_dlv_1.~-Z", 1_000).is_ok());
    for id in ["", "a/b", "a b", "ä"] {
        assert_eq!(
            get_delivery(&get, id, 1_000).expect_err("refused").message,
            "delivery_id contains an unsafe path character"
        );
    }
    let mut retry = headers(RETRY_DELIVERY_OPERATION, NOTIFICATION_DELIVERIES_RETRY);
    retry.delegated_actor = Some("ä".repeat(300));
    let body = |revision: i64, key: &str| RetryDeliveryRequest {
        revision,
        idempotency_key: key.to_owned(),
    };
    let by = retry_delivery(&retry, "ntf_dlv_1", &body(1, "key"), 1_000).expect("admitted");
    assert_eq!(by, "ä".repeat(240));
    for bad in [body(0, "key"), body(1, " ")] {
        assert_eq!(
            retry_delivery(&retry, "ntf_dlv_1", &bad, 1_000).expect_err("refused").message,
            "revision and idempotency_key are required"
        );
    }
    assert!(non_empty("x"));
    assert!(!non_empty("\u{3000}"));
}

#[test]
fn console_answers_show_what_is_stored() {
    let rows = vec![summary("a"), summary("b"), summary("c")];
    let page = page_response(&rows, 2);
    assert_eq!(page.records.len(), 2);
    assert_eq!(page.next_cursor.as_deref(), Some("b"));
    let page = page_response(&rows, 3);
    assert_eq!(page.next_cursor, None);
    assert!(summary_response(&rows[0]).retry_now_eligible);
    let detail = detail_response(&DeliveryDetail {
        delivery: summary("a"),
        attempts: vec![AttemptRecord {
            id: "attempt".to_owned(),
            sequence: 1,
            function_run_id: "run".to_owned(),
            status: "accepted".to_owned(),
            provider: None,
            remote_receipt_id: None,
            failure_code: None,
            failure_classification: None,
            started_at: now(),
            completed_at: None,
        }],
        receipts: vec![ReceiptRecord {
            id: "receipt".to_owned(),
            attempt_id: "attempt".to_owned(),
            kind: "delivered".to_owned(),
            source: "smtp".to_owned(),
            remote_id: "remote".to_owned(),
            digest: "sha256:x".to_owned(),
            observed_at: now(),
        }],
        retry_requests: vec![RetryRecord {
            id: "retry".to_owned(),
            kind: "manual".to_owned(),
            requested_by: None,
            source_revision: 1,
            decision: "scheduled".to_owned(),
            reason: None,
            scheduled_at: None,
            created_at: now(),
        }],
    });
    assert_eq!(detail.open_in_story_correlation_id, "corr_1");
    assert_eq!(detail.attempts[0].id, "attempt");
    assert_eq!(detail.receipts[0].id, "receipt");
    assert_eq!(detail.retry_requests[0].id, "retry");
    let response = retry_response(RetryResult {
        delivery_id: "a".to_owned(),
        revision: 2,
        status: "retry_scheduled".to_owned(),
        scheduled_at: now(),
        idempotent_replay: false,
    });
    assert_eq!(response.revision, 2);
}

#[test]
fn integers_are_read_as_std_reads_them() {
    for text in [
        "", "-", "+", "0", "-0", "+7", "007", "9223372036854775807", "9223372036854775808",
        "-9223372036854775808", "-9223372036854775809", "99999999999999999999999999", "1x", " 1",
        "1 ", "--1", "٣",
    ] {
        assert_eq!(parse_i64(text), text.parse::<i64>().ok(), "{text}");
    }
}

#[test]
fn manifest_declares_only_implemented_surfaces() {
    let manifest = manifest("notification.dispatch-due.v1", "notification");
    assert_eq!(manifest.id, "lenso/notification");
    assert_eq!(manifest.console[0].route, "/notifications/deliveries");
    assert_eq!(manifest.functions.len(), 1);
    assert_eq!(manifest.functions[0].name, "notification.dispatch-due.v1");
    assert_eq!(manifest.functions[0].queue, "notification");
    assert_eq!(manifest.event_handlers.len(), 5);
    assert_eq!(manifest.http_routes.len(), 3);
    assert_eq!(manifest.http_routes[2].method, ModuleHttpMethod::Post);
    assert_eq!(manifest.http_routes[2].capability, NOTIFICATION_DELIVERIES_RETRY);
    assert_eq!(manifest.config[0].key, "snapshot_protection_key");
    assert_eq!(manifest.config[0].scope, ModuleConfigScope::Environment);
    assert_eq!(manifest.config[0].activation, ModuleConfigActivation::Restart);
    assert_eq!(
        manifest.migrations[0].activation,
        ModuleMigrationActivation::BeforeActivation
    );
    assert!(matches!(
        &manifest.console[0].presentation,
        ConsoleSurfacePresentation::Esm { entry } if entry == "index.js"
    ));
}
