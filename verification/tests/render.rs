use notification::error::RuntimeFailure;
use notification::public::{
    AccessRequestNotificationEvent, AccessRequestNotificationTemplateV1, AccessRequestRoleV1,
    AccessRequestScopeV1, CreateAccessRequestNotificationIntent, CreateTransactionalEmailIntent,
    EmailRecipient, IntentSource, OrganizationInvitationTemplateV1,
};
use notification::render::{
    access_request_render_request, map_template_render_error,
    organization_invitation_render_request, rendered_template,
};
use notification::template::{self, RenderError, RenderInvocationError, RenderResponse};
use notification::time::UtcTime;

fn parse_time(text: &str) -> Option<UtcTime> {
    let time = chrono::DateTime::parse_from_rfc3339(text).ok()?;
    UtcTime::at(time.timestamp(), time.timestamp_subsec_nanos())
}

fn access_intent(expires_at: UtcTime) -> CreateAccessRequestNotificationIntent {
    CreateAccessRequestNotificationIntent {
        source: IntentSource {
            module_id: "access-request-blue".to_owned(),
            entity_type: "access_request".to_owned(),
            entity_id: "ar_1".to_owned(),
        },
        recipient: EmailRecipient {
            address: "member@example.com".to_owned(),
            display_name: None,
            locale: "en".to_owned(),
        },
        template: AccessRequestNotificationTemplateV1 {
            request_id: "ar_1".to_owned(),
            organization_id: "org_1".to_owned(),
            event: AccessRequestNotificationEvent::Submitted,
            role: AccessRequestRoleV1 {
                role_id: "role_member".to_owned(),
                display_name: None,
            },
            scope: AccessRequestScopeV1 {
                kind: "organization".to_owned(),
                id: "org_1".to_owned(),
                display_name: None,
            },
            expires_at: Some(expires_at),
        },
        idempotency_key: "access-request:ar_1:submitted".to_owned(),
        correlation_id: "corr_2".to_owned(),
        causation_id: None,
        requested_by: None,
    }
}

#[test]
fn template_requests_are_exact_versioned_and_event_typed() {
    let expires_at = parse_time("2026-09-01T00:00:00Z").expect("timestamp");
    let invitation = CreateTransactionalEmailIntent {
        source: IntentSource {
            module_id: "organization-blue".to_owned(),
            entity_type: "organization_invitation".to_owned(),
            entity_id: "invite_1".to_owned(),
        },
        recipient: EmailRecipient {
            address: "member@example.com".to_owned(),
            display_name: Some(" Member ".to_owned()),
            locale: "en-US".to_owned(),
        },
        template: OrganizationInvitationTemplateV1 {
            organization_id: "org_1".to_owned(),
            organization_name: " Acme ".to_owned(),
            invitation_id: "invite_1".to_owned(),
            invitation_url: "https://example.test/invite".to_owned(),
            inviter_display_name: None,
            role_name: Some(" Member ".to_owned()),
            expires_at,
        },
        idempotency_key: "organization-invitation:invite_1".to_owned(),
        correlation_id: "corr_1".to_owned(),
        causation_id: None,
        requested_by: None,
    };
    let request = organization_invitation_render_request(&invitation);
    assert_eq!(request.template_id, "organization-invitation");
    assert_eq!(request.version.as_deref(), Some("v1"));
    assert_eq!(request.locale, "en-US");
    let variables = request
        .variables
        .into_iter()
        .map(|item| (item.name, item.value))
        .collect::<std::collections::BTreeMap<_, _>>();
    assert_eq!(variables.len(), 7);
    assert_eq!(variables["organization_name"], "Acme");
    assert_eq!(variables["recipient_display_name"], "Member");
    assert_eq!(variables["inviter_display_name"], "");
    assert_eq!(variables["expires_at"], "2026-09-01T00:00:00Z");

    let mut access = access_intent(expires_at);
    let submitted = access_request_render_request(&access);
    assert_eq!(submitted.template_id, "access-request-submitted");
    assert!(submitted
        .variables
        .iter()
        .any(|item| item.name == "expires_at"));

    access.template.event = AccessRequestNotificationEvent::Denied;
    access.template.expires_at = None;
    let denied = access_request_render_request(&access);
    assert_eq!(denied.template_id, "access-request-denied");
    assert!(denied
        .variables
        .iter()
        .all(|item| item.name != "expires_at"));
}

#[test]
fn template_render_failures_preserve_runtime_and_fail_closed_on_domain_results() {
    let runtime = RuntimeFailure::Unavailable {
        capability: template::CAPABILITY_ID.to_owned(),
    };
    assert!(matches!(
        map_template_render_error(RenderInvocationError::Runtime(runtime)),
        RuntimeFailure::Unavailable { capability }
            if capability == template::CAPABILITY_ID
    ));
    assert!(matches!(
        map_template_render_error(RenderInvocationError::Domain(RenderError::NotFound)),
        RuntimeFailure::PluginFailure { .. }
    ));
    assert!(matches!(
        map_template_render_error(RenderInvocationError::Domain(
            RenderError::UnexpectedVariable
        )),
        RuntimeFailure::ProtocolViolation { capability }
            if capability == template::CAPABILITY_ID
    ));
}

#[test]
fn access_request_variables_are_sorted_and_fall_back_to_ids() {
    let expires_at = parse_time("2026-09-01T00:00:00Z").expect("timestamp");
    let mut access = access_intent(expires_at);
    access.template.role.display_name = Some(" ".to_owned());
    access.template.scope.display_name = Some(" Acme ".to_owned());
    let request = access_request_render_request(&access);
    let variables: Vec<(&str, &str)> = request
        .variables
        .iter()
        .map(|item| (item.name.as_str(), item.value.as_str()))
        .collect();
    assert_eq!(
        variables,
        vec![
            ("expires_at", "2026-09-01T00:00:00Z"),
            ("locale", "en"),
            ("organization_id", "org_1"),
            ("recipient_display_name", ""),
            ("request_id", "ar_1"),
            ("role", "role_member"),
            ("scope", "Acme"),
            ("scope_kind", "organization"),
        ]
    );
    let mut sorted = variables.clone();
    sorted.sort();
    assert_eq!(variables, sorted);
    access.template.expires_at = None;
    access.template.event = AccessRequestNotificationEvent::Approved;
    let request = access_request_render_request(&access);
    assert_eq!(request.template_id, "access-request-approved");
    assert_eq!(request.variables[0].value, "");
}

#[test]
fn unauthorized_rendering_is_explained() {
    let failure = map_template_render_error(RenderInvocationError::Domain(RenderError::Unauthorized));
    assert!(matches!(
        failure,
        RuntimeFailure::PluginFailure { detail }
            if detail.contains("not authorized to render")
    ));
}

#[test]
fn rendered_messages_keep_what_the_provider_said() {
    let rendered = rendered_template(RenderResponse {
        template_id: "organization-invitation".to_owned(),
        version: "v1".to_owned(),
        requested_locale: "en-US".to_owned(),
        resolved_locale: "en".to_owned(),
        fallback_used: true,
        renderer_identity: "renderer".to_owned(),
        template_digest: "sha256:t".to_owned(),
        content_digest: "sha256:c".to_owned(),
        subject: "Subject".to_owned(),
        text: "Text".to_owned(),
        html: "<p>Text</p>".to_owned(),
    });
    assert_eq!(rendered.template_version, "v1");
    assert_eq!(rendered.resolved_locale, "en");
    assert!(rendered.fallback_used);
    assert_eq!(rendered.html, "<p>Text</p>");
}
