//! What is asked of the template provider, and what its answers mean.

use vstd::prelude::*;

use crate::error::{plugin_failure, protocol_violation, RuntimeFailure};
use crate::public::{access_request_template, access_request_template_id,
    CreateAccessRequestNotificationIntent, CreateTransactionalEmailIntent, RenderedTemplate,
    AccessRequestNotificationEvent, ACCESS_REQUEST_TEMPLATE_VERSION,
    ORGANIZATION_INVITATION_TEMPLATE_ID, ORGANIZATION_INVITATION_TEMPLATE_VERSION};
use crate::template::{RenderError, RenderInvocationError, RenderRequest,
    RenderRequestVariablesItem, RenderResponse, CAPABILITY_ID};
use crate::text::{trim_text, trimmed};
use crate::time::{format_template_time, rfc3339_seconds, UtcTime};

verus! {

/// The names and values of template variables.
pub open spec fn variables_of(items: Seq<RenderRequestVariablesItem>) -> Seq<
    (Seq<char>, Seq<char>),
> {
    items.map_values(|item: RenderRequestVariablesItem| (item.name@, item.value@))
}

/// An optional display text without white space at its ends, or nothing.
pub open spec fn trimmed_or_empty(value: Option<String>) -> Seq<char> {
    match value {
        Some(text) => trimmed(text@),
        None => Seq::empty(),
    }
}

/// The trimmed display name, or what stands in for it where there is none.
pub open spec fn display_or(display_name: Option<String>, fallback: Seq<char>) -> Seq<char> {
    match display_name {
        Some(text) => if trimmed(text@).len() > 0 {
            trimmed(text@)
        } else {
            fallback
        },
        None => fallback,
    }
}

/// The text of an instant in a template.
pub open spec fn template_time(time: UtcTime) -> Seq<char> {
    rfc3339_seconds(time.seconds, time.nanos)
}

fn render_variable(name: &str, value: String) -> (item: RenderRequestVariablesItem)
    ensures
        item.name@ == name@,
        item.value == value,
{
    RenderRequestVariablesItem { name: name.to_owned(), value }
}

fn trimmed_optional(value: &Option<String>) -> (text: String)
    ensures
        text@ == trimmed_or_empty(*value),
{
    match value {
        Some(text) => trim_text(text.as_str()),
        None => String::new(),
    }
}

fn shown_name(display_name: &Option<String>, fallback: &String) -> (text: String)
    ensures
        text@ == display_or(*display_name, fallback@),
{
    if let Some(display) = display_name {
        let shown = trim_text(display.as_str());
        if !shown.as_str().is_empty() {
            return shown;
        }
    }
    fallback.clone()
}

/// The variables of an invitation.
pub open spec fn invitation_variables(intent: CreateTransactionalEmailIntent) -> Seq<
    (Seq<char>, Seq<char>),
> {
    seq![
        ("expires_at"@, template_time(intent.template.expires_at)),
        ("invitation_url"@, intent.template.invitation_url@),
        ("inviter_display_name"@, trimmed_or_empty(intent.template.inviter_display_name)),
        ("locale"@, intent.recipient.locale@),
        ("organization_name"@, trimmed(intent.template.organization_name@)),
        ("recipient_display_name"@, trimmed_or_empty(intent.recipient.display_name)),
        ("role_name"@, trimmed_or_empty(intent.template.role_name)),
    ]
}

/// Whether `request` asks for exactly the built-in invitation template.
pub open spec fn asks_invitation(
    request: RenderRequest,
    intent: CreateTransactionalEmailIntent,
) -> bool {
    &&& request.template_id@ == ORGANIZATION_INVITATION_TEMPLATE_ID@
    &&& request.version matches Some(version) && version@
        == ORGANIZATION_INVITATION_TEMPLATE_VERSION@
    &&& request.locale == intent.recipient.locale
    &&& variables_of(request.variables@) == invitation_variables(intent)
}

/// Asks for exactly the built-in invitation template.
pub fn organization_invitation_render_request(intent: &CreateTransactionalEmailIntent) -> (request:
    RenderRequest)
    requires
        intent.template.expires_at.valid(),
    ensures
        asks_invitation(request, *intent),
{
    let mut variables: Vec<RenderRequestVariablesItem> = Vec::new();
    variables.push(
        render_variable("expires_at", format_template_time(intent.template.expires_at)),
    );
    variables.push(render_variable("invitation_url", intent.template.invitation_url.clone()));
    variables.push(
        render_variable(
            "inviter_display_name",
            trimmed_optional(&intent.template.inviter_display_name),
        ),
    );
    variables.push(render_variable("locale", intent.recipient.locale.clone()));
    variables.push(
        render_variable(
            "organization_name",
            trim_text(intent.template.organization_name.as_str()),
        ),
    );
    variables.push(
        render_variable(
            "recipient_display_name",
            trimmed_optional(&intent.recipient.display_name),
        ),
    );
    variables.push(render_variable("role_name", trimmed_optional(&intent.template.role_name)));
    assert(variables_of(variables@) =~= invitation_variables(*intent));
    RenderRequest {
        template_id: ORGANIZATION_INVITATION_TEMPLATE_ID.to_owned(),
        version: Some(ORGANIZATION_INVITATION_TEMPLATE_VERSION.to_owned()),
        locale: intent.recipient.locale.clone(),
        variables,
    }
}

/// The variables of an access-request message that every event has.
pub open spec fn common_variables(intent: CreateAccessRequestNotificationIntent) -> Seq<
    (Seq<char>, Seq<char>),
> {
    seq![
        ("locale"@, intent.recipient.locale@),
        ("organization_id"@, intent.template.organization_id@),
        ("recipient_display_name"@, trimmed_or_empty(intent.recipient.display_name)),
        ("request_id"@, intent.template.request_id@),
        (
            "role"@,
            display_or(intent.template.role.display_name, intent.template.role.role_id@),
        ),
        ("scope"@, display_or(intent.template.scope.display_name, intent.template.scope.id@)),
        ("scope_kind"@, intent.template.scope.kind@),
    ]
}

/// The variables of an access-request message, ordered by name. A denied
/// request has no expiry.
pub open spec fn access_request_variables(intent: CreateAccessRequestNotificationIntent) -> Seq<
    (Seq<char>, Seq<char>),
> {
    if intent.template.event is Denied {
        common_variables(intent)
    } else {
        seq![
            (
                "expires_at"@,
                match intent.template.expires_at {
                    Some(at) => template_time(at),
                    None => Seq::empty(),
                },
            ),
        ] + common_variables(intent)
    }
}

/// Whether `request` asks for exactly the built-in template of the event.
pub open spec fn asks_access_request(
    request: RenderRequest,
    intent: CreateAccessRequestNotificationIntent,
) -> bool {
    &&& request.template_id@ == access_request_template(intent.template.event)
    &&& request.version matches Some(version) && version@ == ACCESS_REQUEST_TEMPLATE_VERSION@
    &&& request.locale == intent.recipient.locale
    &&& variables_of(request.variables@) == access_request_variables(intent)
}

/// Asks for exactly the built-in template of the event.
pub fn access_request_render_request(intent: &CreateAccessRequestNotificationIntent) -> (request:
    RenderRequest)
    requires
        intent.template.expires_at matches Some(at) ==> at.valid(),
    ensures
        asks_access_request(request, *intent),
{
    let mut variables: Vec<RenderRequestVariablesItem> = Vec::new();
    match intent.template.event {
        AccessRequestNotificationEvent::Denied => {},
        _ => {
            let expires_at = match intent.template.expires_at {
                Some(at) => format_template_time(at),
                None => String::new(),
            };
            variables.push(render_variable("expires_at", expires_at));
        },
    }
    variables.push(render_variable("locale", intent.recipient.locale.clone()));
    variables.push(render_variable("organization_id", intent.template.organization_id.clone()));
    variables.push(
        render_variable(
            "recipient_display_name",
            trimmed_optional(&intent.recipient.display_name),
        ),
    );
    variables.push(render_variable("request_id", intent.template.request_id.clone()));
    variables.push(
        render_variable(
            "role",
            shown_name(&intent.template.role.display_name, &intent.template.role.role_id),
        ),
    );
    variables.push(
        render_variable(
            "scope",
            shown_name(&intent.template.scope.display_name, &intent.template.scope.id),
        ),
    );
    variables.push(render_variable("scope_kind", intent.template.scope.kind.clone()));
    assert(variables_of(variables@) =~= access_request_variables(*intent));
    RenderRequest {
        template_id: access_request_template_id(intent.template.event).to_owned(),
        version: Some(ACCESS_REQUEST_TEMPLATE_VERSION.to_owned()),
        locale: intent.recipient.locale.clone(),
        variables,
    }
}

/// The rendered message that a response holds.
pub open spec fn rendered_of(response: RenderResponse) -> RenderedTemplate {
    RenderedTemplate {
        template_id: response.template_id,
        template_version: response.version,
        requested_locale: response.requested_locale,
        resolved_locale: response.resolved_locale,
        fallback_used: response.fallback_used,
        renderer_identity: response.renderer_identity,
        template_digest: response.template_digest,
        content_digest: response.content_digest,
        subject: response.subject,
        text: response.text,
        html: response.html,
    }
}

/// The rendered message that a provider answered with.
pub fn rendered_template(response: RenderResponse) -> (rendered: RenderedTemplate)
    ensures
        rendered == rendered_of(response),
{
    RenderedTemplate {
        template_id: response.template_id,
        template_version: response.version,
        requested_locale: response.requested_locale,
        resolved_locale: response.resolved_locale,
        fallback_used: response.fallback_used,
        renderer_identity: response.renderer_identity,
        template_digest: response.template_digest,
        content_digest: response.content_digest,
        subject: response.subject,
        text: response.text,
        html: response.html,
    }
}

pub const TEMPLATE_UNAVAILABLE: &'static str =
    "required Notification Template version is unavailable";

pub const RENDER_UNAUTHORIZED: &'static str =
    "Notification is not authorized to render through its configured Template Provider";

/// Whether `failure` is the runtime failure that a failed rendering is.
pub open spec fn explains_render(failure: RuntimeFailure, error: RenderInvocationError) -> bool {
    match error {
        RenderInvocationError::Runtime(inner) => failure == inner,
        RenderInvocationError::Domain(RenderError::NotFound) => failure.is_plugin_failure(
            TEMPLATE_UNAVAILABLE@,
        ),
        RenderInvocationError::Domain(RenderError::Unauthorized) => failure.is_plugin_failure(
            RENDER_UNAUTHORIZED@,
        ),
        RenderInvocationError::Domain(_) => failure.is_protocol_violation(CAPABILITY_ID@),
    }
}

/// The runtime failure that a failed rendering is. A runtime failure stays what
/// it is; domain answers never let an intent through.
pub fn map_template_render_error(error: RenderInvocationError) -> (failure: RuntimeFailure)
    ensures
        explains_render(failure, error),
{
    match error {
        RenderInvocationError::Runtime(inner) => inner,
        RenderInvocationError::Domain(RenderError::NotFound) => plugin_failure(
            TEMPLATE_UNAVAILABLE,
        ),
        RenderInvocationError::Domain(RenderError::Unauthorized) => plugin_failure(
            RENDER_UNAUTHORIZED,
        ),
        RenderInvocationError::Domain(_) => protocol_violation(CAPABILITY_ID),
    }
}

} // verus!
