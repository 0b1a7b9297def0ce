//! Descriptions for logs that leave out who a message is for and what it says.

use vstd::prelude::*;
use vstd::string::*;

use crate::email::DispatchRequest;
use crate::transactional::{CreateAccessRequestNotificationRequest,
    CreateAccessRequestNotificationRequestEvent};

verus! {

/// What stands in place of what is left out.
pub const REDACTED: &'static str = "<redacted>";

/// A text in quotes.
pub open spec fn shown(text: Seq<char>) -> Seq<char> {
    "\""@ + text + "\""@
}

/// An optional text, in quotes where it is there.
pub open spec fn shown_option(text: Option<String>) -> Seq<char> {
    match text {
        Some(value) => "Some("@ + shown(value@) + ")"@,
        None => "None"@,
    }
}

fn append_shown(out: &mut String, label: &str, text: &str)
    ensures
        final(out)@ == old(out)@ + label@ + shown(text@),
{
    out.append(label);
    out.append("\"");
    out.append(text);
    out.append("\"");
    assert(out@ =~= old(out)@ + label@ + shown(text@));
}

fn append_option(out: &mut String, label: &str, text: &Option<String>)
    ensures
        final(out)@ == old(out)@ + label@ + shown_option(*text),
{
    match text {
        Some(value) => {
            out.append(label);
            append_shown(out, "Some(", value.as_str());
            out.append(")");
        },
        None => {
            out.append(label);
            out.append("None");
        },
    }
    assert(out@ =~= old(out)@ + label@ + shown_option(*text));
}

/// The shown name of an event.
pub open spec fn event_shown(event: CreateAccessRequestNotificationRequestEvent) -> Seq<char> {
    match event {
        CreateAccessRequestNotificationRequestEvent::Submitted => "Submitted"@,
        CreateAccessRequestNotificationRequestEvent::Approved => "Approved"@,
        CreateAccessRequestNotificationRequestEvent::Denied => "Denied"@,
        CreateAccessRequestNotificationRequestEvent::Expiring => "Expiring"@,
    }
}

impl CreateAccessRequestNotificationRequest {
    /// The description without the recipient.
    pub open spec fn description(self) -> Seq<char> {
        "CreateAccessRequestNotificationRequest { causation_id: "@ + shown_option(self.causation_id)
            + ", correlation_id: "@ + shown(self.correlation_id@) + ", event: "@ + event_shown(
            self.event,
        ) + ", expires_at: "@ + shown_option(self.expires_at) + ", idempotency_key: "@ + shown(
            self.idempotency_key@,
        ) + ", organization_id: "@ + shown(self.organization_id@) + ", recipient: "@ + shown(
            REDACTED@,
        ) + ", request_id: "@ + shown(self.request_id@) + ", requested_by: "@ + shown_option(
            self.requested_by,
        ) + ", role_id: "@ + shown(self.role.role_id@) + ", role_display_name: "@ + shown_option(
            self.role.display_name,
        ) + ", scope_kind: "@ + shown(self.scope.kind@) + ", scope_id: "@ + shown(self.scope.id@)
            + ", scope_display_name: "@ + shown_option(self.scope.display_name) + " }"@
    }

    /// The description without the recipient.
    pub fn debug_text(&self) -> (text: String)
        ensures
            text@ == self.description(),
    {
        let mut text = String::new();
        append_option(
            &mut text,
            "CreateAccessRequestNotificationRequest { causation_id: ",
            &self.causation_id,
        );
        append_shown(&mut text, ", correlation_id: ", self.correlation_id.as_str());
        text.append(", event: ");
        text.append(
            match self.event {
                CreateAccessRequestNotificationRequestEvent::Submitted => "Submitted",
                CreateAccessRequestNotificationRequestEvent::Approved => "Approved",
                CreateAccessRequestNotificationRequestEvent::Denied => "Denied",
                CreateAccessRequestNotificationRequestEvent::Expiring => "Expiring",
            },
        );
        append_option(&mut text, ", expires_at: ", &self.expires_at);
        append_shown(&mut text, ", idempotency_key: ", self.idempotency_key.as_str());
        append_shown(&mut text, ", organization_id: ", self.organization_id.as_str());
        append_shown(&mut text, ", recipient: ", REDACTED);
        append_shown(&mut text, ", request_id: ", self.request_id.as_str());
        append_option(&mut text, ", requested_by: ", &self.requested_by);
        append_shown(&mut text, ", role_id: ", self.role.role_id.as_str());
        append_option(&mut text, ", role_display_name: ", &self.role.display_name);
        append_shown(&mut text, ", scope_kind: ", self.scope.kind.as_str());
        append_shown(&mut text, ", scope_id: ", self.scope.id.as_str());
        append_option(&mut text, ", scope_display_name: ", &self.scope.display_name);
        text.append(" }");
        assert(text@ =~= self.description());
        text
    }
}

impl DispatchRequest {
    /// The description without the recipient and the message.
    pub open spec fn description(self) -> Seq<char> {
        "DispatchRequest { delivery_id: "@ + shown(self.delivery_id@) + ", attempt_id: "@ + shown(
            self.attempt_id@,
        ) + ", run_id: "@ + shown(self.run_id@) + ", idempotency_key: "@ + shown(
            self.idempotency_key@,
        ) + ", recipient: "@ + shown(REDACTED@) + ", message: "@ + shown(REDACTED@)
            + ", correlation_id: "@ + shown(self.correlation_id@) + " }"@
    }

    /// The description without the recipient and the message.
    pub fn debug_text(&self) -> (text: String)
        ensures
            text@ == self.description(),
    {
        let mut text = String::new();
        append_shown(&mut text, "DispatchRequest { delivery_id: ", self.delivery_id.as_str());
        append_shown(&mut text, ", attempt_id: ", self.attempt_id.as_str());
        append_shown(&mut text, ", run_id: ", self.run_id.as_str());
        append_shown(&mut text, ", idempotency_key: ", self.idempotency_key.as_str());
        append_shown(&mut text, ", recipient: ", REDACTED);
        append_shown(&mut text, ", message: ", REDACTED);
        append_shown(&mut text, ", correlation_id: ", self.correlation_id.as_str());
        text.append(" }");
        assert(text@ =~= self.description());
        text
    }
}

/// The description of a request does not depend on its recipient: requests
/// that differ in nothing else are described alike.
pub proof fn law_description_hides_recipient(
    a: CreateAccessRequestNotificationRequest,
    b: CreateAccessRequestNotificationRequest,
)
    requires
        a == (CreateAccessRequestNotificationRequest { recipient: a.recipient, ..b }),
    ensures
        a.description() == b.description(),
{
}

/// The description of a dispatch depends neither on its recipient nor on its
/// message: dispatches that differ in nothing else are described alike.
pub proof fn law_description_hides_message(a: DispatchRequest, b: DispatchRequest)
    requires
        a == (DispatchRequest { recipient: a.recipient, message: a.message, ..b }),
    ensures
        a.description() == b.description(),
{
}

} // verus!
