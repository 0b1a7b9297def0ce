//! What callers, workers, administrators and tools are answered.

use vstd::prelude::*;

use crate::admin;
use crate::agent_tools::{find_tool, list_arguments, map_get_delivery_error,
    map_list_deliveries_error, map_retry_delivery_error, success, tool_definitions, ExecuteError,
    ExecuteResponse, Tool, ToolDefinition};
use crate::answers::{bound_email_provider, claimed_work, intent_response,
    map_access_request_create_error, map_create_error, map_get_error, map_lifecycle_error,
    map_receipt_error, map_retry_error, not_prepared, secret_rejected};
use crate::delivery::{DispatchDueError, ObserveReceiptError};
use crate::email::DispatchRequest;
use crate::error::{ledger_failure, plugin_failure, protocol_violation, ErrorCode, NotificationError,
    PluginError, RuntimeFailure};
use crate::json::{json_compact, json_quoted};
use crate::laws::administering::{a_status_word, status_word};
use crate::laws::observing::last_revision;
use crate::public::TransactionalIntentReceipt;
use crate::repository::{request_manual_retry, ManualRetry, RetryTarget};
use crate::runtime::DueClaim;
use crate::time::UtcTime;
use crate::transactional::{CreateAccessRequestNotificationError,
    CreateAccessRequestNotificationRequest, CreateOrganizationInvitationError, IntentResponse,
    ObserveInvitationLifecycleError};

verus! {

/// Whether a failure of the ledger is answered as a failure of the runtime, by
/// its public text and nothing else.
pub open spec fn told_as_failure<E>(answer: PluginError<E>, error: NotificationError) -> bool {
    &&& answer is Runtime
    &&& answer->Runtime_0 is PluginFailure
    &&& answer->Runtime_0->PluginFailure_detail@ == error.message@
}

/// A faulty intent is answered as invalid and a reused key as a conflict;
/// nothing else is an answer of the domain.
pub proof fn law_failed_creation_is_answered(
    error: NotificationError,
    invitation: PluginError<CreateOrganizationInvitationError>,
    access_request: PluginError<CreateAccessRequestNotificationError>,
)
    requires
        call_ensures(map_create_error, (error,), invitation),
        call_ensures(map_access_request_create_error, (error,), access_request),
    ensures
        error.code is Validation <==> invitation == PluginError::Domain(
            CreateOrganizationInvitationError::InvalidIntent,
        ),
        error.code is Conflict <==> invitation == PluginError::Domain(
            CreateOrganizationInvitationError::IdempotencyConflict,
        ),
        error.code is Validation <==> access_request == PluginError::Domain(
            CreateAccessRequestNotificationError::InvalidIntent,
        ),
        error.code is Conflict <==> access_request == PluginError::Domain(
            CreateAccessRequestNotificationError::IdempotencyConflict,
        ),
        !(error.code is Validation) && !(error.code is Conflict) ==> told_as_failure(
            invitation,
            error,
        ) && told_as_failure(access_request, error),
{
}

/// A faulty observation is answered as invalid, a contradicting one as a
/// conflict, and a receipt for nothing as not found; nothing else is an answer
/// of the domain.
pub proof fn law_failed_observation_is_answered(
    error: NotificationError,
    lifecycle: PluginError<ObserveInvitationLifecycleError>,
    receipt: PluginError<ObserveReceiptError>,
)
    requires
        call_ensures(map_lifecycle_error, (error,), lifecycle),
        call_ensures(map_receipt_error, (error,), receipt),
    ensures
        error.code is Validation <==> lifecycle == PluginError::Domain(
            ObserveInvitationLifecycleError::InvalidObservation,
        ),
        error.code is Conflict <==> lifecycle == PluginError::Domain(
            ObserveInvitationLifecycleError::ObservationConflict,
        ),
        !(error.code is Validation) && !(error.code is Conflict) ==> told_as_failure(
            lifecycle,
            error,
        ),
        error.code is Validation <==> receipt == PluginError::Domain(
            ObserveReceiptError::InvalidReceipt,
        ),
        error.code is NotFound <==> receipt == PluginError::Domain(
            ObserveReceiptError::DeliveryNotFound,
        ),
        error.code is Conflict <==> receipt == PluginError::Domain(
            ObserveReceiptError::ReceiptConflict,
        ),
        error.code is EvidenceOverflow || error.code is Internal ==> told_as_failure(
            receipt,
            error,
        ),
{
}

/// Too much evidence is answered as such, and any other failed look as a
/// failure of the runtime.
pub proof fn law_failed_look_is_answered(
    error: NotificationError,
    answer: PluginError<admin::GetDeliveryError>,
)
    requires
        call_ensures(map_get_error, (error,), answer),
    ensures
        error.code is EvidenceOverflow <==> answer == PluginError::Domain(
            admin::GetDeliveryError::EvidenceOverflow,
        ),
        !(error.code is EvidenceOverflow) ==> told_as_failure(answer, error),
{
}

/// A refused retry is answered by the reason that it was refused for: a
/// delivery that is not there, a revision that is not the present one, and a
/// delivery that may not be retried. Only a conflict that is none of these is
/// one of keys.
pub proof fn law_refused_retry_is_answered_by_its_reason(
    delivery_id: &str,
    target: Option<RetryTarget>,
    expected: i64,
    key: &str,
    by: &str,
    now: UtcTime,
    error: NotificationError,
    answer: PluginError<admin::RetryDeliveryError>,
)
    requires
        call_ensures(
            request_manual_retry,
            (delivery_id, target, expected, key, by, now),
            Err::<ManualRetry, NotificationError>(error),
        ),
        call_ensures(map_retry_error, (error,), answer),
    ensures
        target is None <==> answer == PluginError::Domain(
            admin::RetryDeliveryError::DeliveryNotFound,
        ),
        (target is Some && target->Some_0.revision != expected) <==> answer == PluginError::Domain(
            admin::RetryDeliveryError::StaleRevision,
        ),
        (target is Some && target->Some_0.revision == expected && expected < last_revision())
            <==> answer == PluginError::Domain(admin::RetryDeliveryError::RetryNotAllowed),
        (target is Some && target->Some_0.revision == expected && expected >= last_revision())
            <==> answer == PluginError::Domain(admin::RetryDeliveryError::IdempotencyConflict),
{
    crate::answers::law_retry_refusals_are_told_apart(target, expected);
    reveal_strlit("Notification delivery was not found");
    reveal_strlit("Notification delivery revision is stale");
    reveal_strlit("Notification delivery revision exhausted the portable wire range");
    reveal_strlit("Notification delivery is not eligible for retry");
    assert("Notification delivery was not found"@.len() == 35);
    assert("Notification delivery revision is stale"@.len() == 39);
    assert("Notification delivery revision exhausted the portable wire range"@.len() == 64);
    assert("Notification delivery is not eligible for retry"@.len() == 47);
}

/// A failure of a retry that is neither missing nor a conflict is a failure of
/// the runtime.
pub proof fn law_failed_retry_is_told(
    error: NotificationError,
    answer: PluginError<admin::RetryDeliveryError>,
)
    requires
        call_ensures(map_retry_error, (error,), answer),
    ensures
        answer is Domain <==> error.code is NotFound || error.code is Conflict,
        answer is Runtime ==> told_as_failure(answer, error),
        error.code is NotFound <==> answer == PluginError::Domain(
            admin::RetryDeliveryError::DeliveryNotFound,
        ),
{
}

/// The caller of an accepted intent is told its intent, its delivery and
/// whether it was accepted before, and that it is queued.
pub proof fn law_accepted_intent_is_answered(
    receipt: TransactionalIntentReceipt,
    response: IntentResponse,
)
    requires
        call_ensures(intent_response, (receipt,), response),
    ensures
        response.intent_id@ == receipt.intent_id@,
        response.delivery_id@ == receipt.delivery_id@,
        response.idempotent_replay == receipt.idempotent_replay,
        response.status is Queued,
{
}

/// There is an email provider exactly where there is one.
pub proof fn law_one_email_provider_is_bound(
    instances: &Vec<String>,
    r: Result<String, RuntimeFailure>,
)
    requires
        call_ensures(bound_email_provider, (instances,), r),
    ensures
        r is Ok <==> instances@.len() == 1,
        r is Ok ==> r->Ok_0@ == instances@[0]@,
        r is Err ==> r->Err_0 is InvalidResolvedPlan && r->Err_0->InvalidResolvedPlan_detail@
            == "Notification requires exactly one lenso.email-dispatch@1 Provider"@,
{
}

/// A worker is given the claim, or told that nothing is due.
pub proof fn law_worker_is_given_the_claim(
    claim: Option<DueClaim>,
    r: Result<DueClaim, PluginError<DispatchDueError>>,
)
    requires
        call_ensures(claimed_work, (claim,), r),
    ensures
        claim is Some ==> r is Ok && r->Ok_0 == claim->Some_0,
        claim is None ==> r == Err::<DueClaim, _>(
            PluginError::Domain(DispatchDueError::NoDeliveryDue),
        ),
{
}

/// What is not there yet or was refused is told by its name, without a value.
pub proof fn law_failures_are_told_by_name(
    unprepared: RuntimeFailure,
    reference: &str,
    rejected: RuntimeFailure,
)
    requires
        call_ensures(not_prepared, (), unprepared),
        call_ensures(secret_rejected, (reference,), rejected),
    ensures
        unprepared is PluginFailure && unprepared->PluginFailure_detail@
            == "Notification Plugin is not prepared"@,
        rejected is PluginFailure && rejected->PluginFailure_detail@ == "secret `"@ + reference@
            + "` was rejected"@,
{
}

/// Whether a tool is defined as given, with the schema in compact form.
pub open spec fn defines(
    tool: ToolDefinition,
    name: Seq<char>,
    description: Seq<char>,
    schema: Seq<char>,
) -> bool {
    &&& tool.name@ == name
    &&& tool.description@ == description
    &&& json_compact(schema) == Some(tool.input_schema_json@)
}

/// There are three tools, each over the request schema of its own operation;
/// only the retry changes anything, and only its calls may not overlap.
pub proof fn law_three_tools_are_defined(
    list_schema: &str,
    get_schema: &str,
    retry_schema: &str,
    tools: Option<Vec<ToolDefinition>>,
)
    requires
        call_ensures(tool_definitions, (list_schema, get_schema, retry_schema), tools),
    ensures
        tools is Some <==> json_compact(list_schema@) is Some && json_compact(get_schema@) is Some
            && json_compact(retry_schema@) is Some,
        tools is Some ==> {
            let found = tools->Some_0@;
            &&& found.len() == 3
            &&& defines(
                found[0],
                "notification_admin_list_deliveries"@,
                "List bounded redacted Notification delivery records, optionally filtered by exact status."@,
                list_schema@,
            )
            &&& defines(
                found[1],
                "notification_admin_get_delivery"@,
                "Get one redacted Notification delivery with its bounded attempts, receipts, retry decisions, and revision."@,
                get_schema@,
            )
            &&& defines(
                found[2],
                "notification_admin_retry_delivery"@,
                "Request one revision-checked, idempotent manual retry when the Notification provider still considers the delivery eligible."@,
                retry_schema@,
            )
            &&& found[0].execution is ParallelSafe
            &&& found[1].execution is ParallelSafe
            &&& found[2].execution is Exclusive
        },
{
}

/// A tool is called by the name that it is defined by, and by no other.
pub proof fn law_tool_is_called_by_its_name(name: &str, r: Result<Tool, ExecuteError>)
    requires
        call_ensures(find_tool, (name,), r),
    ensures
        (r is Ok && r->Ok_0 is ListDeliveries) <==> name@ == "notification_admin_list_deliveries"@,
        (r is Ok && r->Ok_0 is GetDelivery) <==> name@ == "notification_admin_get_delivery"@,
        (r is Ok && r->Ok_0 is RetryDelivery) <==> name@ == "notification_admin_retry_delivery"@,
        r is Err ==> r->Err_0 is NotFound,
{
    reveal_strlit("notification_admin_list_deliveries");
    reveal_strlit("notification_admin_get_delivery");
    reveal_strlit("notification_admin_retry_delivery");
    assert("notification_admin_list_deliveries"@.len() == 34);
    assert("notification_admin_get_delivery"@.len() == 31);
    assert("notification_admin_retry_delivery"@.len() == 33);
}

/// The arguments of a list are passed on as they are, with the status of the
/// name that was given; another name makes them invalid.
pub proof fn law_list_arguments_are_passed_on(
    cursor: Option<String>,
    limit: Option<i64>,
    status: Option<String>,
    r: Result<admin::ListDeliveriesRequest, ExecuteError>,
)
    requires
        call_ensures(list_arguments, (cursor, limit, status), r),
    ensures
        r is Ok <==> status is None || a_status_word(status->Some_0@),
        r is Ok ==> {
            &&& r->Ok_0.cursor == cursor
            &&& r->Ok_0.limit == limit
            &&& r->Ok_0.status is Some <==> status is Some
            &&& status is Some ==> status_word(r->Ok_0.status->Some_0) == status->Some_0@
        },
        r is Err ==> r->Err_0 is InvalidArguments,
{
}

/// A tool answers with its content and under its own name.
pub proof fn law_tool_answers_under_its_name(
    name: &str,
    content: String,
    response: ExecuteResponse,
)
    requires
        call_ensures(success, (name, content), response),
    ensures
        response.content@ == content@,
        response.metadata_json@ == "{\""@ + "tool"@ + "\":"@ + json_quoted(name@) + "}"@,
{
}

/// Whether a tool call was rejected for the given reason, told alike in its
/// code and in its details.
pub open spec fn rejected_for(error: ExecuteError, reason: Seq<char>) -> bool {
    &&& error is ExecutionFailed
    &&& error->ExecutionFailed_payload.reason_code@ == reason
    &&& error->ExecutionFailed_payload.message@
        == "Notification administration rejected the requested operation."@
    &&& error->ExecutionFailed_payload.details_json@ == "{\""@ + "domain_error"@ + "\":"@
        + json_quoted(reason) + "}"@
}

/// Failures of the capability keep their meaning in a tool: an invalid request
/// has invalid arguments, a stranger has no permission, a missing delivery is
/// not found, and whatever else was rejected is told by its own reason.
pub proof fn law_tool_failures_keep_their_meaning(
    list: &admin::ListDeliveriesError,
    list_mapped: ExecuteError,
    get: &admin::GetDeliveryError,
    get_mapped: ExecuteError,
    retry: &admin::RetryDeliveryError,
    retry_mapped: ExecuteError,
)
    requires
        call_ensures(map_list_deliveries_error, (list,), list_mapped),
        call_ensures(map_get_delivery_error, (get,), get_mapped),
        call_ensures(map_retry_delivery_error, (retry,), retry_mapped),
    ensures
        list is InvalidFilter <==> list_mapped is InvalidArguments,
        list is Unauthorized <==> list_mapped is PermissionDenied,
        list is Unknown ==> rejected_for(list_mapped, "unknown_domain_error"@),
        get is InvalidRequest <==> get_mapped is InvalidArguments,
        get is Unauthorized <==> get_mapped is PermissionDenied,
        get is DeliveryNotFound <==> get_mapped is NotFound,
        get is EvidenceOverflow ==> rejected_for(get_mapped, "evidence_overflow"@),
        get is Unknown ==> rejected_for(get_mapped, "unknown_domain_error"@),
        retry is InvalidRequest <==> retry_mapped is InvalidArguments,
        retry is Unauthorized <==> retry_mapped is PermissionDenied,
        retry is DeliveryNotFound <==> retry_mapped is NotFound,
        retry is IdempotencyConflict ==> rejected_for(retry_mapped, "idempotency_conflict"@),
        retry is RetryNotAllowed ==> rejected_for(retry_mapped, "retry_not_allowed"@),
        retry is StaleRevision ==> rejected_for(retry_mapped, "stale_revision"@),
        retry is Unknown ==> rejected_for(retry_mapped, "unknown_domain_error"@),
{
}

/// Requests that differ in their recipient alone are described alike, and so
/// are dispatches that differ in their recipient and their message alone.
pub proof fn law_descriptions_hide_whom_and_what(
    a: &CreateAccessRequestNotificationRequest,
    a_text: String,
    b: &CreateAccessRequestNotificationRequest,
    b_text: String,
    c: &DispatchRequest,
    c_text: String,
    d: &DispatchRequest,
    d_text: String,
)
    requires
        call_ensures(CreateAccessRequestNotificationRequest::debug_text, (a,), a_text),
        call_ensures(CreateAccessRequestNotificationRequest::debug_text, (b,), b_text),
        *a == (CreateAccessRequestNotificationRequest { recipient: a.recipient, ..*b }),
        call_ensures(DispatchRequest::debug_text, (c,), c_text),
        call_ensures(DispatchRequest::debug_text, (d,), d_text),
        *c == (DispatchRequest { recipient: c.recipient, message: c.message, ..*d }),
    ensures
        a_text@ == b_text@,
        c_text@ == d_text@,
{
}

/// A dispatch is described by its own identifiers.
pub proof fn law_dispatch_is_described(request: &DispatchRequest, text: String)
    requires
        call_ensures(DispatchRequest::debug_text, (request,), text),
    ensures
        text@ == "DispatchRequest { delivery_id: \""@ + request.delivery_id@
            + "\", attempt_id: \""@ + request.attempt_id@ + "\", run_id: \""@ + request.run_id@
            + "\", idempotency_key: \""@ + request.idempotency_key@
            + "\", recipient: \"<redacted>\", message: \"<redacted>\", correlation_id: \""@
            + request.correlation_id@ + "\" }"@,
{
    reveal_strlit("\"");
    reveal_strlit("<redacted>");
    reveal_strlit(" }");
    reveal_strlit("\" }");
    reveal_strlit("DispatchRequest { delivery_id: ");
    reveal_strlit("DispatchRequest { delivery_id: \"");
    reveal_strlit(", attempt_id: ");
    reveal_strlit("\", attempt_id: \"");
    reveal_strlit(", run_id: ");
    reveal_strlit("\", run_id: \"");
    reveal_strlit(", idempotency_key: ");
    reveal_strlit("\", idempotency_key: \"");
    reveal_strlit(", recipient: ");
    reveal_strlit(", message: ");
    reveal_strlit(", correlation_id: ");
    reveal_strlit("\", recipient: \"<redacted>\", message: \"<redacted>\", correlation_id: \"");
    assert(text@ =~= "DispatchRequest { delivery_id: \""@ + request.delivery_id@
        + "\", attempt_id: \""@ + request.attempt_id@ + "\", run_id: \""@ + request.run_id@
        + "\", idempotency_key: \""@ + request.idempotency_key@
        + "\", recipient: \"<redacted>\", message: \"<redacted>\", correlation_id: \""@
        + request.correlation_id@ + "\" }"@);
}

/// A failure keeps its code and its text, and its cause where it has one; a
/// failure of the ledger reaches the runtime by its text.
pub proof fn law_failure_keeps_code_text_and_cause(
    code: ErrorCode,
    text: &str,
    error: NotificationError,
    cause: &str,
    caused: NotificationError,
    failure: RuntimeFailure,
    plugin: RuntimeFailure,
    protocol: RuntimeFailure,
)
    requires
        call_ensures(NotificationError::new, (code, text), error),
        call_ensures(NotificationError::with_source, (error, cause), caused),
        call_ensures(ledger_failure, (&caused,), failure),
        call_ensures(plugin_failure, (text,), plugin),
        call_ensures(protocol_violation, (text,), protocol),
    ensures
        error.code == code,
        error.message@ == text@,
        error.source is None,
        caused.code == code,
        caused.message@ == text@,
        caused.source is Some && caused.source->Some_0@ == cause@,
        failure is PluginFailure && failure->PluginFailure_detail@ == text@,
        plugin is PluginFailure && plugin->PluginFailure_detail@ == text@,
        protocol is ProtocolViolation && protocol->ProtocolViolation_capability@ == text@,
{
}

/// A conflict is one of revisions where its text says that the revision is
/// stale, else one that forbids the retry where it says that the delivery is
/// not eligible, and else one of keys.
pub proof fn law_conflicts_are_told_by_their_text(
    error: NotificationError,
    answer: PluginError<admin::RetryDeliveryError>,
)
    requires
        call_ensures(map_retry_error, (error,), answer),
        error.code is Conflict,
    ensures
        ({
            let stale = exists|at: int|
                0 <= at <= error.message@.len() - 17 && #[trigger] error.message@.subrange(
                    at,
                    at + 17,
                ) == "revision is stale"@;
            let barred = exists|at: int|
                0 <= at <= error.message@.len() - 12 && #[trigger] error.message@.subrange(
                    at,
                    at + 12,
                ) == "not eligible"@;
            &&& stale <==> answer == PluginError::Domain(admin::RetryDeliveryError::StaleRevision)
            &&& !stale && barred <==> answer == PluginError::Domain(
                admin::RetryDeliveryError::RetryNotAllowed,
            )
            &&& !stale && !barred <==> answer == PluginError::Domain(
                admin::RetryDeliveryError::IdempotencyConflict,
            )
        }),
{
    reveal_strlit("revision is stale");
    reveal_strlit("not eligible");
    assert("revision is stale"@.len() == 17);
    assert("not eligible"@.len() == 12);
    let text = error.message@;
    lemma_occurs(text, "revision is stale"@);
    lemma_occurs(text, "not eligible"@);
}

proof fn lemma_occurs(text: Seq<char>, part: Seq<char>)
    ensures
        crate::text::occurs(text, part) <==> exists|at: int|
            0 <= at <= text.len() - part.len() && #[trigger] text.subrange(at, at + part.len())
                == part,
{
    if crate::text::occurs(text, part) {
        let at = choose|at: int| #[trigger] crate::text::stands_at(text, part, at);
        assert(text.subrange(at, at + part.len()) == part);
    }
    if exists|at: int|
        0 <= at <= text.len() - part.len() && #[trigger] text.subrange(at, at + part.len())
            == part {
        let at = choose|at: int|
            0 <= at <= text.len() - part.len() && #[trigger] text.subrange(at, at + part.len())
                == part;
        assert(crate::text::stands_at(text, part, at));
    }
}

} // verus!
