//! Tools over the admin capability: two reads and one mutation, whose failures
//! keep the meaning that the capability gives them.

use vstd::prelude::*;
use vstd::string::*;

use crate::admin;
use crate::domain::{delivery_status_named, DeliveryStatus};
use crate::json::{compact_json, json_compact, json_quoted, quote_text};
use crate::projection::{shown_status, status_shown};
use crate::text::same_text;

verus! {

pub const LIST_DELIVERIES_TOOL: &'static str = "notification_admin_list_deliveries";

pub const GET_DELIVERY_TOOL: &'static str = "notification_admin_get_delivery";

pub const RETRY_DELIVERY_TOOL: &'static str = "notification_admin_retry_delivery";

/// Whether calls of a tool may overlap.
#[derive(Debug, Clone, Copy, PartialEq, Eq, Structural)]
pub enum ToolExecutionClass {
    ParallelSafe,
    Exclusive,
}

#[derive(Debug, PartialEq, Eq)]
pub struct ToolDefinition {
    pub name: String,
    pub description: String,
    pub input_schema_json: String,
    pub execution: ToolExecutionClass,
}

impl ToolDefinition {
    /// Whether this is the given tool.
    pub open spec fn is(
        self,
        name: Seq<char>,
        description: Seq<char>,
        schema: Seq<char>,
        execution: ToolExecutionClass,
    ) -> bool {
        &&& self.name@ == name
        &&& self.description@ == description
        &&& self.input_schema_json@ == schema
        &&& self.execution == execution
    }
}

#[derive(Debug, PartialEq, Eq)]
pub struct ExecutionFailedPayload {
    pub reason_code: String,
    pub message: String,
    pub details_json: String,
}

/// Why a tool call failed.
#[derive(Debug, PartialEq, Eq)]
pub enum ExecuteError {
    InvalidArguments,
    PermissionDenied,
    NotFound,
    ExecutionFailed { payload: ExecutionFailedPayload },
}

/// What a tool call came back with.
#[derive(Debug, PartialEq, Eq)]
pub struct ExecuteResponse {
    pub content: String,
    pub metadata_json: String,
}

/// The tools by name.
#[derive(Debug, Clone, Copy, PartialEq, Eq, Structural)]
pub enum Tool {
    ListDeliveries,
    GetDelivery,
    RetryDelivery,
}

pub const LIST_DESCRIPTION: &'static str =
    "List bounded redacted Notification delivery records, optionally filtered by exact status.";

pub const GET_DESCRIPTION: &'static str =
    "Get one redacted Notification delivery with its bounded attempts, receipts, retry decisions, and revision.";

pub const RETRY_DESCRIPTION: &'static str =
    "Request one revision-checked, idempotent manual retry when the Notification provider still considers the delivery eligible.";

pub const REJECTED: &'static str =
    "Notification administration rejected the requested operation.";

fn tool(name: &str, description: &str, schema: String, execution: ToolExecutionClass) -> (defined:
    ToolDefinition)
    ensures
        defined.is(name@, description@, schema@, execution),
{
    ToolDefinition {
        name: name.to_owned(),
        description: description.to_owned(),
        input_schema_json: schema,
        execution,
    }
}

/// The catalog of tools, over the request schemas of the capability. There is
/// none where a schema is no JSON.
pub fn tool_definitions(list_schema: &str, get_schema: &str, retry_schema: &str) -> (tools: Option<
    Vec<ToolDefinition>,
>)
    ensures
        match (json_compact(list_schema@), json_compact(get_schema@), json_compact(retry_schema@)) {
            (Some(list), Some(get), Some(retry)) => tools matches Some(found) && {
                &&& found@.len() == 3
                &&& found@[0].is(
                    LIST_DELIVERIES_TOOL@,
                    LIST_DESCRIPTION@,
                    list,
                    ToolExecutionClass::ParallelSafe,
                )
                &&& found@[1].is(
                    GET_DELIVERY_TOOL@,
                    GET_DESCRIPTION@,
                    get,
                    ToolExecutionClass::ParallelSafe,
                )
                &&& found@[2].is(
                    RETRY_DELIVERY_TOOL@,
                    RETRY_DESCRIPTION@,
                    retry,
                    ToolExecutionClass::Exclusive,
                )
            },
            _ => tools is None,
        },
{
    match (compact_json(list_schema), compact_json(get_schema), compact_json(retry_schema)) {
        (Some(list), Some(get), Some(retry)) => Some(
            vec![
                tool(
                    LIST_DELIVERIES_TOOL,
                    LIST_DESCRIPTION,
                    list,
                    ToolExecutionClass::ParallelSafe,
                ),
                tool(GET_DELIVERY_TOOL, GET_DESCRIPTION, get, ToolExecutionClass::ParallelSafe),
                tool(
                    RETRY_DELIVERY_TOOL,
                    RETRY_DESCRIPTION,
                    retry,
                    ToolExecutionClass::Exclusive,
                ),
            ],
        ),
        _ => None,
    }
}

/// The tool of the given name.
pub open spec fn tool_named(name: Seq<char>) -> Option<Tool> {
    if name == LIST_DELIVERIES_TOOL@ {
        Some(Tool::ListDeliveries)
    } else if name == GET_DELIVERY_TOOL@ {
        Some(Tool::GetDelivery)
    } else if name == RETRY_DELIVERY_TOOL@ {
        Some(Tool::RetryDelivery)
    } else {
        None
    }
}

/// The tool to call; an unknown name is not found.
pub fn find_tool(name: &str) -> (r: Result<Tool, ExecuteError>)
    ensures
        match tool_named(name@) {
            Some(found) => r matches Ok(called) && called == found,
            None => r matches Err(error) && error is NotFound,
        },
{
    if same_text(name, LIST_DELIVERIES_TOOL) {
        Ok(Tool::ListDeliveries)
    } else if same_text(name, GET_DELIVERY_TOOL) {
        Ok(Tool::GetDelivery)
    } else if same_text(name, RETRY_DELIVERY_TOOL) {
        Ok(Tool::RetryDelivery)
    } else {
        Err(ExecuteError::NotFound)
    }
}

/// The request that decoded arguments of the list tool make; an unknown status
/// makes the arguments invalid.
pub fn list_arguments(cursor: Option<String>, limit: Option<i64>, status: Option<String>) -> (r:
    Result<admin::ListDeliveriesRequest, ExecuteError>)
    ensures
        match status {
            Some(name) => match delivery_status_named(name@) {
                Some(found) => r matches Ok(request) && request.cursor == cursor && request.limit
                    == limit && request.status == Some(shown_status(found)),
                None => r matches Err(error) && error is InvalidArguments,
            },
            None => r matches Ok(request) && request.cursor == cursor && request.limit == limit
                && request.status is None,
        },
{
    let status = match status {
        Some(name) => match DeliveryStatus::from_name(name.as_str()) {
            Some(found) => Some(status_shown(found)),
            None => {
                return Err(ExecuteError::InvalidArguments);
            },
        },
        None => None,
    };
    Ok(admin::ListDeliveriesRequest { cursor, limit, status })
}

/// A JSON object with one text.
pub open spec fn json_entry(name: Seq<char>, text: Seq<char>) -> Seq<char> {
    "{\""@ + name + "\":"@ + json_quoted(text) + "}"@
}

fn entry_text(name: &str, text: &str) -> (entry: String)
    ensures
        entry@ == json_entry(name@, text@),
{
    let mut entry = "{\"".to_owned();
    entry.append(name);
    entry.append("\":");
    entry.append(quote_text(text).as_str());
    entry.append("}");
    entry
}

/// The response with encoded content of the named tool.
pub fn success(tool_name: &str, content: String) -> (response: ExecuteResponse)
    ensures
        response.content == content,
        response.metadata_json@ == json_entry("tool"@, tool_name@),
{
    ExecuteResponse { content, metadata_json: entry_text("tool", tool_name) }
}

/// Whether `error` reports a rejection for the given reason.
pub open spec fn rejects(error: ExecuteError, reason_code: Seq<char>) -> bool {
    error matches ExecuteError::ExecutionFailed { payload } && payload.reason_code@ == reason_code
        && payload.message@ == REJECTED@ && payload.details_json@ == json_entry(
        "domain_error"@,
        reason_code,
    )
}

fn rejected(reason_code: &str) -> (error: ExecuteError)
    ensures
        rejects(error, reason_code@),
{
    ExecuteError::ExecutionFailed {
        payload: ExecutionFailedPayload {
            reason_code: reason_code.to_owned(),
            message: REJECTED.to_owned(),
            details_json: entry_text("domain_error", reason_code),
        },
    }
}

pub fn map_list_deliveries_error(error: &admin::ListDeliveriesError) -> (mapped: ExecuteError)
    ensures
        match *error {
            admin::ListDeliveriesError::InvalidFilter => mapped is InvalidArguments,
            admin::ListDeliveriesError::Unauthorized => mapped is PermissionDenied,
            admin::ListDeliveriesError::Unknown => rejects(mapped, "unknown_domain_error"@),
        },
{
    match error {
        admin::ListDeliveriesError::InvalidFilter => ExecuteError::InvalidArguments,
        admin::ListDeliveriesError::Unauthorized => ExecuteError::PermissionDenied,
        admin::ListDeliveriesError::Unknown => rejected("unknown_domain_error"),
    }
}

pub fn map_get_delivery_error(error: &admin::GetDeliveryError) -> (mapped: ExecuteError)
    ensures
        match *error {
            admin::GetDeliveryError::DeliveryNotFound => mapped is NotFound,
            admin::GetDeliveryError::EvidenceOverflow => rejects(mapped, "evidence_overflow"@),
            admin::GetDeliveryError::InvalidRequest => mapped is InvalidArguments,
            admin::GetDeliveryError::Unauthorized => mapped is PermissionDenied,
            admin::GetDeliveryError::Unknown => rejects(mapped, "unknown_domain_error"@),
        },
{
    match error {
        admin::GetDeliveryError::DeliveryNotFound => ExecuteError::NotFound,
        admin::GetDeliveryError::EvidenceOverflow => rejected("evidence_overflow"),
        admin::GetDeliveryError::InvalidRequest => ExecuteError::InvalidArguments,
        admin::GetDeliveryError::Unauthorized => ExecuteError::PermissionDenied,
        admin::GetDeliveryError::Unknown => rejected("unknown_domain_error"),
    }
}

pub fn map_retry_delivery_error(error: &admin::RetryDeliveryError) -> (mapped: ExecuteError)
    ensures
        match *error {
            admin::RetryDeliveryError::DeliveryNotFound => mapped is NotFound,
            admin::RetryDeliveryError::InvalidRequest => mapped is InvalidArguments,
            admin::RetryDeliveryError::Unauthorized => mapped is PermissionDenied,
            admin::RetryDeliveryError::IdempotencyConflict => rejects(
                mapped,
                "idempotency_conflict"@,
            ),
            admin::RetryDeliveryError::RetryNotAllowed => rejects(mapped, "retry_not_allowed"@),
            admin::RetryDeliveryError::StaleRevision => rejects(mapped, "stale_revision"@),
            admin::RetryDeliveryError::Unknown => rejects(mapped, "unknown_domain_error"@),
        },
{
    match error {
        admin::RetryDeliveryError::DeliveryNotFound => ExecuteError::NotFound,
        admin::RetryDeliveryError::InvalidRequest => ExecuteError::InvalidArguments,
        admin::RetryDeliveryError::Unauthorized => ExecuteError::PermissionDenied,
        admin::RetryDeliveryError::IdempotencyConflict => rejected("idempotency_conflict"),
        admin::RetryDeliveryError::RetryNotAllowed => rejected("retry_not_allowed"),
        admin::RetryDeliveryError::StaleRevision => rejected("stale_revision"),
        admin::RetryDeliveryError::Unknown => rejected("unknown_domain_error"),
    }
}

} // verus!
