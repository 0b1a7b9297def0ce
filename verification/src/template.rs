//! The template role that renders messages.

use vstd::prelude::*;

use crate::error::RuntimeFailure;

verus! {

/// The identity of the template capability.
pub const CAPABILITY_ID: &'static str = "lenso.notification-template@1";

#[derive(Debug, Clone, PartialEq, Eq)]
pub struct RenderRequestVariablesItem {
    pub name: String,
    pub value: String,
}

#[derive(Debug, Clone, PartialEq, Eq)]
pub struct RenderRequest {
    pub template_id: String,
    pub version: Option<String>,
    pub locale: String,
    pub variables: Vec<RenderRequestVariablesItem>,
}

#[derive(Debug, Clone, PartialEq, Eq)]
pub struct RenderResponse {
    pub template_id: String,
    pub version: String,
    pub requested_locale: String,
    pub resolved_locale: String,
    pub fallback_used: bool,
    pub renderer_identity: String,
    pub template_digest: String,
    pub content_digest: String,
    pub subject: String,
    pub text: String,
    pub html: String,
}

#[derive(Debug, Clone, Copy, PartialEq, Eq, Structural)]
pub enum RenderError {
    Conflict,
    IdempotencyConflict,
    InvalidRequest,
    MissingVariable,
    NotFound,
    PreconditionFailed,
    Unauthorized,
    UnexpectedVariable,
    UnsafeVariable,
    Unknown,
}

/// How an invocation of the template provider failed.
#[derive(Debug)]
pub enum RenderInvocationError {
    Domain(RenderError),
    Runtime(RuntimeFailure),
}

} // verus!
