//! Failures of the notification ledger and of its runtime boundary.

use vstd::prelude::*;

verus! {

/// Stable classification that maps failures onto capability errors without
/// leaking storage or payload details.
#[derive(Clone, Copy, Debug, Eq, PartialEq, Structural)]
pub enum ErrorCode {
    Validation,
    NotFound,
    Conflict,
    EvidenceOverflow,
    Internal,
}

/// One failure of the notification ledger.
#[derive(Debug)]
pub struct NotificationError {
    pub code: ErrorCode,
    pub message: String,
    pub source: Option<String>,
}

/// What is told of a failure: its code, its public text, and whether the
/// underlying failure is attached to it.
pub struct FailureView {
    pub code: ErrorCode,
    pub message: Seq<char>,
    pub caused: bool,
}

impl NotificationError {
    /// What is told of the failure.
    pub open spec fn told(self) -> FailureView {
        FailureView { code: self.code, message: self.text(), caused: self.cause() is Some }
    }

    /// The public text of the failure.
    pub open spec fn text(self) -> Seq<char> {
        self.message@
    }

    /// The description of the underlying failure, if one was attached.
    pub open spec fn cause(self) -> Option<Seq<char>> {
        crate::text::option_text(self.source)
    }

    /// Whether this is the failure `code` with the text `message` and no
    /// underlying failure.
    pub open spec fn is(self, code: ErrorCode, message: Seq<char>) -> bool {
        self.code == code && self.text() == message && self.cause() is None
    }

    pub fn new(code: ErrorCode, message: &str) -> (error: Self)
        ensures
            error.is(code, message@),
    {
        NotificationError { code, message: message.to_owned(), source: None }
    }

    /// Attaches the description of the underlying failure.
    pub fn with_source(self, source: &str) -> (error: Self)
        ensures
            error.code == self.code,
            error.text() == self.text(),
            error.cause() == Some(source@),
    {
        NotificationError {
            code: self.code,
            message: self.message,
            source: Some(source.to_owned()),
        }
    }

    pub fn message(&self) -> (message: &str)
        ensures
            message@ == self.text(),
    {
        self.message.as_str()
    }

    /// The description of the underlying failure, if one was attached.
    pub fn source(&self) -> (source: Option<&str>)
        ensures
            match source {
                Some(text) => self.cause() == Some(text@),
                None => self.cause() is None,
            },
    {
        match &self.source {
            Some(text) => Some(text.as_str()),
            None => None,
        }
    }
}

pub type NotificationResult<T> = Result<T, NotificationError>;

/// A failure of the runtime that carries an invocation, as opposed to a
/// domain answer of the invoked capability.
#[derive(Debug)]
pub enum RuntimeFailure {
    Unavailable { capability: String },
    UnknownOperation { capability: String, operation: String },
    AmbiguousBinding { capability: String, providers: usize },
    ProtocolViolation { capability: String },
    MissingPluginFactory { instance: String, package_id: String },
    UnavailableExecutionClass { instance_key: String, execution_class: String },
    InvalidResolvedPlan { detail: String },
    AdmissionClosed,
    ResourceExhausted { capability: String, operation: String },
    DeadlineExceeded { request_id: u64 },
    Cancelled { request_id: u64 },
    Internal { detail: String },
    PluginFailure { detail: String },
    PluginRestartExhausted { instance: String, attempts: usize },
}

impl RuntimeFailure {
    /// Whether this is a plugin failure with the given detail.
    pub open spec fn is_plugin_failure(self, detail: Seq<char>) -> bool {
        self matches RuntimeFailure::PluginFailure { detail: text } && text@ == detail
    }

    /// Whether this is a protocol violation of the given capability.
    pub open spec fn is_protocol_violation(self, capability: Seq<char>) -> bool {
        self matches RuntimeFailure::ProtocolViolation { capability: name } && name@ == capability
    }
}

/// A plugin failure with the given detail.
pub fn plugin_failure(detail: &str) -> (failure: RuntimeFailure)
    ensures
        failure.is_plugin_failure(detail@),
{
    RuntimeFailure::PluginFailure { detail: detail.to_owned() }
}

/// A protocol violation of the given capability.
pub fn protocol_violation(capability: &str) -> (failure: RuntimeFailure)
    ensures
        failure.is_protocol_violation(capability@),
{
    RuntimeFailure::ProtocolViolation { capability: capability.to_owned() }
}

/// The plugin failure that reports a ledger failure by its public text.
pub fn ledger_failure(error: &NotificationError) -> (failure: RuntimeFailure)
    ensures
        failure.is_plugin_failure(error.text()),
{
    plugin_failure(error.message())
}

/// Why an operation was not carried out: a domain answer or a runtime failure.
#[derive(Debug)]
pub enum PluginError<E> {
    Domain(E),
    Runtime(RuntimeFailure),
}

} // verus!
