//! Errors of the gateway and the HTTP answer each one gets: status code,
//! message, error type, parameter and code, in the OpenAI error format.

use vstd::prelude::*;
use crate::text::{concat, concat3, spec_decimal, u64_to_decimal};

verus! {

/// An error of the gateway.
#[derive(Debug, Clone)]
pub enum ServerError {
    Operation(String),
    NotFoundServer(String),
    InvalidServerKind(String),
    FailedToLoadConfig(String),
    McpEmptyContent,
    McpOperation(String),
    MaxIterationsExceeded(u32),
    ToolCallRetryExhausted { tool_name: String, attempts: u32, message: String },
    InvalidXmlTag(String),
    PlanParseError(String),
    CyclicDependency,
    InvalidReference(String),
    EmptyPlan,
    SubtaskRetryExhausted { subtask_id: usize, attempts: u32, message: String },
    SubtaskTimeout { subtask_id: usize, timeout_secs: u64 },
    TimeBudgetExhausted { elapsed_secs: u64 },
}

/// The message of an error.
pub open spec fn spec_server_error_message(e: ServerError) -> Seq<char> {
    match e {
        ServerError::Operation(s) => s@,
        ServerError::NotFoundServer(k) => "Not found available server. Please register a(n) "@ + k@
            + " server via the `/admin/servers/register` endpoint."@,
        ServerError::InvalidServerKind(k) => "Invalid server kind: "@ + k@,
        ServerError::FailedToLoadConfig(s) => "Failed to load config: "@ + s@,
        ServerError::McpEmptyContent => "Mcp server returned empty content"@,
        ServerError::McpOperation(s) => "Mcp operation failed: "@ + s@,
        ServerError::MaxIterationsExceeded(n) => "React loop exceeded maximum iterations ("@ + spec_decimal(n as nat) + ")"@,
        ServerError::ToolCallRetryExhausted { tool_name, attempts, message } =>
            "Tool call '"@ + tool_name@ + "' failed after "@ + spec_decimal(attempts as nat) + " retries: "@ + message@,
        ServerError::InvalidXmlTag(t) => "Invalid XML tag format: "@ + t@,
        ServerError::PlanParseError(s) => "Failed to parse task plan: "@ + s@,
        ServerError::CyclicDependency => "Cyclic dependency detected in task plan"@,
        ServerError::InvalidReference(s) => "Invalid subtask reference: "@ + s@,
        ServerError::EmptyPlan => "Task plan is empty"@,
        ServerError::SubtaskRetryExhausted { subtask_id, attempts, message } =>
            "Subtask '"@ + spec_decimal(subtask_id as nat) + "' failed after "@ + spec_decimal(attempts as nat)
                + " retries: "@ + message@,
        ServerError::SubtaskTimeout { subtask_id, timeout_secs } =>
            "Subtask '"@ + spec_decimal(subtask_id as nat) + "' timeout after "@ + spec_decimal(timeout_secs as nat)
                + " seconds"@,
        ServerError::TimeBudgetExhausted { elapsed_secs } =>
            "Plan time budget exhausted after "@ + spec_decimal(elapsed_secs as nat) + " seconds"@,
    }
}

/// The HTTP answer of an error.
#[derive(Debug, Clone)]
pub struct ErrorResponseParts {
    /// HTTP status code.
    pub status: u16,
    /// The error message.
    pub message: String,
    /// The error type.
    pub error_type: String,
    /// The parameter at fault, if any.
    pub param: Option<String>,
    /// A machine-readable code.
    pub code: Option<String>,
}

/// Status, type, parameter and code of an error.
pub open spec fn spec_error_kind(e: ServerError) -> (u16, Seq<char>, Option<Seq<char>>, Seq<char>) {
    match e {
        ServerError::Operation(_) => (500, "internal_error"@, None, "operation_failed"@),
        ServerError::NotFoundServer(_) => (404, "not_found"@, Some("server_kind"@), "not_found_server"@),
        ServerError::InvalidServerKind(_) => (400, "invalid_request_error"@, Some("server_kind"@), "invalid_server_kind"@),
        ServerError::FailedToLoadConfig(_) => (400, "invalid_request_error"@, Some("config"@), "failed_to_load_config"@),
        ServerError::McpEmptyContent => (500, "internal_error"@, None, "mcp_empty"@),
        ServerError::McpOperation(_) => (500, "internal_error"@, None, "mcp_operation_failed"@),
        ServerError::MaxIterationsExceeded(_) => (500, "internal_error"@, Some("max_react_iterations"@), "max_iterations_exceeded"@),
        ServerError::ToolCallRetryExhausted { .. } => (500, "internal_error"@, Some("tool_call"@), "tool_call_retry_exhausted"@),
        ServerError::InvalidXmlTag(_) => (500, "internal_error"@, Some("xml_tag"@), "invalid_xml_tag"@),
        ServerError::PlanParseError(_) => (500, "internal_error"@, Some("task_plan"@), "plan_parse_error"@),
        ServerError::CyclicDependency => (500, "internal_error"@, Some("task_plan"@), "cyclic_dependency"@),
        ServerError::InvalidReference(_) => (500, "internal_error"@, Some("task_plan"@), "invalid_reference"@),
        ServerError::EmptyPlan => (400, "invalid_request_error"@, Some("task_plan"@), "empty_plan"@),
        ServerError::SubtaskRetryExhausted { .. } => (500, "internal_error"@, Some("subtask"@), "subtask_retry_exhausted"@),
        ServerError::SubtaskTimeout { .. } => (504, "timeout_error"@, Some("subtask_react_timeout_secs"@), "subtask_timeout"@),
        ServerError::TimeBudgetExhausted { .. } => (504, "timeout_error"@, Some("plan_timeout_secs"@), "time_budget_exhausted"@),
    }
}

fn some_str(s: &str) -> (r: Option<String>)
    ensures
        r matches Some(x) && x@ == s@,
{
    Some(String::from_str(s))
}

impl ServerError {
    /// The error message.
    pub fn to_string(&self) -> (r: String)
        ensures
            r@ == spec_server_error_message(*self),
    {
        match self {
            ServerError::Operation(s) => s.clone(),
            ServerError::NotFoundServer(k) => concat3("Not found available server. Please register a(n) ", k.as_str(),
                " server via the `/admin/servers/register` endpoint."),
            ServerError::InvalidServerKind(k) => concat("Invalid server kind: ", k.as_str()),
            ServerError::FailedToLoadConfig(s) => concat("Failed to load config: ", s.as_str()),
            ServerError::McpEmptyContent => String::from_str("Mcp server returned empty content"),
            ServerError::McpOperation(s) => concat("Mcp operation failed: ", s.as_str()),
            ServerError::MaxIterationsExceeded(n) => {
                let d = u64_to_decimal(*n as u64);
                concat3("React loop exceeded maximum iterations (", d.as_str(), ")")
            },
            ServerError::ToolCallRetryExhausted { tool_name, attempts, message } => {
                let d = u64_to_decimal(*attempts as u64);
                let a = concat3("Tool call '", tool_name.as_str(), "' failed after ");
                let b = concat3(a.as_str(), d.as_str(), " retries: ");
                concat(b.as_str(), message.as_str())
            },
            ServerError::InvalidXmlTag(t) => concat("Invalid XML tag format: ", t.as_str()),
            ServerError::PlanParseError(s) => concat("Failed to parse task plan: ", s.as_str()),
            ServerError::CyclicDependency => String::from_str("Cyclic dependency detected in task plan"),
            ServerError::InvalidReference(s) => concat("Invalid subtask reference: ", s.as_str()),
            ServerError::EmptyPlan => String::from_str("Task plan is empty"),
            ServerError::SubtaskRetryExhausted { subtask_id, attempts, message } => {
                let id = u64_to_decimal(*subtask_id as u64);
                let d = u64_to_decimal(*attempts as u64);
                let a = concat3("Subtask '", id.as_str(), "' failed after ");
                let b = concat3(a.as_str(), d.as_str(), " retries: ");
                concat(b.as_str(), message.as_str())
            },
            ServerError::SubtaskTimeout { subtask_id, timeout_secs } => {
                let id = u64_to_decimal(*subtask_id as u64);
                let t = u64_to_decimal(*timeout_secs);
                let a = concat3("Subtask '", id.as_str(), "' timeout after ");
                concat3(a.as_str(), t.as_str(), " seconds")
            },
            ServerError::TimeBudgetExhausted { elapsed_secs } => {
                let t = u64_to_decimal(*elapsed_secs);
                concat3("Plan time budget exhausted after ", t.as_str(), " seconds")
            },
        }
    }

    /// The HTTP answer of the error: its status, message, type, parameter
    /// and code.
    pub fn response_parts(&self) -> (r: ErrorResponseParts)
        ensures
            r.status == spec_error_kind(*self).0,
            r.message@ == spec_server_error_message(*self),
            r.error_type@ == spec_error_kind(*self).1,
            crate::config::opt_view(r.param) == spec_error_kind(*self).2,
            crate::config::opt_view(r.code) == Some(spec_error_kind(*self).3),
    {
        let message = self.to_string();
        let (status, error_type, param, code): (u16, &str, Option<String>, &str) = match self {
            ServerError::Operation(_) => (500, "internal_error", None, "operation_failed"),
            ServerError::NotFoundServer(_) => (404, "not_found", some_str("server_kind"), "not_found_server"),
            ServerError::InvalidServerKind(_) => (400, "invalid_request_error", some_str("server_kind"), "invalid_server_kind"),
            ServerError::FailedToLoadConfig(_) => (400, "invalid_request_error", some_str("config"), "failed_to_load_config"),
            ServerError::McpEmptyContent => (500, "internal_error", None, "mcp_empty"),
            ServerError::McpOperation(_) => (500, "internal_error", None, "mcp_operation_failed"),
            ServerError::MaxIterationsExceeded(_) => (500, "internal_error", some_str("max_react_iterations"), "max_iterations_exceeded"),
            ServerError::ToolCallRetryExhausted { .. } => (500, "internal_error", some_str("tool_call"), "tool_call_retry_exhausted"),
            ServerError::InvalidXmlTag(_) => (500, "internal_error", some_str("xml_tag"), "invalid_xml_tag"),
            ServerError::PlanParseError(_) => (500, "internal_error", some_str("task_plan"), "plan_parse_error"),
            ServerError::CyclicDependency => (500, "internal_error", some_str("task_plan"), "cyclic_dependency"),
            ServerError::InvalidReference(_) => (500, "internal_error", some_str("task_plan"), "invalid_reference"),
            ServerError::EmptyPlan => (400, "invalid_request_error", some_str("task_plan"), "empty_plan"),
            ServerError::SubtaskRetryExhausted { .. } => (500, "internal_error", some_str("subtask"), "subtask_retry_exhausted"),
            ServerError::SubtaskTimeout { .. } => (504, "timeout_error", some_str("subtask_react_timeout_secs"), "subtask_timeout"),
            ServerError::TimeBudgetExhausted { .. } => (504, "timeout_error", some_str("plan_timeout_secs"), "time_budget_exhausted"),
        };
        ErrorResponseParts {
            status,
            message,
            error_type: String::from_str(error_type),
            param,
            code: Some(String::from_str(code)),
        }
    }
}

} // verus!
