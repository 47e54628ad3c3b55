//! Errors of script execution.

use vstd::prelude::*;
use std::time::Duration;
use crate::sys::{duration_debug, duration_text};
use crate::text::{concat, concat3, spec_decimal, spec_signed_decimal, spec_starts_with, u64_to_decimal, i64_to_decimal};

verus! {

#[verifier::external_type_specification]
#[verifier::external_body]
pub struct ExIoError(std::io::Error);

/// Why a script could not be run, or how its run failed.
#[derive(Debug)]
pub enum ExecutionError {
    /// The script file was not found.
    ScriptNotFound(String),
    /// No executor can run this kind of script.
    UnsupportedScript(String),
    /// No executor is registered for the extension.
    NoExecutorFound(String),
    /// The executor cannot be used now (name, reason).
    ExecutorUnavailable(String, String),
    /// The run exceeded its time.
    Timeout(Duration),
    /// The run exceeded its memory limit.
    MemoryLimitExceeded { used: u64, limit: u64 },
    /// The run produced more output than allowed.
    OutputSizeLimitExceeded { size: u64, limit: u64 },
    /// The script exited with a non-zero code.
    ExecutionFailed { code: i32, message: String },
    /// Access was refused.
    PermissionDenied(String),
    /// An error of the runtime (Docker, Deno, Wasmtime...).
    RuntimeError { runtime: String, message: String },
    /// The configuration is wrong.
    ConfigError(String),
    /// An I/O error.
    IoError(std::io::Error),
    /// An internal error.
    Internal(String),
}

/// The message of every error but an I/O error, whose text comes from the
/// operating system.
pub open spec fn spec_error_message(e: ExecutionError) -> Seq<char> {
    match e {
        ExecutionError::ScriptNotFound(p) => "script not found: "@ + p@,
        ExecutionError::UnsupportedScript(s) => "unsupported script type: "@ + s@,
        ExecutionError::NoExecutorFound(s) => "no executor registered for extension: "@ + s@,
        ExecutionError::ExecutorUnavailable(n, r) => "executor '"@ + n@ + "' is not available: "@ + r@,
        ExecutionError::Timeout(d) => "execution timed out after "@ + duration_text(d),
        ExecutionError::MemoryLimitExceeded { used, limit } =>
            "memory limit exceeded: "@ + spec_decimal(used as nat) + " bytes (limit: "@
                + spec_decimal(limit as nat) + " bytes)"@,
        ExecutionError::OutputSizeLimitExceeded { size, limit } =>
            "output size limit exceeded: "@ + spec_decimal(size as nat) + " bytes (limit: "@
                + spec_decimal(limit as nat) + " bytes)"@,
        ExecutionError::ExecutionFailed { code, message } =>
            "script exited with code "@ + spec_signed_decimal(code as int) + ": "@ + message@,
        ExecutionError::PermissionDenied(s) => "permission denied: "@ + s@,
        ExecutionError::RuntimeError { runtime, message } => runtime@ + " error: "@ + message@,
        ExecutionError::ConfigError(s) => "configuration error: "@ + s@,
        ExecutionError::IoError(_) => "I/O error: "@,
        ExecutionError::Internal(s) => "internal error: "@ + s@,
    }
}

/// The `Display` text of an I/O error (`ToString` on `std::io::Error`).
/// Nothing is claimed of it: the text of an operating-system error comes
/// from the system.
#[verifier::external_body]
fn io_error_text(e: &std::io::Error) -> (r: String)
{
    e.to_string()
}

impl ExecutionError {
    /// A runtime error of the named runtime.
    pub fn runtime(runtime: &str, message: &str) -> (r: Self)
        ensures
            r matches ExecutionError::RuntimeError { runtime: rt, message: m } && rt@ == runtime@
                && m@ == message@,
    {
        ExecutionError::RuntimeError {
            runtime: String::from_str(runtime),
            message: String::from_str(message),
        }
    }

    /// A failed run with this exit code.
    pub fn failed(code: i32, message: &str) -> (r: Self)
        ensures
            r matches ExecutionError::ExecutionFailed { code: c, message: m } && c == code
                && m@ == message@,
    {
        ExecutionError::ExecutionFailed { code, message: String::from_str(message) }
    }

    /// Whether trying again may help: a timeout, an unavailable executor or an
    /// I/O error.
    pub fn is_retryable(&self) -> (r: bool)
        ensures
            r == (self is Timeout || self is ExecutorUnavailable || self is IoError),
    {
        match self {
            ExecutionError::Timeout(_) => true,
            ExecutionError::ExecutorUnavailable(_, _) => true,
            ExecutionError::IoError(_) => true,
            _ => false,
        }
    }

    /// Whether a resource limit was exceeded: time, memory or output size.
    pub fn is_resource_limit(&self) -> (r: bool)
        ensures
            r == (self is Timeout || self is MemoryLimitExceeded || self is OutputSizeLimitExceeded),
    {
        match self {
            ExecutionError::Timeout(_) => true,
            ExecutionError::MemoryLimitExceeded { .. } => true,
            ExecutionError::OutputSizeLimitExceeded { .. } => true,
            _ => false,
        }
    }

    /// The error message.
    pub fn to_string(&self) -> (r: String)
        ensures
            self is IoError ==> spec_starts_with(r@, spec_error_message(*self)),
            !(self is IoError) ==> r@ == spec_error_message(*self),
    {
        match self {
            ExecutionError::ScriptNotFound(p) => concat("script not found: ", p.as_str()),
            ExecutionError::UnsupportedScript(s) => concat("unsupported script type: ", s.as_str()),
            ExecutionError::NoExecutorFound(s) => concat("no executor registered for extension: ", s.as_str()),
            ExecutionError::ExecutorUnavailable(n, why) => {
                let a = concat3("executor '", n.as_str(), "' is not available: ");
                concat(a.as_str(), why.as_str())
            },
            ExecutionError::Timeout(d) => {
                let t = duration_debug(d);
                concat("execution timed out after ", t.as_str())
            },
            ExecutionError::MemoryLimitExceeded { used, limit } => {
                let u = u64_to_decimal(*used);
                let l = u64_to_decimal(*limit);
                let a = concat3("memory limit exceeded: ", u.as_str(), " bytes (limit: ");
                concat3(a.as_str(), l.as_str(), " bytes)")
            },
            ExecutionError::OutputSizeLimitExceeded { size, limit } => {
                let u = u64_to_decimal(*size);
                let l = u64_to_decimal(*limit);
                let a = concat3("output size limit exceeded: ", u.as_str(), " bytes (limit: ");
                concat3(a.as_str(), l.as_str(), " bytes)")
            },
            ExecutionError::ExecutionFailed { code, message } => {
                let c = i64_to_decimal(*code as i64);
                let a = concat3("script exited with code ", c.as_str(), ": ");
                concat(a.as_str(), message.as_str())
            },
            ExecutionError::PermissionDenied(s) => concat("permission denied: ", s.as_str()),
            ExecutionError::RuntimeError { runtime, message } => {
                concat3(runtime.as_str(), " error: ", message.as_str())
            },
            ExecutionError::ConfigError(s) => concat("configuration error: ", s.as_str()),
            ExecutionError::IoError(e) => {
                let text = io_error_text(e);
                let r = concat("I/O error: ", text.as_str());
                proof {
                    reveal_strlit("I/O error: ");
                    assert(r@.subrange(0, "I/O error: "@.len() as int) =~= "I/O error: "@);
                }
                r
            },
            ExecutionError::Internal(s) => concat("internal error: ", s.as_str()),
        }
    }
}

} // verus!
