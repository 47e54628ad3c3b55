//! Where the server's logs go and how verbose they are.

use vstd::prelude::*;
use crate::error::ServerError;
use crate::text::{concat3, str_eq};

verus! {

/// Where logs are written.
#[derive(Debug)]
pub enum LogTarget {
    /// Standard output.
    Stdout,
    /// This file only.
    File(String),
    /// Standard output and this file.
    Both(String),
}

/// The level of detail of logs.
#[derive(Debug, Clone, Copy, PartialEq, Eq, Structural)]
pub enum LogLevel {
    Trace,
    Debug,
    Info,
    Warn,
    Error,
}

/// The message of a destination that is none of `stdout`, `file`, `both`.
pub open spec fn spec_invalid_destination_message(destination: Seq<char>) -> Seq<char> {
    "Invalid log destination: "@ + destination + ". Valid values are 'stdout', 'file', or 'both'"@
}

/// Where logs go for a destination name and an optional file: `stdout`;
/// `file` and `both` need the file; any other name is refused.
pub fn log_target(destination: &str, file_path: Option<&str>) -> (r: Result<LogTarget, ServerError>)
    ensures
        destination@ == "stdout"@ ==> r matches Ok(LogTarget::Stdout),
        destination@ == "file"@ ==> match file_path {
            Some(p) => r matches Ok(LogTarget::File(f)) && f@ == p@,
            None => r matches Err(ServerError::Operation(m)) && m@ == "Missing log file path"@,
        },
        destination@ == "both"@ ==> match file_path {
            Some(p) => r matches Ok(LogTarget::Both(f)) && f@ == p@,
            None => r matches Err(ServerError::Operation(m)) && m@ == "Missing log file path"@,
        },
        !(destination@ == "stdout"@ || destination@ == "file"@ || destination@ == "both"@) ==> (r matches Err(
            ServerError::Operation(m)) && m@ == spec_invalid_destination_message(destination@)),
{
    proof {
        reveal_strlit("stdout");
        reveal_strlit("file");
        reveal_strlit("both");
        assert("file"@ != "stdout"@) by { assert("file"@.len() != "stdout"@.len()); }
        assert("both"@ != "stdout"@) by { assert("both"@.len() != "stdout"@.len()); }
        assert("both"@ != "file"@) by { assert("both"@[0] != "file"@[0]); }
    }
    if str_eq(destination, "stdout") {
        Ok(LogTarget::Stdout)
    } else if str_eq(destination, "file") {
        match file_path {
            Some(p) => Ok(LogTarget::File(String::from_str(p))),
            None => Err(ServerError::Operation(String::from_str("Missing log file path"))),
        }
    } else if str_eq(destination, "both") {
        match file_path {
            Some(p) => Ok(LogTarget::Both(String::from_str(p))),
            None => Err(ServerError::Operation(String::from_str("Missing log file path"))),
        }
    } else {
        Err(ServerError::Operation(concat3(
            "Invalid log destination: ",
            destination,
            ". Valid values are 'stdout', 'file', or 'both'",
        )))
    }
}

/// The level named by the `LLAMA_LOG` setting: `trace`, `debug`, `info`,
/// `warn` or `error`; `info` when unset or anything else.
pub open spec fn spec_log_level(setting: Option<Seq<char>>) -> LogLevel {
    match setting {
        Some(s) => if s == "trace"@ {
            LogLevel::Trace
        } else if s == "debug"@ {
            LogLevel::Debug
        } else if s == "warn"@ {
            LogLevel::Warn
        } else if s == "error"@ {
            LogLevel::Error
        } else {
            LogLevel::Info
        },
        None => LogLevel::Info,
    }
}

/// The level named by the `LLAMA_LOG` setting.
pub fn log_level(setting: Option<&str>) -> (r: LogLevel)
    ensures
        r == spec_log_level(match setting {
            Some(s) => Some(s@),
            None => None,
        }),
{
    proof {
        reveal_strlit("trace");
        reveal_strlit("debug");
        reveal_strlit("warn");
        reveal_strlit("error");
    }
    match setting {
        Some(s) => if str_eq(s, "trace") {
            LogLevel::Trace
        } else if str_eq(s, "debug") {
            LogLevel::Debug
        } else if str_eq(s, "warn") {
            LogLevel::Warn
        } else if str_eq(s, "error") {
            LogLevel::Error
        } else {
            LogLevel::Info
        },
        None => LogLevel::Info,
    }
}

} // verus!
