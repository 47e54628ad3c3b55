//! The native executor: runs extension-less binary files directly as
//! processes, with no interpreter and no sandbox.

use vstd::prelude::*;
use super::error::ExecutionError;
use super::traits::{Executor, IsolationLevel, str_views};
use super::types::ExecuteRequest;
use crate::config::opt_view;
use crate::sys::{parent_of, path_parent};
use crate::text::concat3;

verus! {

/// Runs native binaries; it is routed under the empty extension.
pub struct NativeExecutor;

impl NativeExecutor {
    /// The executor.
    pub fn new() -> (r: Self) {
        NativeExecutor
    }
}

impl Default for NativeExecutor {
    fn default() -> (r: Self) {
        NativeExecutor
    }
}

impl Executor for NativeExecutor {
    open spec fn obeys_executor_spec(&self) -> bool {
        true
    }

    open spec fn spec_name(&self) -> Seq<char> {
        "native"@
    }

    open spec fn spec_supported_extensions(&self) -> Seq<Seq<char>> {
        seq![""@]
    }

    fn name(&self) -> (r: &str)
        ensures
            r@ == "native"@,
    {
        "native"
    }

    /// Only the empty extension: files that have none.
    fn supported_extensions(&self) -> (r: Vec<&str>)
        ensures
            str_views(r@) == seq![""@],
    {
        let r = vec![""];
        assert(str_views(r@) =~= seq![""@]);
        r
    }

    fn isolation_level(&self) -> (r: IsolationLevel)
        ensures
            r == IsolationLevel::NoIsolation,
    {
        IsolationLevel::NoIsolation
    }
}


/// The directory a process runs in: the one the request names, else the
/// directory of the script.
pub fn process_working_dir(request: &ExecuteRequest) -> (r: Option<String>)
    ensures
        opt_view(r) == match request.working_dir {
            Some(d) => Some(d@),
            None => parent_of(request.script.path@),
        },
{
    match &request.working_dir {
        Some(d) => Some(d.clone()),
        None => path_parent(request.script.path.as_str()),
    }
}

/// The error of a binary that could not be started: a missing file is
/// named as such; any other failure carries the system's message.
pub fn spawn_error(path: &str, not_found: bool, detail: &str) -> (e: ExecutionError)
    ensures
        e matches ExecutionError::RuntimeError { runtime, message } && runtime@ == "native"@ && message@ == if not_found {
            "binary not found: '"@ + path@ + "'"@
        } else {
            "failed to spawn '"@ + path@ + "': "@ + detail@
        },
{
    proof {
        reveal_strlit("binary not found: '");
        reveal_strlit("'");
        reveal_strlit("failed to spawn '");
        reveal_strlit("': ");
    }
    let message = if not_found {
        concat3("binary not found: '", path, "'")
    } else {
        let head = concat3("failed to spawn '", path, "': ");
        crate::text::concat(head.as_str(), detail)
    };
    ExecutionError::runtime("native", message.as_str())
}

} // verus!
