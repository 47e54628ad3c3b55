//! The Wasmtime executor's decisions: its configuration, the arguments and
//! directory grants of a WebAssembly run, how a module file is compiled, and
//! what a run's outcome means. Compiling and running modules happens outside
//! the crate.

use vstd::prelude::*;
use std::time::Duration;
use super::error::ExecutionError;
use super::traits::{Executor, IsolationLevel, str_views};
use super::types::{ExecuteRequest, FilesystemPolicy, ScriptOutput};
use crate::text::{concat, views};

verus! {

/// Configuration of the Wasmtime executor.
#[derive(Debug, Clone)]
pub struct WasmtimeConfig {
    /// Whether the executor is used.
    pub enabled: bool,
    /// Keep compiled modules.
    pub cache_enabled: bool,
    /// Maximum linear memory in bytes.
    pub max_memory_bytes: u64,
    /// Interval of the timeout check, in milliseconds.
    pub epoch_tick_ms: u64,
    /// Limit instructions with fuel.
    pub fuel_enabled: bool,
    /// Fuel of one run (about one instruction each).
    pub fuel_amount: u64,
}

impl Default for WasmtimeConfig {
    /// Enabled, cached, 256 MiB, 10 ms ticks, no fuel limit (one billion
    /// units when enabled).
    fn default() -> (r: Self)
        ensures
            r.enabled,
            r.cache_enabled,
            r.max_memory_bytes == 256 * 1024 * 1024,
            r.epoch_tick_ms == 10,
            !r.fuel_enabled,
            r.fuel_amount == 1_000_000_000,
    {
        WasmtimeConfig {
            enabled: true,
            cache_enabled: true,
            max_memory_bytes: 268435456,
            epoch_tick_ms: 10,
            fuel_enabled: false,
            fuel_amount: 1000000000,
        }
    }
}

/// How a module file is compiled.
#[derive(Debug, Clone, Copy, PartialEq, Eq, Structural)]
pub enum ModuleKind {
    /// Text format: always a core module.
    CoreOnly,
    /// Binary: a component if it compiles as one, else a core module.
    ComponentOrCore,
}

/// What the run of a module ended with, as the runtime reports it.
#[derive(Debug, Clone, Copy, PartialEq, Eq, Structural)]
pub enum RunEnd {
    /// The entry point returned.
    Returned,
    /// A component's `run` reported failure.
    Failed,
    /// The module called `exit` with this code.
    Exited(i32),
    /// The run was interrupted at its deadline.
    Interrupted,
    /// Any other trap or error.
    Trapped,
}

/// A directory made visible to a module, and whether it may be written.
#[derive(Debug, Clone)]
pub struct Preopen {
    /// The host directory, also its name inside the module.
    pub path: String,
    /// Read-write (else read-only).
    pub writable: bool,
}

/// The preopened directories of a filesystem policy, in order.
pub open spec fn spec_preopens(policy: FilesystemPolicy) -> Seq<(Seq<char>, bool)> {
    match policy {
        FilesystemPolicy::NoAccess => Seq::empty(),
        FilesystemPolicy::ReadOnly(p) => views(p@).map_values(|s: Seq<char>| (s, false)),
        FilesystemPolicy::ReadWrite(p) => views(p@).map_values(|s: Seq<char>| (s, true)),
    }
}

/// The compile strategy of a module file by its lowercased extension.
pub fn module_kind(lower_extension: &str) -> (r: ModuleKind)
    ensures
        r == if lower_extension@ == "wat"@ { ModuleKind::CoreOnly } else { ModuleKind::ComponentOrCore },
{
    if crate::text::str_eq(lower_extension, "wat") {
        ModuleKind::CoreOnly
    } else {
        ModuleKind::ComponentOrCore
    }
}

/// The argument vector of a module: the script name, then its arguments.
pub fn wasi_args(request: &ExecuteRequest) -> (r: Vec<String>)
    ensures
        views(r@) == seq![request.script.name@] + views(request.args@),
{
    let mut out: Vec<String> = Vec::new();
    crate::text::push_string(&mut out, request.script.name.clone());
    let mut i: usize = 0;
    while i < request.args.len()
        invariant
            i <= request.args@.len(),
            views(out@) == seq![request.script.name@] + views(request.args@).take(i as int),
        decreases request.args@.len() - i,
    {
        crate::text::push_string(&mut out, request.args[i].clone());
        proof {
            assert(views(request.args@).take(i + 1) =~= views(request.args@).take(i as int).push(request.args@[i as int]@));
            assert(views(out@) =~= seq![request.script.name@] + views(request.args@).take(i + 1));
        }
        i = i + 1;
    }
    assert(views(request.args@).take(request.args@.len() as int) =~= views(request.args@));
    out
}

/// The views of preopens.
pub open spec fn preopen_views(v: Seq<Preopen>) -> Seq<(Seq<char>, bool)> {
    v.map_values(|p: Preopen| (p.path@, p.writable))
}

/// The directories to preopen for a policy.
pub fn preopens(policy: &FilesystemPolicy) -> (r: Vec<Preopen>)
    ensures
        preopen_views(r@) == spec_preopens(*policy),
{
    let (paths, writable) = match policy {
        FilesystemPolicy::NoAccess => {
            let r: Vec<Preopen> = Vec::new();
            assert(preopen_views(r@) =~= spec_preopens(*policy));
            return r;
        },
        FilesystemPolicy::ReadOnly(p) => (p, false),
        FilesystemPolicy::ReadWrite(p) => (p, true),
    };
    let mut out: Vec<Preopen> = Vec::new();
    let mut i: usize = 0;
    while i < paths.len()
        invariant
            i <= paths@.len(),
            preopen_views(out@) == views(paths@).take(i as int).map_values(|s: Seq<char>| (s, writable)),
        decreases paths@.len() - i,
    {
        let ghost before = out@;
        let entry = Preopen { path: paths[i].clone(), writable };
        out.push(entry);
        proof {
            assert(preopen_views(out@) =~= preopen_views(before).push((paths@[i as int]@, writable)));
            assert(views(paths@).take(i + 1) =~= views(paths@).take(i as int).push(paths@[i as int]@));
            assert(preopen_views(out@) =~= views(paths@).take(i + 1).map_values(|s: Seq<char>| (s, writable)));
        }
        i = i + 1;
    }
    assert(views(paths@).take(paths@.len() as int) =~= views(paths@));
    assert(preopen_views(out@) =~= spec_preopens(*policy));
    out
}

/// The output of a run by how it ended: exit code 0, 1 or the code passed to
/// `exit`; an interruption is a timeout with exit code -1; any other trap is
/// a runtime error `execution failed: ` and the runtime's message.
pub fn run_outcome(end: RunEnd, message: &str, duration: Duration) -> (r: Result<ScriptOutput, ExecutionError>)
    ensures
        match end {
            RunEnd::Returned => r matches Ok(o) && o.exit_code == 0 && !o.timed_out && o.stderr@.len() == 0
                && o.duration == duration,
            RunEnd::Failed => r matches Ok(o) && o.exit_code == 1 && !o.timed_out && o.stderr@.len() == 0
                && o.duration == duration,
            RunEnd::Exited(c) => r matches Ok(o) && o.exit_code == c && !o.timed_out && o.stderr@.len() == 0
                && o.duration == duration,
            RunEnd::Interrupted => r matches Ok(o) && o.exit_code == -1 && o.timed_out
                && o.stderr@ == "execution timed out"@ && o.duration == duration,
            RunEnd::Trapped => r matches Err(ExecutionError::RuntimeError { runtime, message: m })
                && runtime@ == "wasmtime"@ && m@ == "execution failed: "@ + message@,
        },
        r matches Ok(o) ==> o.stdout@.len() == 0,
{
    let code: i32 = match end {
        RunEnd::Returned => 0,
        RunEnd::Failed => 1,
        RunEnd::Exited(c) => c,
        RunEnd::Interrupted => {
            let mut o = ScriptOutput::default();
            o.exit_code = -1;
            o.duration = duration;
            o.timed_out = true;
            o.stderr = String::from_str("execution timed out");
            return Ok(o);
        },
        RunEnd::Trapped => {
            let m = concat("execution failed: ", message);
            return Err(ExecutionError::runtime("wasmtime", m.as_str()));
        },
    };
    let mut o = ScriptOutput::default();
    o.exit_code = code;
    o.duration = duration;
    Ok(o)
}

/// Runs WebAssembly modules and components; holds the configuration, while
/// the engine and module cache stay with the caller.
pub struct WasmtimeExecutor {
    config: WasmtimeConfig,
}

impl WasmtimeExecutor {
    /// An executor with this configuration.
    pub fn with_config(config: WasmtimeConfig) -> (r: Result<Self, ExecutionError>)
        ensures
            r matches Ok(e) && e.spec_config() == config,
    {
        Ok(WasmtimeExecutor { config })
    }

    /// The configuration.
    pub closed spec fn spec_config(&self) -> WasmtimeConfig {
        self.config
    }

    /// The configuration.
    pub fn config(&self) -> (r: &WasmtimeConfig)
        ensures
            *r == self.spec_config(),
    {
        &self.config
    }
}

impl Executor for WasmtimeExecutor {
    open spec fn obeys_executor_spec(&self) -> bool {
        true
    }

    open spec fn spec_name(&self) -> Seq<char> {
        "wasmtime"@
    }

    open spec fn spec_supported_extensions(&self) -> Seq<Seq<char>> {
        seq!["wasm"@, "wat"@]
    }

    fn name(&self) -> (r: &str)
        ensures
            r@ == "wasmtime"@,
    {
        "wasmtime"
    }

    fn supported_extensions(&self) -> (r: Vec<&str>)
        ensures
            str_views(r@) == seq!["wasm"@, "wat"@],
    {
        let r = vec!["wasm", "wat"];
        assert(str_views(r@) =~= seq!["wasm"@, "wat"@]);
        r
    }

    fn isolation_level(&self) -> (r: IsolationLevel)
        ensures
            r == IsolationLevel::Runtime,
    {
        IsolationLevel::Runtime
    }
}

} // verus!
