//! The Deno executor: runs JavaScript and TypeScript with Deno, sandboxed by
//! Deno's own permission flags. This module builds the command line and the
//! environment of a run; starting the process happens outside the crate.

use vstd::prelude::*;
use super::error::ExecutionError;
use super::traits::{Executor, IsolationLevel};
use super::types::{ExecuteRequest, FilesystemPolicy};
use crate::ordered_map::{OrderedMap, value_views};
use crate::sys::{parent_of, path_parent};
use crate::text::{concat, concat3, join, push_string, spec_join, views};

verus! {

/// Deno binary used when none is configured.
pub const DEFAULT_DENO_BINARY: &'static str = "deno";

/// Configuration of the Deno executor.
#[derive(Debug, Clone)]
pub struct DenoConfig {
    /// Path of the Deno binary.
    pub deno_path: String,
    /// Allow network access to every script.
    pub allow_net: bool,
    /// Allow access to all environment variables.
    pub allow_env: bool,
    /// Allow high-resolution time measurement.
    pub allow_hrtime: bool,
    /// Run in unstable mode.
    pub unstable: bool,
    /// Extra V8 flags.
    pub v8_flags: Vec<String>,
    /// Cache compiled scripts.
    pub cache: bool,
    /// Cache directory (Deno's default when absent).
    pub cache_dir: Option<String>,
}

impl Default for DenoConfig {
    /// `deno` from the search path, no extra permissions, caching on.
    fn default() -> (r: Self)
        ensures
            r.deno_path@ == "deno"@,
            !r.allow_net,
            !r.allow_env,
            !r.allow_hrtime,
            !r.unstable,
            r.v8_flags@.len() == 0,
            r.cache,
            r.cache_dir is None,
    {
        DenoConfig {
            deno_path: String::from_str(DEFAULT_DENO_BINARY),
            allow_net: false,
            allow_env: false,
            allow_hrtime: false,
            unstable: false,
            v8_flags: Vec::new(),
            cache: true,
            cache_dir: None,
        }
    }
}

/// `--allow-read=` and `--allow-write=` flags for a filesystem policy: the
/// listed paths joined by commas, or the script's directory when the list is
/// empty.
pub open spec fn spec_fs_flags(policy: FilesystemPolicy, script_path: Seq<char>) -> Seq<Seq<char>> {
    match policy {
        FilesystemPolicy::NoAccess => Seq::empty(),
        FilesystemPolicy::ReadOnly(p) => if p@.len() == 0 {
            match parent_of(script_path) {
                Some(d) => seq!["--allow-read="@ + d],
                None => Seq::empty(),
            }
        } else {
            seq!["--allow-read="@ + spec_join(views(p@), ","@)]
        },
        FilesystemPolicy::ReadWrite(p) => if p@.len() == 0 {
            match parent_of(script_path) {
                Some(d) => seq!["--allow-read="@ + d, "--allow-write="@ + d],
                None => Seq::empty(),
            }
        } else {
            seq![
                "--allow-read="@ + spec_join(views(p@), ","@),
                "--allow-write="@ + spec_join(views(p@), ","@),
            ]
        },
    }
}

/// The permission flags of a run: filesystem, network, environment and
/// high-resolution time, in this order.
pub open spec fn spec_permission_flags(config: DenoConfig, request: ExecuteRequest) -> Seq<Seq<char>> {
    spec_fs_flags(request.limits.filesystem_access, request.script.path@)
        + (if request.limits.network_access || config.allow_net { seq!["--allow-net"@] } else { Seq::empty() })
        + (if config.allow_env {
            seq!["--allow-env"@]
        } else if request.env@.dom().len() > 0 {
            seq!["--allow-env="@ + spec_join(request.env.spec_keys(), ","@)]
        } else {
            Seq::empty()
        })
        + (if config.allow_hrtime { seq!["--allow-hrtime"@] } else { Seq::empty() })
}

/// `--v8-flags=` before each V8 flag.
pub open spec fn spec_v8_args(flags: Seq<Seq<char>>) -> Seq<Seq<char>> {
    flags.map_values(|f: Seq<char>| "--v8-flags="@ + f)
}

/// The whole argument list of `deno`: `run`, V8 flags, `--unstable`,
/// `--no-cache`, the permission flags, the script path and its arguments.
pub open spec fn spec_command_args(config: DenoConfig, request: ExecuteRequest) -> Seq<Seq<char>> {
    seq!["run"@]
        + spec_v8_args(views(config.v8_flags@))
        + (if config.unstable { seq!["--unstable"@] } else { Seq::empty() })
        + (if !config.cache { seq!["--no-cache"@] } else { Seq::empty() })
        + spec_permission_flags(config, request)
        + seq![request.script.path@]
        + views(request.args@)
}

/// The environment of a run: the request's variables, then `DENO_DIR` when a
/// cache directory is configured, then `NO_COLOR=1`.
pub open spec fn spec_env(config: DenoConfig, request: ExecuteRequest) -> Map<Seq<char>, Seq<char>> {
    let base = value_views(request.env@);
    let with_dir = match config.cache_dir {
        Some(d) => base.insert("DENO_DIR"@, d@),
        None => base,
    };
    with_dir.insert("NO_COLOR"@, "1"@)
}

/// Runs JavaScript and TypeScript scripts with Deno.
pub struct DenoExecutor {
    config: DenoConfig,
}

fn push_str(v: &mut Vec<String>, s: &str)
    ensures
        final(v)@.len() == old(v)@.len() + 1,
        views(final(v)@) == views(old(v)@).push(s@),
{
    v.push(String::from_str(s));
    proof {
        assert(views(final(v)@) =~= views(old(v)@).push(s@));
    }
}

fn append_all(v: &mut Vec<String>, w: &Vec<String>)
    ensures
        views(final(v)@) == views(old(v)@) + views(w@),
{
    let ghost start = views(v@);
    let mut i: usize = 0;
    while i < w.len()
        invariant
            i <= w@.len(),
            views(v@) == start + views(w@).take(i as int),
        decreases w@.len() - i,
    {
        push_string(v, w[i].clone());
        proof {
            assert(views(w@).take(i + 1) =~= views(w@).take(i as int).push(w@[i as int]@));
        }
        i = i + 1;
    }
    assert(views(w@).take(w@.len() as int) =~= views(w@));
}

impl DenoExecutor {
    /// An executor with the default configuration.
    pub fn new() -> (r: Result<Self, ExecutionError>)
        ensures
            r matches Ok(e) && e.spec_config().deno_path@ == "deno"@
                && !e.spec_config().allow_net && !e.spec_config().allow_env && !e.spec_config().allow_hrtime
                && !e.spec_config().unstable && e.spec_config().v8_flags@.len() == 0 && e.spec_config().cache
                && e.spec_config().cache_dir is None,
    {
        Self::with_config(DenoConfig::default())
    }

    /// An executor with this configuration.
    pub fn with_config(config: DenoConfig) -> (r: Result<Self, ExecutionError>)
        ensures
            r matches Ok(e) && e.spec_config() == config,
    {
        Ok(DenoExecutor { config })
    }

    /// The error of a Deno process that could not be started: a missing
    /// binary is named with its configured path; any other failure carries
    /// the system's message.
    pub fn spawn_error(&self, not_found: bool, detail: &str) -> (e: ExecutionError)
        ensures
            e matches ExecutionError::RuntimeError { runtime, message } && runtime@ == "deno"@ && message@ == if not_found {
                "Deno binary not found at '"@ + self.spec_config().deno_path@
                    + "'. Please install Deno or configure the correct path."@
            } else {
                "failed to spawn Deno process: "@ + detail@
            },
    {
        let message = if not_found {
            concat3("Deno binary not found at '", self.config.deno_path.as_str(),
                "'. Please install Deno or configure the correct path.")
        } else {
            concat("failed to spawn Deno process: ", detail)
        };
        ExecutionError::runtime("deno", message.as_str())
    }

    /// The error of a health check whose `deno --version` could not run:
    /// a missing binary is named with its path; any other failure carries
    /// the system's message.
    pub fn health_check_error(&self, not_found: bool, detail: &str) -> (e: ExecutionError)
        ensures
            e matches ExecutionError::RuntimeError { runtime, message } && runtime@ == "deno"@ && message@ == if not_found {
                "Deno binary not found at '"@ + self.spec_config().deno_path@ + "'"@
            } else {
                "failed to check Deno version: "@ + detail@
            },
    {
        let message = if not_found {
            concat3("Deno binary not found at '", self.config.deno_path.as_str(), "'")
        } else {
            concat("failed to check Deno version: ", detail)
        };
        ExecutionError::runtime("deno", message.as_str())
    }

    /// The error of a `deno --version` that ran and failed, with its error
    /// output.
    pub fn version_check_error(stderr: &str) -> (e: ExecutionError)
        ensures
            e matches ExecutionError::RuntimeError { runtime, message } && runtime@ == "deno"@
                && message@ == "Deno version check failed: "@ + stderr@,
    {
        let message = concat("Deno version check failed: ", stderr);
        ExecutionError::runtime("deno", message.as_str())
    }

    /// The configuration.
    pub closed spec fn spec_config(&self) -> DenoConfig {
        self.config
    }

    /// The configuration.
    pub fn config(&self) -> (r: &DenoConfig)
        ensures
            *r == self.spec_config(),
    {
        &self.config
    }

    /// The permission flags for `request`.
    pub fn build_permission_flags(&self, request: &ExecuteRequest) -> (r: Vec<String>)
        ensures
            views(r@) == spec_permission_flags(self.spec_config(), *request),
    {
        let mut flags: Vec<String> = Vec::new();
        proof {
            reveal_strlit(",");
        }
        match &request.limits.filesystem_access {
            FilesystemPolicy::NoAccess => {},
            FilesystemPolicy::ReadOnly(paths) => {
                if paths.len() == 0 {
                    if let Some(parent) = path_parent(request.script.path.as_str()) {
                        push_string(&mut flags, concat("--allow-read=", parent.as_str()));
                    }
                } else {
                    let joined = join(paths, ",");
                    push_string(&mut flags, concat("--allow-read=", joined.as_str()));
                }
            },
            FilesystemPolicy::ReadWrite(paths) => {
                if paths.len() == 0 {
                    if let Some(parent) = path_parent(request.script.path.as_str()) {
                        push_string(&mut flags, concat("--allow-read=", parent.as_str()));
                        push_string(&mut flags, concat("--allow-write=", parent.as_str()));
                    }
                } else {
                    let joined = join(paths, ",");
                    push_string(&mut flags, concat("--allow-read=", joined.as_str()));
                    push_string(&mut flags, concat("--allow-write=", joined.as_str()));
                }
            },
        }
        let ghost fs = views(flags@);
        assert(fs =~= spec_fs_flags(request.limits.filesystem_access, request.script.path@));
        if request.limits.network_access || self.config.allow_net {
            push_str(&mut flags, "--allow-net");
        }
        let ghost net = views(flags@);
        if self.config.allow_env {
            push_str(&mut flags, "--allow-env");
        } else if !request.env.is_empty() {
            let keys = request.env.keys();
            let joined = join(&keys, ",");
            push_string(&mut flags, concat("--allow-env=", joined.as_str()));
        }
        let ghost env = views(flags@);
        if self.config.allow_hrtime {
            push_str(&mut flags, "--allow-hrtime");
        }
        assert(views(flags@) =~= spec_permission_flags(self.config, *request));
        flags
    }

    /// The argument list of `deno` for `request`.
    pub fn build_command_args(&self, request: &ExecuteRequest) -> (r: Vec<String>)
        ensures
            views(r@) == spec_command_args(self.spec_config(), *request),
    {
        let mut args: Vec<String> = Vec::new();
        push_str(&mut args, "run");
        let ghost fl = views(self.config.v8_flags@);
        let mut i: usize = 0;
        while i < self.config.v8_flags.len()
            invariant
                i <= self.config.v8_flags@.len(),
                fl == views(self.config.v8_flags@),
                views(args@) == seq!["run"@] + spec_v8_args(fl.take(i as int)),
            decreases self.config.v8_flags@.len() - i,
        {
            let a = concat("--v8-flags=", self.config.v8_flags[i].as_str());
            push_string(&mut args, a);
            proof {
                assert(spec_v8_args(fl.take(i + 1)) =~= spec_v8_args(fl.take(i as int)).push("--v8-flags="@ + fl[i as int]));
                assert(views(args@) =~= seq!["run"@] + spec_v8_args(fl.take(i + 1)));
            }
            i = i + 1;
        }
        assert(fl.take(fl.len() as int) =~= fl);
        if self.config.unstable {
            push_str(&mut args, "--unstable");
        }
        if !self.config.cache {
            push_str(&mut args, "--no-cache");
        }
        let flags = self.build_permission_flags(request);
        append_all(&mut args, &flags);
        push_str(&mut args, request.script.path.as_str());
        append_all(&mut args, &request.args);
        assert(views(args@) =~= spec_command_args(self.config, *request));
        args
    }

    /// The environment variables of a run of `request`.
    pub fn build_env(&self, request: &ExecuteRequest) -> (r: OrderedMap<String>)
        ensures
            value_views(r@) == spec_env(self.spec_config(), *request),
    {
        let mut env = request.env.clone();
        proof {
            assert(value_views(env@) =~= value_views(request.env@));
        }
        if let Some(dir) = &self.config.cache_dir {
            env.insert(String::from_str("DENO_DIR"), dir.clone());
        }
        env.insert(String::from_str("NO_COLOR"), String::from_str("1"));
        assert(value_views(env@) =~= spec_env(self.config, *request));
        env
    }
}

impl Executor for DenoExecutor {
    open spec fn obeys_executor_spec(&self) -> bool {
        true
    }

    open spec fn spec_name(&self) -> Seq<char> {
        "deno"@
    }

    open spec fn spec_supported_extensions(&self) -> Seq<Seq<char>> {
        seq!["js"@, "ts"@, "mjs"@, "mts"@, "jsx"@, "tsx"@]
    }

    fn name(&self) -> (r: &str)
        ensures
            r@ == "deno"@,
    {
        "deno"
    }

    fn supported_extensions(&self) -> (r: Vec<&str>)
        ensures
            super::traits::str_views(r@) == seq!["js"@, "ts"@, "mjs"@, "mts"@, "jsx"@, "tsx"@],
    {
        let r = vec!["js", "ts", "mjs", "mts", "jsx", "tsx"];
        assert(super::traits::str_views(r@) =~= seq!["js"@, "ts"@, "mjs"@, "mts"@, "jsx"@, "tsx"@]);
        r
    }

    fn isolation_level(&self) -> (r: IsolationLevel)
        ensures
            r == IsolationLevel::Runtime,
    {
        IsolationLevel::Runtime
    }
}

} // verus!
