//! Requests, outputs, limits and filesystem policies of script execution.

use vstd::prelude::*;
use std::time::Duration;
use crate::ordered_map::OrderedMap;
use crate::sys::{duration_of_secs, secs};

verus! {

/// A script file that a skill ships.
#[derive(Debug)]
pub struct ScriptInfo {
    /// File name of the script.
    pub name: String,
    /// Path of the script file.
    pub path: String,
    /// Whether the file is marked executable.
    pub executable: bool,
}

impl Clone for ScriptInfo {
    fn clone(&self) -> (r: Self)
        ensures
            r == *self,
    {
        ScriptInfo { name: self.name.clone(), path: self.path.clone(), executable: self.executable }
    }
}

/// Maximum memory by default: 256 MiB.
pub const DEFAULT_MAX_MEMORY_BYTES: u64 = 268435456;
/// Maximum run time by default, in seconds.
pub const DEFAULT_TIMEOUT_SECS: u64 = 30;
/// Maximum output by default: 1 MiB.
pub const DEFAULT_MAX_OUTPUT_BYTES: u64 = 1048576;

/// Which parts of the filesystem a script may touch.
#[derive(Debug, PartialEq, Eq)]
pub enum FilesystemPolicy {
    /// No filesystem access.
    NoAccess,
    /// Read-only access to the listed paths.
    ReadOnly(Vec<String>),
    /// Read-write access to the listed paths.
    ReadWrite(Vec<String>),
}

impl FilesystemPolicy {
    /// Whether any filesystem access is allowed.
    pub fn allows_access(&self) -> (r: bool)
        ensures
            r == !(self is NoAccess),
    {
        match self {
            FilesystemPolicy::NoAccess => false,
            _ => true,
        }
    }

    /// Whether write access is allowed.
    pub fn allows_write(&self) -> (r: bool)
        ensures
            r == (self is ReadWrite),
    {
        match self {
            FilesystemPolicy::ReadWrite(_) => true,
            _ => false,
        }
    }

    /// The allowed paths (none when there is no access).
    pub fn allowed_paths(&self) -> (r: &[String])
        ensures
            match self {
                FilesystemPolicy::NoAccess => r@.len() == 0,
                FilesystemPolicy::ReadOnly(p) => r@ == p@,
                FilesystemPolicy::ReadWrite(p) => r@ == p@,
            },
    {
        match self {
            FilesystemPolicy::NoAccess => &[],
            FilesystemPolicy::ReadOnly(paths) => paths.as_slice(),
            FilesystemPolicy::ReadWrite(paths) => paths.as_slice(),
        }
    }
}

/// Two policies of the same kind over the same paths.
pub open spec fn same_policy(a: FilesystemPolicy, b: FilesystemPolicy) -> bool {
    match (a, b) {
        (FilesystemPolicy::NoAccess, FilesystemPolicy::NoAccess) => true,
        (FilesystemPolicy::ReadOnly(x), FilesystemPolicy::ReadOnly(y)) => x@ == y@,
        (FilesystemPolicy::ReadWrite(x), FilesystemPolicy::ReadWrite(y)) => x@ == y@,
        _ => false,
    }
}

impl Clone for FilesystemPolicy {
    fn clone(&self) -> (r: Self)
        ensures
            same_policy(*self, r),
    {
        match self {
            FilesystemPolicy::NoAccess => FilesystemPolicy::NoAccess,
            FilesystemPolicy::ReadOnly(p) => {
                let q = p.clone();
                assert(q@ =~= p@);
                FilesystemPolicy::ReadOnly(q)
            },
            FilesystemPolicy::ReadWrite(p) => {
                let q = p.clone();
                assert(q@ =~= p@);
                FilesystemPolicy::ReadWrite(q)
            },
        }
    }
}

impl Default for FilesystemPolicy {
    fn default() -> (r: Self)
        ensures
            r is NoAccess,
    {
        FilesystemPolicy::NoAccess
    }
}

/// Limits on the resources that one script run may use.
#[derive(Debug)]
pub struct ResourceLimits {
    /// Maximum memory in bytes.
    pub max_memory_bytes: u64,
    /// Maximum run time.
    pub timeout: Duration,
    /// Maximum output size in bytes.
    pub max_output_bytes: u64,
    /// Whether network access is allowed.
    pub network_access: bool,
    /// Filesystem access policy.
    pub filesystem_access: FilesystemPolicy,
}

/// Two limit sets that agree on every field.
pub open spec fn same_limits(a: ResourceLimits, b: ResourceLimits) -> bool {
    &&& a.max_memory_bytes == b.max_memory_bytes
    &&& a.timeout == b.timeout
    &&& a.max_output_bytes == b.max_output_bytes
    &&& a.network_access == b.network_access
    &&& same_policy(a.filesystem_access, b.filesystem_access)
}

impl Clone for ResourceLimits {
    fn clone(&self) -> (r: Self)
        ensures
            same_limits(*self, r),
    {
        ResourceLimits {
            max_memory_bytes: self.max_memory_bytes,
            timeout: self.timeout.clone(),
            max_output_bytes: self.max_output_bytes,
            network_access: self.network_access,
            filesystem_access: self.filesystem_access.clone(),
        }
    }
}

impl Default for ResourceLimits {
    /// 256 MiB, 30 s, 1 MiB of output, no network, no filesystem.
    fn default() -> (r: Self)
        ensures
            r.max_memory_bytes == 256 * 1024 * 1024,
            r.timeout == duration_of_secs(30),
            r.max_output_bytes == 1024 * 1024,
            !r.network_access,
            r.filesystem_access is NoAccess,
    {
        ResourceLimits {
            max_memory_bytes: DEFAULT_MAX_MEMORY_BYTES,
            timeout: secs(DEFAULT_TIMEOUT_SECS),
            max_output_bytes: DEFAULT_MAX_OUTPUT_BYTES,
            network_access: false,
            filesystem_access: FilesystemPolicy::NoAccess,
        }
    }
}

impl ResourceLimits {
    /// Limits for untrusted scripts: 64 MiB, 10 s, 256 KiB, no network or files.
    pub fn strict() -> (r: Self)
        ensures
            r.max_memory_bytes == 64 * 1024 * 1024,
            r.timeout == duration_of_secs(10),
            r.max_output_bytes == 256 * 1024,
            !r.network_access,
            r.filesystem_access is NoAccess,
    {
        ResourceLimits {
            max_memory_bytes: 67108864,
            timeout: secs(10),
            max_output_bytes: 262144,
            network_access: false,
            filesystem_access: FilesystemPolicy::NoAccess,
        }
    }

    /// Limits for trusted scripts: 1 GiB, 5 min, 10 MiB, network, read-write.
    pub fn permissive() -> (r: Self)
        ensures
            r.max_memory_bytes == 1024 * 1024 * 1024,
            r.timeout == duration_of_secs(300),
            r.max_output_bytes == 10 * 1024 * 1024,
            r.network_access,
            r.filesystem_access matches FilesystemPolicy::ReadWrite(p) && p@.len() == 0,
    {
        ResourceLimits {
            max_memory_bytes: 1073741824,
            timeout: secs(300),
            max_output_bytes: 10485760,
            network_access: true,
            filesystem_access: FilesystemPolicy::ReadWrite(Vec::new()),
        }
    }
}

/// A request to run one script.
#[derive(Debug, Clone)]
pub struct ExecuteRequest {
    /// The script to run.
    pub script: ScriptInfo,
    /// Command-line arguments.
    pub args: Vec<String>,
    /// Environment variables.
    pub env: OrderedMap<String>,
    /// Resource limits.
    pub limits: ResourceLimits,
    /// Working directory (the script's directory when absent).
    pub working_dir: Option<String>,
    /// Standard input.
    pub stdin: Option<String>,
}

impl ExecuteRequest {
    /// A request for `script` with no arguments or environment and default limits.
    pub fn new(script: ScriptInfo) -> (r: Self)
        ensures
            r.script == script,
            r.args@.len() == 0,
            r.env@ == Map::<Seq<char>, String>::empty(),
            r.limits.max_memory_bytes == 256 * 1024 * 1024,
            r.limits.timeout == duration_of_secs(30),
            r.limits.max_output_bytes == 1024 * 1024,
            !r.limits.network_access,
            r.limits.filesystem_access is NoAccess,
            r.working_dir is None,
            r.stdin is None,
    {
        ExecuteRequest {
            script,
            args: Vec::new(),
            env: OrderedMap::new(),
            limits: ResourceLimits::default(),
            working_dir: None,
            stdin: None,
        }
    }

    /// The request with these arguments.
    pub fn with_args(self, args: Vec<String>) -> (r: Self)
        ensures
            r == (ExecuteRequest { args, ..self }),
    {
        ExecuteRequest { args, ..self }
    }

    /// The request with these environment variables.
    pub fn with_env(self, env: OrderedMap<String>) -> (r: Self)
        ensures
            r == (ExecuteRequest { env, ..self }),
    {
        ExecuteRequest { env, ..self }
    }

    /// The request with these limits.
    pub fn with_limits(self, limits: ResourceLimits) -> (r: Self)
        ensures
            r == (ExecuteRequest { limits, ..self }),
    {
        ExecuteRequest { limits, ..self }
    }

    /// The request with this working directory.
    pub fn with_working_dir(self, dir: String) -> (r: Self)
        ensures
            r == (ExecuteRequest { working_dir: Some(dir), ..self }),
    {
        ExecuteRequest { working_dir: Some(dir), ..self }
    }

    /// The request with this standard input.
    pub fn with_stdin(self, stdin: String) -> (r: Self)
        ensures
            r == (ExecuteRequest { stdin: Some(stdin), ..self }),
    {
        ExecuteRequest { stdin: Some(stdin), ..self }
    }
}

/// Resource usage of one run.
#[derive(Debug, Clone)]
pub struct ResourceUsage {
    /// Peak memory in bytes.
    pub peak_memory_bytes: u64,
    /// CPU time in milliseconds.
    pub cpu_time_ms: u64,
}

impl Default for ResourceUsage {
    fn default() -> (r: Self)
        ensures
            r.peak_memory_bytes == 0,
            r.cpu_time_ms == 0,
    {
        ResourceUsage { peak_memory_bytes: 0, cpu_time_ms: 0 }
    }
}

/// What one script run produced.
#[derive(Debug, Clone)]
pub struct ScriptOutput {
    /// Standard output.
    pub stdout: String,
    /// Standard error.
    pub stderr: String,
    /// Exit code (0 is success).
    pub exit_code: i32,
    /// How long the run took.
    pub duration: Duration,
    /// Resource usage.
    pub resource_usage: ResourceUsage,
    /// Whether the run was stopped for exceeding its time.
    pub timed_out: bool,
}

impl Default for ScriptOutput {
    fn default() -> (r: Self)
        ensures
            r.stdout@.len() == 0,
            r.stderr@.len() == 0,
            r.exit_code == 0,
            r.duration == duration_of_secs(0),
            r.resource_usage.peak_memory_bytes == 0,
            r.resource_usage.cpu_time_ms == 0,
            !r.timed_out,
    {
        ScriptOutput {
            stdout: String::new(),
            stderr: String::new(),
            exit_code: 0,
            duration: secs(0),
            resource_usage: ResourceUsage::default(),
            timed_out: false,
        }
    }
}

/// Standard output and standard error joined by a newline, leaving out an
/// empty one.
pub open spec fn spec_combined_output(stdout: Seq<char>, stderr: Seq<char>) -> Seq<char> {
    if stderr.len() == 0 {
        stdout
    } else if stdout.len() == 0 {
        stderr
    } else {
        stdout + seq!['\n'] + stderr
    }
}

impl ScriptOutput {
    /// The run exited with code 0 and did not time out.
    pub fn success(&self) -> (r: bool)
        ensures
            r == (self.exit_code == 0 && !self.timed_out),
    {
        self.exit_code == 0 && !self.timed_out
    }

    /// Standard output and standard error together.
    pub fn combined_output(&self) -> (r: String)
        ensures
            r@ == spec_combined_output(self.stdout@, self.stderr@),
    {
        if self.stderr.as_str().unicode_len() == 0 {
            self.stdout.clone()
        } else if self.stdout.as_str().unicode_len() == 0 {
            self.stderr.clone()
        } else {
            proof {
                reveal_strlit("\n");
            }
            crate::text::concat3(self.stdout.as_str(), "\n", self.stderr.as_str())
        }
    }
}

/// How many more bytes fit under `max` after `len` bytes.
pub open spec fn room(len: nat, max: nat) -> nat {
    if len < max { (max - len) as nat } else { 0 }
}

/// Appends to `buf` as much of `chunk` as fits while `buf` holds at most
/// `max` bytes; the rest of the chunk is dropped.
pub fn append_capped(buf: &mut Vec<u8>, chunk: &[u8], max: usize)
    ensures
        final(buf)@ == old(buf)@ + chunk@.take(
            if chunk@.len() < room(old(buf)@.len(), max as nat) { chunk@.len() as int } else { room(old(buf)@.len(), max as nat) as int },
        ),
{
    let remaining: usize = if buf.len() < max { max - buf.len() } else { 0 };
    let take: usize = if chunk.len() < remaining { chunk.len() } else { remaining };
    let ghost start = buf@;
    let mut i: usize = 0;
    while i < take
        invariant
            take <= chunk@.len(),
            i <= take,
            buf@ == start + chunk@.take(i as int),
        decreases take - i,
    {
        buf.push(chunk[i]);
        proof {
            assert(chunk@.take(i + 1) =~= chunk@.take(i as int).push(chunk@[i as int]));
        }
        i = i + 1;
    }
}

/// The output of a run stopped at its deadline: nothing on standard output,
/// `Script execution timed out after` and the limit on standard error, exit
/// code -1.
pub fn timed_out_output(timeout: &Duration, duration: Duration) -> (r: ScriptOutput)
    ensures
        r.stdout@.len() == 0,
        r.stderr@ == "Script execution timed out after "@ + crate::sys::duration_text(*timeout),
        r.exit_code == -1,
        r.duration == duration,
        r.resource_usage.peak_memory_bytes == 0,
        r.resource_usage.cpu_time_ms == 0,
        r.timed_out,
{
    let text = crate::sys::duration_debug(timeout);
    ScriptOutput {
        stdout: String::new(),
        stderr: crate::text::concat("Script execution timed out after ", text.as_str()),
        exit_code: -1,
        duration,
        resource_usage: ResourceUsage::default(),
        timed_out: true,
    }
}

/// The output of a process that finished: its exit code, or -1 when it has
/// none (it was killed by a signal).
pub fn finished_output(stdout: String, stderr: String, code: Option<i32>, duration: Duration, cpu_time_ms: u64) -> (r: ScriptOutput)
    ensures
        r.stdout == stdout,
        r.stderr == stderr,
        r.exit_code == match code { Some(c) => c as int, None => -1int },
        r.duration == duration,
        r.resource_usage.peak_memory_bytes == 0,
        r.resource_usage.cpu_time_ms == cpu_time_ms,
        !r.timed_out,
{
    ScriptOutput {
        stdout,
        stderr,
        exit_code: match code {
            Some(c) => c,
            None => -1,
        },
        duration,
        resource_usage: ResourceUsage { peak_memory_bytes: 0, cpu_time_ms },
        timed_out: false,
    }
}


/// The bytes of the chunks one after another.
pub open spec fn flatten_chunks(chunks: Seq<Seq<u8>>) -> Seq<u8>
    decreases chunks.len(),
{
    if chunks.len() == 0 {
        Seq::empty()
    } else {
        flatten_chunks(chunks.drop_last()) + chunks.last()
    }
}

/// The views of byte chunks.
pub open spec fn chunk_views(chunks: Seq<Vec<u8>>) -> Seq<Seq<u8>> {
    chunks.map_values(|c: Vec<u8>| c@)
}

/// `s`, cut to its first `max` bytes when it is longer.
pub open spec fn capped(s: Seq<u8>, max: nat) -> Seq<u8> {
    if s.len() <= max { s } else { s.take(max as int) }
}

/// What is kept of a stream read in chunks: the bytes in order, at most
/// `max_output_bytes` of them (the rest is read and dropped).
pub fn capped_stream(chunks: &Vec<Vec<u8>>, max_output_bytes: u64) -> (r: Vec<u8>)
    ensures
        r@ == capped(flatten_chunks(chunk_views(chunks@)), max_output_bytes as nat),
{
    let ghost cv = chunk_views(chunks@);
    let ghost m = max_output_bytes as nat;
    let mut out: Vec<u8> = Vec::new();
    let mut i: usize = 0;
    while i < chunks.len()
        invariant
            i <= chunks@.len(),
            cv == chunk_views(chunks@),
            m == max_output_bytes as nat,
            out@ == capped(flatten_chunks(cv.take(i as int)), m),
        decreases chunks@.len() - i,
    {
        let chunk = &chunks[i];
        let ghost before = flatten_chunks(cv.take(i as int));
        let mut j: usize = 0;
        while j < chunk.len()
            invariant
                i < chunks@.len(),
                chunk@ == cv[i as int],
                j <= chunk@.len(),
                m == max_output_bytes as nat,
                out@ == capped(before + chunk@.take(j as int), m),
            decreases chunk@.len() - j,
        {
            let ghost s = before + chunk@.take(j as int);
            assert(s + seq![chunk@[j as int]] =~= before + chunk@.take(j + 1));
            if (out.len() as u64) < max_output_bytes {
                out.push(chunk[j]);
                assert(out@ =~= capped(s.push(chunk@[j as int]), m));
            } else {
                assert(s.push(chunk@[j as int]).take(m as int) =~= s.take(m as int));
            }
            assert(s.push(chunk@[j as int]) =~= before + chunk@.take(j + 1));
            j = j + 1;
        }
        proof {
            assert(chunk@.take(chunk@.len() as int) =~= chunk@);
            assert(cv.take(i + 1).drop_last() =~= cv.take(i as int));
            assert(cv.take(i + 1).last() == cv[i as int]);
        }
        i = i + 1;
    }
    assert(cv.take(chunks@.len() as int) =~= cv);
    out
}

/// How waiting for a process ended.
#[derive(Debug)]
pub enum ProcessEnd {
    /// It exited, with its exit code when it has one (none when a signal
    /// killed it).
    Exited(Option<i32>),
    /// Waiting for it failed, with the system's message.
    WaitFailed(String),
    /// The time limit passed first.
    TimedOut,
}

/// The result of a script run as a process, from how it ended and the
/// bytes kept of its two streams: a finished run gives both streams as text
/// (invalid UTF-8 replaced), its exit code or -1, no memory figure and the
/// run's length in milliseconds as CPU time; a run past its deadline gives
/// the timeout output; a failed wait is a runtime error of `runtime`.
pub fn process_result(
    runtime: &str,
    end: ProcessEnd,
    stdout: &Vec<u8>,
    stderr: &Vec<u8>,
    timeout: &Duration,
    duration: Duration,
) -> (r: Result<ScriptOutput, super::error::ExecutionError>)
    ensures
        match end {
            ProcessEnd::Exited(code) => r matches Ok(o) && {
                &&& o.stdout@ == crate::sys::utf8_lossy_of(stdout@)
                &&& o.stderr@ == crate::sys::utf8_lossy_of(stderr@)
                &&& o.exit_code == match code { Some(c) => c as int, None => -1int }
                &&& o.duration == duration
                &&& o.resource_usage.peak_memory_bytes == 0
                &&& o.resource_usage.cpu_time_ms == crate::sys::duration_millis_of(duration) as u64
                &&& !o.timed_out
            },
            ProcessEnd::WaitFailed(m) => r matches Err(super::error::ExecutionError::RuntimeError { runtime: rt, message })
                && rt@ == runtime@ && message@ == "failed to wait for process: "@ + m@,
            ProcessEnd::TimedOut => r matches Ok(o) && {
                &&& o.stdout@.len() == 0
                &&& o.stderr@ == "Script execution timed out after "@ + crate::sys::duration_text(*timeout)
                &&& o.exit_code == -1
                &&& o.duration == duration
                &&& o.resource_usage.peak_memory_bytes == 0
                &&& o.resource_usage.cpu_time_ms == 0
                &&& o.timed_out
            },
        },
{
    match end {
        ProcessEnd::Exited(code) => {
            let out = crate::sys::lossy_text(stdout.as_slice());
            let err = crate::sys::lossy_text(stderr.as_slice());
            let millis = crate::sys::duration_millis(&duration) as u64;
            Ok(finished_output(out, err, code, duration, millis))
        },
        ProcessEnd::WaitFailed(m) => {
            let message = crate::text::concat("failed to wait for process: ", m.as_str());
            Err(super::error::ExecutionError::runtime(runtime, message.as_str()))
        },
        ProcessEnd::TimedOut => Ok(timed_out_output(timeout, duration)),
    }
}

} // verus!
