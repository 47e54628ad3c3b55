use moss::executor::types::{capped_stream, process_result, ProcessEnd};
use moss::executor::docker::{container_output, poll_step, ContainerState, PollStep};
use std::sync::Arc;
use std::time::Duration;

use moss::executor::deno::{DenoConfig, DenoExecutor};
use moss::executor::docker::{
    container_args, container_script_path, find_data_dir_for_path, file_reference_indices, missing_input_message, script_extension,
    build_command, is_file_reference, parse_data_dir, parse_image_tag, DockerConfig, DockerExecutor,
    FileAccessStrategy, FileReference, DEFAULT_NODE_IMAGE, DEFAULT_PYTHON_IMAGE, DEFAULT_RUBY_IMAGE,
    DEFAULT_SHELL_IMAGE,
};
use moss::executor::error::ExecutionError;
use moss::config::ExecutionConfig;
use moss::executor::manager::{start_plan, ScriptExecutorManager};
use moss::executor::native::{process_working_dir, spawn_error, NativeExecutor};
use moss::executor::traits::{Executor, IsolationLevel};
use moss::executor::types::{
    append_capped, finished_output, timed_out_output, ExecuteRequest, FilesystemPolicy, ResourceLimits, ScriptInfo,
    ScriptOutput,
};
use moss::executor::wasmtime::{preopens, module_kind, run_outcome, wasi_args, ModuleKind, RunEnd, WasmtimeConfig, WasmtimeExecutor};
use moss::ordered_map::OrderedMap;
use moss::text::{i64_to_decimal, u64_to_decimal};

fn script(name: &str, path: &str) -> ScriptInfo {
    ScriptInfo { name: name.to_string(), path: path.to_string(), executable: true }
}

fn request(name: &str, path: &str, args: Vec<String>, env: OrderedMap<String>, limits: ResourceLimits) -> ExecuteRequest {
    ExecuteRequest { script: script(name, path), args, env, limits, working_dir: None, stdin: None }
}

// ---------------------------------------------------------------------------
// types
// ---------------------------------------------------------------------------

#[test]
fn test_resource_limits_default() {
    let limits = ResourceLimits::default();
    assert_eq!(limits.max_memory_bytes, 256 * 1024 * 1024);
    assert_eq!(limits.timeout, Duration::from_secs(30));
    assert!(!limits.network_access);
}

#[test]
fn test_resource_limits_strict() {
    let limits = ResourceLimits::strict();
    assert_eq!(limits.max_memory_bytes, 64 * 1024 * 1024);
    assert_eq!(limits.timeout, Duration::from_secs(10));
}

#[test]
fn test_script_output_success() {
    let output = ScriptOutput { exit_code: 0, timed_out: false, ..Default::default() };
    assert!(output.success());

    let output = ScriptOutput { exit_code: 1, timed_out: false, ..Default::default() };
    assert!(!output.success());

    let output = ScriptOutput { exit_code: 0, timed_out: true, ..Default::default() };
    assert!(!output.success());
}

#[test]
fn test_filesystem_policy() {
    assert!(!FilesystemPolicy::NoAccess.allows_access());
    assert!(FilesystemPolicy::ReadOnly(vec![]).allows_access());
    assert!(FilesystemPolicy::ReadWrite(vec![]).allows_access());

    assert!(!FilesystemPolicy::NoAccess.allows_write());
    assert!(!FilesystemPolicy::ReadOnly(vec![]).allows_write());
    assert!(FilesystemPolicy::ReadWrite(vec![]).allows_write());
}

#[test]
fn test_execute_request_builder() {
    let script = script("test.py", "/scripts/test.py");

    let request = ExecuteRequest::new(script)
        .with_args(vec!["--verbose".to_string()])
        .with_limits(ResourceLimits::strict());

    assert_eq!(request.args, vec!["--verbose"]);
    assert_eq!(request.limits.max_memory_bytes, 64 * 1024 * 1024);
}

#[test]
fn combined_output_joins_stdout_and_stderr() {
    let output = ScriptOutput { stdout: "out".to_string(), stderr: "err".to_string(), ..Default::default() };
    assert_eq!(output.combined_output(), "out\nerr");
    let only_out = ScriptOutput { stdout: "out".to_string(), ..Default::default() };
    assert_eq!(only_out.combined_output(), "out");
}

// ---------------------------------------------------------------------------
// error
// ---------------------------------------------------------------------------

#[test]
fn test_error_display() {
    let err = ExecutionError::Timeout(Duration::from_secs(30));
    assert!(err.to_string().contains("30"));

    let err = ExecutionError::runtime("docker", "container failed to start");
    assert!(err.to_string().contains("docker"));
    assert!(err.to_string().contains("container failed to start"));
}

#[test]
fn test_is_retryable() {
    assert!(ExecutionError::Timeout(Duration::from_secs(1)).is_retryable());
    assert!(ExecutionError::ExecutorUnavailable("docker".into(), "daemon not running".into()).is_retryable());
    assert!(!ExecutionError::PermissionDenied("test".into()).is_retryable());
}

#[test]
fn test_is_resource_limit() {
    assert!(ExecutionError::Timeout(Duration::from_secs(1)).is_resource_limit());
    assert!(ExecutionError::MemoryLimitExceeded { used: 1000, limit: 100 }.is_resource_limit());
    assert!(!ExecutionError::PermissionDenied("test".into()).is_resource_limit());
}

#[test]
fn execution_failed_message_has_code_and_message() {
    let err = ExecutionError::failed(2, "boom");
    assert_eq!(err.to_string(), "script exited with code 2: boom");
}

// ---------------------------------------------------------------------------
// manager
// ---------------------------------------------------------------------------

struct MockExecutor {
    name: &'static str,
    extensions: Vec<&'static str>,
}

impl Executor for MockExecutor {
    fn name(&self) -> &str {
        self.name
    }

    fn supported_extensions(&self) -> Vec<&str> {
        self.extensions.clone()
    }

    fn isolation_level(&self) -> IsolationLevel {
        IsolationLevel::NoIsolation
    }
}

#[test]
fn test_register_executor() {
    let mut manager = ScriptExecutorManager::default();
    let executor = Arc::new(MockExecutor { name: "test", extensions: vec!["py", "sh"] });

    manager.register(executor);

    assert!(manager.supports("py"));
    assert!(manager.supports("sh"));
    assert!(manager.supports("PY"));
    assert!(!manager.supports("js"));
}

#[test]
fn test_get_executor() {
    let mut manager = ScriptExecutorManager::default();
    let executor = Arc::new(MockExecutor { name: "test", extensions: vec!["py"] });

    manager.register(executor);

    let exec = manager.get_executor("py");
    assert!(exec.is_some());
    assert_eq!(exec.unwrap().name(), "test");
}

#[test]
fn test_executor_count() {
    let mut manager = ScriptExecutorManager::default();

    manager.register(Arc::new(MockExecutor { name: "multi", extensions: vec!["py", "sh", "rb"] }));
    manager.register(Arc::new(MockExecutor { name: "js", extensions: vec!["js", "ts"] }));

    assert_eq!(manager.executor_count(), 2);
    assert_eq!(manager.supported_extensions().len(), 5);
}

#[test]
fn later_registration_takes_over_an_extension() {
    let mut manager = ScriptExecutorManager::default();
    manager.register(Arc::new(MockExecutor { name: "first", extensions: vec!["py"] }));
    manager.register(Arc::new(MockExecutor { name: "second", extensions: vec!["PY"] }));
    assert_eq!(manager.executor_name("py"), Some("second".to_string()));
    assert_eq!(manager.executor_count(), 1);
}

#[test]
fn unregister_removes_the_route() {
    let mut manager = ScriptExecutorManager::default();
    manager.register(Arc::new(MockExecutor { name: "test", extensions: vec!["py"] }));
    assert!(manager.unregister("py").is_some());
    assert!(!manager.supports("py"));
    assert!(manager.unregister("py").is_none());
}

#[test]
fn unregister_after_register_undoes_only_that_route() {
    let mut manager = ScriptExecutorManager::default();
    manager.register(Arc::new(MockExecutor { name: "js", extensions: vec!["js"] }));
    manager.register(Arc::new(MockExecutor { name: "python", extensions: vec!["py"] }));
    let removed = manager.unregister("PY");
    assert_eq!(removed.unwrap().name(), "python");
    assert!(!manager.supports("py"));
    assert!(manager.get_executor("py").is_none());
    assert_eq!(manager.executor_name("js"), Some("js".to_string()));
}

// ---------------------------------------------------------------------------
// native
// ---------------------------------------------------------------------------

#[test]
fn native_test_supported_extensions() {
    let executor = NativeExecutor::new();
    assert_eq!(executor.supported_extensions(), vec![""]);
}

#[test]
fn native_test_isolation_level() {
    let executor = NativeExecutor::new();
    assert_eq!(executor.isolation_level(), IsolationLevel::NoIsolation);
}

// ---------------------------------------------------------------------------
// deno
// ---------------------------------------------------------------------------

#[test]
fn test_deno_config_default() {
    let config = DenoConfig::default();
    assert_eq!(config.deno_path, "deno");
    assert!(!config.allow_net);
    assert!(!config.allow_env);
    assert!(!config.allow_hrtime);
    assert!(!config.unstable);
    assert!(config.cache);
    assert!(config.v8_flags.is_empty());
}

#[test]
fn deno_test_supported_extensions() {
    let executor = DenoExecutor::new().unwrap();
    let extensions = executor.supported_extensions();

    assert!(extensions.contains(&"js"));
    assert!(extensions.contains(&"ts"));
    assert!(extensions.contains(&"mjs"));
    assert!(extensions.contains(&"mts"));
    assert!(extensions.contains(&"jsx"));
    assert!(extensions.contains(&"tsx"));
}

#[test]
fn test_deno_executor_extensions() {
    if let Ok(executor) = DenoExecutor::new() {
        let extensions = executor.supported_extensions();
        assert!(extensions.contains(&"js"));
        assert!(extensions.contains(&"ts"));
        assert!(extensions.contains(&"mjs"));
        assert!(extensions.contains(&"mts"));
        assert!(extensions.contains(&"jsx"));
        assert!(extensions.contains(&"tsx"));
    }
}

#[test]
fn deno_test_isolation_level() {
    let executor = DenoExecutor::new().unwrap();
    assert_eq!(executor.isolation_level(), IsolationLevel::Runtime);
}

#[test]
fn test_build_permission_flags_no_access() {
    let executor = DenoExecutor::new().unwrap();
    let request = request("test.js", "/scripts/test.js", vec![], OrderedMap::new(), ResourceLimits::strict());

    let flags = executor.build_permission_flags(&request);
    assert!(!flags.iter().any(|f| f.starts_with("--allow-read")));
    assert!(!flags.iter().any(|f| f.starts_with("--allow-write")));
    assert!(!flags.iter().any(|f| f == "--allow-net"));
}

#[test]
fn test_build_permission_flags_with_network() {
    let mut config = DenoConfig::default();
    config.allow_net = true;

    let executor = DenoExecutor::with_config(config).unwrap();
    let request = request("test.js", "/scripts/test.js", vec![], OrderedMap::new(), ResourceLimits::default());

    let flags = executor.build_permission_flags(&request);
    assert!(flags.contains(&"--allow-net".to_string()));
}

#[test]
fn test_build_permission_flags_readonly() {
    let executor = DenoExecutor::new().unwrap();
    let mut limits = ResourceLimits::default();
    limits.filesystem_access = FilesystemPolicy::ReadOnly(vec!["/data".to_string()]);

    let request = request("test.js", "/scripts/test.js", vec![], OrderedMap::new(), limits);

    let flags = executor.build_permission_flags(&request);
    assert!(flags.iter().any(|f| f == "--allow-read=/data"));
    assert!(!flags.iter().any(|f| f.starts_with("--allow-write")));
}

#[test]
fn test_build_permission_flags_readwrite() {
    let executor = DenoExecutor::new().unwrap();
    let mut limits = ResourceLimits::default();
    limits.filesystem_access = FilesystemPolicy::ReadWrite(vec!["/data".to_string(), "/tmp".to_string()]);

    let request = request("test.js", "/scripts/test.js", vec![], OrderedMap::new(), limits);

    let flags = executor.build_permission_flags(&request);
    assert!(flags.iter().any(|f| f == "--allow-read=/data,/tmp"));
    assert!(flags.iter().any(|f| f == "--allow-write=/data,/tmp"));
}

#[test]
fn test_build_command_args() {
    let executor = DenoExecutor::new().unwrap();
    let request = request(
        "test.ts",
        "/scripts/test.ts",
        vec!["--arg1".to_string(), "value".to_string()],
        OrderedMap::new(),
        ResourceLimits::default(),
    );

    let args = executor.build_command_args(&request);

    assert_eq!(args[0], "run");
    assert!(args.contains(&"/scripts/test.ts".to_string()));
    assert!(args.contains(&"--arg1".to_string()));
    assert!(args.contains(&"value".to_string()));
}

#[test]
fn test_build_command_args_with_unstable() {
    let mut config = DenoConfig::default();
    config.unstable = true;
    config.v8_flags = vec!["--max-old-space-size=512".to_string()];

    let executor = DenoExecutor::with_config(config).unwrap();
    let request = request("test.ts", "/scripts/test.ts", vec![], OrderedMap::new(), ResourceLimits::default());

    let args = executor.build_command_args(&request);

    assert!(args.contains(&"--unstable".to_string()));
    assert!(args.iter().any(|a| a == "--v8-flags=--max-old-space-size=512"));
}

#[test]
fn test_build_env() {
    let mut config = DenoConfig::default();
    config.cache_dir = Some("/tmp/deno-cache".to_string());

    let executor = DenoExecutor::with_config(config).unwrap();

    let mut request_env = OrderedMap::new();
    request_env.insert("MY_VAR".to_string(), "value".to_string());

    let request = request("test.js", "/scripts/test.js", vec![], request_env, ResourceLimits::default());

    let env = executor.build_env(&request);

    assert_eq!(env.get("MY_VAR"), Some(&"value".to_string()));
    assert_eq!(env.get("DENO_DIR"), Some(&"/tmp/deno-cache".to_string()));
    assert_eq!(env.get("NO_COLOR"), Some(&"1".to_string()));
}

#[test]
fn test_build_permission_flags_with_env_vars() {
    let executor = DenoExecutor::new().unwrap();

    let mut request_env = OrderedMap::new();
    request_env.insert("API_KEY".to_string(), "secret".to_string());
    request_env.insert("DB_URL".to_string(), "localhost".to_string());

    let request = request("test.js", "/scripts/test.js", vec![], request_env, ResourceLimits::default());

    let flags = executor.build_permission_flags(&request);

    let env_flag = flags.iter().find(|f| f.starts_with("--allow-env="));
    assert!(env_flag.is_some());
    let env_flag = env_flag.unwrap();
    assert!(env_flag.contains("API_KEY") || env_flag.contains("DB_URL"));
}

// ---------------------------------------------------------------------------
// docker
// ---------------------------------------------------------------------------

#[test]
fn test_docker_config_default() {
    let config = DockerConfig::default();
    assert_eq!(config.network_mode, "none");
    assert!(config.auto_remove);
    assert!(config.read_only);
    assert!(config.auto_pull);
    assert!(config.images.contains_key("py"));
    assert!(config.images.contains_key("sh"));
}

#[test]
fn test_image_tag_parsing() {
    let pair = |s: &str| {
        let (a, b) = parse_image_tag(s);
        (a, b)
    };
    assert_eq!(pair("python:3.11-slim"), ("python".to_string(), "3.11-slim".to_string()));
    assert_eq!(pair("python"), ("python".to_string(), "latest".to_string()));
    assert_eq!(pair("registry:5000/myimage"), ("registry:5000/myimage".to_string(), "latest".to_string()));
    assert_eq!(pair("registry:5000/myimage:v1"), ("registry:5000/myimage".to_string(), "v1".to_string()));
}

#[test]
fn test_get_image() {
    let config = DockerConfig::default();

    assert_eq!(config.images.get("py"), Some(&DEFAULT_PYTHON_IMAGE.to_string()));
    assert_eq!(config.images.get("sh"), Some(&DEFAULT_SHELL_IMAGE.to_string()));
    assert_eq!(config.images.get("rb"), Some(&DEFAULT_RUBY_IMAGE.to_string()));
    assert_eq!(config.images.get("js"), Some(&DEFAULT_NODE_IMAGE.to_string()));
    assert_eq!(config.get_image("py"), DEFAULT_PYTHON_IMAGE);
    assert_eq!(config.get_image("unknown"), DEFAULT_SHELL_IMAGE);
}

#[test]
fn test_build_command() {
    assert_eq!(
        build_command("py", "/scripts/test.py", &vec!["--verbose".to_string()]),
        vec!["python", "/scripts/test.py", "--verbose"]
    );
    assert_eq!(build_command("sh", "/scripts/test.sh", &vec![]), vec!["sh", "/scripts/test.sh"]);
    assert_eq!(
        build_command("js", "/scripts/test.js", &vec!["arg1".to_string()]),
        vec!["node", "/scripts/test.js", "arg1"]
    );
}

#[test]
fn docker_test_supported_extensions() {
    let executor = DockerExecutor::with_config(DockerConfig::default());
    let extensions = executor.supported_extensions();
    assert!(extensions.contains(&"py"));
    assert!(extensions.contains(&"sh"));
}

#[test]
fn test_docker_config_file_access_mode() {
    let config = DockerConfig::default();
    assert_eq!(config.file_access_mode, "auto");
    assert!(config.copy_output_back);
    assert!(config.temp_dir.is_none());
}

#[test]
fn test_parse_file_references() {
    assert!(is_file_reference("/path/to/file.csv"));
    assert!(is_file_reference("/Volumes/Data/input.json"));

    assert!(is_file_reference("data.csv"));
    assert!(is_file_reference("output.json"));

    assert!(!is_file_reference("--delimiter=,"));
    assert!(!is_file_reference("-v"));

    assert!(!is_file_reference("csv2json"));
    assert!(!is_file_reference("convert"));
}

#[test]
fn test_data_dir_parsing() {
    assert_eq!(parse_data_dir("/Volumes/Data"), ("/Volumes/Data".to_string(), "/Volumes/Data".to_string()));
    assert_eq!(parse_data_dir("/Volumes/Data:/data"), ("/Volumes/Data".to_string(), "/data".to_string()));
    assert_eq!(
        parse_data_dir("/host/path:/container/path"),
        ("/host/path".to_string(), "/container/path".to_string())
    );
}

#[test]
fn test_file_access_strategy_variants() {
    let bind_mount = FileAccessStrategy::BindMount {
        host_path: "/host/file.csv".to_string(),
        container_path: "/data/file.csv".to_string(),
    };

    let file_copy = FileAccessStrategy::FileCopy {
        source_path: "/remote/file.csv".to_string(),
        temp_path: "/tmp/aries-data-xxx/file.csv".to_string(),
        container_path: "/data/file.csv".to_string(),
        is_output: false,
    };

    match bind_mount {
        FileAccessStrategy::BindMount { container_path, .. } => {
            assert_eq!(container_path, "/data/file.csv");
        },
        _ => panic!("Expected BindMount"),
    }

    match file_copy {
        FileAccessStrategy::FileCopy { is_output, .. } => {
            assert!(!is_output);
        },
        _ => panic!("Expected FileCopy"),
    }
}

#[test]
fn test_file_reference_struct() {
    let file_ref = FileReference {
        original: "/path/to/input.csv".to_string(),
        path: "/path/to/input.csv".to_string(),
        is_output: false,
        arg_index: 1,
    };

    assert_eq!(file_ref.original, "/path/to/input.csv");
    assert!(!file_ref.is_output);
    assert_eq!(file_ref.arg_index, 1);

    let output_ref = FileReference {
        original: "/path/to/output.json".to_string(),
        path: "/path/to/output.json".to_string(),
        is_output: true,
        arg_index: 2,
    };

    assert!(output_ref.is_output);
}

// ---------------------------------------------------------------------------
// wasmtime
// ---------------------------------------------------------------------------

#[test]
fn test_wasmtime_config_default() {
    let cfg = WasmtimeConfig::default();
    assert!(cfg.enabled);
    assert!(cfg.cache_enabled);
    assert_eq!(cfg.max_memory_bytes, 256 * 1024 * 1024);
    assert_eq!(cfg.epoch_tick_ms, 10);
    assert!(!cfg.fuel_enabled);
    assert_eq!(cfg.fuel_amount, 1_000_000_000);
}

#[test]
fn test_executor_creation() {
    let executor = WasmtimeExecutor::with_config(WasmtimeConfig::default());
    assert!(executor.is_ok());
}

#[test]
fn wasmtime_test_supported_extensions() {
    let executor = WasmtimeExecutor::with_config(WasmtimeConfig::default()).unwrap();
    let exts = executor.supported_extensions();
    assert!(exts.contains(&"wasm"));
    assert!(exts.contains(&"wat"));
    assert_eq!(exts.len(), 2);
}

#[test]
fn native_process_directory_and_spawn_errors() {
    let r = request("tool", "/opt/bin/tool", vec![], OrderedMap::new(), ResourceLimits::default());
    assert_eq!(process_working_dir(&r), Some("/opt/bin".to_string()));
    let r = ExecuteRequest::new(script("tool", "/opt/bin/tool")).with_working_dir("/work".to_string());
    assert_eq!(process_working_dir(&r), Some("/work".to_string()));
    assert_eq!(spawn_error("/x", true, "").to_string(), "native error: binary not found: '/x'");
    assert_eq!(spawn_error("/x", false, "denied").to_string(), "native error: failed to spawn '/x': denied");
}

#[test]
fn test_start_plan_defaults_deno_and_skips_disabled_wasmtime() {
    let mut wasm = WasmtimeConfig::default();
    wasm.enabled = false;
    let config = ExecutionConfig {
        enabled: true,
        preferred_executor: "auto".to_string(),
        limits: ResourceLimits::strict(),
        deno: None,
        docker: Some(DockerConfig::default()),
        wasmtime: Some(wasm),
    };
    let plan = start_plan(config);
    assert_eq!(plan.deno.deno_path, "deno");
    assert!(plan.deno.cache);
    assert!(plan.docker.is_some());
    assert!(plan.wasmtime.is_none());
    assert_eq!(plan.limits.timeout, ResourceLimits::strict().timeout);
}

#[test]
fn test_start_plan_keeps_configured_executors() {
    let mut deno = DenoConfig::default();
    deno.deno_path = "/opt/deno".to_string();
    let config = ExecutionConfig {
        enabled: true,
        preferred_executor: "deno".to_string(),
        limits: ResourceLimits::default(),
        deno: Some(deno),
        docker: None,
        wasmtime: Some(WasmtimeConfig::default()),
    };
    let plan = start_plan(config);
    assert_eq!(plan.deno.deno_path, "/opt/deno");
    assert!(plan.docker.is_none());
    assert!(plan.wasmtime.is_some());
}

// ---------------------------------------------------------------------------
// docker run planning
// ---------------------------------------------------------------------------

fn strings(v: &[&str]) -> Vec<String> {
    v.iter().map(|s| s.to_string()).collect()
}

#[test]
fn file_reference_indices_picks_file_arguments_in_order() {
    let args = strings(&["-v", "/data/in.csv", "convert", "out.json", "--fast"]);
    assert_eq!(file_reference_indices(&args), vec![1, 3]);
    assert!(file_reference_indices(&strings(&["-x", "plain"])).is_empty());
}

#[test]
fn data_dir_mounts_keep_existing_host_directories() {
    let mut config = DockerConfig::default();
    config.data_dirs = strings(&["/Volumes/Data:/data", "/missing", "/srv"]);
    let mounts = config.data_dir_mounts(&vec![true, false, true]);
    assert_eq!(
        mounts,
        vec![
            ("/Volumes/Data".to_string(), "/data".to_string()),
            ("/srv".to_string(), "/srv".to_string()),
        ]
    );
}

#[test]
fn temp_dir_is_needed_only_for_copies() {
    let mut config = DockerConfig::default();
    assert!(!config.needs_temp_dir(&vec![]));
    assert!(!config.needs_temp_dir(&vec![true, true]));
    assert!(config.needs_temp_dir(&vec![true, false]));
    config.file_access_mode = "copy_only".to_string();
    assert!(config.needs_temp_dir(&vec![true]));
    config.file_access_mode = "bind_only".to_string();
    assert!(!config.needs_temp_dir(&vec![false]));
}

fn file(path: &str, is_output: bool, arg_index: usize) -> FileReference {
    FileReference { original: path.to_string(), path: path.to_string(), is_output, arg_index }
}

fn strategy_parts(s: &FileAccessStrategy) -> (String, String) {
    match s {
        FileAccessStrategy::BindMount { host_path, container_path } => (host_path.clone(), container_path.clone()),
        FileAccessStrategy::FileCopy { temp_path, container_path, .. } => (temp_path.clone(), container_path.clone()),
    }
}

#[test]
fn file_in_data_dir_is_bind_mounted() {
    let config = DockerConfig::default();
    let f = file("/Volumes/Data/in.csv", false, 0);
    let found = Some(("/Volumes/Data/in.csv".to_string(), "/data/in.csv".to_string()));
    let s = config.determine_file_strategy(&f, found, None, "/tmp/run");
    assert!(matches!(s, FileAccessStrategy::BindMount { .. }));
    assert_eq!(strategy_parts(&s), ("/Volumes/Data/in.csv".to_string(), "/data/in.csv".to_string()));
}

#[test]
fn new_output_in_data_dir_goes_through_its_parent() {
    let config = DockerConfig::default();
    let f = file("/Volumes/Data/out.json", true, 1);
    let parent = Some(("/Volumes/Data".to_string(), "/data".to_string()));
    let s = config.determine_file_strategy(&f, None, parent, "/tmp/run");
    assert_eq!(strategy_parts(&s), ("/Volumes/Data/out.json".to_string(), "/data/out.json".to_string()));
}

#[test]
fn file_outside_data_dirs_is_copied() {
    let config = DockerConfig::default();
    let f = file("/home/me/in.csv", false, 0);
    let s = config.determine_file_strategy(&f, None, None, "/tmp/run");
    match &s {
        FileAccessStrategy::FileCopy { source_path, temp_path, container_path, is_output } => {
            assert_eq!(source_path, "/home/me/in.csv");
            assert_eq!(temp_path, "/tmp/run/in.csv");
            assert_eq!(container_path, "/aries_file_copy/in.csv");
            assert!(!is_output);
        }
        _ => panic!("expected a copy"),
    }
}

#[test]
fn bind_only_mounts_the_file_at_its_own_path() {
    let mut config = DockerConfig::default();
    config.file_access_mode = "bind_only".to_string();
    let f = file("/home/me/in.csv", false, 0);
    let s = config.determine_file_strategy(&f, None, None, "/tmp/run");
    assert_eq!(strategy_parts(&s), ("/home/me/in.csv".to_string(), "/home/me/in.csv".to_string()));
}

#[test]
fn copy_only_copies_even_data_dir_files() {
    let mut config = DockerConfig::default();
    config.file_access_mode = "copy_only".to_string();
    let f = file("/Volumes/Data/in.csv", false, 0);
    let found = Some(("/Volumes/Data/in.csv".to_string(), "/data/in.csv".to_string()));
    let s = config.determine_file_strategy(&f, found, None, "/tmp/run");
    assert!(matches!(s, FileAccessStrategy::FileCopy { .. }));
}

#[test]
fn container_name_has_prefix_and_short_id() {
    let config = DockerConfig::default();
    let name = config.generate_container_name().ok().unwrap();
    assert!(name.starts_with("aries-exec-"));
    assert_eq!(name.chars().count(), "aries-exec-".len() + 8);
    assert_ne!(name, config.generate_container_name().ok().unwrap());
}

#[test]
fn container_env_lists_variables_and_python_settings() {
    let config = DockerConfig::default();
    let mut env = OrderedMap::new();
    env.insert("A".to_string(), "1".to_string());
    env.insert("B".to_string(), "two".to_string());
    assert_eq!(config.container_env(&env, "sh"), strings(&["A=1", "B=two"]));
    assert_eq!(
        config.container_env(&env, "py"),
        strings(&["A=1", "B=two", "PYTHONDONTWRITEBYTECODE=1", "PYTHONUNBUFFERED=1"])
    );
}

#[test]
fn network_mode_follows_the_limits() {
    let config = DockerConfig::default();
    assert_eq!(config.network_mode_for(&ResourceLimits::default()), Some("none".to_string()));
    assert_eq!(config.network_mode_for(&ResourceLimits::permissive()), None);
}

#[test]
fn container_args_replace_file_arguments() {
    let args = strings(&["-v", "/home/me/in.csv", "out.json"]);
    let strategies = vec![
        (
            file("/home/me/in.csv", false, 1),
            FileAccessStrategy::FileCopy {
                source_path: "/home/me/in.csv".to_string(),
                temp_path: "/tmp/run/in.csv".to_string(),
                container_path: "/aries_file_copy/in.csv".to_string(),
                is_output: false,
            },
        ),
        (
            file("/data/out.json", true, 2),
            FileAccessStrategy::BindMount { host_path: "/data/out.json".to_string(), container_path: "/d/out.json".to_string() },
        ),
    ];
    assert_eq!(container_args(&args, &strategies), strings(&["-v", "/aries_file_copy/in.csv", "/d/out.json"]));
}

#[test]
fn script_paths_and_extensions_in_the_container() {
    assert_eq!(script_extension("/x/Tool.PY"), "py");
    assert_eq!(script_extension("/x/tool"), "sh");
    assert_eq!(container_script_path("/x/tool.py"), "/scripts/tool.py");
}

#[test]
fn missing_input_hints_at_absolute_paths() {
    assert_eq!(missing_input_message("/data/in.csv"), "input file does not exist: /data/in.csv");
    assert_eq!(
        missing_input_message("in.csv"),
        "input file does not exist: in.csv (hint: use absolute path like /path/to/file.csv)"
    );
}

// ---------------------------------------------------------------------------
// wasmtime run planning
// ---------------------------------------------------------------------------

#[test]
fn text_modules_compile_as_core_modules() {
    assert_eq!(module_kind("wat"), ModuleKind::CoreOnly);
    assert_eq!(module_kind("wasm"), ModuleKind::ComponentOrCore);
}

#[test]
fn wasi_args_start_with_the_script_name() {
    let req = request("tool.wasm", "/x/tool.wasm", strings(&["a", "b"]), OrderedMap::new(), ResourceLimits::default());
    assert_eq!(wasi_args(&req), strings(&["tool.wasm", "a", "b"]));
}

#[test]
fn run_outcomes_map_to_exit_codes() {
    let d = Duration::from_millis(5);
    assert_eq!(run_outcome(RunEnd::Returned, "", d).unwrap().exit_code, 0);
    assert_eq!(run_outcome(RunEnd::Failed, "", d).unwrap().exit_code, 1);
    assert_eq!(run_outcome(RunEnd::Exited(7), "", d).unwrap().exit_code, 7);
    let t = run_outcome(RunEnd::Interrupted, "", d).unwrap();
    assert!(t.timed_out);
    assert_eq!(t.exit_code, -1);
    assert_eq!(t.stderr, "execution timed out");
    match run_outcome(RunEnd::Trapped, "unreachable", d) {
        Err(ExecutionError::RuntimeError { runtime, message }) => {
            assert_eq!(runtime, "wasmtime");
            assert_eq!(message, "execution failed: unreachable");
        }
        _ => panic!("expected a runtime error"),
    }
}

// ---------------------------------------------------------------------------
// outputs
// ---------------------------------------------------------------------------

#[test]
fn append_capped_stops_at_the_limit() {
    let mut buf = vec![1u8, 2];
    append_capped(&mut buf, &[3, 4, 5], 4);
    assert_eq!(buf, vec![1, 2, 3, 4]);
    append_capped(&mut buf, &[6], 4);
    assert_eq!(buf, vec![1, 2, 3, 4]);
}

#[test]
fn timed_out_output_names_the_timeout() {
    let o = timed_out_output(&Duration::from_secs(30), Duration::from_secs(31));
    assert_eq!(o.stderr, "Script execution timed out after 30s");
    assert_eq!(o.exit_code, -1);
    assert!(o.timed_out);
}

#[test]
fn finished_output_without_code_is_minus_one() {
    let o = finished_output("out".to_string(), String::new(), None, Duration::from_secs(1), 12);
    assert_eq!(o.exit_code, -1);
    assert_eq!(o.resource_usage.cpu_time_ms, 12);
    let o = finished_output(String::new(), String::new(), Some(3), Duration::from_secs(1), 0);
    assert_eq!(o.exit_code, 3);
    assert!(!o.timed_out);
}

#[test]
fn request_with_stdin_keeps_the_rest() {
    let req = request("a.py", "/x/a.py", strings(&["1"]), OrderedMap::new(), ResourceLimits::default());
    let req = req.with_stdin("input".to_string());
    assert_eq!(req.stdin, Some("input".to_string()));
    assert_eq!(req.args, strings(&["1"]));
}

#[test]
fn allowed_paths_of_each_policy() {
    assert!(FilesystemPolicy::NoAccess.allowed_paths().is_empty());
    let p = FilesystemPolicy::ReadOnly(strings(&["/a", "/b"]));
    assert_eq!(p.allowed_paths(), &strings(&["/a", "/b"])[..]);
}

#[test]
fn prepare_execution_builds_the_request() {
    let mut manager = ScriptExecutorManager::default();
    manager.register(Arc::new(MockExecutor { name: "py", extensions: vec!["py"] }));
    let s = script("run.py", "/skills/demo/run.py");
    let (exec, req) = manager
        .prepare_execution(&s, strings(&["x"]), OrderedMap::new(), None)
        .ok()
        .unwrap();
    assert_eq!(exec.name(), "py");
    assert_eq!(req.working_dir, Some("/skills/demo".to_string()));
    assert_eq!(req.limits.timeout, ResourceLimits::default().timeout);
    match manager.prepare_execution(&script("run", "/skills/run"), vec![], OrderedMap::new(), None) {
        Err(ExecutionError::UnsupportedScript(m)) => assert_eq!(m, "no extension: /skills/run"),
        _ => panic!("expected UnsupportedScript"),
    }
    match manager.prepare_execution(&script("a.rb", "/a.rb"), vec![], OrderedMap::new(), None) {
        Err(ExecutionError::NoExecutorFound(e)) => assert_eq!(e, "rb"),
        _ => panic!("expected NoExecutorFound"),
    }
}

#[test]
fn data_dir_lookup_takes_the_first_matching_directory() {
    let dirs = vec![
        ("/Volumes/Data".to_string(), "/data".to_string()),
        ("/Volumes".to_string(), "/v".to_string()),
    ];
    let hosts = vec![Some("/Volumes/Data".to_string()), Some("/Volumes".to_string())];
    assert_eq!(
        find_data_dir_for_path(&Some("/Volumes/Data/a/b.csv".to_string()), &hosts, &dirs),
        Some(("/Volumes/Data/a/b.csv".to_string(), "/data/a/b.csv".to_string()))
    );
    assert_eq!(
        find_data_dir_for_path(&Some("/Volumes/Other/c.csv".to_string()), &hosts, &dirs),
        Some(("/Volumes/Other/c.csv".to_string(), "/v/Other/c.csv".to_string()))
    );
    assert_eq!(find_data_dir_for_path(&Some("/home/x.csv".to_string()), &hosts, &dirs), None);
    assert_eq!(find_data_dir_for_path(&None, &hosts, &dirs), None);
    let unknown = vec![None, Some("/Volumes".to_string())];
    assert_eq!(
        find_data_dir_for_path(&Some("/Volumes/Data/z".to_string()), &unknown, &dirs),
        Some(("/Volumes/Data/z".to_string(), "/v/Data/z".to_string()))
    );
}

#[test]
fn preopened_directories_follow_the_policy() {
    assert!(preopens(&FilesystemPolicy::NoAccess).is_empty());
    let ro = preopens(&FilesystemPolicy::ReadOnly(strings(&["/a", "/b"])));
    assert_eq!(ro.iter().map(|p| (p.path.clone(), p.writable)).collect::<Vec<_>>(), vec![("/a".to_string(), false), ("/b".to_string(), false)]);
    let rw = preopens(&FilesystemPolicy::ReadWrite(strings(&["/w"])));
    assert!(rw[0].writable);
}

#[test]
fn decimal_text_of_integers() {
    assert_eq!(u64_to_decimal(0), "0");
    assert_eq!(u64_to_decimal(18446744073709551615), "18446744073709551615");
    assert_eq!(i64_to_decimal(-42), "-42");
    assert_eq!(i64_to_decimal(i64::MIN), "-9223372036854775808");
}

#[test]
fn executors_support_scripts_by_extension() {
    let docker = DockerExecutor::with_config(DockerConfig::default());
    assert!(docker.supports(&script("a.PY", "/x/a.PY")));
    assert!(!docker.supports(&script("a.js", "/x/a.js")));
    let native = NativeExecutor::new();
    assert!(native.supports(&script("tool", "/x/tool")));
    assert!(!native.supports(&script("tool.sh", "/x/tool.sh")));
    let mock = MockExecutor { name: "m", extensions: vec!["rb"] };
    assert!(mock.supports(&script("a.rb", "/a.rb")));
    assert_eq!(mock.isolation_level(), IsolationLevel::NoIsolation);
    assert_eq!(DenoExecutor::new().unwrap().isolation_level(), IsolationLevel::Runtime);
}

#[test]
fn container_sandbox_plan() {
    let config = DockerConfig::default();
    let dirs = vec![("/Volumes/Data".to_string(), "/data".to_string())];
    let plan = config.host_plan(&ResourceLimits::default(), "/skills/demo/run.py", &dirs, Some("/tmp/copy")).ok().unwrap();
    let mounts: Vec<(String, Option<String>, bool, Option<bool>)> = plan
        .mounts
        .iter()
        .map(|m| (m.target.clone(), m.source.clone(), m.kind == moss::executor::docker::MountKind::Bind, m.read_only))
        .collect();
    assert_eq!(
        mounts,
        vec![
            ("/scripts".to_string(), Some("/skills/demo".to_string()), true, Some(true)),
            ("/tmp".to_string(), None, false, None),
            ("/data".to_string(), Some("/Volumes/Data".to_string()), true, Some(false)),
            ("/aries_file_copy".to_string(), Some("/tmp/copy".to_string()), true, Some(false)),
        ]
    );
    assert_eq!(plan.memory, 256 * 1024 * 1024);
    assert_eq!(plan.memory_swap, plan.memory);
    assert_eq!(plan.nano_cpus, 1_000_000_000);
    assert_eq!(plan.network_mode, Some("none".to_string()));
    assert!(plan.readonly_rootfs);
    assert_eq!(plan.security_opt, vec!["no-new-privileges:true".to_string()]);
    assert!(!plan.auto_remove);
    assert_eq!(plan.working_dir, "/scripts");
    match config.host_plan(&ResourceLimits::default(), "/", &dirs, None) {
        Err(ExecutionError::RuntimeError { runtime, message }) => {
            assert_eq!(runtime, "docker");
            assert_eq!(message, "invalid script path");
        }
        _ => panic!("expected an error"),
    }
}

#[test]
fn deno_start_errors() {
    let deno = DenoExecutor::new().unwrap();
    match deno.spawn_error(true, "") {
        ExecutionError::RuntimeError { message, .. } => assert_eq!(
            message,
            "Deno binary not found at 'deno'. Please install Deno or configure the correct path."
        ),
        _ => panic!("expected a runtime error"),
    }
    match deno.spawn_error(false, "denied") {
        ExecutionError::RuntimeError { message, .. } => assert_eq!(message, "failed to spawn Deno process: denied"),
        _ => panic!("expected a runtime error"),
    }
    match deno.health_check_error(true, "") {
        ExecutionError::RuntimeError { message, .. } => assert_eq!(message, "Deno binary not found at 'deno'"),
        _ => panic!("expected a runtime error"),
    }
    match DenoExecutor::version_check_error("bad") {
        ExecutionError::RuntimeError { message, .. } => assert_eq!(message, "Deno version check failed: bad"),
        _ => panic!("expected a runtime error"),
    }
}

#[test]
fn real_executors_are_found_whatever_the_case() {
    let mut manager = ScriptExecutorManager::default();
    manager.register(Arc::new(DockerExecutor::with_config(DockerConfig::default())));
    assert!(manager.supports("PY"));
    assert_eq!(manager.executor_name("Rb"), Some("docker".to_string()));
    assert!(manager.get_executor("SH").is_some());
    assert_eq!(manager.unregister("Py").map(|e| e.name().to_string()), Some("docker".to_string()));
    assert!(!manager.supports("py"));
}

#[test]
fn streams_are_capped_at_the_output_limit() {
    let chunks = vec![b"hello ".to_vec(), b"world".to_vec(), b"!".to_vec()];
    assert_eq!(capped_stream(&chunks, 8), b"hello wo".to_vec());
    assert_eq!(capped_stream(&chunks, 100), b"hello world!".to_vec());
    assert_eq!(capped_stream(&chunks, 0), Vec::<u8>::new());
}

#[test]
fn process_results_by_how_the_run_ended() {
    let d = Duration::from_millis(1500);
    let t = Duration::from_secs(30);
    let o = process_result("deno", ProcessEnd::Exited(Some(3)), &b"out".to_vec(), &b"err".to_vec(), &t, d).ok().unwrap();
    assert_eq!((o.stdout.as_str(), o.stderr.as_str(), o.exit_code, o.timed_out), ("out", "err", 3, false));
    assert_eq!(o.resource_usage.cpu_time_ms, 1500);
    let o = process_result("deno", ProcessEnd::Exited(None), &vec![0xff], &vec![], &t, d).ok().unwrap();
    assert_eq!(o.exit_code, -1);
    assert_eq!(o.stdout, "\u{fffd}");
    let o = process_result("native", ProcessEnd::TimedOut, &vec![], &vec![], &t, d).ok().unwrap();
    assert!(o.timed_out);
    assert_eq!(o.stderr, "Script execution timed out after 30s");
    match process_result("native", ProcessEnd::WaitFailed("gone".to_string()), &vec![], &vec![], &t, d) {
        Err(ExecutionError::RuntimeError { runtime, message }) => {
            assert_eq!(runtime, "native");
            assert_eq!(message, "failed to wait for process: gone");
        }
        _ => panic!("expected a runtime error"),
    }
}

#[test]
fn container_polling_steps() {
    assert_eq!(poll_step(true, ContainerState::Running), PollStep::Kill);
    assert_eq!(poll_step(false, ContainerState::Running), PollStep::Wait);
    assert_eq!(poll_step(false, ContainerState::Unknown), PollStep::Wait);
    assert_eq!(poll_step(false, ContainerState::Stopped(Some(2))), PollStep::Done(2));
    assert_eq!(poll_step(false, ContainerState::Stopped(None)), PollStep::Done(0));
    assert_eq!(poll_step(false, ContainerState::InspectFailed), PollStep::Done(-1));
    let o = container_output("a".to_string(), "b".to_string(), -1, true, Duration::from_secs(1));
    assert!(o.timed_out);
    assert_eq!(o.exit_code, -1);
}

#[test]
fn io_errors_are_prefixed() {
    let e = ExecutionError::IoError(std::io::Error::new(std::io::ErrorKind::Other, "disk full"));
    assert_eq!(e.to_string(), "I/O error: disk full");
}
