//! Configuration model of the gateway: every section of the configuration
//! file as plain data, with the documented default values.

use vstd::prelude::*;
use crate::text::concat;

verus! {

/// Application home directory name (under the user's home directory).
pub const APP_HOME_DIR: &'static str = ".moss";

/// Default server port.
pub const DEFAULT_PORT: u16 = 3389;

/// `~/.moss/<sub>`.
pub open spec fn spec_app_home_path(sub: Seq<char>) -> Seq<char> {
    "~/.moss/"@ + sub
}

/// Returns a tilde-prefixed path under the app home directory, e.g. `~/.moss/skills`.
pub fn app_home_path(sub: &str) -> (r: String)
    ensures
        r@ == spec_app_home_path(sub@),
{
    concat("~/.moss/", sub)
}

/// Values of the environment variables that supply API keys when the
/// configuration leaves them empty.
pub struct ApiKeyEnvironment {
    /// `DEFAULT_CHAT_SERVICE_API_KEY`
    pub chat: Option<String>,
    /// `DEFAULT_EMBEDDING_SERVICE_API_KEY`
    pub embedding: Option<String>,
    /// `SKILLS_API_KEY`
    pub skills: Option<String>,
}

impl ApiKeyEnvironment {
    /// An environment in which none of the variables is set.
    pub fn unset() -> (r: Self)
        ensures
            r.chat is None,
            r.embedding is None,
            r.skills is None,
    {
        ApiKeyEnvironment { chat: None, embedding: None, skills: None }
    }
}

/// The effective API key: the configured one when it is non-empty, else the
/// environment's value.
pub open spec fn spec_effective_key(configured: Seq<char>, env: Option<String>) -> Option<Seq<char>> {
    if configured.len() > 0 {
        Some(configured)
    } else {
        match env {
            Some(v) => Some(v@),
            None => None,
        }
    }
}

/// Spec view of an optional string.
pub open spec fn opt_view(o: Option<String>) -> Option<Seq<char>> {
    match o {
        Some(s) => Some(s@),
        None => None,
    }
}

fn effective_key(configured: &String, env: &Option<String>) -> (r: Option<String>)
    ensures
        opt_view(r) == spec_effective_key(configured@, *env),
{
    if configured.unicode_len() > 0 {
        Some(configured.clone())
    } else {
        match env {
            Some(v) => Some(v.clone()),
            None => None,
        }
    }
}

/// Top-level configuration.
#[derive(Clone)]
pub struct Config {
    pub server: ServerConfig,
    pub chat: Option<ChatConfig>,
    pub embedding: Option<EmbeddingConfig>,
    pub memory: Option<MemoryConfig>,
    pub rag: Option<RagConfig>,
    pub server_info_push_url: Option<String>,
    pub server_health_push_url: Option<String>,
    pub mcp: Option<McpConfig>,
    pub skill: Option<SkillConfig>,
    pub artifacts: Option<ArtifactsConfig>,
    pub config_api: Option<ConfigApiSettings>,
    pub subagent: Option<SubAgentSystemConfig>,
    pub hitl: Option<HitlConfig>,
    pub session: Option<SessionConfig>,
    pub lantai: Option<MossLantaiConfig>,
}

/// The limits of the default server section.
pub open spec fn default_server_limits(s: ServerConfig) -> bool {
    &&& s.max_tools_per_iteration == 5
    &&& s.tool_call_max_retries == 2
    &&& s.tool_call_retry_delay_ms == 500
    &&& s.max_plan_subtasks == 10
    &&& s.plan_timeout_secs == 600
    &&& s.subtask_max_retries == 2
    &&& s.subtask_react_max_iterations == 5
    &&& s.subtask_react_timeout_secs == 60
}

/// The summarization settings of the default memory section: automatic,
/// incremental, at 20 stored messages keeping a base of 12.
pub open spec fn default_summarization(m: MemoryConfig) -> bool {
    &&& m.auto_summarize
    &&& m.summarization_strategy == SummarizationStrategy::Incremental
    &&& m.summarize_threshold == 12
    &&& m.max_stored_messages == 20
}

impl Config {
    /// The default configuration: a server on 127.0.0.1:3389 with default
    /// limits and no optional section.
    pub fn default() -> (r: Self)
        ensures
            r.server.host@ == "127.0.0.1"@,
            r.server.port == DEFAULT_PORT,
            default_server_limits(r.server),
            r.chat is None,
            r.embedding is None,
            r.memory is None,
            r.rag is None,
            r.server_info_push_url is None,
            r.server_health_push_url is None,
            r.mcp is None,
            r.skill is None,
            r.artifacts is None,
            r.config_api is None,
            r.subagent is None,
            r.hitl is None,
            r.session is None,
            r.lantai is None,
    {
        Config {
            server: ServerConfig {
                host: String::from_str("127.0.0.1"),
                port: DEFAULT_PORT,
                max_tools_per_iteration: default_max_tools_per_iteration(),
                tool_call_max_retries: default_tool_call_max_retries(),
                tool_call_retry_delay_ms: default_tool_call_retry_delay_ms(),
                max_plan_subtasks: default_max_plan_subtasks(),
                plan_timeout_secs: default_plan_timeout_secs(),
                subtask_max_retries: default_subtask_max_retries(),
                subtask_react_max_iterations: default_subtask_react_max_iterations(),
                subtask_react_timeout_secs: default_subtask_react_timeout_secs(),
            },
            chat: None,
            embedding: None,
            memory: None,
            rag: None,
            server_info_push_url: None,
            server_health_push_url: None,
            mcp: None,
            skill: None,
            artifacts: None,
            config_api: None,
            subagent: None,
            hitl: None,
            session: None,
            lantai: None,
        }
    }
}

/// Server section.
#[derive(Clone)]
pub struct ServerConfig {
    pub host: String,
    pub port: u16,
    /// Maximum number of tool calls allowed per iteration.
    pub max_tools_per_iteration: usize,
    /// Maximum number of retries for a failed tool call.
    pub tool_call_max_retries: u32,
    /// Delay in milliseconds between tool call retries.
    pub tool_call_retry_delay_ms: u64,
    /// Maximum number of subtasks allowed in a plan.
    pub max_plan_subtasks: usize,
    /// Timeout in seconds for the entire plan execution.
    pub plan_timeout_secs: u64,
    /// Maximum number of retries for a failed subtask.
    pub subtask_max_retries: u32,
    /// Maximum number of React iterations allowed per subtask in Plan mode.
    pub subtask_react_max_iterations: u32,
    /// Timeout in seconds for each subtask's React loop in Plan mode.
    pub subtask_react_timeout_secs: u64,
}

pub fn default_max_tools_per_iteration() -> (r: usize)
    ensures r == 5,
{
    5
}

pub fn default_tool_call_max_retries() -> (r: u32)
    ensures r == 2,
{
    2
}

pub fn default_tool_call_retry_delay_ms() -> (r: u64)
    ensures r == 500,
{
    500
}

pub fn default_max_plan_subtasks() -> (r: usize)
    ensures r == 10,
{
    10
}

pub fn default_plan_timeout_secs() -> (r: u64)
    ensures r == 600,
{
    600
}

pub fn default_subtask_max_retries() -> (r: u32)
    ensures r == 2,
{
    2
}

pub fn default_subtask_react_max_iterations() -> (r: u32)
    ensures r == 5,
{
    5
}

pub fn default_subtask_react_timeout_secs() -> (r: u64)
    ensures r == 60,
{
    60
}

/// Chat service section.
#[derive(Clone)]
pub struct ChatConfig {
    pub url: String,
    /// The configured key; empty means "take it from the environment".
    pub api_key: String,
    /// Model to use for chat completions (runtime only).
    pub model: String,
    /// Model context window size in tokens; 0 disables token-aware features.
    pub model_context_size: u64,
}

pub fn default_model_context_size() -> (r: u64)
    ensures r == 128000,
{
    128000
}

impl ChatConfig {
    /// A chat section with the given URL and API key.
    pub fn new(url: String, api_key: String) -> (r: Self)
        ensures
            r.url == url,
            r.spec_api_key() == api_key@,
            r.model@ == Seq::<char>::empty(),
            r.model_context_size == 128000,
    {
        ChatConfig { url, api_key, model: String::new(), model_context_size: default_model_context_size() }
    }

    /// The configured API key (possibly empty).
    pub open spec fn spec_api_key(&self) -> Seq<char> {
        self.api_key@
    }

    /// The configured API key, or the value of `DEFAULT_CHAT_SERVICE_API_KEY`
    /// (given as `env.chat`) when the configured key is empty.
    pub fn get_api_key(&self, env: &ApiKeyEnvironment) -> (r: Option<String>)
        ensures
            opt_view(r) == spec_effective_key(self.spec_api_key(), env.chat),
    {
        effective_key(&self.api_key, &env.chat)
    }

    /// Replaces the configured API key.
    pub fn set_api_key(&mut self, api_key: String)
        ensures
            final(self).api_key == api_key,
            final(self).url == old(self).url,
            final(self).model == old(self).model,
            final(self).model_context_size == old(self).model_context_size,
    {
        self.api_key = api_key;
    }
}

/// Embedding service section.
#[derive(Clone)]
pub struct EmbeddingConfig {
    pub url: String,
    /// The configured key; empty means "take it from the environment".
    pub api_key: String,
}

impl EmbeddingConfig {
    /// A new embedding section with a URL and an empty API key.
    pub fn new_with_url(url: String) -> (r: Self)
        ensures
            r.url == url,
            r.spec_api_key() == Seq::<char>::empty(),
    {
        EmbeddingConfig { url, api_key: String::new() }
    }

    /// The configured API key (possibly empty).
    pub open spec fn spec_api_key(&self) -> Seq<char> {
        self.api_key@
    }

    /// The configured API key, or the value of
    /// `DEFAULT_EMBEDDING_SERVICE_API_KEY` (given as `env.embedding`) when the
    /// configured key is empty.
    pub fn get_api_key(&self, env: &ApiKeyEnvironment) -> (r: Option<String>)
        ensures
            opt_view(r) == spec_effective_key(self.spec_api_key(), env.embedding),
    {
        effective_key(&self.api_key, &env.embedding)
    }

    /// Replaces the configured API key.
    pub fn set_api_key(&mut self, api_key: String)
        ensures
            final(self).api_key == api_key,
            final(self).url == old(self).url,
    {
        self.api_key = api_key;
    }
}

/// Summarization strategy for conversation history.
#[derive(Clone, Copy, PartialEq, Eq, Structural, Debug)]
pub enum SummarizationStrategy {
    /// Existing summary plus new messages.
    Incremental,
    /// Re-summarize all historical messages.
    FullHistory,
}

impl SummarizationStrategy {
    /// The default strategy, `Incremental`.
    pub fn default() -> (r: Self)
        ensures
            r == SummarizationStrategy::Incremental,
    {
        SummarizationStrategy::Incremental
    }

    /// The name of the strategy as written in configuration files.
    pub open spec fn spec_name(self) -> Seq<char> {
        match self {
            SummarizationStrategy::Incremental => "Incremental"@,
            SummarizationStrategy::FullHistory => "FullHistory"@,
        }
    }

    /// The name of the strategy as written in configuration files.
    pub fn name(&self) -> (r: String)
        ensures
            r@ == self.spec_name(),
    {
        match self {
            SummarizationStrategy::Incremental => String::from_str("Incremental"),
            SummarizationStrategy::FullHistory => String::from_str("FullHistory"),
        }
    }
}

/// Memory system section.
#[derive(Clone)]
pub struct MemoryConfig {
    pub enable: bool,
    pub database_path: String,
    pub context_window: u64,
    pub auto_summarize: bool,
    pub summarization_strategy: SummarizationStrategy,
    pub summarize_threshold: u32,
    pub max_stored_messages: u32,
    pub summary_service_base_url: String,
    pub summary_service_api_key: String,
}

impl MemoryConfig {
    /// Defaults: disabled, `data/memory.db`, 8192-token window, automatic
    /// incremental summarization at 20 messages keeping a base of 12.
    pub fn default() -> (r: Self)
        ensures
            !r.enable,
            r.database_path@ == "data/memory.db"@,
            r.context_window == 8192,
            default_summarization(r),
            r.summary_service_base_url@ == "http://localhost:10086/v1"@,
            r.summary_service_api_key@ == Seq::<char>::empty(),
    {
        MemoryConfig {
            enable: false,
            database_path: String::from_str("data/memory.db"),
            context_window: 8192,
            auto_summarize: true,
            summarization_strategy: SummarizationStrategy::default(),
            summarize_threshold: 12,
            max_stored_messages: 20,
            summary_service_base_url: String::from_str("http://localhost:10086/v1"),
            summary_service_api_key: String::new(),
        }
    }
}

/// RAG section. `policy` is the name of the context merge policy.
#[derive(Clone)]
pub struct RagConfig {
    pub enable: bool,
    pub prompt: Option<String>,
    pub policy: String,
    pub context_window: u64,
}

/// MCP section.
#[derive(Clone)]
pub struct McpConfig {
    pub server: McpServerConfig,
}

/// MCP server list.
#[derive(Clone)]
pub struct McpServerConfig {
    pub tool_servers: Vec<McpToolServerConfig>,
}

/// Transport used to reach an MCP server.
#[derive(Clone, Copy, PartialEq, Eq, Structural, Debug)]
pub enum McpTransport {
    Sse,
    StreamHttp,
    Stdio,
}

impl McpTransport {
    pub open spec fn spec_name(self) -> Seq<char> {
        match self {
            McpTransport::Sse => "sse"@,
            McpTransport::StreamHttp => "stream-http"@,
            McpTransport::Stdio => "stdio"@,
        }
    }

    /// The transport's name as written in configuration files.
    pub fn name(&self) -> (r: String)
        ensures
            r@ == self.spec_name(),
    {
        match self {
            McpTransport::Sse => String::from_str("sse"),
            McpTransport::StreamHttp => String::from_str("stream-http"),
            McpTransport::Stdio => String::from_str("stdio"),
        }
    }
}

/// A tool discovered on an MCP server.
#[derive(Clone)]
pub struct McpToolDescriptor {
    pub name: String,
    pub description: Option<String>,
    /// The tool's input schema, serialized as JSON text.
    pub input_schema: Option<String>,
}

/// One configured MCP tool server.
#[derive(Clone)]
pub struct McpToolServerConfig {
    pub name: String,
    pub transport: McpTransport,
    pub url: Option<String>,
    pub oauth_url: Option<String>,
    /// Command to run for stdio transport.
    pub command: Option<String>,
    /// Arguments for the stdio command.
    pub args: Option<Vec<String>>,
    /// Environment variables for the stdio process.
    pub env: Option<Vec<(String, String)>>,
    /// Working directory for the stdio process.
    pub working_dir: Option<String>,
    pub enable: bool,
    /// API key, appended to the URL at connection time.
    pub api_key: Option<String>,
    /// URL query parameter name for the API key.
    pub api_key_param: Option<String>,
    /// Name that the server reported for itself (runtime only).
    pub server_name: Option<String>,
    /// Tools discovered on the server (runtime only).
    pub tools: Option<Vec<McpToolDescriptor>>,
    pub fallback_message: Option<String>,
}

/// Artifacts management section.
#[derive(Clone)]
pub struct ArtifactsConfig {
    pub enabled: bool,
    pub database_path: String,
    pub storage_path: Option<String>,
    pub max_content_size: u64,
    pub max_binary_size: u64,
    pub retention_days: u32,
    pub cleanup_interval_secs: u64,
    pub soft_delete_retention_days: u32,
    pub enable_cleanup: bool,
}

pub fn default_artifacts_enabled() -> (r: bool)
    ensures !r,
{
    false
}

pub fn default_artifacts_database_path() -> (r: String)
    ensures r@ == "data/artifacts.db"@,
{
    String::from_str("data/artifacts.db")
}

pub fn default_artifacts_max_size() -> (r: u64)
    ensures r == 1048576,
{
    1024 * 1024
}

pub fn default_artifacts_max_binary_size() -> (r: u64)
    ensures r == 104857600,
{
    100 * 1024 * 1024
}

pub fn default_artifacts_retention_days() -> (r: u32)
    ensures r == 30,
{
    30
}

pub fn default_artifacts_cleanup_interval() -> (r: u64)
    ensures r == 3600,
{
    3600
}

pub fn default_artifacts_soft_delete_retention() -> (r: u32)
    ensures r == 7,
{
    7
}

pub fn default_artifacts_enable_cleanup() -> (r: bool)
    ensures r,
{
    true
}

impl ArtifactsConfig {
    /// Defaults: disabled, `data/artifacts.db`, 1 MiB text and 100 MiB binary
    /// limits, 30-day retention, hourly cleanup, 7 days for soft deletes.
    pub fn default() -> (r: Self)
        ensures
            !r.enabled,
            r.database_path@ == "data/artifacts.db"@,
            r.storage_path is None,
            r.max_content_size == 1048576,
            r.max_binary_size == 104857600,
            r.retention_days == 30,
            r.cleanup_interval_secs == 3600,
            r.soft_delete_retention_days == 7,
            r.enable_cleanup,
    {
        ArtifactsConfig {
            enabled: default_artifacts_enabled(),
            database_path: default_artifacts_database_path(),
            storage_path: None,
            max_content_size: default_artifacts_max_size(),
            max_binary_size: default_artifacts_max_binary_size(),
            retention_days: default_artifacts_retention_days(),
            cleanup_interval_secs: default_artifacts_cleanup_interval(),
            soft_delete_retention_days: default_artifacts_soft_delete_retention(),
            enable_cleanup: default_artifacts_enable_cleanup(),
        }
    }
}

/// Skills section.
#[derive(Clone)]
pub struct SkillConfig {
    pub enabled: bool,
    /// Directories to scan for skills.
    pub directories: Vec<String>,
    pub execution: Option<ExecutionConfig>,
    /// Maximum total size of reference documents per skill; 0 for no limit.
    pub max_reference_size: usize,
    pub api: Option<SkillApiConfig>,
    pub market: Option<SkillMarketConfig>,
}

impl SkillConfig {
    /// The primary skills directory: the first configured one with a
    /// leading `~` expanded to the home directory, else `~/.moss/skills`.
    pub fn directory(&self) -> (r: String)
        ensures
            self.directories.len() > 0 ==> crate::sys::tilde_expansion(self.directories[0]@, r@),
            self.directories.len() == 0 ==> r@ == spec_app_home_path("skills"@),
    {
        if self.directories.len() > 0 {
            crate::sys::expand_tilde(self.directories[0].as_str())
        } else {
            app_home_path("skills")
        }
    }

    /// Defaults: enabled, scanning `~/.moss/skills`, 100 KiB of references.
    pub fn default() -> (r: Self)
        ensures
            r.enabled,
            r.directories.len() == 1,
            r.directories[0]@ == spec_app_home_path("skills"@),
            r.execution is None,
            r.max_reference_size == 102400,
            r.api is None,
            r.market is None,
    {
        SkillConfig {
            enabled: default_skills_enabled(),
            directories: default_skills_directories(),
            execution: None,
            max_reference_size: default_max_reference_size(),
            api: None,
            market: None,
        }
    }
}

/// Authentication and rate limiting of the skills API.
#[derive(Clone)]
pub struct SkillApiConfig {
    /// The configured key; empty means "take it from the environment".
    pub api_key: String,
    /// Requests allowed within the window; 0 disables rate limiting.
    pub rate_limit_requests: u32,
    /// Rate limit window in seconds.
    pub rate_limit_window_secs: u64,
}

impl SkillApiConfig {
    /// A skills API section with the given key and limits.
    pub fn new(api_key: String, rate_limit_requests: u32, rate_limit_window_secs: u64) -> (r: Self)
        ensures
            r.spec_api_key() == api_key@,
            r.rate_limit_requests == rate_limit_requests,
            r.rate_limit_window_secs == rate_limit_window_secs,
    {
        SkillApiConfig { api_key, rate_limit_requests, rate_limit_window_secs }
    }

    /// The configured API key (possibly empty).
    pub open spec fn spec_api_key(&self) -> Seq<char> {
        self.api_key@
    }

    /// The configured API key, or the value of `SKILLS_API_KEY` (given as
    /// `env.skills`) when the configured key is empty.
    pub fn get_api_key(&self, env: &ApiKeyEnvironment) -> (r: Option<String>)
        ensures
            opt_view(r) == spec_effective_key(self.spec_api_key(), env.skills),
    {
        effective_key(&self.api_key, &env.skills)
    }

    /// Whether rate limiting is enabled.
    pub fn rate_limiting_enabled(&self) -> (r: bool)
        ensures
            r == (self.rate_limit_requests > 0),
    {
        self.rate_limit_requests > 0
    }

    /// Defaults: no key, 100 requests per 60 seconds.
    pub fn default() -> (r: Self)
        ensures
            r.spec_api_key() == Seq::<char>::empty(),
            r.rate_limit_requests == 100,
            r.rate_limit_window_secs == 60,
    {
        SkillApiConfig {
            api_key: String::new(),
            rate_limit_requests: default_rate_limit_requests(),
            rate_limit_window_secs: default_rate_limit_window_secs(),
        }
    }
}

pub fn default_rate_limit_requests() -> (r: u32)
    ensures r == 100,
{
    100
}

pub fn default_rate_limit_window_secs() -> (r: u64)
    ensures r == 60,
{
    60
}

pub fn default_skills_enabled() -> (r: bool)
    ensures r,
{
    true
}

pub fn default_skills_directories() -> (r: Vec<String>)
    ensures
        r.len() == 1,
        r[0]@ == spec_app_home_path("skills"@),
{
    let mut v = Vec::new();
    v.push(app_home_path("skills"));
    v
}

pub fn default_max_reference_size() -> (r: usize)
    ensures r == 102400,
{
    102400
}

/// Skills marketplace section.
#[derive(Clone)]
pub struct SkillMarketConfig {
    pub url: String,
    pub api_key: Option<String>,
    pub cache_dir: Option<String>,
}

pub fn default_market_url() -> (r: String)
    ensures r@ == "https://skillsmp.com/api/v1"@,
{
    String::from_str("https://skillsmp.com/api/v1")
}

impl SkillMarketConfig {
    /// The cache directory with a leading `~` expanded, if one is configured.
    pub fn expanded_cache_dir(&self) -> (r: Option<String>)
        ensures
            (r is Some) == (self.cache_dir is Some),
            r matches Some(s) ==> crate::sys::tilde_expansion(self.cache_dir->0@, s@),
    {
        match &self.cache_dir {
            Some(dir) => Some(crate::sys::expand_tilde(dir.as_str())),
            None => None,
        }
    }

    /// Defaults: the skillsmp.com API, no key, no cache directory.
    pub fn default() -> (r: Self)
        ensures
            r.url@ == "https://skillsmp.com/api/v1"@,
            r.api_key is None,
            r.cache_dir is None,
    {
        SkillMarketConfig { url: default_market_url(), api_key: None, cache_dir: None }
    }
}

/// Script execution section.
#[derive(Clone)]
pub struct ExecutionConfig {
    pub enabled: bool,
    /// "deno", "docker" or "auto".
    pub preferred_executor: String,
    pub limits: crate::executor::types::ResourceLimits,
    pub deno: Option<crate::executor::deno::DenoConfig>,
    pub docker: Option<crate::executor::docker::DockerConfig>,
    pub wasmtime: Option<crate::executor::wasmtime::WasmtimeConfig>,
}

pub fn default_execution_enabled() -> (r: bool)
    ensures r,
{
    true
}

pub fn default_preferred_executor() -> (r: String)
    ensures r@ == "auto"@,
{
    String::from_str("auto")
}

/// Hot-reload settings of the configuration API.
#[derive(Clone)]
pub struct ConfigApiSettings {
    pub hot_reload_enabled: bool,
    pub hot_reload_debounce_ms: u64,
    pub hot_reload_keep_on_invalid: bool,
    pub hot_reload_audit: bool,
}

pub fn default_hot_reload_debounce_ms() -> (r: u64)
    ensures r == 500,
{
    500
}

pub fn default_hot_reload_keep_on_invalid() -> (r: bool)
    ensures r,
{
    true
}

impl ConfigApiSettings {
    /// Defaults: hot reload off, 500 ms debounce, keep the current
    /// configuration when a new one is invalid, no audit.
    pub fn default() -> (r: Self)
        ensures
            !r.hot_reload_enabled,
            r.hot_reload_debounce_ms == 500,
            r.hot_reload_keep_on_invalid,
            !r.hot_reload_audit,
    {
        ConfigApiSettings {
            hot_reload_enabled: false,
            hot_reload_debounce_ms: default_hot_reload_debounce_ms(),
            hot_reload_keep_on_invalid: default_hot_reload_keep_on_invalid(),
            hot_reload_audit: false,
        }
    }
}

/// Session history section.
#[derive(Clone)]
pub struct SessionConfig {
    pub enable: bool,
    pub storage_path: String,
}

pub fn default_session_enabled() -> (r: bool)
    ensures r,
{
    true
}

pub fn default_session_storage_path() -> (r: String)
    ensures r@ == spec_app_home_path("sessions"@),
{
    app_home_path("sessions")
}

impl SessionConfig {
    /// Defaults: enabled, stored under `~/.moss/sessions`.
    pub fn default() -> (r: Self)
        ensures
            r.enable,
            r.storage_path@ == spec_app_home_path("sessions"@),
    {
        SessionConfig { enable: default_session_enabled(), storage_path: default_session_storage_path() }
    }
}

/// Sub-agent executor settings.
#[derive(Clone)]
pub struct SubtaskExecutorConfig {
    /// "auto", "sequential" or "manual".
    pub parallel_mode: String,
}

/// Sub-agent system section.
#[derive(Clone)]
pub struct SubAgentSystemConfig {
    pub enabled: bool,
    /// "direct" (plan mode) or "subagent".
    pub execution_mode: String,
    pub max_concurrent: usize,
    pub default_timeout_secs: u64,
    pub default_max_iterations: u32,
    pub subtask_executor: SubtaskExecutorConfig,
}

/// What happens when a confirmation request times out.
#[derive(Clone, Copy, PartialEq, Eq, Structural, Debug)]
pub enum TimeoutBehavior {
    Reject,
    Approve,
    Skip,
    Abort,
    Wait,
}

impl TimeoutBehavior {
    pub open spec fn spec_name(self) -> Seq<char> {
        match self {
            TimeoutBehavior::Reject => "reject"@,
            TimeoutBehavior::Approve => "approve"@,
            TimeoutBehavior::Skip => "skip"@,
            TimeoutBehavior::Abort => "abort"@,
            TimeoutBehavior::Wait => "wait"@,
        }
    }

    /// Lower-case name of the behavior.
    pub fn name(&self) -> (r: String)
        ensures
            r@ == self.spec_name(),
    {
        match self {
            TimeoutBehavior::Reject => String::from_str("reject"),
            TimeoutBehavior::Approve => String::from_str("approve"),
            TimeoutBehavior::Skip => String::from_str("skip"),
            TimeoutBehavior::Abort => String::from_str("abort"),
            TimeoutBehavior::Wait => String::from_str("wait"),
        }
    }
}

/// Risk level of a tool call.
#[derive(Clone, Copy, PartialEq, Eq, Structural, Debug)]
pub enum RiskLevel {
    Low,
    Medium,
    High,
    Critical,
}

impl RiskLevel {
    pub open spec fn spec_name(self) -> Seq<char> {
        match self {
            RiskLevel::Low => "low"@,
            RiskLevel::Medium => "medium"@,
            RiskLevel::High => "high"@,
            RiskLevel::Critical => "critical"@,
        }
    }

    /// Lower-case name of the level.
    pub fn name(&self) -> (r: String)
        ensures
            r@ == self.spec_name(),
    {
        match self {
            RiskLevel::Low => String::from_str("low"),
            RiskLevel::Medium => String::from_str("medium"),
            RiskLevel::High => String::from_str("high"),
            RiskLevel::Critical => String::from_str("critical"),
        }
    }
}

/// Human-in-the-loop section.
#[derive(Clone)]
pub struct HitlConfig {
    pub enabled: bool,
    pub default_timeout_secs: u64,
    pub default_timeout_behavior: TimeoutBehavior,
    pub confirmation_threshold: RiskLevel,
    /// Per-tool risk overrides.
    pub tool_overrides: Vec<(String, RiskLevel)>,
    /// Whether runtime learning is configured.
    pub runtime_learning: Option<bool>,
}

/// Lantai knowledge base section. Floating-point settings are held as their
/// IEEE-754 bit patterns.
#[derive(Clone)]
pub struct MossLantaiConfig {
    pub enabled: bool,
    pub memory_dir: String,
    pub database_path: String,
    pub embedding: LantaiEmbeddingSubConfig,
    pub chunking: LantaiChunkingSubConfig,
    pub search: LantaiSearchSubConfig,
    pub watch: LantaiWatchSubConfig,
    pub auto_memory: LantaiAutoMemoryConfig,
}

#[derive(Clone)]
pub struct LantaiEmbeddingSubConfig {
    pub model: String,
    pub dimensions: usize,
    pub batch_size: usize,
}

#[derive(Clone)]
pub struct LantaiChunkingSubConfig {
    pub max_chunk_lines: usize,
    pub min_chunk_lines: usize,
}

/// Search settings; the weights are `f64` bit patterns.
#[derive(Clone)]
pub struct LantaiSearchSubConfig {
    pub default_limit: usize,
    pub vec_weight_bits: u64,
    pub bm25_weight_bits: u64,
    pub rrf_k: u32,
}

#[derive(Clone)]
pub struct LantaiWatchSubConfig {
    pub enabled: bool,
    pub debounce_ms: u64,
}

/// Auto-memory settings; the checkpoint ratio is an `f32` bit pattern.
#[derive(Clone)]
pub struct LantaiAutoMemoryConfig {
    pub context_injection: bool,
    pub auto_summary: bool,
    pub max_context_chars: usize,
    pub checkpoint_token_ratio_bits: u32,
    pub compaction_enabled: bool,
    pub compaction_threshold: usize,
}

pub fn default_lantai_memory_dir() -> (r: String)
    ensures r@ == "~/.lantai/memory"@,
{
    String::from_str("~/.lantai/memory")
}

pub fn default_lantai_database_path() -> (r: String)
    ensures r@ == "~/.lantai/lantai.db"@,
{
    String::from_str("~/.lantai/lantai.db")
}

pub fn default_lantai_embedding_model() -> (r: String)
    ensures r@ == "text-embedding-3-small"@,
{
    String::from_str("text-embedding-3-small")
}

pub fn default_lantai_embedding_dimensions() -> (r: usize)
    ensures r == 1536,
{
    1536
}

pub fn default_lantai_embedding_batch_size() -> (r: usize)
    ensures r == 32,
{
    32
}

pub fn default_lantai_max_chunk_lines() -> (r: usize)
    ensures r == 50,
{
    50
}

pub fn default_lantai_min_chunk_lines() -> (r: usize)
    ensures r == 5,
{
    5
}

pub fn default_lantai_search_limit() -> (r: usize)
    ensures r == 5,
{
    5
}

/// Bit pattern of the `f64` value 0.6.
pub fn default_lantai_vec_weight_bits() -> (r: u64)
    ensures r == 0x3FE3333333333333u64,
{
    0x3FE3333333333333u64
}

/// Bit pattern of the `f64` value 0.4.
pub fn default_lantai_bm25_weight_bits() -> (r: u64)
    ensures r == 0x3FD999999999999Au64,
{
    0x3FD999999999999Au64
}

pub fn default_lantai_rrf_k() -> (r: u32)
    ensures r == 60,
{
    60
}

pub fn default_lantai_watch_enabled() -> (r: bool)
    ensures r,
{
    true
}

pub fn default_lantai_watch_debounce_ms() -> (r: u64)
    ensures r == 1500,
{
    1500
}

pub fn default_true() -> (r: bool)
    ensures r,
{
    true
}

pub fn default_max_context_chars() -> (r: usize)
    ensures r == 2000,
{
    2000
}

/// Bit pattern of the `f32` value 0.75.
pub fn default_checkpoint_token_ratio_bits() -> (r: u32)
    ensures r == 0x3F400000u32,
{
    0x3F400000u32
}

pub fn default_compaction_threshold() -> (r: usize)
    ensures r == 4000,
{
    4000
}

impl MossLantaiConfig {
    /// Defaults of every Lantai setting.
    pub fn default() -> (r: Self)
        ensures
            !r.enabled,
            r.memory_dir@ == "~/.lantai/memory"@,
            r.database_path@ == "~/.lantai/lantai.db"@,
            r.embedding.model@ == "text-embedding-3-small"@,
            r.embedding.dimensions == 1536,
            r.embedding.batch_size == 32,
            r.chunking.max_chunk_lines == 50,
            r.chunking.min_chunk_lines == 5,
            r.search.default_limit == 5,
            r.search.vec_weight_bits == 0x3FE3333333333333u64,
            r.search.bm25_weight_bits == 0x3FD999999999999Au64,
            r.search.rrf_k == 60,
            r.watch.enabled,
            r.watch.debounce_ms == 1500,
            r.auto_memory.context_injection,
            r.auto_memory.auto_summary,
            r.auto_memory.max_context_chars == 2000,
            r.auto_memory.checkpoint_token_ratio_bits == 0x3F400000u32,
            r.auto_memory.compaction_enabled,
            r.auto_memory.compaction_threshold == 4000,
    {
        MossLantaiConfig {
            enabled: false,
            memory_dir: default_lantai_memory_dir(),
            database_path: default_lantai_database_path(),
            embedding: LantaiEmbeddingSubConfig {
                model: default_lantai_embedding_model(),
                dimensions: default_lantai_embedding_dimensions(),
                batch_size: default_lantai_embedding_batch_size(),
            },
            chunking: LantaiChunkingSubConfig {
                max_chunk_lines: default_lantai_max_chunk_lines(),
                min_chunk_lines: default_lantai_min_chunk_lines(),
            },
            search: LantaiSearchSubConfig {
                default_limit: default_lantai_search_limit(),
                vec_weight_bits: default_lantai_vec_weight_bits(),
                bm25_weight_bits: default_lantai_bm25_weight_bits(),
                rrf_k: default_lantai_rrf_k(),
            },
            watch: LantaiWatchSubConfig {
                enabled: default_lantai_watch_enabled(),
                debounce_ms: default_lantai_watch_debounce_ms(),
            },
            auto_memory: LantaiAutoMemoryConfig {
                context_injection: default_true(),
                auto_summary: default_true(),
                max_context_chars: default_max_context_chars(),
                checkpoint_token_ratio_bits: default_checkpoint_token_ratio_bits(),
                compaction_enabled: default_true(),
                compaction_threshold: default_compaction_threshold(),
            },
        }
    }
}

} // verus!
