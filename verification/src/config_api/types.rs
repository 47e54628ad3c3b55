//! Request and response types of the configuration API, and the lists of
//! fields that can change while the gateway runs.

use vstd::prelude::*;
use crate::config::SummarizationStrategy;
use crate::ordered_map::{OrderedMap, value_views};
use crate::text::{concat3, str_eq, u64_to_decimal, spec_decimal};

verus! {

/// The published list of fields that can be updated at runtime, as dotted
/// paths (the list a sanitized configuration shows). The chat fields are not
/// on it: a chat change is announced as needing a restart of the chat
/// client, yet the update API accepts and applies `chat.url` and
/// `chat.api_key` (see `spec_api_updatable_fields`).
pub open spec fn spec_updatable_fields() -> Seq<Seq<char>> {
    seq![
        "server.max_tools_per_iteration"@,
        "server.tool_call_max_retries"@,
        "server.tool_call_retry_delay_ms"@,
        "server.max_plan_subtasks"@,
        "server.plan_timeout_secs"@,
        "server.subtask_max_retries"@,
        "server.subtask_react_max_iterations"@,
        "server.subtask_react_timeout_secs"@,
        "embedding.url"@,
        "embedding.api_key"@,
        "memory.auto_summarize"@,
        "memory.summarization_strategy"@,
        "memory.summarize_threshold"@,
        "memory.max_stored_messages"@,
        "rag.enable"@,
        "subagent.execution_mode"@,
        "hitl.enabled"@,
        "hitl.default_timeout_secs"@,
        "hitl.default_timeout_behavior"@,
        "hitl.confirmation_threshold"@,
    ]
}

/// The fields that the update API accepts: the published list and the two
/// chat fields, which it validates and applies as well.
pub open spec fn spec_api_updatable_fields() -> Seq<Seq<char>> {
    spec_updatable_fields() + seq!["chat.url"@, "chat.api_key"@]
}

/// The fields whose update requires reloading a service.
pub open spec fn spec_side_effect_fields() -> Seq<Seq<char>> {
    seq!["embedding.url"@, "embedding.api_key"@]
}

/// The published list of fields that can be updated at runtime.
pub fn updatable_fields() -> (r: Vec<&'static str>)
    ensures
        crate::executor::traits::str_views(r@) == spec_updatable_fields(),
{
    let r = vec![
        "server.max_tools_per_iteration",
        "server.tool_call_max_retries",
        "server.tool_call_retry_delay_ms",
        "server.max_plan_subtasks",
        "server.plan_timeout_secs",
        "server.subtask_max_retries",
        "server.subtask_react_max_iterations",
        "server.subtask_react_timeout_secs",
        "embedding.url",
        "embedding.api_key",
        "memory.auto_summarize",
        "memory.summarization_strategy",
        "memory.summarize_threshold",
        "memory.max_stored_messages",
        "rag.enable",
        "subagent.execution_mode",
        "hitl.enabled",
        "hitl.default_timeout_secs",
        "hitl.default_timeout_behavior",
        "hitl.confirmation_threshold",
    ];
    assert(crate::executor::traits::str_views(r@) =~= spec_updatable_fields());
    r
}

/// The fields whose update requires reloading a service.
pub fn side_effect_fields() -> (r: Vec<&'static str>)
    ensures
        crate::executor::traits::str_views(r@) == spec_side_effect_fields(),
{
    let r = vec!["embedding.url", "embedding.api_key"];
    assert(crate::executor::traits::str_views(r@) =~= spec_side_effect_fields());
    r
}

/// Whether `field` is one of `fields`.
pub fn list_contains(fields: &Vec<&'static str>, field: &str) -> (r: bool)
    ensures
        r == crate::executor::traits::str_views(fields@).contains(field@),
{
    let mut i: usize = 0;
    while i < fields.len()
        invariant
            i <= fields@.len(),
            forall|j: int| 0 <= j < i ==> fields@[j]@ != field@,
        decreases fields@.len() - i,
    {
        if str_eq(fields[i], field) {
            assert(crate::executor::traits::str_views(fields@)[i as int] == field@);
            return true;
        }
        i = i + 1;
    }
    assert forall|j: int| 0 <= j < fields@.len() implies crate::executor::traits::str_views(fields@)[j] != field@ by {
        assert(crate::executor::traits::str_views(fields@)[j] == fields@[j]@);
    }
    false
}

/// Whether the update API accepts `field`.
pub fn is_api_updatable(field: &str) -> (r: bool)
    ensures
        r == spec_api_updatable_fields().contains(field@),
{
    proof {
        reveal_strlit("chat.url");
        reveal_strlit("chat.api_key");
    }
    let fields = updatable_fields();
    let listed = list_contains(&fields, field);
    let chat = str_eq(field, "chat.url") || str_eq(field, "chat.api_key");
    proof {
        let a = spec_updatable_fields();
        let b = seq!["chat.url"@, "chat.api_key"@];
        if listed {
            let i = choose|i: int| 0 <= i < a.len() && a[i] == field@;
            assert((a + b)[i] == field@);
        }
        if chat {
            if field@ == "chat.url"@ {
                assert((a + b)[a.len() as int] == field@);
            } else {
                assert((a + b)[a.len() as int + 1] == field@);
            }
        }
        if (a + b).contains(field@) {
            let i = choose|i: int| 0 <= i < (a + b).len() && (a + b)[i] == field@;
            if i < a.len() {
                assert(a[i] == field@);
            } else {
                assert(b[i - a.len()] == field@);
            }
        }
    }
    listed || chat
}

/// Sanitized server section.
#[derive(Debug, Clone)]
pub struct SanitizedServerConfig {
    pub host: String,
    pub port: u16,
    pub max_tools_per_iteration: usize,
    pub tool_call_max_retries: u32,
    pub tool_call_retry_delay_ms: u64,
    pub max_plan_subtasks: usize,
    pub plan_timeout_secs: u64,
    pub subtask_max_retries: u32,
    pub subtask_react_max_iterations: u32,
    pub subtask_react_timeout_secs: u64,
}

/// Sanitized chat section: the key is replaced by whether one is set.
#[derive(Debug, Clone)]
pub struct SanitizedChatConfig {
    pub url: String,
    pub api_key_configured: bool,
    pub model: String,
}

/// Sanitized embedding section.
#[derive(Debug, Clone)]
pub struct SanitizedEmbeddingConfig {
    pub url: String,
    pub api_key_configured: bool,
}

/// Sanitized memory section.
#[derive(Debug, Clone)]
pub struct SanitizedMemoryConfig {
    pub enable: bool,
    pub database_path: String,
    pub context_window: u64,
    pub auto_summarize: bool,
    pub summarization_strategy: SummarizationStrategy,
    pub summarize_threshold: u32,
    pub max_stored_messages: u32,
    pub summary_service_api_key_configured: bool,
}

/// Sanitized RAG section.
#[derive(Debug, Clone)]
pub struct SanitizedRagConfig {
    pub enable: bool,
    pub policy: String,
    pub context_window: u64,
}

/// Sanitized MCP section.
#[derive(Debug, Clone)]
pub struct SanitizedMcpConfig {
    pub server: SanitizedMcpServerConfig,
}

/// Sanitized MCP server list.
#[derive(Debug, Clone)]
pub struct SanitizedMcpServerConfig {
    pub tool_servers: Vec<SanitizedMcpToolServerConfig>,
}

/// Sanitized MCP tool server: the tool list is replaced by its length.
#[derive(Debug, Clone)]
pub struct SanitizedMcpToolServerConfig {
    pub name: String,
    pub transport: String,
    pub url: Option<String>,
    pub command: Option<String>,
    pub enable: bool,
    pub tools_count: usize,
}

/// Sanitized skills section.
#[derive(Debug, Clone)]
pub struct SanitizedSkillConfig {
    pub enabled: bool,
    pub directories: Vec<String>,
    pub max_reference_size: usize,
    pub api_key_configured: bool,
    pub market_api_key_configured: bool,
}

/// Sanitized artifacts section.
#[derive(Debug, Clone)]
pub struct SanitizedArtifactsConfig {
    pub enabled: bool,
    pub database_path: String,
    pub storage_path: Option<String>,
    pub max_content_size: u64,
    pub max_binary_size: u64,
    pub retention_days: u32,
    pub cleanup_interval_secs: u64,
    pub soft_delete_retention_days: u32,
    pub enable_cleanup: bool,
}

/// Sanitized sub-agent section.
#[derive(Debug, Clone)]
pub struct SanitizedSubagentConfig {
    pub enabled: bool,
    pub execution_mode: String,
    pub parallel_mode: String,
    pub max_concurrent: usize,
    pub default_timeout_secs: u64,
    pub default_max_iterations: u32,
}

/// Sanitized human-in-the-loop section.
#[derive(Debug, Clone)]
pub struct SanitizedHitlConfig {
    pub enabled: bool,
    pub default_timeout_secs: u64,
    pub default_timeout_behavior: String,
    pub confirmation_threshold: String,
    pub tool_overrides_count: usize,
    pub runtime_learning_enabled: bool,
}

/// Sanitized session section.
#[derive(Debug, Clone)]
pub struct SanitizedSessionConfig {
    pub enable: bool,
    pub storage_path: String,
}

/// The whole configuration with secrets removed.
#[derive(Debug, Clone)]
pub struct SanitizedConfig {
    pub server: SanitizedServerConfig,
    pub chat: Option<SanitizedChatConfig>,
    pub embedding: Option<SanitizedEmbeddingConfig>,
    pub memory: Option<SanitizedMemoryConfig>,
    pub rag: Option<SanitizedRagConfig>,
    pub mcp: Option<SanitizedMcpConfig>,
    pub skill: Option<SanitizedSkillConfig>,
    pub artifacts: Option<SanitizedArtifactsConfig>,
    pub subagent: Option<SanitizedSubagentConfig>,
    pub hitl: Option<SanitizedHitlConfig>,
    pub session: Option<SanitizedSessionConfig>,
    /// The fields that can be updated at runtime.
    pub updatable_fields: Vec<String>,
}

/// Server fields to update.
#[derive(Debug, Clone)]
pub struct ServerConfigUpdate {
    pub max_tools_per_iteration: Option<usize>,
    pub tool_call_max_retries: Option<u32>,
    pub tool_call_retry_delay_ms: Option<u64>,
    pub max_plan_subtasks: Option<usize>,
    pub plan_timeout_secs: Option<u64>,
    pub subtask_max_retries: Option<u32>,
    pub subtask_react_max_iterations: Option<u32>,
    pub subtask_react_timeout_secs: Option<u64>,
}

/// Chat fields to update.
#[derive(Debug, Clone)]
pub struct ChatConfigUpdate {
    pub url: Option<String>,
    pub api_key: Option<String>,
    pub model: Option<String>,
    pub model_context_size: Option<u64>,
}

/// Embedding fields to update.
#[derive(Debug, Clone)]
pub struct EmbeddingConfigUpdate {
    pub url: Option<String>,
    pub api_key: Option<String>,
}

/// Memory fields to update.
#[derive(Debug, Clone)]
pub struct MemoryConfigUpdate {
    pub auto_summarize: Option<bool>,
    pub summarization_strategy: Option<SummarizationStrategy>,
    pub summarize_threshold: Option<u32>,
    pub max_stored_messages: Option<u32>,
}

/// RAG fields to update.
#[derive(Debug, Clone)]
pub struct RagConfigUpdate {
    pub enable: Option<bool>,
}

/// Sub-agent fields to update.
#[derive(Debug, Clone)]
pub struct SubagentConfigUpdate {
    /// `direct` or `subagent`.
    pub execution_mode: Option<String>,
    /// `auto`, `sequential` or `manual`.
    pub parallel_mode: Option<String>,
}

/// Human-in-the-loop fields to update.
#[derive(Debug, Clone)]
pub struct HitlConfigUpdate {
    pub enabled: Option<bool>,
    pub default_timeout_secs: Option<u64>,
    /// `reject`, `approve`, `skip`, `abort` or `wait`.
    pub default_timeout_behavior: Option<String>,
    /// `low`, `medium`, `high` or `critical`.
    pub confirmation_threshold: Option<String>,
}

/// Auto-memory and embedding fields of the knowledge base to update. The
/// checkpoint ratio is an `f32` bit pattern.
#[derive(Debug, Clone)]
pub struct LantaiAutoMemoryConfigUpdate {
    pub auto_summary: Option<bool>,
    pub checkpoint_token_ratio_bits: Option<u32>,
    pub embedding_model: Option<String>,
    pub embedding_dimensions: Option<usize>,
    pub embedding_batch_size: Option<usize>,
}

/// A request to update configuration fields.
#[derive(Debug, Clone)]
pub struct ConfigUpdateRequest {
    pub server: Option<ServerConfigUpdate>,
    pub chat: Option<ChatConfigUpdate>,
    pub embedding: Option<EmbeddingConfigUpdate>,
    pub memory: Option<MemoryConfigUpdate>,
    pub rag: Option<RagConfigUpdate>,
    pub subagent: Option<SubagentConfigUpdate>,
    pub hitl: Option<HitlConfigUpdate>,
    pub lantai_auto_memory: Option<LantaiAutoMemoryConfigUpdate>,
}

/// The answer to an update request.
#[derive(Debug, Clone)]
pub struct ConfigUpdateResponse {
    /// Every requested field was updated.
    pub success: bool,
    /// Fields that were updated.
    pub updated_fields: Vec<String>,
    /// Fields that were not, with the reason.
    pub failed_fields: OrderedMap<String>,
    /// Actions that the update triggered, by field.
    pub requires_action: OrderedMap<String>,
    /// A message for people.
    pub message: String,
}

/// The message of a successful update of `n` fields.
pub open spec fn spec_success_message(n: nat) -> Seq<char> {
    if n == 0 {
        "No fields were updated"@
    } else {
        "Configuration updated successfully: "@ + spec_decimal(n) + " field(s)"@
    }
}

impl ConfigUpdateResponse {
    /// A successful answer for these updated fields.
    pub fn success(updated_fields: Vec<String>) -> (r: Self)
        ensures
            r.success,
            r.updated_fields@ == updated_fields@,
            r.failed_fields@ == Map::<Seq<char>, String>::empty(),
            r.requires_action@ == Map::<Seq<char>, String>::empty(),
            r.message@ == spec_success_message(updated_fields@.len()),
    {
        let message = if updated_fields.len() == 0 {
            String::from_str("No fields were updated")
        } else {
            let n = u64_to_decimal(updated_fields.len() as u64);
            concat3("Configuration updated successfully: ", n.as_str(), " field(s)")
        };
        let failed: OrderedMap<String> = OrderedMap::new();
        let actions: OrderedMap<String> = OrderedMap::new();
        ConfigUpdateResponse { success: true, updated_fields, failed_fields: failed, requires_action: actions, message }
    }

    /// A partly successful answer: some fields were updated, others failed.
    pub fn partial(updated_fields: Vec<String>, failed_fields: OrderedMap<String>) -> (r: Self)
        ensures
            !r.success,
            r.updated_fields@ == updated_fields@,
            r.failed_fields == failed_fields,
            r.requires_action@ == Map::<Seq<char>, String>::empty(),
            r.message@ == "Some fields could not be updated"@,
    {
        let actions: OrderedMap<String> = OrderedMap::new();
        ConfigUpdateResponse {
            success: false,
            updated_fields,
            failed_fields,
            requires_action: actions,
            message: String::from_str("Some fields could not be updated"),
        }
    }

    /// A failed answer with this message.
    pub fn failure(message: String) -> (r: Self)
        ensures
            !r.success,
            r.updated_fields@.len() == 0,
            r.failed_fields@ == Map::<Seq<char>, String>::empty(),
            r.requires_action@ == Map::<Seq<char>, String>::empty(),
            r.message == message,
    {
        let failed: OrderedMap<String> = OrderedMap::new();
        let actions: OrderedMap<String> = OrderedMap::new();
        ConfigUpdateResponse { success: false, updated_fields: Vec::new(), failed_fields: failed, requires_action: actions, message }
    }

    /// The answer with one more triggered action.
    pub fn with_action(self, field: &str, action: &str) -> (r: Self)
        ensures
            r.success == self.success,
            r.updated_fields == self.updated_fields,
            r.failed_fields == self.failed_fields,
            value_views(r.requires_action@)
                == value_views(self.requires_action@).insert(field@, action@),
            r.message == self.message,
    {
        let mut s = self;
        s.requires_action.insert(String::from_str(field), String::from_str(action));
        proof {
            assert(value_views(s.requires_action@)
                =~= value_views(self.requires_action@).insert(field@, action@));
        }
        s
    }
}

/// A request to test a chat service.
#[derive(Debug, Clone)]
pub struct TestChatServiceRequest {
    pub url: String,
    pub api_key: Option<String>,
}

/// The result of testing a chat service.
#[derive(Debug, Clone)]
pub struct TestChatServiceResponse {
    pub success: bool,
    pub error: Option<String>,
    pub models: Option<Vec<String>>,
}

impl TestChatServiceResponse {
    /// The service answered with these models.
    pub fn success(models: Vec<String>) -> (r: Self)
        ensures
            r.success,
            r.error is None,
            r.models matches Some(m) && m@ == models@,
    {
        TestChatServiceResponse { success: true, error: None, models: Some(models) }
    }

    /// The test failed with this error.
    pub fn failure(error: String) -> (r: Self)
        ensures
            !r.success,
            r.error == Some(error),
            r.models is None,
    {
        TestChatServiceResponse { success: false, error: Some(error), models: None }
    }
}

} // verus!
