//! The configuration as the API shows it: every secret is replaced by
//! whether it is set.

use vstd::prelude::*;
use super::types::{
    SanitizedArtifactsConfig, SanitizedChatConfig, SanitizedConfig, SanitizedEmbeddingConfig,
    SanitizedHitlConfig, SanitizedMcpConfig, SanitizedMcpServerConfig, SanitizedMcpToolServerConfig,
    SanitizedMemoryConfig, SanitizedRagConfig, SanitizedServerConfig, SanitizedSessionConfig,
    SanitizedSkillConfig, SanitizedSubagentConfig, spec_updatable_fields, updatable_fields,
};
use crate::config::{
    ApiKeyEnvironment, ArtifactsConfig, ChatConfig, Config, EmbeddingConfig, HitlConfig, McpConfig,
    McpServerConfig, McpToolServerConfig, MemoryConfig, RagConfig, ServerConfig, SessionConfig,
    SkillConfig, SubAgentSystemConfig, spec_effective_key,
};
use crate::text::views;

verus! {

/// Turning a configuration section into what the API may show. `env`
/// supplies the API keys that a section leaves empty.
pub trait Sanitize {
    /// The shown form.
    type Output;

    /// The shown form of the section.
    fn sanitize(&self, env: &ApiKeyEnvironment) -> Self::Output;
}

/// The shown server section: all of it.
pub open spec fn spec_sanitized_server(s: ServerConfig) -> SanitizedServerConfig {
    SanitizedServerConfig {
        host: s.host,
        port: s.port,
        max_tools_per_iteration: s.max_tools_per_iteration,
        tool_call_max_retries: s.tool_call_max_retries,
        tool_call_retry_delay_ms: s.tool_call_retry_delay_ms,
        max_plan_subtasks: s.max_plan_subtasks,
        plan_timeout_secs: s.plan_timeout_secs,
        subtask_max_retries: s.subtask_max_retries,
        subtask_react_max_iterations: s.subtask_react_max_iterations,
        subtask_react_timeout_secs: s.subtask_react_timeout_secs,
    }
}

impl Sanitize for ServerConfig {
    type Output = SanitizedServerConfig;

    fn sanitize(&self, env: &ApiKeyEnvironment) -> (r: SanitizedServerConfig)
        ensures
            r == spec_sanitized_server(*self),
    {
        SanitizedServerConfig {
            host: self.host.clone(),
            port: self.port,
            max_tools_per_iteration: self.max_tools_per_iteration,
            tool_call_max_retries: self.tool_call_max_retries,
            tool_call_retry_delay_ms: self.tool_call_retry_delay_ms,
            max_plan_subtasks: self.max_plan_subtasks,
            plan_timeout_secs: self.plan_timeout_secs,
            subtask_max_retries: self.subtask_max_retries,
            subtask_react_max_iterations: self.subtask_react_max_iterations,
            subtask_react_timeout_secs: self.subtask_react_timeout_secs,
        }
    }
}

/// The shown chat section: the key becomes whether one is in effect.
pub open spec fn spec_sanitized_chat(c: ChatConfig, env: ApiKeyEnvironment) -> SanitizedChatConfig {
    SanitizedChatConfig { url: c.url, api_key_configured: spec_effective_key(c.api_key@, env.chat) is Some, model: c.model }
}

impl Sanitize for ChatConfig {
    type Output = SanitizedChatConfig;

    fn sanitize(&self, env: &ApiKeyEnvironment) -> (r: SanitizedChatConfig)
        ensures
            r == spec_sanitized_chat(*self, *env),
    {
        SanitizedChatConfig { url: self.url.clone(), api_key_configured: self.get_api_key(env).is_some(), model: self.model.clone() }
    }
}

/// The shown embedding section.
pub open spec fn spec_sanitized_embedding(e: EmbeddingConfig, env: ApiKeyEnvironment) -> SanitizedEmbeddingConfig {
    SanitizedEmbeddingConfig { url: e.url, api_key_configured: spec_effective_key(e.api_key@, env.embedding) is Some }
}

impl Sanitize for EmbeddingConfig {
    type Output = SanitizedEmbeddingConfig;

    fn sanitize(&self, env: &ApiKeyEnvironment) -> (r: SanitizedEmbeddingConfig)
        ensures
            r == spec_sanitized_embedding(*self, *env),
    {
        SanitizedEmbeddingConfig { url: self.url.clone(), api_key_configured: self.get_api_key(env).is_some() }
    }
}

/// The shown memory section: the summary service key becomes whether it is
/// non-empty; its URL is not shown.
pub open spec fn spec_sanitized_memory(m: MemoryConfig) -> SanitizedMemoryConfig {
    SanitizedMemoryConfig {
        enable: m.enable,
        database_path: m.database_path,
        context_window: m.context_window,
        auto_summarize: m.auto_summarize,
        summarization_strategy: m.summarization_strategy,
        summarize_threshold: m.summarize_threshold,
        max_stored_messages: m.max_stored_messages,
        summary_service_api_key_configured: m.summary_service_api_key@.len() > 0,
    }
}

impl Sanitize for MemoryConfig {
    type Output = SanitizedMemoryConfig;

    fn sanitize(&self, env: &ApiKeyEnvironment) -> (r: SanitizedMemoryConfig)
        ensures
            r == spec_sanitized_memory(*self),
    {
        SanitizedMemoryConfig {
            enable: self.enable,
            database_path: self.database_path.clone(),
            context_window: self.context_window,
            auto_summarize: self.auto_summarize,
            summarization_strategy: self.summarization_strategy,
            summarize_threshold: self.summarize_threshold,
            max_stored_messages: self.max_stored_messages,
            summary_service_api_key_configured: self.summary_service_api_key.as_str().unicode_len() > 0,
        }
    }
}

/// The shown RAG section: the prompt is not shown.
pub open spec fn spec_sanitized_rag(r: RagConfig) -> SanitizedRagConfig {
    SanitizedRagConfig { enable: r.enable, policy: r.policy, context_window: r.context_window }
}

impl Sanitize for RagConfig {
    type Output = SanitizedRagConfig;

    fn sanitize(&self, env: &ApiKeyEnvironment) -> (r: SanitizedRagConfig)
        ensures
            r == spec_sanitized_rag(*self),
    {
        SanitizedRagConfig { enable: self.enable, policy: self.policy.clone(), context_window: self.context_window }
    }
}

/// The shown MCP tool server: no key, arguments or environment; the tools
/// become their number.
pub open spec fn spec_sanitized_tool_server(s: McpToolServerConfig) -> (Seq<char>, Seq<char>, Option<Seq<char>>, Option<Seq<char>>, bool, nat) {
    (
        s.name@,
        s.transport.spec_name(),
        crate::config::opt_view(s.url),
        crate::config::opt_view(s.command),
        s.enable,
        match s.tools { Some(t) => t@.len(), None => 0 },
    )
}

/// The view of a shown MCP tool server.
pub open spec fn sanitized_tool_server_view(s: SanitizedMcpToolServerConfig) -> (Seq<char>, Seq<char>, Option<Seq<char>>, Option<Seq<char>>, bool, nat) {
    (s.name@, s.transport@, crate::config::opt_view(s.url), crate::config::opt_view(s.command), s.enable, s.tools_count as nat)
}

impl Sanitize for McpToolServerConfig {
    type Output = SanitizedMcpToolServerConfig;

    fn sanitize(&self, env: &ApiKeyEnvironment) -> (r: SanitizedMcpToolServerConfig)
        ensures
            sanitized_tool_server_view(r) == spec_sanitized_tool_server(*self),
    {
        let tools_count = match &self.tools {
            Some(t) => t.len(),
            None => 0,
        };
        SanitizedMcpToolServerConfig {
            name: self.name.clone(),
            transport: self.transport.name(),
            url: self.url.clone(),
            command: self.command.clone(),
            enable: self.enable,
            tools_count,
        }
    }
}

impl Sanitize for McpServerConfig {
    type Output = SanitizedMcpServerConfig;

    fn sanitize(&self, env: &ApiKeyEnvironment) -> (r: SanitizedMcpServerConfig)
        ensures
            r.tool_servers@.len() == self.tool_servers@.len(),
            forall|i: int| 0 <= i < self.tool_servers@.len() ==> sanitized_tool_server_view(#[trigger] r.tool_servers@[i])
                == spec_sanitized_tool_server(self.tool_servers@[i]),
    {
        let mut out: Vec<SanitizedMcpToolServerConfig> = Vec::new();
        let mut i: usize = 0;
        while i < self.tool_servers.len()
            invariant
                i <= self.tool_servers@.len(),
                out@.len() == i,
                forall|j: int| 0 <= j < i ==> sanitized_tool_server_view(#[trigger] out@[j]) == spec_sanitized_tool_server(self.tool_servers@[j]),
            decreases self.tool_servers@.len() - i,
        {
            out.push(self.tool_servers[i].sanitize(env));
            i = i + 1;
        }
        SanitizedMcpServerConfig { tool_servers: out }
    }
}

impl Sanitize for McpConfig {
    type Output = SanitizedMcpConfig;

    fn sanitize(&self, env: &ApiKeyEnvironment) -> (r: SanitizedMcpConfig)
        ensures
            r.server.tool_servers@.len() == self.server.tool_servers@.len(),
            forall|i: int| 0 <= i < self.server.tool_servers@.len() ==> sanitized_tool_server_view(#[trigger] r.server.tool_servers@[i])
                == spec_sanitized_tool_server(self.server.tool_servers@[i]),
    {
        SanitizedMcpConfig { server: self.server.sanitize(env) }
    }
}

/// The skills API key is in effect.
pub open spec fn skill_key_configured(s: SkillConfig, env: ApiKeyEnvironment) -> bool {
    match s.api {
        Some(a) => spec_effective_key(a.api_key@, env.skills) is Some,
        None => false,
    }
}

/// A marketplace key is configured.
pub open spec fn market_key_configured(s: SkillConfig) -> bool {
    match s.market {
        Some(m) => m.api_key is Some,
        None => false,
    }
}

impl Sanitize for SkillConfig {
    type Output = SanitizedSkillConfig;

    fn sanitize(&self, env: &ApiKeyEnvironment) -> (r: SanitizedSkillConfig)
        ensures
            r.enabled == self.enabled,
            r.directories@ == self.directories@,
            r.max_reference_size == self.max_reference_size,
            r.api_key_configured == skill_key_configured(*self, *env),
            r.market_api_key_configured == market_key_configured(*self),
    {
        let dirs = self.directories.clone();
        assert(dirs@ =~= self.directories@);
        let api_key_configured = match &self.api {
            Some(a) => a.get_api_key(env).is_some(),
            None => false,
        };
        let market_api_key_configured = match &self.market {
            Some(m) => m.api_key.is_some(),
            None => false,
        };
        SanitizedSkillConfig {
            enabled: self.enabled,
            directories: dirs,
            max_reference_size: self.max_reference_size,
            api_key_configured,
            market_api_key_configured,
        }
    }
}

/// The shown artifacts section: all of it.
pub open spec fn spec_sanitized_artifacts(a: ArtifactsConfig) -> SanitizedArtifactsConfig {
    SanitizedArtifactsConfig {
        enabled: a.enabled,
        database_path: a.database_path,
        storage_path: a.storage_path,
        max_content_size: a.max_content_size,
        max_binary_size: a.max_binary_size,
        retention_days: a.retention_days,
        cleanup_interval_secs: a.cleanup_interval_secs,
        soft_delete_retention_days: a.soft_delete_retention_days,
        enable_cleanup: a.enable_cleanup,
    }
}

impl Sanitize for ArtifactsConfig {
    type Output = SanitizedArtifactsConfig;

    fn sanitize(&self, env: &ApiKeyEnvironment) -> (r: SanitizedArtifactsConfig)
        ensures
            r == spec_sanitized_artifacts(*self),
    {
        SanitizedArtifactsConfig {
            enabled: self.enabled,
            database_path: self.database_path.clone(),
            storage_path: self.storage_path.clone(),
            max_content_size: self.max_content_size,
            max_binary_size: self.max_binary_size,
            retention_days: self.retention_days,
            cleanup_interval_secs: self.cleanup_interval_secs,
            soft_delete_retention_days: self.soft_delete_retention_days,
            enable_cleanup: self.enable_cleanup,
        }
    }
}

/// The shown sub-agent section.
pub open spec fn spec_sanitized_subagent(s: SubAgentSystemConfig) -> SanitizedSubagentConfig {
    SanitizedSubagentConfig {
        enabled: s.enabled,
        execution_mode: s.execution_mode,
        parallel_mode: s.subtask_executor.parallel_mode,
        max_concurrent: s.max_concurrent,
        default_timeout_secs: s.default_timeout_secs,
        default_max_iterations: s.default_max_iterations,
    }
}

impl Sanitize for SubAgentSystemConfig {
    type Output = SanitizedSubagentConfig;

    fn sanitize(&self, env: &ApiKeyEnvironment) -> (r: SanitizedSubagentConfig)
        ensures
            r == spec_sanitized_subagent(*self),
    {
        SanitizedSubagentConfig {
            enabled: self.enabled,
            execution_mode: self.execution_mode.clone(),
            parallel_mode: self.subtask_executor.parallel_mode.clone(),
            max_concurrent: self.max_concurrent,
            default_timeout_secs: self.default_timeout_secs,
            default_max_iterations: self.default_max_iterations,
        }
    }
}

impl Sanitize for HitlConfig {
    type Output = SanitizedHitlConfig;

    /// Behavior and threshold by their lower-case names; overrides by their
    /// number.
    fn sanitize(&self, env: &ApiKeyEnvironment) -> (r: SanitizedHitlConfig)
        ensures
            r.enabled == self.enabled,
            r.default_timeout_secs == self.default_timeout_secs,
            r.default_timeout_behavior@ == self.default_timeout_behavior.spec_name(),
            r.confirmation_threshold@ == self.confirmation_threshold.spec_name(),
            r.tool_overrides_count == self.tool_overrides@.len(),
            r.runtime_learning_enabled == self.runtime_learning is Some,
    {
        SanitizedHitlConfig {
            enabled: self.enabled,
            default_timeout_secs: self.default_timeout_secs,
            default_timeout_behavior: self.default_timeout_behavior.name(),
            confirmation_threshold: self.confirmation_threshold.name(),
            tool_overrides_count: self.tool_overrides.len(),
            runtime_learning_enabled: self.runtime_learning.is_some(),
        }
    }
}

/// The shown session section.
pub open spec fn spec_sanitized_session(s: SessionConfig) -> SanitizedSessionConfig {
    SanitizedSessionConfig { enable: s.enable, storage_path: s.storage_path }
}

impl Sanitize for SessionConfig {
    type Output = SanitizedSessionConfig;

    fn sanitize(&self, env: &ApiKeyEnvironment) -> (r: SanitizedSessionConfig)
        ensures
            r == spec_sanitized_session(*self),
    {
        SanitizedSessionConfig { enable: self.enable, storage_path: self.storage_path.clone() }
    }
}

impl Sanitize for Config {
    type Output = SanitizedConfig;

    /// Every section shown, and the list of fields that can change at runtime.
    fn sanitize(&self, env: &ApiKeyEnvironment) -> (r: SanitizedConfig)
        ensures
            r.server == spec_sanitized_server(self.server),
            r.chat == match self.chat { Some(c) => Some(spec_sanitized_chat(c, *env)), None => None::<SanitizedChatConfig> },
            r.embedding == match self.embedding {
                Some(e) => Some(spec_sanitized_embedding(e, *env)),
                None => None::<SanitizedEmbeddingConfig>,
            },
            r.memory == match self.memory { Some(m) => Some(spec_sanitized_memory(m)), None => None::<SanitizedMemoryConfig> },
            r.rag == match self.rag { Some(g) => Some(spec_sanitized_rag(g)), None => None::<SanitizedRagConfig> },
            r.mcp is Some == self.mcp is Some,
            r.skill is Some == self.skill is Some,
            r.artifacts == match self.artifacts {
                Some(a) => Some(spec_sanitized_artifacts(a)),
                None => None::<SanitizedArtifactsConfig>,
            },
            r.subagent == match self.subagent {
                Some(s) => Some(spec_sanitized_subagent(s)),
                None => None::<SanitizedSubagentConfig>,
            },
            r.hitl is Some == self.hitl is Some,
            r.session == match self.session {
                Some(s) => Some(spec_sanitized_session(s)),
                None => None::<SanitizedSessionConfig>,
            },
            views(r.updatable_fields@) == spec_updatable_fields(),
    {
        let fields = updatable_fields();
        let mut names: Vec<String> = Vec::new();
        let mut i: usize = 0;
        while i < fields.len()
            invariant
                i <= fields@.len(),
                crate::executor::traits::str_views(fields@) == spec_updatable_fields(),
                views(names@) == crate::executor::traits::str_views(fields@).take(i as int),
            decreases fields@.len() - i,
        {
            crate::text::push_string(&mut names, String::from_str(fields[i]));
            proof {
                assert(crate::executor::traits::str_views(fields@).take(i + 1)
                    =~= crate::executor::traits::str_views(fields@).take(i as int).push(fields@[i as int]@));
            }
            i = i + 1;
        }
        assert(crate::executor::traits::str_views(fields@).take(fields@.len() as int) =~= crate::executor::traits::str_views(fields@));
        SanitizedConfig {
            server: self.server.sanitize(env),
            chat: match &self.chat { Some(c) => Some(c.sanitize(env)), None => None },
            embedding: match &self.embedding { Some(e) => Some(e.sanitize(env)), None => None },
            memory: match &self.memory { Some(m) => Some(m.sanitize(env)), None => None },
            rag: match &self.rag { Some(g) => Some(g.sanitize(env)), None => None },
            mcp: match &self.mcp { Some(m) => Some(m.sanitize(env)), None => None },
            skill: match &self.skill { Some(s) => Some(s.sanitize(env)), None => None },
            artifacts: match &self.artifacts { Some(a) => Some(a.sanitize(env)), None => None },
            subagent: match &self.subagent { Some(s) => Some(s.sanitize(env)), None => None },
            hitl: match &self.hitl { Some(h) => Some(h.sanitize(env)), None => None },
            session: match &self.session { Some(s) => Some(s.sanitize(env)), None => None },
            updatable_fields: names,
        }
    }
}

} // verus!
