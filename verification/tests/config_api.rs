use moss::config::{
    RagConfig, SubAgentSystemConfig, SubtaskExecutorConfig,
    ApiKeyEnvironment, EmbeddingConfig, MossLantaiConfig, SkillApiConfig, ArtifactsConfig, ChatConfig, Config, MemoryConfig, ServerConfig, SkillConfig,
    SummarizationStrategy,
};
use moss::config_api::diff::{
    diff_embedding_config, diff_memory_config, diff_rag_config,
    apply_changes, apply_single_change, diff_chat_config, diff_configs, diff_optional_config,
    diff_server_config, is_updatable_field, validate_change, ConfigChange, ConfigValue,
};
use moss::config_api::handlers::{handle_config_update, STATUS_BAD_REQUEST, STATUS_OK};
use moss::config_api::persist::PersistResult;
use moss::config_api::reload::{
    determine_services_to_reload, find_config_servers, lantai_embedding_plan, LantaiEmbeddingPlan, ReloadResult,
};
use moss::config_api::sanitize::Sanitize;
use moss::config_api::types::{
    EmbeddingConfigUpdate, LantaiAutoMemoryConfigUpdate, SubagentConfigUpdate,
    side_effect_fields, updatable_fields, ChatConfigUpdate, ConfigUpdateRequest, ConfigUpdateResponse,
    MemoryConfigUpdate, RagConfigUpdate, ServerConfigUpdate,
};
use moss::config_api::update::{
    apply_chat_config_update, apply_config_update, apply_embedding_config_update,
    apply_lantai_auto_memory_config_update, apply_memory_config_update, apply_rag_config_update,
    apply_server_config_update, apply_subagent_config_update, UpdateResult,
};
use moss::config_api::validate::{
    validate_embedding_config, validate_rag_config,
    is_field_updatable, validate_chat_config, validate_config_update, validate_memory_config,
    validate_server_config, ValidationResult,
};
use moss::config_api::watcher::{ConfigWatcherError, MtimeReading, ReloadGate};
use moss::ordered_map::OrderedMap;

fn env() -> ApiKeyEnvironment {
    ApiKeyEnvironment::unset()
}

fn sample_server() -> ServerConfig {
    ServerConfig {
        host: "127.0.0.1".to_string(),
        port: 3389,
        max_tools_per_iteration: 5,
        tool_call_max_retries: 2,
        tool_call_retry_delay_ms: 500,
        max_plan_subtasks: 10,
        plan_timeout_secs: 600,
        subtask_max_retries: 2,
        subtask_react_max_iterations: 5,
        subtask_react_timeout_secs: 60,
    }
}

fn server_update() -> ServerConfigUpdate {
    ServerConfigUpdate {
        max_tools_per_iteration: None,
        tool_call_max_retries: None,
        tool_call_retry_delay_ms: None,
        max_plan_subtasks: None,
        plan_timeout_secs: None,
        subtask_max_retries: None,
        subtask_react_max_iterations: None,
        subtask_react_timeout_secs: None,
    }
}

// ---------------------------------------------------------------------------
// diff
// ---------------------------------------------------------------------------

#[test]
fn test_is_updatable_field() {
    assert!(is_updatable_field("server.max_tools_per_iteration"));
    assert!(is_updatable_field("chat.url"));
    assert!(is_updatable_field("chat.api_key"));
    assert!(is_updatable_field("memory.auto_summarize"));
    assert!(is_updatable_field("rag.enable"));

    assert!(!is_updatable_field("server.host"));
    assert!(!is_updatable_field("server.port"));
    assert!(!is_updatable_field("memory.enable"));
    assert!(!is_updatable_field("unknown.field"));
}

#[test]
fn test_config_change_new() {
    let change = ConfigChange::new("server.max_tools_per_iteration", ConfigValue::UInt(5), ConfigValue::UInt(10), true);

    assert_eq!(change.field, "server.max_tools_per_iteration");
    assert_eq!(change.old_value, ConfigValue::UInt(5));
    assert_eq!(change.new_value, ConfigValue::UInt(10));
    assert!(change.is_hot_updatable);
}

#[test]
fn test_diff_server_config_no_changes() {
    let config = sample_server();
    let mut changes = Vec::new();
    diff_server_config(&config, &config, &mut changes);
    assert!(changes.is_empty());
}

#[test]
fn test_diff_server_config_hot_updatable() {
    let old = sample_server();
    let new = ServerConfig { max_tools_per_iteration: 10, tool_call_max_retries: 3, ..sample_server() };

    let mut changes = Vec::new();
    diff_server_config(&old, &new, &mut changes);

    assert_eq!(changes.len(), 2);
    assert!(changes.iter().all(|c| c.is_hot_updatable));
    assert!(changes.iter().any(|c| c.field == "server.max_tools_per_iteration"));
    assert!(changes.iter().any(|c| c.field == "server.tool_call_max_retries"));
}

#[test]
fn test_diff_server_config_requires_restart() {
    let old = sample_server();
    let new = ServerConfig { host: "0.0.0.0".to_string(), port: 8080, ..sample_server() };

    let mut changes = Vec::new();
    diff_server_config(&old, &new, &mut changes);

    assert_eq!(changes.len(), 2);
    assert!(changes.iter().all(|c| !c.is_hot_updatable));
    assert!(changes.iter().any(|c| c.field == "server.host"));
    assert!(changes.iter().any(|c| c.field == "server.port"));
}

#[test]
fn test_diff_optional_config_both_none() {
    let mut changes = Vec::new();
    diff_chat_config(None, None, &mut changes, &env());
    assert!(changes.is_empty());
}

#[test]
fn test_diff_optional_config_section_added() {
    let mut changes = Vec::new();
    let new_config = MemoryConfig::default();
    diff_optional_config(None, Some(&new_config), "memory", &mut changes, &env());

    assert_eq!(changes.len(), 1);
    assert_eq!(changes[0].field, "memory (section)");
    assert!(!changes[0].is_hot_updatable);
}

#[test]
fn test_diff_optional_config_section_removed() {
    let mut changes = Vec::new();
    let old_config = MemoryConfig::default();
    diff_optional_config(Some(&old_config), None, "memory", &mut changes, &env());

    assert_eq!(changes.len(), 1);
    assert_eq!(changes[0].field, "memory (section)");
    assert!(!changes[0].is_hot_updatable);
}

#[test]
fn test_diff_configs_empty() {
    let config = Config::default();
    let changes = diff_configs(&config, &config, &env());
    assert!(changes.is_empty());
}

#[test]
fn test_diff_configs_multiple_changes() {
    let old = Config::default();
    let mut new = Config::default();
    new.server.max_tools_per_iteration = 10;
    new.memory = Some(MemoryConfig::default());

    let changes = diff_configs(&old, &new, &env());

    assert!(changes.len() >= 2);
    assert!(changes.iter().any(|c| c.field == "server.max_tools_per_iteration"));
    assert!(changes.iter().any(|c| c.field == "memory (section)"));
}

#[test]
fn test_validate_change_non_hot_updatable() {
    let change = ConfigChange::new(
        "server.host",
        ConfigValue::Str("127.0.0.1".to_string()),
        ConfigValue::Str("0.0.0.0".to_string()),
        false,
    );
    let result = validate_change(&change);
    assert!(!result.is_valid);
    assert!(result.error.unwrap().contains("not hot-updatable"));
}

#[test]
fn test_validate_change_server_max_tools_valid() {
    let change = ConfigChange::new("server.max_tools_per_iteration", ConfigValue::UInt(5), ConfigValue::UInt(10), true);
    let result = validate_change(&change);
    assert!(result.is_valid);
}

#[test]
fn test_validate_change_server_max_tools_invalid_range() {
    let change = ConfigChange::new("server.max_tools_per_iteration", ConfigValue::UInt(5), ConfigValue::UInt(100), true);
    let result = validate_change(&change);
    assert!(!result.is_valid);
    assert!(result.error.unwrap().contains("between 1 and 50"));
}

#[test]
fn test_validate_change_server_max_tools_invalid_type() {
    let change = ConfigChange::new(
        "server.max_tools_per_iteration",
        ConfigValue::UInt(5),
        ConfigValue::Str("not a number".to_string()),
        true,
    );
    let result = validate_change(&change);
    assert!(!result.is_valid);
    assert!(result.error.unwrap().contains("positive integer"));
}

#[test]
fn test_validate_change_chat_url_valid() {
    let change = ConfigChange::new(
        "chat.url",
        ConfigValue::Str("http://old.example.com/v1".to_string()),
        ConfigValue::Str("https://new.example.com/v1".to_string()),
        true,
    );
    let result = validate_change(&change);
    assert!(result.is_valid);
}

#[test]
fn test_validate_change_chat_url_invalid_empty() {
    let change = ConfigChange::new(
        "chat.url",
        ConfigValue::Str("http://example.com/v1".to_string()),
        ConfigValue::Str("".to_string()),
        true,
    );
    let result = validate_change(&change);
    assert!(!result.is_valid);
    assert!(result.error.unwrap().contains("cannot be empty"));
}

#[test]
fn test_validate_change_chat_url_invalid_protocol() {
    let change = ConfigChange::new(
        "chat.url",
        ConfigValue::Str("http://example.com/v1".to_string()),
        ConfigValue::Str("ftp://invalid.com".to_string()),
        true,
    );
    let result = validate_change(&change);
    assert!(!result.is_valid);
    assert!(result.error.unwrap().contains("http://"));
}

#[test]
fn test_validate_change_memory_auto_summarize_valid() {
    let change = ConfigChange::new("memory.auto_summarize", ConfigValue::Bool(false), ConfigValue::Bool(true), true);
    let result = validate_change(&change);
    assert!(result.is_valid);
}

#[test]
fn test_validate_change_memory_auto_summarize_invalid_type() {
    let change = ConfigChange::new(
        "memory.auto_summarize",
        ConfigValue::Bool(false),
        ConfigValue::Str("true".to_string()),
        true,
    );
    let result = validate_change(&change);
    assert!(!result.is_valid);
    assert!(result.error.unwrap().contains("boolean"));
}

#[test]
fn test_validate_change_memory_strategy_valid() {
    let change = ConfigChange::new(
        "memory.summarization_strategy",
        ConfigValue::Str("Incremental".to_string()),
        ConfigValue::Str("FullHistory".to_string()),
        true,
    );
    let result = validate_change(&change);
    assert!(result.is_valid);
}

#[test]
fn test_validate_change_memory_strategy_invalid() {
    let change = ConfigChange::new(
        "memory.summarization_strategy",
        ConfigValue::Str("Incremental".to_string()),
        ConfigValue::Str("InvalidStrategy".to_string()),
        true,
    );
    let result = validate_change(&change);
    assert!(!result.is_valid);
    assert!(result.error.unwrap().contains("Incremental"));
}

#[test]
fn test_validate_change_rag_enable_valid() {
    let change = ConfigChange::new("rag.enable", ConfigValue::Bool(false), ConfigValue::Bool(true), true);
    let result = validate_change(&change);
    assert!(result.is_valid);
}

#[test]
fn test_apply_single_change_server_max_tools() {
    let mut config = Config::default();
    let change = ConfigChange::new("server.max_tools_per_iteration", ConfigValue::UInt(5), ConfigValue::UInt(10), true);

    let result = apply_single_change(&mut config, &change);
    assert!(result.success);
    assert!(!result.requires_reload);
    assert_eq!(config.server.max_tools_per_iteration, 10);
}

#[test]
fn test_apply_single_change_server_tool_call_max_retries() {
    let mut config = Config::default();
    let change = ConfigChange::new("server.tool_call_max_retries", ConfigValue::UInt(2), ConfigValue::UInt(5), true);

    let result = apply_single_change(&mut config, &change);
    assert!(result.success);
    assert_eq!(config.server.tool_call_max_retries, 5);
}

#[test]
fn test_apply_single_change_server_plan_timeout() {
    let mut config = Config::default();
    let change = ConfigChange::new("server.plan_timeout_secs", ConfigValue::UInt(600), ConfigValue::UInt(1200), true);

    let result = apply_single_change(&mut config, &change);
    assert!(result.success);
    assert_eq!(config.server.plan_timeout_secs, 1200);
}

#[test]
fn test_apply_single_change_validation_failure() {
    let mut config = Config::default();
    let change = ConfigChange::new("server.max_tools_per_iteration", ConfigValue::UInt(5), ConfigValue::UInt(100), true);

    let result = apply_single_change(&mut config, &change);
    assert!(!result.success);
    assert!(result.error.is_some());
    assert_ne!(config.server.max_tools_per_iteration, 100);
}

#[test]
fn test_apply_single_change_memory_auto_summarize() {
    let mut config = Config { memory: Some(MemoryConfig::default()), ..Config::default() };
    let change = ConfigChange::new("memory.auto_summarize", ConfigValue::Bool(true), ConfigValue::Bool(false), true);

    let result = apply_single_change(&mut config, &change);
    assert!(result.success);
    assert!(!config.memory.as_ref().unwrap().auto_summarize);
}

#[test]
fn test_apply_single_change_memory_summarization_strategy() {
    let mut config = Config { memory: Some(MemoryConfig::default()), ..Config::default() };
    let change = ConfigChange::new(
        "memory.summarization_strategy",
        ConfigValue::Str("Incremental".to_string()),
        ConfigValue::Str("FullHistory".to_string()),
        true,
    );

    let result = apply_single_change(&mut config, &change);
    assert!(result.success);
    assert_eq!(config.memory.as_ref().unwrap().summarization_strategy, SummarizationStrategy::FullHistory);
}

#[test]
fn test_apply_single_change_memory_not_initialized() {
    let mut config = Config::default();
    let change = ConfigChange::new("memory.auto_summarize", ConfigValue::Bool(false), ConfigValue::Bool(true), true);

    let result = apply_single_change(&mut config, &change);
    assert!(!result.success);
    assert!(result.error.unwrap().contains("not initialized"));
}

#[test]
fn test_apply_single_change_unknown_field() {
    let mut config = Config::default();
    let change = ConfigChange::new("unknown.field", ConfigValue::UInt(1), ConfigValue::UInt(2), true);

    let result = apply_single_change(&mut config, &change);
    assert!(!result.success);
    assert!(result.error.unwrap().contains("Unknown field"));
}

#[test]
fn test_apply_single_change_non_hot_updatable() {
    let mut config = Config::default();
    let change = ConfigChange::new(
        "server.host",
        ConfigValue::Str("127.0.0.1".to_string()),
        ConfigValue::Str("0.0.0.0".to_string()),
        false,
    );

    let result = apply_single_change(&mut config, &change);
    assert!(!result.success);
    assert!(result.error.unwrap().contains("not hot-updatable"));
}

#[test]
fn test_apply_changes_multiple() {
    let mut config = Config { memory: Some(MemoryConfig::default()), ..Config::default() };

    let changes = vec![
        ConfigChange::new("server.max_tools_per_iteration", ConfigValue::UInt(5), ConfigValue::UInt(10), true),
        ConfigChange::new("server.tool_call_max_retries", ConfigValue::UInt(2), ConfigValue::UInt(5), true),
        ConfigChange::new("memory.auto_summarize", ConfigValue::Bool(true), ConfigValue::Bool(false), true),
    ];

    let results = apply_changes(&mut config, &changes);

    assert_eq!(results.len(), 3);
    assert!(results.iter().all(|(_, r)| r.success));
    assert_eq!(config.server.max_tools_per_iteration, 10);
    assert_eq!(config.server.tool_call_max_retries, 5);
    assert!(!config.memory.as_ref().unwrap().auto_summarize);
}

#[test]
fn test_apply_changes_partial_success() {
    let mut config = Config::default();

    let changes = vec![
        ConfigChange::new("server.max_tools_per_iteration", ConfigValue::UInt(5), ConfigValue::UInt(10), true),
        ConfigChange::new("memory.auto_summarize", ConfigValue::Bool(true), ConfigValue::Bool(false), true),
    ];

    let results = apply_changes(&mut config, &changes);

    assert_eq!(results.len(), 2);
    assert!(results[0].1.success);
    assert!(!results[1].1.success);
    assert_eq!(config.server.max_tools_per_iteration, 10);
}

// ---------------------------------------------------------------------------
// handlers
// ---------------------------------------------------------------------------

#[test]
fn handlers_test_is_field_updatable() {
    assert!(moss::config_api::handlers::is_field_updatable("server.max_tools_per_iteration"));
    assert!(moss::config_api::handlers::is_field_updatable("chat.url"));
    assert!(moss::config_api::handlers::is_field_updatable("chat.api_key"));
    assert!(!moss::config_api::handlers::is_field_updatable("server.host"));
    assert!(!moss::config_api::handlers::is_field_updatable("server.port"));
    assert!(!moss::config_api::handlers::is_field_updatable("memory.database_path"));
}

fn empty_request() -> ConfigUpdateRequest {
    ConfigUpdateRequest {
        server: None,
        chat: None,
        embedding: None,
        memory: None,
        rag: None,
        subagent: None,
        hitl: None,
        lantai_auto_memory: None,
    }
}

#[test]
fn handle_config_update_rejects_invalid_values_and_keeps_config() {
    let mut config = Config::default();
    let mut request = empty_request();
    request.server = Some(ServerConfigUpdate { max_tools_per_iteration: Some(100), ..server_update() });
    let (status, response) = handle_config_update(&mut config, &request);
    assert_eq!(status, STATUS_BAD_REQUEST);
    assert!(!response.success);
    assert!(response.failed_fields.contains_key("server.max_tools_per_iteration"));
    assert_eq!(config.server.max_tools_per_iteration, 5);
}

#[test]
fn handle_config_update_applies_valid_values() {
    let mut config = Config::default();
    let mut request = empty_request();
    request.server = Some(ServerConfigUpdate { plan_timeout_secs: Some(900), ..server_update() });
    let (status, response) = handle_config_update(&mut config, &request);
    assert_eq!(status, STATUS_OK);
    assert!(response.success);
    assert_eq!(response.updated_fields, vec!["server.plan_timeout_secs".to_string()]);
    assert_eq!(response.message, "Configuration updated successfully: 1 field(s)");
    assert_eq!(config.server.plan_timeout_secs, 900);
}

// ---------------------------------------------------------------------------
// persist
// ---------------------------------------------------------------------------

#[test]
fn test_persist_result_success() {
    let result = PersistResult::success("/tmp/config.toml".to_string());
    assert!(result.success);
    assert!(result.path.is_some());
    assert!(result.error.is_none());
}

#[test]
fn test_persist_result_failure() {
    let result = PersistResult::failure("Write error".to_string());
    assert!(!result.success);
    assert!(result.path.is_none());
    assert_eq!(result.error, Some("Write error".to_string()));
}

#[test]
fn persist_paths_for_a_config_file() {
    assert_eq!(moss::config_api::persist::temp_path_for("/etc/moss/config.toml"), "/etc/moss/config.toml.tmp");
    assert_eq!(moss::config_api::persist::backup_path_for("/etc/moss/config.toml"), "/etc/moss/config.toml.bak");
}

// ---------------------------------------------------------------------------
// reload
// ---------------------------------------------------------------------------

#[test]
fn test_reload_result_success() {
    let result = ReloadResult::success("chat");
    assert!(result.success);
    assert_eq!(result.service, "chat");
    assert!(result.error.is_none());
}

#[test]
fn test_reload_result_failure() {
    let result = ReloadResult::failure("embedding", "Connection failed".to_string());
    assert!(!result.success);
    assert_eq!(result.service, "embedding");
    assert_eq!(result.error, Some("Connection failed".to_string()));
}

#[test]
fn test_determine_services_to_reload_chat() {
    let fields = vec!["chat.url".to_string()];
    let (reload_chat, reload_embedding, reload_lantai) = determine_services_to_reload(&fields);
    assert!(reload_chat);
    assert!(!reload_embedding);
    assert!(!reload_lantai);
}

#[test]
fn test_determine_services_to_reload_embedding() {
    let fields = vec!["embedding.api_key".to_string()];
    let (reload_chat, reload_embedding, reload_lantai) = determine_services_to_reload(&fields);
    assert!(!reload_chat);
    assert!(reload_embedding);
    assert!(!reload_lantai);
}

#[test]
fn test_determine_services_to_reload_both() {
    let fields = vec!["chat.url".to_string(), "embedding.url".to_string(), "chat.api_key".to_string()];
    let (reload_chat, reload_embedding, reload_lantai) = determine_services_to_reload(&fields);
    assert!(reload_chat);
    assert!(reload_embedding);
    assert!(!reload_lantai);
}

#[test]
fn test_determine_services_to_reload_none() {
    let fields = vec!["server.max_tools_per_iteration".to_string()];
    let (reload_chat, reload_embedding, reload_lantai) = determine_services_to_reload(&fields);
    assert!(!reload_chat);
    assert!(!reload_embedding);
    assert!(!reload_lantai);
}

#[test]
fn test_determine_services_to_reload_lantai_embedding() {
    let fields = vec!["lantai_auto_memory.embedding_model".to_string()];
    let (reload_chat, reload_embedding, reload_lantai) = determine_services_to_reload(&fields);
    assert!(!reload_chat);
    assert!(!reload_embedding);
    assert!(reload_lantai);
}

#[test]
fn test_determine_services_to_reload_lantai_dimensions() {
    let fields = vec![
        "lantai_auto_memory.embedding_dimensions".to_string(),
        "lantai_auto_memory.embedding_batch_size".to_string(),
    ];
    let (reload_chat, reload_embedding, reload_lantai) = determine_services_to_reload(&fields);
    assert!(!reload_chat);
    assert!(!reload_embedding);
    assert!(reload_lantai);
}

// ---------------------------------------------------------------------------
// sanitize
// ---------------------------------------------------------------------------

#[test]
fn test_config_sanitize() {
    let config = Config::default();
    let sanitized = config.sanitize(&env());

    assert_eq!(sanitized.server.host, "127.0.0.1");
    assert_eq!(sanitized.server.port, 3389);
    assert!(sanitized.chat.is_none());
    assert!(sanitized.embedding.is_none());
    assert!(!sanitized.updatable_fields.is_empty());
}

#[test]
fn test_server_config_sanitize() {
    let server = ServerConfig {
        host: "0.0.0.0".to_string(),
        port: 8080,
        max_tools_per_iteration: 10,
        tool_call_max_retries: 3,
        tool_call_retry_delay_ms: 1000,
        max_plan_subtasks: 20,
        plan_timeout_secs: 1200,
        subtask_max_retries: 3,
        subtask_react_max_iterations: 10,
        subtask_react_timeout_secs: 120,
    };

    let sanitized = server.sanitize(&env());
    assert_eq!(sanitized.host, "0.0.0.0");
    assert_eq!(sanitized.port, 8080);
    assert_eq!(sanitized.max_tools_per_iteration, 10);
}

#[test]
fn test_memory_config_sanitize_hides_api_key() {
    let memory = MemoryConfig {
        enable: true,
        database_path: "data/memory.db".to_string(),
        context_window: 8192,
        auto_summarize: true,
        summarization_strategy: SummarizationStrategy::Incremental,
        summarize_threshold: 12,
        max_stored_messages: 20,
        summary_service_base_url: "http://localhost:8080".to_string(),
        summary_service_api_key: "secret-api-key".to_string(),
    };

    let sanitized = memory.sanitize(&env());
    assert!(sanitized.summary_service_api_key_configured);
    let shown = format!("{:?}", sanitized);
    assert!(!shown.contains("secret-api-key"));
}

#[test]
fn test_skill_config_sanitize() {
    let skill = SkillConfig::default();
    let sanitized = skill.sanitize(&env());

    assert!(sanitized.enabled);
    assert!(!sanitized.directories.is_empty());
    assert!(!sanitized.api_key_configured);
    assert!(!sanitized.market_api_key_configured);
}

#[test]
fn test_artifacts_config_sanitize() {
    let artifacts = ArtifactsConfig::default();
    let sanitized = artifacts.sanitize(&env());

    assert!(!sanitized.enabled);
    assert_eq!(sanitized.database_path, "data/artifacts.db");
}

#[test]
fn chat_sanitize_uses_the_environment_key() {
    let chat = ChatConfig::new("http://localhost:8080/v1".to_string(), String::new());
    let without = chat.sanitize(&env());
    assert!(!without.api_key_configured);
    let with_env = ApiKeyEnvironment { chat: Some("sk-env".to_string()), embedding: None, skills: None };
    let with = chat.sanitize(&with_env);
    assert!(with.api_key_configured);
}

// ---------------------------------------------------------------------------
// types
// ---------------------------------------------------------------------------

#[test]
fn test_config_update_response_success() {
    let response = ConfigUpdateResponse::success(vec!["server.max_tools_per_iteration".to_string()]);
    assert!(response.success);
    assert_eq!(response.updated_fields.len(), 1);
    assert!(response.failed_fields.is_empty());
}

#[test]
fn test_config_update_response_partial() {
    let mut failed = OrderedMap::new();
    failed.insert("server.host".to_string(), "Field is not updatable at runtime".to_string());

    let response = ConfigUpdateResponse::partial(vec!["server.max_tools_per_iteration".to_string()], failed);
    assert!(!response.success);
    assert_eq!(response.updated_fields.len(), 1);
    assert_eq!(response.failed_fields.len(), 1);
}

#[test]
fn test_side_effect_fields_list() {
    let fields = side_effect_fields();
    assert!(!fields.contains(&"chat.url"));
    assert!(!fields.contains(&"chat.api_key"));
    assert!(fields.contains(&"embedding.url"));
    assert!(fields.contains(&"embedding.api_key"));
    assert!(!fields.contains(&"server.max_tools_per_iteration"));
}

#[test]
fn test_updatable_fields_list() {
    let fields = updatable_fields();
    assert!(fields.contains(&"server.max_tools_per_iteration"));
    assert!(!fields.contains(&"chat.url"));
    assert!(!fields.contains(&"chat.api_key"));
    assert!(!fields.contains(&"chat.model"));
    assert!(!fields.contains(&"server.host"));
    assert!(!fields.contains(&"server.port"));
}

#[test]
fn test_updatable_fields_in_sanitized_config() {
    let config = Config::default();
    let sanitized = config.sanitize(&env());
    assert!(sanitized.updatable_fields.contains(&"server.max_tools_per_iteration".to_string()));
    assert!(!sanitized.updatable_fields.contains(&"chat.url".to_string()));
    assert!(sanitized.updatable_fields.contains(&"embedding.url".to_string()));
    assert!(!sanitized.updatable_fields.contains(&"server.host".to_string()));
}

#[test]
fn api_accepts_chat_fields_beyond_the_published_list() {
    assert!(!updatable_fields().contains(&"chat.url"));
    assert!(is_field_updatable("chat.url"));
    assert!(is_updatable_field("chat.api_key"));
    assert!(!is_updatable_field("chat.model"));
}

#[test]
fn response_with_action_records_the_action() {
    let response = ConfigUpdateResponse::success(vec![]).with_action("embedding.url", "reload_embedding_service");
    assert_eq!(response.message, "No fields were updated");
    assert_eq!(response.requires_action.get("embedding.url"), Some(&"reload_embedding_service".to_string()));
}

// ---------------------------------------------------------------------------
// update
// ---------------------------------------------------------------------------

#[test]
fn test_update_result_new() {
    let result = UpdateResult::new();
    assert!(result.updated_fields.is_empty());
    assert!(result.side_effect_fields.is_empty());
    assert!(result.failed_fields.is_empty());
}

#[test]
fn test_update_result_add_updated() {
    let mut result = UpdateResult::new();
    result.add_updated("server.max_tools_per_iteration");
    assert_eq!(result.updated_fields.len(), 1);
    assert!(result.side_effect_fields.is_empty());
}

#[test]
fn test_update_result_add_side_effect_field() {
    let mut result = UpdateResult::new();
    result.add_updated("embedding.url");
    assert_eq!(result.updated_fields.len(), 1);
    assert_eq!(result.side_effect_fields.len(), 1);
    assert!(result.side_effect_fields.contains(&"embedding.url".to_string()));
}

#[test]
fn test_update_result_into_response_success() {
    let mut result = UpdateResult::new();
    result.add_updated("server.max_tools_per_iteration");
    result.add_updated("server.plan_timeout_secs");

    let response = result.into_response();
    assert!(response.success);
    assert_eq!(response.updated_fields.len(), 2);
    assert!(response.failed_fields.is_empty());
}

#[test]
fn test_update_result_into_response_with_side_effects() {
    let mut result = UpdateResult::new();
    result.add_updated("embedding.url");

    let response = result.into_response();
    assert!(response.success);
    assert!(!response.requires_action.is_empty());
    assert!(response.requires_action.contains_key("embedding.url"));
}

#[test]
fn test_apply_server_config_update() {
    let mut config = Config::default();
    let update = ServerConfigUpdate {
        max_tools_per_iteration: Some(10),
        tool_call_max_retries: Some(5),
        tool_call_retry_delay_ms: None,
        max_plan_subtasks: None,
        plan_timeout_secs: Some(900),
        subtask_max_retries: None,
        subtask_react_max_iterations: None,
        subtask_react_timeout_secs: None,
    };

    let validated_fields = vec![
        "server.max_tools_per_iteration".to_string(),
        "server.tool_call_max_retries".to_string(),
        "server.plan_timeout_secs".to_string(),
    ];

    let mut result = UpdateResult::new();
    apply_server_config_update(&mut config.server, &update, &validated_fields, &mut result);

    assert_eq!(result.updated_fields.len(), 3);
    assert_eq!(config.server.max_tools_per_iteration, 10);
    assert_eq!(config.server.tool_call_max_retries, 5);
    assert_eq!(config.server.plan_timeout_secs, 900);
}

#[test]
fn test_apply_memory_config_update() {
    let mut config = Config { memory: Some(MemoryConfig::default()), ..Config::default() };

    let update = MemoryConfigUpdate {
        auto_summarize: Some(false),
        summarization_strategy: None,
        summarize_threshold: Some(20),
        max_stored_messages: Some(50),
    };

    let validated_fields = vec![
        "memory.auto_summarize".to_string(),
        "memory.summarize_threshold".to_string(),
        "memory.max_stored_messages".to_string(),
    ];

    let mut result = UpdateResult::new();
    apply_memory_config_update(&mut config.memory, &update, &validated_fields, &mut result);

    assert_eq!(result.updated_fields.len(), 3);
    let memory = config.memory.unwrap();
    assert!(!memory.auto_summarize);
    assert_eq!(memory.summarize_threshold, 20);
    assert_eq!(memory.max_stored_messages, 50);
}

#[test]
fn test_apply_memory_config_update_not_initialized() {
    let mut config = Config::default();

    let update = MemoryConfigUpdate {
        auto_summarize: Some(true),
        summarization_strategy: None,
        summarize_threshold: None,
        max_stored_messages: None,
    };

    let validated_fields = vec!["memory.auto_summarize".to_string()];

    let mut result = UpdateResult::new();
    apply_memory_config_update(&mut config.memory, &update, &validated_fields, &mut result);

    assert!(result.updated_fields.is_empty());
    assert!(!result.failed_fields.is_empty());
    assert!(result.failed_fields.contains_key("memory.auto_summarize"));
}

#[test]
fn unvalidated_server_fields_are_not_applied() {
    let mut config = Config::default();
    let update = ServerConfigUpdate { max_tools_per_iteration: Some(10), ..server_update() };
    let mut result = UpdateResult::new();
    apply_server_config_update(&mut config.server, &update, &vec![], &mut result);
    assert!(result.updated_fields.is_empty());
    assert_eq!(config.server.max_tools_per_iteration, 5);
}

// ---------------------------------------------------------------------------
// validate
// ---------------------------------------------------------------------------

#[test]
fn validate_test_is_field_updatable() {
    assert!(is_field_updatable("server.max_tools_per_iteration"));
    assert!(is_field_updatable("chat.url"));
    assert!(is_field_updatable("chat.api_key"));
    assert!(!is_field_updatable("server.host"));
    assert!(!is_field_updatable("server.port"));
}

#[test]
fn test_validate_server_config_valid() {
    let server = ServerConfigUpdate {
        max_tools_per_iteration: Some(10),
        tool_call_max_retries: Some(3),
        tool_call_retry_delay_ms: Some(1000),
        max_plan_subtasks: Some(20),
        plan_timeout_secs: Some(600),
        subtask_max_retries: Some(2),
        subtask_react_max_iterations: Some(5),
        subtask_react_timeout_secs: Some(60),
    };

    let mut result = ValidationResult::default();
    validate_server_config(&server, &mut result);

    assert!(result.is_valid());
    assert_eq!(result.valid_fields.len(), 8);
}

#[test]
fn test_validate_server_config_invalid() {
    let server = ServerConfigUpdate {
        max_tools_per_iteration: Some(100),
        tool_call_max_retries: Some(20),
        tool_call_retry_delay_ms: None,
        max_plan_subtasks: Some(0),
        plan_timeout_secs: Some(10),
        subtask_max_retries: None,
        subtask_react_max_iterations: None,
        subtask_react_timeout_secs: None,
    };

    let mut result = ValidationResult::default();
    validate_server_config(&server, &mut result);

    assert!(!result.is_valid());
    assert_eq!(result.errors.len(), 4);
}

#[test]
fn test_validate_chat_config_valid_url() {
    let chat = ChatConfigUpdate {
        url: Some("http://localhost:8080/v1".to_string()),
        api_key: Some("sk-test-key".to_string()),
        model: None,
        model_context_size: None,
    };

    let mut result = ValidationResult::default();
    validate_chat_config(&chat, &mut result);

    assert!(result.is_valid());
    assert_eq!(result.valid_fields.len(), 2);
}

#[test]
fn test_validate_chat_config_invalid_url() {
    let chat = ChatConfigUpdate { url: Some("invalid-url".to_string()), api_key: None, model: None, model_context_size: None };

    let mut result = ValidationResult::default();
    validate_chat_config(&chat, &mut result);

    assert!(!result.is_valid());
    assert_eq!(result.errors.len(), 1);
    assert!(result.errors[0].message.contains("http://"));
}

#[test]
fn test_validate_memory_config_valid() {
    let memory = MemoryConfigUpdate {
        auto_summarize: Some(true),
        summarization_strategy: None,
        summarize_threshold: Some(12),
        max_stored_messages: Some(20),
    };

    let mut result = ValidationResult::default();
    validate_memory_config(&memory, &mut result);

    assert!(result.is_valid());
    assert_eq!(result.valid_fields.len(), 3);
}

#[test]
fn test_validate_memory_config_invalid() {
    let memory = MemoryConfigUpdate {
        auto_summarize: None,
        summarization_strategy: None,
        summarize_threshold: Some(1),
        max_stored_messages: Some(1000),
    };

    let mut result = ValidationResult::default();
    validate_memory_config(&memory, &mut result);

    assert!(!result.is_valid());
    assert_eq!(result.errors.len(), 2);
}

#[test]
fn test_validate_full_request() {
    let request = ConfigUpdateRequest {
        server: Some(ServerConfigUpdate { max_tools_per_iteration: Some(10), ..server_update() }),
        chat: Some(ChatConfigUpdate {
            url: Some("https://api.example.com/v1".to_string()),
            api_key: None,
            model: None,
            model_context_size: None,
        }),
        embedding: None,
        memory: None,
        rag: Some(RagConfigUpdate { enable: Some(true) }),
        subagent: None,
        hitl: None,
        lantai_auto_memory: None,
    };

    let result = validate_config_update(&request);

    assert!(result.is_valid());
    assert_eq!(result.valid_fields.len(), 3);
}

#[test]
fn validation_error_text_names_field_and_message() {
    let chat = ChatConfigUpdate { url: Some("".to_string()), api_key: None, model: None, model_context_size: None };
    let mut result = ValidationResult::default();
    validate_chat_config(&chat, &mut result);
    assert_eq!(result.errors.len(), 1);
    assert_eq!(result.errors[0].to_string(), format!("chat.url: {}", result.errors[0].message));
}

// ---------------------------------------------------------------------------
// watcher
// ---------------------------------------------------------------------------

#[test]
fn test_config_watcher_error_display() {
    let error = ConfigWatcherError::ConfigFileNotFound("/path/to/config.toml".into());
    assert!(error.to_string().contains("Configuration file not found"));

    let error = ConfigWatcherError::WatcherCreationFailed("Permission denied".into());
    assert!(error.to_string().contains("Failed to create file watcher"));
}

#[test]
fn test_watcher_state_new() {
    let debounce_ms = 500;
    let gate = ReloadGate::new(debounce_ms, None);
    assert_eq!(gate.debounce_ms, 500);
    assert!(gate.last_event_ms.is_none());
}

#[test]
fn reload_gate_debounces_and_skips_api_updates() {
    let mut gate = ReloadGate::new(500, Some(10));
    assert!(gate.on_modify(1_000, MtimeReading::At(20)));
    // inside the debounce window of the previous event
    assert!(!gate.on_modify(1_200, MtimeReading::At(30)));
    // same modification time as the last reload
    assert!(!gate.on_modify(2_000, MtimeReading::At(20)));
    gate.note_api_update(3_000);
    // within twice the window after an API update
    assert!(!gate.on_modify(3_900, MtimeReading::At(40)));
    assert!(gate.on_modify(5_000, MtimeReading::At(50)));
    assert!(!gate.on_modify(6_000, MtimeReading::Unreadable));
    assert!(gate.on_modify(7_000, MtimeReading::Unknown));
}

// ---------------------------------------------------------------------------
// schema
// ---------------------------------------------------------------------------

#[test]
fn test_build_config_schema() {
    let schema = moss::config_api::schema::build_config_schema();

    assert!(schema.updatable.server.is_some());
    let server = schema.updatable.server.unwrap();
    assert!(server.contains_key("max_tools_per_iteration"));
    assert!(server.contains_key("plan_timeout_secs"));

    assert!(schema.updatable.chat.is_some());
    let chat = schema.updatable.chat.unwrap();
    assert!(chat.contains_key("url"));
    assert!(chat.contains_key("api_key"));
    assert_eq!(chat.get("url").unwrap().side_effect, Some("re_register_downstream_server".to_string()));

    assert!(schema.readonly.contains(&"server.host".to_string()));
    assert!(schema.readonly.contains(&"server.port".to_string()));
}

#[test]
fn schema_ranges_match_validation() {
    let schema = moss::config_api::schema::build_config_schema();
    let server = schema.updatable.server.unwrap();
    let f = server.get("plan_timeout_secs").unwrap();
    assert_eq!(f.field_type, "integer");
    assert_eq!(f.minimum, Some(60));
    assert_eq!(f.maximum, Some(7200));
    assert_eq!(f.default, Some(ConfigValue::UInt(600)));
    let memory = schema.updatable.memory.unwrap();
    assert_eq!(memory.get("summarization_strategy").unwrap().default, Some(ConfigValue::Str("Incremental".to_string())));
    assert_eq!(schema.readonly.len(), 15);
}

#[test]
fn config_servers_are_found_by_prefix() {
    let ids = vec![
        "chat-server-config".to_string(),
        "embeddings-server-1".to_string(),
        "chat-server-config-2".to_string(),
    ];
    assert_eq!(
        find_config_servers(&ids, "chat-server-config"),
        vec!["chat-server-config".to_string(), "chat-server-config-2".to_string()]
    );
    assert!(find_config_servers(&ids, "tts").is_empty());
}

#[test]
fn knowledge_base_embedding_plans() {
    let mut config = Config::default();
    assert!(matches!(lantai_embedding_plan(&config, &env()), LantaiEmbeddingPlan::Clear));
    config.embedding = Some(EmbeddingConfig { url: "http://e:8080/v1".to_string(), api_key: String::new() });
    assert!(matches!(lantai_embedding_plan(&config, &env()), LantaiEmbeddingPlan::Missing));
    config.lantai = Some(MossLantaiConfig::default());
    let with_key = ApiKeyEnvironment { chat: None, embedding: Some("k".to_string()), skills: None };
    match lantai_embedding_plan(&config, &with_key) {
        LantaiEmbeddingPlan::Replace { url, api_key, model, dimensions } => {
            assert_eq!(url, "http://e:8080/v1");
            assert_eq!(api_key, "k");
            assert_eq!(model, "text-embedding-3-small");
            assert_eq!(dimensions, 1536);
        }
        _ => panic!("expected a replacement"),
    }
    match lantai_embedding_plan(&config, &env()) {
        LantaiEmbeddingPlan::Replace { api_key, .. } => assert_eq!(api_key, ""),
        _ => panic!("expected a replacement"),
    }
}

#[test]
fn rate_limiting_needs_a_positive_request_count() {
    let mut api = SkillApiConfig::default();
    assert!(api.rate_limiting_enabled());
    api.rate_limit_requests = 0;
    assert!(!api.rate_limiting_enabled());
}

// ---------------------------------------------------------------------------
// applying the sections of an update
// ---------------------------------------------------------------------------

fn sv(v: &[&str]) -> Vec<String> {
    v.iter().map(|s| s.to_string()).collect()
}

fn chat_section() -> ChatConfig {
    ChatConfig {
        url: "http://localhost:8080/v1".to_string(),
        api_key: "old".to_string(),
        model: "m".to_string(),
        model_context_size: 128000,
    }
}

#[test]
fn chat_update_needs_an_existing_section() {
    let update = ChatConfigUpdate { url: Some("http://x".to_string()), api_key: None, model: Some("n".to_string()), model_context_size: None };
    let mut chat: Option<ChatConfig> = None;
    let mut result = UpdateResult::new();
    apply_chat_config_update(&mut chat, &update, &sv(&["chat.url", "chat.model"]), &mut result);
    assert!(chat.is_none());
    assert!(result.updated_fields.is_empty());
    assert_eq!(result.failed_fields.get("chat.url"), Some(&"Chat configuration not initialized".to_string()));
    assert_eq!(result.failed_fields.get("chat.model"), Some(&"Chat configuration not initialized".to_string()));
}

#[test]
fn chat_update_applies_only_validated_fields() {
    let update = ChatConfigUpdate { url: Some("http://new:1/v1".to_string()), api_key: Some("k".to_string()), model: Some("n".to_string()), model_context_size: None };
    let mut chat = Some(chat_section());
    let mut result = UpdateResult::new();
    apply_chat_config_update(&mut chat, &update, &sv(&["chat.url", "chat.api_key"]), &mut result);
    let c = chat.unwrap();
    assert_eq!(c.url, "http://new:1/v1");
    assert_eq!(c.api_key, "k");
    assert_eq!(c.model, "m");
    assert_eq!(result.updated_fields, sv(&["chat.url", "chat.api_key"]));
    assert!(result.side_effect_fields.is_empty());
}

#[test]
fn embedding_update_creates_the_section_from_a_url() {
    let update = EmbeddingConfigUpdate { url: Some("http://e:2/v1".to_string()), api_key: Some("ek".to_string()) };
    let mut embedding = None;
    let mut result = UpdateResult::new();
    apply_embedding_config_update(&mut embedding, &update, &sv(&["embedding.url", "embedding.api_key"]), &mut result);
    let e = embedding.unwrap();
    assert_eq!(e.url, "http://e:2/v1");
    assert_eq!(e.api_key, "ek");
    assert_eq!(result.updated_fields, sv(&["embedding.url", "embedding.api_key"]));
}

#[test]
fn embedding_key_without_section_or_url_fails() {
    let update = EmbeddingConfigUpdate { url: None, api_key: Some("ek".to_string()) };
    let mut embedding = None;
    let mut result = UpdateResult::new();
    apply_embedding_config_update(&mut embedding, &update, &sv(&["embedding.api_key"]), &mut result);
    assert!(embedding.is_none());
    assert_eq!(
        result.failed_fields.get("embedding.api_key"),
        Some(&"Embedding configuration not initialized, provide URL first".to_string())
    );
}

#[test]
fn rag_update_toggles_the_section() {
    let mut rag = Some(RagConfig { enable: false, prompt: None, policy: "system-message".to_string(), context_window: 1 });
    let mut result = UpdateResult::new();
    apply_rag_config_update(&mut rag, &RagConfigUpdate { enable: Some(true) }, &sv(&["rag.enable"]), &mut result);
    assert!(rag.unwrap().enable);
    assert_eq!(result.updated_fields, sv(&["rag.enable"]));
    let mut none: Option<RagConfig> = None;
    let mut result = UpdateResult::new();
    apply_rag_config_update(&mut none, &RagConfigUpdate { enable: Some(true) }, &sv(&["rag.enable"]), &mut result);
    assert_eq!(result.failed_fields.get("rag.enable"), Some(&"RAG configuration not initialized".to_string()));
}

fn subagent_section() -> SubAgentSystemConfig {
    SubAgentSystemConfig {
        enabled: true,
        execution_mode: "direct".to_string(),
        max_concurrent: 2,
        default_timeout_secs: 60,
        default_max_iterations: 5,
        subtask_executor: SubtaskExecutorConfig { parallel_mode: "auto".to_string() },
    }
}

#[test]
fn subagent_modes_are_checked_when_applied() {
    let mut sub = Some(subagent_section());
    let mut result = UpdateResult::new();
    let update = SubagentConfigUpdate { execution_mode: Some("parallel".to_string()), parallel_mode: Some("manual".to_string()) };
    apply_subagent_config_update(&mut sub, &update, &sv(&["subagent.execution_mode", "subagent.parallel_mode"]), &mut result);
    let s = sub.unwrap();
    assert_eq!(s.execution_mode, "direct");
    assert_eq!(s.subtask_executor.parallel_mode, "manual");
    assert_eq!(result.updated_fields, sv(&["subagent.parallel_mode"]));
    assert_eq!(
        result.failed_fields.get("subagent.execution_mode"),
        Some(&"Invalid execution_mode. Must be 'direct' or 'subagent'".to_string())
    );
}

#[test]
fn lantai_update_needs_the_section() {
    let update = LantaiAutoMemoryConfigUpdate {
        auto_summary: Some(false),
        checkpoint_token_ratio_bits: None,
        embedding_model: None,
        embedding_dimensions: None,
        embedding_batch_size: None,
    };
    let mut lantai = None;
    let mut result = UpdateResult::new();
    apply_lantai_auto_memory_config_update(&mut lantai, &update, &sv(&["lantai_auto_memory.auto_summary"]), &mut result);
    assert_eq!(result.failed_fields.get("lantai_auto_memory"), Some(&"Lantai configuration not initialized".to_string()));
    let mut lantai = Some(MossLantaiConfig::default());
    let mut result = UpdateResult::new();
    apply_lantai_auto_memory_config_update(&mut lantai, &update, &sv(&["lantai_auto_memory.auto_summary"]), &mut result);
    assert!(!lantai.unwrap().auto_memory.auto_summary);
    assert_eq!(result.updated_fields, sv(&["lantai_auto_memory.auto_summary"]));
}

#[test]
fn whole_update_applies_each_section() {
    let mut config = Config::default();
    config.chat = Some(chat_section());
    let request = ConfigUpdateRequest {
        server: Some(ServerConfigUpdate { max_tools_per_iteration: Some(9), ..server_update() }),
        chat: Some(ChatConfigUpdate { url: None, api_key: None, model: Some("n".to_string()), model_context_size: None }),
        embedding: None,
        memory: None,
        rag: Some(RagConfigUpdate { enable: Some(true) }),
        subagent: None,
        hitl: None,
        lantai_auto_memory: None,
    };
    let result = apply_config_update(&mut config, &request, &sv(&["server.max_tools_per_iteration", "chat.model", "rag.enable"]));
    assert_eq!(config.server.max_tools_per_iteration, 9);
    assert_eq!(config.chat.as_ref().unwrap().model, "n");
    assert_eq!(result.updated_fields, sv(&["server.max_tools_per_iteration", "chat.model"]));
    assert_eq!(result.failed_fields.get("rag.enable"), Some(&"RAG configuration not initialized".to_string()));
}

// ---------------------------------------------------------------------------
// more diffs and validations
// ---------------------------------------------------------------------------

#[test]
fn embedding_and_rag_diffs_name_changed_fields() {
    let a = EmbeddingConfig { url: "http://a".to_string(), api_key: "k".to_string() };
    let b = EmbeddingConfig { url: "http://b".to_string(), api_key: "k".to_string() };
    let mut changes = Vec::new();
    diff_embedding_config(Some(&a), Some(&b), &mut changes, &env());
    assert_eq!(changes.len(), 1);
    assert_eq!(changes[0].field, "embedding.url");
    assert!(changes[0].is_hot_updatable);

    let r1 = RagConfig { enable: false, prompt: None, policy: "p".to_string(), context_window: 1 };
    let r2 = RagConfig { enable: true, prompt: None, policy: "p".to_string(), context_window: 1 };
    let mut changes = Vec::new();
    diff_rag_config(Some(&r1), Some(&r2), &mut changes, &env());
    assert_eq!(changes.len(), 1);
    assert_eq!(changes[0].field, "rag.enable");

    let mut changes = Vec::new();
    diff_memory_config(Some(&MemoryConfig::default()), Some(&MemoryConfig::default()), &mut changes, &env());
    assert!(changes.is_empty());
}

#[test]
fn embedding_and_rag_validation() {
    let mut result = ValidationResult::default();
    validate_embedding_config(&EmbeddingConfigUpdate { url: Some("ftp://x".to_string()), api_key: Some("k".to_string()) }, &mut result);
    assert_eq!(result.valid_fields, sv(&["embedding.api_key"]));
    assert_eq!(result.errors.len(), 1);
    assert_eq!(result.errors[0].field, "embedding.url");
    assert_eq!(result.errors[0].message, "URL must start with http:// or https://");
    let mut result = ValidationResult::default();
    validate_rag_config(&RagConfigUpdate { enable: Some(false) }, &mut result);
    assert_eq!(result.valid_fields, sv(&["rag.enable"]));
}

#[test]
fn readonly_fields_are_refused_by_the_update_api() {
    let schema = moss::config_api::schema::build_config_schema();
    assert!(!schema.readonly.is_empty());
    for path in &schema.readonly {
        assert!(!is_field_updatable(path), "{path} must not be updatable");
    }
    assert!(is_field_updatable("chat.url"));
}

#[test]
fn schema_defaults_are_the_default_configuration() {
    let schema = moss::config_api::schema::build_config_schema();
    let server = schema.updatable.server.unwrap();
    let c = Config::default();
    let expected: Vec<(&str, u64)> = vec![
        ("max_tools_per_iteration", c.server.max_tools_per_iteration as u64),
        ("tool_call_max_retries", c.server.tool_call_max_retries as u64),
        ("tool_call_retry_delay_ms", c.server.tool_call_retry_delay_ms),
        ("max_plan_subtasks", c.server.max_plan_subtasks as u64),
        ("plan_timeout_secs", c.server.plan_timeout_secs),
        ("subtask_max_retries", c.server.subtask_max_retries as u64),
        ("subtask_react_max_iterations", c.server.subtask_react_max_iterations as u64),
        ("subtask_react_timeout_secs", c.server.subtask_react_timeout_secs),
    ];
    for (name, value) in expected {
        assert_eq!(server.get(name).unwrap().default, Some(ConfigValue::UInt(value)), "{name}");
    }
    let memory = schema.updatable.memory.unwrap();
    let m = MemoryConfig::default();
    assert_eq!(memory.get("auto_summarize").unwrap().default, Some(ConfigValue::Bool(m.auto_summarize)));
    assert_eq!(memory.get("summarize_threshold").unwrap().default, Some(ConfigValue::UInt(m.summarize_threshold as u64)));
    assert_eq!(memory.get("max_stored_messages").unwrap().default, Some(ConfigValue::UInt(m.max_stored_messages as u64)));
}

#[test]
fn update_reports_each_field_once_and_apart_from_failures() {
    let mut config = Config::default();
    let request = ConfigUpdateRequest {
        server: Some(ServerConfigUpdate {
            max_tools_per_iteration: Some(10),
            tool_call_max_retries: None,
            tool_call_retry_delay_ms: None,
            max_plan_subtasks: None,
            plan_timeout_secs: Some(900),
            subtask_max_retries: None,
            subtask_react_max_iterations: None,
            subtask_react_timeout_secs: None,
        }),
        chat: None,
        embedding: None,
        memory: Some(MemoryConfigUpdate {
            auto_summarize: Some(false),
            summarization_strategy: None,
            summarize_threshold: None,
            max_stored_messages: None,
        }),
        rag: None,
        subagent: None,
        hitl: None,
        lantai_auto_memory: None,
    };
    let validated = vec![
        "server.max_tools_per_iteration".to_string(),
        "server.max_tools_per_iteration".to_string(),
        "server.plan_timeout_secs".to_string(),
        "memory.auto_summarize".to_string(),
    ];
    let result = apply_config_update(&mut config, &request, &validated);
    assert_eq!(
        result.updated_fields,
        vec!["server.max_tools_per_iteration".to_string(), "server.plan_timeout_secs".to_string()]
    );
    assert!(result.failed_fields.contains_key("memory.auto_summarize"));
    for f in &result.updated_fields {
        assert!(!result.failed_fields.contains_key(f));
    }
}
