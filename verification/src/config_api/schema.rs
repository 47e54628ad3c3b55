//! The schema of the configuration API: for each field that may change at
//! runtime its type, range, default, description and side effect, and the
//! list of fields that may not change.

use vstd::prelude::*;
use crate::config_api::diff::{ConfigValue, ValueView, value_view};
use crate::config::opt_view;
use crate::ordered_map::OrderedMap;
use crate::text::{push_string, views};

verus! {

/// How one field may be set.
#[derive(Debug)]
pub struct FieldSchema {
    /// JSON Schema type: `integer`, `string` or `boolean`.
    pub field_type: String,
    /// Least value, for numbers.
    pub minimum: Option<i64>,
    /// Greatest value, for numbers.
    pub maximum: Option<i64>,
    /// Default value.
    pub default: Option<ConfigValue>,
    /// What the field is.
    pub description: String,
    /// What an update of the field sets off.
    pub side_effect: Option<String>,
}

/// The fields of each section that may change at runtime.
#[derive(Debug)]
pub struct ConfigSchemaSection {
    pub server: Option<OrderedMap<FieldSchema>>,
    pub chat: Option<OrderedMap<FieldSchema>>,
    pub embedding: Option<OrderedMap<FieldSchema>>,
    pub memory: Option<OrderedMap<FieldSchema>>,
    pub rag: Option<OrderedMap<FieldSchema>>,
}

/// The schema: fields that may change, and fields that may not.
#[derive(Debug)]
pub struct ConfigSchemaResponse {
    pub updatable: ConfigSchemaSection,
    pub readonly: Vec<String>,
}

/// A field schema as values: type, least, greatest, default, description,
/// side effect.
pub type FieldSchemaV = (Seq<char>, Option<int>, Option<int>, Option<ValueView>, Seq<char>, Option<Seq<char>>);

/// The value of an optional bound.
pub open spec fn bound_view(b: Option<i64>) -> Option<int> {
    match b {
        Some(n) => Some(n as int),
        None => None,
    }
}

/// The value of an optional default.
pub open spec fn default_view(d: Option<ConfigValue>) -> Option<ValueView> {
    match d {
        Some(v) => Some(value_view(v)),
        None => None,
    }
}

/// A field schema as values.
pub open spec fn field_schema_view(f: FieldSchema) -> FieldSchemaV {
    (f.field_type@, bound_view(f.minimum), bound_view(f.maximum), default_view(f.default), f.description@, opt_view(f.side_effect))
}

/// The field schemas of a section as values.
pub open spec fn section_view(m: Map<Seq<char>, FieldSchema>) -> Map<Seq<char>, FieldSchemaV> {
    m.map_values(|f: FieldSchema| field_schema_view(f))
}

/// An integer field with a range and a default.
pub open spec fn int_field(min: int, max: int, default: u64, description: Seq<char>) -> FieldSchemaV {
    ("integer"@, Some(min), Some(max), Some(ValueView::UInt(default)), description, None)
}

/// A string field that re-registers a downstream server when it changes.
pub open spec fn service_field(description: Seq<char>) -> FieldSchemaV {
    ("string"@, None, None, None, description, Some("re_register_downstream_server"@))
}

/// The server fields.
pub open spec fn spec_server_schema() -> Map<Seq<char>, FieldSchemaV> {
    map![
        "max_tools_per_iteration"@ => int_field(1, 50, 5, "Maximum number of tool calls allowed per iteration"@),
        "tool_call_max_retries"@ => int_field(0, 10, 2, "Maximum number of retries for failed tool calls"@),
        "tool_call_retry_delay_ms"@ => int_field(0, 10000, 500, "Delay in milliseconds between tool call retries"@),
        "max_plan_subtasks"@ => int_field(1, 50, 10, "Maximum number of subtasks allowed in a plan"@),
        "plan_timeout_secs"@ => int_field(60, 7200, 600, "Timeout in seconds for the entire plan execution"@),
        "subtask_max_retries"@ => int_field(0, 10, 2, "Maximum retries for failed subtasks"@),
        "subtask_react_max_iterations"@ => int_field(1, 20, 5, "Maximum React iterations per subtask"@),
        "subtask_react_timeout_secs"@ => int_field(10, 600, 60, "Timeout in seconds for each subtask's React loop"@)
    ]
}

/// The chat fields.
pub open spec fn spec_chat_schema() -> Map<Seq<char>, FieldSchemaV> {
    map![
        "url"@ => service_field("Chat service URL"@),
        "api_key"@ => service_field("Chat service API key"@)
    ]
}

/// The embedding fields.
pub open spec fn spec_embedding_schema() -> Map<Seq<char>, FieldSchemaV> {
    map![
        "url"@ => service_field("Embedding service URL"@),
        "api_key"@ => service_field("Embedding service API key"@)
    ]
}

/// The memory fields.
pub open spec fn spec_memory_schema() -> Map<Seq<char>, FieldSchemaV> {
    map![
        "auto_summarize"@ => ("boolean"@, None, None, Some(ValueView::Bool(true)), "Enable automatic message summarization"@, None),
        "summarization_strategy"@ => ("string"@, None, None, Some(ValueView::Str("Incremental"@)),
            "Summarization strategy: Incremental or FullHistory"@, None),
        "summarize_threshold"@ => int_field(2, 100, 12, "Base number for calculating minimum messages to keep"@),
        "max_stored_messages"@ => int_field(5, 500, 20, "Maximum messages before triggering summarization"@)
    ]
}

/// The RAG fields.
pub open spec fn spec_rag_schema() -> Map<Seq<char>, FieldSchemaV> {
    map![
        "enable"@ => ("boolean"@, None, None, Some(ValueView::Bool(false)), "Enable or disable RAG functionality"@, None)
    ]
}

/// The fields that may not change at runtime.
pub open spec fn spec_readonly_fields() -> Seq<Seq<char>> {
    seq![
        "server.host"@, "server.port"@, "memory.enable"@, "memory.database_path"@, "memory.context_window"@,
        "memory.summary_service_base_url"@, "memory.summary_service_api_key"@, "rag.policy"@, "rag.context_window"@,
        "artifacts.enabled"@, "artifacts.database_path"@, "artifacts.storage_path"@, "skill.enabled"@,
        "skill.directories"@, "mcp.*"@
    ]
}

/// A field schema.
fn field(kind: &str, min: Option<i64>, max: Option<i64>, default: Option<ConfigValue>, description: &str, side_effect: Option<&str>) -> (r: FieldSchema)
    ensures
        field_schema_view(r) == (kind@, bound_view(min), bound_view(max), default_view(default), description@,
            match side_effect { Some(s) => Some(s@), None => None }),
{
    FieldSchema {
        field_type: String::from_str(kind),
        minimum: min,
        maximum: max,
        default,
        description: String::from_str(description),
        side_effect: match side_effect {
            Some(s) => Some(String::from_str(s)),
            None => None,
        },
    }
}

/// Adds an integer field.
fn add_int(m: &mut OrderedMap<FieldSchema>, name: &str, min: i64, max: i64, default: u64, description: &str)
    ensures
        section_view(final(m)@) == section_view(old(m)@).insert(name@, int_field(min as int, max as int, default, description@)),
{
    proof {
        reveal_strlit("integer");
    }
    let f = field("integer", Some(min), Some(max), Some(ConfigValue::UInt(default)), description, None);
    m.insert(String::from_str(name), f);
    proof {
        assert(section_view(final(m)@) =~= section_view(old(m)@).insert(name@, int_field(min as int, max as int, default, description@)));
    }
}

/// Adds a string field that re-registers a downstream server.
fn add_service(m: &mut OrderedMap<FieldSchema>, name: &str, description: &str)
    ensures
        section_view(final(m)@) == section_view(old(m)@).insert(name@, service_field(description@)),
{
    proof {
        reveal_strlit("string");
        reveal_strlit("re_register_downstream_server");
    }
    let f = field("string", None, None, None, description, Some("re_register_downstream_server"));
    m.insert(String::from_str(name), f);
    proof {
        assert(section_view(final(m)@) =~= section_view(old(m)@).insert(name@, service_field(description@)));
    }
}

/// Adds a field of another kind.
fn add_other(m: &mut OrderedMap<FieldSchema>, name: &str, kind: &str, default: ConfigValue, description: &str)
    ensures
        section_view(final(m)@) == section_view(old(m)@).insert(name@,
            (kind@, None, None, Some(value_view(default)), description@, None)),
{
    let ghost d = value_view(default);
    let f = field(kind, None, None, Some(default), description, None);
    m.insert(String::from_str(name), f);
    proof {
        assert(section_view(final(m)@) =~= section_view(old(m)@).insert(name@, (kind@, None, None, Some(d), description@, None)));
    }
}

/// The server section of the schema.
#[verifier::rlimit(50)]
fn server_schema() -> (r: OrderedMap<FieldSchema>)
    ensures
        section_view(r@) == spec_server_schema(),
{
    proof {
        reveal_strlit("max_tools_per_iteration");
        reveal_strlit("tool_call_max_retries");
        reveal_strlit("tool_call_retry_delay_ms");
        reveal_strlit("max_plan_subtasks");
        reveal_strlit("plan_timeout_secs");
        reveal_strlit("subtask_max_retries");
        reveal_strlit("subtask_react_max_iterations");
        reveal_strlit("subtask_react_timeout_secs");
    }
    let mut m: OrderedMap<FieldSchema> = OrderedMap::new();
    add_int(&mut m, "max_tools_per_iteration", 1, 50, 5, "Maximum number of tool calls allowed per iteration");
    add_int(&mut m, "tool_call_max_retries", 0, 10, 2, "Maximum number of retries for failed tool calls");
    add_int(&mut m, "tool_call_retry_delay_ms", 0, 10000, 500, "Delay in milliseconds between tool call retries");
    add_int(&mut m, "max_plan_subtasks", 1, 50, 10, "Maximum number of subtasks allowed in a plan");
    add_int(&mut m, "plan_timeout_secs", 60, 7200, 600, "Timeout in seconds for the entire plan execution");
    add_int(&mut m, "subtask_max_retries", 0, 10, 2, "Maximum retries for failed subtasks");
    add_int(&mut m, "subtask_react_max_iterations", 1, 20, 5, "Maximum React iterations per subtask");
    add_int(&mut m, "subtask_react_timeout_secs", 10, 600, 60, "Timeout in seconds for each subtask's React loop");
    proof {
        assert(section_view(m@) =~= spec_server_schema());
    }
    m
}

/// The chat or embedding section of the schema.
fn service_schema(url_description: &str, key_description: &str) -> (r: OrderedMap<FieldSchema>)
    ensures
        section_view(r@) == map!["url"@ => service_field(url_description@), "api_key"@ => service_field(key_description@)],
{
    proof {
        reveal_strlit("url");
        reveal_strlit("api_key");
    }
    let mut m: OrderedMap<FieldSchema> = OrderedMap::new();
    add_service(&mut m, "url", url_description);
    add_service(&mut m, "api_key", key_description);
    proof {
        assert(section_view(m@) =~= map!["url"@ => service_field(url_description@), "api_key"@ => service_field(key_description@)]);
    }
    m
}

/// The memory section of the schema.
fn memory_schema() -> (r: OrderedMap<FieldSchema>)
    ensures
        section_view(r@) == spec_memory_schema(),
{
    proof {
        reveal_strlit("auto_summarize");
        reveal_strlit("summarization_strategy");
        reveal_strlit("summarize_threshold");
        reveal_strlit("max_stored_messages");
        reveal_strlit("boolean");
        reveal_strlit("string");
        reveal_strlit("Incremental");
    }
    let mut m: OrderedMap<FieldSchema> = OrderedMap::new();
    add_other(&mut m, "auto_summarize", "boolean", ConfigValue::Bool(true), "Enable automatic message summarization");
    add_other(&mut m, "summarization_strategy", "string", ConfigValue::Str(String::from_str("Incremental")),
        "Summarization strategy: Incremental or FullHistory");
    add_int(&mut m, "summarize_threshold", 2, 100, 12, "Base number for calculating minimum messages to keep");
    add_int(&mut m, "max_stored_messages", 5, 500, 20, "Maximum messages before triggering summarization");
    proof {
        assert(section_view(m@) =~= spec_memory_schema());
    }
    m
}

/// The RAG section of the schema.
fn rag_schema() -> (r: OrderedMap<FieldSchema>)
    ensures
        section_view(r@) == spec_rag_schema(),
{
    proof {
        reveal_strlit("enable");
        reveal_strlit("boolean");
    }
    let mut m: OrderedMap<FieldSchema> = OrderedMap::new();
    add_other(&mut m, "enable", "boolean", ConfigValue::Bool(false), "Enable or disable RAG functionality");
    proof {
        assert(section_view(m@) =~= spec_rag_schema());
    }
    m
}

/// The fields that may not change at runtime.
fn readonly_fields() -> (r: Vec<String>)
    ensures
        views(r@) == spec_readonly_fields(),
{
    let mut v: Vec<String> = Vec::new();
    proof {
        assert(views(v@) =~= Seq::<Seq<char>>::empty());
    }
    push_string(&mut v, String::from_str("server.host"));
    push_string(&mut v, String::from_str("server.port"));
    push_string(&mut v, String::from_str("memory.enable"));
    push_string(&mut v, String::from_str("memory.database_path"));
    push_string(&mut v, String::from_str("memory.context_window"));
    push_string(&mut v, String::from_str("memory.summary_service_base_url"));
    push_string(&mut v, String::from_str("memory.summary_service_api_key"));
    push_string(&mut v, String::from_str("rag.policy"));
    push_string(&mut v, String::from_str("rag.context_window"));
    push_string(&mut v, String::from_str("artifacts.enabled"));
    push_string(&mut v, String::from_str("artifacts.database_path"));
    push_string(&mut v, String::from_str("artifacts.storage_path"));
    push_string(&mut v, String::from_str("skill.enabled"));
    push_string(&mut v, String::from_str("skill.directories"));
    push_string(&mut v, String::from_str("mcp.*"));
    proof {
        assert(views(v@) =~= spec_readonly_fields());
    }
    v
}

/// The schema of the configuration API: every section of updatable fields
/// as the specifications above give it, and the read-only fields.
pub fn build_config_schema() -> (r: ConfigSchemaResponse)
    ensures
        r.updatable.server matches Some(m) && section_view(m@) == spec_server_schema(),
        r.updatable.chat matches Some(m) && section_view(m@) == spec_chat_schema(),
        r.updatable.embedding matches Some(m) && section_view(m@) == spec_embedding_schema(),
        r.updatable.memory matches Some(m) && section_view(m@) == spec_memory_schema(),
        r.updatable.rag matches Some(m) && section_view(m@) == spec_rag_schema(),
        views(r.readonly@) == spec_readonly_fields(),
{
    let chat = service_schema("Chat service URL", "Chat service API key");
    let embedding = service_schema("Embedding service URL", "Embedding service API key");
    ConfigSchemaResponse {
        updatable: ConfigSchemaSection {
            server: Some(server_schema()),
            chat: Some(chat),
            embedding: Some(embedding),
            memory: Some(memory_schema()),
            rag: Some(rag_schema()),
        },
        readonly: readonly_fields(),
    }
}

} // verus!
