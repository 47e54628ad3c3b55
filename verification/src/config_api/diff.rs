//! Comparing two configurations field by field, and checking and applying
//! single changes. Each change says whether it can take effect while the
//! gateway runs or needs a restart.

use vstd::prelude::*;
use super::types::spec_api_updatable_fields;
use crate::config::{
    ApiKeyEnvironment, ChatConfig, Config, EmbeddingConfig, MemoryConfig, RagConfig, ServerConfig,
    SummarizationStrategy, opt_view, spec_effective_key,
};
use crate::text::{concat, concat3, spec_ends_with, spec_starts_with, ends_with, starts_with, str_eq, substring};

verus! {

/// A configuration value as JSON sees it.
#[derive(Debug, PartialEq)]
pub enum ConfigValue {
    /// `null`.
    Null,
    /// A boolean.
    Bool(bool),
    /// A non-negative integer.
    UInt(u64),
    /// A negative integer.
    NegInt(i64),
    /// A string.
    Str(String),
    /// Any other JSON value (fraction, array, object).
    Other,
}

/// A configuration value as mathematics sees it.
pub enum ValueView {
    Null,
    Bool(bool),
    UInt(u64),
    NegInt(i64),
    Str(Seq<char>),
    Other,
}

/// The view of a value.
pub open spec fn value_view(v: ConfigValue) -> ValueView {
    match v {
        ConfigValue::Null => ValueView::Null,
        ConfigValue::Bool(b) => ValueView::Bool(b),
        ConfigValue::UInt(n) => ValueView::UInt(n),
        ConfigValue::NegInt(n) => ValueView::NegInt(n),
        ConfigValue::Str(s) => ValueView::Str(s@),
        ConfigValue::Other => ValueView::Other,
    }
}

impl ConfigValue {
    /// The value as a non-negative integer, if it is one.
    pub fn as_u64(&self) -> (r: Option<u64>)
        ensures
            r == match value_view(*self) { ValueView::UInt(n) => Some(n), _ => None::<u64> },
    {
        match self {
            ConfigValue::UInt(n) => Some(*n),
            _ => None,
        }
    }

    /// The value as a boolean, if it is one.
    pub fn as_bool(&self) -> (r: Option<bool>)
        ensures
            r == match value_view(*self) { ValueView::Bool(b) => Some(b), _ => None::<bool> },
    {
        match self {
            ConfigValue::Bool(b) => Some(*b),
            _ => None,
        }
    }

    /// The value as a string, if it is one.
    pub fn as_str(&self) -> (r: Option<&String>)
        ensures
            match *self {
                ConfigValue::Str(s) => r == Some(&s),
                _ => r is None,
            },
    {
        match self {
            ConfigValue::Str(s) => Some(s),
            _ => None,
        }
    }

    /// Whether the value is `null`.
    pub fn is_null(&self) -> (r: bool)
        ensures
            r == (*self is Null),
    {
        match self {
            ConfigValue::Null => true,
            _ => false,
        }
    }
}

impl Clone for ConfigValue {
    fn clone(&self) -> (r: Self)
        ensures
            r == *self,
    {
        match self {
            ConfigValue::Null => ConfigValue::Null,
            ConfigValue::Bool(b) => ConfigValue::Bool(*b),
            ConfigValue::UInt(n) => ConfigValue::UInt(*n),
            ConfigValue::NegInt(n) => ConfigValue::NegInt(*n),
            ConfigValue::Str(s) => ConfigValue::Str(s.clone()),
            ConfigValue::Other => ConfigValue::Other,
        }
    }
}

/// One difference between two configurations.
#[derive(Debug)]
pub struct ConfigChange {
    /// Dotted path of the field, or `<section> (section)`.
    pub field: String,
    /// The value before.
    pub old_value: ConfigValue,
    /// The value after.
    pub new_value: ConfigValue,
    /// Whether the change can take effect without a restart.
    pub is_hot_updatable: bool,
}

/// A change as (field, old value, new value, hot).
pub type ChangeView = (Seq<char>, ValueView, ValueView, bool);

/// The view of a change.
pub open spec fn change_view(c: ConfigChange) -> ChangeView {
    (c.field@, value_view(c.old_value), value_view(c.new_value), c.is_hot_updatable)
}

/// The views of changes.
pub open spec fn change_views(v: Seq<ConfigChange>) -> Seq<ChangeView> {
    v.map_values(|c: ConfigChange| change_view(c))
}

impl Clone for ConfigChange {
    fn clone(&self) -> (r: Self)
        ensures
            r == *self,
    {
        ConfigChange {
            field: self.field.clone(),
            old_value: self.old_value.clone(),
            new_value: self.new_value.clone(),
            is_hot_updatable: self.is_hot_updatable,
        }
    }
}

impl ConfigChange {
    /// A change of `field` from `old_value` to `new_value`.
    pub fn new(field: &str, old_value: ConfigValue, new_value: ConfigValue, is_hot_updatable: bool) -> (r: Self)
        ensures
            r.field@ == field@,
            r.old_value == old_value,
            r.new_value == new_value,
            r.is_hot_updatable == is_hot_updatable,
    {
        ConfigChange { field: String::from_str(field), old_value, new_value, is_hot_updatable }
    }
}

/// Whether the update API accepts a field path (the published list and
/// the chat fields).
pub fn is_updatable_field(field: &str) -> (r: bool)
    ensures
        r == spec_api_updatable_fields().contains(field@),
{
    super::types::is_api_updatable(field)
}

/// `x` when `cond`, else nothing.
pub open spec fn when(cond: bool, x: ChangeView) -> Seq<ChangeView> {
    if cond { seq![x] } else { Seq::empty() }
}

fn push_change(changes: &mut Vec<ConfigChange>, cond: bool, field: &str, old_value: ConfigValue, new_value: ConfigValue, hot: bool)
    ensures
        change_views(final(changes)@) == change_views(old(changes)@)
            + when(cond, (field@, value_view(old_value), value_view(new_value), hot)),
{
    if cond {
        changes.push(ConfigChange::new(field, old_value, new_value, hot));
        assert(change_views(final(changes)@) =~= change_views(old(changes)@).push((field@, value_view(old_value), value_view(new_value), hot)));
    } else {
        assert(change_views(final(changes)@) =~= change_views(old(changes)@) + Seq::<ChangeView>::empty());
    }
}

/// The changes of the server fields that need a restart: host and port.
pub open spec fn spec_server_restart_diff(o: ServerConfig, n: ServerConfig) -> Seq<ChangeView> {
    when(o.host@ != n.host@, ("server.host"@, ValueView::Str(o.host@), ValueView::Str(n.host@), false))
        + when(o.port != n.port, ("server.port"@, ValueView::UInt(o.port as u64), ValueView::UInt(n.port as u64), false))
}

/// The changes of the tool-call server fields.
pub open spec fn spec_server_tool_diff(o: ServerConfig, n: ServerConfig) -> Seq<ChangeView> {
    when(o.max_tools_per_iteration != n.max_tools_per_iteration, ("server.max_tools_per_iteration"@,
        ValueView::UInt(o.max_tools_per_iteration as u64), ValueView::UInt(n.max_tools_per_iteration as u64), true))
        + when(o.tool_call_max_retries != n.tool_call_max_retries, ("server.tool_call_max_retries"@,
            ValueView::UInt(o.tool_call_max_retries as u64), ValueView::UInt(n.tool_call_max_retries as u64), true))
        + when(o.tool_call_retry_delay_ms != n.tool_call_retry_delay_ms, ("server.tool_call_retry_delay_ms"@,
            ValueView::UInt(o.tool_call_retry_delay_ms), ValueView::UInt(n.tool_call_retry_delay_ms), true))
}

/// The changes of the planning server fields.
pub open spec fn spec_server_plan_diff(o: ServerConfig, n: ServerConfig) -> Seq<ChangeView> {
    when(o.max_plan_subtasks != n.max_plan_subtasks, ("server.max_plan_subtasks"@,
        ValueView::UInt(o.max_plan_subtasks as u64), ValueView::UInt(n.max_plan_subtasks as u64), true))
        + when(o.plan_timeout_secs != n.plan_timeout_secs, ("server.plan_timeout_secs"@,
            ValueView::UInt(o.plan_timeout_secs), ValueView::UInt(n.plan_timeout_secs), true))
        + when(o.subtask_max_retries != n.subtask_max_retries, ("server.subtask_max_retries"@,
            ValueView::UInt(o.subtask_max_retries as u64), ValueView::UInt(n.subtask_max_retries as u64), true))
        + when(o.subtask_react_max_iterations != n.subtask_react_max_iterations, ("server.subtask_react_max_iterations"@,
            ValueView::UInt(o.subtask_react_max_iterations as u64), ValueView::UInt(n.subtask_react_max_iterations as u64), true))
        + when(o.subtask_react_timeout_secs != n.subtask_react_timeout_secs, ("server.subtask_react_timeout_secs"@,
            ValueView::UInt(o.subtask_react_timeout_secs), ValueView::UInt(n.subtask_react_timeout_secs), true))
}

/// The changes between two server sections: host and port need a restart,
/// the other fields do not.
pub open spec fn spec_server_diff(o: ServerConfig, n: ServerConfig) -> Seq<ChangeView> {
    spec_server_restart_diff(o, n) + spec_server_tool_diff(o, n) + spec_server_plan_diff(o, n)
}

fn diff_server_restart(before: &ServerConfig, after: &ServerConfig, changes: &mut Vec<ConfigChange>)
    ensures
        change_views(final(changes)@) == change_views(old(changes)@) + spec_server_restart_diff(*before, *after),
{
    let ghost start = change_views(changes@);
    push_change(changes, !str_eq(before.host.as_str(), after.host.as_str()), "server.host",
        ConfigValue::Str(before.host.clone()), ConfigValue::Str(after.host.clone()), false);
    push_change(changes, before.port != after.port, "server.port",
        ConfigValue::UInt(before.port as u64), ConfigValue::UInt(after.port as u64), false);
    assert(change_views(changes@) =~= start + spec_server_restart_diff(*before, *after));
}

fn diff_server_tools(before: &ServerConfig, after: &ServerConfig, changes: &mut Vec<ConfigChange>)
    ensures
        change_views(final(changes)@) == change_views(old(changes)@) + spec_server_tool_diff(*before, *after),
{
    let ghost start = change_views(changes@);
    push_change(changes, before.max_tools_per_iteration != after.max_tools_per_iteration, "server.max_tools_per_iteration",
        ConfigValue::UInt(before.max_tools_per_iteration as u64), ConfigValue::UInt(after.max_tools_per_iteration as u64), true);
    push_change(changes, before.tool_call_max_retries != after.tool_call_max_retries, "server.tool_call_max_retries",
        ConfigValue::UInt(before.tool_call_max_retries as u64), ConfigValue::UInt(after.tool_call_max_retries as u64), true);
    push_change(changes, before.tool_call_retry_delay_ms != after.tool_call_retry_delay_ms, "server.tool_call_retry_delay_ms",
        ConfigValue::UInt(before.tool_call_retry_delay_ms), ConfigValue::UInt(after.tool_call_retry_delay_ms), true);
    assert(change_views(changes@) =~= start + spec_server_tool_diff(*before, *after));
}

#[verifier::rlimit(50)]
fn diff_server_plan(before: &ServerConfig, after: &ServerConfig, changes: &mut Vec<ConfigChange>)
    ensures
        change_views(final(changes)@) == change_views(old(changes)@) + spec_server_plan_diff(*before, *after),
{
    let ghost start = change_views(changes@);
    push_change(changes, before.max_plan_subtasks != after.max_plan_subtasks, "server.max_plan_subtasks",
        ConfigValue::UInt(before.max_plan_subtasks as u64), ConfigValue::UInt(after.max_plan_subtasks as u64), true);
    push_change(changes, before.plan_timeout_secs != after.plan_timeout_secs, "server.plan_timeout_secs",
        ConfigValue::UInt(before.plan_timeout_secs), ConfigValue::UInt(after.plan_timeout_secs), true);
    push_change(changes, before.subtask_max_retries != after.subtask_max_retries, "server.subtask_max_retries",
        ConfigValue::UInt(before.subtask_max_retries as u64), ConfigValue::UInt(after.subtask_max_retries as u64), true);
    push_change(changes, before.subtask_react_max_iterations != after.subtask_react_max_iterations, "server.subtask_react_max_iterations",
        ConfigValue::UInt(before.subtask_react_max_iterations as u64), ConfigValue::UInt(after.subtask_react_max_iterations as u64), true);
    push_change(changes, before.subtask_react_timeout_secs != after.subtask_react_timeout_secs, "server.subtask_react_timeout_secs",
        ConfigValue::UInt(before.subtask_react_timeout_secs), ConfigValue::UInt(after.subtask_react_timeout_secs), true);
    assert(change_views(changes@) =~= start + spec_server_plan_diff(*before, *after));
}

/// Appends the changes between two server sections.
#[verifier::spinoff_prover]
pub fn diff_server_config(before: &ServerConfig, after: &ServerConfig, changes: &mut Vec<ConfigChange>)
    ensures
        change_views(final(changes)@) == change_views(old(changes)@) + spec_server_diff(*before, *after),
{
    let ghost start = change_views(changes@);
    let ghost r = spec_server_restart_diff(*before, *after);
    let ghost t = spec_server_tool_diff(*before, *after);
    let ghost p = spec_server_plan_diff(*before, *after);
    diff_server_restart(before, after, changes);
    diff_server_tools(before, after, changes);
    diff_server_plan(before, after, changes);
    assert(start + r + t + p =~= start + (r + t + p));
}

/// The value shown for an API key: a placeholder when one is set, else null.
pub open spec fn key_marker(k: Option<Seq<char>>) -> ValueView {
    if k is Some { ValueView::Str("***configured***"@) } else { ValueView::Null }
}

/// A key change: it became set or unset, or a set key changed.
pub open spec fn key_changed(o: Option<Seq<char>>, n: Option<Seq<char>>) -> bool {
    (o is Some) != (n is Some) || (o is Some && o != n)
}

fn key_marker_value(k: &Option<String>) -> (r: ConfigValue)
    ensures
        value_view(r) == key_marker(opt_view(*k)),
{
    if k.is_some() {
        ConfigValue::Str(String::from_str("***configured***"))
    } else {
        ConfigValue::Null
    }
}

fn same_opt_string(a: &Option<String>, b: &Option<String>) -> (r: bool)
    ensures
        r == (opt_view(*a) == opt_view(*b)),
{
    match (a, b) {
        (Some(x), Some(y)) => str_eq(x.as_str(), y.as_str()),
        (None, None) => true,
        _ => false,
    }
}

/// A configuration section that can be compared field by field.
pub trait SectionDiff: Sized {
    /// The changes between two versions of the section.
    spec fn spec_diff(&self, new: &Self, env: ApiKeyEnvironment) -> Seq<ChangeView>;

    /// Appends the changes between `self` and `new`; `env` supplies API keys
    /// that the section leaves empty.
    fn diff_section(&self, new: &Self, changes: &mut Vec<ConfigChange>, env: &ApiKeyEnvironment)
        ensures
            change_views(final(changes)@) == change_views(old(changes)@) + self.spec_diff(new, *env),
    ;
}

/// The changes between two chat sections: URL and key, both applied without
/// restart (with a service reload).
pub open spec fn spec_chat_diff(o: ChatConfig, n: ChatConfig, env: ApiKeyEnvironment) -> Seq<ChangeView> {
    let ok = spec_effective_key(o.api_key@, env.chat);
    let nk = spec_effective_key(n.api_key@, env.chat);
    when(o.url@ != n.url@, ("chat.url"@, ValueView::Str(o.url@), ValueView::Str(n.url@), true))
        + when(key_changed(ok, nk), ("chat.api_key"@, key_marker(ok), key_marker(nk), true))
}

impl SectionDiff for ChatConfig {
    open spec fn spec_diff(&self, new: &Self, env: ApiKeyEnvironment) -> Seq<ChangeView> {
        spec_chat_diff(*self, *new, env)
    }

    fn diff_section(&self, new: &Self, changes: &mut Vec<ConfigChange>, env: &ApiKeyEnvironment) {
        let ghost start = change_views(changes@);
        push_change(changes, !str_eq(self.url.as_str(), new.url.as_str()), "chat.url",
            ConfigValue::Str(self.url.clone()), ConfigValue::Str(new.url.clone()), true);
        let ok = self.get_api_key(env);
        let nk = new.get_api_key(env);
        let changed = ok.is_some() != nk.is_some() || (ok.is_some() && !same_opt_string(&ok, &nk));
        push_change(changes, changed, "chat.api_key", key_marker_value(&ok), key_marker_value(&nk), true);
        assert(change_views(changes@) =~= start + spec_chat_diff(*self, *new, *env));
    }
}

/// The changes between two embedding sections: URL and key.
pub open spec fn spec_embedding_diff(o: EmbeddingConfig, n: EmbeddingConfig, env: ApiKeyEnvironment) -> Seq<ChangeView> {
    let ok = spec_effective_key(o.api_key@, env.embedding);
    let nk = spec_effective_key(n.api_key@, env.embedding);
    when(o.url@ != n.url@, ("embedding.url"@, ValueView::Str(o.url@), ValueView::Str(n.url@), true))
        + when(key_changed(ok, nk), ("embedding.api_key"@, key_marker(ok), key_marker(nk), true))
}

impl SectionDiff for EmbeddingConfig {
    open spec fn spec_diff(&self, new: &Self, env: ApiKeyEnvironment) -> Seq<ChangeView> {
        spec_embedding_diff(*self, *new, env)
    }

    fn diff_section(&self, new: &Self, changes: &mut Vec<ConfigChange>, env: &ApiKeyEnvironment) {
        let ghost start = change_views(changes@);
        push_change(changes, !str_eq(self.url.as_str(), new.url.as_str()), "embedding.url",
            ConfigValue::Str(self.url.clone()), ConfigValue::Str(new.url.clone()), true);
        let ok = self.get_api_key(env);
        let nk = new.get_api_key(env);
        let changed = ok.is_some() != nk.is_some() || (ok.is_some() && !same_opt_string(&ok, &nk));
        push_change(changes, changed, "embedding.api_key", key_marker_value(&ok), key_marker_value(&nk), true);
        assert(change_views(changes@) =~= start + spec_embedding_diff(*self, *new, *env));
    }
}

/// The changes between two memory sections: switching it on or off and the
/// database path need a restart.
pub open spec fn spec_memory_diff(o: MemoryConfig, n: MemoryConfig) -> Seq<ChangeView> {
    when(o.enable != n.enable, ("memory.enable"@, ValueView::Bool(o.enable), ValueView::Bool(n.enable), false))
        + when(o.database_path@ != n.database_path@, ("memory.database_path"@,
            ValueView::Str(o.database_path@), ValueView::Str(n.database_path@), false))
        + when(o.auto_summarize != n.auto_summarize, ("memory.auto_summarize"@,
            ValueView::Bool(o.auto_summarize), ValueView::Bool(n.auto_summarize), true))
        + when(o.summarization_strategy != n.summarization_strategy, ("memory.summarization_strategy"@,
            ValueView::Str(o.summarization_strategy.spec_name()), ValueView::Str(n.summarization_strategy.spec_name()), true))
        + when(o.summarize_threshold != n.summarize_threshold, ("memory.summarize_threshold"@,
            ValueView::UInt(o.summarize_threshold as u64), ValueView::UInt(n.summarize_threshold as u64), true))
        + when(o.max_stored_messages != n.max_stored_messages, ("memory.max_stored_messages"@,
            ValueView::UInt(o.max_stored_messages as u64), ValueView::UInt(n.max_stored_messages as u64), true))
}

impl SectionDiff for MemoryConfig {
    open spec fn spec_diff(&self, new: &Self, env: ApiKeyEnvironment) -> Seq<ChangeView> {
        spec_memory_diff(*self, *new)
    }

    #[verifier::rlimit(50)]
    fn diff_section(&self, new: &Self, changes: &mut Vec<ConfigChange>, env: &ApiKeyEnvironment) {
        let ghost start = change_views(changes@);
        push_change(changes, self.enable != new.enable, "memory.enable",
            ConfigValue::Bool(self.enable), ConfigValue::Bool(new.enable), false);
        push_change(changes, !str_eq(self.database_path.as_str(), new.database_path.as_str()), "memory.database_path",
            ConfigValue::Str(self.database_path.clone()), ConfigValue::Str(new.database_path.clone()), false);
        push_change(changes, self.auto_summarize != new.auto_summarize, "memory.auto_summarize",
            ConfigValue::Bool(self.auto_summarize), ConfigValue::Bool(new.auto_summarize), true);
        push_change(changes, self.summarization_strategy != new.summarization_strategy, "memory.summarization_strategy",
            ConfigValue::Str(self.summarization_strategy.name()), ConfigValue::Str(new.summarization_strategy.name()), true);
        push_change(changes, self.summarize_threshold != new.summarize_threshold, "memory.summarize_threshold",
            ConfigValue::UInt(self.summarize_threshold as u64), ConfigValue::UInt(new.summarize_threshold as u64), true);
        push_change(changes, self.max_stored_messages != new.max_stored_messages, "memory.max_stored_messages",
            ConfigValue::UInt(self.max_stored_messages as u64), ConfigValue::UInt(new.max_stored_messages as u64), true);
        assert(change_views(changes@) =~= start + spec_memory_diff(*self, *new));
    }
}

/// The changes between two RAG sections: policy and context window need a
/// restart.
pub open spec fn spec_rag_diff(o: RagConfig, n: RagConfig) -> Seq<ChangeView> {
    when(o.enable != n.enable, ("rag.enable"@, ValueView::Bool(o.enable), ValueView::Bool(n.enable), true))
        + when(o.policy@ != n.policy@, ("rag.policy"@, ValueView::Str(o.policy@), ValueView::Str(n.policy@), false))
        + when(o.context_window != n.context_window, ("rag.context_window"@,
            ValueView::UInt(o.context_window), ValueView::UInt(n.context_window), false))
}

impl SectionDiff for RagConfig {
    open spec fn spec_diff(&self, new: &Self, env: ApiKeyEnvironment) -> Seq<ChangeView> {
        spec_rag_diff(*self, *new)
    }

    fn diff_section(&self, new: &Self, changes: &mut Vec<ConfigChange>, env: &ApiKeyEnvironment) {
        let ghost start = change_views(changes@);
        push_change(changes, self.enable != new.enable, "rag.enable",
            ConfigValue::Bool(self.enable), ConfigValue::Bool(new.enable), true);
        push_change(changes, !str_eq(self.policy.as_str(), new.policy.as_str()), "rag.policy",
            ConfigValue::Str(self.policy.clone()), ConfigValue::Str(new.policy.clone()), false);
        push_change(changes, self.context_window != new.context_window, "rag.context_window",
            ConfigValue::UInt(self.context_window), ConfigValue::UInt(new.context_window), false);
        assert(change_views(changes@) =~= start + spec_rag_diff(*self, *new));
    }
}

/// The changes of an optional section: a section added or removed is one
/// change that needs a restart; two present sections are compared.
pub open spec fn spec_optional_diff<T: SectionDiff>(before: Option<&T>, after: Option<&T>, name: Seq<char>, env: ApiKeyEnvironment) -> Seq<ChangeView> {
    match (before, after) {
        (Some(o), Some(n)) => o.spec_diff(n, env),
        (None, Some(_)) => seq![(name + " (section)"@, ValueView::Null, ValueView::Str("configured"@), false)],
        (Some(_), None) => seq![(name + " (section)"@, ValueView::Str("configured"@), ValueView::Null, false)],
        (None, None) => Seq::empty(),
    }
}

/// Appends the changes of an optional section named `section_name`.
pub fn diff_optional_config<T: SectionDiff>(before: Option<&T>, after: Option<&T>, section_name: &str, changes: &mut Vec<ConfigChange>, env: &ApiKeyEnvironment)
    ensures
        change_views(final(changes)@) == change_views(old(changes)@) + spec_optional_diff(before, after, section_name@, *env),
{
    match (before, after) {
        (Some(o), Some(n)) => {
            o.diff_section(n, changes, env);
        },
        (None, Some(_)) => {
            let name = concat(section_name, " (section)");
            changes.push(ConfigChange {
                field: name,
                old_value: ConfigValue::Null,
                new_value: ConfigValue::Str(String::from_str("configured")),
                is_hot_updatable: false,
            });
            assert(change_views(final(changes)@) =~= change_views(old(changes)@) + spec_optional_diff(before, after, section_name@, *env));
        },
        (Some(_), None) => {
            let name = concat(section_name, " (section)");
            changes.push(ConfigChange {
                field: name,
                old_value: ConfigValue::Str(String::from_str("configured")),
                new_value: ConfigValue::Null,
                is_hot_updatable: false,
            });
            assert(change_views(final(changes)@) =~= change_views(old(changes)@) + spec_optional_diff(before, after, section_name@, *env));
        },
        (None, None) => {
            assert(change_views(final(changes)@) =~= change_views(old(changes)@) + spec_optional_diff(before, after, section_name@, *env));
        },
    }
}

/// A reference to the content of an optional section.
pub open spec fn as_ref_spec<T>(o: &Option<T>) -> Option<&T> {
    match o {
        Some(x) => Some(x),
        None => None,
    }
}

/// Appends the changes between two optional chat sections.
pub fn diff_chat_config(before: Option<&ChatConfig>, after: Option<&ChatConfig>, changes: &mut Vec<ConfigChange>, env: &ApiKeyEnvironment)
    ensures
        change_views(final(changes)@) == change_views(old(changes)@) + spec_optional_diff(before, after, "chat"@, *env),
{
    diff_optional_config(before, after, "chat", changes, env);
}

/// Appends the changes between two optional embedding sections.
pub fn diff_embedding_config(before: Option<&EmbeddingConfig>, after: Option<&EmbeddingConfig>, changes: &mut Vec<ConfigChange>, env: &ApiKeyEnvironment)
    ensures
        change_views(final(changes)@) == change_views(old(changes)@) + spec_optional_diff(before, after, "embedding"@, *env),
{
    diff_optional_config(before, after, "embedding", changes, env);
}

/// Appends the changes between two optional memory sections.
pub fn diff_memory_config(before: Option<&MemoryConfig>, after: Option<&MemoryConfig>, changes: &mut Vec<ConfigChange>, env: &ApiKeyEnvironment)
    ensures
        change_views(final(changes)@) == change_views(old(changes)@) + spec_optional_diff(before, after, "memory"@, *env),
{
    diff_optional_config(before, after, "memory", changes, env);
}

/// Appends the changes between two optional RAG sections.
pub fn diff_rag_config(before: Option<&RagConfig>, after: Option<&RagConfig>, changes: &mut Vec<ConfigChange>, env: &ApiKeyEnvironment)
    ensures
        change_views(final(changes)@) == change_views(old(changes)@) + spec_optional_diff(before, after, "rag"@, *env),
{
    diff_optional_config(before, after, "rag", changes, env);
}

/// All changes between two configurations: server, chat, embedding, memory
/// and RAG sections, in this order.
pub open spec fn spec_config_diff(o: Config, n: Config, env: ApiKeyEnvironment) -> Seq<ChangeView> {
    spec_server_diff(o.server, n.server)
        + spec_optional_diff(as_ref_spec(&o.chat), as_ref_spec(&n.chat), "chat"@, env)
        + spec_optional_diff(as_ref_spec(&o.embedding), as_ref_spec(&n.embedding), "embedding"@, env)
        + spec_optional_diff(as_ref_spec(&o.memory), as_ref_spec(&n.memory), "memory"@, env)
        + spec_optional_diff(as_ref_spec(&o.rag), as_ref_spec(&n.rag), "rag"@, env)
}

/// The changes between two configurations.
pub fn diff_configs(before: &Config, after: &Config, env: &ApiKeyEnvironment) -> (r: Vec<ConfigChange>)
    ensures
        change_views(r@) == spec_config_diff(*before, *after, *env),
{
    let mut changes: Vec<ConfigChange> = Vec::new();
    assert(change_views(changes@) =~= Seq::<ChangeView>::empty());
    diff_server_config(&before.server, &after.server, &mut changes);
    diff_chat_config(before.chat.as_ref(), after.chat.as_ref(), &mut changes, env);
    diff_embedding_config(before.embedding.as_ref(), after.embedding.as_ref(), &mut changes, env);
    diff_memory_config(before.memory.as_ref(), after.memory.as_ref(), &mut changes, env);
    diff_rag_config(before.rag.as_ref(), after.rag.as_ref(), &mut changes, env);
    assert(change_views(changes@) =~= spec_config_diff(*before, *after, *env));
    changes
}

/// A number within `lo..=hi`, else the range message; not a number, the
/// type message.
pub open spec fn range_rule(v: ValueView, lo: u64, hi: u64, range_msg: Seq<char>, type_msg: Seq<char>) -> Option<Seq<char>> {
    match v {
        ValueView::UInt(n) => if lo <= n && n <= hi { None } else { Some(range_msg) },
        _ => Some(type_msg),
    }
}

/// A URL: a non-empty `http://` or `https://` string, or null.
pub open spec fn url_rule(v: ValueView, empty_msg: Seq<char>, proto_msg: Seq<char>, type_msg: Seq<char>) -> Option<Seq<char>> {
    match v {
        ValueView::Str(u) => if u.len() == 0 {
            Some(empty_msg)
        } else if !spec_starts_with(u, "http://"@) && !spec_starts_with(u, "https://"@) {
            Some(proto_msg)
        } else {
            None
        },
        ValueView::Null => None,
        _ => Some(type_msg),
    }
}

/// A key: a string or null.
pub open spec fn key_rule(v: ValueView, type_msg: Seq<char>) -> Option<Seq<char>> {
    match v {
        ValueView::Str(_) => None,
        ValueView::Null => None,
        _ => Some(type_msg),
    }
}

/// A boolean.
pub open spec fn bool_rule(v: ValueView, type_msg: Seq<char>) -> Option<Seq<char>> {
    match v {
        ValueView::Bool(_) => None,
        _ => Some(type_msg),
    }
}

/// A summarization strategy name.
pub open spec fn strategy_rule(v: ValueView) -> Option<Seq<char>> {
    match v {
        ValueView::Str(s) => if s == "Incremental"@ || s == "FullHistory"@ {
            None
        } else {
            Some("memory.summarization_strategy must be 'Incremental' or 'FullHistory'"@)
        },
        _ => Some("memory.summarization_strategy must be a string"@),
    }
}

/// The error of a change, or `None` when it may be applied: it must be hot
/// updatable, and the new value of a known field must have the right type and
/// range. Unknown fields pass.
pub open spec fn spec_validate_change(f: Seq<char>, v: ValueView, hot: bool) -> Option<Seq<char>> {
    if !hot {
        Some("Field '"@ + f + "' is not hot-updatable and requires a restart"@)
    } else if f == "server.max_tools_per_iteration"@ {
        range_rule(v, 1, 50, "server.max_tools_per_iteration must be between 1 and 50"@, "server.max_tools_per_iteration must be a positive integer"@)
    } else if f == "server.tool_call_max_retries"@ {
        range_rule(v, 0, 10, "server.tool_call_max_retries must be between 0 and 10"@, "server.tool_call_max_retries must be a non-negative integer"@)
    } else if f == "server.tool_call_retry_delay_ms"@ {
        range_rule(v, 0, 10000, "server.tool_call_retry_delay_ms must be between 0 and 10000"@, "server.tool_call_retry_delay_ms must be a non-negative integer"@)
    } else if f == "server.max_plan_subtasks"@ {
        range_rule(v, 1, 50, "server.max_plan_subtasks must be between 1 and 50"@, "server.max_plan_subtasks must be a positive integer"@)
    } else if f == "server.plan_timeout_secs"@ {
        range_rule(v, 60, 7200, "server.plan_timeout_secs must be between 60 and 7200"@, "server.plan_timeout_secs must be a positive integer"@)
    } else if f == "server.subtask_max_retries"@ {
        range_rule(v, 0, 10, "server.subtask_max_retries must be between 0 and 10"@, "server.subtask_max_retries must be a non-negative integer"@)
    } else if f == "server.subtask_react_max_iterations"@ {
        range_rule(v, 1, 20, "server.subtask_react_max_iterations must be between 1 and 20"@, "server.subtask_react_max_iterations must be a positive integer"@)
    } else if f == "server.subtask_react_timeout_secs"@ {
        range_rule(v, 10, 600, "server.subtask_react_timeout_secs must be between 10 and 600"@, "server.subtask_react_timeout_secs must be a positive integer"@)
    } else if f == "chat.url"@ {
        url_rule(v, "chat.url cannot be empty"@, "chat.url must start with http:// or https://"@, "chat.url must be a string"@)
    } else if f == "chat.api_key"@ {
        key_rule(v, "chat.api_key must be a string"@)
    } else if f == "embedding.url"@ {
        url_rule(v, "embedding.url cannot be empty"@, "embedding.url must start with http:// or https://"@, "embedding.url must be a string"@)
    } else if f == "embedding.api_key"@ {
        key_rule(v, "embedding.api_key must be a string"@)
    } else if f == "memory.auto_summarize"@ {
        bool_rule(v, "memory.auto_summarize must be a boolean"@)
    } else if f == "memory.summarization_strategy"@ {
        strategy_rule(v)
    } else if f == "memory.summarize_threshold"@ {
        range_rule(v, 2, 100, "memory.summarize_threshold must be between 2 and 100"@, "memory.summarize_threshold must be a positive integer"@)
    } else if f == "memory.max_stored_messages"@ {
        range_rule(v, 5, 500, "memory.max_stored_messages must be between 5 and 500"@, "memory.max_stored_messages must be a positive integer"@)
    } else if f == "rag.enable"@ {
        bool_rule(v, "rag.enable must be a boolean"@)
    } else {
        None
    }
}

/// Whether a change may be applied, and why not.
#[derive(Debug, Clone)]
pub struct ChangeValidationResult {
    pub is_valid: bool,
    pub error: Option<String>,
}

impl ChangeValidationResult {
    /// The change may be applied.
    pub fn valid() -> (r: Self)
        ensures
            r.is_valid,
            r.error is None,
    {
        ChangeValidationResult { is_valid: true, error: None }
    }

    /// The change may not be applied, for this reason.
    pub fn invalid(message: &str) -> (r: Self)
        ensures
            !r.is_valid,
            opt_view(r.error) == Some(message@),
    {
        ChangeValidationResult { is_valid: false, error: Some(String::from_str(message)) }
    }
}

fn range_check(v: &ConfigValue, lo: u64, hi: u64, range_msg: &str, type_msg: &str) -> (r: ChangeValidationResult)
    ensures
        opt_view(r.error) == range_rule(value_view(*v), lo, hi, range_msg@, type_msg@),
        r.is_valid == r.error is None,
{
    match v.as_u64() {
        Some(n) => if lo <= n && n <= hi {
            ChangeValidationResult::valid()
        } else {
            ChangeValidationResult::invalid(range_msg)
        },
        None => ChangeValidationResult::invalid(type_msg),
    }
}

fn url_check(v: &ConfigValue, empty_msg: &str, proto_msg: &str, type_msg: &str) -> (r: ChangeValidationResult)
    ensures
        opt_view(r.error) == url_rule(value_view(*v), empty_msg@, proto_msg@, type_msg@),
        r.is_valid == r.error is None,
{
    proof {
        reveal_strlit("http://");
        reveal_strlit("https://");
    }
    match v {
        ConfigValue::Str(u) => if u.as_str().unicode_len() == 0 {
            ChangeValidationResult::invalid(empty_msg)
        } else if !starts_with(u.as_str(), "http://") && !starts_with(u.as_str(), "https://") {
            ChangeValidationResult::invalid(proto_msg)
        } else {
            ChangeValidationResult::valid()
        },
        ConfigValue::Null => ChangeValidationResult::valid(),
        _ => ChangeValidationResult::invalid(type_msg),
    }
}

fn key_check(v: &ConfigValue, type_msg: &str) -> (r: ChangeValidationResult)
    ensures
        opt_view(r.error) == key_rule(value_view(*v), type_msg@),
        r.is_valid == r.error is None,
{
    match v {
        ConfigValue::Str(_) => ChangeValidationResult::valid(),
        ConfigValue::Null => ChangeValidationResult::valid(),
        _ => ChangeValidationResult::invalid(type_msg),
    }
}

fn bool_check(v: &ConfigValue, type_msg: &str) -> (r: ChangeValidationResult)
    ensures
        opt_view(r.error) == bool_rule(value_view(*v), type_msg@),
        r.is_valid == r.error is None,
{
    match v {
        ConfigValue::Bool(_) => ChangeValidationResult::valid(),
        _ => ChangeValidationResult::invalid(type_msg),
    }
}

fn strategy_check(v: &ConfigValue) -> (r: ChangeValidationResult)
    ensures
        opt_view(r.error) == strategy_rule(value_view(*v)),
        r.is_valid == r.error is None,
{
    match v {
        ConfigValue::Str(s) => if str_eq(s.as_str(), "Incremental") || str_eq(s.as_str(), "FullHistory") {
            ChangeValidationResult::valid()
        } else {
            ChangeValidationResult::invalid("memory.summarization_strategy must be 'Incremental' or 'FullHistory'")
        },
        _ => ChangeValidationResult::invalid("memory.summarization_strategy must be a string"),
    }
}

/// Checks a change before it is applied.
#[verifier::rlimit(50)]
pub fn validate_change(change: &ConfigChange) -> (r: ChangeValidationResult)
    ensures
        opt_view(r.error) == spec_validate_change(change.field@, value_view(change.new_value), change.is_hot_updatable),
        r.is_valid == r.error is None,
{
    if !change.is_hot_updatable {
        let m = concat3("Field '", change.field.as_str(), "' is not hot-updatable and requires a restart");
        return ChangeValidationResult::invalid(m.as_str());
    }
    let f = change.field.as_str();
    let v = &change.new_value;
    if str_eq(f, "server.max_tools_per_iteration") {
        range_check(v, 1, 50, "server.max_tools_per_iteration must be between 1 and 50", "server.max_tools_per_iteration must be a positive integer")
    } else if str_eq(f, "server.tool_call_max_retries") {
        range_check(v, 0, 10, "server.tool_call_max_retries must be between 0 and 10", "server.tool_call_max_retries must be a non-negative integer")
    } else if str_eq(f, "server.tool_call_retry_delay_ms") {
        range_check(v, 0, 10000, "server.tool_call_retry_delay_ms must be between 0 and 10000", "server.tool_call_retry_delay_ms must be a non-negative integer")
    } else if str_eq(f, "server.max_plan_subtasks") {
        range_check(v, 1, 50, "server.max_plan_subtasks must be between 1 and 50", "server.max_plan_subtasks must be a positive integer")
    } else if str_eq(f, "server.plan_timeout_secs") {
        range_check(v, 60, 7200, "server.plan_timeout_secs must be between 60 and 7200", "server.plan_timeout_secs must be a positive integer")
    } else if str_eq(f, "server.subtask_max_retries") {
        range_check(v, 0, 10, "server.subtask_max_retries must be between 0 and 10", "server.subtask_max_retries must be a non-negative integer")
    } else if str_eq(f, "server.subtask_react_max_iterations") {
        range_check(v, 1, 20, "server.subtask_react_max_iterations must be between 1 and 20", "server.subtask_react_max_iterations must be a positive integer")
    } else if str_eq(f, "server.subtask_react_timeout_secs") {
        range_check(v, 10, 600, "server.subtask_react_timeout_secs must be between 10 and 600", "server.subtask_react_timeout_secs must be a positive integer")
    } else if str_eq(f, "chat.url") {
        url_check(v, "chat.url cannot be empty", "chat.url must start with http:// or https://", "chat.url must be a string")
    } else if str_eq(f, "chat.api_key") {
        key_check(v, "chat.api_key must be a string")
    } else if str_eq(f, "embedding.url") {
        url_check(v, "embedding.url cannot be empty", "embedding.url must start with http:// or https://", "embedding.url must be a string")
    } else if str_eq(f, "embedding.api_key") {
        key_check(v, "embedding.api_key must be a string")
    } else if str_eq(f, "memory.auto_summarize") {
        bool_check(v, "memory.auto_summarize must be a boolean")
    } else if str_eq(f, "memory.summarization_strategy") {
        strategy_check(v)
    } else if str_eq(f, "memory.summarize_threshold") {
        range_check(v, 2, 100, "memory.summarize_threshold must be between 2 and 100", "memory.summarize_threshold must be a positive integer")
    } else if str_eq(f, "memory.max_stored_messages") {
        range_check(v, 5, 500, "memory.max_stored_messages must be between 5 and 500", "memory.max_stored_messages must be a positive integer")
    } else if str_eq(f, "rag.enable") {
        bool_check(v, "rag.enable must be a boolean")
    } else {
        ChangeValidationResult::valid()
    }
}

/// What applying one change did.
#[derive(Debug, Clone)]
pub struct ApplyChangeResult {
    pub success: bool,
    pub error: Option<String>,
    pub requires_reload: bool,
    pub reload_service: Option<String>,
}

/// A result as (success, error, requires reload, service).
pub type ApplyView = (bool, Option<Seq<char>>, bool, Option<Seq<char>>);

/// The view of a result.
pub open spec fn apply_view(r: ApplyChangeResult) -> ApplyView {
    (r.success, opt_view(r.error), r.requires_reload, opt_view(r.reload_service))
}

/// Success with nothing to reload.
pub open spec fn ok_view() -> ApplyView {
    (true, None, false, None)
}

/// Success, and `service` must reload.
pub open spec fn reload_view(service: Seq<char>) -> ApplyView {
    (true, None, true, Some(service))
}

/// Failure for `message`.
pub open spec fn failed_view(message: Seq<char>) -> ApplyView {
    (false, Some(message), false, None)
}

impl ApplyChangeResult {
    /// Success with nothing to reload.
    pub fn success() -> (r: Self)
        ensures
            apply_view(r) == ok_view(),
    {
        ApplyChangeResult { success: true, error: None, requires_reload: false, reload_service: None }
    }

    /// Success, and `service` must reload.
    pub fn success_with_reload(service: &str) -> (r: Self)
        ensures
            apply_view(r) == reload_view(service@),
    {
        ApplyChangeResult { success: true, error: None, requires_reload: true, reload_service: Some(String::from_str(service)) }
    }

    /// Failure for `message`.
    pub fn failed(message: &str) -> (r: Self)
        ensures
            apply_view(r) == failed_view(message@),
    {
        ApplyChangeResult { success: false, error: Some(String::from_str(message)), requires_reload: false, reload_service: None }
    }
}

/// The eight numeric server fields that a change may set.
pub open spec fn is_server_number_field(f: Seq<char>) -> bool {
    f == "server.max_tools_per_iteration"@ || f == "server.tool_call_max_retries"@
        || f == "server.tool_call_retry_delay_ms"@ || f == "server.max_plan_subtasks"@
        || f == "server.plan_timeout_secs"@ || f == "server.subtask_max_retries"@
        || f == "server.subtask_react_max_iterations"@ || f == "server.subtask_react_timeout_secs"@
}

/// The server section with the numeric field `f` set to `n`.
pub open spec fn server_set(s: ServerConfig, f: Seq<char>, n: u64) -> ServerConfig {
    if f == "server.max_tools_per_iteration"@ {
        ServerConfig { max_tools_per_iteration: n as usize, ..s }
    } else if f == "server.tool_call_max_retries"@ {
        ServerConfig { tool_call_max_retries: n as u32, ..s }
    } else if f == "server.tool_call_retry_delay_ms"@ {
        ServerConfig { tool_call_retry_delay_ms: n, ..s }
    } else if f == "server.max_plan_subtasks"@ {
        ServerConfig { max_plan_subtasks: n as usize, ..s }
    } else if f == "server.plan_timeout_secs"@ {
        ServerConfig { plan_timeout_secs: n, ..s }
    } else if f == "server.subtask_max_retries"@ {
        ServerConfig { subtask_max_retries: n as u32, ..s }
    } else if f == "server.subtask_react_max_iterations"@ {
        ServerConfig { subtask_react_max_iterations: n as u32, ..s }
    } else {
        ServerConfig { subtask_react_timeout_secs: n, ..s }
    }
}

/// `s` with every trailing `suffix` removed.
pub open spec fn spec_trim_suffix(s: Seq<char>, suffix: Seq<char>) -> Seq<char>
    decreases s.len(),
{
    if suffix.len() > 0 && spec_ends_with(s, suffix) {
        spec_trim_suffix(s.subrange(0, s.len() - suffix.len()), suffix)
    } else {
        s
    }
}

/// `s` with every trailing `suffix` removed.
pub fn trim_suffix(s: &str, suffix: &str) -> (r: String)
    ensures
        r@ == spec_trim_suffix(s@, suffix@),
{
    let mut cur = String::from_str(s);
    let m = suffix.unicode_len();
    if m == 0 {
        return cur;
    }
    loop
        invariant
            m == suffix@.len(),
            m > 0,
            spec_trim_suffix(cur@, suffix@) == spec_trim_suffix(s@, suffix@),
        decreases cur@.len(),
    {
        if !ends_with(cur.as_str(), suffix) {
            return cur;
        }
        let n = cur.as_str().unicode_len();
        cur = substring(cur.as_str(), 0, n - m);
    }
}

/// What applying a valid change does to the configuration, and its result.
pub open spec fn spec_apply_valid(c: Config, f: Seq<char>, nv: ConfigValue) -> (ApplyView, Config) {
    if is_server_number_field(f) {
        match nv {
            ConfigValue::UInt(n) => (ok_view(), Config { server: server_set(c.server, f, n), ..c }),
            _ => (failed_view("Invalid value type for "@ + f), c),
        }
    } else if f == "chat.url"@ {
        match c.chat {
            Some(cc) => match nv {
                ConfigValue::Str(u) => (reload_view("chat"@), Config { chat: Some(ChatConfig { url: u, ..cc }), ..c }),
                _ => (failed_view("Invalid value type for chat.url"@), c),
            },
            None => (failed_view("Chat configuration not initialized"@), c),
        }
    } else if f == "chat.api_key"@ {
        (failed_view("chat.api_key update requires ChatConfig setter method"@), c)
    } else if f == "embedding.url"@ {
        match c.embedding {
            Some(ec) => match nv {
                ConfigValue::Str(u) => (reload_view("embedding"@), Config { embedding: Some(EmbeddingConfig { url: u, ..ec }), ..c }),
                _ => (failed_view("Invalid value type for embedding.url"@), c),
            },
            None => (failed_view("Embedding configuration not initialized"@), c),
        }
    } else if f == "embedding.api_key"@ {
        (failed_view("embedding.api_key update requires EmbeddingConfig setter method"@), c)
    } else if f == "memory.auto_summarize"@ || f == "memory.summarization_strategy"@
        || f == "memory.summarize_threshold"@ || f == "memory.max_stored_messages"@ {
        match c.memory {
            Some(m) => {
                let (r, m2) = spec_apply_memory(m, f, nv);
                (r, Config { memory: Some(m2), ..c })
            },
            None => (failed_view("Memory configuration not initialized"@), c),
        }
    } else if f == "rag.enable"@ {
        match c.rag {
            Some(rc) => match nv {
                ConfigValue::Bool(b) => (ok_view(), Config { rag: Some(RagConfig { enable: b, ..rc }), ..c }),
                _ => (failed_view("Invalid value type for rag.enable"@), c),
            },
            None => (failed_view("RAG configuration not initialized"@), c),
        }
    } else if spec_ends_with(f, " (section)"@) {
        (failed_view("Configuration section '"@ + spec_trim_suffix(f, " (section)"@) + "' cannot be added or removed at runtime"@), c)
    } else {
        (failed_view("Unknown field: "@ + f), c)
    }
}

/// What applying a memory change does to an existing memory section.
pub open spec fn spec_apply_memory(m: MemoryConfig, f: Seq<char>, nv: ConfigValue) -> (ApplyView, MemoryConfig) {
    if f == "memory.auto_summarize"@ {
        match nv {
            ConfigValue::Bool(b) => (ok_view(), MemoryConfig { auto_summarize: b, ..m }),
            _ => (failed_view("Invalid value type for memory.auto_summarize"@), m),
        }
    } else if f == "memory.summarization_strategy"@ {
        match nv {
            ConfigValue::Str(s) => if s@ == "Incremental"@ {
                (ok_view(), MemoryConfig { summarization_strategy: SummarizationStrategy::Incremental, ..m })
            } else if s@ == "FullHistory"@ {
                (ok_view(), MemoryConfig { summarization_strategy: SummarizationStrategy::FullHistory, ..m })
            } else {
                (failed_view("Invalid value for memory.summarization_strategy"@), m)
            },
            _ => (failed_view("Invalid value type for memory.summarization_strategy"@), m),
        }
    } else if f == "memory.summarize_threshold"@ {
        match nv {
            ConfigValue::UInt(n) => (ok_view(), MemoryConfig { summarize_threshold: n as u32, ..m }),
            _ => (failed_view("Invalid value type for memory.summarize_threshold"@), m),
        }
    } else {
        match nv {
            ConfigValue::UInt(n) => (ok_view(), MemoryConfig { max_stored_messages: n as u32, ..m }),
            _ => (failed_view("Invalid value type for memory.max_stored_messages"@), m),
        }
    }
}

/// What applying a change does: nothing but a failure when it does not
/// validate, else see `spec_apply_valid`.
pub open spec fn spec_apply_change(c: Config, ch: ConfigChange) -> (ApplyView, Config) {
    match spec_validate_change(ch.field@, value_view(ch.new_value), ch.is_hot_updatable) {
        Some(m) => (failed_view(m), c),
        None => spec_apply_valid(c, ch.field@, ch.new_value),
    }
}

fn set_server_number(server: &mut ServerConfig, f: &str, n: u64)
    requires
        is_server_number_field(f@),
    ensures
        *final(server) == server_set(*old(server), f@, n),
{
    if str_eq(f, "server.max_tools_per_iteration") {
        server.max_tools_per_iteration = n as usize;
    } else if str_eq(f, "server.tool_call_max_retries") {
        server.tool_call_max_retries = n as u32;
    } else if str_eq(f, "server.tool_call_retry_delay_ms") {
        server.tool_call_retry_delay_ms = n;
    } else if str_eq(f, "server.max_plan_subtasks") {
        server.max_plan_subtasks = n as usize;
    } else if str_eq(f, "server.plan_timeout_secs") {
        server.plan_timeout_secs = n;
    } else if str_eq(f, "server.subtask_max_retries") {
        server.subtask_max_retries = n as u32;
    } else if str_eq(f, "server.subtask_react_max_iterations") {
        server.subtask_react_max_iterations = n as u32;
    } else {
        server.subtask_react_timeout_secs = n;
    }
}

fn apply_memory_change(m: &mut MemoryConfig, f: &str, nv: &ConfigValue) -> (r: ApplyChangeResult)
    ensures
        (apply_view(r), *final(m)) == spec_apply_memory(*old(m), f@, *nv),
{
    if str_eq(f, "memory.auto_summarize") {
        match nv.as_bool() {
            Some(b) => {
                m.auto_summarize = b;
                ApplyChangeResult::success()
            },
            None => ApplyChangeResult::failed("Invalid value type for memory.auto_summarize"),
        }
    } else if str_eq(f, "memory.summarization_strategy") {
        match nv.as_str() {
            Some(s) => if str_eq(s.as_str(), "Incremental") {
                m.summarization_strategy = SummarizationStrategy::Incremental;
                ApplyChangeResult::success()
            } else if str_eq(s.as_str(), "FullHistory") {
                m.summarization_strategy = SummarizationStrategy::FullHistory;
                ApplyChangeResult::success()
            } else {
                ApplyChangeResult::failed("Invalid value for memory.summarization_strategy")
            },
            None => ApplyChangeResult::failed("Invalid value type for memory.summarization_strategy"),
        }
    } else if str_eq(f, "memory.summarize_threshold") {
        match nv.as_u64() {
            Some(n) => {
                m.summarize_threshold = n as u32;
                ApplyChangeResult::success()
            },
            None => ApplyChangeResult::failed("Invalid value type for memory.summarize_threshold"),
        }
    } else {
        match nv.as_u64() {
            Some(n) => {
                m.max_stored_messages = n as u32;
                ApplyChangeResult::success()
            },
            None => ApplyChangeResult::failed("Invalid value type for memory.max_stored_messages"),
        }
    }
}

fn is_server_number(f: &str) -> (r: bool)
    ensures
        r == is_server_number_field(f@),
{
    str_eq(f, "server.max_tools_per_iteration") || str_eq(f, "server.tool_call_max_retries")
        || str_eq(f, "server.tool_call_retry_delay_ms") || str_eq(f, "server.max_plan_subtasks")
        || str_eq(f, "server.plan_timeout_secs") || str_eq(f, "server.subtask_max_retries")
        || str_eq(f, "server.subtask_react_max_iterations") || str_eq(f, "server.subtask_react_timeout_secs")
}

fn apply_valid_change(config: &mut Config, f: &str, nv: &ConfigValue) -> (r: ApplyChangeResult)
    ensures
        (apply_view(r), *final(config)) == spec_apply_valid(*old(config), f@, *nv),
{
    if is_server_number(f) {
        match nv.as_u64() {
            Some(n) => {
                set_server_number(&mut config.server, f, n);
                ApplyChangeResult::success()
            },
            None => {
                let m = concat("Invalid value type for ", f);
                ApplyChangeResult::failed(m.as_str())
            },
        }
    } else if str_eq(f, "chat.url") {
        let taken = config.chat.take();
        match taken {
            Some(mut cc) => match nv.as_str() {
                Some(u) => {
                    cc.url = u.clone();
                    config.chat = Some(cc);
                    ApplyChangeResult::success_with_reload("chat")
                },
                None => {
                    config.chat = Some(cc);
                    ApplyChangeResult::failed("Invalid value type for chat.url")
                },
            },
            None => ApplyChangeResult::failed("Chat configuration not initialized"),
        }
    } else if str_eq(f, "chat.api_key") {
        ApplyChangeResult::failed("chat.api_key update requires ChatConfig setter method")
    } else if str_eq(f, "embedding.url") {
        let taken = config.embedding.take();
        match taken {
            Some(mut ec) => match nv.as_str() {
                Some(u) => {
                    ec.url = u.clone();
                    config.embedding = Some(ec);
                    ApplyChangeResult::success_with_reload("embedding")
                },
                None => {
                    config.embedding = Some(ec);
                    ApplyChangeResult::failed("Invalid value type for embedding.url")
                },
            },
            None => ApplyChangeResult::failed("Embedding configuration not initialized"),
        }
    } else if str_eq(f, "embedding.api_key") {
        ApplyChangeResult::failed("embedding.api_key update requires EmbeddingConfig setter method")
    } else if str_eq(f, "memory.auto_summarize") || str_eq(f, "memory.summarization_strategy")
        || str_eq(f, "memory.summarize_threshold") || str_eq(f, "memory.max_stored_messages") {
        let taken = config.memory.take();
        match taken {
            Some(mut m) => {
                let r = apply_memory_change(&mut m, f, nv);
                config.memory = Some(m);
                r
            },
            None => ApplyChangeResult::failed("Memory configuration not initialized"),
        }
    } else if str_eq(f, "rag.enable") {
        let taken = config.rag.take();
        match taken {
            Some(mut rc) => match nv.as_bool() {
                Some(b) => {
                    rc.enable = b;
                    config.rag = Some(rc);
                    ApplyChangeResult::success()
                },
                None => {
                    config.rag = Some(rc);
                    ApplyChangeResult::failed("Invalid value type for rag.enable")
                },
            },
            None => ApplyChangeResult::failed("RAG configuration not initialized"),
        }
    } else if ends_with(f, " (section)") {
        let name = trim_suffix(f, " (section)");
        let m = concat3("Configuration section '", name.as_str(), "' cannot be added or removed at runtime");
        ApplyChangeResult::failed(m.as_str())
    } else {
        let m = concat("Unknown field: ", f);
        ApplyChangeResult::failed(m.as_str())
    }
}

/// Validates a change and, when valid, applies it to `config`.
pub fn apply_single_change(config: &mut Config, change: &ConfigChange) -> (r: ApplyChangeResult)
    ensures
        (apply_view(r), *final(config)) == spec_apply_change(*old(config), *change),
{
    let validation = validate_change(change);
    if !validation.is_valid {
        let message = match &validation.error {
            Some(e) => e.clone(),
            None => String::from_str("Validation failed"),
        };
        return ApplyChangeResult::failed(message.as_str());
    }
    apply_valid_change(config, change.field.as_str(), &change.new_value)
}

/// The configuration after applying the first `k` changes in order.
pub open spec fn spec_apply_all(c: Config, changes: Seq<ConfigChange>, k: int) -> Config
    decreases k,
{
    if k <= 0 {
        c
    } else {
        spec_apply_change(spec_apply_all(c, changes, k - 1), changes[k - 1]).1
    }
}

/// Applies changes in order; each change's result is paired with its field.
pub fn apply_changes(config: &mut Config, changes: &Vec<ConfigChange>) -> (r: Vec<(String, ApplyChangeResult)>)
    ensures
        r@.len() == changes@.len(),
        *final(config) == spec_apply_all(*old(config), changes@, changes@.len() as int),
        forall|i: int| 0 <= i < changes@.len() ==> (#[trigger] r@[i]).0@ == changes@[i].field@
            && apply_view(r@[i].1) == spec_apply_change(spec_apply_all(*old(config), changes@, i), changes@[i]).0,
{
    let ghost start = *config;
    let mut out: Vec<(String, ApplyChangeResult)> = Vec::new();
    let mut i: usize = 0;
    while i < changes.len()
        invariant
            i <= changes@.len(),
            out@.len() == i,
            *config == spec_apply_all(start, changes@, i as int),
            forall|j: int| 0 <= j < i ==> (#[trigger] out@[j]).0@ == changes@[j].field@
                && apply_view(out@[j].1) == spec_apply_change(spec_apply_all(start, changes@, j), changes@[j]).0,
        decreases changes@.len() - i,
    {
        let result = apply_single_change(config, &changes[i]);
        out.push((changes[i].field.clone(), result));
        i = i + 1;
    }
    out
}

} // verus!
