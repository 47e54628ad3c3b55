//! Properties that relate several operations of the library, proved over
//! the specifications that the operations' contracts use.

use vstd::prelude::*;
use crate::cli::installer::{SourceView, spec_display_name, spec_parse_source, spec_relative_path};
use crate::cli::package::spec_planned;
use crate::config::{
    MossLantaiConfig, SubAgentSystemConfig,
    McpTransport, SkillConfig, ApiKeyEnvironment, ChatConfig, Config, default_server_limits, default_summarization, EmbeddingConfig, McpToolServerConfig, MemoryConfig, RagConfig, ServerConfig, opt_view,
};
use crate::config_api::diff::{
    ConfigChange, ConfigValue, ValueView, is_server_number_field, server_set, spec_apply_change, spec_config_diff,
    spec_server_diff, spec_server_plan_diff, spec_memory_diff, spec_rag_diff, spec_chat_diff, spec_embedding_diff, ChangeView, spec_server_restart_diff, spec_server_tool_diff, spec_validate_change,
    value_view,
};
use crate::config_api::schema::{spec_memory_schema, spec_readonly_fields, spec_server_schema};
use crate::config_api::types::{
    ChatConfigUpdate, ConfigUpdateRequest, EmbeddingConfigUpdate, LantaiAutoMemoryConfigUpdate, MemoryConfigUpdate,
    RagConfigUpdate, ServerConfigUpdate, SubagentConfigUpdate, spec_api_updatable_fields,
};
use crate::config_api::validate::{Check, check, spec_request_checks, spec_validated, spec_chat_checks, spec_embedding_checks, spec_url_checks, spec_key_checks, server_part, chat_part, embedding_part, memory_part, rag_part};
use crate::config_api::update::{
    UpdateView, applies, chat_missing, spec_updated_before_embedding, fail, lantai_any, memory_missing, request_stuck, spec_config_updated, spec_add_updated, spec_apply_record, spec_chat_record,
    spec_embedding_record, spec_lantai_record, spec_memory_record, spec_rag_record, spec_server_record,
    spec_subagent_record, upd, valid_execution_mode, valid_parallel_mode,
};
use crate::config_api::watcher::{MtimeReading, ReloadGate, spec_on_modify};
use crate::executor::manager::spec_register;
use crate::executor::deno::{DenoConfig, spec_command_args, spec_env, spec_fs_flags, spec_permission_flags, spec_v8_args};
use crate::executor::wasmtime::spec_preopens;
use crate::executor::types::{ExecuteRequest, FilesystemPolicy, capped, flatten_chunks};
use crate::text::{spec_join, views};
use crate::executor::docker::{spec_build_command, spec_image_tag, spec_data_dir, spec_container_args};
use crate::config_api::sanitize::{spec_sanitized_chat, spec_sanitized_embedding, spec_sanitized_memory, skill_key_configured, market_key_configured};
use crate::mcp::{McpConnectPlanV, spec_plan, spec_trim_end_slashes, spec_url_with_key};
use crate::mcp_handlers::{
    lemma_find_server, spec_all_tools, spec_disabled, spec_enabled_tools, spec_find_server, spec_server_tools, spec_with_key,
    tool_count,
};
use crate::sys::{all_ascii, ascii_lower, lowercase_of};
use crate::text::{lemma_find_from_range, lemma_find_is, lemma_rfind_range, spec_find, spec_rfind, spec_has_char, spec_starts_with, spec_strip_prefix};

verus! {

/// A configuration change that is not applied leaves the configuration as
/// it was: whatever the change, when applying it fails, the configuration
/// after is the configuration before.
pub proof fn law_failed_change_keeps_config(c: Config, ch: crate::config_api::diff::ConfigChange)
    ensures
        !spec_apply_change(c, ch).0.0 ==> spec_apply_change(c, ch).1 == c,
{
}

/// Comparing a configuration with itself finds no change.
pub proof fn law_no_changes_between_equal_configs(c: Config, env: ApiKeyEnvironment)
    ensures
        spec_config_diff(c, c, env) == Seq::<crate::config_api::diff::ChangeView>::empty(),
{
    assert(spec_config_diff(c, c, env) =~= Seq::<crate::config_api::diff::ChangeView>::empty());
}

/// A source string that parses is given back by the display form of what
/// it parses to.
pub proof fn law_parsed_source_displays_as_written(s: Seq<char>)
    ensures
        spec_parse_source(s) matches Some(v) ==> spec_display_name(v) == s,
{
    if spec_starts_with(s, "skillsmp:"@) {
        let rest = spec_strip_prefix(s, "skillsmp:"@);
        let at = spec_find(rest, '@');
        lemma_find_from_range(rest, '@', 0);
        assert(s =~= "skillsmp:"@ + rest);
        if at >= 0 {
            assert(rest =~= rest.subrange(0, at) + "@"@ + rest.subrange(at + 1, rest.len() as int)) by {
                reveal_strlit("@");
            }
        }
    }
}

/// The display form of a source parses back to the source, for the sources
/// that a display form can stand for: marketplace names without `@`, and
/// `http://` or `https://` URLs.
pub proof fn law_displayed_source_parses_back(v: SourceView)
    requires
        match v {
            SourceView::Skillsmp(name, _) => !spec_has_char(name, '@'),
            SourceView::Url(u) => spec_starts_with(u, "https://"@) || spec_starts_with(u, "http://"@),
        },
    ensures
        spec_parse_source(spec_display_name(v)) == Some(v),
{
    reveal_strlit("skillsmp:");
    reveal_strlit("@");
    reveal_strlit("https://");
    reveal_strlit("http://");
    match v {
        SourceView::Skillsmp(name, ver) => {
            let d = spec_display_name(v);
            assert(d.subrange(0, 9) =~= "skillsmp:"@);
            let rest = spec_strip_prefix(d, "skillsmp:"@);
            match ver {
                None => {
                    assert(rest =~= name);
                    lemma_find_is(rest, '@', -1);
                },
                Some(w) => {
                    assert(rest =~= name + "@"@ + w);
                    assert(rest[name.len() as int] == '@');
                    assert forall|j: int| 0 <= j < name.len() implies rest[j] != '@' by {
                        assert(rest[j] == name[j]);
                    }
                    lemma_find_is(rest, '@', name.len() as int);
                    assert(rest.subrange(0, name.len() as int) =~= name);
                    assert(rest.subrange(name.len() as int + 1, rest.len() as int) =~= w);
                },
            }
        },
        SourceView::Url(u) => {
            if spec_starts_with(u, "skillsmp:"@) {
                assert(u.subrange(0, 9)[0] == 's');
                if spec_starts_with(u, "https://"@) {
                    assert(u.subrange(0, 8)[0] == 'h');
                } else {
                    assert(u.subrange(0, 7)[0] == 'h');
                }
            }
        },
    }
}

/// After an executor is registered for some extensions, each of them (in
/// lower case) is routed to it; extensions it was not registered for keep
/// their routes. This holds of both maps the manager keeps: extension to
/// executor name, and extension to executor.
pub proof fn law_registered_extensions_route_to_executor<T>(
    routes: Map<Seq<char>, T>,
    v: T,
    exts: Seq<Seq<char>>,
    key: Seq<char>,
)
    ensures
        (exists|i: int| 0 <= i < exts.len() && lowercase_of(#[trigger] exts[i]) == key) ==> (spec_register(routes, v, exts).contains_key(key)
            && spec_register(routes, v, exts)[key] == v),
        (forall|i: int| 0 <= i < exts.len() ==> lowercase_of(#[trigger] exts[i]) != key) ==> (spec_register(routes, v, exts).contains_key(key)
            == routes.contains_key(key) && (routes.contains_key(key) ==> spec_register(routes, v, exts)[key] == routes[key])),
    decreases exts.len(),
{
    if exts.len() > 0 {
        law_registered_extensions_route_to_executor(routes, v, exts.drop_last(), key);
        let last = exts.len() - 1;
        if exists|i: int| 0 <= i < exts.len() && lowercase_of(#[trigger] exts[i]) == key {
            let i = choose|i: int| 0 <= i < exts.len() && lowercase_of(#[trigger] exts[i]) == key;
            if i < last && lowercase_of(exts[last]) != key {
                assert(lowercase_of(exts.drop_last()[i]) == key);
            }
        } else {
            assert forall|i: int| 0 <= i < exts.drop_last().len() implies lowercase_of(#[trigger] exts.drop_last()[i]) != key by {
                assert(exts.drop_last()[i] == exts[i]);
            }
            assert(lowercase_of(exts[last]) != key);
        }
    }
}

/// An executor registered for an extension is then found for it whatever
/// the case of its ASCII letters: after registering `v` for `exts`, looking
/// up any `x` that equals one of `exts` up to ASCII case gives `v` (the
/// manager looks up the lowercased extension).
pub proof fn law_registered_extension_found_ignoring_case<T>(
    routes: Map<Seq<char>, T>,
    v: T,
    exts: Seq<Seq<char>>,
    i: int,
    x: Seq<char>,
)
    requires
        0 <= i < exts.len(),
        all_ascii(x),
        all_ascii(exts[i]),
        ascii_lower(x) == ascii_lower(exts[i]),
    ensures
        spec_register(routes, v, exts).contains_key(lowercase_of(x)),
        spec_register(routes, v, exts)[lowercase_of(x)] == v,
{
    assert(lowercase_of(exts[i]) == lowercase_of(x));
    law_registered_extensions_route_to_executor(routes, v, exts, lowercase_of(x));
}

/// An update through the API silences the file watcher: a change event
/// that comes less than twice the debounce interval after the update (and
/// outside the debounce interval of the previous event) does not reload.
pub proof fn law_api_update_suppresses_reload(g: ReloadGate, api_ms: u64, now_ms: u64, mtime: MtimeReading)
    requires
        now_ms >= api_ms,
        now_ms - api_ms < 2 * g.debounce_ms,
    ensures
        !spec_on_modify(ReloadGate { last_api_update_ms: Some(api_ms), ..g }, now_ms, mtime).1,
{
}

/// Events in a burst reload at most once: after an event that passed the
/// debounce check, any event less than the debounce interval later does not
/// reload, whatever the file's modification time.
pub proof fn law_debounced_event_does_not_reload(g: ReloadGate, t1: u64, m1: MtimeReading, t2: u64, m2: MtimeReading)
    requires
        !(g.last_event_ms matches Some(last) && t1 >= last && t1 - last < g.debounce_ms),
        t2 >= t1,
        t2 - t1 < g.debounce_ms,
    ensures
        !spec_on_modify(spec_on_modify(g, t1, m1).0, t2, m2).1,
{
}

/// Disabling a server twice changes nothing the second time: after the
/// server found under a name is disabled, the same name finds the same
/// server, and it is disabled, so a second request to disable it is
/// answered as already done.
pub proof fn law_disable_then_already_disabled(servers: Seq<McpToolServerConfig>, name: Seq<char>)
    requires
        spec_find_server(servers, name) >= 0,
    ensures
        ({
            let k = spec_find_server(servers, name);
            let after = servers.update(k, spec_disabled(servers[k]));
            spec_find_server(after, name) == k && !after[k].enable
        }),
{
    lemma_find_server(servers, name);
    let k = spec_find_server(servers, name);
    let after = servers.update(k, spec_disabled(servers[k]));
    assert(after[k].name@ == name);
    assert forall|j: int| 0 <= j < k implies (#[trigger] after[j]).name@ != name by {
        assert(after[j] == servers[j]);
    }
    lemma_find_server(after, name);
    let c = spec_find_server(after, name);
    assert(c == k) by {
        assert(after[k].name@ == name);
        if c < k && c >= 0 {
            assert(after[c].name@ != name);
        }
        if c > k {
            assert(after[k].name@ != name);
        }
    }
}

/// A server whose API key was cleared is reached at its plain URL: an empty
/// key puts nothing in the query, whatever the parameter's name.
pub proof fn law_cleared_key_gives_plain_url(s: McpToolServerConfig, empty: String, param: Option<String>, url: Seq<char>)
    requires
        empty@.len() == 0,
    ensures
        ({
            let t = spec_with_key(s, empty, param);
            spec_url_with_key(url, opt_view(t.api_key), opt_view(t.api_key_param)) == spec_trim_end_slashes(url)
        }),
{
}

/// Trimming the trailing `/` characters twice is trimming them once, and
/// what is left does not end with `/`.
pub proof fn law_trim_end_slashes_idempotent(s: Seq<char>)
    ensures
        spec_trim_end_slashes(spec_trim_end_slashes(s)) == spec_trim_end_slashes(s),
        spec_trim_end_slashes(s).len() > 0 ==> spec_trim_end_slashes(s).last() != '/',
    decreases s.len(),
{
    if s.len() > 0 && s.last() == '/' {
        law_trim_end_slashes_idempotent(s.drop_last());
    }
}

/// The tools of a server number as many as the server has.
proof fn lemma_server_tools_len(s: McpToolServerConfig, j: int)
    requires
        0 <= j <= tool_count(s),
    ensures
        spec_server_tools(s, j).len() == j,
    decreases j,
{
    if j > 0 {
        lemma_server_tools_len(s, j - 1);
    }
}

/// The tool list never counts more enabled tools than it lists.
pub proof fn law_enabled_tools_at_most_listed(servers: Seq<McpToolServerConfig>)
    ensures
        spec_enabled_tools(servers) <= spec_all_tools(servers).len(),
    decreases servers.len(),
{
    if servers.len() > 0 {
        law_enabled_tools_at_most_listed(servers.drop_last());
        lemma_server_tools_len(servers.last(), tool_count(servers.last()) as int);
    }
}


/// The schema that the API publishes for a server field gives the same range
/// as the validation of a change to it: for every number, the change is
/// accepted exactly when the number lies within the published bounds.
#[verifier::spinoff_prover]
pub proof fn law_server_schema_matches_validation(field: Seq<char>, n: u64)
    requires
        spec_server_schema().contains_key(field),
    ensures
        ({
            let s = spec_server_schema()[field];
            (spec_validate_change("server."@ + field, ValueView::UInt(n), true) is None)
                == (s.1->0 <= n && n <= s.2->0)
        }),
{
    reveal_strlit("server.");
    reveal_strlit("max_tools_per_iteration");
    reveal_strlit("tool_call_max_retries");
    reveal_strlit("tool_call_retry_delay_ms");
    reveal_strlit("max_plan_subtasks");
    reveal_strlit("plan_timeout_secs");
    reveal_strlit("subtask_max_retries");
    reveal_strlit("subtask_react_max_iterations");
    reveal_strlit("subtask_react_timeout_secs");
    reveal_strlit("server.max_tools_per_iteration");
    reveal_strlit("server.tool_call_max_retries");
    reveal_strlit("server.tool_call_retry_delay_ms");
    reveal_strlit("server.max_plan_subtasks");
    reveal_strlit("server.plan_timeout_secs");
    reveal_strlit("server.subtask_max_retries");
    reveal_strlit("server.subtask_react_max_iterations");
    reveal_strlit("server.subtask_react_timeout_secs");
    let f = "server."@ + field;
    if field == "max_tools_per_iteration"@ {
        assert(f =~= "server.max_tools_per_iteration"@);
    } else if field == "tool_call_max_retries"@ {
        assert(f =~= "server.tool_call_max_retries"@);
        assert(f != "server.max_tools_per_iteration"@) by { assert(f[7] != "server.max_tools_per_iteration"@[7]); }
    } else if field == "tool_call_retry_delay_ms"@ {
        assert(f =~= "server.tool_call_retry_delay_ms"@);
        assert(f != "server.max_tools_per_iteration"@) by { assert(f[7] != "server.max_tools_per_iteration"@[7]); }
        assert(f != "server.tool_call_max_retries"@) by { assert(f[17] != "server.tool_call_max_retries"@[17]); }
    } else if field == "max_plan_subtasks"@ {
        assert(f =~= "server.max_plan_subtasks"@);
        assert(f != "server.max_tools_per_iteration"@) by { assert(f[11] != "server.max_tools_per_iteration"@[11]); }
        assert(f != "server.tool_call_max_retries"@) by { assert(f[7] != "server.tool_call_max_retries"@[7]); }
        assert(f != "server.tool_call_retry_delay_ms"@) by { assert(f[7] != "server.tool_call_retry_delay_ms"@[7]); }
    } else if field == "plan_timeout_secs"@ {
        assert(f =~= "server.plan_timeout_secs"@);
        assert(f != "server.max_tools_per_iteration"@) by { assert(f[7] != "server.max_tools_per_iteration"@[7]); }
        assert(f != "server.tool_call_max_retries"@) by { assert(f[7] != "server.tool_call_max_retries"@[7]); }
        assert(f != "server.tool_call_retry_delay_ms"@) by { assert(f[7] != "server.tool_call_retry_delay_ms"@[7]); }
        assert(f != "server.max_plan_subtasks"@) by { assert(f[7] != "server.max_plan_subtasks"@[7]); }
    } else if field == "subtask_max_retries"@ {
        assert(f =~= "server.subtask_max_retries"@);
        assert(f != "server.max_tools_per_iteration"@) by { assert(f[7] != "server.max_tools_per_iteration"@[7]); }
        assert(f != "server.tool_call_max_retries"@) by { assert(f[7] != "server.tool_call_max_retries"@[7]); }
        assert(f != "server.tool_call_retry_delay_ms"@) by { assert(f[7] != "server.tool_call_retry_delay_ms"@[7]); }
        assert(f != "server.max_plan_subtasks"@) by { assert(f[7] != "server.max_plan_subtasks"@[7]); }
        assert(f != "server.plan_timeout_secs"@) by { assert(f[7] != "server.plan_timeout_secs"@[7]); }
    } else if field == "subtask_react_max_iterations"@ {
        assert(f =~= "server.subtask_react_max_iterations"@);
        assert(f != "server.max_tools_per_iteration"@) by { assert(f[7] != "server.max_tools_per_iteration"@[7]); }
        assert(f != "server.tool_call_max_retries"@) by { assert(f[7] != "server.tool_call_max_retries"@[7]); }
        assert(f != "server.tool_call_retry_delay_ms"@) by { assert(f[7] != "server.tool_call_retry_delay_ms"@[7]); }
        assert(f != "server.max_plan_subtasks"@) by { assert(f[7] != "server.max_plan_subtasks"@[7]); }
        assert(f != "server.plan_timeout_secs"@) by { assert(f[7] != "server.plan_timeout_secs"@[7]); }
        assert(f != "server.subtask_max_retries"@) by { assert(f[15] != "server.subtask_max_retries"@[15]); }
    } else {
        assert(field == "subtask_react_timeout_secs"@);
        assert(f =~= "server.subtask_react_timeout_secs"@);
        assert(f != "server.max_tools_per_iteration"@) by { assert(f[7] != "server.max_tools_per_iteration"@[7]); }
        assert(f != "server.tool_call_max_retries"@) by { assert(f[7] != "server.tool_call_max_retries"@[7]); }
        assert(f != "server.tool_call_retry_delay_ms"@) by { assert(f[7] != "server.tool_call_retry_delay_ms"@[7]); }
        assert(f != "server.max_plan_subtasks"@) by { assert(f[7] != "server.max_plan_subtasks"@[7]); }
        assert(f != "server.plan_timeout_secs"@) by { assert(f[7] != "server.plan_timeout_secs"@[7]); }
        assert(f != "server.subtask_max_retries"@) by { assert(f[15] != "server.subtask_max_retries"@[15]); }
        assert(f != "server.subtask_react_max_iterations"@) by { assert(f[21] != "server.subtask_react_max_iterations"@[21]); }
    }
}


/// An update request that sets one memory field and nothing else.
pub open spec fn memory_only(m: MemoryConfigUpdate) -> ConfigUpdateRequest {
    ConfigUpdateRequest {
        server: None,
        chat: None,
        embedding: None,
        memory: Some(m),
        rag: None,
        subagent: None,
        hitl: None,
        lantai_auto_memory: None,
    }
}

/// The schema that the API publishes for the memory section's numeric
/// fields gives the same range as validation: a change to such a field, and
/// an update request that sets only it, are accepted exactly when the number
/// lies within the published bounds.
#[verifier::spinoff_prover]
pub proof fn law_memory_schema_matches_validation(n: u32)
    ensures
        ({
            let s = spec_memory_schema()["summarize_threshold"@];
            let req = memory_only(MemoryConfigUpdate {
                auto_summarize: None,
                summarization_strategy: None,
                summarize_threshold: Some(n),
                max_stored_messages: None,
            });
            &&& s.0 == "integer"@
            &&& (spec_validate_change("memory.summarize_threshold"@, ValueView::UInt(n as u64), true) is None)
                == (s.1->0 <= n && n <= s.2->0)
            &&& (spec_validated(spec_request_checks(req)).1.len() == 0) == (s.1->0 <= n && n <= s.2->0)
        }),
        ({
            let s = spec_memory_schema()["max_stored_messages"@];
            let req = memory_only(MemoryConfigUpdate {
                auto_summarize: None,
                summarization_strategy: None,
                summarize_threshold: None,
                max_stored_messages: Some(n),
            });
            &&& s.0 == "integer"@
            &&& (spec_validate_change("memory.max_stored_messages"@, ValueView::UInt(n as u64), true) is None)
                == (s.1->0 <= n && n <= s.2->0)
            &&& (spec_validated(spec_request_checks(req)).1.len() == 0) == (s.1->0 <= n && n <= s.2->0)
        }),
{
    reveal_strlit("memory.summarize_threshold");
    reveal_strlit("memory.max_stored_messages");
    reveal_strlit("summarize_threshold");
    reveal_strlit("max_stored_messages");
    reveal_strlit("auto_summarize");
    reveal_strlit("summarization_strategy");
    reveal_strlit("integer");
    reveal_strlit("server.max_tools_per_iteration");
    reveal_strlit("server.tool_call_max_retries");
    reveal_strlit("server.tool_call_retry_delay_ms");
    reveal_strlit("server.max_plan_subtasks");
    reveal_strlit("server.plan_timeout_secs");
    reveal_strlit("server.subtask_max_retries");
    reveal_strlit("server.subtask_react_max_iterations");
    reveal_strlit("server.subtask_react_timeout_secs");
    reveal_strlit("chat.url");
    reveal_strlit("chat.api_key");
    reveal_strlit("embedding.url");
    reveal_strlit("embedding.api_key");
    reveal_strlit("memory.auto_summarize");
    reveal_strlit("memory.summarization_strategy");
    assert("memory.summarize_threshold"@ != "server.max_tools_per_iteration"@) by { assert("memory.summarize_threshold"@[0] != "server.max_tools_per_iteration"@[0]); }
    assert("memory.summarize_threshold"@ != "server.tool_call_max_retries"@) by { assert("memory.summarize_threshold"@[0] != "server.tool_call_max_retries"@[0]); }
    assert("memory.summarize_threshold"@ != "server.tool_call_retry_delay_ms"@) by { assert("memory.summarize_threshold"@[0] != "server.tool_call_retry_delay_ms"@[0]); }
    assert("memory.summarize_threshold"@ != "server.max_plan_subtasks"@) by { assert("memory.summarize_threshold"@[0] != "server.max_plan_subtasks"@[0]); }
    assert("memory.summarize_threshold"@ != "server.plan_timeout_secs"@) by { assert("memory.summarize_threshold"@[0] != "server.plan_timeout_secs"@[0]); }
    assert("memory.summarize_threshold"@ != "server.subtask_max_retries"@) by { assert("memory.summarize_threshold"@[0] != "server.subtask_max_retries"@[0]); }
    assert("memory.summarize_threshold"@ != "server.subtask_react_max_iterations"@) by { assert("memory.summarize_threshold"@[0] != "server.subtask_react_max_iterations"@[0]); }
    assert("memory.summarize_threshold"@ != "server.subtask_react_timeout_secs"@) by { assert("memory.summarize_threshold"@[0] != "server.subtask_react_timeout_secs"@[0]); }
    assert("memory.summarize_threshold"@ != "chat.url"@) by { assert("memory.summarize_threshold"@[0] != "chat.url"@[0]); }
    assert("memory.summarize_threshold"@ != "chat.api_key"@) by { assert("memory.summarize_threshold"@[0] != "chat.api_key"@[0]); }
    assert("memory.summarize_threshold"@ != "embedding.url"@) by { assert("memory.summarize_threshold"@[0] != "embedding.url"@[0]); }
    assert("memory.summarize_threshold"@ != "embedding.api_key"@) by { assert("memory.summarize_threshold"@[0] != "embedding.api_key"@[0]); }
    assert("memory.max_stored_messages"@ != "server.max_tools_per_iteration"@) by { assert("memory.max_stored_messages"@[0] != "server.max_tools_per_iteration"@[0]); }
    assert("memory.max_stored_messages"@ != "server.tool_call_max_retries"@) by { assert("memory.max_stored_messages"@[0] != "server.tool_call_max_retries"@[0]); }
    assert("memory.max_stored_messages"@ != "server.tool_call_retry_delay_ms"@) by { assert("memory.max_stored_messages"@[0] != "server.tool_call_retry_delay_ms"@[0]); }
    assert("memory.max_stored_messages"@ != "server.max_plan_subtasks"@) by { assert("memory.max_stored_messages"@[0] != "server.max_plan_subtasks"@[0]); }
    assert("memory.max_stored_messages"@ != "server.plan_timeout_secs"@) by { assert("memory.max_stored_messages"@[0] != "server.plan_timeout_secs"@[0]); }
    assert("memory.max_stored_messages"@ != "server.subtask_max_retries"@) by { assert("memory.max_stored_messages"@[0] != "server.subtask_max_retries"@[0]); }
    assert("memory.max_stored_messages"@ != "server.subtask_react_max_iterations"@) by { assert("memory.max_stored_messages"@[0] != "server.subtask_react_max_iterations"@[0]); }
    assert("memory.max_stored_messages"@ != "server.subtask_react_timeout_secs"@) by { assert("memory.max_stored_messages"@[0] != "server.subtask_react_timeout_secs"@[0]); }
    assert("memory.max_stored_messages"@ != "chat.url"@) by { assert("memory.max_stored_messages"@[0] != "chat.url"@[0]); }
    assert("memory.max_stored_messages"@ != "chat.api_key"@) by { assert("memory.max_stored_messages"@[0] != "chat.api_key"@[0]); }
    assert("memory.max_stored_messages"@ != "embedding.url"@) by { assert("memory.max_stored_messages"@[0] != "embedding.url"@[0]); }
    assert("memory.max_stored_messages"@ != "embedding.api_key"@) by { assert("memory.max_stored_messages"@[0] != "embedding.api_key"@[0]); }
    assert("memory.summarize_threshold"@ != "memory.auto_summarize"@) by { assert("memory.summarize_threshold"@.len() != "memory.auto_summarize"@.len()); }
    assert("memory.summarize_threshold"@ != "memory.summarization_strategy"@) by { assert("memory.summarize_threshold"@.len() != "memory.summarization_strategy"@.len()); }
    assert("memory.max_stored_messages"@ != "memory.auto_summarize"@) by { assert("memory.max_stored_messages"@.len() != "memory.auto_summarize"@.len()); }
    assert("memory.max_stored_messages"@ != "memory.summarization_strategy"@) by { assert("memory.max_stored_messages"@.len() != "memory.summarization_strategy"@.len()); }
    assert("memory.max_stored_messages"@ != "memory.summarize_threshold"@) by { assert("memory.max_stored_messages"@[7] != "memory.summarize_threshold"@[7]); }
    assert("max_stored_messages"@ != "summarize_threshold"@) by {
        assert("max_stored_messages"@[0] != "summarize_threshold"@[0]);
    }
    let a = spec_memory_schema()["summarize_threshold"@];
    let b = spec_memory_schema()["max_stored_messages"@];
    assert(a.1 == Some(2int) && a.2 == Some(100int));
    assert(b.1 == Some(5int) && b.2 == Some(500int));
    let m1 = MemoryConfigUpdate { auto_summarize: None, summarization_strategy: None, summarize_threshold: Some(n), max_stored_messages: None };
    let m2 = MemoryConfigUpdate { auto_summarize: None, summarization_strategy: None, summarize_threshold: None, max_stored_messages: Some(n) };
    let c1 = check("memory.summarize_threshold"@, 2 <= n <= 100, "must be between 2 and 100"@);
    let c2 = check("memory.max_stored_messages"@, 5 <= n <= 500, "must be between 5 and 500"@);
    assert(spec_request_checks(memory_only(m1)) =~= c1);
    assert(spec_request_checks(memory_only(m2)) =~= c2);
    assert(c1.drop_last() =~= Seq::<Check>::empty());
    assert(c2.drop_last() =~= Seq::<Check>::empty());
    let start: (Seq<Seq<char>>, Seq<(Seq<char>, Seq<char>)>) = (Seq::empty(), Seq::empty());
    assert(crate::config_api::validate::spec_record(start, c1.drop_last()) == start);
    assert(crate::config_api::validate::spec_record(start, c2.drop_last()) == start);
}


/// The server part of an update request that sets `field` to `n` and
/// nothing else.
pub open spec fn server_update_setting(field: Seq<char>, n: u64) -> ServerConfigUpdate {
    ServerConfigUpdate {
        max_tools_per_iteration: if field == "max_tools_per_iteration"@ { Some(n as usize) } else { None },
        tool_call_max_retries: if field == "tool_call_max_retries"@ { Some(n as u32) } else { None },
        tool_call_retry_delay_ms: if field == "tool_call_retry_delay_ms"@ { Some(n) } else { None },
        max_plan_subtasks: if field == "max_plan_subtasks"@ { Some(n as usize) } else { None },
        plan_timeout_secs: if field == "plan_timeout_secs"@ { Some(n) } else { None },
        subtask_max_retries: if field == "subtask_max_retries"@ { Some(n as u32) } else { None },
        subtask_react_max_iterations: if field == "subtask_react_max_iterations"@ { Some(n as u32) } else { None },
        subtask_react_timeout_secs: if field == "subtask_react_timeout_secs"@ { Some(n) } else { None },
    }
}

/// `n` fits the type of the server field `field` (the fields of type
/// `u32` and `usize` hold less than a `u64`).
pub open spec fn server_field_holds(field: Seq<char>, n: u64) -> bool {
    &&& (field == "tool_call_max_retries"@ || field == "subtask_max_retries"@ || field == "subtask_react_max_iterations"@)
        ==> n <= u32::MAX
    &&& (field == "max_tools_per_iteration"@ || field == "max_plan_subtasks"@) ==> n <= usize::MAX
}

/// An update request with only a server part.
pub open spec fn server_only(s: ServerConfigUpdate) -> ConfigUpdateRequest {
    ConfigUpdateRequest {
        server: Some(s),
        chat: None,
        embedding: None,
        memory: None,
        rag: None,
        subagent: None,
        hitl: None,
        lantai_auto_memory: None,
    }
}

/// The schema that the API publishes for a server field gives the same range
/// as the validation of an update request that sets only that field: the
/// request passes exactly when the number lies within the published bounds.
#[verifier::spinoff_prover]
pub proof fn law_server_schema_matches_request_validation(field: Seq<char>, n: u64)
    requires
        spec_server_schema().contains_key(field),
        server_field_holds(field, n),
    ensures
        ({
            let s = spec_server_schema()[field];
            (spec_validated(spec_request_checks(server_only(server_update_setting(field, n)))).1.len() == 0)
                == (s.1->0 <= n && n <= s.2->0)
        }),
{
    reveal_strlit("max_tools_per_iteration");
    reveal_strlit("server.max_tools_per_iteration");
    reveal_strlit("tool_call_max_retries");
    reveal_strlit("server.tool_call_max_retries");
    reveal_strlit("tool_call_retry_delay_ms");
    reveal_strlit("server.tool_call_retry_delay_ms");
    reveal_strlit("max_plan_subtasks");
    reveal_strlit("server.max_plan_subtasks");
    reveal_strlit("plan_timeout_secs");
    reveal_strlit("server.plan_timeout_secs");
    reveal_strlit("subtask_max_retries");
    reveal_strlit("server.subtask_max_retries");
    reveal_strlit("subtask_react_max_iterations");
    reveal_strlit("server.subtask_react_max_iterations");
    reveal_strlit("subtask_react_timeout_secs");
    reveal_strlit("server.subtask_react_timeout_secs");
    assert("max_tools_per_iteration"@ != "tool_call_max_retries"@) by { assert("max_tools_per_iteration"@.len() != "tool_call_max_retries"@.len()); }
    assert("max_tools_per_iteration"@ != "tool_call_retry_delay_ms"@) by { assert("max_tools_per_iteration"@.len() != "tool_call_retry_delay_ms"@.len()); }
    assert("max_tools_per_iteration"@ != "plan_timeout_secs"@) by { assert("max_tools_per_iteration"@.len() != "plan_timeout_secs"@.len()); }
    assert("max_tools_per_iteration"@ != "subtask_max_retries"@) by { assert("max_tools_per_iteration"@.len() != "subtask_max_retries"@.len()); }
    assert("max_tools_per_iteration"@ != "subtask_react_max_iterations"@) by { assert("max_tools_per_iteration"@.len() != "subtask_react_max_iterations"@.len()); }
    assert("max_tools_per_iteration"@ != "subtask_react_timeout_secs"@) by { assert("max_tools_per_iteration"@.len() != "subtask_react_timeout_secs"@.len()); }
    assert("tool_call_max_retries"@ != "tool_call_retry_delay_ms"@) by { assert("tool_call_max_retries"@.len() != "tool_call_retry_delay_ms"@.len()); }
    assert("max_plan_subtasks"@ != "max_tools_per_iteration"@) by { assert("max_plan_subtasks"@.len() != "max_tools_per_iteration"@.len()); }
    assert("max_plan_subtasks"@ != "tool_call_max_retries"@) by { assert("max_plan_subtasks"@.len() != "tool_call_max_retries"@.len()); }
    assert("max_plan_subtasks"@ != "tool_call_retry_delay_ms"@) by { assert("max_plan_subtasks"@.len() != "tool_call_retry_delay_ms"@.len()); }
    assert("max_plan_subtasks"@ != "plan_timeout_secs"@) by { assert("max_plan_subtasks"@[0] != "plan_timeout_secs"@[0]); }
    assert("max_plan_subtasks"@ != "subtask_max_retries"@) by { assert("max_plan_subtasks"@.len() != "subtask_max_retries"@.len()); }
    assert("max_plan_subtasks"@ != "subtask_react_max_iterations"@) by { assert("max_plan_subtasks"@.len() != "subtask_react_max_iterations"@.len()); }
    assert("max_plan_subtasks"@ != "subtask_react_timeout_secs"@) by { assert("max_plan_subtasks"@.len() != "subtask_react_timeout_secs"@.len()); }
    assert("plan_timeout_secs"@ != "tool_call_max_retries"@) by { assert("plan_timeout_secs"@.len() != "tool_call_max_retries"@.len()); }
    assert("plan_timeout_secs"@ != "tool_call_retry_delay_ms"@) by { assert("plan_timeout_secs"@.len() != "tool_call_retry_delay_ms"@.len()); }
    assert("plan_timeout_secs"@ != "subtask_max_retries"@) by { assert("plan_timeout_secs"@.len() != "subtask_max_retries"@.len()); }
    assert("plan_timeout_secs"@ != "subtask_react_max_iterations"@) by { assert("plan_timeout_secs"@.len() != "subtask_react_max_iterations"@.len()); }
    assert("plan_timeout_secs"@ != "subtask_react_timeout_secs"@) by { assert("plan_timeout_secs"@.len() != "subtask_react_timeout_secs"@.len()); }
    assert("subtask_max_retries"@ != "tool_call_max_retries"@) by { assert("subtask_max_retries"@.len() != "tool_call_max_retries"@.len()); }
    assert("subtask_max_retries"@ != "tool_call_retry_delay_ms"@) by { assert("subtask_max_retries"@.len() != "tool_call_retry_delay_ms"@.len()); }
    assert("subtask_max_retries"@ != "subtask_react_max_iterations"@) by { assert("subtask_max_retries"@.len() != "subtask_react_max_iterations"@.len()); }
    assert("subtask_max_retries"@ != "subtask_react_timeout_secs"@) by { assert("subtask_max_retries"@.len() != "subtask_react_timeout_secs"@.len()); }
    assert("subtask_react_max_iterations"@ != "tool_call_max_retries"@) by { assert("subtask_react_max_iterations"@.len() != "tool_call_max_retries"@.len()); }
    assert("subtask_react_max_iterations"@ != "tool_call_retry_delay_ms"@) by { assert("subtask_react_max_iterations"@.len() != "tool_call_retry_delay_ms"@.len()); }
    assert("subtask_react_max_iterations"@ != "subtask_react_timeout_secs"@) by { assert("subtask_react_max_iterations"@.len() != "subtask_react_timeout_secs"@.len()); }
    assert("subtask_react_timeout_secs"@ != "tool_call_max_retries"@) by { assert("subtask_react_timeout_secs"@.len() != "tool_call_max_retries"@.len()); }
    assert("subtask_react_timeout_secs"@ != "tool_call_retry_delay_ms"@) by { assert("subtask_react_timeout_secs"@.len() != "tool_call_retry_delay_ms"@.len()); }
    let start: (Seq<Seq<char>>, Seq<(Seq<char>, Seq<char>)>) = (Seq::empty(), Seq::empty());
    let checks = spec_request_checks(server_only(server_update_setting(field, n)));
    if field == "max_tools_per_iteration"@ {
        assert(checks.len() == 1);
        assert(checks.drop_last() =~= Seq::<Check>::empty());
        assert(crate::config_api::validate::spec_record(start, checks.drop_last()) == start);
    } else if field == "tool_call_max_retries"@ {
        assert(checks.len() == 1);
        assert(checks.drop_last() =~= Seq::<Check>::empty());
        assert(crate::config_api::validate::spec_record(start, checks.drop_last()) == start);
    } else if field == "tool_call_retry_delay_ms"@ {
        assert(checks.len() == 1);
        assert(checks.drop_last() =~= Seq::<Check>::empty());
        assert(crate::config_api::validate::spec_record(start, checks.drop_last()) == start);
    } else if field == "max_plan_subtasks"@ {
        assert(checks.len() == 1);
        assert(checks.drop_last() =~= Seq::<Check>::empty());
        assert(crate::config_api::validate::spec_record(start, checks.drop_last()) == start);
    } else if field == "plan_timeout_secs"@ {
        assert(checks.len() == 1);
        assert(checks.drop_last() =~= Seq::<Check>::empty());
        assert(crate::config_api::validate::spec_record(start, checks.drop_last()) == start);
    } else if field == "subtask_max_retries"@ {
        assert(checks.len() == 1);
        assert(checks.drop_last() =~= Seq::<Check>::empty());
        assert(crate::config_api::validate::spec_record(start, checks.drop_last()) == start);
    } else if field == "subtask_react_max_iterations"@ {
        assert(checks.len() == 1);
        assert(checks.drop_last() =~= Seq::<Check>::empty());
        assert(crate::config_api::validate::spec_record(start, checks.drop_last()) == start);
    } else if field == "subtask_react_timeout_secs"@ {
        assert(checks.len() == 1);
        assert(checks.drop_last() =~= Seq::<Check>::empty());
        assert(crate::config_api::validate::spec_record(start, checks.drop_last()) == start);
    }
}


/// The memory section `nm` is `m` with at most the memory field `f` changed.
pub open spec fn memory_only_field(m: MemoryConfig, nm: MemoryConfig, f: Seq<char>) -> bool {
    if f == "memory.auto_summarize"@ {
        nm == MemoryConfig { auto_summarize: nm.auto_summarize, ..m }
    } else if f == "memory.summarization_strategy"@ {
        nm == MemoryConfig { summarization_strategy: nm.summarization_strategy, ..m }
    } else if f == "memory.summarize_threshold"@ {
        nm == MemoryConfig { summarize_threshold: nm.summarize_threshold, ..m }
    } else {
        nm == MemoryConfig { max_stored_messages: nm.max_stored_messages, ..m }
    }
}

/// `n` is `c` with at most the field named `f` changed (a field that a
/// change cannot set leaves everything as it is).
pub open spec fn only_field_changed(c: Config, n: Config, f: Seq<char>) -> bool {
    if is_server_number_field(f) {
        n == Config { server: n.server, ..c } && exists|x: u64| n.server == #[trigger] server_set(c.server, f, x)
    } else if f == "chat.url"@ {
        n == Config { chat: n.chat, ..c } && (c.chat matches Some(cc) && n.chat matches Some(nc)
            && nc == ChatConfig { url: nc.url, ..cc })
    } else if f == "embedding.url"@ {
        n == Config { embedding: n.embedding, ..c } && (c.embedding matches Some(ec) && n.embedding matches Some(ne)
            && ne == EmbeddingConfig { url: ne.url, ..ec })
    } else if f == "memory.auto_summarize"@ || f == "memory.summarization_strategy"@
        || f == "memory.summarize_threshold"@ || f == "memory.max_stored_messages"@ {
        n == Config { memory: n.memory, ..c } && (c.memory matches Some(m) && n.memory matches Some(nm)
            && memory_only_field(m, nm, f))
    } else if f == "rag.enable"@ {
        n == Config { rag: n.rag, ..c } && (c.rag matches Some(rc) && n.rag matches Some(nr)
            && nr == RagConfig { enable: nr.enable, ..rc })
    } else {
        n == c
    }
}

/// Applying one change: a failure leaves the configuration as it was, with
/// an error and nothing to reload; a success has passed validation, has no
/// error, and changes at most the field it names; a service reloads exactly
/// when the chat or embedding URL was changed, and it is that service.
#[verifier::spinoff_prover]
pub proof fn law_applied_change_touches_only_its_field(c: Config, ch: ConfigChange)
    ensures
        ({
            let (r, n) = spec_apply_change(c, ch);
            let f = ch.field@;
            &&& !r.0 ==> (n == c && r.1 is Some && !r.2)
            &&& r.0 ==> (spec_validate_change(f, value_view(ch.new_value), ch.is_hot_updatable) is None
                && r.1 is None && only_field_changed(c, n, f))
            &&& r.2 <==> (r.0 && (f == "chat.url"@ || f == "embedding.url"@))
            &&& r.2 ==> r.3 == Some(if f == "chat.url"@ { "chat"@ } else { "embedding"@ })
        }),
{
    reveal_strlit("server.max_tools_per_iteration");
    reveal_strlit("server.tool_call_max_retries");
    reveal_strlit("server.tool_call_retry_delay_ms");
    reveal_strlit("server.max_plan_subtasks");
    reveal_strlit("server.plan_timeout_secs");
    reveal_strlit("server.subtask_max_retries");
    reveal_strlit("server.subtask_react_max_iterations");
    reveal_strlit("server.subtask_react_timeout_secs");
    reveal_strlit("chat.url");
    reveal_strlit("embedding.url");
    reveal_strlit("memory.auto_summarize");
    reveal_strlit("memory.summarization_strategy");
    reveal_strlit("memory.summarize_threshold");
    reveal_strlit("memory.max_stored_messages");
    reveal_strlit("rag.enable");
    reveal_strlit("chat.api_key");
    reveal_strlit("embedding.api_key");
    reveal_strlit("chat");
    reveal_strlit("embedding");
    assert("chat.url"@ != "server.max_tools_per_iteration"@) by { assert("chat.url"@.len() != "server.max_tools_per_iteration"@.len()); }
    assert("chat.url"@ != "server.tool_call_max_retries"@) by { assert("chat.url"@.len() != "server.tool_call_max_retries"@.len()); }
    assert("chat.url"@ != "server.tool_call_retry_delay_ms"@) by { assert("chat.url"@.len() != "server.tool_call_retry_delay_ms"@.len()); }
    assert("chat.url"@ != "server.max_plan_subtasks"@) by { assert("chat.url"@.len() != "server.max_plan_subtasks"@.len()); }
    assert("chat.url"@ != "server.plan_timeout_secs"@) by { assert("chat.url"@.len() != "server.plan_timeout_secs"@.len()); }
    assert("chat.url"@ != "server.subtask_max_retries"@) by { assert("chat.url"@.len() != "server.subtask_max_retries"@.len()); }
    assert("chat.url"@ != "server.subtask_react_max_iterations"@) by { assert("chat.url"@.len() != "server.subtask_react_max_iterations"@.len()); }
    assert("chat.url"@ != "server.subtask_react_timeout_secs"@) by { assert("chat.url"@.len() != "server.subtask_react_timeout_secs"@.len()); }
    assert("chat.url"@ != "embedding.url"@) by { assert("chat.url"@.len() != "embedding.url"@.len()); }
    assert("chat.url"@ != "memory.auto_summarize"@) by { assert("chat.url"@.len() != "memory.auto_summarize"@.len()); }
    assert("chat.url"@ != "memory.summarization_strategy"@) by { assert("chat.url"@.len() != "memory.summarization_strategy"@.len()); }
    assert("chat.url"@ != "memory.summarize_threshold"@) by { assert("chat.url"@.len() != "memory.summarize_threshold"@.len()); }
    assert("chat.url"@ != "memory.max_stored_messages"@) by { assert("chat.url"@.len() != "memory.max_stored_messages"@.len()); }
    assert("chat.url"@ != "rag.enable"@) by { assert("chat.url"@.len() != "rag.enable"@.len()); }
    assert("chat.url"@ != "chat.api_key"@) by { assert("chat.url"@.len() != "chat.api_key"@.len()); }
    assert("chat.url"@ != "embedding.api_key"@) by { assert("chat.url"@.len() != "embedding.api_key"@.len()); }
    assert("embedding.url"@ != "server.max_tools_per_iteration"@) by { assert("embedding.url"@.len() != "server.max_tools_per_iteration"@.len()); }
    assert("embedding.url"@ != "server.tool_call_max_retries"@) by { assert("embedding.url"@.len() != "server.tool_call_max_retries"@.len()); }
    assert("embedding.url"@ != "server.tool_call_retry_delay_ms"@) by { assert("embedding.url"@.len() != "server.tool_call_retry_delay_ms"@.len()); }
    assert("embedding.url"@ != "server.max_plan_subtasks"@) by { assert("embedding.url"@.len() != "server.max_plan_subtasks"@.len()); }
    assert("embedding.url"@ != "server.plan_timeout_secs"@) by { assert("embedding.url"@.len() != "server.plan_timeout_secs"@.len()); }
    assert("embedding.url"@ != "server.subtask_max_retries"@) by { assert("embedding.url"@.len() != "server.subtask_max_retries"@.len()); }
    assert("embedding.url"@ != "server.subtask_react_max_iterations"@) by { assert("embedding.url"@.len() != "server.subtask_react_max_iterations"@.len()); }
    assert("embedding.url"@ != "server.subtask_react_timeout_secs"@) by { assert("embedding.url"@.len() != "server.subtask_react_timeout_secs"@.len()); }
    assert("embedding.url"@ != "chat.url"@) by { assert("embedding.url"@.len() != "chat.url"@.len()); }
    assert("embedding.url"@ != "memory.auto_summarize"@) by { assert("embedding.url"@.len() != "memory.auto_summarize"@.len()); }
    assert("embedding.url"@ != "memory.summarization_strategy"@) by { assert("embedding.url"@.len() != "memory.summarization_strategy"@.len()); }
    assert("embedding.url"@ != "memory.summarize_threshold"@) by { assert("embedding.url"@.len() != "memory.summarize_threshold"@.len()); }
    assert("embedding.url"@ != "memory.max_stored_messages"@) by { assert("embedding.url"@.len() != "memory.max_stored_messages"@.len()); }
    assert("embedding.url"@ != "rag.enable"@) by { assert("embedding.url"@.len() != "rag.enable"@.len()); }
    assert("embedding.url"@ != "chat.api_key"@) by { assert("embedding.url"@.len() != "chat.api_key"@.len()); }
    assert("embedding.url"@ != "embedding.api_key"@) by { assert("embedding.url"@.len() != "embedding.api_key"@.len()); }
    let (r, n) = spec_apply_change(c, ch);
    let f = ch.field@;
    if r.0 && is_server_number_field(f) {
        match ch.new_value {
            ConfigValue::UInt(x) => {
                assert(n.server == server_set(c.server, f, x));
            },
            _ => {},
        }
    }
}


/// The number of server fields in which two sections differ.
pub open spec fn server_fields_differing(o: ServerConfig, n: ServerConfig) -> nat {
    (if o.host@ != n.host@ { 1nat } else { 0nat }) + (if o.port != n.port { 1nat } else { 0nat }) + (if o.max_tools_per_iteration != n.max_tools_per_iteration { 1nat } else { 0nat }) + (if o.tool_call_max_retries != n.tool_call_max_retries { 1nat } else { 0nat }) + (if o.tool_call_retry_delay_ms != n.tool_call_retry_delay_ms { 1nat } else { 0nat }) + (if o.max_plan_subtasks != n.max_plan_subtasks { 1nat } else { 0nat }) + (if o.plan_timeout_secs != n.plan_timeout_secs { 1nat } else { 0nat }) + (if o.subtask_max_retries != n.subtask_max_retries { 1nat } else { 0nat }) + (if o.subtask_react_max_iterations != n.subtask_react_max_iterations { 1nat } else { 0nat }) + (if o.subtask_react_timeout_secs != n.subtask_react_timeout_secs { 1nat } else { 0nat })
}

/// Each change of `s` needs a restart exactly when it is of the host or the
/// port.
#[verifier::opaque]
pub open spec fn restart_only_for_address(s: Seq<crate::config_api::diff::ChangeView>) -> bool {
    forall|i: int| 0 <= i < s.len() ==> (#[trigger] s[i].3 <==> !(s[i].0 == "server.host"@ || s[i].0 == "server.port"@))
}

proof fn lemma_restart_when(c: bool, x: crate::config_api::diff::ChangeView)
    requires
        x.3 <==> !(x.0 == "server.host"@ || x.0 == "server.port"@),
    ensures
        restart_only_for_address(crate::config_api::diff::when(c, x)),
{
    reveal(restart_only_for_address);
}

proof fn lemma_restart_concat(a: Seq<crate::config_api::diff::ChangeView>, b: Seq<crate::config_api::diff::ChangeView>)
    requires
        restart_only_for_address(a),
        restart_only_for_address(b),
    ensures
        restart_only_for_address(a + b),
{
    reveal(restart_only_for_address);
    assert forall|i: int| 0 <= i < (a + b).len() implies (#[trigger] (a + b)[i].3
        <==> !((a + b)[i].0 == "server.host"@ || (a + b)[i].0 == "server.port"@)) by {
        if i < a.len() {
            assert((a + b)[i] == a[i]);
        } else {
            assert((a + b)[i] == b[i - a.len()]);
        }
    }
}

proof fn lemma_server_diff_len(o: ServerConfig, n: ServerConfig)
    ensures
        spec_server_diff(o, n).len() == server_fields_differing(o, n),
{
    assert(spec_server_restart_diff(o, n).len() == (if o.host@ != n.host@ { 1nat } else { 0nat })
        + (if o.port != n.port { 1nat } else { 0nat }));
}

proof fn lemma_server_names_distinct()
    ensures
        "server.host"@ != "server.max_tools_per_iteration"@,
        "server.host"@ != "server.tool_call_max_retries"@,
        "server.host"@ != "server.tool_call_retry_delay_ms"@,
        "server.host"@ != "server.max_plan_subtasks"@,
        "server.host"@ != "server.plan_timeout_secs"@,
        "server.host"@ != "server.subtask_max_retries"@,
        "server.host"@ != "server.subtask_react_max_iterations"@,
        "server.host"@ != "server.subtask_react_timeout_secs"@,
        "server.port"@ != "server.max_tools_per_iteration"@,
        "server.port"@ != "server.tool_call_max_retries"@,
        "server.port"@ != "server.tool_call_retry_delay_ms"@,
        "server.port"@ != "server.max_plan_subtasks"@,
        "server.port"@ != "server.plan_timeout_secs"@,
        "server.port"@ != "server.subtask_max_retries"@,
        "server.port"@ != "server.subtask_react_max_iterations"@,
        "server.port"@ != "server.subtask_react_timeout_secs"@,
{
    reveal_strlit("server.host");
    reveal_strlit("server.port");
    reveal_strlit("server.max_tools_per_iteration");
    reveal_strlit("server.tool_call_max_retries");
    reveal_strlit("server.tool_call_retry_delay_ms");
    reveal_strlit("server.max_plan_subtasks");
    reveal_strlit("server.plan_timeout_secs");
    reveal_strlit("server.subtask_max_retries");
    reveal_strlit("server.subtask_react_max_iterations");
    reveal_strlit("server.subtask_react_timeout_secs");
    assert("server.host"@ != "server.max_tools_per_iteration"@) by { assert("server.host"@.len() != "server.max_tools_per_iteration"@.len()); }
    assert("server.host"@ != "server.tool_call_max_retries"@) by { assert("server.host"@.len() != "server.tool_call_max_retries"@.len()); }
    assert("server.host"@ != "server.tool_call_retry_delay_ms"@) by { assert("server.host"@.len() != "server.tool_call_retry_delay_ms"@.len()); }
    assert("server.host"@ != "server.max_plan_subtasks"@) by { assert("server.host"@.len() != "server.max_plan_subtasks"@.len()); }
    assert("server.host"@ != "server.plan_timeout_secs"@) by { assert("server.host"@.len() != "server.plan_timeout_secs"@.len()); }
    assert("server.host"@ != "server.subtask_max_retries"@) by { assert("server.host"@.len() != "server.subtask_max_retries"@.len()); }
    assert("server.host"@ != "server.subtask_react_max_iterations"@) by { assert("server.host"@.len() != "server.subtask_react_max_iterations"@.len()); }
    assert("server.host"@ != "server.subtask_react_timeout_secs"@) by { assert("server.host"@.len() != "server.subtask_react_timeout_secs"@.len()); }
    assert("server.port"@ != "server.max_tools_per_iteration"@) by { assert("server.port"@.len() != "server.max_tools_per_iteration"@.len()); }
    assert("server.port"@ != "server.tool_call_max_retries"@) by { assert("server.port"@.len() != "server.tool_call_max_retries"@.len()); }
    assert("server.port"@ != "server.tool_call_retry_delay_ms"@) by { assert("server.port"@.len() != "server.tool_call_retry_delay_ms"@.len()); }
    assert("server.port"@ != "server.max_plan_subtasks"@) by { assert("server.port"@.len() != "server.max_plan_subtasks"@.len()); }
    assert("server.port"@ != "server.plan_timeout_secs"@) by { assert("server.port"@.len() != "server.plan_timeout_secs"@.len()); }
    assert("server.port"@ != "server.subtask_max_retries"@) by { assert("server.port"@.len() != "server.subtask_max_retries"@.len()); }
    assert("server.port"@ != "server.subtask_react_max_iterations"@) by { assert("server.port"@.len() != "server.subtask_react_max_iterations"@.len()); }
    assert("server.port"@ != "server.subtask_react_timeout_secs"@) by { assert("server.port"@.len() != "server.subtask_react_timeout_secs"@.len()); }
}

/// Comparing two server sections finds one change per field in which they
/// differ and no other (so a section compared with itself gives none); only
/// a change of the host or the port needs a restart.
#[verifier::spinoff_prover]
pub proof fn law_server_diff_one_change_per_field(o: ServerConfig, n: ServerConfig)
    ensures
        spec_server_diff(o, n).len() == server_fields_differing(o, n),
        spec_server_diff(o, o).len() == 0,
        restart_only_for_address(spec_server_diff(o, n)),
{
    lemma_server_names_distinct();
    lemma_server_diff_len(o, n);
    lemma_server_diff_len(o, o);
    lemma_restart_when(o.host@ != n.host@, ("server.host"@, ValueView::Str(o.host@), ValueView::Str(n.host@), false));
    lemma_restart_when(o.port != n.port, ("server.port"@, ValueView::UInt(o.port as u64), ValueView::UInt(n.port as u64), false));
    lemma_restart_when(o.max_tools_per_iteration != n.max_tools_per_iteration, ("server.max_tools_per_iteration"@, ValueView::UInt(o.max_tools_per_iteration as u64), ValueView::UInt(n.max_tools_per_iteration as u64), true));
    lemma_restart_when(o.tool_call_max_retries != n.tool_call_max_retries, ("server.tool_call_max_retries"@, ValueView::UInt(o.tool_call_max_retries as u64), ValueView::UInt(n.tool_call_max_retries as u64), true));
    lemma_restart_when(o.tool_call_retry_delay_ms != n.tool_call_retry_delay_ms, ("server.tool_call_retry_delay_ms"@, ValueView::UInt(o.tool_call_retry_delay_ms), ValueView::UInt(n.tool_call_retry_delay_ms), true));
    lemma_restart_when(o.max_plan_subtasks != n.max_plan_subtasks, ("server.max_plan_subtasks"@, ValueView::UInt(o.max_plan_subtasks as u64), ValueView::UInt(n.max_plan_subtasks as u64), true));
    lemma_restart_when(o.plan_timeout_secs != n.plan_timeout_secs, ("server.plan_timeout_secs"@, ValueView::UInt(o.plan_timeout_secs), ValueView::UInt(n.plan_timeout_secs), true));
    lemma_restart_when(o.subtask_max_retries != n.subtask_max_retries, ("server.subtask_max_retries"@, ValueView::UInt(o.subtask_max_retries as u64), ValueView::UInt(n.subtask_max_retries as u64), true));
    lemma_restart_when(o.subtask_react_max_iterations != n.subtask_react_max_iterations, ("server.subtask_react_max_iterations"@, ValueView::UInt(o.subtask_react_max_iterations as u64), ValueView::UInt(n.subtask_react_max_iterations as u64), true));
    lemma_restart_when(o.subtask_react_timeout_secs != n.subtask_react_timeout_secs, ("server.subtask_react_timeout_secs"@, ValueView::UInt(o.subtask_react_timeout_secs), ValueView::UInt(n.subtask_react_timeout_secs), true));
    let r1 = crate::config_api::diff::when(o.host@ != n.host@, ("server.host"@, ValueView::Str(o.host@), ValueView::Str(n.host@), false));
    let r2 = crate::config_api::diff::when(o.port != n.port, ("server.port"@, ValueView::UInt(o.port as u64), ValueView::UInt(n.port as u64), false));
    lemma_restart_concat(r1, r2);
    let t1 = crate::config_api::diff::when(o.max_tools_per_iteration != n.max_tools_per_iteration, ("server.max_tools_per_iteration"@, ValueView::UInt(o.max_tools_per_iteration as u64), ValueView::UInt(n.max_tools_per_iteration as u64), true));
    let t2 = crate::config_api::diff::when(o.tool_call_max_retries != n.tool_call_max_retries, ("server.tool_call_max_retries"@, ValueView::UInt(o.tool_call_max_retries as u64), ValueView::UInt(n.tool_call_max_retries as u64), true));
    let t3 = crate::config_api::diff::when(o.tool_call_retry_delay_ms != n.tool_call_retry_delay_ms, ("server.tool_call_retry_delay_ms"@, ValueView::UInt(o.tool_call_retry_delay_ms), ValueView::UInt(n.tool_call_retry_delay_ms), true));
    lemma_restart_concat(t1, t2);
    lemma_restart_concat(t1 + t2, t3);
    let p1 = crate::config_api::diff::when(o.max_plan_subtasks != n.max_plan_subtasks, ("server.max_plan_subtasks"@, ValueView::UInt(o.max_plan_subtasks as u64), ValueView::UInt(n.max_plan_subtasks as u64), true));
    let p2 = crate::config_api::diff::when(o.plan_timeout_secs != n.plan_timeout_secs, ("server.plan_timeout_secs"@, ValueView::UInt(o.plan_timeout_secs), ValueView::UInt(n.plan_timeout_secs), true));
    let p3 = crate::config_api::diff::when(o.subtask_max_retries != n.subtask_max_retries, ("server.subtask_max_retries"@, ValueView::UInt(o.subtask_max_retries as u64), ValueView::UInt(n.subtask_max_retries as u64), true));
    let p4 = crate::config_api::diff::when(o.subtask_react_max_iterations != n.subtask_react_max_iterations, ("server.subtask_react_max_iterations"@, ValueView::UInt(o.subtask_react_max_iterations as u64), ValueView::UInt(n.subtask_react_max_iterations as u64), true));
    let p5 = crate::config_api::diff::when(o.subtask_react_timeout_secs != n.subtask_react_timeout_secs, ("server.subtask_react_timeout_secs"@, ValueView::UInt(o.subtask_react_timeout_secs), ValueView::UInt(n.subtask_react_timeout_secs), true));
    lemma_restart_concat(p1, p2);
    lemma_restart_concat(p1 + p2, p3);
    lemma_restart_concat(p1 + p2 + p3, p4);
    lemma_restart_concat(p1 + p2 + p3 + p4, p5);
    lemma_restart_concat(r1 + r2, t1 + t2 + t3);
    lemma_restart_concat(r1 + r2 + (t1 + t2 + t3), p1 + p2 + p3 + p4 + p5);
    assert(spec_server_restart_diff(o, n) == r1 + r2);
    assert(spec_server_tool_diff(o, n) == t1 + t2 + t3);
    assert(spec_server_plan_diff(o, n) == p1 + p2 + p3 + p4 + p5);
}


/// Every path in `s` is one of `v`.
pub open spec fn all_within(s: Seq<Seq<char>>, v: Seq<Seq<char>>) -> bool {
    forall|i: int| 0 <= i < s.len() ==> v.contains(#[trigger] s[i])
}

proof fn lemma_upd_within(rv: UpdateView, c: bool, f: Seq<char>, v: Seq<Seq<char>>)
    requires
        all_within(rv.0, v),
        c ==> v.contains(f),
    ensures
        all_within(upd(rv, c, f).0, v),
{
    if c {
        assert forall|i: int| 0 <= i < upd(rv, c, f).0.len() implies v.contains(#[trigger] upd(rv, c, f).0[i]) by {
            if i < rv.0.len() {
                assert(upd(rv, c, f).0[i] == rv.0[i]);
            }
        }
    }
}

proof fn lemma_sections_within(c: Config, req: ConfigUpdateRequest, v: Seq<Seq<char>>, rv: UpdateView)
    requires
        all_within(rv.0, v),
        !request_stuck(c, req, v),
    ensures
        req.server matches Some(u) ==> all_within(spec_server_record(rv, u, v).0, v),
        req.chat matches Some(u) ==> all_within(spec_chat_record(rv, c.chat, u, v).0, v),
        req.embedding matches Some(u) ==> all_within(spec_embedding_record(rv, c.embedding, u, v).0, v),
        req.memory matches Some(u) ==> all_within(spec_memory_record(rv, c.memory, u, v).0, v),
        req.rag matches Some(u) ==> all_within(spec_rag_record(rv, c.rag, u, v).0, v),
        req.subagent matches Some(u) ==> all_within(spec_subagent_record(rv, c.subagent, u, v).0, v),
        req.lantai_auto_memory matches Some(u) ==> all_within(spec_lantai_record(rv, c.lantai, u, v).0, v),
{
    if let Some(u) = req.server {
        let r1 = upd(rv, applies(u.max_tools_per_iteration, v, "server.max_tools_per_iteration"@), "server.max_tools_per_iteration"@);
        lemma_upd_within(rv, applies(u.max_tools_per_iteration, v, "server.max_tools_per_iteration"@), "server.max_tools_per_iteration"@, v);
        let r2 = upd(r1, applies(u.tool_call_max_retries, v, "server.tool_call_max_retries"@), "server.tool_call_max_retries"@);
        lemma_upd_within(r1, applies(u.tool_call_max_retries, v, "server.tool_call_max_retries"@), "server.tool_call_max_retries"@, v);
        let r3 = upd(r2, applies(u.tool_call_retry_delay_ms, v, "server.tool_call_retry_delay_ms"@), "server.tool_call_retry_delay_ms"@);
        lemma_upd_within(r2, applies(u.tool_call_retry_delay_ms, v, "server.tool_call_retry_delay_ms"@), "server.tool_call_retry_delay_ms"@, v);
        let r4 = upd(r3, applies(u.max_plan_subtasks, v, "server.max_plan_subtasks"@), "server.max_plan_subtasks"@);
        lemma_upd_within(r3, applies(u.max_plan_subtasks, v, "server.max_plan_subtasks"@), "server.max_plan_subtasks"@, v);
        let r5 = upd(r4, applies(u.plan_timeout_secs, v, "server.plan_timeout_secs"@), "server.plan_timeout_secs"@);
        lemma_upd_within(r4, applies(u.plan_timeout_secs, v, "server.plan_timeout_secs"@), "server.plan_timeout_secs"@, v);
        let r6 = upd(r5, applies(u.subtask_max_retries, v, "server.subtask_max_retries"@), "server.subtask_max_retries"@);
        lemma_upd_within(r5, applies(u.subtask_max_retries, v, "server.subtask_max_retries"@), "server.subtask_max_retries"@, v);
        let r7 = upd(r6, applies(u.subtask_react_max_iterations, v, "server.subtask_react_max_iterations"@), "server.subtask_react_max_iterations"@);
        lemma_upd_within(r6, applies(u.subtask_react_max_iterations, v, "server.subtask_react_max_iterations"@), "server.subtask_react_max_iterations"@, v);
        lemma_upd_within(r7, applies(u.subtask_react_timeout_secs, v, "server.subtask_react_timeout_secs"@), "server.subtask_react_timeout_secs"@, v);
    }
    if let Some(u) = req.chat {
        if c.chat is Some {
            let r1 = upd(rv, applies(u.url, v, "chat.url"@), "chat.url"@);
            lemma_upd_within(rv, applies(u.url, v, "chat.url"@), "chat.url"@, v);
            let r2 = upd(r1, applies(u.api_key, v, "chat.api_key"@), "chat.api_key"@);
            lemma_upd_within(r1, applies(u.api_key, v, "chat.api_key"@), "chat.api_key"@, v);
            let r3 = upd(r2, applies(u.model, v, "chat.model"@), "chat.model"@);
            lemma_upd_within(r2, applies(u.model, v, "chat.model"@), "chat.model"@, v);
            lemma_upd_within(r3, applies(u.model_context_size, v, "chat.model_context_size"@), "chat.model_context_size"@, v);
        }
    }
    if let Some(u) = req.embedding {
        if c.embedding is Some {
            let c1 = applies(u.url, v, "embedding.url"@) && !rv.0.contains("embedding.url"@);
            let r1 = upd(rv, c1, "embedding.url"@);
            lemma_upd_within(rv, c1, "embedding.url"@, v);
            lemma_upd_within(r1, applies(u.api_key, v, "embedding.api_key"@), "embedding.api_key"@, v);
        } else if u.url is Some {
            let r1 = spec_add_updated(rv, "embedding.url"@);
            lemma_upd_within(rv, true, "embedding.url"@, v);
            assert(upd(rv, true, "embedding.url"@) == r1);
            lemma_upd_within(r1, applies(u.api_key, v, "embedding.api_key"@), "embedding.api_key"@, v);
        }
    }
    if let Some(u) = req.memory {
        if c.memory is Some {
            let r1 = upd(rv, applies(u.auto_summarize, v, "memory.auto_summarize"@), "memory.auto_summarize"@);
            lemma_upd_within(rv, applies(u.auto_summarize, v, "memory.auto_summarize"@), "memory.auto_summarize"@, v);
            let r2 = upd(r1, applies(u.summarization_strategy, v, "memory.summarization_strategy"@), "memory.summarization_strategy"@);
            lemma_upd_within(r1, applies(u.summarization_strategy, v, "memory.summarization_strategy"@), "memory.summarization_strategy"@, v);
            let r3 = upd(r2, applies(u.summarize_threshold, v, "memory.summarize_threshold"@), "memory.summarize_threshold"@);
            lemma_upd_within(r2, applies(u.summarize_threshold, v, "memory.summarize_threshold"@), "memory.summarize_threshold"@, v);
            lemma_upd_within(r3, applies(u.max_stored_messages, v, "memory.max_stored_messages"@), "memory.max_stored_messages"@, v);
        }
    }
    if let Some(u) = req.rag {
        if c.rag is Some {
            lemma_upd_within(rv, applies(u.enable, v, "rag.enable"@), "rag.enable"@, v);
        }
    }
    if let Some(u) = req.subagent {
        if c.subagent is Some {
            let ea = applies(u.execution_mode, v, "subagent.execution_mode"@);
            let em = ea && valid_execution_mode(u.execution_mode.unwrap()@);
            let r1 = upd(rv, em, "subagent.execution_mode"@);
            lemma_upd_within(rv, em, "subagent.execution_mode"@, v);
            let r2 = fail(r1, ea && !em, "subagent.execution_mode"@, "Invalid execution_mode. Must be 'direct' or 'subagent'"@);
            let pa = applies(u.parallel_mode, v, "subagent.parallel_mode"@);
            let pm = pa && valid_parallel_mode(u.parallel_mode.unwrap()@);
            lemma_upd_within(r2, pm, "subagent.parallel_mode"@, v);
        }
    }
    if let Some(u) = req.lantai_auto_memory {
        if c.lantai is Some {
            let r1 = upd(rv, applies(u.auto_summary, v, "lantai_auto_memory.auto_summary"@), "lantai_auto_memory.auto_summary"@);
            lemma_upd_within(rv, applies(u.auto_summary, v, "lantai_auto_memory.auto_summary"@), "lantai_auto_memory.auto_summary"@, v);
            let r2 = upd(r1, applies(u.checkpoint_token_ratio_bits, v, "lantai_auto_memory.checkpoint_token_ratio"@), "lantai_auto_memory.checkpoint_token_ratio"@);
            lemma_upd_within(r1, applies(u.checkpoint_token_ratio_bits, v, "lantai_auto_memory.checkpoint_token_ratio"@), "lantai_auto_memory.checkpoint_token_ratio"@, v);
            let r3 = upd(r2, applies(u.embedding_model, v, "lantai_auto_memory.embedding_model"@), "lantai_auto_memory.embedding_model"@);
            lemma_upd_within(r2, applies(u.embedding_model, v, "lantai_auto_memory.embedding_model"@), "lantai_auto_memory.embedding_model"@, v);
            let r4 = upd(r3, applies(u.embedding_dimensions, v, "lantai_auto_memory.embedding_dimensions"@), "lantai_auto_memory.embedding_dimensions"@);
            lemma_upd_within(r3, applies(u.embedding_dimensions, v, "lantai_auto_memory.embedding_dimensions"@), "lantai_auto_memory.embedding_dimensions"@, v);
            lemma_upd_within(r4, applies(u.embedding_batch_size, v, "lantai_auto_memory.embedding_batch_size"@), "lantai_auto_memory.embedding_batch_size"@, v);
        }
    }
}

/// An update reports as updated only fields that were validated: every
/// path in its list of updated fields is among `v`.
pub proof fn law_update_reports_only_validated_fields(c: Config, req: ConfigUpdateRequest, v: Seq<Seq<char>>)
    requires
        !request_stuck(c, req, v),
    ensures
        all_within(spec_apply_record(c, req, v).0, v),
{
    let r0: UpdateView = (Seq::empty(), Seq::empty(), Map::empty());
    lemma_sections_within(c, req, v, r0);
    let r1 = match req.server { Some(u) => spec_server_record(r0, u, v), None => r0 };
    lemma_sections_within(c, req, v, r1);
    let r2 = match req.chat { Some(u) => spec_chat_record(r1, c.chat, u, v), None => r1 };
    lemma_sections_within(c, req, v, r2);
    let r3 = match req.embedding { Some(u) => spec_embedding_record(r2, c.embedding, u, v), None => r2 };
    lemma_sections_within(c, req, v, r3);
    let r4 = match req.memory { Some(u) => spec_memory_record(r3, c.memory, u, v), None => r3 };
    lemma_sections_within(c, req, v, r4);
    let r5 = match req.rag { Some(u) => spec_rag_record(r4, c.rag, u, v), None => r4 };
    lemma_sections_within(c, req, v, r5);
    let r6 = match req.subagent { Some(u) => spec_subagent_record(r5, c.subagent, u, v), None => r5 };
    lemma_sections_within(c, req, v, r6);
}


proof fn lemma_upd_step(rv: UpdateView, c: bool, f: Seq<char>, x: Seq<char>)
    ensures
        (rv.0.contains(x) || (c && x == f)) ==> upd(rv, c, f).0.contains(x),
{
    if c {
        if rv.0.contains(x) {
            let i = choose|i: int| 0 <= i < rv.0.len() && rv.0[i] == x;
            assert(upd(rv, c, f).0[i] == x);
        } else if x == f {
            assert(upd(rv, c, f).0[rv.0.len() as int] == x);
        }
    }
}

/// `x` is a server path that an update sets.
pub open spec fn server_reports(u: ServerConfigUpdate, v: Seq<Seq<char>>, x: Seq<char>) -> bool {
    (applies(u.max_tools_per_iteration, v, "server.max_tools_per_iteration"@) && x == "server.max_tools_per_iteration"@) || (applies(u.tool_call_max_retries, v, "server.tool_call_max_retries"@) && x == "server.tool_call_max_retries"@) || (applies(u.tool_call_retry_delay_ms, v, "server.tool_call_retry_delay_ms"@) && x == "server.tool_call_retry_delay_ms"@) || (applies(u.max_plan_subtasks, v, "server.max_plan_subtasks"@) && x == "server.max_plan_subtasks"@) || (applies(u.plan_timeout_secs, v, "server.plan_timeout_secs"@) && x == "server.plan_timeout_secs"@) || (applies(u.subtask_max_retries, v, "server.subtask_max_retries"@) && x == "server.subtask_max_retries"@) || (applies(u.subtask_react_max_iterations, v, "server.subtask_react_max_iterations"@) && x == "server.subtask_react_max_iterations"@) || (applies(u.subtask_react_timeout_secs, v, "server.subtask_react_timeout_secs"@) && x == "server.subtask_react_timeout_secs"@)
}

proof fn lemma_server_reports(rv: UpdateView, u: ServerConfigUpdate, v: Seq<Seq<char>>, x: Seq<char>)
    ensures
        (rv.0.contains(x) || server_reports(u, v, x)) ==> spec_server_record(rv, u, v).0.contains(x),
{
        lemma_upd_step(rv, applies(u.max_tools_per_iteration, v, "server.max_tools_per_iteration"@), "server.max_tools_per_iteration"@, x);
        let s0 = upd(rv, applies(u.max_tools_per_iteration, v, "server.max_tools_per_iteration"@), "server.max_tools_per_iteration"@);
        lemma_upd_step(s0, applies(u.tool_call_max_retries, v, "server.tool_call_max_retries"@), "server.tool_call_max_retries"@, x);
        let s1 = upd(s0, applies(u.tool_call_max_retries, v, "server.tool_call_max_retries"@), "server.tool_call_max_retries"@);
        lemma_upd_step(s1, applies(u.tool_call_retry_delay_ms, v, "server.tool_call_retry_delay_ms"@), "server.tool_call_retry_delay_ms"@, x);
        let s2 = upd(s1, applies(u.tool_call_retry_delay_ms, v, "server.tool_call_retry_delay_ms"@), "server.tool_call_retry_delay_ms"@);
        lemma_upd_step(s2, applies(u.max_plan_subtasks, v, "server.max_plan_subtasks"@), "server.max_plan_subtasks"@, x);
        let s3 = upd(s2, applies(u.max_plan_subtasks, v, "server.max_plan_subtasks"@), "server.max_plan_subtasks"@);
        lemma_upd_step(s3, applies(u.plan_timeout_secs, v, "server.plan_timeout_secs"@), "server.plan_timeout_secs"@, x);
        let s4 = upd(s3, applies(u.plan_timeout_secs, v, "server.plan_timeout_secs"@), "server.plan_timeout_secs"@);
        lemma_upd_step(s4, applies(u.subtask_max_retries, v, "server.subtask_max_retries"@), "server.subtask_max_retries"@, x);
        let s5 = upd(s4, applies(u.subtask_max_retries, v, "server.subtask_max_retries"@), "server.subtask_max_retries"@);
        lemma_upd_step(s5, applies(u.subtask_react_max_iterations, v, "server.subtask_react_max_iterations"@), "server.subtask_react_max_iterations"@, x);
        let s6 = upd(s5, applies(u.subtask_react_max_iterations, v, "server.subtask_react_max_iterations"@), "server.subtask_react_max_iterations"@);
        lemma_upd_step(s6, applies(u.subtask_react_timeout_secs, v, "server.subtask_react_timeout_secs"@), "server.subtask_react_timeout_secs"@, x);
}

/// `x` is a chat path that an update sets.
pub open spec fn chat_reports(c: Option<ChatConfig>, u: ChatConfigUpdate, v: Seq<Seq<char>>, x: Seq<char>) -> bool {
    c is Some && ((applies(u.url, v, "chat.url"@) && x == "chat.url"@) || (applies(u.api_key, v, "chat.api_key"@) && x == "chat.api_key"@) || (applies(u.model, v, "chat.model"@) && x == "chat.model"@) || (applies(u.model_context_size, v, "chat.model_context_size"@) && x == "chat.model_context_size"@))
}

proof fn lemma_chat_reports(rv: UpdateView, c: Option<ChatConfig>, u: ChatConfigUpdate, v: Seq<Seq<char>>, x: Seq<char>)
    ensures
        (rv.0.contains(x) || chat_reports(c, u, v, x)) ==> spec_chat_record(rv, c, u, v).0.contains(x),
{
    if c is Some {
        lemma_upd_step(rv, applies(u.url, v, "chat.url"@), "chat.url"@, x);
        let s0 = upd(rv, applies(u.url, v, "chat.url"@), "chat.url"@);
        lemma_upd_step(s0, applies(u.api_key, v, "chat.api_key"@), "chat.api_key"@, x);
        let s1 = upd(s0, applies(u.api_key, v, "chat.api_key"@), "chat.api_key"@);
        lemma_upd_step(s1, applies(u.model, v, "chat.model"@), "chat.model"@, x);
        let s2 = upd(s1, applies(u.model, v, "chat.model"@), "chat.model"@);
        lemma_upd_step(s2, applies(u.model_context_size, v, "chat.model_context_size"@), "chat.model_context_size"@, x);
    }
}

/// `x` is a memory path that an update sets.
pub open spec fn memory_reports(m: Option<MemoryConfig>, u: MemoryConfigUpdate, v: Seq<Seq<char>>, x: Seq<char>) -> bool {
    m is Some && ((applies(u.auto_summarize, v, "memory.auto_summarize"@) && x == "memory.auto_summarize"@) || (applies(u.summarization_strategy, v, "memory.summarization_strategy"@) && x == "memory.summarization_strategy"@) || (applies(u.summarize_threshold, v, "memory.summarize_threshold"@) && x == "memory.summarize_threshold"@) || (applies(u.max_stored_messages, v, "memory.max_stored_messages"@) && x == "memory.max_stored_messages"@))
}

proof fn lemma_memory_reports(rv: UpdateView, m: Option<MemoryConfig>, u: MemoryConfigUpdate, v: Seq<Seq<char>>, x: Seq<char>)
    ensures
        (rv.0.contains(x) || memory_reports(m, u, v, x)) ==> spec_memory_record(rv, m, u, v).0.contains(x),
{
    if m is Some {
        lemma_upd_step(rv, applies(u.auto_summarize, v, "memory.auto_summarize"@), "memory.auto_summarize"@, x);
        let s0 = upd(rv, applies(u.auto_summarize, v, "memory.auto_summarize"@), "memory.auto_summarize"@);
        lemma_upd_step(s0, applies(u.summarization_strategy, v, "memory.summarization_strategy"@), "memory.summarization_strategy"@, x);
        let s1 = upd(s0, applies(u.summarization_strategy, v, "memory.summarization_strategy"@), "memory.summarization_strategy"@);
        lemma_upd_step(s1, applies(u.summarize_threshold, v, "memory.summarize_threshold"@), "memory.summarize_threshold"@, x);
        let s2 = upd(s1, applies(u.summarize_threshold, v, "memory.summarize_threshold"@), "memory.summarize_threshold"@);
        lemma_upd_step(s2, applies(u.max_stored_messages, v, "memory.max_stored_messages"@), "memory.max_stored_messages"@, x);
    }
}

/// `x` is an auto-memory path that an update sets.
pub open spec fn lantai_reports(l: Option<MossLantaiConfig>, u: LantaiAutoMemoryConfigUpdate, v: Seq<Seq<char>>, x: Seq<char>) -> bool {
    l is Some && ((applies(u.auto_summary, v, "lantai_auto_memory.auto_summary"@) && x == "lantai_auto_memory.auto_summary"@) || (applies(u.checkpoint_token_ratio_bits, v, "lantai_auto_memory.checkpoint_token_ratio"@) && x == "lantai_auto_memory.checkpoint_token_ratio"@) || (applies(u.embedding_model, v, "lantai_auto_memory.embedding_model"@) && x == "lantai_auto_memory.embedding_model"@) || (applies(u.embedding_dimensions, v, "lantai_auto_memory.embedding_dimensions"@) && x == "lantai_auto_memory.embedding_dimensions"@) || (applies(u.embedding_batch_size, v, "lantai_auto_memory.embedding_batch_size"@) && x == "lantai_auto_memory.embedding_batch_size"@))
}

proof fn lemma_lantai_reports(rv: UpdateView, l: Option<MossLantaiConfig>, u: LantaiAutoMemoryConfigUpdate, v: Seq<Seq<char>>, x: Seq<char>)
    ensures
        (rv.0.contains(x) || lantai_reports(l, u, v, x)) ==> spec_lantai_record(rv, l, u, v).0.contains(x),
{
    if l is Some {
        lemma_upd_step(rv, applies(u.auto_summary, v, "lantai_auto_memory.auto_summary"@), "lantai_auto_memory.auto_summary"@, x);
        let s0 = upd(rv, applies(u.auto_summary, v, "lantai_auto_memory.auto_summary"@), "lantai_auto_memory.auto_summary"@);
        lemma_upd_step(s0, applies(u.checkpoint_token_ratio_bits, v, "lantai_auto_memory.checkpoint_token_ratio"@), "lantai_auto_memory.checkpoint_token_ratio"@, x);
        let s1 = upd(s0, applies(u.checkpoint_token_ratio_bits, v, "lantai_auto_memory.checkpoint_token_ratio"@), "lantai_auto_memory.checkpoint_token_ratio"@);
        lemma_upd_step(s1, applies(u.embedding_model, v, "lantai_auto_memory.embedding_model"@), "lantai_auto_memory.embedding_model"@, x);
        let s2 = upd(s1, applies(u.embedding_model, v, "lantai_auto_memory.embedding_model"@), "lantai_auto_memory.embedding_model"@);
        lemma_upd_step(s2, applies(u.embedding_dimensions, v, "lantai_auto_memory.embedding_dimensions"@), "lantai_auto_memory.embedding_dimensions"@, x);
        let s3 = upd(s2, applies(u.embedding_dimensions, v, "lantai_auto_memory.embedding_dimensions"@), "lantai_auto_memory.embedding_dimensions"@);
        lemma_upd_step(s3, applies(u.embedding_batch_size, v, "lantai_auto_memory.embedding_batch_size"@), "lantai_auto_memory.embedding_batch_size"@, x);
    }
}

/// `x` is a RAG path that an update sets.
pub open spec fn rag_reports(r: Option<RagConfig>, u: RagConfigUpdate, v: Seq<Seq<char>>, x: Seq<char>) -> bool {
    r is Some && applies(u.enable, v, "rag.enable"@) && x == "rag.enable"@
}

proof fn lemma_rag_reports(rv: UpdateView, r: Option<RagConfig>, u: RagConfigUpdate, v: Seq<Seq<char>>, x: Seq<char>)
    ensures
        (rv.0.contains(x) || rag_reports(r, u, v, x)) ==> spec_rag_record(rv, r, u, v).0.contains(x),
{
    if r is Some {
        lemma_upd_step(rv, applies(u.enable, v, "rag.enable"@), "rag.enable"@, x);
    }
}

/// `x` is a sub-agent path that an update sets to an accepted mode.
pub open spec fn subagent_reports(s: Option<SubAgentSystemConfig>, u: SubagentConfigUpdate, v: Seq<Seq<char>>, x: Seq<char>) -> bool {
    s is Some && (
        (applies(u.execution_mode, v, "subagent.execution_mode"@) && valid_execution_mode(u.execution_mode.unwrap()@)
            && x == "subagent.execution_mode"@)
        || (applies(u.parallel_mode, v, "subagent.parallel_mode"@) && valid_parallel_mode(u.parallel_mode.unwrap()@)
            && x == "subagent.parallel_mode"@))
}

proof fn lemma_subagent_reports(rv: UpdateView, s: Option<SubAgentSystemConfig>, u: SubagentConfigUpdate, v: Seq<Seq<char>>, x: Seq<char>)
    ensures
        (rv.0.contains(x) || subagent_reports(s, u, v, x)) ==> spec_subagent_record(rv, s, u, v).0.contains(x),
{
    if s is Some {
        let ea = applies(u.execution_mode, v, "subagent.execution_mode"@);
        let em = ea && valid_execution_mode(u.execution_mode.unwrap()@);
        lemma_upd_step(rv, em, "subagent.execution_mode"@, x);
        let r1 = upd(rv, em, "subagent.execution_mode"@);
        let r2 = fail(r1, ea && !em, "subagent.execution_mode"@, "Invalid execution_mode. Must be 'direct' or 'subagent'"@);
        let pa = applies(u.parallel_mode, v, "subagent.parallel_mode"@);
        let pm = pa && valid_parallel_mode(u.parallel_mode.unwrap()@);
        lemma_upd_step(r2, pm, "subagent.parallel_mode"@, x);
    }
}

/// `x` is an embedding path that an update sets (creating the section sets
/// its URL).
pub open spec fn embedding_reports(e: Option<EmbeddingConfig>, u: EmbeddingConfigUpdate, v: Seq<Seq<char>>, x: Seq<char>) -> bool {
    match e {
        None => u.url is Some && ((x == "embedding.url"@) || (applies(u.api_key, v, "embedding.api_key"@) && x == "embedding.api_key"@)),
        Some(_) => (applies(u.url, v, "embedding.url"@) && x == "embedding.url"@)
            || (applies(u.api_key, v, "embedding.api_key"@) && x == "embedding.api_key"@),
    }
}

proof fn lemma_embedding_reports(rv: UpdateView, e: Option<EmbeddingConfig>, u: EmbeddingConfigUpdate, v: Seq<Seq<char>>, x: Seq<char>)
    ensures
        (rv.0.contains(x) || embedding_reports(e, u, v, x)) ==> spec_embedding_record(rv, e, u, v).0.contains(x),
{
    match e {
        None => {
            if u.url is Some {
                lemma_upd_step(rv, true, "embedding.url"@, x);
                let r1 = spec_add_updated(rv, "embedding.url"@);
                assert(upd(rv, true, "embedding.url"@).0 == r1.0);
                lemma_upd_step(r1, applies(u.api_key, v, "embedding.api_key"@), "embedding.api_key"@, x);
            }
        },
        Some(_) => {
            let c1 = applies(u.url, v, "embedding.url"@) && !rv.0.contains("embedding.url"@);
            lemma_upd_step(rv, c1, "embedding.url"@, x);
            let r1 = upd(rv, c1, "embedding.url"@);
            lemma_upd_step(r1, applies(u.api_key, v, "embedding.api_key"@), "embedding.api_key"@, x);
        },
    }
}

/// `x` is a path that some section of `req` sets on `c`.
pub open spec fn request_reports(c: Config, req: ConfigUpdateRequest, v: Seq<Seq<char>>, x: Seq<char>) -> bool {
    ||| (req.server matches Some(u) && server_reports(u, v, x))
    ||| (req.chat matches Some(u) && chat_reports(c.chat, u, v, x))
    ||| (req.embedding matches Some(u) && embedding_reports(c.embedding, u, v, x))
    ||| (req.memory matches Some(u) && memory_reports(c.memory, u, v, x))
    ||| (req.rag matches Some(u) && rag_reports(c.rag, u, v, x))
    ||| (req.subagent matches Some(u) && subagent_reports(c.subagent, u, v, x))
    ||| (req.lantai_auto_memory matches Some(u) && lantai_reports(c.lantai, u, v, x))
}

proof fn lemma_request_reports(c: Config, req: ConfigUpdateRequest, v: Seq<Seq<char>>, x: Seq<char>)
    ensures
        request_reports(c, req, v, x) ==> spec_apply_record(c, req, v).0.contains(x),
{
    let r0: UpdateView = (Seq::empty(), Seq::empty(), Map::empty());
    if let Some(u) = req.server { lemma_server_reports(r0, u, v, x); }
    let r1 = match req.server { Some(u) => spec_server_record(r0, u, v), None => r0 };
    if let Some(u) = req.chat { lemma_chat_reports(r1, c.chat, u, v, x); }
    let r2 = match req.chat { Some(u) => spec_chat_record(r1, c.chat, u, v), None => r1 };
    if let Some(u) = req.embedding { lemma_embedding_reports(r2, c.embedding, u, v, x); }
    let r3 = match req.embedding { Some(u) => spec_embedding_record(r2, c.embedding, u, v), None => r2 };
    if let Some(u) = req.memory { lemma_memory_reports(r3, c.memory, u, v, x); }
    let r4 = match req.memory { Some(u) => spec_memory_record(r3, c.memory, u, v), None => r3 };
    if let Some(u) = req.rag { lemma_rag_reports(r4, c.rag, u, v, x); }
    let r5 = match req.rag { Some(u) => spec_rag_record(r4, c.rag, u, v), None => r4 };
    if let Some(u) = req.subagent { lemma_subagent_reports(r5, c.subagent, u, v, x); }
    let r6 = match req.subagent { Some(u) => spec_subagent_record(r5, c.subagent, u, v), None => r5 };
    if let Some(u) = req.lantai_auto_memory { lemma_lantai_reports(r6, c.lantai, u, v, x); }
}

/// `n` differs from `o` only in fields whose paths are in `updated`
/// (creating the embedding section counts as an update of its URL).
pub open spec fn unreported_unchanged(o: Config, n: Config, updated: Seq<Seq<char>>) -> bool {
    &&& (n.server.max_tools_per_iteration != o.server.max_tools_per_iteration ==> updated.contains("server.max_tools_per_iteration"@))
    &&& (n.server.tool_call_max_retries != o.server.tool_call_max_retries ==> updated.contains("server.tool_call_max_retries"@))
    &&& (n.server.tool_call_retry_delay_ms != o.server.tool_call_retry_delay_ms ==> updated.contains("server.tool_call_retry_delay_ms"@))
    &&& (n.server.max_plan_subtasks != o.server.max_plan_subtasks ==> updated.contains("server.max_plan_subtasks"@))
    &&& (n.server.plan_timeout_secs != o.server.plan_timeout_secs ==> updated.contains("server.plan_timeout_secs"@))
    &&& (n.server.subtask_max_retries != o.server.subtask_max_retries ==> updated.contains("server.subtask_max_retries"@))
    &&& (n.server.subtask_react_max_iterations != o.server.subtask_react_max_iterations ==> updated.contains("server.subtask_react_max_iterations"@))
    &&& (n.server.subtask_react_timeout_secs != o.server.subtask_react_timeout_secs ==> updated.contains("server.subtask_react_timeout_secs"@))
    &&& n.server.host == o.server.host && n.server.port == o.server.port
    &&& (o.chat is None ==> n.chat is None)
    &&& (o.chat matches Some(oc) ==> (n.chat matches Some(nc) && (nc.url != oc.url ==> updated.contains("chat.url"@)) && (nc.api_key != oc.api_key ==> updated.contains("chat.api_key"@)) && (nc.model != oc.model ==> updated.contains("chat.model"@)) && (nc.model_context_size != oc.model_context_size ==> updated.contains("chat.model_context_size"@))))
    &&& (o.memory is None ==> n.memory is None)
    &&& (o.memory matches Some(om) ==> (n.memory matches Some(nm) && (nm.auto_summarize != om.auto_summarize ==> updated.contains("memory.auto_summarize"@)) && (nm.summarization_strategy != om.summarization_strategy ==> updated.contains("memory.summarization_strategy"@)) && (nm.summarize_threshold != om.summarize_threshold ==> updated.contains("memory.summarize_threshold"@)) && (nm.max_stored_messages != om.max_stored_messages ==> updated.contains("memory.max_stored_messages"@)) && nm == MemoryConfig { auto_summarize: nm.auto_summarize, summarization_strategy: nm.summarization_strategy, summarize_threshold: nm.summarize_threshold, max_stored_messages: nm.max_stored_messages, ..om }))
    &&& (o.rag is None ==> n.rag is None)
    &&& (o.rag matches Some(orc) ==> (n.rag matches Some(nr) && (nr.enable != orc.enable ==> updated.contains("rag.enable"@)) && nr == RagConfig { enable: nr.enable, ..orc }))
    &&& (o.subagent is None ==> n.subagent is None)
    &&& (o.subagent matches Some(os) ==> (n.subagent matches Some(ns) && (ns.execution_mode != os.execution_mode ==> updated.contains("subagent.execution_mode"@)) && (ns.subtask_executor.parallel_mode != os.subtask_executor.parallel_mode ==> updated.contains("subagent.parallel_mode"@))))
    &&& (o.lantai is None ==> n.lantai is None)
    &&& (o.lantai matches Some(ol) ==> (n.lantai matches Some(nl) && (nl.auto_memory.auto_summary != ol.auto_memory.auto_summary ==> updated.contains("lantai_auto_memory.auto_summary"@)) && (nl.auto_memory.checkpoint_token_ratio_bits != ol.auto_memory.checkpoint_token_ratio_bits ==> updated.contains("lantai_auto_memory.checkpoint_token_ratio"@)) && (nl.embedding.model != ol.embedding.model ==> updated.contains("lantai_auto_memory.embedding_model"@)) && (nl.embedding.dimensions != ol.embedding.dimensions ==> updated.contains("lantai_auto_memory.embedding_dimensions"@)) && (nl.embedding.batch_size != ol.embedding.batch_size ==> updated.contains("lantai_auto_memory.embedding_batch_size"@))))
    &&& (o.embedding is None && n.embedding is Some ==> updated.contains("embedding.url"@))
    &&& (o.embedding is None && n.embedding is Some ==> (n.embedding->0.api_key@.len() > 0 ==> updated.contains("embedding.api_key"@)))
    &&& (o.embedding matches Some(oe) ==> (n.embedding matches Some(ne) && (ne.url@ != oe.url@ ==> updated.contains("embedding.url"@)) && (ne.api_key@ != oe.api_key@ ==> updated.contains("embedding.api_key"@))))
    &&& n.server_info_push_url == o.server_info_push_url && n.server_health_push_url == o.server_health_push_url && n.mcp == o.mcp && n.skill == o.skill && n.artifacts == o.artifacts && n.config_api == o.config_api && n.hitl == o.hitl && n.session == o.session
}

/// An update changes only the fields that it reports as updated: every
/// field of the configuration whose path is not in the list of updated
/// fields keeps its value (creating the embedding section from its URL
/// counts as an update of `embedding.url`).
#[verifier::spinoff_prover]
#[verifier::rlimit(50)]
pub proof fn law_update_changes_only_reported_fields(c: Config, n: Config, req: ConfigUpdateRequest, v: Seq<Seq<char>>)
    requires
        !request_stuck(c, req, v),
        spec_config_updated(c, n, req, v),
    ensures
        unreported_unchanged(c, n, spec_apply_record(c, req, v).0),
{
    lemma_request_reports(c, req, v, "server.max_tools_per_iteration"@);
    lemma_request_reports(c, req, v, "server.tool_call_max_retries"@);
    lemma_request_reports(c, req, v, "server.tool_call_retry_delay_ms"@);
    lemma_request_reports(c, req, v, "server.max_plan_subtasks"@);
    lemma_request_reports(c, req, v, "server.plan_timeout_secs"@);
    lemma_request_reports(c, req, v, "server.subtask_max_retries"@);
    lemma_request_reports(c, req, v, "server.subtask_react_max_iterations"@);
    lemma_request_reports(c, req, v, "server.subtask_react_timeout_secs"@);
    lemma_request_reports(c, req, v, "chat.url"@);
    lemma_request_reports(c, req, v, "chat.api_key"@);
    lemma_request_reports(c, req, v, "chat.model"@);
    lemma_request_reports(c, req, v, "chat.model_context_size"@);
    lemma_request_reports(c, req, v, "memory.auto_summarize"@);
    lemma_request_reports(c, req, v, "memory.summarization_strategy"@);
    lemma_request_reports(c, req, v, "memory.summarize_threshold"@);
    lemma_request_reports(c, req, v, "memory.max_stored_messages"@);
    lemma_request_reports(c, req, v, "rag.enable"@);
    lemma_request_reports(c, req, v, "subagent.execution_mode"@);
    lemma_request_reports(c, req, v, "subagent.parallel_mode"@);
    lemma_request_reports(c, req, v, "lantai_auto_memory.auto_summary"@);
    lemma_request_reports(c, req, v, "lantai_auto_memory.checkpoint_token_ratio"@);
    lemma_request_reports(c, req, v, "lantai_auto_memory.embedding_model"@);
    lemma_request_reports(c, req, v, "lantai_auto_memory.embedding_dimensions"@);
    lemma_request_reports(c, req, v, "lantai_auto_memory.embedding_batch_size"@);
    lemma_request_reports(c, req, v, "embedding.url"@);
    lemma_request_reports(c, req, v, "embedding.api_key"@);
}


/// Unregistering an extension right after an executor was registered for it
/// undoes the route, whatever the case of the extension's ASCII letters:
/// the executor taken out is the one registered, no executor handles the
/// extension afterwards, and every other extension keeps its executor.
pub proof fn law_unregister_after_register<T>(m: Map<Seq<char>, T>, v: T, exts: Seq<Seq<char>>, i: int, x: Seq<char>)
    requires
        0 <= i < exts.len(),
        all_ascii(x),
        all_ascii(exts[i]),
        ascii_lower(x) == ascii_lower(exts[i]),
    ensures
        spec_register(m, v, exts).contains_key(lowercase_of(x)),
        spec_register(m, v, exts)[lowercase_of(x)] == v,
        !spec_register(m, v, exts).remove(lowercase_of(x)).contains_key(lowercase_of(x)),
        forall|k: Seq<char>| k != lowercase_of(x) ==> (#[trigger] spec_register(m, v, exts).remove(lowercase_of(x)).contains_key(k)
            == spec_register(m, v, exts).contains_key(k)
            && (spec_register(m, v, exts).contains_key(k) ==> spec_register(m, v, exts).remove(lowercase_of(x))[k]
                == spec_register(m, v, exts)[k])),
{
    law_registered_extension_found_ignoring_case(m, v, exts, i, x);
}


/// A record whose updated fields occur once each, are not among the failed
/// fields, and (with the failed fields) lie in `p`.
pub open spec fn record_clean(rv: UpdateView, p: Set<Seq<char>>) -> bool {
    &&& rv.0.no_duplicates()
    &&& forall|i: int| 0 <= i < rv.0.len() ==> p.contains(#[trigger] rv.0[i])
    &&& forall|k: Seq<char>| #[trigger] rv.2.contains_key(k) ==> p.contains(k)
    &&& forall|i: int| 0 <= i < rv.0.len() ==> !rv.2.contains_key(#[trigger] rv.0[i])
}

proof fn lemma_clean_upd(rv: UpdateView, p: Set<Seq<char>>, c: bool, f: Seq<char>)
    requires
        record_clean(rv, p),
        !p.contains(f),
    ensures
        record_clean(upd(rv, c, f), p.insert(f)),
{
    let r = upd(rv, c, f);
    if c {
        assert forall|i: int, j: int| 0 <= i < r.0.len() && 0 <= j < r.0.len() && i != j implies r.0[i] != r.0[j] by {
            if i < rv.0.len() && j < rv.0.len() {
            } else if i < rv.0.len() {
                assert(p.contains(rv.0[i]));
            } else {
                assert(p.contains(rv.0[j]));
            }
        }
        assert forall|i: int| 0 <= i < r.0.len() implies !r.2.contains_key(#[trigger] r.0[i]) by {
            if i == rv.0.len() {
                if rv.2.contains_key(f) {
                    assert(p.contains(f));
                }
            }
        }
    }
}

proof fn lemma_clean_fail(rv: UpdateView, p: Set<Seq<char>>, c: bool, f: Seq<char>, m: Seq<char>)
    requires
        record_clean(rv, p),
        c ==> (!p.contains(f) || !rv.0.contains(f)),
    ensures
        record_clean(fail(rv, c, f, m), p.insert(f)),
{
    if c && rv.0.contains(f) {
        let i = choose|i: int| 0 <= i < rv.0.len() && rv.0[i] == f;
        assert(p.contains(rv.0[i]));
    }
    let r = fail(rv, c, f, m);
    if c {
        assert forall|i: int| 0 <= i < r.0.len() implies !r.2.contains_key(#[trigger] r.0[i]) by {
            if r.0[i] == f {
                assert(rv.0.contains(f));
            }
        }
    }
}

proof fn lemma_clean_mono(rv: UpdateView, p: Set<Seq<char>>, q: Set<Seq<char>>)
    requires
        record_clean(rv, p),
        p.subset_of(q),
    ensures
        record_clean(rv, q),
{
}

/// The paths that the server part of an update records.
pub open spec fn server_paths() -> Set<Seq<char>> {
    set!["server.max_tools_per_iteration"@, "server.tool_call_max_retries"@, "server.tool_call_retry_delay_ms"@, "server.max_plan_subtasks"@, "server.plan_timeout_secs"@, "server.subtask_max_retries"@, "server.subtask_react_max_iterations"@, "server.subtask_react_timeout_secs"@]
}

/// The paths that the chat part of an update records.
pub open spec fn chat_paths() -> Set<Seq<char>> {
    set!["chat.url"@, "chat.api_key"@, "chat.model"@, "chat.model_context_size"@]
}

/// The paths that the embedding part of an update records.
pub open spec fn embedding_paths() -> Set<Seq<char>> {
    set!["embedding.url"@, "embedding.api_key"@]
}

/// The paths that the memory part of an update records.
pub open spec fn memory_paths() -> Set<Seq<char>> {
    set!["memory.auto_summarize"@, "memory.summarization_strategy"@, "memory.summarize_threshold"@, "memory.max_stored_messages"@]
}

/// The paths that the rag part of an update records.
pub open spec fn rag_paths() -> Set<Seq<char>> {
    set!["rag.enable"@]
}

/// The paths that the subagent part of an update records.
pub open spec fn subagent_paths() -> Set<Seq<char>> {
    set!["subagent.execution_mode"@, "subagent.parallel_mode"@]
}

/// The paths that the lantai part of an update records.
pub open spec fn lantai_paths() -> Set<Seq<char>> {
    set!["lantai_auto_memory.auto_summary"@, "lantai_auto_memory.checkpoint_token_ratio"@, "lantai_auto_memory.embedding_model"@, "lantai_auto_memory.embedding_dimensions"@, "lantai_auto_memory.embedding_batch_size"@, "lantai_auto_memory"@]
}

proof fn lemma_update_paths_distinct()
    ensures
        "server.max_tools_per_iteration"@ != "server.tool_call_max_retries"@,
        "server.max_tools_per_iteration"@ != "server.tool_call_retry_delay_ms"@,
        "server.max_tools_per_iteration"@ != "server.max_plan_subtasks"@,
        "server.max_tools_per_iteration"@ != "server.plan_timeout_secs"@,
        "server.max_tools_per_iteration"@ != "server.subtask_max_retries"@,
        "server.max_tools_per_iteration"@ != "server.subtask_react_max_iterations"@,
        "server.max_tools_per_iteration"@ != "server.subtask_react_timeout_secs"@,
        "server.max_tools_per_iteration"@ != "chat.url"@,
        "server.max_tools_per_iteration"@ != "chat.api_key"@,
        "server.max_tools_per_iteration"@ != "chat.model"@,
        "server.max_tools_per_iteration"@ != "chat.model_context_size"@,
        "server.max_tools_per_iteration"@ != "embedding.url"@,
        "server.max_tools_per_iteration"@ != "embedding.api_key"@,
        "server.max_tools_per_iteration"@ != "memory.auto_summarize"@,
        "server.max_tools_per_iteration"@ != "memory.summarization_strategy"@,
        "server.max_tools_per_iteration"@ != "memory.summarize_threshold"@,
        "server.max_tools_per_iteration"@ != "memory.max_stored_messages"@,
        "server.max_tools_per_iteration"@ != "rag.enable"@,
        "server.max_tools_per_iteration"@ != "subagent.execution_mode"@,
        "server.max_tools_per_iteration"@ != "subagent.parallel_mode"@,
        "server.max_tools_per_iteration"@ != "lantai_auto_memory.auto_summary"@,
        "server.max_tools_per_iteration"@ != "lantai_auto_memory.checkpoint_token_ratio"@,
        "server.max_tools_per_iteration"@ != "lantai_auto_memory.embedding_model"@,
        "server.max_tools_per_iteration"@ != "lantai_auto_memory.embedding_dimensions"@,
        "server.max_tools_per_iteration"@ != "lantai_auto_memory.embedding_batch_size"@,
        "server.max_tools_per_iteration"@ != "lantai_auto_memory"@,
        "server.tool_call_max_retries"@ != "server.tool_call_retry_delay_ms"@,
        "server.tool_call_max_retries"@ != "server.max_plan_subtasks"@,
        "server.tool_call_max_retries"@ != "server.plan_timeout_secs"@,
        "server.tool_call_max_retries"@ != "server.subtask_max_retries"@,
        "server.tool_call_max_retries"@ != "server.subtask_react_max_iterations"@,
        "server.tool_call_max_retries"@ != "server.subtask_react_timeout_secs"@,
        "server.tool_call_max_retries"@ != "chat.url"@,
        "server.tool_call_max_retries"@ != "chat.api_key"@,
        "server.tool_call_max_retries"@ != "chat.model"@,
        "server.tool_call_max_retries"@ != "chat.model_context_size"@,
        "server.tool_call_max_retries"@ != "embedding.url"@,
        "server.tool_call_max_retries"@ != "embedding.api_key"@,
        "server.tool_call_max_retries"@ != "memory.auto_summarize"@,
        "server.tool_call_max_retries"@ != "memory.summarization_strategy"@,
        "server.tool_call_max_retries"@ != "memory.summarize_threshold"@,
        "server.tool_call_max_retries"@ != "memory.max_stored_messages"@,
        "server.tool_call_max_retries"@ != "rag.enable"@,
        "server.tool_call_max_retries"@ != "subagent.execution_mode"@,
        "server.tool_call_max_retries"@ != "subagent.parallel_mode"@,
        "server.tool_call_max_retries"@ != "lantai_auto_memory.auto_summary"@,
        "server.tool_call_max_retries"@ != "lantai_auto_memory.checkpoint_token_ratio"@,
        "server.tool_call_max_retries"@ != "lantai_auto_memory.embedding_model"@,
        "server.tool_call_max_retries"@ != "lantai_auto_memory.embedding_dimensions"@,
        "server.tool_call_max_retries"@ != "lantai_auto_memory.embedding_batch_size"@,
        "server.tool_call_max_retries"@ != "lantai_auto_memory"@,
        "server.tool_call_retry_delay_ms"@ != "server.max_plan_subtasks"@,
        "server.tool_call_retry_delay_ms"@ != "server.plan_timeout_secs"@,
        "server.tool_call_retry_delay_ms"@ != "server.subtask_max_retries"@,
        "server.tool_call_retry_delay_ms"@ != "server.subtask_react_max_iterations"@,
        "server.tool_call_retry_delay_ms"@ != "server.subtask_react_timeout_secs"@,
        "server.tool_call_retry_delay_ms"@ != "chat.url"@,
        "server.tool_call_retry_delay_ms"@ != "chat.api_key"@,
        "server.tool_call_retry_delay_ms"@ != "chat.model"@,
        "server.tool_call_retry_delay_ms"@ != "chat.model_context_size"@,
        "server.tool_call_retry_delay_ms"@ != "embedding.url"@,
        "server.tool_call_retry_delay_ms"@ != "embedding.api_key"@,
        "server.tool_call_retry_delay_ms"@ != "memory.auto_summarize"@,
        "server.tool_call_retry_delay_ms"@ != "memory.summarization_strategy"@,
        "server.tool_call_retry_delay_ms"@ != "memory.summarize_threshold"@,
        "server.tool_call_retry_delay_ms"@ != "memory.max_stored_messages"@,
        "server.tool_call_retry_delay_ms"@ != "rag.enable"@,
        "server.tool_call_retry_delay_ms"@ != "subagent.execution_mode"@,
        "server.tool_call_retry_delay_ms"@ != "subagent.parallel_mode"@,
        "server.tool_call_retry_delay_ms"@ != "lantai_auto_memory.auto_summary"@,
        "server.tool_call_retry_delay_ms"@ != "lantai_auto_memory.checkpoint_token_ratio"@,
        "server.tool_call_retry_delay_ms"@ != "lantai_auto_memory.embedding_model"@,
        "server.tool_call_retry_delay_ms"@ != "lantai_auto_memory.embedding_dimensions"@,
        "server.tool_call_retry_delay_ms"@ != "lantai_auto_memory.embedding_batch_size"@,
        "server.tool_call_retry_delay_ms"@ != "lantai_auto_memory"@,
        "server.max_plan_subtasks"@ != "server.plan_timeout_secs"@,
        "server.max_plan_subtasks"@ != "server.subtask_max_retries"@,
        "server.max_plan_subtasks"@ != "server.subtask_react_max_iterations"@,
        "server.max_plan_subtasks"@ != "server.subtask_react_timeout_secs"@,
        "server.max_plan_subtasks"@ != "chat.url"@,
        "server.max_plan_subtasks"@ != "chat.api_key"@,
        "server.max_plan_subtasks"@ != "chat.model"@,
        "server.max_plan_subtasks"@ != "chat.model_context_size"@,
        "server.max_plan_subtasks"@ != "embedding.url"@,
        "server.max_plan_subtasks"@ != "embedding.api_key"@,
        "server.max_plan_subtasks"@ != "memory.auto_summarize"@,
        "server.max_plan_subtasks"@ != "memory.summarization_strategy"@,
        "server.max_plan_subtasks"@ != "memory.summarize_threshold"@,
        "server.max_plan_subtasks"@ != "memory.max_stored_messages"@,
        "server.max_plan_subtasks"@ != "rag.enable"@,
        "server.max_plan_subtasks"@ != "subagent.execution_mode"@,
        "server.max_plan_subtasks"@ != "subagent.parallel_mode"@,
        "server.max_plan_subtasks"@ != "lantai_auto_memory.auto_summary"@,
        "server.max_plan_subtasks"@ != "lantai_auto_memory.checkpoint_token_ratio"@,
        "server.max_plan_subtasks"@ != "lantai_auto_memory.embedding_model"@,
        "server.max_plan_subtasks"@ != "lantai_auto_memory.embedding_dimensions"@,
        "server.max_plan_subtasks"@ != "lantai_auto_memory.embedding_batch_size"@,
        "server.max_plan_subtasks"@ != "lantai_auto_memory"@,
        "server.plan_timeout_secs"@ != "server.subtask_max_retries"@,
        "server.plan_timeout_secs"@ != "server.subtask_react_max_iterations"@,
        "server.plan_timeout_secs"@ != "server.subtask_react_timeout_secs"@,
        "server.plan_timeout_secs"@ != "chat.url"@,
        "server.plan_timeout_secs"@ != "chat.api_key"@,
        "server.plan_timeout_secs"@ != "chat.model"@,
        "server.plan_timeout_secs"@ != "chat.model_context_size"@,
        "server.plan_timeout_secs"@ != "embedding.url"@,
        "server.plan_timeout_secs"@ != "embedding.api_key"@,
        "server.plan_timeout_secs"@ != "memory.auto_summarize"@,
        "server.plan_timeout_secs"@ != "memory.summarization_strategy"@,
        "server.plan_timeout_secs"@ != "memory.summarize_threshold"@,
        "server.plan_timeout_secs"@ != "memory.max_stored_messages"@,
        "server.plan_timeout_secs"@ != "rag.enable"@,
        "server.plan_timeout_secs"@ != "subagent.execution_mode"@,
        "server.plan_timeout_secs"@ != "subagent.parallel_mode"@,
        "server.plan_timeout_secs"@ != "lantai_auto_memory.auto_summary"@,
        "server.plan_timeout_secs"@ != "lantai_auto_memory.checkpoint_token_ratio"@,
        "server.plan_timeout_secs"@ != "lantai_auto_memory.embedding_model"@,
        "server.plan_timeout_secs"@ != "lantai_auto_memory.embedding_dimensions"@,
        "server.plan_timeout_secs"@ != "lantai_auto_memory.embedding_batch_size"@,
        "server.plan_timeout_secs"@ != "lantai_auto_memory"@,
        "server.subtask_max_retries"@ != "server.subtask_react_max_iterations"@,
        "server.subtask_max_retries"@ != "server.subtask_react_timeout_secs"@,
        "server.subtask_max_retries"@ != "chat.url"@,
        "server.subtask_max_retries"@ != "chat.api_key"@,
        "server.subtask_max_retries"@ != "chat.model"@,
        "server.subtask_max_retries"@ != "chat.model_context_size"@,
        "server.subtask_max_retries"@ != "embedding.url"@,
        "server.subtask_max_retries"@ != "embedding.api_key"@,
        "server.subtask_max_retries"@ != "memory.auto_summarize"@,
        "server.subtask_max_retries"@ != "memory.summarization_strategy"@,
        "server.subtask_max_retries"@ != "memory.summarize_threshold"@,
        "server.subtask_max_retries"@ != "memory.max_stored_messages"@,
        "server.subtask_max_retries"@ != "rag.enable"@,
        "server.subtask_max_retries"@ != "subagent.execution_mode"@,
        "server.subtask_max_retries"@ != "subagent.parallel_mode"@,
        "server.subtask_max_retries"@ != "lantai_auto_memory.auto_summary"@,
        "server.subtask_max_retries"@ != "lantai_auto_memory.checkpoint_token_ratio"@,
        "server.subtask_max_retries"@ != "lantai_auto_memory.embedding_model"@,
        "server.subtask_max_retries"@ != "lantai_auto_memory.embedding_dimensions"@,
        "server.subtask_max_retries"@ != "lantai_auto_memory.embedding_batch_size"@,
        "server.subtask_max_retries"@ != "lantai_auto_memory"@,
        "server.subtask_react_max_iterations"@ != "server.subtask_react_timeout_secs"@,
        "server.subtask_react_max_iterations"@ != "chat.url"@,
        "server.subtask_react_max_iterations"@ != "chat.api_key"@,
        "server.subtask_react_max_iterations"@ != "chat.model"@,
        "server.subtask_react_max_iterations"@ != "chat.model_context_size"@,
        "server.subtask_react_max_iterations"@ != "embedding.url"@,
        "server.subtask_react_max_iterations"@ != "embedding.api_key"@,
        "server.subtask_react_max_iterations"@ != "memory.auto_summarize"@,
        "server.subtask_react_max_iterations"@ != "memory.summarization_strategy"@,
        "server.subtask_react_max_iterations"@ != "memory.summarize_threshold"@,
        "server.subtask_react_max_iterations"@ != "memory.max_stored_messages"@,
        "server.subtask_react_max_iterations"@ != "rag.enable"@,
        "server.subtask_react_max_iterations"@ != "subagent.execution_mode"@,
        "server.subtask_react_max_iterations"@ != "subagent.parallel_mode"@,
        "server.subtask_react_max_iterations"@ != "lantai_auto_memory.auto_summary"@,
        "server.subtask_react_max_iterations"@ != "lantai_auto_memory.checkpoint_token_ratio"@,
        "server.subtask_react_max_iterations"@ != "lantai_auto_memory.embedding_model"@,
        "server.subtask_react_max_iterations"@ != "lantai_auto_memory.embedding_dimensions"@,
        "server.subtask_react_max_iterations"@ != "lantai_auto_memory.embedding_batch_size"@,
        "server.subtask_react_max_iterations"@ != "lantai_auto_memory"@,
        "server.subtask_react_timeout_secs"@ != "chat.url"@,
        "server.subtask_react_timeout_secs"@ != "chat.api_key"@,
        "server.subtask_react_timeout_secs"@ != "chat.model"@,
        "server.subtask_react_timeout_secs"@ != "chat.model_context_size"@,
        "server.subtask_react_timeout_secs"@ != "embedding.url"@,
        "server.subtask_react_timeout_secs"@ != "embedding.api_key"@,
        "server.subtask_react_timeout_secs"@ != "memory.auto_summarize"@,
        "server.subtask_react_timeout_secs"@ != "memory.summarization_strategy"@,
        "server.subtask_react_timeout_secs"@ != "memory.summarize_threshold"@,
        "server.subtask_react_timeout_secs"@ != "memory.max_stored_messages"@,
        "server.subtask_react_timeout_secs"@ != "rag.enable"@,
        "server.subtask_react_timeout_secs"@ != "subagent.execution_mode"@,
        "server.subtask_react_timeout_secs"@ != "subagent.parallel_mode"@,
        "server.subtask_react_timeout_secs"@ != "lantai_auto_memory.auto_summary"@,
        "server.subtask_react_timeout_secs"@ != "lantai_auto_memory.checkpoint_token_ratio"@,
        "server.subtask_react_timeout_secs"@ != "lantai_auto_memory.embedding_model"@,
        "server.subtask_react_timeout_secs"@ != "lantai_auto_memory.embedding_dimensions"@,
        "server.subtask_react_timeout_secs"@ != "lantai_auto_memory.embedding_batch_size"@,
        "server.subtask_react_timeout_secs"@ != "lantai_auto_memory"@,
        "chat.url"@ != "chat.api_key"@,
        "chat.url"@ != "chat.model"@,
        "chat.url"@ != "chat.model_context_size"@,
        "chat.url"@ != "embedding.url"@,
        "chat.url"@ != "embedding.api_key"@,
        "chat.url"@ != "memory.auto_summarize"@,
        "chat.url"@ != "memory.summarization_strategy"@,
        "chat.url"@ != "memory.summarize_threshold"@,
        "chat.url"@ != "memory.max_stored_messages"@,
        "chat.url"@ != "rag.enable"@,
        "chat.url"@ != "subagent.execution_mode"@,
        "chat.url"@ != "subagent.parallel_mode"@,
        "chat.url"@ != "lantai_auto_memory.auto_summary"@,
        "chat.url"@ != "lantai_auto_memory.checkpoint_token_ratio"@,
        "chat.url"@ != "lantai_auto_memory.embedding_model"@,
        "chat.url"@ != "lantai_auto_memory.embedding_dimensions"@,
        "chat.url"@ != "lantai_auto_memory.embedding_batch_size"@,
        "chat.url"@ != "lantai_auto_memory"@,
        "chat.api_key"@ != "chat.model"@,
        "chat.api_key"@ != "chat.model_context_size"@,
        "chat.api_key"@ != "embedding.url"@,
        "chat.api_key"@ != "embedding.api_key"@,
        "chat.api_key"@ != "memory.auto_summarize"@,
        "chat.api_key"@ != "memory.summarization_strategy"@,
        "chat.api_key"@ != "memory.summarize_threshold"@,
        "chat.api_key"@ != "memory.max_stored_messages"@,
        "chat.api_key"@ != "rag.enable"@,
        "chat.api_key"@ != "subagent.execution_mode"@,
        "chat.api_key"@ != "subagent.parallel_mode"@,
        "chat.api_key"@ != "lantai_auto_memory.auto_summary"@,
        "chat.api_key"@ != "lantai_auto_memory.checkpoint_token_ratio"@,
        "chat.api_key"@ != "lantai_auto_memory.embedding_model"@,
        "chat.api_key"@ != "lantai_auto_memory.embedding_dimensions"@,
        "chat.api_key"@ != "lantai_auto_memory.embedding_batch_size"@,
        "chat.api_key"@ != "lantai_auto_memory"@,
        "chat.model"@ != "chat.model_context_size"@,
        "chat.model"@ != "embedding.url"@,
        "chat.model"@ != "embedding.api_key"@,
        "chat.model"@ != "memory.auto_summarize"@,
        "chat.model"@ != "memory.summarization_strategy"@,
        "chat.model"@ != "memory.summarize_threshold"@,
        "chat.model"@ != "memory.max_stored_messages"@,
        "chat.model"@ != "rag.enable"@,
        "chat.model"@ != "subagent.execution_mode"@,
        "chat.model"@ != "subagent.parallel_mode"@,
        "chat.model"@ != "lantai_auto_memory.auto_summary"@,
        "chat.model"@ != "lantai_auto_memory.checkpoint_token_ratio"@,
        "chat.model"@ != "lantai_auto_memory.embedding_model"@,
        "chat.model"@ != "lantai_auto_memory.embedding_dimensions"@,
        "chat.model"@ != "lantai_auto_memory.embedding_batch_size"@,
        "chat.model"@ != "lantai_auto_memory"@,
        "chat.model_context_size"@ != "embedding.url"@,
        "chat.model_context_size"@ != "embedding.api_key"@,
        "chat.model_context_size"@ != "memory.auto_summarize"@,
        "chat.model_context_size"@ != "memory.summarization_strategy"@,
        "chat.model_context_size"@ != "memory.summarize_threshold"@,
        "chat.model_context_size"@ != "memory.max_stored_messages"@,
        "chat.model_context_size"@ != "rag.enable"@,
        "chat.model_context_size"@ != "subagent.execution_mode"@,
        "chat.model_context_size"@ != "subagent.parallel_mode"@,
        "chat.model_context_size"@ != "lantai_auto_memory.auto_summary"@,
        "chat.model_context_size"@ != "lantai_auto_memory.checkpoint_token_ratio"@,
        "chat.model_context_size"@ != "lantai_auto_memory.embedding_model"@,
        "chat.model_context_size"@ != "lantai_auto_memory.embedding_dimensions"@,
        "chat.model_context_size"@ != "lantai_auto_memory.embedding_batch_size"@,
        "chat.model_context_size"@ != "lantai_auto_memory"@,
        "embedding.url"@ != "embedding.api_key"@,
        "embedding.url"@ != "memory.auto_summarize"@,
        "embedding.url"@ != "memory.summarization_strategy"@,
        "embedding.url"@ != "memory.summarize_threshold"@,
        "embedding.url"@ != "memory.max_stored_messages"@,
        "embedding.url"@ != "rag.enable"@,
        "embedding.url"@ != "subagent.execution_mode"@,
        "embedding.url"@ != "subagent.parallel_mode"@,
        "embedding.url"@ != "lantai_auto_memory.auto_summary"@,
        "embedding.url"@ != "lantai_auto_memory.checkpoint_token_ratio"@,
        "embedding.url"@ != "lantai_auto_memory.embedding_model"@,
        "embedding.url"@ != "lantai_auto_memory.embedding_dimensions"@,
        "embedding.url"@ != "lantai_auto_memory.embedding_batch_size"@,
        "embedding.url"@ != "lantai_auto_memory"@,
        "embedding.api_key"@ != "memory.auto_summarize"@,
        "embedding.api_key"@ != "memory.summarization_strategy"@,
        "embedding.api_key"@ != "memory.summarize_threshold"@,
        "embedding.api_key"@ != "memory.max_stored_messages"@,
        "embedding.api_key"@ != "rag.enable"@,
        "embedding.api_key"@ != "subagent.execution_mode"@,
        "embedding.api_key"@ != "subagent.parallel_mode"@,
        "embedding.api_key"@ != "lantai_auto_memory.auto_summary"@,
        "embedding.api_key"@ != "lantai_auto_memory.checkpoint_token_ratio"@,
        "embedding.api_key"@ != "lantai_auto_memory.embedding_model"@,
        "embedding.api_key"@ != "lantai_auto_memory.embedding_dimensions"@,
        "embedding.api_key"@ != "lantai_auto_memory.embedding_batch_size"@,
        "embedding.api_key"@ != "lantai_auto_memory"@,
        "memory.auto_summarize"@ != "memory.summarization_strategy"@,
        "memory.auto_summarize"@ != "memory.summarize_threshold"@,
        "memory.auto_summarize"@ != "memory.max_stored_messages"@,
        "memory.auto_summarize"@ != "rag.enable"@,
        "memory.auto_summarize"@ != "subagent.execution_mode"@,
        "memory.auto_summarize"@ != "subagent.parallel_mode"@,
        "memory.auto_summarize"@ != "lantai_auto_memory.auto_summary"@,
        "memory.auto_summarize"@ != "lantai_auto_memory.checkpoint_token_ratio"@,
        "memory.auto_summarize"@ != "lantai_auto_memory.embedding_model"@,
        "memory.auto_summarize"@ != "lantai_auto_memory.embedding_dimensions"@,
        "memory.auto_summarize"@ != "lantai_auto_memory.embedding_batch_size"@,
        "memory.auto_summarize"@ != "lantai_auto_memory"@,
        "memory.summarization_strategy"@ != "memory.summarize_threshold"@,
        "memory.summarization_strategy"@ != "memory.max_stored_messages"@,
        "memory.summarization_strategy"@ != "rag.enable"@,
        "memory.summarization_strategy"@ != "subagent.execution_mode"@,
        "memory.summarization_strategy"@ != "subagent.parallel_mode"@,
        "memory.summarization_strategy"@ != "lantai_auto_memory.auto_summary"@,
        "memory.summarization_strategy"@ != "lantai_auto_memory.checkpoint_token_ratio"@,
        "memory.summarization_strategy"@ != "lantai_auto_memory.embedding_model"@,
        "memory.summarization_strategy"@ != "lantai_auto_memory.embedding_dimensions"@,
        "memory.summarization_strategy"@ != "lantai_auto_memory.embedding_batch_size"@,
        "memory.summarization_strategy"@ != "lantai_auto_memory"@,
        "memory.summarize_threshold"@ != "memory.max_stored_messages"@,
        "memory.summarize_threshold"@ != "rag.enable"@,
        "memory.summarize_threshold"@ != "subagent.execution_mode"@,
        "memory.summarize_threshold"@ != "subagent.parallel_mode"@,
        "memory.summarize_threshold"@ != "lantai_auto_memory.auto_summary"@,
        "memory.summarize_threshold"@ != "lantai_auto_memory.checkpoint_token_ratio"@,
        "memory.summarize_threshold"@ != "lantai_auto_memory.embedding_model"@,
        "memory.summarize_threshold"@ != "lantai_auto_memory.embedding_dimensions"@,
        "memory.summarize_threshold"@ != "lantai_auto_memory.embedding_batch_size"@,
        "memory.summarize_threshold"@ != "lantai_auto_memory"@,
        "memory.max_stored_messages"@ != "rag.enable"@,
        "memory.max_stored_messages"@ != "subagent.execution_mode"@,
        "memory.max_stored_messages"@ != "subagent.parallel_mode"@,
        "memory.max_stored_messages"@ != "lantai_auto_memory.auto_summary"@,
        "memory.max_stored_messages"@ != "lantai_auto_memory.checkpoint_token_ratio"@,
        "memory.max_stored_messages"@ != "lantai_auto_memory.embedding_model"@,
        "memory.max_stored_messages"@ != "lantai_auto_memory.embedding_dimensions"@,
        "memory.max_stored_messages"@ != "lantai_auto_memory.embedding_batch_size"@,
        "memory.max_stored_messages"@ != "lantai_auto_memory"@,
        "rag.enable"@ != "subagent.execution_mode"@,
        "rag.enable"@ != "subagent.parallel_mode"@,
        "rag.enable"@ != "lantai_auto_memory.auto_summary"@,
        "rag.enable"@ != "lantai_auto_memory.checkpoint_token_ratio"@,
        "rag.enable"@ != "lantai_auto_memory.embedding_model"@,
        "rag.enable"@ != "lantai_auto_memory.embedding_dimensions"@,
        "rag.enable"@ != "lantai_auto_memory.embedding_batch_size"@,
        "rag.enable"@ != "lantai_auto_memory"@,
        "subagent.execution_mode"@ != "subagent.parallel_mode"@,
        "subagent.execution_mode"@ != "lantai_auto_memory.auto_summary"@,
        "subagent.execution_mode"@ != "lantai_auto_memory.checkpoint_token_ratio"@,
        "subagent.execution_mode"@ != "lantai_auto_memory.embedding_model"@,
        "subagent.execution_mode"@ != "lantai_auto_memory.embedding_dimensions"@,
        "subagent.execution_mode"@ != "lantai_auto_memory.embedding_batch_size"@,
        "subagent.execution_mode"@ != "lantai_auto_memory"@,
        "subagent.parallel_mode"@ != "lantai_auto_memory.auto_summary"@,
        "subagent.parallel_mode"@ != "lantai_auto_memory.checkpoint_token_ratio"@,
        "subagent.parallel_mode"@ != "lantai_auto_memory.embedding_model"@,
        "subagent.parallel_mode"@ != "lantai_auto_memory.embedding_dimensions"@,
        "subagent.parallel_mode"@ != "lantai_auto_memory.embedding_batch_size"@,
        "subagent.parallel_mode"@ != "lantai_auto_memory"@,
        "lantai_auto_memory.auto_summary"@ != "lantai_auto_memory.checkpoint_token_ratio"@,
        "lantai_auto_memory.auto_summary"@ != "lantai_auto_memory.embedding_model"@,
        "lantai_auto_memory.auto_summary"@ != "lantai_auto_memory.embedding_dimensions"@,
        "lantai_auto_memory.auto_summary"@ != "lantai_auto_memory.embedding_batch_size"@,
        "lantai_auto_memory.auto_summary"@ != "lantai_auto_memory"@,
        "lantai_auto_memory.checkpoint_token_ratio"@ != "lantai_auto_memory.embedding_model"@,
        "lantai_auto_memory.checkpoint_token_ratio"@ != "lantai_auto_memory.embedding_dimensions"@,
        "lantai_auto_memory.checkpoint_token_ratio"@ != "lantai_auto_memory.embedding_batch_size"@,
        "lantai_auto_memory.checkpoint_token_ratio"@ != "lantai_auto_memory"@,
        "lantai_auto_memory.embedding_model"@ != "lantai_auto_memory.embedding_dimensions"@,
        "lantai_auto_memory.embedding_model"@ != "lantai_auto_memory.embedding_batch_size"@,
        "lantai_auto_memory.embedding_model"@ != "lantai_auto_memory"@,
        "lantai_auto_memory.embedding_dimensions"@ != "lantai_auto_memory.embedding_batch_size"@,
        "lantai_auto_memory.embedding_dimensions"@ != "lantai_auto_memory"@,
        "lantai_auto_memory.embedding_batch_size"@ != "lantai_auto_memory"@,
{
    reveal_strlit("server.max_tools_per_iteration");
    reveal_strlit("server.tool_call_max_retries");
    reveal_strlit("server.tool_call_retry_delay_ms");
    reveal_strlit("server.max_plan_subtasks");
    reveal_strlit("server.plan_timeout_secs");
    reveal_strlit("server.subtask_max_retries");
    reveal_strlit("server.subtask_react_max_iterations");
    reveal_strlit("server.subtask_react_timeout_secs");
    reveal_strlit("chat.url");
    reveal_strlit("chat.api_key");
    reveal_strlit("chat.model");
    reveal_strlit("chat.model_context_size");
    reveal_strlit("embedding.url");
    reveal_strlit("embedding.api_key");
    reveal_strlit("memory.auto_summarize");
    reveal_strlit("memory.summarization_strategy");
    reveal_strlit("memory.summarize_threshold");
    reveal_strlit("memory.max_stored_messages");
    reveal_strlit("rag.enable");
    reveal_strlit("subagent.execution_mode");
    reveal_strlit("subagent.parallel_mode");
    reveal_strlit("lantai_auto_memory.auto_summary");
    reveal_strlit("lantai_auto_memory.checkpoint_token_ratio");
    reveal_strlit("lantai_auto_memory.embedding_model");
    reveal_strlit("lantai_auto_memory.embedding_dimensions");
    reveal_strlit("lantai_auto_memory.embedding_batch_size");
    reveal_strlit("lantai_auto_memory");
    assert("server.max_tools_per_iteration"@ != "server.tool_call_max_retries"@) by { assert("server.max_tools_per_iteration"@.len() != "server.tool_call_max_retries"@.len()); }
    assert("server.max_tools_per_iteration"@ != "server.tool_call_retry_delay_ms"@) by { assert("server.max_tools_per_iteration"@.len() != "server.tool_call_retry_delay_ms"@.len()); }
    assert("server.max_tools_per_iteration"@ != "server.max_plan_subtasks"@) by { assert("server.max_tools_per_iteration"@.len() != "server.max_plan_subtasks"@.len()); }
    assert("server.max_tools_per_iteration"@ != "server.plan_timeout_secs"@) by { assert("server.max_tools_per_iteration"@.len() != "server.plan_timeout_secs"@.len()); }
    assert("server.max_tools_per_iteration"@ != "server.subtask_max_retries"@) by { assert("server.max_tools_per_iteration"@.len() != "server.subtask_max_retries"@.len()); }
    assert("server.max_tools_per_iteration"@ != "server.subtask_react_max_iterations"@) by { assert("server.max_tools_per_iteration"@.len() != "server.subtask_react_max_iterations"@.len()); }
    assert("server.max_tools_per_iteration"@ != "server.subtask_react_timeout_secs"@) by { assert("server.max_tools_per_iteration"@.len() != "server.subtask_react_timeout_secs"@.len()); }
    assert("server.max_tools_per_iteration"@ != "chat.url"@) by { assert("server.max_tools_per_iteration"@.len() != "chat.url"@.len()); }
    assert("server.max_tools_per_iteration"@ != "chat.api_key"@) by { assert("server.max_tools_per_iteration"@.len() != "chat.api_key"@.len()); }
    assert("server.max_tools_per_iteration"@ != "chat.model"@) by { assert("server.max_tools_per_iteration"@.len() != "chat.model"@.len()); }
    assert("server.max_tools_per_iteration"@ != "chat.model_context_size"@) by { assert("server.max_tools_per_iteration"@.len() != "chat.model_context_size"@.len()); }
    assert("server.max_tools_per_iteration"@ != "embedding.url"@) by { assert("server.max_tools_per_iteration"@.len() != "embedding.url"@.len()); }
    assert("server.max_tools_per_iteration"@ != "embedding.api_key"@) by { assert("server.max_tools_per_iteration"@.len() != "embedding.api_key"@.len()); }
    assert("server.max_tools_per_iteration"@ != "memory.auto_summarize"@) by { assert("server.max_tools_per_iteration"@.len() != "memory.auto_summarize"@.len()); }
    assert("server.max_tools_per_iteration"@ != "memory.summarization_strategy"@) by { assert("server.max_tools_per_iteration"@.len() != "memory.summarization_strategy"@.len()); }
    assert("server.max_tools_per_iteration"@ != "memory.summarize_threshold"@) by { assert("server.max_tools_per_iteration"@.len() != "memory.summarize_threshold"@.len()); }
    assert("server.max_tools_per_iteration"@ != "memory.max_stored_messages"@) by { assert("server.max_tools_per_iteration"@.len() != "memory.max_stored_messages"@.len()); }
    assert("server.max_tools_per_iteration"@ != "rag.enable"@) by { assert("server.max_tools_per_iteration"@.len() != "rag.enable"@.len()); }
    assert("server.max_tools_per_iteration"@ != "subagent.execution_mode"@) by { assert("server.max_tools_per_iteration"@.len() != "subagent.execution_mode"@.len()); }
    assert("server.max_tools_per_iteration"@ != "subagent.parallel_mode"@) by { assert("server.max_tools_per_iteration"@.len() != "subagent.parallel_mode"@.len()); }
    assert("server.max_tools_per_iteration"@ != "lantai_auto_memory.auto_summary"@) by { assert("server.max_tools_per_iteration"@.len() != "lantai_auto_memory.auto_summary"@.len()); }
    assert("server.max_tools_per_iteration"@ != "lantai_auto_memory.checkpoint_token_ratio"@) by { assert("server.max_tools_per_iteration"@.len() != "lantai_auto_memory.checkpoint_token_ratio"@.len()); }
    assert("server.max_tools_per_iteration"@ != "lantai_auto_memory.embedding_model"@) by { assert("server.max_tools_per_iteration"@.len() != "lantai_auto_memory.embedding_model"@.len()); }
    assert("server.max_tools_per_iteration"@ != "lantai_auto_memory.embedding_dimensions"@) by { assert("server.max_tools_per_iteration"@.len() != "lantai_auto_memory.embedding_dimensions"@.len()); }
    assert("server.max_tools_per_iteration"@ != "lantai_auto_memory.embedding_batch_size"@) by { assert("server.max_tools_per_iteration"@.len() != "lantai_auto_memory.embedding_batch_size"@.len()); }
    assert("server.max_tools_per_iteration"@ != "lantai_auto_memory"@) by { assert("server.max_tools_per_iteration"@.len() != "lantai_auto_memory"@.len()); }
    assert("server.tool_call_max_retries"@ != "server.tool_call_retry_delay_ms"@) by { assert("server.tool_call_max_retries"@.len() != "server.tool_call_retry_delay_ms"@.len()); }
    assert("server.tool_call_max_retries"@ != "server.max_plan_subtasks"@) by { assert("server.tool_call_max_retries"@.len() != "server.max_plan_subtasks"@.len()); }
    assert("server.tool_call_max_retries"@ != "server.plan_timeout_secs"@) by { assert("server.tool_call_max_retries"@.len() != "server.plan_timeout_secs"@.len()); }
    assert("server.tool_call_max_retries"@ != "server.subtask_max_retries"@) by { assert("server.tool_call_max_retries"@.len() != "server.subtask_max_retries"@.len()); }
    assert("server.tool_call_max_retries"@ != "server.subtask_react_max_iterations"@) by { assert("server.tool_call_max_retries"@.len() != "server.subtask_react_max_iterations"@.len()); }
    assert("server.tool_call_max_retries"@ != "server.subtask_react_timeout_secs"@) by { assert("server.tool_call_max_retries"@.len() != "server.subtask_react_timeout_secs"@.len()); }
    assert("server.tool_call_max_retries"@ != "chat.url"@) by { assert("server.tool_call_max_retries"@.len() != "chat.url"@.len()); }
    assert("server.tool_call_max_retries"@ != "chat.api_key"@) by { assert("server.tool_call_max_retries"@.len() != "chat.api_key"@.len()); }
    assert("server.tool_call_max_retries"@ != "chat.model"@) by { assert("server.tool_call_max_retries"@.len() != "chat.model"@.len()); }
    assert("server.tool_call_max_retries"@ != "chat.model_context_size"@) by { assert("server.tool_call_max_retries"@.len() != "chat.model_context_size"@.len()); }
    assert("server.tool_call_max_retries"@ != "embedding.url"@) by { assert("server.tool_call_max_retries"@.len() != "embedding.url"@.len()); }
    assert("server.tool_call_max_retries"@ != "embedding.api_key"@) by { assert("server.tool_call_max_retries"@.len() != "embedding.api_key"@.len()); }
    assert("server.tool_call_max_retries"@ != "memory.auto_summarize"@) by { assert("server.tool_call_max_retries"@.len() != "memory.auto_summarize"@.len()); }
    assert("server.tool_call_max_retries"@ != "memory.summarization_strategy"@) by { assert("server.tool_call_max_retries"@.len() != "memory.summarization_strategy"@.len()); }
    assert("server.tool_call_max_retries"@ != "memory.summarize_threshold"@) by { assert("server.tool_call_max_retries"@.len() != "memory.summarize_threshold"@.len()); }
    assert("server.tool_call_max_retries"@ != "memory.max_stored_messages"@) by { assert("server.tool_call_max_retries"@.len() != "memory.max_stored_messages"@.len()); }
    assert("server.tool_call_max_retries"@ != "rag.enable"@) by { assert("server.tool_call_max_retries"@.len() != "rag.enable"@.len()); }
    assert("server.tool_call_max_retries"@ != "subagent.execution_mode"@) by { assert("server.tool_call_max_retries"@.len() != "subagent.execution_mode"@.len()); }
    assert("server.tool_call_max_retries"@ != "subagent.parallel_mode"@) by { assert("server.tool_call_max_retries"@.len() != "subagent.parallel_mode"@.len()); }
    assert("server.tool_call_max_retries"@ != "lantai_auto_memory.auto_summary"@) by { assert("server.tool_call_max_retries"@.len() != "lantai_auto_memory.auto_summary"@.len()); }
    assert("server.tool_call_max_retries"@ != "lantai_auto_memory.checkpoint_token_ratio"@) by { assert("server.tool_call_max_retries"@.len() != "lantai_auto_memory.checkpoint_token_ratio"@.len()); }
    assert("server.tool_call_max_retries"@ != "lantai_auto_memory.embedding_model"@) by { assert("server.tool_call_max_retries"@.len() != "lantai_auto_memory.embedding_model"@.len()); }
    assert("server.tool_call_max_retries"@ != "lantai_auto_memory.embedding_dimensions"@) by { assert("server.tool_call_max_retries"@.len() != "lantai_auto_memory.embedding_dimensions"@.len()); }
    assert("server.tool_call_max_retries"@ != "lantai_auto_memory.embedding_batch_size"@) by { assert("server.tool_call_max_retries"@.len() != "lantai_auto_memory.embedding_batch_size"@.len()); }
    assert("server.tool_call_max_retries"@ != "lantai_auto_memory"@) by { assert("server.tool_call_max_retries"@.len() != "lantai_auto_memory"@.len()); }
    assert("server.tool_call_retry_delay_ms"@ != "server.max_plan_subtasks"@) by { assert("server.tool_call_retry_delay_ms"@.len() != "server.max_plan_subtasks"@.len()); }
    assert("server.tool_call_retry_delay_ms"@ != "server.plan_timeout_secs"@) by { assert("server.tool_call_retry_delay_ms"@.len() != "server.plan_timeout_secs"@.len()); }
    assert("server.tool_call_retry_delay_ms"@ != "server.subtask_max_retries"@) by { assert("server.tool_call_retry_delay_ms"@.len() != "server.subtask_max_retries"@.len()); }
    assert("server.tool_call_retry_delay_ms"@ != "server.subtask_react_max_iterations"@) by { assert("server.tool_call_retry_delay_ms"@.len() != "server.subtask_react_max_iterations"@.len()); }
    assert("server.tool_call_retry_delay_ms"@ != "server.subtask_react_timeout_secs"@) by { assert("server.tool_call_retry_delay_ms"@.len() != "server.subtask_react_timeout_secs"@.len()); }
    assert("server.tool_call_retry_delay_ms"@ != "chat.url"@) by { assert("server.tool_call_retry_delay_ms"@.len() != "chat.url"@.len()); }
    assert("server.tool_call_retry_delay_ms"@ != "chat.api_key"@) by { assert("server.tool_call_retry_delay_ms"@.len() != "chat.api_key"@.len()); }
    assert("server.tool_call_retry_delay_ms"@ != "chat.model"@) by { assert("server.tool_call_retry_delay_ms"@.len() != "chat.model"@.len()); }
    assert("server.tool_call_retry_delay_ms"@ != "chat.model_context_size"@) by { assert("server.tool_call_retry_delay_ms"@.len() != "chat.model_context_size"@.len()); }
    assert("server.tool_call_retry_delay_ms"@ != "embedding.url"@) by { assert("server.tool_call_retry_delay_ms"@.len() != "embedding.url"@.len()); }
    assert("server.tool_call_retry_delay_ms"@ != "embedding.api_key"@) by { assert("server.tool_call_retry_delay_ms"@.len() != "embedding.api_key"@.len()); }
    assert("server.tool_call_retry_delay_ms"@ != "memory.auto_summarize"@) by { assert("server.tool_call_retry_delay_ms"@.len() != "memory.auto_summarize"@.len()); }
    assert("server.tool_call_retry_delay_ms"@ != "memory.summarization_strategy"@) by { assert("server.tool_call_retry_delay_ms"@.len() != "memory.summarization_strategy"@.len()); }
    assert("server.tool_call_retry_delay_ms"@ != "memory.summarize_threshold"@) by { assert("server.tool_call_retry_delay_ms"@.len() != "memory.summarize_threshold"@.len()); }
    assert("server.tool_call_retry_delay_ms"@ != "memory.max_stored_messages"@) by { assert("server.tool_call_retry_delay_ms"@.len() != "memory.max_stored_messages"@.len()); }
    assert("server.tool_call_retry_delay_ms"@ != "rag.enable"@) by { assert("server.tool_call_retry_delay_ms"@.len() != "rag.enable"@.len()); }
    assert("server.tool_call_retry_delay_ms"@ != "subagent.execution_mode"@) by { assert("server.tool_call_retry_delay_ms"@.len() != "subagent.execution_mode"@.len()); }
    assert("server.tool_call_retry_delay_ms"@ != "subagent.parallel_mode"@) by { assert("server.tool_call_retry_delay_ms"@.len() != "subagent.parallel_mode"@.len()); }
    assert("server.tool_call_retry_delay_ms"@ != "lantai_auto_memory.auto_summary"@) by { assert("server.tool_call_retry_delay_ms"@[0] != "lantai_auto_memory.auto_summary"@[0]); }
    assert("server.tool_call_retry_delay_ms"@ != "lantai_auto_memory.checkpoint_token_ratio"@) by { assert("server.tool_call_retry_delay_ms"@.len() != "lantai_auto_memory.checkpoint_token_ratio"@.len()); }
    assert("server.tool_call_retry_delay_ms"@ != "lantai_auto_memory.embedding_model"@) by { assert("server.tool_call_retry_delay_ms"@.len() != "lantai_auto_memory.embedding_model"@.len()); }
    assert("server.tool_call_retry_delay_ms"@ != "lantai_auto_memory.embedding_dimensions"@) by { assert("server.tool_call_retry_delay_ms"@.len() != "lantai_auto_memory.embedding_dimensions"@.len()); }
    assert("server.tool_call_retry_delay_ms"@ != "lantai_auto_memory.embedding_batch_size"@) by { assert("server.tool_call_retry_delay_ms"@.len() != "lantai_auto_memory.embedding_batch_size"@.len()); }
    assert("server.tool_call_retry_delay_ms"@ != "lantai_auto_memory"@) by { assert("server.tool_call_retry_delay_ms"@.len() != "lantai_auto_memory"@.len()); }
    assert("server.max_plan_subtasks"@ != "server.plan_timeout_secs"@) by { assert("server.max_plan_subtasks"@[7] != "server.plan_timeout_secs"@[7]); }
    assert("server.max_plan_subtasks"@ != "server.subtask_max_retries"@) by { assert("server.max_plan_subtasks"@.len() != "server.subtask_max_retries"@.len()); }
    assert("server.max_plan_subtasks"@ != "server.subtask_react_max_iterations"@) by { assert("server.max_plan_subtasks"@.len() != "server.subtask_react_max_iterations"@.len()); }
    assert("server.max_plan_subtasks"@ != "server.subtask_react_timeout_secs"@) by { assert("server.max_plan_subtasks"@.len() != "server.subtask_react_timeout_secs"@.len()); }
    assert("server.max_plan_subtasks"@ != "chat.url"@) by { assert("server.max_plan_subtasks"@.len() != "chat.url"@.len()); }
    assert("server.max_plan_subtasks"@ != "chat.api_key"@) by { assert("server.max_plan_subtasks"@.len() != "chat.api_key"@.len()); }
    assert("server.max_plan_subtasks"@ != "chat.model"@) by { assert("server.max_plan_subtasks"@.len() != "chat.model"@.len()); }
    assert("server.max_plan_subtasks"@ != "chat.model_context_size"@) by { assert("server.max_plan_subtasks"@.len() != "chat.model_context_size"@.len()); }
    assert("server.max_plan_subtasks"@ != "embedding.url"@) by { assert("server.max_plan_subtasks"@.len() != "embedding.url"@.len()); }
    assert("server.max_plan_subtasks"@ != "embedding.api_key"@) by { assert("server.max_plan_subtasks"@.len() != "embedding.api_key"@.len()); }
    assert("server.max_plan_subtasks"@ != "memory.auto_summarize"@) by { assert("server.max_plan_subtasks"@.len() != "memory.auto_summarize"@.len()); }
    assert("server.max_plan_subtasks"@ != "memory.summarization_strategy"@) by { assert("server.max_plan_subtasks"@.len() != "memory.summarization_strategy"@.len()); }
    assert("server.max_plan_subtasks"@ != "memory.summarize_threshold"@) by { assert("server.max_plan_subtasks"@.len() != "memory.summarize_threshold"@.len()); }
    assert("server.max_plan_subtasks"@ != "memory.max_stored_messages"@) by { assert("server.max_plan_subtasks"@.len() != "memory.max_stored_messages"@.len()); }
    assert("server.max_plan_subtasks"@ != "rag.enable"@) by { assert("server.max_plan_subtasks"@.len() != "rag.enable"@.len()); }
    assert("server.max_plan_subtasks"@ != "subagent.execution_mode"@) by { assert("server.max_plan_subtasks"@.len() != "subagent.execution_mode"@.len()); }
    assert("server.max_plan_subtasks"@ != "subagent.parallel_mode"@) by { assert("server.max_plan_subtasks"@.len() != "subagent.parallel_mode"@.len()); }
    assert("server.max_plan_subtasks"@ != "lantai_auto_memory.auto_summary"@) by { assert("server.max_plan_subtasks"@.len() != "lantai_auto_memory.auto_summary"@.len()); }
    assert("server.max_plan_subtasks"@ != "lantai_auto_memory.checkpoint_token_ratio"@) by { assert("server.max_plan_subtasks"@.len() != "lantai_auto_memory.checkpoint_token_ratio"@.len()); }
    assert("server.max_plan_subtasks"@ != "lantai_auto_memory.embedding_model"@) by { assert("server.max_plan_subtasks"@.len() != "lantai_auto_memory.embedding_model"@.len()); }
    assert("server.max_plan_subtasks"@ != "lantai_auto_memory.embedding_dimensions"@) by { assert("server.max_plan_subtasks"@.len() != "lantai_auto_memory.embedding_dimensions"@.len()); }
    assert("server.max_plan_subtasks"@ != "lantai_auto_memory.embedding_batch_size"@) by { assert("server.max_plan_subtasks"@.len() != "lantai_auto_memory.embedding_batch_size"@.len()); }
    assert("server.max_plan_subtasks"@ != "lantai_auto_memory"@) by { assert("server.max_plan_subtasks"@.len() != "lantai_auto_memory"@.len()); }
    assert("server.plan_timeout_secs"@ != "server.subtask_max_retries"@) by { assert("server.plan_timeout_secs"@.len() != "server.subtask_max_retries"@.len()); }
    assert("server.plan_timeout_secs"@ != "server.subtask_react_max_iterations"@) by { assert("server.plan_timeout_secs"@.len() != "server.subtask_react_max_iterations"@.len()); }
    assert("server.plan_timeout_secs"@ != "server.subtask_react_timeout_secs"@) by { assert("server.plan_timeout_secs"@.len() != "server.subtask_react_timeout_secs"@.len()); }
    assert("server.plan_timeout_secs"@ != "chat.url"@) by { assert("server.plan_timeout_secs"@.len() != "chat.url"@.len()); }
    assert("server.plan_timeout_secs"@ != "chat.api_key"@) by { assert("server.plan_timeout_secs"@.len() != "chat.api_key"@.len()); }
    assert("server.plan_timeout_secs"@ != "chat.model"@) by { assert("server.plan_timeout_secs"@.len() != "chat.model"@.len()); }
    assert("server.plan_timeout_secs"@ != "chat.model_context_size"@) by { assert("server.plan_timeout_secs"@.len() != "chat.model_context_size"@.len()); }
    assert("server.plan_timeout_secs"@ != "embedding.url"@) by { assert("server.plan_timeout_secs"@.len() != "embedding.url"@.len()); }
    assert("server.plan_timeout_secs"@ != "embedding.api_key"@) by { assert("server.plan_timeout_secs"@.len() != "embedding.api_key"@.len()); }
    assert("server.plan_timeout_secs"@ != "memory.auto_summarize"@) by { assert("server.plan_timeout_secs"@.len() != "memory.auto_summarize"@.len()); }
    assert("server.plan_timeout_secs"@ != "memory.summarization_strategy"@) by { assert("server.plan_timeout_secs"@.len() != "memory.summarization_strategy"@.len()); }
    assert("server.plan_timeout_secs"@ != "memory.summarize_threshold"@) by { assert("server.plan_timeout_secs"@.len() != "memory.summarize_threshold"@.len()); }
    assert("server.plan_timeout_secs"@ != "memory.max_stored_messages"@) by { assert("server.plan_timeout_secs"@.len() != "memory.max_stored_messages"@.len()); }
    assert("server.plan_timeout_secs"@ != "rag.enable"@) by { assert("server.plan_timeout_secs"@.len() != "rag.enable"@.len()); }
    assert("server.plan_timeout_secs"@ != "subagent.execution_mode"@) by { assert("server.plan_timeout_secs"@.len() != "subagent.execution_mode"@.len()); }
    assert("server.plan_timeout_secs"@ != "subagent.parallel_mode"@) by { assert("server.plan_timeout_secs"@.len() != "subagent.parallel_mode"@.len()); }
    assert("server.plan_timeout_secs"@ != "lantai_auto_memory.auto_summary"@) by { assert("server.plan_timeout_secs"@.len() != "lantai_auto_memory.auto_summary"@.len()); }
    assert("server.plan_timeout_secs"@ != "lantai_auto_memory.checkpoint_token_ratio"@) by { assert("server.plan_timeout_secs"@.len() != "lantai_auto_memory.checkpoint_token_ratio"@.len()); }
    assert("server.plan_timeout_secs"@ != "lantai_auto_memory.embedding_model"@) by { assert("server.plan_timeout_secs"@.len() != "lantai_auto_memory.embedding_model"@.len()); }
    assert("server.plan_timeout_secs"@ != "lantai_auto_memory.embedding_dimensions"@) by { assert("server.plan_timeout_secs"@.len() != "lantai_auto_memory.embedding_dimensions"@.len()); }
    assert("server.plan_timeout_secs"@ != "lantai_auto_memory.embedding_batch_size"@) by { assert("server.plan_timeout_secs"@.len() != "lantai_auto_memory.embedding_batch_size"@.len()); }
    assert("server.plan_timeout_secs"@ != "lantai_auto_memory"@) by { assert("server.plan_timeout_secs"@.len() != "lantai_auto_memory"@.len()); }
    assert("server.subtask_max_retries"@ != "server.subtask_react_max_iterations"@) by { assert("server.subtask_max_retries"@.len() != "server.subtask_react_max_iterations"@.len()); }
    assert("server.subtask_max_retries"@ != "server.subtask_react_timeout_secs"@) by { assert("server.subtask_max_retries"@.len() != "server.subtask_react_timeout_secs"@.len()); }
    assert("server.subtask_max_retries"@ != "chat.url"@) by { assert("server.subtask_max_retries"@.len() != "chat.url"@.len()); }
    assert("server.subtask_max_retries"@ != "chat.api_key"@) by { assert("server.subtask_max_retries"@.len() != "chat.api_key"@.len()); }
    assert("server.subtask_max_retries"@ != "chat.model"@) by { assert("server.subtask_max_retries"@.len() != "chat.model"@.len()); }
    assert("server.subtask_max_retries"@ != "chat.model_context_size"@) by { assert("server.subtask_max_retries"@.len() != "chat.model_context_size"@.len()); }
    assert("server.subtask_max_retries"@ != "embedding.url"@) by { assert("server.subtask_max_retries"@.len() != "embedding.url"@.len()); }
    assert("server.subtask_max_retries"@ != "embedding.api_key"@) by { assert("server.subtask_max_retries"@.len() != "embedding.api_key"@.len()); }
    assert("server.subtask_max_retries"@ != "memory.auto_summarize"@) by { assert("server.subtask_max_retries"@.len() != "memory.auto_summarize"@.len()); }
    assert("server.subtask_max_retries"@ != "memory.summarization_strategy"@) by { assert("server.subtask_max_retries"@.len() != "memory.summarization_strategy"@.len()); }
    assert("server.subtask_max_retries"@ != "memory.summarize_threshold"@) by { assert("server.subtask_max_retries"@[0] != "memory.summarize_threshold"@[0]); }
    assert("server.subtask_max_retries"@ != "memory.max_stored_messages"@) by { assert("server.subtask_max_retries"@[0] != "memory.max_stored_messages"@[0]); }
    assert("server.subtask_max_retries"@ != "rag.enable"@) by { assert("server.subtask_max_retries"@.len() != "rag.enable"@.len()); }
    assert("server.subtask_max_retries"@ != "subagent.execution_mode"@) by { assert("server.subtask_max_retries"@.len() != "subagent.execution_mode"@.len()); }
    assert("server.subtask_max_retries"@ != "subagent.parallel_mode"@) by { assert("server.subtask_max_retries"@.len() != "subagent.parallel_mode"@.len()); }
    assert("server.subtask_max_retries"@ != "lantai_auto_memory.auto_summary"@) by { assert("server.subtask_max_retries"@.len() != "lantai_auto_memory.auto_summary"@.len()); }
    assert("server.subtask_max_retries"@ != "lantai_auto_memory.checkpoint_token_ratio"@) by { assert("server.subtask_max_retries"@.len() != "lantai_auto_memory.checkpoint_token_ratio"@.len()); }
    assert("server.subtask_max_retries"@ != "lantai_auto_memory.embedding_model"@) by { assert("server.subtask_max_retries"@.len() != "lantai_auto_memory.embedding_model"@.len()); }
    assert("server.subtask_max_retries"@ != "lantai_auto_memory.embedding_dimensions"@) by { assert("server.subtask_max_retries"@.len() != "lantai_auto_memory.embedding_dimensions"@.len()); }
    assert("server.subtask_max_retries"@ != "lantai_auto_memory.embedding_batch_size"@) by { assert("server.subtask_max_retries"@.len() != "lantai_auto_memory.embedding_batch_size"@.len()); }
    assert("server.subtask_max_retries"@ != "lantai_auto_memory"@) by { assert("server.subtask_max_retries"@.len() != "lantai_auto_memory"@.len()); }
    assert("server.subtask_react_max_iterations"@ != "server.subtask_react_timeout_secs"@) by { assert("server.subtask_react_max_iterations"@.len() != "server.subtask_react_timeout_secs"@.len()); }
    assert("server.subtask_react_max_iterations"@ != "chat.url"@) by { assert("server.subtask_react_max_iterations"@.len() != "chat.url"@.len()); }
    assert("server.subtask_react_max_iterations"@ != "chat.api_key"@) by { assert("server.subtask_react_max_iterations"@.len() != "chat.api_key"@.len()); }
    assert("server.subtask_react_max_iterations"@ != "chat.model"@) by { assert("server.subtask_react_max_iterations"@.len() != "chat.model"@.len()); }
    assert("server.subtask_react_max_iterations"@ != "chat.model_context_size"@) by { assert("server.subtask_react_max_iterations"@.len() != "chat.model_context_size"@.len()); }
    assert("server.subtask_react_max_iterations"@ != "embedding.url"@) by { assert("server.subtask_react_max_iterations"@.len() != "embedding.url"@.len()); }
    assert("server.subtask_react_max_iterations"@ != "embedding.api_key"@) by { assert("server.subtask_react_max_iterations"@.len() != "embedding.api_key"@.len()); }
    assert("server.subtask_react_max_iterations"@ != "memory.auto_summarize"@) by { assert("server.subtask_react_max_iterations"@.len() != "memory.auto_summarize"@.len()); }
    assert("server.subtask_react_max_iterations"@ != "memory.summarization_strategy"@) by { assert("server.subtask_react_max_iterations"@.len() != "memory.summarization_strategy"@.len()); }
    assert("server.subtask_react_max_iterations"@ != "memory.summarize_threshold"@) by { assert("server.subtask_react_max_iterations"@.len() != "memory.summarize_threshold"@.len()); }
    assert("server.subtask_react_max_iterations"@ != "memory.max_stored_messages"@) by { assert("server.subtask_react_max_iterations"@.len() != "memory.max_stored_messages"@.len()); }
    assert("server.subtask_react_max_iterations"@ != "rag.enable"@) by { assert("server.subtask_react_max_iterations"@.len() != "rag.enable"@.len()); }
    assert("server.subtask_react_max_iterations"@ != "subagent.execution_mode"@) by { assert("server.subtask_react_max_iterations"@.len() != "subagent.execution_mode"@.len()); }
    assert("server.subtask_react_max_iterations"@ != "subagent.parallel_mode"@) by { assert("server.subtask_react_max_iterations"@.len() != "subagent.parallel_mode"@.len()); }
    assert("server.subtask_react_max_iterations"@ != "lantai_auto_memory.auto_summary"@) by { assert("server.subtask_react_max_iterations"@.len() != "lantai_auto_memory.auto_summary"@.len()); }
    assert("server.subtask_react_max_iterations"@ != "lantai_auto_memory.checkpoint_token_ratio"@) by { assert("server.subtask_react_max_iterations"@.len() != "lantai_auto_memory.checkpoint_token_ratio"@.len()); }
    assert("server.subtask_react_max_iterations"@ != "lantai_auto_memory.embedding_model"@) by { assert("server.subtask_react_max_iterations"@.len() != "lantai_auto_memory.embedding_model"@.len()); }
    assert("server.subtask_react_max_iterations"@ != "lantai_auto_memory.embedding_dimensions"@) by { assert("server.subtask_react_max_iterations"@.len() != "lantai_auto_memory.embedding_dimensions"@.len()); }
    assert("server.subtask_react_max_iterations"@ != "lantai_auto_memory.embedding_batch_size"@) by { assert("server.subtask_react_max_iterations"@.len() != "lantai_auto_memory.embedding_batch_size"@.len()); }
    assert("server.subtask_react_max_iterations"@ != "lantai_auto_memory"@) by { assert("server.subtask_react_max_iterations"@.len() != "lantai_auto_memory"@.len()); }
    assert("server.subtask_react_timeout_secs"@ != "chat.url"@) by { assert("server.subtask_react_timeout_secs"@.len() != "chat.url"@.len()); }
    assert("server.subtask_react_timeout_secs"@ != "chat.api_key"@) by { assert("server.subtask_react_timeout_secs"@.len() != "chat.api_key"@.len()); }
    assert("server.subtask_react_timeout_secs"@ != "chat.model"@) by { assert("server.subtask_react_timeout_secs"@.len() != "chat.model"@.len()); }
    assert("server.subtask_react_timeout_secs"@ != "chat.model_context_size"@) by { assert("server.subtask_react_timeout_secs"@.len() != "chat.model_context_size"@.len()); }
    assert("server.subtask_react_timeout_secs"@ != "embedding.url"@) by { assert("server.subtask_react_timeout_secs"@.len() != "embedding.url"@.len()); }
    assert("server.subtask_react_timeout_secs"@ != "embedding.api_key"@) by { assert("server.subtask_react_timeout_secs"@.len() != "embedding.api_key"@.len()); }
    assert("server.subtask_react_timeout_secs"@ != "memory.auto_summarize"@) by { assert("server.subtask_react_timeout_secs"@.len() != "memory.auto_summarize"@.len()); }
    assert("server.subtask_react_timeout_secs"@ != "memory.summarization_strategy"@) by { assert("server.subtask_react_timeout_secs"@.len() != "memory.summarization_strategy"@.len()); }
    assert("server.subtask_react_timeout_secs"@ != "memory.summarize_threshold"@) by { assert("server.subtask_react_timeout_secs"@.len() != "memory.summarize_threshold"@.len()); }
    assert("server.subtask_react_timeout_secs"@ != "memory.max_stored_messages"@) by { assert("server.subtask_react_timeout_secs"@.len() != "memory.max_stored_messages"@.len()); }
    assert("server.subtask_react_timeout_secs"@ != "rag.enable"@) by { assert("server.subtask_react_timeout_secs"@.len() != "rag.enable"@.len()); }
    assert("server.subtask_react_timeout_secs"@ != "subagent.execution_mode"@) by { assert("server.subtask_react_timeout_secs"@.len() != "subagent.execution_mode"@.len()); }
    assert("server.subtask_react_timeout_secs"@ != "subagent.parallel_mode"@) by { assert("server.subtask_react_timeout_secs"@.len() != "subagent.parallel_mode"@.len()); }
    assert("server.subtask_react_timeout_secs"@ != "lantai_auto_memory.auto_summary"@) by { assert("server.subtask_react_timeout_secs"@.len() != "lantai_auto_memory.auto_summary"@.len()); }
    assert("server.subtask_react_timeout_secs"@ != "lantai_auto_memory.checkpoint_token_ratio"@) by { assert("server.subtask_react_timeout_secs"@.len() != "lantai_auto_memory.checkpoint_token_ratio"@.len()); }
    assert("server.subtask_react_timeout_secs"@ != "lantai_auto_memory.embedding_model"@) by { assert("server.subtask_react_timeout_secs"@.len() != "lantai_auto_memory.embedding_model"@.len()); }
    assert("server.subtask_react_timeout_secs"@ != "lantai_auto_memory.embedding_dimensions"@) by { assert("server.subtask_react_timeout_secs"@.len() != "lantai_auto_memory.embedding_dimensions"@.len()); }
    assert("server.subtask_react_timeout_secs"@ != "lantai_auto_memory.embedding_batch_size"@) by { assert("server.subtask_react_timeout_secs"@.len() != "lantai_auto_memory.embedding_batch_size"@.len()); }
    assert("server.subtask_react_timeout_secs"@ != "lantai_auto_memory"@) by { assert("server.subtask_react_timeout_secs"@.len() != "lantai_auto_memory"@.len()); }
    assert("chat.url"@ != "chat.api_key"@) by { assert("chat.url"@.len() != "chat.api_key"@.len()); }
    assert("chat.url"@ != "chat.model"@) by { assert("chat.url"@.len() != "chat.model"@.len()); }
    assert("chat.url"@ != "chat.model_context_size"@) by { assert("chat.url"@.len() != "chat.model_context_size"@.len()); }
    assert("chat.url"@ != "embedding.url"@) by { assert("chat.url"@.len() != "embedding.url"@.len()); }
    assert("chat.url"@ != "embedding.api_key"@) by { assert("chat.url"@.len() != "embedding.api_key"@.len()); }
    assert("chat.url"@ != "memory.auto_summarize"@) by { assert("chat.url"@.len() != "memory.auto_summarize"@.len()); }
    assert("chat.url"@ != "memory.summarization_strategy"@) by { assert("chat.url"@.len() != "memory.summarization_strategy"@.len()); }
    assert("chat.url"@ != "memory.summarize_threshold"@) by { assert("chat.url"@.len() != "memory.summarize_threshold"@.len()); }
    assert("chat.url"@ != "memory.max_stored_messages"@) by { assert("chat.url"@.len() != "memory.max_stored_messages"@.len()); }
    assert("chat.url"@ != "rag.enable"@) by { assert("chat.url"@.len() != "rag.enable"@.len()); }
    assert("chat.url"@ != "subagent.execution_mode"@) by { assert("chat.url"@.len() != "subagent.execution_mode"@.len()); }
    assert("chat.url"@ != "subagent.parallel_mode"@) by { assert("chat.url"@.len() != "subagent.parallel_mode"@.len()); }
    assert("chat.url"@ != "lantai_auto_memory.auto_summary"@) by { assert("chat.url"@.len() != "lantai_auto_memory.auto_summary"@.len()); }
    assert("chat.url"@ != "lantai_auto_memory.checkpoint_token_ratio"@) by { assert("chat.url"@.len() != "lantai_auto_memory.checkpoint_token_ratio"@.len()); }
    assert("chat.url"@ != "lantai_auto_memory.embedding_model"@) by { assert("chat.url"@.len() != "lantai_auto_memory.embedding_model"@.len()); }
    assert("chat.url"@ != "lantai_auto_memory.embedding_dimensions"@) by { assert("chat.url"@.len() != "lantai_auto_memory.embedding_dimensions"@.len()); }
    assert("chat.url"@ != "lantai_auto_memory.embedding_batch_size"@) by { assert("chat.url"@.len() != "lantai_auto_memory.embedding_batch_size"@.len()); }
    assert("chat.url"@ != "lantai_auto_memory"@) by { assert("chat.url"@.len() != "lantai_auto_memory"@.len()); }
    assert("chat.api_key"@ != "chat.model"@) by { assert("chat.api_key"@.len() != "chat.model"@.len()); }
    assert("chat.api_key"@ != "chat.model_context_size"@) by { assert("chat.api_key"@.len() != "chat.model_context_size"@.len()); }
    assert("chat.api_key"@ != "embedding.url"@) by { assert("chat.api_key"@.len() != "embedding.url"@.len()); }
    assert("chat.api_key"@ != "embedding.api_key"@) by { assert("chat.api_key"@.len() != "embedding.api_key"@.len()); }
    assert("chat.api_key"@ != "memory.auto_summarize"@) by { assert("chat.api_key"@.len() != "memory.auto_summarize"@.len()); }
    assert("chat.api_key"@ != "memory.summarization_strategy"@) by { assert("chat.api_key"@.len() != "memory.summarization_strategy"@.len()); }
    assert("chat.api_key"@ != "memory.summarize_threshold"@) by { assert("chat.api_key"@.len() != "memory.summarize_threshold"@.len()); }
    assert("chat.api_key"@ != "memory.max_stored_messages"@) by { assert("chat.api_key"@.len() != "memory.max_stored_messages"@.len()); }
    assert("chat.api_key"@ != "rag.enable"@) by { assert("chat.api_key"@.len() != "rag.enable"@.len()); }
    assert("chat.api_key"@ != "subagent.execution_mode"@) by { assert("chat.api_key"@.len() != "subagent.execution_mode"@.len()); }
    assert("chat.api_key"@ != "subagent.parallel_mode"@) by { assert("chat.api_key"@.len() != "subagent.parallel_mode"@.len()); }
    assert("chat.api_key"@ != "lantai_auto_memory.auto_summary"@) by { assert("chat.api_key"@.len() != "lantai_auto_memory.auto_summary"@.len()); }
    assert("chat.api_key"@ != "lantai_auto_memory.checkpoint_token_ratio"@) by { assert("chat.api_key"@.len() != "lantai_auto_memory.checkpoint_token_ratio"@.len()); }
    assert("chat.api_key"@ != "lantai_auto_memory.embedding_model"@) by { assert("chat.api_key"@.len() != "lantai_auto_memory.embedding_model"@.len()); }
    assert("chat.api_key"@ != "lantai_auto_memory.embedding_dimensions"@) by { assert("chat.api_key"@.len() != "lantai_auto_memory.embedding_dimensions"@.len()); }
    assert("chat.api_key"@ != "lantai_auto_memory.embedding_batch_size"@) by { assert("chat.api_key"@.len() != "lantai_auto_memory.embedding_batch_size"@.len()); }
    assert("chat.api_key"@ != "lantai_auto_memory"@) by { assert("chat.api_key"@.len() != "lantai_auto_memory"@.len()); }
    assert("chat.model"@ != "chat.model_context_size"@) by { assert("chat.model"@.len() != "chat.model_context_size"@.len()); }
    assert("chat.model"@ != "embedding.url"@) by { assert("chat.model"@.len() != "embedding.url"@.len()); }
    assert("chat.model"@ != "embedding.api_key"@) by { assert("chat.model"@.len() != "embedding.api_key"@.len()); }
    assert("chat.model"@ != "memory.auto_summarize"@) by { assert("chat.model"@.len() != "memory.auto_summarize"@.len()); }
    assert("chat.model"@ != "memory.summarization_strategy"@) by { assert("chat.model"@.len() != "memory.summarization_strategy"@.len()); }
    assert("chat.model"@ != "memory.summarize_threshold"@) by { assert("chat.model"@.len() != "memory.summarize_threshold"@.len()); }
    assert("chat.model"@ != "memory.max_stored_messages"@) by { assert("chat.model"@.len() != "memory.max_stored_messages"@.len()); }
    assert("chat.model"@ != "rag.enable"@) by { assert("chat.model"@[0] != "rag.enable"@[0]); }
    assert("chat.model"@ != "subagent.execution_mode"@) by { assert("chat.model"@.len() != "subagent.execution_mode"@.len()); }
    assert("chat.model"@ != "subagent.parallel_mode"@) by { assert("chat.model"@.len() != "subagent.parallel_mode"@.len()); }
    assert("chat.model"@ != "lantai_auto_memory.auto_summary"@) by { assert("chat.model"@.len() != "lantai_auto_memory.auto_summary"@.len()); }
    assert("chat.model"@ != "lantai_auto_memory.checkpoint_token_ratio"@) by { assert("chat.model"@.len() != "lantai_auto_memory.checkpoint_token_ratio"@.len()); }
    assert("chat.model"@ != "lantai_auto_memory.embedding_model"@) by { assert("chat.model"@.len() != "lantai_auto_memory.embedding_model"@.len()); }
    assert("chat.model"@ != "lantai_auto_memory.embedding_dimensions"@) by { assert("chat.model"@.len() != "lantai_auto_memory.embedding_dimensions"@.len()); }
    assert("chat.model"@ != "lantai_auto_memory.embedding_batch_size"@) by { assert("chat.model"@.len() != "lantai_auto_memory.embedding_batch_size"@.len()); }
    assert("chat.model"@ != "lantai_auto_memory"@) by { assert("chat.model"@.len() != "lantai_auto_memory"@.len()); }
    assert("chat.model_context_size"@ != "embedding.url"@) by { assert("chat.model_context_size"@.len() != "embedding.url"@.len()); }
    assert("chat.model_context_size"@ != "embedding.api_key"@) by { assert("chat.model_context_size"@.len() != "embedding.api_key"@.len()); }
    assert("chat.model_context_size"@ != "memory.auto_summarize"@) by { assert("chat.model_context_size"@.len() != "memory.auto_summarize"@.len()); }
    assert("chat.model_context_size"@ != "memory.summarization_strategy"@) by { assert("chat.model_context_size"@.len() != "memory.summarization_strategy"@.len()); }
    assert("chat.model_context_size"@ != "memory.summarize_threshold"@) by { assert("chat.model_context_size"@.len() != "memory.summarize_threshold"@.len()); }
    assert("chat.model_context_size"@ != "memory.max_stored_messages"@) by { assert("chat.model_context_size"@.len() != "memory.max_stored_messages"@.len()); }
    assert("chat.model_context_size"@ != "rag.enable"@) by { assert("chat.model_context_size"@.len() != "rag.enable"@.len()); }
    assert("chat.model_context_size"@ != "subagent.execution_mode"@) by { assert("chat.model_context_size"@[0] != "subagent.execution_mode"@[0]); }
    assert("chat.model_context_size"@ != "subagent.parallel_mode"@) by { assert("chat.model_context_size"@.len() != "subagent.parallel_mode"@.len()); }
    assert("chat.model_context_size"@ != "lantai_auto_memory.auto_summary"@) by { assert("chat.model_context_size"@.len() != "lantai_auto_memory.auto_summary"@.len()); }
    assert("chat.model_context_size"@ != "lantai_auto_memory.checkpoint_token_ratio"@) by { assert("chat.model_context_size"@.len() != "lantai_auto_memory.checkpoint_token_ratio"@.len()); }
    assert("chat.model_context_size"@ != "lantai_auto_memory.embedding_model"@) by { assert("chat.model_context_size"@.len() != "lantai_auto_memory.embedding_model"@.len()); }
    assert("chat.model_context_size"@ != "lantai_auto_memory.embedding_dimensions"@) by { assert("chat.model_context_size"@.len() != "lantai_auto_memory.embedding_dimensions"@.len()); }
    assert("chat.model_context_size"@ != "lantai_auto_memory.embedding_batch_size"@) by { assert("chat.model_context_size"@.len() != "lantai_auto_memory.embedding_batch_size"@.len()); }
    assert("chat.model_context_size"@ != "lantai_auto_memory"@) by { assert("chat.model_context_size"@.len() != "lantai_auto_memory"@.len()); }
    assert("embedding.url"@ != "embedding.api_key"@) by { assert("embedding.url"@.len() != "embedding.api_key"@.len()); }
    assert("embedding.url"@ != "memory.auto_summarize"@) by { assert("embedding.url"@.len() != "memory.auto_summarize"@.len()); }
    assert("embedding.url"@ != "memory.summarization_strategy"@) by { assert("embedding.url"@.len() != "memory.summarization_strategy"@.len()); }
    assert("embedding.url"@ != "memory.summarize_threshold"@) by { assert("embedding.url"@.len() != "memory.summarize_threshold"@.len()); }
    assert("embedding.url"@ != "memory.max_stored_messages"@) by { assert("embedding.url"@.len() != "memory.max_stored_messages"@.len()); }
    assert("embedding.url"@ != "rag.enable"@) by { assert("embedding.url"@.len() != "rag.enable"@.len()); }
    assert("embedding.url"@ != "subagent.execution_mode"@) by { assert("embedding.url"@.len() != "subagent.execution_mode"@.len()); }
    assert("embedding.url"@ != "subagent.parallel_mode"@) by { assert("embedding.url"@.len() != "subagent.parallel_mode"@.len()); }
    assert("embedding.url"@ != "lantai_auto_memory.auto_summary"@) by { assert("embedding.url"@.len() != "lantai_auto_memory.auto_summary"@.len()); }
    assert("embedding.url"@ != "lantai_auto_memory.checkpoint_token_ratio"@) by { assert("embedding.url"@.len() != "lantai_auto_memory.checkpoint_token_ratio"@.len()); }
    assert("embedding.url"@ != "lantai_auto_memory.embedding_model"@) by { assert("embedding.url"@.len() != "lantai_auto_memory.embedding_model"@.len()); }
    assert("embedding.url"@ != "lantai_auto_memory.embedding_dimensions"@) by { assert("embedding.url"@.len() != "lantai_auto_memory.embedding_dimensions"@.len()); }
    assert("embedding.url"@ != "lantai_auto_memory.embedding_batch_size"@) by { assert("embedding.url"@.len() != "lantai_auto_memory.embedding_batch_size"@.len()); }
    assert("embedding.url"@ != "lantai_auto_memory"@) by { assert("embedding.url"@.len() != "lantai_auto_memory"@.len()); }
    assert("embedding.api_key"@ != "memory.auto_summarize"@) by { assert("embedding.api_key"@.len() != "memory.auto_summarize"@.len()); }
    assert("embedding.api_key"@ != "memory.summarization_strategy"@) by { assert("embedding.api_key"@.len() != "memory.summarization_strategy"@.len()); }
    assert("embedding.api_key"@ != "memory.summarize_threshold"@) by { assert("embedding.api_key"@.len() != "memory.summarize_threshold"@.len()); }
    assert("embedding.api_key"@ != "memory.max_stored_messages"@) by { assert("embedding.api_key"@.len() != "memory.max_stored_messages"@.len()); }
    assert("embedding.api_key"@ != "rag.enable"@) by { assert("embedding.api_key"@.len() != "rag.enable"@.len()); }
    assert("embedding.api_key"@ != "subagent.execution_mode"@) by { assert("embedding.api_key"@.len() != "subagent.execution_mode"@.len()); }
    assert("embedding.api_key"@ != "subagent.parallel_mode"@) by { assert("embedding.api_key"@.len() != "subagent.parallel_mode"@.len()); }
    assert("embedding.api_key"@ != "lantai_auto_memory.auto_summary"@) by { assert("embedding.api_key"@.len() != "lantai_auto_memory.auto_summary"@.len()); }
    assert("embedding.api_key"@ != "lantai_auto_memory.checkpoint_token_ratio"@) by { assert("embedding.api_key"@.len() != "lantai_auto_memory.checkpoint_token_ratio"@.len()); }
    assert("embedding.api_key"@ != "lantai_auto_memory.embedding_model"@) by { assert("embedding.api_key"@.len() != "lantai_auto_memory.embedding_model"@.len()); }
    assert("embedding.api_key"@ != "lantai_auto_memory.embedding_dimensions"@) by { assert("embedding.api_key"@.len() != "lantai_auto_memory.embedding_dimensions"@.len()); }
    assert("embedding.api_key"@ != "lantai_auto_memory.embedding_batch_size"@) by { assert("embedding.api_key"@.len() != "lantai_auto_memory.embedding_batch_size"@.len()); }
    assert("embedding.api_key"@ != "lantai_auto_memory"@) by { assert("embedding.api_key"@.len() != "lantai_auto_memory"@.len()); }
    assert("memory.auto_summarize"@ != "memory.summarization_strategy"@) by { assert("memory.auto_summarize"@.len() != "memory.summarization_strategy"@.len()); }
    assert("memory.auto_summarize"@ != "memory.summarize_threshold"@) by { assert("memory.auto_summarize"@.len() != "memory.summarize_threshold"@.len()); }
    assert("memory.auto_summarize"@ != "memory.max_stored_messages"@) by { assert("memory.auto_summarize"@.len() != "memory.max_stored_messages"@.len()); }
    assert("memory.auto_summarize"@ != "rag.enable"@) by { assert("memory.auto_summarize"@.len() != "rag.enable"@.len()); }
    assert("memory.auto_summarize"@ != "subagent.execution_mode"@) by { assert("memory.auto_summarize"@.len() != "subagent.execution_mode"@.len()); }
    assert("memory.auto_summarize"@ != "subagent.parallel_mode"@) by { assert("memory.auto_summarize"@.len() != "subagent.parallel_mode"@.len()); }
    assert("memory.auto_summarize"@ != "lantai_auto_memory.auto_summary"@) by { assert("memory.auto_summarize"@.len() != "lantai_auto_memory.auto_summary"@.len()); }
    assert("memory.auto_summarize"@ != "lantai_auto_memory.checkpoint_token_ratio"@) by { assert("memory.auto_summarize"@.len() != "lantai_auto_memory.checkpoint_token_ratio"@.len()); }
    assert("memory.auto_summarize"@ != "lantai_auto_memory.embedding_model"@) by { assert("memory.auto_summarize"@.len() != "lantai_auto_memory.embedding_model"@.len()); }
    assert("memory.auto_summarize"@ != "lantai_auto_memory.embedding_dimensions"@) by { assert("memory.auto_summarize"@.len() != "lantai_auto_memory.embedding_dimensions"@.len()); }
    assert("memory.auto_summarize"@ != "lantai_auto_memory.embedding_batch_size"@) by { assert("memory.auto_summarize"@.len() != "lantai_auto_memory.embedding_batch_size"@.len()); }
    assert("memory.auto_summarize"@ != "lantai_auto_memory"@) by { assert("memory.auto_summarize"@.len() != "lantai_auto_memory"@.len()); }
    assert("memory.summarization_strategy"@ != "memory.summarize_threshold"@) by { assert("memory.summarization_strategy"@.len() != "memory.summarize_threshold"@.len()); }
    assert("memory.summarization_strategy"@ != "memory.max_stored_messages"@) by { assert("memory.summarization_strategy"@.len() != "memory.max_stored_messages"@.len()); }
    assert("memory.summarization_strategy"@ != "rag.enable"@) by { assert("memory.summarization_strategy"@.len() != "rag.enable"@.len()); }
    assert("memory.summarization_strategy"@ != "subagent.execution_mode"@) by { assert("memory.summarization_strategy"@.len() != "subagent.execution_mode"@.len()); }
    assert("memory.summarization_strategy"@ != "subagent.parallel_mode"@) by { assert("memory.summarization_strategy"@.len() != "subagent.parallel_mode"@.len()); }
    assert("memory.summarization_strategy"@ != "lantai_auto_memory.auto_summary"@) by { assert("memory.summarization_strategy"@.len() != "lantai_auto_memory.auto_summary"@.len()); }
    assert("memory.summarization_strategy"@ != "lantai_auto_memory.checkpoint_token_ratio"@) by { assert("memory.summarization_strategy"@.len() != "lantai_auto_memory.checkpoint_token_ratio"@.len()); }
    assert("memory.summarization_strategy"@ != "lantai_auto_memory.embedding_model"@) by { assert("memory.summarization_strategy"@.len() != "lantai_auto_memory.embedding_model"@.len()); }
    assert("memory.summarization_strategy"@ != "lantai_auto_memory.embedding_dimensions"@) by { assert("memory.summarization_strategy"@.len() != "lantai_auto_memory.embedding_dimensions"@.len()); }
    assert("memory.summarization_strategy"@ != "lantai_auto_memory.embedding_batch_size"@) by { assert("memory.summarization_strategy"@.len() != "lantai_auto_memory.embedding_batch_size"@.len()); }
    assert("memory.summarization_strategy"@ != "lantai_auto_memory"@) by { assert("memory.summarization_strategy"@.len() != "lantai_auto_memory"@.len()); }
    assert("memory.summarize_threshold"@ != "memory.max_stored_messages"@) by { assert("memory.summarize_threshold"@[7] != "memory.max_stored_messages"@[7]); }
    assert("memory.summarize_threshold"@ != "rag.enable"@) by { assert("memory.summarize_threshold"@.len() != "rag.enable"@.len()); }
    assert("memory.summarize_threshold"@ != "subagent.execution_mode"@) by { assert("memory.summarize_threshold"@.len() != "subagent.execution_mode"@.len()); }
    assert("memory.summarize_threshold"@ != "subagent.parallel_mode"@) by { assert("memory.summarize_threshold"@.len() != "subagent.parallel_mode"@.len()); }
    assert("memory.summarize_threshold"@ != "lantai_auto_memory.auto_summary"@) by { assert("memory.summarize_threshold"@.len() != "lantai_auto_memory.auto_summary"@.len()); }
    assert("memory.summarize_threshold"@ != "lantai_auto_memory.checkpoint_token_ratio"@) by { assert("memory.summarize_threshold"@.len() != "lantai_auto_memory.checkpoint_token_ratio"@.len()); }
    assert("memory.summarize_threshold"@ != "lantai_auto_memory.embedding_model"@) by { assert("memory.summarize_threshold"@.len() != "lantai_auto_memory.embedding_model"@.len()); }
    assert("memory.summarize_threshold"@ != "lantai_auto_memory.embedding_dimensions"@) by { assert("memory.summarize_threshold"@.len() != "lantai_auto_memory.embedding_dimensions"@.len()); }
    assert("memory.summarize_threshold"@ != "lantai_auto_memory.embedding_batch_size"@) by { assert("memory.summarize_threshold"@.len() != "lantai_auto_memory.embedding_batch_size"@.len()); }
    assert("memory.summarize_threshold"@ != "lantai_auto_memory"@) by { assert("memory.summarize_threshold"@.len() != "lantai_auto_memory"@.len()); }
    assert("memory.max_stored_messages"@ != "rag.enable"@) by { assert("memory.max_stored_messages"@.len() != "rag.enable"@.len()); }
    assert("memory.max_stored_messages"@ != "subagent.execution_mode"@) by { assert("memory.max_stored_messages"@.len() != "subagent.execution_mode"@.len()); }
    assert("memory.max_stored_messages"@ != "subagent.parallel_mode"@) by { assert("memory.max_stored_messages"@.len() != "subagent.parallel_mode"@.len()); }
    assert("memory.max_stored_messages"@ != "lantai_auto_memory.auto_summary"@) by { assert("memory.max_stored_messages"@.len() != "lantai_auto_memory.auto_summary"@.len()); }
    assert("memory.max_stored_messages"@ != "lantai_auto_memory.checkpoint_token_ratio"@) by { assert("memory.max_stored_messages"@.len() != "lantai_auto_memory.checkpoint_token_ratio"@.len()); }
    assert("memory.max_stored_messages"@ != "lantai_auto_memory.embedding_model"@) by { assert("memory.max_stored_messages"@.len() != "lantai_auto_memory.embedding_model"@.len()); }
    assert("memory.max_stored_messages"@ != "lantai_auto_memory.embedding_dimensions"@) by { assert("memory.max_stored_messages"@.len() != "lantai_auto_memory.embedding_dimensions"@.len()); }
    assert("memory.max_stored_messages"@ != "lantai_auto_memory.embedding_batch_size"@) by { assert("memory.max_stored_messages"@.len() != "lantai_auto_memory.embedding_batch_size"@.len()); }
    assert("memory.max_stored_messages"@ != "lantai_auto_memory"@) by { assert("memory.max_stored_messages"@.len() != "lantai_auto_memory"@.len()); }
    assert("rag.enable"@ != "subagent.execution_mode"@) by { assert("rag.enable"@.len() != "subagent.execution_mode"@.len()); }
    assert("rag.enable"@ != "subagent.parallel_mode"@) by { assert("rag.enable"@.len() != "subagent.parallel_mode"@.len()); }
    assert("rag.enable"@ != "lantai_auto_memory.auto_summary"@) by { assert("rag.enable"@.len() != "lantai_auto_memory.auto_summary"@.len()); }
    assert("rag.enable"@ != "lantai_auto_memory.checkpoint_token_ratio"@) by { assert("rag.enable"@.len() != "lantai_auto_memory.checkpoint_token_ratio"@.len()); }
    assert("rag.enable"@ != "lantai_auto_memory.embedding_model"@) by { assert("rag.enable"@.len() != "lantai_auto_memory.embedding_model"@.len()); }
    assert("rag.enable"@ != "lantai_auto_memory.embedding_dimensions"@) by { assert("rag.enable"@.len() != "lantai_auto_memory.embedding_dimensions"@.len()); }
    assert("rag.enable"@ != "lantai_auto_memory.embedding_batch_size"@) by { assert("rag.enable"@.len() != "lantai_auto_memory.embedding_batch_size"@.len()); }
    assert("rag.enable"@ != "lantai_auto_memory"@) by { assert("rag.enable"@.len() != "lantai_auto_memory"@.len()); }
    assert("subagent.execution_mode"@ != "subagent.parallel_mode"@) by { assert("subagent.execution_mode"@.len() != "subagent.parallel_mode"@.len()); }
    assert("subagent.execution_mode"@ != "lantai_auto_memory.auto_summary"@) by { assert("subagent.execution_mode"@.len() != "lantai_auto_memory.auto_summary"@.len()); }
    assert("subagent.execution_mode"@ != "lantai_auto_memory.checkpoint_token_ratio"@) by { assert("subagent.execution_mode"@.len() != "lantai_auto_memory.checkpoint_token_ratio"@.len()); }
    assert("subagent.execution_mode"@ != "lantai_auto_memory.embedding_model"@) by { assert("subagent.execution_mode"@.len() != "lantai_auto_memory.embedding_model"@.len()); }
    assert("subagent.execution_mode"@ != "lantai_auto_memory.embedding_dimensions"@) by { assert("subagent.execution_mode"@.len() != "lantai_auto_memory.embedding_dimensions"@.len()); }
    assert("subagent.execution_mode"@ != "lantai_auto_memory.embedding_batch_size"@) by { assert("subagent.execution_mode"@.len() != "lantai_auto_memory.embedding_batch_size"@.len()); }
    assert("subagent.execution_mode"@ != "lantai_auto_memory"@) by { assert("subagent.execution_mode"@.len() != "lantai_auto_memory"@.len()); }
    assert("subagent.parallel_mode"@ != "lantai_auto_memory.auto_summary"@) by { assert("subagent.parallel_mode"@.len() != "lantai_auto_memory.auto_summary"@.len()); }
    assert("subagent.parallel_mode"@ != "lantai_auto_memory.checkpoint_token_ratio"@) by { assert("subagent.parallel_mode"@.len() != "lantai_auto_memory.checkpoint_token_ratio"@.len()); }
    assert("subagent.parallel_mode"@ != "lantai_auto_memory.embedding_model"@) by { assert("subagent.parallel_mode"@.len() != "lantai_auto_memory.embedding_model"@.len()); }
    assert("subagent.parallel_mode"@ != "lantai_auto_memory.embedding_dimensions"@) by { assert("subagent.parallel_mode"@.len() != "lantai_auto_memory.embedding_dimensions"@.len()); }
    assert("subagent.parallel_mode"@ != "lantai_auto_memory.embedding_batch_size"@) by { assert("subagent.parallel_mode"@.len() != "lantai_auto_memory.embedding_batch_size"@.len()); }
    assert("subagent.parallel_mode"@ != "lantai_auto_memory"@) by { assert("subagent.parallel_mode"@.len() != "lantai_auto_memory"@.len()); }
    assert("lantai_auto_memory.auto_summary"@ != "lantai_auto_memory.checkpoint_token_ratio"@) by { assert("lantai_auto_memory.auto_summary"@.len() != "lantai_auto_memory.checkpoint_token_ratio"@.len()); }
    assert("lantai_auto_memory.auto_summary"@ != "lantai_auto_memory.embedding_model"@) by { assert("lantai_auto_memory.auto_summary"@.len() != "lantai_auto_memory.embedding_model"@.len()); }
    assert("lantai_auto_memory.auto_summary"@ != "lantai_auto_memory.embedding_dimensions"@) by { assert("lantai_auto_memory.auto_summary"@.len() != "lantai_auto_memory.embedding_dimensions"@.len()); }
    assert("lantai_auto_memory.auto_summary"@ != "lantai_auto_memory.embedding_batch_size"@) by { assert("lantai_auto_memory.auto_summary"@.len() != "lantai_auto_memory.embedding_batch_size"@.len()); }
    assert("lantai_auto_memory.auto_summary"@ != "lantai_auto_memory"@) by { assert("lantai_auto_memory.auto_summary"@.len() != "lantai_auto_memory"@.len()); }
    assert("lantai_auto_memory.checkpoint_token_ratio"@ != "lantai_auto_memory.embedding_model"@) by { assert("lantai_auto_memory.checkpoint_token_ratio"@.len() != "lantai_auto_memory.embedding_model"@.len()); }
    assert("lantai_auto_memory.checkpoint_token_ratio"@ != "lantai_auto_memory.embedding_dimensions"@) by { assert("lantai_auto_memory.checkpoint_token_ratio"@.len() != "lantai_auto_memory.embedding_dimensions"@.len()); }
    assert("lantai_auto_memory.checkpoint_token_ratio"@ != "lantai_auto_memory.embedding_batch_size"@) by { assert("lantai_auto_memory.checkpoint_token_ratio"@.len() != "lantai_auto_memory.embedding_batch_size"@.len()); }
    assert("lantai_auto_memory.checkpoint_token_ratio"@ != "lantai_auto_memory"@) by { assert("lantai_auto_memory.checkpoint_token_ratio"@.len() != "lantai_auto_memory"@.len()); }
    assert("lantai_auto_memory.embedding_model"@ != "lantai_auto_memory.embedding_dimensions"@) by { assert("lantai_auto_memory.embedding_model"@.len() != "lantai_auto_memory.embedding_dimensions"@.len()); }
    assert("lantai_auto_memory.embedding_model"@ != "lantai_auto_memory.embedding_batch_size"@) by { assert("lantai_auto_memory.embedding_model"@.len() != "lantai_auto_memory.embedding_batch_size"@.len()); }
    assert("lantai_auto_memory.embedding_model"@ != "lantai_auto_memory"@) by { assert("lantai_auto_memory.embedding_model"@.len() != "lantai_auto_memory"@.len()); }
    assert("lantai_auto_memory.embedding_dimensions"@ != "lantai_auto_memory.embedding_batch_size"@) by { assert("lantai_auto_memory.embedding_dimensions"@[29] != "lantai_auto_memory.embedding_batch_size"@[29]); }
    assert("lantai_auto_memory.embedding_dimensions"@ != "lantai_auto_memory"@) by { assert("lantai_auto_memory.embedding_dimensions"@.len() != "lantai_auto_memory"@.len()); }
    assert("lantai_auto_memory.embedding_batch_size"@ != "lantai_auto_memory"@) by { assert("lantai_auto_memory.embedding_batch_size"@.len() != "lantai_auto_memory"@.len()); }
}

proof fn lemma_clean_server(rv: UpdateView, p: Set<Seq<char>>, u: ServerConfigUpdate, v: Seq<Seq<char>>)
    requires
        record_clean(rv, p),
        forall|x: Seq<char>| #[trigger] server_paths().contains(x) ==> !p.contains(x),
    ensures
        record_clean(spec_server_record(rv, u, v), p.union(server_paths())),
{
    lemma_update_paths_distinct();
    assert(server_paths().contains("server.max_tools_per_iteration"@));
    assert(server_paths().contains("server.tool_call_max_retries"@));
    assert(server_paths().contains("server.tool_call_retry_delay_ms"@));
    assert(server_paths().contains("server.max_plan_subtasks"@));
    assert(server_paths().contains("server.plan_timeout_secs"@));
    assert(server_paths().contains("server.subtask_max_retries"@));
    assert(server_paths().contains("server.subtask_react_max_iterations"@));
    assert(server_paths().contains("server.subtask_react_timeout_secs"@));
    {
        lemma_clean_upd(rv, p, applies(u.max_tools_per_iteration, v, "server.max_tools_per_iteration"@), "server.max_tools_per_iteration"@);
        let q0 = upd(rv, applies(u.max_tools_per_iteration, v, "server.max_tools_per_iteration"@), "server.max_tools_per_iteration"@);
        lemma_clean_upd(q0, p.insert("server.max_tools_per_iteration"@), applies(u.tool_call_max_retries, v, "server.tool_call_max_retries"@), "server.tool_call_max_retries"@);
        let q1 = upd(q0, applies(u.tool_call_max_retries, v, "server.tool_call_max_retries"@), "server.tool_call_max_retries"@);
        lemma_clean_upd(q1, p.insert("server.max_tools_per_iteration"@).insert("server.tool_call_max_retries"@), applies(u.tool_call_retry_delay_ms, v, "server.tool_call_retry_delay_ms"@), "server.tool_call_retry_delay_ms"@);
        let q2 = upd(q1, applies(u.tool_call_retry_delay_ms, v, "server.tool_call_retry_delay_ms"@), "server.tool_call_retry_delay_ms"@);
        lemma_clean_upd(q2, p.insert("server.max_tools_per_iteration"@).insert("server.tool_call_max_retries"@).insert("server.tool_call_retry_delay_ms"@), applies(u.max_plan_subtasks, v, "server.max_plan_subtasks"@), "server.max_plan_subtasks"@);
        let q3 = upd(q2, applies(u.max_plan_subtasks, v, "server.max_plan_subtasks"@), "server.max_plan_subtasks"@);
        lemma_clean_upd(q3, p.insert("server.max_tools_per_iteration"@).insert("server.tool_call_max_retries"@).insert("server.tool_call_retry_delay_ms"@).insert("server.max_plan_subtasks"@), applies(u.plan_timeout_secs, v, "server.plan_timeout_secs"@), "server.plan_timeout_secs"@);
        let q4 = upd(q3, applies(u.plan_timeout_secs, v, "server.plan_timeout_secs"@), "server.plan_timeout_secs"@);
        lemma_clean_upd(q4, p.insert("server.max_tools_per_iteration"@).insert("server.tool_call_max_retries"@).insert("server.tool_call_retry_delay_ms"@).insert("server.max_plan_subtasks"@).insert("server.plan_timeout_secs"@), applies(u.subtask_max_retries, v, "server.subtask_max_retries"@), "server.subtask_max_retries"@);
        let q5 = upd(q4, applies(u.subtask_max_retries, v, "server.subtask_max_retries"@), "server.subtask_max_retries"@);
        lemma_clean_upd(q5, p.insert("server.max_tools_per_iteration"@).insert("server.tool_call_max_retries"@).insert("server.tool_call_retry_delay_ms"@).insert("server.max_plan_subtasks"@).insert("server.plan_timeout_secs"@).insert("server.subtask_max_retries"@), applies(u.subtask_react_max_iterations, v, "server.subtask_react_max_iterations"@), "server.subtask_react_max_iterations"@);
        let q6 = upd(q5, applies(u.subtask_react_max_iterations, v, "server.subtask_react_max_iterations"@), "server.subtask_react_max_iterations"@);
        lemma_clean_upd(q6, p.insert("server.max_tools_per_iteration"@).insert("server.tool_call_max_retries"@).insert("server.tool_call_retry_delay_ms"@).insert("server.max_plan_subtasks"@).insert("server.plan_timeout_secs"@).insert("server.subtask_max_retries"@).insert("server.subtask_react_max_iterations"@), applies(u.subtask_react_timeout_secs, v, "server.subtask_react_timeout_secs"@), "server.subtask_react_timeout_secs"@);
        let q7 = upd(q6, applies(u.subtask_react_timeout_secs, v, "server.subtask_react_timeout_secs"@), "server.subtask_react_timeout_secs"@);
        lemma_clean_mono(q7, p.insert("server.max_tools_per_iteration"@).insert("server.tool_call_max_retries"@).insert("server.tool_call_retry_delay_ms"@).insert("server.max_plan_subtasks"@).insert("server.plan_timeout_secs"@).insert("server.subtask_max_retries"@).insert("server.subtask_react_max_iterations"@).insert("server.subtask_react_timeout_secs"@), p.union(server_paths()));
    }
}

proof fn lemma_clean_chat(rv: UpdateView, p: Set<Seq<char>>, c: Option<ChatConfig>, u: ChatConfigUpdate, v: Seq<Seq<char>>)
    requires
        record_clean(rv, p),
        forall|x: Seq<char>| #[trigger] chat_paths().contains(x) ==> !p.contains(x),
    ensures
        record_clean(spec_chat_record(rv, c, u, v), p.union(chat_paths())),
{
    lemma_update_paths_distinct();
    assert(chat_paths().contains("chat.url"@));
    assert(chat_paths().contains("chat.api_key"@));
    assert(chat_paths().contains("chat.model"@));
    assert(chat_paths().contains("chat.model_context_size"@));
    if c is Some {
        lemma_clean_upd(rv, p, applies(u.url, v, "chat.url"@), "chat.url"@);
        let q0 = upd(rv, applies(u.url, v, "chat.url"@), "chat.url"@);
        lemma_clean_upd(q0, p.insert("chat.url"@), applies(u.api_key, v, "chat.api_key"@), "chat.api_key"@);
        let q1 = upd(q0, applies(u.api_key, v, "chat.api_key"@), "chat.api_key"@);
        lemma_clean_upd(q1, p.insert("chat.url"@).insert("chat.api_key"@), applies(u.model, v, "chat.model"@), "chat.model"@);
        let q2 = upd(q1, applies(u.model, v, "chat.model"@), "chat.model"@);
        lemma_clean_upd(q2, p.insert("chat.url"@).insert("chat.api_key"@).insert("chat.model"@), applies(u.model_context_size, v, "chat.model_context_size"@), "chat.model_context_size"@);
        let q3 = upd(q2, applies(u.model_context_size, v, "chat.model_context_size"@), "chat.model_context_size"@);
        lemma_clean_mono(q3, p.insert("chat.url"@).insert("chat.api_key"@).insert("chat.model"@).insert("chat.model_context_size"@), p.union(chat_paths()));
    } else {
        lemma_clean_fail(rv, p, u.url is Some, "chat.url"@, chat_missing());
        let g0 = fail(rv, u.url is Some, "chat.url"@, chat_missing());
        lemma_clean_fail(g0, p.insert("chat.url"@), u.api_key is Some, "chat.api_key"@, chat_missing());
        let g1 = fail(g0, u.api_key is Some, "chat.api_key"@, chat_missing());
        lemma_clean_fail(g1, p.insert("chat.url"@).insert("chat.api_key"@), u.model is Some, "chat.model"@, chat_missing());
        let g2 = fail(g1, u.model is Some, "chat.model"@, chat_missing());
        lemma_clean_fail(g2, p.insert("chat.url"@).insert("chat.api_key"@).insert("chat.model"@), u.model_context_size is Some, "chat.model_context_size"@, chat_missing());
        let g3 = fail(g2, u.model_context_size is Some, "chat.model_context_size"@, chat_missing());
        lemma_clean_mono(g3, p.insert("chat.url"@).insert("chat.api_key"@).insert("chat.model"@).insert("chat.model_context_size"@), p.union(chat_paths()));
    }
}

proof fn lemma_clean_memory(rv: UpdateView, p: Set<Seq<char>>, m: Option<MemoryConfig>, u: MemoryConfigUpdate, v: Seq<Seq<char>>)
    requires
        record_clean(rv, p),
        forall|x: Seq<char>| #[trigger] memory_paths().contains(x) ==> !p.contains(x),
    ensures
        record_clean(spec_memory_record(rv, m, u, v), p.union(memory_paths())),
{
    lemma_update_paths_distinct();
    assert(memory_paths().contains("memory.auto_summarize"@));
    assert(memory_paths().contains("memory.summarization_strategy"@));
    assert(memory_paths().contains("memory.summarize_threshold"@));
    assert(memory_paths().contains("memory.max_stored_messages"@));
    if m is Some {
        lemma_clean_upd(rv, p, applies(u.auto_summarize, v, "memory.auto_summarize"@), "memory.auto_summarize"@);
        let q0 = upd(rv, applies(u.auto_summarize, v, "memory.auto_summarize"@), "memory.auto_summarize"@);
        lemma_clean_upd(q0, p.insert("memory.auto_summarize"@), applies(u.summarization_strategy, v, "memory.summarization_strategy"@), "memory.summarization_strategy"@);
        let q1 = upd(q0, applies(u.summarization_strategy, v, "memory.summarization_strategy"@), "memory.summarization_strategy"@);
        lemma_clean_upd(q1, p.insert("memory.auto_summarize"@).insert("memory.summarization_strategy"@), applies(u.summarize_threshold, v, "memory.summarize_threshold"@), "memory.summarize_threshold"@);
        let q2 = upd(q1, applies(u.summarize_threshold, v, "memory.summarize_threshold"@), "memory.summarize_threshold"@);
        lemma_clean_upd(q2, p.insert("memory.auto_summarize"@).insert("memory.summarization_strategy"@).insert("memory.summarize_threshold"@), applies(u.max_stored_messages, v, "memory.max_stored_messages"@), "memory.max_stored_messages"@);
        let q3 = upd(q2, applies(u.max_stored_messages, v, "memory.max_stored_messages"@), "memory.max_stored_messages"@);
        lemma_clean_mono(q3, p.insert("memory.auto_summarize"@).insert("memory.summarization_strategy"@).insert("memory.summarize_threshold"@).insert("memory.max_stored_messages"@), p.union(memory_paths()));
    } else {
        lemma_clean_fail(rv, p, u.auto_summarize is Some, "memory.auto_summarize"@, memory_missing());
        let g0 = fail(rv, u.auto_summarize is Some, "memory.auto_summarize"@, memory_missing());
        lemma_clean_fail(g0, p.insert("memory.auto_summarize"@), u.summarization_strategy is Some, "memory.summarization_strategy"@, memory_missing());
        let g1 = fail(g0, u.summarization_strategy is Some, "memory.summarization_strategy"@, memory_missing());
        lemma_clean_fail(g1, p.insert("memory.auto_summarize"@).insert("memory.summarization_strategy"@), u.summarize_threshold is Some, "memory.summarize_threshold"@, memory_missing());
        let g2 = fail(g1, u.summarize_threshold is Some, "memory.summarize_threshold"@, memory_missing());
        lemma_clean_fail(g2, p.insert("memory.auto_summarize"@).insert("memory.summarization_strategy"@).insert("memory.summarize_threshold"@), u.max_stored_messages is Some, "memory.max_stored_messages"@, memory_missing());
        let g3 = fail(g2, u.max_stored_messages is Some, "memory.max_stored_messages"@, memory_missing());
        lemma_clean_mono(g3, p.insert("memory.auto_summarize"@).insert("memory.summarization_strategy"@).insert("memory.summarize_threshold"@).insert("memory.max_stored_messages"@), p.union(memory_paths()));
    }
}

proof fn lemma_clean_rag(rv: UpdateView, p: Set<Seq<char>>, r: Option<RagConfig>, u: RagConfigUpdate, v: Seq<Seq<char>>)
    requires
        record_clean(rv, p),
        forall|x: Seq<char>| #[trigger] rag_paths().contains(x) ==> !p.contains(x),
    ensures
        record_clean(spec_rag_record(rv, r, u, v), p.union(rag_paths())),
{
    lemma_update_paths_distinct();
    assert(rag_paths().contains("rag.enable"@));
    if r is Some {
        lemma_clean_upd(rv, p, applies(u.enable, v, "rag.enable"@), "rag.enable"@);
        lemma_clean_mono(upd(rv, applies(u.enable, v, "rag.enable"@), "rag.enable"@), p.insert("rag.enable"@), p.union(rag_paths()));
    } else {
        lemma_clean_fail(rv, p, u.enable is Some, "rag.enable"@, "RAG configuration not initialized"@);
        lemma_clean_mono(fail(rv, u.enable is Some, "rag.enable"@, "RAG configuration not initialized"@), p.insert("rag.enable"@), p.union(rag_paths()));
    }
}

proof fn lemma_clean_subagent(rv: UpdateView, p: Set<Seq<char>>, s: Option<SubAgentSystemConfig>, u: SubagentConfigUpdate, v: Seq<Seq<char>>)
    requires
        record_clean(rv, p),
        forall|x: Seq<char>| #[trigger] subagent_paths().contains(x) ==> !p.contains(x),
    ensures
        record_clean(spec_subagent_record(rv, s, u, v), p.union(subagent_paths())),
{
    lemma_update_paths_distinct();
    assert(subagent_paths().contains("subagent.execution_mode"@));
    assert(subagent_paths().contains("subagent.parallel_mode"@));
    if s is Some {
        let ea = applies(u.execution_mode, v, "subagent.execution_mode"@);
        let em = ea && valid_execution_mode(u.execution_mode.unwrap()@);
        lemma_clean_upd(rv, p, em, "subagent.execution_mode"@);
        let r1 = upd(rv, em, "subagent.execution_mode"@);
        let p1 = p.insert("subagent.execution_mode"@);
        if ea && !em {
            assert(!rv.0.contains("subagent.execution_mode"@));
        }
        lemma_clean_fail(r1, p1, ea && !em, "subagent.execution_mode"@, "Invalid execution_mode. Must be 'direct' or 'subagent'"@);
        let r2 = fail(r1, ea && !em, "subagent.execution_mode"@, "Invalid execution_mode. Must be 'direct' or 'subagent'"@);
        let pa = applies(u.parallel_mode, v, "subagent.parallel_mode"@);
        let pm = pa && valid_parallel_mode(u.parallel_mode.unwrap()@);
        assert(!p1.contains("subagent.parallel_mode"@));
        lemma_clean_upd(r2, p1, pm, "subagent.parallel_mode"@);
        let r3 = upd(r2, pm, "subagent.parallel_mode"@);
        let p2 = p1.insert("subagent.parallel_mode"@);
        if pa && !pm {
            assert(!r2.0.contains("subagent.parallel_mode"@));
        }
        lemma_clean_fail(r3, p2, pa && !pm, "subagent.parallel_mode"@, "Invalid parallel_mode. Must be 'auto', 'sequential', or 'manual'"@);
        let r4 = fail(r3, pa && !pm, "subagent.parallel_mode"@, "Invalid parallel_mode. Must be 'auto', 'sequential', or 'manual'"@);
        lemma_clean_mono(r4, p2.insert("subagent.parallel_mode"@), p.union(subagent_paths()));
    } else {
        lemma_clean_fail(rv, p, u.execution_mode is Some, "subagent.execution_mode"@, "Sub-Agent configuration not initialized"@);
        let r1 = fail(rv, u.execution_mode is Some, "subagent.execution_mode"@, "Sub-Agent configuration not initialized"@);
        lemma_clean_fail(r1, p.insert("subagent.execution_mode"@), u.parallel_mode is Some, "subagent.parallel_mode"@, "Sub-Agent configuration not initialized"@);
        let r2 = fail(r1, u.parallel_mode is Some, "subagent.parallel_mode"@, "Sub-Agent configuration not initialized"@);
        lemma_clean_mono(r2, p.insert("subagent.execution_mode"@).insert("subagent.parallel_mode"@), p.union(subagent_paths()));
    }
}

proof fn lemma_clean_lantai(rv: UpdateView, p: Set<Seq<char>>, l: Option<MossLantaiConfig>, u: LantaiAutoMemoryConfigUpdate, v: Seq<Seq<char>>)
    requires
        record_clean(rv, p),
        forall|x: Seq<char>| #[trigger] lantai_paths().contains(x) ==> !p.contains(x),
    ensures
        record_clean(spec_lantai_record(rv, l, u, v), p.union(lantai_paths())),
{
    lemma_update_paths_distinct();
    assert(lantai_paths().contains("lantai_auto_memory.auto_summary"@));
    assert(lantai_paths().contains("lantai_auto_memory.checkpoint_token_ratio"@));
    assert(lantai_paths().contains("lantai_auto_memory.embedding_model"@));
    assert(lantai_paths().contains("lantai_auto_memory.embedding_dimensions"@));
    assert(lantai_paths().contains("lantai_auto_memory.embedding_batch_size"@));
    assert(lantai_paths().contains("lantai_auto_memory"@));
    if l is Some {
        lemma_clean_upd(rv, p, applies(u.auto_summary, v, "lantai_auto_memory.auto_summary"@), "lantai_auto_memory.auto_summary"@);
        let q0 = upd(rv, applies(u.auto_summary, v, "lantai_auto_memory.auto_summary"@), "lantai_auto_memory.auto_summary"@);
        lemma_clean_upd(q0, p.insert("lantai_auto_memory.auto_summary"@), applies(u.checkpoint_token_ratio_bits, v, "lantai_auto_memory.checkpoint_token_ratio"@), "lantai_auto_memory.checkpoint_token_ratio"@);
        let q1 = upd(q0, applies(u.checkpoint_token_ratio_bits, v, "lantai_auto_memory.checkpoint_token_ratio"@), "lantai_auto_memory.checkpoint_token_ratio"@);
        lemma_clean_upd(q1, p.insert("lantai_auto_memory.auto_summary"@).insert("lantai_auto_memory.checkpoint_token_ratio"@), applies(u.embedding_model, v, "lantai_auto_memory.embedding_model"@), "lantai_auto_memory.embedding_model"@);
        let q2 = upd(q1, applies(u.embedding_model, v, "lantai_auto_memory.embedding_model"@), "lantai_auto_memory.embedding_model"@);
        lemma_clean_upd(q2, p.insert("lantai_auto_memory.auto_summary"@).insert("lantai_auto_memory.checkpoint_token_ratio"@).insert("lantai_auto_memory.embedding_model"@), applies(u.embedding_dimensions, v, "lantai_auto_memory.embedding_dimensions"@), "lantai_auto_memory.embedding_dimensions"@);
        let q3 = upd(q2, applies(u.embedding_dimensions, v, "lantai_auto_memory.embedding_dimensions"@), "lantai_auto_memory.embedding_dimensions"@);
        lemma_clean_upd(q3, p.insert("lantai_auto_memory.auto_summary"@).insert("lantai_auto_memory.checkpoint_token_ratio"@).insert("lantai_auto_memory.embedding_model"@).insert("lantai_auto_memory.embedding_dimensions"@), applies(u.embedding_batch_size, v, "lantai_auto_memory.embedding_batch_size"@), "lantai_auto_memory.embedding_batch_size"@);
        let q4 = upd(q3, applies(u.embedding_batch_size, v, "lantai_auto_memory.embedding_batch_size"@), "lantai_auto_memory.embedding_batch_size"@);
        lemma_clean_mono(q4, p.insert("lantai_auto_memory.auto_summary"@).insert("lantai_auto_memory.checkpoint_token_ratio"@).insert("lantai_auto_memory.embedding_model"@).insert("lantai_auto_memory.embedding_dimensions"@).insert("lantai_auto_memory.embedding_batch_size"@), p.union(lantai_paths()));
    } else {
        lemma_clean_fail(rv, p, lantai_any(u), "lantai_auto_memory"@, "Lantai configuration not initialized"@);
        lemma_clean_mono(fail(rv, lantai_any(u), "lantai_auto_memory"@, "Lantai configuration not initialized"@), p.insert("lantai_auto_memory"@), p.union(lantai_paths()));
    }
}

proof fn lemma_clean_embedding(rv: UpdateView, p: Set<Seq<char>>, e: Option<EmbeddingConfig>, u: EmbeddingConfigUpdate, v: Seq<Seq<char>>)
    requires
        record_clean(rv, p),
        forall|x: Seq<char>| #[trigger] embedding_paths().contains(x) ==> !p.contains(x),
    ensures
        record_clean(spec_embedding_record(rv, e, u, v), p.union(embedding_paths())),
{
    lemma_update_paths_distinct();
    assert(embedding_paths().contains("embedding.url"@));
    assert(embedding_paths().contains("embedding.api_key"@));
    match e {
        None => {
            if u.url is None {
                lemma_clean_fail(rv, p, u.api_key is Some, "embedding.api_key"@, "Embedding configuration not initialized, provide URL first"@);
                lemma_clean_mono(fail(rv, u.api_key is Some, "embedding.api_key"@, "Embedding configuration not initialized, provide URL first"@),
                    p.insert("embedding.api_key"@), p.union(embedding_paths()));
            } else {
                lemma_clean_upd(rv, p, true, "embedding.url"@);
                let r1 = upd(rv, true, "embedding.url"@);
                assert(r1 == spec_add_updated(rv, "embedding.url"@));
                lemma_clean_upd(r1, p.insert("embedding.url"@), applies(u.api_key, v, "embedding.api_key"@), "embedding.api_key"@);
                lemma_clean_mono(upd(r1, applies(u.api_key, v, "embedding.api_key"@), "embedding.api_key"@),
                    p.insert("embedding.url"@).insert("embedding.api_key"@), p.union(embedding_paths()));
            }
        },
        Some(_) => {
            let c1 = applies(u.url, v, "embedding.url"@) && !rv.0.contains("embedding.url"@);
            lemma_clean_upd(rv, p, c1, "embedding.url"@);
            let r1 = upd(rv, c1, "embedding.url"@);
            lemma_clean_upd(r1, p.insert("embedding.url"@), applies(u.api_key, v, "embedding.api_key"@), "embedding.api_key"@);
            lemma_clean_mono(upd(r1, applies(u.api_key, v, "embedding.api_key"@), "embedding.api_key"@),
                p.insert("embedding.url"@).insert("embedding.api_key"@), p.union(embedding_paths()));
        },
    }
}

/// An update reports each updated field once, and never both as updated
/// and as failed.
#[verifier::spinoff_prover]
pub proof fn law_update_fields_reported_once(c: Config, req: ConfigUpdateRequest, v: Seq<Seq<char>>)
    ensures
        spec_apply_record(c, req, v).0.no_duplicates(),
        forall|i: int| 0 <= i < spec_apply_record(c, req, v).0.len()
            ==> !spec_apply_record(c, req, v).2.contains_key(#[trigger] spec_apply_record(c, req, v).0[i]),
{
    lemma_update_paths_distinct();
    let r0: UpdateView = (Seq::empty(), Seq::empty(), Map::empty());
    let p0 = Set::<Seq<char>>::empty();
    assert(record_clean(r0, p0));
    let p1 = p0.union(server_paths());
    assert forall|x: Seq<char>| #[trigger] server_paths().contains(x) implies !p0.contains(x) by {}
    if let Some(u) = req.server {
        lemma_clean_server(r0, p0, u, v);
    } else {
        lemma_clean_mono(r0, p0, p1);
    }
    let r1 = match req.server { Some(u) => spec_server_record(r0, u, v), None => r0 };
    assert(record_clean(r1, p1));
    let p2 = p1.union(chat_paths());
    assert forall|x: Seq<char>| #[trigger] chat_paths().contains(x) implies !p1.contains(x) by {}
    if let Some(u) = req.chat {
        lemma_clean_chat(r1, p1, c.chat, u, v);
    } else {
        lemma_clean_mono(r1, p1, p2);
    }
    let r2 = match req.chat { Some(u) => spec_chat_record(r1, c.chat, u, v), None => r1 };
    assert(record_clean(r2, p2));
    let p3 = p2.union(embedding_paths());
    assert forall|x: Seq<char>| #[trigger] embedding_paths().contains(x) implies !p2.contains(x) by {}
    if let Some(u) = req.embedding {
        lemma_clean_embedding(r2, p2, c.embedding, u, v);
    } else {
        lemma_clean_mono(r2, p2, p3);
    }
    let r3 = match req.embedding { Some(u) => spec_embedding_record(r2, c.embedding, u, v), None => r2 };
    assert(record_clean(r3, p3));
    let p4 = p3.union(memory_paths());
    assert forall|x: Seq<char>| #[trigger] memory_paths().contains(x) implies !p3.contains(x) by {}
    if let Some(u) = req.memory {
        lemma_clean_memory(r3, p3, c.memory, u, v);
    } else {
        lemma_clean_mono(r3, p3, p4);
    }
    let r4 = match req.memory { Some(u) => spec_memory_record(r3, c.memory, u, v), None => r3 };
    assert(record_clean(r4, p4));
    let p5 = p4.union(rag_paths());
    assert forall|x: Seq<char>| #[trigger] rag_paths().contains(x) implies !p4.contains(x) by {}
    if let Some(u) = req.rag {
        lemma_clean_rag(r4, p4, c.rag, u, v);
    } else {
        lemma_clean_mono(r4, p4, p5);
    }
    let r5 = match req.rag { Some(u) => spec_rag_record(r4, c.rag, u, v), None => r4 };
    assert(record_clean(r5, p5));
    let p6 = p5.union(subagent_paths());
    assert forall|x: Seq<char>| #[trigger] subagent_paths().contains(x) implies !p5.contains(x) by {}
    if let Some(u) = req.subagent {
        lemma_clean_subagent(r5, p5, c.subagent, u, v);
    } else {
        lemma_clean_mono(r5, p5, p6);
    }
    let r6 = match req.subagent { Some(u) => spec_subagent_record(r5, c.subagent, u, v), None => r5 };
    assert(record_clean(r6, p6));
    let p7 = p6.union(lantai_paths());
    assert forall|x: Seq<char>| #[trigger] lantai_paths().contains(x) implies !p6.contains(x) by {}
    if let Some(u) = req.lantai_auto_memory {
        lemma_clean_lantai(r6, p6, c.lantai, u, v);
    } else {
        lemma_clean_mono(r6, p6, p7);
    }
    let r7 = match req.lantai_auto_memory { Some(u) => spec_lantai_record(r6, c.lantai, u, v), None => r6 };
    assert(record_clean(r7, p7));
}


/// A path that differs from each field the update API accepts is not among
/// them.
proof fn lemma_not_api_updatable(r: Seq<char>)
    requires
        r != "server.max_tools_per_iteration"@,
        r != "server.tool_call_max_retries"@,
        r != "server.tool_call_retry_delay_ms"@,
        r != "server.max_plan_subtasks"@,
        r != "server.plan_timeout_secs"@,
        r != "server.subtask_max_retries"@,
        r != "server.subtask_react_max_iterations"@,
        r != "server.subtask_react_timeout_secs"@,
        r != "embedding.url"@,
        r != "embedding.api_key"@,
        r != "memory.auto_summarize"@,
        r != "memory.summarization_strategy"@,
        r != "memory.summarize_threshold"@,
        r != "memory.max_stored_messages"@,
        r != "rag.enable"@,
        r != "subagent.execution_mode"@,
        r != "hitl.enabled"@,
        r != "hitl.default_timeout_secs"@,
        r != "hitl.default_timeout_behavior"@,
        r != "hitl.confirmation_threshold"@,
        r != "chat.url"@,
        r != "chat.api_key"@,
    ensures
        !spec_api_updatable_fields().contains(r),
{
    let u = spec_api_updatable_fields();
    let listed: Seq<Seq<char>> = seq!["server.max_tools_per_iteration"@, "server.tool_call_max_retries"@, "server.tool_call_retry_delay_ms"@, "server.max_plan_subtasks"@, "server.plan_timeout_secs"@, "server.subtask_max_retries"@, "server.subtask_react_max_iterations"@, "server.subtask_react_timeout_secs"@, "embedding.url"@, "embedding.api_key"@, "memory.auto_summarize"@, "memory.summarization_strategy"@, "memory.summarize_threshold"@, "memory.max_stored_messages"@, "rag.enable"@, "subagent.execution_mode"@, "hitl.enabled"@, "hitl.default_timeout_secs"@, "hitl.default_timeout_behavior"@, "hitl.confirmation_threshold"@, "chat.url"@, "chat.api_key"@];
    assert(u =~= listed);
    assert forall|j: int| 0 <= j < listed.len() implies listed[j] != r by {
        if j == 0 {
        } else if j == 1 {
        } else if j == 2 {
        } else if j == 3 {
        } else if j == 4 {
        } else if j == 5 {
        } else if j == 6 {
        } else if j == 7 {
        } else if j == 8 {
        } else if j == 9 {
        } else if j == 10 {
        } else if j == 11 {
        } else if j == 12 {
        } else if j == 13 {
        } else if j == 14 {
        } else if j == 15 {
        } else if j == 16 {
        } else if j == 17 {
        } else if j == 18 {
        } else if j == 19 {
        } else if j == 20 {
        } else if j == 21 {
        }
    }
}

/// No field that the schema lists as read-only at runtime is accepted by
/// the update API.
#[verifier::spinoff_prover]
pub proof fn law_readonly_fields_not_updatable(i: int)
    requires
        0 <= i < spec_readonly_fields().len(),
    ensures
        !spec_api_updatable_fields().contains(spec_readonly_fields()[i]),
{
    reveal_strlit("artifacts.database_path");
    reveal_strlit("artifacts.enabled");
    reveal_strlit("artifacts.storage_path");
    reveal_strlit("chat.api_key");
    reveal_strlit("chat.url");
    reveal_strlit("embedding.api_key");
    reveal_strlit("embedding.url");
    reveal_strlit("hitl.confirmation_threshold");
    reveal_strlit("hitl.default_timeout_behavior");
    reveal_strlit("hitl.default_timeout_secs");
    reveal_strlit("hitl.enabled");
    reveal_strlit("mcp.*");
    reveal_strlit("memory.auto_summarize");
    reveal_strlit("memory.context_window");
    reveal_strlit("memory.database_path");
    reveal_strlit("memory.enable");
    reveal_strlit("memory.max_stored_messages");
    reveal_strlit("memory.summarization_strategy");
    reveal_strlit("memory.summarize_threshold");
    reveal_strlit("memory.summary_service_api_key");
    reveal_strlit("memory.summary_service_base_url");
    reveal_strlit("rag.context_window");
    reveal_strlit("rag.enable");
    reveal_strlit("rag.policy");
    reveal_strlit("server.host");
    reveal_strlit("server.max_plan_subtasks");
    reveal_strlit("server.max_tools_per_iteration");
    reveal_strlit("server.plan_timeout_secs");
    reveal_strlit("server.port");
    reveal_strlit("server.subtask_max_retries");
    reveal_strlit("server.subtask_react_max_iterations");
    reveal_strlit("server.subtask_react_timeout_secs");
    reveal_strlit("server.tool_call_max_retries");
    reveal_strlit("server.tool_call_retry_delay_ms");
    reveal_strlit("skill.directories");
    reveal_strlit("skill.enabled");
    reveal_strlit("subagent.execution_mode");
    assert("server.max_tools_per_iteration"@.len() == 30);
    assert("server.tool_call_max_retries"@.len() == 28);
    assert("server.tool_call_retry_delay_ms"@.len() == 31);
    assert("server.max_plan_subtasks"@.len() == 24);
    assert("server.plan_timeout_secs"@.len() == 24);
    assert("server.subtask_max_retries"@.len() == 26);
    assert("server.subtask_react_max_iterations"@.len() == 35);
    assert("server.subtask_react_timeout_secs"@.len() == 33);
    assert("embedding.url"@.len() == 13);
    assert("embedding.api_key"@.len() == 17);
    assert("memory.auto_summarize"@.len() == 21);
    assert("memory.summarization_strategy"@.len() == 29);
    assert("memory.summarize_threshold"@.len() == 26);
    assert("memory.max_stored_messages"@.len() == 26);
    assert("rag.enable"@.len() == 10);
    assert("subagent.execution_mode"@.len() == 23);
    assert("hitl.enabled"@.len() == 12);
    assert("hitl.default_timeout_secs"@.len() == 25);
    assert("hitl.default_timeout_behavior"@.len() == 29);
    assert("hitl.confirmation_threshold"@.len() == 27);
    assert("chat.url"@.len() == 8);
    assert("chat.api_key"@.len() == 12);
    let r = spec_readonly_fields()[i];
    if i == 0 {
        assert("server.host"@.len() == 11);
        lemma_not_api_updatable("server.host"@);
    } else if i == 1 {
        assert("server.port"@.len() == 11);
        lemma_not_api_updatable("server.port"@);
    } else if i == 2 {
        assert("memory.enable"@[0] != "embedding.url"@[0]);
        assert("memory.enable"@.len() == 13);
        lemma_not_api_updatable("memory.enable"@);
    } else if i == 3 {
        assert("memory.database_path"@.len() == 20);
        lemma_not_api_updatable("memory.database_path"@);
    } else if i == 4 {
        assert("memory.context_window"@[7] != "memory.auto_summarize"@[7]);
        assert("memory.context_window"@.len() == 21);
        lemma_not_api_updatable("memory.context_window"@);
    } else if i == 5 {
        assert("memory.summary_service_base_url"@[0] != "server.tool_call_retry_delay_ms"@[0]);
        assert("memory.summary_service_base_url"@.len() == 31);
        lemma_not_api_updatable("memory.summary_service_base_url"@);
    } else if i == 6 {
        assert("memory.summary_service_api_key"@[0] != "server.max_tools_per_iteration"@[0]);
        assert("memory.summary_service_api_key"@.len() == 30);
        lemma_not_api_updatable("memory.summary_service_api_key"@);
    } else if i == 7 {
        assert("rag.policy"@[4] != "rag.enable"@[4]);
        assert("rag.policy"@.len() == 10);
        lemma_not_api_updatable("rag.policy"@);
    } else if i == 8 {
        assert("rag.context_window"@.len() == 18);
        lemma_not_api_updatable("rag.context_window"@);
    } else if i == 9 {
        assert("artifacts.enabled"@[0] != "embedding.api_key"@[0]);
        assert("artifacts.enabled"@.len() == 17);
        lemma_not_api_updatable("artifacts.enabled"@);
    } else if i == 10 {
        assert("artifacts.database_path"@[0] != "subagent.execution_mode"@[0]);
        assert("artifacts.database_path"@.len() == 23);
        lemma_not_api_updatable("artifacts.database_path"@);
    } else if i == 11 {
        assert("artifacts.storage_path"@.len() == 22);
        lemma_not_api_updatable("artifacts.storage_path"@);
    } else if i == 12 {
        assert("skill.enabled"@[0] != "embedding.url"@[0]);
        assert("skill.enabled"@.len() == 13);
        lemma_not_api_updatable("skill.enabled"@);
    } else if i == 13 {
        assert("skill.directories"@[0] != "embedding.api_key"@[0]);
        assert("skill.directories"@.len() == 17);
        lemma_not_api_updatable("skill.directories"@);
    } else if i == 14 {
        assert("mcp.*"@.len() == 5);
        lemma_not_api_updatable("mcp.*"@);
    }
}


/// The value of the numeric server field that the schema names `f`.
pub open spec fn server_number(s: ServerConfig, f: Seq<char>) -> u64 {
    if f == "max_tools_per_iteration"@ {
        s.max_tools_per_iteration as u64
    } else if f == "tool_call_max_retries"@ {
        s.tool_call_max_retries as u64
    } else if f == "tool_call_retry_delay_ms"@ {
        s.tool_call_retry_delay_ms
    } else if f == "max_plan_subtasks"@ {
        s.max_plan_subtasks as u64
    } else if f == "plan_timeout_secs"@ {
        s.plan_timeout_secs
    } else if f == "subtask_max_retries"@ {
        s.subtask_max_retries as u64
    } else if f == "subtask_react_max_iterations"@ {
        s.subtask_react_max_iterations as u64
    } else {
        s.subtask_react_timeout_secs
    }
}

/// The defaults that the schema publishes are those of the default
/// configuration: for each numeric server field, the value in the default
/// server section; for the memory section's summarization fields, the values
/// in the default memory section.
#[verifier::spinoff_prover]
pub proof fn law_schema_defaults_match_config_defaults(s: ServerConfig, m: MemoryConfig, f: Seq<char>)
    requires
        default_server_limits(s),
        default_summarization(m),
    ensures
        spec_server_schema().contains_key(f) ==> spec_server_schema()[f].3 == Some(ValueView::UInt(server_number(s, f))),
        spec_memory_schema()["auto_summarize"@].3 == Some(ValueView::Bool(m.auto_summarize)),
        spec_memory_schema()["summarization_strategy"@].3 == Some(ValueView::Str(m.summarization_strategy.spec_name())),
        spec_memory_schema()["summarize_threshold"@].3 == Some(ValueView::UInt(m.summarize_threshold as u64)),
        spec_memory_schema()["max_stored_messages"@].3 == Some(ValueView::UInt(m.max_stored_messages as u64)),
{
    reveal_strlit("max_tools_per_iteration");
    reveal_strlit("tool_call_max_retries");
    reveal_strlit("tool_call_retry_delay_ms");
    reveal_strlit("max_plan_subtasks");
    reveal_strlit("plan_timeout_secs");
    reveal_strlit("subtask_max_retries");
    reveal_strlit("subtask_react_max_iterations");
    reveal_strlit("subtask_react_timeout_secs");
    reveal_strlit("auto_summarize");
    reveal_strlit("summarization_strategy");
    reveal_strlit("summarize_threshold");
    reveal_strlit("max_stored_messages");
    assert("max_tools_per_iteration"@.len() == 23);
    assert("tool_call_max_retries"@.len() == 21);
    assert("tool_call_retry_delay_ms"@.len() == 24);
    assert("max_plan_subtasks"@.len() == 17);
    assert("plan_timeout_secs"@.len() == 17);
    assert("subtask_max_retries"@.len() == 19);
    assert("subtask_react_max_iterations"@.len() == 28);
    assert("subtask_react_timeout_secs"@.len() == 26);
    assert("auto_summarize"@.len() == 14);
    assert("summarization_strategy"@.len() == 22);
    assert("summarize_threshold"@.len() == 19);
    assert("max_stored_messages"@.len() == 19);
    assert("max_plan_subtasks"@[0] != "plan_timeout_secs"@[0]);
    assert("summarize_threshold"@[0] != "max_stored_messages"@[0]);
}


/// The command that runs a script in a container is the interpreter of the
/// script's kind, then the script's path, then its arguments: `python` for
/// `py`, `sh` for `sh` and `bash`, `ruby` for `rb`, `node` for `js`, and `sh`
/// for any other extension.
pub proof fn law_container_command_interpreter(ext: Seq<char>, path: Seq<char>, args: Seq<Seq<char>>)
    ensures
        spec_build_command(ext, path, args).len() == args.len() + 2,
        spec_build_command(ext, path, args)[1] == path,
        spec_build_command(ext, path, args).subrange(2, args.len() as int + 2) == args,
        ext == "py"@ ==> spec_build_command(ext, path, args)[0] == "python"@,
        ext == "sh"@ ==> spec_build_command(ext, path, args)[0] == "sh"@,
        ext == "bash"@ ==> spec_build_command(ext, path, args)[0] == "sh"@,
        ext == "rb"@ ==> spec_build_command(ext, path, args)[0] == "ruby"@,
        ext == "js"@ ==> spec_build_command(ext, path, args)[0] == "node"@,
        (ext != "py"@ && ext != "rb"@ && ext != "js"@) ==> spec_build_command(ext, path, args)[0] == "sh"@,
{
    reveal_strlit("py");
    reveal_strlit("sh");
    reveal_strlit("bash");
    reveal_strlit("rb");
    reveal_strlit("js");
    assert("py"@[0] != "rb"@[0] && "py"@[0] != "js"@[0] && "rb"@[0] != "js"@[0]);
    assert("sh"@[0] != "py"@[0] && "sh"@[0] != "rb"@[0] && "sh"@[0] != "js"@[0]);
    assert("bash"@.len() != "py"@.len());
    let r = spec_build_command(ext, path, args);
    assert(r.subrange(2, args.len() as int + 2) =~= args);
}

/// The shown chat and embedding sections tell whether an API key is in
/// effect: exactly when the section has a non-empty key or the environment
/// supplies one. The URL (and the chat model) are shown as configured.
pub proof fn law_sanitized_key_flags(c: ChatConfig, e: EmbeddingConfig, env: ApiKeyEnvironment)
    ensures
        spec_sanitized_chat(c, env).api_key_configured == (c.api_key@.len() > 0 || env.chat is Some),
        spec_sanitized_chat(c, env).url == c.url,
        spec_sanitized_chat(c, env).model == c.model,
        spec_sanitized_embedding(e, env).api_key_configured == (e.api_key@.len() > 0 || env.embedding is Some),
        spec_sanitized_embedding(e, env).url == e.url,
{
}

/// Appending `when(c, x)` adds one to the length when `c` holds, and adds
/// `x` to what the sequence holds exactly then.
proof fn lemma_when_appended(a: Seq<ChangeView>, c: bool, x: ChangeView)
    ensures
        (a + crate::config_api::diff::when(c, x)).len() == a.len() + (if c { 1nat } else { 0nat }),
        forall|y: ChangeView| #[trigger] (a + crate::config_api::diff::when(c, x)).contains(y) <==> (a.contains(y) || (c && y == x)),
{
    if c {
        assert forall|y: ChangeView| #[trigger] (a + crate::config_api::diff::when(c, x)).contains(y) <==> (a.contains(y) || (c && y == x)) by {
            if a.contains(y) {
                let i = choose|i: int| 0 <= i < a.len() && a[i] == y;
                assert((a + crate::config_api::diff::when(c, x))[i] == y);
            }
            if y == x {
                assert((a + crate::config_api::diff::when(c, x))[a.len() as int] == y);
            }
            if (a + crate::config_api::diff::when(c, x)).contains(y) {
                let i = choose|i: int| 0 <= i < (a + crate::config_api::diff::when(c, x)).len() && (a + crate::config_api::diff::when(c, x))[i] == y;
                if i < a.len() {
                    assert(a[i] == y);
                }
            }
        }
    } else {
        assert(a + crate::config_api::diff::when(c, x) =~= a);
    }
}

/// The number of memory fields that the diff compares and in which two
/// sections differ.
pub open spec fn memory_fields_differing(o: MemoryConfig, n: MemoryConfig) -> nat {
    (if o.enable != n.enable { 1nat } else { 0nat }) + (if o.database_path@ != n.database_path@ { 1nat } else { 0nat }) + (if o.auto_summarize != n.auto_summarize { 1nat } else { 0nat }) + (if o.summarization_strategy != n.summarization_strategy { 1nat } else { 0nat }) + (if o.summarize_threshold != n.summarize_threshold { 1nat } else { 0nat }) + (if o.max_stored_messages != n.max_stored_messages { 1nat } else { 0nat })
}

/// Comparing two memory sections finds one change per field in which they
/// differ, and no other: each differing field gives a change that names it
/// and carries its old and new values (and whether it applies without a
/// restart); a field that is the same gives none.
#[verifier::spinoff_prover]
pub proof fn law_memory_diff_one_change_per_field(o: MemoryConfig, n: MemoryConfig)
    ensures
        spec_memory_diff(o, n).len() == memory_fields_differing(o, n),
        spec_memory_diff(o, n).contains(("memory.enable"@, ValueView::Bool(o.enable), ValueView::Bool(n.enable), false)) <==> (o.enable != n.enable),
        spec_memory_diff(o, n).contains(("memory.database_path"@, ValueView::Str(o.database_path@), ValueView::Str(n.database_path@), false)) <==> (o.database_path@ != n.database_path@),
        spec_memory_diff(o, n).contains(("memory.auto_summarize"@, ValueView::Bool(o.auto_summarize), ValueView::Bool(n.auto_summarize), true)) <==> (o.auto_summarize != n.auto_summarize),
        spec_memory_diff(o, n).contains(("memory.summarization_strategy"@, ValueView::Str(o.summarization_strategy.spec_name()), ValueView::Str(n.summarization_strategy.spec_name()), true)) <==> (o.summarization_strategy != n.summarization_strategy),
        spec_memory_diff(o, n).contains(("memory.summarize_threshold"@, ValueView::UInt(o.summarize_threshold as u64), ValueView::UInt(n.summarize_threshold as u64), true)) <==> (o.summarize_threshold != n.summarize_threshold),
        spec_memory_diff(o, n).contains(("memory.max_stored_messages"@, ValueView::UInt(o.max_stored_messages as u64), ValueView::UInt(n.max_stored_messages as u64), true)) <==> (o.max_stored_messages != n.max_stored_messages),
{
    reveal_strlit("memory.enable");
    reveal_strlit("memory.database_path");
    reveal_strlit("memory.auto_summarize");
    reveal_strlit("memory.summarization_strategy");
    reveal_strlit("memory.summarize_threshold");
    reveal_strlit("memory.max_stored_messages");
    assert("memory.enable"@.len() == 13);
    assert("memory.database_path"@.len() == 20);
    assert("memory.auto_summarize"@.len() == 21);
    assert("memory.summarization_strategy"@.len() == 29);
    assert("memory.summarize_threshold"@.len() == 26);
    assert("memory.max_stored_messages"@.len() == 26);
    assert("memory.summarize_threshold"@[7] != "memory.max_stored_messages"@[7]);
    let mut acc: Seq<ChangeView> = Seq::empty();
    lemma_when_appended(acc, o.enable != n.enable, ("memory.enable"@, ValueView::Bool(o.enable), ValueView::Bool(n.enable), false));
    acc = acc + crate::config_api::diff::when(o.enable != n.enable, ("memory.enable"@, ValueView::Bool(o.enable), ValueView::Bool(n.enable), false));
    lemma_when_appended(acc, o.database_path@ != n.database_path@, ("memory.database_path"@, ValueView::Str(o.database_path@), ValueView::Str(n.database_path@), false));
    acc = acc + crate::config_api::diff::when(o.database_path@ != n.database_path@, ("memory.database_path"@, ValueView::Str(o.database_path@), ValueView::Str(n.database_path@), false));
    lemma_when_appended(acc, o.auto_summarize != n.auto_summarize, ("memory.auto_summarize"@, ValueView::Bool(o.auto_summarize), ValueView::Bool(n.auto_summarize), true));
    acc = acc + crate::config_api::diff::when(o.auto_summarize != n.auto_summarize, ("memory.auto_summarize"@, ValueView::Bool(o.auto_summarize), ValueView::Bool(n.auto_summarize), true));
    lemma_when_appended(acc, o.summarization_strategy != n.summarization_strategy, ("memory.summarization_strategy"@, ValueView::Str(o.summarization_strategy.spec_name()), ValueView::Str(n.summarization_strategy.spec_name()), true));
    acc = acc + crate::config_api::diff::when(o.summarization_strategy != n.summarization_strategy, ("memory.summarization_strategy"@, ValueView::Str(o.summarization_strategy.spec_name()), ValueView::Str(n.summarization_strategy.spec_name()), true));
    lemma_when_appended(acc, o.summarize_threshold != n.summarize_threshold, ("memory.summarize_threshold"@, ValueView::UInt(o.summarize_threshold as u64), ValueView::UInt(n.summarize_threshold as u64), true));
    acc = acc + crate::config_api::diff::when(o.summarize_threshold != n.summarize_threshold, ("memory.summarize_threshold"@, ValueView::UInt(o.summarize_threshold as u64), ValueView::UInt(n.summarize_threshold as u64), true));
    lemma_when_appended(acc, o.max_stored_messages != n.max_stored_messages, ("memory.max_stored_messages"@, ValueView::UInt(o.max_stored_messages as u64), ValueView::UInt(n.max_stored_messages as u64), true));
    acc = acc + crate::config_api::diff::when(o.max_stored_messages != n.max_stored_messages, ("memory.max_stored_messages"@, ValueView::UInt(o.max_stored_messages as u64), ValueView::UInt(n.max_stored_messages as u64), true));
    assert(acc =~= spec_memory_diff(o, n));
}

/// The number of RAG fields that the diff compares and in which two
/// sections differ.
pub open spec fn rag_fields_differing(o: RagConfig, n: RagConfig) -> nat {
    (if o.enable != n.enable { 1nat } else { 0nat }) + (if o.policy@ != n.policy@ { 1nat } else { 0nat }) + (if o.context_window != n.context_window { 1nat } else { 0nat })
}

/// Comparing two RAG sections finds one change per field in which they
/// differ, and no other: each differing field gives a change that names it
/// and carries its old and new values (and whether it applies without a
/// restart); a field that is the same gives none.
#[verifier::spinoff_prover]
pub proof fn law_rag_diff_one_change_per_field(o: RagConfig, n: RagConfig)
    ensures
        spec_rag_diff(o, n).len() == rag_fields_differing(o, n),
        spec_rag_diff(o, n).contains(("rag.enable"@, ValueView::Bool(o.enable), ValueView::Bool(n.enable), true)) <==> (o.enable != n.enable),
        spec_rag_diff(o, n).contains(("rag.policy"@, ValueView::Str(o.policy@), ValueView::Str(n.policy@), false)) <==> (o.policy@ != n.policy@),
        spec_rag_diff(o, n).contains(("rag.context_window"@, ValueView::UInt(o.context_window), ValueView::UInt(n.context_window), false)) <==> (o.context_window != n.context_window),
{
    reveal_strlit("rag.enable");
    reveal_strlit("rag.policy");
    reveal_strlit("rag.context_window");
    assert("rag.enable"@.len() == 10);
    assert("rag.policy"@.len() == 10);
    assert("rag.context_window"@.len() == 18);
    assert("rag.enable"@[4] != "rag.policy"@[4]);
    let mut acc: Seq<ChangeView> = Seq::empty();
    lemma_when_appended(acc, o.enable != n.enable, ("rag.enable"@, ValueView::Bool(o.enable), ValueView::Bool(n.enable), true));
    acc = acc + crate::config_api::diff::when(o.enable != n.enable, ("rag.enable"@, ValueView::Bool(o.enable), ValueView::Bool(n.enable), true));
    lemma_when_appended(acc, o.policy@ != n.policy@, ("rag.policy"@, ValueView::Str(o.policy@), ValueView::Str(n.policy@), false));
    acc = acc + crate::config_api::diff::when(o.policy@ != n.policy@, ("rag.policy"@, ValueView::Str(o.policy@), ValueView::Str(n.policy@), false));
    lemma_when_appended(acc, o.context_window != n.context_window, ("rag.context_window"@, ValueView::UInt(o.context_window), ValueView::UInt(n.context_window), false));
    acc = acc + crate::config_api::diff::when(o.context_window != n.context_window, ("rag.context_window"@, ValueView::UInt(o.context_window), ValueView::UInt(n.context_window), false));
    assert(acc =~= spec_rag_diff(o, n));
}


/// The value of the numeric server field at path `f`.
pub open spec fn server_number_at(s: ServerConfig, f: Seq<char>) -> int {
    if f == "server.max_tools_per_iteration"@ {
        s.max_tools_per_iteration as int
    } else if f == "server.tool_call_max_retries"@ {
        s.tool_call_max_retries as int
    } else if f == "server.tool_call_retry_delay_ms"@ {
        s.tool_call_retry_delay_ms as int
    } else if f == "server.max_plan_subtasks"@ {
        s.max_plan_subtasks as int
    } else if f == "server.plan_timeout_secs"@ {
        s.plan_timeout_secs as int
    } else if f == "server.subtask_max_retries"@ {
        s.subtask_max_retries as int
    } else if f == "server.subtask_react_max_iterations"@ {
        s.subtask_react_max_iterations as int
    } else {
        s.subtask_react_timeout_secs as int
    }
}

/// A change that is applied successfully sets the field it names to the
/// change's new value: a server number, the chat or embedding URL, a memory
/// setting or the RAG switch reads, afterwards, exactly the new value.
#[verifier::spinoff_prover]
#[verifier::rlimit(50)]
pub proof fn law_applied_change_sets_its_field(c: Config, ch: ConfigChange)
    ensures
        ({
            let (r, n) = spec_apply_change(c, ch);
            let f = ch.field@;
            let nv = ch.new_value;
            &&& (r.0 && is_server_number_field(f)) ==> (nv matches ConfigValue::UInt(x) && server_number_at(n.server, f) == x)
            &&& (r.0 && f == "chat.url"@) ==> (nv matches ConfigValue::Str(u) && n.chat matches Some(nc) && nc.url == u)
            &&& (r.0 && f == "embedding.url"@) ==> (nv matches ConfigValue::Str(u) && n.embedding matches Some(ne) && ne.url == u)
            &&& (r.0 && f == "memory.auto_summarize"@) ==> (n.memory matches Some(nm) && nv == ConfigValue::Bool(nm.auto_summarize))
            &&& (r.0 && f == "memory.summarization_strategy"@) ==> (nv matches ConfigValue::Str(s) && n.memory matches Some(nm)
                && nm.summarization_strategy.spec_name() == s@)
            &&& (r.0 && f == "memory.summarize_threshold"@) ==> (nv matches ConfigValue::UInt(x) && n.memory matches Some(nm)
                && nm.summarize_threshold == x)
            &&& (r.0 && f == "memory.max_stored_messages"@) ==> (nv matches ConfigValue::UInt(x) && n.memory matches Some(nm)
                && nm.max_stored_messages == x)
            &&& (r.0 && f == "rag.enable"@) ==> (n.rag matches Some(nr) && nv == ConfigValue::Bool(nr.enable))
        }),
{
    lemma_update_paths_distinct();
    reveal_strlit("Incremental");
    reveal_strlit("FullHistory");
    reveal_strlit("server.max_tools_per_iteration");
    reveal_strlit("server.tool_call_max_retries");
    reveal_strlit("server.tool_call_retry_delay_ms");
    reveal_strlit("server.max_plan_subtasks");
    reveal_strlit("server.plan_timeout_secs");
    reveal_strlit("server.subtask_max_retries");
    reveal_strlit("server.subtask_react_max_iterations");
    reveal_strlit("server.subtask_react_timeout_secs");
    let (r, n) = spec_apply_change(c, ch);
    let f = ch.field@;
    if r.0 && is_server_number_field(f) {
        match ch.new_value {
            ConfigValue::UInt(x) => {
                assert(n.server == server_set(c.server, f, x));
            },
            _ => {},
        }
    }
}


proof fn lemma_upd_back(rv: UpdateView, c: bool, f: Seq<char>, x: Seq<char>)
    ensures
        upd(rv, c, f).0.contains(x) ==> (rv.0.contains(x) || (c && x == f)),
{
    if c && upd(rv, c, f).0.contains(x) {
        let i = choose|i: int| 0 <= i < upd(rv, c, f).0.len() && upd(rv, c, f).0[i] == x;
        if i < rv.0.len() {
            assert(rv.0[i] == x);
        }
    }
}

proof fn lemma_server_reports_back(rv: UpdateView, u: ServerConfigUpdate, v: Seq<Seq<char>>, x: Seq<char>)
    ensures
        spec_server_record(rv, u, v).0.contains(x) ==> (rv.0.contains(x) || server_reports(u, v, x)),
{
    if true {
        lemma_upd_back(rv, applies(u.max_tools_per_iteration, v, "server.max_tools_per_iteration"@), "server.max_tools_per_iteration"@, x);
        let s0 = upd(rv, applies(u.max_tools_per_iteration, v, "server.max_tools_per_iteration"@), "server.max_tools_per_iteration"@);
        lemma_upd_back(s0, applies(u.tool_call_max_retries, v, "server.tool_call_max_retries"@), "server.tool_call_max_retries"@, x);
        let s1 = upd(s0, applies(u.tool_call_max_retries, v, "server.tool_call_max_retries"@), "server.tool_call_max_retries"@);
        lemma_upd_back(s1, applies(u.tool_call_retry_delay_ms, v, "server.tool_call_retry_delay_ms"@), "server.tool_call_retry_delay_ms"@, x);
        let s2 = upd(s1, applies(u.tool_call_retry_delay_ms, v, "server.tool_call_retry_delay_ms"@), "server.tool_call_retry_delay_ms"@);
        lemma_upd_back(s2, applies(u.max_plan_subtasks, v, "server.max_plan_subtasks"@), "server.max_plan_subtasks"@, x);
        let s3 = upd(s2, applies(u.max_plan_subtasks, v, "server.max_plan_subtasks"@), "server.max_plan_subtasks"@);
        lemma_upd_back(s3, applies(u.plan_timeout_secs, v, "server.plan_timeout_secs"@), "server.plan_timeout_secs"@, x);
        let s4 = upd(s3, applies(u.plan_timeout_secs, v, "server.plan_timeout_secs"@), "server.plan_timeout_secs"@);
        lemma_upd_back(s4, applies(u.subtask_max_retries, v, "server.subtask_max_retries"@), "server.subtask_max_retries"@, x);
        let s5 = upd(s4, applies(u.subtask_max_retries, v, "server.subtask_max_retries"@), "server.subtask_max_retries"@);
        lemma_upd_back(s5, applies(u.subtask_react_max_iterations, v, "server.subtask_react_max_iterations"@), "server.subtask_react_max_iterations"@, x);
        let s6 = upd(s5, applies(u.subtask_react_max_iterations, v, "server.subtask_react_max_iterations"@), "server.subtask_react_max_iterations"@);
        lemma_upd_back(s6, applies(u.subtask_react_timeout_secs, v, "server.subtask_react_timeout_secs"@), "server.subtask_react_timeout_secs"@, x);
        let s7 = upd(s6, applies(u.subtask_react_timeout_secs, v, "server.subtask_react_timeout_secs"@), "server.subtask_react_timeout_secs"@);
    }
}

proof fn lemma_chat_reports_back(rv: UpdateView, c: Option<ChatConfig>, u: ChatConfigUpdate, v: Seq<Seq<char>>, x: Seq<char>)
    ensures
        spec_chat_record(rv, c, u, v).0.contains(x) ==> (rv.0.contains(x) || chat_reports(c, u, v, x)),
{
    if c is Some {
        lemma_upd_back(rv, applies(u.url, v, "chat.url"@), "chat.url"@, x);
        let s0 = upd(rv, applies(u.url, v, "chat.url"@), "chat.url"@);
        lemma_upd_back(s0, applies(u.api_key, v, "chat.api_key"@), "chat.api_key"@, x);
        let s1 = upd(s0, applies(u.api_key, v, "chat.api_key"@), "chat.api_key"@);
        lemma_upd_back(s1, applies(u.model, v, "chat.model"@), "chat.model"@, x);
        let s2 = upd(s1, applies(u.model, v, "chat.model"@), "chat.model"@);
        lemma_upd_back(s2, applies(u.model_context_size, v, "chat.model_context_size"@), "chat.model_context_size"@, x);
        let s3 = upd(s2, applies(u.model_context_size, v, "chat.model_context_size"@), "chat.model_context_size"@);
    }
}

proof fn lemma_memory_reports_back(rv: UpdateView, m: Option<MemoryConfig>, u: MemoryConfigUpdate, v: Seq<Seq<char>>, x: Seq<char>)
    ensures
        spec_memory_record(rv, m, u, v).0.contains(x) ==> (rv.0.contains(x) || memory_reports(m, u, v, x)),
{
    if m is Some {
        lemma_upd_back(rv, applies(u.auto_summarize, v, "memory.auto_summarize"@), "memory.auto_summarize"@, x);
        let s0 = upd(rv, applies(u.auto_summarize, v, "memory.auto_summarize"@), "memory.auto_summarize"@);
        lemma_upd_back(s0, applies(u.summarization_strategy, v, "memory.summarization_strategy"@), "memory.summarization_strategy"@, x);
        let s1 = upd(s0, applies(u.summarization_strategy, v, "memory.summarization_strategy"@), "memory.summarization_strategy"@);
        lemma_upd_back(s1, applies(u.summarize_threshold, v, "memory.summarize_threshold"@), "memory.summarize_threshold"@, x);
        let s2 = upd(s1, applies(u.summarize_threshold, v, "memory.summarize_threshold"@), "memory.summarize_threshold"@);
        lemma_upd_back(s2, applies(u.max_stored_messages, v, "memory.max_stored_messages"@), "memory.max_stored_messages"@, x);
        let s3 = upd(s2, applies(u.max_stored_messages, v, "memory.max_stored_messages"@), "memory.max_stored_messages"@);
    }
}

proof fn lemma_rag_reports_back(rv: UpdateView, r: Option<RagConfig>, u: RagConfigUpdate, v: Seq<Seq<char>>, x: Seq<char>)
    ensures
        spec_rag_record(rv, r, u, v).0.contains(x) ==> (rv.0.contains(x) || rag_reports(r, u, v, x)),
{
    if r is Some {
        lemma_upd_back(rv, applies(u.enable, v, "rag.enable"@), "rag.enable"@, x);
        let s0 = upd(rv, applies(u.enable, v, "rag.enable"@), "rag.enable"@);
    }
}

proof fn lemma_lantai_reports_back(rv: UpdateView, l: Option<MossLantaiConfig>, u: LantaiAutoMemoryConfigUpdate, v: Seq<Seq<char>>, x: Seq<char>)
    ensures
        spec_lantai_record(rv, l, u, v).0.contains(x) ==> (rv.0.contains(x) || lantai_reports(l, u, v, x)),
{
    if l is Some {
        lemma_upd_back(rv, applies(u.auto_summary, v, "lantai_auto_memory.auto_summary"@), "lantai_auto_memory.auto_summary"@, x);
        let s0 = upd(rv, applies(u.auto_summary, v, "lantai_auto_memory.auto_summary"@), "lantai_auto_memory.auto_summary"@);
        lemma_upd_back(s0, applies(u.checkpoint_token_ratio_bits, v, "lantai_auto_memory.checkpoint_token_ratio"@), "lantai_auto_memory.checkpoint_token_ratio"@, x);
        let s1 = upd(s0, applies(u.checkpoint_token_ratio_bits, v, "lantai_auto_memory.checkpoint_token_ratio"@), "lantai_auto_memory.checkpoint_token_ratio"@);
        lemma_upd_back(s1, applies(u.embedding_model, v, "lantai_auto_memory.embedding_model"@), "lantai_auto_memory.embedding_model"@, x);
        let s2 = upd(s1, applies(u.embedding_model, v, "lantai_auto_memory.embedding_model"@), "lantai_auto_memory.embedding_model"@);
        lemma_upd_back(s2, applies(u.embedding_dimensions, v, "lantai_auto_memory.embedding_dimensions"@), "lantai_auto_memory.embedding_dimensions"@, x);
        let s3 = upd(s2, applies(u.embedding_dimensions, v, "lantai_auto_memory.embedding_dimensions"@), "lantai_auto_memory.embedding_dimensions"@);
        lemma_upd_back(s3, applies(u.embedding_batch_size, v, "lantai_auto_memory.embedding_batch_size"@), "lantai_auto_memory.embedding_batch_size"@, x);
        let s4 = upd(s3, applies(u.embedding_batch_size, v, "lantai_auto_memory.embedding_batch_size"@), "lantai_auto_memory.embedding_batch_size"@);
    }
}

proof fn lemma_subagent_reports_back(rv: UpdateView, s: Option<SubAgentSystemConfig>, u: SubagentConfigUpdate, v: Seq<Seq<char>>, x: Seq<char>)
    ensures
        spec_subagent_record(rv, s, u, v).0.contains(x) ==> (rv.0.contains(x) || subagent_reports(s, u, v, x)),
{
    if s is Some {
        let ea = applies(u.execution_mode, v, "subagent.execution_mode"@);
        let em = ea && valid_execution_mode(u.execution_mode.unwrap()@);
        lemma_upd_back(rv, em, "subagent.execution_mode"@, x);
        let r1 = upd(rv, em, "subagent.execution_mode"@);
        let r2 = fail(r1, ea && !em, "subagent.execution_mode"@, "Invalid execution_mode. Must be 'direct' or 'subagent'"@);
        let pa = applies(u.parallel_mode, v, "subagent.parallel_mode"@);
        let pm = pa && valid_parallel_mode(u.parallel_mode.unwrap()@);
        lemma_upd_back(r2, pm, "subagent.parallel_mode"@, x);
    }
}

proof fn lemma_embedding_reports_back(rv: UpdateView, e: Option<EmbeddingConfig>, u: EmbeddingConfigUpdate, v: Seq<Seq<char>>, x: Seq<char>)
    ensures
        spec_embedding_record(rv, e, u, v).0.contains(x) ==> (rv.0.contains(x) || embedding_reports(e, u, v, x)),
{
    match e {
        None => {
            if u.url is Some {
                lemma_upd_back(rv, true, "embedding.url"@, x);
                let r1 = spec_add_updated(rv, "embedding.url"@);
                assert(upd(rv, true, "embedding.url"@).0 == r1.0);
                lemma_upd_back(r1, applies(u.api_key, v, "embedding.api_key"@), "embedding.api_key"@, x);
            }
        },
        Some(_) => {
            let c1 = applies(u.url, v, "embedding.url"@) && !rv.0.contains("embedding.url"@);
            lemma_upd_back(rv, c1, "embedding.url"@, x);
            let r1 = upd(rv, c1, "embedding.url"@);
            lemma_upd_back(r1, applies(u.api_key, v, "embedding.api_key"@), "embedding.api_key"@, x);
        },
    }
}

/// A path among the updated fields of a request was set by some section of
/// the request.
proof fn lemma_request_reports_back(c: Config, req: ConfigUpdateRequest, v: Seq<Seq<char>>, x: Seq<char>)
    ensures
        spec_apply_record(c, req, v).0.contains(x) ==> request_reports(c, req, v, x),
        spec_updated_before_embedding(c, req, v).contains(x) ==> (
            (req.server matches Some(u) && server_reports(u, v, x)) || (req.chat matches Some(u) && chat_reports(c.chat, u, v, x))),
{
    let r0: UpdateView = (Seq::empty(), Seq::empty(), Map::empty());
    assert(!r0.0.contains(x));
    if let Some(u) = req.server { lemma_server_reports_back(r0, u, v, x); }
    let r1 = match req.server { Some(u) => spec_server_record(r0, u, v), None => r0 };
    if let Some(u) = req.chat { lemma_chat_reports_back(r1, c.chat, u, v, x); }
    let r2 = match req.chat { Some(u) => spec_chat_record(r1, c.chat, u, v), None => r1 };
    if let Some(u) = req.embedding { lemma_embedding_reports_back(r2, c.embedding, u, v, x); }
    let r3 = match req.embedding { Some(u) => spec_embedding_record(r2, c.embedding, u, v), None => r2 };
    if let Some(u) = req.memory { lemma_memory_reports_back(r3, c.memory, u, v, x); }
    let r4 = match req.memory { Some(u) => spec_memory_record(r3, c.memory, u, v), None => r3 };
    if let Some(u) = req.rag { lemma_rag_reports_back(r4, c.rag, u, v, x); }
    let r5 = match req.rag { Some(u) => spec_rag_record(r4, c.rag, u, v), None => r4 };
    if let Some(u) = req.subagent { lemma_subagent_reports_back(r5, c.subagent, u, v, x); }
    let r6 = match req.subagent { Some(u) => spec_subagent_record(r5, c.subagent, u, v), None => r5 };
    if let Some(u) = req.lantai_auto_memory { lemma_lantai_reports_back(r6, c.lantai, u, v, x); }
}

/// Each field in `updated` holds, in `n`, the value that `req` asked for.
pub open spec fn reported_fields_hold_request(n: Config, req: ConfigUpdateRequest, updated: Seq<Seq<char>>) -> bool {
    &&& updated.contains("server.max_tools_per_iteration"@) ==> (req.server matches Some(u) && u.max_tools_per_iteration == Some(n.server.max_tools_per_iteration))
    &&& updated.contains("server.tool_call_max_retries"@) ==> (req.server matches Some(u) && u.tool_call_max_retries == Some(n.server.tool_call_max_retries))
    &&& updated.contains("server.tool_call_retry_delay_ms"@) ==> (req.server matches Some(u) && u.tool_call_retry_delay_ms == Some(n.server.tool_call_retry_delay_ms))
    &&& updated.contains("server.max_plan_subtasks"@) ==> (req.server matches Some(u) && u.max_plan_subtasks == Some(n.server.max_plan_subtasks))
    &&& updated.contains("server.plan_timeout_secs"@) ==> (req.server matches Some(u) && u.plan_timeout_secs == Some(n.server.plan_timeout_secs))
    &&& updated.contains("server.subtask_max_retries"@) ==> (req.server matches Some(u) && u.subtask_max_retries == Some(n.server.subtask_max_retries))
    &&& updated.contains("server.subtask_react_max_iterations"@) ==> (req.server matches Some(u) && u.subtask_react_max_iterations == Some(n.server.subtask_react_max_iterations))
    &&& updated.contains("server.subtask_react_timeout_secs"@) ==> (req.server matches Some(u) && u.subtask_react_timeout_secs == Some(n.server.subtask_react_timeout_secs))
    &&& updated.contains("chat.url"@) ==> (req.chat matches Some(u) && n.chat matches Some(nc) && u.url == Some(nc.url))
    &&& updated.contains("chat.api_key"@) ==> (req.chat matches Some(u) && n.chat matches Some(nc) && u.api_key == Some(nc.api_key))
    &&& updated.contains("chat.model"@) ==> (req.chat matches Some(u) && n.chat matches Some(nc) && u.model == Some(nc.model))
    &&& updated.contains("chat.model_context_size"@) ==> (req.chat matches Some(u) && n.chat matches Some(nc) && u.model_context_size == Some(nc.model_context_size))
    &&& updated.contains("embedding.url"@) ==> (req.embedding matches Some(u) && n.embedding matches Some(ne) && u.url matches Some(x) && x@ == ne.url@)
    &&& updated.contains("embedding.api_key"@) ==> (req.embedding matches Some(u) && n.embedding matches Some(ne) && u.api_key matches Some(k) && k@ == ne.api_key@)
    &&& updated.contains("memory.auto_summarize"@) ==> (req.memory matches Some(u) && n.memory matches Some(nm) && u.auto_summarize == Some(nm.auto_summarize))
    &&& updated.contains("memory.summarization_strategy"@) ==> (req.memory matches Some(u) && n.memory matches Some(nm) && u.summarization_strategy == Some(nm.summarization_strategy))
    &&& updated.contains("memory.summarize_threshold"@) ==> (req.memory matches Some(u) && n.memory matches Some(nm) && u.summarize_threshold == Some(nm.summarize_threshold))
    &&& updated.contains("memory.max_stored_messages"@) ==> (req.memory matches Some(u) && n.memory matches Some(nm) && u.max_stored_messages == Some(nm.max_stored_messages))
    &&& updated.contains("rag.enable"@) ==> (req.rag matches Some(u) && n.rag matches Some(nr) && u.enable == Some(nr.enable))
    &&& updated.contains("subagent.execution_mode"@) ==> (req.subagent matches Some(u) && n.subagent matches Some(ns) && u.execution_mode == Some(ns.execution_mode))
    &&& updated.contains("subagent.parallel_mode"@) ==> (req.subagent matches Some(u) && n.subagent matches Some(ns) && u.parallel_mode == Some(ns.subtask_executor.parallel_mode))
    &&& updated.contains("lantai_auto_memory.auto_summary"@) ==> (req.lantai_auto_memory matches Some(u) && n.lantai matches Some(nl) && u.auto_summary == Some(nl.auto_memory.auto_summary))
    &&& updated.contains("lantai_auto_memory.checkpoint_token_ratio"@) ==> (req.lantai_auto_memory matches Some(u) && n.lantai matches Some(nl) && u.checkpoint_token_ratio_bits == Some(nl.auto_memory.checkpoint_token_ratio_bits))
    &&& updated.contains("lantai_auto_memory.embedding_model"@) ==> (req.lantai_auto_memory matches Some(u) && n.lantai matches Some(nl) && u.embedding_model == Some(nl.embedding.model))
    &&& updated.contains("lantai_auto_memory.embedding_dimensions"@) ==> (req.lantai_auto_memory matches Some(u) && n.lantai matches Some(nl) && u.embedding_dimensions == Some(nl.embedding.dimensions))
    &&& updated.contains("lantai_auto_memory.embedding_batch_size"@) ==> (req.lantai_auto_memory matches Some(u) && n.lantai matches Some(nl) && u.embedding_batch_size == Some(nl.embedding.batch_size))
}

/// Every field that an update reports as updated holds, afterwards, the
/// value the request gave for it: the update does not report a field that
/// it left as it was.
#[verifier::spinoff_prover]
#[verifier::rlimit(80)]
pub proof fn law_reported_fields_hold_requested_values(c: Config, n: Config, req: ConfigUpdateRequest, v: Seq<Seq<char>>)
    requires
        !request_stuck(c, req, v),
        spec_config_updated(c, n, req, v),
    ensures
        reported_fields_hold_request(n, req, spec_apply_record(c, req, v).0),
{
    lemma_update_paths_distinct();
    lemma_request_reports_back(c, req, v, "server.max_tools_per_iteration"@);
    lemma_request_reports_back(c, req, v, "server.tool_call_max_retries"@);
    lemma_request_reports_back(c, req, v, "server.tool_call_retry_delay_ms"@);
    lemma_request_reports_back(c, req, v, "server.max_plan_subtasks"@);
    lemma_request_reports_back(c, req, v, "server.plan_timeout_secs"@);
    lemma_request_reports_back(c, req, v, "server.subtask_max_retries"@);
    lemma_request_reports_back(c, req, v, "server.subtask_react_max_iterations"@);
    lemma_request_reports_back(c, req, v, "server.subtask_react_timeout_secs"@);
    lemma_request_reports_back(c, req, v, "chat.url"@);
    lemma_request_reports_back(c, req, v, "chat.api_key"@);
    lemma_request_reports_back(c, req, v, "chat.model"@);
    lemma_request_reports_back(c, req, v, "chat.model_context_size"@);
    lemma_request_reports_back(c, req, v, "embedding.url"@);
    lemma_request_reports_back(c, req, v, "embedding.api_key"@);
    lemma_request_reports_back(c, req, v, "memory.auto_summarize"@);
    lemma_request_reports_back(c, req, v, "memory.summarization_strategy"@);
    lemma_request_reports_back(c, req, v, "memory.summarize_threshold"@);
    lemma_request_reports_back(c, req, v, "memory.max_stored_messages"@);
    lemma_request_reports_back(c, req, v, "rag.enable"@);
    lemma_request_reports_back(c, req, v, "subagent.execution_mode"@);
    lemma_request_reports_back(c, req, v, "subagent.parallel_mode"@);
    lemma_request_reports_back(c, req, v, "lantai_auto_memory.auto_summary"@);
    lemma_request_reports_back(c, req, v, "lantai_auto_memory.checkpoint_token_ratio"@);
    lemma_request_reports_back(c, req, v, "lantai_auto_memory.embedding_model"@);
    lemma_request_reports_back(c, req, v, "lantai_auto_memory.embedding_dimensions"@);
    lemma_request_reports_back(c, req, v, "lantai_auto_memory.embedding_batch_size"@);
}

/// Comparing two chat sections finds a change of the URL exactly when the
/// URLs differ, and a change of the API key exactly when the key in effect
/// differs (the section's own key when non-empty, else the one the
/// environment supplies); the key change shows only whether a key is set.
/// Nothing else is found.
#[verifier::spinoff_prover]
pub proof fn law_chat_diff_one_change_per_field(o: ChatConfig, n: ChatConfig, env: ApiKeyEnvironment)
    ensures
        spec_chat_diff(o, n, env).len() == (if o.url@ != n.url@ { 1nat } else { 0nat }) + (if (if o.api_key@.len() > 0 { Some(o.api_key@) } else { opt_view(env.chat) }) != (if n.api_key@.len() > 0 { Some(n.api_key@) } else { opt_view(env.chat) }) { 1nat } else { 0nat }),
        spec_chat_diff(o, n, env).contains(("chat.url"@, ValueView::Str(o.url@), ValueView::Str(n.url@), true)) <==> o.url@ != n.url@,
        spec_chat_diff(o, n, env).contains(("chat.api_key"@, (if (if o.api_key@.len() > 0 { Some(o.api_key@) } else { opt_view(env.chat) }) is Some { ValueView::Str("***configured***"@) } else { ValueView::Null }), (if (if n.api_key@.len() > 0 { Some(n.api_key@) } else { opt_view(env.chat) }) is Some { ValueView::Str("***configured***"@) } else { ValueView::Null }), true)) <==> (if o.api_key@.len() > 0 { Some(o.api_key@) } else { opt_view(env.chat) }) != (if n.api_key@.len() > 0 { Some(n.api_key@) } else { opt_view(env.chat) }),
{
    reveal_strlit("chat.url");
    reveal_strlit("chat.api_key");
    assert("chat.url"@.len() != "chat.api_key"@.len());
    let okv = crate::config::spec_effective_key(o.api_key@, env.chat);
    let nkv = crate::config::spec_effective_key(n.api_key@, env.chat);
    let acc: Seq<ChangeView> = Seq::empty();
    lemma_when_appended(acc, o.url@ != n.url@, ("chat.url"@, ValueView::Str(o.url@), ValueView::Str(n.url@), true));
    let acc1 = acc + crate::config_api::diff::when(o.url@ != n.url@, ("chat.url"@, ValueView::Str(o.url@), ValueView::Str(n.url@), true));
    lemma_when_appended(acc1, crate::config_api::diff::key_changed(okv, nkv), ("chat.api_key"@, crate::config_api::diff::key_marker(okv), crate::config_api::diff::key_marker(nkv), true));
    assert(acc1 + crate::config_api::diff::when(crate::config_api::diff::key_changed(okv, nkv), ("chat.api_key"@, crate::config_api::diff::key_marker(okv), crate::config_api::diff::key_marker(nkv), true)) =~= spec_chat_diff(o, n, env));
}

/// Comparing two embedding sections finds a change of the URL exactly when the
/// URLs differ, and a change of the API key exactly when the key in effect
/// differs (the section's own key when non-empty, else the one the
/// environment supplies); the key change shows only whether a key is set.
/// Nothing else is found.
#[verifier::spinoff_prover]
pub proof fn law_embedding_diff_one_change_per_field(o: EmbeddingConfig, n: EmbeddingConfig, env: ApiKeyEnvironment)
    ensures
        spec_embedding_diff(o, n, env).len() == (if o.url@ != n.url@ { 1nat } else { 0nat }) + (if (if o.api_key@.len() > 0 { Some(o.api_key@) } else { opt_view(env.embedding) }) != (if n.api_key@.len() > 0 { Some(n.api_key@) } else { opt_view(env.embedding) }) { 1nat } else { 0nat }),
        spec_embedding_diff(o, n, env).contains(("embedding.url"@, ValueView::Str(o.url@), ValueView::Str(n.url@), true)) <==> o.url@ != n.url@,
        spec_embedding_diff(o, n, env).contains(("embedding.api_key"@, (if (if o.api_key@.len() > 0 { Some(o.api_key@) } else { opt_view(env.embedding) }) is Some { ValueView::Str("***configured***"@) } else { ValueView::Null }), (if (if n.api_key@.len() > 0 { Some(n.api_key@) } else { opt_view(env.embedding) }) is Some { ValueView::Str("***configured***"@) } else { ValueView::Null }), true)) <==> (if o.api_key@.len() > 0 { Some(o.api_key@) } else { opt_view(env.embedding) }) != (if n.api_key@.len() > 0 { Some(n.api_key@) } else { opt_view(env.embedding) }),
{
    reveal_strlit("embedding.url");
    reveal_strlit("embedding.api_key");
    assert("embedding.url"@.len() != "embedding.api_key"@.len());
    let okv = crate::config::spec_effective_key(o.api_key@, env.embedding);
    let nkv = crate::config::spec_effective_key(n.api_key@, env.embedding);
    let acc: Seq<ChangeView> = Seq::empty();
    lemma_when_appended(acc, o.url@ != n.url@, ("embedding.url"@, ValueView::Str(o.url@), ValueView::Str(n.url@), true));
    let acc1 = acc + crate::config_api::diff::when(o.url@ != n.url@, ("embedding.url"@, ValueView::Str(o.url@), ValueView::Str(n.url@), true));
    lemma_when_appended(acc1, crate::config_api::diff::key_changed(okv, nkv), ("embedding.api_key"@, crate::config_api::diff::key_marker(okv), crate::config_api::diff::key_marker(nkv), true));
    assert(acc1 + crate::config_api::diff::when(crate::config_api::diff::key_changed(okv, nkv), ("embedding.api_key"@, crate::config_api::diff::key_marker(okv), crate::config_api::diff::key_marker(nkv), true)) =~= spec_embedding_diff(o, n, env));
}

/// Comparing two configurations gives the server changes, then for each of
/// the chat, embedding, memory and RAG sections: the section's changes when
/// both have it, one change `<section> (section)` from null to "configured"
/// when it was added or the reverse when it was removed, and nothing when
/// neither has it.
#[verifier::spinoff_prover]
pub proof fn law_config_diff_by_section(o: Config, n: Config, env: ApiKeyEnvironment)
    ensures
        spec_config_diff(o, n, env) == spec_server_diff(o.server, n.server)
            + (match (o.chat, n.chat) {
                (Some(oc), Some(nc)) => spec_chat_diff(oc, nc, env),
                (None, Some(_)) => seq![("chat (section)"@, ValueView::Null, ValueView::Str("configured"@), false)],
                (Some(_), None) => seq![("chat (section)"@, ValueView::Str("configured"@), ValueView::Null, false)],
                (None, None) => Seq::<ChangeView>::empty(),
            })
            + (match (o.embedding, n.embedding) {
                (Some(oc), Some(nc)) => spec_embedding_diff(oc, nc, env),
                (None, Some(_)) => seq![("embedding (section)"@, ValueView::Null, ValueView::Str("configured"@), false)],
                (Some(_), None) => seq![("embedding (section)"@, ValueView::Str("configured"@), ValueView::Null, false)],
                (None, None) => Seq::<ChangeView>::empty(),
            })
            + (match (o.memory, n.memory) {
                (Some(oc), Some(nc)) => spec_memory_diff(oc, nc),
                (None, Some(_)) => seq![("memory (section)"@, ValueView::Null, ValueView::Str("configured"@), false)],
                (Some(_), None) => seq![("memory (section)"@, ValueView::Str("configured"@), ValueView::Null, false)],
                (None, None) => Seq::<ChangeView>::empty(),
            })
            + (match (o.rag, n.rag) {
                (Some(oc), Some(nc)) => spec_rag_diff(oc, nc),
                (None, Some(_)) => seq![("rag (section)"@, ValueView::Null, ValueView::Str("configured"@), false)],
                (Some(_), None) => seq![("rag (section)"@, ValueView::Str("configured"@), ValueView::Null, false)],
                (None, None) => Seq::<ChangeView>::empty(),
            }),
{
    reveal_strlit(" (section)");
    reveal_strlit("chat");
    reveal_strlit("embedding");
    reveal_strlit("memory");
    reveal_strlit("rag");
    reveal_strlit("chat (section)");
    reveal_strlit("embedding (section)");
    reveal_strlit("memory (section)");
    reveal_strlit("rag (section)");
    assert("chat"@ + " (section)"@ =~= "chat (section)"@);
    assert("embedding"@ + " (section)"@ =~= "embedding (section)"@);
    assert("memory"@ + " (section)"@ =~= "memory (section)"@);
    assert("rag"@ + " (section)"@ =~= "rag (section)"@);
}

/// The shown memory section keeps every shown setting as configured and
/// tells whether a summary-service key is set (a non-empty key); the shown
/// skills section tells whether its API key is in effect (an API section
/// with a non-empty key, or a key in the environment) and whether the
/// marketplace section has a key.
pub proof fn law_sanitized_memory_and_skill_flags(m: MemoryConfig, s: SkillConfig, env: ApiKeyEnvironment)
    ensures
        spec_sanitized_memory(m).summary_service_api_key_configured == (m.summary_service_api_key@.len() > 0),
        spec_sanitized_memory(m).enable == m.enable,
        spec_sanitized_memory(m).database_path == m.database_path,
        spec_sanitized_memory(m).context_window == m.context_window,
        spec_sanitized_memory(m).auto_summarize == m.auto_summarize,
        spec_sanitized_memory(m).summarization_strategy == m.summarization_strategy,
        spec_sanitized_memory(m).summarize_threshold == m.summarize_threshold,
        spec_sanitized_memory(m).max_stored_messages == m.max_stored_messages,
        skill_key_configured(s, env) == (s.api matches Some(a) && (a.api_key@.len() > 0 || env.skills is Some)),
        market_key_configured(s) == (s.market matches Some(mk) && mk.api_key is Some),
{
}

/// An image reference splits into name and tag either not at all (the
/// whole reference and `latest`) or at a `:` such that the name, `:` and
/// the tag give back the reference, and the tag holds no `:` and no `/`.
pub proof fn law_image_reference_split(img: Seq<char>)
    ensures
        ({
            let (name, tag) = spec_image_tag(img);
            (name == img && tag == "latest"@)
                || (name + seq![':'] + tag == img && !spec_has_char(tag, ':') && !spec_has_char(tag, '/'))
        }),
{
    let pos = spec_rfind(img, ':');
    lemma_rfind_range(img, ':', img.len() as int);
    if pos >= 0 {
        let after = img.subrange(pos + 1, img.len() as int);
        if !spec_has_char(after, '/') {
            assert(img.subrange(0, pos) + seq![':'] + after =~= img);
            assert forall|i: int| 0 <= i < after.len() implies after[i] != ':' by {
                assert(after[i] == img[pos + 1 + i]);
            }
        }
    }
}

/// A reference written as a name, `:` and a tag that holds no `:` and no
/// `/` splits into exactly that name and tag.
pub proof fn law_image_reference_split_at_tag(n: Seq<char>, t: Seq<char>)
    requires
        !spec_has_char(t, ':'),
        !spec_has_char(t, '/'),
    ensures
        spec_image_tag(n + seq![':'] + t) == (n, t),
{
    let img = n + seq![':'] + t;
    let p = n.len() as int;
    assert(img[p] == ':');
    lemma_rfind_range(img, ':', img.len() as int);
    let r = spec_rfind(img, ':');
    if r > p {
        assert(t[r - p - 1] == img[r]);
    }
    assert(r == p);
    assert(img.subrange(p + 1, img.len() as int) =~= t);
    assert(img.subrange(0, p) =~= n);
}

/// A data directory entry with a `:` is the host path, `:` and the container
/// path, the host path holding no `:`; without a `:` both paths are the
/// entry.
pub proof fn law_data_dir_split(entry: Seq<char>)
    ensures
        ({
            let (host, container) = spec_data_dir(entry);
            &&& !spec_has_char(entry, ':') ==> host == entry && container == entry
            &&& spec_has_char(entry, ':') ==> host + seq![':'] + container == entry && !spec_has_char(host, ':')
        }),
{
    let pos = spec_find(entry, ':');
    lemma_find_from_range(entry, ':', 0);
    if pos >= 0 {
        let host = entry.subrange(0, pos);
        let container = entry.subrange(pos + 1, entry.len() as int);
        assert(host + seq![':'] + container =~= entry);
        assert forall|i: int| 0 <= i < host.len() implies host[i] != ':' by {
            assert(host[i] == entry[i]);
        }
    } else {
        if spec_has_char(entry, ':') {
            let i = choose|i: int| 0 <= i < entry.len() && entry[i] == ':';
            assert(entry[i] != ':');
        }
    }
}

/// An entry written as a host path without `:`, a `:` and a container path
/// splits into exactly those two paths.
pub proof fn law_data_dir_split_at_first_colon(h: Seq<char>, c: Seq<char>)
    requires
        !spec_has_char(h, ':'),
    ensures
        spec_data_dir(h + seq![':'] + c) == (h, c),
{
    let e = h + seq![':'] + c;
    let p = h.len() as int;
    assert forall|j: int| 0 <= j < e.len() && (p < 0 || j < p) implies e[j] != ':' by {
        assert(e[j] == h[j]);
    }
    lemma_find_is(e, ':', p);
    assert(e.subrange(0, p) =~= h);
    assert(e.subrange(p + 1, e.len() as int) =~= c);
}

/// The container sees the script's arguments with the planned ones
/// replaced: as many arguments, an argument that no plan entry names kept
/// as it is, and, when no two plan entries name the same argument, each
/// named argument replaced by its planned container path.
pub proof fn law_container_args_replace_planned(args: Seq<Seq<char>>, plan: Seq<(usize, Seq<char>)>)
    ensures
        spec_container_args(args, plan).len() == args.len(),
        forall|i: int| 0 <= i < args.len() && (forall|k: int| 0 <= k < plan.len() ==> plan[k].0 != i)
            ==> #[trigger] spec_container_args(args, plan)[i] == args[i],
        (forall|a: int, b: int| 0 <= a < b < plan.len() ==> plan[a].0 != plan[b].0) ==>
            forall|k: int| 0 <= k < plan.len() && plan[k].0 < args.len()
                ==> #[trigger] spec_container_args(args, plan)[plan[k].0 as int] == plan[k].1,
    decreases plan.len(),
{
    if plan.len() > 0 {
        let rest = plan.drop_last();
        law_container_args_replace_planned(args, rest);
        assert forall|i: int| 0 <= i < args.len() && (forall|k: int| 0 <= k < plan.len() ==> plan[k].0 != i)
            implies #[trigger] spec_container_args(args, plan)[i] == args[i] by {
            assert forall|k: int| 0 <= k < rest.len() implies rest[k].0 != i by {
                assert(rest[k] == plan[k]);
            }
            assert(plan[plan.len() - 1].0 != i);
        }
        if forall|a: int, b: int| 0 <= a < b < plan.len() ==> plan[a].0 != plan[b].0 {
            assert forall|a: int, b: int| 0 <= a < b < rest.len() implies rest[a].0 != rest[b].0 by {
                assert(rest[a] == plan[a] && rest[b] == plan[b]);
            }
            assert forall|k: int| 0 <= k < plan.len() && plan[k].0 < args.len()
                implies #[trigger] spec_container_args(args, plan)[plan[k].0 as int] == plan[k].1 by {
                if k < plan.len() - 1 {
                    assert(rest[k] == plan[k]);
                    assert(plan[k].0 != plan[plan.len() - 1].0);
                }
            }
        }
    }
}

/// What a concatenation holds is what either part holds.
proof fn lemma_contains_concat<A>(a: Seq<A>, b: Seq<A>, y: A)
    ensures
        (a + b).contains(y) <==> (a.contains(y) || b.contains(y)),
{
    if a.contains(y) {
        let i = choose|i: int| 0 <= i < a.len() && a[i] == y;
        assert((a + b)[i] == y);
    }
    if b.contains(y) {
        let i = choose|i: int| 0 <= i < b.len() && b[i] == y;
        assert((a + b)[a.len() + i] == y);
    }
    if (a + b).contains(y) {
        let i = choose|i: int| 0 <= i < (a + b).len() && (a + b)[i] == y;
        if i < a.len() {
            assert(a[i] == y);
        } else {
            assert(b[i - a.len()] == y);
        }
    }
}

/// Every filesystem flag grants reading or writing (`--allow-read=` or
/// `--allow-write=`), and there are none when the policy allows no access.
proof fn lemma_fs_flags_shape(policy: FilesystemPolicy, script_path: Seq<char>)
    ensures
        forall|i: int| 0 <= i < spec_fs_flags(policy, script_path).len() ==>
            spec_starts_with(#[trigger] spec_fs_flags(policy, script_path)[i], "--allow-read="@)
            || spec_starts_with(spec_fs_flags(policy, script_path)[i], "--allow-write="@),
        policy is NoAccess ==> spec_fs_flags(policy, script_path).len() == 0,
{
    let f = spec_fs_flags(policy, script_path);
    assert forall|i: int| 0 <= i < f.len() implies
        spec_starts_with(#[trigger] f[i], "--allow-read="@) || spec_starts_with(f[i], "--allow-write="@) by {
        let r = "--allow-read="@;
        let w = "--allow-write="@;
        match policy {
            FilesystemPolicy::NoAccess => {},
            FilesystemPolicy::ReadOnly(p) => {
                assert(f[i].subrange(0, r.len() as int) =~= r);
            },
            FilesystemPolicy::ReadWrite(p) => {
                if i == 0 {
                    assert(f[i].subrange(0, r.len() as int) =~= r);
                } else {
                    assert(f[i].subrange(0, w.len() as int) =~= w);
                }
            },
        }
    }
}

/// The permissions Deno is given for a run: network access exactly when the
/// limits or the configuration allow it; the whole environment exactly when
/// the configuration allows it, else (when the request has variables) just
/// the request's variables; high-resolution time exactly when configured;
/// and no filesystem flag when the policy allows no access.
#[verifier::spinoff_prover]
pub proof fn law_deno_permission_flags(config: DenoConfig, request: ExecuteRequest)
    ensures
        spec_permission_flags(config, request).contains("--allow-net"@)
            <==> (request.limits.network_access || config.allow_net),
        spec_permission_flags(config, request).contains("--allow-env"@) <==> config.allow_env,
        (!config.allow_env && request.env@.dom().len() > 0) ==> spec_permission_flags(config, request).contains(
            "--allow-env="@ + spec_join(request.env.spec_keys(), ","@)),
        spec_permission_flags(config, request).contains("--allow-hrtime"@) <==> config.allow_hrtime,
        request.limits.filesystem_access is NoAccess ==> forall|i: int| 0 <= i < spec_permission_flags(config, request).len()
            ==> !spec_starts_with(#[trigger] spec_permission_flags(config, request)[i], "--allow-read"@)
                && !spec_starts_with(spec_permission_flags(config, request)[i], "--allow-write"@),
{
    reveal_strlit("--allow-net");
    reveal_strlit("--allow-env");
    reveal_strlit("--allow-env=");
    reveal_strlit("--allow-hrtime");
    reveal_strlit("--allow-read=");
    reveal_strlit("--allow-write=");
    reveal_strlit("--allow-read");
    reveal_strlit("--allow-write");
    let fs = spec_fs_flags(request.limits.filesystem_access, request.script.path@);
    lemma_fs_flags_shape(request.limits.filesystem_access, request.script.path@);
    let net: Seq<Seq<char>> = if request.limits.network_access || config.allow_net { seq!["--allow-net"@] } else { Seq::empty() };
    let envs: Seq<Seq<char>> = if config.allow_env {
        seq!["--allow-env"@]
    } else if request.env@.dom().len() > 0 {
        seq!["--allow-env="@ + spec_join(request.env.spec_keys(), ","@)]
    } else {
        Seq::empty()
    };
    let hr: Seq<Seq<char>> = if config.allow_hrtime { seq!["--allow-hrtime"@] } else { Seq::empty() };
    let all = fs + net + envs + hr;
    assert(all =~= spec_permission_flags(config, request));
    let targets = seq!["--allow-net"@, "--allow-env"@, "--allow-hrtime"@];
    assert forall|k: int| 0 <= k < 3 implies !fs.contains(#[trigger] targets[k]) by {
        if fs.contains(targets[k]) {
            let i = choose|i: int| 0 <= i < fs.len() && fs[i] == targets[k];
            if spec_starts_with(fs[i], "--allow-read="@) {
                assert(fs[i][8] == "--allow-read="@[8]);
            } else {
                assert(fs[i][8] == "--allow-write="@[8]);
            }
            assert(targets[k][8] != 'r' && targets[k][8] != 'w');
        }
    }
    let ej = "--allow-env="@ + spec_join(request.env.spec_keys(), ","@);
    assert(ej[8] == 'e');
    assert(ej.len() != "--allow-env"@.len());
    lemma_contains_concat(fs, net, "--allow-net"@);
    lemma_contains_concat(fs + net, envs, "--allow-net"@);
    lemma_contains_concat(fs + net + envs, hr, "--allow-net"@);
    lemma_contains_concat(fs, net, "--allow-env"@);
    lemma_contains_concat(fs + net, envs, "--allow-env"@);
    lemma_contains_concat(fs + net + envs, hr, "--allow-env"@);
    lemma_contains_concat(fs, net, "--allow-hrtime"@);
    lemma_contains_concat(fs + net, envs, "--allow-hrtime"@);
    lemma_contains_concat(fs + net + envs, hr, "--allow-hrtime"@);
    lemma_contains_concat(fs + net, envs, ej);
    lemma_contains_concat(fs + net + envs, hr, ej);
    assert(targets[0] == "--allow-net"@ && targets[1] == "--allow-env"@ && targets[2] == "--allow-hrtime"@);
    if !config.allow_env && request.env@.dom().len() > 0 {
        assert(envs[0] == ej);
    }
    if config.allow_hrtime {
        assert(hr[0] == "--allow-hrtime"@);
    }
    if request.limits.network_access || config.allow_net {
        assert(net[0] == "--allow-net"@);
    }
    if config.allow_env {
        assert(envs[0] == "--allow-env"@);
    }
    assert(!envs.contains("--allow-net"@)) by {
        if envs.contains("--allow-net"@) {
            assert(envs[0] == "--allow-net"@);
            assert(envs[0][8] == 'e');
        }
    }
    assert(!hr.contains("--allow-net"@)) by {
        if hr.contains("--allow-net"@) {
            assert(hr[0] == "--allow-net"@);
        }
    }
    assert(!net.contains("--allow-env"@)) by {
        if net.contains("--allow-env"@) {
            assert(net[0] == "--allow-env"@);
            assert("--allow-net"@[8] != "--allow-env"@[8]);
        }
    }
    assert(!hr.contains("--allow-env"@)) by {
        if hr.contains("--allow-env"@) {
            assert(hr[0] == "--allow-env"@);
        }
    }
    assert(envs.contains("--allow-env"@) <==> config.allow_env) by {
        if !config.allow_env && envs.contains("--allow-env"@) {
            assert(envs[0] == "--allow-env"@);
            assert(envs[0] == ej);
        }
    }
    assert(!envs.contains("--allow-hrtime"@)) by {
        if envs.contains("--allow-hrtime"@) {
            assert(envs[0] == "--allow-hrtime"@);
            assert(envs[0][8] == 'e');
        }
    }
    assert(!net.contains("--allow-hrtime"@)) by {
        if net.contains("--allow-hrtime"@) {
            assert(net[0] == "--allow-hrtime"@);
        }
    }
    if request.limits.filesystem_access is NoAccess {
        assert(fs.len() == 0);
        assert(all =~= net + envs + hr);
        assert forall|i: int| 0 <= i < all.len() implies
            !spec_starts_with(#[trigger] all[i], "--allow-read"@) && !spec_starts_with(all[i], "--allow-write"@) by {
            assert(all[i].len() > 8 && all[i][8] != 'r' && all[i][8] != 'w') by {
                if i < net.len() {
                    assert(all[i] == net[i]);
                } else if i < net.len() + envs.len() {
                    assert(all[i] == envs[i - net.len()]);
                } else {
                    assert(all[i] == hr[i - net.len() - envs.len()]);
                }
            }
            if spec_starts_with(all[i], "--allow-read"@) {
                assert(all[i].subrange(0, 12)[8] == all[i][8]);
            }
            if spec_starts_with(all[i], "--allow-write"@) {
                assert(all[i].subrange(0, 13)[8] == all[i][8]);
            }
        }
    }
}

/// Every permission flag of a run starts with `--allow-`.
proof fn lemma_permission_flags_allow(config: DenoConfig, request: ExecuteRequest)
    ensures
        forall|i: int| 0 <= i < spec_permission_flags(config, request).len()
            ==> spec_starts_with(#[trigger] spec_permission_flags(config, request)[i], "--allow-"@),
{
    reveal_strlit("--allow-");
    reveal_strlit("--allow-net");
    reveal_strlit("--allow-env");
    reveal_strlit("--allow-env=");
    reveal_strlit("--allow-hrtime");
    reveal_strlit("--allow-read=");
    reveal_strlit("--allow-write=");
    let fs = spec_fs_flags(request.limits.filesystem_access, request.script.path@);
    lemma_fs_flags_shape(request.limits.filesystem_access, request.script.path@);
    let net: Seq<Seq<char>> = if request.limits.network_access || config.allow_net { seq!["--allow-net"@] } else { Seq::empty() };
    let envs: Seq<Seq<char>> = if config.allow_env {
        seq!["--allow-env"@]
    } else if request.env@.dom().len() > 0 {
        seq!["--allow-env="@ + spec_join(request.env.spec_keys(), ","@)]
    } else {
        Seq::empty()
    };
    let hr: Seq<Seq<char>> = if config.allow_hrtime { seq!["--allow-hrtime"@] } else { Seq::empty() };
    let all = fs + net + envs + hr;
    assert(all =~= spec_permission_flags(config, request));
    let p = "--allow-"@;
    assert forall|i: int| 0 <= i < all.len() implies spec_starts_with(#[trigger] all[i], p) by {
        if i < fs.len() {
            assert(all[i] == fs[i]);
            assert("--allow-read="@.subrange(0, 8) =~= p);
            assert("--allow-write="@.subrange(0, 8) =~= p);
            if spec_starts_with(fs[i], "--allow-read="@) {
                assert(fs[i].subrange(0, 8) =~= fs[i].subrange(0, 13).subrange(0, 8));
            } else {
                assert(fs[i].subrange(0, 8) =~= fs[i].subrange(0, 14).subrange(0, 8));
            }
        } else if i < fs.len() + net.len() {
            assert(all[i] == net[i - fs.len()]);
            assert(all[i].subrange(0, 8) =~= p);
        } else if i < fs.len() + net.len() + envs.len() {
            assert(all[i] == envs[i - fs.len() - net.len()]);
            assert(all[i].subrange(0, 8) =~= p);
        } else {
            assert(all[i] == hr[i - fs.len() - net.len() - envs.len()]);
            assert(all[i].subrange(0, 8) =~= p);
        }
    }
}

/// The command line of a Deno run is `run`, then the options (a
/// `--v8-flags=` for each configured V8 flag, `--unstable` exactly when
/// configured, `--no-cache` exactly when caching is off, and the permission
/// flags), then the script path and the script's arguments.
#[verifier::spinoff_prover]
pub proof fn law_deno_command_line(config: DenoConfig, request: ExecuteRequest)
    ensures
        ({
            let a = spec_command_args(config, request);
            let k = a.len() - request.args@.len() - 1;
            &&& a[0] == "run"@
            &&& 1 <= k
            &&& a.subrange(k, a.len() as int) == seq![request.script.path@] + views(request.args@)
            &&& a.subrange(0, k).contains("--unstable"@) <==> config.unstable
            &&& a.subrange(0, k).contains("--no-cache"@) <==> !config.cache
            &&& forall|i: int| 0 <= i < config.v8_flags@.len()
                ==> a.subrange(0, k).contains("--v8-flags="@ + #[trigger] config.v8_flags@[i]@)
            &&& forall|i: int| 0 <= i < spec_permission_flags(config, request).len()
                ==> a.subrange(0, k).contains(#[trigger] spec_permission_flags(config, request)[i])
        }),
{
    reveal_strlit("run");
    reveal_strlit("--unstable");
    reveal_strlit("--no-cache");
    reveal_strlit("--v8-flags=");
    reveal_strlit("--allow-");
    lemma_permission_flags_allow(config, request);
    let v8 = spec_v8_args(views(config.v8_flags@));
    let un: Seq<Seq<char>> = if config.unstable { seq!["--unstable"@] } else { Seq::empty() };
    let nc: Seq<Seq<char>> = if !config.cache { seq!["--no-cache"@] } else { Seq::empty() };
    let perm = spec_permission_flags(config, request);
    let pre = seq!["run"@] + v8 + un + nc + perm;
    let tail = seq![request.script.path@] + views(request.args@);
    let a = spec_command_args(config, request);
    assert(a =~= pre + tail);
    let k = a.len() - request.args@.len() - 1;
    assert(k == pre.len());
    assert(a.subrange(k, a.len() as int) =~= tail);
    assert(a.subrange(0, k) =~= pre);
    assert forall|i: int| 0 <= i < config.v8_flags@.len()
        implies pre.contains("--v8-flags="@ + #[trigger] config.v8_flags@[i]@) by {
        assert(pre[1 + i] == v8[i]);
    }
    assert forall|i: int| 0 <= i < perm.len() implies pre.contains(#[trigger] perm[i]) by {
        assert(pre[1 + v8.len() as int + un.len() as int + nc.len() as int + i] == perm[i]);
    }
    // Each option is told apart by its third character.
    assert("run"@.len() == 3 && "--unstable"@.len() == 10 && "--no-cache"@.len() == 10);
    assert("--unstable"@[2] == 'u' && "--no-cache"@[2] == 'n' && "--v8-flags="@[2] == 'v' && "--allow-"@[2] == 'a');
    assert forall|i: int| 0 <= i < pre.len() implies (#[trigger] pre[i] == "--unstable"@ <==> (config.unstable && i == 1 + v8.len()))
        && (pre[i] == "--no-cache"@ <==> (!config.cache && i == 1 + v8.len() + un.len())) by {
        if i == 0 {
            assert(pre[i].len() == 3);
        } else if i < 1 + v8.len() {
            assert(pre[i] == v8[i - 1]);
            assert(v8[i - 1] == "--v8-flags="@ + config.v8_flags@[i - 1]@);
            assert(pre[i][2] == "--v8-flags="@[2]);
        } else if i < 1 + v8.len() + un.len() {
            assert(pre[i] == "--unstable"@);
        } else if i < 1 + v8.len() + un.len() + nc.len() {
            assert(pre[i] == "--no-cache"@);
        } else {
            assert(pre[i] == perm[i - 1 - v8.len() - un.len() - nc.len()]);
            assert(spec_starts_with(pre[i], "--allow-"@));
            assert(pre[i].subrange(0, 8)[2] == pre[i][2]);
            assert(pre[i][2] == 'a');
        }
    }
    if config.unstable {
        assert(pre[1 + v8.len() as int] == "--unstable"@);
    }
    if !config.cache {
        assert(pre[1 + v8.len() as int + un.len() as int] == "--no-cache"@);
    }
}

/// The environment of a Deno run holds the request's variables, `DENO_DIR`
/// set to the cache directory when one is configured, and `NO_COLOR=1`;
/// nothing else.
pub proof fn law_deno_environment(config: DenoConfig, request: ExecuteRequest)
    ensures
        spec_env(config, request).contains_key("NO_COLOR"@),
        spec_env(config, request)["NO_COLOR"@] == "1"@,
        config.cache_dir matches Some(d) ==> spec_env(config, request).contains_key("DENO_DIR"@)
            && spec_env(config, request)["DENO_DIR"@] == d@,
        forall|k: Seq<char>| #[trigger] request.env@.contains_key(k) && k != "NO_COLOR"@
            && !(config.cache_dir is Some && k == "DENO_DIR"@)
            ==> spec_env(config, request).contains_key(k) && spec_env(config, request)[k] == request.env@[k]@,
        forall|k: Seq<char>| #[trigger] spec_env(config, request).contains_key(k) ==> request.env@.contains_key(k)
            || k == "NO_COLOR"@ || (config.cache_dir is Some && k == "DENO_DIR"@),
{
    reveal_strlit("NO_COLOR");
    reveal_strlit("DENO_DIR");
    assert("NO_COLOR"@[0] != "DENO_DIR"@[0]);
}

/// Of a stream read in chunks, what is kept is the start of the bytes read,
/// in order: all of them when they fit the limit, else exactly as many as
/// the limit allows.
pub proof fn law_output_cap_keeps_prefix(chunks: Seq<Seq<u8>>, max: nat)
    ensures
        ({
            let all = flatten_chunks(chunks);
            let kept = capped(all, max);
            &&& kept.len() == if all.len() <= max { all.len() } else { max }
            &&& kept.len() <= max
            &&& forall|i: int| 0 <= i < kept.len() ==> #[trigger] kept[i] == all[i]
        }),
{
}

/// A module gets one preopened directory per path of its filesystem policy,
/// in order, writable exactly when the policy is read-write, and none when
/// the policy allows no access.
pub proof fn law_preopens_follow_policy(policy: FilesystemPolicy)
    ensures
        policy is NoAccess ==> spec_preopens(policy).len() == 0,
        policy matches FilesystemPolicy::ReadOnly(p) ==> spec_preopens(policy).len() == p@.len()
            && forall|i: int| 0 <= i < p@.len() ==> #[trigger] spec_preopens(policy)[i] == (p@[i]@, false),
        policy matches FilesystemPolicy::ReadWrite(p) ==> spec_preopens(policy).len() == p@.len()
            && forall|i: int| 0 <= i < p@.len() ==> #[trigger] spec_preopens(policy)[i] == (p@[i]@, true),
{
}

/// How a configured MCP server is reached: a disabled server needs nothing;
/// an enabled stdio server runs its command, and fails exactly when it has
/// none; an enabled remote server fails when it has both or neither of
/// `url` and `oauth_url`, goes through OAuth exactly when it uses
/// `oauth_url` (whose URL is never refused), and with `url` succeeds exactly
/// when the URL parses. Without an API key the URL is the configured one
/// without trailing `/`.
pub proof fn law_mcp_connection_plan(s: McpToolServerConfig, parse_error: Option<Seq<char>>)
    ensures
        !s.enable ==> spec_plan(s, parse_error) == Ok::<McpConnectPlanV, Seq<char>>(McpConnectPlanV::Disabled),
        s.enable && s.transport == McpTransport::Stdio ==> match s.command {
            Some(c) => spec_plan(s, parse_error) == Ok::<McpConnectPlanV, Seq<char>>(McpConnectPlanV::Stdio { command: c@ }),
            None => spec_plan(s, parse_error) is Err,
        },
        s.enable && s.transport != McpTransport::Stdio ==> {
            &&& (s.url is Some) == (s.oauth_url is Some) ==> spec_plan(s, parse_error) is Err
            &&& (s.url is None && s.oauth_url is Some) ==> (spec_plan(s, parse_error) matches Ok(McpConnectPlanV::Remote { url, use_oauth })
                && use_oauth && (s.api_key is None ==> url == spec_trim_end_slashes(s.oauth_url->0@)))
            &&& (s.oauth_url is None && s.url is Some) ==> (
                (spec_plan(s, parse_error) is Ok <==> parse_error is None)
                && (spec_plan(s, parse_error) matches Ok(McpConnectPlanV::Remote { url, use_oauth }) ==> !use_oauth
                    && (s.api_key is None ==> url == spec_trim_end_slashes(s.url->0@))))
        },
{
}

/// Which single changes validation accepts: none that needs a restart; a
/// chat or embedding URL exactly when it is null or a string starting with
/// `http://` or `https://`; an API key exactly when it is a string or null;
/// a switch exactly when it is a boolean; a summarization strategy exactly
/// when it is `Incremental` or `FullHistory`.
#[verifier::spinoff_prover]
pub proof fn law_change_validation_rules(f: Seq<char>, v: ValueView, hot: bool)
    ensures
        !hot ==> spec_validate_change(f, v, hot) is Some,
        hot && (f == "chat.url"@ || f == "embedding.url"@) ==> ((spec_validate_change(f, v, hot) is None) <==> (v is Null
            || (v matches ValueView::Str(u) && (spec_starts_with(u, "http://"@) || spec_starts_with(u, "https://"@))))),
        hot && (f == "chat.api_key"@ || f == "embedding.api_key"@) ==> ((spec_validate_change(f, v, hot) is None) <==> (v is Null || v is Str)),
        hot && (f == "memory.auto_summarize"@ || f == "rag.enable"@) ==> ((spec_validate_change(f, v, hot) is None) <==> v is Bool),
        hot && f == "memory.summarization_strategy"@ ==> ((spec_validate_change(f, v, hot) is None)
            <==> (v == ValueView::Str("Incremental"@) || v == ValueView::Str("FullHistory"@))),
{
    lemma_update_paths_distinct();
    reveal_strlit("http://");
    reveal_strlit("https://");
    reveal_strlit("server.max_tools_per_iteration");
    reveal_strlit("server.tool_call_max_retries");
    reveal_strlit("server.tool_call_retry_delay_ms");
    reveal_strlit("server.max_plan_subtasks");
    reveal_strlit("server.plan_timeout_secs");
    reveal_strlit("server.subtask_max_retries");
    reveal_strlit("server.subtask_react_max_iterations");
    reveal_strlit("server.subtask_react_timeout_secs");
    reveal_strlit("chat.url");
    reveal_strlit("chat.api_key");
    reveal_strlit("embedding.url");
    reveal_strlit("embedding.api_key");
    reveal_strlit("memory.auto_summarize");
    reveal_strlit("memory.summarization_strategy");
    reveal_strlit("rag.enable");
    if let ValueView::Str(u) = v {
        if spec_starts_with(u, "http://"@) || spec_starts_with(u, "https://"@) {
            assert(u.len() > 0);
        }
    }
}

/// An archive entry lands below the skill's directory at its path with the
/// root directory taken off: the root prefix followed by the result gives
/// back the entry's path when the path starts with the root, else the
/// result is the path itself; entries whose remaining path is empty or `/`
/// are skipped.
pub proof fn law_archive_entry_path(raw: Seq<char>, root: Option<Seq<char>>)
    ensures
        ({
            let stripped = root is Some && spec_starts_with(raw, root->0);
            let rel = if stripped { spec_strip_prefix(raw, root->0) } else { raw };
            &&& stripped ==> root->0 + rel == raw
            &&& (spec_relative_path(raw, root) is None) <==> (rel.len() == 0 || rel == "/"@)
            &&& spec_relative_path(raw, root) matches Some(r) ==> r == rel
        }),
{
    if root is Some && spec_starts_with(raw, root->0) {
        assert(root->0 + spec_strip_prefix(raw, root->0) =~= raw);
    }
}

/// Every file a package installs comes, in archive order, from an entry of
/// the archive: with that entry's kind and contents, at that entry's path
/// below the root; and every entry with a path below the root is installed.
pub proof fn law_package_files_come_from_entries(es: Seq<(Seq<char>, bool, Seq<u8>)>, root: Option<Seq<char>>)
    ensures
        spec_planned(es, root).len() <= es.len(),
        forall|i: int| 0 <= i < spec_planned(es, root).len() ==> exists|j: int| 0 <= j < es.len()
            && spec_relative_path(es[j].0, root) == Some(#[trigger] spec_planned(es, root)[i].0)
            && es[j].1 == spec_planned(es, root)[i].1 && es[j].2 == spec_planned(es, root)[i].2,
        forall|j: int| 0 <= j < es.len() && #[trigger] spec_relative_path(es[j].0, root) is Some ==> spec_planned(es, root).contains(
            (spec_relative_path(es[j].0, root)->0, es[j].1, es[j].2)),
    decreases es.len(),
{
    if es.len() > 0 {
        let rest = es.drop_last();
        law_package_files_come_from_entries(rest, root);
        let pr = spec_planned(rest, root);
        let p = spec_planned(es, root);
        assert forall|i: int| 0 <= i < p.len() implies exists|j: int| 0 <= j < es.len()
            && spec_relative_path(es[j].0, root) == Some(#[trigger] p[i].0)
            && es[j].1 == p[i].1 && es[j].2 == p[i].2 by {
            if i < pr.len() {
                assert(p[i] == pr[i]);
                let j = choose|j: int| 0 <= j < rest.len() && spec_relative_path(rest[j].0, root) == Some(pr[i].0)
                    && rest[j].1 == pr[i].1 && rest[j].2 == pr[i].2;
                assert(es[j] == rest[j]);
            } else {
                let j = es.len() - 1;
                assert(es[j] == es.last());
            }
        }
        assert forall|j: int| 0 <= j < es.len() && #[trigger] spec_relative_path(es[j].0, root) is Some implies p.contains(
            (spec_relative_path(es[j].0, root)->0, es[j].1, es[j].2)) by {
            let t = (spec_relative_path(es[j].0, root)->0, es[j].1, es[j].2);
            if j < rest.len() {
                assert(es[j] == rest[j]);
                assert(spec_relative_path(rest[j].0, root) is Some);
                assert(pr.contains(t));
                let k = choose|k: int| 0 <= k < pr.len() && pr[k] == t;
                assert(p[k] == t);
            } else {
                assert(p[p.len() - 1] == t);
            }
        }
    }
}

/// The chat part of an update request is checked field by field: a given
/// URL passes exactly when it starts with `http://` or `https://` (and fails
/// with a message otherwise), a given API key always passes, and a field
/// that is not given is not checked.
pub proof fn law_chat_update_checks(u: ChatConfigUpdate)
    ensures
        spec_chat_checks(u).contains(("chat.url"@, None::<Seq<char>>)) <==> (u.url is Some
            && (spec_starts_with(u.url->0@, "http://"@) || spec_starts_with(u.url->0@, "https://"@))),
        (exists|m: Seq<char>| spec_chat_checks(u).contains(("chat.url"@, Some(m)))) <==> (u.url is Some
            && !(spec_starts_with(u.url->0@, "http://"@) || spec_starts_with(u.url->0@, "https://"@))),
        spec_chat_checks(u).contains(("chat.api_key"@, None::<Seq<char>>)) <==> u.api_key is Some,
        spec_chat_checks(u).len() == (if u.url is Some { 1nat } else { 0nat }) + (if u.api_key is Some { 1nat } else { 0nat }),
{
    reveal_strlit("chat.url");
    reveal_strlit("chat.api_key");
    reveal_strlit("http://");
    reveal_strlit("https://");
    assert("chat.url"@.len() != "chat.api_key"@.len());
    let a = spec_url_checks(u.url, "chat.url"@);
    let b = spec_key_checks(u.api_key, "chat.api_key"@);
    assert(spec_chat_checks(u) == a + b);
    lemma_contains_concat(a, b, ("chat.url"@, None::<Seq<char>>));
    lemma_contains_concat(a, b, ("chat.api_key"@, None::<Seq<char>>));
    if u.url is Some {
        let s = u.url->0@;
        if spec_starts_with(s, "http://"@) || spec_starts_with(s, "https://"@) {
            assert(s.len() > 0);
            assert(a[0] == ("chat.url"@, None::<Seq<char>>));
        } else {
            let m = a[0].1->0;
            lemma_contains_concat(a, b, ("chat.url"@, Some(m)));
            assert(a[0] == ("chat.url"@, Some(m)));
        }
    }
    if u.api_key is Some {
        assert(b[0] == ("chat.api_key"@, None::<Seq<char>>));
    }
    assert forall|m: Seq<char>| !(u.url is Some && !(spec_starts_with(u.url->0@, "http://"@) || spec_starts_with(u.url->0@, "https://"@)))
        implies !#[trigger] spec_chat_checks(u).contains(("chat.url"@, Some(m))) by {
        lemma_contains_concat(a, b, ("chat.url"@, Some(m)));
    }
}

/// The embedding part of an update request is checked field by field: a given
/// URL passes exactly when it starts with `http://` or `https://` (and fails
/// with a message otherwise), a given API key always passes, and a field
/// that is not given is not checked.
pub proof fn law_embedding_update_checks(u: EmbeddingConfigUpdate)
    ensures
        spec_embedding_checks(u).contains(("embedding.url"@, None::<Seq<char>>)) <==> (u.url is Some
            && (spec_starts_with(u.url->0@, "http://"@) || spec_starts_with(u.url->0@, "https://"@))),
        (exists|m: Seq<char>| spec_embedding_checks(u).contains(("embedding.url"@, Some(m)))) <==> (u.url is Some
            && !(spec_starts_with(u.url->0@, "http://"@) || spec_starts_with(u.url->0@, "https://"@))),
        spec_embedding_checks(u).contains(("embedding.api_key"@, None::<Seq<char>>)) <==> u.api_key is Some,
        spec_embedding_checks(u).len() == (if u.url is Some { 1nat } else { 0nat }) + (if u.api_key is Some { 1nat } else { 0nat }),
{
    reveal_strlit("embedding.url");
    reveal_strlit("embedding.api_key");
    reveal_strlit("http://");
    reveal_strlit("https://");
    assert("embedding.url"@.len() != "embedding.api_key"@.len());
    let a = spec_url_checks(u.url, "embedding.url"@);
    let b = spec_key_checks(u.api_key, "embedding.api_key"@);
    assert(spec_embedding_checks(u) == a + b);
    lemma_contains_concat(a, b, ("embedding.url"@, None::<Seq<char>>));
    lemma_contains_concat(a, b, ("embedding.api_key"@, None::<Seq<char>>));
    if u.url is Some {
        let s = u.url->0@;
        if spec_starts_with(s, "http://"@) || spec_starts_with(s, "https://"@) {
            assert(s.len() > 0);
            assert(a[0] == ("embedding.url"@, None::<Seq<char>>));
        } else {
            let m = a[0].1->0;
            lemma_contains_concat(a, b, ("embedding.url"@, Some(m)));
            assert(a[0] == ("embedding.url"@, Some(m)));
        }
    }
    if u.api_key is Some {
        assert(b[0] == ("embedding.api_key"@, None::<Seq<char>>));
    }
    assert forall|m: Seq<char>| !(u.url is Some && !(spec_starts_with(u.url->0@, "http://"@) || spec_starts_with(u.url->0@, "https://"@)))
        implies !#[trigger] spec_embedding_checks(u).contains(("embedding.url"@, Some(m))) by {
        lemma_contains_concat(a, b, ("embedding.url"@, Some(m)));
    }
}

/// What a pushed sequence holds.
proof fn lemma_contains_push<A>(a: Seq<A>, x: A, y: A)
    ensures
        a.push(x).contains(y) <==> (a.contains(y) || x == y),
{
    assert(a.push(x) =~= a + seq![x]);
    lemma_contains_concat(a, seq![x], y);
    if seq![x].contains(y) {
        let i = choose|i: int| 0 <= i < 1 && seq![x][i] == y;
        assert(i == 0);
    }
    if x == y {
        assert(seq![x][0] == y);
    }
}

/// A check recorded from scratch lists a field as valid exactly when some
/// check of it passed, and lists an error for it exactly when some check of
/// it failed.
proof fn lemma_validated_fields(checks: Seq<Check>, f: Seq<char>)
    ensures
        spec_validated(checks).0.contains(f) <==> checks.contains((f, None::<Seq<char>>)),
        forall|m: Seq<char>| #[trigger] spec_validated(checks).1.contains((f, m)) <==> checks.contains((f, Some(m))),
    decreases checks.len(),
{
    if checks.len() == 0 {
        assert(spec_validated(checks).0.len() == 0);
        assert(spec_validated(checks).1.len() == 0);
    } else {
        let rest = checks.drop_last();
        lemma_validated_fields(rest, f);
        let c = checks.last();
        let before = spec_validated(rest);
        assert(checks =~= rest.push(c));
        lemma_contains_push(rest, c, (f, None::<Seq<char>>));
        match c.1 {
            None => {
                assert(spec_validated(checks) == (before.0.push(c.0), before.1));
                lemma_contains_push(before.0, c.0, f);
                assert forall|m: Seq<char>| #[trigger] spec_validated(checks).1.contains((f, m)) <==> checks.contains((f, Some(m))) by {
                    lemma_contains_push(rest, c, (f, Some(m)));
                }
            },
            Some(m0) => {
                assert(spec_validated(checks) == (before.0, before.1.push((c.0, m0))));
                assert forall|m: Seq<char>| #[trigger] spec_validated(checks).1.contains((f, m)) <==> checks.contains((f, Some(m))) by {
                    lemma_contains_push(rest, c, (f, Some(m)));
                    lemma_contains_push(before.1, (c.0, m0), (f, m));
                }
            },
        }
    }
}

/// Every check in `cs` names a field whose first character is `ch`.
pub open spec fn checks_of_section(cs: Seq<Check>, ch: char) -> bool {
    forall|i: int| 0 <= i < cs.len() ==> (#[trigger] cs[i]).0.len() > 0 && cs[i].0[0] == ch
}

proof fn lemma_section_concat(a: Seq<Check>, b: Seq<Check>, ch: char)
    requires
        checks_of_section(a, ch),
        checks_of_section(b, ch),
    ensures
        checks_of_section(a + b, ch),
{
    assert forall|i: int| 0 <= i < (a + b).len() implies (#[trigger] (a + b)[i]).0.len() > 0 && (a + b)[i].0[0] == ch by {
        if i < a.len() {
            assert((a + b)[i] == a[i]);
        } else {
            assert((a + b)[i] == b[i - a.len()]);
        }
    }
}

proof fn lemma_opt_check_section<T>(v: Option<T>, f: Seq<char>, ok: spec_fn(T) -> bool, msg: Seq<char>, ch: char)
    requires
        f.len() > 0,
        f[0] == ch,
    ensures
        checks_of_section(crate::config_api::validate::opt_check(v, f, ok, msg), ch),
{
}

proof fn lemma_server_part_section(req: ConfigUpdateRequest)
    ensures
        checks_of_section(server_part(req), 's'),
{
    if let Some(u) = req.server {
        reveal_strlit("server.max_tools_per_iteration");
        reveal_strlit("server.tool_call_max_retries");
        reveal_strlit("server.tool_call_retry_delay_ms");
        reveal_strlit("server.max_plan_subtasks");
        reveal_strlit("server.plan_timeout_secs");
        reveal_strlit("server.subtask_max_retries");
        reveal_strlit("server.subtask_react_max_iterations");
        reveal_strlit("server.subtask_react_timeout_secs");
        let c1 = crate::config_api::validate::opt_check(u.max_tools_per_iteration, "server.max_tools_per_iteration"@, |v: usize| 1 <= v <= 50, "must be between 1 and 50"@);
        let c2 = crate::config_api::validate::opt_check(u.tool_call_max_retries, "server.tool_call_max_retries"@, |v: u32| v <= 10, "must be between 0 and 10"@);
        let c3 = crate::config_api::validate::opt_check(u.tool_call_retry_delay_ms, "server.tool_call_retry_delay_ms"@, |v: u64| v <= 10000, "must be between 0 and 10000"@);
        let c4 = crate::config_api::validate::opt_check(u.max_plan_subtasks, "server.max_plan_subtasks"@, |v: usize| 1 <= v <= 50, "must be between 1 and 50"@);
        let c5 = crate::config_api::validate::opt_check(u.plan_timeout_secs, "server.plan_timeout_secs"@, |v: u64| 60 <= v <= 7200, "must be between 60 and 7200"@);
        let c6 = crate::config_api::validate::opt_check(u.subtask_max_retries, "server.subtask_max_retries"@, |v: u32| v <= 10, "must be between 0 and 10"@);
        let c7 = crate::config_api::validate::opt_check(u.subtask_react_max_iterations, "server.subtask_react_max_iterations"@, |v: u32| 1 <= v <= 20, "must be between 1 and 20"@);
        let c8 = crate::config_api::validate::opt_check(u.subtask_react_timeout_secs, "server.subtask_react_timeout_secs"@, |v: u64| 10 <= v <= 600, "must be between 10 and 600"@);
        lemma_section_concat(c1, c2, 's');
        lemma_section_concat(c1 + c2, c3, 's');
        lemma_section_concat(c1 + c2 + c3, c4, 's');
        lemma_section_concat(c1 + c2 + c3 + c4, c5, 's');
        lemma_section_concat(c1 + c2 + c3 + c4 + c5, c6, 's');
        lemma_section_concat(c1 + c2 + c3 + c4 + c5 + c6, c7, 's');
        lemma_section_concat(c1 + c2 + c3 + c4 + c5 + c6 + c7, c8, 's');
        assert(server_part(req) == c1 + c2 + c3 + c4 + c5 + c6 + c7 + c8);
    }
}

proof fn lemma_memory_part_section(req: ConfigUpdateRequest)
    ensures
        checks_of_section(memory_part(req), 'm'),
{
    if let Some(u) = req.memory {
        reveal_strlit("memory.auto_summarize");
        reveal_strlit("memory.summarization_strategy");
        reveal_strlit("memory.summarize_threshold");
        reveal_strlit("memory.max_stored_messages");
        let c1: Seq<Check> = if u.auto_summarize is Some { check("memory.auto_summarize"@, true, Seq::empty()) } else { Seq::empty() };
        let c2: Seq<Check> = if u.summarization_strategy is Some { check("memory.summarization_strategy"@, true, Seq::empty()) } else { Seq::empty() };
        let c3 = crate::config_api::validate::opt_check(u.summarize_threshold, "memory.summarize_threshold"@, |v: u32| 2 <= v <= 100, "must be between 2 and 100"@);
        let c4 = crate::config_api::validate::opt_check(u.max_stored_messages, "memory.max_stored_messages"@, |v: u32| 5 <= v <= 500, "must be between 5 and 500"@);
        lemma_section_concat(c1, c2, 'm');
        lemma_section_concat(c1 + c2, c3, 'm');
        lemma_section_concat(c1 + c2 + c3, c4, 'm');
        assert(memory_part(req) == c1 + c2 + c3 + c4);
    }
}

proof fn lemma_other_parts_section(req: ConfigUpdateRequest)
    ensures
        checks_of_section(rag_part(req), 'r'),
        checks_of_section(chat_part(req), 'c'),
        checks_of_section(embedding_part(req), 'e'),
{
    reveal_strlit("rag.enable");
    reveal_strlit("chat.url");
    reveal_strlit("chat.api_key");
    reveal_strlit("embedding.url");
    reveal_strlit("embedding.api_key");
    if let Some(u) = req.chat {
        lemma_section_concat(spec_url_checks(u.url, "chat.url"@), spec_key_checks(u.api_key, "chat.api_key"@), 'c');
    }
    if let Some(u) = req.embedding {
        lemma_section_concat(spec_url_checks(u.url, "embedding.url"@), spec_key_checks(u.api_key, "embedding.api_key"@), 'e');
    }
}

/// A check of the chat or embedding URL is among a request's checks
/// exactly when it is among the checks of that section.
proof fn lemma_request_url_check(req: ConfigUpdateRequest, x: Check)
    requires
        x.0 == "chat.url"@ || x.0 == "embedding.url"@,
    ensures
        x.0 == "chat.url"@ ==> (spec_request_checks(req).contains(x) <==> chat_part(req).contains(x)),
        x.0 == "embedding.url"@ ==> (spec_request_checks(req).contains(x) <==> embedding_part(req).contains(x)),
{
    reveal_strlit("chat.url");
    reveal_strlit("embedding.url");
    lemma_server_part_section(req);
    lemma_memory_part_section(req);
    lemma_other_parts_section(req);
    let s = server_part(req);
    let c = chat_part(req);
    let e = embedding_part(req);
    let m = memory_part(req);
    let r = rag_part(req);
    assert(spec_request_checks(req) == s + c + e + m + r);
    lemma_contains_concat(s + c + e + m, r, x);
    lemma_contains_concat(s + c + e, m, x);
    lemma_contains_concat(s + c, e, x);
    lemma_contains_concat(s, c, x);
    assert(x.0[0] == 'c' || x.0[0] == 'e');
    if s.contains(x) { let i = choose|i: int| 0 <= i < s.len() && s[i] == x; assert(s[i].0[0] == 's'); }
    if m.contains(x) { let i = choose|i: int| 0 <= i < m.len() && m[i] == x; assert(m[i].0[0] == 'm'); }
    if r.contains(x) { let i = choose|i: int| 0 <= i < r.len() && r[i] == x; assert(r[i].0[0] == 'r'); }
    if c.contains(x) && x.0 == "embedding.url"@ { let i = choose|i: int| 0 <= i < c.len() && c[i] == x; assert(c[i].0[0] == 'c'); }
    if e.contains(x) && x.0 == "chat.url"@ { let i = choose|i: int| 0 <= i < e.len() && e[i] == x; assert(e[i].0[0] == 'e'); }
}

/// What validating a whole request says of a chat or embedding URL: the
/// field is listed as valid exactly when the request gives that URL and it
/// starts with `http://` or `https://`, and has an error exactly when the
/// request gives it and it does not.
#[verifier::spinoff_prover]
pub proof fn law_request_url_validation(req: ConfigUpdateRequest)
    ensures
        spec_validated(spec_request_checks(req)).0.contains("chat.url"@) <==> (req.chat matches Some(c) && c.url is Some
            && (spec_starts_with(c.url->0@, "http://"@) || spec_starts_with(c.url->0@, "https://"@))),
        (exists|m: Seq<char>| spec_validated(spec_request_checks(req)).1.contains(("chat.url"@, m))) <==> (req.chat matches Some(c)
            && c.url is Some && !(spec_starts_with(c.url->0@, "http://"@) || spec_starts_with(c.url->0@, "https://"@))),
        spec_validated(spec_request_checks(req)).0.contains("embedding.url"@) <==> (req.embedding matches Some(e) && e.url is Some
            && (spec_starts_with(e.url->0@, "http://"@) || spec_starts_with(e.url->0@, "https://"@))),
        (exists|m: Seq<char>| spec_validated(spec_request_checks(req)).1.contains(("embedding.url"@, m))) <==> (req.embedding matches Some(e)
            && e.url is Some && !(spec_starts_with(e.url->0@, "http://"@) || spec_starts_with(e.url->0@, "https://"@))),
{
    let all = spec_request_checks(req);
    lemma_validated_fields(all, "chat.url"@);
    lemma_validated_fields(all, "embedding.url"@);
    lemma_request_url_check(req, ("chat.url"@, None::<Seq<char>>));
    lemma_request_url_check(req, ("embedding.url"@, None::<Seq<char>>));
    assert forall|mm: Seq<char>| #[trigger] all.contains(("chat.url"@, Some(mm))) <==> chat_part(req).contains(("chat.url"@, Some(mm))) by {
        lemma_request_url_check(req, ("chat.url"@, Some(mm)));
    }
    assert forall|mm: Seq<char>| #[trigger] all.contains(("embedding.url"@, Some(mm))) <==> embedding_part(req).contains(("embedding.url"@, Some(mm))) by {
        lemma_request_url_check(req, ("embedding.url"@, Some(mm)));
    }
    match req.chat {
        Some(cu) => { law_chat_update_checks(cu); },
        None => { assert(chat_part(req).len() == 0); },
    }
    match req.embedding {
        Some(eu) => { law_embedding_update_checks(eu); },
        None => { assert(embedding_part(req).len() == 0); },
    }
    let v1 = spec_validated(all).1;
    if exists|m: Seq<char>| v1.contains(("chat.url"@, m)) {
        let m = choose|m: Seq<char>| v1.contains(("chat.url"@, m));
        assert(all.contains(("chat.url"@, Some(m))));
        assert(chat_part(req).contains(("chat.url"@, Some(m))));
    }
    if exists|m: Seq<char>| chat_part(req).contains(("chat.url"@, Some(m))) {
        let m = choose|m: Seq<char>| chat_part(req).contains(("chat.url"@, Some(m)));
        assert(all.contains(("chat.url"@, Some(m))));
        assert(v1.contains(("chat.url"@, m)));
    }
    if exists|m: Seq<char>| v1.contains(("embedding.url"@, m)) {
        let m = choose|m: Seq<char>| v1.contains(("embedding.url"@, m));
        assert(all.contains(("embedding.url"@, Some(m))));
        assert(embedding_part(req).contains(("embedding.url"@, Some(m))));
    }
    if exists|m: Seq<char>| embedding_part(req).contains(("embedding.url"@, Some(m))) {
        let m = choose|m: Seq<char>| embedding_part(req).contains(("embedding.url"@, Some(m)));
        assert(all.contains(("embedding.url"@, Some(m))));
        assert(v1.contains(("embedding.url"@, m)));
    }
}

} // verus!
