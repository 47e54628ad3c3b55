//! Applying a validated update request to the configuration: each present
//! field whose path was validated is written, and recorded as updated; a
//! field of a section that does not exist is recorded as failed.

use vstd::prelude::*;
use super::types::{
    ChatConfigUpdate, ConfigUpdateRequest, ConfigUpdateResponse, EmbeddingConfigUpdate,
    LantaiAutoMemoryConfigUpdate, MemoryConfigUpdate, RagConfigUpdate, ServerConfigUpdate,
    SubagentConfigUpdate, list_contains, side_effect_fields, spec_side_effect_fields,
};
use crate::config::{
    ChatConfig, Config, EmbeddingConfig, MemoryConfig, MossLantaiConfig, RagConfig, ServerConfig,
    SubAgentSystemConfig,
};
use crate::ordered_map::{OrderedMap, value_views};
use crate::text::{spec_starts_with, starts_with, str_eq, views};

verus! {

/// Updated fields, fields needing a service reload, and failed fields with
/// their reasons.
pub type UpdateView = (Seq<Seq<char>>, Seq<Seq<char>>, Map<Seq<char>, Seq<char>>);

/// What one run of updates did.
pub struct UpdateResult {
    /// Fields that were updated.
    pub updated_fields: Vec<String>,
    /// Updated fields whose change needs a service reload.
    pub side_effect_fields: Vec<String>,
    /// Fields that failed, with the reason.
    pub failed_fields: OrderedMap<String>,
}

/// The result after recording `field` as updated.
pub open spec fn spec_add_updated(rv: UpdateView, field: Seq<char>) -> UpdateView {
    (
        rv.0.push(field),
        if spec_side_effect_fields().contains(field) { rv.1.push(field) } else { rv.1 },
        rv.2,
    )
}

/// The result after recording `field` as failed.
pub open spec fn spec_add_failed(rv: UpdateView, field: Seq<char>, reason: Seq<char>) -> UpdateView {
    (rv.0, rv.1, rv.2.insert(field, reason))
}

/// Records `field` as updated when `cond` holds.
pub open spec fn upd(rv: UpdateView, cond: bool, field: Seq<char>) -> UpdateView {
    if cond { spec_add_updated(rv, field) } else { rv }
}

/// Records `field` as failed when `cond` holds.
pub open spec fn fail(rv: UpdateView, cond: bool, field: Seq<char>, reason: Seq<char>) -> UpdateView {
    if cond { spec_add_failed(rv, field, reason) } else { rv }
}

/// A value is given and its field was validated.
pub open spec fn applies<T>(v: Option<T>, validated: Seq<Seq<char>>, field: Seq<char>) -> bool {
    v is Some && validated.contains(field)
}

/// The new value of a field: the given one when it applies, else the old one.
pub open spec fn pick<T>(v: Option<T>, validated: Seq<Seq<char>>, field: Seq<char>, old: T) -> T {
    if applies(v, validated, field) { v.unwrap() } else { old }
}

impl UpdateResult {
    /// The result as values.
    pub open spec fn spec_view(&self) -> UpdateView {
        (views(self.updated_fields@), views(self.side_effect_fields@), value_views(self.failed_fields@))
    }

    /// A result with nothing recorded.
    pub fn new() -> (r: Self)
        ensures
            r.spec_view() == (Seq::<Seq<char>>::empty(), Seq::<Seq<char>>::empty(), Map::<Seq<char>, Seq<char>>::empty()),
    {
        let r = UpdateResult { updated_fields: Vec::new(), side_effect_fields: Vec::new(), failed_fields: OrderedMap::new() };
        assert(r.spec_view().0 =~= Seq::<Seq<char>>::empty());
        assert(r.spec_view().1 =~= Seq::<Seq<char>>::empty());
        assert(r.spec_view().2 =~= Map::<Seq<char>, Seq<char>>::empty());
        r
    }

    /// Records `field` as updated, and as needing a reload when it is one of
    /// the side-effect fields.
    pub fn add_updated(&mut self, field: &str)
        ensures
            final(self).spec_view() == spec_add_updated(old(self).spec_view(), field@),
            final(self).failed_fields == old(self).failed_fields,
    {
        crate::text::push_string(&mut self.updated_fields, String::from_str(field));
        let side = side_effect_fields();
        if list_contains(&side, field) {
            crate::text::push_string(&mut self.side_effect_fields, String::from_str(field));
        }
    }

    /// Records `field` as failed for `reason`.
    pub fn add_failed(&mut self, field: &str, reason: &str)
        ensures
            final(self).spec_view() == spec_add_failed(old(self).spec_view(), field@, reason@),
            final(self).updated_fields == old(self).updated_fields,
            final(self).side_effect_fields == old(self).side_effect_fields,
    {
        self.failed_fields.insert(String::from_str(field), String::from_str(reason));
        assert(value_views(self.failed_fields@) =~= value_views(old(self).failed_fields@).insert(field@, reason@));
    }

    /// The answer to the request: a success when nothing failed, else a
    /// partial success; each field needing a reload adds an action.
    pub fn into_response(self) -> (r: ConfigUpdateResponse)
        ensures
            r.success == (self.failed_fields@ == Map::<Seq<char>, String>::empty()),
            r.updated_fields@ == self.updated_fields@,
            value_views(r.failed_fields@) == value_views(self.failed_fields@),
            r.message@ == if self.failed_fields@ == Map::<Seq<char>, String>::empty() {
                super::types::spec_success_message(self.updated_fields@.len())
            } else {
                "Some fields could not be updated"@
            },
            value_views(r.requires_action@) == spec_actions(Map::empty(), views(self.side_effect_fields@)),
    {
        let has_failures = !self.failed_fields.is_empty();
        let UpdateResult { updated_fields, side_effect_fields, failed_fields } = self;
        let mut response = if has_failures {
            ConfigUpdateResponse::partial(updated_fields, failed_fields)
        } else {
            ConfigUpdateResponse::success(updated_fields)
        };
        assert(value_views(response.requires_action@) =~= Map::<Seq<char>, Seq<char>>::empty());
        assert(value_views(response.failed_fields@) =~= value_views(self.failed_fields@));
        let ghost sv = views(side_effect_fields@);
        let mut i: usize = 0;
        while i < side_effect_fields.len()
            invariant
                i <= side_effect_fields@.len(),
                sv == views(side_effect_fields@),
                response.success == !has_failures,
                has_failures == (self.failed_fields@ != Map::<Seq<char>, String>::empty()),
                response.updated_fields@ == self.updated_fields@,
                value_views(response.failed_fields@) == value_views(self.failed_fields@),
                response.message@ == if self.failed_fields@ == Map::<Seq<char>, String>::empty() {
                    super::types::spec_success_message(self.updated_fields@.len())
                } else {
                    "Some fields could not be updated"@
                },
                value_views(response.requires_action@) == spec_actions(Map::empty(), sv.take(i as int)),
            decreases side_effect_fields@.len() - i,
        {
            let field = side_effect_fields[i].as_str();
            let action = reload_action(field);
            response = response.with_action(field, action);
            proof {
                assert(sv.take(i + 1).drop_last() =~= sv.take(i as int));
                assert(sv.take(i + 1).last() == field@);
            }
            i = i + 1;
        }
        assert(sv.take(side_effect_fields@.len() as int) =~= sv);
        response
    }
}

impl Default for UpdateResult {
    fn default() -> (r: Self)
        ensures
            r.spec_view() == (Seq::<Seq<char>>::empty(), Seq::<Seq<char>>::empty(), Map::<Seq<char>, Seq<char>>::empty()),
    {
        Self::new()
    }
}

/// The action announced for a field that needs a reload.
pub open spec fn spec_reload_action(field: Seq<char>) -> Seq<char> {
    if spec_starts_with(field, "chat."@) {
        "chat_service_will_be_reloaded"@
    } else if spec_starts_with(field, "embedding."@) {
        "embedding_service_will_be_reloaded"@
    } else {
        "service_reload_required"@
    }
}

/// The actions map after announcing each field in order.
pub open spec fn spec_actions(start: Map<Seq<char>, Seq<char>>, fields: Seq<Seq<char>>) -> Map<Seq<char>, Seq<char>>
    decreases fields.len(),
{
    if fields.len() == 0 {
        start
    } else {
        spec_actions(start, fields.drop_last()).insert(fields.last(), spec_reload_action(fields.last()))
    }
}

/// The action announced for a field that needs a reload.
pub fn reload_action(field: &str) -> (r: &'static str)
    ensures
        r@ == spec_reload_action(field@),
{
    if starts_with(field, "chat.") {
        "chat_service_will_be_reloaded"
    } else if starts_with(field, "embedding.") {
        "embedding_service_will_be_reloaded"
    } else {
        "service_reload_required"
    }
}

/// Whether `field` is among the validated fields.
pub fn is_validated(validated: &Vec<String>, field: &str) -> (r: bool)
    ensures
        r == views(validated@).contains(field@),
{
    let mut i: usize = 0;
    while i < validated.len()
        invariant
            i <= validated@.len(),
            forall|j: int| 0 <= j < i ==> validated@[j]@ != field@,
        decreases validated@.len() - i,
    {
        if str_eq(validated[i].as_str(), field) {
            assert(views(validated@)[i as int] == field@);
            return true;
        }
        i = i + 1;
    }
    assert forall|j: int| 0 <= j < validated@.len() implies views(validated@)[j] != field@ by {
        assert(views(validated@)[j] == validated@[j]@);
    }
    false
}

fn note(result: &mut UpdateResult, cond: bool, field: &str)
    ensures
        final(result).spec_view() == upd(old(result).spec_view(), cond, field@),
{
    if cond {
        result.add_updated(field);
    }
}

fn note_failed(result: &mut UpdateResult, cond: bool, field: &str, reason: &str)
    ensures
        final(result).spec_view() == fail(old(result).spec_view(), cond, field@, reason@),
{
    if cond {
        result.add_failed(field, reason);
    }
}

/// The server section after an update.
pub open spec fn spec_server_after(s: ServerConfig, u: ServerConfigUpdate, v: Seq<Seq<char>>) -> ServerConfig {
    ServerConfig {
        max_tools_per_iteration: pick(u.max_tools_per_iteration, v, "server.max_tools_per_iteration"@, s.max_tools_per_iteration),
        tool_call_max_retries: pick(u.tool_call_max_retries, v, "server.tool_call_max_retries"@, s.tool_call_max_retries),
        tool_call_retry_delay_ms: pick(u.tool_call_retry_delay_ms, v, "server.tool_call_retry_delay_ms"@, s.tool_call_retry_delay_ms),
        max_plan_subtasks: pick(u.max_plan_subtasks, v, "server.max_plan_subtasks"@, s.max_plan_subtasks),
        plan_timeout_secs: pick(u.plan_timeout_secs, v, "server.plan_timeout_secs"@, s.plan_timeout_secs),
        subtask_max_retries: pick(u.subtask_max_retries, v, "server.subtask_max_retries"@, s.subtask_max_retries),
        subtask_react_max_iterations: pick(u.subtask_react_max_iterations, v, "server.subtask_react_max_iterations"@, s.subtask_react_max_iterations),
        subtask_react_timeout_secs: pick(u.subtask_react_timeout_secs, v, "server.subtask_react_timeout_secs"@, s.subtask_react_timeout_secs),
        ..s
    }
}

/// The record of a server update.
pub open spec fn spec_server_record(rv: UpdateView, u: ServerConfigUpdate, v: Seq<Seq<char>>) -> UpdateView {
    let r1 = upd(rv, applies(u.max_tools_per_iteration, v, "server.max_tools_per_iteration"@), "server.max_tools_per_iteration"@);
    let r2 = upd(r1, applies(u.tool_call_max_retries, v, "server.tool_call_max_retries"@), "server.tool_call_max_retries"@);
    let r3 = upd(r2, applies(u.tool_call_retry_delay_ms, v, "server.tool_call_retry_delay_ms"@), "server.tool_call_retry_delay_ms"@);
    let r4 = upd(r3, applies(u.max_plan_subtasks, v, "server.max_plan_subtasks"@), "server.max_plan_subtasks"@);
    let r5 = upd(r4, applies(u.plan_timeout_secs, v, "server.plan_timeout_secs"@), "server.plan_timeout_secs"@);
    let r6 = upd(r5, applies(u.subtask_max_retries, v, "server.subtask_max_retries"@), "server.subtask_max_retries"@);
    let r7 = upd(r6, applies(u.subtask_react_max_iterations, v, "server.subtask_react_max_iterations"@), "server.subtask_react_max_iterations"@);
    upd(r7, applies(u.subtask_react_timeout_secs, v, "server.subtask_react_timeout_secs"@), "server.subtask_react_timeout_secs"@)
}

/// Applies the server fields of an update.
pub fn apply_server_config_update(server: &mut ServerConfig, update: &ServerConfigUpdate, validated_fields: &Vec<String>, result: &mut UpdateResult)
    ensures
        *final(server) == spec_server_after(*old(server), *update, views(validated_fields@)),
        final(result).spec_view() == spec_server_record(old(result).spec_view(), *update, views(validated_fields@)),
{
    let c = update.max_tools_per_iteration.is_some() && is_validated(validated_fields, "server.max_tools_per_iteration");
    if c {
        server.max_tools_per_iteration = update.max_tools_per_iteration.unwrap();
    }
    note(result, c, "server.max_tools_per_iteration");
    let c = update.tool_call_max_retries.is_some() && is_validated(validated_fields, "server.tool_call_max_retries");
    if c {
        server.tool_call_max_retries = update.tool_call_max_retries.unwrap();
    }
    note(result, c, "server.tool_call_max_retries");
    let c = update.tool_call_retry_delay_ms.is_some() && is_validated(validated_fields, "server.tool_call_retry_delay_ms");
    if c {
        server.tool_call_retry_delay_ms = update.tool_call_retry_delay_ms.unwrap();
    }
    note(result, c, "server.tool_call_retry_delay_ms");
    let c = update.max_plan_subtasks.is_some() && is_validated(validated_fields, "server.max_plan_subtasks");
    if c {
        server.max_plan_subtasks = update.max_plan_subtasks.unwrap();
    }
    note(result, c, "server.max_plan_subtasks");
    let c = update.plan_timeout_secs.is_some() && is_validated(validated_fields, "server.plan_timeout_secs");
    if c {
        server.plan_timeout_secs = update.plan_timeout_secs.unwrap();
    }
    note(result, c, "server.plan_timeout_secs");
    let c = update.subtask_max_retries.is_some() && is_validated(validated_fields, "server.subtask_max_retries");
    if c {
        server.subtask_max_retries = update.subtask_max_retries.unwrap();
    }
    note(result, c, "server.subtask_max_retries");
    let c = update.subtask_react_max_iterations.is_some() && is_validated(validated_fields, "server.subtask_react_max_iterations");
    if c {
        server.subtask_react_max_iterations = update.subtask_react_max_iterations.unwrap();
    }
    note(result, c, "server.subtask_react_max_iterations");
    let c = update.subtask_react_timeout_secs.is_some() && is_validated(validated_fields, "server.subtask_react_timeout_secs");
    if c {
        server.subtask_react_timeout_secs = update.subtask_react_timeout_secs.unwrap();
    }
    note(result, c, "server.subtask_react_timeout_secs");
}

/// The reason given for a field of a chat section that does not exist.
pub open spec fn chat_missing() -> Seq<char> {
    "Chat configuration not initialized"@
}

/// The chat section after an update (absent sections stay absent).
pub open spec fn spec_chat_after(c: Option<ChatConfig>, u: ChatConfigUpdate, v: Seq<Seq<char>>) -> Option<ChatConfig> {
    match c {
        None => None,
        Some(cc) => Some(ChatConfig {
            url: pick(u.url, v, "chat.url"@, cc.url),
            api_key: pick(u.api_key, v, "chat.api_key"@, cc.api_key),
            model: pick(u.model, v, "chat.model"@, cc.model),
            model_context_size: pick(u.model_context_size, v, "chat.model_context_size"@, cc.model_context_size),
        }),
    }
}

/// The record of a chat update.
pub open spec fn spec_chat_record(rv: UpdateView, c: Option<ChatConfig>, u: ChatConfigUpdate, v: Seq<Seq<char>>) -> UpdateView {
    match c {
        None => {
            let r1 = fail(rv, u.url is Some, "chat.url"@, chat_missing());
            let r2 = fail(r1, u.api_key is Some, "chat.api_key"@, chat_missing());
            let r3 = fail(r2, u.model is Some, "chat.model"@, chat_missing());
            fail(r3, u.model_context_size is Some, "chat.model_context_size"@, chat_missing())
        },
        Some(_) => {
            let r1 = upd(rv, applies(u.url, v, "chat.url"@), "chat.url"@);
            let r2 = upd(r1, applies(u.api_key, v, "chat.api_key"@), "chat.api_key"@);
            let r3 = upd(r2, applies(u.model, v, "chat.model"@), "chat.model"@);
            upd(r3, applies(u.model_context_size, v, "chat.model_context_size"@), "chat.model_context_size"@)
        },
    }
}

/// Applies the chat fields of an update; fields of a missing section fail.
pub fn apply_chat_config_update(chat: &mut Option<ChatConfig>, update: &ChatConfigUpdate, validated_fields: &Vec<String>, result: &mut UpdateResult)
    ensures
        *final(chat) == spec_chat_after(*old(chat), *update, views(validated_fields@)),
        final(result).spec_view() == spec_chat_record(old(result).spec_view(), *old(chat), *update, views(validated_fields@)),
{
    let taken = chat.take();
    match taken {
        None => {
            note_failed(result, update.url.is_some(), "chat.url", "Chat configuration not initialized");
            note_failed(result, update.api_key.is_some(), "chat.api_key", "Chat configuration not initialized");
            note_failed(result, update.model.is_some(), "chat.model", "Chat configuration not initialized");
            note_failed(result, update.model_context_size.is_some(), "chat.model_context_size", "Chat configuration not initialized");
        },
        Some(mut cc) => {
            let c = update.url.is_some() && is_validated(validated_fields, "chat.url");
            if c {
                cc.url = update.url.as_ref().unwrap().clone();
            }
            note(result, c, "chat.url");
            let c = update.api_key.is_some() && is_validated(validated_fields, "chat.api_key");
            if c {
                cc.set_api_key(update.api_key.as_ref().unwrap().clone());
            }
            note(result, c, "chat.api_key");
            let c = update.model.is_some() && is_validated(validated_fields, "chat.model");
            if c {
                cc.model = update.model.as_ref().unwrap().clone();
            }
            note(result, c, "chat.model");
            let c = update.model_context_size.is_some() && is_validated(validated_fields, "chat.model_context_size");
            if c {
                cc.model_context_size = update.model_context_size.unwrap();
            }
            note(result, c, "chat.model_context_size");
            *chat = Some(cc);
        },
    }
}

/// An update that the embedding section cannot take: the section is absent,
/// a URL is given, but the URL was not validated (the section cannot be
/// created, and the update has nothing to apply to).
pub open spec fn embedding_update_stuck(e: Option<EmbeddingConfig>, u: EmbeddingConfigUpdate, v: Seq<Seq<char>>) -> bool {
    e is None && u.url is Some && !v.contains("embedding.url"@)
}

/// An embedding section as (URL, key).
pub open spec fn embedding_view(e: Option<EmbeddingConfig>) -> Option<(Seq<char>, Seq<char>)> {
    match e {
        Some(ec) => Some((ec.url@, ec.api_key@)),
        None => None,
    }
}

/// The embedding section after an update, as (URL, key): created from a
/// validated URL, with an empty key, when absent. An existing section keeps
/// its URL when `embedding.url` is already among the `updated` fields.
pub open spec fn spec_embedding_after(e: Option<EmbeddingConfig>, u: EmbeddingConfigUpdate, v: Seq<Seq<char>>, updated: Seq<Seq<char>>) -> Option<(Seq<char>, Seq<char>)> {
    match e {
        None => if u.url is None {
            None
        } else {
            Some((u.url.unwrap()@, if applies(u.api_key, v, "embedding.api_key"@) { u.api_key.unwrap()@ } else { Seq::empty() }))
        },
        Some(ec) => Some((
            if applies(u.url, v, "embedding.url"@) && !updated.contains("embedding.url"@) { u.url.unwrap()@ } else { ec.url@ },
            pick(u.api_key, v, "embedding.api_key"@, ec.api_key)@,
        )),
    }
}

/// The record of an embedding update. When the section already exists, the
/// URL is recorded unless `embedding.url` was already recorded as updated.
pub open spec fn spec_embedding_record(rv: UpdateView, e: Option<EmbeddingConfig>, u: EmbeddingConfigUpdate, v: Seq<Seq<char>>) -> UpdateView {
    match e {
        None => if u.url is None {
            fail(rv, u.api_key is Some, "embedding.api_key"@, "Embedding configuration not initialized, provide URL first"@)
        } else {
            let r1 = spec_add_updated(rv, "embedding.url"@);
            upd(r1, applies(u.api_key, v, "embedding.api_key"@), "embedding.api_key"@)
        },
        Some(_) => {
            let r1 = upd(rv, applies(u.url, v, "embedding.url"@) && !rv.0.contains("embedding.url"@), "embedding.url"@);
            upd(r1, applies(u.api_key, v, "embedding.api_key"@), "embedding.api_key"@)
        },
    }
}

/// Applies the embedding fields of an update, creating the section from a
/// validated URL when it is absent.
pub fn apply_embedding_config_update(embedding: &mut Option<EmbeddingConfig>, update: &EmbeddingConfigUpdate, validated_fields: &Vec<String>, result: &mut UpdateResult)
    requires
        !embedding_update_stuck(*old(embedding), *update, views(validated_fields@)),
    ensures
        embedding_view(*final(embedding)) == spec_embedding_after(*old(embedding), *update, views(validated_fields@), old(result).spec_view().0),
        final(result).spec_view() == spec_embedding_record(old(result).spec_view(), *old(embedding), *update, views(validated_fields@)),
{
    let taken = embedding.take();
    let mut ec = match taken {
        None => {
            match &update.url {
                None => {
                    note_failed(result, update.api_key.is_some(), "embedding.api_key", "Embedding configuration not initialized, provide URL first");
                    return;
                },
                Some(url) => {
                    let ok = is_validated(validated_fields, "embedding.url");
                    assert(ok);
                    result.add_updated("embedding.url");
                    EmbeddingConfig::new_with_url(url.clone())
                },
            }
        },
        Some(ec) => {
            let already = is_validated(&result.updated_fields, "embedding.url");
            let c = update.url.is_some() && is_validated(validated_fields, "embedding.url") && !already;
            let mut ec = ec;
            if c {
                ec.url = update.url.as_ref().unwrap().clone();
            }
            note(result, c, "embedding.url");
            ec
        },
    };
    let c = update.api_key.is_some() && is_validated(validated_fields, "embedding.api_key");
    if c {
        ec.set_api_key(update.api_key.as_ref().unwrap().clone());
    }
    note(result, c, "embedding.api_key");
    *embedding = Some(ec);
}

/// The reason given for a field of a memory section that does not exist.
pub open spec fn memory_missing() -> Seq<char> {
    "Memory configuration not initialized"@
}

/// The memory section after an update.
pub open spec fn spec_memory_after(m: Option<MemoryConfig>, u: MemoryConfigUpdate, v: Seq<Seq<char>>) -> Option<MemoryConfig> {
    match m {
        None => None,
        Some(mc) => Some(MemoryConfig {
            auto_summarize: pick(u.auto_summarize, v, "memory.auto_summarize"@, mc.auto_summarize),
            summarization_strategy: pick(u.summarization_strategy, v, "memory.summarization_strategy"@, mc.summarization_strategy),
            summarize_threshold: pick(u.summarize_threshold, v, "memory.summarize_threshold"@, mc.summarize_threshold),
            max_stored_messages: pick(u.max_stored_messages, v, "memory.max_stored_messages"@, mc.max_stored_messages),
            ..mc
        }),
    }
}

/// The record of a memory update.
pub open spec fn spec_memory_record(rv: UpdateView, m: Option<MemoryConfig>, u: MemoryConfigUpdate, v: Seq<Seq<char>>) -> UpdateView {
    match m {
        None => {
            let r1 = fail(rv, u.auto_summarize is Some, "memory.auto_summarize"@, memory_missing());
            let r2 = fail(r1, u.summarization_strategy is Some, "memory.summarization_strategy"@, memory_missing());
            let r3 = fail(r2, u.summarize_threshold is Some, "memory.summarize_threshold"@, memory_missing());
            fail(r3, u.max_stored_messages is Some, "memory.max_stored_messages"@, memory_missing())
        },
        Some(_) => {
            let r1 = upd(rv, applies(u.auto_summarize, v, "memory.auto_summarize"@), "memory.auto_summarize"@);
            let r2 = upd(r1, applies(u.summarization_strategy, v, "memory.summarization_strategy"@), "memory.summarization_strategy"@);
            let r3 = upd(r2, applies(u.summarize_threshold, v, "memory.summarize_threshold"@), "memory.summarize_threshold"@);
            upd(r3, applies(u.max_stored_messages, v, "memory.max_stored_messages"@), "memory.max_stored_messages"@)
        },
    }
}

/// Applies the memory fields of an update; fields of a missing section fail.
pub fn apply_memory_config_update(memory: &mut Option<MemoryConfig>, update: &MemoryConfigUpdate, validated_fields: &Vec<String>, result: &mut UpdateResult)
    ensures
        *final(memory) == spec_memory_after(*old(memory), *update, views(validated_fields@)),
        final(result).spec_view() == spec_memory_record(old(result).spec_view(), *old(memory), *update, views(validated_fields@)),
{
    let taken = memory.take();
    match taken {
        None => {
            note_failed(result, update.auto_summarize.is_some(), "memory.auto_summarize", "Memory configuration not initialized");
            note_failed(result, update.summarization_strategy.is_some(), "memory.summarization_strategy", "Memory configuration not initialized");
            note_failed(result, update.summarize_threshold.is_some(), "memory.summarize_threshold", "Memory configuration not initialized");
            note_failed(result, update.max_stored_messages.is_some(), "memory.max_stored_messages", "Memory configuration not initialized");
        },
        Some(mut mc) => {
            let c = update.auto_summarize.is_some() && is_validated(validated_fields, "memory.auto_summarize");
            if c {
                mc.auto_summarize = update.auto_summarize.unwrap();
            }
            note(result, c, "memory.auto_summarize");
            let c = update.summarization_strategy.is_some() && is_validated(validated_fields, "memory.summarization_strategy");
            if c {
                mc.summarization_strategy = update.summarization_strategy.unwrap();
            }
            note(result, c, "memory.summarization_strategy");
            let c = update.summarize_threshold.is_some() && is_validated(validated_fields, "memory.summarize_threshold");
            if c {
                mc.summarize_threshold = update.summarize_threshold.unwrap();
            }
            note(result, c, "memory.summarize_threshold");
            let c = update.max_stored_messages.is_some() && is_validated(validated_fields, "memory.max_stored_messages");
            if c {
                mc.max_stored_messages = update.max_stored_messages.unwrap();
            }
            note(result, c, "memory.max_stored_messages");
            *memory = Some(mc);
        },
    }
}

/// The RAG section after an update.
pub open spec fn spec_rag_after(r: Option<RagConfig>, u: RagConfigUpdate, v: Seq<Seq<char>>) -> Option<RagConfig> {
    match r {
        None => None,
        Some(rc) => Some(RagConfig { enable: pick(u.enable, v, "rag.enable"@, rc.enable), ..rc }),
    }
}

/// The record of a RAG update.
pub open spec fn spec_rag_record(rv: UpdateView, r: Option<RagConfig>, u: RagConfigUpdate, v: Seq<Seq<char>>) -> UpdateView {
    match r {
        None => fail(rv, u.enable is Some, "rag.enable"@, "RAG configuration not initialized"@),
        Some(_) => upd(rv, applies(u.enable, v, "rag.enable"@), "rag.enable"@),
    }
}

/// Applies the RAG fields of an update; fields of a missing section fail.
pub fn apply_rag_config_update(rag: &mut Option<RagConfig>, update: &RagConfigUpdate, validated_fields: &Vec<String>, result: &mut UpdateResult)
    ensures
        *final(rag) == spec_rag_after(*old(rag), *update, views(validated_fields@)),
        final(result).spec_view() == spec_rag_record(old(result).spec_view(), *old(rag), *update, views(validated_fields@)),
{
    let taken = rag.take();
    match taken {
        None => {
            note_failed(result, update.enable.is_some(), "rag.enable", "RAG configuration not initialized");
        },
        Some(mut rc) => {
            let c = update.enable.is_some() && is_validated(validated_fields, "rag.enable");
            if c {
                rc.enable = update.enable.unwrap();
            }
            note(result, c, "rag.enable");
            *rag = Some(rc);
        },
    }
}

/// The accepted execution modes.
pub open spec fn valid_execution_mode(m: Seq<char>) -> bool {
    m == "direct"@ || m == "subagent"@
}

/// The accepted parallel modes.
pub open spec fn valid_parallel_mode(m: Seq<char>) -> bool {
    m == "auto"@ || m == "sequential"@ || m == "manual"@
}

/// The sub-agent section after an update: a mode is written only when it is
/// one of the accepted ones.
pub open spec fn spec_subagent_after(s: Option<SubAgentSystemConfig>, u: SubagentConfigUpdate, v: Seq<Seq<char>>) -> Option<SubAgentSystemConfig> {
    match s {
        None => None,
        Some(sc) => {
            let em = applies(u.execution_mode, v, "subagent.execution_mode"@) && valid_execution_mode(u.execution_mode.unwrap()@);
            let pm = applies(u.parallel_mode, v, "subagent.parallel_mode"@) && valid_parallel_mode(u.parallel_mode.unwrap()@);
            Some(SubAgentSystemConfig {
                execution_mode: if em { u.execution_mode.unwrap() } else { sc.execution_mode },
                subtask_executor: crate::config::SubtaskExecutorConfig {
                    parallel_mode: if pm { u.parallel_mode.unwrap() } else { sc.subtask_executor.parallel_mode },
                },
                ..sc
            })
        },
    }
}

/// The record of a sub-agent update: an unaccepted mode fails.
pub open spec fn spec_subagent_record(rv: UpdateView, s: Option<SubAgentSystemConfig>, u: SubagentConfigUpdate, v: Seq<Seq<char>>) -> UpdateView {
    match s {
        None => {
            let r1 = fail(rv, u.execution_mode is Some, "subagent.execution_mode"@, "Sub-Agent configuration not initialized"@);
            fail(r1, u.parallel_mode is Some, "subagent.parallel_mode"@, "Sub-Agent configuration not initialized"@)
        },
        Some(_) => {
            let ea = applies(u.execution_mode, v, "subagent.execution_mode"@);
            let em = ea && valid_execution_mode(u.execution_mode.unwrap()@);
            let r1 = upd(rv, em, "subagent.execution_mode"@);
            let r2 = fail(r1, ea && !em, "subagent.execution_mode"@, "Invalid execution_mode. Must be 'direct' or 'subagent'"@);
            let pa = applies(u.parallel_mode, v, "subagent.parallel_mode"@);
            let pm = pa && valid_parallel_mode(u.parallel_mode.unwrap()@);
            let r3 = upd(r2, pm, "subagent.parallel_mode"@);
            fail(r3, pa && !pm, "subagent.parallel_mode"@, "Invalid parallel_mode. Must be 'auto', 'sequential', or 'manual'"@)
        },
    }
}

/// Applies the sub-agent fields of an update, rejecting unknown modes.
pub fn apply_subagent_config_update(subagent: &mut Option<SubAgentSystemConfig>, update: &SubagentConfigUpdate, validated_fields: &Vec<String>, result: &mut UpdateResult)
    ensures
        *final(subagent) == spec_subagent_after(*old(subagent), *update, views(validated_fields@)),
        final(result).spec_view() == spec_subagent_record(old(result).spec_view(), *old(subagent), *update, views(validated_fields@)),
{
    let taken = subagent.take();
    match taken {
        None => {
            note_failed(result, update.execution_mode.is_some(), "subagent.execution_mode", "Sub-Agent configuration not initialized");
            note_failed(result, update.parallel_mode.is_some(), "subagent.parallel_mode", "Sub-Agent configuration not initialized");
        },
        Some(mut sc) => {
            let ea = update.execution_mode.is_some() && is_validated(validated_fields, "subagent.execution_mode");
            let em = ea && {
                let m = update.execution_mode.as_ref().unwrap().as_str();
                str_eq(m, "direct") || str_eq(m, "subagent")
            };
            if em {
                sc.execution_mode = update.execution_mode.as_ref().unwrap().clone();
            }
            note(result, em, "subagent.execution_mode");
            note_failed(result, ea && !em, "subagent.execution_mode", "Invalid execution_mode. Must be 'direct' or 'subagent'");
            let pa = update.parallel_mode.is_some() && is_validated(validated_fields, "subagent.parallel_mode");
            let pm = pa && {
                let m = update.parallel_mode.as_ref().unwrap().as_str();
                str_eq(m, "auto") || str_eq(m, "sequential") || str_eq(m, "manual")
            };
            if pm {
                sc.subtask_executor.parallel_mode = update.parallel_mode.as_ref().unwrap().clone();
            }
            note(result, pm, "subagent.parallel_mode");
            note_failed(result, pa && !pm, "subagent.parallel_mode", "Invalid parallel_mode. Must be 'auto', 'sequential', or 'manual'");
            *subagent = Some(sc);
        },
    }
}

/// Some field of the auto-memory update is given.
pub open spec fn lantai_any(u: LantaiAutoMemoryConfigUpdate) -> bool {
    u.auto_summary is Some || u.checkpoint_token_ratio_bits is Some || u.embedding_model is Some
        || u.embedding_dimensions is Some || u.embedding_batch_size is Some
}

/// The knowledge-base section after an auto-memory update.
pub open spec fn spec_lantai_after(l: Option<MossLantaiConfig>, u: LantaiAutoMemoryConfigUpdate, v: Seq<Seq<char>>) -> Option<MossLantaiConfig> {
    match l {
        None => None,
        Some(lc) => Some(MossLantaiConfig {
            auto_memory: crate::config::LantaiAutoMemoryConfig {
                auto_summary: pick(u.auto_summary, v, "lantai_auto_memory.auto_summary"@, lc.auto_memory.auto_summary),
                checkpoint_token_ratio_bits: pick(u.checkpoint_token_ratio_bits, v, "lantai_auto_memory.checkpoint_token_ratio"@, lc.auto_memory.checkpoint_token_ratio_bits),
                ..lc.auto_memory
            },
            embedding: crate::config::LantaiEmbeddingSubConfig {
                model: pick(u.embedding_model, v, "lantai_auto_memory.embedding_model"@, lc.embedding.model),
                dimensions: pick(u.embedding_dimensions, v, "lantai_auto_memory.embedding_dimensions"@, lc.embedding.dimensions),
                batch_size: pick(u.embedding_batch_size, v, "lantai_auto_memory.embedding_batch_size"@, lc.embedding.batch_size),
            },
            ..lc
        }),
    }
}

/// The record of an auto-memory update.
pub open spec fn spec_lantai_record(rv: UpdateView, l: Option<MossLantaiConfig>, u: LantaiAutoMemoryConfigUpdate, v: Seq<Seq<char>>) -> UpdateView {
    match l {
        None => fail(rv, lantai_any(u), "lantai_auto_memory"@, "Lantai configuration not initialized"@),
        Some(_) => {
            let r1 = upd(rv, applies(u.auto_summary, v, "lantai_auto_memory.auto_summary"@), "lantai_auto_memory.auto_summary"@);
            let r2 = upd(r1, applies(u.checkpoint_token_ratio_bits, v, "lantai_auto_memory.checkpoint_token_ratio"@), "lantai_auto_memory.checkpoint_token_ratio"@);
            let r3 = upd(r2, applies(u.embedding_model, v, "lantai_auto_memory.embedding_model"@), "lantai_auto_memory.embedding_model"@);
            let r4 = upd(r3, applies(u.embedding_dimensions, v, "lantai_auto_memory.embedding_dimensions"@), "lantai_auto_memory.embedding_dimensions"@);
            upd(r4, applies(u.embedding_batch_size, v, "lantai_auto_memory.embedding_batch_size"@), "lantai_auto_memory.embedding_batch_size"@)
        },
    }
}

/// Applies the auto-memory fields of an update to the knowledge-base section.
pub fn apply_lantai_auto_memory_config_update(lantai: &mut Option<MossLantaiConfig>, update: &LantaiAutoMemoryConfigUpdate, validated_fields: &Vec<String>, result: &mut UpdateResult)
    ensures
        *final(lantai) == spec_lantai_after(*old(lantai), *update, views(validated_fields@)),
        final(result).spec_view() == spec_lantai_record(old(result).spec_view(), *old(lantai), *update, views(validated_fields@)),
{
    let taken = lantai.take();
    match taken {
        None => {
            let any = update.auto_summary.is_some() || update.checkpoint_token_ratio_bits.is_some() || update.embedding_model.is_some()
                || update.embedding_dimensions.is_some() || update.embedding_batch_size.is_some();
            note_failed(result, any, "lantai_auto_memory", "Lantai configuration not initialized");
        },
        Some(mut lc) => {
            let c = update.auto_summary.is_some() && is_validated(validated_fields, "lantai_auto_memory.auto_summary");
            if c {
                lc.auto_memory.auto_summary = update.auto_summary.unwrap();
            }
            note(result, c, "lantai_auto_memory.auto_summary");
            let c = update.checkpoint_token_ratio_bits.is_some() && is_validated(validated_fields, "lantai_auto_memory.checkpoint_token_ratio");
            if c {
                lc.auto_memory.checkpoint_token_ratio_bits = update.checkpoint_token_ratio_bits.unwrap();
            }
            note(result, c, "lantai_auto_memory.checkpoint_token_ratio");
            let c = update.embedding_model.is_some() && is_validated(validated_fields, "lantai_auto_memory.embedding_model");
            if c {
                lc.embedding.model = update.embedding_model.as_ref().unwrap().clone();
            }
            note(result, c, "lantai_auto_memory.embedding_model");
            let c = update.embedding_dimensions.is_some() && is_validated(validated_fields, "lantai_auto_memory.embedding_dimensions");
            if c {
                lc.embedding.dimensions = update.embedding_dimensions.unwrap();
            }
            note(result, c, "lantai_auto_memory.embedding_dimensions");
            let c = update.embedding_batch_size.is_some() && is_validated(validated_fields, "lantai_auto_memory.embedding_batch_size");
            if c {
                lc.embedding.batch_size = update.embedding_batch_size.unwrap();
            }
            note(result, c, "lantai_auto_memory.embedding_batch_size");
            *lantai = Some(lc);
        },
    }
}

/// The record of a whole request, section by section: server, chat,
/// embedding, memory, RAG, sub-agent and knowledge base.
pub open spec fn spec_apply_record(c: Config, req: ConfigUpdateRequest, v: Seq<Seq<char>>) -> UpdateView {
    let r0: UpdateView = (Seq::empty(), Seq::empty(), Map::empty());
    let r1 = match req.server { Some(u) => spec_server_record(r0, u, v), None => r0 };
    let r2 = match req.chat { Some(u) => spec_chat_record(r1, c.chat, u, v), None => r1 };
    let r3 = match req.embedding { Some(u) => spec_embedding_record(r2, c.embedding, u, v), None => r2 };
    let r4 = match req.memory { Some(u) => spec_memory_record(r3, c.memory, u, v), None => r3 };
    let r5 = match req.rag { Some(u) => spec_rag_record(r4, c.rag, u, v), None => r4 };
    let r6 = match req.subagent { Some(u) => spec_subagent_record(r5, c.subagent, u, v), None => r5 };
    match req.lantai_auto_memory { Some(u) => spec_lantai_record(r6, c.lantai, u, v), None => r6 }
}

/// The fields recorded as updated before the embedding section is applied.
pub open spec fn spec_updated_before_embedding(c: Config, req: ConfigUpdateRequest, v: Seq<Seq<char>>) -> Seq<Seq<char>> {
    let r0: UpdateView = (Seq::empty(), Seq::empty(), Map::empty());
    let r1 = match req.server { Some(u) => spec_server_record(r0, u, v), None => r0 };
    let r2 = match req.chat { Some(u) => spec_chat_record(r1, c.chat, u, v), None => r1 };
    r2.0
}

/// A request that the embedding section cannot take (see
/// `embedding_update_stuck`).
pub open spec fn request_stuck(c: Config, req: ConfigUpdateRequest, v: Seq<Seq<char>>) -> bool {
    req.embedding matches Some(u) && embedding_update_stuck(c.embedding, u, v)
}

/// `n` is `o` after applying the sections of `req` whose fields are among
/// `v`: server, chat, embedding, memory, RAG, sub-agent and knowledge base;
/// the other sections are unchanged.
pub open spec fn spec_config_updated(o: Config, n: Config, req: ConfigUpdateRequest, v: Seq<Seq<char>>) -> bool {
    &&& n.server == match req.server {
        Some(u) => spec_server_after(o.server, u, v),
        None => o.server,
    }
    &&& n.chat == match req.chat {
        Some(u) => spec_chat_after(o.chat, u, v),
        None => o.chat,
    }
    &&& embedding_view(n.embedding) == match req.embedding {
        Some(u) => spec_embedding_after(o.embedding, u, v, spec_updated_before_embedding(o, req, v)),
        None => embedding_view(o.embedding),
    }
    &&& n.memory == match req.memory {
        Some(u) => spec_memory_after(o.memory, u, v),
        None => o.memory,
    }
    &&& n.rag == match req.rag {
        Some(u) => spec_rag_after(o.rag, u, v),
        None => o.rag,
    }
    &&& n.subagent == match req.subagent {
        Some(u) => spec_subagent_after(o.subagent, u, v),
        None => o.subagent,
    }
    &&& n.lantai == match req.lantai_auto_memory {
        Some(u) => spec_lantai_after(o.lantai, u, v),
        None => o.lantai,
    }
    &&& n.server_info_push_url == o.server_info_push_url
    &&& n.server_health_push_url == o.server_health_push_url
    &&& n.mcp == o.mcp
    &&& n.skill == o.skill
    &&& n.artifacts == o.artifacts
    &&& n.config_api == o.config_api
    &&& n.hitl == o.hitl
    &&& n.session == o.session
}

/// Applies every section of a request whose fields were validated
/// (`validated_fields`) to `config`, and reports what was done.
pub fn apply_config_update(config: &mut Config, request: &ConfigUpdateRequest, validated_fields: &Vec<String>) -> (r: UpdateResult)
    requires
        !request_stuck(*old(config), *request, views(validated_fields@)),
    ensures
        r.spec_view() == spec_apply_record(*old(config), *request, views(validated_fields@)),
        spec_config_updated(*old(config), *final(config), *request, views(validated_fields@)),
{
    let mut result = UpdateResult::new();
    if let Some(u) = &request.server {
        apply_server_config_update(&mut config.server, u, validated_fields, &mut result);
    }
    if let Some(u) = &request.chat {
        apply_chat_config_update(&mut config.chat, u, validated_fields, &mut result);
    }
    assert(result.spec_view().0 == spec_updated_before_embedding(*old(config), *request, views(validated_fields@)));
    if let Some(u) = &request.embedding {
        apply_embedding_config_update(&mut config.embedding, u, validated_fields, &mut result);
    }
    if let Some(u) = &request.memory {
        apply_memory_config_update(&mut config.memory, u, validated_fields, &mut result);
    }
    if let Some(u) = &request.rag {
        apply_rag_config_update(&mut config.rag, u, validated_fields, &mut result);
    }
    if let Some(u) = &request.subagent {
        apply_subagent_config_update(&mut config.subagent, u, validated_fields, &mut result);
    }
    if let Some(u) = &request.lantai_auto_memory {
        apply_lantai_auto_memory_config_update(&mut config.lantai, u, validated_fields, &mut result);
    }
    result
}

} // verus!
