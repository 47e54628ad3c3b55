//! Validation of configuration update requests: each present field is
//! checked against its allowed range or form, in a fixed order.

use vstd::prelude::*;
use super::types::{
    ChatConfigUpdate, ConfigUpdateRequest, EmbeddingConfigUpdate, MemoryConfigUpdate,
    RagConfigUpdate, ServerConfigUpdate, spec_api_updatable_fields,
};
use crate::text::{concat3, spec_starts_with, starts_with, views};

verus! {

/// A field that failed validation, and why.
#[derive(Debug, Clone)]
pub struct ValidationError {
    pub field: String,
    pub message: String,
}

impl ValidationError {
    /// `field: message`.
    pub fn to_string(&self) -> (r: String)
        ensures
            r@ == self.field@ + ": "@ + self.message@,
    {
        concat3(self.field.as_str(), ": ", self.message.as_str())
    }
}

/// The outcome of checking one field: its path, and the error if it failed.
pub type Check = (Seq<char>, Option<Seq<char>>);

/// Valid fields and (field, message) errors, after recording `checks` in
/// order onto `start`.
pub open spec fn spec_record(start: (Seq<Seq<char>>, Seq<(Seq<char>, Seq<char>)>), checks: Seq<Check>) -> (Seq<Seq<char>>, Seq<(Seq<char>, Seq<char>)>)
    decreases checks.len(),
{
    if checks.len() == 0 {
        start
    } else {
        let before = spec_record(start, checks.drop_last());
        let c = checks.last();
        match c.1 {
            None => (before.0.push(c.0), before.1),
            Some(m) => (before.0, before.1.push((c.0, m))),
        }
    }
}

/// The result of validating a whole request from scratch.
pub open spec fn spec_validated(checks: Seq<Check>) -> (Seq<Seq<char>>, Seq<(Seq<char>, Seq<char>)>) {
    spec_record((Seq::empty(), Seq::empty()), checks)
}

/// A check that passes when `ok`, else fails with `msg`.
pub open spec fn check(field: Seq<char>, ok: bool, msg: Seq<char>) -> Seq<Check> {
    seq![(field, if ok { None } else { Some(msg) })]
}

/// Fields that passed and fields that failed validation.
#[derive(Debug)]
pub struct ValidationResult {
    pub valid_fields: Vec<String>,
    pub errors: Vec<ValidationError>,
}

impl ValidationResult {
    /// Valid field paths and (field, message) errors.
    pub open spec fn spec_view(&self) -> (Seq<Seq<char>>, Seq<(Seq<char>, Seq<char>)>) {
        (views(self.valid_fields@), self.errors@.map_values(|e: ValidationError| (e.field@, e.message@)))
    }

    /// No field failed.
    pub fn is_valid(&self) -> (r: bool)
        ensures
            r == (self.errors@.len() == 0),
    {
        self.errors.len() == 0
    }

    /// Records `field` as valid.
    pub fn add_valid(&mut self, field: &str)
        ensures
            final(self).spec_view() == (old(self).spec_view().0.push(field@), old(self).spec_view().1),
    {
        self.valid_fields.push(String::from_str(field));
        proof {
            assert(final(self).spec_view().0 =~= old(self).spec_view().0.push(field@));
        }
    }

    /// Records `field` as failed with `message`.
    pub fn add_error(&mut self, field: &str, message: &str)
        ensures
            final(self).spec_view() == (old(self).spec_view().0, old(self).spec_view().1.push((field@, message@))),
    {
        self.errors.push(ValidationError { field: String::from_str(field), message: String::from_str(message) });
        proof {
            assert(final(self).spec_view().1 =~= old(self).spec_view().1.push((field@, message@)));
        }
    }

    /// Records the outcome of one check.
    fn record(&mut self, field: &str, ok: bool, message: &str, Ghost(checks): Ghost<Seq<Check>>, Ghost(start): Ghost<(Seq<Seq<char>>, Seq<(Seq<char>, Seq<char>)>)>)
        requires
            old(self).spec_view() == spec_record(start, checks),
        ensures
            final(self).spec_view() == spec_record(start, checks + check(field@, ok, message@)),
    {
        let ghost c = check(field@, ok, message@);
        proof {
            assert((checks + c).drop_last() =~= checks);
            assert((checks + c).last() == c[0]);
        }
        if ok {
            self.add_valid(field);
        } else {
            self.add_error(field, message);
        }
    }
}

impl Default for ValidationResult {
    fn default() -> (r: Self)
        ensures
            r.spec_view() == spec_validated(Seq::empty()),
    {
        let r = ValidationResult { valid_fields: Vec::new(), errors: Vec::new() };
        assert(r.spec_view().0 =~= Seq::<Seq<char>>::empty());
        assert(r.spec_view().1 =~= Seq::<(Seq<char>, Seq<char>)>::empty());
        r
    }
}

/// Whether the update API accepts a field path (the published list and
/// the chat fields).
pub fn is_field_updatable(field_path: &str) -> (r: bool)
    ensures
        r == spec_api_updatable_fields().contains(field_path@),
{
    super::types::is_api_updatable(field_path)
}

/// A check of an optional value: nothing when absent.
pub open spec fn opt_check<T>(v: Option<T>, field: Seq<char>, ok: spec_fn(T) -> bool, msg: Seq<char>) -> Seq<Check> {
    match v {
        Some(x) => check(field, ok(x), msg),
        None => Seq::empty(),
    }
}

/// The checks of the server fields, in order.
pub open spec fn spec_server_checks(s: ServerConfigUpdate) -> Seq<Check> {
    opt_check(s.max_tools_per_iteration, "server.max_tools_per_iteration"@, |v: usize| 1 <= v <= 50, "must be between 1 and 50"@)
        + opt_check(s.tool_call_max_retries, "server.tool_call_max_retries"@, |v: u32| v <= 10, "must be between 0 and 10"@)
        + opt_check(s.tool_call_retry_delay_ms, "server.tool_call_retry_delay_ms"@, |v: u64| v <= 10000, "must be between 0 and 10000"@)
        + opt_check(s.max_plan_subtasks, "server.max_plan_subtasks"@, |v: usize| 1 <= v <= 50, "must be between 1 and 50"@)
        + opt_check(s.plan_timeout_secs, "server.plan_timeout_secs"@, |v: u64| 60 <= v <= 7200, "must be between 60 and 7200"@)
        + opt_check(s.subtask_max_retries, "server.subtask_max_retries"@, |v: u32| v <= 10, "must be between 0 and 10"@)
        + opt_check(s.subtask_react_max_iterations, "server.subtask_react_max_iterations"@, |v: u32| 1 <= v <= 20, "must be between 1 and 20"@)
        + opt_check(s.subtask_react_timeout_secs, "server.subtask_react_timeout_secs"@, |v: u64| 10 <= v <= 600, "must be between 10 and 600"@)
}

/// A URL is acceptable: non-empty and beginning with `http://` or `https://`.
pub open spec fn spec_url_checks(url: Option<String>, field: Seq<char>) -> Seq<Check> {
    match url {
        Some(u) => if u@.len() == 0 {
            check(field, false, "URL cannot be empty"@)
        } else if !spec_starts_with(u@, "http://"@) && !spec_starts_with(u@, "https://"@) {
            check(field, false, "URL must start with http:// or https://"@)
        } else {
            check(field, true, Seq::empty())
        },
        None => Seq::empty(),
    }
}

/// A key is always acceptable (an empty one clears it).
pub open spec fn spec_key_checks(key: Option<String>, field: Seq<char>) -> Seq<Check> {
    match key {
        Some(_) => check(field, true, Seq::empty()),
        None => Seq::empty(),
    }
}

/// The checks of the chat fields, in order.
pub open spec fn spec_chat_checks(c: ChatConfigUpdate) -> Seq<Check> {
    spec_url_checks(c.url, "chat.url"@) + spec_key_checks(c.api_key, "chat.api_key"@)
}

/// The checks of the embedding fields, in order.
pub open spec fn spec_embedding_checks(e: EmbeddingConfigUpdate) -> Seq<Check> {
    spec_url_checks(e.url, "embedding.url"@) + spec_key_checks(e.api_key, "embedding.api_key"@)
}

/// The checks of the memory fields, in order.
pub open spec fn spec_memory_checks(m: MemoryConfigUpdate) -> Seq<Check> {
    (if m.auto_summarize is Some { check("memory.auto_summarize"@, true, Seq::empty()) } else { Seq::empty() })
        + (if m.summarization_strategy is Some { check("memory.summarization_strategy"@, true, Seq::empty()) } else { Seq::empty() })
        + opt_check(m.summarize_threshold, "memory.summarize_threshold"@, |v: u32| 2 <= v <= 100, "must be between 2 and 100"@)
        + opt_check(m.max_stored_messages, "memory.max_stored_messages"@, |v: u32| 5 <= v <= 500, "must be between 5 and 500"@)
}

/// The checks of the RAG fields.
pub open spec fn spec_rag_checks(r: RagConfigUpdate) -> Seq<Check> {
    if r.enable is Some { check("rag.enable"@, true, Seq::empty()) } else { Seq::empty() }
}

/// The checks of the server part of a request.
pub open spec fn server_part(req: ConfigUpdateRequest) -> Seq<Check> {
    match req.server { Some(s) => spec_server_checks(s), None => Seq::empty() }
}

/// The checks of the chat part of a request.
pub open spec fn chat_part(req: ConfigUpdateRequest) -> Seq<Check> {
    match req.chat { Some(c) => spec_chat_checks(c), None => Seq::empty() }
}

/// The checks of the embedding part of a request.
pub open spec fn embedding_part(req: ConfigUpdateRequest) -> Seq<Check> {
    match req.embedding { Some(e) => spec_embedding_checks(e), None => Seq::empty() }
}

/// The checks of the memory part of a request.
pub open spec fn memory_part(req: ConfigUpdateRequest) -> Seq<Check> {
    match req.memory { Some(m) => spec_memory_checks(m), None => Seq::empty() }
}

/// The checks of the RAG part of a request.
pub open spec fn rag_part(req: ConfigUpdateRequest) -> Seq<Check> {
    match req.rag { Some(r) => spec_rag_checks(r), None => Seq::empty() }
}

/// The checks of a whole request: server, chat, embedding, memory and RAG.
pub open spec fn spec_request_checks(req: ConfigUpdateRequest) -> Seq<Check> {
    server_part(req) + chat_part(req) + embedding_part(req) + memory_part(req) + rag_part(req)
}

proof fn lemma_record_append(start: (Seq<Seq<char>>, Seq<(Seq<char>, Seq<char>)>), a: Seq<Check>, b: Seq<Check>)
    ensures
        spec_record(start, a + b) == spec_record(spec_record(start, a), b),
    decreases b.len(),
{
    if b.len() == 0 {
        assert(a + b =~= a);
    } else {
        lemma_record_append(start, a, b.drop_last());
        assert((a + b).drop_last() =~= a + b.drop_last());
        assert((a + b).last() == b.last());
    }
}

/// Checks one optional number against `lo..=hi`.
fn check_range(result: &mut ValidationResult, v: Option<u64>, lo: u64, hi: u64, field: &str, message: &str,
    Ghost(checks): Ghost<Seq<Check>>, Ghost(start): Ghost<(Seq<Seq<char>>, Seq<(Seq<char>, Seq<char>)>)>)
    requires
        old(result).spec_view() == spec_record(start, checks),
    ensures
        final(result).spec_view() == spec_record(start, checks + match v {
            Some(x) => check(field@, lo <= x <= hi, message@),
            None => Seq::<Check>::empty(),
        }),
{
    match v {
        Some(x) => {
            result.record(field, lo <= x && x <= hi, message, Ghost(checks), Ghost(start));
        },
        None => {
            assert(checks + Seq::<Check>::empty() =~= checks);
        },
    }
}

fn widen_usize(v: Option<usize>) -> (r: Option<u64>)
    ensures
        r == match v { Some(x) => Some(x as u64), None => None::<u64> },
        v matches Some(x) ==> x as u64 == x,
{
    match v {
        Some(x) => Some(x as u64),
        None => None,
    }
}

fn widen_u32(v: Option<u32>) -> (r: Option<u64>)
    ensures
        r == match v { Some(x) => Some(x as u64), None => None::<u64> },
{
    match v {
        Some(x) => Some(x as u64),
        None => None,
    }
}

/// Validates the server fields present in `server`, adding to `result`.
pub fn validate_server_config(server: &ServerConfigUpdate, result: &mut ValidationResult)
    ensures
        final(result).spec_view() == spec_record(old(result).spec_view(), spec_server_checks(*server)),
{
    let ghost start = result.spec_view();
    let ghost c0 = Seq::<Check>::empty();
    assert(spec_record(start, c0) == start);
    check_range(result, widen_usize(server.max_tools_per_iteration), 1, 50, "server.max_tools_per_iteration", "must be between 1 and 50", Ghost(c0), Ghost(start));
    let ghost c1 = c0 + opt_check(server.max_tools_per_iteration, "server.max_tools_per_iteration"@, |v: usize| 1 <= v <= 50, "must be between 1 and 50"@);
    assert(result.spec_view() == spec_record(start, c1));
    check_range(result, widen_u32(server.tool_call_max_retries), 0, 10, "server.tool_call_max_retries", "must be between 0 and 10", Ghost(c1), Ghost(start));
    let ghost c2 = c1 + opt_check(server.tool_call_max_retries, "server.tool_call_max_retries"@, |v: u32| v <= 10, "must be between 0 and 10"@);
    assert(result.spec_view() == spec_record(start, c2));
    check_range(result, server.tool_call_retry_delay_ms, 0, 10000, "server.tool_call_retry_delay_ms", "must be between 0 and 10000", Ghost(c2), Ghost(start));
    let ghost c3 = c2 + opt_check(server.tool_call_retry_delay_ms, "server.tool_call_retry_delay_ms"@, |v: u64| v <= 10000, "must be between 0 and 10000"@);
    assert(result.spec_view() == spec_record(start, c3));
    check_range(result, widen_usize(server.max_plan_subtasks), 1, 50, "server.max_plan_subtasks", "must be between 1 and 50", Ghost(c3), Ghost(start));
    let ghost c4 = c3 + opt_check(server.max_plan_subtasks, "server.max_plan_subtasks"@, |v: usize| 1 <= v <= 50, "must be between 1 and 50"@);
    assert(result.spec_view() == spec_record(start, c4));
    check_range(result, server.plan_timeout_secs, 60, 7200, "server.plan_timeout_secs", "must be between 60 and 7200", Ghost(c4), Ghost(start));
    let ghost c5 = c4 + opt_check(server.plan_timeout_secs, "server.plan_timeout_secs"@, |v: u64| 60 <= v <= 7200, "must be between 60 and 7200"@);
    assert(result.spec_view() == spec_record(start, c5));
    check_range(result, widen_u32(server.subtask_max_retries), 0, 10, "server.subtask_max_retries", "must be between 0 and 10", Ghost(c5), Ghost(start));
    let ghost c6 = c5 + opt_check(server.subtask_max_retries, "server.subtask_max_retries"@, |v: u32| v <= 10, "must be between 0 and 10"@);
    assert(result.spec_view() == spec_record(start, c6));
    check_range(result, widen_u32(server.subtask_react_max_iterations), 1, 20, "server.subtask_react_max_iterations", "must be between 1 and 20", Ghost(c6), Ghost(start));
    let ghost c7 = c6 + opt_check(server.subtask_react_max_iterations, "server.subtask_react_max_iterations"@, |v: u32| 1 <= v <= 20, "must be between 1 and 20"@);
    assert(result.spec_view() == spec_record(start, c7));
    check_range(result, server.subtask_react_timeout_secs, 10, 600, "server.subtask_react_timeout_secs", "must be between 10 and 600", Ghost(c7), Ghost(start));
    let ghost c8 = c7 + opt_check(server.subtask_react_timeout_secs, "server.subtask_react_timeout_secs"@, |v: u64| 10 <= v <= 600, "must be between 10 and 600"@);
    assert(result.spec_view() == spec_record(start, c8));
    assert(c8 =~= spec_server_checks(*server));
}

/// Checks an optional URL, adding to `result`.
fn check_url(result: &mut ValidationResult, url: &Option<String>, field: &str,
    Ghost(checks): Ghost<Seq<Check>>, Ghost(start): Ghost<(Seq<Seq<char>>, Seq<(Seq<char>, Seq<char>)>)>)
    requires
        old(result).spec_view() == spec_record(start, checks),
    ensures
        final(result).spec_view() == spec_record(start, checks + spec_url_checks(*url, field@)),
{
    proof {
        reveal_strlit("http://");
        reveal_strlit("https://");
    }
    match url {
        Some(u) => {
            if u.as_str().unicode_len() == 0 {
                result.record(field, false, "URL cannot be empty", Ghost(checks), Ghost(start));
            } else if !starts_with(u.as_str(), "http://") && !starts_with(u.as_str(), "https://") {
                result.record(field, false, "URL must start with http:// or https://", Ghost(checks), Ghost(start));
            } else {
                result.record(field, true, "", Ghost(checks), Ghost(start));
                proof {
                    reveal_strlit("");
                    assert(""@ =~= Seq::<char>::empty());
                }
            }
        },
        None => {
            assert(checks + Seq::<Check>::empty() =~= checks);
        },
    }
}

/// Records a present key as valid.
fn check_key(result: &mut ValidationResult, key: &Option<String>, field: &str,
    Ghost(checks): Ghost<Seq<Check>>, Ghost(start): Ghost<(Seq<Seq<char>>, Seq<(Seq<char>, Seq<char>)>)>)
    requires
        old(result).spec_view() == spec_record(start, checks),
    ensures
        final(result).spec_view() == spec_record(start, checks + spec_key_checks(*key, field@)),
{
    if key.is_some() {
        result.record(field, true, "", Ghost(checks), Ghost(start));
        proof {
            reveal_strlit("");
            assert(""@ =~= Seq::<char>::empty());
        }
    } else {
        assert(checks + Seq::<Check>::empty() =~= checks);
    }
}

/// Validates the chat fields present in `chat`, adding to `result`.
pub fn validate_chat_config(chat: &ChatConfigUpdate, result: &mut ValidationResult)
    ensures
        final(result).spec_view() == spec_record(old(result).spec_view(), spec_chat_checks(*chat)),
{
    let ghost start = result.spec_view();
    let ghost c0 = Seq::<Check>::empty();
    check_url(result, &chat.url, "chat.url", Ghost(c0), Ghost(start));
    let ghost c1 = c0 + spec_url_checks(chat.url, "chat.url"@);
    check_key(result, &chat.api_key, "chat.api_key", Ghost(c1), Ghost(start));
    let ghost c2 = c1 + spec_key_checks(chat.api_key, "chat.api_key"@);
    assert(c2 =~= spec_chat_checks(*chat));
}

/// Validates the embedding fields present in `embedding`, adding to `result`.
pub fn validate_embedding_config(embedding: &EmbeddingConfigUpdate, result: &mut ValidationResult)
    ensures
        final(result).spec_view() == spec_record(old(result).spec_view(), spec_embedding_checks(*embedding)),
{
    let ghost start = result.spec_view();
    let ghost c0 = Seq::<Check>::empty();
    check_url(result, &embedding.url, "embedding.url", Ghost(c0), Ghost(start));
    let ghost c1 = c0 + spec_url_checks(embedding.url, "embedding.url"@);
    check_key(result, &embedding.api_key, "embedding.api_key", Ghost(c1), Ghost(start));
    let ghost c2 = c1 + spec_key_checks(embedding.api_key, "embedding.api_key"@);
    assert(c2 =~= spec_embedding_checks(*embedding));
}

/// Validates the memory fields present in `memory`, adding to `result`.
pub fn validate_memory_config(memory: &MemoryConfigUpdate, result: &mut ValidationResult)
    ensures
        final(result).spec_view() == spec_record(old(result).spec_view(), spec_memory_checks(*memory)),
{
    let ghost start = result.spec_view();
    let ghost c0 = Seq::<Check>::empty();
    proof {
        reveal_strlit("");
        assert(""@ =~= Seq::<char>::empty());
    }
    let ghost c1 = c0 + (if memory.auto_summarize is Some { check("memory.auto_summarize"@, true, Seq::empty()) } else { Seq::empty() });
    if memory.auto_summarize.is_some() {
        result.record("memory.auto_summarize", true, "", Ghost(c0), Ghost(start));
    } else {
        assert(c1 =~= c0);
    }
    let ghost c2 = c1 + (if memory.summarization_strategy is Some { check("memory.summarization_strategy"@, true, Seq::empty()) } else { Seq::empty() });
    if memory.summarization_strategy.is_some() {
        result.record("memory.summarization_strategy", true, "", Ghost(c1), Ghost(start));
    } else {
        assert(c2 =~= c1);
    }
    check_range(result, widen_u32(memory.summarize_threshold), 2, 100, "memory.summarize_threshold", "must be between 2 and 100", Ghost(c2), Ghost(start));
    let ghost c3 = c2 + opt_check(memory.summarize_threshold, "memory.summarize_threshold"@, |v: u32| 2 <= v <= 100, "must be between 2 and 100"@);
    assert(result.spec_view() == spec_record(start, c3));
    check_range(result, widen_u32(memory.max_stored_messages), 5, 500, "memory.max_stored_messages", "must be between 5 and 500", Ghost(c3), Ghost(start));
    let ghost c4 = c3 + opt_check(memory.max_stored_messages, "memory.max_stored_messages"@, |v: u32| 5 <= v <= 500, "must be between 5 and 500"@);
    assert(result.spec_view() == spec_record(start, c4));
    assert(c4 =~= spec_memory_checks(*memory));
}

/// Validates the RAG fields present in `rag`, adding to `result`.
pub fn validate_rag_config(rag: &RagConfigUpdate, result: &mut ValidationResult)
    ensures
        final(result).spec_view() == spec_record(old(result).spec_view(), spec_rag_checks(*rag)),
{
    let ghost start = result.spec_view();
    proof {
        reveal_strlit("");
        assert(""@ =~= Seq::<char>::empty());
        assert(spec_record(start, Seq::<Check>::empty()) == start);
    }
    if rag.enable.is_some() {
        result.record("rag.enable", true, "", Ghost(Seq::<Check>::empty()), Ghost(start));
        assert(Seq::<Check>::empty() + check("rag.enable"@, true, Seq::empty()) =~= spec_rag_checks(*rag));
    }
}

/// Validates every present field of a request: server, chat, embedding,
/// memory and RAG, in this order.
pub fn validate_config_update(request: &ConfigUpdateRequest) -> (r: ValidationResult)
    ensures
        r.spec_view() == spec_validated(spec_request_checks(*request)),
{
    let mut result = ValidationResult::default();
    let ghost start = result.spec_view();
    let ghost s = server_part(*request);
    let ghost c = chat_part(*request);
    let ghost e = embedding_part(*request);
    let ghost m = memory_part(*request);
    let ghost g = rag_part(*request);
    if let Some(server) = &request.server {
        validate_server_config(server, &mut result);
    }
    assert(result.spec_view() == spec_record(start, s));
    if let Some(chat) = &request.chat {
        validate_chat_config(chat, &mut result);
    }
    proof { lemma_record_append(start, s, c); }
    assert(result.spec_view() == spec_record(start, s + c));
    if let Some(embedding) = &request.embedding {
        validate_embedding_config(embedding, &mut result);
    }
    proof { lemma_record_append(start, s + c, e); }
    if let Some(memory) = &request.memory {
        validate_memory_config(memory, &mut result);
    }
    proof { lemma_record_append(start, s + c + e, m); }
    if let Some(rag) = &request.rag {
        validate_rag_config(rag, &mut result);
    }
    proof { lemma_record_append(start, s + c + e + m, g); }
    assert(s + c + e + m + g =~= spec_request_checks(*request));
    result
}

/// Recording checks keeps every passed field among the valid ones and every
/// failed check among the errors.
pub proof fn lemma_record_membership(start: (Seq<Seq<char>>, Seq<(Seq<char>, Seq<char>)>), checks: Seq<Check>, k: int)
    requires
        0 <= k < checks.len(),
    ensures
        checks[k].1 is None ==> spec_record(start, checks).0.contains(checks[k].0),
        checks[k].1 is Some ==> spec_record(start, checks).1.len() > 0,
    decreases checks.len(),
{
    let before = spec_record(start, checks.drop_last());
    if k == checks.len() - 1 {
        if checks[k].1 is None {
            assert(spec_record(start, checks).0 == before.0.push(checks[k].0));
            assert(spec_record(start, checks).0[before.0.len() as int] == checks[k].0);
        }
    } else {
        lemma_record_membership(start, checks.drop_last(), k);
        assert(checks.drop_last()[k] == checks[k]);
        if checks[k].1 is None {
            let j = choose|j: int| 0 <= j < before.0.len() && before.0[j] == checks[k].0;
            match checks.last().1 {
                None => assert(spec_record(start, checks).0[j] == checks[k].0),
                Some(_) => assert(spec_record(start, checks).0[j] == checks[k].0),
            }
        }
    }
}

} // verus!
