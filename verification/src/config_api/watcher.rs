//! Hot reload of the configuration file: which file events lead to a
//! reload, how bursts of events and the gateway's own writes are filtered
//! out, and how the changes found in the new file are sorted and applied.
//! Watching the file, reading it and reloading services happen outside the
//! crate, which hands the events and times to the functions here.

use vstd::prelude::*;
use super::diff::{ApplyChangeResult, ConfigChange, change_views, ChangeView};
use crate::config::{ChatConfig, Config, EmbeddingConfig, MemoryConfig, RagConfig};
use crate::text::{concat, views};

verus! {

/// Why the watcher could not start or could not apply a new file.
#[derive(Debug)]
pub enum ConfigWatcherError {
    ConfigFileNotFound(String),
    InvalidPath(String),
    WatcherCreationFailed(String),
    WatchFailed(String),
    ConfigLoadFailed(String),
    ConfigApplyFailed(String),
}

/// The message of a watcher error.
pub open spec fn spec_watcher_error_message(e: ConfigWatcherError) -> Seq<char> {
    match e {
        ConfigWatcherError::ConfigFileNotFound(s) => "Configuration file not found: "@ + s@,
        ConfigWatcherError::InvalidPath(s) => "Invalid path: "@ + s@,
        ConfigWatcherError::WatcherCreationFailed(s) => "Failed to create file watcher: "@ + s@,
        ConfigWatcherError::WatchFailed(s) => "Failed to watch directory: "@ + s@,
        ConfigWatcherError::ConfigLoadFailed(s) => "Failed to load configuration: "@ + s@,
        ConfigWatcherError::ConfigApplyFailed(s) => "Failed to apply configuration: "@ + s@,
    }
}

impl ConfigWatcherError {
    /// The error message.
    pub fn to_string(&self) -> (r: String)
        ensures
            r@ == spec_watcher_error_message(*self),
    {
        match self {
            ConfigWatcherError::ConfigFileNotFound(s) => concat("Configuration file not found: ", s.as_str()),
            ConfigWatcherError::InvalidPath(s) => concat("Invalid path: ", s.as_str()),
            ConfigWatcherError::WatcherCreationFailed(s) => concat("Failed to create file watcher: ", s.as_str()),
            ConfigWatcherError::WatchFailed(s) => concat("Failed to watch directory: ", s.as_str()),
            ConfigWatcherError::ConfigLoadFailed(s) => concat("Failed to load configuration: ", s.as_str()),
            ConfigWatcherError::ConfigApplyFailed(s) => concat("Failed to apply configuration: ", s.as_str()),
        }
    }
}

/// The kind of a file event on the configuration file.
#[derive(Debug, Clone, Copy, PartialEq, Eq, Structural)]
pub enum FileEventKind {
    Create,
    Modify,
    Remove,
    Other,
}

/// What the watcher does about a file event.
#[derive(Debug, Clone, Copy, PartialEq, Eq, Structural)]
pub enum EventAction {
    /// Consider reloading.
    Reload,
    /// The file is gone: keep the current configuration and warn.
    KeepCurrent,
    /// Nothing.
    Ignore,
}

/// A created or modified file may be reloaded; a removed one keeps the
/// current configuration; other events are ignored.
pub fn event_action(kind: FileEventKind) -> (r: EventAction)
    ensures
        r == match kind {
            FileEventKind::Create => EventAction::Reload,
            FileEventKind::Modify => EventAction::Reload,
            FileEventKind::Remove => EventAction::KeepCurrent,
            FileEventKind::Other => EventAction::Ignore,
        },
{
    match kind {
        FileEventKind::Create => EventAction::Reload,
        FileEventKind::Modify => EventAction::Reload,
        FileEventKind::Remove => EventAction::KeepCurrent,
        FileEventKind::Other => EventAction::Ignore,
    }
}

/// What reading the file's modification time gave.
#[derive(Debug, Clone, Copy, PartialEq, Eq, Structural)]
pub enum MtimeReading {
    /// The file's metadata could not be read.
    Unreadable,
    /// The metadata has no modification time.
    Unknown,
    /// The modification time, in nanoseconds since the epoch.
    At(u128),
}

/// The state that decides whether a file event leads to a reload. Times of
/// events are milliseconds on a clock that does not go back.
#[derive(Debug, Clone, Copy)]
pub struct ReloadGate {
    /// Events closer than this to the previous one are dropped.
    pub debounce_ms: u64,
    /// When the last event that was not dropped came.
    pub last_event_ms: Option<u64>,
    /// The modification time of the file when it was last reloaded.
    pub last_mtime: Option<u128>,
    /// When the configuration was last updated through the API.
    pub last_api_update_ms: Option<u64>,
}

/// One step of the reload gate for an event at `now_ms`: the next gate and
/// whether to reload. Events inside the debounce interval after the previous
/// event are ignored, and so are events up to twice that interval after an
/// API update; any other event reloads when the modification time differs
/// from the last one or is unknown, and not when reading it failed.
pub open spec fn spec_on_modify(g: ReloadGate, now_ms: u64, mtime: MtimeReading) -> (ReloadGate, bool) {
    if g.last_event_ms matches Some(last) && now_ms >= last && now_ms - last < g.debounce_ms {
        (g, false)
    } else {
        let g1 = ReloadGate { last_event_ms: Some(now_ms), ..g };
        if g1.last_api_update_ms matches Some(api) && now_ms >= api && now_ms - api < 2 * g1.debounce_ms {
            (g1, false)
        } else {
            match mtime {
                MtimeReading::Unreadable => (g1, false),
                MtimeReading::Unknown => (g1, true),
                MtimeReading::At(t) => if g1.last_mtime matches Some(last) && t <= last {
                    (g1, false)
                } else {
                    (ReloadGate { last_mtime: Some(t), ..g1 }, true)
                },
            }
        }
    }
}

impl ReloadGate {
    /// A gate with no event seen yet and the file's modification time at start.
    pub fn new(debounce_ms: u64, initial_mtime: Option<u128>) -> (r: Self)
        ensures
            r.debounce_ms == debounce_ms,
            r.last_event_ms is None,
            r.last_mtime == initial_mtime,
            r.last_api_update_ms is None,
    {
        ReloadGate { debounce_ms, last_event_ms: None, last_mtime: initial_mtime, last_api_update_ms: None }
    }

    /// Handles a modification event at `now_ms` and says whether to reload.
    pub fn on_modify(&mut self, now_ms: u64, mtime: MtimeReading) -> (r: bool)
        requires
            old(self).debounce_ms <= u64::MAX / 2,
        ensures
            (*final(self), r) == spec_on_modify(*old(self), now_ms, mtime),
    {
        if let Some(last) = self.last_event_ms {
            if now_ms >= last && now_ms - last < self.debounce_ms {
                return false;
            }
        }
        self.last_event_ms = Some(now_ms);
        if let Some(api) = self.last_api_update_ms {
            if now_ms >= api && now_ms - api < 2 * self.debounce_ms {
                return false;
            }
        }
        match mtime {
            MtimeReading::Unreadable => false,
            MtimeReading::Unknown => true,
            MtimeReading::At(t) => {
                if let Some(last) = self.last_mtime {
                    if t <= last {
                        return false;
                    }
                }
                self.last_mtime = Some(t);
                true
            },
        }
    }

    /// Records an update of the configuration through the API at `now_ms`.
    pub fn note_api_update(&mut self, now_ms: u64)
        ensures
            *final(self) == (ReloadGate { last_api_update_ms: Some(now_ms), ..*old(self) }),
    {
        self.last_api_update_ms = Some(now_ms);
    }
}

/// The hot-updatable changes, in order.
pub open spec fn spec_hot(changes: Seq<ChangeView>) -> Seq<ChangeView> {
    changes.filter(|c: ChangeView| c.3)
}

/// The fields of the changes that need a restart, in order.
pub open spec fn spec_restart_fields(changes: Seq<ChangeView>) -> Seq<Seq<char>> {
    changes.filter(|c: ChangeView| !c.3).map_values(|c: ChangeView| c.0)
}

/// Splits changes into those applied now and the fields of those that wait
/// for a restart.
pub fn partition_changes(changes: &Vec<ConfigChange>) -> (r: (Vec<ConfigChange>, Vec<String>))
    ensures
        change_views(r.0@) == spec_hot(change_views(changes@)),
        views(r.1@) == spec_restart_fields(change_views(changes@)),
{
    let ghost cv = change_views(changes@);
    let ghost hot = |c: ChangeView| c.3;
    let ghost cold = |c: ChangeView| !c.3;
    let mut hot_changes: Vec<ConfigChange> = Vec::new();
    let mut restart: Vec<String> = Vec::new();
    let mut i: usize = 0;
    while i < changes.len()
        invariant
            i <= changes@.len(),
            cv == change_views(changes@),
            hot == (|c: ChangeView| c.3),
            cold == (|c: ChangeView| !c.3),
            change_views(hot_changes@) == cv.take(i as int).filter(hot),
            views(restart@) == cv.take(i as int).filter(cold).map_values(|c: ChangeView| c.0),
        decreases changes@.len() - i,
    {
        proof {
            assert(cv.take(i + 1) =~= cv.take(i as int).push(cv[i as int]));
            cv.take(i as int).lemma_filter_push(cv[i as int], hot);
            cv.take(i as int).lemma_filter_push(cv[i as int], cold);
        }
        let ghost before_hot = hot_changes@;
        let ghost before_restart = restart@;
        if changes[i].is_hot_updatable {
            hot_changes.push(changes[i].clone());
            proof {
                assert(change_views(hot_changes@) =~= change_views(before_hot).push(cv[i as int]));
            }
        } else {
            crate::text::push_string(&mut restart, changes[i].field.clone());
            proof {
                assert(cv.take(i as int).filter(cold).push(cv[i as int]).map_values(|c: ChangeView| c.0)
                    =~= cv.take(i as int).filter(cold).map_values(|c: ChangeView| c.0).push(cv[i as int].0));
            }
        }
        i = i + 1;
    }
    assert(cv.take(changes@.len() as int) =~= cv);
    (hot_changes, restart)
}

/// The outcome of applying hot changes: the fields that were applied, those
/// among them whose service must reload, and the failed ones with the error.
pub open spec fn spec_summary(results: Seq<(Seq<char>, bool, bool, Option<Seq<char>>)>) -> (Seq<Seq<char>>, Seq<Seq<char>>, Seq<(Seq<char>, Option<Seq<char>>)>)
    decreases results.len(),
{
    if results.len() == 0 {
        (Seq::empty(), Seq::empty(), Seq::empty())
    } else {
        let s = spec_summary(results.drop_last());
        let r = results.last();
        if r.1 {
            (s.0.push(r.0), if r.2 { s.1.push(r.0) } else { s.1 }, s.2)
        } else {
            (s.0, s.1, s.2.push((r.0, r.3)))
        }
    }
}

/// A result as (field, success, requires reload, error).
pub open spec fn result_view(r: (String, ApplyChangeResult)) -> (Seq<char>, bool, bool, Option<Seq<char>>) {
    (r.0@, r.1.success, r.1.requires_reload, crate::config::opt_view(r.1.error))
}

/// Sorts the results of applying changes.
pub fn summarize_results(results: &Vec<(String, ApplyChangeResult)>) -> (r: (Vec<String>, Vec<String>, Vec<(String, Option<String>)>))
    ensures
        (views(r.0@), views(r.1@), r.2@.map_values(|p: (String, Option<String>)| (p.0@, crate::config::opt_view(p.1))))
            == spec_summary(results@.map_values(|p: (String, ApplyChangeResult)| result_view(p))),
{
    let ghost rv = results@.map_values(|p: (String, ApplyChangeResult)| result_view(p));
    let mut ok: Vec<String> = Vec::new();
    let mut reload: Vec<String> = Vec::new();
    let mut failed: Vec<(String, Option<String>)> = Vec::new();
    let mut i: usize = 0;
    while i < results.len()
        invariant
            i <= results@.len(),
            rv == results@.map_values(|p: (String, ApplyChangeResult)| result_view(p)),
            (views(ok@), views(reload@), failed@.map_values(|p: (String, Option<String>)| (p.0@, crate::config::opt_view(p.1))))
                == spec_summary(rv.take(i as int)),
        decreases results@.len() - i,
    {
        let (field, result) = (&results[i].0, &results[i].1);
        proof {
            assert(rv.take(i + 1).drop_last() =~= rv.take(i as int));
            assert(rv.take(i + 1).last() == rv[i as int]);
        }
        if result.success {
            crate::text::push_string(&mut ok, field.clone());
            if result.requires_reload {
                crate::text::push_string(&mut reload, field.clone());
            }
        } else {
            let ghost before = failed@;
            let err = match &result.error {
                Some(e) => Some(e.clone()),
                None => None,
            };
            failed.push((field.clone(), err));
            proof {
                assert(failed@.map_values(|p: (String, Option<String>)| (p.0@, crate::config::opt_view(p.1)))
                    =~= before.map_values(|p: (String, Option<String>)| (p.0@, crate::config::opt_view(p.1))).push(
                    (field@, crate::config::opt_view(result.error))));
            }
        }
        i = i + 1;
    }
    assert(rv.take(results@.len() as int) =~= rv);
    (ok, reload, failed)
}

fn clone_chat(c: &ChatConfig) -> (r: ChatConfig)
    ensures
        r == *c,
{
    ChatConfig { url: c.url.clone(), api_key: c.api_key.clone(), model: c.model.clone(), model_context_size: c.model_context_size }
}

fn clone_embedding(e: &EmbeddingConfig) -> (r: EmbeddingConfig)
    ensures
        r == *e,
{
    EmbeddingConfig { url: e.url.clone(), api_key: e.api_key.clone() }
}

fn clone_memory(m: &MemoryConfig) -> (r: MemoryConfig)
    ensures
        r == *m,
{
    MemoryConfig {
        enable: m.enable,
        database_path: m.database_path.clone(),
        context_window: m.context_window,
        auto_summarize: m.auto_summarize,
        summarization_strategy: m.summarization_strategy,
        summarize_threshold: m.summarize_threshold,
        max_stored_messages: m.max_stored_messages,
        summary_service_base_url: m.summary_service_base_url.clone(),
        summary_service_api_key: m.summary_service_api_key.clone(),
    }
}

fn clone_rag(g: &RagConfig) -> (r: RagConfig)
    ensures
        r == *g,
{
    let prompt = match &g.prompt {
        Some(p) => Some(p.clone()),
        None => None,
    };
    RagConfig { enable: g.enable, prompt, policy: g.policy.clone(), context_window: g.context_window }
}

/// The configuration after taking over, from the new file, each section whose
/// appearance is among the changes (`<section> (section)`) and that the new
/// file has: chat, embedding, memory and RAG.
pub open spec fn spec_update_sections(c: Config, n: Config, fields: Seq<Seq<char>>) -> Config {
    Config {
        chat: if fields.contains("chat (section)"@) && n.chat is Some { n.chat } else { c.chat },
        embedding: if fields.contains("embedding (section)"@) && n.embedding is Some { n.embedding } else { c.embedding },
        memory: if fields.contains("memory (section)"@) && n.memory is Some { n.memory } else { c.memory },
        rag: if fields.contains("rag (section)"@) && n.rag is Some { n.rag } else { c.rag },
        ..c
    }
}

proof fn lemma_push_contains(s: Seq<Seq<char>>, a: Seq<char>, x: Seq<char>)
    ensures
        s.push(a).contains(x) == (s.contains(x) || x == a),
{
    if s.push(a).contains(x) {
        let k = choose|k: int| 0 <= k < s.push(a).len() && s.push(a)[k] == x;
        if k < s.len() {
            assert(s[k] == x);
        }
    }
    if s.contains(x) {
        let k = choose|k: int| 0 <= k < s.len() && s[k] == x;
        assert(s.push(a)[k] == x);
    }
    if x == a {
        assert(s.push(a)[s.len() as int] == x);
    }
}

/// Takes over whole sections that appeared in the new file.
pub fn update_config_sections(config: &mut Config, new_config: &Config, changes: &Vec<ConfigChange>)
    ensures
        *final(config) == spec_update_sections(*old(config), *new_config,
            change_views(changes@).map_values(|c: ChangeView| c.0)),
{
    let ghost fields = change_views(changes@).map_values(|c: ChangeView| c.0);
    let ghost start = *config;
    let mut i: usize = 0;
    while i < changes.len()
        invariant
            i <= changes@.len(),
            fields == change_views(changes@).map_values(|c: ChangeView| c.0),
            *config == spec_update_sections(start, *new_config, fields.take(i as int)),
        decreases changes@.len() - i,
    {
        let f = changes[i].field.as_str();
        proof {
            assert(fields[i as int] == f@);
            assert(fields.take(i + 1) =~= fields.take(i as int).push(f@));
            reveal_strlit("chat (section)");
            reveal_strlit("embedding (section)");
            reveal_strlit("memory (section)");
            reveal_strlit("rag (section)");
            lemma_push_contains(fields.take(i as int), f@, "chat (section)"@);
            lemma_push_contains(fields.take(i as int), f@, "embedding (section)"@);
            lemma_push_contains(fields.take(i as int), f@, "memory (section)"@);
            lemma_push_contains(fields.take(i as int), f@, "rag (section)"@);
        }
        if crate::text::str_eq(f, "chat (section)") {
            if let Some(c) = &new_config.chat {
                config.chat = Some(clone_chat(c));
            }
        } else if crate::text::str_eq(f, "embedding (section)") {
            if let Some(e) = &new_config.embedding {
                config.embedding = Some(clone_embedding(e));
            }
        } else if crate::text::str_eq(f, "memory (section)") {
            if let Some(m) = &new_config.memory {
                config.memory = Some(clone_memory(m));
            }
        } else if crate::text::str_eq(f, "rag (section)") {
            if let Some(g) = &new_config.rag {
                config.rag = Some(clone_rag(g));
            }
        }
        i = i + 1;
    }
    assert(fields.take(changes@.len() as int) =~= fields);
}

} // verus!
