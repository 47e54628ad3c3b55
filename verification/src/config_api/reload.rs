//! Which services reload after a configuration update, and what a reload
//! does. Talking to the services happens outside the crate.

use vstd::prelude::*;
use crate::config::{ApiKeyEnvironment, Config, spec_effective_key};
use crate::text::{spec_starts_with, starts_with, views};

verus! {

/// The outcome of reloading one service.
#[derive(Debug)]
pub struct ReloadResult {
    pub success: bool,
    pub service: String,
    pub error: Option<String>,
}

impl ReloadResult {
    /// The service reloaded.
    pub fn success(service: &str) -> (r: Self)
        ensures
            r.success,
            r.service@ == service@,
            r.error is None,
    {
        ReloadResult { success: true, service: String::from_str(service), error: None }
    }

    /// The service did not reload, for this reason.
    pub fn failure(service: &str, error: String) -> (r: Self)
        ensures
            !r.success,
            r.service@ == service@,
            r.error == Some(error),
    {
        ReloadResult { success: false, service: String::from_str(service), error: Some(error) }
    }
}

/// A field of the chat service.
pub open spec fn is_chat_field(f: Seq<char>) -> bool {
    spec_starts_with(f, "chat."@)
}

/// A field of the embedding service.
pub open spec fn is_embedding_field(f: Seq<char>) -> bool {
    spec_starts_with(f, "embedding."@)
}

/// An embedding field of the knowledge base.
pub open spec fn is_lantai_embedding_field(f: Seq<char>) -> bool {
    spec_starts_with(f, "lantai_auto_memory.embedding_"@)
}

/// Which services must reload after these fields changed: (chat,
/// embedding, knowledge-base embedding).
pub fn determine_services_to_reload(side_effect_fields: &Vec<String>) -> (r: (bool, bool, bool))
    ensures
        r.0 == exists|i: int| 0 <= i < side_effect_fields@.len() && is_chat_field(#[trigger] side_effect_fields@[i]@),
        r.1 == exists|i: int| 0 <= i < side_effect_fields@.len() && is_embedding_field(#[trigger] side_effect_fields@[i]@),
        r.2 == exists|i: int| 0 <= i < side_effect_fields@.len() && is_lantai_embedding_field(#[trigger] side_effect_fields@[i]@),
{
    let mut reload_chat = false;
    let mut reload_embedding = false;
    let mut reload_lantai_embedding = false;
    let mut i: usize = 0;
    while i < side_effect_fields.len()
        invariant
            i <= side_effect_fields@.len(),
            reload_chat == exists|j: int| 0 <= j < i && is_chat_field(#[trigger] side_effect_fields@[j]@),
            reload_embedding == exists|j: int| 0 <= j < i && is_embedding_field(#[trigger] side_effect_fields@[j]@),
            reload_lantai_embedding == exists|j: int| 0 <= j < i && is_lantai_embedding_field(#[trigger] side_effect_fields@[j]@),
        decreases side_effect_fields@.len() - i,
    {
        let field = side_effect_fields[i].as_str();
        if starts_with(field, "chat.") {
            reload_chat = true;
        }
        if starts_with(field, "embedding.") {
            reload_embedding = true;
        }
        if starts_with(field, "lantai_auto_memory.embedding_") {
            reload_lantai_embedding = true;
        }
        proof {
            assert(side_effect_fields@[i as int]@ == field@);
        }
        i = i + 1;
    }
    (reload_chat, reload_embedding, reload_lantai_embedding)
}

/// The identifiers that begin with `prefix`, in order: the servers that an
/// earlier load of the configuration registered.
pub open spec fn spec_with_prefix(ids: Seq<Seq<char>>, prefix: Seq<char>) -> Seq<Seq<char>> {
    ids.filter(|id: Seq<char>| spec_starts_with(id, prefix))
}

/// Keeps the server identifiers that begin with `prefix`.
pub fn find_config_servers(server_ids: &Vec<String>, prefix: &str) -> (r: Vec<String>)
    ensures
        views(r@) == spec_with_prefix(views(server_ids@), prefix@),
{
    let ghost ids = views(server_ids@);
    let ghost keep = |id: Seq<char>| spec_starts_with(id, prefix@);
    let mut out: Vec<String> = Vec::new();
    let mut i: usize = 0;
    while i < server_ids.len()
        invariant
            i <= server_ids@.len(),
            ids == views(server_ids@),
            keep == (|id: Seq<char>| spec_starts_with(id, prefix@)),
            views(out@) == ids.take(i as int).filter(keep),
        decreases server_ids@.len() - i,
    {
        proof {
            assert(ids.take(i + 1) =~= ids.take(i as int).push(ids[i as int]));
            ids.take(i as int).lemma_filter_push(ids[i as int], keep);
        }
        if starts_with(server_ids[i].as_str(), prefix) {
            crate::text::push_string(&mut out, server_ids[i].clone());
        }
        i = i + 1;
    }
    assert(ids.take(server_ids@.len() as int) =~= ids);
    out
}

/// What reloading the knowledge base's embedding provider does.
#[derive(Debug)]
pub enum LantaiEmbeddingPlan {
    /// No embedding section: switch to keyword search only.
    Clear,
    /// No knowledge-base section: nothing to reload.
    Missing,
    /// Build a provider with these settings.
    Replace { url: String, api_key: String, model: String, dimensions: usize },
}

/// What to do with the knowledge base's embedding provider for `config`;
/// the key is the effective embedding key, or empty.
pub fn lantai_embedding_plan(config: &Config, env: &ApiKeyEnvironment) -> (r: LantaiEmbeddingPlan)
    ensures
        config.embedding is None ==> r is Clear,
        config.embedding is Some && config.lantai is None ==> r is Missing,
        config.embedding matches Some(e) ==> (config.lantai matches Some(l) ==> (
            r matches LantaiEmbeddingPlan::Replace { url, api_key, model, dimensions }
                && url@ == e.url@
                && api_key@ == match spec_effective_key(e.api_key@, env.embedding) {
                    Some(k) => k,
                    None => Seq::<char>::empty(),
                }
                && model@ == l.embedding.model@
                && dimensions == l.embedding.dimensions)),
{
    match &config.embedding {
        None => LantaiEmbeddingPlan::Clear,
        Some(e) => match &config.lantai {
            None => LantaiEmbeddingPlan::Missing,
            Some(l) => {
                let key = match e.get_api_key(env) {
                    Some(k) => k,
                    None => String::new(),
                };
                LantaiEmbeddingPlan::Replace {
                    url: e.url.clone(),
                    api_key: key,
                    model: l.embedding.model.clone(),
                    dimensions: l.embedding.dimensions,
                }
            },
        },
    }
}

} // verus!
