//! The configuration update endpoint's decisions: a request with an invalid
//! field changes nothing and is answered 400 with every error; a valid one is
//! applied and answered 200, or 206 when some field could not be applied.
//! Routing, locking and JSON happen outside the crate.

use vstd::prelude::*;
use super::types::{ConfigUpdateRequest, ConfigUpdateResponse, spec_updatable_fields, spec_success_message};
use super::update::{apply_config_update, request_stuck, spec_apply_record, spec_config_updated, spec_actions};
use super::validate::{
    Check, ValidationError, embedding_part, lemma_record_membership, memory_part, rag_part, server_part,
    chat_part, spec_request_checks, spec_validated, spec_url_checks, spec_key_checks, spec_embedding_checks,
    validate_config_update,
};
use crate::config::Config;
use crate::ordered_map::{OrderedMap, value_views};
use crate::text::views;

verus! {

/// Answered when a field failed validation.
pub const STATUS_BAD_REQUEST: u16 = 400;
/// Answered when every field was applied.
pub const STATUS_OK: u16 = 200;
/// Answered when some valid field could not be applied.
pub const STATUS_PARTIAL_CONTENT: u16 = 206;

/// Whether the update API accepts a field path (the published list and
/// the chat fields).
pub fn is_field_updatable(field_path: &str) -> (r: bool)
    ensures
        r == super::types::spec_api_updatable_fields().contains(field_path@),
{
    super::validate::is_field_updatable(field_path)
}

/// The failed fields after recording each error in order (a later error of
/// the same field wins).
pub open spec fn spec_error_map(errors: Seq<(Seq<char>, Seq<char>)>) -> Map<Seq<char>, Seq<char>>
    decreases errors.len(),
{
    if errors.len() == 0 {
        Map::empty()
    } else {
        spec_error_map(errors.drop_last()).insert(errors.last().0, errors.last().1)
    }
}

/// The errors as a map from field to message.
fn error_map(errors: &Vec<ValidationError>) -> (r: OrderedMap<String>)
    ensures
        value_views(r@) == spec_error_map(errors@.map_values(|e: ValidationError| (e.field@, e.message@))),
{
    let ghost ev = errors@.map_values(|e: ValidationError| (e.field@, e.message@));
    let mut m: OrderedMap<String> = OrderedMap::new();
    assert(value_views(m@) =~= Map::<Seq<char>, Seq<char>>::empty());
    let mut i: usize = 0;
    while i < errors.len()
        invariant
            i <= errors@.len(),
            ev == errors@.map_values(|e: ValidationError| (e.field@, e.message@)),
            value_views(m@) == spec_error_map(ev.take(i as int)),
        decreases errors@.len() - i,
    {
        let ghost before = value_views(m@);
        m.insert(errors[i].field.clone(), errors[i].message.clone());
        proof {
            assert(ev.take(i + 1).drop_last() =~= ev.take(i as int));
            assert(ev.take(i + 1).last() == ev[i as int]);
            assert(value_views(m@) =~= before.insert(errors@[i as int].field@, errors@[i as int].message@));
        }
        i = i + 1;
    }
    assert(ev.take(errors@.len() as int) =~= ev);
    m
}

proof fn lemma_valid_request_not_stuck(c: Config, req: ConfigUpdateRequest)
    requires
        spec_validated(spec_request_checks(req)).1.len() == 0,
    ensures
        !request_stuck(c, req, spec_validated(spec_request_checks(req)).0),
{
    let checks = spec_request_checks(req);
    let start = (Seq::<Seq<char>>::empty(), Seq::<(Seq<char>, Seq<char>)>::empty());
    if req.embedding is Some {
        let e = req.embedding.unwrap();
        if e.url is Some {
            let k = server_part(req).len() + chat_part(req).len();
            assert(embedding_part(req) == spec_embedding_checks(e));
            assert(spec_url_checks(e.url, "embedding.url"@).len() == 1);
            assert(checks[k as int] == spec_url_checks(e.url, "embedding.url"@)[0]);
            assert(checks[k as int].0 == "embedding.url"@);
            lemma_record_membership(start, checks, k as int);
        }
    }
}

/// Validates and applies an update request to `config`, and gives the status
/// code and answer of the endpoint.
pub fn handle_config_update(config: &mut Config, request: &ConfigUpdateRequest) -> (r: (u16, ConfigUpdateResponse))
    ensures
        ({
            let v = spec_validated(spec_request_checks(*request));
            if v.1.len() > 0 {
                &&& r.0 == STATUS_BAD_REQUEST
                &&& !r.1.success
                &&& r.1.updated_fields@.len() == 0
                &&& value_views(r.1.failed_fields@) == spec_error_map(v.1)
                &&& r.1.requires_action@ == Map::<Seq<char>, String>::empty()
                &&& r.1.message@ == "Some fields could not be updated"@
                &&& *final(config) == *old(config)
            } else {
                let rec = spec_apply_record(*old(config), *request, v.0);
                &&& spec_config_updated(*old(config), *final(config), *request, v.0)
                &&& r.1.success == (rec.2 == Map::<Seq<char>, Seq<char>>::empty())
                &&& r.0 == if r.1.success { STATUS_OK } else { STATUS_PARTIAL_CONTENT }
                &&& views(r.1.updated_fields@) == rec.0
                &&& value_views(r.1.failed_fields@) == rec.2
                &&& value_views(r.1.requires_action@) == spec_actions(Map::empty(), rec.1)
                &&& r.1.message@ == if r.1.success { spec_success_message(rec.0.len()) } else { "Some fields could not be updated"@ }
            }
        }),
{
    let validation = validate_config_update(request);
    if validation.errors.len() > 0 {
        let failed = error_map(&validation.errors);
        let response = ConfigUpdateResponse::partial(Vec::new(), failed);
        return (STATUS_BAD_REQUEST, response);
    }
    proof {
        lemma_valid_request_not_stuck(*config, *request);
    }
    let result = apply_config_update(config, request, &validation.valid_fields);
    let ghost rec = result.spec_view();
    proof {
        let m = result.failed_fields@;
        assert(value_views(m).dom() =~= m.dom());
        if value_views(m) == Map::<Seq<char>, Seq<char>>::empty() {
            assert(m.dom() =~= Set::<Seq<char>>::empty());
            assert(m =~= Map::<Seq<char>, String>::empty());
        }
        if m == Map::<Seq<char>, String>::empty() {
            assert(value_views(m) =~= Map::<Seq<char>, Seq<char>>::empty());
        }
        assert(views(result.updated_fields@).len() == result.updated_fields@.len());
    }
    let response = result.into_response();
    let status = if response.success { STATUS_OK } else { STATUS_PARTIAL_CONTENT };
    (status, response)
}

} // verus!
