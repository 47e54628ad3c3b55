//! The ClawHub skill marketplace: the requests its client sends and the
//! errors it reports. Sending them and reading the JSON replies happens
//! outside the crate.

use vstd::prelude::*;
use vstd::utf8::*;
use crate::error::ServerError;
use crate::text::{concat, concat3, spec_decimal, u64_to_decimal};

verus! {

/// Base URL of the ClawHub API.
pub const CLAWHUB_API_BASE: &'static str = "https://clawhub.ai/api/v1";

/// User agent of ClawHub requests.
pub const USER_AGENT: &'static str = "moss/0.8.2";

/// The owner of a skill.
#[derive(Debug, Clone)]
pub struct ClawHubOwner {
    /// GitHub handle.
    pub handle: String,
    /// Display name.
    pub name: Option<String>,
}

/// Download and star counts of a skill.
#[derive(Debug, Clone, Copy)]
pub struct ClawHubStats {
    pub downloads: u64,
    pub stars: u64,
}

/// A GET request: the URL and the query parameters in order.
#[derive(Debug)]
pub struct HubRequest {
    pub url: String,
    pub query: Vec<(String, String)>,
}

/// A request as text: the URL and the (name, value) pairs of its query.
pub open spec fn request_view(r: HubRequest) -> (Seq<char>, Seq<(Seq<char>, Seq<char>)>) {
    (r.url@, r.query@.map_values(|p: (String, String)| (p.0@, p.1@)))
}

/// The query pair `name=value`, present only when there is a value.
pub open spec fn optional_pair(name: Seq<char>, value: Option<Seq<char>>) -> Seq<(Seq<char>, Seq<char>)> {
    match value {
        Some(v) => seq![(name, v)],
        None => Seq::empty(),
    }
}

fn pair(name: &str, value: &str) -> (r: (String, String))
    ensures
        r.0@ == name@,
        r.1@ == value@,
{
    (String::from_str(name), String::from_str(value))
}

fn push_optional(query: &mut Vec<(String, String)>, name: &str, value: Option<&str>)
    ensures
        final(query)@.map_values(|p: (String, String)| (p.0@, p.1@)) == old(query)@.map_values(|p: (String, String)| (p.0@, p.1@))
            + optional_pair(name@, match value { Some(v) => Some(v@), None => None }),
{
    let ghost before = query@;
    if let Some(v) = value {
        query.push(pair(name, v));
        assert(query@.map_values(|p: (String, String)| (p.0@, p.1@)) =~= before.map_values(|p: (String, String)| (p.0@, p.1@))
            + seq![(name@, v@)]);
    } else {
        assert(query@.map_values(|p: (String, String)| (p.0@, p.1@)) =~= before.map_values(|p: (String, String)| (p.0@, p.1@))
            + Seq::<(Seq<char>, Seq<char>)>::empty());
    }
}

/// The view of an optional text.
pub open spec fn opt_str_view(v: Option<&str>) -> Option<Seq<char>> {
    match v {
        Some(s) => Some(s@),
        None => None,
    }
}

/// Semantic search: `/search` with the query `q` and the `limit`.
pub fn search_request(query: &str, limit: usize) -> (r: HubRequest)
    ensures
        request_view(r) == (CLAWHUB_API_BASE@ + "/search"@, seq![("q"@, query@), ("limit"@, spec_decimal(limit as nat))]),
{
    let n = u64_to_decimal(limit as u64);
    let mut q: Vec<(String, String)> = Vec::new();
    q.push(pair("q", query));
    q.push(pair("limit", n.as_str()));
    let r = HubRequest { url: concat(CLAWHUB_API_BASE, "/search"), query: q };
    assert(request_view(r).1 =~= seq![("q"@, query@), ("limit"@, spec_decimal(limit as nat))]);
    r
}

/// One page of the catalogue: `/skills` with the `limit`, then the `cursor`
/// and the `sort` order when given.
pub fn browse_request(limit: usize, cursor: Option<&str>, sort: Option<&str>) -> (r: HubRequest)
    ensures
        request_view(r) == (CLAWHUB_API_BASE@ + "/skills"@,
            seq![("limit"@, spec_decimal(limit as nat))]
                + optional_pair("cursor"@, opt_str_view(cursor))
                + optional_pair("sort"@, opt_str_view(sort))),
{
    let n = u64_to_decimal(limit as u64);
    let mut q: Vec<(String, String)> = Vec::new();
    q.push(pair("limit", n.as_str()));
    assert(q@.map_values(|p: (String, String)| (p.0@, p.1@)) =~= seq![("limit"@, spec_decimal(limit as nat))]);
    push_optional(&mut q, "cursor", cursor);
    push_optional(&mut q, "sort", sort);
    HubRequest { url: concat(CLAWHUB_API_BASE, "/skills"), query: q }
}

/// The details of one skill: `/skills/` and its slug.
pub fn skill_request(slug: &str) -> (r: HubRequest)
    ensures
        request_view(r) == (CLAWHUB_API_BASE@ + "/skills/"@ + slug@, Seq::<(Seq<char>, Seq<char>)>::empty()),
{
    let r = HubRequest { url: concat3(CLAWHUB_API_BASE, "/skills/", slug), query: Vec::new() };
    assert(request_view(r).1 =~= Seq::<(Seq<char>, Seq<char>)>::empty());
    r
}

/// The package of a skill: `/download` with the `slug`, and the `version`
/// when given.
pub fn download_request(slug: &str, version: Option<&str>) -> (r: HubRequest)
    ensures
        request_view(r) == (CLAWHUB_API_BASE@ + "/download"@,
            seq![("slug"@, slug@)] + optional_pair("version"@, opt_str_view(version))),
{
    let mut q: Vec<(String, String)> = Vec::new();
    q.push(pair("slug", slug));
    assert(q@.map_values(|p: (String, String)| (p.0@, p.1@)) =~= seq![("slug"@, slug@)]);
    push_optional(&mut q, "version", version);
    HubRequest { url: concat(CLAWHUB_API_BASE, "/download"), query: q }
}

/// The calls of the ClawHub client.
#[derive(Debug, Clone, Copy, PartialEq, Eq, Structural)]
pub enum HubCall {
    Search,
    Browse,
    Skill,
    Download,
}

/// The start of the message of a failure status for a call.
pub open spec fn spec_status_head(call: HubCall) -> Seq<char> {
    match call {
        HubCall::Search => "ClawHub search API error ("@,
        HubCall::Browse => "ClawHub browse API error ("@,
        HubCall::Skill => "ClawHub API error ("@,
        HubCall::Download => "ClawHub download error ("@,
    }
}

/// The error of a call that the service answered with a failure status:
/// for a skill's details, status 404 means the skill does not exist;
/// otherwise the call's message, the status as shown and the reply's body.
pub fn status_error(call: HubCall, slug: &str, status: u16, status_text: &str, body: &str) -> (e: ServerError)
    ensures
        e matches ServerError::Operation(m) && m@ == if call == HubCall::Skill && status == 404 {
            "Skill '"@ + slug@ + "' not found on ClawHub"@
        } else {
            spec_status_head(call) + status_text@ + "): "@ + body@
        },
{
    if call == HubCall::Skill && status == 404 {
        return ServerError::Operation(concat3("Skill '", slug, "' not found on ClawHub"));
    }
    let head: &str = match call {
        HubCall::Search => "ClawHub search API error (",
        HubCall::Browse => "ClawHub browse API error (",
        HubCall::Skill => "ClawHub API error (",
        HubCall::Download => "ClawHub download error (",
    };
    let first = concat3(head, status_text, "): ");
    ServerError::Operation(concat(first.as_str(), body))
}

/// The error of a reply that is neither shape the service uses: the call's
/// message and the reply's first 200 bytes (all of it when shorter).
pub open spec fn spec_unparsable(browse: bool, text: Seq<char>) -> Seq<char> {
    let head = if browse { "Failed to parse ClawHub browse response: "@ } else { "Failed to parse ClawHub search response: "@ };
    let bytes = encode_utf8(text);
    head + if bytes.len() > 200 { decode_utf8(bytes.subrange(0, 200)) } else { text }
}

/// The error of an unreadable search (`browse` false) or browse reply.
/// The cut at 200 bytes must fall between characters.
pub fn unparsable_error(browse: bool, text: &str) -> (e: ServerError)
    requires
        encode_utf8(text@).len() > 200 ==> is_char_boundary(encode_utf8(text@), 200),
    ensures
        e matches ServerError::Operation(m) && m@ == spec_unparsable(browse, text@),
{
    let head: &str = if browse { "Failed to parse ClawHub browse response: " } else { "Failed to parse ClawHub search response: " };
    if text.as_bytes().len() > 200 {
        let (start, _) = text.split_at(200);
        proof {
            encode_utf8_decode_utf8(start@);
        }
        ServerError::Operation(concat(head, start))
    } else {
        ServerError::Operation(concat(head, text))
    }
}

} // verus!
