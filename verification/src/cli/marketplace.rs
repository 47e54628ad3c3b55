//! The skillsmp.com marketplace: readable names for skill ids, what a search
//! result becomes, which result a skill name picks, and the queries and
//! errors of the marketplace requests.

use vstd::prelude::*;
use vstd::utf8::*;
use crate::error::ServerError;
use crate::sys::{lowercase_of, to_lowercase};
use crate::text::{
    concat, concat3, contains_str, join, push_string, spec_contains_str, spec_join, spec_split,
    split_char, str_eq, views,
};

verus! {

broadcast use vstd::string::group_string_axioms;

/// A skill as the marketplace lists it.
#[derive(Debug, Clone)]
pub struct MarketplaceSkill {
    /// Skill id, used in the marketplace's URLs.
    pub id: String,
    /// Display name.
    pub name: String,
    /// Description.
    pub description: String,
    /// Version, if known.
    pub version: Option<String>,
    /// Author or owner.
    pub author: Option<String>,
    /// License.
    pub license: Option<String>,
    /// Tools the skill may use.
    pub allowed_tools: Vec<String>,
    /// Where the package can be downloaded.
    pub download_url: Option<String>,
}

/// One result of a marketplace search, as the marketplace answers it.
#[derive(Debug, Clone)]
pub struct SkillSearchResult {
    /// Skill id.
    pub id: String,
    /// Display name, if the marketplace gave one.
    pub name: Option<String>,
    /// Description, if the marketplace gave one.
    pub description: Option<String>,
    /// Tags of the skill.
    pub tags: Vec<String>,
}

/// A path segment that says nothing about the skill's name.
pub open spec fn is_marker_segment(p: Seq<char>) -> bool {
    p == "skills"@ || p == "skill"@ || p == "md"@
}

/// The first index at or after `i` whose segment is `skill`, or -1.
pub open spec fn spec_skill_marker_from(parts: Seq<Seq<char>>, i: int) -> int
    decreases parts.len() - i,
{
    if i < 0 || i >= parts.len() {
        -1
    } else if parts[i] == "skill"@ {
        i
    } else {
        spec_skill_marker_from(parts, i + 1)
    }
}

/// The segments that are not markers, in order.
pub open spec fn spec_meaningful_segments(parts: Seq<Seq<char>>) -> Seq<Seq<char>>
    decreases parts.len(),
{
    if parts.len() == 0 {
        Seq::empty()
    } else {
        let rest = spec_meaningful_segments(parts.drop_last());
        if is_marker_segment(parts.last()) {
            rest
        } else {
            rest.push(parts.last())
        }
    }
}

/// The name that the segments of an id give, if they give one: the segment
/// before the first `skill` segment (not the first segment), else the
/// meaningful middle segments (without the first two and the last two)
/// joined with `-`.
pub open spec fn spec_name_from_segments(parts: Seq<Seq<char>>) -> Option<Seq<char>> {
    let k = spec_skill_marker_from(parts, 1);
    if parts.len() >= 3 && k >= 1 {
        Some(parts[k - 1])
    } else if parts.len() > 4 && spec_meaningful_segments(parts.subrange(2, parts.len() - 2)).len() > 0 {
        Some(spec_join(spec_meaningful_segments(parts.subrange(2, parts.len() - 2)), "-"@))
    } else {
        None
    }
}

/// The id cut down for display: when its UTF-8 form is longer than 30
/// bytes, its first 27 bytes and `...`; otherwise the id itself.
pub open spec fn spec_shortened_id(id: Seq<char>) -> Seq<char> {
    if encode_utf8(id).len() > 30 {
        decode_utf8(encode_utf8(id).subrange(0, 27)) + "..."@
    } else {
        id
    }
}

/// The readable name of a skill id of the form `owner-repo-path-to-skill-md`.
pub open spec fn spec_name_from_id(id: Seq<char>) -> Seq<char> {
    match spec_name_from_segments(spec_split(id, '-')) {
        Some(n) => n,
        None => spec_shortened_id(id),
    }
}

/// The name can be taken from `id` without cutting a character in two.
pub open spec fn name_from_id_defined(id: Seq<char>) -> bool {
    spec_name_from_segments(spec_split(id, '-')) is None && encode_utf8(id).len() > 30
        ==> is_char_boundary(encode_utf8(id), 27)
}

/// The index of the first `skill` segment after the first one.
fn skill_marker_index(parts: &Vec<String>) -> (r: Option<usize>)
    ensures
        match r {
            Some(k) => 1 <= k < parts@.len() && spec_skill_marker_from(views(parts@), 1) == k,
            None => spec_skill_marker_from(views(parts@), 1) == -1,
        },
{
    let ghost pv = views(parts@);
    let mut i: usize = 1;
    proof {
        reveal_strlit("skill");
    }
    if parts.len() == 0 {
        return None;
    }
    while i < parts.len()
        invariant
            pv == views(parts@),
            1 <= i <= parts@.len(),
            spec_skill_marker_from(pv, i as int) == spec_skill_marker_from(pv, 1),
        decreases parts.len() - i,
    {
        assert(pv[i as int] == parts@[i as int]@);
        if str_eq(parts[i].as_str(), "skill") {
            return Some(i);
        }
        i = i + 1;
    }
    None
}

/// The meaningful segments of `parts[from..to]`.
fn meaningful_segments(parts: &Vec<String>, from: usize, to: usize) -> (r: Vec<String>)
    requires
        from <= to <= parts@.len(),
    ensures
        views(r@) == spec_meaningful_segments(views(parts@).subrange(from as int, to as int)),
{
    let ghost pv = views(parts@);
    let mut out: Vec<String> = Vec::new();
    let mut j: usize = from;
    proof {
        reveal_strlit("skill");
        reveal_strlit("skills");
        reveal_strlit("md");
        assert(pv.subrange(from as int, from as int) =~= Seq::<Seq<char>>::empty());
        assert(views(out@) =~= Seq::<Seq<char>>::empty());
    }
    while j < to
        invariant
            pv == views(parts@),
            from <= j <= to <= parts@.len(),
            views(out@) == spec_meaningful_segments(pv.subrange(from as int, j as int)),
        decreases to - j,
    {
        let p = parts[j].as_str();
        proof {
            assert(pv.subrange(from as int, j + 1).drop_last() =~= pv.subrange(from as int, j as int));
            assert(pv.subrange(from as int, j + 1).last() == p@);
        }
        if !(str_eq(p, "skills") || str_eq(p, "skill") || str_eq(p, "md")) {
            push_string(&mut out, parts[j].clone());
        }
        j = j + 1;
    }
    out
}

/// The name that the `-`-separated segments of an id give, if they give one.
fn name_from_segments(id: &str) -> (r: Option<String>)
    ensures
        crate::config::opt_view(r) == spec_name_from_segments(spec_split(id@, '-')),
{
    let parts = split_char(id, '-');
    let ghost pv = views(parts@);
    assert(pv.len() == parts@.len());
    if parts.len() >= 3 {
        match skill_marker_index(&parts) {
            Some(k) => {
                assert(pv[k - 1] == parts@[k - 1]@);
                return Some(parts[k - 1].clone());
            },
            None => {},
        }
        if parts.len() > 4 {
            let names = meaningful_segments(&parts, 2, parts.len() - 2);
            if names.len() > 0 {
                assert(views(names@).len() == names@.len());
                return Some(join(&names, "-"));
            }
            assert(views(names@).len() == names@.len());
        }
    }
    None
}

/// Whether a readable name can be taken from `id` (without cutting a
/// character of a long id in two).
pub fn name_from_id_is_defined(id: &str) -> (r: bool)
    ensures
        r == name_from_id_defined(id@),
{
    match name_from_segments(id) {
        Some(_) => true,
        None => id.as_bytes().len() <= 30 || id.is_char_boundary(27),
    }
}

/// A readable name for a skill id: the segment before `skill`, else the
/// meaningful middle segments, else the id (cut to 27 bytes and `...` when
/// longer than 30 bytes).
pub fn extract_name_from_id(id: &str) -> (r: String)
    requires
        name_from_id_defined(id@),
    ensures
        r@ == spec_name_from_id(id@),
{
    match name_from_segments(id) {
        Some(n) => n,
        None => {
            proof {
                reveal_strlit("...");
            }
            let byte_len = id.as_bytes().len();
            if byte_len > 30 {
                let (head, _) = id.split_at(27);
                proof {
                    encode_utf8_decode_utf8(head@);
                    assert(head@ == decode_utf8(encode_utf8(id@).subrange(0, 27)));
                }
                concat(head, "...")
            } else {
                String::from_str(id)
            }
        },
    }
}

/// The description of a search result: its own, else its tags joined with
/// `, `, else a fixed sentence.
pub open spec fn spec_result_description(r: SkillSearchResult) -> Seq<char> {
    match r.description {
        Some(d) => d@,
        None => if r.tags@.len() == 0 {
            "No description available"@
        } else {
            spec_join(views(r.tags@), ", "@)
        },
    }
}

/// The download URL of the skill with id `id`.
pub open spec fn spec_download_url(id: Seq<char>) -> Seq<char> {
    "https://skillsmp.com/api/v1/skills/"@ + id + "/download"@
}

/// The download URL of the skill with id `id`.
pub fn download_url(id: &str) -> (r: String)
    ensures
        r@ == spec_download_url(id@),
{
    concat3("https://skillsmp.com/api/v1/skills/", id, "/download")
}

/// The marketplace skill that a search result stands for: the name from the
/// id when the result has none, the description as above, no version,
/// author, license or tools, and the download URL of the id.
pub fn skill_from_search_result(r: SkillSearchResult) -> (s: MarketplaceSkill)
    requires
        r.name is None ==> name_from_id_defined(r.id@),
    ensures
        s.id@ == r.id@,
        s.name@ == (match r.name {
            Some(n) => n@,
            None => spec_name_from_id(r.id@),
        }),
        s.description@ == spec_result_description(r),
        s.version is None,
        s.author is None,
        s.license is None,
        s.allowed_tools@.len() == 0,
        s.download_url is Some && s.download_url->0@ == spec_download_url(r.id@),
{
    let ghost r0 = r;
    let name = match r.name {
        Some(n) => n,
        None => extract_name_from_id(r.id.as_str()),
    };
    let description = match r.description {
        Some(d) => d,
        None => if r.tags.len() == 0 {
            proof {
                reveal_strlit("No description available");
            }
            String::from_str("No description available")
        } else {
            join(&r.tags, ", ")
        },
    };
    let url = download_url(r.id.as_str());
    MarketplaceSkill {
        id: r.id,
        name,
        description,
        version: None,
        author: None,
        license: None,
        allowed_tools: Vec::new(),
        download_url: Some(url),
    }
}

/// The skill matches the name cheaply: same name ignoring case, or the name
/// occurs in its id.
pub open spec fn cheap_match(s: MarketplaceSkill, name: Seq<char>) -> bool {
    lowercase_of(s.name@) == lowercase_of(name) || spec_contains_str(s.id@, name)
}

/// The skill matches the name: cheaply, or the name from its id is the name
/// ignoring case.
pub open spec fn skill_matches(s: MarketplaceSkill, name: Seq<char>) -> bool {
    cheap_match(s, name) || lowercase_of(spec_name_from_id(s.id@)) == lowercase_of(name)
}

/// Every skill that the search reaches before a match can be named from its id.
pub open spec fn match_search_defined(skills: Seq<MarketplaceSkill>, name: Seq<char>) -> bool {
    forall|i: int|
        0 <= i < skills.len() && (forall|j: int| 0 <= j < i ==> !skill_matches(#[trigger] skills[j], name))
            && !cheap_match(skills[i], name) ==> name_from_id_defined(#[trigger] skills[i].id@)
}

/// The message when no skill matches.
pub open spec fn spec_not_found_message(name: Seq<char>) -> Seq<char> {
    "Skill '"@ + name + "' not found on skillsmp.com"@
}

/// The first skill that matches `skill_name`, or the error that none does.
pub fn find_skill_match(skills: Vec<MarketplaceSkill>, skill_name: &str) -> (r: Result<MarketplaceSkill, ServerError>)
    requires
        match_search_defined(skills@, skill_name@),
    ensures
        match r {
            Ok(s) => exists|k: int|
                0 <= k < skills@.len() && skills@[k] == s && skill_matches(s, skill_name@)
                    && forall|j: int| 0 <= j < k ==> !skill_matches(#[trigger] skills@[j], skill_name@),
            Err(e) => (forall|j: int| 0 <= j < skills@.len() ==> !skill_matches(#[trigger] skills@[j], skill_name@))
                && e is Operation && e->Operation_0@ == spec_not_found_message(skill_name@),
        },
{
    let wanted = to_lowercase(skill_name);
    let mut i: usize = 0;
    while i < skills.len()
        invariant
            match_search_defined(skills@, skill_name@),
            wanted@ == lowercase_of(skill_name@),
            i <= skills@.len(),
            forall|j: int| 0 <= j < i ==> !skill_matches(#[trigger] skills@[j], skill_name@),
        decreases skills.len() - i,
    {
        let s = &skills[i];
        let own = to_lowercase(s.name.as_str());
        let mut hit = str_eq(own.as_str(), wanted.as_str()) || contains_str(s.id.as_str(), skill_name);
        if !hit {
            let from_id = extract_name_from_id(s.id.as_str());
            let lowered = to_lowercase(from_id.as_str());
            hit = str_eq(lowered.as_str(), wanted.as_str());
        }
        if hit {
            let mut skills = skills;
            return Ok(skills.remove(i));
        }
        i = i + 1;
    }
    proof {
        reveal_strlit("Skill '");
        reveal_strlit("' not found on skillsmp.com");
    }
    Err(ServerError::Operation(concat3("Skill '", skill_name, "' not found on skillsmp.com")))
}

/// The search query of a name and an optional version: `name version`.
pub fn resolve_query(skill_name: &str, version: Option<&str>) -> (r: String)
    ensures
        r@ == (match version {
            Some(v) => skill_name@ + " "@ + v@,
            None => skill_name@,
        }),
{
    match version {
        Some(v) => {
            proof {
                reveal_strlit(" ");
            }
            concat3(skill_name, " ", v)
        },
        None => String::from_str(skill_name),
    }
}

/// The search query of a query and an optional category filter:
/// `query category:cat`.
pub fn search_query(query: &str, category: Option<&str>) -> (r: String)
    ensures
        r@ == (match category {
            Some(c) => query@ + " category:"@ + c@,
            None => query@,
        }),
{
    match category {
        Some(c) => {
            proof {
                reveal_strlit(" category:");
            }
            concat3(query, " category:", c)
        },
        None => String::from_str(query),
    }
}

/// The `Authorization` header value for an API key: `Bearer key`.
pub fn authorization_value(api_key: &Option<String>) -> (r: Option<String>)
    ensures
        match api_key {
            Some(k) => r is Some && r->0@ == "Bearer "@ + k@,
            None => r is None,
        },
{
    match api_key {
        Some(k) => {
            proof {
                reveal_strlit("Bearer ");
            }
            Some(concat("Bearer ", k.as_str()))
        },
        None => None,
    }
}

/// The message of a refused search (status 403).
pub open spec fn spec_search_forbidden_message() -> Seq<char> {
    "skillsmp.com requires an API key or is temporarily unavailable.\nGet an API key from https://skillsmp.com and set SKILLSMP_API_KEY environment variable,\nor try again later."@
}

/// The error of a search answered with a status that is not a success:
/// a fixed message for 403, else the status and the body.
pub fn search_status_error(status: u16, status_text: &str, body: &str) -> (e: ServerError)
    ensures
        e is Operation,
        status == 403 ==> e->Operation_0@ == spec_search_forbidden_message(),
        status != 403 ==> e->Operation_0@ == "skillsmp.com API error ("@ + status_text@ + "): "@ + body@,
{
    if status == 403 {
        let m = "skillsmp.com requires an API key or is temporarily unavailable.\nGet an API key from https://skillsmp.com and set SKILLSMP_API_KEY environment variable,\nor try again later.";
        proof {
            reveal_strlit("skillsmp.com requires an API key or is temporarily unavailable.\nGet an API key from https://skillsmp.com and set SKILLSMP_API_KEY environment variable,\nor try again later.");
        }
        ServerError::Operation(String::from_str(m))
    } else {
        proof {
            reveal_strlit("skillsmp.com API error (");
            reveal_strlit("): ");
        }
        let head = concat3("skillsmp.com API error (", status_text, "): ");
        ServerError::Operation(concat(head.as_str(), body))
    }
}

/// The message of a refused download (status 403).
pub open spec fn spec_download_forbidden_message() -> Seq<char> {
    "skillsmp.com requires an API key for downloads.\nGet an API key from https://skillsmp.com and set SKILLSMP_API_KEY environment variable."@
}

/// The error of a download answered with a status that is not a success:
/// a fixed message for 403, else the status and the body.
pub fn download_status_error(status: u16, status_text: &str, body: &str) -> (e: ServerError)
    ensures
        e is Operation,
        status == 403 ==> e->Operation_0@ == spec_download_forbidden_message(),
        status != 403 ==> e->Operation_0@ == "Failed to download skill ("@ + status_text@ + "): "@ + body@,
{
    if status == 403 {
        let m = "skillsmp.com requires an API key for downloads.\nGet an API key from https://skillsmp.com and set SKILLSMP_API_KEY environment variable.";
        proof {
            reveal_strlit("skillsmp.com requires an API key for downloads.\nGet an API key from https://skillsmp.com and set SKILLSMP_API_KEY environment variable.");
        }
        ServerError::Operation(String::from_str(m))
    } else {
        proof {
            reveal_strlit("Failed to download skill (");
            reveal_strlit("): ");
        }
        let head = concat3("Failed to download skill (", status_text, "): ");
        ServerError::Operation(concat(head.as_str(), body))
    }
}

/// The note printed when a resolved skill has another version than the
/// one asked for.
pub fn version_note(requested: Option<&str>, found: &Option<String>) -> (r: Option<String>)
    ensures
        match (requested, found) {
            (Some(want), Some(have)) => if want@ == have@ {
                r is None
            } else {
                r is Some && r->0@ == "  Note: Requested version '"@ + want@ + "', but found version '"@ + have@ + "'"@
            },
            _ => r is None,
        },
{
    match (requested, found) {
        (Some(want), Some(have)) => {
            if str_eq(want, have.as_str()) {
                None
            } else {
                proof {
                    reveal_strlit("  Note: Requested version '");
                    reveal_strlit("', but found version '");
                    reveal_strlit("'");
                }
                let a = concat3("  Note: Requested version '", want, "', but found version '");
                Some(concat3(a.as_str(), have.as_str(), "'"))
            }
        },
        _ => None,
    }
}

} // verus!
