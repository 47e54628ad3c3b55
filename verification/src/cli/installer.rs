//! Where a skill comes from, and how a downloaded skill package is laid out
//! on disk: the skill's name, the archive's root directory, and the path of
//! each entry below the skill's directory. Downloading, unzipping and
//! writing files happen outside the crate.

use vstd::prelude::*;
use crate::error::ServerError;
use crate::sys::{file_name_of, parent_of, path_file_name, path_parent};
use crate::text::{
    concat, concat3, ends_with, find_char, rfind_char, skip_chars, spec_ends_with, spec_find, spec_has_char,
    spec_rfind, spec_starts_with, spec_strip_prefix, starts_with, str_eq, substring,
};

verus! {

/// Where a skill is installed from.
#[derive(Debug, Clone)]
pub enum SkillSource {
    /// The skillsmp.com marketplace, by name and optional version.
    Skillsmp { name: String, version: Option<String> },
    /// A package at a URL.
    Url(String),
}

/// A source as text: `skillsmp:` with name and version, or the URL.
pub enum SourceView {
    Skillsmp(Seq<char>, Option<Seq<char>>),
    Url(Seq<char>),
}

/// The view of a source.
pub open spec fn source_view(s: SkillSource) -> SourceView {
    match s {
        SkillSource::Skillsmp { name, version } => SourceView::Skillsmp(name@, crate::config::opt_view(version)),
        SkillSource::Url(u) => SourceView::Url(u@),
    }
}

/// The source that a source string names: `skillsmp:name` or
/// `skillsmp:name@version` (split at the first `@`), or an `http(s)://` URL.
pub open spec fn spec_parse_source(s: Seq<char>) -> Option<SourceView> {
    if spec_starts_with(s, "skillsmp:"@) {
        let rest = spec_strip_prefix(s, "skillsmp:"@);
        let at = spec_find(rest, '@');
        if at < 0 {
            Some(SourceView::Skillsmp(rest, None))
        } else {
            Some(SourceView::Skillsmp(rest.subrange(0, at), Some(rest.subrange(at + 1, rest.len() as int))))
        }
    } else if spec_starts_with(s, "https://"@) || spec_starts_with(s, "http://"@) {
        Some(SourceView::Url(s))
    } else {
        None
    }
}

/// The display form of a source.
pub open spec fn spec_display_name(v: SourceView) -> Seq<char> {
    match v {
        SourceView::Skillsmp(name, None) => "skillsmp:"@ + name,
        SourceView::Skillsmp(name, Some(ver)) => "skillsmp:"@ + name + "@"@ + ver,
        SourceView::Url(u) => u,
    }
}

impl SkillSource {
    /// Parses `skillsmp:name`, `skillsmp:name@version` or an `http(s)://`
    /// URL; anything else is an error.
    pub fn parse(source: &str) -> (r: Result<SkillSource, ServerError>)
        ensures
            match spec_parse_source(source@) {
                Some(v) => r matches Ok(s) && source_view(s) == v,
                None => r matches Err(ServerError::Operation(m))
                    && m@ == "Invalid skill source: '"@ + source@ + "'. Use 'skillsmp:name' or a URL."@,
            },
    {
        proof {
            reveal_strlit("skillsmp:");
        }
        if starts_with(source, "skillsmp:") {
            let rest = skip_chars(source, 9);
            assert(rest@ == spec_strip_prefix(source@, "skillsmp:"@));
            match find_char(rest.as_str(), '@') {
                Some(at) => {
                    let n = rest.as_str().unicode_len();
                    let name = substring(rest.as_str(), 0, at);
                    let version = substring(rest.as_str(), at + 1, n);
                    Ok(SkillSource::Skillsmp { name, version: Some(version) })
                },
                None => Ok(SkillSource::Skillsmp { name: rest, version: None }),
            }
        } else if starts_with(source, "https://") || starts_with(source, "http://") {
            Ok(SkillSource::Url(String::from_str(source)))
        } else {
            let m = concat3("Invalid skill source: '", source, "'. Use 'skillsmp:name' or a URL.");
            Err(ServerError::Operation(m))
        }
    }

    /// The source written as the user would write it.
    pub fn display_name(&self) -> (r: String)
        ensures
            r@ == spec_display_name(source_view(*self)),
    {
        match self {
            SkillSource::Skillsmp { name, version } => match version {
                Some(v) => {
                    let a = concat("skillsmp:", name.as_str());
                    concat3(a.as_str(), "@", v.as_str())
                },
                None => concat("skillsmp:", name.as_str()),
            },
            SkillSource::Url(url) => url.clone(),
        }
    }
}

/// The name suggested by a package URL: its last `/`-separated part without
/// `.zip`, or `downloaded-skill` when that part does not end in `.zip`.
pub open spec fn spec_url_name_hint(url: Seq<char>) -> Seq<char> {
    let last = url.subrange(spec_rfind(url, '/') + 1, url.len() as int);
    if spec_ends_with(last, ".zip"@) {
        last.subrange(0, last.len() - 4)
    } else {
        "downloaded-skill"@
    }
}

/// The skill name that a package URL suggests.
pub fn url_name_hint(url: &str) -> (r: String)
    ensures
        r@ == spec_url_name_hint(url@),
{
    proof {
        reveal_strlit(".zip");
    }
    let n = url.unicode_len();
    let start: usize = match rfind_char(url, '/') {
        Some(i) => i + 1,
        None => 0,
    };
    let last = substring(url, start, n);
    if ends_with(last.as_str(), ".zip") {
        let m = last.as_str().unicode_len();
        substring(last.as_str(), 0, m - 4)
    } else {
        String::from_str("downloaded-skill")
    }
}

/// The first `/`-separated component of an archive entry name.
pub open spec fn first_component(name: Seq<char>) -> Seq<char> {
    let i = spec_find(name, '/');
    if i < 0 { name } else { name.subrange(0, i) }
}

/// The root prefix of an archive: the first non-empty first component among
/// the entries, with a `/` after it.
pub open spec fn spec_root_prefix(names: Seq<Seq<char>>) -> Option<Seq<char>>
    decreases names.len(),
{
    if names.len() == 0 {
        None
    } else {
        match spec_root_prefix(names.drop_last()) {
            Some(p) => Some(p),
            None => if first_component(names.last()).len() > 0 {
                Some(first_component(names.last()) + "/"@)
            } else {
                None
            },
        }
    }
}

/// The skill name that an entry gives: for a `SKILL.md` entry, the name of
/// the directory that holds it (not empty and not `.`).
pub open spec fn skill_dir_name(name: Seq<char>) -> Option<Seq<char>> {
    if spec_ends_with(name, "SKILL.md"@) {
        match parent_of(name) {
            Some(dir) => match file_name_of(dir) {
                Some(n) => if n.len() > 0 && n != "."@ { Some(n) } else { None },
                None => None,
            },
            None => None,
        }
    } else {
        None
    }
}

/// The skill name of an archive: that of the last `SKILL.md` entry that
/// gives one.
pub open spec fn spec_skill_name(names: Seq<Seq<char>>) -> Option<Seq<char>>
    decreases names.len(),
{
    if names.len() == 0 {
        None
    } else {
        match skill_dir_name(names.last()) {
            Some(n) => Some(n),
            None => spec_skill_name(names.drop_last()),
        }
    }
}

/// How an archive is laid out.
#[derive(Debug, Clone)]
pub struct ArchiveLayout {
    /// The skill's name, when a `SKILL.md` entry gives it.
    pub skill_name: Option<String>,
    /// The directory that holds everything, with a trailing `/`.
    pub root_prefix: Option<String>,
}

/// Finds the skill name and root directory of an archive from its entry
/// names, in archive order.
pub fn analyze_archive(names: &Vec<String>) -> (r: ArchiveLayout)
    ensures
        crate::config::opt_view(r.skill_name) == spec_skill_name(crate::text::views(names@)),
        crate::config::opt_view(r.root_prefix) == spec_root_prefix(crate::text::views(names@)),
{
    proof {
        reveal_strlit("SKILL.md");
        reveal_strlit(".");
    }
    let ghost nv = crate::text::views(names@);
    let mut skill_name: Option<String> = None;
    let mut root_prefix: Option<String> = None;
    let mut i: usize = 0;
    while i < names.len()
        invariant
            i <= names@.len(),
            nv == crate::text::views(names@),
            crate::config::opt_view(skill_name) == spec_skill_name(nv.take(i as int)),
            crate::config::opt_view(root_prefix) == spec_root_prefix(nv.take(i as int)),
        decreases names@.len() - i,
    {
        let path = names[i].as_str();
        proof {
            assert(nv.take(i + 1).drop_last() =~= nv.take(i as int));
            assert(nv.take(i + 1).last() == path@);
        }
        if root_prefix.is_none() {
            let first = match find_char(path, '/') {
                Some(k) => substring(path, 0, k),
                None => String::from_str(path),
            };
            if first.as_str().unicode_len() > 0 {
                root_prefix = Some(concat(first.as_str(), "/"));
            }
        }
        if ends_with(path, "SKILL.md") {
            if let Some(dir) = path_parent(path) {
                if let Some(n) = path_file_name(dir.as_str()) {
                    if n.as_str().unicode_len() > 0 && !str_eq(n.as_str(), ".") {
                        skill_name = Some(n);
                    }
                }
            }
        }
        i = i + 1;
    }
    assert(nv.take(names@.len() as int) =~= nv);
    ArchiveLayout { skill_name, root_prefix }
}

/// Where an entry goes below the skill's directory: its name without the
/// root prefix (when it has it); `None` for the root itself.
pub open spec fn spec_relative_path(raw: Seq<char>, root_prefix: Option<Seq<char>>) -> Option<Seq<char>> {
    let rel = match root_prefix {
        Some(p) => if spec_starts_with(raw, p) { spec_strip_prefix(raw, p) } else { raw },
        None => raw,
    };
    if rel.len() == 0 || rel == "/"@ { None } else { Some(rel) }
}

/// The path of an entry below the skill's directory, or `None` to skip it.
pub fn archive_relative_path(raw: &str, root_prefix: &Option<String>) -> (r: Option<String>)
    ensures
        crate::config::opt_view(r) == spec_relative_path(raw@, crate::config::opt_view(*root_prefix)),
{
    let rel = match root_prefix {
        Some(p) => if starts_with(raw, p.as_str()) {
            skip_chars(raw, p.as_str().unicode_len())
        } else {
            String::from_str(raw)
        },
        None => String::from_str(raw),
    };
    if rel.as_str().unicode_len() == 0 || str_eq(rel.as_str(), "/") {
        None
    } else {
        Some(rel)
    }
}

/// The name a package is installed under: the one found in the archive, or
/// the hint.
pub fn final_skill_name(layout: &ArchiveLayout, name_hint: &str) -> (r: String)
    ensures
        r@ == match layout.skill_name {
            Some(n) => n@,
            None => name_hint@,
        },
{
    match &layout.skill_name {
        Some(n) => n.clone(),
        None => String::from_str(name_hint),
    }
}

/// The marketplace key: the one configured in the skills section, else the
/// value of `SKILLSMP_API_KEY` (given as `env_key`).
pub fn installer_api_key(skill_config: Option<&crate::config::SkillConfig>, env_key: Option<String>) -> (r: Option<String>)
    ensures
        r == match skill_config {
            Some(c) => match c.market {
                Some(m) => match m.api_key {
                    Some(k) => Some(k),
                    None => env_key,
                },
                None => env_key,
            },
            None => env_key,
        },
{
    if let Some(c) = skill_config {
        if let Some(m) = &c.market {
            if let Some(k) = &m.api_key {
                return Some(k.clone());
            }
        }
    }
    env_key
}

} // verus!
