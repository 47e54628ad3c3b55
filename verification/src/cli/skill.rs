//! The skill subcommands and the decisions around them: what `info` looks
//! at, how listings shorten text, where skills live, and what answer
//! confirms a removal.

use vstd::prelude::*;
use vstd::utf8::*;
use crate::config::SkillConfig;
use crate::sys::{expand_tilde, lowercase_of, tilde_expansion, to_lowercase};
use crate::text::{concat, skip_chars, spec_ends_with, spec_starts_with, spec_strip_prefix, starts_with, str_eq};

verus! {

/// The skill subcommands.
#[derive(Debug)]
pub enum SkillCommand {
    /// Install a skill from a source such as `skillsmp:code-review`.
    Install {
        /// The source.
        source: String,
        /// A name to install the skill under.
        name: Option<String>,
        /// The installation directory.
        dir: Option<String>,
        /// Enable the skill after installation.
        enable: bool,
    },
    /// Search the marketplace.
    Search {
        /// The query.
        query: String,
        /// A category filter.
        category: Option<String>,
        /// How many results to show.
        limit: usize,
    },
    /// List installed skills, or the marketplace's.
    List {
        /// List the marketplace's skills.
        remote: bool,
        /// A category filter for the marketplace.
        category: Option<String>,
        /// How many skills to show.
        limit: usize,
    },
    /// Show a skill.
    Info {
        /// The skill's name, or `skillsmp:` and its name.
        name: String,
    },
    /// Update installed skills.
    Update {
        /// The skill to update.
        name: Option<String>,
        /// Update all of them.
        all: bool,
    },
    /// List skills with version tracking.
    Outdated,
    /// Remove a skill.
    Uninstall {
        /// The skill's name.
        name: String,
        /// Do not ask for confirmation.
        yes: bool,
    },
}


/// What `skill info` looks at.
#[derive(Debug)]
pub enum InfoTarget {
    /// A marketplace skill, by name.
    Remote(String),
    /// An installed skill, by name.
    Local(String),
}

/// `skillsmp:name` names a marketplace skill; anything else an installed one.
pub fn info_target(name: &str) -> (r: InfoTarget)
    ensures
        spec_starts_with(name@, "skillsmp:"@) ==> (r matches InfoTarget::Remote(n) && n@ == spec_strip_prefix(name@, "skillsmp:"@)),
        !spec_starts_with(name@, "skillsmp:"@) ==> (r matches InfoTarget::Local(n) && n@ == name@),
{
    proof {
        reveal_strlit("skillsmp:");
    }
    if starts_with(name, "skillsmp:") {
        InfoTarget::Remote(skip_chars(name, 9))
    } else {
        InfoTarget::Local(String::from_str(name))
    }
}

/// Text as a listing shows it: when its UTF-8 form is longer than `max`
/// bytes, its first `max` bytes and `...`; otherwise the text itself.
pub open spec fn spec_shorten(s: Seq<char>, max: nat) -> Seq<char> {
    if encode_utf8(s).len() > max {
        decode_utf8(encode_utf8(s).subrange(0, max as int)) + "..."@
    } else {
        s
    }
}

/// Shortens text for a listing (descriptions at 47 bytes, sources at 37).
pub fn shorten_for_display(s: &str, max: usize) -> (r: String)
    requires
        encode_utf8(s@).len() > max ==> is_char_boundary(encode_utf8(s@), max as int),
    ensures
        r@ == spec_shorten(s@, max as nat),
{
    proof {
        reveal_strlit("...");
    }
    let byte_len = s.as_bytes().len();
    if byte_len > max {
        let (head, _) = s.split_at(max);
        proof {
            encode_utf8_decode_utf8(head@);
        }
        concat(head, "...")
    } else {
        String::from_str(s)
    }
}

/// The directory that holds the skills when the configuration names none:
/// `.aries/skills` under the home directory, or under `.` when it is unknown.
pub open spec fn spec_default_skills_dir(home: Option<Seq<char>>) -> Seq<char> {
    match home {
        Some(h) => h + "/.aries/skills"@,
        None => "."@ + "/.aries/skills"@,
    }
}

/// The directory that holds the skills: the configured one with a leading
/// `~` expanded (`~/.moss/skills` when the section lists none), else the
/// default under the home directory.
pub fn skills_directory(skill: &Option<SkillConfig>, home: Option<&str>) -> (r: String)
    ensures
        skill is None ==> r@ == spec_default_skills_dir(match home {
            Some(h) => Some(h@),
            None => None,
        }),
        skill matches Some(c) ==> (c.directories.len() > 0 ==> tilde_expansion(c.directories[0]@, r@)),
        skill matches Some(c) ==> (c.directories.len() == 0 ==> tilde_expansion(crate::config::spec_app_home_path("skills"@), r@)),
{
    proof {
        reveal_strlit("/.aries/skills");
        reveal_strlit(".");
    }
    match skill {
        Some(c) => {
            if c.directories.len() > 0 {
                c.directory()
            } else {
                let dir = c.directory();
                expand_tilde(dir.as_str())
            }
        },
        None => match home {
            Some(h) => concat(h, "/.aries/skills"),
            None => concat(".", "/.aries/skills"),
        },
    }
}

/// The characters that `char::is_whitespace` accepts: those with the
/// Unicode property White_Space.
pub open spec fn is_white_space(c: char) -> bool {
    ('\u{9}' <= c && c <= '\u{d}') || c == ' ' || c == '\u{85}' || c == '\u{a0}' || c == '\u{1680}'
        || ('\u{2000}' <= c && c <= '\u{200a}') || c == '\u{2028}' || c == '\u{2029}' || c == '\u{202f}'
        || c == '\u{205f}' || c == '\u{3000}'
}

/// Whether `c` is white space.
fn white_space(c: char) -> (r: bool)
    ensures
        r == is_white_space(c),
{
    ('\u{9}' <= c && c <= '\u{d}') || c == ' ' || c == '\u{85}' || c == '\u{a0}' || c == '\u{1680}'
        || ('\u{2000}' <= c && c <= '\u{200a}') || c == '\u{2028}' || c == '\u{2029}' || c == '\u{202f}'
        || c == '\u{205f}' || c == '\u{3000}'
}

/// `s` without white space at either end, as `str::trim` gives it: the
/// piece between the first and the last character that is not white space.
pub open spec fn spec_trim(s: Seq<char>) -> Seq<char> {
    if forall|i: int| 0 <= i < s.len() ==> is_white_space(#[trigger] s[i]) {
        Seq::empty()
    } else {
        let a = choose|a: int| 0 <= a < s.len() && !is_white_space(s[a]) && forall|j: int| 0 <= j < a ==> is_white_space(#[trigger] s[j]);
        let b = choose|b: int| 0 <= b < s.len() && !is_white_space(s[b]) && forall|j: int| b < j < s.len() ==> is_white_space(#[trigger] s[j]);
        s.subrange(a, b + 1)
    }
}

/// `s` without white space at either end.
pub fn trim(s: &str) -> (r: String)
    ensures
        r@ == spec_trim(s@),
{
    let n = s.unicode_len();
    let mut a: usize = 0;
    while a < n && white_space(s.get_char(a))
        invariant
            n == s@.len(),
            a <= n,
            forall|j: int| 0 <= j < a ==> is_white_space(#[trigger] s@[j]),
        decreases n - a,
    {
        a = a + 1;
    }
    if a == n {
        return String::new();
    }
    let mut b: usize = n - 1;
    while white_space(s.get_char(b))
        invariant
            n == s@.len(),
            a <= b < n,
            !is_white_space(s@[a as int]),
            forall|j: int| b < j < n ==> is_white_space(#[trigger] s@[j]),
        decreases b,
    {
        b = b - 1;
    }
    proof {
        let a2 = choose|a2: int| 0 <= a2 < s@.len() && !is_white_space(s@[a2]) && forall|j: int| 0 <= j < a2 ==> is_white_space(#[trigger] s@[j]);
        let b2 = choose|b2: int| 0 <= b2 < s@.len() && !is_white_space(s@[b2]) && forall|j: int| b2 < j < s@.len() ==> is_white_space(#[trigger] s@[j]);
        assert(0 <= a as int && !is_white_space(s@[a as int]));
        assert(a2 == a) by {
            if a2 < a { assert(is_white_space(s@[a2])); }
            if a2 > a { assert(is_white_space(s@[a as int])); }
        }
        assert(b2 == b) by {
            if b2 < b { assert(is_white_space(s@[b as int])); }
            if b2 > b { assert(is_white_space(s@[b2])); }
        }
    }
    crate::text::substring(s, a, b + 1)
}

/// The answer confirms a removal: `y` or `yes`, ignoring case and white
/// space at either end.
pub fn confirms_removal(input: &str) -> (r: bool)
    ensures
        r == (lowercase_of(spec_trim(input@)) == "y"@ || lowercase_of(spec_trim(input@)) == "yes"@),
{
    proof {
        reveal_strlit("y");
        reveal_strlit("yes");
    }
    let t = trim(input);
    let l = to_lowercase(t.as_str());
    str_eq(l.as_str(), "y") || str_eq(l.as_str(), "yes")
}

} // verus!
