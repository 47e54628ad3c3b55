//! Calls into the standard library that vstd gives no specification, each
//! behind a small trusted wrapper. What the wrapper promises is written on it.

use vstd::prelude::*;
use std::time::Duration;
use crate::text::spec_ends_with;

verus! {

/// Every character is ASCII.
pub open spec fn all_ascii(s: Seq<char>) -> bool {
    forall|i: int| 0 <= i < s.len() ==> (#[trigger] s[i] as u32) < 128
}

/// An ASCII upper-case letter made lower case; any other character as it is.
pub open spec fn ascii_lower_char(c: char) -> char {
    if 'A' <= c && c <= 'Z' {
        ((c as u32) + 32) as char
    } else {
        c
    }
}

/// ASCII lower case of each character.
pub open spec fn ascii_lower(s: Seq<char>) -> Seq<char> {
    s.map_values(|c: char| ascii_lower_char(c))
}

/// What `str::to_lowercase` returns for text that is not all ASCII.
pub uninterp spec fn unicode_lowercase(s: Seq<char>) -> Seq<char>;

/// What `str::to_lowercase` returns: for ASCII text its ASCII lower case
/// (the Unicode lower-case mapping of an ASCII character is its ASCII lower
/// case), otherwise the named result.
pub open spec fn lowercase_of(s: Seq<char>) -> Seq<char> {
    if all_ascii(s) {
        ascii_lower(s)
    } else {
        unicode_lowercase(s)
    }
}

/// What `Path::extension` gives for a path with these characters, as text.
pub uninterp spec fn extension_of(path: Seq<char>) -> Option<Seq<char>>;

/// What `Path::parent` gives for a path with these characters, as text.
pub uninterp spec fn parent_of(path: Seq<char>) -> Option<Seq<char>>;

/// What `Path::file_name` gives for a path with these characters, as text.
pub uninterp spec fn file_name_of(path: Seq<char>) -> Option<Seq<char>>;

/// The span `Duration::from_secs` builds from a number of seconds.
pub uninterp spec fn duration_of_secs(secs: u64) -> Duration;

/// What the `Debug` formatting of a `Duration` writes (such as `30s`).
pub uninterp spec fn duration_text(d: Duration) -> Seq<char>;

/// Calls `str::to_lowercase`. For ASCII text the result is its ASCII lower
/// case; for other text the result is named, not described.
#[verifier::external_body]
pub(crate) fn to_lowercase(s: &str) -> (r: String)
    ensures
        all_ascii(s@) ==> r@ == ascii_lower(s@),
        !all_ascii(s@) ==> r@ == unicode_lowercase(s@),
        r@ == lowercase_of(s@),
{
    s.to_lowercase()
}

/// Calls `Path::extension` on `path` and turns the result into text.
/// Claims only that the result depends on the path's characters alone.
#[verifier::external_body]
pub(crate) fn path_extension(path: &str) -> (r: Option<String>)
    ensures
        r matches Some(e) ==> extension_of(path@) == Some(e@),
        r is None ==> extension_of(path@) is None,
{
    match std::path::Path::new(path).extension() {
        Some(e) => Some(e.to_string_lossy().into_owned()),
        None => None,
    }
}

/// Calls `Path::parent` on `path` and turns the result into text.
/// Claims only that the result depends on the path's characters alone.
#[verifier::external_body]
pub(crate) fn path_parent(path: &str) -> (r: Option<String>)
    ensures
        r matches Some(p) ==> parent_of(path@) == Some(p@),
        r is None ==> parent_of(path@) is None,
{
    match std::path::Path::new(path).parent() {
        Some(p) => Some(p.to_string_lossy().into_owned()),
        None => None,
    }
}

/// Calls `Path::file_name` on `path` and turns the result into text.
/// Claims only that the result depends on the path's characters alone.
#[verifier::external_body]
pub(crate) fn path_file_name(path: &str) -> (r: Option<String>)
    ensures
        r matches Some(p) ==> file_name_of(path@) == Some(p@),
        r is None ==> file_name_of(path@) is None,
{
    match std::path::Path::new(path).file_name() {
        Some(p) => Some(p.to_string_lossy().into_owned()),
        None => None,
    }
}

/// What `Duration::as_millis` gives: the whole milliseconds of a span.
pub uninterp spec fn duration_millis_of(d: Duration) -> u128;

/// Calls `Duration::as_millis`.
#[verifier::external_body]
pub(crate) fn duration_millis(d: &Duration) -> (r: u128)
    ensures
        r == duration_millis_of(*d),
{
    d.as_millis()
}

/// What `String::from_utf8_lossy` gives for these bytes.
pub uninterp spec fn utf8_lossy_of(bytes: Seq<u8>) -> Seq<char>;

/// Calls `String::from_utf8_lossy` and takes the text. Valid UTF-8 comes
/// back as the text it encodes (std documents that only invalid sequences
/// are replaced).
#[verifier::external_body]
pub(crate) fn lossy_text(bytes: &[u8]) -> (r: String)
    ensures
        r@ == utf8_lossy_of(bytes@),
        vstd::utf8::valid_utf8(bytes@) ==> r@ == vstd::utf8::decode_utf8(bytes@),
{
    String::from_utf8_lossy(bytes).into_owned()
}

/// `Duration` is `Copy`: its `clone` returns an equal value.
pub assume_specification[ <Duration as Clone>::clone ](d: &Duration) -> (r: Duration)
    ensures
        r == *d,
;

/// Calls `Duration::from_secs`, which makes a span of `n` whole seconds:
/// `as_millis` then counts `n * 1000` milliseconds.
#[verifier::external_body]
pub(crate) fn secs(n: u64) -> (d: Duration)
    ensures
        d == duration_of_secs(n),
        duration_millis_of(d) == n as u128 * 1000,
{
    Duration::from_secs(n)
}

/// Formats `d` with `Debug`, as `{:?}` does.
#[verifier::external_body]
pub(crate) fn duration_debug(d: &Duration) -> (r: String)
    ensures
        r@ == duration_text(*d),
{
    format!("{:?}", d)
}


/// What expanding a leading `~` of `path` may give when the home directory
/// is not known in advance: a path that does not start with `~` stays as it
/// is; one that does stays as it is or becomes some prefix followed by the
/// path without its `~`.
pub open spec fn tilde_expansion(path: Seq<char>, r: Seq<char>) -> bool {
    &&& !(path.len() > 0 && path[0] == '~') ==> r == path
    &&& (path.len() > 0 && path[0] == '~') ==> (r == path || spec_ends_with(r, path.subrange(1, path.len() as int)))
}

/// Calls `shellexpand::tilde`, which puts the home directory in place of a
/// leading `~` that is followed by `/` or by nothing, when the home directory
/// is known. The home directory comes from the environment, so this claims
/// only what holds whatever it is (`tilde_expansion`).
#[verifier::external_body]
pub(crate) fn expand_tilde(path: &str) -> (r: String)
    ensures
        tilde_expansion(path@, r@),
{
    shellexpand::tilde(path).into_owned()
}

} // verus!
