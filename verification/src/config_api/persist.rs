//! Writing the configuration back to its file: the outcome of a write, and
//! the names of the temporary and backup files. Serializing and file I/O
//! happen outside the crate.

use vstd::prelude::*;

verus! {

/// What `Path::with_extension` gives for a path and an extension, as text.
pub uninterp spec fn with_extension_of(path: Seq<char>, extension: Seq<char>) -> Seq<char>;

/// Calls `Path::with_extension` and turns the result into text. The
/// extension may not hold a path separator (`with_extension` panics then).
#[verifier::external_body]
fn path_with_extension(path: &str, extension: &str) -> (r: String)
    requires
        !extension@.contains('/'),
        !extension@.contains('\\'),
    ensures
        r@ == with_extension_of(path@, extension@),
{
    std::path::Path::new(path).with_extension(extension).to_string_lossy().into_owned()
}

/// The outcome of writing the configuration.
#[derive(Debug)]
pub struct PersistResult {
    pub success: bool,
    /// Where it was written.
    pub path: Option<String>,
    pub error: Option<String>,
}

impl PersistResult {
    /// Written to `path`.
    pub fn success(path: String) -> (r: Self)
        ensures
            r.success,
            r.path == Some(path),
            r.error is None,
    {
        PersistResult { success: true, path: Some(path), error: None }
    }

    /// Not written, for this reason.
    pub fn failure(error: String) -> (r: Self)
        ensures
            !r.success,
            r.path is None,
            r.error == Some(error),
    {
        PersistResult { success: false, path: None, error: Some(error) }
    }
}

/// The file written first and then renamed over the configuration file.
pub fn temp_path_for(path: &str) -> (r: String)
    ensures
        r@ == with_extension_of(path@, "toml.tmp"@),
{
    proof {
        reveal_strlit("toml.tmp");
        assert(!"toml.tmp"@.contains('/'));
        assert(!"toml.tmp"@.contains('\\'));
    }
    path_with_extension(path, "toml.tmp")
}

/// The copy kept of the configuration file before it is replaced.
pub fn backup_path_for(path: &str) -> (r: String)
    ensures
        r@ == with_extension_of(path@, "toml.bak"@),
{
    proof {
        reveal_strlit("toml.bak");
        assert(!"toml.bak"@.contains('/'));
        assert(!"toml.bak"@.contains('\\'));
    }
    path_with_extension(path, "toml.bak")
}

} // verus!
