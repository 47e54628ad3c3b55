//! The interface of a script execution backend.

use vstd::prelude::*;
use super::types::ScriptInfo;
use crate::sys::{extension_of, lowercase_of, path_extension, to_lowercase};
use crate::text::str_eq;

verus! {

/// How strongly an executor isolates a script from the host.
#[derive(Debug, Clone, Copy, PartialEq, Eq, Structural, PartialOrd, Ord)]
pub enum IsolationLevel {
    /// Direct process execution.
    NoIsolation,
    /// Runtime isolation (Deno permissions, WASM sandbox).
    Runtime,
    /// Operating-system isolation (containers).
    Container,
    /// Virtual-machine isolation.
    VirtualMachine,
}

/// The label of an isolation level.
pub open spec fn spec_isolation_label(l: IsolationLevel) -> Seq<char> {
    match l {
        IsolationLevel::NoIsolation => "none"@,
        IsolationLevel::Runtime => "runtime"@,
        IsolationLevel::Container => "container"@,
        IsolationLevel::VirtualMachine => "vm"@,
    }
}

impl IsolationLevel {
    /// The label of the level: `none`, `runtime`, `container` or `vm`.
    pub fn to_string(&self) -> (r: String)
        ensures
            r@ == spec_isolation_label(*self),
    {
        match self {
            IsolationLevel::NoIsolation => String::from_str("none"),
            IsolationLevel::Runtime => String::from_str("runtime"),
            IsolationLevel::Container => String::from_str("container"),
            IsolationLevel::VirtualMachine => String::from_str("vm"),
        }
    }
}

/// The extension of a path, lowercased; empty when the path has none.
pub open spec fn spec_lower_extension(path: Seq<char>) -> Seq<char> {
    match extension_of(path) {
        Some(e) => lowercase_of(e),
        None => lowercase_of(Seq::empty()),
    }
}

/// One of `extensions`, lowercased, equals the lowercased extension of `path`.
pub open spec fn spec_extension_supported(extensions: Seq<Seq<char>>, path: Seq<char>) -> bool {
    exists|i: int| 0 <= i < extensions.len() && lowercase_of(#[trigger] extensions[i]) == spec_lower_extension(path)
}

/// The views of a sequence of string slices.
pub open spec fn str_views(v: Seq<&str>) -> Seq<Seq<char>> {
    v.map_values(|s: &str| s@)
}

/// Whether one of `extensions` matches the extension of `path`, ignoring case.
pub fn extension_supported(extensions: &Vec<&str>, path: &str) -> (r: bool)
    ensures
        r == spec_extension_supported(str_views(extensions@), path@),
{
    let ext = match path_extension(path) {
        Some(e) => to_lowercase(e.as_str()),
        None => to_lowercase(""),
    };
    proof {
        reveal_strlit("");
        assert(""@ =~= Seq::<char>::empty());
    }
    let mut i: usize = 0;
    while i < extensions.len()
        invariant
            i <= extensions@.len(),
            ext@ == spec_lower_extension(path@),
            forall|j: int| 0 <= j < i ==> lowercase_of(str_views(extensions@)[j]) != ext@,
        decreases extensions@.len() - i,
    {
        let e = to_lowercase(extensions[i]);
        if str_eq(e.as_str(), ext.as_str()) {
            assert(str_views(extensions@)[i as int] == extensions@[i as int]@);
            return true;
        }
        i = i + 1;
    }
    false
}

/// A backend that runs scripts of some kinds.
///
/// Running a script is asynchronous and happens outside this crate; what the
/// crate decides is which backend gets a script and with which arguments.
pub trait Executor {
    /// Whether the executor states its name and extensions as text in
    /// `spec_name` and `spec_supported_extensions`; an implementation that
    /// does not is promised nothing about them.
    open spec fn obeys_executor_spec(&self) -> bool {
        false
    }

    /// The file extensions it runs, as text (none unless stated).
    open spec fn spec_supported_extensions(&self) -> Seq<Seq<char>> {
        Seq::empty()
    }

    /// The executor's name, as text (empty unless stated).
    open spec fn spec_name(&self) -> Seq<char> {
        Seq::empty()
    }

    /// The executor's name, used in logs and configuration.
    fn name(&self) -> (r: &str)
        ensures
            self.obeys_executor_spec() ==> r@ == self.spec_name(),
    ;

    /// The file extensions it runs, lowercase and without the dot.
    fn supported_extensions(&self) -> (r: Vec<&str>)
        ensures
            self.obeys_executor_spec() ==> str_views(r@) == self.spec_supported_extensions(),
    ;

    /// Whether it can run `script`: one of its extensions, lowercased, is
    /// the lowercased extension of the script's path.
    fn supports(&self, script: &ScriptInfo) -> (r: bool)
        ensures
            self.obeys_executor_spec() ==> r == spec_extension_supported(self.spec_supported_extensions(), script.path@),
    {
        let exts = self.supported_extensions();
        extension_supported(&exts, script.path.as_str())
    }

    /// How strongly it isolates scripts; runtime isolation unless the
    /// executor says otherwise.
    fn isolation_level(&self) -> (r: IsolationLevel)
        default_ensures
            r == IsolationLevel::Runtime,
    {
        IsolationLevel::Runtime
    }
}

} // verus!
