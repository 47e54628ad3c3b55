//! The Docker executor's decisions: which image runs a script, the command
//! and environment of the container, how file arguments reach the container
//! (bind mount of a configured data directory, or a copy into a temporary
//! directory), and how an image reference splits into name and tag. Talking
//! to the Docker daemon happens outside the crate.

use vstd::prelude::*;
use super::traits::{Executor, IsolationLevel};
use super::types::ResourceLimits;
use crate::ordered_map::{OrderedMap, value_views};
use crate::text::{
    concat, concat3, find_char, rfind_char, spec_find, spec_has_char, spec_rfind, spec_starts_with,
    push_string, starts_with, str_eq, substring, views,
};

verus! {

/// Image for Python scripts.
pub const DEFAULT_PYTHON_IMAGE: &'static str = "python:3.11-slim";
/// Image for shell scripts, and for unknown kinds.
pub const DEFAULT_SHELL_IMAGE: &'static str = "alpine:latest";
/// Image for Ruby scripts.
pub const DEFAULT_RUBY_IMAGE: &'static str = "ruby:3.2-slim";
/// Image for JavaScript scripts.
pub const DEFAULT_NODE_IMAGE: &'static str = "node:20-slim";
/// Where the temporary copy directory is mounted in the container.
pub const FILE_COPY_MOUNT_POINT: &'static str = "/aries_file_copy";

/// What `Path::is_absolute` says of a path with these characters.
pub uninterp spec fn is_absolute_of(path: Seq<char>) -> bool;

/// What `Path::join` gives for these two paths, as text.
pub uninterp spec fn join_of(base: Seq<char>, rest: Seq<char>) -> Seq<char>;

/// What `Path::strip_prefix` gives for these two paths, as text.
pub uninterp spec fn strip_prefix_of(path: Seq<char>, base: Seq<char>) -> Option<Seq<char>>;

/// Calls `Path::is_absolute`.
#[verifier::external_body]
fn path_is_absolute(path: &str) -> (r: bool)
    ensures
        r == is_absolute_of(path@),
{
    std::path::Path::new(path).is_absolute()
}

/// Calls `Path::join` and turns the result into text.
#[verifier::external_body]
fn path_join(base: &str, rest: &str) -> (r: String)
    ensures
        r@ == join_of(base@, rest@),
{
    std::path::Path::new(base).join(rest).to_string_lossy().into_owned()
}

/// Calls `Path::strip_prefix` (which succeeds exactly when `Path::starts_with`
/// holds) and turns the result into text.
#[verifier::external_body]
fn path_strip_prefix(path: &str, base: &str) -> (r: Option<String>)
    ensures
        r matches Some(p) ==> strip_prefix_of(path@, base@) == Some(p@),
        r is None ==> strip_prefix_of(path@, base@) is None,
{
    match std::path::Path::new(path).strip_prefix(base) {
        Ok(p) => Some(p.to_string_lossy().into_owned()),
        Err(_) => None,
    }
}

/// Fills 16 bytes from the system's random source with `getrandom::fill`;
/// `None` when the source fails. Which bytes come out is random.
#[verifier::external_body]
fn random_bytes() -> (r: Option<[u8; 16]>)
{
    let mut bytes = [0u8; 16];
    match getrandom::fill(&mut bytes) {
        Ok(()) => Some(bytes),
        Err(_) => None,
    }
}

/// The hyphenated text of the version-4 UUID that
/// `uuid::Builder::from_random_bytes` makes of these bytes.
pub uninterp spec fn uuid_text_of(bytes: Seq<u8>) -> Seq<char>;

/// Makes a version-4 UUID of random bytes with
/// `uuid::Builder::from_random_bytes` and formats it. The uuid crate
/// formats a UUID hyphenated: 36 characters, with a hyphen after the first
/// eight.
#[verifier::external_body]
fn uuid_text(bytes: [u8; 16]) -> (r: String)
    ensures
        r@ == uuid_text_of(bytes@),
        r@.len() == 36,
        r@[8] == '-',
{
    uuid::Builder::from_random_bytes(bytes).into_uuid().to_string()
}

/// Configuration of the Docker executor.
#[derive(Debug, Clone)]
pub struct DockerConfig {
    /// Docker socket path (automatic when absent).
    pub socket: Option<String>,
    /// Image for unknown script kinds.
    pub default_image: String,
    /// Image for each extension.
    pub images: OrderedMap<String>,
    /// Remove containers after a run.
    pub auto_remove: bool,
    /// Use a read-only root filesystem.
    pub read_only: bool,
    /// Network mode when the run has no network access.
    pub network_mode: String,
    /// Prefix of container names.
    pub container_prefix: String,
    /// Pull missing images.
    pub auto_pull: bool,
    /// Data directories, as `host` or `host:container`.
    pub data_dirs: Vec<String>,
    /// `auto`, `bind_only` or `copy_only`.
    pub file_access_mode: String,
    /// Base directory for copies.
    pub temp_dir: Option<String>,
    /// Copy output files back after a run.
    pub copy_output_back: bool,
}

/// The default extension→image table.
pub open spec fn spec_default_images() -> Map<Seq<char>, Seq<char>> {
    map![
        "py"@ => DEFAULT_PYTHON_IMAGE@,
        "sh"@ => DEFAULT_SHELL_IMAGE@,
        "bash"@ => DEFAULT_SHELL_IMAGE@,
        "rb"@ => DEFAULT_RUBY_IMAGE@,
        "js"@ => DEFAULT_NODE_IMAGE@,
    ]
}

impl Default for DockerConfig {
    /// Alpine as default image, the image table above, no network, read-only,
    /// automatic removal and pulling, prefix `aries-exec`, `auto` file access.
    fn default() -> (r: Self)
        ensures
            r.socket is None,
            r.default_image@ == DEFAULT_SHELL_IMAGE@,
            value_views(r.images@) == spec_default_images(),
            r.auto_remove,
            r.read_only,
            r.network_mode@ == "none"@,
            r.container_prefix@ == "aries-exec"@,
            r.auto_pull,
            r.data_dirs@.len() == 0,
            r.file_access_mode@ == "auto"@,
            r.temp_dir is None,
            r.copy_output_back,
    {
        let mut images: OrderedMap<String> = OrderedMap::new();
        images.insert(String::from_str("py"), String::from_str(DEFAULT_PYTHON_IMAGE));
        images.insert(String::from_str("sh"), String::from_str(DEFAULT_SHELL_IMAGE));
        images.insert(String::from_str("bash"), String::from_str(DEFAULT_SHELL_IMAGE));
        images.insert(String::from_str("rb"), String::from_str(DEFAULT_RUBY_IMAGE));
        images.insert(String::from_str("js"), String::from_str(DEFAULT_NODE_IMAGE));
        assert(value_views(images@) =~= spec_default_images());
        DockerConfig {
            socket: None,
            default_image: String::from_str(DEFAULT_SHELL_IMAGE),
            images,
            auto_remove: true,
            read_only: true,
            network_mode: String::from_str("none"),
            container_prefix: String::from_str("aries-exec"),
            auto_pull: true,
            data_dirs: Vec::new(),
            file_access_mode: String::from_str("auto"),
            temp_dir: None,
            copy_output_back: true,
        }
    }
}

/// How one file argument reaches the container.
#[derive(Debug, Clone)]
pub enum FileAccessStrategy {
    /// The file lies in a data directory that is bind-mounted.
    BindMount { host_path: String, container_path: String },
    /// The file is copied into a temporary directory that is mounted.
    FileCopy { source_path: String, temp_path: String, container_path: String, is_output: bool },
}

/// An argument of a script that names a file.
#[derive(Debug, Clone)]
pub struct FileReference {
    /// The argument as given.
    pub original: String,
    /// The file's absolute path.
    pub path: String,
    /// The file does not exist yet (the script will write it).
    pub is_output: bool,
    /// Position of the argument.
    pub arg_index: usize,
}

/// Name and tag of an image reference: the tag follows the last `:` unless
/// that part holds a `/` (then the `:` belonged to a registry port);
/// `latest` when there is no tag.
pub open spec fn spec_image_tag(image: Seq<char>) -> (Seq<char>, Seq<char>) {
    let pos = spec_rfind(image, ':');
    if pos < 0 {
        (image, "latest"@)
    } else {
        let after = image.subrange(pos + 1, image.len() as int);
        if spec_has_char(after, '/') {
            (image, "latest"@)
        } else {
            (image.subrange(0, pos), after)
        }
    }
}

/// Splits an image reference into name and tag.
pub fn parse_image_tag(image: &str) -> (r: (String, String))
    ensures
        r.0@ == spec_image_tag(image@).0,
        r.1@ == spec_image_tag(image@).1,
{
    let n = image.unicode_len();
    match rfind_char(image, ':') {
        Some(pos) => {
            let after = substring(image, pos + 1, n);
            if crate::text::contains_char(after.as_str(), '/') {
                (String::from_str(image), String::from_str("latest"))
            } else {
                (substring(image, 0, pos), after)
            }
        },
        None => (String::from_str(image), String::from_str("latest")),
    }
}

/// Host and container path of a data directory entry: split at the first
/// `:`, or the same path on both sides.
pub open spec fn spec_data_dir(entry: Seq<char>) -> (Seq<char>, Seq<char>) {
    let pos = spec_find(entry, ':');
    if pos < 0 {
        (entry, entry)
    } else {
        (entry.subrange(0, pos), entry.subrange(pos + 1, entry.len() as int))
    }
}

/// Parses a data directory entry `host` or `host:container`.
pub fn parse_data_dir(entry: &str) -> (r: (String, String))
    ensures
        r.0@ == spec_data_dir(entry@).0,
        r.1@ == spec_data_dir(entry@).1,
{
    let n = entry.unicode_len();
    match find_char(entry, ':') {
        Some(pos) => (substring(entry, 0, pos), substring(entry, pos + 1, n)),
        None => (String::from_str(entry), String::from_str(entry)),
    }
}

/// An argument names a file: it is not a flag, and it is an absolute path or
/// holds a `.`.
pub open spec fn spec_is_file_reference(arg: Seq<char>) -> bool {
    !spec_starts_with(arg, seq!['-']) && (is_absolute_of(arg) || spec_has_char(arg, '.'))
}

/// Whether `arg` names a file.
pub fn is_file_reference(arg: &str) -> (r: bool)
    ensures
        r == spec_is_file_reference(arg@),
{
    proof {
        reveal_strlit("-");
        assert("-"@ =~= seq!['-']);
    }
    if starts_with(arg, "-") {
        return false;
    }
    path_is_absolute(arg) || crate::text::contains_char(arg, '.')
}

/// Positions of the arguments that name files, in order.
pub fn file_reference_indices(args: &Vec<String>) -> (r: Vec<usize>)
    ensures
        forall|k: int| 0 <= k < r@.len() ==> r@[k] < args@.len() && spec_is_file_reference(args@[r@[k] as int]@),
        forall|k: int, l: int| 0 <= k < l < r@.len() ==> r@[k] < r@[l],
        forall|i: int| 0 <= i < args@.len() && spec_is_file_reference(#[trigger] args@[i]@) ==> r@.contains(i as usize),
{
    let mut out: Vec<usize> = Vec::new();
    let mut i: usize = 0;
    while i < args.len()
        invariant
            i <= args@.len(),
            forall|k: int| 0 <= k < out@.len() ==> out@[k] < i && spec_is_file_reference(args@[out@[k] as int]@),
            forall|k: int, l: int| 0 <= k < l < out@.len() ==> out@[k] < out@[l],
            forall|j: int| 0 <= j < i && spec_is_file_reference(#[trigger] args@[j]@) ==> out@.contains(j as usize),
        decreases args@.len() - i,
    {
        let ghost before = out@;
        if is_file_reference(args[i].as_str()) {
            out.push(i);
            proof {
                assert(out@[out@.len() - 1] == i);
                assert forall|j: int| 0 <= j < i + 1 && spec_is_file_reference(#[trigger] args@[j]@) implies out@.contains(j as usize) by {
                    if j < i {
                        let t = choose|t: int| 0 <= t < before.len() && before[t] == j as usize;
                        assert(out@[t] == j as usize);
                    } else {
                        assert(out@[out@.len() - 1] == j as usize);
                    }
                }
            }
        }
        i = i + 1;
    }
    out
}

/// The interpreter command of a script kind followed by the script path and
/// its arguments.
pub open spec fn spec_build_command(extension: Seq<char>, script_path: Seq<char>, args: Seq<Seq<char>>) -> Seq<Seq<char>> {
    let interpreter = if extension == "py"@ {
        "python"@
    } else if extension == "rb"@ {
        "ruby"@
    } else if extension == "js"@ {
        "node"@
    } else {
        "sh"@
    };
    seq![interpreter, script_path] + args
}

/// The command that runs a script of this extension in the container.
pub fn build_command(extension: &str, script_path: &str, args: &Vec<String>) -> (r: Vec<String>)
    ensures
        views(r@) == spec_build_command(extension@, script_path@, views(args@)),
{
    let interpreter = if str_eq(extension, "py") {
        "python"
    } else if str_eq(extension, "rb") {
        "ruby"
    } else if str_eq(extension, "js") {
        "node"
    } else {
        "sh"
    };
    let mut cmd: Vec<String> = Vec::new();
    cmd.push(String::from_str(interpreter));
    cmd.push(String::from_str(script_path));
    assert(views(cmd@) =~= seq![interpreter@, script_path@] + views(args@).take(0));
    let mut i: usize = 0;
    while i < args.len()
        invariant
            i <= args@.len(),
            views(cmd@) == seq![interpreter@, script_path@] + views(args@).take(i as int),
        decreases args@.len() - i,
    {
        push_string(&mut cmd, args[i].clone());
        proof {
            assert(views(args@).take(i + 1) =~= views(args@).take(i as int).push(args@[i as int]@));
            assert(views(cmd@) =~= seq![interpreter@, script_path@] + views(args@).take(i + 1));
        }
        i = i + 1;
    }
    assert(views(args@).take(args@.len() as int) =~= views(args@));
    assert(views(cmd@) =~= spec_build_command(extension@, script_path@, views(args@)));
    cmd
}

/// The data-directory pair that holds a file, and the file's path in the
/// container: the first directory whose canonical host path is a prefix of
/// the file's canonical path.
pub open spec fn spec_find_data_dir(
    path: Seq<char>,
    hosts: Seq<Option<Seq<char>>>,
    containers: Seq<Seq<char>>,
    i: int,
) -> Option<(Seq<char>, Seq<char>)>
    decreases hosts.len() - i,
{
    if i < 0 || i >= hosts.len() {
        None
    } else {
        match hosts[i] {
            Some(h) => match strip_prefix_of(path, h) {
                Some(rel) => Some((path, join_of(containers[i], rel))),
                None => spec_find_data_dir(path, hosts, containers, i + 1),
            },
            None => spec_find_data_dir(path, hosts, containers, i + 1),
        }
    }
}

/// The container sides of data-directory pairs.
pub open spec fn container_sides(d: Seq<(String, String)>) -> Seq<Seq<char>> {
    d.map_values(|p: (String, String)| p.1@)
}

/// The views of optional strings.
pub open spec fn opt_views(v: Seq<Option<String>>) -> Seq<Option<Seq<char>>> {
    v.map_values(|o: Option<String>| match o {
        Some(s) => Some(s@),
        None => None,
    })
}

/// Finds the data directory of a file from canonical paths (`None` where a
/// path could not be canonicalized). Returns the file's canonical path and
/// its path inside the container.
pub fn find_data_dir_for_path(
    canonical_path: &Option<String>,
    canonical_hosts: &Vec<Option<String>>,
    data_dirs: &Vec<(String, String)>,
) -> (r: Option<(String, String)>)
    requires
        canonical_hosts@.len() == data_dirs@.len(),
    ensures
        canonical_path is None ==> r is None,
        canonical_path matches Some(p) ==> match spec_find_data_dir(
            p@,
            opt_views(canonical_hosts@),
            container_sides(data_dirs@),
            0,
        ) {
            Some(found) => r matches Some(x) && x.0@ == found.0 && x.1@ == found.1,
            None => r is None,
        },
{
    if canonical_path.is_none() {
        return None;
    }
    let path = canonical_path.as_ref().unwrap();
    let ghost hosts = opt_views(canonical_hosts@);
    let ghost containers = container_sides(data_dirs@);
    let mut i: usize = 0;
    while i < canonical_hosts.len()
        invariant
            i <= canonical_hosts@.len(),
            canonical_hosts@.len() == data_dirs@.len(),
            canonical_path is Some,
            canonical_path->0 == *path,
            hosts == opt_views(canonical_hosts@),
            containers == container_sides(data_dirs@),
            spec_find_data_dir(path@, hosts, containers, 0) == spec_find_data_dir(path@, hosts, containers, i as int),
        decreases canonical_hosts@.len() - i,
    {
        proof {
            assert(containers[i as int] == data_dirs@[i as int].1@);
        }
        if let Some(host) = &canonical_hosts[i] {
            proof {
                assert(hosts[i as int] == Some(host@));
            }
            if let Some(rel) = path_strip_prefix(path.as_str(), host.as_str()) {
                let inside = path_join(data_dirs[i].1.as_str(), rel.as_str());
                return Some((path.clone(), inside));
            }
        } else {
            proof {
                assert(hosts[i as int] is None);
            }
        }
        i = i + 1;
    }
    None
}

/// The file name of a path, or empty, as `file_name().unwrap_or_default()`.
pub open spec fn spec_file_name_or_empty(path: Seq<char>) -> Seq<char> {
    match crate::sys::file_name_of(path) {
        Some(n) => n,
        None => Seq::empty(),
    }
}

/// The strategy for a file: in `copy_only` mode a copy; else a bind mount of
/// the data directory holding it (or, for an output file, holding its
/// parent); else in `bind_only` mode a bind mount of the path itself (which
/// will fail); else a copy.
pub open spec fn spec_file_strategy(
    mode: Seq<char>,
    file: FileReference,
    found: Option<(Seq<char>, Seq<char>)>,
    parent_found: Option<(Seq<char>, Seq<char>)>,
    temp_mount: Seq<char>,
) -> (Seq<char>, Seq<char>, Seq<char>, bool, bool) {
    let name = spec_file_name_or_empty(file.path@);
    let copy = (file.path@, join_of(temp_mount, name), join_of(FILE_COPY_MOUNT_POINT@, name), file.is_output, false);
    if mode == "copy_only"@ {
        copy
    } else if found is Some {
        (found.unwrap().0, Seq::empty(), found.unwrap().1, false, true)
    } else if file.is_output && parent_found is Some {
        (file.path@, Seq::empty(), join_of(parent_found.unwrap().1, name), false, true)
    } else if mode == "bind_only"@ {
        (file.path@, Seq::empty(), file.path@, false, true)
    } else {
        copy
    }
}

/// A strategy as a tuple: (host or source path, temp path, container path,
/// is_output, is a bind mount).
pub open spec fn strategy_tuple(s: FileAccessStrategy) -> (Seq<char>, Seq<char>, Seq<char>, bool, bool) {
    match s {
        FileAccessStrategy::BindMount { host_path, container_path } => (host_path@, Seq::empty(), container_path@, false, true),
        FileAccessStrategy::FileCopy { source_path, temp_path, container_path, is_output } =>
            (source_path@, temp_path@, container_path@, is_output, false),
    }
}

/// The container path a strategy gives the file.
pub open spec fn strategy_container_path(s: FileAccessStrategy) -> Seq<char> {
    match s {
        FileAccessStrategy::BindMount { container_path, .. } => container_path@,
        FileAccessStrategy::FileCopy { container_path, .. } => container_path@,
    }
}

/// The environment list of a container: `KEY=value` for each variable, then
/// for Python on a read-only root two variables that keep Python from writing.
pub open spec fn spec_container_env(env_keys: Seq<Seq<char>>, env: Map<Seq<char>, String>, python_read_only: bool) -> Seq<Seq<char>> {
    env_keys.map_values(|k: Seq<char>| k + "="@ + env[k]@)
        + (if python_read_only { seq!["PYTHONDONTWRITEBYTECODE=1"@, "PYTHONUNBUFFERED=1"@] } else { Seq::empty() })
}

impl DockerConfig {
    /// The image for an extension, or the default image.
    pub fn get_image(&self, extension: &str) -> (r: &String)
        ensures
            self.images@.contains_key(extension@) ==> *r == self.images@[extension@],
            !self.images@.contains_key(extension@) ==> *r == self.default_image,
    {
        match self.images.get(extension) {
            Some(s) => s,
            None => &self.default_image,
        }
    }

    /// The configured data directories as (host, container) pairs, keeping
    /// those whose host directory exists (`host_exists`, in the same order).
    pub fn data_dir_mounts(&self, host_exists: &Vec<bool>) -> (r: Vec<(String, String)>)
        requires
            host_exists@.len() == self.data_dirs@.len(),
        ensures
            r@.map_values(|p: (String, String)| (p.0@, p.1@)) == Seq::new(self.data_dirs@.len(), |i: int| i).filter(|i: int| host_exists@[i]).map_values(|i: int| spec_data_dir(self.data_dirs@[i]@)),
    {
        let ghost idx = Seq::new(self.data_dirs@.len(), |i: int| i);
        let ghost pick = |i: int| host_exists@[i];
        let ghost f = |i: int| spec_data_dir(self.data_dirs@[i]@);
        let mut out: Vec<(String, String)> = Vec::new();
        let mut i: usize = 0;
        while i < self.data_dirs.len()
            invariant
                i <= self.data_dirs@.len(),
                host_exists@.len() == self.data_dirs@.len(),
                idx == Seq::new(self.data_dirs@.len(), |i: int| i),
                pick == (|i: int| host_exists@[i]),
                f == (|i: int| spec_data_dir(self.data_dirs@[i]@)),
                out@.map_values(|p: (String, String)| (p.0@, p.1@)) == idx.take(i as int).filter(pick).map_values(f),
            decreases self.data_dirs@.len() - i,
        {
            let ghost before = out@;
            proof {
                assert(idx.take(i + 1) =~= idx.take(i as int).push(i as int));
                idx.take(i as int).lemma_filter_push(i as int, pick);
            }
            if host_exists[i] {
                let pair = parse_data_dir(self.data_dirs[i].as_str());
                out.push(pair);
                proof {
                    assert(out@.map_values(|p: (String, String)| (p.0@, p.1@)) =~= before.map_values(|p: (String, String)| (p.0@, p.1@)).push(f(i as int)));
                }
            }
            i = i + 1;
        }
        assert(idx.take(self.data_dirs@.len() as int) =~= idx);
        out
    }

    /// Whether a run needs a temporary copy directory: some file goes by copy,
    /// which every file does in `copy_only` mode, and in `auto` mode a file in
    /// no data directory does (`in_data_dir`, one entry per file).
    pub fn needs_temp_dir(&self, in_data_dir: &Vec<bool>) -> (r: bool)
        ensures
            r == (in_data_dir@.len() > 0 && (self.file_access_mode@ == "copy_only"@
                || (self.file_access_mode@ == "auto"@ && in_data_dir@.contains(false)))),
    {
        if in_data_dir.len() == 0 {
            return false;
        }
        if str_eq(self.file_access_mode.as_str(), "copy_only") {
            return true;
        }
        if !str_eq(self.file_access_mode.as_str(), "auto") {
            return false;
        }
        let mut i: usize = 0;
        while i < in_data_dir.len()
            invariant
                i <= in_data_dir@.len(),
                self.file_access_mode@ == "auto"@,
                forall|j: int| 0 <= j < i ==> in_data_dir@[j],
            decreases in_data_dir@.len() - i,
        {
            if !in_data_dir[i] {
                assert(in_data_dir@[i as int] == false);
                return true;
            }
            i = i + 1;
        }
        false
    }

    /// The strategy for `file`, given the data-directory match of its path
    /// and of its parent (see `find_data_dir_for_path`) and where the copy
    /// directory is on the host.
    pub fn determine_file_strategy(
        &self,
        file: &FileReference,
        found: Option<(String, String)>,
        parent_found: Option<(String, String)>,
        temp_mount_path: &str,
    ) -> (r: FileAccessStrategy)
        ensures
            strategy_tuple(r) == spec_file_strategy(
                self.file_access_mode@,
                *file,
                match found { Some(p) => Some((p.0@, p.1@)), None => None },
                match parent_found { Some(p) => Some((p.0@, p.1@)), None => None },
                temp_mount_path@,
            ),
    {
        let name = match crate::sys::path_file_name(file.path.as_str()) {
            Some(n) => n,
            None => String::new(),
        };
        assert(name@ == spec_file_name_or_empty(file.path@));
        let copy_only = str_eq(self.file_access_mode.as_str(), "copy_only");
        if !copy_only {
            if let Some((host, inside)) = found {
                return FileAccessStrategy::BindMount { host_path: host, container_path: inside };
            }
            if file.is_output {
                if let Some((_, parent_inside)) = parent_found {
                    let inside = path_join(parent_inside.as_str(), name.as_str());
                    return FileAccessStrategy::BindMount { host_path: file.path.clone(), container_path: inside };
                }
            }
            if str_eq(self.file_access_mode.as_str(), "bind_only") {
                return FileAccessStrategy::BindMount { host_path: file.path.clone(), container_path: file.path.clone() };
            }
        }
        FileAccessStrategy::FileCopy {
            source_path: file.path.clone(),
            temp_path: path_join(temp_mount_path, name.as_str()),
            container_path: path_join(FILE_COPY_MOUNT_POINT, name.as_str()),
            is_output: file.is_output,
        }
    }

    /// A fresh container name: the prefix, a hyphen and the first eight
    /// characters of a random UUID. Fails when the system gives no random
    /// bytes.
    pub fn generate_container_name(&self) -> (r: Result<String, super::error::ExecutionError>)
        ensures
            r matches Ok(n) ==> exists|id: Seq<char>| id.len() == 8 && n@ == self.container_prefix@ + "-"@ + id,
            r matches Err(e) ==> (e matches super::error::ExecutionError::RuntimeError { runtime, message }
                && runtime@ == "docker"@ && message@ == "could not retrieve random bytes for uuid"@),
    {
        match random_bytes() {
            Some(bytes) => {
                let id = uuid_text(bytes);
                let short = substring(id.as_str(), 0, 8);
                Ok(concat3(self.container_prefix.as_str(), "-", short.as_str()))
            },
            None => Err(super::error::ExecutionError::runtime("docker", "could not retrieve random bytes for uuid")),
        }
    }

    /// The environment list of the container for a script of `extension`.
    pub fn container_env(&self, env: &OrderedMap<String>, extension: &str) -> (r: Vec<String>)
        ensures
            views(r@) == spec_container_env(env.spec_keys(), env@, extension@ == "py"@ && self.read_only),
    {
        let keys = env.keys();
        let ghost ks = env.spec_keys();
        let mut out: Vec<String> = Vec::new();
        let mut i: usize = 0;
        while i < keys.len()
            invariant
                i <= keys@.len(),
                views(keys@) == ks,
                ks == env.spec_keys(),
                ks.to_set() == env@.dom(),
                views(out@) == ks.take(i as int).map_values(|k: Seq<char>| k + "="@ + env@[k]@),
            decreases keys@.len() - i,
        {
            let k = &keys[i];
            proof {
                assert(views(keys@)[i as int] == k@);
                assert(ks[i as int] == k@);
                assert(ks.contains(k@));
                assert(ks.to_set().contains(k@));
            }
            let v = env.get(k.as_str()).unwrap();
            let entry = concat3(k.as_str(), "=", v.as_str());
            push_string(&mut out, entry);
            proof {
                assert(ks.take(i + 1) =~= ks.take(i as int).push(k@));
                assert(views(out@) =~= ks.take(i + 1).map_values(|k: Seq<char>| k + "="@ + env@[k]@));
            }
            i = i + 1;
        }
        assert(ks.take(keys@.len() as int) =~= ks);
        if str_eq(extension, "py") && self.read_only {
            out.push(String::from_str("PYTHONDONTWRITEBYTECODE=1"));
            out.push(String::from_str("PYTHONUNBUFFERED=1"));
        }
        assert(views(out@) =~= spec_container_env(ks, env@, extension@ == "py"@ && self.read_only));
        out
    }

    /// The network mode of a run: the host's when the limits allow network
    /// access (`None`), else the configured mode.
    pub fn network_mode_for(&self, limits: &ResourceLimits) -> (r: Option<String>)
        ensures
            limits.network_access ==> r is None,
            !limits.network_access ==> (r matches Some(m) && m@ == self.network_mode@),
    {
        if limits.network_access {
            None
        } else {
            Some(self.network_mode.clone())
        }
    }
}

/// The kind of a container mount.
#[derive(Debug, Clone, Copy, PartialEq, Eq, Structural)]
pub enum MountKind {
    /// A host directory.
    Bind,
    /// A memory-backed file system.
    Tmpfs,
}

/// A mount of a container: where it appears, what it shows, and whether it
/// is read-only (`None`: the runtime's default).
#[derive(Debug, Clone)]
pub struct MountPlan {
    pub target: String,
    pub source: Option<String>,
    pub kind: MountKind,
    pub read_only: Option<bool>,
}

/// A mount as values.
pub open spec fn mount_view(m: MountPlan) -> (Seq<char>, Option<Seq<char>>, MountKind, Option<bool>) {
    (m.target@, crate::config::opt_view(m.source), m.kind, m.read_only)
}

/// Mounts as values.
pub open spec fn mounts_view(v: Seq<MountPlan>) -> Seq<(Seq<char>, Option<Seq<char>>, MountKind, Option<bool>)> {
    v.map_values(|m: MountPlan| mount_view(m))
}

/// The mounts of a run, in order: the script's directory read-only at
/// `/scripts`; a tmpfs at `/tmp` when the root file system is read-only;
/// each data directory, writable, at its container path; and the copy
/// directory, writable, when files go by copy.
pub open spec fn spec_host_mounts(
    script_dir: Seq<char>,
    read_only: bool,
    data_dirs: Seq<(String, String)>,
    copy_dir: Option<Seq<char>>,
) -> Seq<(Seq<char>, Option<Seq<char>>, MountKind, Option<bool>)> {
    seq![("/scripts"@, Some(script_dir), MountKind::Bind, Some(true))]
        + (if read_only { seq![("/tmp"@, None::<Seq<char>>, MountKind::Tmpfs, None::<bool>)] } else { Seq::empty() })
        + data_dirs.map_values(|p: (String, String)| (p.1@, Some(p.0@), MountKind::Bind, Some(false)))
        + match copy_dir {
            Some(d) => seq![(FILE_COPY_MOUNT_POINT@, Some(d), MountKind::Bind, Some(false))],
            None => Seq::empty(),
        }
}

/// The sandbox of a container run.
#[derive(Debug)]
pub struct HostPlan {
    pub mounts: Vec<MountPlan>,
    /// Memory limit in bytes.
    pub memory: i64,
    /// Memory and swap together (equal to `memory`: no swap).
    pub memory_swap: i64,
    /// CPU share in billionths of a CPU.
    pub nano_cpus: i64,
    /// The network mode, or the host's when `None`.
    pub network_mode: Option<String>,
    pub readonly_rootfs: bool,
    pub security_opt: Vec<String>,
    /// Removed by the runtime when it stops (the executor removes it itself,
    /// after reading the logs).
    pub auto_remove: bool,
    pub working_dir: String,
}

fn push_mount(mounts: &mut Vec<MountPlan>, target: &str, source: Option<String>, kind: MountKind, read_only: Option<bool>)
    ensures
        mounts_view(final(mounts)@) == mounts_view(old(mounts)@).push((target@, crate::config::opt_view(source), kind, read_only)),
{
    let ghost before = mounts@;
    mounts.push(MountPlan { target: String::from_str(target), source, kind, read_only });
    assert(mounts_view(mounts@) =~= mounts_view(before).push((target@, crate::config::opt_view(source), kind, read_only)));
}

impl DockerConfig {
    /// The sandbox of a run of the script at `script_path`: the mounts (see
    /// `spec_host_mounts`; `data_dirs` are the data directories that exist,
    /// `copy_dir` the host directory of copied files, if any), memory equal
    /// to memory and swap (no swap), one CPU, the network mode of the
    /// limits, the configured read-only root, no new privileges, no removal
    /// by the runtime, and `/scripts` as working directory. Fails when the
    /// script's path has no directory.
    pub fn host_plan(
        &self,
        limits: &ResourceLimits,
        script_path: &str,
        data_dirs: &Vec<(String, String)>,
        copy_dir: Option<&str>,
    ) -> (r: Result<HostPlan, super::error::ExecutionError>)
        ensures
            crate::sys::parent_of(script_path@) is None ==> (r matches Err(super::error::ExecutionError::RuntimeError { runtime, message })
                && runtime@ == "docker"@ && message@ == "invalid script path"@),
            crate::sys::parent_of(script_path@) matches Some(dir) ==> (r matches Ok(h) && {
                &&& mounts_view(h.mounts@) == spec_host_mounts(dir, self.read_only, data_dirs@, match copy_dir {
                    Some(d) => Some(d@),
                    None => None,
                })
                &&& h.memory == limits.max_memory_bytes as i64
                &&& h.memory_swap == h.memory
                &&& h.nano_cpus == 1_000_000_000
                &&& (limits.network_access ==> h.network_mode is None)
                &&& (!limits.network_access ==> (h.network_mode matches Some(m) && m@ == self.network_mode@))
                &&& h.readonly_rootfs == self.read_only
                &&& views(h.security_opt@) == seq!["no-new-privileges:true"@]
                &&& !h.auto_remove
                &&& h.working_dir@ == "/scripts"@
            }),
    {
        let dir = match crate::sys::path_parent(script_path) {
            Some(d) => d,
            None => {
                return Err(super::error::ExecutionError::runtime("docker", "invalid script path"));
            },
        };
        let ghost copy_view = match copy_dir {
            Some(d) => Some(d@),
            None => None::<Seq<char>>,
        };
        let mut mounts: Vec<MountPlan> = Vec::new();
        push_mount(&mut mounts, "/scripts", Some(dir), MountKind::Bind, Some(true));
        if self.read_only {
            push_mount(&mut mounts, "/tmp", None, MountKind::Tmpfs, None);
        }
        let ghost head = mounts_view(mounts@);
        let mut i: usize = 0;
        while i < data_dirs.len()
            invariant
                i <= data_dirs@.len(),
                mounts_view(mounts@) == head + data_dirs@.take(i as int).map_values(
                    |p: (String, String)| (p.1@, Some(p.0@), MountKind::Bind, Some(false))),
            decreases data_dirs@.len() - i,
        {
            let (host, inside) = (data_dirs[i].0.clone(), data_dirs[i].1.clone());
            push_mount(&mut mounts, inside.as_str(), Some(host), MountKind::Bind, Some(false));
            proof {
                assert(data_dirs@.take(i + 1) =~= data_dirs@.take(i as int).push(data_dirs@[i as int]));
                assert(mounts_view(mounts@) =~= head + data_dirs@.take(i + 1).map_values(
                    |p: (String, String)| (p.1@, Some(p.0@), MountKind::Bind, Some(false))));
            }
            i = i + 1;
        }
        assert(data_dirs@.take(data_dirs@.len() as int) =~= data_dirs@);
        if let Some(d) = copy_dir {
            push_mount(&mut mounts, FILE_COPY_MOUNT_POINT, Some(String::from_str(d)), MountKind::Bind, Some(false));
        }
        proof {
            reveal_strlit("/scripts");
            reveal_strlit("/tmp");
        }
        assert(mounts_view(mounts@) =~= spec_host_mounts(crate::sys::parent_of(script_path@)->0, self.read_only, data_dirs@, copy_view));
        let memory = limits.max_memory_bytes as i64;
        let mut security_opt: Vec<String> = Vec::new();
        security_opt.push(String::from_str("no-new-privileges:true"));
        assert(views(security_opt@) =~= seq!["no-new-privileges:true"@]);
        Ok(HostPlan {
            mounts,
            memory,
            memory_swap: memory,
            nano_cpus: 1_000_000_000,
            network_mode: self.network_mode_for(limits),
            readonly_rootfs: self.read_only,
            security_opt,
            auto_remove: false,
            working_dir: String::from_str("/scripts"),
        })
    }
}

/// What an inspection of a running container's state showed.
#[derive(Debug, Clone, Copy)]
pub enum ContainerState {
    /// It still runs (or reports no running flag: taken as running).
    Running,
    /// It stopped, with its exit code when reported.
    Stopped(Option<i64>),
    /// The inspection gave no state.
    Unknown,
    /// The inspection failed.
    InspectFailed,
}

/// The next step of waiting for a container.
#[derive(Debug, Clone, Copy, PartialEq, Eq, Structural)]
pub enum PollStep {
    /// The deadline passed: kill it; the run ends with exit code -1, timed
    /// out.
    Kill,
    /// The run ended with this exit code, not timed out.
    Done(i32),
    /// Poll again after the interval.
    Wait,
}

/// The step after one poll: past the deadline the container is killed;
/// a stopped container ends the run with its exit code (0 when none is
/// reported); a failed inspection ends it with -1; otherwise wait.
pub fn poll_step(past_deadline: bool, state: ContainerState) -> (r: PollStep)
    ensures
        past_deadline ==> r == PollStep::Kill,
        !past_deadline ==> r == match state {
            ContainerState::Stopped(code) => PollStep::Done(match code { Some(c) => c as i32, None => 0i32 }),
            ContainerState::InspectFailed => PollStep::Done(-1i32),
            _ => PollStep::Wait,
        },
{
    if past_deadline {
        return PollStep::Kill;
    }
    match state {
        ContainerState::Stopped(code) => PollStep::Done(match code {
            Some(c) => c as i32,
            None => 0,
        }),
        ContainerState::InspectFailed => PollStep::Done(-1),
        _ => PollStep::Wait,
    }
}

/// The result of a container run: the logs, the exit code, whether it was
/// stopped at its deadline, and no resource figures.
pub fn container_output(stdout: String, stderr: String, exit_code: i32, timed_out: bool, duration: std::time::Duration) -> (r: super::types::ScriptOutput)
    ensures
        r.stdout == stdout,
        r.stderr == stderr,
        r.exit_code == exit_code,
        r.timed_out == timed_out,
        r.duration == duration,
        r.resource_usage.peak_memory_bytes == 0,
        r.resource_usage.cpu_time_ms == 0,
{
    super::types::ScriptOutput {
        stdout,
        stderr,
        exit_code,
        duration,
        resource_usage: super::types::ResourceUsage::default(),
        timed_out,
    }
}

/// The arguments with each file argument replaced by its container path.
pub open spec fn spec_container_args(args: Seq<Seq<char>>, plan: Seq<(usize, Seq<char>)>) -> Seq<Seq<char>>
    decreases plan.len(),
{
    if plan.len() == 0 {
        args
    } else {
        let last = plan.last();
        let before = spec_container_args(args, plan.drop_last());
        if last.0 < before.len() {
            before.update(last.0 as int, last.1)
        } else {
            before
        }
    }
}

/// The (argument position, container path) of each planned file.
pub open spec fn plan_of(strategies: Seq<(FileReference, FileAccessStrategy)>) -> Seq<(usize, Seq<char>)> {
    strategies.map_values(|p: (FileReference, FileAccessStrategy)| (p.0.arg_index, strategy_container_path(p.1)))
}

/// The arguments as the container sees them.
pub fn container_args(args: &Vec<String>, strategies: &Vec<(FileReference, FileAccessStrategy)>) -> (r: Vec<String>)
    ensures
        views(r@) == spec_container_args(views(args@), plan_of(strategies@)),
{
    let mut out: Vec<String> = Vec::new();
    let mut i: usize = 0;
    while i < args.len()
        invariant
            i <= args@.len(),
            views(out@) == views(args@).take(i as int),
        decreases args@.len() - i,
    {
        push_string(&mut out, args[i].clone());
        proof {
            assert(views(out@) =~= views(args@).take(i + 1));
        }
        i = i + 1;
    }
    assert(views(args@).take(args@.len() as int) =~= views(args@));
    let ghost plan = plan_of(strategies@);
    let mut j: usize = 0;
    while j < strategies.len()
        invariant
            j <= strategies@.len(),
            plan == plan_of(strategies@),
            views(out@) == spec_container_args(views(args@), plan.take(j as int)),
        decreases strategies@.len() - j,
    {
        let idx = strategies[j].0.arg_index;
        let inside = match &strategies[j].1 {
            FileAccessStrategy::BindMount { container_path, .. } => container_path.clone(),
            FileAccessStrategy::FileCopy { container_path, .. } => container_path.clone(),
        };
        proof {
            assert(plan[j as int] == (idx, strategy_container_path(strategies@[j as int].1)));
            assert(plan.take(j + 1).drop_last() =~= plan.take(j as int));
            assert(plan.take(j + 1).last() == (idx, inside@));
        }
        if idx < out.len() {
            let ghost before = out@;
            out.set(idx, inside);
            proof {
                assert(views(out@) =~= views(before).update(idx as int, inside@));
            }
        }
        j = j + 1;
    }
    assert(plan.take(strategies@.len() as int) =~= plan);
    out
}

/// The extension that picks the image and interpreter: the script's,
/// lowercased, or `sh` when it has none.
pub fn script_extension(path: &str) -> (r: String)
    ensures
        r@ == crate::sys::lowercase_of(match crate::sys::extension_of(path@) {
            Some(e) => e,
            None => "sh"@,
        }),
{
    match crate::sys::path_extension(path) {
        Some(e) => crate::sys::to_lowercase(e.as_str()),
        None => crate::sys::to_lowercase("sh"),
    }
}

/// Where the script is in the container: `/scripts/` and its file name
/// (`script` when it has none).
pub fn container_script_path(path: &str) -> (r: String)
    ensures
        r@ == "/scripts/"@ + match crate::sys::file_name_of(path@) {
            Some(n) => n,
            None => "script"@,
        },
{
    match crate::sys::path_file_name(path) {
        Some(n) => concat("/scripts/", n.as_str()),
        None => concat("/scripts/", "script"),
    }
}

/// The error for an input file that does not exist, with a hint when the
/// path is not absolute.
pub fn missing_input_message(source_path: &str) -> (r: String)
    ensures
        r@ == "input file does not exist: "@ + source_path@
            + if is_absolute_of(source_path@) { ""@ } else { " (hint: use absolute path like /path/to/file.csv)"@ },
{
    let hint = if path_is_absolute(source_path) { "" } else { " (hint: use absolute path like /path/to/file.csv)" };
    concat3("input file does not exist: ", source_path, hint)
}

/// The extensions the Docker executor runs.
pub open spec fn docker_extensions() -> Seq<Seq<char>> {
    seq!["py"@, "sh"@, "bash"@, "rb"@]
}

/// Runs scripts in containers; holds the configuration, while the client of
/// the Docker daemon stays with the caller.
pub struct DockerExecutor {
    config: DockerConfig,
}

impl DockerExecutor {
    /// An executor with this configuration.
    pub fn with_config(config: DockerConfig) -> (r: Self)
        ensures
            r.spec_config() == config,
    {
        DockerExecutor { config }
    }

    /// The configuration.
    pub closed spec fn spec_config(&self) -> DockerConfig {
        self.config
    }

    /// The configuration.
    pub fn config(&self) -> (r: &DockerConfig)
        ensures
            *r == self.spec_config(),
    {
        &self.config
    }
}

impl Executor for DockerExecutor {
    open spec fn obeys_executor_spec(&self) -> bool {
        true
    }

    open spec fn spec_name(&self) -> Seq<char> {
        "docker"@
    }

    open spec fn spec_supported_extensions(&self) -> Seq<Seq<char>> {
        docker_extensions()
    }

    fn name(&self) -> (r: &str)
        ensures
            r@ == "docker"@,
    {
        "docker"
    }

    fn supported_extensions(&self) -> (r: Vec<&str>)
        ensures
            super::traits::str_views(r@) == docker_extensions(),
    {
        let r = vec!["py", "sh", "bash", "rb"];
        assert(super::traits::str_views(r@) =~= docker_extensions());
        r
    }

    fn isolation_level(&self) -> (r: IsolationLevel)
        ensures
            r == IsolationLevel::Container,
    {
        IsolationLevel::Container
    }
}

} // verus!
