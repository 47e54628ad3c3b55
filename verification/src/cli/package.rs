//! Reading a downloaded skill package: the zip archive's entries, and the
//! files they become below the skill's directory. Writing the files happens
//! outside the crate.

use vstd::prelude::*;
use std::io::Read;
use crate::cli::installer::{
    analyze_archive, archive_relative_path, final_skill_name, spec_relative_path, spec_root_prefix,
    spec_skill_name,
};
use crate::error::ServerError;
use crate::text::{concat, views};

verus! {

/// One entry of a zip archive: its name, whether it is a directory, and its
/// contents (empty for a directory).
#[derive(Debug)]
pub struct ArchiveEntry {
    pub name: String,
    pub is_dir: bool,
    pub data: Vec<u8>,
}

/// Why the entries of an archive could not be read.
#[derive(Debug)]
pub enum ZipFailure {
    /// The data is not a zip archive; the reader's message.
    Open(String),
    /// An entry could not be read; the reader's message.
    Entry(String),
}

/// An entry as values.
pub open spec fn entry_view(e: ArchiveEntry) -> (Seq<char>, bool, Seq<u8>) {
    (e.name@, e.is_dir, e.data@)
}

/// Entries as values.
pub open spec fn entries_view(v: Seq<ArchiveEntry>) -> Seq<(Seq<char>, bool, Seq<u8>)> {
    v.map_values(|e: ArchiveEntry| entry_view(e))
}

/// What reading the entries of `data` as a zip archive gives: the entries in
/// archive order, or a failure as (whether the archive could not be opened,
/// the reader's message).
pub uninterp spec fn zip_entries_of(data: Seq<u8>) -> Result<Seq<(Seq<char>, bool, Seq<u8>)>, (bool, Seq<char>)>;

/// A failure as values.
pub open spec fn failure_view(f: ZipFailure) -> (bool, Seq<char>) {
    match f {
        ZipFailure::Open(m) => (true, m@),
        ZipFailure::Entry(m) => (false, m@),
    }
}

/// Opens `data` with `zip::ZipArchive::new` and reads each entry's name,
/// kind and contents in archive order. The result is named: it depends on
/// the bytes alone.
#[verifier::external_body]
fn zip_entries(data: &[u8]) -> (r: Result<Vec<ArchiveEntry>, ZipFailure>)
    ensures
        match r {
            Ok(v) => zip_entries_of(data@) == Ok::<Seq<(Seq<char>, bool, Seq<u8>)>, (bool, Seq<char>)>(entries_view(v@)),
            Err(f) => zip_entries_of(data@) == Err::<Seq<(Seq<char>, bool, Seq<u8>)>, (bool, Seq<char>)>(failure_view(f)),
        },
{
    let mut archive = zip::ZipArchive::new(std::io::Cursor::new(data)).map_err(|e| ZipFailure::Open(e.to_string()))?;
    let mut entries = Vec::new();
    for i in 0..archive.len() {
        let mut file = archive.by_index(i).map_err(|e| ZipFailure::Entry(e.to_string()))?;
        let mut contents = Vec::new();
        file.read_to_end(&mut contents).map_err(|e| ZipFailure::Entry(e.to_string()))?;
        entries.push(ArchiveEntry { name: file.name().to_string(), is_dir: file.is_dir(), data: contents });
    }
    Ok(entries)
}

/// A file or directory to create below the skill's directory.
#[derive(Debug)]
pub struct PlannedFile {
    pub relative_path: String,
    pub is_dir: bool,
    pub data: Vec<u8>,
}

/// What a package installs: the skill's name and the files, in archive
/// order.
#[derive(Debug)]
pub struct ExtractionPlan {
    pub skill_name: String,
    pub files: Vec<PlannedFile>,
}

/// Planned files as values.
pub open spec fn planned_view(v: Seq<PlannedFile>) -> Seq<(Seq<char>, bool, Seq<u8>)> {
    v.map_values(|p: PlannedFile| (p.relative_path@, p.is_dir, p.data@))
}

/// The names of entries.
pub open spec fn entry_names(es: Seq<(Seq<char>, bool, Seq<u8>)>) -> Seq<Seq<char>> {
    es.map_values(|e: (Seq<char>, bool, Seq<u8>)| e.0)
}

/// The files of the entries that lie below the root: each entry's path
/// without the root prefix, its kind and contents; entries whose path is
/// empty or `/` are left out.
pub open spec fn spec_planned(es: Seq<(Seq<char>, bool, Seq<u8>)>, prefix: Option<Seq<char>>) -> Seq<(Seq<char>, bool, Seq<u8>)>
    decreases es.len(),
{
    if es.len() == 0 {
        Seq::empty()
    } else {
        let rest = spec_planned(es.drop_last(), prefix);
        match spec_relative_path(es.last().0, prefix) {
            Some(rel) => rest.push((rel, es.last().1, es.last().2)),
            None => rest,
        }
    }
}

/// The name a package with these entries is installed under: the directory
/// of its last `SKILL.md`, else the hint.
pub open spec fn spec_package_name(es: Seq<(Seq<char>, bool, Seq<u8>)>, name_hint: Seq<char>) -> Seq<char> {
    match spec_skill_name(entry_names(es)) {
        Some(n) => n,
        None => name_hint,
    }
}

/// The plan for an archive with these entries.
pub fn plan_from_entries(entries: &Vec<ArchiveEntry>, name_hint: &str) -> (r: ExtractionPlan)
    ensures
        r.skill_name@ == spec_package_name(entries_view(entries@), name_hint@),
        planned_view(r.files@) == spec_planned(entries_view(entries@), spec_root_prefix(entry_names(entries_view(entries@)))),
{
    let ghost es = entries_view(entries@);
    let mut names: Vec<String> = Vec::new();
    let mut i: usize = 0;
    while i < entries.len()
        invariant
            i <= entries@.len(),
            es == entries_view(entries@),
            views(names@) == entry_names(es).take(i as int),
        decreases entries@.len() - i,
    {
        names.push(entries[i].name.clone());
        proof {
            assert(entry_names(es).take(i + 1) =~= entry_names(es).take(i as int).push(entries@[i as int].name@));
            assert(views(names@) =~= entry_names(es).take(i + 1));
        }
        i = i + 1;
    }
    assert(entry_names(es).take(entries@.len() as int) =~= entry_names(es));
    let layout = analyze_archive(&names);
    let skill_name = final_skill_name(&layout, name_hint);
    let ghost prefix = spec_root_prefix(entry_names(es));
    let mut files: Vec<PlannedFile> = Vec::new();
    let mut j: usize = 0;
    while j < entries.len()
        invariant
            j <= entries@.len(),
            es == entries_view(entries@),
            crate::config::opt_view(layout.root_prefix) == prefix,
            planned_view(files@) == spec_planned(es.take(j as int), prefix),
        decreases entries@.len() - j,
    {
        let ghost before = files@;
        proof {
            assert(es.take(j + 1).drop_last() =~= es.take(j as int));
            assert(es.take(j + 1).last() == entry_view(entries@[j as int]));
        }
        match archive_relative_path(entries[j].name.as_str(), &layout.root_prefix) {
            Some(rel) => {
                let data = entries[j].data.clone();
                assert(data@ =~= entries@[j as int].data@);
                files.push(PlannedFile { relative_path: rel, is_dir: entries[j].is_dir, data });
                proof {
                    assert(planned_view(files@) =~= planned_view(before).push((rel@, entries@[j as int].is_dir, entries@[j as int].data@)));
                }
            },
            None => {},
        }
        j = j + 1;
    }
    assert(es.take(entries@.len() as int) =~= es);
    ExtractionPlan { skill_name, files }
}

/// The error of a package that cannot be read.
pub open spec fn spec_package_error(f: (bool, Seq<char>)) -> Seq<char> {
    if f.0 {
        "Invalid skill package (not a valid zip): "@ + f.1
    } else {
        "Failed to read archive entry: "@ + f.1
    }
}

/// Reads a downloaded package and plans its installation: the skill's name
/// and the files below its directory, or why the package cannot be read.
pub fn plan_extraction(data: &[u8], name_hint: &str) -> (r: Result<ExtractionPlan, ServerError>)
    ensures
        match zip_entries_of(data@) {
            Err(f) => r matches Err(ServerError::Operation(m)) && m@ == spec_package_error(f),
            Ok(es) => r matches Ok(p) && p.skill_name@ == spec_package_name(es, name_hint@)
                && planned_view(p.files@) == spec_planned(es, spec_root_prefix(entry_names(es))),
        },
{
    match zip_entries(data) {
        Ok(entries) => Ok(plan_from_entries(&entries, name_hint)),
        Err(ZipFailure::Open(m)) => Err(ServerError::Operation(concat("Invalid skill package (not a valid zip): ", m.as_str()))),
        Err(ZipFailure::Entry(m)) => Err(ServerError::Operation(concat("Failed to read archive entry: ", m.as_str()))),
    }
}

} // verus!
