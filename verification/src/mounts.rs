//! Which files are placed in the image's file system, and under what names.
//!
//! Every file is mounted under its own file name. A file whose path has no
//! final component, or whose name is not valid Unicode, is left out and
//! reported; the others are kept in the order in which they were given.

use crate::paths::{file_name_of, path_file_name, path_text, text_of};
use crate::report::{Diagnostic, DiagnosticView, Severity};
use crate::views;
use std::path::PathBuf;
use vstd::prelude::*;

verus! {

/// A file to place in the image: the name it gets there and where it is
/// read from.
#[derive(Clone, Debug, PartialEq, Eq)]
pub struct MountEntry {
    pub name: String,
    pub source: PathBuf,
}

/// A mount entry with its name as a sequence of characters.
pub ghost struct MountEntryView {
    pub name: Seq<char>,
    pub source: PathBuf,
}

impl View for MountEntry {
    type V = MountEntryView;

    open spec fn view(&self) -> MountEntryView {
        MountEntryView { name: self.name@, source: self.source }
    }
}

/// The name under which a file is mounted: the text of the final component
/// of its path, where the path has one and it is valid Unicode.
pub open spec fn mount_name(path: PathBuf) -> Option<Seq<char>> {
    match path_file_name(path) {
        Some(name) => path_text(name),
        None => None,
    }
}

/// The entry that a file is mounted as, if it is mounted at all.
pub open spec fn mount_entry(path: PathBuf) -> Option<MountEntryView> {
    match mount_name(path) {
        Some(name) => Some(MountEntryView { name, source: path }),
        None => None,
    }
}

/// The warning that a file gives rise to, if it is left out.
pub open spec fn mount_defect(path: PathBuf) -> Option<DiagnosticView> {
    match path_file_name(path) {
        None => Some(DiagnosticView::MountUnresolved(path)),
        Some(name) => if path_text(name) is None {
            Some(DiagnosticView::MountNameNotText(name))
        } else {
            None
        },
    }
}

/// The entries of the files that are mounted, in the order of the files.
pub open spec fn mount_entries(files: Seq<PathBuf>) -> Seq<MountEntryView> {
    files.filter_map(|path: PathBuf| mount_entry(path))
}

/// The warnings for the files that are left out, in the order of the files.
pub open spec fn mount_defects(files: Seq<PathBuf>) -> Seq<DiagnosticView> {
    files.filter_map(|path: PathBuf| mount_defect(path))
}

/// The outcome of resolving the files to mount.
#[derive(Clone, Debug, PartialEq, Eq)]
pub struct MountPlan {
    /// The files that are mounted.
    pub entries: Vec<MountEntry>,
    /// A warning for each file that is left out.
    pub defects: Vec<Diagnostic>,
}

/// Derives the entry for one file, or the warning that says why it has
/// none.
pub fn resolve_mount(path: PathBuf) -> (outcome: Result<MountEntry, Diagnostic>)
    ensures
        outcome is Ok <==> mount_name(path) is Some,
        outcome matches Ok(entry) ==> mount_entry(path) == Some(entry@) && mount_defect(path)
            is None,
        outcome matches Err(defect) ==> mount_defect(path) == Some(defect@) && mount_entry(path)
            is None,
{
    match file_name_of(&path) {
        Some(file_name) => match text_of(&file_name) {
            Some(name) => Ok(MountEntry { name, source: path }),
            None => Err(Diagnostic::MountNameNotText(file_name)),
        },
        None => Err(Diagnostic::MountUnresolved(path)),
    }
}

/// Resolves the files to mount: an entry for each file that has a name, a
/// warning for each that has none, both in the order of the files.
pub fn resolve_mounts(files: &Vec<PathBuf>) -> (plan: MountPlan)
    ensures
        views(plan.entries@) == mount_entries(files@),
        views(plan.defects@) == mount_defects(files@),
        plan.entries.len() + plan.defects.len() == files.len(),
{
    let mut entries: Vec<MountEntry> = Vec::new();
    let mut defects: Vec<Diagnostic> = Vec::new();
    let mut index: usize = 0;
    while index < files.len()
        invariant
            index <= files.len(),
            views(entries@) == mount_entries(files@.take(index as int)),
            views(defects@) == mount_defects(files@.take(index as int)),
            entries.len() + defects.len() == index,
        decreases files.len() - index,
    {
        let ghost seen = files@.take(index as int);
        let ghost kept = entries@;
        let ghost left_out = defects@;
        let path = files[index].clone();
        proof {
            assert(files@.take(index + 1) =~= seen.push(path));
            lemma_mounts_push(seen, path);
        }
        match resolve_mount(path) {
            Ok(entry) => {
                entries.push(entry);
                assert(views(kept.push(entry)) =~= views(kept).push(entry@));
            },
            Err(defect) => {
                defects.push(defect);
                assert(views(left_out.push(defect)) =~= views(left_out).push(defect@));
            },
        }
        index = index + 1;
    }
    assert(files@.take(index as int) =~= files@);
    MountPlan { entries, defects }
}

/// One more file adds its entry at the end of the entries, or its warning at
/// the end of the warnings, and changes nothing before that.
pub proof fn lemma_mounts_push(files: Seq<PathBuf>, path: PathBuf)
    ensures
        mount_entries(files.push(path)) == match mount_entry(path) {
            Some(entry) => mount_entries(files).push(entry),
            None => mount_entries(files),
        },
        mount_defects(files.push(path)) == match mount_defect(path) {
            Some(defect) => mount_defects(files).push(defect),
            None => mount_defects(files),
        },
{
    let longer = files.push(path);
    assert(longer.drop_last() =~= files);
    assert(longer.last() == path);
    match mount_entry(path) {
        Some(entry) => {
            assert(mount_entries(files) + seq![entry] =~= mount_entries(files).push(entry));
        },
        None => {},
    }
    match mount_defect(path) {
        Some(defect) => {
            assert(mount_defects(files) + seq![defect] =~= mount_defects(files).push(defect));
        },
        None => {},
    }
}

/// The entries of the first `shorter` files open the entries of the first
/// `longer` files.
pub proof fn lemma_mount_entries_of_prefix(files: Seq<PathBuf>, shorter: int, longer: int)
    requires
        0 <= shorter <= longer <= files.len(),
    ensures
        mount_entries(files.take(shorter)).is_prefix_of(mount_entries(files.take(longer))),
    decreases longer - shorter,
{
    if shorter < longer {
        lemma_mount_entries_of_prefix(files, shorter, longer - 1);
        assert(files.take(longer) =~= files.take(longer - 1).push(files[longer - 1]));
        lemma_mounts_push(files.take(longer - 1), files[longer - 1]);
    }
}

/// A file is mounted or reported, never both and never neither.
pub proof fn every_file_is_mounted_or_reported(path: PathBuf)
    ensures
        mount_entry(path) is Some <==> mount_defect(path) is None,
        mount_entry(path) matches Some(entry) ==> entry.source == path && Some(entry.name)
            == mount_name(path),
{
}

/// Files that have a name are mounted whatever the other files are like, and
/// in the order in which they were given: the entry of such a file stands
/// behind the entries of all such files before it, and before the entry of
/// every such file after it.
pub proof fn mounted_files_keep_their_order(files: Seq<PathBuf>, first: int, second: int)
    requires
        0 <= first < second < files.len(),
        mount_entry(files[first]) is Some,
        mount_entry(files[second]) is Some,
    ensures
        ({
            let entries = mount_entries(files);
            let at_first = mount_entries(files.take(first)).len() as int;
            let at_second = mount_entries(files.take(second)).len() as int;
            &&& 0 <= at_first < at_second < entries.len()
            &&& Some(entries[at_first]) == mount_entry(files[first])
            &&& Some(entries[at_second]) == mount_entry(files[second])
        }),
{
    let total = files.len() as int;
    assert(files.take(total) =~= files);
    assert(files.take(first + 1) =~= files.take(first).push(files[first]));
    lemma_mounts_push(files.take(first), files[first]);
    assert(files.take(second + 1) =~= files.take(second).push(files[second]));
    lemma_mounts_push(files.take(second), files[second]);
    lemma_mount_entries_of_prefix(files, first + 1, second);
    lemma_mount_entries_of_prefix(files, first + 1, total);
    lemma_mount_entries_of_prefix(files, second + 1, total);
    let entries = mount_entries(files);
    let up_to_first = mount_entries(files.take(first + 1));
    let up_to_second = mount_entries(files.take(second + 1));
    let at_first = mount_entries(files.take(first)).len() as int;
    let at_second = mount_entries(files.take(second)).len() as int;
    assert(up_to_first.len() == at_first + 1);
    assert(up_to_second.len() == at_second + 1);
    assert(up_to_first[at_first] == entries[at_first]);
    assert(up_to_second[at_second] == entries[at_second]);
}

/// Every diagnostic for a file that is left out is a warning.
pub proof fn defects_are_warnings(files: Seq<PathBuf>, i: int)
    requires
        0 <= i < mount_defects(files).len(),
    ensures
        mount_defects(files)[i].severity() == Severity::Warn,
    decreases files.len(),
{
    if files.len() > 0 {
        let rest = files.drop_last();
        assert(files =~= rest.push(files.last()));
        lemma_mounts_push(rest, files.last());
        if i < mount_defects(rest).len() {
            defects_are_warnings(rest, i);
        }
    }
}

} // verus!
