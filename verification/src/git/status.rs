//! Deriving the state of a working tree from what libgit2 reports of each file.

use vstd::prelude::*;
use crate::git::backend::{spec_status_entries, statuses_get, statuses_len};
use crate::models::status::{FileStatus, FileStatusKind, RepoStatus};

verus! {

/// What libgit2 reports of one file: how it differs between the last commit and
/// the index (`index_*`), and between the index and the working tree (`wt_*`).
#[derive(Debug, Clone, Copy)]
pub struct StatusFlags {
    pub wt_new: bool,
    pub index_new: bool,
    pub wt_modified: bool,
    pub index_modified: bool,
    pub wt_deleted: bool,
    pub index_deleted: bool,
    pub wt_renamed: bool,
    pub index_renamed: bool,
    pub conflicted: bool,
}

/// One entry of libgit2's status list. The path is absent where it is not valid
/// UTF-8.
#[derive(Debug, Clone)]
pub struct StatusRecord {
    pub path: Option<String>,
    pub flags: StatusFlags,
}

/// The kind of change that a file's flags stand for. The first of these that
/// applies decides: new gives `Untracked`, modified `Modified`, deleted
/// `Deleted`, renamed `Renamed`, conflicted `Conflicted`. Anything else that
/// libgit2 lists counts as `Modified`.
pub open spec fn spec_classify(flags: StatusFlags) -> FileStatusKind {
    if flags.wt_new || flags.index_new {
        FileStatusKind::Untracked
    } else if flags.wt_modified || flags.index_modified {
        FileStatusKind::Modified
    } else if flags.wt_deleted || flags.index_deleted {
        FileStatusKind::Deleted
    } else if flags.wt_renamed || flags.index_renamed {
        FileStatusKind::Renamed
    } else if flags.conflicted {
        FileStatusKind::Conflicted
    } else {
        FileStatusKind::Modified
    }
}

/// Computes [`spec_classify`].
pub fn classify(flags: &StatusFlags) -> (kind: FileStatusKind)
    ensures
        kind == spec_classify(*flags),
{
    if flags.wt_new || flags.index_new {
        FileStatusKind::Untracked
    } else if flags.wt_modified || flags.index_modified {
        FileStatusKind::Modified
    } else if flags.wt_deleted || flags.index_deleted {
        FileStatusKind::Deleted
    } else if flags.wt_renamed || flags.index_renamed {
        FileStatusKind::Renamed
    } else if flags.conflicted {
        FileStatusKind::Conflicted
    } else {
        FileStatusKind::Modified
    }
}

/// A changed file as a value of the model: its path and its kind.
pub open spec fn file_view(file: FileStatus) -> (Seq<char>, FileStatusKind) {
    (file.path@, file.status)
}

/// The changed files of a list as values of the model.
pub open spec fn file_views(files: Seq<FileStatus>) -> Seq<(Seq<char>, FileStatusKind)> {
    files.map_values(|f: FileStatus| file_view(f))
}

/// One entry of a status list as a value of the model: its path, absent where
/// it is not valid UTF-8, and its flags.
pub type RecordView = (Option<Seq<char>>, StatusFlags);

/// The entry as a value of the model.
pub open spec fn record_view(record: StatusRecord) -> RecordView {
    (crate::text::opt_view(record.path), record.flags)
}

/// The entries of a list as values of the model.
pub open spec fn record_views(records: Seq<StatusRecord>) -> Seq<RecordView> {
    records.map_values(|r: StatusRecord| record_view(r))
}

/// The changed files that a status list stands for: one for each entry that has
/// a path, in the order of the list, each with the kind of its flags.
pub open spec fn spec_files(entries: Seq<RecordView>) -> Seq<(Seq<char>, FileStatusKind)>
    decreases entries.len(),
{
    if entries.len() == 0 {
        seq![]
    } else {
        let before = spec_files(entries.drop_last());
        match entries.last().0 {
            Some(path) => before.push((path, spec_classify(entries.last().1))),
            None => before,
        }
    }
}

/// Whether a kind is one that [`spec_classify`] gives. `Added` and `Copied` are
/// not: a new file counts as `Untracked`, and copies are not looked for.
pub open spec fn spec_is_derived_kind(kind: FileStatusKind) -> bool {
    kind != FileStatusKind::Added && kind != FileStatusKind::Copied
}

/// Whether every file of the list has a kind that [`spec_classify`] gives.
pub open spec fn spec_all_derived(files: Seq<FileStatus>) -> bool {
    forall|i: int| 0 <= i < files.len() ==> spec_is_derived_kind((#[trigger] files[i]).status)
}

/// Computes [`spec_files`].
pub fn changed_files(records: &Vec<StatusRecord>) -> (files: Vec<FileStatus>)
    ensures
        file_views(files@) == spec_files(record_views(records@)),
        spec_all_derived(files@),
{
    let mut files: Vec<FileStatus> = Vec::new();
    let mut i: usize = 0;
    let ghost entries = record_views(records@);
    assert(entries.take(0) =~= Seq::<RecordView>::empty());
    while i < records.len()
        invariant
            i <= records.len(),
            entries == record_views(records@),
            file_views(files@) =~= spec_files(entries.take(i as int)),
            spec_all_derived(files@),
        decreases records.len() - i,
    {
        let record = &records[i];
        proof {
            assert(entries.take(i + 1).drop_last() =~= entries.take(i as int));
            assert(entries.take(i + 1).last() == record_view(records@[i as int]));
        }
        match &record.path {
            Some(path) => {
                let file = FileStatus { path: path.clone(), status: classify(&record.flags) };
                proof {
                    assert(file_views(files@.push(file)) =~= file_views(files@).push(
                        file_view(file),
                    ));
                }
                files.push(file);
            },
            None => {},
        }
        i += 1;
    }
    assert(entries.take(records.len() as int) =~= entries);
    files
}

/// Reads a status list of libgit2 into plain values, entry by entry.
pub fn list_records(statuses: &git2::Statuses<'_>) -> (records: Vec<StatusRecord>)
    ensures
        record_views(records@) == spec_status_entries(*statuses),
{
    let ghost entries = spec_status_entries(*statuses);
    let n = statuses_len(statuses);
    let mut records: Vec<StatusRecord> = Vec::new();
    let mut i: usize = 0;
    while i < n
        invariant
            i <= n,
            n == entries.len(),
            entries == spec_status_entries(*statuses),
            record_views(records@) =~= entries.take(i as int),
        decreases n - i,
    {
        match statuses_get(statuses, i) {
            Some(record) => {
                proof {
                    assert(record_views(records@.push(record)) =~= record_views(records@).push(
                        record_view(record),
                    ));
                    assert(entries.take(i + 1) =~= entries.take(i as int).push(entries[i as int]));
                }
                records.push(record);
            },
            None => {},
        }
        i += 1;
    }
    assert(entries.take(n as int) =~= entries);
    records
}

/// The status of the working tree at `path`, given the status list that
/// libgit2 made of it: the files are those that the list stands for (see
/// [`spec_files`]), and the tree is clean exactly when there is none.
pub fn status_of_list(path: String, statuses: &git2::Statuses<'_>) -> (status: RepoStatus)
    ensures
        status.path == path,
        file_views(status.files@) == spec_files(spec_status_entries(*statuses)),
        status.wf(),
        spec_all_derived(status.files@),
{
    let records = list_records(statuses);
    repo_status(path, changed_files(&records))
}

/// The status of the working tree at `path` whose changed files are `files`: it
/// is clean exactly when there is none.
pub fn repo_status(path: String, files: Vec<FileStatus>) -> (status: RepoStatus)
    ensures
        status.path == path,
        status.files == files,
        status.is_clean <==> files@.len() == 0,
        status.wf(),
{
    let is_clean = files.len() == 0;
    RepoStatus { path, is_clean, files }
}

/// How many of the files are untracked.
pub open spec fn spec_untracked_count(files: Seq<FileStatus>) -> nat
    decreases files.len(),
{
    if files.len() == 0 {
        0
    } else {
        spec_untracked_count(files.drop_last()) + if files.last().status
            == FileStatusKind::Untracked {
            1nat
        } else {
            0nat
        }
    }
}

/// A count as an `i32`, the greatest `i32` standing for every count beyond it.
pub open spec fn spec_clamp(count: nat) -> i32 {
    if count <= i32::MAX {
        count as i32
    } else {
        i32::MAX
    }
}

/// Computes [`spec_clamp`].
pub fn clamp_count(count: usize) -> (r: i32)
    ensures
        r == spec_clamp(count as nat),
{
    if count <= 2147483647 {
        count as i32
    } else {
        i32::MAX
    }
}

/// The untracked never outnumber the files.
pub proof fn lemma_untracked_count_bound(files: Seq<FileStatus>)
    ensures
        spec_untracked_count(files) <= files.len(),
    decreases files.len(),
{
    if files.len() > 0 {
        lemma_untracked_count_bound(files.drop_last());
    }
}

/// How many of the files are untracked: see [`spec_untracked_count`].
pub fn untracked_count(files: &Vec<FileStatus>) -> (n: usize)
    ensures
        n == spec_untracked_count(files@),
{
    let mut n: usize = 0;
    let mut i: usize = 0;
    assert(files@.take(0) =~= Seq::<FileStatus>::empty());
    while i < files.len()
        invariant
            i <= files.len(),
            n == spec_untracked_count(files@.take(i as int)),
            n <= i,
        decreases files.len() - i,
    {
        proof {
            assert(files@.take(i + 1).drop_last() =~= files@.take(i as int));
            assert(files@.take(i + 1).last() == files@[i as int]);
        }
        if files[i].status == FileStatusKind::Untracked {
            n += 1;
        }
        i += 1;
    }
    assert(files@.take(files.len() as int) =~= files@);
    n
}

} // verus!
