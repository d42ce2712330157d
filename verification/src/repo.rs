//! Repository state: discovery of the enclosing repository, branch and
//! operation extraction, ahead/behind counts, and working-tree status counts.
//!
//! Everything the version-control library reports depends on what is on disk,
//! so the trusted wrappers below promise nothing about their results; the
//! functions that interpret those results carry exact contracts instead.

use vstd::prelude::*;

use path_slash::PathExt;

use crate::strutil::{parse_usize_spec, parse_usize_chars, chars_of, trim_chars, trim_spec};
use vstd::string::StringExecFns;

verus! {

#[verifier::external_type_specification]
#[verifier::external_body]
pub struct ExRepository(git2::Repository);

#[verifier::external_type_specification]
#[verifier::external_body]
pub struct ExOid(git2::Oid);

/// What probing a path on disk found: nothing, a directory, or a readable
/// file's contents.
pub enum PathData {
    Missing,
    Directory,
    Contents(String),
}

/// Rebase progress: the step being applied and the total step count.
#[derive(Clone, Copy, PartialEq, Eq, Debug)]
pub struct Progress {
    pub current: usize,
    pub total: usize,
}

/// The operation recorded in a repository, as the prompt distinguishes them.
#[derive(Clone, Copy, PartialEq, Eq, Debug)]
pub enum Operation {
    Clean,
    Merge,
    Revert,
    CherryPick,
    Bisect,
    ApplyMailbox,
    ApplyMailboxOrRebase,
    Rebase(Option<Progress>),
}

/// The in-progress states git2 reports, mirrored variant for variant.
#[derive(Clone, Copy, PartialEq, Eq, Debug)]
pub enum RawState {
    Clean,
    Merge,
    Revert,
    RevertSequence,
    CherryPick,
    CherryPickSequence,
    Bisect,
    Rebase,
    RebaseInteractive,
    RebaseMerge,
    ApplyMailbox,
    ApplyMailboxOrRebase,
}

/// Whether a raw state is one of the rebase variants, for which the progress
/// files are consulted.
pub open spec fn raw_is_rebase(raw: RawState) -> bool {
    raw == RawState::Rebase || raw == RawState::RebaseInteractive || raw == RawState::RebaseMerge
}

/// The operation a raw state stands for, given any rebase progress found.
pub open spec fn operation_of_raw(raw: RawState, progress: Option<Progress>) -> Operation {
    match raw {
        RawState::Clean => Operation::Clean,
        RawState::Merge => Operation::Merge,
        RawState::Revert => Operation::Revert,
        RawState::RevertSequence => Operation::Revert,
        RawState::CherryPick => Operation::CherryPick,
        RawState::CherryPickSequence => Operation::CherryPick,
        RawState::Bisect => Operation::Bisect,
        RawState::Rebase => Operation::Rebase(progress),
        RawState::RebaseInteractive => Operation::Rebase(progress),
        RawState::RebaseMerge => Operation::Rebase(progress),
        RawState::ApplyMailbox => Operation::ApplyMailbox,
        RawState::ApplyMailboxOrRebase => Operation::ApplyMailboxOrRebase,
    }
}

/// Executable counterpart of `operation_of_raw`.
pub fn operation_of(raw: &RawState, progress: Option<Progress>) -> (r: Operation)
    ensures
        r == operation_of_raw(*raw, progress),
{
    match raw {
        RawState::Clean => Operation::Clean,
        RawState::Merge => Operation::Merge,
        RawState::Revert => Operation::Revert,
        RawState::RevertSequence => Operation::Revert,
        RawState::CherryPick => Operation::CherryPick,
        RawState::CherryPickSequence => Operation::CherryPick,
        RawState::Bisect => Operation::Bisect,
        RawState::Rebase => Operation::Rebase(progress),
        RawState::RebaseInteractive => Operation::Rebase(progress),
        RawState::RebaseMerge => Operation::Rebase(progress),
        RawState::ApplyMailbox => Operation::ApplyMailbox,
        RawState::ApplyMailboxOrRebase => Operation::ApplyMailboxOrRebase,
    }
}

/// The repository as the prompt models it: its working-tree root, the branch
/// HEAD points at (absent when detached), and the operation in progress.
pub struct Repo {
    pub root: String,
    pub branch: Option<String>,
    pub operation: Operation,
}

impl Repo {
    /// A field-for-field copy, equal to `self`.
    pub fn duplicate(&self) -> (r: Repo)
        ensures
            r == *self,
    {
        Repo {
            root: self.root.clone(),
            branch: match &self.branch {
                Some(b) => Some(b.clone()),
                None => None,
            },
            operation: self.operation,
        }
    }
}

/// Relies on git2's `Repository::discover`: finds the repository enclosing
/// the given path, walking upward; the result depends on what is on disk.
#[verifier::external_body]
pub(crate) fn discover_repository(path: &str) -> Option<git2::Repository> {
    git2::Repository::discover(path).ok()
}

/// Relies on git2's `Repository::open`.
#[verifier::external_body]
pub(crate) fn open_repository(path: &str) -> Option<git2::Repository> {
    git2::Repository::open(path).ok()
}

/// Relies on git2's `Repository::workdir` and path_slash's `to_slash`: the
/// working-tree root as a `/`-separated string; absent for a bare repository.
#[verifier::external_body]
pub(crate) fn repository_workdir(repo: &git2::Repository) -> Option<String> {
    repo.workdir().and_then(|p| p.to_slash()).map(|c| c.to_string())
}

/// Relies on git2's `Repository::head` and `Reference::is_branch`: whether
/// HEAD points at a local branch.
#[verifier::external_body]
pub(crate) fn head_is_branch(repo: &git2::Repository) -> bool {
    match repo.head() {
        Ok(head) => head.is_branch(),
        Err(_) => false,
    }
}

/// Relies on git2's `Repository::head` and `Reference::shorthand`: the short
/// name of the reference HEAD points at.
#[verifier::external_body]
pub(crate) fn head_shorthand(repo: &git2::Repository) -> Option<String> {
    let head = repo.head().ok()?;
    match head.shorthand() {
        Ok(name) => Some(name.to_string()),
        Err(_) => None,
    }
}

/// Relies on git2's `Repository::state`: the operation recorded in the
/// repository, mirrored variant for variant.
#[verifier::external_body]
pub(crate) fn repository_state(repo: &git2::Repository) -> RawState {
    match repo.state() {
        git2::RepositoryState::Clean => RawState::Clean,
        git2::RepositoryState::Merge => RawState::Merge,
        git2::RepositoryState::Revert => RawState::Revert,
        git2::RepositoryState::RevertSequence => RawState::RevertSequence,
        git2::RepositoryState::CherryPick => RawState::CherryPick,
        git2::RepositoryState::CherryPickSequence => RawState::CherryPickSequence,
        git2::RepositoryState::Bisect => RawState::Bisect,
        git2::RepositoryState::Rebase => RawState::Rebase,
        git2::RepositoryState::RebaseInteractive => RawState::RebaseInteractive,
        git2::RepositoryState::RebaseMerge => RawState::RebaseMerge,
        git2::RepositoryState::ApplyMailbox => RawState::ApplyMailbox,
        git2::RepositoryState::ApplyMailboxOrRebase => RawState::ApplyMailboxOrRebase,
    }
}

/// Relies on git2's `Repository::revparse_single` and `Object::id`: the
/// object id a revision string resolves to.
#[verifier::external_body]
pub(crate) fn revparse_oid(repo: &git2::Repository, spec: &str) -> Option<git2::Oid> {
    match repo.revparse_single(spec) {
        Ok(obj) => Some(obj.id()),
        Err(_) => None,
    }
}

/// Relies on git2's `Repository::graph_ahead_behind`: how many commits each
/// of the two ids is ahead of their common ancestor.
#[verifier::external_body]
pub(crate) fn graph_ahead_behind_raw(
    repo: &git2::Repository,
    local: git2::Oid,
    upstream: git2::Oid,
) -> Option<(usize, usize)> {
    repo.graph_ahead_behind(local, upstream).ok()
}

/// Relies on git2's `Repository::revparse_single`: whether `refs/stash`
/// resolves, that is, whether a stash exists.
#[verifier::external_body]
pub(crate) fn has_stash(repo: &git2::Repository) -> bool {
    repo.revparse_single("refs/stash").is_ok()
}

/// Relies on git2's `Repository::config`, `Config::get_entry`,
/// `ConfigEntry::has_value` and `ConfigEntry::value`: the text of one
/// configuration entry, when present and readable. `value` panics on an
/// entry defined without a value, so `has_value` guards the read.
#[verifier::external_body]
pub(crate) fn config_entry_value(repo: &git2::Repository, name: &str) -> Option<String> {
    let cfg = repo.config().ok()?;
    let entry = cfg.get_entry(name).ok()?;
    if !entry.has_value() {
        return None;
    }
    match entry.value() {
        Ok(v) => Some(v.to_string()),
        Err(_) => None,
    }
}

/// Relies on git2's `StatusOptions` and `Repository::statuses`: the status
/// bits of every entry the library reports, renames tracked, untracked files
/// included on demand.
#[verifier::external_body]
pub(crate) fn read_status_bits(repo: &git2::Repository, include_untracked: bool) -> Option<
    Vec<u32>,
> {
    let mut opts = git2::StatusOptions::new();
    opts.include_untracked(include_untracked);
    opts.renames_from_rewrites(true);
    opts.renames_head_to_index(true);
    opts.renames_index_to_workdir(true);
    let statuses = repo.statuses(Some(&mut opts)).ok()?;
    let mut bits: Vec<u32> = Vec::new();
    for entry in statuses.iter() {
        bits.push(entry.status().bits());
    }
    Some(bits)
}

// The status flag values, as git2's `Status` flags define them.
pub const STATUS_INDEX_NEW: u32 = 0x1;
pub const STATUS_INDEX_MODIFIED: u32 = 0x2;
pub const STATUS_INDEX_DELETED: u32 = 0x4;
pub const STATUS_INDEX_RENAMED: u32 = 0x8;
pub const STATUS_WT_NEW: u32 = 0x80;
pub const STATUS_WT_MODIFIED: u32 = 0x100;
pub const STATUS_WT_DELETED: u32 = 0x200;
pub const STATUS_WT_RENAMED: u32 = 0x800;
pub const STATUS_CONFLICTED: u32 = 0x8000;

/// Whether a status word carries any of the masked flags.
pub open spec fn has_status_flag(status: u32, mask: u32) -> bool {
    status & mask != 0
}

/// This entry has merge conflicts.
pub fn is_conflicted(status: u32) -> (r: bool)
    ensures
        r == has_status_flag(status, STATUS_CONFLICTED),
{
    status & STATUS_CONFLICTED != 0
}

/// This entry's deletion is recorded in the working tree or the index.
pub fn is_deleted(status: u32) -> (r: bool)
    ensures
        r == has_status_flag(status, STATUS_WT_DELETED | STATUS_INDEX_DELETED),
{
    status & (STATUS_WT_DELETED | STATUS_INDEX_DELETED) != 0
}

/// This entry is renamed in the working tree or the index.
pub fn is_renamed(status: u32) -> (r: bool)
    ensures
        r == has_status_flag(status, STATUS_WT_RENAMED | STATUS_INDEX_RENAMED),
{
    status & (STATUS_WT_RENAMED | STATUS_INDEX_RENAMED) != 0
}

/// This entry is modified in the working tree.
pub fn is_modified(status: u32) -> (r: bool)
    ensures
        r == has_status_flag(status, STATUS_WT_MODIFIED),
{
    status & STATUS_WT_MODIFIED != 0
}

/// This entry is staged: modified or new in the index.
pub fn is_staged(status: u32) -> (r: bool)
    ensures
        r == has_status_flag(status, STATUS_INDEX_MODIFIED | STATUS_INDEX_NEW),
{
    status & (STATUS_INDEX_MODIFIED | STATUS_INDEX_NEW) != 0
}

/// This entry is untracked: new in the working tree.
pub fn is_untracked(status: u32) -> (r: bool)
    ensures
        r == has_status_flag(status, STATUS_WT_NEW),
{
    status & STATUS_WT_NEW != 0
}

/// How many status words carry any of the masked flags.
pub open spec fn count_flagged(bits: Seq<u32>, mask: u32) -> int
    decreases bits.len(),
{
    if bits.len() == 0 {
        0
    } else {
        count_flagged(bits.drop_last(), mask) + if has_status_flag(bits.last(), mask) {
            1int
        } else {
            0int
        }
    }
}

/// The number of entries in each of the states the prompt reports.
#[derive(Default, Debug, Copy, Clone, PartialEq, Eq)]
pub struct RepoStatus {
    pub conflicted: usize,
    pub deleted: usize,
    pub renamed: usize,
    pub modified: usize,
    pub staged: usize,
    pub untracked: usize,
}

/// Count one flag set over all status words.
fn count_matching(bits: &Vec<u32>, mask: u32) -> (r: usize)
    ensures
        r == count_flagged(bits@, mask),
{
    let mut count: usize = 0;
    let mut i: usize = 0;
    while i < bits.len()
        invariant
            i <= bits@.len(),
            count == count_flagged(bits@.take(i as int), mask),
            count <= i,
        decreases bits@.len() - i,
    {
        proof {
            assert(bits@.take(i as int + 1).drop_last() =~= bits@.take(i as int));
            assert(bits@.take(i as int + 1).last() == bits@[i as int]);
        }
        if bits[i] & mask != 0 {
            count = count + 1;
        }
        i = i + 1;
    }
    proof {
        assert(bits@.take(bits@.len() as int) =~= bits@);
    }
    count
}

/// The per-state counts of a status-bit listing.
pub fn count_statuses(bits: &Vec<u32>) -> (r: RepoStatus)
    ensures
        r.conflicted == count_flagged(bits@, STATUS_CONFLICTED),
        r.deleted == count_flagged(bits@, STATUS_WT_DELETED | STATUS_INDEX_DELETED),
        r.renamed == count_flagged(bits@, STATUS_WT_RENAMED | STATUS_INDEX_RENAMED),
        r.modified == count_flagged(bits@, STATUS_WT_MODIFIED),
        r.staged == count_flagged(bits@, STATUS_INDEX_MODIFIED | STATUS_INDEX_NEW),
        r.untracked == count_flagged(bits@, STATUS_WT_NEW),
{
    RepoStatus {
        conflicted: count_matching(bits, STATUS_CONFLICTED),
        deleted: count_matching(bits, STATUS_WT_DELETED | STATUS_INDEX_DELETED),
        renamed: count_matching(bits, STATUS_WT_RENAMED | STATUS_INDEX_RENAMED),
        modified: count_matching(bits, STATUS_WT_MODIFIED),
        staged: count_matching(bits, STATUS_INDEX_MODIFIED | STATUS_INDEX_NEW),
        untracked: count_matching(bits, STATUS_WT_NEW),
    }
}

/// Gets the number of files in the various states the prompt reports, or
/// nothing when the repository reports no status entries at all. Untracked
/// files are included unless the repository's `status.showUntrackedFiles`
/// configuration entry says `no`. Which status words come back depends on
/// the repository on disk, so they stand existentially; how a non-empty
/// listing is counted is pinned exactly.
pub fn get_repo_status(repository: &git2::Repository) -> (r: Option<RepoStatus>)
    ensures
        r matches Some(counts) ==> exists|bits: Seq<u32>|
            {
                &&& bits.len() > 0
                &&& counts.conflicted == count_flagged(bits, STATUS_CONFLICTED)
                &&& counts.deleted == count_flagged(bits, STATUS_WT_DELETED | STATUS_INDEX_DELETED)
                &&& counts.renamed == count_flagged(bits, STATUS_WT_RENAMED | STATUS_INDEX_RENAMED)
                &&& counts.modified == count_flagged(bits, STATUS_WT_MODIFIED)
                &&& counts.staged == count_flagged(bits, STATUS_INDEX_MODIFIED | STATUS_INDEX_NEW)
                &&& counts.untracked == count_flagged(bits, STATUS_WT_NEW)
            },
{
    let include_untracked = match config_entry_value(repository, "status.showUntrackedFiles") {
        Some(v) => !crate::strutil::str_eq(v.as_str(), "no"),
        None => true,
    };
    match read_status_bits(repository, include_untracked) {
        Some(bits) => {
            if bits.len() == 0 {
                return None;
            }
            let counts = count_statuses(&bits);
            proof {
                assert(bits@.len() > 0 && counts.conflicted == count_flagged(
                    bits@,
                    STATUS_CONFLICTED,
                ) && counts.deleted == count_flagged(
                    bits@,
                    STATUS_WT_DELETED | STATUS_INDEX_DELETED,
                ) && counts.renamed == count_flagged(
                    bits@,
                    STATUS_WT_RENAMED | STATUS_INDEX_RENAMED,
                ) && counts.modified == count_flagged(bits@, STATUS_WT_MODIFIED) && counts.staged
                    == count_flagged(bits@, STATUS_INDEX_MODIFIED | STATUS_INDEX_NEW)
                    && counts.untracked == count_flagged(bits@, STATUS_WT_NEW));
            }
            Some(counts)
        },
        None => None,
    }
}

/// Compares a branch with the branch it tracks: how far ahead and behind it
/// is. Nothing is promised of the counts; they come from the repository on
/// disk, and any resolution failure (no upstream among them) yields nothing.
pub fn get_ahead_behind(repository: &git2::Repository, branch_name: &str) -> (r: Option<
    (usize, usize),
>) {
    let local = match revparse_oid(repository, branch_name) {
        Some(oid) => oid,
        None => {
            return None;
        },
    };
    let mut tracking = String::new();
    tracking.append(branch_name);
    tracking.append("@{upstream}");
    let upstream = match revparse_oid(repository, tracking.as_str()) {
        Some(oid) => oid,
        None => {
            return None;
        },
    };
    graph_ahead_behind_raw(repository, local, upstream)
}

/// The progress value a probed file carries: its trimmed contents parsed as
/// a non-negative integer.
pub open spec fn progress_value(data: PathData) -> Option<usize> {
    match data {
        PathData::Contents(s) => parse_usize_spec(trim_spec(s@)),
        _ => None,
    }
}

/// Executable counterpart of `progress_value`.
pub fn progress_value_of(data: &PathData) -> (r: Option<usize>)
    ensures
        r == progress_value(*data),
{
    match data {
        PathData::Contents(s) => {
            let v = chars_of(s.as_str());
            let trimmed = trim_chars(&v);
            parse_usize_chars(&trimmed)
        },
        _ => None,
    }
}

/// The rebase progress the metadata files describe: the `rebase-merge` pair
/// where that directory exists, else the `rebase-apply` pair where that one
/// does; both files must parse, or there is no progress to show.
pub open spec fn rebase_progress_spec(
    merge_dir: PathData,
    msgnum: PathData,
    end: PathData,
    apply_dir: PathData,
    next: PathData,
    last: PathData,
) -> Option<Progress> {
    if !(merge_dir is Missing) {
        match (progress_value(msgnum), progress_value(end)) {
            (Some(current), Some(total)) => Some(Progress { current, total }),
            _ => None,
        }
    } else if !(apply_dir is Missing) {
        match (progress_value(next), progress_value(last)) {
            (Some(current), Some(total)) => Some(Progress { current, total }),
            _ => None,
        }
    } else {
        None
    }
}

/// Executable counterpart of `rebase_progress_spec`.
pub fn rebase_progress(
    merge_dir: &PathData,
    msgnum: &PathData,
    end: &PathData,
    apply_dir: &PathData,
    next: &PathData,
    last: &PathData,
) -> (r: Option<Progress>)
    ensures
        r == rebase_progress_spec(*merge_dir, *msgnum, *end, *apply_dir, *next, *last),
{
    if !matches!(merge_dir, PathData::Missing) {
        match (progress_value_of(msgnum), progress_value_of(end)) {
            (Some(current), Some(total)) => Some(Progress { current, total }),
            _ => None,
        }
    } else if !matches!(apply_dir, PathData::Missing) {
        match (progress_value_of(next), progress_value_of(last)) {
            (Some(current), Some(total)) => Some(Progress { current, total }),
            _ => None,
        }
    } else {
        None
    }
}

} // verus!
