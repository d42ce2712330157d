//! The shared execution context handed to every module evaluator: the current
//! directory, the caller-supplied properties, and two cached probes — the
//! directory scan and the repository state — each computed at most once for
//! the lifetime of the context, however many evaluators consult it.
//!
//! The context itself never touches the filesystem for the scan or the
//! progress files: callers hand in closures that perform those reads, and the
//! contracts pin down that a cached value is never recomputed (the
//! `listings_issued` counter stands as the instrumentation point for that).

use vstd::prelude::*;

use vstd::string::StringExecFns;

use crate::repo::{
    discover_repository, head_is_branch, head_shorthand, operation_of, raw_is_rebase,
    rebase_progress, repository_state, repository_workdir, PathData, Repo,
};
use crate::strutil::{split_at, str_eq, views_of_strs};

verus! {

/// One entry of a directory listing: its name and whether it is a directory.
pub struct DirEntry {
    pub name: String,
    pub is_dir: bool,
}

/// The cached listing of the current directory.
pub struct DirScan {
    pub entries: Vec<DirEntry>,
}

/// The extension of a file name: what follows the last `.`, provided the dot
/// neither starts the name nor is its only one.
pub open spec fn ext_of(name: Seq<char>) -> Option<Seq<char>> {
    let parts = split_at(name, '.');
    if parts.len() >= 2 && !(parts.len() == 2 && parts[0].len() == 0) {
        Some(parts.last())
    } else {
        None
    }
}

/// Whether one listing entry matches any requested marker: a file by name or
/// extension, a directory by name.
pub open spec fn entry_matches(
    e: DirEntry,
    files: Seq<Seq<char>>,
    extensions: Seq<Seq<char>>,
    folders: Seq<Seq<char>>,
) -> bool {
    if e.is_dir {
        folders.contains(e.name@)
    } else {
        files.contains(e.name@) || (ext_of(e.name@) matches Some(ext) && extensions.contains(ext))
    }
}

/// Whether any listing entry matches any requested marker.
pub open spec fn scan_matches(
    entries: Seq<DirEntry>,
    files: Seq<Seq<char>>,
    extensions: Seq<Seq<char>>,
    folders: Seq<Seq<char>>,
) -> bool {
    exists|i: int|
        0 <= i < entries.len() && entry_matches(#[trigger] entries[i], files, extensions, folders)
}

/// First-match lookup in the property list.
pub open spec fn lookup_prop(props: Seq<(String, String)>, key: Seq<char>) -> Option<Seq<char>>
    decreases props.len(),
{
    if props.len() == 0 {
        None
    } else if props[0].0@ == key {
        Some(props[0].1@)
    } else {
        lookup_prop(props.drop_first(), key)
    }
}

/// How a context may change across one evaluator call: it stays consistent,
/// its directory and properties stand, and a value once cached is never
/// changed or recomputed — a cached scan keeps the listing count still.
pub open spec fn evolves(pre: Context, post: Context) -> bool {
    &&& post.inv()
    &&& post.current_dir == pre.current_dir
    &&& post.properties == pre.properties
    &&& (pre.scan is Some ==> post.scan == pre.scan && post.listings_issued
        == pre.listings_issued)
    &&& (pre.scan is None && post.scan is Some ==> post.listings_issued == pre.listings_issued
        + 1)
    &&& (pre.scan is None && post.scan is None ==> post.listings_issued
        == pre.listings_issued)
    &&& (pre.repo is Some ==> post.repo == pre.repo)
}

/// Evolution composes: what holds across each evaluator call holds across a
/// whole evaluation pass.
pub proof fn lemma_evolves_trans(a: Context, b: Context, c: Context)
    requires
        evolves(a, b),
        evolves(b, c),
    ensures
        evolves(a, c),
{
}

/// The shared, read-mostly execution context.
pub struct Context {
    /// The directory the prompt renders for.
    pub current_dir: String,
    /// Caller-supplied string properties (exit status, duration, job count).
    pub properties: Vec<(String, String)>,
    /// The cached directory scan; absent until first probed.
    pub scan: Option<DirScan>,
    /// How many directory listings were issued; never more than one.
    pub listings_issued: u64,
    /// The cached repository discovery; the outer layer records whether the
    /// probe ran, the inner whether a repository was found.
    pub repo: Option<Option<Repo>>,
}

impl Context {
    /// The context's internal consistency: a listing is issued only when the
    /// scan was computed.
    pub open spec fn inv(&self) -> bool {
        &&& (self.scan is None ==> self.listings_issued == 0)
        &&& self.listings_issued <= 1
    }

    /// A fresh context with both caches empty.
    pub fn new(current_dir: String, properties: Vec<(String, String)>) -> (r: Context)
        ensures
            r.inv(),
            r.current_dir == current_dir,
            r.properties == properties,
            r.scan is None,
            r.listings_issued == 0,
            r.repo is None,
    {
        Context { current_dir, properties, scan: None, listings_issued: 0, repo: None }
    }

    /// First-match lookup of a property by key.
    pub fn get_property(&self, key: &str) -> (r: Option<&String>)
        ensures
            match r {
                Some(v) => lookup_prop(self.properties@, key@) == Some(v@),
                None => lookup_prop(self.properties@, key@) is None,
            },
    {
        let mut i: usize = 0;
        proof {
            assert(self.properties@.skip(0) =~= self.properties@);
        }
        while i < self.properties.len()
            invariant
                i <= self.properties@.len(),
                lookup_prop(self.properties@, key@) == lookup_prop(
                    self.properties@.skip(i as int),
                    key@,
                ),
            decreases self.properties@.len() - i,
        {
            proof {
                assert(self.properties@.skip(i as int)[0] == self.properties@[i as int]);
                assert(self.properties@.skip(i as int).drop_first() =~= self.properties@.skip(
                    i as int + 1,
                ));
            }
            if str_eq(self.properties[i].0.as_str(), key) {
                return Some(&self.properties[i].1);
            }
            i = i + 1;
        }
        proof {
            assert(self.properties@.skip(self.properties@.len() as int) =~= Seq::<
                (String, String),
            >::empty());
        }
        None
    }

    /// Probe the cached directory scan for any of the requested marker files,
    /// extensions or folders. The listing is taken from `read_dir` the first
    /// time any caller probes, and never again for this context: when a scan
    /// is already cached, the listing count does not move. A failed listing
    /// degrades to an empty scan — no probe matches — rather than an error.
    pub fn probe<F: FnOnce() -> Option<Vec<DirEntry>>>(
        &mut self,
        files: &Vec<&str>,
        extensions: &Vec<&str>,
        folders: &Vec<&str>,
        read_dir: F,
    ) -> (r: bool)
        requires
            old(self).inv(),
            call_requires(read_dir, ()),
        ensures
            final(self).inv(),
            final(self).current_dir == old(self).current_dir,
            final(self).properties == old(self).properties,
            final(self).repo == old(self).repo,
            final(self).scan is Some,
            old(self).scan is Some ==> final(self).scan == old(self).scan
                && final(self).listings_issued == old(self).listings_issued,
            old(self).scan is None ==> final(self).listings_issued == old(self).listings_issued
                + 1,
            r == scan_matches(
                final(self).scan->0.entries@,
                views_of_strs(files@),
                views_of_strs(extensions@),
                views_of_strs(folders@),
            ),
    {
        if self.scan.is_none() {
            let listing = read_dir();
            let entries = match listing {
                Some(entries) => entries,
                None => Vec::new(),
            };
            self.scan = Some(DirScan { entries });
            self.listings_issued = self.listings_issued + 1;
        }
        match &self.scan {
            Some(scan) => scan_match_exec(scan, files, extensions, folders),
            None => {
                proof {
                    assert(false);
                }
                unreached()
            },
        }
    }

    /// The repository enclosing the current directory, discovered on first
    /// call and cached: a later call returns the same value without touching
    /// the repository again. `probe_path` reads the rebase metadata files
    /// under `.git` when — and only when — a rebase is in progress.
    pub fn get_repo<F: Fn(String) -> PathData>(&mut self, probe_path: F) -> (r: Option<Repo>)
        requires
            old(self).inv(),
            forall|p: String| call_requires(probe_path, (p,)),
        ensures
            final(self).inv(),
            final(self).current_dir == old(self).current_dir,
            final(self).properties == old(self).properties,
            final(self).scan == old(self).scan,
            final(self).listings_issued == old(self).listings_issued,
            final(self).repo is Some,
            old(self).repo is Some ==> final(self).repo == old(self).repo,
            Some(r) == final(self).repo,
    {
        if self.repo.is_none() {
            let computed = compute_repo(self.current_dir.as_str(), probe_path);
            self.repo = Some(computed);
        }
        match &self.repo {
            Some(Some(repo)) => Some(repo.duplicate()),
            Some(None) => None,
            None => {
                proof {
                    assert(false);
                }
                unreached()
            },
        }
    }
}

/// Executable counterpart of `scan_matches`.
fn scan_match_exec(scan: &DirScan, files: &Vec<&str>, extensions: &Vec<&str>, folders: &Vec<&str>) -> (r:
    bool)
    ensures
        r == scan_matches(
            scan.entries@,
            views_of_strs(files@),
            views_of_strs(extensions@),
            views_of_strs(folders@),
        ),
{
    let mut i: usize = 0;
    while i < scan.entries.len()
        invariant
            i <= scan.entries@.len(),
            forall|j: int|
                0 <= j < i ==> !entry_matches(
                    #[trigger] scan.entries@[j],
                    views_of_strs(files@),
                    views_of_strs(extensions@),
                    views_of_strs(folders@),
                ),
        decreases scan.entries@.len() - i,
    {
        if entry_match(&scan.entries[i], files, extensions, folders) {
            return true;
        }
        i = i + 1;
    }
    false
}

/// Executable counterpart of `entry_matches`.
fn entry_match(e: &DirEntry, files: &Vec<&str>, extensions: &Vec<&str>, folders: &Vec<&str>) -> (r: bool)
    ensures
        r == entry_matches(
            *e,
            views_of_strs(files@),
            views_of_strs(extensions@),
            views_of_strs(folders@),
        ),
{
    if e.is_dir {
        any_str_eq(folders, e.name.as_str())
    } else {
        if any_str_eq(files, e.name.as_str()) {
            return true;
        }
        match name_extension(e.name.as_str()) {
            Some(ext) => any_str_eq(extensions, ext.as_str()),
            None => false,
        }
    }
}

/// Whether any element of `candidates` equals `name`.
fn any_str_eq(candidates: &Vec<&str>, name: &str) -> (r: bool)
    ensures
        r == views_of_strs(candidates@).contains(name@),
{
    let n = candidates.len();
    let mut i: usize = 0;
    while i < n
        invariant
            n == candidates@.len(),
            i <= n,
            forall|j: int| 0 <= j < i ==> views_of_strs(candidates@)[j] != name@,
        decreases n - i,
    {
        if str_eq(candidates[i], name) {
            proof {
                assert(views_of_strs(candidates@)[i as int] == name@);
            }
            return true;
        }
        i = i + 1;
    }
    proof {
        if views_of_strs(candidates@).contains(name@) {
            let j = choose|j: int|
                0 <= j < views_of_strs(candidates@).len() && views_of_strs(candidates@)[j]
                    == name@;
            assert(false);
        }
    }
    false
}

/// The extension of a file name, as `ext_of` defines it.
fn name_extension(name: &str) -> (r: Option<String>)
    ensures
        match r {
            Some(ext) => ext_of(name@) == Some(ext@),
            None => ext_of(name@) is None,
        },
{
    let v = crate::strutil::chars_of(name);
    let parts = crate::strutil::split_chars(&v, '.');
    proof {
        crate::strutil::lemma_split_at_len(name@, '.');
        assert(parts@.len() == split_at(name@, '.').len());
        assert(parts@[parts@.len() - 1]@ == split_at(name@, '.').last());
        if parts@.len() >= 1 {
            assert(parts@[0]@ == split_at(name@, '.')[0]);
        }
    }
    if parts.len() >= 2 && !(parts.len() == 2 && parts[0].len() == 0) {
        let last = &parts[parts.len() - 1];
        Some(crate::strutil::string_of(last))
    } else {
        None
    }
}

/// Discover and model the repository enclosing `path`: its working-tree
/// root, HEAD's branch, and the operation in progress, rebase progress read
/// through `probe_path`. A repository without a working tree is reported as
/// no repository: no prompt module can show anything of it.
fn compute_repo<F: Fn(String) -> PathData>(path: &str, probe_path: F) -> (r: Option<Repo>)
    requires
        forall|p: String| call_requires(probe_path, (p,)),
{
    let repository = match discover_repository(path) {
        Some(repository) => repository,
        None => {
            return None;
        },
    };
    let workdir = match repository_workdir(&repository) {
        Some(w) => w,
        None => {
            return None;
        },
    };
    let root = strip_trailing_slashes(workdir);
    let branch = if head_is_branch(&repository) {
        head_shorthand(&repository)
    } else {
        None
    };
    let raw = repository_state(&repository);
    let progress = if raw_is_rebase_exec(&raw) {
        let mut dot_git = root.clone();
        dot_git.append("/.git");
        let merge_dir = probe_path(joined(&dot_git, "/rebase-merge"));
        let msgnum = probe_path(joined(&dot_git, "/rebase-merge/msgnum"));
        let end = probe_path(joined(&dot_git, "/rebase-merge/end"));
        let apply_dir = probe_path(joined(&dot_git, "/rebase-apply"));
        let next = probe_path(joined(&dot_git, "/rebase-apply/next"));
        let last = probe_path(joined(&dot_git, "/rebase-apply/last"));
        rebase_progress(&merge_dir, &msgnum, &end, &apply_dir, &next, &last)
    } else {
        None
    };
    Some(Repo { root, branch, operation: operation_of(&raw, progress) })
}

/// Executable counterpart of `raw_is_rebase`.
fn raw_is_rebase_exec(raw: &crate::repo::RawState) -> (r: bool)
    ensures
        r == raw_is_rebase(*raw),
{
    matches!(
        raw,
        crate::repo::RawState::Rebase
        | crate::repo::RawState::RebaseInteractive
        | crate::repo::RawState::RebaseMerge
    )
}

/// `base` and `tail` concatenated.
fn joined(base: &String, tail: &str) -> (r: String)
    ensures
        r@ == base@ + tail@,
{
    let mut out = base.clone();
    out.append(tail);
    out
}

/// The string without its trailing `/` characters, one kept when the whole
/// string is made of them.
pub open spec fn strip_trail(s: Seq<char>) -> Seq<char>
    decreases s.len(),
{
    if s.len() > 1 && s.last() == '/' {
        strip_trail(s.drop_last())
    } else {
        s
    }
}

/// Executable counterpart of `strip_trail`.
fn strip_trailing_slashes(s: String) -> (r: String)
    ensures
        r@ == strip_trail(s@),
{
    let v = crate::strutil::chars_of(s.as_str());
    let mut hi: usize = v.len();
    proof {
        assert(v@.take(v@.len() as int) =~= v@);
    }
    while hi > 1 && v[hi - 1] == '/'
        invariant
            hi <= v@.len(),
            v@.len() > 0 ==> hi >= 1,
            strip_trail(v@) == strip_trail(v@.take(hi as int)),
        decreases hi,
    {
        proof {
            assert(v@.take(hi as int).last() == v@[hi - 1]);
            assert(v@.take(hi as int).drop_last() =~= v@.take(hi as int - 1));
        }
        hi = hi - 1;
    }
    proof {
        if !(hi > 1 && hi <= v@.len() && v@[hi - 1] == '/') {
            assert(strip_trail(v@.take(hi as int)) =~= v@.take(hi as int));
        }
    }
    let mut out: Vec<char> = Vec::new();
    let mut i: usize = 0;
    while i < hi
        invariant
            i <= hi <= v@.len(),
            out@ == v@.take(i as int),
        decreases hi - i,
    {
        out.push(v[i]);
        i = i + 1;
        proof {
            assert(out@ =~= v@.take(i as int));
        }
    }
    crate::strutil::string_of(&out)
}

} // verus!
