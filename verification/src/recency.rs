//! The recency oracle: when was a given line of a given file last modified?
//!
//! The answer is taken from version-control line history when a repository
//! is available, from file metadata otherwise, and is the epoch as a last
//! resort.  Every answer is memoized by (path, line) for the lifetime of a
//! session, and a memoized key is never invalidated, so ranking never asks
//! the repository twice for the same line.

use vstd::prelude::*;

verus! {

#[verifier::external_type_specification]
#[verifier::external_body]
pub struct ExRepository(git2::Repository);

#[verifier::external_type_specification]
#[verifier::external_body]
pub struct ExBlame<'a>(git2::Blame<'a>);

#[verifier::external_type_specification]
#[verifier::external_body]
pub struct ExOid(git2::Oid);

#[verifier::external_type_specification]
#[verifier::external_body]
pub struct ExCommit<'a>(git2::Commit<'a>);

/// Relies on git2::Repository::open; whether a repository is found depends
/// on what is on disk, so nothing is promised of the outcome.
#[verifier::external_body]
fn open_repository(path: &str) -> Option<git2::Repository> {
    match git2::Repository::open(path) {
        Ok(repo) => Some(repo),
        Err(_) => None,
    }
}

/// Relies on git2::Repository::workdir, converted to an owned string.
#[verifier::external_body]
fn repository_workdir(repo: &git2::Repository) -> Option<String> {
    match repo.workdir() {
        Some(p) => match p.to_str() {
            Some(s) => Some(s.to_owned()),
            None => None,
        },
        None => None,
    }
}

/// Relies on git2::Repository::blame_file.
#[verifier::external_body]
fn blame_file<'r>(repo: &'r git2::Repository, rel_path: &str) -> Option<git2::Blame<'r>> {
    match repo.blame_file(std::path::Path::new(rel_path), None) {
        Ok(blame) => Some(blame),
        Err(_) => None,
    }
}

/// Relies on git2::Blame::get_line and git2::BlameHunk::final_commit_id:
/// the change that last touched the given line, if the blame covers it.
#[verifier::external_body]
fn blame_line_commit<'a>(blame: &git2::Blame<'a>, line: usize) -> Option<git2::Oid> {
    match blame.get_line(line) {
        Some(hunk) => Some(hunk.final_commit_id()),
        None => None,
    }
}

/// Relies on git2::Repository::find_commit.
#[verifier::external_body]
fn find_commit<'r>(repo: &'r git2::Repository, oid: git2::Oid) -> Option<git2::Commit<'r>> {
    match repo.find_commit(oid) {
        Ok(commit) => Some(commit),
        Err(_) => None,
    }
}

/// Relies on git2::Commit::time and git2::Time::seconds: the recorded commit
/// time in seconds since the epoch, negative for times before it.
#[verifier::external_body]
fn commit_time_seconds(commit: &git2::Commit<'_>) -> i64 {
    commit.time().seconds()
}

/// Relies on std::path::Path::metadata, std::fs metadata's modified time and
/// std::time::SystemTime::duration_since, reduced to whole seconds since the
/// epoch; the outcome depends on what is on disk.
#[verifier::external_body]
fn path_modified_seconds(path: &str) -> Option<i64> {
    let meta = match std::path::Path::new(path).metadata() {
        Ok(m) => m,
        Err(_) => return None,
    };
    let modified = match meta.modified() {
        Ok(t) => t,
        Err(_) => return None,
    };
    match modified.duration_since(std::time::SystemTime::UNIX_EPOCH) {
        Ok(d) => Some(d.as_secs() as i64),
        Err(e) => Some(-(e.duration().as_secs() as i64)),
    }
}

/// One memoized answer: the recency key of (path, line).
struct CacheEntry {
    path: String,
    line: usize,
    time: i64,
}

/// The memo key of an entry.
spec fn entry_key(e: CacheEntry) -> (Seq<char>, int) {
    (e.path@, e.line as int)
}

/// The map that a sequence of entries stands for.
spec fn entries_map(s: Seq<CacheEntry>) -> Map<(Seq<char>, int), i64>
    decreases s.len(),
{
    if s.len() == 0 {
        Map::empty()
    } else {
        entries_map(s.drop_last()).insert(entry_key(s.last()), s.last().time)
    }
}

/// No key occurs twice.
spec fn entries_distinct(s: Seq<CacheEntry>) -> bool {
    forall|i: int, j: int|
        0 <= i < j < s.len() ==> entry_key(s[i]) != entry_key(s[j])
}

proof fn lemma_entries_map_domain(s: Seq<CacheEntry>, k: (Seq<char>, int))
    ensures
        entries_map(s).contains_key(k) <==> exists|i: int|
            0 <= i < s.len() && entry_key(s[i]) == k,
    decreases s.len(),
{
    if s.len() > 0 {
        lemma_entries_map_domain(s.drop_last(), k);
        if entries_map(s).contains_key(k) {
            if entry_key(s.last()) == k {
                assert(entry_key(s[s.len() - 1]) == k);
            } else {
                let i = choose|i: int|
                    0 <= i < s.drop_last().len() && entry_key(s.drop_last()[i]) == k;
                assert(entry_key(s[i]) == k);
            }
        }
        if exists|i: int| 0 <= i < s.len() && entry_key(s[i]) == k {
            let i = choose|i: int| 0 <= i < s.len() && entry_key(s[i]) == k;
            if i < s.len() - 1 {
                assert(entry_key(s.drop_last()[i]) == k);
            }
        }
    }
}

proof fn lemma_entries_map_value(s: Seq<CacheEntry>, i: int)
    requires
        entries_distinct(s),
        0 <= i < s.len(),
    ensures
        entries_map(s).contains_key(entry_key(s[i])),
        entries_map(s)[entry_key(s[i])] == s[i].time,
    decreases s.len(),
{
    if i == s.len() - 1 {
    } else {
        assert(s.drop_last()[i] == s[i]);
        lemma_entries_map_value(s.drop_last(), i);
        assert(entry_key(s.last()) != entry_key(s[i]));
    }
}

/// The recency oracle: a read-only handle to the repository of the working
/// directory, if one was found, and the memo table of answered keys.
pub struct RecencyOracle {
    repo: Option<git2::Repository>,
    entries: Vec<CacheEntry>,
}

impl RecencyOracle {
    /// All keys answered so far, with their times.
    pub closed spec fn cache(self) -> Map<(Seq<char>, int), i64> {
        entries_map(self.entries@)
    }

    /// Each key is memoized at most once.
    pub closed spec fn wf(self) -> bool {
        entries_distinct(self.entries@)
    }

    /// Opens the working directory's repository once per run; lookups fall
    /// back to file metadata when none was found.
    pub fn new() -> (o: RecencyOracle)
        ensures
            o.cache() == Map::<(Seq<char>, int), i64>::empty(),
            o.wf(),
    {
        RecencyOracle { repo: open_repository("."), entries: Vec::new() }
    }

    /// Forgets every memoized key, keeping the repository handle.
    pub fn clear(&mut self)
        ensures
            final(self).cache() == Map::<(Seq<char>, int), i64>::empty(),
            final(self).wf(),
    {
        self.entries.clear();
    }

    /// The memoized time for (path, line), if this key was answered before.
    pub fn lookup(&self, path: &String, line: usize) -> (r: Option<i64>)
        requires
            self.wf(),
        ensures
            match r {
                Some(t) => self.cache().contains_key((path@, line as int)) && self.cache()[
                    (path@, line as int)
                ] == t,
                None => !self.cache().contains_key((path@, line as int)),
            },
    {
        let ghost k = (path@, line as int);
        let mut i: usize = 0;
        while i < self.entries.len()
            invariant
                i <= self.entries@.len(),
                self.wf(),
                forall|j: int| 0 <= j < i ==> entry_key(self.entries@[j]) != k,
                k == (path@, line as int),
            decreases self.entries@.len() - i,
        {
            let e = &self.entries[i];
            if e.line == line && e.path == *path {
                proof {
                    assert(entry_key(self.entries@[i as int]) == k);
                    lemma_entries_map_value(self.entries@, i as int);
                }
                return Some(e.time);
            }
            i += 1;
        }
        proof {
            lemma_entries_map_domain(self.entries@, k);
        }
        None
    }

    /// Memoizes a time for (path, line).  A key already answered keeps its
    /// first answer: within a session a line once ranked keeps its rank key.
    pub fn record(&mut self, path: &String, line: usize, time: i64)
        requires
            old(self).wf(),
        ensures
            final(self).wf(),
            old(self).cache().contains_key((path@, line as int)) ==> *final(self) == *old(self),
            !old(self).cache().contains_key((path@, line as int)) ==> final(self).cache() == old(
                self,
            ).cache().insert((path@, line as int), time),
    {
        let ghost k = (path@, line as int);
        match self.lookup(path, line) {
            Some(_) => {},
            None => {
                proof {
                    lemma_entries_map_domain(self.entries@, k);
                }
                let entry = CacheEntry { path: path.clone(), line, time };
                self.entries.push(entry);
                proof {
                    assert(self.entries@.drop_last() =~= old(self).entries@);
                    assert forall|i: int, j: int| 0 <= i < j < self.entries@.len() implies entry_key(
                        self.entries@[i],
                    ) != entry_key(self.entries@[j]) by {
                        if j == self.entries@.len() - 1 {
                            assert(!(exists|i2: int|
                                0 <= i2 < old(self).entries@.len() && entry_key(
                                    old(self).entries@[i2],
                                ) == k));
                            assert(entry_key(self.entries@[i]) != k);
                        }
                    }
                }
            },
        }
    }

    /// The probe behind the memo table: version-control line history first,
    /// file metadata second, the epoch as the last resort.
    fn probe(&self, path: &String, line: usize) -> i64 {
        let from_git = match &self.repo {
            Some(repo) => Self::git_line_time(repo, path, line),
            None => None,
        };
        match from_git {
            Some(t) => t,
            None => match path_modified_seconds(path.as_str()) {
                Some(t) => t,
                None => 0,
            },
        }
    }

    /// The version-control step: resolve the path relative to the work tree,
    /// blame the file, find the change covering the line, take its time.
    fn git_line_time(repo: &git2::Repository, path: &String, line: usize) -> Option<i64> {
        proof {
            reveal_strlit("/");
        }
        let workdir = match repository_workdir(repo) {
            Some(w) => w,
            None => {
                return None;
            },
        };
        let rel: String = if crate::strings::str_starts_with(path.as_str(), "/") {
            if crate::strings::str_starts_with(path.as_str(), workdir.as_str()) {
                let rest = crate::strings::str_suffix(path.as_str(), workdir.unicode_len());
                if crate::strings::str_starts_with(rest.as_str(), "/") {
                    crate::strings::str_suffix(rest.as_str(), 1)
                } else {
                    rest
                }
            } else {
                return None;
            }
        } else {
            path.clone()
        };
        let blame = match blame_file(repo, rel.as_str()) {
            Some(b) => b,
            None => {
                return None;
            },
        };
        let line_idx = if line >= 1 {
            line - 1
        } else {
            0
        };
        let oid = match blame_line_commit(&blame, line_idx) {
            Some(o) => o,
            None => {
                return None;
            },
        };
        let commit = match find_commit(repo, oid) {
            Some(c) => c,
            None => {
                return None;
            },
        };
        Some(commit_time_seconds(&commit))
    }

    /// The oracle's contract: always returns a usable time.  A key answered
    /// before is returned unchanged and the oracle is left untouched; a new
    /// key is probed once and memoized.
    pub fn modification_time(&mut self, path: &String, line: usize) -> (t: i64)
        requires
            old(self).wf(),
        ensures
            final(self).wf(),
            old(self).cache().contains_key((path@, line as int)) ==> t == old(self).cache()[
                (path@, line as int)
            ] && *final(self) == *old(self),
            !old(self).cache().contains_key((path@, line as int)) ==> final(self).cache() == old(
                self,
            ).cache().insert((path@, line as int), t),
            final(self).cache().contains_key((path@, line as int)),
            final(self).cache()[(path@, line as int)] == t,
            old(self).cache().submap_of(final(self).cache()),
    {
        match self.lookup(path, line) {
            Some(t) => t,
            None => {
                let t = self.probe(path, line);
                self.record(path, line, t);
                t
            },
        }
    }
}

} // verus!
