//! A workspace held in memory.
//!
//! It keeps track of what exists directly under the root of a workspace,
//! and creates entries the way a file system creates a directory or opens a
//! new file exclusively: a path that is taken stays as it is, and the
//! creation fails.

use vstd::prelude::*;
use crate::error::IoErrorKind;
use crate::layout::EntryKind;

verus! {

#[derive(Debug)]
struct Entry {
    path: String,
    kind: EntryKind,
}

/// The entries of a workspace as a map from path to kind, built up in the
/// order in which they were created.
spec fn entries_map(entries: Seq<Entry>) -> Map<Seq<char>, EntryKind>
    decreases entries.len(),
{
    if entries.len() == 0 {
        Map::empty()
    } else {
        entries_map(entries.drop_last()).insert(entries.last().path@, entries.last().kind)
    }
}

/// Entries that do not sit at `path` have no say in what the map holds
/// there: where none of the entries from `from` on sits at `path`, the map
/// of all entries agrees at `path` with the map of the entries before `from`.
proof fn lemma_later_entries_elsewhere(entries: Seq<Entry>, from: int, path: Seq<char>)
    requires
        0 <= from <= entries.len(),
        forall|k: int| from <= k < entries.len() ==> entries[k].path@ != path,
    ensures
        entries_map(entries).contains_key(path) == entries_map(entries.take(from)).contains_key(
            path,
        ),
        entries_map(entries).contains_key(path) ==> entries_map(entries)[path] == entries_map(
            entries.take(from),
        )[path],
    decreases entries.len() - from,
{
    if from == entries.len() {
        assert(entries.take(from) == entries);
    } else {
        let front = entries.drop_last();
        lemma_later_entries_elsewhere(front, from, path);
        assert(front.take(from) == entries.take(from));
    }
}

/// A workspace held in memory: the directories and files that exist
/// directly under its root, each under its path.
#[derive(Debug)]
pub struct Workspace {
    entries: Vec<Entry>,
}

impl View for Workspace {
    type V = Map<Seq<char>, EntryKind>;

    closed spec fn view(&self) -> Map<Seq<char>, EntryKind> {
        entries_map(self.entries@)
    }
}

impl Workspace {
    /// The workspace in which nothing exists yet.
    pub fn new() -> (workspace: Workspace)
        ensures
            workspace@ == Map::<Seq<char>, EntryKind>::empty(),
    {
        Workspace { entries: Vec::new() }
    }

    /// What exists at `path`: a directory, a file, or nothing.
    pub fn kind_of(&self, path: &str) -> (found: Option<EntryKind>)
        ensures
            found == (if self@.contains_key(path@) {
                Some(self@[path@])
            } else {
                None
            }),
    {
        let wanted = path.to_owned();
        let mut i: usize = self.entries.len();
        while i > 0
            invariant
                i <= self.entries.len(),
                wanted@ == path@,
                forall|k: int| i <= k < self.entries.len() ==> self.entries[k].path@ != path@,
            decreases i,
        {
            i -= 1;
            if self.entries[i].path == wanted {
                proof {
                    lemma_later_entries_elsewhere(self.entries@, i + 1, path@);
                    assert(self.entries@.take(i + 1).drop_last() == self.entries@.take(i as int));
                }
                return Some(self.entries[i].kind);
            }
        }
        proof {
            lemma_later_entries_elsewhere(self.entries@, 0, path@);
        }
        None
    }

    /// Whether anything exists at `path`.
    pub fn is_taken(&self, path: &str) -> (taken: bool)
        ensures
            taken == self@.contains_key(path@),
    {
        self.kind_of(path).is_some()
    }

    /// Creates a directory or a file at `path`, provided that nothing
    /// exists there. Where something exists, the workspace stays as it is
    /// and the creation fails with `IoErrorKind::AlreadyExists`.
    pub fn create(&mut self, path: &str, kind: EntryKind) -> (outcome: Result<(), IoErrorKind>)
        ensures
            old(self)@.contains_key(path@) ==> {
                &&& outcome == Err::<(), IoErrorKind>(IoErrorKind::AlreadyExists)
                &&& final(self)@ == old(self)@
            },
            !old(self)@.contains_key(path@) ==> {
                &&& outcome == Ok::<(), IoErrorKind>(())
                &&& final(self)@ == old(self)@.insert(path@, kind)
            },
    {
        if self.is_taken(path) {
            return Err(IoErrorKind::AlreadyExists);
        }
        let ghost before = self.entries@;
        let entry = Entry { path: path.to_owned(), kind };
        self.entries.push(entry);
        proof {
            assert(self.entries@.drop_last() == before);
        }
        Ok(())
    }
}

} // verus!
