//! The on-disk layout of a budget workspace: which artifacts it consists of,
//! where they live and in which order they are created.

use vstd::prelude::*;

verus! {

/// What a path in the workspace holds.
#[derive(Debug, Clone, Copy, PartialEq, Eq, Structural)]
pub enum EntryKind {
    Directory,
    File,
}

/// One of the things that make up a provisioned workspace.
#[derive(Debug, Clone, Copy, PartialEq, Eq, Structural)]
pub enum Artifact {
    /// The directory that will hold the account records.
    AccountsDir,
    /// The directory that will hold the envelope records.
    EnvelopesDir,
    /// The configuration file of the budget.
    ConfigFile,
}

impl Artifact {
    /// The path of the artifact, relative to the workspace root.
    pub open spec fn spec_path(&self) -> Seq<char> {
        match self {
            Artifact::AccountsDir => "accounts"@,
            Artifact::EnvelopesDir => "envelopes"@,
            Artifact::ConfigFile => "envelope_budget.conf"@,
        }
    }

    /// Whether the artifact is a directory or a file.
    pub open spec fn spec_kind(&self) -> EntryKind {
        match self {
            Artifact::AccountsDir => EntryKind::Directory,
            Artifact::EnvelopesDir => EntryKind::Directory,
            Artifact::ConfigFile => EntryKind::File,
        }
    }

    /// The artifact that is created after this one, if there is one. The
    /// order is: accounts directory, envelopes directory, configuration file.
    pub open spec fn spec_successor(&self) -> Option<Artifact> {
        match self {
            Artifact::AccountsDir => Some(Artifact::EnvelopesDir),
            Artifact::EnvelopesDir => Some(Artifact::ConfigFile),
            Artifact::ConfigFile => None,
        }
    }

    /// The artifact that is created first.
    pub open spec fn spec_first() -> Artifact {
        Artifact::AccountsDir
    }

    /// The artifact that is created first.
    #[verifier::when_used_as_spec(spec_first)]
    pub fn first() -> (artifact: Artifact)
        ensures
            artifact == Artifact::spec_first(),
    {
        Artifact::AccountsDir
    }

    /// The path of the artifact, relative to the workspace root.
    pub fn path(&self) -> (path: &'static str)
        ensures
            path@ == self.spec_path(),
    {
        match self {
            Artifact::AccountsDir => "accounts",
            Artifact::EnvelopesDir => "envelopes",
            Artifact::ConfigFile => "envelope_budget.conf",
        }
    }

    /// Whether the artifact is a directory or a file.
    #[verifier::when_used_as_spec(spec_kind)]
    pub fn kind(&self) -> (kind: EntryKind)
        ensures
            kind == self.spec_kind(),
    {
        match self {
            Artifact::AccountsDir => EntryKind::Directory,
            Artifact::EnvelopesDir => EntryKind::Directory,
            Artifact::ConfigFile => EntryKind::File,
        }
    }

    /// The artifact that is created after this one, if there is one.
    #[verifier::when_used_as_spec(spec_successor)]
    pub fn successor(&self) -> (next: Option<Artifact>)
        ensures
            next == self.spec_successor(),
    {
        match self {
            Artifact::AccountsDir => Some(Artifact::EnvelopesDir),
            Artifact::EnvelopesDir => Some(Artifact::ConfigFile),
            Artifact::ConfigFile => None,
        }
    }
}

/// The three paths of a workspace differ from one another, so that creating
/// one artifact never collides with another.
pub proof fn lemma_paths_distinct(a: Artifact, b: Artifact)
    ensures
        a.spec_path() == b.spec_path() <==> a == b,
{
    reveal_strlit("accounts");
    reveal_strlit("envelopes");
    reveal_strlit("envelope_budget.conf");
    assert("accounts"@.len() == 8);
    assert("envelopes"@.len() == 9);
    assert("envelope_budget.conf"@.len() == 20);
}

} // verus!
