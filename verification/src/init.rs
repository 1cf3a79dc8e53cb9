//! Initializing a budget: provisioning its workspace and handing out the
//! empty budget.
//!
//! A workspace is initialized once. The accounts directory is created
//! first, then the envelopes directory, then the configuration file; the
//! first creation that fails ends the run, and nothing created before it is
//! taken back.

use vstd::prelude::*;
use crate::budget::{Budget, BudgetView};
use crate::error::{IoError, IoErrorKind};
use crate::layout::{lemma_paths_distinct, Artifact, EntryKind};
use crate::provision::{Action, Provisioning};
use crate::workspace::Workspace;

verus! {

/// What a workspace holds, as a mathematical value: the kind of whatever
/// exists at each path that is taken.
pub type WorkspaceView = Map<Seq<char>, EntryKind>;

/// Whether something exists in `workspace` at the path of `artifact`.
pub open spec fn occupied(workspace: WorkspaceView, artifact: Artifact) -> bool {
    workspace.contains_key(artifact.spec_path())
}

/// The workspace with `artifact` in place at its path.
pub open spec fn with_artifact(workspace: WorkspaceView, artifact: Artifact) -> WorkspaceView {
    workspace.insert(artifact.spec_path(), artifact.spec_kind())
}

/// The first artifact, in the order of creation, whose path is taken in
/// `workspace`; `None` where all three paths are free.
pub open spec fn first_obstacle(workspace: WorkspaceView) -> Option<Artifact> {
    if occupied(workspace, Artifact::AccountsDir) {
        Some(Artifact::AccountsDir)
    } else if occupied(workspace, Artifact::EnvelopesDir) {
        Some(Artifact::EnvelopesDir)
    } else if occupied(workspace, Artifact::ConfigFile) {
        Some(Artifact::ConfigFile)
    } else {
        None
    }
}

/// What initializing a budget in `workspace` returns: the empty budget
/// where nothing is in the way, and otherwise the error of the first
/// artifact that already exists.
pub open spec fn init_outcome(workspace: WorkspaceView) -> Result<BudgetView, IoError> {
    match first_obstacle(workspace) {
        None => Ok(BudgetView::empty()),
        Some(artifact) => Err(IoError { artifact, kind: IoErrorKind::AlreadyExists }),
    }
}

/// What initializing a budget in `workspace` leaves behind: the workspace
/// with every artifact added that comes before the first obstacle, or with
/// all three where there is none. What was there before stays.
pub open spec fn workspace_after_init(workspace: WorkspaceView) -> WorkspaceView {
    let one = with_artifact(workspace, Artifact::AccountsDir);
    let two = with_artifact(one, Artifact::EnvelopesDir);
    let three = with_artifact(two, Artifact::ConfigFile);
    match first_obstacle(workspace) {
        Some(Artifact::AccountsDir) => workspace,
        Some(Artifact::EnvelopesDir) => one,
        Some(Artifact::ConfigFile) => two,
        None => three,
    }
}

/// The state that a provisioning ends in when it is driven from `state`
/// against `workspace`, together with the workspace that it leaves behind.
pub open spec fn driven(workspace: WorkspaceView, state: Provisioning) -> (
    WorkspaceView,
    Provisioning,
)
    decreases state.spec_remaining(),
{
    match state {
        Provisioning::Creating(artifact) => {
            if occupied(workspace, artifact) {
                driven(workspace, state.spec_advance(Err(IoErrorKind::AlreadyExists)))
            } else {
                driven(with_artifact(workspace, artifact), state.spec_advance(Ok(())))
            }
        },
        _ => (workspace, state),
    }
}

/// Driving a provisioning from its start ends as `init_outcome` and
/// `workspace_after_init` say.
pub proof fn lemma_driven_from_start(workspace: WorkspaceView)
    ensures
        driven(workspace, Provisioning::spec_start()).0 == workspace_after_init(workspace),
        match init_outcome(workspace) {
            Ok(budget) => driven(workspace, Provisioning::spec_start()).1 == Provisioning::Ready,
            Err(error) => driven(workspace, Provisioning::spec_start()).1 == Provisioning::Failed(
                error,
            ),
        },
{
    reveal_with_fuel(driven, 4);
    lemma_paths_distinct(Artifact::AccountsDir, Artifact::EnvelopesDir);
    lemma_paths_distinct(Artifact::AccountsDir, Artifact::ConfigFile);
    lemma_paths_distinct(Artifact::EnvelopesDir, Artifact::ConfigFile);
}

impl Budget {
    /// Initializes a budget in `workspace`: creates the accounts directory,
    /// the envelopes directory and the configuration file, in this order,
    /// and returns the empty budget.
    ///
    /// It succeeds exactly where none of the three paths is taken. Where
    /// one is, it fails at the first such path with an "already exists"
    /// error; what it created before stays in the workspace.
    pub fn init(workspace: &mut Workspace) -> (made: Result<Budget, IoError>)
        ensures
            final(workspace)@ == workspace_after_init(old(workspace)@),
            match made {
                Ok(budget) => init_outcome(old(workspace)@) == Ok::<BudgetView, IoError>(budget@),
                Err(error) => init_outcome(old(workspace)@) == Err::<BudgetView, IoError>(error),
            },
    {
        let mut state = Provisioning::start();
        proof {
            lemma_driven_from_start(workspace@);
        }
        loop
            invariant
                driven(workspace@, state) == driven(old(workspace)@, Provisioning::spec_start()),
                driven(old(workspace)@, Provisioning::spec_start()).0 == workspace_after_init(
                    old(workspace)@,
                ),
                match init_outcome(old(workspace)@) {
                    Ok(budget) => driven(old(workspace)@, Provisioning::spec_start()).1
                        == Provisioning::Ready,
                    Err(error) => driven(old(workspace)@, Provisioning::spec_start()).1
                        == Provisioning::Failed(error),
                },
            decreases state.spec_remaining(),
        {
            match state.action() {
                Action::Create(artifact) => {
                    let outcome = workspace.create(artifact.path(), artifact.kind());
                    state = state.advance(outcome);
                },
                Action::Finish(budget) => {
                    return Ok(budget);
                },
                Action::Abort(error) => {
                    return Err(error);
                },
            }
        }
    }
}

/// A workspace in which none of the three paths is taken is initialized
/// with success: the budget that comes out holds no account, no envelope and
/// no date of a last allocation, and afterwards the two directories and the
/// configuration file exist, beside whatever the workspace held before.
pub proof fn law_clean_workspace_is_initialized(workspace: WorkspaceView)
    requires
        !occupied(workspace, Artifact::AccountsDir),
        !occupied(workspace, Artifact::EnvelopesDir),
        !occupied(workspace, Artifact::ConfigFile),
    ensures
        init_outcome(workspace) == Ok::<BudgetView, IoError>(BudgetView::empty()),
        BudgetView::empty().accounts.len() == 0,
        BudgetView::empty().envelopes.len() == 0,
        BudgetView::empty().last_allocation is None,
        forall|artifact: Artifact|
            #![trigger artifact.spec_path()]
            {
                &&& workspace_after_init(workspace).contains_key(artifact.spec_path())
                &&& workspace_after_init(workspace)[artifact.spec_path()] == artifact.spec_kind()
            },
        forall|path: Seq<char>| #[trigger]
            workspace.contains_key(path) ==> {
                &&& workspace_after_init(workspace).contains_key(path)
                &&& workspace_after_init(workspace)[path] == workspace[path]
            },
{
    lemma_paths_distinct(Artifact::AccountsDir, Artifact::EnvelopesDir);
    lemma_paths_distinct(Artifact::AccountsDir, Artifact::ConfigFile);
    lemma_paths_distinct(Artifact::EnvelopesDir, Artifact::ConfigFile);
}

/// Where something already exists at the path of the accounts directory,
/// initializing fails with an "already exists" error for that directory and
/// touches nothing: the workspace stays as it was, so the envelopes
/// directory is there afterwards exactly if it was there before.
pub proof fn law_existing_accounts_dir_fails(workspace: WorkspaceView)
    requires
        occupied(workspace, Artifact::AccountsDir),
    ensures
        init_outcome(workspace) == Err::<BudgetView, IoError>(
            IoError { artifact: Artifact::AccountsDir, kind: IoErrorKind::AlreadyExists },
        ),
        workspace_after_init(workspace) == workspace,
        occupied(workspace_after_init(workspace), Artifact::EnvelopesDir) == occupied(
            workspace,
            Artifact::EnvelopesDir,
        ),
{
}

/// Where something already exists at the path of the configuration file,
/// initializing fails with an "already exists" error. Nothing is rolled
/// back: where the configuration file is the first obstacle, the two
/// directories have been created and stay.
pub proof fn law_existing_config_file_fails(workspace: WorkspaceView)
    requires
        occupied(workspace, Artifact::ConfigFile),
    ensures
        init_outcome(workspace) is Err,
        init_outcome(workspace)->Err_0.kind == IoErrorKind::AlreadyExists,
        first_obstacle(workspace) == Some(Artifact::ConfigFile) ==> {
            &&& init_outcome(workspace)->Err_0.artifact == Artifact::ConfigFile
            &&& occupied(workspace_after_init(workspace), Artifact::AccountsDir)
            &&& occupied(workspace_after_init(workspace), Artifact::EnvelopesDir)
        },
{
    lemma_paths_distinct(Artifact::AccountsDir, Artifact::EnvelopesDir);
}

/// Initializing is one-shot. After a workspace has been initialized,
/// initializing it again fails with an "already exists" error for the
/// accounts directory and changes nothing; in particular the second of two
/// initializations of a clean workspace fails. The same holds after an
/// initialization that failed.
pub proof fn law_second_init_fails(workspace: WorkspaceView)
    ensures
        init_outcome(workspace_after_init(workspace)) == Err::<BudgetView, IoError>(
            IoError { artifact: Artifact::AccountsDir, kind: IoErrorKind::AlreadyExists },
        ),
        workspace_after_init(workspace_after_init(workspace)) == workspace_after_init(workspace),
{
    lemma_paths_distinct(Artifact::AccountsDir, Artifact::EnvelopesDir);
    lemma_paths_distinct(Artifact::AccountsDir, Artifact::ConfigFile);
    lemma_paths_distinct(Artifact::EnvelopesDir, Artifact::ConfigFile);
}

/// Initializing either creates everything or reports a failure: it
/// succeeds exactly where none of the three paths is taken, and after a
/// success all three artifacts exist.
pub proof fn law_success_is_complete(workspace: WorkspaceView)
    ensures
        init_outcome(workspace) is Ok <==> {
            &&& !occupied(workspace, Artifact::AccountsDir)
            &&& !occupied(workspace, Artifact::EnvelopesDir)
            &&& !occupied(workspace, Artifact::ConfigFile)
        },
        init_outcome(workspace) is Ok ==> {
            &&& occupied(workspace_after_init(workspace), Artifact::AccountsDir)
            &&& occupied(workspace_after_init(workspace), Artifact::EnvelopesDir)
            &&& occupied(workspace_after_init(workspace), Artifact::ConfigFile)
        },
{
}

} // verus!
