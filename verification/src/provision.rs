//! Provisioning a workspace, one step at a time.
//!
//! Creating directories and files is the caller's business; deciding what to
//! create next, when to stop and what comes out is decided here. A driver
//! asks the current state for its [`Action`], performs it, and reports how a
//! creation went with [`Provisioning::advance`].

use vstd::prelude::*;
use crate::budget::{Budget, BudgetView};
use crate::error::{IoError, IoErrorKind};
use crate::layout::Artifact;

verus! {

/// How far the provisioning of a workspace has come.
#[derive(Debug, Clone, Copy, PartialEq, Eq, Structural)]
pub enum Provisioning {
    /// Every artifact before this one has been created; this one is next.
    Creating(Artifact),
    /// Every artifact has been created.
    Ready,
    /// Creating an artifact failed. Nothing is created after a failure, and
    /// nothing that was created before it is removed.
    Failed(IoError),
}

/// What the driver of a provisioning has to do next.
#[derive(Debug)]
pub enum Action {
    /// Create this artifact, failing if something exists at its path, and
    /// report the outcome.
    Create(Artifact),
    /// The workspace is provisioned: here is its budget.
    Finish(Budget),
    /// Give up with this error.
    Abort(IoError),
}

/// What an action is, as a mathematical value.
pub ghost enum ActionView {
    Create(Artifact),
    Finish(BudgetView),
    Abort(IoError),
}

impl View for Action {
    type V = ActionView;

    open spec fn view(&self) -> ActionView {
        match self {
            Action::Create(artifact) => ActionView::Create(*artifact),
            Action::Finish(budget) => ActionView::Finish(budget@),
            Action::Abort(error) => ActionView::Abort(*error),
        }
    }
}

impl Provisioning {
    /// The state before anything has been created.
    pub open spec fn spec_start() -> Provisioning {
        Provisioning::Creating(Artifact::spec_first())
    }

    /// The action that a state calls for: the next creation, the empty
    /// budget once all is created, or the error of the failed creation.
    pub open spec fn spec_action(&self) -> ActionView {
        match self {
            Provisioning::Creating(artifact) => ActionView::Create(*artifact),
            Provisioning::Ready => ActionView::Finish(BudgetView::empty()),
            Provisioning::Failed(error) => ActionView::Abort(*error),
        }
    }

    /// The state that follows when the pending creation went as `outcome`
    /// says. A success moves on to the next artifact, or to `Ready` after
    /// the last one; a failure is final. A state with no pending creation
    /// stays as it is.
    pub open spec fn spec_advance(&self, outcome: Result<(), IoErrorKind>) -> Provisioning {
        match self {
            Provisioning::Creating(artifact) => match outcome {
                Ok(_) => match artifact.spec_successor() {
                    Some(next) => Provisioning::Creating(next),
                    None => Provisioning::Ready,
                },
                Err(kind) => Provisioning::Failed(IoError { artifact: *artifact, kind }),
            },
            _ => *self,
        }
    }

    /// The number of creations that are still to come, this one included.
    pub open spec fn spec_remaining(&self) -> nat {
        match self {
            Provisioning::Creating(Artifact::AccountsDir) => 3,
            Provisioning::Creating(Artifact::EnvelopesDir) => 2,
            Provisioning::Creating(Artifact::ConfigFile) => 1,
            _ => 0,
        }
    }

    /// The state before anything has been created.
    #[verifier::when_used_as_spec(spec_start)]
    pub fn start() -> (state: Provisioning)
        ensures
            state == Provisioning::spec_start(),
    {
        Provisioning::Creating(Artifact::first())
    }

    /// What the driver has to do in this state.
    pub fn action(&self) -> (action: Action)
        ensures
            action@ == self.spec_action(),
    {
        match self {
            Provisioning::Creating(artifact) => Action::Create(*artifact),
            Provisioning::Ready => Action::Finish(Budget::empty()),
            Provisioning::Failed(error) => Action::Abort(*error),
        }
    }

    /// Takes note of how the pending creation went.
    pub fn advance(self, outcome: Result<(), IoErrorKind>) -> (next: Provisioning)
        ensures
            next == self.spec_advance(outcome),
    {
        match self {
            Provisioning::Creating(artifact) => match outcome {
                Ok(_) => match artifact.successor() {
                    Some(following) => Provisioning::Creating(following),
                    None => Provisioning::Ready,
                },
                Err(kind) => Provisioning::Failed(IoError { artifact, kind }),
            },
            Provisioning::Ready => Provisioning::Ready,
            Provisioning::Failed(error) => Provisioning::Failed(error),
        }
    }
}

/// Every report of a creation brings the provisioning closer to its end: a
/// driver that keeps performing the action makes at most three creations.
pub proof fn lemma_advance_decreases(state: Provisioning, outcome: Result<(), IoErrorKind>)
    requires
        state is Creating,
    ensures
        state.spec_advance(outcome).spec_remaining() < state.spec_remaining(),
{
}

} // verus!
