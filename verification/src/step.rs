//! The units of work of a provisioning run: what is to be done, in which
//! stage, and what a failure of it means.

use vstd::prelude::*;
use crate::command::{join, text, Command, CommandView};

verus! {

/// The stages of a provisioning run, in the order in which they execute.
#[derive(Clone, Copy, Debug, PartialEq, Eq, Structural)]
pub enum Stage {
    /// Download the root-filesystem archive unless it is there.
    Fetch,
    /// Confirm that the archive is there.
    Verify,
    /// Free, empty and recreate the staging path.
    PrepareStaging,
    /// Zero the head of the device and delete its partitions.
    Wipe,
    /// Write the partition table and the one partition.
    Partition,
    /// Create the filesystem.
    Format,
    /// Mount the partition at the staging path.
    Mount,
    /// Extract the archive and confirm the boot-loader files.
    Extract,
    /// Flush buffers to stable storage.
    Flush,
    /// Raw-write the first boot-loader stage.
    WriteStage1,
    /// Raw-write the second boot-loader stage.
    WriteStage2,
    /// Copy the archive and the companion script onto the target.
    CopyExtras,
    /// Unmount the staging path.
    Finish,
}

impl Stage {
    /// The place of the stage in the run, from 0.
    pub open spec fn position(self) -> nat {
        match self {
            Stage::Fetch => 0,
            Stage::Verify => 1,
            Stage::PrepareStaging => 2,
            Stage::Wipe => 3,
            Stage::Partition => 4,
            Stage::Format => 5,
            Stage::Mount => 6,
            Stage::Extract => 7,
            Stage::Flush => 8,
            Stage::WriteStage1 => 9,
            Stage::WriteStage2 => 10,
            Stage::CopyExtras => 11,
            Stage::Finish => 12,
        }
    }

    /// Whether the stage changes the target device or the filesystem on it.
    pub open spec fn is_destructive(self) -> bool {
        Stage::Wipe.position() <= self.position() <= Stage::CopyExtras.position()
    }

    /// The place of the stage in the run, from 0.
    pub fn ordinal(self) -> (r: u8)
        ensures
            r == self.position(),
    {
        match self {
            Stage::Fetch => 0,
            Stage::Verify => 1,
            Stage::PrepareStaging => 2,
            Stage::Wipe => 3,
            Stage::Partition => 4,
            Stage::Format => 5,
            Stage::Mount => 6,
            Stage::Extract => 7,
            Stage::Flush => 8,
            Stage::WriteStage1 => 9,
            Stage::WriteStage2 => 10,
            Stage::CopyExtras => 11,
            Stage::Finish => 12,
        }
    }
}

/// One thing for the host to do. Each either succeeds or fails.
#[derive(Clone, Debug, PartialEq, Eq)]
pub enum Action {
    /// Run an external utility; it succeeds when the utility reports success.
    Run(Command),
    /// Look whether a path exists; it succeeds when the path is there.
    Probe(String),
    /// Remove a directory and all below it.
    RemoveTree(String),
    /// Create one directory; it fails when the path is taken.
    MakeDir(String),
    /// Create a directory and its missing parents; a directory that is
    /// there already is no failure.
    MakeDirs(String),
    /// Copy one file.
    Copy { from: String, to: String },
}

/// The mathematical content of an [`Action`].
pub enum ActionView {
    Run(CommandView),
    Probe(Seq<char>),
    RemoveTree(Seq<char>),
    MakeDir(Seq<char>),
    MakeDirs(Seq<char>),
    Copy { from: Seq<char>, to: Seq<char> },
}

impl View for Action {
    type V = ActionView;

    open spec fn view(&self) -> ActionView {
        match self {
            Action::Run(command) => ActionView::Run(command@),
            Action::Probe(path) => ActionView::Probe(path@),
            Action::RemoveTree(path) => ActionView::RemoveTree(path@),
            Action::MakeDir(path) => ActionView::MakeDir(path@),
            Action::MakeDirs(path) => ActionView::MakeDirs(path@),
            Action::Copy { from, to } => ActionView::Copy { from: from@, to: to@ },
        }
    }
}

/// What the outcome of a step means for the run.
#[derive(Clone, Copy, Debug, PartialEq, Eq, Structural)]
pub enum Policy {
    /// A failure ends the run.
    Fatal,
    /// A failure is ignored.
    BestEffort,
    /// A success makes the next step unnecessary: it is skipped. A failure
    /// is no fault, the next step runs.
    SkipNext,
}

/// Why a run ended early.
#[derive(Clone, Debug, PartialEq, Eq)]
pub enum Failure {
    /// A file that has to be there is not; holds its path.
    MissingFile(String),
    /// An action did not succeed; holds what it was for.
    ActionFailed(String),
}

/// The mathematical content of a [`Failure`].
pub enum FailureView {
    MissingFile(Seq<char>),
    ActionFailed(Seq<char>),
}

impl View for Failure {
    type V = FailureView;

    open spec fn view(&self) -> FailureView {
        match self {
            Failure::MissingFile(path) => FailureView::MissingFile(path@),
            Failure::ActionFailed(purpose) => FailureView::ActionFailed(purpose@),
        }
    }
}

impl FailureView {
    /// The message shown to the operator.
    pub open spec fn message(self) -> Seq<char> {
        match self {
            FailureView::MissingFile(path) => "File does not exist: "@ + path,
            FailureView::ActionFailed(purpose) => "Failed to "@ + purpose,
        }
    }
}

impl Failure {
    /// The message shown to the operator.
    pub fn message(&self) -> (r: String)
        ensures
            r@ == self@.message(),
    {
        match self {
            Failure::MissingFile(path) => join("File does not exist: ", path.as_str()),
            Failure::ActionFailed(purpose) => join("Failed to ", purpose.as_str()),
        }
    }

    /// A copy of this failure.
    pub fn duplicate(&self) -> (r: Failure)
        ensures
            r@ == self@,
    {
        match self {
            Failure::MissingFile(path) => Failure::MissingFile(path.clone()),
            Failure::ActionFailed(purpose) => Failure::ActionFailed(purpose.clone()),
        }
    }
}

/// One step of a run.
#[derive(Clone, Debug, PartialEq, Eq)]
pub struct Step {
    /// The stage that the step belongs to.
    pub stage: Stage,
    /// What is to be done.
    pub action: Action,
    /// What its outcome means.
    pub policy: Policy,
    /// What it is for, in words that finish the sentence "Failed to ...".
    pub purpose: String,
}

/// The mathematical content of a [`Step`].
pub struct StepView {
    pub stage: Stage,
    pub action: ActionView,
    pub policy: Policy,
    pub purpose: Seq<char>,
}

impl View for Step {
    type V = StepView;

    open spec fn view(&self) -> StepView {
        StepView {
            stage: self.stage,
            action: self.action@,
            policy: self.policy,
            purpose: self.purpose@,
        }
    }
}

impl StepView {
    /// What a failure of this step is reported as: a probe that fails
    /// reports the missing file, any other action reports its purpose.
    pub open spec fn failure(self) -> FailureView {
        match self.action {
            ActionView::Probe(path) => FailureView::MissingFile(path),
            _ => FailureView::ActionFailed(self.purpose),
        }
    }

    /// A step that runs `command`.
    pub open spec fn run(
        stage: Stage,
        command: CommandView,
        policy: Policy,
        purpose: Seq<char>,
    ) -> StepView {
        StepView { stage, action: ActionView::Run(command), policy, purpose }
    }

    /// A step that requires `path` to exist.
    pub open spec fn require(stage: Stage, path: Seq<char>, purpose: Seq<char>) -> StepView {
        StepView { stage, action: ActionView::Probe(path), policy: Policy::Fatal, purpose }
    }
}

/// The contents of a list of steps.
pub open spec fn step_views(v: Seq<Step>) -> Seq<StepView> {
    Seq::new(v.len(), |i: int| v[i]@)
}

impl Step {
    /// A step that runs `command`.
    pub fn run(stage: Stage, command: Command, policy: Policy, purpose: &str) -> (s: Step)
        ensures
            s@ == StepView::run(stage, command@, policy, purpose@),
    {
        Step { stage, action: Action::Run(command), policy, purpose: text(purpose) }
    }

    /// A step that requires `path` to exist.
    pub fn require(stage: Stage, path: &str, purpose: &str) -> (s: Step)
        ensures
            s@ == StepView::require(stage, path@, purpose@),
    {
        Step {
            stage,
            action: Action::Probe(text(path)),
            policy: Policy::Fatal,
            purpose: text(purpose),
        }
    }
}

/// Decides on a file that has to be there: nothing to report when it
/// exists, the missing file when it does not.
pub fn ensure_file_exists(file_path: &str, exists: bool) -> (r: Result<(), Failure>)
    ensures
        exists ==> r.is_ok(),
        !exists ==> r.is_err() && r.unwrap_err()@ == FailureView::MissingFile(file_path@),
{
    if exists {
        Ok(())
    } else {
        Err(Failure::MissingFile(text(file_path)))
    }
}

} // verus!
