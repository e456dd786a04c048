//! The provisioning run as a state machine: it names the step to perform,
//! takes the step's outcome and decides how the run goes on.

use vstd::prelude::*;
use crate::job::{JobView, ProvisioningJob};
use crate::gate::staging_steps;
use crate::plan::{
    lemma_extract_steps, lemma_gate_steps, lemma_stage_layout, must_succeed, plan, plan_of,
    release_of, release_step, stage_steps,
};
use crate::step::{
    ensure_file_exists, step_views, Action, ActionView, Failure, FailureView, Policy, Stage, Step,
    StepView,
};

verus! {

/// Where a run stands.
#[derive(Clone, Copy, Debug, PartialEq, Eq, Structural)]
pub enum Phase {
    /// A step of the plan is to be performed.
    Running,
    /// A step failed fatally; the staging path is to be released.
    Unwinding,
    /// Every step of the plan is done.
    Completed,
    /// The run ended early.
    Aborted,
}

/// Why and where a run ended early.
#[derive(Clone, Debug, PartialEq, Eq)]
pub struct Abort {
    /// The stage of the step that failed.
    pub stage: Stage,
    /// What failed.
    pub failure: Failure,
}

/// The mathematical content of an [`Abort`].
pub struct AbortView {
    pub stage: Stage,
    pub failure: FailureView,
}

impl View for Abort {
    type V = AbortView;

    open spec fn view(&self) -> AbortView {
        AbortView { stage: self.stage, failure: self.failure@ }
    }
}

/// The content of an optional abort.
pub open spec fn optional_abort(a: Option<Abort>) -> Option<AbortView> {
    match a {
        Some(abort) => Some(abort@),
        None => None,
    }
}

/// A provisioning run.
#[derive(Debug)]
pub struct Pipeline {
    steps: Vec<Step>,
    release: Step,
    pc: usize,
    phase: Phase,
    failure: Option<Abort>,
}

/// The mathematical content of a [`Pipeline`].
pub struct PipelineView {
    /// The plan.
    pub steps: Seq<StepView>,
    /// The step that releases the staging path when the run ends early.
    pub release: StepView,
    /// The place in the plan of the step to perform.
    pub pc: nat,
    /// Where the run stands.
    pub phase: Phase,
    /// Why the run ended early, once it has.
    pub failure: Option<AbortView>,
}

impl PipelineView {
    /// While the run is running there is a step to perform, and a run that
    /// ends early knows why.
    pub open spec fn wf(self) -> bool {
        &&& self.phase == Phase::Running ==> self.pc < self.steps.len()
        &&& self.phase == Phase::Unwinding || self.phase == Phase::Aborted
            ==> self.failure.is_some()
    }

    /// The run of `job` before its first step.
    pub open spec fn start(job: JobView) -> PipelineView {
        PipelineView {
            steps: plan(job),
            release: release_step(job),
            pc: 0,
            phase: Phase::Running,
            failure: None,
        }
    }

    /// The step to perform now, if the run has not ended.
    pub open spec fn current(self) -> Option<StepView> {
        match self.phase {
            Phase::Running => Some(self.steps[self.pc as int]),
            Phase::Unwinding => Some(self.release),
            Phase::Completed => None,
            Phase::Aborted => None,
        }
    }

    /// The run moved on by `stride` steps: running when that is a step of
    /// the plan, completed when the plan is used up.
    pub open spec fn advanced(self, stride: nat) -> PipelineView {
        if self.pc + stride < self.steps.len() {
            PipelineView { pc: self.pc + stride, ..self }
        } else {
            PipelineView { pc: self.steps.len(), phase: Phase::Completed, ..self }
        }
    }

    /// The run after the current step ended with `success`.
    ///
    /// A step that succeeds lets the run move on, past the next step too
    /// where its policy says so. A step that fails ends the run when it is
    /// fatal, and is passed over otherwise. A run that ends early releases
    /// the staging path, whatever comes of that, and is then aborted. A run
    /// that has ended stays as it is.
    pub open spec fn after(self, success: bool) -> PipelineView {
        match self.phase {
            Phase::Running => {
                let step = self.steps[self.pc as int];
                if success {
                    if step.policy == Policy::SkipNext {
                        self.advanced(2)
                    } else {
                        self.advanced(1)
                    }
                } else if step.policy == Policy::Fatal {
                    PipelineView {
                        phase: Phase::Unwinding,
                        failure: Some(AbortView { stage: step.stage, failure: step.failure() }),
                        ..self
                    }
                } else {
                    self.advanced(1)
                }
            },
            Phase::Unwinding => PipelineView { phase: Phase::Aborted, ..self },
            Phase::Completed => self,
            Phase::Aborted => self,
        }
    }

    /// The run after a series of outcomes, each of the step that was
    /// current when it came.
    pub open spec fn after_all(self, outcomes: Seq<bool>) -> PipelineView
        decreases outcomes.len(),
    {
        if outcomes.len() == 0 {
            self
        } else {
            self.after_all(outcomes.drop_last()).after(outcomes.last())
        }
    }
}

impl View for Pipeline {
    type V = PipelineView;

    closed spec fn view(&self) -> PipelineView {
        PipelineView {
            steps: step_views(self.steps@),
            release: self.release@,
            pc: self.pc as nat,
            phase: self.phase,
            failure: optional_abort(self.failure),
        }
    }
}

impl Step {
    /// Judges the outcome of this step: nothing to report on success, and on
    /// failure the missing file for a probe, the purpose for another action.
    pub fn judge(&self, success: bool) -> (r: Result<(), Failure>)
        ensures
            success ==> r.is_ok(),
            !success ==> r.is_err() && r.unwrap_err()@ == self@.failure(),
    {
        match &self.action {
            Action::Probe(path) => ensure_file_exists(path.as_str(), success),
            _ => {
                if success {
                    Ok(())
                } else {
                    Err(Failure::ActionFailed(self.purpose.clone()))
                }
            },
        }
    }
}

impl Pipeline {
    #[verifier::type_invariant]
    spec fn well_formed(self) -> bool {
        &&& self.phase == Phase::Running ==> self.pc < self.steps.len()
        &&& self.phase == Phase::Unwinding || self.phase == Phase::Aborted
            ==> self.failure.is_some()
    }

    /// The run of `job`, before its first step.
    pub fn new(job: &ProvisioningJob) -> (p: Pipeline)
        ensures
            p@ == PipelineView::start(job@),
            p@.wf(),
    {
        let steps = plan_of(job);
        proof {
            lemma_plan_layout(job@);
        }
        Pipeline { steps, release: release_of(job), pc: 0, phase: Phase::Running, failure: None }
    }

    /// Where the run stands.
    pub fn phase(&self) -> (r: Phase)
        ensures
            r == self@.phase,
            self@.wf(),
    {
        proof {
            use_type_invariant(self);
        }
        self.phase
    }

    /// Why the run ended early, once it has.
    pub fn failure(&self) -> (r: Option<&Abort>)
        ensures
            match r {
                Some(abort) => self@.failure == Some(abort@),
                None => self@.failure.is_none(),
            },
    {
        self.failure.as_ref()
    }

    /// The step to perform now, if the run has not ended.
    pub fn current(&self) -> (r: Option<&Step>)
        ensures
            match r {
                Some(step) => self@.current() == Some(step@),
                None => self@.current().is_none(),
            },
    {
        proof {
            use_type_invariant(self);
        }
        match self.phase {
            Phase::Running => Some(&self.steps[self.pc]),
            Phase::Unwinding => Some(&self.release),
            Phase::Completed => None,
            Phase::Aborted => None,
        }
    }

    /// Moves the run on by `stride` steps.
    fn advance(&mut self, stride: usize)
        requires
            old(self).phase == Phase::Running,
            1 <= stride <= 2,
        ensures
            final(self)@ == old(self)@.advanced(stride as nat),
    {
        proof {
            use_type_invariant(&*self);
        }
        let n = self.steps.len();
        if n - self.pc > stride {
            self.pc = self.pc + stride;
        } else {
            self.phase = Phase::Completed;
            self.pc = n;
        }
    }

    /// Takes the outcome of the current step and moves the run on.
    pub fn report(&mut self, success: bool)
        ensures
            final(self)@ == old(self)@.after(success),
            final(self)@.wf(),
    {
        proof {
            use_type_invariant(&*self);
        }
        match self.phase {
            Phase::Running => {
                let policy = self.steps[self.pc].policy;
                let stage = self.steps[self.pc].stage;
                let verdict = self.steps[self.pc].judge(success);
                match verdict {
                    Ok(()) => {
                        match policy {
                            Policy::SkipNext => self.advance(2),
                            _ => self.advance(1),
                        }
                    },
                    Err(failure) => {
                        match policy {
                            Policy::Fatal => {
                                self.failure = Some(Abort { stage, failure });
                                self.phase = Phase::Unwinding;
                            },
                            _ => self.advance(1),
                        }
                    },
                }
            },
            Phase::Unwinding => {
                self.phase = Phase::Aborted;
            },
            Phase::Completed => {},
            Phase::Aborted => {},
        }
        proof {
            use_type_invariant(&*self);
        }
    }
}

/// The stage of the step at place `i` of a plan.
pub open spec fn stage_at(i: int) -> Stage {
    if i < 2 {
        Stage::Fetch
    } else if i < 3 {
        Stage::Verify
    } else if i < 7 {
        Stage::PrepareStaging
    } else if i < 9 {
        Stage::Wipe
    } else if i < 11 {
        Stage::Partition
    } else if i < 12 {
        Stage::Format
    } else if i < 14 {
        Stage::Mount
    } else if i < 17 {
        Stage::Extract
    } else if i < 18 {
        Stage::Flush
    } else if i < 19 {
        Stage::WriteStage1
    } else if i < 20 {
        Stage::WriteStage2
    } else if i < 23 {
        Stage::CopyExtras
    } else {
        Stage::Finish
    }
}

/// The policy of the step at place `i` of a plan.
pub open spec fn policy_at(i: int) -> Policy {
    if i == 0 {
        Policy::SkipNext
    } else if (3 <= i <= 5) || i == 7 || i == 8 || i == 23 {
        Policy::BestEffort
    } else {
        Policy::Fatal
    }
}

/// The steps of every plan, place by place: the stage and the policy of
/// each, and in full the steps that guard the destructive work and the raw
/// writes.
proof fn lemma_plan_steps(job: JobView)
    ensures
        plan(job).len() == 25,
        plan(job)[0].stage == Stage::Fetch && plan(job)[0].policy == Policy::SkipNext,
        plan(job)[1].stage == Stage::Fetch && plan(job)[1].policy == Policy::Fatal,
        plan(job)[2].stage == Stage::Verify && plan(job)[2].policy == Policy::Fatal,
        plan(job)[3].stage == Stage::PrepareStaging && plan(job)[3].policy == Policy::BestEffort,
        plan(job)[4].stage == Stage::PrepareStaging && plan(job)[4].policy == Policy::BestEffort,
        plan(job)[5].stage == Stage::PrepareStaging && plan(job)[5].policy == Policy::BestEffort,
        plan(job)[6].stage == Stage::PrepareStaging && plan(job)[6].policy == Policy::Fatal,
        plan(job)[7].stage == Stage::Wipe && plan(job)[7].policy == Policy::BestEffort,
        plan(job)[8].stage == Stage::Wipe && plan(job)[8].policy == Policy::BestEffort,
        plan(job)[9].stage == Stage::Partition && plan(job)[9].policy == Policy::Fatal,
        plan(job)[10].stage == Stage::Partition && plan(job)[10].policy == Policy::Fatal,
        plan(job)[11].stage == Stage::Format && plan(job)[11].policy == Policy::Fatal,
        plan(job)[12].stage == Stage::Mount && plan(job)[12].policy == Policy::Fatal,
        plan(job)[13].stage == Stage::Mount && plan(job)[13].policy == Policy::Fatal,
        plan(job)[14].stage == Stage::Extract && plan(job)[14].policy == Policy::Fatal,
        plan(job)[15].stage == Stage::Extract && plan(job)[15].policy == Policy::Fatal,
        plan(job)[16].stage == Stage::Extract && plan(job)[16].policy == Policy::Fatal,
        plan(job)[17].stage == Stage::Flush && plan(job)[17].policy == Policy::Fatal,
        plan(job)[18].stage == Stage::WriteStage1 && plan(job)[18].policy == Policy::Fatal,
        plan(job)[19].stage == Stage::WriteStage2 && plan(job)[19].policy == Policy::Fatal,
        plan(job)[20].stage == Stage::CopyExtras && plan(job)[20].policy == Policy::Fatal,
        plan(job)[21].stage == Stage::CopyExtras && plan(job)[21].policy == Policy::Fatal,
        plan(job)[22].stage == Stage::CopyExtras && plan(job)[22].policy == Policy::Fatal,
        plan(job)[23].stage == Stage::Finish && plan(job)[23].policy == Policy::BestEffort,
        plan(job)[24].stage == Stage::Finish && plan(job)[24].policy == Policy::Fatal,
        plan(job)[2] == StepView::require(Stage::Verify, job.archive(), "find the archive"@),
        plan(job)[6] == staging_steps(job.staging())[3],
        plan(job)[15] == StepView::require(
            Stage::Extract,
            job.mlo(),
            "find the first boot-loader stage"@,
        ),
        plan(job)[16] == StepView::require(
            Stage::Extract,
            job.uboot(),
            "find the second boot-loader stage"@,
        ),
{
    reveal(plan);
    lemma_stage_layout(job, Stage::Fetch);
    lemma_stage_layout(job, Stage::Verify);
    lemma_stage_layout(job, Stage::PrepareStaging);
    lemma_stage_layout(job, Stage::Wipe);
    lemma_stage_layout(job, Stage::Partition);
    lemma_stage_layout(job, Stage::Format);
    lemma_stage_layout(job, Stage::Mount);
    lemma_stage_layout(job, Stage::Extract);
    lemma_stage_layout(job, Stage::Flush);
    lemma_stage_layout(job, Stage::WriteStage1);
    lemma_stage_layout(job, Stage::WriteStage2);
    lemma_stage_layout(job, Stage::CopyExtras);
    lemma_stage_layout(job, Stage::Finish);
    lemma_extract_steps(job);
    lemma_gate_steps(job);
    let p = plan(job);
    assert(p[0] == stage_steps(job, Stage::Fetch)[0]);
    assert(p[1] == stage_steps(job, Stage::Fetch)[1]);
    assert(p[2] == stage_steps(job, Stage::Verify)[0]);
    assert(p[3] == stage_steps(job, Stage::PrepareStaging)[0]);
    assert(p[4] == stage_steps(job, Stage::PrepareStaging)[1]);
    assert(p[5] == stage_steps(job, Stage::PrepareStaging)[2]);
    assert(p[6] == stage_steps(job, Stage::PrepareStaging)[3]);
    assert(p[7] == stage_steps(job, Stage::Wipe)[0]);
    assert(p[8] == stage_steps(job, Stage::Wipe)[1]);
    assert(p[9] == stage_steps(job, Stage::Partition)[0]);
    assert(p[10] == stage_steps(job, Stage::Partition)[1]);
    assert(p[11] == stage_steps(job, Stage::Format)[0]);
    assert(p[12] == stage_steps(job, Stage::Mount)[0]);
    assert(p[13] == stage_steps(job, Stage::Mount)[1]);
    assert(p[14] == stage_steps(job, Stage::Extract)[0]);
    assert(p[15] == stage_steps(job, Stage::Extract)[1]);
    assert(p[16] == stage_steps(job, Stage::Extract)[2]);
    assert(p[17] == stage_steps(job, Stage::Flush)[0]);
    assert(p[18] == stage_steps(job, Stage::WriteStage1)[0]);
    assert(p[19] == stage_steps(job, Stage::WriteStage2)[0]);
    assert(p[20] == stage_steps(job, Stage::CopyExtras)[0]);
    assert(p[21] == stage_steps(job, Stage::CopyExtras)[1]);
    assert(p[22] == stage_steps(job, Stage::CopyExtras)[2]);
    assert(p[23] == stage_steps(job, Stage::Finish)[0]);
    assert(p[24] == stage_steps(job, Stage::Finish)[1]);
}

/// The layout of every plan: 25 steps, each with the stage and the policy
/// of its place.
pub proof fn lemma_plan_layout(job: JobView)
    ensures
        plan(job).len() == 25,
        forall|i: int|
            0 <= i < 25 ==> (#[trigger] plan(job)[i]).stage == stage_at(i) && plan(job)[i].policy
                == policy_at(i),
{
    lemma_plan_steps(job);
}

/// Facts of every plan: it has 25 steps; only its first step can make the
/// run skip a step; its stages come in their order; and in a stage that
/// must succeed every step is fatal.
pub proof fn lemma_plan_facts(job: JobView)
    ensures
        plan(job).len() == 25,
        forall|i: int|
            0 <= i < plan(job).len() && must_succeed((#[trigger] plan(job)[i]).stage) ==> plan(
                job,
            )[i].policy == Policy::Fatal,
        forall|i: int|
            0 <= i < plan(job).len() && (#[trigger] plan(job)[i]).policy == Policy::SkipNext ==> i
                == 0,
        forall|i: int, j: int|
            0 <= i <= j < plan(job).len() ==> (#[trigger] plan(job)[i]).stage.position() <= (
            #[trigger] plan(job)[j]).stage.position(),
{
    lemma_plan_layout(job);
    assert forall|i: int, j: int| 0 <= i <= j < 25 implies stage_at(i).position() <= stage_at(
        j,
    ).position() by {}
}

/// The outcomes of a run change neither its plan nor its release step,
/// and keep it well formed.
pub proof fn lemma_run_keeps_plan(p: PipelineView, outcomes: Seq<bool>)
    requires
        p.wf(),
    ensures
        p.after_all(outcomes).steps == p.steps,
        p.after_all(outcomes).release == p.release,
        p.after_all(outcomes).wf(),
    decreases outcomes.len(),
{
    if outcomes.len() > 0 {
        lemma_run_keeps_plan(p, outcomes.drop_last());
    }
}

/// A run that has left the plan never returns to it: whatever outcomes
/// follow, no step of the plan is current again, and the reason of an early
/// end stays.
pub proof fn lemma_ended_run_stays_ended(p: PipelineView, outcomes: Seq<bool>)
    requires
        p.phase != Phase::Running,
    ensures
        p.after_all(outcomes).phase != Phase::Running,
        p.after_all(outcomes).failure == p.failure,
        p.after_all(outcomes).release == p.release,
        p.phase == Phase::Completed ==> p.after_all(outcomes).phase == Phase::Completed,
        p.phase != Phase::Completed ==> p.after_all(outcomes).phase != Phase::Completed,
    decreases outcomes.len(),
{
    if outcomes.len() > 0 {
        lemma_ended_run_stays_ended(p, outcomes.drop_last());
    }
}

/// A fatal step that fails ends the run. From then on, whatever outcomes
/// follow, the run holds the reason, and the only step that is ever current
/// again is the release of the staging path.
pub proof fn lemma_fatal_failure_ends_run(p: PipelineView, outcomes: Seq<bool>)
    requires
        p.wf(),
        p.phase == Phase::Running,
        p.steps[p.pc as int].policy == Policy::Fatal,
    ensures
        ({
            let step = p.steps[p.pc as int];
            let q = p.after(false).after_all(outcomes);
            &&& q.phase == Phase::Unwinding || q.phase == Phase::Aborted
            &&& q.failure == Some(AbortView { stage: step.stage, failure: step.failure() })
            &&& q.current().is_none() || q.current() == Some(p.release)
        }),
{
    lemma_ended_run_stays_ended(p.after(false), outcomes);
}

/// When a step of a stage that must succeed fails, no later step of the
/// plan is performed: the run of a job ends with that stage as the place of
/// the failure, and only the staging path is still released.
pub proof fn lemma_failed_stage_stops_pipeline(job: JobView, p: PipelineView, outcomes: Seq<bool>)
    requires
        p.steps == plan(job),
        p.release == release_step(job),
        p.wf(),
        p.phase == Phase::Running,
        must_succeed(p.steps[p.pc as int].stage),
    ensures
        ({
            let q = p.after(false).after_all(outcomes);
            &&& q.phase == Phase::Unwinding || q.phase == Phase::Aborted
            &&& q.failure.is_some() && q.failure.unwrap().stage == p.steps[p.pc as int].stage
            &&& q.current().is_none() || q.current() == Some(release_step(job))
        }),
{
    lemma_plan_facts(job);
    lemma_fatal_failure_ends_run(p, outcomes);
}

/// A fatal step that cannot be skipped guards all that follows it. When a
/// run that stood at or before step `i` stands behind it, running or
/// completed, then at some earlier moment step `i` was current and
/// succeeded.
pub proof fn lemma_later_steps_need_success(p: PipelineView, outcomes: Seq<bool>, i: int)
    requires
        p.wf(),
        p.phase == Phase::Running,
        p.pc <= i < p.steps.len(),
        p.steps[i].policy == Policy::Fatal,
        i > 0 ==> p.steps[i - 1].policy != Policy::SkipNext,
        p.after_all(outcomes).phase == Phase::Running || p.after_all(outcomes).phase
            == Phase::Completed,
        p.after_all(outcomes).pc > i,
    ensures
        exists|k: int|
            0 <= k < outcomes.len() && outcomes[k] && (#[trigger] p.after_all(
                outcomes.take(k),
            )).phase == Phase::Running && p.after_all(outcomes.take(k)).pc == i,
    decreases outcomes.len(),
{
    if outcomes.len() > 0 {
        let n = outcomes.len() as int;
        let earlier = outcomes.drop_last();
        let before = p.after_all(earlier);
        lemma_run_keeps_plan(p, earlier);
        assert(outcomes.take(n - 1) =~= earlier);
        if before.phase == Phase::Running && before.pc == i {
            assert(outcomes[n - 1]);
        } else if before.phase != Phase::Running && before.phase != Phase::Completed {
            lemma_ended_run_stays_ended(before, seq![outcomes.last()]);
            assert(seq![outcomes.last()].drop_last() =~= Seq::<bool>::empty());
        } else {
            assert(before.pc > i);
            lemma_later_steps_need_success(p, earlier, i);
            let k = choose|k: int|
                0 <= k < earlier.len() && earlier[k] && (#[trigger] p.after_all(
                    earlier.take(k),
                )).phase == Phase::Running && p.after_all(earlier.take(k)).pc == i;
            assert(earlier.take(k) =~= outcomes.take(k));
        }
    }
}

/// Readying the staging path depends on its creation alone. Carried out on
/// their own, the four steps end well exactly when the last one, which
/// creates the path, succeeds: whatever comes of killing the holders, of
/// unmounting and of removing what was there, none of it ends the run. When
/// the creation fails, that is the reason the run gives.
pub proof fn lemma_staging_depends_on_creation_alone(
    mnt_path: Seq<char>,
    p: PipelineView,
    outcomes: Seq<bool>,
)
    requires
        p.steps == staging_steps(mnt_path),
        p.pc == 0,
        p.phase == Phase::Running,
        p.failure.is_none(),
        outcomes.len() == 4,
    ensures
        outcomes[3] ==> p.after_all(outcomes).phase == Phase::Completed && p.after_all(
            outcomes,
        ).failure.is_none(),
        !outcomes[3] ==> p.after_all(outcomes).phase == Phase::Unwinding && p.after_all(
            outcomes,
        ).failure == Some(
            AbortView {
                stage: Stage::PrepareStaging,
                failure: FailureView::ActionFailed("create the mount path"@),
            },
        ),
{
    let o0 = outcomes.take(0);
    let o1 = outcomes.take(1);
    let o2 = outcomes.take(2);
    let o3 = outcomes.take(3);
    assert(o1.drop_last() =~= o0 && o2.drop_last() =~= o1 && o3.drop_last() =~= o2);
    assert(outcomes.drop_last() =~= o3);
    lemma_run_keeps_plan(p, o0);
    lemma_run_keeps_plan(p, o1);
    lemma_run_keeps_plan(p, o2);
    lemma_run_keeps_plan(p, o3);
    let s = staging_steps(mnt_path);
    assert(s[0].policy == Policy::BestEffort && s[1].policy == Policy::BestEffort && s[2].policy
        == Policy::BestEffort && s[3].policy == Policy::Fatal);
    assert(p.after_all(o0) == p);
    assert(p.after_all(o1) == p.after_all(o0).after(outcomes[0]));
    assert(p.after_all(o1).pc == 1 && p.after_all(o1).phase == Phase::Running);
    assert(p.after_all(o2) == p.after_all(o1).after(outcomes[1]));
    assert(p.after_all(o2).pc == 2 && p.after_all(o2).phase == Phase::Running);
    assert(p.after_all(o3) == p.after_all(o2).after(outcomes[2]));
    assert(p.after_all(o3).pc == 3 && p.after_all(o3).phase == Phase::Running);
    assert(p.after_all(outcomes) == p.after_all(o3).after(outcomes[3]));
}

/// In a run of a job every fatal step guards the steps behind it. When the
/// run stands behind such a step, running or completed, then at some
/// earlier moment that step was current and succeeded. The one exception is
/// a step that the step before it can make the run skip.
pub proof fn lemma_fatal_steps_guard_the_rest(job: JobView, outcomes: Seq<bool>, i: int)
    requires
        1 <= i < plan(job).len(),
        plan(job)[i].policy == Policy::Fatal,
        plan(job)[i - 1].policy != Policy::SkipNext,
        PipelineView::start(job).after_all(outcomes).phase == Phase::Running
            || PipelineView::start(job).after_all(outcomes).phase == Phase::Completed,
        PipelineView::start(job).after_all(outcomes).pc > i,
    ensures
        exists|k: int|
            0 <= k < outcomes.len() && outcomes[k] && (#[trigger] PipelineView::start(
                job,
            ).after_all(outcomes.take(k))).current() == Some(plan(job)[i]),
{
    let p = PipelineView::start(job);
    lemma_plan_layout(job);
    lemma_later_steps_need_success(p, outcomes, i);
    let k = choose|k: int|
        0 <= k < outcomes.len() && outcomes[k] && (#[trigger] p.after_all(outcomes.take(k))).phase
            == Phase::Running && p.after_all(outcomes.take(k)).pc == i;
    lemma_run_keeps_plan(p, outcomes.take(k));
}

/// The gates come before the destructive work. When a step of a stage that
/// changes the target device is the current step of a run of a job, then
/// earlier in the run the archive was looked for and found, and later the
/// staging path was created anew.
pub proof fn lemma_destruction_follows_the_gates(job: JobView, outcomes: Seq<bool>)
    requires
        PipelineView::start(job).after_all(outcomes).phase == Phase::Running,
        ({
            let q = PipelineView::start(job).after_all(outcomes);
            q.steps[q.pc as int].stage.is_destructive()
        }),
    ensures
        exists|a: int, b: int|
            0 <= a < b < outcomes.len() && outcomes[a] && outcomes[b] && (
            #[trigger] PipelineView::start(job).after_all(outcomes.take(a))).current() == Some(
                StepView::require(Stage::Verify, job.archive(), "find the archive"@),
            ) && (#[trigger] PipelineView::start(job).after_all(outcomes.take(b))).current()
                == Some(staging_steps(job.staging())[3]),
        staging_steps(job.staging())[3].action == ActionView::MakeDir(job.staging()),
{
    let p = PipelineView::start(job);
    lemma_plan_facts(job);
    lemma_plan_steps(job);
    lemma_run_keeps_plan(p, outcomes);
    let q = p.after_all(outcomes);
    assert(q.pc > 6) by {
        if q.pc <= 6 {
            assert(plan(job)[q.pc as int].stage.position() <= plan(job)[6].stage.position());
        }
    }
    lemma_guarded_in_turn(job, outcomes, 2, 6);
}

/// Two fatal steps that guard the place where a run stands were passed in
/// their order.
proof fn lemma_guarded_in_turn(job: JobView, outcomes: Seq<bool>, i: int, j: int)
    requires
        2 <= i < j < plan(job).len(),
        plan(job)[i].policy == Policy::Fatal,
        plan(job)[j].policy == Policy::Fatal,
        PipelineView::start(job).after_all(outcomes).phase == Phase::Running
            || PipelineView::start(job).after_all(outcomes).phase == Phase::Completed,
        PipelineView::start(job).after_all(outcomes).pc > j,
    ensures
        exists|a: int, b: int|
            0 <= a < b < outcomes.len() && outcomes[a] && outcomes[b] && (
            #[trigger] PipelineView::start(job).after_all(outcomes.take(a))).current() == Some(
                plan(job)[i],
            ) && (#[trigger] PipelineView::start(job).after_all(outcomes.take(b))).current()
                == Some(plan(job)[j]),
{
    let p = PipelineView::start(job);
    lemma_plan_layout(job);
    lemma_later_steps_need_success(p, outcomes, j);
    let b = choose|k: int|
        0 <= k < outcomes.len() && outcomes[k] && (#[trigger] p.after_all(outcomes.take(k))).phase
            == Phase::Running && p.after_all(outcomes.take(k)).pc == j;
    let upto = outcomes.take(b);
    lemma_later_steps_need_success(p, upto, i);
    let a = choose|k: int|
        0 <= k < upto.len() && upto[k] && (#[trigger] p.after_all(upto.take(k))).phase
            == Phase::Running && p.after_all(upto.take(k)).pc == i;
    assert(upto.take(a) =~= outcomes.take(a));
    lemma_run_keeps_plan(p, outcomes.take(a));
    lemma_run_keeps_plan(p, outcomes.take(b));
}

/// A raw write of a boot-loader stage comes only after both boot-loader
/// files were looked for in the staged filesystem and found. When such a
/// write is the current step of a run of a job, the run earlier stood at
/// the look for the first file, and later at the look for the second, and
/// both succeeded. A look that fails is fatal, so the run then ends with
/// the missing file as the reason and no raw write is ever made.
pub proof fn lemma_raw_writes_follow_boot_files(job: JobView, outcomes: Seq<bool>)
    requires
        PipelineView::start(job).after_all(outcomes).phase == Phase::Running,
        ({
            let q = PipelineView::start(job).after_all(outcomes);
            q.steps[q.pc as int].stage == Stage::WriteStage1 || q.steps[q.pc as int].stage
                == Stage::WriteStage2
        }),
    ensures
        exists|a: int, b: int|
            0 <= a < b < outcomes.len() && outcomes[a] && outcomes[b] && (
            #[trigger] PipelineView::start(job).after_all(outcomes.take(a))).current() == Some(
                StepView::require(
                    Stage::Extract,
                    job.mlo(),
                    "find the first boot-loader stage"@,
                ),
            ) && (#[trigger] PipelineView::start(job).after_all(outcomes.take(b))).current()
                == Some(
                StepView::require(
                    Stage::Extract,
                    job.uboot(),
                    "find the second boot-loader stage"@,
                ),
            ),
        StepView::require(Stage::Extract, job.mlo(), "find the first boot-loader stage"@).policy
            == Policy::Fatal,
        StepView::require(Stage::Extract, job.mlo(), "find the first boot-loader stage"@).failure()
            == FailureView::MissingFile(job.mlo()),
        StepView::require(
            Stage::Extract,
            job.uboot(),
            "find the second boot-loader stage"@,
        ).failure() == FailureView::MissingFile(job.uboot()),
{
    let p = PipelineView::start(job);
    lemma_plan_facts(job);
    lemma_plan_steps(job);
    lemma_run_keeps_plan(p, outcomes);
    let q = p.after_all(outcomes);
    assert(q.pc > 16) by {
        if q.pc <= 16 {
            assert(plan(job)[q.pc as int].stage.position() <= plan(job)[16].stage.position());
        }
    }
    lemma_guarded_in_turn(job, outcomes, 15, 16);
}

} // verus!
