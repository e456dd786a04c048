//! The plan of a provisioning run: every step of every stage, in order.

use vstd::prelude::*;
use crate::bootwrite::{write_mlo_to_device, write_uboot_to_device, RawWrite};
use crate::command::{
    create_ext4_filesystem, create_new_partition_table, delete_partitions, download_archive,
    extract_tarball, join, mount_device, sync, text, unmount, zero_out_device, CommandView,
};
use crate::gate::{prepare_mount_path, staging_steps};
use crate::job::{JobView, ProvisioningJob, ARCHIVE_NAME, SCRIPT_NAME};
use crate::step::{step_views, Action, ActionView, Policy, Stage, Step, StepView};

verus! {

/// The directory on the target that receives the archive and the script.
pub const TARGET_DIR: &'static str = "/home/alarm";

impl JobView {
    /// The boot directory of the staged filesystem.
    pub open spec fn boot_dir(self) -> Seq<char> {
        self.staging() + "/boot"@
    }

    /// The first boot-loader stage in the staged filesystem.
    pub open spec fn mlo(self) -> Seq<char> {
        self.staging() + "/boot/MLO"@
    }

    /// The second boot-loader stage in the staged filesystem.
    pub open spec fn uboot(self) -> Seq<char> {
        self.staging() + "/boot/u-boot.img"@
    }
}

/// The steps that fetch the archive into `file_path` unless it is there:
/// look for it, and download it when the look fails.
pub open spec fn fetch_steps(file_path: Seq<char>) -> Seq<StepView> {
    seq![
        StepView {
            stage: Stage::Fetch,
            action: ActionView::Probe(file_path),
            policy: Policy::SkipNext,
            purpose: "find the archive"@,
        },
        StepView::run(
            Stage::Fetch,
            CommandView::download_archive(file_path),
            Policy::Fatal,
            "download file"@,
        ),
    ]
}

/// The steps that copy the archive and the companion script from the home
/// directory of `username` into the filesystem staged at `mnt_path`.
pub open spec fn copy_steps(username: Seq<char>, mnt_path: Seq<char>) -> Seq<StepView> {
    seq![
        StepView {
            stage: Stage::CopyExtras,
            action: ActionView::Copy {
                from: "/home/"@ + username + "/"@ + ARCHIVE_NAME@,
                to: mnt_path + TARGET_DIR@ + "/"@ + ARCHIVE_NAME@,
            },
            policy: Policy::Fatal,
            purpose: "copy tarball to mnt"@,
        },
        StepView {
            stage: Stage::CopyExtras,
            action: ActionView::Copy {
                from: "/home/"@ + username + "/"@ + SCRIPT_NAME@,
                to: mnt_path + TARGET_DIR@ + "/"@ + SCRIPT_NAME@,
            },
            policy: Policy::Fatal,
            purpose: "copy script to mnt"@,
        },
    ]
}

/// The steps of one stage of the job, in order.
#[verifier::opaque]
pub open spec fn stage_steps(job: JobView, stage: Stage) -> Seq<StepView> {
    match stage {
        Stage::Fetch => fetch_steps(job.archive()),
        Stage::Verify => seq![StepView::require(Stage::Verify, job.archive(), "find the archive"@)],
        Stage::PrepareStaging => staging_steps(job.staging()),
        Stage::Wipe => seq![
            StepView::run(
                Stage::Wipe,
                CommandView::zero_out_device(job.device),
                Policy::BestEffort,
                "zero out device"@,
            ),
            StepView::run(
                Stage::Wipe,
                CommandView::delete_partitions(job.device),
                Policy::BestEffort,
                "delete partitions"@,
            ),
        ],
        Stage::Partition => seq![
            StepView::run(
                Stage::Partition,
                CommandView::create_partition_label(job.device),
                Policy::Fatal,
                "create new partition table"@,
            ),
            StepView::run(
                Stage::Partition,
                CommandView::create_primary_partition(job.device),
                Policy::Fatal,
                "create new partition"@,
            ),
        ],
        Stage::Format => seq![
            StepView::run(
                Stage::Format,
                CommandView::create_ext4_filesystem(job.partition()),
                Policy::Fatal,
                "create ext4 filesystem"@,
            ),
        ],
        Stage::Mount => seq![
            StepView::run(
                Stage::Mount,
                CommandView::mount_device(job.partition(), job.staging()),
                Policy::Fatal,
                "mount device"@,
            ),
            StepView {
                stage: Stage::Mount,
                action: ActionView::MakeDirs(job.boot_dir()),
                policy: Policy::Fatal,
                purpose: "create directory"@,
            },
        ],
        Stage::Extract => seq![
            StepView::run(
                Stage::Extract,
                CommandView::extract_tarball(job.archive(), job.staging()),
                Policy::Fatal,
                "extract tarball"@,
            ),
            StepView::require(Stage::Extract, job.mlo(), "find the first boot-loader stage"@),
            StepView::require(Stage::Extract, job.uboot(), "find the second boot-loader stage"@),
        ],
        Stage::Flush => seq![
            StepView::run(Stage::Flush, CommandView::sync(), Policy::Fatal, "sync"@),
        ],
        Stage::WriteStage1 => seq![
            StepView::run(
                Stage::WriteStage1,
                RawWrite::stage1().invocation(job.mlo(), job.device),
                Policy::Fatal,
                "write MLO to device"@,
            ),
        ],
        Stage::WriteStage2 => seq![
            StepView::run(
                Stage::WriteStage2,
                RawWrite::stage2().invocation(job.uboot(), job.device),
                Policy::Fatal,
                "write u-boot to device"@,
            ),
        ],
        Stage::CopyExtras => copy_steps(job.user, job.staging()).push(
            StepView::run(Stage::CopyExtras, CommandView::sync(), Policy::Fatal, "sync"@),
        ),
        Stage::Finish => seq![
            StepView::run(
                Stage::Finish,
                CommandView::unmount(job.staging()),
                Policy::BestEffort,
                "unmount the mount path"@,
            ),
            StepView::run(Stage::Finish, CommandView::sync(), Policy::Fatal, "sync"@),
        ],
    }
}

/// Whether every step of the stage has to succeed for the run to go on:
/// so it is for all but the fetch, the readying of the staging path, the
/// wipe and the finish, which hold steps that may fail.
pub open spec fn must_succeed(stage: Stage) -> bool {
    match stage {
        Stage::Fetch => false,
        Stage::PrepareStaging => false,
        Stage::Wipe => false,
        Stage::Finish => false,
        _ => true,
    }
}

/// How many steps a stage has.
pub open spec fn stage_len(stage: Stage) -> nat {
    match stage {
        Stage::Fetch => 2,
        Stage::Verify => 1,
        Stage::PrepareStaging => 4,
        Stage::Wipe => 2,
        Stage::Partition => 2,
        Stage::Format => 1,
        Stage::Mount => 2,
        Stage::Extract => 3,
        Stage::Flush => 1,
        Stage::WriteStage1 => 1,
        Stage::WriteStage2 => 1,
        Stage::CopyExtras => 3,
        Stage::Finish => 2,
    }
}

/// The policy of step `k` of a stage.
pub open spec fn policy_in(stage: Stage, k: int) -> Policy {
    match stage {
        Stage::Fetch => if k == 0 {
            Policy::SkipNext
        } else {
            Policy::Fatal
        },
        Stage::PrepareStaging => if k < 3 {
            Policy::BestEffort
        } else {
            Policy::Fatal
        },
        Stage::Wipe => Policy::BestEffort,
        Stage::Finish => if k == 0 {
            Policy::BestEffort
        } else {
            Policy::Fatal
        },
        _ => Policy::Fatal,
    }
}

/// The layout of a stage: how many steps it has, that each is marked with
/// the stage, and the policy of each.
pub proof fn lemma_stage_layout(job: JobView, stage: Stage)
    ensures
        stage_steps(job, stage).len() == stage_len(stage),
        forall|k: int|
            0 <= k < stage_len(stage) ==> (#[trigger] stage_steps(job, stage)[k]).stage == stage
                && stage_steps(job, stage)[k].policy == policy_in(stage, k),
{
    reveal(stage_steps);
}

/// The gates of a run: the look for the archive, which has to be there, and
/// the readying of the staging path.
pub proof fn lemma_gate_steps(job: JobView)
    ensures
        stage_steps(job, Stage::Verify) == seq![
            StepView::require(Stage::Verify, job.archive(), "find the archive"@),
        ],
        stage_steps(job, Stage::PrepareStaging) == staging_steps(job.staging()),
{
    reveal(stage_steps);
}

/// The extract stage: the extraction, then the look for each of the two
/// boot-loader files, which has to be there.
pub proof fn lemma_extract_steps(job: JobView)
    ensures
        stage_steps(job, Stage::Extract) == seq![
            StepView::run(
                Stage::Extract,
                CommandView::extract_tarball(job.archive(), job.staging()),
                Policy::Fatal,
                "extract tarball"@,
            ),
            StepView::require(Stage::Extract, job.mlo(), "find the first boot-loader stage"@),
            StepView::require(Stage::Extract, job.uboot(), "find the second boot-loader stage"@),
        ],
{
    reveal(stage_steps);
}

/// The whole plan of the job: the steps of every stage, stage after stage.
#[verifier::opaque]
pub open spec fn plan(job: JobView) -> Seq<StepView> {
    stage_steps(job, Stage::Fetch) + stage_steps(job, Stage::Verify) + stage_steps(
        job,
        Stage::PrepareStaging,
    ) + stage_steps(job, Stage::Wipe) + stage_steps(job, Stage::Partition) + stage_steps(
        job,
        Stage::Format,
    ) + stage_steps(job, Stage::Mount) + stage_steps(job, Stage::Extract) + stage_steps(
        job,
        Stage::Flush,
    ) + stage_steps(job, Stage::WriteStage1) + stage_steps(job, Stage::WriteStage2) + stage_steps(
        job,
        Stage::CopyExtras,
    ) + stage_steps(job, Stage::Finish)
}

/// The step that releases the staging path when a run ends early.
pub open spec fn release_step(job: JobView) -> StepView {
    StepView::run(
        Stage::Finish,
        CommandView::unmount(job.staging()),
        Policy::BestEffort,
        "unmount the mount path"@,
    )
}

/// The steps that fetch the archive into `file_path` unless it is there.
pub fn download_file_if_not_exists(file_path: &str) -> (r: Vec<Step>)
    ensures
        step_views(r@) == fetch_steps(file_path@),
{
    let mut out: Vec<Step> = Vec::new();
    out.push(
        Step {
            stage: Stage::Fetch,
            action: Action::Probe(text(file_path)),
            policy: Policy::SkipNext,
            purpose: text("find the archive"),
        },
    );
    out.push(Step::run(Stage::Fetch, download_archive(file_path), Policy::Fatal, "download file"));
    assert(step_views(out@) =~= fetch_steps(file_path@));
    out
}

/// The step of `stage` that makes sure the directory `dir_path` exists.
pub fn ensure_directory_exists(stage: Stage, dir_path: &str) -> (s: Step)
    ensures
        s@ == (StepView {
            stage,
            action: ActionView::MakeDirs(dir_path@),
            policy: Policy::Fatal,
            purpose: "create directory"@,
        }),
{
    Step {
        stage,
        action: Action::MakeDirs(text(dir_path)),
        policy: Policy::Fatal,
        purpose: text("create directory"),
    }
}

/// The steps that copy the archive and the companion script from the home
/// directory of `username` into the filesystem staged at `mnt_path`.
pub fn copy_files_to_mnt(username: &str, mnt_path: &str) -> (r: Vec<Step>)
    ensures
        step_views(r@) == copy_steps(username@, mnt_path@),
{
    let home = join(join("/home/", username).as_str(), "/");
    let target = join(join(mnt_path, TARGET_DIR).as_str(), "/");
    let mut out: Vec<Step> = Vec::new();
    out.push(
        Step {
            stage: Stage::CopyExtras,
            action: Action::Copy {
                from: join(home.as_str(), ARCHIVE_NAME),
                to: join(target.as_str(), ARCHIVE_NAME),
            },
            policy: Policy::Fatal,
            purpose: text("copy tarball to mnt"),
        },
    );
    out.push(
        Step {
            stage: Stage::CopyExtras,
            action: Action::Copy {
                from: join(home.as_str(), SCRIPT_NAME),
                to: join(target.as_str(), SCRIPT_NAME),
            },
            policy: Policy::Fatal,
            purpose: text("copy script to mnt"),
        },
    );
    assert(step_views(out@) =~= copy_steps(username@, mnt_path@));
    out
}

/// The step that releases the staging path of `job`.
pub fn release_of(job: &ProvisioningJob) -> (s: Step)
    ensures
        s@ == release_step(job@),
{
    Step::run(
        Stage::Finish,
        unmount(job.staging().as_str()),
        Policy::BestEffort,
        "unmount the mount path",
    )
}

/// The steps of one stage of `job`, in order.
pub fn steps_of(job: &ProvisioningJob, stage: Stage) -> (r: Vec<Step>)
    ensures
        step_views(r@) == stage_steps(job@, stage),
{
    let mut out: Vec<Step> = Vec::new();
    match stage {
        Stage::Fetch => {
            out = download_file_if_not_exists(job.archive().as_str());
        },
        Stage::Verify => {
            out.push(Step::require(Stage::Verify, job.archive().as_str(), "find the archive"));
        },
        Stage::PrepareStaging => {
            out = prepare_mount_path(job.staging().as_str());
        },
        Stage::Wipe => {
            out.push(
                Step::run(
                    Stage::Wipe,
                    zero_out_device(job.device()),
                    Policy::BestEffort,
                    "zero out device",
                ),
            );
            out.push(
                Step::run(
                    Stage::Wipe,
                    delete_partitions(job.device()),
                    Policy::BestEffort,
                    "delete partitions",
                ),
            );
        },
        Stage::Partition => {
            let mut commands = create_new_partition_table(job.device());
            let ghost label = commands[0]@;
            let ghost primary = commands[1]@;
            let second = commands.pop().unwrap();
            let first = commands.pop().unwrap();
            assert(first@ == label && second@ == primary);
            out.push(
                Step::run(Stage::Partition, first, Policy::Fatal, "create new partition table"),
            );
            out.push(Step::run(Stage::Partition, second, Policy::Fatal, "create new partition"));
        },
        Stage::Format => {
            out.push(
                Step::run(
                    Stage::Format,
                    create_ext4_filesystem(job.partition().as_str()),
                    Policy::Fatal,
                    "create ext4 filesystem",
                ),
            );
        },
        Stage::Mount => {
            let staging = job.staging();
            out.push(
                Step::run(
                    Stage::Mount,
                    mount_device(job.partition().as_str(), staging.as_str()),
                    Policy::Fatal,
                    "mount device",
                ),
            );
            out.push(ensure_directory_exists(Stage::Mount, join(staging.as_str(), "/boot").as_str()));
        },
        Stage::Extract => {
            let staging = job.staging();
            out.push(
                Step::run(
                    Stage::Extract,
                    extract_tarball(job.archive().as_str(), staging.as_str()),
                    Policy::Fatal,
                    "extract tarball",
                ),
            );
            out.push(
                Step::require(
                    Stage::Extract,
                    join(staging.as_str(), "/boot/MLO").as_str(),
                    "find the first boot-loader stage",
                ),
            );
            out.push(
                Step::require(
                    Stage::Extract,
                    join(staging.as_str(), "/boot/u-boot.img").as_str(),
                    "find the second boot-loader stage",
                ),
            );
        },
        Stage::Flush => {
            out.push(Step::run(Stage::Flush, sync(), Policy::Fatal, "sync"));
        },
        Stage::WriteStage1 => {
            let mlo = join(job.staging().as_str(), "/boot/MLO");
            out.push(
                Step::run(
                    Stage::WriteStage1,
                    write_mlo_to_device(job.device(), mlo.as_str()),
                    Policy::Fatal,
                    "write MLO to device",
                ),
            );
        },
        Stage::WriteStage2 => {
            let uboot = join(job.staging().as_str(), "/boot/u-boot.img");
            out.push(
                Step::run(
                    Stage::WriteStage2,
                    write_uboot_to_device(job.device(), uboot.as_str()),
                    Policy::Fatal,
                    "write u-boot to device",
                ),
            );
        },
        Stage::CopyExtras => {
            out = copy_files_to_mnt(job.user(), job.staging().as_str());
            let ghost copies = step_views(out@);
            out.push(Step::run(Stage::CopyExtras, sync(), Policy::Fatal, "sync"));
            assert(step_views(out@) =~= copies.push(
                StepView::run(Stage::CopyExtras, CommandView::sync(), Policy::Fatal, "sync"@),
            ));
        },
        Stage::Finish => {
            out.push(
                Step::run(
                    Stage::Finish,
                    unmount(job.staging().as_str()),
                    Policy::BestEffort,
                    "unmount the mount path",
                ),
            );
            out.push(Step::run(Stage::Finish, sync(), Policy::Fatal, "sync"));
        },
    }
    proof {
        reveal(stage_steps);
    }
    assert(step_views(out@) =~= stage_steps(job@, stage));
    out
}

/// Appends the steps of `stage` to `out`.
fn extend_plan(out: &mut Vec<Step>, job: &ProvisioningJob, stage: Stage)
    ensures
        step_views(final(out)@) == step_views(old(out)@) + stage_steps(job@, stage),
{
    let mut more = steps_of(job, stage);
    let ghost added = more@;
    out.append(&mut more);
    assert(step_views(out@) =~= step_views(old(out)@) + step_views(added));
}

/// The whole plan of `job`.
pub fn plan_of(job: &ProvisioningJob) -> (r: Vec<Step>)
    ensures
        step_views(r@) == plan(job@),
{
    let mut out: Vec<Step> = Vec::new();
    assert(step_views(out@) =~= Seq::<StepView>::empty());
    extend_plan(&mut out, job, Stage::Fetch);
    assert(step_views(out@) =~= stage_steps(job@, Stage::Fetch));
    extend_plan(&mut out, job, Stage::Verify);
    extend_plan(&mut out, job, Stage::PrepareStaging);
    extend_plan(&mut out, job, Stage::Wipe);
    extend_plan(&mut out, job, Stage::Partition);
    extend_plan(&mut out, job, Stage::Format);
    extend_plan(&mut out, job, Stage::Mount);
    extend_plan(&mut out, job, Stage::Extract);
    extend_plan(&mut out, job, Stage::Flush);
    extend_plan(&mut out, job, Stage::WriteStage1);
    extend_plan(&mut out, job, Stage::WriteStage2);
    extend_plan(&mut out, job, Stage::CopyExtras);
    extend_plan(&mut out, job, Stage::Finish);
    proof {
        reveal(plan);
    }
    out
}

} // verus!
