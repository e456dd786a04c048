//! The gates before the destructive work: who runs the tool, and freeing
//! the target device and the staging path.

use vstd::prelude::*;
use crate::command::{join, terminate_processes_using, text, unmount, Command, CommandView};
use crate::step::{step_views, Action, ActionView, Policy, Stage, Step, StepView};
use crate::text::{lines, same_text, split_lines, split_whitespace, texts, trim, trimmed, words};

verus! {

/// The name of the administrative account.
pub const SUPERUSER: &'static str = "root";

/// Calls `whoami::username`, which asks the operating system for the name
/// of the user that the process runs as. The answer depends on the process
/// and the machine, so nothing is claimed of it.
#[verifier::external_body]
fn os_username() -> (name: String) {
    whoami::username()
}

/// Who runs the tool: the account that the process runs as, and the user who
/// invoked it, which differ under privilege elevation.
#[derive(Clone, Debug, PartialEq, Eq)]
pub struct Identity {
    /// The account that the process runs as.
    pub effective: String,
    /// The user who invoked the tool; file paths are rooted in this user's
    /// home directory.
    pub invoking: String,
}

/// The mathematical content of an [`Identity`].
pub struct IdentityView {
    pub effective: Seq<char>,
    pub invoking: Seq<char>,
}

impl IdentityView {
    /// Whether the process runs with administrative privilege.
    pub open spec fn elevated(self) -> bool {
        self.effective == SUPERUSER@
    }

    /// The identity of a process that runs as `os_user`, given the user
    /// recorded at privilege elevation, if one was.
    pub open spec fn resolved(sudo_user: Option<Seq<char>>, os_user: Seq<char>) -> IdentityView {
        IdentityView {
            effective: os_user,
            invoking: match sudo_user {
                Some(user) => user,
                None => os_user,
            },
        }
    }
}

impl View for Identity {
    type V = IdentityView;

    open spec fn view(&self) -> IdentityView {
        IdentityView { effective: self.effective@, invoking: self.invoking@ }
    }
}

/// The content of an optional text.
pub open spec fn optional_text(s: Option<String>) -> Option<Seq<char>> {
    match s {
        Some(t) => Some(t@),
        None => None,
    }
}

impl Identity {
    /// The identity of a process that runs as `os_user`: the invoking user
    /// is the one recorded at elevation and, where none was recorded, the
    /// account itself.
    pub fn resolve(sudo_user: Option<String>, os_user: String) -> (id: Identity)
        ensures
            id@ == IdentityView::resolved(optional_text(sudo_user), os_user@),
    {
        let invoking = match sudo_user {
            Some(user) => user,
            None => os_user.clone(),
        };
        Identity { effective: os_user, invoking }
    }

    /// The identity of this process, given the user recorded at privilege
    /// elevation, if one was. The account comes from the operating system;
    /// whatever it answers, the invoking user is the recorded one and,
    /// where none was recorded, the account itself.
    pub fn current(sudo_user: Option<String>) -> (id: Identity)
        ensures
            id@ == IdentityView::resolved(optional_text(sudo_user), id@.effective),
    {
        Identity::resolve(sudo_user, os_username())
    }

    /// Whether the process runs with administrative privilege.
    pub fn is_elevated(&self) -> (r: bool)
        ensures
            r == self@.elevated(),
    {
        same_text(self.effective.as_str(), SUPERUSER)
    }
}

/// The first word of each row that has one, in order.
pub open spec fn first_words(rows: Seq<Seq<char>>) -> Seq<Seq<char>>
    decreases rows.len(),
{
    if rows.len() == 0 {
        Seq::empty()
    } else {
        let head = first_words(rows.drop_last());
        let row = words(rows.last());
        if row.len() > 0 {
            head.push(row[0])
        } else {
            head
        }
    }
}

/// The names in a listing of a device and its partitions: the first word
/// of each line.
pub open spec fn partition_names(listing: Seq<char>) -> Seq<Seq<char>> {
    first_words(lines(listing))
}

/// The force-unmount of the device node named `name`.
pub open spec fn unmount_of(name: Seq<char>) -> CommandView {
    CommandView::unmount("/dev/"@ + name)
}

/// The contents of a list of invocations.
pub open spec fn command_views(v: Seq<Command>) -> Seq<CommandView> {
    Seq::new(v.len(), |i: int| v[i]@)
}

/// The force-unmounts that free a device: one for each name in `listing`,
/// the listing of the device and its partitions, in its order. They are
/// best effort: one that fails, as on a partition that is not mounted, is
/// ignored.
pub fn unmount_all_partitions(listing: &str) -> (r: Vec<Command>)
    ensures
        r.len() == partition_names(listing@).len(),
        forall|i: int|
            0 <= i < r.len() ==> (#[trigger] r[i])@ == unmount_of(partition_names(listing@)[i]),
{
    let rows = split_lines(listing);
    let n = rows.len();
    let mut out: Vec<Command> = Vec::new();
    let mut i: usize = 0;
    let ghost all = lines(listing@);
    assert(all.take(0) =~= Seq::<Seq<char>>::empty());
    while i < n
        invariant
            n == rows.len(),
            i <= n,
            all == lines(listing@),
            texts(rows@) == all,
            out.len() == first_words(all.take(i as int)).len(),
            forall|j: int|
                0 <= j < out.len() ==> (#[trigger] out[j])@ == unmount_of(
                    first_words(all.take(i as int))[j],
                ),
        decreases n - i,
    {
        let row = split_whitespace(rows[i].as_str());
        proof {
            assert(texts(rows@)[i as int] == rows[i as int]@);
            assert(all.take(i + 1).drop_last() =~= all.take(i as int));
            assert(all.take(i + 1).last() == rows[i as int]@);
        }
        if row.len() > 0 {
            assert(texts(row@)[0] == row[0]@);
            let node = join("/dev/", row[0].as_str());
            out.push(unmount(node.as_str()));
        }
        i = i + 1;
    }
    assert(all.take(n as int) =~= all);
    out
}

/// The steps that ready the staging path, in order: kill what holds it
/// open, force-unmount it, remove it with all below it, create it anew.
/// Only the last has to succeed.
pub open spec fn staging_steps(mnt_path: Seq<char>) -> Seq<StepView> {
    seq![
        StepView::run(
            Stage::PrepareStaging,
            CommandView::terminate_processes_using(mnt_path),
            Policy::BestEffort,
            "terminate processes using the mount path"@,
        ),
        StepView::run(
            Stage::PrepareStaging,
            CommandView::unmount(mnt_path),
            Policy::BestEffort,
            "unmount the mount path"@,
        ),
        StepView {
            stage: Stage::PrepareStaging,
            action: ActionView::RemoveTree(mnt_path),
            policy: Policy::BestEffort,
            purpose: "remove the mount path"@,
        },
        StepView {
            stage: Stage::PrepareStaging,
            action: ActionView::MakeDir(mnt_path),
            policy: Policy::Fatal,
            purpose: "create the mount path"@,
        },
    ]
}

/// The steps that leave `mnt_path` an empty directory that nothing is
/// mounted on and no process holds open.
pub fn prepare_mount_path(mnt_path: &str) -> (r: Vec<Step>)
    ensures
        step_views(r@) == staging_steps(mnt_path@),
{
    let mut out: Vec<Step> = Vec::new();
    out.push(
        Step::run(
            Stage::PrepareStaging,
            terminate_processes_using(mnt_path),
            Policy::BestEffort,
            "terminate processes using the mount path",
        ),
    );
    out.push(
        Step::run(
            Stage::PrepareStaging,
            unmount(mnt_path),
            Policy::BestEffort,
            "unmount the mount path",
        ),
    );
    out.push(
        Step {
            stage: Stage::PrepareStaging,
            action: Action::RemoveTree(text(mnt_path)),
            policy: Policy::BestEffort,
            purpose: text("remove the mount path"),
        },
    );
    out.push(
        Step {
            stage: Stage::PrepareStaging,
            action: Action::MakeDir(text(mnt_path)),
            policy: Policy::Fatal,
            purpose: text("create the mount path"),
        },
    );
    assert(step_views(out@) =~= staging_steps(mnt_path@));
    out
}

/// Whether a mount-status report names any mount point.
pub fn is_mounted(output: &str) -> (r: bool)
    ensures
        r == (trimmed(output@).len() > 0),
{
    !trim(output).is_empty()
}

} // verus!
