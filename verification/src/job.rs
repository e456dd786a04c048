//! The provisioning job: which device is provisioned, and for whom.

use vstd::prelude::*;
use crate::command::{join, text};
use crate::gate::Identity;
use crate::inventory::BlockDevice;

verus! {

/// The file name of the root-filesystem archive.
pub const ARCHIVE_NAME: &'static str = "ArchLinuxARM-am33x-latest.tar.gz";

/// The file name of the companion provisioning script.
pub const SCRIPT_NAME: &'static str = "bbb_eMMC.sh";

/// Why no job was made.
#[derive(Clone, Copy, Debug, PartialEq, Eq, Structural)]
pub enum Refusal {
    /// The process does not run with administrative privilege.
    NotElevated,
    /// The device is not one that may be offered as a target.
    IneligibleDevice,
}

impl Refusal {
    /// The message shown to the operator.
    pub open spec fn message_spec(self) -> Seq<char> {
        match self {
            Refusal::NotElevated => "Must be ran as root!"@,
            Refusal::IneligibleDevice => "Device is not eligible as a target"@,
        }
    }

    /// The message shown to the operator.
    pub fn message(self) -> (r: String)
        ensures
            r@ == self.message_spec(),
    {
        match self {
            Refusal::NotElevated => text("Must be ran as root!"),
            Refusal::IneligibleDevice => text("Device is not eligible as a target"),
        }
    }
}

/// One provisioning job: the target device and the user whose home
/// directory holds the archive, the companion script and the staging path.
/// A job exists only for an eligible device and a process that runs with
/// administrative privilege.
#[derive(Debug)]
pub struct ProvisioningJob {
    device: String,
    user: String,
}

/// The mathematical content of a [`ProvisioningJob`].
pub struct JobView {
    /// The path of the target device node.
    pub device: Seq<char>,
    /// The name of the invoking user.
    pub user: Seq<char>,
}

impl JobView {
    /// The invoking user's home directory.
    pub open spec fn home(self) -> Seq<char> {
        "/home/"@ + self.user
    }

    /// The path of the root-filesystem archive.
    pub open spec fn archive(self) -> Seq<char> {
        self.home() + "/"@ + ARCHIVE_NAME@
    }

    /// The path of the companion script.
    pub open spec fn script(self) -> Seq<char> {
        self.home() + "/"@ + SCRIPT_NAME@
    }

    /// The staging path, where the new filesystem is mounted.
    pub open spec fn staging(self) -> Seq<char> {
        self.home() + "/mnt"@
    }

    /// The path of the one partition of the target device.
    pub open spec fn partition(self) -> Seq<char> {
        self.device + "1"@
    }
}

impl View for ProvisioningJob {
    type V = JobView;

    closed spec fn view(&self) -> JobView {
        JobView { device: self.device@, user: self.user@ }
    }
}

impl ProvisioningJob {
    /// The job that provisions `device` for the invoking user of
    /// `identity`. It is refused unless the process runs with
    /// administrative privilege, and then unless the device is eligible.
    pub fn new(device: &BlockDevice, identity: &Identity) -> (r: Result<ProvisioningJob, Refusal>)
        ensures
            !identity@.elevated() ==> r == Err::<ProvisioningJob, Refusal>(Refusal::NotElevated),
            identity@.elevated() && !device@.eligible() ==> r == Err::<ProvisioningJob, Refusal>(
                Refusal::IneligibleDevice,
            ),
            identity@.elevated() && device@.eligible() ==> r.is_ok() && r.unwrap()@ == (JobView {
                device: device@.path(),
                user: identity@.invoking,
            }),
    {
        if !identity.is_elevated() {
            Err(Refusal::NotElevated)
        } else if !device.is_eligible() {
            Err(Refusal::IneligibleDevice)
        } else {
            Ok(ProvisioningJob { device: device.path(), user: identity.invoking.clone() })
        }
    }

    /// The path of the target device node.
    pub fn device(&self) -> (r: &str)
        ensures
            r@ == self@.device,
    {
        self.device.as_str()
    }

    /// The name of the invoking user.
    pub fn user(&self) -> (r: &str)
        ensures
            r@ == self@.user,
    {
        self.user.as_str()
    }

    /// The invoking user's home directory.
    pub fn home(&self) -> (r: String)
        ensures
            r@ == self@.home(),
    {
        join("/home/", self.user.as_str())
    }

    /// The path of the root-filesystem archive.
    pub fn archive(&self) -> (r: String)
        ensures
            r@ == self@.archive(),
    {
        let dir = join(self.home().as_str(), "/");
        join(dir.as_str(), ARCHIVE_NAME)
    }

    /// The staging path, where the new filesystem is mounted.
    pub fn staging(&self) -> (r: String)
        ensures
            r@ == self@.staging(),
    {
        join(self.home().as_str(), "/mnt")
    }

    /// The path of the one partition of the target device.
    pub fn partition(&self) -> (r: String)
        ensures
            r@ == self@.partition(),
    {
        join(self.device.as_str(), "1")
    }
}

} // verus!
