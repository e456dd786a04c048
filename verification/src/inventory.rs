//! The inventory of block devices that may be offered as a target.

use vstd::prelude::*;
use crate::command::{join, text};
use crate::decimal::{parse_u64, parsed_u64};
use crate::text::{lines, same_text, split_lines, split_whitespace, texts, trim, trimmed, words};

verus! {

/// The least total size of an eligible device: 1 GiB.
pub const MIN_DEVICE_BYTES: u64 = 0x4000_0000;

/// The reserved firmware boot mount of the host.
pub const EFI_MOUNT: &'static str = "/boot/efi";

/// A snapshot of one block device.
#[derive(Clone, Debug, PartialEq, Eq)]
pub struct BlockDevice {
    /// The kernel's name of the device, such as `sdb`.
    pub name: String,
    /// Total size in bytes.
    pub total_bytes: u64,
    /// Human-readable size figure, as the system reports it.
    pub available: String,
    /// Where the device and its partitions are mounted now.
    pub mount_points: Vec<String>,
}

/// The mathematical content of a [`BlockDevice`].
pub struct BlockDeviceView {
    pub name: Seq<char>,
    pub total_bytes: nat,
    pub available: Seq<char>,
    pub mount_points: Seq<Seq<char>>,
}

impl BlockDeviceView {
    /// A device may be offered when it holds at least 1 GiB and nothing of it
    /// is mounted at the reserved firmware boot mount.
    pub open spec fn eligible(self) -> bool {
        &&& self.total_bytes >= MIN_DEVICE_BYTES
        &&& !self.mount_points.contains(EFI_MOUNT@)
    }

    /// The path of the device node.
    pub open spec fn path(self) -> Seq<char> {
        "/dev/"@ + self.name
    }
}

impl View for BlockDevice {
    type V = BlockDeviceView;

    open spec fn view(&self) -> BlockDeviceView {
        BlockDeviceView {
            name: self.name@,
            total_bytes: self.total_bytes as nat,
            available: self.available@,
            mount_points: texts(self.mount_points@),
        }
    }
}

/// The contents of a list of devices.
pub open spec fn device_views(v: Seq<BlockDevice>) -> Seq<BlockDeviceView> {
    Seq::new(v.len(), |i: int| v[i]@)
}

/// The eligibility test as a predicate.
pub open spec fn eligibility() -> spec_fn(BlockDeviceView) -> bool {
    |d: BlockDeviceView| d.eligible()
}

/// Whether `mounts` holds `target`.
fn holds_mount(mounts: &Vec<String>, target: &str) -> (r: bool)
    ensures
        r == texts(mounts@).contains(target@),
{
    let n = mounts.len();
    let mut i: usize = 0;
    while i < n
        invariant
            n == mounts.len(),
            i <= n,
            forall|j: int| 0 <= j < i ==> texts(mounts@)[j] != target@,
        decreases n - i,
    {
        if same_text(mounts[i].as_str(), target) {
            assert(texts(mounts@)[i as int] == target@);
            return true;
        }
        i = i + 1;
    }
    false
}

/// A copy of a list of texts.
fn copy_texts(v: &Vec<String>) -> (r: Vec<String>)
    ensures
        texts(r@) == texts(v@),
{
    let mut out: Vec<String> = Vec::new();
    let n = v.len();
    let mut i: usize = 0;
    while i < n
        invariant
            n == v.len(),
            i <= n,
            out.len() == i,
            forall|j: int| 0 <= j < i ==> out[j]@ == v[j]@,
        decreases n - i,
    {
        out.push(v[i].clone());
        i = i + 1;
    }
    assert(texts(out@) =~= texts(v@));
    out
}

impl BlockDevice {
    /// Whether this device may be offered as a target.
    pub fn is_eligible(&self) -> (r: bool)
        ensures
            r == self@.eligible(),
    {
        self.total_bytes >= MIN_DEVICE_BYTES && !holds_mount(&self.mount_points, EFI_MOUNT)
    }

    /// The path of the device node.
    pub fn path(&self) -> (r: String)
        ensures
            r@ == self@.path(),
    {
        join("/dev/", self.name.as_str())
    }

    /// A copy of this snapshot.
    pub fn duplicate(&self) -> (r: BlockDevice)
        ensures
            r@ == self@,
    {
        BlockDevice {
            name: self.name.clone(),
            total_bytes: self.total_bytes,
            available: self.available.clone(),
            mount_points: copy_texts(&self.mount_points),
        }
    }
}

/// The names that a device listing holds: its whitespace-separated words.
pub fn get_device_names(output: &str) -> (r: Vec<String>)
    ensures
        texts(r@) == words(output@),
{
    split_whitespace(output)
}

/// The size that a size report states: the number it holds once trimmed,
/// and 0 where it holds none.
pub open spec fn total_space(output: Seq<char>) -> u64 {
    match parsed_u64(trimmed(output)) {
        Some(bytes) => bytes,
        None => 0,
    }
}

/// Reads the total size in bytes from a size report.
pub fn get_total_space(output: &str) -> (r: u64)
    ensures
        r == total_space(output@),
{
    match parse_u64(trim(output)) {
        Some(bytes) => bytes,
        None => 0,
    }
}

/// Whether a text holds any character.
pub open spec fn non_empty() -> spec_fn(Seq<char>) -> bool {
    |s: Seq<char>| s.len() > 0
}

/// Trimming as a function.
pub open spec fn trimming() -> spec_fn(Seq<char>) -> Seq<char> {
    |s: Seq<char>| trimmed(s)
}

/// The mount points that a mount report states: its lines, trimmed, but
/// for the blank ones.
pub open spec fn mount_points(output: Seq<char>) -> Seq<Seq<char>> {
    lines(output).map_values(trimming()).filter(non_empty())
}

/// Reads the mount points from a mount report.
pub fn get_mount_points(output: &str) -> (r: Vec<String>)
    ensures
        texts(r@) == mount_points(output@),
{
    let rows = split_lines(output);
    let n = rows.len();
    let mut out: Vec<String> = Vec::new();
    let mut i: usize = 0;
    let ghost all = lines(output@).map_values(trimming());
    proof {
        reveal(Seq::filter);
        assert(all.take(0) =~= Seq::<Seq<char>>::empty());
        assert(texts(out@) =~= Seq::<Seq<char>>::empty());
    }
    while i < n
        invariant
            n == rows.len(),
            i <= n,
            texts(rows@) == lines(output@),
            all == lines(output@).map_values(trimming()),
            texts(out@) == all.take(i as int).filter(non_empty()),
        decreases n - i,
    {
        let row = trim(rows[i].as_str());
        proof {
            assert(texts(rows@)[i as int] == rows[i as int]@);
            assert(all[i as int] == row@);
            assert(all.take(i + 1) =~= all.take(i as int).push(row@));
            all.take(i as int).lemma_filter_push(row@, non_empty());
        }
        let ghost before = texts(out@);
        if !row.is_empty() {
            out.push(text(row));
            assert(texts(out@) =~= before.push(row@));
        }
        i = i + 1;
    }
    assert(all.take(n as int) =~= all);
    out
}

/// Reads the human-readable size from a size report.
pub fn get_available_space(output: &str) -> (r: String)
    ensures
        r@ == trimmed(output@),
{
    text(trim(output))
}

/// What the system reported of one device, as raw text.
#[derive(Clone, Debug, PartialEq, Eq)]
pub struct DeviceReport {
    /// The kernel's name of the device.
    pub name: String,
    /// The answer to the size query, in bytes.
    pub size: String,
    /// The answer to the mount-point query.
    pub mounts: String,
    /// The answer to the human-readable size query.
    pub available: String,
}

/// The mathematical content of a [`DeviceReport`].
pub struct DeviceReportView {
    pub name: Seq<char>,
    pub size: Seq<char>,
    pub mounts: Seq<char>,
    pub available: Seq<char>,
}

impl View for DeviceReport {
    type V = DeviceReportView;

    open spec fn view(&self) -> DeviceReportView {
        DeviceReportView {
            name: self.name@,
            size: self.size@,
            mounts: self.mounts@,
            available: self.available@,
        }
    }
}

/// The contents of a list of reports.
pub open spec fn report_views(v: Seq<DeviceReport>) -> Seq<DeviceReportView> {
    Seq::new(v.len(), |i: int| v[i]@)
}

/// The device that a report describes.
pub open spec fn described(report: DeviceReportView) -> BlockDeviceView {
    BlockDeviceView {
        name: report.name,
        total_bytes: total_space(report.size) as nat,
        available: trimmed(report.available),
        mount_points: mount_points(report.mounts),
    }
}

/// [`described`] as a function.
pub open spec fn describing() -> spec_fn(DeviceReportView) -> BlockDeviceView {
    |report: DeviceReportView| described(report)
}

/// The devices that a scan offers: those described by the reports, in the
/// order of the reports, without the ineligible ones.
pub open spec fn eligible_devices(reports: Seq<DeviceReportView>) -> Seq<BlockDeviceView> {
    reports.map_values(describing()).filter(eligibility())
}

/// Reads a device snapshot from a report.
pub fn describe(report: &DeviceReport) -> (d: BlockDevice)
    ensures
        d@ == described(report@),
{
    BlockDevice {
        name: report.name.clone(),
        total_bytes: get_total_space(report.size.as_str()),
        available: get_available_space(report.available.as_str()),
        mount_points: get_mount_points(report.mounts.as_str()),
    }
}

/// The eligible devices of one scan. The position of a device in it is the
/// ordinal under which the operator selects it.
#[derive(Debug)]
pub struct Inventory {
    devices: Vec<BlockDevice>,
}

impl View for Inventory {
    type V = Seq<BlockDeviceView>;

    closed spec fn view(&self) -> Seq<BlockDeviceView> {
        device_views(self.devices@)
    }
}

impl Inventory {
    #[verifier::type_invariant]
    spec fn all_eligible(self) -> bool {
        forall|i: int| 0 <= i < self.devices.len() ==> (#[trigger] self.devices[i])@.eligible()
    }

    /// How many devices are listed.
    pub fn len(&self) -> (n: usize)
        ensures
            n == self@.len(),
    {
        self.devices.len()
    }

    /// The device listed under `ordinal`, if there is one. Every listed
    /// device is eligible.
    pub fn get(&self, ordinal: usize) -> (r: Option<&BlockDevice>)
        ensures
            ordinal < self@.len() ==> r.is_some() && r.unwrap()@ == self@[ordinal as int],
            ordinal >= self@.len() ==> r.is_none(),
            r.is_some() ==> r.unwrap()@.eligible(),
    {
        proof {
            use_type_invariant(self);
        }
        if ordinal < self.devices.len() {
            Some(&self.devices[ordinal])
        } else {
            None
        }
    }
}

/// Keeps the eligible ones of `candidates`, in their order.
pub fn list_eligible_devices(candidates: &Vec<BlockDevice>) -> (inventory: Inventory)
    ensures
        inventory@ == device_views(candidates@).filter(eligibility()),
        forall|i: int| 0 <= i < inventory@.len() ==> (#[trigger] inventory@[i]).eligible(),
{
    let n = candidates.len();
    let mut kept: Vec<BlockDevice> = Vec::new();
    let mut i: usize = 0;
    let ghost all = device_views(candidates@);
    proof {
        reveal(Seq::filter);
        assert(all.take(0) =~= Seq::<BlockDeviceView>::empty());
        assert(device_views(kept@) =~= Seq::<BlockDeviceView>::empty());
    }
    while i < n
        invariant
            n == candidates.len(),
            i <= n,
            all == device_views(candidates@),
            device_views(kept@) == all.take(i as int).filter(eligibility()),
            forall|j: int| 0 <= j < kept.len() ==> (#[trigger] kept[j])@.eligible(),
        decreases n - i,
    {
        let ghost before = device_views(kept@);
        proof {
            assert(all.take(i + 1) =~= all.take(i as int).push(candidates[i as int]@));
            all.take(i as int).lemma_filter_push(candidates[i as int]@, eligibility());
        }
        if candidates[i].is_eligible() {
            kept.push(candidates[i].duplicate());
            assert(device_views(kept@) =~= before.push(candidates[i as int]@));
        }
        i = i + 1;
    }
    assert(all.take(n as int) =~= all);
    let inventory = Inventory { devices: kept };
    assert forall|i: int| 0 <= i < inventory@.len() implies (#[trigger] inventory@[i]).eligible() by {
        assert(inventory@[i] == kept[i]@);
    }
    inventory
}

/// Builds the inventory of one scan from what the system reported of each
/// device: reads each report and keeps the eligible devices.
pub fn get_drives_info(reports: &Vec<DeviceReport>) -> (inventory: Inventory)
    ensures
        inventory@ == eligible_devices(report_views(reports@)),
        forall|i: int| 0 <= i < inventory@.len() ==> (#[trigger] inventory@[i]).eligible(),
{
    let n = reports.len();
    let mut all: Vec<BlockDevice> = Vec::new();
    let mut i: usize = 0;
    while i < n
        invariant
            n == reports.len(),
            i <= n,
            all.len() == i,
            forall|j: int| 0 <= j < i ==> (#[trigger] all[j])@ == described(reports[j]@),
        decreases n - i,
    {
        all.push(describe(&reports[i]));
        i = i + 1;
    }
    assert(device_views(all@) =~= report_views(reports@).map_values(describing()));
    list_eligible_devices(&all)
}

} // verus!
