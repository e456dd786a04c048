//! External utility invocations as plain values: what to run, never the
//! running itself.

use vstd::prelude::*;
use vstd::string::StringExecFns;
use crate::text::texts;

verus! {

/// Where the root-filesystem archive is fetched from.
pub const ARCHIVE_URL: &'static str =
    "http://os.archlinuxarm.org/os/ArchLinuxARM-am33x-latest.tar.gz";

/// An external utility and its arguments, in order.
#[derive(Clone, Debug, PartialEq, Eq)]
pub struct Command {
    pub program: String,
    pub args: Vec<String>,
}

/// The mathematical content of a [`Command`].
pub struct CommandView {
    pub program: Seq<char>,
    pub args: Seq<Seq<char>>,
}

impl View for Command {
    type V = CommandView;

    open spec fn view(&self) -> CommandView {
        CommandView { program: self.program@, args: texts(self.args@) }
    }
}

/// An owned copy of `s`.
pub fn text(s: &str) -> (r: String)
    ensures
        r@ == s@,
{
    String::from_str(s)
}

/// `a` followed by `b`.
pub fn join(a: &str, b: &str) -> (r: String)
    ensures
        r@ == a@ + b@,
{
    String::from_str(a).concat(b)
}

impl Command {
    /// The invocation of `program` with `args`.
    pub fn new(program: &str, args: Vec<String>) -> (c: Command)
        ensures
            c@.program == program@,
            c@.args == texts(args@),
    {
        Command { program: text(program), args }
    }

    /// A copy of this invocation.
    pub fn duplicate(&self) -> (c: Command)
        ensures
            c@ == self@,
    {
        let mut args: Vec<String> = Vec::new();
        let n = self.args.len();
        let mut i: usize = 0;
        while i < n
            invariant
                n == self.args.len(),
                i <= n,
                args.len() == i,
                forall|j: int| 0 <= j < i ==> args[j]@ == self.args[j]@,
            decreases n - i,
        {
            args.push(self.args[i].clone());
            i = i + 1;
        }
        assert(texts(args@) =~= texts(self.args@));
        Command { program: self.program.clone(), args }
    }
}

impl CommandView {
    /// Lists the names of all top-level block devices.
    pub open spec fn list_devices_query() -> CommandView {
        CommandView {
            program: "lsblk"@,
            args: seq![
                "-d"@,
                "-n"@,
                "-o"@,
                "NAME"@,
            ],
        }
    }

    /// Asks for the size in bytes of the device named `drive`.
    pub open spec fn total_space_query(drive: Seq<char>) -> CommandView {
        CommandView {
            program: "lsblk"@,
            args: seq![
                "-d"@,
                "-n"@,
                "-o"@,
                "SIZE"@,
                "-b"@,
                "/dev/"@ + drive,
            ],
        }
    }

    /// Asks for the mount points of the device named `drive` and of its
    /// partitions, one per line.
    pub open spec fn mount_points_query(drive: Seq<char>) -> CommandView {
        CommandView {
            program: "lsblk"@,
            args: seq![
                "-o"@,
                "MOUNTPOINT"@,
                "-n"@,
                "/dev/"@ + drive,
            ],
        }
    }

    /// Asks for the human-readable size of the device named `drive`.
    pub open spec fn available_space_query(drive: Seq<char>) -> CommandView {
        CommandView {
            program: "lsblk"@,
            args: seq![
                "-d"@,
                "-n"@,
                "-o"@,
                "SIZE"@,
                "/dev/"@ + drive,
            ],
        }
    }

    /// Lists the device at path `device` and its partitions, one per line.
    pub open spec fn partitions_query(device: Seq<char>) -> CommandView {
        CommandView {
            program: "lsblk"@,
            args: seq![
                "-ln"@,
                device,
            ],
        }
    }

    /// Asks where the device at path `device` is mounted.
    pub open spec fn mount_status_query(device: Seq<char>) -> CommandView {
        CommandView {
            program: "lsblk"@,
            args: seq![
                "-no"@,
                "MOUNTPOINT"@,
                device,
            ],
        }
    }

    /// Fetches the root-filesystem archive into `file_path`.
    pub open spec fn download_archive(file_path: Seq<char>) -> CommandView {
        CommandView {
            program: "wget"@,
            args: seq![
                ARCHIVE_URL@,
                "-O"@,
                file_path,
            ],
        }
    }

    /// Kills every process that holds `path` open.
    pub open spec fn terminate_processes_using(path: Seq<char>) -> CommandView {
        CommandView {
            program: "fuser"@,
            args: seq![
                "-k"@,
                path,
            ],
        }
    }

    /// Force-unmounts `path`.
    pub open spec fn unmount(path: Seq<char>) -> CommandView {
        CommandView {
            program: "umount"@,
            args: seq![
                "-f"@,
                path,
            ],
        }
    }

    /// Detaches `path` lazily: at once from the tree, for good once it is idle.
    pub open spec fn unmount_force(path: Seq<char>) -> CommandView {
        CommandView {
            program: "umount"@,
            args: seq![
                "-l"@,
                path,
            ],
        }
    }

    /// Zeroes the first 8 MiB of `device`.
    pub open spec fn zero_out_device(device: Seq<char>) -> CommandView {
        CommandView {
            program: "dd"@,
            args: seq![
                "if=/dev/zero"@,
                "of="@ + device,
                "bs=1M"@,
                "count=8"@,
            ],
        }
    }

    /// Deletes every partition of `device`.
    pub open spec fn delete_partitions(device: Seq<char>) -> CommandView {
        CommandView {
            program: "sfdisk"@,
            args: seq![
                "-f"@,
                "--delete"@,
                device,
            ],
        }
    }

    /// Writes a new MS-DOS partition table to `device`.
    pub open spec fn create_partition_label(device: Seq<char>) -> CommandView {
        CommandView {
            program: "parted"@,
            args: seq![
                device,
                "--script"@,
                "mklabel"@,
                "msdos"@,
            ],
        }
    }

    /// Creates one primary partition of type ext4 on `device`, from sector
    /// 2048 to the end.
    pub open spec fn create_primary_partition(device: Seq<char>) -> CommandView {
        CommandView {
            program: "parted"@,
            args: seq![
                device,
                "--script"@,
                "mkpart"@,
                "primary"@,
                "ext4"@,
                "2048s"@,
                "100%"@,
            ],
        }
    }

    /// Creates an ext4 filesystem on the partition at path `device`.
    pub open spec fn create_ext4_filesystem(device: Seq<char>) -> CommandView {
        CommandView {
            program: "mkfs.ext4"@,
            args: seq![
                device,
            ],
        }
    }

    /// Mounts the partition at path `device` on `path`.
    pub open spec fn mount_device(device: Seq<char>, path: Seq<char>) -> CommandView {
        CommandView {
            program: "mount"@,
            args: seq![
                device,
                path,
            ],
        }
    }

    /// Extracts the archive `file_path` into `dest`, keeping permissions.
    pub open spec fn extract_tarball(file_path: Seq<char>, dest: Seq<char>) -> CommandView {
        CommandView {
            program: "bsdtar"@,
            args: seq![
                "-xpf"@,
                file_path,
                "-C"@,
                dest,
            ],
        }
    }

    /// Flushes filesystem buffers to stable storage.
    pub open spec fn sync() -> CommandView {
        CommandView {
            program: "sync"@,
            args: Seq::empty(),
        }
    }
}

/// Lists the names of all top-level block devices.
pub fn list_devices_query() -> (c: Command)
    ensures
        c@ == CommandView::list_devices_query(),
{
    let mut args: Vec<String> = Vec::new();
    args.push(text("-d"));
    args.push(text("-n"));
    args.push(text("-o"));
    args.push(text("NAME"));
    let c = Command::new("lsblk", args);
    assert(c@.args =~= CommandView::list_devices_query().args);
    c
}

/// Asks for the size in bytes of the device named `drive`.
pub fn total_space_query(drive: &str) -> (c: Command)
    ensures
        c@ == CommandView::total_space_query(drive@),
{
    let mut args: Vec<String> = Vec::new();
    args.push(text("-d"));
    args.push(text("-n"));
    args.push(text("-o"));
    args.push(text("SIZE"));
    args.push(text("-b"));
    args.push(join("/dev/", drive));
    let c = Command::new("lsblk", args);
    assert(c@.args =~= CommandView::total_space_query(drive@).args);
    c
}

/// Asks for the mount points of the device named `drive` and of its
/// partitions, one per line.
pub fn mount_points_query(drive: &str) -> (c: Command)
    ensures
        c@ == CommandView::mount_points_query(drive@),
{
    let mut args: Vec<String> = Vec::new();
    args.push(text("-o"));
    args.push(text("MOUNTPOINT"));
    args.push(text("-n"));
    args.push(join("/dev/", drive));
    let c = Command::new("lsblk", args);
    assert(c@.args =~= CommandView::mount_points_query(drive@).args);
    c
}

/// Asks for the human-readable size of the device named `drive`.
pub fn available_space_query(drive: &str) -> (c: Command)
    ensures
        c@ == CommandView::available_space_query(drive@),
{
    let mut args: Vec<String> = Vec::new();
    args.push(text("-d"));
    args.push(text("-n"));
    args.push(text("-o"));
    args.push(text("SIZE"));
    args.push(join("/dev/", drive));
    let c = Command::new("lsblk", args);
    assert(c@.args =~= CommandView::available_space_query(drive@).args);
    c
}

/// Lists the device at path `device` and its partitions, one per line.
pub fn partitions_query(device: &str) -> (c: Command)
    ensures
        c@ == CommandView::partitions_query(device@),
{
    let mut args: Vec<String> = Vec::new();
    args.push(text("-ln"));
    args.push(text(device));
    let c = Command::new("lsblk", args);
    assert(c@.args =~= CommandView::partitions_query(device@).args);
    c
}

/// Asks where the device at path `device` is mounted.
pub fn mount_status_query(device: &str) -> (c: Command)
    ensures
        c@ == CommandView::mount_status_query(device@),
{
    let mut args: Vec<String> = Vec::new();
    args.push(text("-no"));
    args.push(text("MOUNTPOINT"));
    args.push(text(device));
    let c = Command::new("lsblk", args);
    assert(c@.args =~= CommandView::mount_status_query(device@).args);
    c
}

/// Fetches the root-filesystem archive into `file_path`.
pub fn download_archive(file_path: &str) -> (c: Command)
    ensures
        c@ == CommandView::download_archive(file_path@),
{
    let mut args: Vec<String> = Vec::new();
    args.push(text(ARCHIVE_URL));
    args.push(text("-O"));
    args.push(text(file_path));
    let c = Command::new("wget", args);
    assert(c@.args =~= CommandView::download_archive(file_path@).args);
    c
}

/// Kills every process that holds `path` open.
pub fn terminate_processes_using(path: &str) -> (c: Command)
    ensures
        c@ == CommandView::terminate_processes_using(path@),
{
    let mut args: Vec<String> = Vec::new();
    args.push(text("-k"));
    args.push(text(path));
    let c = Command::new("fuser", args);
    assert(c@.args =~= CommandView::terminate_processes_using(path@).args);
    c
}

/// Force-unmounts `path`.
pub fn unmount(path: &str) -> (c: Command)
    ensures
        c@ == CommandView::unmount(path@),
{
    let mut args: Vec<String> = Vec::new();
    args.push(text("-f"));
    args.push(text(path));
    let c = Command::new("umount", args);
    assert(c@.args =~= CommandView::unmount(path@).args);
    c
}

/// Detaches `path` lazily: at once from the tree, for good once it is idle.
pub fn unmount_force(path: &str) -> (c: Command)
    ensures
        c@ == CommandView::unmount_force(path@),
{
    let mut args: Vec<String> = Vec::new();
    args.push(text("-l"));
    args.push(text(path));
    let c = Command::new("umount", args);
    assert(c@.args =~= CommandView::unmount_force(path@).args);
    c
}

/// Zeroes the first 8 MiB of `device`.
pub fn zero_out_device(device: &str) -> (c: Command)
    ensures
        c@ == CommandView::zero_out_device(device@),
{
    let mut args: Vec<String> = Vec::new();
    args.push(text("if=/dev/zero"));
    args.push(join("of=", device));
    args.push(text("bs=1M"));
    args.push(text("count=8"));
    let c = Command::new("dd", args);
    assert(c@.args =~= CommandView::zero_out_device(device@).args);
    c
}

/// Deletes every partition of `device`.
pub fn delete_partitions(device: &str) -> (c: Command)
    ensures
        c@ == CommandView::delete_partitions(device@),
{
    let mut args: Vec<String> = Vec::new();
    args.push(text("-f"));
    args.push(text("--delete"));
    args.push(text(device));
    let c = Command::new("sfdisk", args);
    assert(c@.args =~= CommandView::delete_partitions(device@).args);
    c
}

/// Writes a new MS-DOS partition table to `device`.
pub fn create_partition_label(device: &str) -> (c: Command)
    ensures
        c@ == CommandView::create_partition_label(device@),
{
    let mut args: Vec<String> = Vec::new();
    args.push(text(device));
    args.push(text("--script"));
    args.push(text("mklabel"));
    args.push(text("msdos"));
    let c = Command::new("parted", args);
    assert(c@.args =~= CommandView::create_partition_label(device@).args);
    c
}

/// Creates one primary partition of type ext4 on `device`, from sector
/// 2048 to the end.
pub fn create_primary_partition(device: &str) -> (c: Command)
    ensures
        c@ == CommandView::create_primary_partition(device@),
{
    let mut args: Vec<String> = Vec::new();
    args.push(text(device));
    args.push(text("--script"));
    args.push(text("mkpart"));
    args.push(text("primary"));
    args.push(text("ext4"));
    args.push(text("2048s"));
    args.push(text("100%"));
    let c = Command::new("parted", args);
    assert(c@.args =~= CommandView::create_primary_partition(device@).args);
    c
}

/// Creates an ext4 filesystem on the partition at path `device`.
pub fn create_ext4_filesystem(device: &str) -> (c: Command)
    ensures
        c@ == CommandView::create_ext4_filesystem(device@),
{
    let mut args: Vec<String> = Vec::new();
    args.push(text(device));
    let c = Command::new("mkfs.ext4", args);
    assert(c@.args =~= CommandView::create_ext4_filesystem(device@).args);
    c
}

/// Mounts the partition at path `device` on `path`.
pub fn mount_device(device: &str, path: &str) -> (c: Command)
    ensures
        c@ == CommandView::mount_device(device@, path@),
{
    let mut args: Vec<String> = Vec::new();
    args.push(text(device));
    args.push(text(path));
    let c = Command::new("mount", args);
    assert(c@.args =~= CommandView::mount_device(device@, path@).args);
    c
}

/// Extracts the archive `file_path` into `dest`, keeping permissions.
pub fn extract_tarball(file_path: &str, dest: &str) -> (c: Command)
    ensures
        c@ == CommandView::extract_tarball(file_path@, dest@),
{
    let mut args: Vec<String> = Vec::new();
    args.push(text("-xpf"));
    args.push(text(file_path));
    args.push(text("-C"));
    args.push(text(dest));
    let c = Command::new("bsdtar", args);
    assert(c@.args =~= CommandView::extract_tarball(file_path@, dest@).args);
    c
}

/// Flushes filesystem buffers to stable storage.
pub fn sync() -> (c: Command)
    ensures
        c@ == CommandView::sync(),
{
    let args: Vec<String> = Vec::new();
    let c = Command::new("sync", args);
    assert(c@.args =~= CommandView::sync().args);
    c
}

/// The two invocations that repartition `device`: a new MS-DOS partition
/// table, then one primary partition from sector 2048 to the end.
pub fn create_new_partition_table(device: &str) -> (r: Vec<Command>)
    ensures
        r.len() == 2,
        r[0]@ == CommandView::create_partition_label(device@),
        r[1]@ == CommandView::create_primary_partition(device@),
{
    let mut out: Vec<Command> = Vec::new();
    out.push(create_partition_label(device));
    out.push(create_primary_partition(device));
    out
}

} // verus!
