//! Raw writes of the boot-loader stages: their geometry on the device, the
//! invocation that performs one, and what one does to the device's bytes.

use vstd::prelude::*;
use vstd::string::StringExecFns;
use crate::command::{join, text, Command, CommandView};
use crate::decimal::{decimal, decimal_string};

verus! {

/// Block size of the first boot-loader stage, in KiB.
pub const STAGE1_BLOCK_KIB: u32 = 128;

/// Blocks that the first boot-loader stage may fill.
pub const STAGE1_BLOCKS: u32 = 1;

/// Block size of the second boot-loader stage, in KiB.
pub const STAGE2_BLOCK_KIB: u32 = 384;

/// Blocks that the second boot-loader stage may fill.
pub const STAGE2_BLOCKS: u32 = 2;

/// Blocks to skip on the device before either stage.
pub const BOOT_SEEK_BLOCKS: u32 = 1;

/// Where on a device an image goes: `seek` blocks in, at most `count`
/// blocks long, a block being `block_kib` KiB.
#[derive(Clone, Copy, Debug, PartialEq, Eq, Structural)]
pub struct RawWrite {
    pub block_kib: u32,
    pub count: u32,
    pub seek: u32,
}

/// Why a raw write was not made.
#[derive(Clone, Copy, Debug, PartialEq, Eq, Structural)]
pub enum RawWriteError {
    /// The bytes to write would reach past the end of the device.
    PastEnd,
}

impl RawWrite {
    /// The size of a block in bytes.
    pub open spec fn block_bytes(self) -> nat {
        self.block_kib as nat * 1024
    }

    /// The byte offset on the device at which the image starts.
    pub open spec fn offset(self) -> nat {
        self.seek as nat * self.block_bytes()
    }

    /// The most bytes that are written.
    pub open spec fn capacity(self) -> nat {
        self.count as nat * self.block_bytes()
    }

    /// How many bytes of an image of `image_len` bytes are written.
    pub open spec fn written(self, image_len: nat) -> nat {
        if image_len <= self.capacity() {
            image_len
        } else {
            self.capacity()
        }
    }

    /// Whether the bytes to write lie within a device of `device_len` bytes.
    pub open spec fn fits(self, device_len: nat, image_len: nat) -> bool {
        self.offset() + self.written(image_len) <= device_len
    }

    /// The device after the write: the written bytes replace those at the
    /// offset, every other byte stays, and the length stays.
    pub open spec fn outcome(self, device: Seq<u8>, image: Seq<u8>) -> Seq<u8>
        recommends
            self.fits(device.len(), image.len()),
    {
        let start = self.offset() as int;
        let n = self.written(image.len()) as int;
        device.subrange(0, start) + image.take(n) + device.subrange(start + n, device.len() as int)
    }

    /// The geometry of the first boot-loader stage.
    pub open spec fn stage1_spec() -> RawWrite {
        RawWrite { block_kib: STAGE1_BLOCK_KIB, count: STAGE1_BLOCKS, seek: BOOT_SEEK_BLOCKS }
    }

    /// The geometry of the second boot-loader stage.
    pub open spec fn stage2_spec() -> RawWrite {
        RawWrite { block_kib: STAGE2_BLOCK_KIB, count: STAGE2_BLOCKS, seek: BOOT_SEEK_BLOCKS }
    }

    /// The geometry of the first boot-loader stage: one block of 128 KiB,
    /// one block in.
    #[verifier::when_used_as_spec(stage1_spec)]
    pub fn stage1() -> (g: RawWrite)
        ensures
            g == RawWrite::stage1_spec(),
    {
        RawWrite { block_kib: STAGE1_BLOCK_KIB, count: STAGE1_BLOCKS, seek: BOOT_SEEK_BLOCKS }
    }

    /// The geometry of the second boot-loader stage: two blocks of 384 KiB,
    /// one block in.
    #[verifier::when_used_as_spec(stage2_spec)]
    pub fn stage2() -> (g: RawWrite)
        ensures
            g == RawWrite::stage2_spec(),
    {
        RawWrite { block_kib: STAGE2_BLOCK_KIB, count: STAGE2_BLOCKS, seek: BOOT_SEEK_BLOCKS }
    }

    /// The arguments of the invocation that performs this write.
    pub open spec fn arguments(self, image: Seq<char>, device: Seq<char>) -> Seq<Seq<char>> {
        seq![
            "if="@ + image,
            "of="@ + device,
            "count="@ + decimal(self.count as nat),
            "seek="@ + decimal(self.seek as nat),
            "conv=notrunc"@,
            "bs="@ + decimal(self.block_kib as nat) + "k"@,
        ]
    }

    /// The invocation that performs this write.
    pub open spec fn invocation(self, image: Seq<char>, device: Seq<char>) -> CommandView {
        CommandView { program: "dd"@, args: self.arguments(image, device) }
    }

    /// The invocation that writes the file `image` to `device` with this
    /// geometry, without truncating the device.
    pub fn command(&self, image: &str, device: &str) -> (c: Command)
        ensures
            c@ == self.invocation(image@, device@),
    {
        let mut args: Vec<String> = Vec::new();
        args.push(join("if=", image));
        args.push(join("of=", device));
        args.push(join("count=", decimal_string(self.count as u64).as_str()));
        args.push(join("seek=", decimal_string(self.seek as u64).as_str()));
        args.push(text("conv=notrunc"));
        args.push(join("bs=", decimal_string(self.block_kib as u64).as_str()).concat("k"));
        let c = Command::new("dd", args);
        assert(c@.args =~= self.arguments(image@, device@));
        c
    }

    /// Performs this write on a device held in memory. It is made only when
    /// it fits the device, and then changes nothing but the written bytes.
    pub fn apply(&self, device: &mut Vec<u8>, image: &Vec<u8>) -> (r: Result<(), RawWriteError>)
        ensures
            self.fits(old(device)@.len(), image@.len()) ==> r.is_ok() && final(device)@
                == self.outcome(old(device)@, image@),
            !self.fits(old(device)@.len(), image@.len()) ==> r == Err::<(), RawWriteError>(
                RawWriteError::PastEnd,
            ) && final(device)@ == old(device)@,
    {
        let block: u128 = self.block_kib as u128 * 1024;
        assert(self.seek as int * block as int <= 0xFFFF_FFFF * 0x400_0000_0000) by (nonlinear_arith)
            requires
                0 <= self.seek <= 0xFFFF_FFFF,
                0 <= block <= 0x400_0000_0000,
        ;
        assert(self.count as int * block as int <= 0xFFFF_FFFF * 0x400_0000_0000) by (nonlinear_arith)
            requires
                0 <= self.count <= 0xFFFF_FFFF,
                0 <= block <= 0x400_0000_0000,
        ;
        let start: u128 = self.seek as u128 * block;
        let capacity: u128 = self.count as u128 * block;
        let n: u128 = if image.len() as u128 <= capacity {
            image.len() as u128
        } else {
            capacity
        };
        if start + n > device.len() as u128 {
            return Err(RawWriteError::PastEnd);
        }
        let start: usize = start as usize;
        let n: usize = n as usize;
        let mut k: usize = 0;
        while k < n
            invariant
                k <= n,
                n == self.written(image@.len()),
                start == self.offset(),
                start + n <= device.len(),
                device.len() == old(device).len(),
                device@ == old(device)@.subrange(0, start as int) + image@.take(k as int) + old(
                    device,
                )@.subrange(start + k, old(device)@.len() as int),
            decreases n - k,
        {
            device.set(start + k, image[k]);
            k = k + 1;
        }
        Ok(())
    }
}

/// A raw write that fits leaves the device's length and every byte outside
/// the written span as they were: those before the offset, and those from
/// the end of the written bytes on. An image shorter than the span's
/// capacity is written whole, so the bytes right after it stay too.
pub proof fn lemma_raw_write_keeps_surroundings(g: RawWrite, device: Seq<u8>, image: Seq<u8>)
    requires
        g.fits(device.len(), image.len()),
    ensures
        g.outcome(device, image).len() == device.len(),
        forall|i: int| 0 <= i < g.offset() ==> g.outcome(device, image)[i] == device[i],
        forall|i: int|
            g.offset() + g.written(image.len()) <= i < device.len() ==> g.outcome(device, image)[i]
                == device[i],
        forall|i: int|
            0 <= i < g.written(image.len()) ==> g.outcome(device, image)[g.offset() + i]
                == image[i],
        image.len() <= g.capacity() ==> g.written(image.len()) == image.len(),
{
}

/// Where the two boot-loader stages lie on the device: the first in the
/// 128 KiB that start 128 KiB in, the second in the 768 KiB that start
/// 384 KiB in. The spans do not overlap, so writing the second stage leaves
/// every byte of the first as it was.
pub proof fn lemma_boot_stages_lie_apart(device: Seq<u8>, image: Seq<u8>)
    requires
        RawWrite::stage2().fits(device.len(), image.len()),
    ensures
        RawWrite::stage1().offset() == 131072,
        RawWrite::stage1().capacity() == 131072,
        RawWrite::stage2().offset() == 393216,
        RawWrite::stage2().capacity() == 786432,
        forall|i: int|
            RawWrite::stage1().offset() <= i < RawWrite::stage1().offset()
                + RawWrite::stage1().capacity() ==> RawWrite::stage2().outcome(device, image)[i]
                == device[i],
{
    lemma_raw_write_keeps_surroundings(RawWrite::stage2(), device, image);
}

/// The invocation that raw-writes the first boot-loader stage from
/// `mlo_path` to `device`: one block of 128 KiB, one block in, the device
/// not truncated.
pub fn write_mlo_to_device(device: &str, mlo_path: &str) -> (c: Command)
    ensures
        c@.program == "dd"@,
        c@.args == seq![
            "if="@ + mlo_path@,
            "of="@ + device@,
            "count=1"@,
            "seek=1"@,
            "conv=notrunc"@,
            "bs=128k"@,
        ],
        c@ == RawWrite::stage1().invocation(mlo_path@, device@),
{
    let c = RawWrite::stage1().command(mlo_path, device);
    proof {
        reveal_with_fuel(decimal, 3);
        reveal_strlit("count=");
        reveal_strlit("count=1");
        reveal_strlit("seek=");
        reveal_strlit("seek=1");
        reveal_strlit("bs=");
        reveal_strlit("k");
        reveal_strlit("bs=128k");
        assert("count="@ + decimal(1) =~= "count=1"@);
        assert("seek="@ + decimal(1) =~= "seek=1"@);
        assert("bs="@ + decimal(128) + "k"@ =~= "bs=128k"@);
    }
    c
}

/// The invocation that raw-writes the second boot-loader stage from
/// `uboot_img_path` to `device`: two blocks of 384 KiB, one block in, the
/// device not truncated.
pub fn write_uboot_to_device(device: &str, uboot_img_path: &str) -> (c: Command)
    ensures
        c@.program == "dd"@,
        c@.args == seq![
            "if="@ + uboot_img_path@,
            "of="@ + device@,
            "count=2"@,
            "seek=1"@,
            "conv=notrunc"@,
            "bs=384k"@,
        ],
        c@ == RawWrite::stage2().invocation(uboot_img_path@, device@),
{
    let c = RawWrite::stage2().command(uboot_img_path, device);
    proof {
        reveal_with_fuel(decimal, 3);
        reveal_strlit("count=");
        reveal_strlit("count=2");
        reveal_strlit("seek=");
        reveal_strlit("seek=1");
        reveal_strlit("bs=");
        reveal_strlit("k");
        reveal_strlit("bs=384k");
        assert("count="@ + decimal(2) =~= "count=2"@);
        assert("seek="@ + decimal(1) =~= "seek=1"@);
        assert("bs="@ + decimal(384) + "k"@ =~= "bs=384k"@);
    }
    c
}

} // verus!
