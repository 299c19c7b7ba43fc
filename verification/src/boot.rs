//! The bootstrap sequence: instantiate nothing itself, but take the
//! platform's devices, emit a banner, assemble the platform record, run the
//! disk self-test, report it over the console, and perform the hand-off.
//! Self-test failure is advisory: it is reported and the hand-off is still
//! attempted, so a usable device is never kept from the kernel by an
//! unusable self-test sector.

use vstd::prelude::*;

use crate::devices::bytes_filled;
use crate::hal::{
    BlockDevice, Console, KernelEntry, PlatformInfo, lemma_sector_round_trip, sector_in_range,
    splice_sector,
};

verus! {

/// The logical block address the self-test writes and reads back.
pub const SELF_TEST_LBA: u64 = 0;

/// The byte the self-test pattern is made of.
pub const SELF_TEST_PATTERN: u8 = 0xAA;

/// The sector the self-test writes: `ss` pattern bytes.
pub open spec fn self_test_sector(ss: nat) -> Seq<u8> {
    Seq::new(ss, |i: int| SELF_TEST_PATTERN)
}

/// Externally supplied facts about the platform, and the bootstrap policy:
/// the handle tokens under which the kernel will refer to the two devices,
/// the discovered memory size and core count, and the sector size the
/// self-test uses.
#[derive(Clone, Copy, Debug, PartialEq, Eq, Structural)]
pub struct BootConfig {
    /// Handle token the platform record will carry for the console.
    pub console_handle: usize,
    /// Handle token the platform record will carry for the block device.
    pub disk_handle: usize,
    /// Total memory in bytes, as discovered by the hosting layer.
    pub memory_size_bytes: u64,
    /// Logical core count, as discovered by the hosting layer.
    pub cpu_cores: u64,
    /// Sector size, in bytes, of the attached block device.
    pub self_test_sector_size: usize,
}

/// What the bootstrap sequence did: the record it handed to the kernel and
/// whether the disk self-test round-tripped its pattern.
#[derive(Clone, Copy, Debug, PartialEq, Eq, Structural)]
pub struct BootOutcome {
    /// The platform record passed to the kernel entry point.
    pub info: PlatformInfo,
    /// Whether the self-test pattern was written and read back intact.
    pub self_test_passed: bool,
}

/// Run the whole pre-kernel sequence: banner, platform record, disk
/// self-test, report, hand-off. The record carries the configured values
/// unchanged; the only sector the disk can differ in afterwards is the
/// self-test sector; and the self-test passes exactly where that sector is
/// in range, since a verified in-range write followed by a read returns
/// the written pattern.
pub fn bootstrap<C: Console, B: BlockDevice, K: KernelEntry>(
    console: &mut C,
    disk: &mut B,
    entry: &mut K,
    cfg: &BootConfig,
) -> (outcome: BootOutcome)
    ensures
        outcome.info == (PlatformInfo {
            console: cfg.console_handle,
            disk: cfg.disk_handle,
            memory_size_bytes: cfg.memory_size_bytes,
            cpu_cores: cfg.cpu_cores,
        }),
        final(entry).entered_with() == Some(outcome.info),
        sector_in_range(
            old(disk).contents().len(),
            SELF_TEST_LBA,
            cfg.self_test_sector_size as nat,
        ) ==> final(disk).contents() == splice_sector(
            old(disk).contents(),
            SELF_TEST_LBA,
            self_test_sector(cfg.self_test_sector_size as nat),
        ) && outcome.self_test_passed,
        !sector_in_range(
            old(disk).contents().len(),
            SELF_TEST_LBA,
            cfg.self_test_sector_size as nat,
        ) ==> final(disk).contents() == old(disk).contents() && !outcome.self_test_passed,
{
    console.write_bytes("uvm: boot sequence starting\n".as_bytes());

    let info = PlatformInfo::new(
        cfg.console_handle,
        cfg.disk_handle,
        cfg.memory_size_bytes,
        cfg.cpu_cores,
    );

    let pattern = bytes_filled(cfg.self_test_sector_size, SELF_TEST_PATTERN);
    let wrote = disk.write_sector(SELF_TEST_LBA, pattern.as_slice());
    let mut readback = bytes_filled(cfg.self_test_sector_size, 0u8);
    let got = disk.read_sector(SELF_TEST_LBA, &mut readback);

    proof {
        if sector_in_range(
            old(disk).contents().len(),
            SELF_TEST_LBA,
            cfg.self_test_sector_size as nat,
        ) {
            lemma_sector_round_trip(
                old(disk).contents(),
                SELF_TEST_LBA,
                self_test_sector(cfg.self_test_sector_size as nat),
            );
        }
    }

    let passed = wrote.is_ok() && got.is_ok() && readback == pattern;

    if passed {
        console.write_bytes("uvm: disk self-test ok\n".as_bytes());
    } else {
        console.write_bytes("uvm: disk self-test failed\n".as_bytes());
    }

    console.write_bytes("uvm: handing off to kernel\n".as_bytes());
    entry.enter(&info);

    BootOutcome { info, self_test_passed: passed }
}

} // verus!
