//! The HAL contract proper: the capability interfaces, the error model, the
//! platform-description record and the kernel-entry abstraction, together
//! with the sector arithmetic their contracts are stated over.

use vstd::prelude::*;

verus! {

/// The one error this layer defines: the operation is not supported, most
/// often because an address and length pair falls outside the device's
/// capacity.
#[derive(Clone, Copy, Debug, PartialEq, Eq, Structural)]
pub enum HalError {
    NotSupported,
}

/// An opaque token standing for the active console instance. The kernel
/// side never interprets it; it only hands it back to the HAL.
pub type ConsoleHandle = usize;

/// An opaque token standing for the active block-device instance.
pub type BlockDeviceHandle = usize;

/// The record handed from the bootstrap sequence to the kernel at the point
/// of control transfer. Its fields, their order and their widths are the
/// contract between the two independently compiled sides and must not
/// change shape within a release line.
#[derive(Clone, Copy, Debug, PartialEq, Eq, Structural)]
pub struct PlatformInfo {
    /// Handle of the active console.
    pub console: ConsoleHandle,
    /// Handle of the active block device.
    pub disk: BlockDeviceHandle,
    /// Total memory of the machine, in bytes, exactly as discovered.
    pub memory_size_bytes: u64,
    /// Number of logical processor cores, exactly as discovered.
    pub cpu_cores: u64,
}

impl PlatformInfo {
    /// Assemble a fully populated record; every field is taken over
    /// unchanged, with no transformation or rounding.
    pub fn new(
        console: ConsoleHandle,
        disk: BlockDeviceHandle,
        memory_size_bytes: u64,
        cpu_cores: u64,
    ) -> (info: PlatformInfo)
        ensures
            info == (PlatformInfo { console, disk, memory_size_bytes, cpu_cores }),
    {
        PlatformInfo { console, disk, memory_size_bytes, cpu_cores }
    }
}

/// Whether a transfer of one `ss`-byte sector at address `lba` stays within
/// a device of `total` bytes. A zero-length transfer is never in range:
/// rejecting it keeps a silent no-op from passing as a successful transfer.
pub open spec fn sector_in_range(total: nat, lba: u64, ss: nat) -> bool {
    0 < ss && (lba as int) * (ss as int) + (ss as int) <= total as int
}

/// The byte offset at which sector `lba` of `ss`-byte sectors starts.
pub open spec fn sector_start(lba: u64, ss: nat) -> int {
    (lba as int) * (ss as int)
}

/// The bytes of the `ss`-byte sector at address `lba` in `data`.
pub open spec fn sector_at(data: Seq<u8>, lba: u64, ss: nat) -> Seq<u8>
    recommends
        sector_in_range(data.len(), lba, ss),
{
    data.subrange(sector_start(lba, ss), sector_start(lba, ss) + ss)
}

/// `data` with the sector at address `lba` replaced by `sector`; every byte
/// outside that sector is the byte of `data`.
pub open spec fn splice_sector(data: Seq<u8>, lba: u64, sector: Seq<u8>) -> Seq<u8>
    recommends
        sector_in_range(data.len(), lba, sector.len()),
{
    Seq::new(
        data.len(),
        |i: int|
            if sector_start(lba, sector.len()) <= i < sector_start(lba, sector.len())
                + sector.len() {
                sector[i - sector_start(lba, sector.len())]
            } else {
                data[i]
            },
    )
}

/// A sector start is never negative.
pub proof fn lemma_sector_start_nonneg(lba: u64, ss: nat)
    ensures
        sector_start(lba, ss) >= 0,
{
    assert((lba as int) * (ss as int) >= 0) by (nonlinear_arith)
        requires
            lba as int >= 0,
            ss as int >= 0,
    ;
}

/// Round-trip law: reading back the sector just written returns exactly the
/// bytes that were written, whatever the device held there before.
pub proof fn lemma_sector_round_trip(data: Seq<u8>, lba: u64, sector: Seq<u8>)
    requires
        sector_in_range(data.len(), lba, sector.len()),
    ensures
        sector_at(splice_sector(data, lba, sector), lba, sector.len()) == sector,
{
    lemma_sector_start_nonneg(lba, sector.len());
    assert(sector_at(splice_sector(data, lba, sector), lba, sector.len()) =~= sector);
}

/// Replacing a sector changes no byte outside it and never changes the
/// device's size.
pub proof fn lemma_splice_preserves_rest(data: Seq<u8>, lba: u64, sector: Seq<u8>)
    requires
        sector_in_range(data.len(), lba, sector.len()),
    ensures
        splice_sector(data, lba, sector).len() == data.len(),
        forall|i: int|
            0 <= i < data.len() && !(sector_start(lba, sector.len()) <= i < sector_start(
                lba,
                sector.len(),
            ) + sector.len()) ==> splice_sector(data, lba, sector)[i] == data[i],
{
}

/// A zero-length transfer is out of range for every address and every
/// device size: it always fails, never succeeds as a no-op.
pub proof fn lemma_zero_length_out_of_range(total: nat, lba: u64)
    ensures
        !sector_in_range(total, lba, 0),
{
}

/// A character console capability. Output is best effort: a write never
/// fails and never ends the boot, whatever bytes it is given; what effect a
/// call has is fixed by each implementation through `wrote` and `read`.
pub trait Console: Sized {
    /// What holds of the console after `write_bytes(bytes)` has turned
    /// `pre` into `self`.
    spec fn wrote(&self, pre: Self, bytes: Seq<u8>) -> bool;

    /// What holds of the console after `read_byte` has turned `pre` into
    /// `self` and returned `r`.
    spec fn read(&self, pre: Self, r: Option<u8>) -> bool;

    /// Write a byte sequence. The bytes need not be valid text; an
    /// implementation aimed at a terminal substitutes or discards malformed
    /// sequences rather than fail.
    fn write_bytes(&mut self, bytes: &[u8])
        ensures
            final(self).wrote(*old(self), bytes@),
    ;

    /// Read one byte of input; `None` where no input source exists or none
    /// is currently available.
    fn read_byte(&mut self) -> (r: Option<u8>)
        ensures
            final(self).read(*old(self), r),
    ;
}

/// A block-addressable storage capability: a linear array of fixed-size
/// sectors, the sector size being fixed by the buffer each call supplies.
/// Both transfers are all-or-nothing: either exactly one sector's worth of
/// bytes moves and the count is returned, or the call fails out of range
/// with no effect on the device or the buffer.
pub trait BlockDevice: Sized {
    /// The device's bytes in address order; the length is the device's
    /// total byte capacity.
    spec fn contents(&self) -> Seq<u8>;

    /// Copy the sector at `lba` into `buf`; the requested sector size is
    /// `buf`'s length. In range, exactly that many bytes are copied and the
    /// count returned; out of range, the call fails and `buf` is unchanged.
    fn read_sector(&self, lba: u64, buf: &mut Vec<u8>) -> (r: Result<usize, HalError>)
        ensures
            sector_in_range(self.contents().len(), lba, old(buf)@.len()) ==> r == Ok::<
                usize,
                HalError,
            >(old(buf)@.len() as usize) && final(buf)@ == sector_at(
                self.contents(),
                lba,
                old(buf)@.len(),
            ),
            !sector_in_range(self.contents().len(), lba, old(buf)@.len()) ==> r == Err::<
                usize,
                HalError,
            >(HalError::NotSupported) && final(buf)@ == old(buf)@,
    ;

    /// Copy `buf` over the sector at `lba`. In range, exactly `buf`'s
    /// length in bytes is written and the count returned; out of range, the
    /// call fails and the device's bytes are unchanged.
    fn write_sector(&mut self, lba: u64, buf: &[u8]) -> (r: Result<usize, HalError>)
        ensures
            sector_in_range(old(self).contents().len(), lba, buf@.len()) ==> r == Ok::<
                usize,
                HalError,
            >(buf@.len() as usize) && final(self).contents() == splice_sector(
                old(self).contents(),
                lba,
                buf@,
            ),
            !sector_in_range(old(self).contents().len(), lba, buf@.len()) ==> r == Err::<
                usize,
                HalError,
            >(HalError::NotSupported) && final(self).contents() == old(self).contents(),
    ;
}

/// The single point of control transfer to the kernel. A real entry point
/// jumps with the platform C calling convention and never returns; a
/// simulated one records the hand-off and returns. The two are selected at
/// build time and are the sole difference between the builds: the rest of
/// the bootstrap sequence is identical.
pub trait KernelEntry: Sized {
    /// The platform record this entry point was last invoked with, if any.
    spec fn entered_with(&self) -> Option<PlatformInfo>;

    /// Transfer control to the kernel, passing the platform description by
    /// reference. The record must stay valid and unmoved for as long as the
    /// kernel may dereference it.
    fn enter(&mut self, info: &PlatformInfo)
        ensures
            final(self).entered_with() == Some(*info),
    ;
}

} // verus!
