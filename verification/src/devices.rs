//! Memory-backed reference implementations of the HAL capabilities: a
//! console that keeps its output in a buffer, a block device over a linear
//! byte array, and a kernel entry point that records the hand-off instead
//! of jumping.

use vstd::prelude::*;

use crate::hal::{
    BlockDevice, Console, HalError, KernelEntry, PlatformInfo, lemma_sector_start_nonneg,
    sector_at, sector_in_range, sector_start, splice_sector,
};

verus! {

/// A vector holding `len` copies of `value`.
pub fn bytes_filled(len: usize, value: u8) -> (v: Vec<u8>)
    ensures
        v@ == Seq::new(len as nat, |i: int| value),
{
    let mut v: Vec<u8> = Vec::new();
    let mut i: usize = 0;
    while i < len
        invariant
            i <= len,
            v@ == Seq::new(i as nat, |j: int| value),
        decreases len - i,
    {
        v.push(value);
        i = i + 1;
        proof {
            assert(v@ =~= Seq::new(i as nat, |j: int| value));
        }
    }
    v
}

/// A memory-backed console: everything written is kept in a buffer, in
/// order, for the hosting side to drain and display; it has no input
/// source. Its view is the buffered output.
pub struct MemConsole {
    output: Vec<u8>,
}

impl View for MemConsole {
    type V = Seq<u8>;

    closed spec fn view(&self) -> Seq<u8> {
        self.output@
    }
}

impl MemConsole {
    /// A console with nothing buffered yet.
    pub fn new() -> (c: MemConsole)
        ensures
            c@ == Seq::<u8>::empty(),
    {
        MemConsole { output: Vec::new() }
    }

    /// Hand over everything buffered so far, leaving the buffer empty.
    pub fn take_output(&mut self) -> (out: Vec<u8>)
        ensures
            out@ == old(self)@,
            final(self)@ == Seq::<u8>::empty(),
    {
        let mut out: Vec<u8> = Vec::new();
        core::mem::swap(&mut out, &mut self.output);
        out
    }
}

impl Console for MemConsole {
    /// A write appends the bytes to the buffered output, unaltered.
    open spec fn wrote(&self, pre: Self, bytes: Seq<u8>) -> bool {
        self@ == pre@ + bytes
    }

    /// There is no input source: a read returns `None` and changes nothing.
    open spec fn read(&self, pre: Self, r: Option<u8>) -> bool {
        self@ == pre@ && r is None
    }

    fn write_bytes(&mut self, bytes: &[u8]) {
        let ghost buffered: Seq<u8> = self@;
        let mut i: usize = 0;
        while i < bytes.len()
            invariant
                i <= bytes@.len(),
                self@ == buffered + bytes@.subrange(0, i as int),
            decreases bytes@.len() - i,
        {
            let b = bytes[i];
            self.output.push(b);
            i = i + 1;
            proof {
                assert(self@ =~= buffered + bytes@.subrange(0, i as int));
            }
        }
        proof {
            assert(buffered + bytes@.subrange(0, bytes@.len() as int) =~= buffered + bytes@);
        }
    }

    fn read_byte(&mut self) -> (r: Option<u8>) {
        None
    }
}

/// A memory-backed block device: a linear byte array addressed in sectors,
/// the sector size being fixed by the buffer each call supplies. Its view
/// is the array of bytes it holds.
pub struct MemBlockDevice {
    data: Vec<u8>,
}

impl View for MemBlockDevice {
    type V = Seq<u8>;

    closed spec fn view(&self) -> Seq<u8> {
        self.data@
    }
}

impl MemBlockDevice {
    /// A zero-filled device of `sectors` sectors of `sector_size` bytes
    /// each. The product must fit the address space.
    pub fn new(sectors: usize, sector_size: usize) -> (d: MemBlockDevice)
        requires
            sectors * sector_size <= usize::MAX,
        ensures
            d@ == Seq::new((sectors * sector_size) as nat, |i: int| 0u8),
    {
        MemBlockDevice { data: bytes_filled(sectors * sector_size, 0u8) }
    }
}

/// In-range sector bounds keep every offset the transfer loops touch
/// within the device and within the address space.
proof fn lemma_transfer_bounds(total: int, lba: u64, ss: int)
    requires
        0 < ss,
        (lba as int) * ss + ss <= total,
        total <= usize::MAX,
    ensures
        lba as int <= (lba as int) * ss,
        0 <= (lba as int) * ss,
        (lba as int) * ss + ss <= total,
{
    assert(lba as int <= (lba as int) * ss && 0 <= (lba as int) * ss) by (nonlinear_arith)
        requires
            lba as int >= 0,
            ss >= 1,
    ;
}

/// The sector bounds check never overflows 128-bit arithmetic.
proof fn lemma_check_fits_u128(lba: u64, ss: usize)
    ensures
        (lba as int) * (ss as int) + (ss as int) <= u128::MAX,
{
    assert((lba as int) * (ss as int) <= 0xffff_ffff_ffff_ffff * 0xffff_ffff_ffff_ffff)
        by (nonlinear_arith)
        requires
            0 <= lba as int <= 0xffff_ffff_ffff_ffff,
            0 <= ss as int <= 0xffff_ffff_ffff_ffff,
    ;
}

impl BlockDevice for MemBlockDevice {
    open spec fn contents(&self) -> Seq<u8> {
        self@
    }

    fn read_sector(&self, lba: u64, buf: &mut Vec<u8>) -> (r: Result<usize, HalError>) {
        let ss = buf.len();
        let total = self.data.len();
        proof {
            lemma_check_fits_u128(lba, ss);
        }
        if ss == 0 || (lba as u128) * (ss as u128) + (ss as u128) > (total as u128) {
            return Err(HalError::NotSupported);
        }
        proof {
            lemma_transfer_bounds(total as int, lba, ss as int);
        }
        let start = (lba as usize) * ss;
        let mut i: usize = 0;
        while i < ss
            invariant
                i <= ss,
                buf@.len() == ss,
                self.data@.len() == total,
                start as int == sector_start(lba, ss as nat),
                start + ss <= total,
                forall|j: int| 0 <= j < i ==> buf@[j] == self.data@[start + j],
            decreases ss - i,
        {
            let b = self.data[start + i];
            buf[i] = b;
            i = i + 1;
        }
        proof {
            assert(buf@ =~= sector_at(self.contents(), lba, ss as nat));
        }
        Ok(ss)
    }

    fn write_sector(&mut self, lba: u64, buf: &[u8]) -> (r: Result<usize, HalError>) {
        let ss = buf.len();
        let total = self.data.len();
        proof {
            lemma_check_fits_u128(lba, ss);
        }
        if ss == 0 || (lba as u128) * (ss as u128) + (ss as u128) > (total as u128) {
            return Err(HalError::NotSupported);
        }
        proof {
            lemma_transfer_bounds(total as int, lba, ss as int);
        }
        let start = (lba as usize) * ss;
        let mut i: usize = 0;
        while i < ss
            invariant
                i <= ss,
                self@.len() == total,
                buf@.len() == ss,
                start as int == sector_start(lba, ss as nat),
                start + ss <= total,
                forall|j: int| 0 <= j < start ==> self@[j] == old(self)@[j],
                forall|j: int| start + ss <= j < total ==> self@[j] == old(self)@[j],
                forall|j: int| 0 <= j < i ==> self@[start + j] == buf@[j],
            decreases ss - i,
        {
            let b = buf[i];
            self.data[start + i] = b;
            i = i + 1;
        }
        proof {
            lemma_sector_start_nonneg(lba, ss as nat);
            assert(self@ =~= splice_sector(old(self)@, lba, buf@));
        }
        Ok(ss)
    }
}

/// A simulated kernel entry point for hosted and test builds: in place of
/// the one-way jump it records the platform record it was invoked with,
/// so a caller can observe that the hand-off happened and with what.
pub struct SimulatedKernelEntry {
    handed: Option<PlatformInfo>,
}

impl SimulatedKernelEntry {
    /// An entry point that has not been invoked yet.
    pub fn new() -> (k: SimulatedKernelEntry)
        ensures
            k.entered_with() is None,
    {
        SimulatedKernelEntry { handed: None }
    }

    /// The recorded hand-off, for the hosting side to inspect.
    pub fn handed(&self) -> (r: Option<PlatformInfo>)
        ensures
            r == self.entered_with(),
    {
        self.handed
    }
}

impl KernelEntry for SimulatedKernelEntry {
    closed spec fn entered_with(&self) -> Option<PlatformInfo> {
        self.handed
    }

    fn enter(&mut self, info: &PlatformInfo) {
        self.handed = Some(*info);
    }
}

} // verus!
