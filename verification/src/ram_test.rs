//! The background RAM test the idle task runs: RAM is tested block by
//! block from its start up to below the idle task's stack, once; a failure
//! is recorded for the bootloader and the controller reset.
use vstd::prelude::*;
use crate::boot::BootloaderRamInfo;

verus! {

/// Start of RAM.
pub const RAM_BASE: u32 = 0x2000_0000;

/// End of RAM (256 KiB).
pub const RAM_END: u32 = 0x2004_0000;

/// Size of the buffer between two linker addresses.
pub fn ram_buf_size(start: usize, end: usize) -> (r: usize)
    requires
        start <= end,
    ensures
        r == end - start,
{
    end - start
}

/// Lowers the highest address the test may reach to below the stack: when
/// `stack_addr` lies under the watermark, the watermark becomes
/// `stack_addr` rounded down to 4 KiB.
pub fn set_stack_watermark(watermark: &mut u32, stack_addr: u32)
    ensures
        *final(watermark) == (if stack_addr < *old(watermark) { (stack_addr / 4096 * 4096) as u32 } else { *old(watermark) }),
        *final(watermark) <= *old(watermark),
        *final(watermark) % 4096 == 0 || *final(watermark) == *old(watermark),
{
    if stack_addr < *watermark {
        *watermark = (stack_addr / 4096) * 4096;
    }
}

/// Result of testing one block.
#[derive(Clone, Copy, PartialEq, Eq, Structural)]
pub enum MemoryTestResult {
    /// The block passed.
    Passed,
    /// The test was interrupted.
    Aborted,
    /// The test failed at an address, in a phase, on a bit.
    Failed { addr: u32, phase: u8, bit: u8 },
}

/// What the idle task does after a block.
#[derive(Clone, Copy, PartialEq, Eq, Structural)]
pub enum RamTestAction {
    /// Go on.
    Continue,
    /// Record the failure (already written to the shared record) and reset.
    Reset,
}

/// Progress of the RAM test.
pub struct RamTest {
    ram_start: u32,
    block_size: u32,
    end: u32,
    offset: u32,
    done: bool,
}

impl RamTest {
    /// First address tested.
    pub closed spec fn spec_start(&self) -> u32 {
        self.ram_start
    }

    /// Size of a block.
    pub closed spec fn spec_block(&self) -> u32 {
        self.block_size
    }

    /// Highest address the test may start a block at.
    pub closed spec fn spec_end(&self) -> u32 {
        self.end
    }

    /// Offset of the next block.
    pub closed spec fn spec_offset(&self) -> u32 {
        self.offset
    }

    /// Whether all blocks were tested.
    pub closed spec fn spec_done(&self) -> bool {
        self.done
    }

    /// The progress stays within RAM addresses.
    pub closed spec fn wf(&self) -> bool {
        &&& self.end as int + self.block_size as int <= u32::MAX
        &&& self.ram_start as int + self.block_size as int <= u32::MAX
        &&& (self.offset == 0 || self.ram_start as int + self.offset as int <= self.end as int)
    }

    /// A test of blocks of `block_size` bytes from `ram_start`, up to the
    /// end of RAM lowered below the stack at `stack_addr`.
    pub fn new(ram_start: u32, block_size: u32, stack_addr: u32) -> (r: Self)
        requires
            ram_start as int + block_size as int <= u32::MAX,
            block_size <= 0x1000_0000,
        ensures
            r.wf(),
            r.spec_start() == ram_start,
            r.spec_block() == block_size,
            r.spec_end() == (if stack_addr < RAM_END { (stack_addr / 4096 * 4096) as u32 } else { RAM_END }),
            r.spec_offset() == 0,
            !r.spec_done(),
    {
        let mut end = RAM_END;
        set_stack_watermark(&mut end, stack_addr);
        RamTest { ram_start, block_size, end, offset: 0, done: false }
    }

    /// The address of the next block to test, until the test is done.
    pub fn next_block(&self) -> (r: Option<u32>)
        requires
            self.wf(),
        ensures
            r == (if self.spec_done() { None } else { Some((self.spec_start() + self.spec_offset()) as u32) }),
    {
        if self.done {
            None
        } else {
            Some(self.ram_start + self.offset)
        }
    }

    /// Takes the result of the block just tested. A passed block moves to
    /// the next one, and past the end the test is done; an aborted one is
    /// tested again; a failure is written to the shared record and asks for
    /// a reset.
    pub fn on_result(&mut self, res: MemoryTestResult, info: &mut BootloaderRamInfo) -> (r: RamTestAction)
        requires
            old(self).wf(),
            !old(self).spec_done(),
        ensures
            final(self).wf(),
            final(self).spec_start() == old(self).spec_start(),
            final(self).spec_block() == old(self).spec_block(),
            final(self).spec_end() == old(self).spec_end(),
            match res {
                MemoryTestResult::Passed => {
                    let next = old(self).spec_offset() + old(self).spec_block();
                    &&& r == RamTestAction::Continue
                    &&& *final(info) == *old(info)
                    &&& if old(self).spec_start() + next > old(self).spec_end() {
                        final(self).spec_done() && final(self).spec_offset() == 0
                    } else {
                        !final(self).spec_done() && final(self).spec_offset() == next
                    }
                },
                MemoryTestResult::Aborted => {
                    &&& r == RamTestAction::Continue
                    &&& *final(info) == *old(info)
                    &&& final(self).spec_offset() == old(self).spec_offset()
                    &&& !final(self).spec_done()
                },
                MemoryTestResult::Failed { addr, phase, bit } => {
                    &&& r == RamTestAction::Reset
                    &&& *final(info) == (BootloaderRamInfo { ram_failure: Some((addr, bit, phase)), ..*old(info) })
                    &&& final(self).spec_offset() == old(self).spec_offset()
                    &&& !final(self).spec_done()
                },
            },
    {
        match res {
            MemoryTestResult::Passed => {
                self.offset = self.offset + self.block_size;
                if self.ram_start as u64 + self.offset as u64 > self.end as u64 {
                    self.done = true;
                    self.offset = 0;
                }
                RamTestAction::Continue
            },
            MemoryTestResult::Aborted => RamTestAction::Continue,
            MemoryTestResult::Failed { addr, phase, bit } => {
                info.ram_failure = Some((addr, bit, phase));
                RamTestAction::Reset
            },
        }
    }
}

/// While the test runs, every block it starts begins at or below the
/// watermark, so no block starts inside the idle task's stack.
pub proof fn lemma_blocks_below_watermark(t: RamTest)
    requires
        t.wf(),
        !t.spec_done(),
        t.spec_offset() != 0,
    ensures
        t.spec_start() + t.spec_offset() <= t.spec_end(),
{
}

} // verus!
