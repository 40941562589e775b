//! Flash layout of the controller and the reasons the bootloader stays
//! active.
use vstd::prelude::*;
use core::ops::Range;

verus! {

/// One kilobyte.
pub const KB: u32 = 1024;
/// Size of one flash erase sector.
pub const SECTOR_SIZE: u32 = 8192;

/// The regions of the internal flash.
#[derive(Clone, Copy, PartialEq, Eq, Structural)]
pub enum MemoryRegion {
    /// The first stage loader.
    Preloader,
    /// The bootloader.
    Bootloader,
    /// Where a new bootloader is staged before the preloader copies it.
    BootloaderScratch,
    /// The application.
    Application,
}

impl MemoryRegion {
    /// First address of the region (in kB: 0, 8, 120, 120).
    pub open spec fn spec_start(&self) -> int {
        match self {
            MemoryRegion::Preloader => 0,
            MemoryRegion::Bootloader => 0x2000,
            MemoryRegion::BootloaderScratch => 0x1E000,
            MemoryRegion::Application => 0x1E000,
        }
    }

    /// First address past the region (in kB: 8, 120, 240, 1024).
    pub open spec fn spec_end(&self) -> int {
        match self {
            MemoryRegion::Preloader => 0x2000,
            MemoryRegion::Bootloader => 0x1E000,
            MemoryRegion::BootloaderScratch => 0x3C000,
            MemoryRegion::Application => 0x100000,
        }
    }

    /// The addresses of the region, end exclusive.
    pub fn range_exclusive(&self) -> (r: Range<u32>)
        ensures
            r.start == self.spec_start(),
            r.end == self.spec_end(),
    {
        match self {
            MemoryRegion::Preloader => Range { start: 0, end: 8 * KB },
            MemoryRegion::Bootloader => Range { start: 8 * KB, end: 120 * KB },
            MemoryRegion::BootloaderScratch => Range { start: 120 * KB, end: 240 * KB },
            MemoryRegion::Application => Range { start: 120 * KB, end: 1024 * KB },
        }
    }

    /// Number of erase sectors in the region.
    pub fn blocks_8k(&self) -> (r: u32)
        ensures
            r == (self.spec_end() - self.spec_start()) / 8192,
    {
        let range = self.range_exclusive();
        (range.end - range.start) / SECTOR_SIZE
    }

    /// First address of the region.
    pub fn start_addr(&self) -> (r: u32)
        ensures
            r == self.spec_start(),
    {
        self.range_exclusive().start
    }

    /// Size of the region in bytes, counted in whole sectors.
    pub fn size_bytes(&self) -> (r: u32)
        ensures
            r == (self.spec_end() - self.spec_start()) / 8192 * 8192,
    {
        self.blocks_8k() * SECTOR_SIZE
    }
}

/// Every region starts on a sector boundary and spans whole sectors,
/// so its size in bytes is its length.
pub proof fn lemma_regions_sector_aligned(r: MemoryRegion)
    ensures
        r.spec_start() % 8192 == 0,
        r.spec_end() % 8192 == 0,
        r.spec_start() < r.spec_end(),
        (r.spec_end() - r.spec_start()) / 8192 * 8192 == r.spec_end() - r.spec_start(),
{
}

/// The preloader, the bootloader and the application follow each
/// other in flash without gap or overlap, and the bootloader staging area
/// lies inside the application region.
pub proof fn lemma_regions_layout()
    ensures
        MemoryRegion::Preloader.spec_end() == MemoryRegion::Bootloader.spec_start(),
        MemoryRegion::Bootloader.spec_end() == MemoryRegion::Application.spec_start(),
        MemoryRegion::Application.spec_start() <= MemoryRegion::BootloaderScratch.spec_start(),
        MemoryRegion::BootloaderScratch.spec_end() <= MemoryRegion::Application.spec_end(),
        MemoryRegion::Application.spec_end() == 1024 * 1024,
{
}

/// Why the bootloader did not start the application.
#[derive(Clone, Copy, PartialEq, Eq, Structural)]
pub enum BootloaderStayReason {
    /// No reason (entered for diagnostics).
    NoReason,
    /// The board was reset too often in a row.
    ResetCount,
    /// The watchdog reset the processor.
    Watchdog,
    /// The application panicked.
    Panic,
    /// The magic pin was held.
    MagicPin,
    /// The application is missing or its flashing did not complete.
    AppInvalid,
    /// The board production date has not been burnt.
    ProductionInfoNotSet,
    /// The RAM test failed.
    RamFailure,
    /// A diagnostic session asked for the bootloader.
    Diagnostics,
    /// Any other number.
    Unkown,
}

impl BootloaderStayReason {
    /// The reason a byte stands for.
    pub open spec fn spec_from_byte(value: u8) -> BootloaderStayReason {
        if value == 0 {
            BootloaderStayReason::NoReason
        } else if value == 1 {
            BootloaderStayReason::ResetCount
        } else if value == 2 {
            BootloaderStayReason::Watchdog
        } else if value == 3 {
            BootloaderStayReason::Panic
        } else if value == 4 {
            BootloaderStayReason::MagicPin
        } else if value == 5 {
            BootloaderStayReason::AppInvalid
        } else if value == 6 {
            BootloaderStayReason::ProductionInfoNotSet
        } else if value == 7 {
            BootloaderStayReason::RamFailure
        } else if value == 8 {
            BootloaderStayReason::Diagnostics
        } else {
            BootloaderStayReason::Unkown
        }
    }

    /// The byte that stands for the reason (`Unkown` is sent as 9).
    pub open spec fn spec_code(&self) -> u8 {
        match self {
            BootloaderStayReason::NoReason => 0,
            BootloaderStayReason::ResetCount => 1,
            BootloaderStayReason::Watchdog => 2,
            BootloaderStayReason::Panic => 3,
            BootloaderStayReason::MagicPin => 4,
            BootloaderStayReason::AppInvalid => 5,
            BootloaderStayReason::ProductionInfoNotSet => 6,
            BootloaderStayReason::RamFailure => 7,
            BootloaderStayReason::Diagnostics => 8,
            BootloaderStayReason::Unkown => 9,
        }
    }

    /// The byte that stands for the reason.
    pub fn code(&self) -> (r: u8)
        ensures
            r == self.spec_code(),
    {
        match self {
            BootloaderStayReason::NoReason => 0,
            BootloaderStayReason::ResetCount => 1,
            BootloaderStayReason::Watchdog => 2,
            BootloaderStayReason::Panic => 3,
            BootloaderStayReason::MagicPin => 4,
            BootloaderStayReason::AppInvalid => 5,
            BootloaderStayReason::ProductionInfoNotSet => 6,
            BootloaderStayReason::RamFailure => 7,
            BootloaderStayReason::Diagnostics => 8,
            BootloaderStayReason::Unkown => 9,
        }
    }
}

impl From<u8> for BootloaderStayReason {
    fn from(value: u8) -> (r: Self) {
        if value == 0 {
            BootloaderStayReason::NoReason
        } else if value == 1 {
            BootloaderStayReason::ResetCount
        } else if value == 2 {
            BootloaderStayReason::Watchdog
        } else if value == 3 {
            BootloaderStayReason::Panic
        } else if value == 4 {
            BootloaderStayReason::MagicPin
        } else if value == 5 {
            BootloaderStayReason::AppInvalid
        } else if value == 6 {
            BootloaderStayReason::ProductionInfoNotSet
        } else if value == 7 {
            BootloaderStayReason::RamFailure
        } else if value == 8 {
            BootloaderStayReason::Diagnostics
        } else {
            BootloaderStayReason::Unkown
        }
    }
}

impl vstd::std_specs::convert::FromSpecImpl<u8> for BootloaderStayReason {
    open spec fn obeys_from_spec() -> bool {
        true
    }

    open spec fn from_spec(v: u8) -> Self {
        BootloaderStayReason::spec_from_byte(v)
    }
}

/// Decoding the byte of a known reason gives the reason back, and
/// every byte above 8 decodes to `Unkown`.
pub proof fn lemma_stay_reason_roundtrip(r: BootloaderStayReason, b: u8)
    ensures
        r != BootloaderStayReason::Unkown ==> BootloaderStayReason::spec_from_byte(r.spec_code()) == r,
        b <= 8 ==> BootloaderStayReason::spec_from_byte(b).spec_code() == b,
        b > 8 ==> BootloaderStayReason::spec_from_byte(b) == BootloaderStayReason::Unkown,
{
}

} // verus!
