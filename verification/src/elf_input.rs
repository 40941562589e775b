//! What the flashing tool reads from a firmware ELF file: the loadable
//! segments, the memory use of the sections and the compressed `defmt`
//! table. Reading the ELF format itself is left to `object` and
//! `defmt_decoder`.
use vstd::prelude::*;
use object::elf::FileHeader32;
use object::read::elf::{FileHeader, ProgramHeader};
use object::{Endianness, Object, ObjectSection, SectionKind};
use crate::flash_image::ElfSegment;
use defmt_decoder::Table;

verus! {

/// A program header of a 32 bit ELF file: its type, physical and virtual
/// address, file offset and size, and the length of its data when that
/// lies inside the file.
#[derive(Clone, Copy)]
pub struct ProgramHeaderInfo {
    pub p_type: u32,
    pub paddr: u32,
    pub vaddr: u32,
    pub offset: u64,
    pub filesz: u64,
    pub data_len: Option<usize>,
}

/// Program type of a loadable segment.
pub const PT_LOAD: u32 = 1;

/// The program headers `object` reads from a 32 bit ELF file (`None` when
/// the file header, its byte order or the header table cannot be read).
pub uninterp spec fn elf32_program_headers(elf: Seq<u8>) -> Option<Seq<ProgramHeaderInfo>>;

/// Reads the program headers with `object::elf::FileHeader32::parse`,
/// `endian`, `program_headers`, and per header `p_type`, `p_paddr`,
/// `p_vaddr`, `file_range` and `data`. The contract only names the result:
/// it is a function of the file's bytes.
#[verifier::external_body]
fn read_program_headers(elf: &[u8]) -> (r: Option<Vec<ProgramHeaderInfo>>)
    ensures
        elf32_program_headers(elf@) == (match r { Some(v) => Some(v@), None => None }),
{
    let hdr = FileHeader32::<Endianness>::parse(elf).ok()?;
    let endian = hdr.endian().ok()?;
    let mut out = Vec::new();
    for ph in hdr.program_headers(endian, elf).ok()? {
        let (offset, filesz) = ph.file_range(endian);
        let data_len = match ph.data(endian, elf) { Ok(d) => Some(d.len()), Err(_) => None };
        out.push(ProgramHeaderInfo { p_type: ph.p_type(endian).0, paddr: ph.p_paddr(endian), vaddr: ph.p_vaddr(endian), offset, filesz, data_len });
    }
    Some(out)
}

/// Why the segments of an ELF file could not be read.
#[derive(Clone, Copy, PartialEq, Eq, Structural)]
pub enum ElfError {
    /// The file is no readable 32 bit ELF file.
    Parse,
    /// The data of a segment lies outside the file.
    SegmentData,
}

/// The segments [`load_segments`] keeps from `hs`: those with data, of
/// the loadable type, in order.
pub open spec fn loadable_segments(hs: Seq<ProgramHeaderInfo>) -> Seq<ElfSegment>
    decreases hs.len(),
{
    if hs.len() == 0 {
        Seq::empty()
    } else {
        let h = hs.last();
        let rest = loadable_segments(hs.drop_last());
        if h.data_len matches Some(n) && n != 0 && h.p_type == PT_LOAD {
            rest.push(ElfSegment {
                phys_addr: h.paddr,
                virt_addr: h.vaddr,
                size: h.filesz as u32,
                offset_in_elf: h.offset as u32,
            })
        } else {
            rest
        }
    }
}

/// Keeps the loadable segments that have data; fails when the data of a
/// header lies outside the file. Sizes and offsets are kept as 32 bit
/// values.
pub fn load_segments(hs: &[ProgramHeaderInfo]) -> (r: Result<Vec<ElfSegment>, ElfError>)
    ensures
        match r {
            Ok(v) => (forall|i: int| 0 <= i < hs@.len() ==> hs@[i].data_len is Some) && v@ == loadable_segments(hs@),
            Err(e) => e == ElfError::SegmentData && exists|i: int| 0 <= i < hs@.len() && hs@[i].data_len is None,
        },
{
    let n = hs.len();
    let mut out: Vec<ElfSegment> = Vec::new();
    let mut i: usize = 0;
    while i < n
        invariant
            n == hs@.len(),
            i <= n,
            forall|j: int| 0 <= j < i ==> hs@[j].data_len is Some,
            out@ == loadable_segments(hs@.subrange(0, i as int)),
        decreases n - i,
    {
        let h = hs[i];
        proof {
            assert(hs@.subrange(0, i + 1).drop_last() =~= hs@.subrange(0, i as int));
        }
        match h.data_len {
            None => {
                return Err(ElfError::SegmentData);
            },
            Some(len) => {
                if len != 0 && h.p_type == PT_LOAD {
                    out.push(ElfSegment {
                        phys_addr: h.paddr,
                        virt_addr: h.vaddr,
                        size: h.filesz as u32,
                        offset_in_elf: h.offset as u32,
                    });
                }
            },
        }
        i = i + 1;
    }
    proof {
        assert(hs@.subrange(0, n as int) =~= hs@);
    }
    Ok(out)
}

/// The loadable segments of an ELF file (see [`load_segments`]).
pub fn elf_segments(elf: &[u8]) -> (r: Result<Vec<ElfSegment>, ElfError>)
    ensures
        match elf32_program_headers(elf@) {
            None => r == Err::<Vec<ElfSegment>, ElfError>(ElfError::Parse),
            Some(hs) => match r {
                Ok(v) => v@ == loadable_segments(hs) && forall|i: int| 0 <= i < hs.len() ==> hs[i].data_len is Some,
                Err(e) => e == ElfError::SegmentData && exists|i: int| 0 <= i < hs.len() && hs[i].data_len is None,
            },
        },
{
    match read_program_headers(elf) {
        None => Err(ElfError::Parse),
        Some(hs) => load_segments(hs.as_slice()),
    }
}

/// The kind of a section, as `object` classifies it (its `SectionKind`).
#[derive(Clone, Copy, PartialEq, Eq, Structural)]
pub enum ElfSectionKind {
    Unknown,
    Text,
    Data,
    ReadOnlyData,
    ReadOnlyDataWithRel,
    ReadOnlyString,
    UninitializedData,
    Tls,
    UninitializedTls,
    TlsVariables,
    OtherString,
    Other,
    Debug,
    DebugString,
    Linker,
    Note,
    Metadata,
}

/// How a section counts toward memory use.
#[derive(Clone, Copy, PartialEq, Eq, Structural)]
pub enum SectionClass {
    /// Takes no memory on the target.
    NotLoaded,
    /// Takes memory where it is placed.
    Loaded,
}

/// How a section of kind `k` counts: symbols, relocations and other
/// metadata, other strings and other sections take no memory on the
/// target; every other kind does.
pub open spec fn class_of(k: ElfSectionKind) -> SectionClass {
    match k {
        ElfSectionKind::Other | ElfSectionKind::Metadata | ElfSectionKind::OtherString => SectionClass::NotLoaded,
        _ => SectionClass::Loaded,
    }
}

/// How a section of kind `k` counts toward memory use.
pub fn section_class(k: ElfSectionKind) -> (r: SectionClass)
    ensures
        r == class_of(k),
{
    match k {
        ElfSectionKind::Other | ElfSectionKind::Metadata | ElfSectionKind::OtherString => SectionClass::NotLoaded,
        _ => SectionClass::Loaded,
    }
}

/// A section: its kind, its address and its size.
#[derive(Clone, Copy)]
pub struct SectionInfo {
    pub kind: ElfSectionKind,
    pub address: u64,
    pub size: u64,
}

/// The sections `object` reads from an ELF file (`None` when the file
/// cannot be read).
pub uninterp spec fn elf_sections(elf: Seq<u8>) -> Option<Seq<SectionInfo>>;

/// `object::SectionKind`, carried opaque from `sections` to [`kind_of`].
#[verifier::external_type_specification]
#[verifier::external_body]
pub struct ExSectionKind(SectionKind);

/// Tells the variants of `object::SectionKind` apart: each becomes the
/// [`ElfSectionKind`] of the same name, and a kind that a later `object`
/// adds reads as `Unknown`. Nothing is stated: the outside value is opaque.
#[verifier::external_body]
fn kind_of(k: SectionKind) -> (r: ElfSectionKind) {
    match k {
        SectionKind::Unknown => ElfSectionKind::Unknown, SectionKind::Text => ElfSectionKind::Text, SectionKind::Data => ElfSectionKind::Data,
        SectionKind::ReadOnlyData => ElfSectionKind::ReadOnlyData, SectionKind::ReadOnlyDataWithRel => ElfSectionKind::ReadOnlyDataWithRel,
        SectionKind::ReadOnlyString => ElfSectionKind::ReadOnlyString, SectionKind::UninitializedData => ElfSectionKind::UninitializedData,
        SectionKind::Tls => ElfSectionKind::Tls, SectionKind::UninitializedTls => ElfSectionKind::UninitializedTls,
        SectionKind::TlsVariables => ElfSectionKind::TlsVariables, SectionKind::OtherString => ElfSectionKind::OtherString,
        SectionKind::Other => ElfSectionKind::Other, SectionKind::Debug => ElfSectionKind::Debug,
        SectionKind::DebugString => ElfSectionKind::DebugString, SectionKind::Linker => ElfSectionKind::Linker,
        SectionKind::Note => ElfSectionKind::Note, SectionKind::Metadata => ElfSectionKind::Metadata,
        _ => ElfSectionKind::Unknown,
    }
}

/// Reads the sections with `object::File::parse` and `sections`, and per
/// section `kind` (through [`kind_of`]), `address` and `size`. The
/// contract only names the result: it is a function of the file's bytes.
#[verifier::external_body]
fn read_sections(elf: &[u8]) -> (r: Option<Vec<SectionInfo>>)
    ensures
        elf_sections(elf@) == (match r { Some(v) => Some(v@), None => None }),
{
    let file = object::File::parse(elf).ok()?;
    let mut out = Vec::new();
    for s in file.sections() {
        out.push(SectionInfo { kind: kind_of(s.kind()), address: s.address(), size: s.size() });
    }
    Some(out)
}

/// Start of RAM on the controller.
pub const RAM_BASE: u64 = 0x20000000;

/// Memory use of a firmware image.
#[derive(Clone, Copy)]
pub struct MemoryUsage {
    /// Bytes of sections in flash (below `0x100000`).
    pub flash_bytes: u64,
    /// Bytes of sections in RAM (`0x20000000..=0x2003FFFF`).
    pub ram_bytes: u64,
    /// Highest end of a RAM section, less the start of RAM.
    pub ram_alloc: u32,
}

/// The section is counted in flash.
pub open spec fn in_flash(s: SectionInfo) -> bool {
    class_of(s.kind) == SectionClass::Loaded && s.address < 0x100000
}

/// The section is counted in RAM.
pub open spec fn in_ram(s: SectionInfo) -> bool {
    class_of(s.kind) == SectionClass::Loaded && 0x20000000 <= s.address <= 0x2003FFFF
}

/// Total size of the flash sections.
pub open spec fn flash_total(ss: Seq<SectionInfo>) -> int
    decreases ss.len(),
{
    if ss.len() == 0 { 0 } else { flash_total(ss.drop_last()) + if in_flash(ss.last()) { ss.last().size as int } else { 0 } }
}

/// Only sections of kind `Other`, `Metadata` or `OtherString` take no
/// memory: a section of any other kind placed below `0x100000` adds its
/// size to the flash total, one placed in RAM to the RAM total; one of
/// those three kinds adds nothing.
pub proof fn lemma_flash_counts_loaded_kinds(ss: Seq<SectionInfo>, s: SectionInfo)
    ensures
        (class_of(s.kind) == SectionClass::NotLoaded) <==> (s.kind == ElfSectionKind::Other || s.kind
            == ElfSectionKind::Metadata || s.kind == ElfSectionKind::OtherString),
        flash_total(ss.push(s)) == flash_total(ss) + if s.address < 0x100000 && s.kind
            != ElfSectionKind::Other && s.kind != ElfSectionKind::Metadata && s.kind
            != ElfSectionKind::OtherString {
            s.size as int
        } else {
            0
        },
        ram_total(ss.push(s)) == ram_total(ss) + if 0x20000000 <= s.address <= 0x2003FFFF && s.kind
            != ElfSectionKind::Other && s.kind != ElfSectionKind::Metadata && s.kind
            != ElfSectionKind::OtherString {
            s.size as int
        } else {
            0
        },
{
    assert(ss.push(s).drop_last() =~= ss);
}

/// Total size of the RAM sections.
pub open spec fn ram_total(ss: Seq<SectionInfo>) -> int
    decreases ss.len(),
{
    if ss.len() == 0 { 0 } else { ram_total(ss.drop_last()) + if in_ram(ss.last()) { ss.last().size as int } else { 0 } }
}

/// Highest end of a RAM section (as a 32 bit value), or 0.
pub open spec fn ram_watermark(ss: Seq<SectionInfo>) -> u32
    decreases ss.len(),
{
    if ss.len() == 0 {
        0
    } else {
        let w = ram_watermark(ss.drop_last());
        let s = ss.last();
        let e = (s.size + s.address) as u32;
        if in_ram(s) && e > w { e } else { w }
    }
}

/// The inputs [`memory_usage`] accepts: the totals fit in 64 bits, no RAM
/// section's end overflows, and some RAM section ends at or above the
/// start of RAM.
pub open spec fn usage_ok(ss: Seq<SectionInfo>) -> bool {
    &&& forall|k: int| 0 <= k <= ss.len() ==> flash_total(#[trigger] ss.subrange(0, k)) <= u64::MAX
    &&& forall|k: int| 0 <= k <= ss.len() ==> ram_total(#[trigger] ss.subrange(0, k)) <= u64::MAX
    &&& forall|i: int| 0 <= i < ss.len() && in_ram(ss[i]) ==> ss[i].size + ss[i].address <= u64::MAX
    &&& ram_watermark(ss) >= RAM_BASE
}

/// Adds up the sections in flash and in RAM and finds how far RAM is
/// used.
pub fn memory_usage(ss: &[SectionInfo]) -> (r: MemoryUsage)
    requires
        usage_ok(ss@),
    ensures
        r.flash_bytes == flash_total(ss@),
        r.ram_bytes == ram_total(ss@),
        r.ram_alloc == ram_watermark(ss@) - RAM_BASE,
{
    let n = ss.len();
    let mut flash: u64 = 0;
    let mut ram: u64 = 0;
    let mut high: u32 = 0;
    let mut i: usize = 0;
    while i < n
        invariant
            n == ss@.len(),
            i <= n,
            usage_ok(ss@),
            flash == flash_total(ss@.subrange(0, i as int)),
            ram == ram_total(ss@.subrange(0, i as int)),
            high == ram_watermark(ss@.subrange(0, i as int)),
        decreases n - i,
    {
        let s = ss[i];
        proof {
            assert(ss@.subrange(0, i + 1).drop_last() =~= ss@.subrange(0, i as int));
            assert(ss@.subrange(0, i + 1).last() == s);
            assert(flash_total(ss@.subrange(0, i + 1)) <= u64::MAX);
            assert(ram_total(ss@.subrange(0, i + 1)) <= u64::MAX);
        }
        if section_class(s.kind) == SectionClass::Loaded {
            if s.address < 0x100000 {
                flash = flash + s.size;
            } else if s.address >= 0x20000000 && s.address <= 0x2003FFFF {
                ram = ram + s.size;
                let e = (s.size + s.address) as u32;
                if e > high {
                    high = e;
                }
            }
        }
        i = i + 1;
    }
    proof {
        assert(ss@.subrange(0, n as int) =~= ss@);
    }
    MemoryUsage { flash_bytes: flash, ram_bytes: ram, ram_alloc: high - 0x20000000 }
}

/// The memory use of an ELF file (`None` when its sections cannot be
/// read, or on the inputs [`memory_usage`] does not accept).
pub fn elf_memory_usage(elf: &[u8]) -> (r: Option<MemoryUsage>)
    ensures
        match r {
            Some(u) => elf_sections(elf@) matches Some(ss) && u.flash_bytes == flash_total(ss)
                && u.ram_bytes == ram_total(ss) && u.ram_alloc == ram_watermark(ss) - RAM_BASE,
            None => elf_sections(elf@) matches Some(ss) ==> !usage_ok(ss),
        },
{
    match read_sections(elf) {
        None => None,
        Some(ss) => {
            if usage_valid(ss.as_slice()) {
                Some(memory_usage(ss.as_slice()))
            } else {
                None
            }
        },
    }
}

/// Whether [`memory_usage`] accepts the sections.
pub fn usage_valid(ss: &[SectionInfo]) -> (r: bool)
    ensures
        r == usage_ok(ss@),
{
    let n = ss.len();
    let mut flash: u64 = 0;
    let mut ram: u64 = 0;
    let mut high: u32 = 0;
    let mut i: usize = 0;
    proof {
        assert(ss@.subrange(0, 0) =~= Seq::<SectionInfo>::empty());
    }
    while i < n
        invariant
            n == ss@.len(),
            i <= n,
            flash == flash_total(ss@.subrange(0, i as int)),
            ram == ram_total(ss@.subrange(0, i as int)),
            high == ram_watermark(ss@.subrange(0, i as int)),
            forall|k: int| 0 <= k <= i ==> flash_total(#[trigger] ss@.subrange(0, k)) <= u64::MAX,
            forall|k: int| 0 <= k <= i ==> ram_total(#[trigger] ss@.subrange(0, k)) <= u64::MAX,
            forall|j: int| 0 <= j < i && in_ram(ss@[j]) ==> ss@[j].size + ss@[j].address <= u64::MAX,
        decreases n - i,
    {
        let s = ss[i];
        proof {
            assert(ss@.subrange(0, i + 1).drop_last() =~= ss@.subrange(0, i as int));
            assert(ss@.subrange(0, i + 1).last() == s);
        }
        if section_class(s.kind) == SectionClass::Loaded {
            if s.address < 0x100000 {
                if s.size > u64::MAX - flash {
                    return false;
                }
                flash = flash + s.size;
            } else if s.address >= 0x20000000 && s.address <= 0x2003FFFF {
                if s.size > u64::MAX - ram || s.size > u64::MAX - s.address {
                    return false;
                }
                ram = ram + s.size;
                let e = (s.size + s.address) as u32;
                if e > high {
                    high = e;
                }
            }
        }
        i = i + 1;
    }
    proof {
        assert(ss@.subrange(0, n as int) =~= ss@);
    }
    high >= 0x20000000
}

/// The `defmt` decoding table of a firmware.
#[verifier::external_type_specification]
#[verifier::external_body]
pub struct ExTable(Table);

/// Whether `defmt_decoder` finds a `.defmt` table in an ELF file.
pub uninterp spec fn defmt_table_present(elf: Seq<u8>) -> bool;

/// `defmt_decoder::Table::parse`, with a parse error read as no table.
/// The contract says when a table comes back, as a named function of the
/// file's bytes; the table itself stays opaque.
#[verifier::external_body]
fn parse_defmt_table(elf: &[u8]) -> (r: Option<Table>)
    ensures
        r is Some == defmt_table_present(elf@),
{
    Table::parse(elf).ok().flatten()
}

/// `postcard::to_allocvec` of the table. The table holds a hash map,
/// whose order of serialisation differs between processes, so nothing is
/// promised of the bytes. Serialising into a growable vector does not
/// fail for this type; the call is unwrapped.
#[verifier::external_body]
fn serialize_table(t: &Table) -> (r: Vec<u8>) {
    postcard::to_allocvec(t).unwrap()
}

/// The LZ4 block compression of `data` by `lz4_flex`.
pub uninterp spec fn lz4_block(data: Seq<u8>) -> Seq<u8>;

/// `lz4_flex::compress`: the LZ4 block format of `data`; the contract
/// names the result as a function of the input.
#[verifier::external_body]
fn lz4_compress(data: &[u8]) -> (r: Vec<u8>)
    ensures
        r@ == lz4_block(data@),
{
    lz4_flex::compress(data)
}

/// The compressed `defmt` table of a firmware as it is stored in the
/// external flash: empty when the ELF file has none, else the LZ4 block
/// of its serialised form.
pub fn get_defmt_bytes(elf: &[u8]) -> (r: Vec<u8>)
    ensures
        !defmt_table_present(elf@) ==> r@ == Seq::<u8>::empty(),
        defmt_table_present(elf@) ==> exists|p: Seq<u8>| r@ == lz4_block(p),
{
    match parse_defmt_table(elf) {
        Some(table) => {
            let bytes = serialize_table(&table);
            lz4_compress(bytes.as_slice())
        },
        None => Vec::new(),
    }
}

} // verus!
