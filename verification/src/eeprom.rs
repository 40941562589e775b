//! Layout of the external EEPROM: 64 byte pages, each a 4 byte header
//! (block version, block id, checksum of the data) and 60 bytes of data.
use vstd::prelude::*;
use crate::bitfield::{get_field, set_field, read_field, write_field, lemma_get_set_same, lemma_get_set_other};

verus! {

/// Major layout version: a change wipes the whole EEPROM.
pub const EEPROM_VER_MAJOR: u16 = 1;
/// Minor layout version: a change re-initialises changed blocks.
pub const EEPROM_VER_MINOR: u16 = 0;
/// I2C address of the EEPROM.
pub const EEPROM_I2C_ADDR: u8 = 0x50;
/// Number of 64 byte pages (32 KiB).
pub const EEPROM_BLOCKS: usize = 512;

/// Version information kept in page 0.
pub struct EepromHeader {
    version_major: u16,
    version_minor: u16,
}

impl EepromHeader {
    /// The header of the current layout.
    pub fn current() -> (r: Self)
        ensures
            r.spec_major() == EEPROM_VER_MAJOR,
            r.spec_minor() == EEPROM_VER_MINOR,
    {
        EepromHeader { version_major: EEPROM_VER_MAJOR, version_minor: EEPROM_VER_MINOR }
    }

    /// Major version.
    pub closed spec fn spec_major(&self) -> u16 {
        self.version_major
    }

    /// Minor version.
    pub closed spec fn spec_minor(&self) -> u16 {
        self.version_minor
    }
}

/// The 32 bit header of a page: version in bits 0 to 6, block id in bits
/// 7 to 15, checksum of the data in bits 16 to 31.
#[derive(Clone, Copy, PartialEq, Eq, Structural)]
pub struct EepromBlkHeader {
    pub raw_value: u32,
}

impl EepromBlkHeader {
    /// The header with the given raw word.
    pub fn new_with_raw_value(raw_value: u32) -> (r: Self)
        ensures
            r.raw_value == raw_value,
    {
        EepromBlkHeader { raw_value }
    }

    /// Block version (7 bits).
    pub fn version(&self) -> (r: u8)
        ensures
            r == get_field(self.raw_value, 0, 7),
    {
        proof {
            vstd::arithmetic::power2::lemma2_to64();
        }
        read_field(self.raw_value, 0, 7) as u8
    }

    /// The header with the version replaced.
    pub fn with_version(&self, v: u8) -> (r: Self)
        requires
            v < 128,
        ensures
            r.raw_value == set_field(self.raw_value, 0, 7, v as u32),
    {
        EepromBlkHeader { raw_value: write_field(self.raw_value, 0, 7, v as u32) }
    }

    /// Block id (9 bits).
    pub fn blk_id(&self) -> (r: u16)
        ensures
            r == get_field(self.raw_value, 7, 9),
    {
        proof {
            vstd::arithmetic::power2::lemma2_to64();
        }
        read_field(self.raw_value, 7, 9) as u16
    }

    /// The header with the block id replaced.
    pub fn with_blk_id(&self, id: u16) -> (r: Self)
        requires
            id < 512,
        ensures
            r.raw_value == set_field(self.raw_value, 7, 9, id as u32),
    {
        EepromBlkHeader { raw_value: write_field(self.raw_value, 7, 9, id as u32) }
    }

    /// Checksum of the data (16 bits).
    pub fn crc(&self) -> (r: u16)
        ensures
            r == get_field(self.raw_value, 16, 16),
    {
        proof {
            vstd::arithmetic::power2::lemma2_to64();
        }
        read_field(self.raw_value, 16, 16) as u16
    }

    /// Replaces the checksum.
    pub fn set_crc(&mut self, crc: u16)
        ensures
            final(self).raw_value == set_field(old(self).raw_value, 16, 16, crc as u32),
    {
        self.raw_value = write_field(self.raw_value, 16, 16, crc as u32);
    }
}

/// Each header field reads back what was written into it and keeps
/// the other fields.
pub proof fn lemma_blk_header_fields(raw: u32, version: u8, id: u16, crc: u16)
    requires
        version < 128,
        id < 512,
    ensures
        get_field(set_field(raw, 0, 7, version as u32), 0, 7) == version,
        get_field(set_field(raw, 7, 9, id as u32), 7, 9) == id,
        get_field(set_field(raw, 16, 16, crc as u32), 16, 16) == crc,
        get_field(set_field(raw, 16, 16, crc as u32), 0, 7) == get_field(raw, 0, 7),
        get_field(set_field(raw, 16, 16, crc as u32), 7, 9) == get_field(raw, 7, 9),
        get_field(set_field(raw, 7, 9, id as u32), 0, 7) == get_field(raw, 0, 7),
{
    vstd::arithmetic::power2::lemma2_to64();
    assert(1u32 << 7u32 == 128) by (bit_vector);
    assert(1u32 << 9u32 == 512) by (bit_vector);
    assert(1u32 << 16u32 == 65536) by (bit_vector);
    lemma_get_set_same(raw, 0, 7, version as u32);
    lemma_get_set_same(raw, 7, 9, id as u32);
    lemma_get_set_same(raw, 16, 16, crc as u32);
    lemma_get_set_other(raw, 16, 16, crc as u32, 0, 7);
    lemma_get_set_other(raw, 16, 16, crc as u32, 7, 9);
    lemma_get_set_other(raw, 7, 9, id as u32, 0, 7);
}

/// One page: header and 60 bytes of data.
#[derive(Clone, Copy)]
pub struct EepromBlock {
    pub header: EepromBlkHeader,
    pub data: [u8; 60],
}

/// Little endian bytes of a 32 bit value.
pub open spec fn le32(v: u32) -> Seq<u8> {
    seq![(v & 0xFF) as u8, ((v >> 8) & 0xFF) as u8, ((v >> 16) & 0xFF) as u8, ((v >> 24) & 0xFF) as u8]
}

/// The value of four little endian bytes.
pub open spec fn from_le32(b: Seq<u8>) -> u32 {
    (b[0] as u32) | ((b[1] as u32) << 8) | ((b[2] as u32) << 16) | ((b[3] as u32) << 24)
}

impl EepromBlock {
    /// The page bytes: the header little endian, then the data.
    pub open spec fn spec_pack(&self) -> Seq<u8> {
        le32(self.header.raw_value) + self.data@
    }

    /// Packs the page.
    pub fn pack(&self) -> (r: [u8; 64])
        ensures
            r@ == self.spec_pack(),
    {
        let mut buf = [0u8; 64];
        let v = self.header.raw_value;
        buf[0] = (v & 0xFF) as u8;
        buf[1] = ((v >> 8) & 0xFF) as u8;
        buf[2] = ((v >> 16) & 0xFF) as u8;
        buf[3] = ((v >> 24) & 0xFF) as u8;
        let mut i: usize = 0;
        while i < 60
            invariant
                i <= 60,
                buf@.len() == 64,
                self.data@.len() == 60,
                buf@[0] == (v & 0xFF) as u8,
                buf@[1] == ((v >> 8) & 0xFF) as u8,
                buf@[2] == ((v >> 16) & 0xFF) as u8,
                buf@[3] == ((v >> 24) & 0xFF) as u8,
                forall|j: int| 0 <= j < i ==> buf@[4 + j] == self.data@[j],
            decreases 60 - i,
        {
            buf[4 + i] = self.data[i];
            i = i + 1;
        }
        assert(buf@ =~= self.spec_pack());
        buf
    }

    /// Reads a page.
    pub fn unpack(buf: [u8; 64]) -> (r: Self)
        ensures
            r.header.raw_value == from_le32(buf@.subrange(0, 4)),
            r.data@ == buf@.subrange(4, 64),
    {
        let raw = (buf[0] as u32) | ((buf[1] as u32) << 8) | ((buf[2] as u32) << 16) | ((buf[3] as u32) << 24);
        let mut data = [0u8; 60];
        let mut i: usize = 0;
        while i < 60
            invariant
                i <= 60,
                data@.len() == 60,
                forall|j: int| 0 <= j < i ==> data@[j] == buf@[4 + j],
            decreases 60 - i,
        {
            data[i] = buf[4 + i];
            i = i + 1;
        }
        assert(data@ =~= buf@.subrange(4, 64));
        EepromBlock { header: EepromBlkHeader { raw_value: raw }, data }
    }
}

/// Reading a packed page gives the page back, and packing a read
/// page gives the bytes back.
pub proof fn lemma_pack_roundtrip(b: EepromBlock, buf: Seq<u8>)
    requires
        buf.len() == 64,
    ensures
        from_le32(b.spec_pack().subrange(0, 4)) == b.header.raw_value,
        b.spec_pack().subrange(4, 64) == b.data@,
        le32(from_le32(buf.subrange(0, 4))) + buf.subrange(4, 64) == buf,
{
    let v = b.header.raw_value;
    assert(b.spec_pack().subrange(0, 4) =~= le32(v));
    assert(b.spec_pack().subrange(4, 64) =~= b.data@);
    let b0 = (v & 0xFF) as u8;
    let b1 = ((v >> 8) & 0xFF) as u8;
    let b2 = ((v >> 16) & 0xFF) as u8;
    let b3 = ((v >> 24) & 0xFF) as u8;
    assert((b0 as u32) | ((b1 as u32) << 8) | ((b2 as u32) << 16) | ((b3 as u32) << 24) == v) by (bit_vector)
        requires
            b0 == (v & 0xFF) as u8,
            b1 == ((v >> 8) & 0xFF) as u8,
            b2 == ((v >> 16) & 0xFF) as u8,
            b3 == ((v >> 24) & 0xFF) as u8,
    ;
    let c0 = buf[0];
    let c1 = buf[1];
    let c2 = buf[2];
    let c3 = buf[3];
    let w = (c0 as u32) | ((c1 as u32) << 8) | ((c2 as u32) << 16) | ((c3 as u32) << 24);
    assert((w & 0xFF) as u8 == c0 && ((w >> 8) & 0xFF) as u8 == c1 && ((w >> 16) & 0xFF) as u8 == c2 && ((w >> 24)
        & 0xFF) as u8 == c3) by (bit_vector)
        requires
            w == (c0 as u32) | ((c1 as u32) << 8) | ((c2 as u32) << 16) | ((c3 as u32) << 24),
    ;
    assert(from_le32(buf.subrange(0, 4)) == w);
    assert(le32(w) + buf.subrange(4, 64) =~= buf);
}

/// Reflected CRC-32C (Castagnoli) polynomial.
pub const CRC32C_POLY: u32 = 0x82F63B78;

/// One bit step of the CRC register.
pub open spec fn crc_bit(c: u32) -> u32 {
    if c & 1 == 1 { (c >> 1) ^ CRC32C_POLY } else { c >> 1 }
}

/// `n` bit steps of the CRC register.
pub open spec fn crc_bits(c: u32, n: nat) -> u32
    decreases n,
{
    if n == 0 { c } else { crc_bits(crc_bit(c), (n - 1) as nat) }
}

/// The CRC register after `data`, from all ones.
pub open spec fn crc_register(data: Seq<u8>) -> u32
    decreases data.len(),
{
    if data.len() == 0 {
        0xFFFF_FFFF
    } else {
        crc_bits(crc_register(data.drop_last()) ^ (data.last() as u32), 8)
    }
}

/// CRC-32C of `data`: the register complemented.
pub open spec fn crc32c_spec(data: Seq<u8>) -> u32 {
    !crc_register(data)
}

/// CRC-32C (Castagnoli) of `data`, bit by bit.
pub fn crc32c(data: &[u8]) -> (r: u32)
    ensures
        r == crc32c_spec(data@),
{
    let n = data.len();
    let mut c: u32 = 0xFFFF_FFFF;
    let mut i: usize = 0;
    while i < n
        invariant
            n == data@.len(),
            i <= n,
            c == crc_register(data@.subrange(0, i as int)),
        decreases n - i,
    {
        proof {
            assert(data@.subrange(0, i + 1).drop_last() =~= data@.subrange(0, i as int));
        }
        let start = c ^ (data[i] as u32);
        c = start;
        let mut k: u32 = 0;
        while k < 8
            invariant
                k <= 8,
                crc_bits(c, (8 - k) as nat) == crc_bits(start, 8),
            decreases 8 - k,
        {
            c = if c & 1 == 1 { (c >> 1) ^ CRC32C_POLY } else { c >> 1 };
            k = k + 1;
        }
        i = i + 1;
    }
    proof {
        assert(data@.subrange(0, n as int) =~= data@);
    }
    !c
}

/// The checksum kept in a page header: the low 16 bits of the CRC-32C of
/// the data.
pub fn crc16(data: &[u8]) -> (r: u16)
    ensures
        r == (crc32c_spec(data@) & 0xFFFF) as u16,
{
    let c = crc32c(data);
    (c & 0xFFFF) as u16
}

/// The I2C write that initialises page `id`: the page address (`id * 64`,
/// big endian) and the page with block id `id`, version 0, zero data and
/// its checksum.
pub fn init_block_frame(id: u16) -> (r: [u8; 66])
    requires
        id < 512,
    ensures
        ({
            let h = set_field(set_field(set_field(0, 7, 9, id as u32), 0, 7, 0), 16, 16,
                (crc32c_spec(Seq::new(60, |i: int| 0u8)) & 0xFFFF) as u32);
            r@ == seq![((id * 64) / 256) as u8, ((id * 64) % 256) as u8] + le32(h) + Seq::new(60, |i: int| 0u8)
        }),
{
    let mut blk = EepromBlock {
        header: EepromBlkHeader::new_with_raw_value(0).with_blk_id(id).with_version(0),
        data: [0u8; 60],
    };
    assert(blk.data@ =~= Seq::new(60, |i: int| 0u8));
    let crc = crc16(&blk.data);
    proof {
        let c = crc32c_spec(blk.data@);
        assert(((c & 0xFFFF) as u16) as u32 == c & 0xFFFF) by (bit_vector);
    }
    blk.header.set_crc(crc);
    let addr: u16 = id * 64;
    let packed = blk.pack();
    let mut buf = [0u8; 66];
    buf[0] = (addr / 256) as u8;
    buf[1] = (addr % 256) as u8;
    let mut i: usize = 0;
    while i < 64
        invariant
            i <= 64,
            buf@.len() == 66,
            packed@.len() == 64,
            buf@[0] == (addr / 256) as u8,
            buf@[1] == (addr % 256) as u8,
            forall|j: int| 0 <= j < i ==> buf@[2 + j] == packed@[j],
        decreases 64 - i,
    {
        buf[2 + i] = packed[i];
        i = i + 1;
    }
    assert(buf@ =~= seq![(addr / 256) as u8, (addr % 256) as u8] + packed@);
    buf
}

/// The address bytes sent to read page `id` back (the id itself, big
/// endian).
pub fn read_block_address(id: u16) -> (r: [u8; 2])
    ensures
        r@ == seq![(id / 256) as u8, (id % 256) as u8],
{
    let r = [(id / 256) as u8, (id % 256) as u8];
    assert(r@ =~= seq![(id / 256) as u8, (id % 256) as u8]);
    r
}

} // verus!
