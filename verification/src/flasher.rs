//! The host side of flashing and inspecting the controller: the requests
//! the flashing tool sends, how it reads the replies, and how it builds
//! the flash image it downloads.
use vstd::prelude::*;
use crate::kwp::{KwpService, KwpSession, KwpNrc, kwp_sid, kwp_session_byte, kwp_nrc_byte};
use crate::memory_map::BootloaderStayReason;
use crate::section_info::CodeSectionInfo;

verus! {

/// Seed the tool hands the CRC32 hasher before resetting it.
pub const DSU_CRC32_SEED: u32 = 0xEDB88320;

/// Size of a flash page erased at once.
pub const FLASH_PAGE: u32 = 8192;

/// Most bytes sent in one data transfer request.
pub const MAX_COPY: usize = 1024;

/// Most bytes asked for in one memory read request.
pub const MAX_READ: u32 = 250;

/// Little endian bytes of a 32 bit value.
pub open spec fn le32(v: u32) -> Seq<u8> {
    seq![(v & 0xFF) as u8, ((v >> 8) & 0xFF) as u8, ((v >> 16) & 0xFF) as u8, ((v >> 24) & 0xFF) as u8]
}

/// The value of four little endian bytes.
pub open spec fn from_le32(b: Seq<u8>) -> u32 {
    (b[0] as u32) | ((b[1] as u32) << 8) | ((b[2] as u32) << 16) | ((b[3] as u32) << 24)
}

/// Little endian bytes of a 32 bit value.
pub fn le32_bytes(v: u32) -> (r: [u8; 4])
    ensures
        r@ == le32(v),
{
    let r = [(v & 0xFF) as u8, ((v >> 8) & 0xFF) as u8, ((v >> 16) & 0xFF) as u8, ((v >> 24) & 0xFF) as u8];
    assert(r@ =~= le32(v));
    r
}

/// The value of the four little endian bytes at `b[at..at + 4]`.
pub fn read_le32(b: &[u8], at: usize) -> (r: u32)
    requires
        at + 4 <= b@.len(),
    ensures
        r == from_le32(b@.subrange(at as int, at + 4)),
{
    (b[at] as u32) | ((b[at + 1] as u32) << 8) | ((b[at + 2] as u32) << 16) | ((b[at + 3] as u32) << 24)
}

/// Reading back the little endian bytes of a value gives the value.
pub proof fn lemma_le32_roundtrip(v: u32)
    ensures
        from_le32(le32(v)) == v,
{
    let b = le32(v);
    assert(b[0] == (v & 0xFF) as u8);
    assert(b[1] == ((v >> 8) & 0xFF) as u8);
    assert(b[2] == ((v >> 16) & 0xFF) as u8);
    assert(b[3] == ((v >> 24) & 0xFF) as u8);
    let b0 = (v & 0xFF) as u8;
    let b1 = ((v >> 8) & 0xFF) as u8;
    let b2 = ((v >> 16) & 0xFF) as u8;
    let b3 = ((v >> 24) & 0xFF) as u8;
    assert((b0 as u32) | ((b1 as u32) << 8) | ((b2 as u32) << 16) | ((b3 as u32) << 24) == v) by (bit_vector)
        requires
            b0 == (v & 0xFF) as u8,
            b1 == ((v >> 8) & 0xFF) as u8,
            b2 == ((v >> 16) & 0xFF) as u8,
            b3 == ((v >> 24) & 0xFF) as u8,
    ;
}

/// The interface the tool talks to the controller over.
#[derive(Clone, Copy, PartialEq, Eq, Structural)]
pub enum Interface {
    Usb,
    Can,
    CanFast,
}

/// Request that enters a diagnostic session directly (used on the fast
/// CAN link): service, session and two zero bytes.
pub fn session_request(session: KwpSession) -> (r: [u8; 4])
    ensures
        r@ == seq![0x10u8, session.spec_byte(), 0u8, 0u8],
{
    let r = [kwp_sid(KwpService::StartDiagnosticSession), kwp_session_byte(session), 0, 0];
    assert(r@ =~= seq![0x10u8, session.spec_byte(), 0u8, 0u8]);
    r
}

/// Number of flash pages an image of `len` bytes spans.
pub open spec fn page_count(len: nat) -> nat {
    if len % 8192 == 0 { len / 8192 } else { len / 8192 + 1 }
}

/// Number of flash pages an image of `len` bytes spans.
pub fn num_pages(len: usize) -> (r: usize)
    ensures
        r == page_count(len as nat),
{
    let mut n = len / 8192;
    if len % 8192 != 0 {
        n = n + 1;
    }
    n
}

/// Request that starts the erase routine (`0xE0`) over `pages` pages from
/// `start` (the page count is sent as 16 bits).
pub fn erase_request(start: u32, pages: usize) -> (r: [u8; 8])
    ensures
        r@ == seq![0x31u8, 0xE0u8] + le32(start) + seq![(pages % 256) as u8, ((pages / 256) % 256) as u8],
{
    let s = le32_bytes(start);
    let lo = (pages % 256) as u8;
    let hi = ((pages / 256) % 256) as u8;
    let r = [kwp_sid(KwpService::StartRoutineByLocalIdentifier), 0xE0, s[0], s[1], s[2], s[3], lo, hi];
    assert(r@ =~= seq![0x31u8, 0xE0u8] + le32(start) + seq![(pages % 256) as u8, ((pages / 256) % 256) as u8]);
    r
}

/// Request that asks for the result of the erase routine.
pub fn erase_status_request() -> (r: [u8; 2])
    ensures
        r@ == seq![0x33u8, 0xE0u8],
{
    let r = [kwp_sid(KwpService::RequestRoutineResultsByLocalIdentifier), 0xE0];
    assert(r@ =~= seq![0x33u8, 0xE0u8]);
    r
}

/// A reply to the erase status request.
pub enum EraseReply<'a> {
    /// A positive reply.
    Positive(&'a [u8]),
    /// A negative reply with its response code.
    Negative(u8),
    /// No reply (a link error).
    LinkError,
}

/// What to do after an erase status reply.
#[derive(Clone, Copy, PartialEq, Eq, Structural)]
pub enum EraseStep {
    /// The erase completed.
    Done,
    /// The controller reported the erase failed.
    Failed,
    /// The erase is running: wait and ask again.
    Wait,
    /// The controller answered another negative code: give up with it.
    Rejected(u8),
    /// The link failed (the controller may have rebooted): enter the
    /// session again and restart the erase, then give up when `give_up`.
    Restart { give_up: bool },
}

/// Follows the replies to the erase status requests.
pub struct ErasePoll {
    pub link_errors: u32,
}

impl ErasePoll {
    /// Before the first status request.
    pub fn new() -> (r: Self)
        ensures
            r.link_errors == 0,
    {
        ErasePoll { link_errors: 0 }
    }

    /// Decides on a reply. A positive reply must hold at least 3 bytes
    /// (service, routine, result).
    pub fn on_reply(&mut self, reply: &EraseReply) -> (r: EraseStep)
        requires
            old(self).link_errors < u32::MAX,
            reply matches EraseReply::Positive(b) ==> b@.len() >= 3,
        ensures
            match reply {
                EraseReply::Positive(b) => {
                    &&& r == (if b@[2] == 0 { EraseStep::Done } else { EraseStep::Failed })
                    &&& final(self).link_errors == old(self).link_errors
                },
                EraseReply::Negative(code) => {
                    &&& r == (if *code == KwpNrc::RoutineNotComplete.spec_byte() {
                        EraseStep::Wait
                    } else {
                        EraseStep::Rejected(*code)
                    })
                    &&& final(self).link_errors == old(self).link_errors
                },
                EraseReply::LinkError => {
                    &&& final(self).link_errors == old(self).link_errors + 1
                    &&& r == EraseStep::Restart { give_up: final(self).link_errors == 2 }
                },
            },
    {
        match reply {
            EraseReply::Positive(b) => {
                if b[2] == 0 {
                    EraseStep::Done
                } else {
                    EraseStep::Failed
                }
            },
            EraseReply::Negative(code) => {
                if *code == kwp_nrc_byte(KwpNrc::RoutineNotComplete) {
                    EraseStep::Wait
                } else {
                    EraseStep::Rejected(*code)
                }
            },
            EraseReply::LinkError => {
                self.link_errors = self.link_errors + 1;
                EraseStep::Restart { give_up: self.link_errors == 2 }
            },
        }
    }
}

/// Request that announces a download of `len` bytes to `start`.
pub fn download_request(start: u32, len: u32) -> (r: [u8; 10])
    ensures
        r@ == seq![0x34u8] + le32(start) + seq![0u8] + le32(len),
{
    let s = le32_bytes(start);
    let l = le32_bytes(len);
    let r = [kwp_sid(KwpService::RequestDownload), s[0], s[1], s[2], s[3], 0, l[0], l[1], l[2], l[3]];
    assert(r@ =~= seq![0x34u8] + le32(start) + seq![0u8] + le32(len));
    r
}

/// Number of transfer requests for an image of `len` bytes.
pub open spec fn block_count(len: nat) -> nat {
    if len % 1024 == 0 { len / 1024 } else { len / 1024 + 1 }
}

/// The data of transfer request `k`: the image from `k * 1024`, at most
/// 1024 bytes.
pub open spec fn block_data(image: Seq<u8>, k: int) -> Seq<u8> {
    let start = k * 1024;
    let end = if start + 1024 <= image.len() { start + 1024 } else { image.len() as int };
    image.subrange(start, end)
}

/// All transfer data in order.
pub open spec fn blocks_joined(image: Seq<u8>, n: nat) -> Seq<u8>
    decreases n,
{
    if n == 0 {
        Seq::empty()
    } else {
        blocks_joined(image, (n - 1) as nat) + block_data(image, n - 1)
    }
}

/// The transfer request `k` of the image: service, block counter (`k`
/// modulo 256) and the block's data.
pub fn transfer_request(image: &[u8], k: usize) -> (r: Vec<u8>)
    requires
        k < block_count(image@.len()),
    ensures
        r@ == seq![0x36u8, (k % 256) as u8] + block_data(image@, k as int),
{
    let len = image.len();
    let start = k * 1024;
    let end = if len - start >= 1024 { start + 1024 } else { len };
    let mut r: Vec<u8> = Vec::new();
    r.push(kwp_sid(KwpService::TransferData));
    r.push((k % 256) as u8);
    let mut i = start;
    while i < end
        invariant
            len == image@.len(),
            start <= i <= end <= len,
            r@ == seq![0x36u8, (k % 256) as u8] + image@.subrange(start as int, i as int),
        decreases end - i,
    {
        r.push(image[i]);
        proof {
            assert(image@.subrange(start as int, i + 1) =~= image@.subrange(start as int, i as int).push(image@[i as int]));
        }
        i = i + 1;
    }
    r
}

/// The data of the transfer requests, in order, is the whole image.
pub proof fn lemma_blocks_cover_image(image: Seq<u8>)
    ensures
        blocks_joined(image, block_count(image.len())) == image,
{
    let n = block_count(image.len());
    lemma_blocks_prefix(image, n);
    assert(image.subrange(0, image.len() as int) =~= image);
}

proof fn lemma_blocks_prefix(image: Seq<u8>, n: nat)
    requires
        n <= block_count(image.len()),
    ensures
        blocks_joined(image, n) == image.subrange(0, if n * 1024 <= image.len() { (n * 1024) as int } else { image.len() as int }),
    decreases n,
{
    if n == 0 {
        assert(image.subrange(0, 0) =~= Seq::<u8>::empty());
    } else {
        lemma_blocks_prefix(image, (n - 1) as nat);
        let a = (n - 1) * 1024;
        assert(a < image.len());
        let e = if n * 1024 <= image.len() { (n * 1024) as int } else { image.len() as int };
        assert(image.subrange(0, a) + image.subrange(a, e) =~= image.subrange(0, e));
    }
}

/// Request that starts the flash check routine (`0xE1`) over the `len`
/// bytes from `start`: the expected CRC, the start address and the end
/// address (exclusive), as the routine table of the diagnostic interface
/// lays them out.
pub fn verify_request(crc: u32, start: u32, len: u32) -> (r: Vec<u8>)
    requires
        start + len <= u32::MAX,
    ensures
        r@ == seq![0x31u8, 0xE1u8] + le32(crc) + le32(start) + le32((start + len) as u32),
{
    let mut r: Vec<u8> = Vec::new();
    r.push(kwp_sid(KwpService::StartRoutineByLocalIdentifier));
    r.push(0xE1);
    let c = le32_bytes(crc);
    let s = le32_bytes(start);
    let e = le32_bytes(start + len);
    r.push(c[0]);
    r.push(c[1]);
    r.push(c[2]);
    r.push(c[3]);
    r.push(s[0]);
    r.push(s[1]);
    r.push(s[2]);
    r.push(s[3]);
    r.push(e[0]);
    r.push(e[1]);
    r.push(e[2]);
    r.push(e[3]);
    assert(r@ =~= seq![0x31u8, 0xE1u8] + le32(crc) + le32(start) + le32((start + len) as u32));
    r
}

/// Whether the flash check reply reports a match (its third byte is not
/// zero).
pub fn verify_reply_ok(reply: &[u8]) -> (r: bool)
    requires
        reply@.len() >= 3,
    ensures
        r == (reply@[2] != 0),
{
    reply[2] != 0
}

/// Request that resets the controller.
pub fn reset_request() -> (r: [u8; 2])
    ensures
        r@ == seq![0x11u8, 0x01u8],
{
    let r = [kwp_sid(KwpService::EcuReset), 0x01];
    assert(r@ =~= seq![0x11u8, 0x01u8]);
    r
}

/// Request that sets (`enable`) or clears the chip security bit.
pub fn security_lock_request(enable: bool) -> (r: [u8; 3])
    ensures
        r@ == seq![0x31u8, 0xFEu8, if enable { 1u8 } else { 0u8 }],
{
    let r = [kwp_sid(KwpService::StartRoutineByLocalIdentifier), 0xFE, if enable { 1u8 } else { 0u8 }];
    assert(r@ =~= seq![0x31u8, 0xFEu8, if enable { 1u8 } else { 0u8 }]);
    r
}

/// The year byte of the production date: the two last digits, kept with
/// their sign, taken modulo 256.
pub open spec fn year_byte(year: int) -> u8 {
    let t = if year >= 0 { year % 100 } else { -((-year) % 100) };
    ((t + 256) % 256) as u8
}

/// Request that burns the production date (routine `0x24`): day, ISO
/// week, month and the year modulo 100, each taken modulo 256.
pub fn burn_date_request(day: u32, week: u32, month: u32, year: i32) -> (r: [u8; 6])
    ensures
        r@ == seq![0x31u8, 0x24u8, (day % 256) as u8, (week % 256) as u8, (month % 256) as u8,
            year_byte(year as int)],
{
    let y = year % 100;
    let yb: u8 = if y < 0 { (y + 256) as u8 } else { y as u8 };
    let r = [kwp_sid(KwpService::StartRoutineByLocalIdentifier), 0x24, (day % 256) as u8, (week % 256) as u8, (month % 256) as u8, yb];
    assert(r@ =~= seq![0x31u8, 0x24u8, (day % 256) as u8, (week % 256) as u8, (month % 256) as u8,
            year_byte(year as int)]);
    r
}

/// The log mode byte for the interface the tool listens on: serial for
/// USB, CAN otherwise.
pub fn log_mode_for(iface: Interface) -> (r: u8)
    ensures
        r == (if iface == Interface::Usb { 2u8 } else { 1u8 }),
{
    match iface {
        Interface::Usb => 2,
        Interface::Can | Interface::CanFast => 1,
    }
}

/// Request that switches the controller's log output (`mode` as in
/// [`log_mode_for`]).
pub fn log_mode_request(mode: u8) -> (r: [u8; 4])
    ensures
        r@ == seq![0x30u8, 0xF0u8, 0x07u8, mode],
{
    let r = [kwp_sid(KwpService::InputOutputControlByLocalIdentifier), 0xF0, 0x07, mode];
    assert(r@ =~= seq![0x30u8, 0xF0u8, 0x07u8, mode]);
    r
}

/// Number of bytes the next memory read asks for, when `got` of `total`
/// bytes were read.
pub open spec fn read_chunk(got: u32, total: u32) -> u32 {
    if total - got < 250 { (total - got) as u32 } else { 250 }
}

/// The next memory read request: service, length and address.
pub fn read_request(start: u32, got: u32, total: u32) -> (r: Vec<u8>)
    requires
        got < total,
        start + got <= u32::MAX,
    ensures
        r@ == seq![0x23u8, read_chunk(got, total) as u8] + le32((start + got) as u32),
{
    let max = if total - got < MAX_READ { total - got } else { MAX_READ };
    let a = le32_bytes(start + got);
    let mut r: Vec<u8> = Vec::new();
    r.push(kwp_sid(KwpService::ReadMemoryByAddress));
    r.push(max as u8);
    r.push(a[0]);
    r.push(a[1]);
    r.push(a[2]);
    r.push(a[3]);
    assert(r@ =~= seq![0x23u8, read_chunk(got, total) as u8] + le32((start + got) as u32));
    r
}

/// Appends the data of a memory read reply (all but its first byte).
pub fn append_read_reply(out: &mut Vec<u8>, reply: &[u8])
    requires
        reply@.len() >= 1,
    ensures
        final(out)@ == old(out)@ + reply@.subrange(1, reply@.len() as int),
{
    let n = reply.len();
    let mut i: usize = 1;
    while i < n
        invariant
            n == reply@.len(),
            1 <= i <= n,
            out@ == old(out)@ + reply@.subrange(1, i as int),
        decreases n - i,
    {
        out.push(reply[i]);
        proof {
            assert(reply@.subrange(1, i + 1) =~= reply@.subrange(1, i as int).push(reply@[i as int]));
        }
        i = i + 1;
    }
}

/// One bit step of the reflected CRC32 register (polynomial `0xEDB88320`).
pub open spec fn crc32_bit(c: u32) -> u32 {
    if c & 1 == 1 {
        (c >> 1) ^ 0xEDB8_8320u32
    } else {
        c >> 1
    }
}

/// The register after feeding byte `b`: the byte is xored in, then eight
/// bit steps.
pub open spec fn crc32_byte(c: u32, b: u8) -> u32 {
    crc32_bit(crc32_bit(crc32_bit(crc32_bit(crc32_bit(crc32_bit(crc32_bit(crc32_bit(c ^ (b as u32)))))))))
}

/// The register after feeding `data` from the start value `0xFFFFFFFF`.
pub open spec fn crc32_register(data: Seq<u8>) -> u32
    decreases data.len(),
{
    if data.len() == 0 {
        0xFFFF_FFFFu32
    } else {
        crc32_byte(crc32_register(data.drop_last()), data.last())
    }
}

/// The CRC32 (IEEE 802.3) checksum of `data`: the final register, inverted.
pub open spec fn crc32_ieee(data: Seq<u8>) -> u32 {
    crc32_register(data) ^ 0xFFFF_FFFFu32
}

/// `crc32fast::Hasher::new_with_initial(seed)`, `reset`, `update(data)`,
/// `finalize`. `reset` sets the hasher's state to zero (see its source),
/// so the seed does not reach the result; from that state `crc32fast`
/// computes the CRC32 (IEEE) checksum of the data, as its documentation
/// says, which the contract states.
#[verifier::external_body]
fn crc32_after_reset(seed: u32, data: &[u8]) -> (r: u32)
    ensures
        r == crc32_ieee(data@),
{
    let mut hasher = crc32fast::Hasher::new_with_initial(seed);
    hasher.reset();
    hasher.update(data);
    hasher.finalize()
}

/// The checksum the tool sends with the flash check request: the CRC32
/// (IEEE) of the image.
pub fn image_crc(image: &[u8]) -> (r: u32)
    ensures
        r == crc32_ieee(image@),
{
    crc32_after_reset(DSU_CRC32_SEED, image)
}

/// Request that reads the data of local identifier `id`.
pub fn read_local_id_request(id: u8) -> (r: [u8; 2])
    ensures
        r@ == seq![0x21u8, id],
{
    let r = [kwp_sid(KwpService::ReadDataByLocalIdentifier), id];
    assert(r@ =~= seq![0x21u8, id]);
    r
}

/// Request that reads the ECU identification block `id`.
pub fn read_ident_request(id: u8) -> (r: [u8; 2])
    ensures
        r@ == seq![0x1Au8, id],
{
    let r = [kwp_sid(KwpService::ReadEcuIdentification), id];
    assert(r@ =~= seq![0x1Au8, id]);
    r
}

/// Why the bootloader is active, from the reply to reading identifier
/// `0xE2` (its third byte).
pub fn stay_reason_of_reply(reply: &[u8]) -> (r: BootloaderStayReason)
    requires
        reply@.len() >= 3,
    ensures
        r == BootloaderStayReason::spec_from_byte(reply@[2]),
{
    BootloaderStayReason::from(reply[2])
}

/// The panic location in the reply to reading identifier `0xE4`: column,
/// line (both little endian) and the file name bytes.
pub fn panic_location_of(reply: &[u8]) -> (r: (u32, u32, Vec<u8>))
    requires
        reply@.len() >= 10,
    ensures
        r.0 == from_le32(reply@.subrange(2, 6)),
        r.1 == from_le32(reply@.subrange(6, 10)),
        r.2@ == reply@.subrange(10, reply@.len() as int),
{
    let column = read_le32(reply, 2);
    let line = read_le32(reply, 6);
    let n = reply.len();
    let mut file: Vec<u8> = Vec::new();
    let mut i: usize = 10;
    while i < n
        invariant
            n == reply@.len(),
            10 <= i <= n,
            file@ == reply@.subrange(10, i as int),
        decreases n - i,
    {
        file.push(reply[i]);
        proof {
            assert(reply@.subrange(10, i + 1) =~= reply@.subrange(10, i as int).push(reply@[i as int]));
        }
        i = i + 1;
    }
    (column, line, file)
}

/// The code section record `idx` (0 preloader, 1 bootloader, 2
/// application) in the reply to identification block `0x8A`.
pub fn code_section_at(ident: &[u8], idx: usize) -> (r: CodeSectionInfo)
    requires
        idx < 3,
        ident@.len() >= 2 + 33 * (idx + 1),
    ensures
        r.spec_bytes() == ident@.subrange(2 + 33 * idx, 2 + 33 * (idx + 1)),
{
    let off = 2 + 33 * idx;
    let n = ident.len();
    let mut rec: Vec<u8> = Vec::new();
    let mut i: usize = 0;
    while i < 33
        invariant
            n == ident@.len(),
            off + 33 <= n,
            i <= 33,
            rec@ == ident@.subrange(off as int, off + i),
        decreases 33 - i,
    {
        rec.push(ident[off + i]);
        proof {
            assert(ident@.subrange(off as int, off + i + 1) =~= ident@.subrange(off as int, off + i).push(ident@[off + i]));
        }
        i = i + 1;
    }
    CodeSectionInfo::from_bytes(rec.as_slice())
}

/// The fingerprint (CRC) of the bootloader (`idx` 1) or the application
/// (`idx` 2) in the identification reply; `None` when it reads as erased
/// or zero, as after flashing through a debugger.
pub fn fingerprint_at(ident: &[u8], idx: usize) -> (r: Option<u32>)
    requires
        1 <= idx <= 2,
        ident@.len() >= 101 + 4 * idx,
    ensures
        ({
            let crc = from_le32(ident@.subrange(101 + 4 * (idx - 1), 101 + 4 * idx));
            r == (if crc == 0xFFFF_FFFF || crc == 0 { None } else { Some(crc) })
        }),
{
    let crc = read_le32(ident, 101 + (idx - 1) * 4);
    if crc == 0xFFFF_FFFF || crc == 0 {
        None
    } else {
        Some(crc)
    }
}

/// Log levels of the controller's log messages.
#[derive(Clone, Copy, PartialEq, Eq, Structural)]
pub enum LogLevel {
    Info,
    Warn,
    Error,
    Debug,
}

/// A time stamp in microseconds, shown as `[days d ]hh:mm:ss.micros`.
#[derive(Clone, Copy)]
pub struct MicrosFormattedDuration(pub u64);

/// Days, hours, minutes, seconds and microseconds of a time stamp.
#[derive(Clone, Copy, PartialEq, Eq, Structural)]
pub struct DurationParts {
    pub days: u64,
    pub hours: u64,
    pub minutes: u64,
    pub seconds: u64,
    pub micros: u64,
}

impl MicrosFormattedDuration {
    /// Splits the time stamp into the parts that are shown.
    pub fn parts(&self) -> (r: DurationParts)
        ensures
            r.micros == self.0 % 1_000_000,
            r.seconds == (self.0 / 1_000_000) % 60,
            r.minutes == (self.0 / 1_000_000 / 60) % 60,
            r.hours == (self.0 / 1_000_000 / 60 / 60) % 24,
            r.days == self.0 / 1_000_000 / 60 / 60 / 24,
            r.micros + 1_000_000 * (r.seconds + 60 * (r.minutes + 60 * (r.hours + 24 * r.days))) == self.0,
    {
        let mut t = self.0 / 1_000_000;
        let micros = self.0 % 1_000_000;
        let seconds = t % 60;
        t = t / 60;
        let minutes = t % 60;
        t = t / 60;
        let hours = t % 24;
        t = t / 24;
        let r = DurationParts { days: t, hours, minutes, seconds, micros };
        proof {
            let x = self.0 as int;
            assert(x == 1_000_000 * (x / 1_000_000) + x % 1_000_000);
            let s = x / 1_000_000;
            assert(s == 60 * (s / 60) + s % 60);
            let m = s / 60;
            assert(m == 60 * (m / 60) + m % 60);
            let h = m / 60;
            assert(h == 24 * (h / 24) + h % 24);
            assert(r.micros + 1_000_000 * (r.seconds + 60 * (r.minutes + 60 * (r.hours + 24 * r.days))) == x) by (nonlinear_arith)
                requires
                    x == 1_000_000 * s + r.micros,
                    s == 60 * m + r.seconds,
                    m == 60 * h + r.minutes,
                    h == 24 * r.days + r.hours,
            ;
        }
        r
    }
}

} // verus!
