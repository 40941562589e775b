//! Identification of the code sections (preloader, bootloader,
//! application) and the board information page that holds them.
use vstd::prelude::*;
use vstd::string::{StrSliceExecFns, StringSliceAdditionalSpecFns};
use crate::text::{bytes_eq, digit_run_end, digits_value};

verus! {

/// Number of bytes of a packed [`CodeSectionInfo`].
pub const CODE_SECTION_INFO_LEN: usize = 33;

/// Identification of one flashed code section, as it is packed in the
/// board information page (33 bytes, in field order).
#[derive(Clone, Copy)]
pub struct CodeSectionInfo {
    pub name: [u8; 10],
    pub git_sha: [u8; 12],
    pub version_major: u8,
    pub version_minor: u8,
    pub version_patch: u8,
    pub rustc_version_major: u8,
    pub rustc_version_minor: u8,
    pub rustc_version_patch: u8,
    pub compile_year: u8,
    pub compile_month: u8,
    pub compile_week: u8,
    pub compile_day: u8,
    pub is_debug: u8,
}

/// Copies `src[start..start + N]`.
fn take_bytes<const N: usize>(src: &[u8], start: usize) -> (r: [u8; N])
    requires
        start + N <= src@.len(),
    ensures
        r@ == src@.subrange(start as int, start + N),
{
    let mut out = [0u8; N];
    let n = src.len();
    let mut i: usize = 0;
    while i < N
        invariant
            n == src@.len(),
            start + N <= n,
            i <= N,
            out@.len() == N,
            forall|j: int| 0 <= j < i ==> out@[j] == src@[start + j],
        decreases N - i,
    {
        out[i] = src[start + i];
        i = i + 1;
    }
    assert(out@ =~= src@.subrange(start as int, start + N));
    out
}

impl CodeSectionInfo {
    /// The packed bytes of the record.
    pub open spec fn spec_bytes(&self) -> Seq<u8> {
        self.name@ + self.git_sha@ + seq![
            self.version_major,
            self.version_minor,
            self.version_patch,
            self.rustc_version_major,
            self.rustc_version_minor,
            self.rustc_version_patch,
            self.compile_year,
            self.compile_month,
            self.compile_week,
            self.compile_day,
            self.is_debug,
        ]
    }

    /// The fields that identify a build (all but the git hash and the
    /// debug flag) are equal.
    pub open spec fn same_build(&self, other: &CodeSectionInfo) -> bool {
        &&& self.name@ == other.name@
        &&& self.version_major == other.version_major
        &&& self.version_minor == other.version_minor
        &&& self.version_patch == other.version_patch
        &&& self.rustc_version_major == other.rustc_version_major
        &&& self.rustc_version_minor == other.rustc_version_minor
        &&& self.rustc_version_patch == other.rustc_version_patch
        &&& self.compile_year == other.compile_year
        &&& self.compile_month == other.compile_month
        &&& self.compile_week == other.compile_week
        &&& self.compile_day == other.compile_day
    }

    /// A section counts as flashed when no byte of its name is erased
    /// flash (`0xFF`).
    pub open spec fn spec_is_flashed(&self) -> bool {
        forall|i: int| 0 <= i < 10 ==> self.name@[i] != 0xFF
    }

    /// Marks the version and build date as erased (`0xFF`); the name, the
    /// git hash and the debug flag stay.
    pub fn clear(&mut self)
        ensures
            final(self).name == old(self).name,
            final(self).git_sha == old(self).git_sha,
            final(self).is_debug == old(self).is_debug,
            final(self).version_major == 0xFF,
            final(self).version_minor == 0xFF,
            final(self).version_patch == 0xFF,
            final(self).rustc_version_major == 0xFF,
            final(self).rustc_version_minor == 0xFF,
            final(self).rustc_version_patch == 0xFF,
            final(self).compile_day == 0xFF,
            final(self).compile_month == 0xFF,
            final(self).compile_week == 0xFF,
            final(self).compile_year == 0xFF,
    {
        self.version_major = 0xFF;
        self.version_minor = 0xFF;
        self.version_patch = 0xFF;
        self.rustc_version_major = 0xFF;
        self.rustc_version_minor = 0xFF;
        self.rustc_version_patch = 0xFF;
        self.compile_day = 0xFF;
        self.compile_month = 0xFF;
        self.compile_week = 0xFF;
        self.compile_year = 0xFF;
    }

    /// Whether the section is flashed (see [`Self::spec_is_flashed`]).
    pub fn is_flashed(&self) -> (r: bool)
        ensures
            r == self.spec_is_flashed(),
    {
        let mut i: usize = 0;
        while i < 10
            invariant
                i <= 10,
                self.name@.len() == 10,
                forall|j: int| 0 <= j < i ==> self.name@[j] != 0xFF,
            decreases 10 - i,
        {
            if self.name[i] == 0xFF {
                return false;
            }
            i = i + 1;
        }
        true
    }

    /// The packed bytes of the record.
    pub fn to_bytes(&self) -> (r: [u8; 33])
        ensures
            r@ == self.spec_bytes(),
    {
        let mut out = [0u8; 33];
        let mut i: usize = 0;
        while i < 10
            invariant
                i <= 10,
                out@.len() == 33,
                self.name@.len() == 10,
                forall|j: int| 0 <= j < i ==> out@[j] == self.name@[j],
            decreases 10 - i,
        {
            out[i] = self.name[i];
            i = i + 1;
        }
        let mut k: usize = 0;
        while k < 12
            invariant
                k <= 12,
                out@.len() == 33,
                self.name@.len() == 10,
                self.git_sha@.len() == 12,
                forall|j: int| 0 <= j < 10 ==> out@[j] == self.name@[j],
                forall|j: int| 0 <= j < k ==> out@[10 + j] == self.git_sha@[j],
            decreases 12 - k,
        {
            out[10 + k] = self.git_sha[k];
            k = k + 1;
        }
        out[22] = self.version_major;
        out[23] = self.version_minor;
        out[24] = self.version_patch;
        out[25] = self.rustc_version_major;
        out[26] = self.rustc_version_minor;
        out[27] = self.rustc_version_patch;
        out[28] = self.compile_year;
        out[29] = self.compile_month;
        out[30] = self.compile_week;
        out[31] = self.compile_day;
        out[32] = self.is_debug;
        assert(out@ =~= self.spec_bytes());
        out
    }

    /// Reads a record from the first 33 bytes of `b`.
    pub fn from_bytes(b: &[u8]) -> (r: CodeSectionInfo)
        requires
            b@.len() >= 33,
        ensures
            r.spec_bytes() == b@.subrange(0, 33),
    {
        let name: [u8; 10] = take_bytes(b, 0);
        let git_sha: [u8; 12] = take_bytes(b, 10);
        let r = CodeSectionInfo {
            name,
            git_sha,
            version_major: b[22],
            version_minor: b[23],
            version_patch: b[24],
            rustc_version_major: b[25],
            rustc_version_minor: b[26],
            rustc_version_patch: b[27],
            compile_year: b[28],
            compile_month: b[29],
            compile_week: b[30],
            compile_day: b[31],
            is_debug: b[32],
        };
        assert(r.spec_bytes() =~= b@.subrange(0, 33));
        r
    }
}

impl PartialEq for CodeSectionInfo {
    fn eq(&self, other: &Self) -> (r: bool) {
        bytes_eq(&self.name, &other.name)
            && self.version_major == other.version_major
            && self.version_minor == other.version_minor
            && self.version_patch == other.version_patch
            && self.rustc_version_major == other.rustc_version_major
            && self.rustc_version_minor == other.rustc_version_minor
            && self.rustc_version_patch == other.rustc_version_patch
            && self.compile_year == other.compile_year
            && self.compile_month == other.compile_month
            && self.compile_week == other.compile_week
            && self.compile_day == other.compile_day
    }
}

impl vstd::std_specs::cmp::PartialEqSpecImpl for CodeSectionInfo {
    open spec fn obeys_eq_spec() -> bool {
        true
    }

    open spec fn eq_spec(&self, other: &CodeSectionInfo) -> bool {
        self.same_build(other)
    }
}

/// A record is determined by its packed bytes, so reading back what
/// [`CodeSectionInfo::to_bytes`] packed gives the same record (and
/// [`CodeSectionInfo::from_bytes`] keeps all 33 bytes it read).
pub proof fn lemma_section_info_roundtrip(info: CodeSectionInfo, r: CodeSectionInfo)
    requires
        r.spec_bytes() == info.spec_bytes(),
    ensures
        r == info,
{
    assert(r.name@ =~= r.spec_bytes().subrange(0, 10));
    assert(info.name@ =~= info.spec_bytes().subrange(0, 10));
    assert(r.git_sha@ =~= r.spec_bytes().subrange(10, 22));
    assert(info.git_sha@ =~= info.spec_bytes().subrange(10, 22));
    assert(r.name@.len() == 10 && r.git_sha@.len() == 12);
    assert(info.name@.len() == 10 && info.git_sha@.len() == 12);
    let tail_r = r.spec_bytes().subrange(22, 33);
    let tail_i = info.spec_bytes().subrange(22, 33);
    assert(tail_r =~= seq![r.version_major, r.version_minor, r.version_patch, r.rustc_version_major,
        r.rustc_version_minor, r.rustc_version_patch, r.compile_year, r.compile_month,
        r.compile_week, r.compile_day, r.is_debug]);
    assert(tail_i =~= seq![info.version_major, info.version_minor, info.version_patch,
        info.rustc_version_major, info.rustc_version_minor, info.rustc_version_patch,
        info.compile_year, info.compile_month, info.compile_week, info.compile_day, info.is_debug]);
    assert(tail_r == tail_i);
    assert forall|i: int| 0 <= i < 10 implies r.name[i] == info.name[i] by {
        vstd::array::lemma_array_index(r.name, i);
        vstd::array::lemma_array_index(info.name, i);
        assert(r.name@[i] == info.name@[i]);
    }
    assert forall|i: int| 0 <= i < 12 implies r.git_sha[i] == info.git_sha[i] by {
        vstd::array::lemma_array_index(r.git_sha, i);
        vstd::array::lemma_array_index(info.git_sha, i);
        assert(r.git_sha@[i] == info.git_sha@[i]);
    }
    assert(r.name =~= info.name);
    assert(r.git_sha =~= info.git_sha);
}

/// The board information page kept in the controller's smart EEPROM.
#[derive(Clone, Copy)]
pub struct SmartEepromInfo {
    /// Board production day (burnt once through the bootloader).
    pub board_prod_day: u8,
    /// Board production month.
    pub board_prod_month: u8,
    /// Board production week.
    pub board_prod_week: u8,
    /// Board production year.
    pub board_prod_year: u8,
    pub preloader_info: CodeSectionInfo,
    pub bootloader_info: CodeSectionInfo,
    pub firmware_info: CodeSectionInfo,
    /// 0 once the application was flashed completely.
    pub app_flashing_not_done: u8,
    /// 0 while a staged bootloader waits to be copied.
    pub bl_flashing_pending: u8,
    /// CRC32 of the application region.
    pub crc32_app: u32,
    /// CRC32 of the bootloader region.
    pub crc32_bl: u32,
}

impl SmartEepromInfo {
    /// Whether the production date has been burnt (no part is erased).
    pub fn is_production_date_set(&self) -> (r: bool)
        ensures
            r == (self.board_prod_day != 0xFF && self.board_prod_month != 0xFF
                && self.board_prod_week != 0xFF && self.board_prod_year != 0xFF),
    {
        self.board_prod_day != 0xFF && self.board_prod_month != 0xFF && self.board_prod_week
            != 0xFF && self.board_prod_year != 0xFF
    }
}

/// Records the identification of the running section: the stored record
/// is replaced when it names another build, and kept otherwise.
pub fn record_section_info(stored: &mut CodeSectionInfo, current: CodeSectionInfo)
    ensures
        *final(stored) == (if old(stored).same_build(&current) { *old(stored) } else { current }),
{
    if *stored != current {
        *stored = current;
    }
}

/// The number that the decimal digits at the start of `s` spell, where
/// there is at least one digit and the number is at most 255.
pub open spec fn leading_u8(s: Seq<u8>) -> Option<u8> {
    let end = digit_run_end(s, 0);
    if end == 0 {
        None
    } else {
        match digits_value(s.subrange(0, end), 10) {
            Some(v) => if v <= 255 {
                Some(v as u8)
            } else {
                None
            },
            None => None,
        }
    }
}

/// Calls `konst`'s `Parser::parse_u8`, which reads the decimal digits at
/// the start of `s` (at least one), refuses a number over 255 and stops at
/// the first byte that is not a digit.
#[verifier::external_body]
fn konst_parse_u8(s: &str) -> (r: Option<u8>)
    ensures
        r == leading_u8(s.spec_bytes()),
{
    konst::Parser::new(s).parse_u8().ok()
}

/// The number at the start of `s`: how a version or date number given to
/// the build as text becomes a field of [`CodeSectionInfo`].
pub fn parse_u8(s: &str) -> (r: u8)
    requires
        leading_u8(s.spec_bytes()) is Some,
    ensures
        leading_u8(s.spec_bytes()) == Some(r),
{
    konst_parse_u8(s).unwrap()
}

/// The first twelve characters of `s`, each cut to its low byte: how the
/// commit hash given to the build as text becomes the `git_sha` of a
/// [`CodeSectionInfo`].
pub fn parse_git_sha(s: &str) -> (r: [u8; 12])
    requires
        s@.len() >= 12,
    ensures
        forall|i: int| 0 <= i < 12 ==> r@[i] == s@[i] as u8,
{
    let mut out: [u8; 12] = [0; 12];
    let mut i: usize = 0;
    while i < 12
        invariant
            s@.len() >= 12,
            i <= 12,
            forall|k: int| 0 <= k < i ==> out@[k] == s@[k] as u8,
        decreases 12 - i,
    {
        let c = s.get_char(i);
        out[i] = c as u8;
        i = i + 1;
    }
    out
}

} // verus!
