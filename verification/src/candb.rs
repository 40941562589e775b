//! Reader for the text CAN database that the CAN layers of the firmware are
//! generated from.
//!
//! The database is UTF-8 text, one entry per line:
//!
//! ```text
//! # comment
//! ECU EGS52
//! FRAME GS_218 (0x0218)
//! SIGNAL GS_218h_GZC, OFFSET: 0, LEN: 4, DESC: Target gear, DATA TYPE ENUM
//! ENUM G_N, RAW: 0, DESC: Neutral
//! SIGNAL TORQUE_REQ, OFFSET: 4, LEN: 12, DESC: Torque, DATA TYPE NUMBER(_MULTIPLIER_: 0.25, _OFFSET_: 0)
//! ```
//!
//! Frames belong to the last `ECU` line, signals to the last frame of that
//! ECU, and enum entries to the last signal of that frame.
use vstd::prelude::*;
use vstd::string::StringSliceAdditionalSpecFns;
use crate::text::{
    bytes_eq,
    trim,
    occurs_at,
    find_from,
    before_first,
    after_first,
    after_last,
    lemma_find_from_found,
    remove_all,
    starts_with,
    find_from_exec,
    before_first_of,
    after_first_of,
    after_last_of,
    trimmed,
    remove_all_of,
    parse_unsigned,
    parse_unsigned_exec,
    is_float_literal,
    is_float_literal_exec,
    starts_with_exec,
};
use convert_case::{Case, Casing};

verus! {

/// The name that `convert_case` gives `s` in upper camel case (Pascal
/// case), `s` read as UTF-8 text.
pub uninterp spec fn upper_camel(s: Seq<u8>) -> Seq<u8>;

/// Calls `convert_case`'s `to_case(Case::UpperCamel)` on `s` read as UTF-8
/// text (invalid sequences read as U+FFFD). Its result is named, not
/// described: the splitting into words and the capitalisation are
/// `convert_case`'s own.
#[verifier::external_body]
fn to_upper_camel(s: &[u8]) -> (r: Vec<u8>)
    ensures
        r@ == upper_camel(s@),
{
    String::from_utf8_lossy(s).to_case(Case::UpperCamel).into_bytes()
}

/// How the raw bits of a signal are read.
pub enum DataType {
    /// One bit, on or off.
    Bool,
    /// A scaled number. The offset and the multiplier are the decimal text
    /// of the database; each is a number as Rust's `f32` parser reads it.
    Int { offset: Vec<u8>, multi: Vec<u8> },
    /// Named raw values: raw value, variant name, description.
    Enum(Vec<(u32, Vec<u8>, Vec<u8>)>),
    /// The payload of an ISO-TP frame.
    IsoTp,
}

/// The mathematical value of a [`DataType`].
pub enum DataTypeView {
    Bool,
    Int { offset: Seq<u8>, multi: Seq<u8> },
    Enum(Seq<(u32, Seq<u8>, Seq<u8>)>),
    IsoTp,
}

impl DeepView for DataType {
    type V = DataTypeView;

    open spec fn deep_view(&self) -> DataTypeView {
        match self {
            DataType::Bool => DataTypeView::Bool,
            DataType::Int { offset, multi } => DataTypeView::Int {
                offset: offset@,
                multi: multi@,
            },
            DataType::Enum(entries) => DataTypeView::Enum(entries.deep_view()),
            DataType::IsoTp => DataTypeView::IsoTp,
        }
    }
}

/// One signal of a frame.
pub struct SignalBasic {
    pub name: Vec<u8>,
    pub desc: Vec<u8>,
    /// First bit of the signal in the frame.
    pub offset: u32,
    /// Number of bits.
    pub len: u32,
    pub dt: DataType,
}

/// The mathematical value of a [`SignalBasic`].
pub struct SignalView {
    pub name: Seq<u8>,
    pub desc: Seq<u8>,
    pub offset: u32,
    pub len: u32,
    pub dt: DataTypeView,
}

impl DeepView for SignalBasic {
    type V = SignalView;

    open spec fn deep_view(&self) -> SignalView {
        SignalView {
            name: self.name@,
            desc: self.desc@,
            offset: self.offset,
            len: self.len,
            dt: self.dt.deep_view(),
        }
    }
}

/// The data type named at the start of `dt`, with the multiplier and
/// offset of a number; `None` for an unknown type or a number whose
/// multiplier or offset is not a number.
pub open spec fn data_type_spec(dt: Seq<u8>) -> Option<DataTypeView> {
    if starts_with(dt, "ENUM".spec_bytes()) {
        Some(DataTypeView::Enum(Seq::empty()))
    } else if starts_with(dt, "BOOL".spec_bytes()) {
        Some(DataTypeView::Bool)
    } else if starts_with(dt, "NUMBER".spec_bytes()) {
        let multi = before_first(after_last(dt, "_MULTIPLIER_: ".spec_bytes()), ",".spec_bytes());
        let offset = before_first(after_last(dt, "_OFFSET_: ".spec_bytes()), ")".spec_bytes());
        if is_float_literal(multi) && is_float_literal(offset) {
            Some(DataTypeView::Int { offset, multi })
        } else {
            None
        }
    } else if starts_with(dt, "ISO_TP".spec_bytes()) {
        Some(DataTypeView::IsoTp)
    } else {
        None
    }
}

#[verifier::opaque]
/// The signal that a `SIGNAL` line describes:
/// `SIGNAL <name>, OFFSET: <n>, LEN: <n>, DESC: <text>, DATA TYPE <type>`.
/// The name is the last word before the first `, `, in upper camel case;
/// offset and length follow the last `: ` of the next two `, ` separated
/// parts; the description runs from the last `DESC: ` to the first
/// `, DATA TYPE`; the type follows the last `DATA TYPE `. `None` where a
/// part is missing, a number does not parse or the type is unknown.
pub open spec fn signal_spec(line: Seq<u8>) -> Option<SignalView> {
    let sep = ", ".spec_bytes();
    let colon = ": ".spec_bytes();
    match after_first(line, sep) {
        None => None,
        Some(r1) => match after_first(r1, sep) {
            None => None,
            Some(r2) => {
                let p0 = before_first(line, sep);
                let p1 = before_first(r1, sep);
                let p2 = before_first(r2, sep);
                let name = upper_camel(after_last(trim(p0), " ".spec_bytes()));
                let offset = parse_unsigned(after_last(trim(p1), colon), 10, 0xFFFF_FFFF);
                let len = parse_unsigned(after_last(trim(p2), colon), 10, 0xFFFF_FFFF);
                let dt_str = trim(after_last(line, "DATA TYPE ".spec_bytes()));
                let desc = before_first(
                    after_last(line, "DESC: ".spec_bytes()),
                    ", DATA TYPE".spec_bytes(),
                );
                match (offset, len, data_type_spec(dt_str)) {
                    (Some(o), Some(l), Some(dt)) => Some(
                        SignalView { name, desc, offset: o as u32, len: l as u32, dt },
                    ),
                    _ => None,
                }
            },
        },
    }
}

fn data_type_of(dt: &[u8]) -> (r: Option<DataType>)
    ensures
        r matches Some(d) ==> data_type_spec(dt@) == Some(d.deep_view()),
        r is None ==> data_type_spec(dt@) is None,
{
    if starts_with_exec(dt, "ENUM".as_bytes()) {
        let v: Vec<(u32, Vec<u8>, Vec<u8>)> = Vec::new();
        assert(v.deep_view() =~= Seq::<(u32, Seq<u8>, Seq<u8>)>::empty());
        Some(DataType::Enum(v))
    } else if starts_with_exec(dt, "BOOL".as_bytes()) {
        Some(DataType::Bool)
    } else if starts_with_exec(dt, "NUMBER".as_bytes()) {
        let multi = before_first_of(after_last_of(dt, "_MULTIPLIER_: ".as_bytes()), ",".as_bytes());
        let offset = before_first_of(after_last_of(dt, "_OFFSET_: ".as_bytes()), ")".as_bytes());
        if is_float_literal_exec(multi) && is_float_literal_exec(offset) {
            Some(
                DataType::Int {
                    offset: vstd::slice::slice_to_vec(offset),
                    multi: vstd::slice::slice_to_vec(multi),
                },
            )
        } else {
            None
        }
    } else if starts_with_exec(dt, "ISO_TP".as_bytes()) {
        Some(DataType::IsoTp)
    } else {
        None
    }
}

fn signal_of(line: &[u8]) -> (r: Option<SignalBasic>)
    ensures
        r matches Some(sig) ==> signal_spec(line@) == Some(sig.deep_view()),
        r is None ==> signal_spec(line@) is None,
{
    reveal(signal_spec);
    let sep = ", ".as_bytes();
    let colon = ": ".as_bytes();
    let r1 = match after_first_of(line, sep) {
        Some(r) => r,
        None => return None,
    };
    let r2 = match after_first_of(r1, sep) {
        Some(r) => r,
        None => return None,
    };
    let p0 = before_first_of(line, sep);
    let p1 = before_first_of(r1, sep);
    let p2 = before_first_of(r2, sep);
    let name = to_upper_camel(after_last_of(trimmed(p0), " ".as_bytes()));
    let offset = match parse_unsigned_exec(after_last_of(trimmed(p1), colon), 10, 0xFFFF_FFFF) {
        Some(v) => v,
        None => return None,
    };
    let len = match parse_unsigned_exec(after_last_of(trimmed(p2), colon), 10, 0xFFFF_FFFF) {
        Some(v) => v,
        None => return None,
    };
    let dt_str = trimmed(after_last_of(line, "DATA TYPE ".as_bytes()));
    let desc = before_first_of(after_last_of(line, "DESC: ".as_bytes()), ", DATA TYPE".as_bytes());
    let dt = match data_type_of(dt_str) {
        Some(d) => d,
        None => return None,
    };
    Some(SignalBasic { name, desc: vstd::slice::slice_to_vec(desc), offset, len, dt })
}

/// A frame of the database: its name, its CAN identifier and its signals.
pub struct Frame {
    pub name: Vec<u8>,
    pub id: u16,
    pub signals: Vec<SignalBasic>,
}

/// The mathematical value of a [`Frame`].
pub struct FrameView {
    pub name: Seq<u8>,
    pub id: u16,
    pub signals: Seq<SignalView>,
}

impl DeepView for Frame {
    type V = FrameView;

    open spec fn deep_view(&self) -> FrameView {
        FrameView { name: self.name@, id: self.id, signals: self.signals.deep_view() }
    }
}

/// Why a database text is refused.
#[derive(Debug, PartialEq, Eq, Clone, Copy)]
pub enum CanDbError {
    /// A line that is none of the known entries.
    InvalidEntry,
    /// A second `ECU` line with a name that is already in the database.
    DuplicateEcu,
    /// A `FRAME` line before any `ECU` line.
    FrameWithoutEcu,
    /// A `FRAME` line without an identifier, or with one that is not
    /// `0x` and at most four hexadecimal digits.
    MalformedFrame,
    /// A `SIGNAL` line that [`signal_spec`] does not read.
    MalformedSignal,
    /// An `ENUM` line whose raw value is not a number.
    MalformedEnum,
    /// An `ENUM` line in a frame that has no signal yet.
    EnumWithoutSignal,
    /// An `ENUM` line after a signal that is not an enum.
    EnumOnNonEnumSignal,
}

/// The frames of the database, by ECU, and the ECU that entries are added to.
pub struct CanDbParser {
    pub curr_ecu: Vec<u8>,
    pub ecus: Vec<(Vec<u8>, Vec<Frame>)>,
}

impl Default for CanDbParser {
    /// A parser with no ECU yet and no current ECU.
    fn default() -> (r: Self)
        ensures
            r@.curr_ecu.len() == 0,
            r@.ecus.len() == 0,
    {
        let r = CanDbParser { curr_ecu: Vec::new(), ecus: Vec::new() };
        assert(r@.ecus =~= Seq::<(Seq<u8>, Seq<FrameView>)>::empty());
        r
    }
}

/// The mathematical value of a [`CanDbParser`].
pub struct DbView {
    pub curr_ecu: Seq<u8>,
    pub ecus: Seq<(Seq<u8>, Seq<FrameView>)>,
}

impl View for CanDbParser {
    type V = DbView;

    open spec fn view(&self) -> DbView {
        DbView { curr_ecu: self.curr_ecu@, ecus: self.ecus.deep_view() }
    }
}

/// The first index at or after `i` of the ECU called `name`.
pub open spec fn ecu_index_from(ecus: Seq<(Seq<u8>, Seq<FrameView>)>, name: Seq<u8>, i: int) -> Option<
    int,
>
    decreases ecus.len() - i,
{
    if i < 0 || i >= ecus.len() {
        None
    } else if ecus[i].0 == name {
        Some(i)
    } else {
        ecu_index_from(ecus, name, i + 1)
    }
}

/// The index of the ECU called `name`.
pub open spec fn ecu_index(ecus: Seq<(Seq<u8>, Seq<FrameView>)>, name: Seq<u8>) -> Option<int> {
    ecu_index_from(ecus, name, 0)
}

/// What `ecu_index_from` finds is that ECU, and no earlier one from `i` on
/// has the name.
pub proof fn lemma_ecu_index_from(ecus: Seq<(Seq<u8>, Seq<FrameView>)>, name: Seq<u8>, i: int)
    ensures
        ecu_index_from(ecus, name, i) matches Some(k) ==> i <= k < ecus.len() && ecus[k].0 == name
            && forall|j: int| i <= j < k ==> ecus[j].0 != name,
        0 <= i && ecu_index_from(ecus, name, i) is None ==> forall|j: int|
            i <= j < ecus.len() ==> ecus[j].0 != name,
    decreases ecus.len() - i,
{
    if i >= 0 && i < ecus.len() && ecus[i].0 != name {
        lemma_ecu_index_from(ecus, name, i + 1);
    }
}

/// The state with the frames of ECU `i` replaced.
pub open spec fn with_frames(st: DbView, i: int, frames: Seq<FrameView>) -> DbView {
    DbView { curr_ecu: st.curr_ecu, ecus: st.ecus.update(i, (st.ecus[i].0, frames)) }
}

/// The current working frame: the last frame of the current ECU, as the
/// index of the ECU and of the frame.
pub open spec fn current_frame(st: DbView) -> Option<(int, int)> {
    match ecu_index(st.ecus, st.curr_ecu) {
        Some(i) => if st.ecus[i].1.len() > 0 {
            Some((i, st.ecus[i].1.len() - 1))
        } else {
            None
        },
        None => None,
    }
}

/// An `ECU` line: a new ECU without frames, which becomes the current one.
pub open spec fn new_ecu_spec(st: DbView, name: Seq<u8>) -> Result<DbView, CanDbError> {
    if ecu_index(st.ecus, name) is Some {
        Err(CanDbError::DuplicateEcu)
    } else {
        Ok(DbView { curr_ecu: name, ecus: st.ecus.push((name, Seq::empty())) })
    }
}

/// A `FRAME` line: a new frame without signals at the end of the current
/// ECU's frames.
pub open spec fn new_frame_spec(st: DbView, name: Seq<u8>, id: u16) -> Result<DbView, CanDbError> {
    match ecu_index(st.ecus, st.curr_ecu) {
        Some(i) => Ok(
            with_frames(
                st,
                i,
                st.ecus[i].1.push(FrameView { name, id, signals: Seq::empty() }),
            ),
        ),
        None => Err(CanDbError::FrameWithoutEcu),
    }
}

/// A signal added to the current working frame; nothing changes where
/// there is none.
pub open spec fn push_signal_spec(st: DbView, sig: SignalView) -> DbView {
    match current_frame(st) {
        Some((i, j)) => {
            let f = st.ecus[i].1[j];
            with_frames(
                st,
                i,
                st.ecus[i].1.update(
                    j,
                    FrameView { name: f.name, id: f.id, signals: f.signals.push(sig) },
                ),
            )
        },
        None => st,
    }
}

/// The name of an enum variant: `name` in upper camel case, or
/// `Underscore` where that comes out empty.
pub open spec fn variant_name(name: Seq<u8>) -> Seq<u8> {
    let n = upper_camel(name);
    if n.len() == 0 {
        "Underscore".spec_bytes()
    } else {
        n
    }
}

/// An `ENUM` line: a variant added to the last signal of the current
/// working frame, which must be an enum; nothing changes where there is no
/// current working frame.
pub open spec fn push_enum_spec(st: DbView, raw: u32, name: Seq<u8>, desc: Seq<u8>) -> Result<
    DbView,
    CanDbError,
> {
    match current_frame(st) {
        None => Ok(st),
        Some((i, j)) => {
            let f = st.ecus[i].1[j];
            if f.signals.len() == 0 {
                Err(CanDbError::EnumWithoutSignal)
            } else {
                let k = f.signals.len() - 1;
                let sig = f.signals[k];
                match sig.dt {
                    DataTypeView::Enum(tab) => Ok(
                        with_frames(
                            st,
                            i,
                            st.ecus[i].1.update(
                                j,
                                FrameView {
                                    name: f.name,
                                    id: f.id,
                                    signals: f.signals.update(
                                        k,
                                        SignalView {
                                            name: sig.name,
                                            desc: sig.desc,
                                            offset: sig.offset,
                                            len: sig.len,
                                            dt: DataTypeView::Enum(
                                                tab.push((raw, variant_name(name), desc)),
                                            ),
                                        },
                                    ),
                                },
                            ),
                        ),
                    ),
                    _ => Err(CanDbError::EnumOnNonEnumSignal),
                }
            }
        },
    }
}

/// `s` without leading `(` or `)`.
pub open spec fn strip_lead_parens(s: Seq<u8>) -> Seq<u8>
    decreases s.len(),
{
    if s.len() > 0 && (s[0] == 0x28 || s[0] == 0x29) {
        strip_lead_parens(s.drop_first())
    } else {
        s
    }
}

/// `s` without leading and trailing `(` and `)`.
pub open spec fn strip_parens(s: Seq<u8>) -> Seq<u8> {
    strip_trail_parens(strip_lead_parens(s))
}

/// `s` without trailing `(` or `)`.
pub open spec fn strip_trail_parens(s: Seq<u8>) -> Seq<u8>
    decreases s.len(),
{
    if s.len() > 0 && (s.last() == 0x28 || s.last() == 0x29) {
        strip_trail_parens(s.drop_last())
    } else {
        s
    }
}

/// A `FRAME` line, `FRAME <name> (0x<id>)`: the name is the second word,
/// the identifier the third word without its parentheses, whose first two
/// bytes are skipped and the rest read as hexadecimal.
pub open spec fn frame_line_spec(st: DbView, t: Seq<u8>) -> Result<DbView, CanDbError> {
    let sp = " ".spec_bytes();
    match after_first(t, sp) {
        None => Err(CanDbError::MalformedFrame),
        Some(r1) => match after_first(r1, sp) {
            None => Err(CanDbError::MalformedFrame),
            Some(r2) => {
                let name = trim(before_first(r1, sp));
                let id = strip_parens(before_first(r2, sp));
                if id.len() < 2 {
                    Err(CanDbError::MalformedFrame)
                } else {
                    match parse_unsigned(id.subrange(2, id.len() as int), 16, 0xFFFF) {
                        None => Err(CanDbError::MalformedFrame),
                        Some(v) => new_frame_spec(st, name, v as u16),
                    }
                }
            },
        },
    }
}

#[verifier::opaque]
/// What one line of the database does to the state. Blank lines and lines
/// that start with `#` change nothing; `ECU`, `FRAME`, `SIGNAL` and `ENUM`
/// lines are read as above; any other line is refused.
pub open spec fn line_step(st: DbView, line: Seq<u8>) -> Result<DbView, CanDbError> {
    let t = trim(line);
    if t.len() == 0 || starts_with(t, "#".spec_bytes()) {
        Ok(st)
    } else if starts_with(t, "ECU ".spec_bytes()) {
        new_ecu_spec(st, t.subrange(4, t.len() as int))
    } else if starts_with(t, "FRAME ".spec_bytes()) {
        frame_line_spec(st, t)
    } else if starts_with(t, "SIGNAL ".spec_bytes()) {
        match signal_spec(t) {
            Some(sig) => Ok(push_signal_spec(st, sig)),
            None => Err(CanDbError::MalformedSignal),
        }
    } else if starts_with(t, "ENUM ".spec_bytes()) {
        let name = before_first(remove_all(t, "ENUM ".spec_bytes()), ",".spec_bytes());
        let raw = parse_unsigned(
            before_first(after_last(t, "RAW: ".spec_bytes()), ",".spec_bytes()),
            10,
            0xFFFF_FFFF,
        );
        match raw {
            None => Err(CanDbError::MalformedEnum),
            Some(v) => push_enum_spec(st, v as u32, name, after_last(t, "DESC: ".spec_bytes())),
        }
    } else {
        Err(CanDbError::InvalidEntry)
    }
}

/// The state after the lines of `text` (separated by `\n`), in order, up
/// to the first refused line, and the reason for that refusal if there is
/// one. The state is the one before the refused line.
pub open spec fn parse_text(st: DbView, text: Seq<u8>) -> (DbView, Option<CanDbError>)
    decreases text.len(),
{
    match find_from(text, seq![0x0Au8], 0) {
        None => match line_step(st, text) {
            Ok(st2) => (st2, None),
            Err(e) => (st, Some(e)),
        },
        Some(i) => match line_step(st, text.subrange(0, i)) {
            Ok(st2) => {
                proof {
                    lemma_find_from_found(text, seq![0x0Au8], 0);
                }
                parse_text(st2, text.subrange(i + 1, text.len() as int))
            },
            Err(e) => (st, Some(e)),
        },
    }
}

/// The index of the ECU called `name` in `ecus`.
fn ecu_index_exec(ecus: &Vec<(Vec<u8>, Vec<Frame>)>, name: &[u8]) -> (r: Option<usize>)
    ensures
        r matches Some(i) ==> ecu_index(ecus.deep_view(), name@) == Some(i as int) && i
            < ecus@.len(),
        r is None ==> ecu_index(ecus.deep_view(), name@) is None,
{
    let ghost dv = ecus.deep_view();
    let mut i: usize = 0;
    while i < ecus.len()
        invariant
            dv == ecus.deep_view(),
            i <= ecus@.len(),
            ecu_index(dv, name@) == ecu_index_from(dv, name@, i as int),
        decreases ecus@.len() - i,
    {
        assert(dv[i as int].0 == ecus@[i as int].0@);
        if bytes_eq(ecus[i].0.as_slice(), name) {
            return Some(i);
        }
        i = i + 1;
    }
    None
}

impl CanDbParser {
    /// Reads a `SIGNAL` line as [`signal_spec`] says; `None` where it
    /// does not read.
    pub fn basic_data(line: &str) -> (r: Option<SignalBasic>)
        ensures
            r matches Some(sig) ==> signal_spec(line.spec_bytes()) == Some(sig.deep_view()),
            r is None ==> signal_spec(line.spec_bytes()) is None,
    {
        signal_of(line.as_bytes())
    }

    fn new_ecu_bytes(&mut self, name: &[u8]) -> (r: Result<(), CanDbError>)
        ensures
            match new_ecu_spec(old(self)@, name@) {
                Ok(st) => r is Ok && final(self)@ == st,
                Err(e) => r == Err::<(), CanDbError>(e) && final(self)@ == old(self)@,
            },
    {
        if ecu_index_exec(&self.ecus, name).is_some() {
            return Err(CanDbError::DuplicateEcu);
        }
        let ghost old_dv = self.ecus.deep_view();
        let frames: Vec<Frame> = Vec::new();
        let entry = (vstd::slice::slice_to_vec(name), frames);
        assert(entry.deep_view() == (name@, Seq::<FrameView>::empty())) by {
            assert(frames.deep_view() =~= Seq::<FrameView>::empty());
        }
        self.ecus.push(entry);
        assert(self.ecus.deep_view() =~= old_dv.push((name@, Seq::<FrameView>::empty())));
        self.curr_ecu = vstd::slice::slice_to_vec(name);
        Ok(())
    }

    /// Reads an `ECU` line's name: a new ECU without frames, which becomes
    /// the current one. A name that is already in the database is refused
    /// and changes nothing.
    pub fn new_ecu(&mut self, name: &str) -> (r: Result<(), CanDbError>)
        ensures
            match new_ecu_spec(old(self)@, name.spec_bytes()) {
                Ok(st) => r is Ok && final(self)@ == st,
                Err(e) => r == Err::<(), CanDbError>(e) && final(self)@ == old(self)@,
            },
    {
        self.new_ecu_bytes(name.as_bytes())
    }

    fn new_frame_bytes(&mut self, name: &[u8], id: u16) -> (r: Result<(), CanDbError>)
        ensures
            match new_frame_spec(old(self)@, name@, id) {
                Ok(st) => r is Ok && final(self)@ == st,
                Err(e) => r == Err::<(), CanDbError>(e) && final(self)@ == old(self)@,
            },
    {
        let i = match ecu_index_exec(&self.ecus, self.curr_ecu.as_slice()) {
            Some(i) => i,
            None => return Err(CanDbError::FrameWithoutEcu),
        };
        let ghost old_dv = self.ecus.deep_view();
        let ghost old_frames = self.ecus@[i as int].1.deep_view();
        let signals: Vec<SignalBasic> = Vec::new();
        let frame = Frame { name: vstd::slice::slice_to_vec(name), id, signals };
        assert(frame.deep_view() == FrameView { name: name@, id, signals: Seq::empty() }) by {
            assert(signals.deep_view() =~= Seq::<SignalView>::empty());
        }
        self.ecus[i].1.push(frame);
        proof {
            let nf = self.ecus@[i as int].1.deep_view();
            assert(nf =~= old_frames.push(frame.deep_view()));
            assert(self.ecus.deep_view() =~= old_dv.update(i as int, (old_dv[i as int].0, nf)));
        }
        Ok(())
    }

    /// Reads a `FRAME` line's name and identifier: a new frame without
    /// signals at the end of the current ECU's frames. Without a current
    /// ECU the frame is refused and nothing changes.
    pub fn new_frame(&mut self, name: &str, id: u16) -> (r: Result<(), CanDbError>)
        ensures
            match new_frame_spec(old(self)@, name.spec_bytes(), id) {
                Ok(st) => r is Ok && final(self)@ == st,
                Err(e) => r == Err::<(), CanDbError>(e) && final(self)@ == old(self)@,
            },
    {
        self.new_frame_bytes(name.as_bytes(), id)
    }

    /// The current working frame, the last frame of the current ECU, to be
    /// changed in place; `None` where the current ECU has no frame or there
    /// is no current ECU.
    pub fn get_current_working_frame(&mut self) -> (r: Option<&mut Frame>)
        ensures
            current_frame(old(self)@) is None ==> r is None,
            current_frame(old(self)@) is Some ==> r is Some,
            final(self)@.curr_ecu == old(self)@.curr_ecu,
            current_frame(old(self)@) is None ==> final(self)@.ecus == old(self)@.ecus,
            current_frame(old(self)@) matches Some((i, j)) ==> (*r.unwrap()).deep_view() == old(
                self,
            )@.ecus[i].1[j],
            current_frame(old(self)@) matches Some((i, j)) ==> final(self)@.ecus == with_frames(
                old(self)@,
                i,
                old(self)@.ecus[i].1.update(j, (*final(r.unwrap())).deep_view()),
            ).ecus,
    {
        let ghost old_dv = self.ecus.deep_view();
        let i = match ecu_index_exec(&self.ecus, self.curr_ecu.as_slice()) {
            Some(i) => i,
            None => return None,
        };
        proof {
            lemma_deep_view_update_frames();
        }
        let frames = &mut self.ecus[i].1;
        let r = frames.last_mut();
        r
    }

    fn push_signal(&mut self, sig: SignalBasic)
        ensures
            final(self)@.curr_ecu == old(self)@.curr_ecu,
            final(self)@.ecus == push_signal_spec(old(self)@, sig.deep_view()).ecus,
    {
        let ghost st = self@;
        let ghost sv = sig.deep_view();
        proof {
            if let Some((i, j)) = current_frame(st) {
                lemma_ecu_index_from(st.ecus, st.curr_ecu, 0);
            }
        }
        match self.get_current_working_frame() {
            Some(frame) => {
                let ghost old_sigs = frame.signals.deep_view();
                frame.signals.push(sig);
                assert(frame.signals.deep_view() =~= old_sigs.push(sv));
            },
            None => {},
        }
    }

    fn push_enum(&mut self, raw: u32, name: &[u8], desc: &[u8]) -> (r: Result<(), CanDbError>)
        ensures
            match push_enum_spec(old(self)@, raw, name@, desc@) {
                Ok(st) => r is Ok && final(self)@.curr_ecu == st.curr_ecu && final(self)@.ecus
                    == st.ecus,
                Err(e) => r == Err::<(), CanDbError>(e) && final(self)@.curr_ecu == old(
                    self,
                )@.curr_ecu && final(self)@.ecus == old(self)@.ecus,
            },
    {
        let ghost st = self@;
        proof {
            if let Some((i, j)) = current_frame(st) {
                lemma_ecu_index_from(st.ecus, st.curr_ecu, 0);
                assert(st.ecus[i].1.update(j, st.ecus[i].1[j]) =~= st.ecus[i].1);
                assert(st.ecus.update(i, (st.ecus[i].0, st.ecus[i].1)) =~= st.ecus);
            }
        }
        let mut vn = to_upper_camel(name);
        if vn.len() == 0 {
            vn = vstd::slice::slice_to_vec("Underscore".as_bytes());
        }
        let desc_v = vstd::slice::slice_to_vec(desc);
        match self.get_current_working_frame() {
            None => Ok(()),
            Some(frame) => {
                let ghost old_fdv = frame.deep_view();
                let n = frame.signals.len();
                if n == 0 {
                    assert(frame.deep_view() == old_fdv);
                    return Err(CanDbError::EnumWithoutSignal);
                }
                let ghost old_sigs = frame.signals.deep_view();
                let ghost old_sig = frame.signals@[n - 1].deep_view();
                let ghost old_sv = frame.signals@;
                if let DataType::Enum(tab) = &mut frame.signals[n - 1].dt {
                    let ghost old_tab = tab.deep_view();
                    assert(vn.deep_view() =~= vn@);
                    assert(desc_v.deep_view() =~= desc@);
                    let ghost entry = (raw, vn, desc_v);
                    assert(entry.deep_view() == (raw, vn@, desc@));
                    tab.push((raw, vn, desc_v));
                    assert(tab.deep_view() =~= old_tab.push((raw, vn@, desc@)));
                    assert(frame.signals.deep_view() =~= old_sigs.update(
                        n - 1,
                        SignalView {
                            name: old_sig.name,
                            desc: old_sig.desc,
                            offset: old_sig.offset,
                            len: old_sig.len,
                            dt: DataTypeView::Enum(old_tab.push((raw, vn@, desc@))),
                        },
                    ));
                    assert(frame.deep_view() == FrameView {
                        name: old_fdv.name,
                        id: old_fdv.id,
                        signals: old_sigs.update(
                            n - 1,
                            SignalView {
                                name: old_sig.name,
                                desc: old_sig.desc,
                                offset: old_sig.offset,
                                len: old_sig.len,
                                dt: DataTypeView::Enum(old_tab.push((raw, vn@, desc@))),
                            },
                        ),
                    });
                    Ok(())
                } else {
                    assert(frame.signals@ =~= old_sv);
                    assert(frame.signals.deep_view() =~= old_sigs);
                    assert(frame.deep_view() == old_fdv);
                    Err(CanDbError::EnumOnNonEnumSignal)
                }
            },
        }
    }

    fn frame_line(&mut self, t: &[u8]) -> (r: Result<(), CanDbError>)
        ensures
            match frame_line_spec(old(self)@, t@) {
                Ok(st) => r is Ok && final(self)@ == st,
                Err(e) => r == Err::<(), CanDbError>(e) && final(self)@ == old(self)@,
            },
    {
        let sp = " ".as_bytes();
        let r1 = match after_first_of(t, sp) {
            Some(r) => r,
            None => return Err(CanDbError::MalformedFrame),
        };
        let r2 = match after_first_of(r1, sp) {
            Some(r) => r,
            None => return Err(CanDbError::MalformedFrame),
        };
        let name = trimmed(before_first_of(r1, sp));
        let id = strip_parens_of(before_first_of(r2, sp));
        let n = id.len();
        if n < 2 {
            return Err(CanDbError::MalformedFrame);
        }
        let v = match parse_unsigned_exec(&id[2..n], 16, 0xFFFF) {
            Some(v) => v,
            None => return Err(CanDbError::MalformedFrame),
        };
        self.new_frame_bytes(name, v as u16)
    }

    /// Reads one line of the database into the state, as [`line_step`]
    /// says; a refused line changes nothing.
    pub fn parse_line(&mut self, line: &[u8]) -> (r: Result<(), CanDbError>)
        ensures
            match line_step(old(self)@, line@) {
                Ok(st) => r is Ok && final(self)@ == st,
                Err(e) => r == Err::<(), CanDbError>(e) && final(self)@ == old(self)@,
            },
    {
        reveal(line_step);
        proof {
            reveal_strlit("ECU ");
            reveal_strlit("ENUM ");
            vstd::string::is_ascii_spec_bytes("ECU ");
            vstd::string::is_ascii_spec_bytes("ENUM ");
        }
        let t = trimmed(line);
        let n = t.len();
        if n == 0 || starts_with_exec(t, "#".as_bytes()) {
            return Ok(());
        }
        if starts_with_exec(t, "ECU ".as_bytes()) {
            return self.new_ecu_bytes(&t[4..n]);
        }
        if starts_with_exec(t, "FRAME ".as_bytes()) {
            return self.frame_line(t);
        }
        if starts_with_exec(t, "SIGNAL ".as_bytes()) {
            return match signal_of(t) {
                Some(sig) => {
                    self.push_signal(sig);
                    Ok(())
                },
                None => Err(CanDbError::MalformedSignal),
            };
        }
        if starts_with_exec(t, "ENUM ".as_bytes()) {
            let stripped = remove_all_of(t, "ENUM ".as_bytes());
            let name = before_first_of(stripped.as_slice(), ",".as_bytes());
            let raw_text = before_first_of(after_last_of(t, "RAW: ".as_bytes()), ",".as_bytes());
            let raw = match parse_unsigned_exec(raw_text, 10, 0xFFFF_FFFF) {
                Some(v) => v,
                None => return Err(CanDbError::MalformedEnum),
            };
            let desc = after_last_of(t, "DESC: ".as_bytes());
            return self.push_enum(raw, name, desc);
        }
        Err(CanDbError::InvalidEntry)
    }

    /// Reads a whole database text, line by line, as [`parse_text`] says.
    /// At the first refused line reading stops: the state is the one before
    /// that line, and its reason is returned.
    pub fn parse_file(&mut self, contents: &str) -> (r: Result<(), CanDbError>)
        ensures
            final(self)@ == parse_text(old(self)@, contents.spec_bytes()).0,
            r == (match parse_text(old(self)@, contents.spec_bytes()).1 {
                None => Ok::<(), CanDbError>(()),
                Some(e) => Err(e),
            }),
    {
        let text = contents.as_bytes();
        let n = text.len();
        let nl: [u8; 1] = [0x0A];
        assert(nl@ =~= seq![0x0Au8]);
        let mut pos: usize = 0;
        assert(text@.subrange(0, n as int) =~= text@);
        loop
            invariant
                n == text@.len(),
                text@ == contents.spec_bytes(),
                pos <= n,
                nl@ == seq![0x0Au8],
                parse_text(old(self)@, text@) == parse_text(self@, text@.subrange(pos as int, n as int)),
            decreases n - pos,
        {
            let rest = &text[pos..n];
            proof {
                lemma_find_from_found(rest@, nl@, 0);
            }
            match find_from_exec(rest, &nl, 0) {
                None => {
                    return match self.parse_line(rest) {
                        Ok(()) => Ok(()),
                        Err(e) => Err(e),
                    };
                },
                Some(i) => {
                    let line = &rest[0..i];
                    match self.parse_line(line) {
                        Ok(()) => {},
                        Err(e) => return Err(e),
                    }
                    assert(rest@.subrange(i + 1, rest@.len() as int) =~= text@.subrange(
                        pos + i + 1,
                        n as int,
                    ));
                    pos = pos + i + 1;
                },
            }
        }
    }
}

/// `s` without its surrounding `(` and `)`.
fn strip_parens_of<'a>(s: &'a [u8]) -> (r: &'a [u8])
    ensures
        r@ == strip_parens(s@),
{
    let n = s.len();
    let mut lo: usize = 0;
    assert(s@.subrange(0, n as int) =~= s@);
    while lo < n && (s[lo] == 0x28 || s[lo] == 0x29)
        invariant
            lo <= n == s@.len(),
            strip_lead_parens(s@) == strip_lead_parens(s@.subrange(lo as int, n as int)),
        decreases n - lo,
    {
        assert(s@.subrange(lo as int, n as int).drop_first() =~= s@.subrange(lo + 1, n as int));
        lo = lo + 1;
    }
    assert(strip_lead_parens(s@.subrange(lo as int, n as int)) == s@.subrange(lo as int, n as int));
    let mut hi: usize = n;
    while hi > lo && (s[hi - 1] == 0x28 || s[hi - 1] == 0x29)
        invariant
            lo <= hi <= n == s@.len(),
            strip_parens(s@) == strip_trail_parens(s@.subrange(lo as int, hi as int)),
        decreases hi - lo,
    {
        assert(s@.subrange(lo as int, hi as int).drop_last() =~= s@.subrange(lo as int, hi - 1));
        hi = hi - 1;
    }
    &s[lo..hi]
}

/// The values of the frames of `s`.
pub open spec fn frames_view(s: Seq<Frame>) -> Seq<FrameView> {
    Seq::new(s.len(), |i: int| s[i].deep_view())
}

/// A list of frames with one frame replaced, or an empty list, has the
/// value that its contents give.
proof fn lemma_deep_view_update_frames()
    ensures
        forall|e2: Vec<Frame>, s: Seq<Frame>, k: int, x: Frame|
            #![trigger e2.deep_view(), s.update(k, x)]
            0 <= k < s.len() && e2@ == s.update(k, x) ==> e2.deep_view() == frames_view(s).update(
                k,
                x.deep_view(),
            ),
        forall|e: Vec<Frame>| #![trigger e.deep_view()] e@.len() == 0 ==> e.deep_view() == Seq::<
            FrameView,
        >::empty(),
{
    assert forall|e2: Vec<Frame>, s: Seq<Frame>, k: int, x: Frame|
        0 <= k < s.len() && e2@ == s.update(k, x) implies e2.deep_view() == frames_view(s).update(
        k,
        x.deep_view(),
    ) by {
        assert(e2.deep_view() =~= frames_view(s).update(k, x.deep_view()));
    }
    assert forall|e: Vec<Frame>| e@.len() == 0 implies e.deep_view() == Seq::<FrameView>::empty() by {
        assert(e.deep_view() =~= Seq::<FrameView>::empty());
    }
}

/// No two ECUs of `ecus` have the same name.
pub open spec fn names_distinct(ecus: Seq<(Seq<u8>, Seq<FrameView>)>) -> bool {
    forall|a: int, b: int| 0 <= a < b < ecus.len() ==> ecus[a].0 != ecus[b].0
}

/// `e1` and `e2` list the same ECU names in the same order.
pub open spec fn same_names(e1: Seq<(Seq<u8>, Seq<FrameView>)>, e2: Seq<(Seq<u8>, Seq<FrameView>)>) -> bool {
    e1.len() == e2.len() && forall|k: int| 0 <= k < e1.len() ==> #[trigger] e1[k].0 == e2[k].0
}

proof fn lemma_with_frames_same_names(st: DbView, i: int, frames: Seq<FrameView>)
    requires
        0 <= i < st.ecus.len(),
    ensures
        same_names(st.ecus, with_frames(st, i, frames).ecus),
{
}

proof fn lemma_current_frame_in_range(st: DbView)
    ensures
        current_frame(st) matches Some((i, j)) ==> 0 <= i < st.ecus.len() && 0 <= j
            < st.ecus[i].1.len(),
{
    lemma_ecu_index_from(st.ecus, st.curr_ecu, 0);
}

/// Lines other than `ECU` lines keep the list of ECU names.
proof fn lemma_entries_keep_names(st: DbView, t: Seq<u8>, sig: SignalView, raw: u32, name: Seq<u8>, desc: Seq<u8>)
    ensures
        frame_line_spec(st, t) matches Ok(st2) ==> same_names(st.ecus, st2.ecus),
        same_names(st.ecus, push_signal_spec(st, sig).ecus),
        push_enum_spec(st, raw, name, desc) matches Ok(st2) ==> same_names(st.ecus, st2.ecus),
{
    lemma_ecu_index_from(st.ecus, st.curr_ecu, 0);
    lemma_current_frame_in_range(st);
    if let Some((i, j)) = current_frame(st) {
        let f = st.ecus[i].1[j];
        lemma_with_frames_same_names(
            st,
            i,
            st.ecus[i].1.update(j, FrameView { name: f.name, id: f.id, signals: f.signals.push(sig) }),
        );
    }
}

/// One line keeps the ECU names distinct: only `ECU` lines add a name, and
/// only one that is not there yet.
proof fn lemma_step_keeps_names_distinct(st: DbView, line: Seq<u8>)
    requires
        names_distinct(st.ecus),
    ensures
        line_step(st, line) matches Ok(st2) ==> names_distinct(st2.ecus),
{
    if let Ok(st2) = line_step(st, line) {
        reveal(line_step);
        let t = trim(line);
        if same_names(st.ecus, st2.ecus) {
            assert forall|a: int, b: int| 0 <= a < b < st2.ecus.len() implies st2.ecus[a].0
                != st2.ecus[b].0 by {
                assert(st.ecus[a].0 == st2.ecus[a].0);
                assert(st.ecus[b].0 == st2.ecus[b].0);
            }
        } else {
            let name = t.subrange(4, t.len() as int);
            let sig = signal_spec(t).unwrap();
            let ename = before_first(remove_all(t, "ENUM ".spec_bytes()), ",".spec_bytes());
            let raw = parse_unsigned(
                before_first(after_last(t, "RAW: ".spec_bytes()), ",".spec_bytes()),
                10,
                0xFFFF_FFFF,
            );
            lemma_entries_keep_names(st, t, sig, raw.unwrap() as u32, ename, after_last(t, "DESC: ".spec_bytes()));
            assert(st2 != st);
            assert(starts_with(t, "ECU ".spec_bytes()));
            lemma_ecu_index_from(st.ecus, name, 0);
            assert(st2.ecus == st.ecus.push((name, Seq::<FrameView>::empty())));
            assert forall|a: int, b: int| 0 <= a < b < st2.ecus.len() implies st2.ecus[a].0
                != st2.ecus[b].0 by {
                if b == st.ecus.len() {
                    assert(st.ecus[a].0 != name);
                }
            }
        }
    }
}

/// Reading never gives two ECUs the same name.
pub proof fn lemma_parse_keeps_names_distinct(st: DbView, text: Seq<u8>)
    requires
        names_distinct(st.ecus),
    ensures
        names_distinct(parse_text(st, text).0.ecus),
    decreases text.len(),
{
    let nl = seq![0x0Au8];
    lemma_find_from_found(text, nl, 0);
    match find_from(text, nl, 0) {
        None => {
            lemma_step_keeps_names_distinct(st, text);
        },
        Some(i) => {
            lemma_step_keeps_names_distinct(st, text.subrange(0, i));
            if let Ok(st2) = line_step(st, text.subrange(0, i)) {
                lemma_parse_keeps_names_distinct(st2, text.subrange(i + 1, text.len() as int));
            }
        },
    }
}

/// An occurrence that `find_from` finds in `a` is found in `a + c` as well.
proof fn lemma_find_from_prefix(a: Seq<u8>, c: Seq<u8>, pat: Seq<u8>, k: int)
    requires
        0 <= k,
        find_from(a, pat, k) is Some,
    ensures
        find_from(a + c, pat, k) == find_from(a, pat, k),
    decreases a.len() + 1 - k,
{
    let t = a + c;
    if k + pat.len() <= a.len() {
        assert(t.subrange(k, k + pat.len()) =~= a.subrange(k, k + pat.len()));
        if !occurs_at(a, pat, k) {
            lemma_find_from_prefix(a, c, pat, k + 1);
        }
    }
}

/// In `a`, a line break and `b`, where `a` holds no line break, the first
/// line break from `k` on is the one after `a`.
proof fn lemma_find_newline_after(a: Seq<u8>, b: Seq<u8>, k: int)
    requires
        0 <= k <= a.len(),
        find_from(a, seq![0x0Au8], k) is None,
    ensures
        find_from(a + seq![0x0Au8] + b, seq![0x0Au8], k) == Some(a.len() as int),
    decreases a.len() - k,
{
    let nl = seq![0x0Au8];
    let t = a + nl + b;
    assert(t.subrange(a.len() as int, a.len() + 1int) =~= nl);
    if k < a.len() {
        assert(t.subrange(k, k + 1) =~= a.subrange(k, k + 1));
        assert(!occurs_at(a, nl, k));
        lemma_find_newline_after(a, b, k + 1);
    }
}

/// Reading `a`, a line break and `b` is reading `a`, then, where all of
/// `a` was taken, reading `b` on from the state that `a` left; a refusal
/// in `a` is the refusal of the whole.
pub proof fn lemma_parse_text_concat(st: DbView, a: Seq<u8>, b: Seq<u8>)
    ensures
        parse_text(st, a + seq![0x0Au8] + b) == (match parse_text(st, a) {
            (s1, None) => parse_text(s1, b),
            (s1, Some(e)) => (s1, Some(e)),
        }),
    decreases a.len(),
{
    let nl = seq![0x0Au8];
    let t = a + nl + b;
    lemma_find_from_found(a, nl, 0);
    match find_from(a, nl, 0) {
        Some(i) => {
            lemma_find_from_prefix(a, nl + b, nl, 0);
            assert(t =~= a + (nl + b));
            assert(t.subrange(0, i) =~= a.subrange(0, i));
            let a2 = a.subrange(i + 1, a.len() as int);
            assert(t.subrange(i + 1, t.len() as int) =~= a2 + nl + b);
            if let Ok(st2) = line_step(st, a.subrange(0, i)) {
                lemma_parse_text_concat(st2, a2, b);
            }
        },
        None => {
            lemma_find_newline_after(a, b, 0);
            assert(t.subrange(0, a.len() as int) =~= a);
            assert(t.subrange(a.len() + 1int, t.len() as int) =~= b);
        },
    }
}

} // verus!
