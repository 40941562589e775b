//! What the application leaves behind for the bootloader when it panics:
//! the message (written into a fixed buffer, or the place of a constant
//! string in flash) and the source location.
use vstd::prelude::*;
use vstd::string::StringSliceAdditionalSpecFns;

verus! {

/// The error type of `core::fmt::Write`, which message writing reports in
/// (it never fails here).
#[verifier::external_type_specification]
#[verifier::external_body]
pub struct ExFmtError(core::fmt::Error);

/// Size of the message buffer: 255 bytes of text and a terminating zero.
pub const PANIC_MSG_BUF_SIZE: usize = 256;

/// Index of the first zero byte of `s` at or after `i`, or the last index.
pub open spec fn first_zero_from(s: Seq<u8>, i: int) -> int
    decreases s.len() - i,
{
    if i >= s.len() - 1 {
        s.len() - 1
    } else if s[i] == 0 {
        i
    } else {
        first_zero_from(s, i + 1)
    }
}

/// The bytes of `s` before its first zero byte (all of `s` without one).
pub open spec fn c_string(s: Seq<u8>) -> Seq<u8>
    decreases s.len(),
{
    if s.len() == 0 {
        s
    } else if s[0] == 0 {
        Seq::empty()
    } else {
        seq![s[0]] + c_string(s.drop_first())
    }
}

/// A panic message formatted at run time, kept as a zero terminated string
/// in a fixed buffer.
#[derive(Clone, Copy)]
pub struct DynAppPanicMsg {
    buf: [u8; 256],
}

impl DynAppPanicMsg {
    /// The buffer.
    pub closed spec fn buffer(&self) -> Seq<u8> {
        self.buf@
    }

    /// The message: the buffer up to its first zero byte.
    pub open spec fn message(&self) -> Seq<u8> {
        c_string(self.buffer())
    }

    /// Appends `s` after the message; what does not fit before the last
    /// byte is cut off, and a zero is written after the text. It always
    /// succeeds.
    pub fn write_str(&mut self, s: &str) -> (r: Result<(), core::fmt::Error>)
        ensures
            final(self).buffer() == written(old(self).buffer(), s.spec_bytes()),
            r is Ok,
    {
        let bytes = s.as_bytes();
        let blen = bytes.len();
        let mut pos: usize = 0;
        while pos < 255 && self.buf[pos] != 0
            invariant
                pos <= 255,
                self.buf@.len() == 256,
                first_zero_from(self.buf@, 0) == first_zero_from(self.buf@, pos as int),
            decreases 255 - pos,
        {
            pos = pos + 1;
        }
        let maximum: usize = if 255 - pos < blen { 255 - pos } else { blen };
        let ghost old_buf = self.buf@;
        let mut i: usize = 0;
        while i < maximum
            invariant
                pos + maximum <= 255,
                maximum <= blen,
                blen == bytes@.len(),
                i <= maximum,
                self.buf@.len() == 256,
                forall|j: int| 0 <= j < pos ==> self.buf@[j] == old_buf[j],
                forall|j: int| 0 <= j < i ==> self.buf@[pos + j] == bytes@[j],
                forall|j: int| pos + i <= j < 256 ==> self.buf@[j] == old_buf[j],
            decreases maximum - i,
        {
            self.buf[pos + i] = bytes[i];
            i = i + 1;
        }
        self.buf[pos + maximum] = 0;
        assert(self.buf@ =~= old_buf.subrange(0, pos as int) + bytes@.subrange(0, maximum as int)
            + seq![0u8] + old_buf.subrange(pos + maximum + 1, 256));
        Ok(())
    }

    /// The message bytes.
    pub fn as_bytes(&self) -> (r: &[u8])
        ensures
            r@ == self.message(),
    {
        let mut n: usize = 0;
        while n < 256 && self.buf[n] != 0
            invariant
                n <= 256,
                self.buf@.len() == 256,
                forall|j: int| 0 <= j < n ==> self.buf@[j] != 0,
            decreases 256 - n,
        {
            n = n + 1;
        }
        proof {
            lemma_c_string_prefix(self.buf@, n as int);
        }
        let (head, _tail) = self.buf.as_slice().split_at(n);
        head
    }
}

impl Default for DynAppPanicMsg {
    /// An empty message (a buffer of zeros).
    fn default() -> (r: Self)
        ensures
            r.buffer() == Seq::new(256, |i: int| 0u8),
            r.message() == Seq::<u8>::empty(),
    {
        let r = DynAppPanicMsg { buf: [0u8; 256] };
        assert(r.buffer() =~= Seq::new(256, |i: int| 0u8));
        r
    }
}

/// `c_string` of `s` is the prefix before index `n` when no byte before
/// `n` is zero and `n` is the end or a zero byte.
pub proof fn lemma_c_string_prefix(s: Seq<u8>, n: int)
    requires
        0 <= n <= s.len(),
        forall|j: int| 0 <= j < n ==> s[j] != 0,
        n == s.len() || s[n] == 0,
    ensures
        c_string(s) == s.subrange(0, n),
    decreases s.len(),
{
    if s.len() == 0 {
        assert(s.subrange(0, 0) =~= s);
    } else if n == 0 {
        assert(s.subrange(0, 0) =~= Seq::<u8>::empty());
    } else {
        let t = s.drop_first();
        assert forall|j: int| 0 <= j < n - 1 implies t[j] != 0 by {
            assert(t[j] == s[j + 1]);
        }
        lemma_c_string_prefix(t, n - 1);
        assert(s.subrange(0, n) =~= seq![s[0]] + t.subrange(0, n - 1));
    }
}

/// The buffer that [`DynAppPanicMsg::write_str`] leaves when it writes
/// `text` into `buf`.
pub open spec fn written(buf: Seq<u8>, text: Seq<u8>) -> Seq<u8> {
    let pos = first_zero_from(buf, 0);
    let max = if 255 - pos < text.len() { 255 - pos } else { text.len() as int };
    buf.subrange(0, pos) + text.subrange(0, max) + seq![0u8] + buf.subrange(pos + max + 1, 256)
}

proof fn lemma_first_zero_from(s: Seq<u8>, i: int)
    requires
        s.len() == 256,
        0 <= i <= 255,
        forall|j: int| 0 <= j < i ==> s[j] != 0,
    ensures
        0 <= first_zero_from(s, i) <= 255,
        forall|j: int| 0 <= j < first_zero_from(s, i) ==> s[j] != 0,
        first_zero_from(s, i) == 255 || s[first_zero_from(s, i)] == 0,
    decreases 256 - i,
{
    if i < 255 && s[i] != 0 {
        lemma_first_zero_from(s, i + 1);
    }
}

/// Writing text without zero bytes appends it to the message, cut so
/// that the message never exceeds 255 bytes.
pub proof fn lemma_write_appends(buf: Seq<u8>, text: Seq<u8>)
    requires
        buf.len() == 256,
        c_string(buf).len() < 256,
        forall|j: int| 0 <= j < text.len() ==> text[j] != 0,
    ensures
        c_string(written(buf, text)) == ({
            let m = c_string(buf) + text;
            if m.len() > 255 { m.subrange(0, 255) } else { m }
        }),
        written(buf, text).len() == 256,
{
    lemma_first_zero_from(buf, 0);
    let pos = first_zero_from(buf, 0);
    if pos == 255 && buf[255] != 0 {
        lemma_c_string_prefix(buf, 256);
        assert(false);
    }
    lemma_c_string_prefix(buf, pos);
    let max = if 255 - pos < text.len() { 255 - pos } else { text.len() as int };
    let w = written(buf, text);
    assert forall|j: int| 0 <= j < pos + max implies w[j] != 0 by {
        if j < pos {
            assert(w[j] == buf[j]);
        } else {
            assert(w[j] == text[j - pos]);
        }
    }
    assert(w[pos + max] == 0);
    lemma_c_string_prefix(w, pos + max);
    let m = c_string(buf) + text;
    assert(w.subrange(0, pos + max) =~= if m.len() > 255 { m.subrange(0, 255) } else { m });
}

/// The first 255 bytes of `m` (all of it when shorter).
pub open spec fn cap_message(m: Seq<u8>) -> Seq<u8> {
    if m.len() > 255 {
        m.subrange(0, 255)
    } else {
        m
    }
}

/// The texts of `texts` one after the other.
pub open spec fn concat_texts(texts: Seq<Seq<u8>>) -> Seq<u8>
    decreases texts.len(),
{
    if texts.len() == 0 {
        Seq::empty()
    } else {
        texts[0] + concat_texts(texts.drop_first())
    }
}

/// The buffer after writing each of `texts` in order into `buf`.
pub open spec fn written_all(buf: Seq<u8>, texts: Seq<Seq<u8>>) -> Seq<u8>
    decreases texts.len(),
{
    if texts.len() == 0 {
        buf
    } else {
        written_all(written(buf, texts[0]), texts.drop_first())
    }
}

/// Several writes of texts without zero bytes leave the message followed
/// by all the texts in order, cut to 255 bytes: from an empty message, the
/// first 255 bytes of the texts.
pub proof fn lemma_writes_concatenate(buf: Seq<u8>, texts: Seq<Seq<u8>>)
    requires
        buf.len() == 256,
        c_string(buf).len() < 256,
        forall|i: int, j: int| 0 <= i < texts.len() && 0 <= j < texts[i].len() ==> texts[i][j] != 0,
    ensures
        c_string(written_all(buf, texts)) == cap_message(c_string(buf) + concat_texts(texts)),
    decreases texts.len(),
{
    if texts.len() == 0 {
        assert(c_string(buf) + concat_texts(texts) =~= c_string(buf));
    } else {
        let t0 = texts[0];
        let rest = texts.drop_first();
        assert forall|j: int| 0 <= j < t0.len() implies t0[j] != 0 by {
            assert(texts[0][j] != 0);
        }
        lemma_write_appends(buf, t0);
        let w = written(buf, t0);
        assert forall|i: int, j: int| 0 <= i < rest.len() && 0 <= j < rest[i].len() implies rest[i][j] != 0 by {
            assert(rest[i] == texts[i + 1]);
        }
        lemma_writes_concatenate(w, rest);
        let m = c_string(buf) + t0;
        let c = concat_texts(rest);
        assert(c_string(buf) + concat_texts(texts) =~= m + c);
        if m.len() > 255 {
            assert((m.subrange(0, 255) + c).subrange(0, 255) =~= (m + c).subrange(0, 255));
        } else {
            assert(cap_message(m) + c == m + c);
        }
    }
}

/// Where a panic message is.
#[derive(Clone, Copy)]
pub enum AppPanicMsgTy {
    /// Formatted at run time.
    Dynamic(DynAppPanicMsg),
    /// A constant string in the application flash, by address and length.
    Static { addr: usize, len: usize },
}

/// Source location of a panic: the file name by address and length, the
/// column and the line.
#[derive(Clone, Copy)]
pub struct LocationInfo {
    pub file_str_ptr: usize,
    pub file_str_len: u32,
    pub col: u32,
    pub line: u32,
}

/// A panic location ready to be shown.
#[derive(Clone, Copy)]
pub struct LocationDisplayInfo<'a> {
    pub file_name: &'a str,
    pub col: u32,
    pub line: u32,
}

/// What is kept of a panic of the application.
#[derive(Clone, Copy)]
pub struct AppPanicInfo {
    pub msg: AppPanicMsgTy,
    pub location: Option<LocationInfo>,
}

} // verus!
