//! Byte-level text handling shared by the readers of the crate: UTF-8
//! whitespace trimming, searching for separators, and the number syntaxes
//! of Rust's integer and floating point parsers.
use vstd::prelude::*;

verus! {

/// An ASCII or multi byte whitespace character (Unicode `White_Space`)
/// encoded in UTF-8.
pub open spec fn is_ws_char(c: Seq<u8>) -> bool {
    ||| c.len() == 1 && ((0x09 <= c[0] && c[0] <= 0x0D) || c[0] == 0x20)
    ||| c.len() == 2 && c[0] == 0xC2 && (c[1] == 0x85 || c[1] == 0xA0)
    ||| c.len() == 3 && c[0] == 0xE1 && c[1] == 0x9A && c[2] == 0x80
    ||| c.len() == 3 && c[0] == 0xE2 && c[1] == 0x80 && ((0x80 <= c[2] && c[2] <= 0x8A) || c[2]
        == 0xA8 || c[2] == 0xA9 || c[2] == 0xAF)
    ||| c.len() == 3 && c[0] == 0xE2 && c[1] == 0x81 && c[2] == 0x9F
    ||| c.len() == 3 && c[0] == 0xE3 && c[1] == 0x80 && c[2] == 0x80
}

/// Byte length of the whitespace character at the start of `s`, 0 if `s`
/// does not start with one.
pub open spec fn lead_ws(s: Seq<u8>) -> int {
    if s.len() >= 1 && is_ws_char(s.subrange(0, 1)) {
        1
    } else if s.len() >= 2 && is_ws_char(s.subrange(0, 2)) {
        2
    } else if s.len() >= 3 && is_ws_char(s.subrange(0, 3)) {
        3
    } else {
        0
    }
}

/// Byte length of the whitespace character at the end of `s`, 0 if `s`
/// does not end with one.
pub open spec fn trail_ws(s: Seq<u8>) -> int {
    let n = s.len() as int;
    if n >= 1 && is_ws_char(s.subrange(n - 1, n)) {
        1
    } else if n >= 2 && is_ws_char(s.subrange(n - 2, n)) {
        2
    } else if n >= 3 && is_ws_char(s.subrange(n - 3, n)) {
        3
    } else {
        0
    }
}

/// `s` without its leading whitespace.
pub open spec fn trim_start(s: Seq<u8>) -> Seq<u8>
    decreases s.len(),
{
    let k = lead_ws(s);
    if k == 0 || k > s.len() {
        s
    } else {
        trim_start(s.subrange(k, s.len() as int))
    }
}

/// `s` without its trailing whitespace.
pub open spec fn trim_end(s: Seq<u8>) -> Seq<u8>
    decreases s.len(),
{
    let k = trail_ws(s);
    if k == 0 || k > s.len() {
        s
    } else {
        trim_end(s.subrange(0, s.len() - k))
    }
}

/// `s` without leading and trailing whitespace.
pub open spec fn trim(s: Seq<u8>) -> Seq<u8> {
    trim_end(trim_start(s))
}

/// `pat` occurs in `s` at byte `i`.
pub open spec fn occurs_at(s: Seq<u8>, pat: Seq<u8>, i: int) -> bool {
    0 <= i && i + pat.len() <= s.len() && s.subrange(i, i + pat.len()) == pat
}

/// The first place at or after `from` where `pat` occurs in `s`.
pub open spec fn find_from(s: Seq<u8>, pat: Seq<u8>, from: int) -> Option<int>
    decreases s.len() + 1 - from,
{
    if from < 0 || from + pat.len() > s.len() {
        None
    } else if occurs_at(s, pat, from) {
        Some(from)
    } else {
        find_from(s, pat, from + 1)
    }
}

/// The last place at or before `upto` where `pat` occurs in `s`.
pub open spec fn rfind_upto(s: Seq<u8>, pat: Seq<u8>, upto: int) -> Option<int>
    decreases upto + 1,
{
    if upto < 0 {
        None
    } else if occurs_at(s, pat, upto) {
        Some(upto)
    } else {
        rfind_upto(s, pat, upto - 1)
    }
}

/// The last place where `pat` occurs in `s`.
pub open spec fn rfind(s: Seq<u8>, pat: Seq<u8>) -> Option<int> {
    rfind_upto(s, pat, s.len() - pat.len())
}

/// The part of `s` before the first `pat`; all of `s` where `pat` does not
/// occur.
pub open spec fn before_first(s: Seq<u8>, pat: Seq<u8>) -> Seq<u8> {
    match find_from(s, pat, 0) {
        Some(i) => s.subrange(0, i),
        None => s,
    }
}

/// The part of `s` after the first `pat`, if `pat` occurs.
pub open spec fn after_first(s: Seq<u8>, pat: Seq<u8>) -> Option<Seq<u8>> {
    match find_from(s, pat, 0) {
        Some(i) => Some(s.subrange(i + pat.len(), s.len() as int)),
        None => None,
    }
}

/// The part of `s` after the last `pat`; all of `s` where `pat` does not
/// occur.
pub open spec fn after_last(s: Seq<u8>, pat: Seq<u8>) -> Seq<u8> {
    match rfind(s, pat) {
        Some(i) => s.subrange(i + pat.len(), s.len() as int),
        None => s,
    }
}

/// What `find_from` finds is an occurrence at or after the start, and there
/// is none between the start and it.
pub proof fn lemma_find_from_found(s: Seq<u8>, pat: Seq<u8>, from: int)
    ensures
        find_from(s, pat, from) matches Some(i) ==> from <= i && occurs_at(s, pat, i) && forall|
            j: int,
        | from <= j < i ==> !occurs_at(s, pat, j),
        0 <= from && find_from(s, pat, from) is None ==> forall|j: int|
            from <= j ==> !occurs_at(s, pat, j),
    decreases s.len() + 1 - from,
{
    if from < 0 || from + pat.len() > s.len() {
    } else if occurs_at(s, pat, from) {
    } else {
        lemma_find_from_found(s, pat, from + 1);
    }
}

/// What `rfind_upto` finds is an occurrence at or before `upto`.
pub proof fn lemma_rfind_upto_found(s: Seq<u8>, pat: Seq<u8>, upto: int)
    ensures
        rfind_upto(s, pat, upto) matches Some(i) ==> 0 <= i <= upto && occurs_at(s, pat, i),
    decreases upto + 1,
{
    if upto >= 0 && !occurs_at(s, pat, upto) {
        lemma_rfind_upto_found(s, pat, upto - 1);
    }
}

/// `s` with every occurrence of `pat` taken out, scanning left to right.
pub open spec fn remove_all(s: Seq<u8>, pat: Seq<u8>) -> Seq<u8>
    decreases s.len(),
{
    if pat.len() == 0 {
        s
    } else {
        match find_from(s, pat, 0) {
            Some(i) => s.subrange(0, i) + {
                proof {
                    lemma_find_from_found(s, pat, 0);
                }
                remove_all(
                    s.subrange(i + pat.len(), s.len() as int),
                    pat,
                )
            },
            None => s,
        }
    }
}

/// `s` starts with `pat`.
pub open spec fn starts_with(s: Seq<u8>, pat: Seq<u8>) -> bool {
    pat.len() <= s.len() && s.subrange(0, pat.len() as int) == pat
}


pub(crate) fn ws_char1(b0: u8) -> (r: bool)
    ensures
        r == is_ws_char(seq![b0]),
{
    (0x09 <= b0 && b0 <= 0x0D) || b0 == 0x20
}

pub(crate) fn ws_char2(b0: u8, b1: u8) -> (r: bool)
    ensures
        r == is_ws_char(seq![b0, b1]),
{
    b0 == 0xC2 && (b1 == 0x85 || b1 == 0xA0)
}

pub(crate) fn ws_char3(b0: u8, b1: u8, b2: u8) -> (r: bool)
    ensures
        r == is_ws_char(seq![b0, b1, b2]),
{
    (b0 == 0xE1 && b1 == 0x9A && b2 == 0x80) || (b0 == 0xE2 && b1 == 0x80 && ((0x80 <= b2 && b2
        <= 0x8A) || b2 == 0xA8 || b2 == 0xA9 || b2 == 0xAF)) || (b0 == 0xE2 && b1 == 0x81 && b2
        == 0x9F) || (b0 == 0xE3 && b1 == 0x80 && b2 == 0x80)
}

/// Length of the whitespace character that starts `s[a..b]`.
pub(crate) fn lead_ws_at(s: &[u8], a: usize, b: usize) -> (k: usize)
    requires
        a <= b <= s@.len(),
    ensures
        k == lead_ws(s@.subrange(a as int, b as int)),
        k <= b - a,
{
    let ghost t = s@.subrange(a as int, b as int);
    if b - a >= 1 && ws_char1(s[a]) {
        assert(t.subrange(0, 1) =~= seq![s@[a as int]]);
        return 1;
    }
    if b - a >= 1 {
        assert(t.subrange(0, 1) =~= seq![s@[a as int]]);
    }
    if b - a >= 2 && ws_char2(s[a], s[a + 1]) {
        assert(t.subrange(0, 2) =~= seq![s@[a as int], s@[a + 1]]);
        return 2;
    }
    if b - a >= 2 {
        assert(t.subrange(0, 2) =~= seq![s@[a as int], s@[a + 1]]);
    }
    if b - a >= 3 && ws_char3(s[a], s[a + 1], s[a + 2]) {
        assert(t.subrange(0, 3) =~= seq![s@[a as int], s@[a + 1], s@[a + 2]]);
        return 3;
    }
    if b - a >= 3 {
        assert(t.subrange(0, 3) =~= seq![s@[a as int], s@[a + 1], s@[a + 2]]);
    }
    0
}

/// Length of the whitespace character that ends `s[a..b]`.
pub(crate) fn trail_ws_at(s: &[u8], a: usize, b: usize) -> (k: usize)
    requires
        a <= b <= s@.len(),
    ensures
        k == trail_ws(s@.subrange(a as int, b as int)),
        k <= b - a,
{
    let ghost t = s@.subrange(a as int, b as int);
    let ghost n = t.len() as int;
    if b - a >= 1 && ws_char1(s[b - 1]) {
        assert(t.subrange(n - 1, n) =~= seq![s@[b - 1]]);
        return 1;
    }
    if b - a >= 1 {
        assert(t.subrange(n - 1, n) =~= seq![s@[b - 1]]);
    }
    if b - a >= 2 && ws_char2(s[b - 2], s[b - 1]) {
        assert(t.subrange(n - 2, n) =~= seq![s@[b - 2], s@[b - 1]]);
        return 2;
    }
    if b - a >= 2 {
        assert(t.subrange(n - 2, n) =~= seq![s@[b - 2], s@[b - 1]]);
    }
    if b - a >= 3 && ws_char3(s[b - 3], s[b - 2], s[b - 1]) {
        assert(t.subrange(n - 3, n) =~= seq![s@[b - 3], s@[b - 2], s@[b - 1]]);
        return 3;
    }
    if b - a >= 3 {
        assert(t.subrange(n - 3, n) =~= seq![s@[b - 3], s@[b - 2], s@[b - 1]]);
    }
    0
}

/// The bounds of `s[a..b]` once its surrounding whitespace is dropped.
pub(crate) fn trim_bounds(s: &[u8], a: usize, b: usize) -> (r: (usize, usize))
    requires
        a <= b <= s@.len(),
    ensures
        a <= r.0 <= r.1 <= b,
        s@.subrange(r.0 as int, r.1 as int) == trim(s@.subrange(a as int, b as int)),
{
    let mut lo = a;
    while lo < b
        invariant
            a <= lo <= b <= s@.len(),
            trim_start(s@.subrange(lo as int, b as int)) == trim_start(
                s@.subrange(a as int, b as int),
            ),
        ensures
            a <= lo <= b,
            trim_start(s@.subrange(lo as int, b as int)) == trim_start(
                s@.subrange(a as int, b as int),
            ),
            lo == b || lead_ws(s@.subrange(lo as int, b as int)) == 0,
        decreases b - lo,
    {
        let k = lead_ws_at(s, lo, b);
        if k == 0 {
            break;
        }
        proof {
            let t = s@.subrange(lo as int, b as int);
            assert(t.subrange(k as int, t.len() as int) =~= s@.subrange(lo + k, b as int));
        }
        lo = lo + k;
    }
    proof {
        let t = s@.subrange(lo as int, b as int);
        if t.len() == 0 {
            assert(lead_ws(t) == 0);
        }
        assert(trim_start(t) == t);
    }
    let mut hi = b;
    while hi > lo
        invariant
            a <= lo <= hi <= b <= s@.len(),
            trim_end(s@.subrange(lo as int, hi as int)) == trim(s@.subrange(a as int, b as int)),
        ensures
            a <= lo <= hi <= b,
            trim_end(s@.subrange(lo as int, hi as int)) == trim(s@.subrange(a as int, b as int)),
            hi == lo || trail_ws(s@.subrange(lo as int, hi as int)) == 0,
        decreases hi - lo,
    {
        let k = trail_ws_at(s, lo, hi);
        if k == 0 {
            break;
        }
        proof {
            let t = s@.subrange(lo as int, hi as int);
            assert(t.subrange(0, t.len() - k) =~= s@.subrange(lo as int, hi - k));
        }
        hi = hi - k;
    }
    proof {
        let t = s@.subrange(lo as int, hi as int);
        if t.len() == 0 {
            assert(trail_ws(t) == 0);
        }
        assert(trim_end(t) == t);
    }
    (lo, hi)
}

/// Whether `pat` occurs in `s` at byte `i`.
pub(crate) fn matches_at(s: &[u8], pat: &[u8], i: usize) -> (r: bool)
    ensures
        r == occurs_at(s@, pat@, i as int),
{
    if pat.len() > s.len() || i > s.len() - pat.len() {
        return false;
    }
    let n = s.len();
    let mut k: usize = 0;
    while k < pat.len()
        invariant
            n == s@.len(),
            i + pat@.len() <= s@.len(),
            k <= pat@.len(),
            forall|m: int| 0 <= m < k ==> s@[i + m] == pat@[m],
        decreases pat@.len() - k,
    {
        assert(i + k < s@.len());
        if s[i + k] != pat[k] {
            proof {
                assert(s@.subrange(i as int, i + pat@.len())[k as int] != pat@[k as int]);
            }
            return false;
        }
        k = k + 1;
    }
    assert(s@.subrange(i as int, i + pat@.len()) =~= pat@);
    true
}

/// The first place at or after `from` where `pat` occurs in `s`.
pub(crate) fn find_from_exec(s: &[u8], pat: &[u8], from: usize) -> (r: Option<usize>)
    ensures
        r matches Some(i) ==> find_from(s@, pat@, from as int) == Some(i as int),
        r is None ==> find_from(s@, pat@, from as int) is None,
{
    let mut i = from;
    while i <= s.len() && pat.len() <= s.len() - i
        invariant
            from <= i,
            find_from(s@, pat@, from as int) == find_from(s@, pat@, i as int),
        decreases s@.len() + 1 - i,
    {
        if matches_at(s, pat, i) {
            return Some(i);
        }
        assert(pat@.len() > 0) by {
            if pat@.len() == 0 {
                assert(s@.subrange(i as int, i as int) =~= pat@);
            }
        }
        i = i + 1;
    }
    None
}

/// The last place where `pat` occurs in `s`.
pub(crate) fn rfind_exec(s: &[u8], pat: &[u8]) -> (r: Option<usize>)
    ensures
        r matches Some(i) ==> rfind(s@, pat@) == Some(i as int),
        r is None ==> rfind(s@, pat@) is None,
{
    if pat.len() > s.len() {
        return None;
    }
    let mut i = s.len() - pat.len();
    loop
        invariant
            i <= s@.len() - pat@.len(),
            rfind(s@, pat@) == rfind_upto(s@, pat@, i as int),
        decreases i,
    {
        if matches_at(s, pat, i) {
            return Some(i);
        }
        if i == 0 {
            assert(rfind_upto(s@, pat@, -1) is None);
            return None;
        }
        i = i - 1;
    }
}

/// The part of `s` before the first `pat`.
pub(crate) fn before_first_of<'a>(s: &'a [u8], pat: &[u8]) -> (r: &'a [u8])
    ensures
        r@ == before_first(s@, pat@),
{
    proof {
        lemma_find_from_found(s@, pat@, 0);
    }
    match find_from_exec(s, pat, 0) {
        Some(i) => &s[0..i],
        None => s,
    }
}

/// The part of `s` after the first `pat`, if it occurs.
pub(crate) fn after_first_of<'a>(s: &'a [u8], pat: &[u8]) -> (r: Option<&'a [u8]>)
    ensures
        r matches Some(t) ==> after_first(s@, pat@) == Some(t@),
        r is None ==> after_first(s@, pat@) is None,
{
    proof {
        lemma_find_from_found(s@, pat@, 0);
    }
    match find_from_exec(s, pat, 0) {
        Some(i) => {
            let n = s.len();
            assert(occurs_at(s@, pat@, i as int));
            Some(&s[i + pat.len()..n])
        },
        None => None,
    }
}

/// The part of `s` after the last `pat`.
pub(crate) fn after_last_of<'a>(s: &'a [u8], pat: &[u8]) -> (r: &'a [u8])
    ensures
        r@ == after_last(s@, pat@),
{
    proof {
        lemma_rfind_upto_found(s@, pat@, s@.len() - pat@.len());
    }
    match rfind_exec(s, pat) {
        Some(i) => {
            let n = s.len();
            assert(occurs_at(s@, pat@, i as int));
            &s[i + pat.len()..n]
        },
        None => s,
    }
}

/// `s` without its surrounding whitespace.
pub(crate) fn trimmed<'a>(s: &'a [u8]) -> (r: &'a [u8])
    ensures
        r@ == trim(s@),
{
    let (a, b) = trim_bounds(s, 0, s.len());
    assert(s@.subrange(0, s@.len() as int) =~= s@);
    &s[a..b]
}

/// Appends `src` to `out`.
pub(crate) fn push_all(out: &mut Vec<u8>, src: &[u8])
    ensures
        final(out)@ == old(out)@ + src@,
{
    let mut k: usize = 0;
    while k < src.len()
        invariant
            k <= src@.len(),
            out@ == old(out)@ + src@.subrange(0, k as int),
        decreases src@.len() - k,
    {
        out.push(src[k]);
        k = k + 1;
        assert(out@ =~= old(out)@ + src@.subrange(0, k as int));
    }
    assert(src@.subrange(0, src@.len() as int) =~= src@);
}

/// `s` with every `pat` taken out.
pub(crate) fn remove_all_of(s: &[u8], pat: &[u8]) -> (r: Vec<u8>)
    requires
        pat@.len() > 0,
    ensures
        r@ == remove_all(s@, pat@),
{
    let mut out: Vec<u8> = Vec::new();
    let mut pos: usize = 0;
    assert(s@.subrange(0, s@.len() as int) =~= s@);
    loop
        invariant
            pat@.len() > 0,
            pos <= s@.len(),
            remove_all(s@, pat@) == out@ + remove_all(s@.subrange(pos as int, s@.len() as int), pat@),
        decreases s@.len() - pos,
    {
        let rest = &s[pos..s.len()];
        proof {
            lemma_find_from_found(rest@, pat@, 0);
        }
        match find_from_exec(rest, pat, 0) {
            Some(i) => {
                let ghost tail = rest@.subrange(i + pat@.len(), rest@.len() as int);
                assert(remove_all(rest@, pat@) == rest@.subrange(0, i as int) + remove_all(tail, pat@));
                push_all(&mut out, &rest[0..i]);
                assert(tail =~= s@.subrange(pos + i + pat@.len(), s@.len() as int));
                pos = pos + i + pat.len();
            },
            None => {
                assert(remove_all(rest@, pat@) == rest@);
                push_all(&mut out, rest);
                return out;
            },
        }
    }
}

/// The value of digit `b` in base `radix` (`0-9`, then `a-z` or `A-Z`).
pub open spec fn digit_of(b: u8, radix: nat) -> Option<nat> {
    let d: int = if 0x30 <= b <= 0x39 {
        b - 0x30
    } else if 0x61 <= b <= 0x7A {
        b - 0x61 + 10
    } else if 0x41 <= b <= 0x5A {
        b - 0x41 + 10
    } else {
        36
    };
    if d < radix {
        Some(d as nat)
    } else {
        None
    }
}

/// The number that the digits `s` spell in base `radix`, if all of them are
/// digits of that base.
pub open spec fn digits_value(s: Seq<u8>, radix: nat) -> Option<nat>
    decreases s.len(),
{
    if s.len() == 0 {
        Some(0)
    } else {
        match (digits_value(s.drop_last(), radix), digit_of(s.last(), radix)) {
            (Some(v), Some(d)) => Some(v * radix + d),
            _ => None,
        }
    }
}

/// The unsigned number `s` spells in base `radix`: an optional `+`, then at
/// least one digit, at most `max` in value. This is what `from_str_radix`
/// (and `parse`) of Rust's unsigned integer types accept.
pub open spec fn parse_unsigned(s: Seq<u8>, radix: nat, max: nat) -> Option<nat> {
    let body = if s.len() > 0 && s[0] == 0x2B {
        s.drop_first()
    } else {
        s
    };
    if body.len() == 0 {
        None
    } else {
        match digits_value(body, radix) {
            Some(v) => if v <= max {
                Some(v)
            } else {
                None
            },
            None => None,
        }
    }
}

/// A prefix that is not all digits makes the whole not all digits.
pub proof fn lemma_digits_prefix_invalid(s: Seq<u8>, radix: nat, k: int)
    requires
        0 <= k <= s.len(),
        digits_value(s.subrange(0, k), radix) is None,
    ensures
        digits_value(s, radix) is None,
    decreases s.len(),
{
    if k == s.len() {
        assert(s.subrange(0, k) =~= s);
    } else {
        assert(s.drop_last().subrange(0, k) =~= s.subrange(0, k));
        lemma_digits_prefix_invalid(s.drop_last(), radix, k);
    }
}

/// Parses an unsigned number of at most `max` in base `radix` as Rust's
/// unsigned `from_str_radix` does.
pub(crate) fn parse_unsigned_exec(s: &[u8], radix: u32, max: u32) -> (r: Option<u32>)
    requires
        2 <= radix <= 36,
    ensures
        r matches Some(v) ==> parse_unsigned(s@, radix as nat, max as nat) == Some(v as nat),
        r is None ==> parse_unsigned(s@, radix as nat, max as nat) is None,
{
    let n = s.len();
    let start: usize = if n > 0 && s[0] == 0x2B {
        1
    } else {
        0
    };
    let ghost body = s@.subrange(start as int, n as int);
    assert(body =~= (if s@.len() > 0 && s@[0] == 0x2B {
        s@.drop_first()
    } else {
        s@
    }));
    if start == n {
        return None;
    }
    let cap: u64 = max as u64 + 1;
    let mut acc: u64 = 0;
    let ghost mut v: nat = 0;
    let mut k: usize = start;
    assert(body.subrange(0, 0) =~= Seq::<u8>::empty());
    while k < n
        invariant
            n == s@.len(),
            start <= k <= n,
            body == s@.subrange(start as int, n as int),
            body == (if s@.len() > 0 && s@[0] == 0x2B {
                s@.drop_first()
            } else {
                s@
            }),
            body.len() > 0,
            cap == max + 1,
            2 <= radix <= 36,
            digits_value(body.subrange(0, k - start), radix as nat) == Some(v),
            acc == (if v < cap {
                v
            } else {
                cap as nat
            }),
        decreases n - k,
    {
        let b = s[k];
        let d: u32 = if 0x30 <= b && b <= 0x39 {
            (b - 0x30) as u32
        } else if 0x61 <= b && b <= 0x7A {
            (b - 0x61 + 10) as u32
        } else if 0x41 <= b && b <= 0x5A {
            (b - 0x41 + 10) as u32
        } else {
            36
        };
        let ghost pre = body.subrange(0, k - start);
        let ghost next = body.subrange(0, k + 1 - start);
        assert(next.drop_last() =~= pre);
        assert(next.last() == b);
        if d >= radix {
            proof {
                assert(digit_of(b, radix as nat) is None);
                assert(digits_value(next, radix as nat) is None);
                lemma_digits_prefix_invalid(body, radix as nat, k + 1 - start);
            }
            return None;
        }
        let ghost old_v = v;
        proof {
            v = v * (radix as nat) + d as nat;
        }
        if acc < cap {
            assert(acc * (radix as u64) <= 0x1_0000_0000u64 * 36) by (nonlinear_arith)
                requires
                    acc <= 0x1_0000_0000u64,
                    radix <= 36,
            ;
            let nv: u64 = acc * (radix as u64) + d as u64;
            if nv < cap {
                acc = nv;
            } else {
                acc = cap;
            }
        } else {
            assert(old_v * (radix as nat) >= old_v) by (nonlinear_arith)
                requires
                    radix >= 2,
            ;
            acc = cap;
        }
        k = k + 1;
    }
    assert(body.subrange(0, n - start) =~= body);
    if acc < cap {
        Some(acc as u32)
    } else {
        None
    }
}

/// `b` is a decimal digit.
pub open spec fn is_dec_digit(b: u8) -> bool {
    0x30 <= b <= 0x39
}

/// The end of the run of decimal digits of `s` that starts at `i`.
pub open spec fn digit_run_end(s: Seq<u8>, i: int) -> int
    decreases s.len() - i,
{
    if 0 <= i < s.len() && is_dec_digit(s[i]) {
        digit_run_end(s, i + 1)
    } else {
        i
    }
}

/// `b` with an ASCII capital turned into its small letter.
pub open spec fn ascii_lower(b: u8) -> u8 {
    if 0x41 <= b <= 0x5A {
        (b + 0x20) as u8
    } else {
        b
    }
}

/// `s` is `word` up to ASCII case (`word` is written in small letters).
pub open spec fn eq_ignore_case(s: Seq<u8>, word: Seq<u8>) -> bool {
    s.len() == word.len() && forall|i: int| 0 <= i < s.len() ==> ascii_lower(s[i]) == word[i]
}

/// Every byte of `d` is a decimal digit.
pub open spec fn all_dec_digits(d: Seq<u8>) -> bool {
    forall|i: int| 0 <= i < d.len() ==> is_dec_digit(#[trigger] d[i])
}

/// Where the digits of an exponent start: after the `e` and its sign.
pub open spec fn exponent_digits_start(e: Seq<u8>) -> int {
    if e[1] == 0x2B || e[1] == 0x2D {
        2
    } else {
        1
    }
}

/// An exponent: `e` or `E`, an optional sign, at least one digit.
pub open spec fn is_exponent(e: Seq<u8>) -> bool {
    &&& e.len() >= 2
    &&& e[0] == 0x65 || e[0] == 0x45
    &&& e.len() > exponent_digits_start(e)
    &&& all_dec_digits(e.subrange(exponent_digits_start(e), e.len() as int))
}

/// A decimal number: digits, an optional `.` and more digits, at least one
/// digit in all, then an optional exponent.
pub open spec fn is_decimal_number(b: Seq<u8>) -> bool {
    let i1 = digit_run_end(b, 0);
    let has_dot = i1 < b.len() && b[i1] == 0x2E;
    let frac_end = if has_dot {
        digit_run_end(b, i1 + 1)
    } else {
        i1
    };
    let n_digits = if has_dot {
        frac_end - 1
    } else {
        frac_end
    };
    n_digits >= 1 && (frac_end == b.len() || is_exponent(b.subrange(frac_end, b.len() as int)))
}

/// The text of a floating point number as Rust's `f32` parser accepts it:
/// an optional sign, then `inf`, `infinity` or `nan` in any case, or a
/// decimal number.
pub open spec fn is_float_literal(s: Seq<u8>) -> bool {
    let b = if s.len() > 0 && (s[0] == 0x2B || s[0] == 0x2D) {
        s.drop_first()
    } else {
        s
    };
    ||| eq_ignore_case(b, seq![0x69u8, 0x6E, 0x66])
    ||| eq_ignore_case(b, seq![0x69u8, 0x6E, 0x66, 0x69, 0x6E, 0x69, 0x74, 0x79])
    ||| eq_ignore_case(b, seq![0x6Eu8, 0x61, 0x6E])
    ||| is_decimal_number(b)
}

pub(crate) fn digit_run_end_exec(s: &[u8], i: usize) -> (r: usize)
    requires
        i <= s@.len(),
    ensures
        r == digit_run_end(s@, i as int),
        i <= r <= s@.len(),
        forall|k: int| i <= k < r ==> is_dec_digit(s@[k]),
        r < s@.len() ==> !is_dec_digit(s@[r as int]),
{
    let n = s.len();
    let mut j = i;
    while j < n && 0x30 <= s[j] && s[j] <= 0x39
        invariant
            n == s@.len(),
            i <= j <= n,
            digit_run_end(s@, i as int) == digit_run_end(s@, j as int),
            forall|k: int| i <= k < j ==> is_dec_digit(s@[k]),
        decreases n - j,
    {
        j = j + 1;
    }
    j
}

pub(crate) fn eq_ignore_case_exec(s: &[u8], word: &[u8]) -> (r: bool)
    ensures
        r == eq_ignore_case(s@, word@),
{
    if s.len() != word.len() {
        return false;
    }
    let mut i: usize = 0;
    while i < s.len()
        invariant
            s@.len() == word@.len(),
            i <= s@.len(),
            forall|k: int| 0 <= k < i ==> ascii_lower(s@[k]) == word@[k],
        decreases s@.len() - i,
    {
        let c = s[i];
        let l: u8 = if 0x41 <= c && c <= 0x5A {
            c + 0x20
        } else {
            c
        };
        if l != word[i] {
            return false;
        }
        i = i + 1;
    }
    true
}

pub(crate) fn is_exponent_exec(e: &[u8]) -> (r: bool)
    ensures
        r == is_exponent(e@),
{
    let n = e.len();
    if n < 2 || !(e[0] == 0x65 || e[0] == 0x45) {
        return false;
    }
    let start: usize = if e[1] == 0x2B || e[1] == 0x2D {
        2
    } else {
        1
    };
    let end = digit_run_end_exec(e, start);
    let ghost d = e@.subrange(start as int, n as int);
    assert(start == exponent_digits_start(e@));
    if end == n && end > start {
        assert forall|i: int| 0 <= i < d.len() implies is_dec_digit(#[trigger] d[i]) by {
            assert(d[i] == e@[start + i]);
        }
        true
    } else {
        if end < n {
            assert(d[end - start] == e@[end as int]);
            assert(!is_dec_digit(d[end - start]));
        }
        false
    }
}

/// Whether `s` is a number as Rust's `f32` parser accepts it.
pub(crate) fn is_float_literal_exec(s: &[u8]) -> (r: bool)
    ensures
        r == is_float_literal(s@),
{
    let n = s.len();
    let start: usize = if n > 0 && (s[0] == 0x2B || s[0] == 0x2D) {
        1
    } else {
        0
    };
    let b = &s[start..n];
    assert(b@ =~= (if s@.len() > 0 && (s@[0] == 0x2B || s@[0] == 0x2D) {
        s@.drop_first()
    } else {
        s@
    }));
    let inf: [u8; 3] = [0x69, 0x6E, 0x66];
    let infinity: [u8; 8] = [0x69, 0x6E, 0x66, 0x69, 0x6E, 0x69, 0x74, 0x79];
    let nan: [u8; 3] = [0x6E, 0x61, 0x6E];
    assert(inf@ =~= seq![0x69u8, 0x6E, 0x66]);
    assert(infinity@ =~= seq![0x69u8, 0x6E, 0x66, 0x69, 0x6E, 0x69, 0x74, 0x79]);
    assert(nan@ =~= seq![0x6Eu8, 0x61, 0x6E]);
    if eq_ignore_case_exec(b, &inf) || eq_ignore_case_exec(b, &infinity) || eq_ignore_case_exec(
        b,
        &nan,
    ) {
        return true;
    }
    let bn = b.len();
    let i1 = digit_run_end_exec(b, 0);
    let has_dot = i1 < bn && b[i1] == 0x2E;
    let frac_end = if has_dot {
        digit_run_end_exec(b, i1 + 1)
    } else {
        i1
    };
    let n_digits = if has_dot {
        frac_end - 1
    } else {
        frac_end
    };
    if n_digits < 1 {
        return false;
    }
    if frac_end == bn {
        return true;
    }
    is_exponent_exec(&b[frac_end..bn])
}

pub(crate) fn starts_with_exec(s: &[u8], pat: &[u8]) -> (r: bool)
    ensures
        r == starts_with(s@, pat@),
{
    let r = matches_at(s, pat, 0);
    proof {
        if pat@.len() <= s@.len() {
            assert(s@.subrange(0, pat@.len() as int) == s@.subrange(0, 0 + pat@.len() as int));
        }
    }
    r
}

/// Whether `a` and `b` hold the same bytes.
pub fn bytes_eq(a: &[u8], b: &[u8]) -> (r: bool)
    ensures
        r == (a@ == b@),
{
    if a.len() != b.len() {
        return false;
    }
    let n = a.len();
    let mut i: usize = 0;
    while i < n
        invariant
            n == a@.len(),
            n == b@.len(),
            i <= n,
            forall|j: int| 0 <= j < i ==> a@[j] == b@[j],
        decreases n - i,
    {
        if a[i] != b[i] {
            return false;
        }
        i = i + 1;
    }
    assert(a@ =~= b@);
    true
}

} // verus!
