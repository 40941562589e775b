//! The flash image the flashing tool downloads, built from the loadable
//! segments of the firmware's ELF file: the segments are laid out by
//! physical address from the lowest one, gaps stay erased (`0xFF`), and
//! where segments overlap the one placed last (highest address, then
//! latest in the file) wins.
use vstd::prelude::*;

verus! {

/// A loadable segment of the ELF file.
#[derive(Clone, Copy)]
pub struct ElfSegment {
    pub phys_addr: u32,
    pub virt_addr: u32,
    pub size: u32,
    pub offset_in_elf: u32,
}

/// Segment `i` is placed before segment `j`: lower physical address, or
/// the same one and earlier in the list.
pub open spec fn placed_before(s: Seq<ElfSegment>, i: int, j: int) -> bool {
    s[i].phys_addr < s[j].phys_addr || (s[i].phys_addr == s[j].phys_addr && i < j)
}

/// `i` is placed no later than `j`.
pub open spec fn placed_no_later(s: Seq<ElfSegment>, i: int, j: int) -> bool {
    i == j || placed_before(s, i, j)
}

/// Segment `i` covers the address `a`.
pub open spec fn covers(s: Seq<ElfSegment>, i: int, a: int) -> bool {
    s[i].phys_addr <= a < s[i].phys_addr + s[i].size
}

/// Index of the segment placed last (the highest physical address, the
/// latest of those).
pub open spec fn is_last_placed(s: Seq<ElfSegment>, k: int) -> bool {
    &&& 0 <= k < s.len()
    &&& forall|j: int| 0 <= j < s.len() ==> placed_no_later(s, j, k)
}

/// The lowest physical address.
pub open spec fn is_lowest(s: Seq<ElfSegment>, a: int) -> bool {
    &&& exists|i: int| 0 <= i < s.len() && s[i].phys_addr == a
    &&& forall|j: int| 0 <= j < s.len() ==> a <= s[j].phys_addr
}

/// The byte of the ELF file that segment `i` puts at address `a`.
pub open spec fn segment_byte(s: Seq<ElfSegment>, elf: Seq<u8>, i: int, a: int) -> u8 {
    elf[s[i].offset_in_elf + (a - s[i].phys_addr)]
}

/// The image byte at address `a`: the byte of the covering segment placed
/// last, or erased flash where no segment covers it.
pub open spec fn image_byte_ok(s: Seq<ElfSegment>, elf: Seq<u8>, a: int, b: u8) -> bool {
    ||| (forall|j: int| 0 <= j < s.len() ==> !covers(s, j, a)) && b == 0xFF
    ||| exists|i: int|
        #![trigger segment_byte(s, elf, i, a)]
        0 <= i < s.len() && covers(s, i, a) && b == segment_byte(s, elf, i, a) && (forall|j: int|
            0 <= j < s.len() && covers(s, j, a) ==> placed_no_later(s, j, i))
}

/// The inputs on which the image can be built: at least one segment, a
/// lowest address on a page boundary, every segment ending inside the
/// image (no later than the last placed one) and inside the ELF file.
pub open spec fn image_inputs_ok(s: Seq<ElfSegment>, elf_len: nat) -> bool {
    &&& s.len() >= 1
    &&& forall|i: int| 0 <= i < s.len() ==> s[i].offset_in_elf + s[i].size <= elf_len
    &&& forall|k: int| is_last_placed(s, k) ==> {
        &&& s[k].phys_addr + s[k].size <= u32::MAX
        &&& forall|i: int| 0 <= i < s.len() ==> s[i].phys_addr + s[i].size <= s[k].phys_addr + s[k].size
    }
    &&& forall|a: int| is_lowest(s, a) ==> a % 8192 == 0
}

/// A flash image: where it starts and its bytes.
pub struct FlashImage {
    pub start: u32,
    pub data: Vec<u8>,
}

/// Segment `m` is placed after the key (segment `k`), or there is no key
/// yet.
pub open spec fn after_key(s: Seq<ElfSegment>, has_key: bool, k: int, m: int) -> bool {
    !has_key || placed_before(s, k, m)
}

/// Finds the segment placed last.
fn last_placed(segs: &[ElfSegment]) -> (k: usize)
    requires
        segs@.len() >= 1,
    ensures
        is_last_placed(segs@, k as int),
{
    let n = segs.len();
    let mut k: usize = 0;
    let mut i: usize = 1;
    while i < n
        invariant
            n == segs@.len(),
            1 <= i <= n,
            k < i,
            forall|j: int| 0 <= j < i ==> placed_no_later(segs@, j, k as int),
        decreases n - i,
    {
        if segs[i].phys_addr >= segs[k].phys_addr {
            proof {
                assert forall|j: int| 0 <= j < i implies placed_no_later(segs@, j, i as int) by {
                    assert(placed_no_later(segs@, j, k as int));
                }
            }
            k = i;
        }
        i = i + 1;
    }
    k
}

/// Finds the lowest physical address.
fn lowest_addr(segs: &[ElfSegment]) -> (a: u32)
    requires
        segs@.len() >= 1,
    ensures
        is_lowest(segs@, a as int),
{
    let n = segs.len();
    let mut a = segs[0].phys_addr;
    let ghost mut w: int = 0;
    let mut i: usize = 1;
    while i < n
        invariant
            n == segs@.len(),
            1 <= i <= n,
            0 <= w < n,
            segs@[w].phys_addr == a,
            forall|j: int| 0 <= j < i ==> a <= segs@[j].phys_addr,
        decreases n - i,
    {
        if segs[i].phys_addr < a {
            a = segs[i].phys_addr;
            proof {
                w = i as int;
            }
        }
        i = i + 1;
    }
    a
}

/// Whether the image can be built (see [`image_inputs_ok`]).
pub fn image_inputs_valid(segs: &[ElfSegment], elf_len: usize) -> (r: bool)
    ensures
        r == image_inputs_ok(segs@, elf_len as nat),
{
    let n = segs.len();
    if n == 0 {
        return false;
    }
    let k = last_placed(segs);
    let low = lowest_addr(segs);
    proof {
        assert forall|k2: int| is_last_placed(segs@, k2) implies k2 == k as int by {
            assert(placed_no_later(segs@, k2, k as int));
            assert(placed_no_later(segs@, k as int, k2));
        }
        assert forall|a: int| is_lowest(segs@, a) implies a == low as int by {
            let i = choose|i: int| 0 <= i < segs@.len() && segs@[i].phys_addr == a;
            let j = choose|j: int| 0 <= j < segs@.len() && segs@[j].phys_addr == low;
        }
    }
    if segs[k].phys_addr as u64 + segs[k].size as u64 > u32::MAX as u64 {
        return false;
    }
    if low % 8192 != 0 {
        return false;
    }
    let end = segs[k].phys_addr + segs[k].size;
    let mut i: usize = 0;
    while i < n
        invariant
            n == segs@.len(),
            i <= n,
            k < n,
            is_last_placed(segs@, k as int),
            end == segs@[k as int].phys_addr + segs@[k as int].size,
            forall|j: int| 0 <= j < i ==> segs@[j].offset_in_elf + segs@[j].size <= elf_len
                && segs@[j].phys_addr + segs@[j].size <= end,
        decreases n - i,
    {
        if segs[i].offset_in_elf as u64 + segs[i].size as u64 > elf_len as u64 {
            return false;
        }
        if segs[i].phys_addr as u64 + segs[i].size as u64 > end as u64 {
            return false;
        }
        i = i + 1;
    }
    true
}

/// Builds the image: from the lowest segment address to the end of the
/// segment placed last, erased (`0xFF`) where no segment lies, with each
/// covered byte taken from the covering segment placed last.
pub fn build_flash_image(segs: &[ElfSegment], elf: &[u8]) -> (r: FlashImage)
    requires
        image_inputs_ok(segs@, elf@.len()),
    ensures
        is_lowest(segs@, r.start as int),
        r.start % 8192 == 0,
        forall|k: int| is_last_placed(segs@, k) ==> r.start + r.data@.len() == segs@[k].phys_addr + segs@[k].size,
        forall|p: int| 0 <= p < r.data@.len() ==> image_byte_ok(segs@, elf@, r.start + p, #[trigger] r.data@[p]),
{
    let n = segs.len();
    let k_last = last_placed(segs);
    let start = lowest_addr(segs);
    let end = segs[k_last].phys_addr + segs[k_last].size;
    proof {
        assert(placed_no_later(segs@, 0, k_last as int));
    }
    let len = (end - start) as usize;
    let mut data: Vec<u8> = Vec::new();
    let mut f: usize = 0;
    while f < len
        invariant
            f <= len,
            data@.len() == f,
            forall|p: int| 0 <= p < f ==> data@[p] == 0xFF,
        decreases len - f,
    {
        data.push(0xFF);
        f = f + 1;
    }
    // The key (address, index) of the last segment written.
    let mut has_key = false;
    let mut kp: u32 = 0;
    let mut ki: usize = 0;
    loop
        invariant
            n == segs@.len(),
            image_inputs_ok(segs@, elf@.len()),
            is_last_placed(segs@, k_last as int),
            is_lowest(segs@, start as int),
            end == segs@[k_last as int].phys_addr + segs@[k_last as int].size,
            len == end - start,
            data@.len() == len,
            has_key ==> ki < n && segs@[ki as int].phys_addr == kp,
            forall|p: int| 0 <= p < len ==> written_ok(segs@, elf@, start + p, data@[p], has_key, ki as int),
        ensures
            data@.len() == len,
            forall|p: int| 0 <= p < len ==> image_byte_ok(segs@, elf@, start + p, data@[p]),
        decreases (if has_key { u32::MAX - kp } else { u32::MAX + 1 }), n - ki,
    {
        // Find the segment placed next after the key.
        let mut found = false;
        let mut b: usize = 0;
        let mut j: usize = 0;
        while j < n
            invariant
                n == segs@.len(),
                j <= n,
                has_key ==> ki < n && segs@[ki as int].phys_addr == kp,
                found ==> b < j && (!has_key || placed_before(segs@, ki as int, b as int)),
                forall|m: int| 0 <= m < j && #[trigger] after_key(segs@, has_key, ki as int, m) ==> found
                    && placed_no_later(segs@, b as int, m),
            decreases n - j,
        {
            let after = !has_key || segs[j].phys_addr > kp || (segs[j].phys_addr == kp && j > ki);
            assert(after == after_key(segs@, has_key, ki as int, j as int));
            if after && (!found || segs[j].phys_addr < segs[b].phys_addr) {
                proof {
                    if found {
                        assert forall|m: int| 0 <= m < j && after_key(segs@, has_key, ki as int, m) implies placed_no_later(segs@, j as int, m) by {
                            assert(placed_no_later(segs@, b as int, m));
                        }
                    }
                }
                found = true;
                b = j;
            } else if after {
                assert(placed_no_later(segs@, b as int, j as int));
            }
            j = j + 1;
        }
        if !found {
            proof {
                if !has_key {
                    assert(after_key(segs@, has_key, ki as int, 0));
                    assert(false);
                }
                assert forall|p: int| 0 <= p < len implies image_byte_ok(segs@, elf@, start + p, data@[p]) by {
                    assert(written_ok(segs@, elf@, start + p, data@[p], has_key, ki as int));
                    assert forall|m: int| 0 <= m < segs@.len() implies !placed_before(segs@, ki as int, m) by {
                        assert(!after_key(segs@, has_key, ki as int, m));
                    }
                    lemma_written_final(segs@, elf@, start + p, data@[p], ki as int);
                }
            }
            break;
        }
        // Write segment b.
        let seg = segs[b];
        let base = (seg.phys_addr - start) as usize;
        let off = seg.offset_in_elf as usize;
        let size = seg.size as usize;
        proof {
            assert(placed_no_later(segs@, b as int, k_last as int));
        }
        let ghost before = data@;
        let elen = elf.len();
        let mut t: usize = 0;
        while t < size
            invariant
                n == segs@.len(),
                b < n,
                seg == segs@[b as int],
                base == seg.phys_addr - start,
                off == seg.offset_in_elf,
                size == seg.size,
                base + size <= len,
                elen == elf@.len(),
                off + size <= elen,
                data@.len() == len,
                t <= size,
                forall|p: int| 0 <= p < len && !(base <= p < base + t) ==> data@[p] == before[p],
                forall|p: int| base <= p < base + t ==> data@[p] == elf@[off + (p - base)],
            decreases size - t,
        {
            data.set(base + t, elf[off + t]);
            t = t + 1;
        }
        proof {
            assert forall|p: int| 0 <= p < len implies written_ok(segs@, elf@, start + p, data@[p], true, b as int) by {
                assert(written_ok(segs@, elf@, start + p, before[p], has_key, ki as int));
                lemma_written_step(segs@, elf@, start + p, before[p], data@[p], has_key, ki as int, b as int);
            }
        }
        has_key = true;
        kp = seg.phys_addr;
        ki = b;
    }
    FlashImage { start, data }
}

/// Byte `b` is what address `a` holds once the segments placed no later
/// than segment `k` are written in placement order (none when `has_key` is
/// false): the byte of the last of them that covers `a`, `0xFF` where none
/// covers it.
pub open spec fn written_ok(s: Seq<ElfSegment>, elf: Seq<u8>, a: int, b: u8, has_key: bool, k: int) -> bool {
    ||| (forall|j: int| 0 <= j < s.len() && (has_key && placed_no_later(s, j, k)) ==> !covers(s, j, a)) && b == 0xFF
    ||| exists|i: int|
        #![trigger segment_byte(s, elf, i, a)]
        0 <= i < s.len() && has_key && placed_no_later(s, i, k) && covers(s, i, a) && b == segment_byte(s, elf, i, a)
            && (forall|j: int| 0 <= j < s.len() && placed_no_later(s, j, k) && covers(s, j, a) ==> placed_no_later(s, j, i))
}

proof fn lemma_written_final(s: Seq<ElfSegment>, elf: Seq<u8>, a: int, b: u8, k: int)
    requires
        0 <= k < s.len(),
        written_ok(s, elf, a, b, true, k),
        forall|m: int| 0 <= m < s.len() ==> !placed_before(s, k, m),
    ensures
        image_byte_ok(s, elf, a, b),
{
    assert forall|m: int| 0 <= m < s.len() implies placed_no_later(s, m, k) by {
        assert(!placed_before(s, k, m));
    }
}

proof fn lemma_written_step(
    s: Seq<ElfSegment>,
    elf: Seq<u8>,
    a: int,
    b0: u8,
    b1: u8,
    has_key: bool,
    k: int,
    nb: int,
)
    requires
        0 <= nb < s.len(),
        written_ok(s, elf, a, b0, has_key, k),
        has_key ==> 0 <= k < s.len() && placed_before(s, k, nb),
        forall|m: int| 0 <= m < s.len() && #[trigger] after_key(s, has_key, k, m) ==> placed_no_later(s, nb, m),
        covers(s, nb, a) ==> b1 == segment_byte(s, elf, nb, a),
        !covers(s, nb, a) ==> b1 == b0,
    ensures
        written_ok(s, elf, a, b1, true, nb),
{
    if covers(s, nb, a) {
        assert(0 <= nb < s.len() && placed_no_later(s, nb, nb) && covers(s, nb, a) && b1 == segment_byte(s, elf, nb, a));
        assert forall|j: int| 0 <= j < s.len() && placed_no_later(s, j, nb) && covers(s, j, a) implies placed_no_later(s, j, nb) by {
        }
    } else {
        assert forall|j: int| 0 <= j < s.len() && placed_no_later(s, j, nb) implies (has_key && placed_no_later(s, j, k)) || j == nb by {
            if j != nb && !(has_key && placed_no_later(s, j, k)) {
                assert(after_key(s, has_key, k, j));
                assert(placed_no_later(s, nb, j));
            }
        }
        if b0 == 0xFF && (forall|j: int| 0 <= j < s.len() && (has_key && placed_no_later(s, j, k)) ==> !covers(s, j, a)) {
        } else {
            let i = choose|i: int|
                #![trigger segment_byte(s, elf, i, a)]
                0 <= i < s.len() && has_key && placed_no_later(s, i, k) && covers(s, i, a) && b0 == segment_byte(s, elf, i, a)
                    && (forall|j: int| 0 <= j < s.len() && placed_no_later(s, j, k) && covers(s, j, a) ==> placed_no_later(s, j, i));
            assert(after_key(s, has_key, k, nb));
            assert(placed_no_later(s, i, nb));
            assert(segment_byte(s, elf, i, a) == b1);
        }
    }
}

} // verus!
