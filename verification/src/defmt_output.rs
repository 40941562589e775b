//! Log output of the controller: log frames are buffered and cut into
//! packets, each led by a sequence byte, for transports with small packets
//! (CAN, USB serial); the host puts the frames back together.
use vstd::prelude::*;

verus! {

/// Where log frames go.
#[derive(Clone, Copy, PartialEq, Eq, Structural)]
pub enum DefmtTarget {
    /// The debug probe channel (always available).
    Rtt,
    /// The CAN bus.
    Can,
    /// The USB serial port.
    Serial,
}

impl DefmtTarget {
    /// The number of the target.
    pub open spec fn spec_code(&self) -> u8 {
        match self {
            DefmtTarget::Rtt => 0,
            DefmtTarget::Can => 1,
            DefmtTarget::Serial => 2,
        }
    }

    /// The number of the target.
    pub fn code(&self) -> (r: u8)
        ensures
            r == self.spec_code(),
    {
        match self {
            DefmtTarget::Rtt => 0,
            DefmtTarget::Can => 1,
            DefmtTarget::Serial => 2,
        }
    }
}

/// CAN identifier of log packets (reserved on all CAN layers).
pub const CAN_ID_DEFMT_LOG: u16 = 0x500;

/// Why the log target could not be changed.
#[derive(Clone, Copy, PartialEq, Eq, Structural, Debug)]
pub enum Error {
    /// The transport of the requested target has not been set up.
    EndpointNotPresent,
}

/// The outcome of asking for log target `mode`: its number, or the error
/// when its transport is not set up (the debug probe always is).
pub open spec fn log_mode_change(mode: DefmtTarget, can_present: bool, serial_present: bool) -> Result<u8, Error> {
    match mode {
        DefmtTarget::Rtt => Ok(0u8),
        DefmtTarget::Can => if can_present { Ok(1u8) } else { Err(Error::EndpointNotPresent) },
        DefmtTarget::Serial => if serial_present { Ok(2u8) } else { Err(Error::EndpointNotPresent) },
    }
}

/// Decides a change of the log target: the debug probe is always
/// available; CAN and serial only once their transport is set up. On
/// success the new target number is returned, for the caller to store.
pub fn set_defmt_log_mode(mode: DefmtTarget, can_present: bool, serial_present: bool) -> (r: Result<u8, Error>)
    ensures
        r == log_mode_change(mode, can_present, serial_present),
{
    match mode {
        DefmtTarget::Rtt => {},
        DefmtTarget::Can => {
            if !can_present {
                return Err(Error::EndpointNotPresent);
            }
        },
        DefmtTarget::Serial => {
            if !serial_present {
                return Err(Error::EndpointNotPresent);
            }
        },
    }
    Ok(mode.code())
}

/// The log target stored as `n` (the numbers that [`set_defmt_log_mode`]
/// stores).
pub fn defmt_target_from_code(n: u8) -> (r: DefmtTarget)
    requires
        n <= 2,
    ensures
        r.spec_code() == n,
{
    if n == 0 {
        DefmtTarget::Rtt
    } else if n == 1 {
        DefmtTarget::Can
    } else {
        DefmtTarget::Serial
    }
}

/// A target that could be set reads back from the number stored for it:
/// [`defmt_target_from_code`] of that number gives the target asked for.
pub proof fn lemma_log_mode_roundtrip(mode: DefmtTarget, can_present: bool, serial_present: bool, back: DefmtTarget)
    requires
        log_mode_change(mode, can_present, serial_present) matches Ok(n) && back.spec_code() == n,
    ensures
        back == mode,
{
}

/// The output a log frame goes to when it starts: the CAN bus or the
/// serial port when selected and free to take, else the debug probe
/// channel.
pub fn choose_log_output(mode: u8, can_free: bool, serial_free: bool) -> (r: DefmtTarget)
    ensures
        r == (if mode == 1 && can_free {
            DefmtTarget::Can
        } else if mode == 2 && serial_free {
            DefmtTarget::Serial
        } else {
            DefmtTarget::Rtt
        }),
{
    if mode == 1 && can_free {
        DefmtTarget::Can
    } else if mode == 2 && serial_free {
        DefmtTarget::Serial
    } else {
        DefmtTarget::Rtt
    }
}

/// The sequence bytes a writer can hold: below `0xF0`, or `0xFF`.
pub open spec fn pci_ok(pci: u8) -> bool {
    pci < 0xF0 || pci == 0xFF
}

/// The sequence byte that follows `p`: one more, from `0xEF` on to `1`
/// (`0xF0` and up are reserved), and from the closing `0xFF` back to `0`,
/// the start of the next frame.
pub open spec fn next_pci(p: u8) -> u8 {
    if p == 0xFF {
        0
    } else if p == 0xEF {
        1
    } else {
        (p + 1) as u8
    }
}

/// The number of data bytes of the packet sent once `out` bytes of `buf`
/// are out: what is left, at most `pm - 1`.
pub open spec fn chunk_len(buf: Seq<u8>, out: int, pm: int) -> int {
    let left = buf.len() - out;
    if left < pm - 1 {
        left
    } else {
        pm - 1
    }
}

/// The sequence byte of the packet sent once `out` bytes of `buf` are out:
/// `0xFF` for the last packet of a frame (`end`), else `pci`.
pub open spec fn packet_pci(buf: Seq<u8>, pci: u8, out: int, end: bool, pm: int) -> u8 {
    if end && buf.len() - out <= pm - 1 {
        0xFF
    } else {
        pci
    }
}

/// The packet sent once `out` bytes of `buf` are out: its sequence byte,
/// then the next bytes of `buf`.
pub open spec fn packet_at(buf: Seq<u8>, pci: u8, out: int, end: bool, pm: int) -> Seq<u8> {
    seq![packet_pci(buf, pci, out, end, pm)] + buf.subrange(out, out + chunk_len(buf, out, pm))
}

/// Whether sending stops once `out` bytes of `buf` are out: all of the
/// frame (`end`), or less than a full packet otherwise.
pub open spec fn flush_done(buf: Seq<u8>, out: int, end: bool, pm: int) -> bool {
    (end && buf.len() - out == 0) || (!end && buf.len() - out < pm)
}

/// The packets a flush of `buf` sends from `out` on with sequence byte
/// `pci` when the transport takes every packet whole.
pub open spec fn whole_run(buf: Seq<u8>, pci: u8, out: int, end: bool, pm: int) -> Seq<Seq<u8>>
    decreases buf.len() - out,
{
    let pkt = packet_at(buf, pci, out, end, pm);
    let out2 = out + chunk_len(buf, out, pm);
    if pm < 2 || out < 0 || out > buf.len() || flush_done(buf, out2, end, pm) || out2 <= out {
        seq![pkt]
    } else {
        seq![pkt] + whole_run(buf, next_pci(packet_pci(buf, pci, out, end, pm)), out2, end, pm)
    }
}

/// The data bytes (all but the sequence byte) of `packets`, one after the
/// other.
pub open spec fn payloads(packets: Seq<Seq<u8>>) -> Seq<u8>
    decreases packets.len(),
{
    if packets.len() == 0 {
        Seq::empty()
    } else {
        packets[0].drop_first() + payloads(packets.drop_first())
    }
}

/// [`whole_run`] is what the flush steps walk through when the transport
/// takes every packet whole: its first packet is the one
/// [`BufferedDefmtWriter::next_packet`] gives, and once that packet is
/// reported sent whole through [`BufferedDefmtWriter::on_sent`], either the
/// flush stops and it was the only packet, or the rest of the run is the run
/// from the state that call leaves.
pub proof fn lemma_whole_run_step(buf: Seq<u8>, pci: u8, out: int, end: bool, pm: int)
    requires
        pm >= 2,
        0 <= out <= buf.len(),
    ensures
        whole_run(buf, pci, out, end, pm)[0] == packet_at(buf, pci, out, end, pm),
        ({
            let out2 = out + chunk_len(buf, out, pm);
            let pci2 = next_pci(packet_pci(buf, pci, out, end, pm));
            if flush_done(buf, out2, end, pm) {
                whole_run(buf, pci, out, end, pm).len() == 1
            } else {
                whole_run(buf, pci, out, end, pm).drop_first() == whole_run(buf, pci2, out2, end, pm)
            }
        }),
{
    let out2 = out + chunk_len(buf, out, pm);
    let pkt = packet_at(buf, pci, out, end, pm);
    if !flush_done(buf, out2, end, pm) {
        assert(out2 > out);
        let rest = whole_run(buf, next_pci(packet_pci(buf, pci, out, end, pm)), out2, end, pm);
        assert((seq![pkt] + rest).drop_first() =~= rest);
    }
}

/// When the transport takes every packet whole, the flush that closes a
/// frame sends the buffered bytes from `out` on, in order, and its last
/// packet carries the closing sequence byte `0xFF`.
pub proof fn lemma_whole_frame_sent(buf: Seq<u8>, pci: u8, out: int, pm: int)
    requires
        pm >= 2,
        0 <= out <= buf.len(),
    ensures
        payloads(whole_run(buf, pci, out, true, pm)) == buf.subrange(out, buf.len() as int),
        whole_run(buf, pci, out, true, pm).last()[0] == 0xFF,
    decreases buf.len() - out,
{
    let c = chunk_len(buf, out, pm);
    let pkt = packet_at(buf, pci, out, true, pm);
    let out2 = out + c;
    let run = whole_run(buf, pci, out, true, pm);
    assert(pkt.drop_first() =~= buf.subrange(out, out2));
    if flush_done(buf, out2, true, pm) || out2 <= out {
        assert(run == seq![pkt]);
        assert(seq![pkt].drop_first() =~= Seq::<Seq<u8>>::empty());
        assert(payloads(seq![pkt]) == pkt.drop_first() + payloads(Seq::<Seq<u8>>::empty()));
        assert(payloads(seq![pkt]) =~= pkt.drop_first());
        if out2 <= out {
            assert(out == buf.len());
        }
        assert(out2 == buf.len());
        assert(buf.subrange(out, out2) =~= buf.subrange(out, buf.len() as int));
    } else {
        let pci2 = next_pci(packet_pci(buf, pci, out, true, pm));
        lemma_whole_frame_sent(buf, pci2, out2, pm);
        let rest = whole_run(buf, pci2, out2, true, pm);
        assert(run == seq![pkt] + rest);
        assert((seq![pkt] + rest).drop_first() =~= rest);
        assert(payloads(run) == pkt.drop_first() + payloads(rest));
        assert(buf.subrange(out, out2) + buf.subrange(out2, buf.len() as int) =~= buf.subrange(
            out,
            buf.len() as int,
        ));
        assert(run.last() == rest.last());
    }
}

/// Buffers log bytes and cuts them into packets of at most `PKT_MAX` bytes,
/// each led by a sequence byte. A write appends its data and, when more
/// than a packet is buffered or the frame ends, starts a flush. The packets
/// of a flush come one at a time from [`Self::next_packet`]; the caller
/// hands each to the transport and reports the outcome through
/// [`Self::on_sent`].
pub struct BufferedDefmtWriter<const BUF_LEN: usize, const PKT_MAX: usize> {
    inner: Vec<u8>,
    pci: u8,
    flush: Option<(usize, bool)>,
}

impl<const BUF_LEN: usize, const PKT_MAX: usize> Default for BufferedDefmtWriter<BUF_LEN, PKT_MAX> {
    /// An empty writer whose next packet starts a frame.
    fn default() -> (r: Self)
        ensures
            r.wf(),
            r.buffered() == Seq::<u8>::empty(),
            r.pci_model() == 0,
            r.flushing() is None,
    {
        BufferedDefmtWriter { inner: Vec::new(), pci: 0, flush: None }
    }
}

impl<const BUF_LEN: usize, const PKT_MAX: usize> BufferedDefmtWriter<BUF_LEN, PKT_MAX> {
    /// The buffered bytes.
    pub closed spec fn buffered(&self) -> Seq<u8> {
        self.inner@
    }

    /// The sequence byte of the next packet.
    pub closed spec fn pci_model(&self) -> u8 {
        self.pci
    }

    /// The flush in progress: how many buffered bytes are out, and whether
    /// it closes the frame.
    pub closed spec fn flushing(&self) -> Option<(int, bool)> {
        match self.flush {
            Some((o, e)) => Some((o as int, e)),
            None => None,
        }
    }

    /// Whether the writer is in a state it can be in.
    pub closed spec fn wf(&self) -> bool {
        &&& self.inner@.len() <= BUF_LEN
        &&& pci_ok(self.pci)
        &&& self.flush matches Some((o, e)) ==> o <= self.inner@.len()
    }

    /// Whether a flush is in progress.
    pub fn is_flushing(&self) -> (r: bool)
        ensures
            r == self.flushing() is Some,
    {
        self.flush.is_some()
    }

    /// Appends `data` to the buffered bytes; data that does not fit in the
    /// buffer is dropped, leaving the writer as it was. Returns whether a
    /// flush starts: when more than a packet is buffered, or `end` closes
    /// the frame.
    pub fn write(&mut self, end: bool, data: &[u8]) -> (r: bool)
        requires
            PKT_MAX >= 2,
            old(self).wf(),
            old(self).flushing() is None,
        ensures
            final(self).wf(),
            ({
                let total = old(self).buffered() + data@;
                if total.len() > BUF_LEN {
                    *final(self) == *old(self) && !r
                } else {
                    &&& final(self).buffered() == total
                    &&& final(self).pci_model() == old(self).pci_model()
                    &&& r == (total.len() > PKT_MAX || end)
                    &&& final(self).flushing() == (if r {
                        Some((0int, end))
                    } else {
                        None
                    })
                }
            }),
    {
        if data.len() > BUF_LEN - self.inner.len() {
            return false;
        }
        let dlen = data.len();
        let mut i: usize = 0;
        let ghost start = self.inner@;
        while i < dlen
            invariant
                dlen == data@.len(),
                i <= dlen,
                self.inner@ == start + data@.subrange(0, i as int),
                self.pci == old(self).pci,
                self.flush == old(self).flush,
            decreases dlen - i,
        {
            self.inner.push(data[i]);
            i = i + 1;
            assert(self.inner@ =~= start + data@.subrange(0, i as int));
        }
        assert(data@.subrange(0, dlen as int) =~= data@);
        let pos = self.inner.len();
        if pos > PKT_MAX || end {
            self.flush = Some((0, end));
            true
        } else {
            false
        }
    }

    /// The next packet of the flush in progress: its sequence byte
    /// (`0xFF` for the last packet of a frame), then the next buffered
    /// bytes, at most `PKT_MAX - 1`. `None` when no flush is in progress.
    pub fn next_packet(&self) -> (r: Option<Vec<u8>>)
        requires
            PKT_MAX >= 2,
            self.wf(),
        ensures
            match self.flushing() {
                None => r is None,
                Some((o, e)) => r matches Some(p) && p@ == packet_at(
                    self.buffered(),
                    self.pci_model(),
                    o,
                    e,
                    PKT_MAX as int,
                ),
            },
    {
        match self.flush {
            None => None,
            Some((out_pos, end)) => {
                let pos = self.inner.len();
                let left = pos - out_pos;
                let data_max = PKT_MAX - 1;
                let max = if left < data_max {
                    left
                } else {
                    data_max
                };
                let pci = if end && left <= data_max {
                    0xFF
                } else {
                    self.pci
                };
                let mut buf: Vec<u8> = Vec::new();
                buf.push(pci);
                let mut i: usize = 0;
                while i < max
                    invariant
                        pos == self.inner@.len(),
                        out_pos + max <= pos,
                        i <= max,
                        buf@ == seq![pci] + self.inner@.subrange(out_pos as int, out_pos + i),
                    decreases max - i,
                {
                    buf.push(self.inner[out_pos + i]);
                    i = i + 1;
                    assert(buf@ =~= seq![pci] + self.inner@.subrange(out_pos as int, out_pos + i));
                }
                Some(buf)
            },
        }
    }

    /// Takes what the transport reported for the packet
    /// [`Self::next_packet`] gave: `None` when it did not go out, else how
    /// many of its bytes did (at least the sequence byte). The bytes that
    /// went out count as sent and the sequence byte moves on (from `0xEF`
    /// to `1`, from the closing `0xFF` to `0`). The flush ends when the
    /// packet did not go out or [`flush_done`]; then, unless it closed the
    /// frame, the bytes sent leave the buffer.
    pub fn on_sent(&mut self, res: Option<usize>)
        requires
            PKT_MAX >= 2,
            old(self).wf(),
            old(self).flushing() matches Some((o, e)) && (res matches Some(n) ==> 1 <= n <= packet_at(
                old(self).buffered(),
                old(self).pci_model(),
                o,
                e,
                PKT_MAX as int,
            ).len()),
        ensures
            final(self).wf(),
            ({
                let buf = old(self).buffered();
                let (o, e) = old(self).flushing()->0;
                let pp = packet_pci(buf, old(self).pci_model(), o, e, PKT_MAX as int);
                let o2 = match res {
                    Some(n) => o + n - 1,
                    None => o,
                };
                let stop = res is None || flush_done(buf, o2, e, PKT_MAX as int);
                &&& final(self).pci_model() == (if res is Some {
                    next_pci(pp)
                } else {
                    pp
                })
                &&& final(self).flushing() == (if stop {
                    None
                } else {
                    Some((o2, e))
                })
                &&& final(self).buffered() == (if stop && !e {
                    buf.subrange(o2, buf.len() as int)
                } else {
                    buf
                })
            }),
    {
        let (out_pos, end) = match self.flush {
            Some(f) => f,
            None => return,
        };
        let pos = self.inner.len();
        let data_max = PKT_MAX - 1;
        let pp = if end && pos - out_pos <= data_max {
            0xFF
        } else {
            self.pci
        };
        let out2 = match res {
            Some(n) => {
                self.pci = if pp == 0xFF {
                    0
                } else if pp == 0xEF {
                    1
                } else {
                    pp + 1
                };
                out_pos + (n - 1)
            },
            None => {
                self.pci = pp;
                out_pos
            },
        };
        let left = pos - out2;
        let stop = res.is_none() || (end && left == 0) || (!end && left < PKT_MAX);
        if !stop {
            self.flush = Some((out2, end));
            return;
        }
        self.flush = None;
        if !end {
            let mut rest: Vec<u8> = Vec::new();
            let mut j = out2;
            while j < pos
                invariant
                    pos == self.inner@.len(),
                    out2 <= j <= pos,
                    rest@ == self.inner@.subrange(out2 as int, j as int),
                decreases pos - j,
            {
                rest.push(self.inner[j]);
                j = j + 1;
                assert(rest@ =~= self.inner@.subrange(out2 as int, j as int));
            }
            self.inner = rest;
        }
    }
}

/// Puts log frames back together on the host from the packets received.
pub struct DefmtFrameAssembler {
    frame_buf: Vec<u8>,
}

impl DefmtFrameAssembler {
    /// The bytes of the frame gathered so far.
    pub closed spec fn gathered(&self) -> Seq<u8> {
        self.frame_buf@
    }

    /// An assembler with nothing gathered.
    pub fn new() -> (r: Self)
        ensures
            r.gathered() == Seq::<u8>::empty(),
    {
        DefmtFrameAssembler { frame_buf: Vec::new() }
    }

    fn extend(&mut self, src: &[u8], from: usize)
        requires
            from <= src@.len(),
        ensures
            final(self).gathered() == old(self).gathered() + src@.subrange(from as int, src@.len() as int),
    {
        let slen = src.len();
        let mut i = from;
        let ghost start = self.frame_buf@;
        while i < slen
            invariant
                slen == src@.len(),
                from <= i <= slen,
                self.frame_buf@ == start + src@.subrange(from as int, i as int),
            decreases slen - i,
        {
            self.frame_buf.push(src[i]);
            i = i + 1;
            assert(self.frame_buf@ =~= start + src@.subrange(from as int, i as int));
        }
    }

    /// Handles a log packet received over CAN: `0x00` starts a frame, `0xFF`
    /// ends it (the complete frame is returned), other sequence bytes below
    /// `0xF0` continue it, the rest are ignored.
    pub fn on_can_packet(&mut self, data: &[u8]) -> (r: Option<Vec<u8>>)
        requires
            data@.len() >= 1,
        ensures
            ({
                let rest = data@.subrange(1, data@.len() as int);
                if data@[0] == 0xFF {
                    &&& r matches Some(f) && f@ == old(self).gathered() + rest
                    &&& final(self).gathered() == Seq::<u8>::empty()
                } else if data@[0] == 0x00 {
                    &&& r is None
                    &&& final(self).gathered() == rest
                } else if data@[0] < 0xF0 {
                    &&& r is None
                    &&& final(self).gathered() == old(self).gathered() + rest
                } else {
                    &&& r is None
                    &&& final(self).gathered() == old(self).gathered()
                }
            }),
    {
        if data[0] == 0xFF {
            self.extend(data, 1);
            let mut out: Vec<u8> = Vec::new();
            std::mem::swap(&mut out, &mut self.frame_buf);
            Some(out)
        } else if data[0] == 0x00 {
            self.frame_buf = Vec::new();
            self.extend(data, 1);
            assert(self.frame_buf@ =~= data@.subrange(1, data@.len() as int));
            None
        } else if data[0] < 0xF0 {
            self.extend(data, 1);
            None
        } else {
            None
        }
    }

    /// Handles a log chunk received over USB; `last` ends the frame, which is
    /// then returned.
    pub fn on_usb_chunk(&mut self, data: &[u8], last: bool) -> (r: Option<Vec<u8>>)
        ensures
            last ==> (r matches Some(f) && f@ == old(self).gathered() + data@) && final(self).gathered()
                == Seq::<u8>::empty(),
            !last ==> r is None && final(self).gathered() == old(self).gathered() + data@,
    {
        self.extend(data, 0);
        assert(data@.subrange(0, data@.len() as int) =~= data@);
        if last {
            let mut out: Vec<u8> = Vec::new();
            std::mem::swap(&mut out, &mut self.frame_buf);
            Some(out)
        } else {
            None
        }
    }
}

} // verus!
