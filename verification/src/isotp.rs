//! ISO 15765-2 (ISO-TP) framing over classic 8 byte CAN frames.
//!
//! Every frame is padded to 8 bytes; normal (not extended) addressing.
//! The receiving side is a state machine fed with frames; whenever it wants
//! a flow control frame sent, it says so and is told afterwards whether the
//! frame went out. The sending side cuts a payload into the first frame and
//! the consecutive frames of each block, and decides what each flow control
//! message (or its absence) asks of it.
use vstd::prelude::*;

verus! {

/// Size of the buffer that receives an ISO-TP payload.
pub const ISOTP_BUF_SIZE: usize = 4096;

/// Flow control frame: clear to send with the given separation time and
/// block size.
pub fn make_fc_ok(stmin: u8, bs: u8) -> (r: [u8; 8])
    ensures
        r@ == seq![0x30u8, bs, stmin, 0xCC, 0xCC, 0xCC, 0xCC, 0xCC],
{
    [0x30, bs, stmin, 0xCC, 0xCC, 0xCC, 0xCC, 0xCC]
}

/// Flow control frame: overflow / abort.
pub fn make_fc_reject() -> (r: [u8; 8])
    ensures
        r@ == seq![0x32u8, 0xCC, 0xCC, 0xCC, 0xCC, 0xCC, 0xCC, 0xCC],
{
    [0x32, 0xCC, 0xCC, 0xCC, 0xCC, 0xCC, 0xCC, 0xCC]
}

/// A received ISO-TP payload.
pub struct SharedIsoTpBuf {
    pub data: Vec<u8>,
}

impl SharedIsoTpBuf {
    /// An empty buffer.
    pub fn new() -> (r: Self)
        ensures
            r.data@ == Seq::<u8>::empty(),
    {
        SharedIsoTpBuf { data: Vec::new() }
    }

    /// The payload bytes.
    pub fn payload(&self) -> (r: &[u8])
        ensures
            r@ == self.data@,
    {
        self.data.as_slice()
    }

    /// The number of payload bytes.
    pub fn size(&self) -> (r: usize)
        ensures
            r == self.data@.len(),
    {
        self.data.len()
    }
}

/// Message sent to the thread that transmits payloads.
#[derive(Clone, Copy, PartialEq, Eq, Structural)]
pub enum IsotpCtsMsg {
    /// The transmitter may continue sending.
    Proceed { stmin: u8, bs: u8 },
    /// Wait for another flow control message.
    Wait,
    /// The receiver rejected the transfer.
    Reject,
}

/// Reception state of the interrupt side handler.
pub enum IsoTpMode {
    /// A multi-frame payload is being received. The timing parameters are the
    /// ones announced to the other end in the flow control frame.
    Rx { stmin: u8, bs: u8, buf: SharedIsoTpBuf, rx_count: u8, targ_size: usize },
    /// No reception in progress.
    Idle,
}

/// Mathematical model of [`IsoTpMode`].
pub enum RxModel {
    Rx { stmin: u8, bs: u8, buf: Seq<u8>, rx_count: u8, targ_size: int },
    Idle,
}

impl IsoTpMode {
    pub open spec fn model(&self) -> RxModel {
        match self {
            IsoTpMode::Rx { stmin, bs, buf, rx_count, targ_size } => RxModel::Rx {
                stmin: *stmin,
                bs: *bs,
                buf: buf.data@,
                rx_count: *rx_count,
                targ_size: *targ_size as int,
            },
            IsoTpMode::Idle => RxModel::Idle,
        }
    }
}

/// What the handler asks its caller to do after a frame.
pub enum RxAction {
    /// Nothing to do.
    Nothing,
    /// A complete payload was received: hand it to the reader.
    Deliver(SharedIsoTpBuf),
    /// Transmit this flow control frame, then report whether it went out
    /// through [`IsoTpInterruptHandler::on_flow_control_sent`].
    SendFlowControl([u8; 8]),
    /// Hand this flow control message to the transmitting thread.
    ClearToSend(IsotpCtsMsg),
}

/// Mathematical model of [`RxAction`].
pub enum ActionModel {
    Nothing,
    Deliver(Seq<u8>),
    SendFlowControl(Seq<u8>),
    ClearToSend(IsotpCtsMsg),
}

impl RxAction {
    pub open spec fn model(&self) -> ActionModel {
        match self {
            RxAction::Nothing => ActionModel::Nothing,
            RxAction::Deliver(b) => ActionModel::Deliver(b.data@),
            RxAction::SendFlowControl(f) => ActionModel::SendFlowControl(f@),
            RxAction::ClearToSend(m) => ActionModel::ClearToSend(*m),
        }
    }
}

/// What a flow control frame that was asked for leads to once it went out.
pub enum PendingFc {
    /// No flow control frame is outstanding.
    Nothing,
    /// A first frame was accepted: reception starts once the frame went out.
    StartRx { stmin: u8, bs: u8, buf: SharedIsoTpBuf, targ_size: usize },
    /// A block ended: the block counter restarts once the frame went out, and
    /// the reception is dropped when it could not be sent.
    BlockEnd,
}

/// Mathematical model of [`PendingFc`].
pub enum PendingModel {
    Nothing,
    StartRx { stmin: u8, bs: u8, buf: Seq<u8>, targ_size: int },
    BlockEnd,
}

impl PendingFc {
    pub open spec fn model(&self) -> PendingModel {
        match self {
            PendingFc::Nothing => PendingModel::Nothing,
            PendingFc::StartRx { stmin, bs, buf, targ_size } => PendingModel::StartRx {
                stmin: *stmin,
                bs: *bs,
                buf: buf.data@,
                targ_size: *targ_size as int,
            },
            PendingFc::BlockEnd => PendingModel::BlockEnd,
        }
    }
}

/// Payload length announced by a first frame: the low nibble of the first
/// byte, then the second byte.
pub open spec fn first_frame_len(d0: u8, d1: u8) -> int {
    (d0 % 16) * 256 + d1
}

/// The model of one received frame: the next state, the action, and the
/// outstanding flow control. Frames that are not 8 bytes long are ignored,
/// and so are first frames that announce fewer bytes than the six they
/// carry. A first frame that announces six or seven bytes is taken; its
/// payload is delivered with the next consecutive frame.
pub open spec fn rx_frame_model(st: RxModel, data: Seq<u8>, ecu_stmin: u8, ecu_bs: u8) -> (RxModel, ActionModel, PendingModel) {
    if data.len() != 8 {
        (st, ActionModel::Nothing, PendingModel::Nothing)
    } else if data[0] <= 0x07 {
        (st, ActionModel::Deliver(data.subrange(1, 1 + data[0] as int)), PendingModel::Nothing)
    } else if 0x10 <= data[0] <= 0x1F && first_frame_len(data[0], data[1]) < 6 {
        (st, ActionModel::Nothing, PendingModel::Nothing)
    } else if 0x10 <= data[0] <= 0x1F {
        (
            st,
            ActionModel::SendFlowControl(seq![0x30u8, ecu_bs, ecu_stmin, 0xCC, 0xCC, 0xCC, 0xCC, 0xCC]),
            PendingModel::StartRx {
                stmin: ecu_stmin,
                bs: ecu_bs,
                buf: data.subrange(2, 8),
                targ_size: first_frame_len(data[0], data[1]),
            },
        )
    } else if 0x20 <= data[0] <= 0x2F {
        match st {
            RxModel::Rx { stmin, bs, buf, rx_count, targ_size } => {
                let count: u8 = if rx_count == 255 {
                    0
                } else {
                    (rx_count + 1) as u8
                };
                let max = if 7 < targ_size - buf.len() { 7 } else { targ_size - buf.len() };
                let nbuf = buf + data.subrange(1, 1 + max);
                if nbuf.len() == targ_size {
                    (RxModel::Idle, ActionModel::Deliver(nbuf), PendingModel::Nothing)
                } else if bs != 0 && count == bs {
                    (
                        RxModel::Rx { stmin, bs, buf: nbuf, rx_count: count, targ_size },
                        ActionModel::SendFlowControl(seq![0x30u8, bs, stmin, 0xCC, 0xCC, 0xCC, 0xCC, 0xCC]),
                        PendingModel::BlockEnd,
                    )
                } else {
                    (
                        RxModel::Rx { stmin, bs, buf: nbuf, rx_count: count, targ_size },
                        ActionModel::Nothing,
                        PendingModel::Nothing,
                    )
                }
            },
            RxModel::Idle => (st, ActionModel::Nothing, PendingModel::Nothing),
        }
    } else if data[0] == 0x30 {
        (st, ActionModel::ClearToSend(IsotpCtsMsg::Proceed { stmin: data[2], bs: data[1] }), PendingModel::Nothing)
    } else if data[0] == 0x31 {
        (st, ActionModel::ClearToSend(IsotpCtsMsg::Wait), PendingModel::Nothing)
    } else if data[0] == 0x32 {
        (st, ActionModel::ClearToSend(IsotpCtsMsg::Reject), PendingModel::Nothing)
    } else {
        (st, ActionModel::Nothing, PendingModel::Nothing)
    }
}

/// A clear-to-send flow control frame carries the block size in byte 1 and
/// the separation time in byte 2: received, the frame [`make_fc_ok`]
/// builds for `(stmin, bs)` becomes `Proceed { stmin, bs }` and leaves the
/// reception state alone; a `0x31` frame asks to wait, a `0x32` frame
/// rejects. So the flow control frame a receiver sends for a
/// first frame tells the sender exactly the receiver's timing.
pub proof fn lemma_flow_control_roundtrip(st: RxModel, stmin: u8, bs: u8, e_stmin: u8, e_bs: u8, ff: Seq<u8>, st2: RxModel)
    ensures
        rx_frame_model(st, seq![0x30u8, bs, stmin, 0xCC, 0xCC, 0xCC, 0xCC, 0xCC], e_stmin, e_bs) == (
            st,
            ActionModel::ClearToSend(IsotpCtsMsg::Proceed { stmin, bs }),
            PendingModel::Nothing,
        ),
        (ff.len() == 8 && 0x10 <= ff[0] <= 0x1F && first_frame_len(ff[0], ff[1]) >= 6) ==> (rx_frame_model(
            st,
            ff,
            stmin,
            bs,
        ).1 matches ActionModel::SendFlowControl(fc) && rx_frame_model(st2, fc, e_stmin, e_bs).1
            == ActionModel::ClearToSend(IsotpCtsMsg::Proceed { stmin, bs })),
        (ff.len() == 8 && ff[0] == 0x31) ==> rx_frame_model(st, ff, e_stmin, e_bs) == (
            st,
            ActionModel::ClearToSend(IsotpCtsMsg::Wait),
            PendingModel::Nothing,
        ),
        (ff.len() == 8 && ff[0] == 0x32) ==> rx_frame_model(st, ff, e_stmin, e_bs) == (
            st,
            ActionModel::ClearToSend(IsotpCtsMsg::Reject),
            PendingModel::Nothing,
        ),
{
    let f = seq![0x30u8, bs, stmin, 0xCC, 0xCC, 0xCC, 0xCC, 0xCC];
    assert(f.len() == 8 && f[0] == 0x30 && f[1] == bs && f[2] == stmin);
}

/// The model of the report on an outstanding flow control frame.
pub open spec fn fc_sent_model(st: RxModel, pending: PendingModel, sent: bool) -> RxModel {
    match pending {
        PendingModel::Nothing => st,
        PendingModel::StartRx { stmin, bs, buf, targ_size } => if sent {
            RxModel::Rx { stmin, bs, buf, rx_count: 0, targ_size }
        } else {
            st
        },
        PendingModel::BlockEnd => if sent {
            match st {
                RxModel::Rx { stmin, bs, buf, rx_count, targ_size } => RxModel::Rx {
                    stmin,
                    bs,
                    buf,
                    rx_count: 0,
                    targ_size,
                },
                RxModel::Idle => RxModel::Idle,
            }
        } else {
            RxModel::Idle
        },
    }
}

fn copy_range(dst: &mut Vec<u8>, src: &[u8], from: usize, to: usize)
    requires
        from <= to <= src@.len(),
    ensures
        final(dst)@ == old(dst)@ + src@.subrange(from as int, to as int),
{
    let mut i = from;
    while i < to
        invariant
            from <= i <= to <= src@.len(),
            dst@ == old(dst)@ + src@.subrange(from as int, i as int),
        decreases to - i,
    {
        dst.push(src[i]);
        i = i + 1;
        assert(dst@ =~= old(dst)@ + src@.subrange(from as int, i as int));
    }
}

/// Receiving side of an ISO-TP endpoint, driven by the CAN interrupt.
pub struct IsoTpInterruptHandler {
    rx_state: IsoTpMode,
    pending: PendingFc,
}

impl IsoTpInterruptHandler {
    /// A reception in progress, and one about to start, holds at most the
    /// announced length.
    #[verifier::type_invariant]
    spec fn inv(self) -> bool {
        &&& match self.rx_state {
            IsoTpMode::Rx { buf, targ_size, .. } => buf.data@.len() <= targ_size,
            IsoTpMode::Idle => true,
        }
        &&& match self.pending {
            PendingFc::StartRx { buf, targ_size, .. } => buf.data@.len() <= targ_size,
            _ => true,
        }
    }

    /// The reception state.
    pub closed spec fn state_model(&self) -> RxModel {
        self.rx_state.model()
    }

    /// Whether a multi-frame reception is in progress.
    pub fn is_receiving(&self) -> (r: bool)
        ensures
            r == (self.state_model() is Rx),
    {
        match &self.rx_state {
            IsoTpMode::Rx { .. } => true,
            IsoTpMode::Idle => false,
        }
    }

    /// The outstanding flow control frame.
    pub closed spec fn pending_model(&self) -> PendingModel {
        self.pending.model()
    }

    /// A handler with no reception in progress.
    pub fn new() -> (r: Self)
        ensures
            r.state_model() == RxModel::Idle,
            r.pending_model() == PendingModel::Nothing,
    {
        IsoTpInterruptHandler { rx_state: IsoTpMode::Idle, pending: PendingFc::Nothing }
    }

    /// Called for each received frame; `ecu_stmin` and `ecu_bs` are the
    /// timing parameters to announce in flow control frames.
    pub fn on_frame_rx(&mut self, data: &[u8], ecu_stmin: u8, ecu_bs: u8) -> (r: RxAction)
        ensures
            ({
                let (st, act, pend) = rx_frame_model(old(self).state_model(), data@, ecu_stmin, ecu_bs);
                &&& final(self).state_model() == st
                &&& r.model() == act
                &&& final(self).pending_model() == pend
            }),
    {
        proof {
            use_type_invariant(&*self);
        }
        self.pending = PendingFc::Nothing;
        if data.len() != 8 {
            return RxAction::Nothing;
        }
        let d0 = data[0];
        if d0 <= 0x07 {
            let size = d0 as usize;
            let mut tmp = SharedIsoTpBuf::new();
            copy_range(&mut tmp.data, data, 1, 1 + size);
            RxAction::Deliver(tmp)
        } else if 0x10 <= d0 && d0 <= 0x1F {
            let size = (((d0 & 0x0F) as u16) << 8 | (data[1] as u16)) as usize;
            proof {
                let b0 = data@[0];
                let b1 = data@[1];
                assert((((b0 & 0x0F) as u16) << 8u16 | (b1 as u16)) == (b0 % 16) as u16 * 256 + b1 as u16) by (bit_vector);
            }
            if size < 6 {
                return RxAction::Nothing;
            }
            let mut shared_buffer = SharedIsoTpBuf::new();
            copy_range(&mut shared_buffer.data, data, 2, 8);
            self.pending = PendingFc::StartRx {
                stmin: ecu_stmin,
                bs: ecu_bs,
                buf: shared_buffer,
                targ_size: size,
            };
            RxAction::SendFlowControl(make_fc_ok(ecu_stmin, ecu_bs))
        } else if 0x20 <= d0 && d0 <= 0x2F {
            let mut st = IsoTpMode::Idle;
            std::mem::swap(&mut st, &mut self.rx_state);
            match st {
                IsoTpMode::Rx { stmin, bs, mut buf, rx_count, targ_size } => {
                    let count: u8 = if rx_count == 255 {
                        0
                    } else {
                        rx_count + 1
                    };
                    let left = targ_size - buf.data.len();
                    let max = if 7 < left { 7 } else { left };
                    copy_range(&mut buf.data, data, 1, 1 + max);
                    if buf.data.len() == targ_size {
                        RxAction::Deliver(buf)
                    } else if bs != 0 && count == bs {
                        self.rx_state = IsoTpMode::Rx { stmin, bs, buf, rx_count: count, targ_size };
                        self.pending = PendingFc::BlockEnd;
                        RxAction::SendFlowControl(make_fc_ok(stmin, bs))
                    } else {
                        self.rx_state = IsoTpMode::Rx { stmin, bs, buf, rx_count: count, targ_size };
                        RxAction::Nothing
                    }
                },
                IsoTpMode::Idle => RxAction::Nothing,
            }
        } else if d0 == 0x30 {
            RxAction::ClearToSend(IsotpCtsMsg::Proceed { stmin: data[2], bs: data[1] })
        } else if d0 == 0x31 {
            RxAction::ClearToSend(IsotpCtsMsg::Wait)
        } else if d0 == 0x32 {
            RxAction::ClearToSend(IsotpCtsMsg::Reject)
        } else {
            RxAction::Nothing
        }
    }

    /// Reports whether the flow control frame asked for by the last
    /// [`Self::on_frame_rx`] went out.
    pub fn on_flow_control_sent(&mut self, sent: bool)
        ensures
            final(self).state_model() == fc_sent_model(old(self).state_model(), old(self).pending_model(), sent),
            final(self).pending_model() == PendingModel::Nothing,
    {
        proof {
            use_type_invariant(&*self);
        }
        let mut pending = PendingFc::Nothing;
        std::mem::swap(&mut pending, &mut self.pending);
        match pending {
            PendingFc::Nothing => {},
            PendingFc::StartRx { stmin, bs, buf, targ_size } => {
                if sent {
                    self.rx_state = IsoTpMode::Rx { stmin, bs, buf, rx_count: 0, targ_size };
                }
            },
            PendingFc::BlockEnd => {
                if sent {
                    let mut st = IsoTpMode::Idle;
                    std::mem::swap(&mut st, &mut self.rx_state);
                    match st {
                        IsoTpMode::Rx { stmin, bs, buf, rx_count, targ_size } => {
                            self.rx_state = IsoTpMode::Rx { stmin, bs, buf, rx_count: 0, targ_size };
                        },
                        IsoTpMode::Idle => {},
                    }
                } else {
                    self.rx_state = IsoTpMode::Idle;
                }
            },
        }
    }
}

/// The single frame carrying a payload shorter than 8 bytes: its length,
/// then the payload, padded with zeros.
pub open spec fn single_frame_spec(buf: Seq<u8>) -> Seq<u8> {
    seq![buf.len() as u8] + buf + Seq::new((7 - buf.len()) as nat, |i: int| 0u8)
}

/// The first frame of a longer payload: `0x1`, the 12 low bits of the
/// length, then the first 6 payload bytes.
pub open spec fn first_frame_spec(buf: Seq<u8>) -> Seq<u8> {
    seq![(0x10 + (buf.len() / 256) % 16) as u8, (buf.len() % 256) as u8] + buf.subrange(0, 6)
}

/// Builds the single frame for a payload shorter than 8 bytes.
pub fn single_frame(buf: &[u8]) -> (r: [u8; 8])
    requires
        buf@.len() < 8,
    ensures
        r@ == single_frame_spec(buf@),
{
    let mut tx_buf = [0u8; 8];
    tx_buf[0] = buf.len() as u8;
    let mut i: usize = 0;
    while i < buf.len()
        invariant
            buf@.len() < 8,
            i <= buf@.len(),
            tx_buf@.len() == 8,
            tx_buf@[0] == buf@.len() as u8,
            forall|k: int| 1 <= k < 1 + i ==> tx_buf@[k] == buf@[k - 1],
            forall|k: int| 1 + i <= k < 8 ==> tx_buf@[k] == 0,
        decreases buf@.len() - i,
    {
        tx_buf[1 + i] = buf[i];
        i = i + 1;
    }
    assert(tx_buf@ =~= single_frame_spec(buf@));
    tx_buf
}

/// Builds the first frame for a payload of 8 bytes or more.
pub fn first_frame(buf: &[u8]) -> (r: [u8; 8])
    requires
        buf@.len() >= 8,
    ensures
        r@ == first_frame_spec(buf@),
{
    let len = buf.len();
    let mut tx_buf = [0u8; 8];
    tx_buf[0] = 0x10u8 | ((len >> 8) & 0x0F) as u8;
    tx_buf[1] = (len & 0xFF) as u8;
    proof {
        assert(0x10u8 | ((len >> 8usize) & 0x0Fusize) as u8 == (0x10 + (len / 256) % 16) as u8) by (bit_vector);
        assert((len & 0xFFusize) as u8 == (len % 256) as u8) by (bit_vector);
    }
    let mut i: usize = 0;
    while i < 6
        invariant
            len == buf@.len(),
            len >= 8,
            i <= 6,
            tx_buf@.len() == 8,
            tx_buf@[0] == (0x10 + (len / 256) % 16) as u8,
            tx_buf@[1] == (len % 256) as u8,
            forall|k: int| 2 <= k < 2 + i ==> tx_buf@[k] == buf@[k - 2],
        decreases 6 - i,
    {
        tx_buf[2 + i] = buf[i];
        i = i + 1;
    }
    assert(tx_buf@ =~= first_frame_spec(buf@));
    tx_buf
}

/// Delay between consecutive frames for a separation time, in
/// microseconds: 0 gives 100 us, 1 to 0x7F count milliseconds, 0xF1 to
/// 0xF9 count 100 us steps above 0xF0, other values give 100 us.
pub open spec fn stmin_micros_spec(stmin: u8) -> u32 {
    if stmin == 0 {
        100
    } else if stmin <= 0x7F {
        (stmin as u32 * 1000) as u32
    } else if 0xF1 <= stmin <= 0xF9 {
        (100 * (stmin - 0xF0)) as u32
    } else {
        100
    }
}

/// The delay between consecutive frames that a separation time asks for,
/// in microseconds.
pub fn stmin_to_micros(stmin: u8) -> (r: u32)
    ensures
        r == stmin_micros_spec(stmin),
{
    if stmin == 0 {
        100
    } else if stmin <= 0x7F {
        stmin as u32 * 1000
    } else if 0xF1 <= stmin && stmin <= 0xF9 {
        100 * (stmin - 0xF0) as u32
    } else {
        100
    }
}

/// Model of a transmission in progress: the next payload position, the
/// next sequence byte and the last frame built (a consecutive frame only
/// overwrites the bytes it carries).
pub struct TxModel {
    pub pos: int,
    pub pci: u8,
    pub frame: Seq<u8>,
}

/// The sequence byte that follows `pci`: `0x20` with a 4 bit counter.
pub open spec fn next_pci_spec(pci: u8) -> u8 {
    (0x20 + (pci + 1) % 16) as u8
}

/// The number of payload bytes in the consecutive frame at `pos`.
pub open spec fn cf_len(len: int, pos: int) -> int {
    if 7 < len - pos { 7 } else { len - pos }
}

/// One consecutive frame and the state after it.
pub open spec fn cf_step(buf: Seq<u8>, st: TxModel) -> (Seq<u8>, TxModel) {
    let m = cf_len(buf.len() as int, st.pos);
    let frame = Seq::new(
        8,
        |k: int|
            if k == 0 {
                st.pci
            } else if 1 <= k < 1 + m {
                buf[st.pos + k - 1]
            } else {
                st.frame[k]
            },
    );
    let npos = st.pos + m;
    let npci = if npos == buf.len() { st.pci } else { next_pci_spec(st.pci) };
    (frame, TxModel { pos: npos, pci: npci, frame })
}

/// The consecutive frames of one block: up to `left` frames when the block
/// size `bs` is not zero, and until the end of the payload in any case.
pub open spec fn block_spec(buf: Seq<u8>, st: TxModel, bs: u8, left: int) -> (Seq<Seq<u8>>, TxModel)
    decreases buf.len() - st.pos,
{
    if st.pos >= buf.len() || st.pos < 0 || (bs != 0 && left <= 0) {
        (Seq::empty(), st)
    } else {
        let (f, st2) = cf_step(buf, st);
        if st2.pos <= st.pos {
            (seq![f], st2)
        } else {
            let (rest, st3) = block_spec(buf, st2, bs, left - 1);
            (seq![f] + rest, st3)
        }
    }
}

proof fn lemma_block_any_count(buf: Seq<u8>, st: TxModel, l1: int, l2: int)
    ensures
        block_spec(buf, st, 0, l1) == block_spec(buf, st, 0, l2),
    decreases buf.len() - st.pos,
{
    if !(st.pos >= buf.len() || st.pos < 0) {
        let (f, st2) = cf_step(buf, st);
        if st2.pos > st.pos {
            lemma_block_any_count(buf, st2, l1 - 1, l2 - 1);
        }
    }
}

/// Why the transmission of a payload failed.
#[derive(Clone, Copy, PartialEq, Eq, Structural)]
pub enum IsoTpTxErr {
    /// The receiver rejected the transfer.
    Rejected,
    /// No flow control message came in time.
    Timeout,
}

/// What the transmitter does with a flow control message, or with the
/// timeout that came in place of one.
pub enum TxFlowAction {
    /// Keep waiting for the next flow control message.
    Wait,
    /// Send `frames`, pausing `delay_us` microseconds after each one but
    /// the last frame of the payload; `complete` tells whether the payload
    /// is then sent whole (else the next flow control message is awaited).
    SendBlock { frames: Vec<[u8; 8]>, delay_us: u32, complete: bool },
    /// Send `reply` when there is one, then give up with `error`.
    Fail { reply: Option<[u8; 8]>, error: IsoTpTxErr },
}

/// A payload of 8 bytes or more being sent: the state after its first
/// frame and the consecutive frames sent so far.
pub struct IsoTpTxSession {
    pos: usize,
    pci: u8,
    frame: [u8; 8],
}

impl IsoTpTxSession {
    /// The model of the transmission.
    pub closed spec fn model(&self) -> TxModel {
        TxModel { pos: self.pos as int, pci: self.pci, frame: self.frame@ }
    }

    /// Whether the session state is one a transmission can be in.
    pub closed spec fn wf(&self) -> bool {
        &&& 0x20 <= self.pci <= 0x2F
        &&& self.frame@.len() == 8
    }

    /// Starts sending `buf`; the first frame to transmit is returned beside
    /// the session.
    pub fn start(buf: &[u8]) -> (r: (Self, [u8; 8]))
        requires
            buf@.len() >= 8,
        ensures
            r.0.wf(),
            r.0.model() == (TxModel { pos: 6, pci: 0x21, frame: first_frame_spec(buf@) }),
            r.1@ == first_frame_spec(buf@),
    {
        let f = first_frame(buf);
        (IsoTpTxSession { pos: 6, pci: 0x21, frame: f }, f)
    }

    /// Whether the whole of `buf` has been sent.
    pub fn is_complete(&self, buf: &[u8]) -> (r: bool)
        ensures
            r == (self.model().pos >= buf@.len()),
    {
        self.pos >= buf.len()
    }

    /// The next consecutive frame.
    pub fn next_frame(&mut self, buf: &[u8]) -> (r: [u8; 8])
        requires
            old(self).wf(),
            old(self).model().pos < buf@.len(),
        ensures
            final(self).wf(),
            (r@, final(self).model()) == cf_step(buf@, old(self).model()),
    {
        let blen = buf.len();
        let left = blen - self.pos;
        let max_copy = if 7 < left { 7 } else { left };
        self.frame[0] = self.pci;
        let start = self.pos;
        let mut i: usize = 0;
        while i < max_copy
            invariant
                max_copy == cf_len(buf@.len() as int, old(self).pos as int),
                self.pos == old(self).pos,
                start == self.pos,
                start + max_copy <= blen,
                blen == buf@.len(),
                i <= max_copy <= 7,
                self.frame@.len() == 8,
                self.frame@[0] == old(self).pci,
                self.pci == old(self).pci,
                0x20 <= self.pci <= 0x2F,
                forall|k: int| 1 <= k < 1 + i ==> self.frame@[k] == buf@[self.pos + k - 1],
                forall|k: int| 1 + i <= k < 8 ==> self.frame@[k] == old(self).frame@[k],
            decreases max_copy - i,
        {
            let b = buf[start + i];
            self.frame[1 + i] = b;
            i = i + 1;
        }
        self.pos = self.pos + max_copy;
        if self.pos != buf.len() {
            self.pci = 0x20 | (self.pci + 1) & 0x0F;
            proof {
                let p = old(self).pci;
                assert(0x20u8 | ((p + 1) as u8 & 0x0Fu8) == (0x20 + (p + 1) % 16) as u8) by (bit_vector)
                    requires
                        0x20 <= p <= 0x2F,
                ;
                assert(0x20 <= (0x20 + (p + 1) % 16) as u8 <= 0x2F) by (bit_vector)
                    requires
                        0x20 <= p <= 0x2F,
                ;
            }
        }
        assert(self.frame@ =~= cf_step(buf@, old(self).model()).0);
        self.frame
    }

    /// The consecutive frames of the next block after a clear to send with
    /// block size `bs` (0: the rest of the payload).
    pub fn next_block(&mut self, buf: &[u8], bs: u8) -> (r: Vec<[u8; 8]>)
        requires
            old(self).wf(),
        ensures
            final(self).wf(),
            r@.map_values(|f: [u8; 8]| f@) == block_spec(buf@, old(self).model(), bs, bs as int).0,
            final(self).model() == block_spec(buf@, old(self).model(), bs, bs as int).1,
    {
        let mut frames: Vec<[u8; 8]> = Vec::new();
        let mut bs_count = bs;
        let ghost total = block_spec(buf@, self.model(), bs, bs as int);
        while self.pos < buf.len() && (bs == 0 || bs_count != 0)
            invariant
                self.wf(),
                0 <= self.pos,
                total == block_spec(buf@, old(self).model(), bs, bs as int),
                frames@.map_values(|f: [u8; 8]| f@) + block_spec(buf@, self.model(), bs, bs_count as int).0 == total.0,
                block_spec(buf@, self.model(), bs, bs_count as int).1 == total.1,
            decreases buf@.len() - self.pos,
        {
            let ghost before = self.model();
            let ghost left = bs_count as int;
            let ghost frames_before = frames@.map_values(|f: [u8; 8]| f@);
            let f = self.next_frame(buf);
            frames.push(f);
            assert(frames@.map_values(|f: [u8; 8]| f@) =~= frames_before.push(f@));
            bs_count = bs_count.wrapping_sub(1);
            proof {
                assert(block_spec(buf@, before, bs, left).0 == seq![f@] + block_spec(buf@, self.model(), bs, left - 1).0);
                if bs == 0 {
                    lemma_block_any_count(buf@, self.model(), left - 1, bs_count as int);
                }
                assert(frames_before.push(f@) + block_spec(buf@, self.model(), bs, bs_count as int).0 =~= frames_before + (seq![f@] + block_spec(buf@, self.model(), bs, bs_count as int).0));
            }
        }
        frames
    }

    /// Decides what to do on a flow control message (`None`: none came in
    /// time). A timeout gives up; a wait keeps waiting; a reject answers
    /// with the reject frame and gives up; a clear to send sends the next
    /// block with the separation time it asks for.
    pub fn on_flow_control(&mut self, buf: &[u8], msg: Option<IsotpCtsMsg>) -> (r: TxFlowAction)
        requires
            old(self).wf(),
        ensures
            final(self).wf(),
            match msg {
                None => *final(self) == *old(self) && r matches TxFlowAction::Fail { reply: None, error: IsoTpTxErr::Timeout },
                Some(IsotpCtsMsg::Wait) => *final(self) == *old(self) && r is Wait,
                Some(IsotpCtsMsg::Reject) => *final(self) == *old(self) && (r matches TxFlowAction::Fail {
                    reply: Some(f),
                    error: IsoTpTxErr::Rejected,
                } && f@ == seq![0x32u8, 0xCC, 0xCC, 0xCC, 0xCC, 0xCC, 0xCC, 0xCC]),
                Some(IsotpCtsMsg::Proceed { stmin, bs }) => {
                    let (fs, st) = block_spec(buf@, old(self).model(), bs, bs as int);
                    &&& final(self).model() == st
                    &&& r matches TxFlowAction::SendBlock { frames, delay_us, complete }
                    &&& frames@.map_values(|f: [u8; 8]| f@) == fs
                    &&& delay_us == stmin_micros_spec(stmin)
                    &&& complete == (st.pos >= buf@.len())
                },
            },
    {
        match msg {
            None => TxFlowAction::Fail { reply: None, error: IsoTpTxErr::Timeout },
            Some(IsotpCtsMsg::Wait) => TxFlowAction::Wait,
            Some(IsotpCtsMsg::Reject) => TxFlowAction::Fail { reply: Some(make_fc_reject()), error: IsoTpTxErr::Rejected },
            Some(IsotpCtsMsg::Proceed { stmin, bs }) => {
                let delay_us = stmin_to_micros(stmin);
                let frames = self.next_block(buf, bs);
                let complete = self.is_complete(buf);
                TxFlowAction::SendBlock { frames, delay_us, complete }
            },
        }
    }
}

/// The payloads that a receiver delivers when fed `frames` one after the
/// other, each flow control frame it asks for going out, with the state it
/// ends in.
pub open spec fn rx_feed(st: RxModel, frames: Seq<Seq<u8>>, stmin: u8, bs: u8) -> (RxModel, Seq<Seq<u8>>)
    decreases frames.len(),
{
    if frames.len() == 0 {
        (st, Seq::empty())
    } else {
        let (st1, act, pend) = rx_frame_model(st, frames[0], stmin, bs);
        let st2 = fc_sent_model(st1, pend, true);
        let out = match act {
            ActionModel::Deliver(p) => seq![p],
            _ => Seq::empty(),
        };
        let (st3, rest) = rx_feed(st2, frames.drop_first(), stmin, bs);
        (st3, out + rest)
    }
}

/// All frames of a payload of 8 bytes or more, when the receiver lets the
/// whole rest follow the first frame.
pub open spec fn tx_all_frames(buf: Seq<u8>) -> Seq<Seq<u8>> {
    let ff = first_frame_spec(buf);
    seq![ff] + block_spec(buf, TxModel { pos: 6, pci: 0x21, frame: ff }, 0, 0).0
}

proof fn lemma_roundtrip_cfs(p: Seq<u8>, st: TxModel, stmin: u8, bs: u8, rst: u8, rbs: u8, c: u8)
    requires
        8 <= p.len() <= 4095,
        6 <= st.pos < p.len(),
        0x20 <= st.pci <= 0x2F,
        st.frame.len() == 8,
        rbs != 0,
        c < rbs,
    ensures
        ({
            let rx = RxModel::Rx { stmin: rst, bs: rbs, buf: p.subrange(0, st.pos), rx_count: c, targ_size: p.len() as int };
            let frames = block_spec(p, st, 0, 0).0;
            rx_feed(rx, frames, stmin, bs) == (RxModel::Idle, seq![p])
        }),
    decreases p.len() - st.pos,
{
    let rx = RxModel::Rx { stmin: rst, bs: rbs, buf: p.subrange(0, st.pos), rx_count: c, targ_size: p.len() as int };
    let (f, st2) = cf_step(p, st);
    let m = cf_len(p.len() as int, st.pos);
    lemma_block_any_count(p, st2, -1, 0);
    let frames = block_spec(p, st, 0, 0).0;
    assert(frames == seq![f] + block_spec(p, st2, 0, 0).0);
    assert(frames[0] == f);
    assert(frames.drop_first() =~= block_spec(p, st2, 0, 0).0);
    assert(f.len() == 8);
    assert(0x20 <= f[0] <= 0x2F);
    let nbuf = p.subrange(0, st.pos) + f.subrange(1, 1 + m);
    assert(nbuf =~= p.subrange(0, st.pos + m));
    let tail = frames.drop_first();
    if st2.pos == p.len() {
        assert(nbuf =~= p);
        assert(block_spec(p, st2, 0, 0).0 =~= Seq::<Seq<u8>>::empty());
        assert(rx_frame_model(rx, f, stmin, bs) == (RxModel::Idle, ActionModel::Deliver(p), PendingModel::Nothing));
        assert(rx_feed(RxModel::Idle, tail, stmin, bs) == (RxModel::Idle, Seq::<Seq<u8>>::empty()));
        assert(seq![p] + Seq::<Seq<u8>>::empty() =~= seq![p]);
        assert(rx_feed(rx, frames, stmin, bs) == (RxModel::Idle, seq![p] + Seq::<Seq<u8>>::empty()));
    } else {
        assert(0x20 <= next_pci_spec(st.pci) <= 0x2F);
        let count = (c + 1) as u8;
        let rx2 = RxModel::Rx { stmin: rst, bs: rbs, buf: nbuf, rx_count: count, targ_size: p.len() as int };
        if count == rbs {
            assert(rx_frame_model(rx, f, stmin, bs) == (
                rx2,
                ActionModel::SendFlowControl(seq![0x30u8, rbs, rst, 0xCC, 0xCC, 0xCC, 0xCC, 0xCC]),
                PendingModel::BlockEnd,
            ));
            lemma_roundtrip_cfs(p, st2, stmin, bs, rst, rbs, 0);
            let rx3 = RxModel::Rx { stmin: rst, bs: rbs, buf: nbuf, rx_count: 0, targ_size: p.len() as int };
            assert(fc_sent_model(rx2, PendingModel::BlockEnd, true) == rx3);
            assert(rx_feed(rx3, tail, stmin, bs) == (RxModel::Idle, seq![p]));
            assert(rx_feed(rx, frames, stmin, bs) == (RxModel::Idle, Seq::<Seq<u8>>::empty() + seq![p]));
        } else {
            assert(rx_frame_model(rx, f, stmin, bs) == (rx2, ActionModel::Nothing, PendingModel::Nothing));
            lemma_roundtrip_cfs(p, st2, stmin, bs, rst, rbs, count);
            assert(rx_feed(rx2, tail, stmin, bs) == (RxModel::Idle, seq![p]));
            assert(rx_feed(rx, frames, stmin, bs) == (RxModel::Idle, Seq::<Seq<u8>>::empty() + seq![p]));
        }
        assert(Seq::<Seq<u8>>::empty() + seq![p] =~= seq![p]);
    }
}

/// A payload of 8 to 4095 bytes, cut into frames by the sending side
/// and fed to an idle receiving side that uses a block size other than 0 and
/// whose flow control frames all go out, is delivered exactly once and
/// unchanged, and the receiver ends idle.
pub proof fn lemma_isotp_roundtrip(p: Seq<u8>, stmin: u8, bs: u8)
    requires
        8 <= p.len() <= 4095,
        bs != 0,
    ensures
        rx_feed(RxModel::Idle, tx_all_frames(p), stmin, bs) == (RxModel::Idle, seq![p]),
{
    let ff = first_frame_spec(p);
    let st0 = TxModel { pos: 6, pci: 0x21, frame: ff };
    let frames = tx_all_frames(p);
    assert(frames[0] == ff);
    assert(frames.drop_first() =~= block_spec(p, st0, 0, 0).0);
    let len = p.len();
    assert(first_frame_len(ff[0], ff[1]) == len) by {
        assert(ff[0] == (0x10 + (len / 256) % 16) as u8);
        assert(ff[1] == (len % 256) as u8);
        assert(((0x10 + (len / 256) % 16) as u8) % 16 == (len / 256) % 16);
        assert((len / 256) % 16 == len / 256);
    }
    assert(ff.subrange(2, 8) =~= p.subrange(0, 6));
    lemma_roundtrip_cfs(p, st0, stmin, bs, stmin, bs, 0);
    assert(Seq::<Seq<u8>>::empty() + seq![p] =~= seq![p]);
}

/// A payload shorter than 8 bytes travels in one single frame, which a
/// receiver delivers unchanged in whatever state it is.
pub proof fn lemma_isotp_single_frame(p: Seq<u8>, st: RxModel, stmin: u8, bs: u8)
    requires
        p.len() < 8,
    ensures
        rx_frame_model(st, single_frame_spec(p), stmin, bs) == (st, ActionModel::Deliver(p), PendingModel::Nothing),
{
    let f = single_frame_spec(p);
    assert(f[0] == p.len() as u8);
    assert(f.subrange(1, 1 + p.len() as int) =~= p);
}

} // verus!
