//! Framing of the USB serial link between the controller and the host tool:
//! every packet is a 16 bit little endian length followed by that many
//! bytes. Towards the host the first body byte tells ISO-TP payloads
//! (`0xFF`) from log chunks (`0xFE`); towards the controller the body is the
//! ISO-TP payload itself.
use vstd::prelude::*;
use crate::isotp::{SharedIsoTpBuf, ISOTP_BUF_SIZE};

verus! {

/// Packet type byte of an ISO-TP payload sent to the host.
pub const USB_PACKET_TY_ISOTP: u8 = 0xFF;
/// Packet type byte of a log chunk sent to the host.
pub const USB_PACKET_TY_DEFMT: u8 = 0xFE;

/// The little endian bytes of a 16 bit number.
pub open spec fn le16(v: nat) -> Seq<u8> {
    seq![(v % 256) as u8, ((v / 256) % 256) as u8]
}

/// The number that two little endian bytes encode.
pub open spec fn from_le16(b0: u8, b1: u8) -> int {
    b0 + b1 * 256
}

fn le16_bytes(v: u16) -> (r: [u8; 2])
    ensures
        r@ == le16(v as nat),
{
    let r = [(v & 0xFF) as u8, ((v >> 8) & 0xFF) as u8];
    proof {
        assert((v & 0xFFu16) as u8 == (v % 256) as u8) by (bit_vector);
        assert(((v >> 8u16) & 0xFFu16) as u8 == ((v / 256) % 256) as u8) by (bit_vector);
        assert(r@ =~= le16(v as nat));
    }
    r
}

/// The packet the controller sends to the host for a payload of `ty`:
/// the length of type byte plus payload, the type byte, the payload.
pub open spec fn device_packet_spec(ty: u8, payload: Seq<u8>) -> Seq<u8> {
    le16(payload.len() + 1) + seq![ty] + payload
}

fn device_packet(ty: u8, buffer: &[u8]) -> (r: Vec<u8>)
    requires
        buffer@.len() < 0xFFFF,
    ensures
        r@ == device_packet_spec(ty, buffer@),
{
    let size = le16_bytes(buffer.len() as u16 + 1);
    let mut out: Vec<u8> = Vec::new();
    out.push(size[0]);
    out.push(size[1]);
    out.push(ty);
    let blen = buffer.len();
    let mut i: usize = 0;
    while i < blen
        invariant
            blen == buffer@.len(),
            i <= blen,
            out@ == le16(buffer@.len() + 1) + seq![ty] + buffer@.subrange(0, i as int),
        decreases blen - i,
    {
        out.push(buffer[i]);
        i = i + 1;
        assert(out@ =~= le16(buffer@.len() + 1) + seq![ty] + buffer@.subrange(0, i as int));
    }
    assert(buffer@.subrange(0, blen as int) =~= buffer@);
    out
}

/// Frames an ISO-TP payload for the host; payloads longer than the receive
/// buffer are refused.
pub fn usb_isotp_packet(buffer: &[u8]) -> (r: Result<Vec<u8>, ()>)
    ensures
        buffer@.len() > ISOTP_BUF_SIZE <==> r is Err,
        r matches Ok(v) ==> v@ == device_packet_spec(USB_PACKET_TY_ISOTP, buffer@),
{
    if buffer.len() > ISOTP_BUF_SIZE {
        return Err(());
    }
    Ok(device_packet(USB_PACKET_TY_ISOTP, buffer))
}

/// Frames a log chunk (its sequence byte first) for the host.
pub fn usb_defmt_packet(buffer: &[u8]) -> (r: Vec<u8>)
    requires
        buffer@.len() < 0xFFFF,
    ensures
        r@ == device_packet_spec(USB_PACKET_TY_DEFMT, buffer@),
{
    device_packet(USB_PACKET_TY_DEFMT, buffer)
}

/// The payload length announced by the header of a packet from the host:
/// the 12 low bits of the little endian length, accepted when it is not
/// zero and fits the receive buffer.
pub open spec fn usb_header_spec(b0: u8, b1: u8) -> Option<int> {
    let size = from_le16(b0, b1) % 4096;
    if size != 0 && size <= ISOTP_BUF_SIZE {
        Some(size)
    } else {
        None
    }
}

/// Decodes the header of a packet from the host.
pub fn usb_isotp_header(tmp: [u8; 2]) -> (r: Option<usize>)
    ensures
        r matches Some(n) ==> usb_header_spec(tmp@[0], tmp@[1]) == Some(n as int),
        r is None ==> usb_header_spec(tmp@[0], tmp@[1]) is None,
{
    let size = ((tmp[0] as u16) | ((tmp[1] as u16) << 8)) & 0xFFF;
    proof {
        let b0 = tmp@[0];
        let b1 = tmp@[1];
        assert(((b0 as u16) | ((b1 as u16) << 8u16)) & 0xFFFu16 == ((b0 as u16) + (b1 as u16) * 256) % 4096) by (bit_vector);
    }
    if size != 0 && size as usize <= ISOTP_BUF_SIZE {
        Some(size as usize)
    } else {
        None
    }
}

/// Receiving side of the USB ISO-TP endpoint in the controller: a header
/// announces the length, then the payload arrives in chunks.
pub struct UsbIsoTpInterruptHandler {
    reading: Option<(SharedIsoTpBuf, usize)>,
}

impl UsbIsoTpInterruptHandler {
    /// The payload received so far and its announced length, when a payload
    /// is being read.
    pub closed spec fn reading_model(&self) -> Option<(Seq<u8>, int)> {
        match &self.reading {
            Some((b, n)) => Some((b.data@, *n as int)),
            None => None,
        }
    }

    /// A handler that waits for a header.
    pub fn new() -> (r: Self)
        ensures
            r.reading_model() is None,
    {
        UsbIsoTpInterruptHandler { reading: None }
    }

    /// Whether a header is expected next.
    pub fn wants_header(&self) -> (r: bool)
        ensures
            r == (self.reading_model() is None),
    {
        self.reading.is_none()
    }

    /// How many payload bytes are still missing.
    pub fn missing(&self) -> (r: usize)
        requires
            self.wf(),
        ensures
            self.reading_model() matches Some((b, n)) ==> r == n - b.len(),
            self.reading_model() is None ==> r == 0,
    {
        match &self.reading {
            Some((b, n)) => {
                *n - b.data.len()
            },
            None => 0,
        }
    }

    /// Whether the state is one the handler can be in.
    pub closed spec fn wf(&self) -> bool {
        self.reading_model() matches Some((b, n)) ==> b.len() < n <= ISOTP_BUF_SIZE
    }

    /// Handles a header that was read while none was being waited on: an
    /// accepted length starts a payload.
    pub fn on_header(&mut self, tmp: [u8; 2])
        requires
            old(self).reading_model() is None,
        ensures
            final(self).wf(),
            final(self).reading_model() == (match usb_header_spec(tmp@[0], tmp@[1]) {
                Some(n) => Some((Seq::<u8>::empty(), n)),
                None => None,
            }),
    {
        if let Some(size) = usb_isotp_header(tmp) {
            self.reading = Some((SharedIsoTpBuf::new(), size));
        }
    }

    /// Handles payload bytes; the complete payload is returned once the
    /// announced length is reached.
    pub fn on_data(&mut self, chunk: &[u8]) -> (r: Option<SharedIsoTpBuf>)
        requires
            old(self).wf(),
            old(self).reading_model() matches Some((b, n)) ==> chunk@.len() <= n - b.len(),
        ensures
            final(self).wf(),
            match old(self).reading_model() {
                Some((b, n)) => if b.len() + chunk@.len() == n {
                    &&& r matches Some(p) && p.data@ == b + chunk@
                    &&& final(self).reading_model() is None
                } else {
                    &&& r is None
                    &&& final(self).reading_model() == Some((b + chunk@, n))
                },
                None => r is None && final(self).reading_model() is None,
            },
    {
        let mut cur = None;
        std::mem::swap(&mut cur, &mut self.reading);
        match cur {
            Some((mut buffer, expected_size)) => {
                let clen = chunk.len();
                let mut i: usize = 0;
                let ghost start = buffer.data@;
                while i < clen
                    invariant
                        clen == chunk@.len(),
                        i <= clen,
                        buffer.data@ == start + chunk@.subrange(0, i as int),
                    decreases clen - i,
                {
                    buffer.data.push(chunk[i]);
                    i = i + 1;
                    assert(buffer.data@ =~= start + chunk@.subrange(0, i as int));
                }
                assert(chunk@.subrange(0, clen as int) =~= chunk@);
                if buffer.data.len() == expected_size {
                    Some(buffer)
                } else {
                    self.reading = Some((buffer, expected_size));
                    None
                }
            },
            None => None,
        }
    }
}

/// What a packet received by the host carries.
pub enum HostUsbPacket {
    /// An ISO-TP response.
    IsoTp(Vec<u8>),
    /// A log chunk; `last` when it ends a log frame.
    Defmt { data: Vec<u8>, last: bool },
    /// An unknown packet type.
    Unknown,
}

/// The packet bodies the host can classify without a fault: not empty, and
/// log chunks at least 2 bytes long.
pub open spec fn host_packet_ok(body: Seq<u8>) -> bool {
    body.len() >= 1 && (body[0] == USB_PACKET_TY_DEFMT ==> body.len() >= 2)
}

fn copy_tail(src: &[u8], from: usize) -> (r: Vec<u8>)
    requires
        from <= src@.len(),
    ensures
        r@ == src@.subrange(from as int, src@.len() as int),
{
    let slen = src.len();
    let mut out: Vec<u8> = Vec::new();
    let mut i = from;
    while i < slen
        invariant
            slen == src@.len(),
            from <= i <= slen,
            out@ == src@.subrange(from as int, i as int),
        decreases slen - i,
    {
        out.push(src[i]);
        i = i + 1;
        assert(out@ =~= src@.subrange(from as int, i as int));
    }
    out
}

/// Classifies the body of a packet received by the host.
pub fn classify_host_packet(body: &[u8]) -> (r: HostUsbPacket)
    requires
        host_packet_ok(body@),
    ensures
        body@[0] == USB_PACKET_TY_ISOTP ==> (r matches HostUsbPacket::IsoTp(p) && p@ == body@.subrange(1, body@.len() as int)),
        body@[0] == USB_PACKET_TY_DEFMT ==> (r matches HostUsbPacket::Defmt { data, last } && data@ == body@.subrange(
            2,
            body@.len() as int,
        ) && last == (body@[1] == 0xFF)),
        body@[0] != USB_PACKET_TY_ISOTP && body@[0] != USB_PACKET_TY_DEFMT ==> r is Unknown,
{
    if body[0] == USB_PACKET_TY_ISOTP {
        HostUsbPacket::IsoTp(copy_tail(body, 1))
    } else if body[0] == USB_PACKET_TY_DEFMT {
        HostUsbPacket::Defmt { data: copy_tail(body, 2), last: body[1] == 0xFF }
    } else {
        HostUsbPacket::Unknown
    }
}

/// The packet the host sends for a request: the length (truncated to 16
/// bits), then the request.
pub open spec fn host_request_spec(req: Seq<u8>) -> Seq<u8> {
    le16(req.len() % 65536) + req
}

/// Frames a request from the host to the controller.
pub fn host_request_packet(req: &[u8]) -> (r: Vec<u8>)
    ensures
        r@ == host_request_spec(req@),
{
    let rlen = req.len();
    proof {
        assert(rlen as u16 == rlen % 65536) by (bit_vector);
    }
    let size = le16_bytes(rlen as u16);
    let mut out: Vec<u8> = Vec::new();
    out.push(size[0]);
    out.push(size[1]);
    let mut i: usize = 0;
    while i < rlen
        invariant
            rlen == req@.len(),
            i <= rlen,
            out@ == le16(req@.len() % 65536) + req@.subrange(0, i as int),
        decreases rlen - i,
    {
        out.push(req[i]);
        i = i + 1;
        assert(out@ =~= le16(req@.len() % 65536) + req@.subrange(0, i as int));
    }
    assert(req@.subrange(0, rlen as int) =~= req@);
    out
}

/// A payload the controller frames for the host announces the length
/// of the rest of the packet, and the host classifies that rest as the same
/// ISO-TP payload.
pub proof fn lemma_device_to_host(p: Seq<u8>)
    requires
        p.len() <= ISOTP_BUF_SIZE,
    ensures
        ({
            let pkt = device_packet_spec(USB_PACKET_TY_ISOTP, p);
            let body = pkt.subrange(2, pkt.len() as int);
            &&& from_le16(pkt[0], pkt[1]) == body.len()
            &&& host_packet_ok(body)
            &&& body[0] == USB_PACKET_TY_ISOTP
            &&& body.subrange(1, body.len() as int) == p
        }),
{
    let pkt = device_packet_spec(USB_PACKET_TY_ISOTP, p);
    let body = pkt.subrange(2, pkt.len() as int);
    assert(body =~= seq![USB_PACKET_TY_ISOTP] + p);
    assert(body.subrange(1, body.len() as int) =~= p);
}

/// A request of 1 to 4095 bytes framed by the host is announced to the
/// controller with its exact length, and the rest of the packet is the
/// request.
pub proof fn lemma_host_to_device(req: Seq<u8>)
    requires
        1 <= req.len() <= 4095,
    ensures
        ({
            let pkt = host_request_spec(req);
            &&& usb_header_spec(pkt[0], pkt[1]) == Some(req.len() as int)
            &&& pkt.subrange(2, pkt.len() as int) == req
        }),
{
    let pkt = host_request_spec(req);
    let n = req.len() as int;
    assert(pkt.subrange(2, pkt.len() as int) =~= req);
    assert(from_le16(pkt[0], pkt[1]) == n);
}

} // verus!
