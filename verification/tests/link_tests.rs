use nag52::defmt_output::{
    choose_log_output, set_defmt_log_mode, BufferedDefmtWriter, DefmtFrameAssembler, DefmtTarget, Error,
};
use nag52::isotp::{
    first_frame, make_fc_ok, make_fc_reject, single_frame, stmin_to_micros, IsoTpInterruptHandler, IsoTpTxErr,
    IsoTpTxSession, IsotpCtsMsg, RxAction, TxFlowAction,
};
use nag52::usb_link::{
    classify_host_packet, host_request_packet, usb_defmt_packet, usb_isotp_header, usb_isotp_packet, HostUsbPacket,
    UsbIsoTpInterruptHandler,
};

/// Writes `data` and hands the packets of the flush (if one starts) to
/// `send`, reporting back what it returns.
fn write_all<const B: usize, const P: usize>(
    w: &mut BufferedDefmtWriter<B, P>,
    end: bool,
    data: &[u8],
    mut send: impl FnMut(&[u8]) -> Option<usize>,
) {
    if w.write(end, data) {
        while let Some(p) = w.next_packet() {
            let r = send(&p);
            w.on_sent(r);
        }
    }
}

#[test]
fn flow_control_frames() {
    assert_eq!(make_fc_ok(10, 8), [0x30, 8, 10, 0xCC, 0xCC, 0xCC, 0xCC, 0xCC]);
    assert_eq!(make_fc_reject()[0], 0x32);
}

#[test]
fn single_and_first_frames() {
    assert_eq!(single_frame(&[1, 2, 3]), [3, 1, 2, 3, 0, 0, 0, 0]);
    let payload: Vec<u8> = (0..20u8).collect();
    assert_eq!(first_frame(&payload), [0x10, 20, 0, 1, 2, 3, 4, 5]);
}

#[test]
fn stmin_conversion() {
    assert_eq!(stmin_to_micros(0), 100);
    assert_eq!(stmin_to_micros(10), 10_000);
    assert_eq!(stmin_to_micros(0x7F), 127_000);
    assert_eq!(stmin_to_micros(0x90), 100);
    assert_eq!(stmin_to_micros(0xF3), 300);
}

fn deliver_all(frames: &[[u8; 8]], rx: &mut IsoTpInterruptHandler) -> Option<Vec<u8>> {
    let mut out = None;
    for f in frames {
        match rx.on_frame_rx(f, 0, 0) {
            RxAction::Deliver(buf) => out = Some(buf.payload().to_vec()),
            RxAction::SendFlowControl(_) => rx.on_flow_control_sent(true),
            _ => {}
        }
    }
    out
}

#[test]
fn isotp_roundtrip_multi_frame() {
    // What the transmitter sends, the receiver puts back together.
    let payload: Vec<u8> = (0..100u32).map(|x| (x * 7) as u8).collect();
    let (mut tx, ff) = IsoTpTxSession::start(&payload);
    let mut frames = vec![ff];
    while !tx.is_complete(&payload) {
        frames.push(tx.next_frame(&payload));
    }
    let mut rx = IsoTpInterruptHandler::new();
    assert_eq!(deliver_all(&frames, &mut rx), Some(payload));
    assert!(!rx.is_receiving());
}

#[test]
fn isotp_single_frame_delivered() {
    let mut rx = IsoTpInterruptHandler::new();
    let f = single_frame(&[0x10, 0x85]);
    assert_eq!(deliver_all(&[f], &mut rx), Some(vec![0x10, 0x85]));
}

#[test]
fn isotp_blocks_respect_block_size() {
    let payload: Vec<u8> = (0..60u8).collect();
    let (mut tx, _ff) = IsoTpTxSession::start(&payload);
    let block = tx.next_block(&payload, 2);
    assert_eq!(block.len(), 2);
    assert_eq!(block[0][0], 0x21);
    assert_eq!(block[1][0], 0x22);
}

#[test]
fn usb_packets() {
    assert_eq!(usb_isotp_packet(&[1, 2]).unwrap(), vec![3, 0, 0xFF, 1, 2]);
    assert!(usb_isotp_packet(&vec![0u8; 4097]).is_err());
    assert_eq!(usb_defmt_packet(&[9]), vec![2, 0, 0xFE, 9]);
    assert_eq!(usb_isotp_header([0x05, 0x00]), Some(5));
    assert_eq!(host_request_packet(&[0x10, 0x81]), vec![2, 0, 0x10, 0x81]);
}

#[test]
fn usb_host_classification() {
    match classify_host_packet(&[0xFF, 0x50, 0x81]) {
        HostUsbPacket::IsoTp(p) => assert_eq!(p, vec![0x50, 0x81]),
        _ => panic!("not an ISO-TP packet"),
    }
    match classify_host_packet(&[0xFE, 0xFF, 1, 2]) {
        HostUsbPacket::Defmt { data, last } => {
            assert_eq!(data, vec![1, 2]);
            assert!(last);
        }
        _ => panic!("not a log packet"),
    }
    assert!(matches!(classify_host_packet(&[0x00]), HostUsbPacket::Unknown));
}

#[test]
fn usb_device_reassembly() {
    let mut h = UsbIsoTpInterruptHandler::new();
    assert!(h.wants_header());
    h.on_header([3, 0]);
    assert_eq!(h.missing(), 3);
    assert!(h.on_data(&[0x21]).is_none());
    let got = h.on_data(&[0xE2, 0x00]).expect("complete");
    assert_eq!(got.payload(), &[0x21, 0xE2, 0x00]);
}

#[test]
fn log_mode_switching() {
    assert_eq!(set_defmt_log_mode(DefmtTarget::Rtt, false, false), Ok(0));
    assert_eq!(set_defmt_log_mode(DefmtTarget::Can, true, false), Ok(1));
    assert!(matches!(set_defmt_log_mode(DefmtTarget::Serial, true, false), Err(Error::EndpointNotPresent)));
    assert!(choose_log_output(1, true, true) == DefmtTarget::Can);
    assert!(choose_log_output(1, false, true) == DefmtTarget::Rtt);
    assert!(choose_log_output(2, false, true) == DefmtTarget::Serial);
}

#[test]
fn log_frames_survive_packetising() {
    // Packets the controller writes are put back together by the host.
    let mut w: BufferedDefmtWriter<256, 8> = BufferedDefmtWriter::default();
    let mut sent: Vec<Vec<u8>> = Vec::new();
    let frame: Vec<u8> = (1..=20u8).collect();
    write_all(&mut w, false, &frame, |p: &[u8]| {
        sent.push(p.to_vec());
        Some(p.len())
    });
    write_all(&mut w, true, &[], |p: &[u8]| {
        sent.push(p.to_vec());
        Some(p.len())
    });
    let mut assembler = DefmtFrameAssembler::new();
    let mut out = None;
    for (i, p) in sent.iter().enumerate() {
        if i == 0 {
            assert_eq!(p[0], 0x00);
        }
        if let Some(f) = assembler.on_can_packet(p) {
            out = Some(f);
        }
    }
    assert_eq!(sent.last().unwrap()[0], 0xFF);
    assert_eq!(out, Some(frame));
}

#[test]
fn six_byte_first_frame_is_delivered() {
    let mut rx = IsoTpInterruptHandler::new();
    match rx.on_frame_rx(&[0x10, 6, 1, 2, 3, 4, 5, 6], 0, 8) {
        RxAction::SendFlowControl(_) => rx.on_flow_control_sent(true),
        _ => panic!("flow control expected"),
    }
    match rx.on_frame_rx(&[0x21, 9, 9, 9, 9, 9, 9, 9], 0, 8) {
        RxAction::Deliver(buf) => assert_eq!(buf.payload(), &[1, 2, 3, 4, 5, 6]),
        _ => panic!("delivery expected"),
    }
    let mut rx = IsoTpInterruptHandler::new();
    match rx.on_frame_rx(&[0x10, 7, 1, 2, 3, 4, 5, 6], 0, 8) {
        RxAction::SendFlowControl(_) => rx.on_flow_control_sent(true),
        _ => panic!("flow control expected"),
    }
    match rx.on_frame_rx(&[0x21, 7, 9, 9, 9, 9, 9, 9], 0, 8) {
        RxAction::Deliver(buf) => assert_eq!(buf.payload(), &[1, 2, 3, 4, 5, 6, 7]),
        _ => panic!("delivery expected"),
    }
}

#[test]
fn short_first_frame_is_ignored() {
    let mut rx = IsoTpInterruptHandler::new();
    // A first frame announcing 3 bytes, fewer than the six it carries.
    assert!(matches!(rx.on_frame_rx(&[0x10, 3, 1, 2, 3, 4, 5, 6], 0, 8), RxAction::Nothing));
    assert!(!rx.is_receiving());
    // The consecutive frame that follows finds no reception.
    assert!(matches!(rx.on_frame_rx(&[0x21, 7, 7, 7, 7, 7, 7, 7], 0, 8), RxAction::Nothing));
    assert!(!rx.is_receiving());
}

#[test]
fn log_writer_packets() {
    let mut w: BufferedDefmtWriter<16, 4> = BufferedDefmtWriter::default();
    let mut sent: Vec<Vec<u8>> = Vec::new();
    // Six bytes: one full packet goes out, three bytes stay buffered.
    write_all(&mut w, false, &[1, 2, 3, 4, 5, 6], |p: &[u8]| {
        sent.push(p.to_vec());
        Some(p.len())
    });
    assert_eq!(sent, vec![vec![0x00, 1, 2, 3]]);
    // Three more: the buffered bytes lead, with the next sequence byte.
    write_all(&mut w, false, &[7, 8, 9], |p: &[u8]| {
        sent.push(p.to_vec());
        Some(p.len())
    });
    assert_eq!(sent[1], vec![0x01, 4, 5, 6]);
    // Closing the frame sends the rest with 0xFF.
    write_all(&mut w, true, &[], |p: &[u8]| {
        sent.push(p.to_vec());
        Some(p.len())
    });
    assert_eq!(sent[2], vec![0xFF, 7, 8, 9]);
    assert_eq!(sent.len(), 3);

    // A short write sends nothing.
    let mut w: BufferedDefmtWriter<16, 4> = BufferedDefmtWriter::default();
    let mut calls = 0;
    write_all(&mut w, false, &[1, 2], |p: &[u8]| {
        calls += 1;
        Some(p.len())
    });
    // Data that does not fit is dropped and nothing is sent.
    write_all(&mut w, false, &[0; 15], |p: &[u8]| {
        calls += 1;
        Some(p.len())
    });
    assert_eq!(calls, 0);

    // A one byte frame goes out as one closing packet.
    let mut w: BufferedDefmtWriter<16, 4> = BufferedDefmtWriter::default();
    let mut sent: Vec<Vec<u8>> = Vec::new();
    write_all(&mut w, true, &[1], |p: &[u8]| {
        sent.push(p.to_vec());
        Some(p.len())
    });
    assert_eq!(sent, vec![vec![0xFF, 1]]);

    // A failed write stops sending.
    let mut w: BufferedDefmtWriter<16, 4> = BufferedDefmtWriter::default();
    let mut calls = 0;
    write_all(&mut w, true, &[1, 2, 3, 4, 5, 6, 7], |_p: &[u8]| {
        calls += 1;
        None
    });
    assert_eq!(calls, 1);
}

#[test]
fn log_writer_steps() {
    let mut w: BufferedDefmtWriter<16, 4> = BufferedDefmtWriter::default();
    // Buffering only: no flush, no packet.
    assert!(!w.write(false, &[1, 2]));
    assert!(w.next_packet().is_none());
    // Too much data: dropped, nothing to send.
    assert!(!w.write(false, &[0; 15]));
    assert!(!w.is_flushing());
    // Closing the frame: packets of 3 data bytes, the last one 0xFF.
    assert!(w.write(true, &[3, 4, 5, 6, 7, 8, 9]));
    let mut packets = Vec::new();
    while let Some(p) = w.next_packet() {
        w.on_sent(Some(p.len()));
        packets.push(p);
    }
    assert_eq!(packets, vec![vec![0x00, 1, 2, 3], vec![0x01, 4, 5, 6], vec![0xFF, 7, 8, 9]]);
    let data: Vec<u8> = packets.iter().flat_map(|p| p[1..].to_vec()).collect();
    assert_eq!(data, (1..=9).collect::<Vec<u8>>());
    // A packet that did not go out ends the flush; it is offered again
    // with the next write.
    let mut w: BufferedDefmtWriter<16, 4> = BufferedDefmtWriter::default();
    assert!(w.write(false, &[1, 2, 3, 4, 5]));
    assert_eq!(w.next_packet(), Some(vec![0x00, 1, 2, 3]));
    w.on_sent(None);
    assert!(!w.is_flushing());
    assert!(w.write(false, &[6]));
    assert_eq!(w.next_packet(), Some(vec![0x00, 1, 2, 3]));
    // Part of a packet went out: the rest comes in the next one.
    w.on_sent(Some(2));
    assert_eq!(w.next_packet(), Some(vec![0x01, 2, 3, 4]));
}

#[test]
fn tx_flow_control_decisions() {
    let payload: Vec<u8> = (0..20u8).collect();
    let (mut s, ff) = IsoTpTxSession::start(&payload);
    assert_eq!(ff, [0x10, 20, 0, 1, 2, 3, 4, 5]);
    // No flow control in time: give up.
    match s.on_flow_control(&payload, None) {
        TxFlowAction::Fail { reply: None, error: IsoTpTxErr::Timeout } => {}
        _ => panic!("timeout expected"),
    }
    // Wait: nothing to send.
    assert!(matches!(s.on_flow_control(&payload, Some(IsotpCtsMsg::Wait)), TxFlowAction::Wait));
    // A block of one frame, 5 ms apart.
    match s.on_flow_control(&payload, Some(IsotpCtsMsg::Proceed { stmin: 5, bs: 1 })) {
        TxFlowAction::SendBlock { frames, delay_us, complete } => {
            assert_eq!(frames, vec![[0x21, 6, 7, 8, 9, 10, 11, 12]]);
            assert_eq!(delay_us, 5000);
            assert!(!complete);
        }
        _ => panic!("block expected"),
    }
    // Block size 0: the rest, 300 us apart.
    match s.on_flow_control(&payload, Some(IsotpCtsMsg::Proceed { stmin: 0xF3, bs: 0 })) {
        TxFlowAction::SendBlock { frames, delay_us, complete } => {
            assert_eq!(frames, vec![[0x22, 13, 14, 15, 16, 17, 18, 19]]);
            assert_eq!(delay_us, 300);
            assert!(complete);
        }
        _ => panic!("block expected"),
    }
    // A reject is answered with the reject frame.
    let (mut s, _) = IsoTpTxSession::start(&payload);
    match s.on_flow_control(&payload, Some(IsotpCtsMsg::Reject)) {
        TxFlowAction::Fail { reply: Some(f), error: IsoTpTxErr::Rejected } => assert_eq!(f, make_fc_reject()),
        _ => panic!("reject expected"),
    }
}
