use nag52::elf_input::{
    elf_memory_usage, elf_segments, get_defmt_bytes, load_segments, memory_usage, usage_valid, ElfError,
    ProgramHeaderInfo, SectionClass, SectionInfo, ElfSectionKind, section_class,
};
use nag52::flash_image::{build_flash_image, image_inputs_valid, ElfSegment};
use nag52::flasher::{
    append_read_reply, burn_date_request, code_section_at, download_request, erase_request, erase_status_request,
    fingerprint_at, image_crc, log_mode_for, log_mode_request, num_pages, panic_location_of, read_ident_request,
    read_local_id_request, read_request, reset_request, security_lock_request, session_request,
    stay_reason_of_reply, transfer_request, verify_reply_ok, verify_request, EraseReply, ErasePoll, EraseStep,
    Interface, MicrosFormattedDuration,
};
use nag52::kwp::KwpSession;
use nag52::memory_map::BootloaderStayReason;

fn seg(phys: u32, size: u32, off: u32) -> ElfSegment {
    ElfSegment { phys_addr: phys, virt_addr: phys, size, offset_in_elf: off }
}

fn tiny_elf() -> Vec<u8> {
    let mut e = vec![0x7F, b'E', b'L', b'F', 1, 1, 1, 0];
    e.extend_from_slice(&[0; 8]);
    e.extend_from_slice(&2u16.to_le_bytes()); // executable
    e.extend_from_slice(&40u16.to_le_bytes()); // ARM
    e.extend_from_slice(&1u32.to_le_bytes());
    e.extend_from_slice(&0x2000u32.to_le_bytes()); // entry
    e.extend_from_slice(&52u32.to_le_bytes()); // program headers
    e.extend_from_slice(&0u32.to_le_bytes()); // no sections
    e.extend_from_slice(&0u32.to_le_bytes());
    e.extend_from_slice(&52u16.to_le_bytes());
    e.extend_from_slice(&32u16.to_le_bytes());
    e.extend_from_slice(&1u16.to_le_bytes());
    e.extend_from_slice(&40u16.to_le_bytes());
    e.extend_from_slice(&0u16.to_le_bytes());
    e.extend_from_slice(&0u16.to_le_bytes());
    assert_eq!(e.len(), 52);
    for v in [1u32, 84, 0x2000, 0x2000, 4, 4, 5, 4] {
        e.extend_from_slice(&v.to_le_bytes());
    }
    e.extend_from_slice(&[1, 2, 3, 4]);
    e
}

#[test]
fn requests_have_their_layout() {
    assert_eq!(session_request(KwpSession::Reprogramming), [0x10, 0x85, 0, 0]);
    assert_eq!(erase_request(0x2000, 3), [0x31, 0xE0, 0x00, 0x20, 0, 0, 3, 0]);
    assert_eq!(erase_status_request(), [0x33, 0xE0]);
    assert_eq!(download_request(0x1E000, 0x100), [0x34, 0x00, 0xE0, 0x01, 0x00, 0x00, 0x00, 0x01, 0, 0]);
    assert_eq!(
        verify_request(0xAABBCCDD, 0x2000, 4),
        vec![0x31, 0xE1, 0xDD, 0xCC, 0xBB, 0xAA, 0x00, 0x20, 0, 0, 0x04, 0x20, 0, 0]
    );
    assert_eq!(reset_request(), [0x11, 0x01]);
    assert_eq!(security_lock_request(true), [0x31, 0xFE, 1]);
    assert_eq!(burn_date_request(12, 24, 6, 2025), [0x31, 0x24, 12, 24, 6, 25]);
    assert_eq!(log_mode_for(Interface::Usb), 2);
    assert_eq!(log_mode_for(Interface::CanFast), 1);
    assert_eq!(log_mode_request(2), [0x30, 0xF0, 0x07, 2]);
    assert_eq!(read_local_id_request(0xE2), [0x21, 0xE2]);
    assert_eq!(read_ident_request(0x8A), [0x1A, 0x8A]);
}

#[test]
fn page_counts() {
    assert_eq!(num_pages(0), 0);
    assert_eq!(num_pages(8192), 1);
    assert_eq!(num_pages(8193), 2);
}

#[test]
fn memory_read_chunks() {
    assert_eq!(read_request(0x1000, 0, 600), vec![0x23, 250, 0x00, 0x10, 0, 0]);
    assert_eq!(read_request(0x1000, 500, 600), vec![0x23, 100, 0xF4, 0x11, 0, 0]);
    let mut out = vec![9];
    append_read_reply(&mut out, &[0x63, 1, 2]);
    assert_eq!(out, vec![9, 1, 2]);
}

#[test]
fn transfer_requests_cover_the_image() {
    let image: Vec<u8> = (0..2500u32).map(|x| x as u8).collect();
    let mut joined = Vec::new();
    for k in 0..3 {
        let r = transfer_request(&image, k);
        assert_eq!(r[0], 0x36);
        assert_eq!(r[1], k as u8);
        joined.extend_from_slice(&r[2..]);
    }
    assert_eq!(joined, image);
    assert_eq!(transfer_request(&image, 2).len(), 2 + 452);
}

#[test]
fn erase_polling() {
    let mut poll = ErasePoll::new();
    assert!(poll.on_reply(&EraseReply::Negative(0x23)) == EraseStep::Wait);
    assert!(poll.on_reply(&EraseReply::Negative(0x22)) == EraseStep::Rejected(0x22));
    assert!(poll.on_reply(&EraseReply::Positive(&[0x73, 0xE0, 0x00])) == EraseStep::Done);
    assert!(poll.on_reply(&EraseReply::Positive(&[0x73, 0xE0, 0x01])) == EraseStep::Failed);
    assert!(poll.on_reply(&EraseReply::LinkError) == EraseStep::Restart { give_up: false });
    assert!(poll.on_reply(&EraseReply::LinkError) == EraseStep::Restart { give_up: true });
}

#[test]
fn verify_reply() {
    assert!(verify_reply_ok(&[0x71, 0xE1, 1]));
    assert!(!verify_reply_ok(&[0x71, 0xE1, 0]));
}

#[test]
fn crc_of_image() {
    assert_eq!(image_crc(b"123456789"), 0xCBF43926);
    assert_eq!(image_crc(b""), 0);
}

#[test]
fn flash_image_layout() {
    let elf: Vec<u8> = (0..64u8).collect();
    // Out of order, with a gap and an overlap: the segment placed later
    // (higher address) wins.
    let segs = [seg(0x4004, 4, 20), seg(0x4000, 6, 0)];
    assert!(image_inputs_valid(&segs, elf.len()));
    let img = build_flash_image(&segs, &elf);
    assert_eq!(img.start, 0x4000);
    assert_eq!(img.data, vec![0, 1, 2, 3, 20, 21, 22, 23]);
    let gap = [seg(0x2000, 2, 10), seg(0x2004, 2, 30)];
    let img = build_flash_image(&gap, &elf);
    assert_eq!(img.data, vec![10, 11, 0xFF, 0xFF, 30, 31]);
}

#[test]
fn flash_image_rejections() {
    let elf = vec![0u8; 16];
    assert!(!image_inputs_valid(&[], 16));
    assert!(!image_inputs_valid(&[seg(0x2001, 2, 0)], 16));
    assert!(!image_inputs_valid(&[seg(0x2000, 2, 15)], elf.len()));
    // A lower segment reaching past the end of the last one.
    assert!(!image_inputs_valid(&[seg(0x2000, 10, 0), seg(0x2002, 2, 0)], elf.len()));
}

#[test]
fn elf_segments_read() {
    let elf = tiny_elf();
    let segs = elf_segments(&elf).ok().expect("readable");
    assert_eq!(segs.len(), 1);
    assert_eq!((segs[0].phys_addr, segs[0].size, segs[0].offset_in_elf), (0x2000, 4, 84));
    let img = build_flash_image(&segs, &elf);
    assert_eq!(img.data, vec![1, 2, 3, 4]);
    assert!(matches!(elf_segments(&[1, 2, 3]), Err(ElfError::Parse)));
}

#[test]
fn program_header_filter() {
    let load = ProgramHeaderInfo { p_type: 1, paddr: 0x2000, vaddr: 0x2000, offset: 84, filesz: 4, data_len: Some(4) };
    let note = ProgramHeaderInfo { p_type: 4, ..load };
    let empty = ProgramHeaderInfo { filesz: 0, data_len: Some(0), ..load };
    let segs = load_segments(&[note, load, empty]).ok().unwrap();
    assert_eq!(segs.len(), 1);
    let bad = ProgramHeaderInfo { data_len: None, ..load };
    assert!(matches!(load_segments(&[load, bad]), Err(ElfError::SegmentData)));
}

#[test]
fn defmt_table_absent() {
    assert!(get_defmt_bytes(&tiny_elf()).is_empty());
}

#[test]
fn memory_use_of_sections() {
    let s = |kind, address, size| SectionInfo { kind, address, size };
    let ss = [
        s(ElfSectionKind::Text, 0x2000, 100),
        s(ElfSectionKind::Data, 0x2000_0000, 64),
        s(ElfSectionKind::UninitializedData, 0x2000_1000, 16),
        s(ElfSectionKind::Metadata, 0x0, 1000),
        s(ElfSectionKind::Other, 0x10, 1000),
        s(ElfSectionKind::OtherString, 0x20, 1000),
        s(ElfSectionKind::Text, 0x3000_0000, 5),
    ];
    assert!(section_class(ElfSectionKind::Debug) == SectionClass::Loaded);
    assert!(section_class(ElfSectionKind::Metadata) == SectionClass::NotLoaded);
    assert!(usage_valid(&ss));
    let u = memory_usage(&ss);
    assert_eq!(u.flash_bytes, 100);
    assert_eq!(u.ram_bytes, 80);
    assert_eq!(u.ram_alloc, 0x1010);
    assert!(!usage_valid(&ss[..1]));
    assert!(elf_memory_usage(&tiny_elf()).is_none());
}

#[test]
fn ident_replies() {
    assert!(stay_reason_of_reply(&[0x61, 0xE2, 3]) == BootloaderStayReason::Panic);
    let mut loc = vec![0x61, 0xE4, 5, 0, 0, 0, 42, 0, 0, 0];
    loc.extend_from_slice(b"main.rs");
    let (col, line, file) = panic_location_of(&loc);
    assert_eq!((col, line), (5, 42));
    assert_eq!(file, b"main.rs".to_vec());
    let mut ident = vec![0x5A, 0x8A];
    for i in 0..3u8 {
        let mut rec = [i; 33];
        rec[..10].copy_from_slice(b"UN52PICEGS");
        ident.extend_from_slice(&rec);
    }
    ident.extend_from_slice(&0u32.to_le_bytes());
    ident.extend_from_slice(&0x12345678u32.to_le_bytes());
    let app = code_section_at(&ident, 2);
    assert_eq!(app.version_major, 2);
    assert!(app.is_flashed());
    assert_eq!(fingerprint_at(&ident, 1), None);
    assert_eq!(fingerprint_at(&ident, 2), Some(0x12345678));
}

#[test]
fn duration_parts() {
    let d = MicrosFormattedDuration(((2 * 86_400 + 3 * 3600 + 4 * 60 + 5) as u64) * 1_000_000 + 6);
    let p = d.parts();
    assert_eq!((p.days, p.hours, p.minutes, p.seconds, p.micros), (2, 3, 4, 5, 6));
}
