use nag52::boot::{
    boot_decision, can_app_start, finish_bootloader_install, preloader_plan, record_ram_failure, BootAction,
    BootloaderRamInfo, PreloaderAction,
};
use nag52::defmt_output::DefmtTarget;
use nag52::diag_server::{KwpServer, LogRouting, PendingOp};
use nag52::kwp::{KwpNrc, KwpService, KwpSession};
use nag52::memory_map::{BootloaderStayReason, MemoryRegion};
use nag52::panic_info::DynAppPanicMsg;
use nag52::section_info::{record_section_info, CodeSectionInfo, SmartEepromInfo};

fn section(name: &[u8; 10], minor: u8) -> CodeSectionInfo {
    CodeSectionInfo {
        name: *name,
        git_sha: *b"0123456789ab",
        version_major: 1,
        version_minor: minor,
        version_patch: 3,
        rustc_version_major: 1,
        rustc_version_minor: 85,
        rustc_version_patch: 0,
        compile_year: 25,
        compile_month: 6,
        compile_week: 24,
        compile_day: 12,
        is_debug: 0,
    }
}

fn eeprom_info() -> SmartEepromInfo {
    SmartEepromInfo {
        board_prod_day: 1,
        board_prod_month: 2,
        board_prod_week: 5,
        board_prod_year: 24,
        preloader_info: section(b"UN52PICPRE", 0),
        bootloader_info: section(b"UN52PICBLD", 0),
        firmware_info: section(b"UN52PICEGS", 0),
        app_flashing_not_done: 0,
        bl_flashing_pending: 0xFF,
        crc32_app: 1,
        crc32_bl: 2,
    }
}

#[test]
fn memory_regions() {
    let a = MemoryRegion::Application;
    assert_eq!(a.range_exclusive(), 120 * 1024..1024 * 1024);
    assert_eq!(a.blocks_8k(), 113);
    assert_eq!(a.start_addr(), 120 * 1024);
    assert_eq!(a.size_bytes(), 904 * 1024);
    assert_eq!(MemoryRegion::Preloader.range_exclusive().end, MemoryRegion::Bootloader.start_addr());
    assert_eq!(MemoryRegion::Bootloader.blocks_8k(), 14);
}

#[test]
fn stay_reason_bytes() {
    assert!(BootloaderStayReason::from(3u8) == BootloaderStayReason::Panic);
    assert!(BootloaderStayReason::from(0u8) == BootloaderStayReason::NoReason);
    assert!(BootloaderStayReason::from(200u8) == BootloaderStayReason::Unkown);
    assert_eq!(BootloaderStayReason::RamFailure.code(), 7);
    for b in 0..=8u8 {
        assert_eq!(BootloaderStayReason::from(b).code(), b);
    }
}

#[test]
fn app_start_check() {
    assert!(can_app_start(0, 0x20040000));
    assert!(!can_app_start(1, 0x20040000));
    assert!(!can_app_start(0, 0xFFFF_FFFF));
}

#[test]
fn boot_magic_pin_and_watchdog() {
    match boot_decision(true, true, None, true) {
        BootAction::StayInBootloader { reason, .. } => assert!(reason == BootloaderStayReason::MagicPin),
        _ => panic!("started"),
    }
    match boot_decision(false, true, None, true) {
        BootAction::StayInBootloader { reason, .. } => assert!(reason == BootloaderStayReason::Watchdog),
        _ => panic!("started"),
    }
}

#[test]
fn boot_counts_starts_until_limit() {
    // An application that never clears the counter is started five times.
    let mut info = BootloaderRamInfo::default();
    let mut starts = 0;
    loop {
        match boot_decision(false, false, Some(info), true) {
            BootAction::StartApp { ram_info } => {
                starts += 1;
                info = ram_info;
            }
            BootAction::StayInBootloader { reason, .. } => {
                assert!(reason == BootloaderStayReason::ResetCount);
                break;
            }
        }
    }
    assert_eq!(starts, 5);
}

#[test]
fn boot_invalid_record_and_app() {
    match boot_decision(false, false, None, true) {
        BootAction::StartApp { ram_info } => assert_eq!(ram_info.reset_counter, 1),
        _ => panic!("stayed"),
    }
    match boot_decision(false, false, None, false) {
        BootAction::StayInBootloader { reason, reprogramming, st_min, bs, .. } => {
            assert!(reason == BootloaderStayReason::AppInvalid);
            assert!(!reprogramming);
            assert_eq!((st_min, bs), (2, 8));
        }
        _ => panic!("started"),
    }
}

#[test]
fn application_hands_over_to_bootloader() {
    // The application accepts the reprogramming session with a timing ...
    let mut server = KwpServer::new();
    let mut log = LogRouting { mode: DefmtTarget::Rtt, can_present: false, serial_present: false };
    let mut bl = BootloaderRamInfo::default();
    let reply = server.process_cmd(&[0x10, 0x85, 0x20, 0x0A], 5, &mut log, &mut bl);
    assert_eq!(reply, vec![0x50, 0x85]);
    assert!(server.update());
    // ... and the bootloader stays in reprogramming with that timing.
    match boot_decision(false, false, Some(bl), true) {
        BootAction::StayInBootloader { reprogramming, st_min, bs, .. } => {
            assert!(reprogramming);
            assert_eq!((st_min, bs), (0x0A, 0x20));
        }
        _ => panic!("started the application"),
    }
}

#[test]
fn diag_server_replies() {
    let mut server = KwpServer::new();
    let mut log = LogRouting { mode: DefmtTarget::Rtt, can_present: true, serial_present: false };
    let mut bl = BootloaderRamInfo::default();
    assert_eq!(server.process_cmd(&[0x22], 0, &mut log, &mut bl), vec![0x7F, 0x22, 0x11]);
    assert_eq!(server.process_cmd(&[0x10, 0x92], 0, &mut log, &mut bl), vec![0x50, 0x92]);
    assert_eq!(server.process_cmd(&[0x10, 0x92, 1], 0, &mut log, &mut bl), vec![0x7F, 0x10, 0x12]);
    assert_eq!(server.process_cmd(&[0x10, 0x89], 0, &mut log, &mut bl), vec![0x7F, 0x10, 0x12]);
    assert!(!server.update());
    // Log mode: report, switch to CAN, refuse serial (not set up), bad mode.
    assert_eq!(server.process_cmd(&[0x30, 0xF0, 0x01], 0, &mut log, &mut bl), vec![0x70, 0xF0, 0x01, 0x00]);
    assert_eq!(server.process_cmd(&[0x30, 0xF0, 0x07, 0x01], 0, &mut log, &mut bl), vec![0x70, 0xF0, 0x01]);
    assert!(log.mode == DefmtTarget::Can);
    assert_eq!(server.process_cmd(&[0x30, 0xF0, 0x07, 0x02], 0, &mut log, &mut bl), vec![0x7F, 0x30, 0x22]);
    assert_eq!(server.process_cmd(&[0x30, 0xF0, 0x07, 0x05], 0, &mut log, &mut bl), vec![0x7F, 0x30, 0x12]);
    assert_eq!(server.process_cmd(&[0x30, 0xF0, 0x03], 0, &mut log, &mut bl), vec![0x7F, 0x30, 0x31]);
    assert_eq!(server.process_cmd(&[0x30, 0x10, 0x01], 0, &mut log, &mut bl), vec![0x7F, 0x30, 0x12]);
    assert_eq!(server.process_cmd(&[0x30, 0xF0], 0, &mut log, &mut bl), vec![0x7F, 0x30, 0x12]);
    assert!(log.mode == DefmtTarget::Can);
    assert!(bl.diag_request_bootloader == (false, None));
}

#[test]
fn application_routines() {
    let mut server = KwpServer::new();
    let mut log = LogRouting { mode: DefmtTarget::Rtt, can_present: true, serial_present: false };
    let mut bl = BootloaderRamInfo::default();
    // Clear EEPROM.
    assert_eq!(server.process_cmd(&[0x31, 0x30], 0, &mut log, &mut bl), vec![0x71, 0x30]);
    assert!(server.take_routine() == PendingOp::ClearEeprom);
    assert!(server.take_routine() == PendingOp::Nothing);
    // Toggle the TCC solenoid, type 1, enable 0.
    assert_eq!(server.process_cmd(&[0x31, 0x33, 0x01, 0x00], 0, &mut log, &mut bl), vec![0x71, 0x33]);
    assert!(server.take_routine() == PendingOp::ToggleTccSol { ty: 1, en: 0 });
    // Wrong argument count, unknown routine, missing identifier.
    assert_eq!(server.process_cmd(&[0x31, 0x33, 0x01], 0, &mut log, &mut bl), vec![0x7F, 0x31, 0x12]);
    assert_eq!(server.process_cmd(&[0x31, 0x30, 0x00], 0, &mut log, &mut bl), vec![0x7F, 0x31, 0x12]);
    assert_eq!(server.process_cmd(&[0x31, 0x24], 0, &mut log, &mut bl), vec![0x7F, 0x31, 0x31]);
    assert_eq!(server.process_cmd(&[0x31], 0, &mut log, &mut bl), vec![0x7F, 0x31, 0x12]);
    assert!(server.take_routine() == PendingOp::Nothing);
    assert!(!server.update());
}

#[test]
fn kwp_byte_values() {
    assert!(KwpService::from_byte(0x10) == Some(KwpService::StartDiagnosticSession));
    assert!(KwpService::from_byte(0x36) == Some(KwpService::TransferData));
    assert!(KwpService::from_byte(0x3E).is_none());
    assert!(KwpService::from_byte(0x02).is_none());
    assert!(KwpSession::from_byte(0x85) == Some(KwpSession::Reprogramming));
    assert!(KwpSession::from_byte(0x86).is_none());
    assert_eq!(KwpService::ReadDataByLocalIdentifier.sid(), 0x21);
    assert_eq!(KwpService::RequestDownload.sid(), 0x34);
    assert_eq!(KwpSession::ExtendedDiagnostics.byte(), 0x92);
    assert_eq!(KwpNrc::RequestOutOfRange.byte(), 0x31);
    assert_eq!(KwpNrc::ConditionsNotCorrectRequestSequenceError.byte(), 0x22);
}

#[test]
fn section_info_bytes_roundtrip() {
    let s = section(b"UN52PICEGS", 4);
    let b = s.to_bytes();
    assert_eq!(&b[..10], b"UN52PICEGS");
    assert_eq!(&b[10..22], b"0123456789ab");
    assert_eq!(b[23], 4);
    let back = CodeSectionInfo::from_bytes(&b);
    assert_eq!(back.to_bytes(), b);
    assert!(back.is_flashed());
    let mut erased = s;
    erased.name = [0xFF; 10];
    assert!(!erased.is_flashed());
}

#[test]
fn section_info_equality_and_clear() {
    let a = section(b"UN52PICEGS", 1);
    let mut b = a;
    b.git_sha = *b"ffffffffffff";
    b.is_debug = 1;
    assert!(a == b);
    b.version_minor = 2;
    assert!(a != b);
    let mut c = a;
    c.clear();
    assert_eq!(c.version_major, 0xFF);
    assert_eq!(c.compile_year, 0xFF);
    assert_eq!(c.name, a.name);
}

#[test]
fn section_info_recording() {
    let mut stored = section(b"UN52PICEGS", 1);
    let mut same = stored;
    same.git_sha = *b"aaaaaaaaaaaa";
    record_section_info(&mut stored, same);
    assert_eq!(stored.git_sha, *b"0123456789ab");
    record_section_info(&mut stored, section(b"UN52PICEGS", 2));
    assert_eq!(stored.version_minor, 2);
}

#[test]
fn production_date_and_preloader() {
    let mut info = eeprom_info();
    assert!(info.is_production_date_set());
    info.board_prod_week = 0xFF;
    assert!(!info.is_production_date_set());
    assert!(preloader_plan(None, 0) == PreloaderAction::Nothing);
    assert!(preloader_plan(Some(info), 2) == PreloaderAction::Nothing);
    info.bl_flashing_pending = 0;
    assert!(preloader_plan(Some(info), 2) == PreloaderAction::Install { copy: true });
    assert!(preloader_plan(Some(info), 3) == PreloaderAction::Install { copy: false });
    finish_bootloader_install(&mut info, 0x1234);
    assert_eq!(info.bl_flashing_pending, 0xFF);
    assert_eq!(info.crc32_bl, 0x1234);
}

#[test]
fn ram_failure_recorded_once() {
    let mut info = BootloaderRamInfo::default();
    record_ram_failure(&mut info, Some((0x2000_1000, 3, 1)));
    record_ram_failure(&mut info, Some((0x2000_2000, 4, 2)));
    assert_eq!(info.ram_failure, Some((0x2000_1000, 3, 1)));
}

#[test]
fn panic_message_buffer() {
    let mut m = DynAppPanicMsg::default();
    assert_eq!(m.as_bytes(), b"");
    assert!(m.write_str("index out").is_ok());
    assert!(m.write_str(" of bounds").is_ok());
    assert_eq!(m.as_bytes(), b"index out of bounds");
    let long = "x".repeat(300);
    assert!(m.write_str(&long).is_ok());
    assert_eq!(m.as_bytes().len(), 255);
    assert!(m.write_str("more").is_ok());
    assert_eq!(m.as_bytes().len(), 255);
    // Several writes keep the first 255 bytes of the texts joined.
    let mut m = DynAppPanicMsg::default();
    let parts = ["a".repeat(100), "b".repeat(100), "c".repeat(100)];
    for p in &parts {
        assert!(m.write_str(p).is_ok());
    }
    let joined = parts.concat();
    assert_eq!(m.as_bytes(), &joined.as_bytes()[..255]);
}

#[test]
fn build_numbers_are_read_from_text() {
    assert_eq!(nag52::section_info::parse_u8("0"), 0);
    assert_eq!(nag52::section_info::parse_u8("25"), 25);
    assert_eq!(nag52::section_info::parse_u8("255"), 255);
    // Reading stops at the first byte that is not a digit.
    assert_eq!(nag52::section_info::parse_u8("12-rc1"), 12);
}

#[test]
fn commit_hash_is_cut_to_twelve_bytes() {
    let sha = nag52::section_info::parse_git_sha("0123456789abcdef0123");
    assert_eq!(&sha, b"0123456789ab");
}
