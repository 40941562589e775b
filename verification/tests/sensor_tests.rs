use nag52::calibration::{create_struct_signature, EgsCountDownTimer};
use nag52::eeprom::{crc16, crc32c, init_block_frame, read_block_address, EepromBlkHeader, EepromBlock};
use nag52::ram_test::{ram_buf_size, set_stack_watermark, MemoryTestResult, RamTest, RamTestAction};
use nag52::boot::BootloaderRamInfo;
use nag52::sensors::{
    adc_reading_to_source, sensor_data_from, tft_lookup, tft_resistance_to_adc_12bit, tsen_lookup, variable_input_mv,
    Adc0Result, Adc1Result, TftState,
};

#[test]
fn divider_conversion() {
    // 12k over 3.3k: full scale reading is 3.3 V * 15.3 / 3.3.
    assert_eq!(adc_reading_to_source(4095, 12_000, 3_300), 15_348);
    assert_eq!(adc_reading_to_source(0, 12_000, 3_300), 0);
    assert_eq!(adc_reading_to_source(2048, 10_000, 15_000), 2_750);
}

#[test]
fn sensor_table_points() {
    assert_eq!(tft_resistance_to_adc_12bit(2000, 2000, 100), (2047, 100));
    let tft = tft_lookup();
    assert_eq!(tft.len(), 28);
    assert_eq!(tft[0], (819, -55));
    let tsen = tsen_lookup();
    assert_eq!(tsen.len(), 23);
    assert_eq!(tsen[12], (1861, 25));
}

#[test]
fn sensor_processing() {
    let adc0 = Adc0Result { tsen_tle82423: 0, tsen_pcb: 0, core_mv: 1200, io_mv: 3300, t_cpu: 250 };
    let adc1 = Adc1Result { ac_p: 0, tft: 4095, pmon_kl15: 3000, pmon_kl87: 0, pmon_sens: 2048, pmon_kl87_diag: 100 };
    let d = sensor_data_from(adc0, adc1);
    assert!(d.tft == TftState::Pll);
    assert_eq!(d.vkl15, adc_reading_to_source(3000, 12_000, 3_300));
    assert_eq!(d.vsense, 2_750);
    // KL87 below 5 V: no current.
    assert_eq!(d.ikl87, 0);
    // Readings below the first table point give its temperature.
    assert_eq!(d.t_pcb, 125);
    assert_eq!(d.t_tle, 125);
    let adc1 = Adc1Result { tft: 819, pmon_kl87: 1500, ..adc1 };
    let d = sensor_data_from(adc0, adc1);
    assert!(d.tft == TftState::Temperature(-55));
    assert!(d.vkl87 >= 5000);
    assert!(d.ikl87 > 0);
}

#[test]
fn variable_inputs_clamped() {
    assert_eq!(variable_input_mv(20, true), 0);
    assert_eq!(variable_input_mv(4050, true), adc_reading_to_source(4095, 12_000, 3_300));
    assert_eq!(variable_input_mv(1000, false), adc_reading_to_source(1000, 12_000, 23_300));
}

#[test]
fn crc32c_check_value() {
    assert_eq!(crc32c(b"123456789"), 0xE3069283);
    assert_eq!(crc16(b"123456789"), 0x9283);
}

#[test]
fn eeprom_header_fields() {
    let h = EepromBlkHeader::new_with_raw_value(0).with_blk_id(300).with_version(5);
    assert_eq!(h.blk_id(), 300);
    assert_eq!(h.version(), 5);
    let mut h2 = h;
    h2.set_crc(0xBEEF);
    assert_eq!(h2.crc(), 0xBEEF);
    assert_eq!(h2.blk_id(), 300);
    assert_eq!(h2.version(), 5);
}

#[test]
fn eeprom_pages_roundtrip() {
    let mut data = [0u8; 60];
    for (i, d) in data.iter_mut().enumerate() {
        *d = i as u8;
    }
    let b = EepromBlock { header: EepromBlkHeader::new_with_raw_value(0x1234_5678), data };
    let packed = b.pack();
    assert_eq!(&packed[..4], &[0x78, 0x56, 0x34, 0x12]);
    let back = EepromBlock::unpack(packed);
    assert_eq!(back.header.raw_value, 0x1234_5678);
    assert_eq!(back.data, data);
    assert_eq!(back.pack(), packed);
}

#[test]
fn eeprom_init_frame() {
    let f = init_block_frame(2);
    assert_eq!(&f[..2], &[0, 128]);
    let blk = EepromBlock::unpack(f[2..].try_into().unwrap());
    assert_eq!(blk.header.blk_id(), 2);
    assert_eq!(blk.header.version(), 0);
    assert_eq!(blk.header.crc(), crc16(&[0u8; 60]));
    assert_eq!(blk.data, [0u8; 60]);
    assert_eq!(read_block_address(0x0102), [1, 2]);
}

#[test]
fn ram_test_progress() {
    assert_eq!(ram_buf_size(100, 164), 64);
    let mut w = 0x2004_0000u32;
    set_stack_watermark(&mut w, 0x2003_F123);
    assert_eq!(w, 0x2003_F000);
    set_stack_watermark(&mut w, 0x2003_FF00);
    assert_eq!(w, 0x2003_F000);
    let mut t = RamTest::new(0x2003_E000, 0x800, 0x2003_F800);
    let mut info = BootloaderRamInfo::default();
    assert_eq!(t.next_block(), Some(0x2003_E000));
    assert!(t.on_result(MemoryTestResult::Aborted, &mut info) == RamTestAction::Continue);
    assert_eq!(t.next_block(), Some(0x2003_E000));
    t.on_result(MemoryTestResult::Passed, &mut info);
    assert_eq!(t.next_block(), Some(0x2003_E800));
    t.on_result(MemoryTestResult::Passed, &mut info);
    assert_eq!(t.next_block(), Some(0x2003_F000));
    t.on_result(MemoryTestResult::Passed, &mut info);
    assert_eq!(t.next_block(), None);
    let mut t = RamTest::new(0x2000_0000, 0x800, 0x2004_0000);
    let r = t.on_result(MemoryTestResult::Failed { addr: 0x2000_0010, phase: 2, bit: 7 }, &mut info);
    assert!(r == RamTestAction::Reset);
    assert_eq!(info.ram_failure, Some((0x2000_0010, 7, 2)));
}

#[test]
fn struct_signatures() {
    assert_eq!(create_struct_signature(b""), 0);
    // 'a' + 0, 'b' + 1
    assert_eq!(create_struct_signature(b"ab"), 97 + 98 + 1);
    assert_eq!(create_struct_signature(b"ba"), 98 + 97 + 1);
    assert_eq!(create_struct_signature(&[255u8; 3]), 255 * 3 + 0 + 1 + 2);
}

#[test]
fn count_down_timers() {
    let mut t = EgsCountDownTimer(2);
    t.decrement();
    assert_eq!(t.0, 1);
    t.reset();
    assert_eq!(t.0, 0);
    t.decrement();
    assert_eq!(t.0, u16::MAX);
}
