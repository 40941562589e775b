use convert_case::{Case, Casing};
use nag52::candb::{CanDbError, CanDbParser, DataType};

const DB: &str = "# EGS52 layer\n\
ECU EGS52\n\
FRAME GS_218 (0x0218)\n\
SIGNAL GS_218h_GZC, OFFSET: 0, LEN: 4, DESC: Target gear, DATA TYPE ENUM\n\
  ENUM G_N, RAW: 0, DESC: Neutral\r\n\
ENUM _, RAW: 15, DESC: SNV\n\
\n\
SIGNAL TORQUE_REQ, OFFSET: 4, LEN: 12, DESC: Torque request, DATA TYPE NUMBER(_MULTIPLIER_: 0.25, _OFFSET_: -100)\n\
SIGNAL ISO_DATA, OFFSET: 16, LEN: 8, DESC: Diagnostic data, DATA TYPE ISO_TP\n\
SIGNAL GS_FEHLER, OFFSET: 24, LEN: 1, DESC: Fault, DATA TYPE BOOL\n\
FRAME GS_338 (0x338)\n\
ECU ESP\n\
FRAME BS_200 (0x0200)\n";

fn camel(s: &str) -> Vec<u8> {
    s.to_case(Case::UpperCamel).into_bytes()
}

#[test]
fn candb_reads_a_database() {
    let mut p = CanDbParser::default();
    assert_eq!(p.parse_file(DB), Ok(()));
    assert_eq!(p.curr_ecu, b"ESP".to_vec());
    assert_eq!(p.ecus.len(), 2);
    let (name, frames) = &p.ecus[0];
    assert_eq!(name, &b"EGS52".to_vec());
    assert_eq!(frames.len(), 2);
    assert_eq!(frames[0].name, b"GS_218".to_vec());
    assert_eq!(frames[0].id, 0x218);
    assert_eq!(frames[1].name, b"GS_338".to_vec());
    assert_eq!(frames[1].id, 0x338);
    assert!(frames[1].signals.is_empty());

    let sigs = &frames[0].signals;
    assert_eq!(sigs.len(), 4);
    assert_eq!(sigs[0].name, camel("GS_218h_GZC"));
    assert_eq!(sigs[0].desc, b"Target gear".to_vec());
    assert_eq!(sigs[0].offset, 0);
    assert_eq!(sigs[0].len, 4);
    match &sigs[0].dt {
        DataType::Enum(entries) => {
            assert_eq!(entries.len(), 2);
            assert_eq!(entries[0], (0, camel("G_N"), b"Neutral".to_vec()));
            assert_eq!(entries[1], (15, b"Underscore".to_vec(), b"SNV".to_vec()));
        }
        _ => panic!("an enum signal"),
    }
    match &sigs[1].dt {
        DataType::Int { offset, multi } => {
            assert_eq!(offset, &b"-100".to_vec());
            assert_eq!(multi, &b"0.25".to_vec());
            let m: f32 = String::from_utf8(multi.clone()).unwrap().parse().unwrap();
            assert_eq!(m, 0.25);
        }
        _ => panic!("a number signal"),
    }
    assert_eq!(sigs[1].offset, 4);
    assert_eq!(sigs[1].len, 12);
    assert!(matches!(sigs[2].dt, DataType::IsoTp));
    assert!(matches!(sigs[3].dt, DataType::Bool));

    let (name, frames) = &p.ecus[1];
    assert_eq!(name, &b"ESP".to_vec());
    assert_eq!(frames.len(), 1);
    assert_eq!(frames[0].id, 0x200);
}

#[test]
fn candb_basic_data_reads_a_signal_line() {
    let sig = CanDbParser::basic_data(
        "SIGNAL KICKDOWN, OFFSET: 12, LEN: 1, DESC: Kickdown, pressed, DATA TYPE BOOL",
    )
    .unwrap();
    assert_eq!(sig.name, camel("KICKDOWN"));
    assert_eq!(sig.offset, 12);
    assert_eq!(sig.len, 1);
    assert_eq!(sig.desc, b"Kickdown, pressed".to_vec());
    assert!(matches!(sig.dt, DataType::Bool));
}

#[test]
fn candb_basic_data_refuses_bad_lines() {
    // No length part.
    assert!(CanDbParser::basic_data("SIGNAL A, OFFSET: 1").is_none());
    // Offset that is not a number.
    assert!(CanDbParser::basic_data("SIGNAL A, OFFSET: x, LEN: 1, DESC: d, DATA TYPE BOOL").is_none());
    // Unknown data type.
    assert!(CanDbParser::basic_data("SIGNAL A, OFFSET: 1, LEN: 1, DESC: d, DATA TYPE FLOAT").is_none());
    // Multiplier that is not a number.
    assert!(CanDbParser::basic_data(
        "SIGNAL A, OFFSET: 1, LEN: 1, DESC: d, DATA TYPE NUMBER(_MULTIPLIER_: 1.2.3, _OFFSET_: 0)"
    )
    .is_none());
    // Offsets are u32: one more does not fit.
    assert!(CanDbParser::basic_data("SIGNAL A, OFFSET: 4294967296, LEN: 1, DESC: d, DATA TYPE BOOL").is_none());
    assert!(CanDbParser::basic_data("SIGNAL A, OFFSET: +4294967295, LEN: 1, DESC: d, DATA TYPE BOOL").is_some());
}

#[test]
fn candb_number_texts_follow_the_float_grammar() {
    for ok in ["1", "1.", ".5", "-2.5e-3", "+1E10", "inf", "-Infinity", "NaN"] {
        let line = format!("SIGNAL A, OFFSET: 0, LEN: 8, DESC: d, DATA TYPE NUMBER(_MULTIPLIER_: {ok}, _OFFSET_: 0)");
        assert!(CanDbParser::basic_data(&line).is_some(), "{ok}");
        assert!(ok.parse::<f32>().is_ok());
    }
    for bad in ["", ".", "1e", "e5", "1.5.2", "infinit", "0x10", " 1"] {
        let line = format!("SIGNAL A, OFFSET: 0, LEN: 8, DESC: d, DATA TYPE NUMBER(_MULTIPLIER_: {bad}, _OFFSET_: 0)");
        assert!(CanDbParser::basic_data(&line).is_none(), "{bad:?}");
        assert!(bad.parse::<f32>().is_err());
    }
}

#[test]
fn candb_errors_name_the_refused_line() {
    let mut p = CanDbParser::default();
    assert_eq!(p.parse_file("FRAME A (0x0001)"), Err(CanDbError::FrameWithoutEcu));

    let mut p = CanDbParser::default();
    assert_eq!(p.parse_file("ECU A\nECU B\nECU A\nFRAME F (0x01)"), Err(CanDbError::DuplicateEcu));
    // The state is the one before the refused line.
    assert_eq!(p.ecus.len(), 2);
    assert_eq!(p.curr_ecu, b"B".to_vec());

    let mut p = CanDbParser::default();
    assert_eq!(p.parse_file("ECU A\nBOGUS"), Err(CanDbError::InvalidEntry));

    let mut p = CanDbParser::default();
    assert_eq!(p.parse_file("ECU A\nFRAME F"), Err(CanDbError::MalformedFrame));
    let mut p = CanDbParser::default();
    assert_eq!(p.parse_file("ECU A\nFRAME F (0x10000)"), Err(CanDbError::MalformedFrame));
    let mut p = CanDbParser::default();
    assert_eq!(p.parse_file("ECU A\nFRAME F (0)"), Err(CanDbError::MalformedFrame));

    let mut p = CanDbParser::default();
    assert_eq!(
        p.parse_file("ECU A\nFRAME F (0x1)\nSIGNAL S, OFFSET: 0, LEN: 1, DESC: d, DATA TYPE WORD"),
        Err(CanDbError::MalformedSignal)
    );

    let mut p = CanDbParser::default();
    assert_eq!(
        p.parse_file("ECU A\nFRAME F (0x1)\nENUM X, RAW: 1, DESC: d"),
        Err(CanDbError::EnumWithoutSignal)
    );

    let mut p = CanDbParser::default();
    assert_eq!(
        p.parse_file(
            "ECU A\nFRAME F (0x1)\nSIGNAL S, OFFSET: 0, LEN: 1, DESC: d, DATA TYPE BOOL\nENUM X, RAW: 1, DESC: d"
        ),
        Err(CanDbError::EnumOnNonEnumSignal)
    );

    let mut p = CanDbParser::default();
    assert_eq!(
        p.parse_file(
            "ECU A\nFRAME F (0x1)\nSIGNAL S, OFFSET: 0, LEN: 1, DESC: d, DATA TYPE ENUM\nENUM X, RAW: one, DESC: d"
        ),
        Err(CanDbError::MalformedEnum)
    );
}

#[test]
fn candb_entries_without_a_frame_are_dropped() {
    let mut p = CanDbParser::default();
    assert_eq!(
        p.parse_file("ECU A\nSIGNAL S, OFFSET: 0, LEN: 1, DESC: d, DATA TYPE ENUM\nENUM X, RAW: 1, DESC: d"),
        Ok(())
    );
    assert_eq!(p.ecus.len(), 1);
    assert!(p.ecus[0].1.is_empty());
}

#[test]
fn candb_single_calls() {
    let mut p = CanDbParser::default();
    assert_eq!(p.new_frame("F", 1), Err(CanDbError::FrameWithoutEcu));
    assert_eq!(p.new_ecu("A"), Ok(()));
    assert_eq!(p.new_ecu("A"), Err(CanDbError::DuplicateEcu));
    assert!(p.get_current_working_frame().is_none());
    assert_eq!(p.new_frame("F", 7), Ok(()));
    let f = p.get_current_working_frame().unwrap();
    assert_eq!(f.id, 7);
    f.id = 8;
    assert_eq!(p.ecus[0].1[0].id, 8);
    assert_eq!(p.parse_line(b"   # a comment"), Ok(()));
    assert_eq!(p.parse_line(b"FRAME G (0xAb)"), Ok(()));
    assert_eq!(p.ecus[0].1[1].id, 0xAB);
}

#[test]
fn candb_reading_in_two_parts_is_reading_the_join() {
    let a = "ECU A\nFRAME F (0x0010)\nSIGNAL S, OFFSET: 0, LEN: 2, DESC: d, DATA TYPE ENUM";
    let b = "ENUM ON, RAW: 1, DESC: on\nFRAME G (0x0011)";
    let mut whole = CanDbParser::default();
    assert_eq!(whole.parse_file(&format!("{a}\n{b}")), Ok(()));
    let mut parts = CanDbParser::default();
    assert_eq!(parts.parse_file(a), Ok(()));
    assert_eq!(parts.parse_file(b), Ok(()));
    assert_eq!(whole.curr_ecu, parts.curr_ecu);
    assert_eq!(whole.ecus.len(), parts.ecus.len());
    let (wf, pf) = (&whole.ecus[0].1, &parts.ecus[0].1);
    assert_eq!(wf.len(), 2);
    assert_eq!(pf.len(), 2);
    for k in 0..2 {
        assert_eq!(wf[k].name, pf[k].name);
        assert_eq!(wf[k].id, pf[k].id);
        assert_eq!(wf[k].signals.len(), pf[k].signals.len());
    }
    match (&wf[0].signals[0].dt, &pf[0].signals[0].dt) {
        (DataType::Enum(x), DataType::Enum(y)) => assert_eq!(x, y),
        _ => panic!("enum signals"),
    }
}
