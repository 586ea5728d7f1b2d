use pylontech_mqtt_adapter::hexcodec::HexError;
use pylontech_mqtt_adapter::payload::{
    module_serial_from_response, parse_management_info_payload, parse_manufacturer_info, parse_module_serial_number,
    parse_system_parameters_payload, parse_values_single_payload,
};
use pylontech_mqtt_adapter::protocol::{
    encode_command, encode_info_length, frame_checksum, parse_hex_u16, parse_hex_u8, parse_response_frame,
    validate_info_length, FrameAssembler, ProtocolError, ResponseFrame,
};

#[test]
fn encode_command_matches_python_frame_format() {
    let encoded = encode_command(2, 0x42, &[0xFF]).unwrap();
    assert_eq!(encoded, b"~20024642E002FFFD09\r");
}

#[test]
fn parse_single_module_values_frame() {
    let raw = b"~20024600D05E1002080D020D020D020D030D000D010D010D03050B7D0B690B690B690B73FFFA680EFFFF04FFFF00000174E401B198E906\r";
    let frame = parse_response_frame(raw).unwrap();
    let state = parse_values_single_payload(2, frame.info.as_slice()).unwrap();

    let cell_0_v = f64::from(state.cell_voltages_mv[0]) / 1000.0;
    let temperature_c = (f64::from(state.average_bms_temperature_dk) - 2731.0) / 10.0;
    let current_a = f64::from(state.current_da) / 10.0;
    let voltage_v = f64::from(state.voltage_mv) / 1000.0;
    let remaining_ah = f64::from(state.remaining_capacity_mah) / 1000.0;
    let total_ah = f64::from(state.total_capacity_mah) / 1000.0;
    let soc_ratio = remaining_ah / total_ah;

    assert_eq!(state.address, 2);
    assert_eq!(state.cell_voltages_mv.len(), 8);
    assert!((cell_0_v - 3.33).abs() < 1e-9);
    assert!((temperature_c - 21.0).abs() < 1e-9);
    assert!((current_a + 0.6).abs() < 1e-9);
    assert!((voltage_v - 26.638).abs() < 1e-9);
    assert_eq!(state.cycle_number, 0);
    assert!((remaining_ah - 95.460).abs() < 1e-9);
    assert!((total_ah - 111.0).abs() < 1e-9);
    assert!((soc_ratio - 0.86).abs() < 1e-9);
}

#[test]
fn parse_module_serial_payload() {
    let info = [
        0x10, b'S', b'E', b'R', b'1', b'2', b'3', b'4', b'5', b'6', b'7', b'8', b'9', b'0', b'A', b'B', b'C',
    ];
    let serial = parse_module_serial_number(&info).unwrap();
    assert_eq!(serial, "SER1234567890ABC");
}

#[test]
fn parse_system_parameters_payload_uses_python_scaling() {
    let info = [
        0x01, 0x0E, 0x74, 0x0B, 0xEA, 0x0B, 0x54, 0x0B, 0xF9, 0x0B, 0xB1, 0x00, 0x66, 0xD2, 0xF0, 0xB3, 0xB0, 0xAD,
        0xD4, 0x0B, 0xF9, 0x0B, 0xB1, 0xFF, 0x9C,
    ];
    let p = parse_system_parameters_payload(&info).unwrap();
    let volts = |mv: f64| mv / 1000.0;
    let celsius = |dk: i16| (f64::from(dk) - 2731.0) / 10.0;
    let amps = |da: i16| f64::from(da) / 10.0;

    assert!((volts(f64::from(p.cell_high_voltage_limit_mv)) - 3.7).abs() < 1e-9);
    assert!((volts(f64::from(p.cell_low_voltage_limit_mv)) - 3.05).abs() < 1e-9);
    assert!((volts(f64::from(p.cell_under_voltage_limit_mv)) - 2.9).abs() < 1e-9);
    assert!((celsius(p.charge_high_temperature_limit_dk) - 33.4).abs() < 1e-9);
    assert!((celsius(p.charge_low_temperature_limit_dk) - 26.2).abs() < 1e-9);
    assert!((amps(p.charge_current_limit_da) - 10.2).abs() < 1e-9);
    assert!((volts(f64::from(p.module_high_voltage_limit_mv)) - 54.0).abs() < 1e-9);
    assert!((volts(f64::from(p.module_low_voltage_limit_mv)) - 46.0).abs() < 1e-9);
    assert!((volts(f64::from(p.module_under_voltage_limit_mv)) - 44.5).abs() < 1e-9);
    assert!((celsius(p.discharge_high_temperature_limit_dk) - 33.4).abs() < 1e-9);
    assert!((celsius(p.discharge_low_temperature_limit_dk) - 26.2).abs() < 1e-9);
    assert!((amps(p.discharge_current_limit_da) + 10.0).abs() < 1e-9);
}

#[test]
fn parse_management_payload_uses_python_bit_layout() {
    let raw = b"~20024600B014026EF05AA0022BFDD5C0F915\r";
    let frame = parse_response_frame(raw).unwrap();
    let management_info = parse_management_info_payload(frame.info.as_slice()).unwrap();

    assert!((f64::from(management_info.charge_voltage_limit_mv) / 1000.0 - 28.4).abs() < 1e-9);
    assert!((f64::from(management_info.discharge_voltage_limit_mv) / 1000.0 - 23.2).abs() < 1e-9);
    assert!((f64::from(management_info.charge_current_limit_da) / 10.0 - 55.5).abs() < 1e-9);
    assert!((f64::from(management_info.discharge_current_limit_da) / 10.0 + 55.5).abs() < 1e-9);
    assert!(management_info.status.charge_enable);
    assert!(management_info.status.discharge_enable);
    assert!(!management_info.status.charge_immediately_2);
    assert!(!management_info.status.charge_immediately_1);
    assert!(!management_info.status.full_charge_request);
    assert!(!management_info.status.should_charge);
}

fn invalid_frame_text(error: ProtocolError) -> String {
    match error {
        ProtocolError::InvalidFrame(m) => m,
        other => panic!("expected an invalid frame, got {:?}", other),
    }
}

#[test]
fn encoded_frames_parse_back() {
    for (address, command, info) in [(2u8, 0x42u8, vec![2u8]), (9, 0x93, vec![]), (0x41, 0x92, vec![0, 0x7f, 0x80, 0xff])] {
        let raw = encode_command(address, command, &info).unwrap();
        let frame = parse_response_frame(&raw).unwrap();
        assert_eq!(frame, ResponseFrame { address, cid2: command, info });
    }
}

#[test]
fn encode_command_refuses_oversized_info() {
    let info = vec![0u8; 0x800];
    let error = encode_command(2, 0x42, &info).unwrap_err();
    assert_eq!(invalid_frame_text(error), "encoded info too large: 4096 bytes");
    assert!(encode_command(2, 0x42, &vec![0u8; 0x7FF]).is_ok());
}

#[test]
fn length_id_carries_check_nibble() {
    assert_eq!(encode_info_length(0).unwrap(), 0);
    assert_eq!(encode_info_length(2).unwrap(), 0xE002);
    assert_eq!(encode_info_length(0x12).unwrap(), 0xD012);
    assert_eq!(encode_info_length(0xFFF).unwrap(), 0x3FFF);
    // nibble sum 16: the check nibble is 0
    assert_eq!(encode_info_length(0x0F1).unwrap(), 0x00F1);
    assert_eq!(invalid_frame_text(encode_info_length(0x1000).unwrap_err()), "encoded info too large: 4096 bytes");
}

#[test]
fn checksum_is_twos_complement_of_sum() {
    assert_eq!(frame_checksum(b"20024642E002FF"), 0xFD09);
    assert_eq!(frame_checksum(b""), 0);
    let sum: u32 = b"20024600B014026EF05AA0022BFDD5C0".iter().map(|b| u32::from(*b)).sum();
    assert_eq!((sum + u32::from(frame_checksum(b"20024600B014026EF05AA0022BFDD5C0"))) % 0x10000, 0);
}

#[test]
fn hex_fields_follow_from_str_radix() {
    assert_eq!(parse_hex_u8(b"2a").unwrap(), 0x2a);
    assert_eq!(parse_hex_u8(b"+F").unwrap(), 0x0f);
    assert_eq!(parse_hex_u16(b"FD09").unwrap(), 0xFD09);
    assert_eq!(invalid_frame_text(parse_hex_u8(b"G1").unwrap_err()), "invalid digit found in string");
    assert_eq!(invalid_frame_text(parse_hex_u8(b"-1").unwrap_err()), "invalid digit found in string");
    assert_eq!(invalid_frame_text(parse_hex_u8(b"123").unwrap_err()), "expected 2 hex digits, got 3");
    assert_eq!(invalid_frame_text(parse_hex_u16(b"12").unwrap_err()), "expected 4 hex digits, got 2");
    let utf8 = std::str::from_utf8(&[0xff, 0x31]).unwrap_err().to_string();
    assert_eq!(invalid_frame_text(parse_hex_u8(&[0xff, 0x31]).unwrap_err()), utf8);
}

#[test]
fn frame_errors_in_order() {
    assert_eq!(invalid_frame_text(parse_response_frame(b"~2002\r").unwrap_err()), "frame too short: 6 bytes");
    assert_eq!(
        invalid_frame_text(parse_response_frame(b"!20024642E002FFFD09\r").unwrap_err()),
        "frame did not start with '~'"
    );
    assert_eq!(
        invalid_frame_text(parse_response_frame(b"~20024642E002FFFD09\n").unwrap_err()),
        "frame did not end with carriage return"
    );
    match parse_response_frame(b"~20024642E002FFFD08\r").unwrap_err() {
        ProtocolError::ChecksumMismatch { expected, actual } => {
            assert_eq!(expected, 0xFD08);
            assert_eq!(actual, 0xFD09);
        }
        other => panic!("unexpected {:?}", other),
    }
    let version = encode_command(2, 0x42, &[1]).unwrap();
    let mut wrong = version.clone();
    wrong[1] = b'3';
    let body_end = wrong.len() - 5;
    let checksum = frame_checksum(&wrong[1..body_end]);
    let digits = format!("{checksum:04X}");
    wrong[body_end..body_end + 4].copy_from_slice(digits.as_bytes());
    assert_eq!(invalid_frame_text(parse_response_frame(&wrong).unwrap_err()), "unexpected protocol version 30");
}

#[test]
fn info_length_mismatch_and_hex_errors() {
    assert!(matches!(
        validate_info_length(0xE002, 4),
        Err(ProtocolError::InvalidInfoLength { declared: 2, actual: 4 })
    ));
    assert_eq!(invalid_frame_text(validate_info_length(0x0002, 2).unwrap_err()), "invalid length checksum nibble in 0002");
    assert!(validate_info_length(0xF000, 0).is_ok());
    assert!(validate_info_length(0xE002, 2).is_ok());
    // A frame whose info is not hexadecimal.
    let body = b"20024642E002GF";
    let checksum = frame_checksum(body);
    let raw = format!("~{}{:04X}\r", std::str::from_utf8(body).unwrap(), checksum);
    match parse_response_frame(raw.as_bytes()).unwrap_err() {
        ProtocolError::Hex(HexError::InvalidHexCharacter { c, index }) => {
            assert_eq!(c, 'G');
            assert_eq!(index, 0);
        }
        other => panic!("unexpected {:?}", other),
    }
    let error = ProtocolError::Hex(HexError::InvalidHexCharacter { c: 'G', index: 0 });
    assert_eq!(error.message(), "hex decode error: Invalid character 'G' at position 0");
}

#[test]
fn frame_assembler_skips_noise_and_stops_at_carriage_return() {
    let mut assembler = FrameAssembler::new();
    let mut frames = Vec::new();
    for byte in b"xx~2002\r\r~AB~C\rzz" {
        if let Some(frame) = assembler.push_byte(*byte) {
            frames.push(frame);
        }
    }
    assert_eq!(frames, vec![b"~2002\r".to_vec(), b"~AB~C\r".to_vec()]);
}

#[test]
fn payload_errors_name_the_missing_field() {
    assert!(matches!(
        parse_module_serial_number(&[0x10, b'S']),
        Err(ProtocolError::UnexpectedPayloadEnd { field: "ModuleSerialNumber" })
    ));
    assert!(matches!(parse_module_serial_number(&[]), Err(ProtocolError::UnexpectedPayloadEnd { field: "CommandValue" })));
    let mut long = vec![0x10u8];
    long.extend_from_slice(b"SER1234567890ABC");
    long.push(0);
    assert_eq!(invalid_frame_text(parse_module_serial_number(&long).unwrap_err()), "payload had 1 unexpected trailing bytes");
    assert!(matches!(
        parse_system_parameters_payload(&[0x01, 0x0E, 0x74, 0x0B]),
        Err(ProtocolError::UnexpectedPayloadEnd { field: "CellLowVoltageLimit" })
    ));
    assert_eq!(invalid_frame_text(parse_system_parameters_payload(&[]).unwrap_err()), "system parameters payload was empty");
    assert_eq!(invalid_frame_text(parse_management_info_payload(&[]).unwrap_err()), "management info payload was empty");
    assert!(matches!(
        parse_management_info_payload(&[0, 1, 2, 3, 4, 5, 6, 7, 8]),
        Err(ProtocolError::UnexpectedPayloadEnd { field: "Status" })
    ));
    assert_eq!(invalid_frame_text(parse_values_single_payload(2, &[]).unwrap_err()), "values payload was empty");
    assert_eq!(
        invalid_frame_text(parse_values_single_payload(2, &[0, 3]).unwrap_err()),
        "requested module 2 but response reported 3"
    );
    assert_eq!(
        invalid_frame_text(parse_values_single_payload(2, &[0, 2, 1, 0x0D, 0x02, 0]).unwrap_err()),
        "module 2 reported zero temperatures"
    );
    assert!(matches!(
        parse_values_single_payload(2, &[0, 2, 2, 0x0D, 0x02]),
        Err(ProtocolError::UnexpectedPayloadEnd { field: "CellVoltage" })
    ));
}

#[test]
fn values_without_cells_or_capacity_are_refused() {
    // no cells, one temperature, then current .. cycle with total capacity 1
    let mut no_cells = vec![0u8, 2, 0, 1, 0x0B, 0x7D, 0, 0, 0x68, 0x0E, 0, 1, 2, 0, 1, 0, 0];
    assert_eq!(
        invalid_frame_text(parse_values_single_payload(2, &no_cells).unwrap_err()),
        "invalid state: module 2 had no cell voltages"
    );
    no_cells[2] = 1;
    no_cells.splice(3..3, [0x0D, 0x02]);
    // total capacity 0
    let len = no_cells.len();
    no_cells[len - 4] = 0;
    no_cells[len - 3] = 0;
    assert_eq!(
        invalid_frame_text(parse_values_single_payload(2, &no_cells).unwrap_err()),
        "invalid state: module 2 total capacity must be positive"
    );
}

#[test]
fn management_status_bits() {
    let info = [0u8, 0, 0, 0, 0, 0, 0, 0, 0, 0b0011_1000];
    let m = parse_management_info_payload(&info).unwrap();
    assert!(!m.status.charge_enable);
    assert!(!m.status.discharge_enable);
    assert!(m.status.charge_immediately_2);
    assert!(m.status.charge_immediately_1);
    assert!(m.status.full_charge_request);
    assert!(m.status.should_charge);
    let only_one = [0u8, 0, 0, 0, 0, 0, 0, 0, 0, 0b0000_1000];
    let m = parse_management_info_payload(&only_one).unwrap();
    assert!(m.status.should_charge && !m.status.charge_immediately_1);
}

#[test]
fn manufacturer_info_is_trimmed_and_versioned() {
    let mut info = b"US2000C\0\0\0".to_vec();
    info.extend_from_slice(&[1, 2]);
    info.extend_from_slice(b"  Pylon\0 ");
    let m = parse_manufacturer_info(&info).unwrap();
    assert_eq!(m.device_name, "US2000C");
    assert_eq!(m.software_version, "1.2");
    assert_eq!(m.manufacturer_name, "Pylon\0");
    assert!(matches!(parse_manufacturer_info(b"short"), Err(ProtocolError::UnexpectedPayloadEnd { field: "DeviceName" })));
}

#[test]
fn serial_probe_treats_timeout_as_absent_module() {
    assert_eq!(module_serial_from_response(Err(ProtocolError::Timeout)).unwrap(), None);
    let mut info = vec![0x10u8];
    info.extend_from_slice(b"SER1234567890ABC");
    let frame = ResponseFrame { address: 2, cid2: 0, info };
    assert_eq!(module_serial_from_response(Ok(frame)).unwrap(), Some("SER1234567890ABC".to_string()));
    assert!(matches!(
        module_serial_from_response(Err(ProtocolError::InvalidFrame("x".to_string()))),
        Err(ProtocolError::InvalidFrame(_))
    ));
}

#[test]
fn assembler_returns_an_encoded_frame_whole() {
    let raw = encode_command(3, 0x47, &[3, 0x0d, 0x7e]).unwrap();
    let mut assembler = FrameAssembler::new();
    let mut out = None;
    for (i, byte) in raw.iter().enumerate() {
        let got = assembler.push_byte(*byte);
        if i + 1 < raw.len() {
            assert!(got.is_none());
        } else {
            out = got;
        }
    }
    assert_eq!(out, Some(raw));
}

#[test]
fn one_changed_byte_breaks_a_valid_frame() {
    let frame = encode_command(2, 0x42, &[2]).unwrap();
    assert!(parse_response_frame(&frame).is_ok());
    let data_end = frame.len() - 5;
    for j in (0..data_end).chain(std::iter::once(frame.len() - 1)) {
        let mut changed = frame.clone();
        changed[j] = changed[j].wrapping_add(1);
        assert!(parse_response_frame(&changed).is_err(), "byte {} changed", j);
    }
}
