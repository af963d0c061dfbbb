use nep_gw::checksum::validate_checksums;
use nep_gw::telemetry::{format_version, parse_payload, NepTelemetry, PayloadError};

fn ac_power_w(t: &NepTelemetry) -> f64 {
    t.ac_power_raw as f64 / 100.0
}

fn ac_voltage_v(t: &NepTelemetry) -> f64 {
    t.ac_voltage_raw as f64 / 25.6
}

fn ac_freq_hz(t: &NepTelemetry) -> f64 {
    t.ac_freq_raw as f64 / 256.0
}

fn temp_c(t: &NepTelemetry) -> f64 {
    t.temp_raw as f64 / 100.0
}

fn daily_energy_wh(t: &NepTelemetry) -> f64 {
    t.daily_energy_raw as f64 / 5.0
}

fn reactive_power_var(t: &NepTelemetry) -> f64 {
    t.reactive_power_raw as f64 / 100.0
}

fn dc_current_ch1_a(t: &NepTelemetry) -> f64 {
    t.dc_current_ch1_raw as f64 / 10.0
}

fn dc_current_ch2_a(t: &NepTelemetry) -> f64 {
    t.dc_current_ch2_raw as f64 / 10.0
}

fn dc_current_a(t: &NepTelemetry) -> f64 {
    dc_current_ch1_a(t) + dc_current_ch2_a(t)
}

#[test]
fn test_parse_payload1() {
    let hex = "7926004014ffffffffffffffff1c00c3c3c3c3785634120000755752172010002bfe31cf145c1a0684bb2e395f";
    let bytes = hex::decode(hex).unwrap();
    assert!(validate_checksums(&bytes));
    let telemetry = parse_payload(&bytes).unwrap();
    assert_eq!(telemetry.serial_number, 0x12345678);
    assert_eq!(ac_power_w(&telemetry), 223.89);
    assert_eq!(ac_voltage_v(&telemetry), 233.203125); // 5970 / 25.6
    assert_eq!(ac_freq_hz(&telemetry), 49.9921875); // 12798 / 256
    assert_eq!(temp_c(&telemetry), 53.27);
    assert_eq!(daily_energy_wh(&telemetry), 1349.6);
}

#[test]
fn test_parse_payload6() {
    let hex = "7926004014ffffffffffffffff1c00c3c3c3c3785634120000443552183010001af8312f136a21068402026f5b";
    let bytes = hex::decode(hex).unwrap();
    assert!(validate_checksums(&bytes));
    let telemetry = parse_payload(&bytes).unwrap();
    assert_eq!(telemetry.serial_number, 0x12345678);
    assert_eq!(ac_power_w(&telemetry), 136.36);
    assert_eq!(dc_current_a(&telemetry), 2.6);
    assert_eq!(reactive_power_var(&telemetry), 5.14);
    assert_eq!(temp_c(&telemetry), 49.11);
    assert_eq!(daily_energy_wh(&telemetry), 1710.8);
}

#[test]
fn test_parse_payload_bdm800() {
    let hex = "792600401400000f0f0f0f00001c00c3c3c3c3efbeadde0000bd56cb172010262ab0317013ab12058c05e02270";
    let bytes = hex::decode(hex).unwrap();
    assert!(validate_checksums(&bytes));
    let t = parse_payload(&bytes).unwrap();

    assert_eq!(t.serial_number, 0xdeadbeef);
    assert_eq!(ac_power_w(&t), 222.05);
    assert_eq!(ac_freq_hz(&t), 49.6875); // 12720 / 256
    assert!((ac_voltage_v(&t) - 237.93).abs() < 0.01); // 6091 / 25.6
    assert_eq!(daily_energy_wh(&t), 955.8);

    assert_eq!(dc_current_ch1_a(&t), 3.8); // byte 31 = 0x26 = 38 -> /10
    assert_eq!(dc_current_ch2_a(&t), 4.2); // byte 32 = 0x2a = 42 -> /10
    assert_eq!(dc_current_a(&t), 8.0);
}

#[test]
fn test_parse_payload_bdm800_post_reset_sync_marker() {
    let hex = "792600401400000f0f0f0f00001c00ffffffffefbeadde0000b8ae581650104a55a631cf149104058c94cd1a42";
    let bytes = hex::decode(hex).unwrap();
    assert!(validate_checksums(&bytes));
    let t = parse_payload(&bytes).unwrap();

    assert_eq!(t.serial_number, 0xdeadbeef);
    assert_eq!(ac_power_w(&t), 447.28);
    assert!((ac_voltage_v(&t) - 223.44).abs() < 0.01); // 5720 / 25.6
    assert_eq!(ac_freq_hz(&t), 49.6484375); // 12710 / 256
    assert_eq!(temp_c(&t), 53.27);
    assert_eq!(daily_energy_wh(&t), 233.8);
    assert_eq!(dc_current_ch1_a(&t), 7.4); // byte 31 = 0x4a = 74 -> /10
    assert_eq!(dc_current_ch2_a(&t), 8.5); // byte 32 = 0x55 = 85 -> /10
    assert_eq!(reactive_power_var(&t), -129.08);
}

#[test]
fn test_parse_payload_rejects_bad_checksums() {
    let hex = "792600401400000f0f0f0f00001c00ffffffffefbeadde0000b8ae581650104a55a631cf149104058c94cd1a42";
    let mut bytes = hex::decode(hex).unwrap();
    bytes[25] ^= 0x01;
    assert!(!validate_checksums(&bytes));
    assert_eq!(
        parse_payload(&bytes).unwrap_err().message(),
        "Checksum validation failed"
    );
}

// ---------------------------------------------------------------------------

const BDM800_RESET: &str = "792600401400000f0f0f0f00001c00ffffffffefbeadde0000b8ae581650104a55a631cf149104058c94cd1a42";
const BDM400: &str = "7926004014ffffffffffffffff1c00c3c3c3c3785634120000755752172010002bfe31cf145c1a0684bb2e395f";

/// Recomputes both checksums of a packet in place.
fn seal(bytes: &mut [u8]) {
    let mut sum: u8 = 0;
    let mut xor: u8 = 0;
    for &b in &bytes[1..43] {
        sum = sum.wrapping_add(b);
        xor ^= b;
    }
    bytes[43] = sum;
    bytes[44] = xor;
}

#[test]
fn raw_fields_of_bdm800_packet() {
    let bytes = hex::decode(BDM800_RESET).unwrap();
    let t = parse_payload(&bytes).unwrap();
    assert_eq!(t.status_code, 0);
    assert_eq!(t.ac_power_raw, 44728);
    assert_eq!(t.ac_voltage_raw, 5720);
    assert_eq!(t.operating_flags, 0x1050);
    assert_eq!(t.dc_current_ch1_raw, 0x4a);
    assert_eq!(t.dc_current_ch2_raw, 0x55);
    assert_eq!(t.dc_current_total_raw(), 0x4a + 0x55);
    assert_eq!(t.ac_freq_raw, 12710);
    assert_eq!(t.temp_raw, 5327);
    assert_eq!(t.daily_energy_raw, 1169);
    assert_eq!(t.version_raw, 0x8c05);
    assert_eq!(t.version, "358.45");
    assert_eq!(t.reactive_power_raw, -12908);
}

#[test]
fn every_corrupted_body_byte_is_detected() {
    let bytes = hex::decode(BDM800_RESET).unwrap();
    assert!(validate_checksums(&bytes));
    for i in 1..45 {
        for flip in [0x01u8, 0x80, 0xff] {
            let mut corrupted = bytes.clone();
            corrupted[i] ^= flip;
            assert!(!validate_checksums(&corrupted), "byte {} flip {:#x}", i, flip);
        }
    }
}

#[test]
fn short_payload_is_refused_with_its_length() {
    let bytes = hex::decode(BDM400).unwrap();
    assert!(!validate_checksums(&bytes[..44]));
    let err = parse_payload(&bytes[..44]).unwrap_err();
    assert_eq!(err, PayloadError::TooShort { len: 44 });
    assert_eq!(err.message(), "Payload too short: expected 45 bytes, got 44");
    assert_eq!(
        parse_payload(&[]).unwrap_err().message(),
        "Payload too short: expected 45 bytes, got 0"
    );
}

#[test]
fn bad_signature_is_a_header_error() {
    let mut bytes = hex::decode(BDM400).unwrap();
    bytes[0] = 0x78; // not covered by the checksums
    assert!(validate_checksums(&bytes));
    let err = parse_payload(&bytes).unwrap_err();
    assert_eq!(err, PayloadError::HeaderMismatch);
    assert!(err.message().starts_with("Header parsing failed"));
}

#[test]
fn bad_command_or_length_is_a_header_error() {
    for i in [1usize, 2, 3, 4, 13, 14] {
        let mut bytes = hex::decode(BDM400).unwrap();
        bytes[i] ^= 0x01;
        seal(&mut bytes);
        assert!(validate_checksums(&bytes));
        assert_eq!(parse_payload(&bytes).unwrap_err(), PayloadError::HeaderMismatch, "offset {}", i);
    }
}

#[test]
fn gateway_identifier_and_sync_marker_are_ignored() {
    let original = hex::decode(BDM400).unwrap();
    let reference = parse_payload(&original).unwrap();
    let mut bytes = original.clone();
    for i in 5..13 {
        bytes[i] = 0x5a;
    }
    for i in 15..19 {
        bytes[i] = 0x00;
    }
    seal(&mut bytes);
    let t = parse_payload(&bytes).unwrap();
    assert_eq!(t.serial_number, reference.serial_number);
    assert_eq!(t.ac_power_raw, reference.ac_power_raw);
    assert_eq!(t.version, reference.version);
}

#[test]
fn trailing_bytes_are_ignored() {
    let mut bytes = hex::decode(BDM400).unwrap();
    bytes.extend_from_slice(&[1, 2, 3]);
    let t = parse_payload(&bytes).unwrap();
    assert_eq!(t.serial_number, 0x12345678);
}

#[test]
fn single_input_total_matches_big_endian_word() {
    let bytes = hex::decode(BDM400).unwrap();
    let t = parse_payload(&bytes).unwrap();
    assert_eq!(bytes[31], 0);
    let be = u16::from_be_bytes([bytes[31], bytes[32]]);
    assert_eq!(t.dc_current_total_raw(), be);
}

#[test]
fn negative_reactive_power_extremes() {
    let mut bytes = hex::decode(BDM400).unwrap();
    bytes[41] = 0x00;
    bytes[42] = 0x80;
    seal(&mut bytes);
    assert_eq!(parse_payload(&bytes).unwrap().reactive_power_raw, i16::MIN);
    bytes[41] = 0xff;
    bytes[42] = 0x7f;
    seal(&mut bytes);
    assert_eq!(parse_payload(&bytes).unwrap().reactive_power_raw, i16::MAX);
}

#[test]
fn version_text_pads_the_minor_part() {
    assert_eq!(format_version(0), "0.00");
    assert_eq!(format_version(105), "1.05");
    assert_eq!(format_version(4202), "42.02");
    assert_eq!(format_version(65535), "655.35");
}

#[test]
fn error_states_and_operating_modes() {
    let bytes = hex::decode(BDM400).unwrap();
    let mut t = parse_payload(&bytes).unwrap();
    t.status_code = 0;
    assert_eq!(t.error_state_str(), "OK");
    assert_eq!(t.status_str(), "OK");
    t.status_code = 0x20;
    assert_eq!(t.error_state_str(), "Grid Loss / Islanding");
    assert_eq!(t.status_str(), "Error");
    t.status_code = 0x04;
    assert_eq!(t.error_state_str(), "Anti-Islanding Reconnection Sync Timer");
    t.status_code = 0x07;
    assert_eq!(t.error_state_str(), "Unknown Error");
    for (raw, mode) in [
        (0x0101u16, "Deep Sleep"),
        (0x0204, "Awake Standby"),
        (0x0305, "Active Standby"),
        (0x0406, "Generating"),
        (0x0002, "Unknown State"),
    ] {
        t.version_raw = raw;
        assert_eq!(t.operating_mode_str(), mode);
    }
}
