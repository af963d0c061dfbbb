//! Decoding of the 45-byte telemetry packet into its raw fields.
//!
//! Every measurement is kept as the integer that the inverter sent; the
//! documentation of each field gives the unit of one step.

use vstd::prelude::*;
use crate::checksum::{checksums_valid, validate_checksums, PACKET_LEN};
use crate::text::{decimal_text, hex_digit_char, push_decimal};

verus! {

/// Offset of the data section (the sync marker) within a packet.
pub const DATA_SECTION_START: usize = 15;

/// Length of the data section: offsets 15 to 42 inclusive.
pub const DATA_SECTION_LEN: usize = 28;

/// Little-endian unsigned 16-bit value at offset `k`.
pub open spec fn le_u16_at(s: Seq<u8>, k: int) -> int {
    s[k] + 256 * s[k + 1]
}

/// Big-endian unsigned 16-bit value at offset `k`.
pub open spec fn be_u16_at(s: Seq<u8>, k: int) -> int {
    256 * s[k] + s[k + 1]
}

/// Little-endian unsigned 32-bit value at offset `k`.
pub open spec fn le_u32_at(s: Seq<u8>, k: int) -> int {
    s[k] + 256 * s[k + 1] + 65536 * s[k + 2] + 16777216 * s[k + 3]
}

/// Little-endian two's-complement signed 16-bit value at offset `k`.
pub open spec fn le_i16_at(s: Seq<u8>, k: int) -> int {
    if le_u16_at(s, k) >= 32768 {
        le_u16_at(s, k) - 65536
    } else {
        le_u16_at(s, k)
    }
}

/// The fixed header: signature `0x79`, payload length `0x0026` (LE),
/// command `0x4014` (BE), an 8-byte gateway/AP identifier that is not
/// checked, and the data length `0x001c` (LE).
pub open spec fn header_valid(s: Seq<u8>) -> bool {
    &&& s.len() >= DATA_SECTION_START
    &&& s[0] == 0x79
    &&& s[1] == 0x26
    &&& s[2] == 0x00
    &&& s[3] == 0x40
    &&& s[4] == 0x14
    &&& s[13] == 0x1c
    &&& s[14] == 0x00
}

/// The firmware version text `major.minor`: the raw value divided by 100,
/// a dot, and the remainder on two digits.
pub open spec fn version_text(raw: u16) -> Seq<char> {
    decimal_text((raw / 100) as nat) + seq!['.'] + seq![
        hex_digit_char(((raw % 100) / 10) as int),
        hex_digit_char((raw % 10) as int),
    ]
}

/// Human-readable error state of a status code.
pub open spec fn error_state_text(status_code: u16) -> Seq<char> {
    if status_code == 0x0000 {
        "OK"@
    } else if status_code == 0x0020 {
        "Grid Loss / Islanding"@
    } else if status_code == 0x0004 {
        "Anti-Islanding Reconnection Sync Timer"@
    } else {
        "Unknown Error"@
    }
}

/// Human-readable operating mode, from the low byte of the version word.
pub open spec fn operating_mode_text(version_raw: u16) -> Seq<char> {
    let low = version_raw % 256;
    if low == 0x01 {
        "Deep Sleep"@
    } else if low == 0x04 {
        "Awake Standby"@
    } else if low == 0x05 {
        "Active Standby"@
    } else if low == 0x06 {
        "Generating"@
    } else {
        "Unknown State"@
    }
}

/// Summary status: "OK" for status code 0, "Error" otherwise.
pub open spec fn status_text(status_code: u16) -> Seq<char> {
    if status_code == 0 {
        "OK"@
    } else {
        "Error"@
    }
}

/// The decoded data section of one packet, every measurement as sent.
#[derive(Debug, Clone)]
pub struct NepTelemetry {
    /// Inverter serial number (offsets 19-22, LE).
    pub serial_number: u32,
    /// General status word (offsets 23-24, LE); 0 means OK.
    pub status_code: u16,
    /// AC active power output in units of 0.01 W (offsets 25-26, LE).
    pub ac_power_raw: u16,
    /// Grid AC voltage in units of 1/25.6 V (offsets 27-28, LE).
    pub ac_voltage_raw: u16,
    /// Internal flags and DSP reference voltage (offsets 29-30, LE).
    pub operating_flags: u16,
    /// DC input current of MPPT channel 1 in units of 0.1 A (offset 31).
    /// Always 0 on the single-input BDM-400.
    pub dc_current_ch1_raw: u8,
    /// DC input current of MPPT channel 2 in units of 0.1 A (offset 32).
    /// The single string on the BDM-400.
    pub dc_current_ch2_raw: u8,
    /// Grid frequency in units of 1/256 Hz (offsets 33-34, LE).
    pub ac_freq_raw: u16,
    /// DSP temperature in units of 0.01 °C (offsets 35-36, LE).
    pub temp_raw: u16,
    /// Daily energy accumulator in units of 0.2 Wh (offsets 37-38, LE).
    pub daily_energy_raw: u16,
    /// Firmware version rendered as `major.minor`.
    pub version: String,
    /// Firmware version and relay/state word (offsets 39-40, LE).
    pub version_raw: u16,
    /// AC reactive power in units of 0.01 VAR (offsets 41-42, signed LE).
    pub reactive_power_raw: i16,
}

/// `t` holds the fields of the data section `s` (which starts with the
/// 4-byte sync marker, which is not checked).
pub open spec fn decodes_section(t: NepTelemetry, s: Seq<u8>) -> bool {
    &&& t.serial_number == le_u32_at(s, 4)
    &&& t.status_code == le_u16_at(s, 8)
    &&& t.ac_power_raw == le_u16_at(s, 10)
    &&& t.ac_voltage_raw == le_u16_at(s, 12)
    &&& t.operating_flags == le_u16_at(s, 14)
    &&& t.dc_current_ch1_raw == s[16]
    &&& t.dc_current_ch2_raw == s[17]
    &&& t.ac_freq_raw == le_u16_at(s, 18)
    &&& t.temp_raw == le_u16_at(s, 20)
    &&& t.daily_energy_raw == le_u16_at(s, 22)
    &&& t.version_raw == le_u16_at(s, 24)
    &&& t.reactive_power_raw == le_i16_at(s, 26)
    &&& t.version@ == version_text(t.version_raw)
}

/// `t` holds the fields of the packet `packet`.
pub open spec fn decodes_packet(t: NepTelemetry, packet: Seq<u8>) -> bool {
    decodes_section(t, packet.subrange(DATA_SECTION_START as int, packet.len() as int))
}

/// Why a payload was refused.
#[derive(Debug, Clone, Copy, PartialEq, Eq)]
pub enum PayloadError {
    /// Fewer than 45 bytes arrived; `len` is the number that did.
    TooShort { len: usize },
    /// One of the two checksums does not match the body.
    ChecksumMismatch,
    /// The signature, length or command bytes of the header are wrong.
    /// Its message names the checked fields; it does not reproduce the
    /// debug rendering of a parser-combinator error, as the header is
    /// checked by this library's own byte code.
    HeaderMismatch,
}

/// The text that describes a refused payload.
pub open spec fn payload_error_text(e: PayloadError) -> Seq<char> {
    match e {
        PayloadError::TooShort { len } =>
            "Payload too short: expected 45 bytes, got "@ + decimal_text(len as nat),
        PayloadError::ChecksumMismatch => "Checksum validation failed"@,
        PayloadError::HeaderMismatch => "Header parsing failed: unexpected signature, length or command bytes"@,
    }
}

impl PayloadError {
    /// The text that describes this error.
    pub fn message(&self) -> (text: String)
        ensures
            text@ == payload_error_text(*self),
    {
        match self {
            PayloadError::TooShort { len } => {
                let mut out = String::from_str("Payload too short: expected 45 bytes, got ");
                push_decimal(&mut out, *len as u64);
                out
            },
            PayloadError::ChecksumMismatch => String::from_str("Checksum validation failed"),
            PayloadError::HeaderMismatch => String::from_str(
                "Header parsing failed: unexpected signature, length or command bytes",
            ),
        }
    }
}


fn read_le_u16(s: &[u8], k: usize) -> (v: u16)
    requires
        k + 2 <= s.len(),
    ensures
        v == le_u16_at(s@, k as int),
{
    s[k] as u16 + (s[k + 1] as u16) * 256
}

fn read_be_u16(s: &[u8], k: usize) -> (v: u16)
    requires
        k + 2 <= s.len(),
    ensures
        v == be_u16_at(s@, k as int),
{
    (s[k] as u16) * 256 + s[k + 1] as u16
}

fn read_le_u32(s: &[u8], k: usize) -> (v: u32)
    requires
        k + 4 <= s.len(),
    ensures
        v == le_u32_at(s@, k as int),
{
    s[k] as u32 + (s[k + 1] as u32) * 256 + (s[k + 2] as u32) * 65536 + (s[k + 3] as u32)
        * 16777216
}

fn read_le_i16(s: &[u8], k: usize) -> (v: i16)
    requires
        k + 2 <= s.len(),
    ensures
        v == le_i16_at(s@, k as int),
{
    let u = read_le_u16(s, k);
    if u >= 32768 {
        (u as i32 - 65536) as i16
    } else {
        u as i16
    }
}

/// Renders a version word as `major.minor`, the minor part on two digits.
pub fn format_version(raw: u16) -> (text: String)
    ensures
        text@ == version_text(raw),
{
    let mut out = String::new();
    push_decimal(&mut out, (raw / 100) as u64);
    out.append(".");
    let minor = raw % 100;
    push_decimal(&mut out, (minor / 10) as u64);
    push_decimal(&mut out, (minor % 10) as u64);
    proof {
        reveal_strlit(".");
        assert(out@ =~= version_text(raw));
    }
    out
}

/// Checks the fixed header at the start of `input`; the gateway/AP
/// identifier (offsets 5-12) is skipped, since devices fill it differently.
fn parse_header(input: &[u8]) -> (ok: bool)
    ensures
        ok == header_valid(input@),
{
    input.len() >= DATA_SECTION_START && input[0] == 0x79 && input[1] == 0x26 && input[2] == 0x00
        && input[3] == 0x40 && input[4] == 0x14 && input[13] == 0x1c && input[14] == 0x00
}

/// Decodes the data section that starts at `input[0]`, returning the
/// telemetry and the number of bytes consumed (28); `None` when fewer than
/// 28 bytes are given. The 4-byte sync marker is skipped: after a reset some
/// inverters send `0xFFFFFFFF` there, and packet integrity is guaranteed by
/// the checksums.
fn parse_data_section(input: &[u8]) -> (res: Option<(NepTelemetry, usize)>)
    ensures
        res is None <==> input.len() < DATA_SECTION_LEN,
        res matches Some((t, consumed)) ==> consumed == DATA_SECTION_LEN && decodes_section(t, input@),
{
    if input.len() < DATA_SECTION_LEN {
        return None;
    }
    let serial_number = read_le_u32(input, 4);
    let status_code = read_le_u16(input, 8);
    let ac_power_raw = read_le_u16(input, 10);
    let ac_voltage_raw = read_le_u16(input, 12);
    let operating_flags = read_le_u16(input, 14);
    let dc_current_ch1_raw = input[16];
    let dc_current_ch2_raw = input[17];
    let ac_freq_raw = read_le_u16(input, 18);
    let temp_raw = read_le_u16(input, 20);
    let daily_energy_raw = read_le_u16(input, 22);
    let version_raw = read_le_u16(input, 24);
    let reactive_power_raw = read_le_i16(input, 26);
    let version = format_version(version_raw);
    let telemetry = NepTelemetry {
        serial_number,
        status_code,
        ac_power_raw,
        ac_voltage_raw,
        operating_flags,
        dc_current_ch1_raw,
        dc_current_ch2_raw,
        ac_freq_raw,
        temp_raw,
        daily_energy_raw,
        version,
        version_raw,
        reactive_power_raw,
    };
    Some((telemetry, DATA_SECTION_LEN))
}

/// What parsing `input` yields: its length, then its checksums, then its
/// header decide whether it is refused, and otherwise its data section is
/// decoded.
pub open spec fn parse_outcome(input: Seq<u8>, result: Result<NepTelemetry, PayloadError>) -> bool {
    if input.len() < PACKET_LEN {
        result == Err::<NepTelemetry, PayloadError>(PayloadError::TooShort { len: input.len() as usize })
    } else if !checksums_valid(input) {
        result == Err::<NepTelemetry, PayloadError>(PayloadError::ChecksumMismatch)
    } else if !header_valid(input) {
        result == Err::<NepTelemetry, PayloadError>(PayloadError::HeaderMismatch)
    } else {
        result matches Ok(t) && decodes_packet(t, input)
    }
}

/// Parses an entire telemetry payload (45 bytes; bytes beyond the 45th are
/// ignored).
pub fn parse_payload(input: &[u8]) -> (result: Result<NepTelemetry, PayloadError>)
    ensures
        parse_outcome(input@, result),
{
    if input.len() < PACKET_LEN {
        return Err(PayloadError::TooShort { len: input.len() });
    }
    if !validate_checksums(input) {
        return Err(PayloadError::ChecksumMismatch);
    }
    if !parse_header(input) {
        return Err(PayloadError::HeaderMismatch);
    }
    let section = vstd::slice::slice_subrange(input, DATA_SECTION_START, input.len());
    match parse_data_section(section) {
        Some((telemetry, _)) => Ok(telemetry),
        // A packet of at least 45 bytes holds a complete data section.
        None => vstd::pervasive::unreached(),
    }
}

impl NepTelemetry {
    /// Decodes the status code into a human-readable error state.
    pub fn error_state_str(&self) -> (text: &'static str)
        ensures
            text@ == error_state_text(self.status_code),
    {
        match self.status_code {
            0x0000 => "OK",
            0x0020 => "Grid Loss / Islanding",
            0x0004 => "Anti-Islanding Reconnection Sync Timer",
            _ => "Unknown Error",
        }
    }

    /// Decodes the low byte of the version word into a human-readable
    /// operating mode.
    pub fn operating_mode_str(&self) -> (text: &'static str)
        ensures
            text@ == operating_mode_text(self.version_raw),
    {
        let low = self.version_raw % 256;
        match low {
            0x01 => "Deep Sleep",
            0x04 => "Awake Standby",
            0x05 => "Active Standby",
            0x06 => "Generating",
            _ => "Unknown State",
        }
    }

    /// "OK" when the status code is 0, "Error" otherwise.
    pub fn status_str(&self) -> (text: &'static str)
        ensures
            text@ == status_text(self.status_code),
    {
        if self.status_code == 0 {
            "OK"
        } else {
            "Error"
        }
    }

    /// Total DC input current in units of 0.1 A: the sum of both MPPT
    /// channels.
    pub fn dc_current_total_raw(&self) -> (total: u16)
        ensures
            total == self.dc_current_ch1_raw + self.dc_current_ch2_raw,
    {
        self.dc_current_ch1_raw as u16 + self.dc_current_ch2_raw as u16
    }
}


/// On a single-input inverter (MPPT channel 1 byte is 0) the total DC
/// current equals the big-endian word at offsets 31-32, the value that a
/// single-channel reading of those bytes gives.
pub proof fn lemma_single_input_total_is_be_word(t: NepTelemetry, packet: Seq<u8>)
    requires
        packet.len() >= PACKET_LEN,
        decodes_packet(t, packet),
        packet[31] == 0,
    ensures
        t.dc_current_ch1_raw + t.dc_current_ch2_raw == be_u16_at(packet, 31),
{
    let section = packet.subrange(DATA_SECTION_START as int, packet.len() as int);
    assert(section[16] == packet[31]);
    assert(section[17] == packet[32]);
}

/// Two packets that differ only in the gateway/AP identifier (offsets 5-12)
/// and the sync marker (offsets 15-18) pass or fail the header check alike
/// and decode to the same telemetry: those fields are skipped, so devices
/// that fill them differently are all understood.
pub proof fn lemma_identifier_and_marker_ignored(p: Seq<u8>, q: Seq<u8>, t: NepTelemetry)
    requires
        p.len() == q.len(),
        p.len() >= PACKET_LEN,
        forall|i: int|
            0 <= i < p.len() && !(5 <= i < 13) && !(15 <= i < 19) ==> #[trigger] p[i] == q[i],
    ensures
        header_valid(p) == header_valid(q),
        decodes_packet(t, p) == decodes_packet(t, q),
{
    let sp = p.subrange(DATA_SECTION_START as int, p.len() as int);
    let sq = q.subrange(DATA_SECTION_START as int, q.len() as int);
    assert forall|k: int| 4 <= k < 28 implies #[trigger] sp[k] == sq[k] by {
        assert(sp[k] == p[k + 15]);
        assert(sq[k] == q[k + 15]);
    }
    assert(p[0] == q[0] && p[1] == q[1] && p[2] == q[2] && p[3] == q[3] && p[4] == q[4]);
    assert(p[13] == q[13] && p[14] == q[14]);
}

} // verus!

verus! {

/// Every field of an accepted packet is read from its documented offsets:
/// multi-byte words little-endian (least significant byte first), the
/// reactive power as a two's-complement word, and the DC current of each
/// MPPT channel from one byte (31, then 32).
pub proof fn lemma_packet_layout(t: NepTelemetry, packet: Seq<u8>)
    requires
        packet.len() >= PACKET_LEN,
        decodes_packet(t, packet),
    ensures
        t.serial_number == packet[19] + 256 * packet[20] + 65536 * packet[21] + 16777216 * packet[22],
        t.status_code == packet[23] + 256 * packet[24],
        t.ac_power_raw == packet[25] + 256 * packet[26],
        t.ac_voltage_raw == packet[27] + 256 * packet[28],
        t.operating_flags == packet[29] + 256 * packet[30],
        t.dc_current_ch1_raw == packet[31],
        t.dc_current_ch2_raw == packet[32],
        t.ac_freq_raw == packet[33] + 256 * packet[34],
        t.temp_raw == packet[35] + 256 * packet[36],
        t.daily_energy_raw == packet[37] + 256 * packet[38],
        t.version_raw == packet[39] + 256 * packet[40],
        packet[42] < 128 ==> t.reactive_power_raw == packet[41] + 256 * packet[42],
        packet[42] >= 128 ==> t.reactive_power_raw == packet[41] + 256 * packet[42] - 65536,
{
    let s = packet.subrange(DATA_SECTION_START as int, packet.len() as int);
    assert forall|k: int| 0 <= k < 28 implies #[trigger] s[k] == packet[k + 15] by {}
    assert(s[4] == packet[19] && s[5] == packet[20] && s[6] == packet[21] && s[7] == packet[22]);
    assert(s[8] == packet[23] && s[9] == packet[24]);
    assert(s[10] == packet[25] && s[11] == packet[26] && s[12] == packet[27] && s[13] == packet[28]);
    assert(s[14] == packet[29] && s[15] == packet[30] && s[16] == packet[31] && s[17] == packet[32]);
    assert(s[18] == packet[33] && s[19] == packet[34] && s[20] == packet[35] && s[21] == packet[36]);
    assert(s[22] == packet[37] && s[23] == packet[38] && s[24] == packet[39] && s[25] == packet[40]);
    assert(s[26] == packet[41] && s[27] == packet[42]);
}

/// A packet that `parse_payload` accepts yields the fields at their
/// documented offsets (see [`lemma_packet_layout`]).
pub proof fn lemma_accepted_packet_layout(packet: Seq<u8>, result: Result<NepTelemetry, PayloadError>)
    requires
        parse_outcome(packet, result),
        result is Ok,
    ensures
        result->Ok_0.status_code == packet[23] + 256 * packet[24],
        result->Ok_0.serial_number == packet[19] + 256 * packet[20] + 65536 * packet[21] + 16777216
            * packet[22],
        result->Ok_0.dc_current_ch1_raw == packet[31],
        result->Ok_0.dc_current_ch2_raw == packet[32],
{
    lemma_packet_layout(result->Ok_0, packet);
}

/// The summary status and the error state agree on what is healthy: the
/// status is "OK" exactly for status code 0, which is exactly when the error
/// state is "OK"; any other code gives the status "Error".
pub proof fn lemma_status_agrees_with_error_state(status_code: u16)
    ensures
        (status_text(status_code) == "OK"@) == (status_code == 0),
        (error_state_text(status_code) == "OK"@) == (status_code == 0),
        status_code != 0 ==> status_text(status_code) == "Error"@,
{
    reveal_strlit("OK");
    reveal_strlit("Error");
    reveal_strlit("Grid Loss / Islanding");
    reveal_strlit("Anti-Islanding Reconnection Sync Timer");
    reveal_strlit("Unknown Error");
    if status_code != 0 {
        assert(status_text(status_code).len() != "OK"@.len());
        assert(error_state_text(status_code).len() != "OK"@.len());
    }
}

} // verus!

verus! {

/// The version text denotes the version word: decimal digits for the word
/// divided by 100, a dot, and two decimal digits for the remainder.
pub proof fn lemma_version_text_denotes(raw: u16)
    ensures
        version_text(raw).len() >= 4,
        version_text(raw)[version_text(raw).len() - 3] == '.',
        crate::text::decimal_value(version_text(raw).subrange(0, version_text(raw).len() - 3)) == raw / 100,
        crate::text::decimal_value(
            version_text(raw).subrange(version_text(raw).len() - 2, version_text(raw).len() as int),
        ) == raw % 100,
        forall|i: int|
            0 <= i < version_text(raw).len() && i != version_text(raw).len() - 3 ==> '0' <= #[trigger] version_text(
                raw,
            )[i] <= '9',
{
    let t = version_text(raw);
    let major = decimal_text((raw / 100) as nat);
    crate::text::lemma_decimal_text_value((raw / 100) as nat);
    crate::text::lemma_digit_char_value(((raw % 100) / 10) as int);
    crate::text::lemma_digit_char_value((raw % 10) as int);
    assert(major.len() >= 1);
    assert(t.subrange(0, t.len() - 3) =~= major);
    let minor = t.subrange(t.len() - 2, t.len() as int);
    assert(minor.drop_last().drop_last() =~= Seq::<char>::empty());
    assert(minor.drop_last().last() == hex_digit_char(((raw % 100) / 10) as int));
    assert(minor.last() == hex_digit_char((raw % 10) as int));
    assert(crate::text::decimal_value(minor.drop_last()) == crate::text::decimal_value(
        minor.drop_last().drop_last(),
    ) * 10 + crate::text::hex_char_value(minor.drop_last().last()));
    assert(crate::text::decimal_value(minor) == crate::text::decimal_value(minor.drop_last()) * 10
        + crate::text::hex_char_value(minor.last()));
    assert(crate::text::decimal_value(minor) == ((raw % 100) / 10) * 10 + raw % 10);
    assert forall|i: int| 0 <= i < t.len() && i != t.len() - 3 implies '0' <= #[trigger] t[i] <= '9' by {
        if i < t.len() - 3 {
            assert(t[i] == major[i]);
        }
    }
}

} // verus!
