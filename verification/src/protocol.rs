//! Framing of the Pylontech RS485 protocol as carried over the TCP bridge:
//! `~`, then ASCII hexadecimal for version, address, command group, command,
//! length id and info, then a four digit checksum and a carriage return.
use vstd::prelude::*;
use crate::hexcodec::{HexError, upper_hex_digit, hex_upper, hex_digit_value, hex_bytes, all_hex_digits};
use crate::text::{decimal, text_with_number, push_char, push_decimal, utf8_error, utf8_error_text, char_debug, char_debug_text};

verus! {

pub const FRAME_START_BYTE: u8 = 0x7e;
pub const FRAME_END_BYTE: u8 = 0x0d;
pub const PROTOCOL_VERSION: u8 = 0x20;
pub const COMMAND_GROUP: u8 = 0x46;
pub const GET_VALUES_SINGLE_COMMAND: u8 = 0x42;
pub const GET_SYSTEM_PARAMETERS_COMMAND: u8 = 0x47;
pub const GET_MANUFACTURER_INFO_COMMAND: u8 = 0x51;
pub const GET_MANAGEMENT_INFO_COMMAND: u8 = 0x92;
pub const GET_MODULE_SERIAL_NUMBER_COMMAND: u8 = 0x93;

/// Everything that can go wrong while talking the battery protocol, apart
/// from the transport's own errors.
#[derive(Debug)]
pub enum ProtocolError {
    /// The info field was not valid hexadecimal.
    Hex(HexError),
    /// No frame arrived in time.
    Timeout,
    /// The frame broke a rule of the protocol; the text says which.
    InvalidFrame(String),
    /// The checksum in the frame (`expected`) differs from the computed one.
    ChecksumMismatch { expected: u16, actual: u16 },
    /// The length id announced `declared` hex digits of info, the frame held `actual`.
    InvalidInfoLength { declared: usize, actual: usize },
    /// A payload ended before the named field.
    UnexpectedPayloadEnd { field: &'static str },
}

/// A `ProtocolError` with its texts as character sequences.
pub enum ProtocolFault {
    Hex(HexError),
    Timeout,
    InvalidFrame(Seq<char>),
    ChecksumMismatch { expected: u16, actual: u16 },
    InvalidInfoLength { declared: usize, actual: usize },
    UnexpectedPayloadEnd { field: Seq<char> },
}

impl View for ProtocolError {
    type V = ProtocolFault;

    open spec fn view(&self) -> ProtocolFault {
        match self {
            ProtocolError::Hex(e) => ProtocolFault::Hex(*e),
            ProtocolError::Timeout => ProtocolFault::Timeout,
            ProtocolError::InvalidFrame(m) => ProtocolFault::InvalidFrame(m@),
            ProtocolError::ChecksumMismatch { expected, actual } => ProtocolFault::ChecksumMismatch {
                expected: *expected,
                actual: *actual,
            },
            ProtocolError::InvalidInfoLength { declared, actual } => ProtocolFault::InvalidInfoLength {
                declared: *declared,
                actual: *actual,
            },
            ProtocolError::UnexpectedPayloadEnd { field } => ProtocolFault::UnexpectedPayloadEnd { field: field@ },
        }
    }
}

/// The view of a result whose error is a `ProtocolError`.
pub open spec fn fault_view<T>(res: Result<T, ProtocolError>) -> Result<T, ProtocolFault> {
    match res {
        Ok(v) => Ok(v),
        Err(e) => Err(e@),
    }
}

/// Two uppercase hexadecimal digits for a byte value.
pub open spec fn hex2(v: nat) -> Seq<u8> {
    seq![upper_hex_digit(v / 16), upper_hex_digit(v % 16)]
}

/// Four uppercase hexadecimal digits for a 16 bit value.
pub open spec fn hex4(v: nat) -> Seq<u8> {
    hex2(v / 256) + hex2(v % 256)
}

/// The same digits as characters.
pub open spec fn hex2_text(v: nat) -> Seq<char> {
    seq![upper_hex_digit(v / 16) as char, upper_hex_digit(v % 16) as char]
}

pub open spec fn hex4_text(v: nat) -> Seq<char> {
    hex2_text(v / 256) + hex2_text(v % 256)
}

/// The sum of the digits of the length in base 16 (three digits).
pub open spec fn nibble_sum(n: nat) -> nat {
    n % 16 + (n / 16) % 16 + (n / 256) % 16
}

/// The length id field: twelve bits of length under a four bit check value
/// that makes all four nibbles sum to a multiple of 16.
pub open spec fn length_id(n: nat) -> nat {
    ((16 - nibble_sum(n) % 16) % 16) as nat * 4096 + n
}

pub open spec fn info_too_large_text(n: nat) -> Seq<char> {
    "encoded info too large: "@ + decimal(n) + " bytes"@
}

/// The sum of all bytes.
pub open spec fn byte_sum(s: Seq<u8>) -> nat
    decreases s.len(),
{
    if s.len() == 0 {
        0
    } else {
        byte_sum(s.drop_last()) + s.last() as nat
    }
}

/// The frame checksum: the two's complement of the byte sum, modulo 2^16.
pub open spec fn checksum_of(s: Seq<u8>) -> nat {
    ((65536 - byte_sum(s) % 65536) % 65536) as nat
}

/// The frame body: everything between `~` and the checksum.
pub open spec fn command_body(address: u8, command: u8, info: Seq<u8>) -> Seq<u8> {
    hex2(PROTOCOL_VERSION as nat) + hex2(address as nat) + hex2(COMMAND_GROUP as nat) + hex2(command as nat)
        + hex4(length_id(2 * info.len())) + hex_upper(info)
}

/// The complete request frame for `command` to the module at `address`.
pub open spec fn command_frame(address: u8, command: u8, info: Seq<u8>) -> Seq<u8> {
    let body = command_body(address, command, info);
    seq![FRAME_START_BYTE] + body + hex4(checksum_of(body)) + seq![FRAME_END_BYTE]
}

/// The uppercase hexadecimal digit for a value below 16.
pub fn hex_digit_upper(n: u8) -> (b: u8)
    requires
        n < 16,
    ensures
        b == upper_hex_digit(n as nat),
{
    if n < 10 {
        48 + n
    } else {
        55 + n
    }
}

pub fn push_hex2(out: &mut Vec<u8>, v: u8)
    ensures
        final(out)@ == old(out)@ + hex2(v as nat),
{
    out.push(hex_digit_upper(v / 16));
    out.push(hex_digit_upper(v % 16));
}

pub fn push_hex4(out: &mut Vec<u8>, v: u16)
    ensures
        final(out)@ == old(out)@ + hex4(v as nat),
{
    push_hex2(out, (v / 256) as u8);
    push_hex2(out, (v % 256) as u8);
}

pub fn push_hex2_text(out: &mut String, v: u8)
    ensures
        final(out)@ == old(out)@ + hex2_text(v as nat),
{
    push_char(out, hex_digit_upper(v / 16) as char);
    push_char(out, hex_digit_upper(v % 16) as char);
}

pub fn push_hex4_text(out: &mut String, v: u16)
    ensures
        final(out)@ == old(out)@ + hex4_text(v as nat),
{
    push_hex2_text(out, (v / 256) as u8);
    push_hex2_text(out, (v % 256) as u8);
}

/// The length id for an info field of `encoded_info_length` hex digits;
/// lengths above 0xFFF do not fit the twelve bits and are refused.
pub fn encode_info_length(encoded_info_length: usize) -> (res: Result<u16, ProtocolError>)
    ensures
        encoded_info_length > 0xFFF ==> fault_view(res) == Err::<u16, ProtocolFault>(
            ProtocolFault::InvalidFrame(info_too_large_text(encoded_info_length as nat)),
        ),
        encoded_info_length <= 0xFFF ==> res == Ok::<u16, ProtocolError>(length_id(encoded_info_length as nat) as u16),
{
    if encoded_info_length > 0xFFF {
        return Err(ProtocolError::InvalidFrame(text_with_number("encoded info too large: ", encoded_info_length as u64, " bytes")));
    }
    let len = encoded_info_length as u16;
    let len_sum: u16 = len % 16 + (len / 16) % 16 + (len / 256) % 16;
    let len_modulo: u16 = len_sum % 16;
    let len_invert_plus_one: u16 = 16 - len_modulo;
    Ok((len_invert_plus_one % 16) * 4096 + len)
}

/// The two's complement of the byte sum of `frame`, modulo 2^16.
pub fn frame_checksum(frame: &[u8]) -> (res: u16)
    ensures
        res as nat == checksum_of(frame@),
{
    let mut acc: u32 = 0;
    let mut i: usize = 0;
    while i < frame.len()
        invariant
            i <= frame@.len(),
            acc as nat == byte_sum(frame@.take(i as int)) % 65536,
        decreases frame@.len() - i,
    {
        assert(frame@.take(i + 1).drop_last() =~= frame@.take(i as int));
        acc = (acc + frame[i] as u32) % 65536;
        i = i + 1;
    }
    assert(frame@.take(i as int) =~= frame@);
    ((65536 - acc) % 65536) as u16
}

/// The request frame for `command` to the module at `address` with the
/// given info bytes; an info field above 0xFFF hex digits is refused.
pub fn encode_command(address: u8, command: u8, info_bytes: &[u8]) -> (res: Result<Vec<u8>, ProtocolError>)
    requires
        info_bytes@.len() <= 0x7fff_ffff_ffff_ffff,
    ensures
        2 * info_bytes@.len() > 0xFFF ==> fault_view(res) == Err::<Vec<u8>, ProtocolFault>(
            ProtocolFault::InvalidFrame(info_too_large_text(2 * info_bytes@.len())),
        ),
        2 * info_bytes@.len() <= 0xFFF ==> res is Ok && res->Ok_0@ == command_frame(address, command, info_bytes@),
{
    if info_bytes.len() > 0x7FF {
        let n: u64 = 2 * info_bytes.len() as u64;
        return Err(ProtocolError::InvalidFrame(text_with_number("encoded info too large: ", n, " bytes")));
    }
    let mut info_hex = crate::hexcodec::encode_upper(info_bytes);
    let info_length = match encode_info_length(info_hex.len()) {
        Ok(v) => v,
        Err(e) => return Err(e),
    };
    let mut body: Vec<u8> = Vec::new();
    push_hex2(&mut body, PROTOCOL_VERSION);
    push_hex2(&mut body, address);
    push_hex2(&mut body, COMMAND_GROUP);
    push_hex2(&mut body, command);
    push_hex4(&mut body, info_length);
    body.append(&mut info_hex);
    let checksum = frame_checksum(body.as_slice());
    let mut frame: Vec<u8> = Vec::new();
    frame.push(FRAME_START_BYTE);
    frame.append(&mut body);
    push_hex4(&mut frame, checksum);
    frame.push(FRAME_END_BYTE);
    Ok(frame)
}

/// The value of a string of hexadecimal digits (`Some(0)` for none), or
/// `None` when one of them is no digit.
pub open spec fn radix16_value(s: Seq<u8>) -> Option<nat>
    decreases s.len(),
{
    if s.len() == 0 {
        Some(0)
    } else {
        match (radix16_value(s.drop_last()), hex_digit_value(s.last())) {
            (Some(v), Some(d)) => Some(v * 16 + d),
            _ => None,
        }
    }
}

/// What std's `from_str_radix(_, 16)` reads from a digit string too short to
/// overflow: an optional leading `+`, then at least one hexadecimal digit.
pub open spec fn from_str_radix16(s: Seq<u8>) -> Option<nat> {
    if s.len() == 0 {
        None
    } else if s[0] == 43 {
        if s.len() == 1 {
            None
        } else {
            radix16_value(s.drop_first())
        }
    } else {
        radix16_value(s)
    }
}

pub open spec fn wrong_digit_count_text(width: nat, got: nat) -> Seq<char> {
    "expected "@ + decimal(width) + " hex digits, got "@ + decimal(got)
}

pub open spec fn invalid_digit_text() -> Seq<char> {
    "invalid digit found in string"@
}

/// A hexadecimal field of exactly `width` digits, or the text of the
/// failure: wrong length, not UTF-8, or not a number.
#[verifier::opaque]
pub open spec fn hex_field(s: Seq<u8>, width: nat) -> Result<nat, Seq<char>> {
    if s.len() != width {
        Err(wrong_digit_count_text(width, s.len()))
    } else if !vstd::utf8::valid_utf8(s) {
        Err(utf8_error_text(s))
    } else {
        match from_str_radix16(s) {
            Some(v) => Ok(v),
            None => Err(invalid_digit_text()),
        }
    }
}

/// The result of reading a hexadecimal field as a frame would report it.
pub open spec fn hex_field_fault(s: Seq<u8>, width: nat) -> Result<nat, ProtocolFault> {
    match hex_field(s, width) {
        Ok(v) => Ok(v),
        Err(m) => Err(ProtocolFault::InvalidFrame(m)),
    }
}

pub open spec fn pow16(k: nat) -> nat
    decreases k,
{
    if k == 0 {
        1
    } else {
        16 * pow16((k - 1) as nat)
    }
}

proof fn lemma_radix16_value(s: Seq<u8>)
    ensures
        radix16_value(s) is Some <==> all_hex_digits(s),
        radix16_value(s) is Some ==> radix16_value(s).unwrap() < pow16(s.len()),
    decreases s.len(),
{
    if s.len() != 0 {
        lemma_radix16_value(s.drop_last());
        if all_hex_digits(s) {
            assert forall|i: int| 0 <= i < s.drop_last().len() implies #[trigger] crate::hexcodec::is_hex_digit(
                s.drop_last()[i],
            ) by {
                assert(s.drop_last()[i] == s[i]);
            }
            assert(crate::hexcodec::is_hex_digit(s[s.len() - 1]));
        } else {
            let j = choose|j: int| 0 <= j < s.len() && !#[trigger] crate::hexcodec::is_hex_digit(s[j]);
            if j < s.len() - 1 {
                assert(s.drop_last()[j] == s[j]);
            }
        }
    }
}

/// Reads a hexadecimal field of `width` (2 or 4) digits.
fn parse_hex_field(value: &[u8], width: usize) -> (res: Result<u16, ProtocolError>)
    requires
        width == 2 || width == 4,
    ensures
        fault_view(res) matches Ok(v) ==> hex_field_fault(value@, width as nat) == Ok::<nat, ProtocolFault>(v as nat),
        fault_view(res) matches Err(e) ==> hex_field_fault(value@, width as nat) == Err::<nat, ProtocolFault>(e),
{
    proof {
        reveal(hex_field);
    }
    if value.len() != width {
        let mut m = text_with_number("expected ", width as u64, " hex digits, got ");
        crate::text::push_decimal(&mut m, value.len() as u64);
        return Err(ProtocolError::InvalidFrame(m));
    }
    match utf8_error(value) {
        Some(m) => return Err(ProtocolError::InvalidFrame(m)),
        None => {},
    }
    let start: usize = if value[0] == 43 { 1 } else { 0 };
    let ghost digits = value@.subrange(start as int, value@.len() as int);
    if start == 1 {
        assert(digits =~= value@.drop_first());
    } else {
        assert(digits =~= value@);
    }
    let mut acc: u32 = 0;
    let mut i: usize = start;
    while i < value.len()
        invariant
            start <= i <= value@.len(),
            value@.len() == width,
            width == 2 || width == 4,
            digits == value@.subrange(start as int, value@.len() as int),
            start <= 1,
            (start == 1) == (value@[0] == 43),
            start == 1 ==> digits == value@.drop_first(),
            start == 0 ==> digits == value@,
            vstd::utf8::valid_utf8(value@),
            radix16_value(value@.subrange(start as int, i as int)) == Some(acc as nat),
            acc < pow16((i - start) as nat),
        decreases value@.len() - i,
    {
        let ghost prefix = value@.subrange(start as int, i as int);
        let ghost next = value@.subrange(start as int, i + 1);
        assert(next.drop_last() =~= prefix);
        let b = value[i];
        let d: u32 = if 48 <= b && b <= 57 {
            (b - 48) as u32
        } else if 65 <= b && b <= 70 {
            (b - 55) as u32
        } else if 97 <= b && b <= 102 {
            (b - 87) as u32
        } else {
            proof {
                assert(!crate::hexcodec::is_hex_digit(digits[i - start]));
                lemma_radix16_value(digits);
                assert(radix16_value(digits) is None);
                if start == 1 {
                    assert(value@[0] == 43);
                    assert(value@.len() > 1);
                    assert(digits == value@.drop_first());
                } else {
                    assert(value@[0] != 43);
                    assert(digits == value@);
                }
                assert(from_str_radix16(value@) is None);
                reveal(hex_field);
                assert(hex_field(value@, width as nat) == Err::<nat, Seq<char>>(invalid_digit_text()));
            }
            return Err(ProtocolError::InvalidFrame(String::from_str("invalid digit found in string")));
        };
        assert(pow16((i + 1 - start) as nat) == 16 * pow16((i - start) as nat));
        assert(pow16((i - start) as nat) <= 4096) by {
            reveal_with_fuel(pow16, 4);
        }
        acc = acc * 16 + d;
        i = i + 1;
    }
    assert(value@.subrange(start as int, i as int) =~= digits);
    if start == 1 && value.len() == 1 {
        assert(false);
    }
    assert(pow16((i - start) as nat) <= 65536) by {
        reveal_with_fuel(pow16, 5);
    }
    Ok(acc as u16)
}

/// Reads a byte written as two hexadecimal digits, the way std's
/// `u8::from_str_radix(_, 16)` reads them.
pub fn parse_hex_u8(value: &[u8]) -> (res: Result<u8, ProtocolError>)
    ensures
        fault_view(res) matches Ok(v) ==> hex_field_fault(value@, 2) == Ok::<nat, ProtocolFault>(v as nat),
        fault_view(res) matches Err(e) ==> hex_field_fault(value@, 2) == Err::<nat, ProtocolFault>(e),
{
    match parse_hex_field(value, 2) {
        Ok(v) => {
            proof {
                reveal(hex_field);
                reveal_with_fuel(pow16, 3);
                lemma_radix16_value(value@);
                lemma_radix16_value(value@.drop_first());
            }
            Ok(v as u8)
        },
        Err(e) => Err(e),
    }
}

/// Reads a 16 bit value written as four hexadecimal digits, the way std's
/// `u16::from_str_radix(_, 16)` reads them.
pub fn parse_hex_u16(value: &[u8]) -> (res: Result<u16, ProtocolError>)
    ensures
        fault_view(res) matches Ok(v) ==> hex_field_fault(value@, 4) == Ok::<nat, ProtocolFault>(v as nat),
        fault_view(res) matches Err(e) ==> hex_field_fault(value@, 4) == Err::<nat, ProtocolFault>(e),
{
    parse_hex_field(value, 4)
}

/// A decoded response frame: who answered, with which return code, and the
/// info bytes.
#[derive(Debug, Clone, PartialEq, Eq)]
pub struct ResponseFrame {
    pub address: u8,
    pub cid2: u8,
    pub info: Vec<u8>,
}

/// A response frame with its info as a sequence.
pub struct FrameView {
    pub address: u8,
    pub cid2: u8,
    pub info: Seq<u8>,
}

impl View for ResponseFrame {
    type V = FrameView;

    open spec fn view(&self) -> FrameView {
        FrameView { address: self.address, cid2: self.cid2, info: self.info@ }
    }
}

pub open spec fn frame_result_view(res: Result<ResponseFrame, ProtocolError>) -> Result<FrameView, ProtocolFault> {
    match res {
        Ok(f) => Ok(f@),
        Err(e) => Err(e@),
    }
}

pub open spec fn bad_length_nibble_text(info_length: u16) -> Seq<char> {
    "invalid length checksum nibble in "@ + hex4_text(info_length as nat)
}

/// The check of a received length id against the number of info digits
/// actually present.
pub open spec fn info_length_check(info_length: u16, actual: nat) -> Result<(), ProtocolFault> {
    let declared = (info_length % 4096) as nat;
    if declared != actual {
        Err(ProtocolFault::InvalidInfoLength { declared: declared as usize, actual: actual as usize })
    } else if declared == 0 {
        Ok(())
    } else if length_id(declared) != info_length as nat {
        Err(ProtocolFault::InvalidFrame(bad_length_nibble_text(info_length)))
    } else {
        Ok(())
    }
}

/// Checks that the length id announces `actual_encoded_length` info digits
/// and, for a non-empty info, that its check nibble is right.
pub fn validate_info_length(info_length: u16, actual_encoded_length: usize) -> (res: Result<(), ProtocolError>)
    ensures
        fault_view(res) == info_length_check(info_length, actual_encoded_length as nat),
{
    let declared_length: usize = (info_length % 0x1000) as usize;
    if declared_length != actual_encoded_length {
        return Err(ProtocolError::InvalidInfoLength { declared: declared_length, actual: actual_encoded_length });
    }
    if declared_length == 0 {
        return Ok(());
    }
    let expected = match encode_info_length(declared_length) {
        Ok(v) => v,
        Err(e) => return Err(e),
    };
    if expected != info_length {
        let mut m = String::from_str("invalid length checksum nibble in ");
        push_hex4_text(&mut m, info_length);
        return Err(ProtocolError::InvalidFrame(m));
    }
    Ok(())
}

pub open spec fn too_short_text(n: nat) -> Seq<char> {
    "frame too short: "@ + decimal(n) + " bytes"@
}

pub open spec fn bad_start_text() -> Seq<char> {
    "frame did not start with '~'"@
}

pub open spec fn bad_end_text() -> Seq<char> {
    "frame did not end with carriage return"@
}

pub open spec fn unexpected_version_text(v: nat) -> Seq<char> {
    "unexpected protocol version "@ + hex2_text(v)
}

pub open spec fn unexpected_group_text(v: nat) -> Seq<char> {
    "unexpected command group "@ + hex2_text(v)
}

/// The fields after the version: address, command group, return code,
/// length id, then the info digits.
pub open spec fn parse_frame_fields(data: Seq<u8>) -> Result<FrameView, ProtocolFault> {
    match hex_field_fault(data.subrange(2, 4), 2) {
        Err(e) => Err(e),
        Ok(address) => match hex_field_fault(data.subrange(4, 6), 2) {
            Err(e) => Err(e),
            Ok(cid1) => if cid1 != COMMAND_GROUP as nat {
                Err(ProtocolFault::InvalidFrame(unexpected_group_text(cid1)))
            } else {
                match hex_field_fault(data.subrange(6, 8), 2) {
                    Err(e) => Err(e),
                    Ok(cid2) => match hex_field_fault(data.subrange(8, 12), 4) {
                        Err(e) => Err(e),
                        Ok(info_length) => {
                            let info_hex = data.subrange(12, data.len() as int);
                            match info_length_check(info_length as u16, info_hex.len()) {
                                Err(e) => Err(e),
                                Ok(_) => if info_hex.len() % 2 == 1 {
                                    Err(ProtocolFault::Hex(HexError::OddLength))
                                } else if !all_hex_digits(info_hex) {
                                    Err(ProtocolFault::Hex(first_invalid_hex_character(info_hex)))
                                } else {
                                    Ok(FrameView { address: address as u8, cid2: cid2 as u8, info: hex_bytes(info_hex) })
                                },
                            }
                        },
                    },
                }
            },
        },
    }
}

/// The `InvalidHexCharacter` error for the first non-digit of `s`.
pub open spec fn first_invalid_hex_character(s: Seq<u8>) -> HexError {
    let index = choose|index: int|
        0 <= index < s.len() && !crate::hexcodec::is_hex_digit(s[index]) && all_hex_digits(s.take(index));
    HexError::InvalidHexCharacter { c: s[index] as char, index: index as usize }
}

/// What a received frame means: the checks in the order the adapter makes
/// them (length, delimiters, checksum, version, address, command group,
/// return code, length id, info digits).
pub open spec fn parse_frame(raw: Seq<u8>) -> Result<FrameView, ProtocolFault> {
    let n = raw.len();
    if n < 18 {
        Err(ProtocolFault::InvalidFrame(too_short_text(n)))
    } else if raw[0] != FRAME_START_BYTE {
        Err(ProtocolFault::InvalidFrame(bad_start_text()))
    } else if raw[n - 1] != FRAME_END_BYTE {
        Err(ProtocolFault::InvalidFrame(bad_end_text()))
    } else {
        let data = raw.subrange(1, n - 5);
        match hex_field_fault(raw.subrange(n - 5, n - 1), 4) {
            Err(e) => Err(e),
            Ok(expected) => {
                let actual = checksum_of(data);
                if expected != actual {
                    Err(ProtocolFault::ChecksumMismatch { expected: expected as u16, actual: actual as u16 })
                } else {
                    match hex_field_fault(data.subrange(0, 2), 2) {
                        Err(e) => Err(e),
                        Ok(version) => if version != PROTOCOL_VERSION as nat {
                            Err(ProtocolFault::InvalidFrame(unexpected_version_text(version)))
                        } else {
                            parse_frame_fields(data)
                        },
                    }
                }
            },
        }
    }
}

proof fn lemma_first_invalid_unique(s: Seq<u8>, index: int)
    requires
        0 <= index < s.len(),
        !crate::hexcodec::is_hex_digit(s[index]),
        all_hex_digits(s.take(index)),
    ensures
        first_invalid_hex_character(s) == (HexError::InvalidHexCharacter { c: s[index] as char, index: index as usize }),
{
    let other = choose|j: int|
        0 <= j < s.len() && !crate::hexcodec::is_hex_digit(s[j]) && all_hex_digits(s.take(j));
    assert(0 <= other < s.len() && !crate::hexcodec::is_hex_digit(s[other]) && all_hex_digits(s.take(other)));
    if other < index {
        assert(s.take(index)[other] == s[other]);
    } else if index < other {
        assert(s.take(other)[index] == s[index]);
    }
}

/// Decodes a raw response frame, from `~` to the carriage return.
pub fn parse_response_frame(raw_frame: &[u8]) -> (res: Result<ResponseFrame, ProtocolError>)
    ensures
        frame_result_view(res) == parse_frame(raw_frame@),
{
    let n = raw_frame.len();
    if n < 1 + 12 + 4 + 1 {
        return Err(ProtocolError::InvalidFrame(text_with_number("frame too short: ", n as u64, " bytes")));
    }
    if raw_frame[0] != FRAME_START_BYTE {
        return Err(ProtocolError::InvalidFrame(String::from_str("frame did not start with '~'")));
    }
    if raw_frame[n - 1] != FRAME_END_BYTE {
        return Err(ProtocolError::InvalidFrame(String::from_str("frame did not end with carriage return")));
    }
    let frame_data = &raw_frame[1..n - 5];
    let checksum_bytes = &raw_frame[n - 5..n - 1];
    let expected_checksum = match parse_hex_u16(checksum_bytes) {
        Ok(v) => v,
        Err(e) => return Err(e),
    };
    let actual_checksum = frame_checksum(frame_data);
    if expected_checksum != actual_checksum {
        return Err(ProtocolError::ChecksumMismatch { expected: expected_checksum, actual: actual_checksum });
    }
    let version = match parse_hex_u8(&frame_data[0..2]) {
        Ok(v) => v,
        Err(e) => return Err(e),
    };
    if version != PROTOCOL_VERSION {
        let mut m = String::from_str("unexpected protocol version ");
        push_hex2_text(&mut m, version);
        return Err(ProtocolError::InvalidFrame(m));
    }
    let address = match parse_hex_u8(&frame_data[2..4]) {
        Ok(v) => v,
        Err(e) => return Err(e),
    };
    let cid1 = match parse_hex_u8(&frame_data[4..6]) {
        Ok(v) => v,
        Err(e) => return Err(e),
    };
    if cid1 != COMMAND_GROUP {
        let mut m = String::from_str("unexpected command group ");
        push_hex2_text(&mut m, cid1);
        return Err(ProtocolError::InvalidFrame(m));
    }
    let cid2 = match parse_hex_u8(&frame_data[6..8]) {
        Ok(v) => v,
        Err(e) => return Err(e),
    };
    let info_length = match parse_hex_u16(&frame_data[8..12]) {
        Ok(v) => v,
        Err(e) => return Err(e),
    };
    let info_hex = &frame_data[12..frame_data.len()];
    match validate_info_length(info_length, info_hex.len()) {
        Ok(()) => {},
        Err(e) => return Err(e),
    }
    let info = match crate::hexcodec::decode(info_hex) {
        Ok(v) => v,
        Err(e) => {
            proof {
                if info_hex@.len() % 2 == 0 {
                    let index = choose|index: int| 0 <= index < info_hex@.len()
                        && !crate::hexcodec::is_hex_digit(info_hex@[index])
                        && all_hex_digits(info_hex@.take(index))
                        && e == (HexError::InvalidHexCharacter { c: info_hex@[index] as char, index: index as usize });
                    lemma_first_invalid_unique(info_hex@, index);
                }
            }
            return Err(ProtocolError::Hex(e));
        },
    };
    Ok(ResponseFrame { address, cid2, info })
}

proof fn lemma_upper_digit(d: nat)
    requires
        d < 16,
    ensures
        hex_digit_value(upper_hex_digit(d)) == Some(d),
        upper_hex_digit(d) != 43,
        upper_hex_digit(d) < 0x80,
{
}

proof fn lemma_hex2_field(v: nat)
    requires
        v < 256,
    ensures
        hex_field(hex2(v), 2) == Ok::<nat, Seq<char>>(v),
{
    reveal(hex_field);
    let s = hex2(v);
    lemma_upper_digit(v / 16);
    lemma_upper_digit(v % 16);
    crate::text::lemma_ascii_valid_utf8(s);
    assert(s.drop_last().drop_last() =~= Seq::<u8>::empty());
    assert(radix16_value(s.drop_last().drop_last()) == Some(0nat));
    assert(radix16_value(s.drop_last()) == Some(v / 16));
    assert(radix16_value(s) == Some(v));
}

proof fn lemma_hex4_field(v: nat)
    requires
        v < 65536,
    ensures
        hex_field(hex4(v), 4) == Ok::<nat, Seq<char>>(v),
{
    reveal(hex_field);
    let s = hex4(v);
    let hi = v / 256;
    let lo = v % 256;
    lemma_upper_digit(hi / 16);
    lemma_upper_digit(hi % 16);
    lemma_upper_digit(lo / 16);
    lemma_upper_digit(lo % 16);
    crate::text::lemma_ascii_valid_utf8(s);
    let s1 = s.drop_last();
    let s2 = s1.drop_last();
    let s3 = s2.drop_last();
    assert(s3.drop_last() =~= Seq::<u8>::empty());
    assert(radix16_value(s3.drop_last()) == Some(0nat));
    assert(s3 =~= seq![upper_hex_digit(hi / 16)]);
    assert(s2 =~= seq![upper_hex_digit(hi / 16), upper_hex_digit(hi % 16)]);
    assert(radix16_value(s3) == Some(hi / 16));
    assert(radix16_value(s2) == Some(hi));
    assert(radix16_value(s1) == Some(hi * 16 + lo / 16));
    assert(radix16_value(s) == Some((hi * 16 + lo / 16) * 16 + lo % 16));
    assert((hi * 16 + lo / 16) * 16 + lo % 16 == v);
}

#[verifier::spinoff_prover]
#[verifier::rlimit(50)]
proof fn lemma_command_body_fields(address: u8, command: u8, info: Seq<u8>)
    requires
        2 * info.len() <= 0xFFF,
    ensures
        hex_field_fault(command_body(address, command, info).subrange(0, 2), 2) == Ok::<nat, ProtocolFault>(
            PROTOCOL_VERSION as nat,
        ),
        parse_frame_fields(command_body(address, command, info)) == Ok::<FrameView, ProtocolFault>(
            FrameView { address, cid2: command, info },
        ),
{
    let len = 2 * info.len();
    let lid = length_id(len);
    let body = command_body(address, command, info);
    crate::hexcodec::lemma_hex_upper_roundtrip(info);
    assert(body.subrange(0, 2) =~= hex2(PROTOCOL_VERSION as nat));
    assert(body.subrange(2, 4) =~= hex2(address as nat));
    assert(body.subrange(4, 6) =~= hex2(COMMAND_GROUP as nat));
    assert(body.subrange(6, 8) =~= hex2(command as nat));
    assert(body.subrange(8, 12) =~= hex4(lid));
    assert(body.subrange(12, body.len() as int) =~= hex_upper(info));
    lemma_hex2_field(PROTOCOL_VERSION as nat);
    lemma_hex2_field(address as nat);
    lemma_hex2_field(COMMAND_GROUP as nat);
    lemma_hex2_field(command as nat);
    assert(lid < 65536);
    lemma_hex4_field(lid);
    assert(lid % 4096 == len);
    assert(info_length_check(lid as u16, len) == Ok::<(), ProtocolFault>(()));
}

/// The checksum completes the byte sum of what it covers to a multiple of
/// 2^16.
pub proof fn lemma_checksum_completes_sum(body: Seq<u8>)
    ensures
        (byte_sum(body) + checksum_of(body)) % 65536 == 0,
{
}

/// The four nibbles of a length id sum to a multiple of 16, and its low
/// twelve bits are the length.
pub proof fn lemma_length_id_nibbles(n: nat)
    requires
        n <= 0xFFF,
    ensures
        length_id(n) < 65536,
        length_id(n) % 4096 == n,
        (length_id(n) / 4096 + nibble_sum(n)) % 16 == 0,
{
}

/// Every byte is an uppercase hexadecimal digit.
pub open spec fn upper_digits(s: Seq<u8>) -> bool {
    forall|i: int| 0 <= i < s.len() ==> 48 <= #[trigger] s[i] <= 70
}

proof fn lemma_body_upper_digits(address: u8, command: u8, info: Seq<u8>)
    requires
        2 * info.len() <= 0xFFF,
    ensures
        upper_digits(command_body(address, command, info)),
{
    let h = hex_upper(info);
    assert(upper_digits(h)) by {
        assert forall|i: int| 0 <= i < h.len() implies 48 <= #[trigger] h[i] <= 70 by {
            let b = info[i / 2];
            assert(b / 16 < 16 && b % 16 < 16);
        }
    }
    assert forall|v: nat| v < 256 implies #[trigger] upper_digits(hex2(v)) by {
        assert(v / 16 < 16 && v % 16 < 16);
    }
    let lid = length_id(2 * info.len());
    assert(lid < 65536);
    assert(upper_digits(hex4(lid))) by {
        assert(upper_digits(hex2(lid / 256)));
        assert(upper_digits(hex2(lid % 256)));
    }
    assert(upper_digits(hex2(PROTOCOL_VERSION as nat)));
    assert(upper_digits(hex2(address as nat)));
    assert(upper_digits(hex2(COMMAND_GROUP as nat)));
    assert(upper_digits(hex2(command as nat)));
}

/// A request frame starts with `~`, ends with a carriage return and holds no
/// other carriage return, so a `FrameAssembler` fed its bytes hands it back
/// whole at the last byte.
pub proof fn lemma_command_frame_delimited(address: u8, command: u8, info: Seq<u8>)
    requires
        2 * info.len() <= 0xFFF,
    ensures
        command_frame(address, command, info).len() >= 18,
        command_frame(address, command, info)[0] == FRAME_START_BYTE,
        command_frame(address, command, info).last() == FRAME_END_BYTE,
        forall|i: int|
            0 <= i < command_frame(address, command, info).len() - 1 ==> #[trigger] command_frame(
                address,
                command,
                info,
            )[i] != FRAME_END_BYTE,
{
    let body = command_body(address, command, info);
    let frame = command_frame(address, command, info);
    let tail = hex4(checksum_of(body));
    lemma_body_upper_digits(address, command, info);
    assert(upper_digits(tail)) by {
        let ck = checksum_of(body);
        assert(ck / 256 < 256);
        assert((ck / 256) / 16 < 16 && (ck / 256) % 16 < 16);
        assert((ck % 256) / 16 < 16 && (ck % 256) % 16 < 16);
    }
    assert(body.len() >= 12);
    assert forall|i: int| 0 <= i < frame.len() - 1 implies #[trigger] frame[i] != FRAME_END_BYTE by {
        if i == 0 {
        } else if i < 1 + body.len() {
            assert(frame[i] == body[i - 1]);
        } else {
            assert(frame[i] == tail[i - 1 - body.len()]);
        }
    }
}

/// Reading back a request frame gives the address, command and info it was
/// built from: the framing loses nothing for any info that fits the length
/// field.
pub proof fn lemma_command_frame_roundtrip(address: u8, command: u8, info: Seq<u8>)
    requires
        2 * info.len() <= 0xFFF,
    ensures
        parse_frame(command_frame(address, command, info)) == Ok::<FrameView, ProtocolFault>(
            FrameView { address, cid2: command, info },
        ),
{
    let len = 2 * info.len();
    let lid = length_id(len);
    let body = command_body(address, command, info);
    let ck = checksum_of(body);
    let raw = command_frame(address, command, info);
    let n = raw.len();
    assert(body.len() == 12 + len);
    assert(n == body.len() + 6);
    assert(raw.subrange(1, n - 5) =~= body);
    assert(raw.subrange(n - 5, n - 1) =~= hex4(ck));
    assert(raw[0] == FRAME_START_BYTE);
    assert(raw[n - 1] == FRAME_END_BYTE);
    lemma_hex4_field(ck);
    lemma_command_body_fields(address, command, info);
}

proof fn lemma_byte_sum_change(s: Seq<u8>, t: Seq<u8>, m: int)
    requires
        s.len() == t.len(),
        0 <= m < s.len(),
        forall|i: int| 0 <= i < s.len() && i != m ==> t[i] == s[i],
    ensures
        byte_sum(t) == byte_sum(s) - s[m] + t[m],
    decreases s.len(),
{
    let k = s.len() - 1;
    if m < k {
        assert forall|i: int| 0 <= i < s.drop_last().len() && i != m implies t.drop_last()[i] == s.drop_last()[i] by {
            assert(t[i] == s[i]);
        }
        lemma_byte_sum_change(s.drop_last(), t.drop_last(), m);
        assert(t[k] == s[k]);
    } else {
        assert(s.drop_last() =~= t.drop_last()) by {
            assert forall|i: int| 0 <= i < s.drop_last().len() implies t.drop_last()[i] == s.drop_last()[i] by {
                assert(t[i] == s[i]);
            }
        }
    }
}

proof fn lemma_checksum_separates(a: nat, b: nat)
    requires
        a != b,
        a < b + 256,
        b < a + 256,
    ensures
        ((65536 - a % 65536) % 65536) != ((65536 - b % 65536) % 65536),
{
    assert(a % 65536 != b % 65536) by (nonlinear_arith)
        requires
            a != b,
            a < b + 256,
            b < a + 256,
    {
        assert(a == 65536 * (a / 65536) + a % 65536);
        assert(b == 65536 * (b / 65536) + b % 65536);
        if a % 65536 == b % 65536 {
            if a / 65536 < b / 65536 {
                assert(b - a >= 65536);
            } else if a / 65536 > b / 65536 {
                assert(a - b >= 65536);
            }
        }
    }
}

/// A frame that parses no longer parses once one byte of it changes inside
/// the framed data, at the `~` or at the final carriage return: a delimiter
/// or the checksum no longer matches.
pub proof fn lemma_frame_detects_one_byte_change(raw: Seq<u8>, changed: Seq<u8>, j: int)
    requires
        parse_frame(raw) is Ok,
        changed.len() == raw.len(),
        0 <= j < raw.len(),
        j < raw.len() - 5 || j == raw.len() - 1,
        changed[j] != raw[j],
        forall|i: int| 0 <= i < raw.len() && i != j ==> changed[i] == raw[i],
    ensures
        parse_frame(changed) is Err,
{
    let n = raw.len();
    if 1 <= j < n - 5 {
        let data = raw.subrange(1, n - 5);
        let data2 = changed.subrange(1, n - 5);
        let tail = raw.subrange(n - 5, n - 1);
        let tail2 = changed.subrange(n - 5, n - 1);
        assert(tail2 =~= tail) by {
            assert forall|i: int| 0 <= i < 4 implies #[trigger] tail2[i] == tail[i] by {
                assert(changed[n - 5 + i] == raw[n - 5 + i]);
            }
        }
        assert(changed[0] == raw[0]);
        assert(changed[n - 1] == raw[n - 1]);
        assert forall|i: int| 0 <= i < data.len() && i != j - 1 implies #[trigger] data2[i] == data[i] by {
            assert(changed[i + 1] == raw[i + 1]);
        }
        lemma_byte_sum_change(data, data2, j - 1);
        lemma_checksum_separates(byte_sum(data), byte_sum(data2));
    }
}

/// Collects the bytes of one frame from the byte stream: bytes before a `~`
/// are skipped, and the frame is complete at the first carriage return
/// after it.
pub struct FrameAssembler {
    started: bool,
    frame: Vec<u8>,
}

impl FrameAssembler {
    /// The assembler's state: whether a `~` was seen, and the bytes kept.
    pub closed spec fn started(&self) -> bool {
        self.started
    }

    pub closed spec fn pending(&self) -> Seq<u8> {
        self.frame@
    }

    /// A frame under way starts with `~` and holds no carriage return; before
    /// the `~` nothing is kept.
    pub open spec fn wf(&self) -> bool {
        &&& !self.started() ==> self.pending().len() == 0
        &&& self.started() ==> self.pending().len() > 0 && self.pending()[0] == FRAME_START_BYTE
        &&& forall|i: int| 0 <= i < self.pending().len() ==> #[trigger] self.pending()[i] != FRAME_END_BYTE
    }

    #[verifier::type_invariant]
    spec fn keeps_one_frame(&self) -> bool {
        self.wf()
    }

    pub fn new() -> (res: Self)
        ensures
            res.wf(),
            !res.started(),
            res.pending().len() == 0,
    {
        FrameAssembler { started: false, frame: Vec::new() }
    }

    /// Takes the next byte of the stream; returns the frame when this byte
    /// completes it, and then starts over.
    pub fn push_byte(&mut self, byte: u8) -> (res: Option<Vec<u8>>)
        ensures
            final(self).wf(),
            !old(self).started() && byte != FRAME_START_BYTE ==> res is None && final(self).pending() == old(self).pending()
                && !final(self).started(),
            !old(self).started() && byte == FRAME_START_BYTE ==> res is None && final(self).started()
                && final(self).pending() == seq![FRAME_START_BYTE],
            old(self).started() && byte != FRAME_END_BYTE ==> res is None && final(self).started()
                && final(self).pending() == old(self).pending().push(byte),
            old(self).started() && byte == FRAME_END_BYTE ==> res is Some && res->Some_0@ == old(self).pending().push(byte)
                && !final(self).started() && final(self).pending().len() == 0,
            res is Some ==> res->Some_0@.len() >= 2 && res->Some_0@[0] == FRAME_START_BYTE
                && res->Some_0@.last() == FRAME_END_BYTE
                && forall|i: int| 0 <= i < res->Some_0@.len() - 1 ==> #[trigger] res->Some_0@[i] != FRAME_END_BYTE,
    {
        proof {
            use_type_invariant(&*self);
        }
        if !self.started {
            if byte == FRAME_START_BYTE {
                let mut frame: Vec<u8> = Vec::new();
                frame.push(byte);
                assert(frame@ =~= seq![FRAME_START_BYTE]);
                *self = FrameAssembler { started: true, frame };
            }
            return None;
        }
        let mut previous = FrameAssembler::new();
        std::mem::swap(self, &mut previous);
        proof {
            use_type_invariant(&previous);
        }
        let mut frame = previous.frame;
        let ghost before = frame@;
        frame.push(byte);
        if byte == FRAME_END_BYTE {
            assert forall|i: int| 0 <= i < frame@.len() - 1 implies #[trigger] frame@[i] != FRAME_END_BYTE by {
                assert(frame@[i] == before[i]);
            }
            return Some(frame);
        }
        assert(frame@[0] == FRAME_START_BYTE);
        assert forall|i: int| 0 <= i < frame@.len() implies #[trigger] frame@[i] != FRAME_END_BYTE by {
            if i < before.len() {
                assert(frame@[i] == before[i]);
            }
        }
        *self = FrameAssembler { started: true, frame };
        None
    }
}

/// The text of a hexadecimal decoding error.
pub open spec fn hex_error_text(e: HexError) -> Seq<char> {
    match e {
        HexError::InvalidHexCharacter { c, index } => "Invalid character "@ + char_debug_text(c) + " at position "@
            + decimal(index as nat),
        HexError::OddLength => "Odd number of digits"@,
        HexError::InvalidStringLength => "Invalid string length"@,
    }
}

/// The text of a protocol error.
pub open spec fn protocol_text(e: ProtocolFault) -> Seq<char> {
    match e {
        ProtocolFault::Hex(h) => "hex decode error: "@ + hex_error_text(h),
        ProtocolFault::Timeout => "timed out waiting for a frame"@,
        ProtocolFault::InvalidFrame(m) => "invalid frame: "@ + m,
        ProtocolFault::ChecksumMismatch { expected, actual } => "checksum mismatch: expected "@ + hex4_text(
            expected as nat,
        ) + ", actual "@ + hex4_text(actual as nat),
        ProtocolFault::InvalidInfoLength { declared, actual } => "info length mismatch: declared "@ + decimal(
            declared as nat,
        ) + ", actual "@ + decimal(actual as nat),
        ProtocolFault::UnexpectedPayloadEnd { field } => "unexpected end of payload while reading "@ + field,
    }
}

impl ProtocolError {
    /// The error's text, as the adapter reports it.
    pub fn message(&self) -> (res: String)
        ensures
            res@ == protocol_text(self@),
    {
        match self {
            ProtocolError::Hex(h) => {
                let mut m = String::from_str("hex decode error: ");
                match h {
                    HexError::InvalidHexCharacter { c, index } => {
                        m.append("Invalid character ");
                        let d = char_debug(*c);
                        m.append(d.as_str());
                        m.append(" at position ");
                        push_decimal(&mut m, *index as u64);
                    },
                    HexError::OddLength => m.append("Odd number of digits"),
                    HexError::InvalidStringLength => m.append("Invalid string length"),
                }
                m
            },
            ProtocolError::Timeout => String::from_str("timed out waiting for a frame"),
            ProtocolError::InvalidFrame(text) => {
                let mut m = String::from_str("invalid frame: ");
                m.append(text.as_str());
                m
            },
            ProtocolError::ChecksumMismatch { expected, actual } => {
                let mut m = String::from_str("checksum mismatch: expected ");
                push_hex4_text(&mut m, *expected);
                m.append(", actual ");
                push_hex4_text(&mut m, *actual);
                m
            },
            ProtocolError::InvalidInfoLength { declared, actual } => {
                let mut m = text_with_number("info length mismatch: declared ", *declared as u64, ", actual ");
                push_decimal(&mut m, *actual as u64);
                m
            },
            ProtocolError::UnexpectedPayloadEnd { field } => {
                let mut m = String::from_str("unexpected end of payload while reading ");
                m.append(field);
                m
            },
        }
    }
}

} // verus!
