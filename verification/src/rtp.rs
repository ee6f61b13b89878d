//! The frame header and its decoder.
//!
//! A frame starts with sixteen bytes of fixed layout. The data type found
//! there selects a trailing layout of fourteen, ten or two bytes, whose last
//! two bytes give the length of the payload that follows. All numbers wider
//! than a byte are big-endian.

use crate::error::{DecodeError, FrameError, HeaderField, Reason};
use crate::helper::{bit_value, field_value, get_bit_at, get_num_at};
use vstd::prelude::*;
use vstd::string::*;

verus! {

/// The magic constant that opens every frame, read as a big-endian number.
pub const HEADER_ID: u32 = 0x3031_6364;

/// The length of the fixed layout.
pub const FIXED_LENGTH: usize = 16;

/// The sixteen digits, in upper case.
pub const DIGITS: &'static str = "0123456789ABCDEF";

/// The two bytes at the front of `bytes` as one big-endian number.
pub open spec fn be16(bytes: Seq<u8>) -> int {
    bytes[0] as int * 0x100 + bytes[1] as int
}

/// The four bytes at the front of `bytes` as one big-endian number.
pub open spec fn be32(bytes: Seq<u8>) -> int {
    be16(bytes) * 0x1_0000 + be16(bytes.skip(2))
}

/// The eight bytes at the front of `bytes` as one big-endian number.
pub open spec fn be64(bytes: Seq<u8>) -> int {
    be32(bytes) * 0x1_0000_0000 + be32(bytes.skip(4))
}

/// Reads the two bytes at `at` as one big-endian number.
fn read_u16(bytes: &[u8], at: usize) -> (r: u16)
    requires
        at + 2 <= bytes@.len(),
    ensures
        r == be16(bytes@.skip(at as int)),
{
    (bytes[at] as u16) * 0x100 + bytes[at + 1] as u16
}

/// Reads the four bytes at `at` as one big-endian number.
fn read_u32(bytes: &[u8], at: usize) -> (r: u32)
    requires
        at + 4 <= bytes@.len() <= usize::MAX,
    ensures
        r == be32(bytes@.skip(at as int)),
{
    let high: u16 = read_u16(bytes, at);
    let low: u16 = read_u16(bytes, at + 2);
    proof {
        assert(bytes@.skip(at as int).skip(2) =~= bytes@.skip(at + 2));
    }
    (high as u32) * 0x1_0000 + low as u32
}

/// Reads the eight bytes at `at` as one big-endian number.
fn read_u64(bytes: &[u8], at: usize) -> (r: u64)
    requires
        at + 8 <= bytes@.len() <= usize::MAX,
    ensures
        r == be64(bytes@.skip(at as int)),
{
    let high: u32 = read_u32(bytes, at);
    let low: u32 = read_u32(bytes, at + 4);
    proof {
        assert(bytes@.skip(at as int).skip(4) =~= bytes@.skip(at + 4));
    }
    (high as u64) * 0x1_0000_0000 + low as u64
}

/// The digit that stands for a number below sixteen: `0` to `9`, then `A` to
/// `F`.
pub open spec fn digit_char(nibble: int) -> char {
    DIGITS@[nibble]
}

/// Each byte of `bytes` as two digits of base sixteen, in upper case.
pub open spec fn hex_text(bytes: Seq<u8>) -> Seq<char> {
    Seq::new(
        2 * bytes.len(),
        |i: int|
            digit_char(
                if i % 2 == 0 {
                    bytes[i / 2] as int / 16
                } else {
                    bytes[i / 2] as int % 16
                },
            ),
    )
}

/// The one digit that stands for `nibble`, as text.
pub(crate) fn digit_text(nibble: u8) -> (r: &'static str)
    requires
        nibble < 16,
    ensures
        r@ == seq![digit_char(nibble as int)],
{
    proof {
        reveal_strlit("0123456789ABCDEF");
        assert(is_ascii(DIGITS));
    }
    let digit: &'static str = DIGITS.substring_ascii(nibble as usize, nibble as usize + 1);
    assert(digit@ =~= seq![digit_char(nibble as int)]);
    digit
}

/// The name of a payload type, for the codes that have one.
pub open spec fn payload_type_name(code: int) -> Option<Seq<char>> {
    if code == 98 {
        Some("H.264"@)
    } else if code == 99 {
        Some("H.265"@)
    } else if code == 6 {
        Some("G.711A"@)
    } else if code == 7 {
        Some("G.711U"@)
    } else {
        None
    }
}

/// The name of a data type, for the codes 0 to 4.
pub open spec fn data_type_name(code: int) -> Option<Seq<char>> {
    if code == 0 {
        Some("Video I Frame"@)
    } else if code == 1 {
        Some("Video P Frame"@)
    } else if code == 2 {
        Some("Video B Frame"@)
    } else if code == 3 {
        Some("Audio Frame"@)
    } else if code == 4 {
        Some("Transparent Data Transmission"@)
    } else {
        None
    }
}

/// The name of a subpacket processing flag, for the codes 0 to 3.
pub open spec fn subpacket_flag_name(code: int) -> Option<Seq<char>> {
    if code == 0 {
        Some("Atomic Packet"@)
    } else if code == 1 {
        Some("First Packet"@)
    } else if code == 2 {
        Some("Last Packet"@)
    } else if code == 3 {
        Some("Intermediate Packet"@)
    } else {
        None
    }
}

/// The length of the trailing layout that a data type selects: timestamp,
/// both intervals and body length for the three kinds of video frame,
/// timestamp and body length for audio, the body length alone for
/// transparent data.
pub open spec fn trailing_length(data_type: int) -> Option<nat> {
    if 0 <= data_type <= 2 {
        Some(14)
    } else if data_type == 3 {
        Some(10)
    } else if data_type == 4 {
        Some(2)
    } else {
        None
    }
}

/// One decoded frame header.
#[derive(Clone, Debug, PartialEq, Eq)]
pub struct RtpHeader {
    /// The protocol version, in decimal.
    pub version: String,
    pub padding: bool,
    pub extension_bit: bool,
    pub csrc_count: u8,
    pub marker: bool,
    /// The name of the codec.
    pub payload_type: String,
    pub package_serial_number: u16,
    /// The six bytes that identify the device, in upper-case hexadecimal.
    pub terminal_serial_number: String,
    pub logical_channel_number: u8,
    /// The name of the kind of frame.
    pub data_type: String,
    /// The name of the frame's place in a split packet.
    pub subpacket_processing_flag: String,
    /// The device clock at capture; absent from transparent data.
    pub timestamp: Option<u64>,
    /// Milliseconds since the last I frame; video only.
    pub last_i_frame_interval: Option<u16>,
    /// Milliseconds since the last frame; video only.
    pub last_frame_interval: Option<u16>,
    /// The number of payload bytes that follow the header.
    pub data_body_length: usize,
}

/// A header as a mathematical value.
pub struct HeaderView {
    pub version: Seq<char>,
    pub padding: bool,
    pub extension_bit: bool,
    pub csrc_count: u8,
    pub marker: bool,
    pub payload_type: Seq<char>,
    pub package_serial_number: u16,
    pub terminal_serial_number: Seq<char>,
    pub logical_channel_number: u8,
    pub data_type: Seq<char>,
    pub subpacket_processing_flag: Seq<char>,
    pub timestamp: Option<u64>,
    pub last_i_frame_interval: Option<u16>,
    pub last_frame_interval: Option<u16>,
    pub data_body_length: usize,
}

impl View for RtpHeader {
    type V = HeaderView;

    open spec fn view(&self) -> HeaderView {
        HeaderView {
            version: self.version@,
            padding: self.padding,
            extension_bit: self.extension_bit,
            csrc_count: self.csrc_count,
            marker: self.marker,
            payload_type: self.payload_type@,
            package_serial_number: self.package_serial_number,
            terminal_serial_number: self.terminal_serial_number@,
            logical_channel_number: self.logical_channel_number,
            data_type: self.data_type@,
            subpacket_processing_flag: self.subpacket_processing_flag@,
            timestamp: self.timestamp,
            last_i_frame_interval: self.last_i_frame_interval,
            last_frame_interval: self.last_frame_interval,
            data_body_length: self.data_body_length,
        }
    }
}

/// The first fault in the fixed layout at the front of `bytes`, in the
/// order in which the fields are decoded. Of the sixteen bytes only the magic
/// constant and the three enumerated fields can be at fault.
pub open spec fn fixed_fault(bytes: Seq<u8>) -> Option<DecodeError>
    recommends
        bytes.len() >= FIXED_LENGTH,
{
    if be32(bytes) != HEADER_ID {
        Some(DecodeError::Field { field: HeaderField::HeaderId, reason: Reason::BadMagic })
    } else if payload_type_name(field_value(bytes[5], 6, 7)) is None {
        Some(DecodeError::Field { field: HeaderField::PayloadType, reason: Reason::InvalidValue })
    } else if data_type_name(field_value(bytes[15], 7, 4)) is None {
        Some(DecodeError::Field { field: HeaderField::DataType, reason: Reason::InvalidValue })
    } else if subpacket_flag_name(field_value(bytes[15], 3, 4)) is None {
        Some(
            DecodeError::Field {
                field: HeaderField::SubpacketProcessingFlag,
                reason: Reason::InvalidValue,
            },
        )
    } else {
        None
    }
}

/// The data type code in the fixed layout at the front of `bytes`.
pub open spec fn data_type_code(bytes: Seq<u8>) -> int
    recommends
        bytes.len() >= FIXED_LENGTH,
{
    field_value(bytes[15], 7, 4)
}

/// The length of the whole header at the front of `bytes`: the fixed layout
/// and the trailing layout that its data type selects.
pub open spec fn header_length(bytes: Seq<u8>) -> nat
    recommends
        bytes.len() >= FIXED_LENGTH,
        fixed_fault(bytes) is None,
{
    FIXED_LENGTH as nat + trailing_length(data_type_code(bytes)).unwrap()
}

/// The header at the front of `bytes`, field by field.
pub open spec fn header_of(bytes: Seq<u8>) -> HeaderView
    recommends
        bytes.len() >= FIXED_LENGTH,
        fixed_fault(bytes) is None,
        bytes.len() >= header_length(bytes),
{
    let code = data_type_code(bytes);
    let end = header_length(bytes) as int;
    HeaderView {
        version: seq![digit_char(field_value(bytes[4], 7, 2))],
        padding: bit_value(bytes[4], 5) == 1,
        extension_bit: bit_value(bytes[4], 4) == 1,
        csrc_count: field_value(bytes[4], 3, 4) as u8,
        marker: bit_value(bytes[5], 7) == 1,
        payload_type: payload_type_name(field_value(bytes[5], 6, 7)).unwrap(),
        package_serial_number: be16(bytes.skip(6)) as u16,
        terminal_serial_number: hex_text(bytes.subrange(8, 14)),
        logical_channel_number: bytes[14],
        data_type: data_type_name(code).unwrap(),
        subpacket_processing_flag: subpacket_flag_name(field_value(bytes[15], 3, 4)).unwrap(),
        timestamp: if code <= 3 {
            Some(be64(bytes.skip(16)) as u64)
        } else {
            None
        },
        last_i_frame_interval: if code <= 2 {
            Some(be16(bytes.skip(24)) as u16)
        } else {
            None
        },
        last_frame_interval: if code <= 2 {
            Some(be16(bytes.skip(26)) as u16)
        } else {
            None
        },
        data_body_length: be16(bytes.skip(end - 2)) as usize,
    }
}

/// What decoding the header at the front of `bytes` gives: the header and
/// its length, or the reason why there is none.
pub open spec fn decode_header(bytes: Seq<u8>) -> Result<(HeaderView, nat), FrameError> {
    if bytes.len() == 0 {
        Err(FrameError::ConnectionClosed)
    } else if bytes.len() < FIXED_LENGTH {
        Err(FrameError::Truncated)
    } else if fixed_fault(bytes) is Some {
        Err(FrameError::Protocol(fixed_fault(bytes).unwrap()))
    } else if bytes.len() < header_length(bytes) {
        Err(FrameError::Truncated)
    } else {
        Ok((header_of(bytes), header_length(bytes)))
    }
}

/// Hands a field's fault on as a protocol error.
fn protocol<T>(field: Result<T, DecodeError>) -> (r: Result<T, FrameError>)
    ensures
        match field {
            Ok(value) => r == Ok::<T, FrameError>(value),
            Err(e) => r == Err::<T, FrameError>(FrameError::Protocol(e)),
        },
{
    match field {
        Ok(value) => Ok(value),
        Err(e) => Err(FrameError::Protocol(e)),
    }
}

impl RtpHeader {
    /// Decodes the header at the front of `bytes` and says how many bytes it
    /// takes up.
    ///
    /// The fixed layout is decoded first; a fault there is reported whatever
    /// follows the sixteen bytes. Bytes that end before the header does give
    /// `Truncated`, and no bytes at all give `ConnectionClosed`.
    pub fn parse(bytes: &[u8]) -> (r: Result<(RtpHeader, usize), FrameError>)
        ensures
            is_header_of(r, bytes@),
    {
        if bytes.len() == 0 {
            return Err(FrameError::ConnectionClosed);
        }
        if bytes.len() < FIXED_LENGTH {
            return Err(FrameError::Truncated);
        }
        protocol(Self::parse_header_id(&bytes[0..4]))?;

        let num: u8 = bytes[4];
        let version = protocol(Self::parse_version(num))?;
        let padding = protocol(Self::parse_padding(num))?;
        let extension_bit = protocol(Self::parse_extension_bit(num))?;
        let csrc_count = protocol(Self::parse_csrc_count(num))?;

        let num: u8 = bytes[5];
        let marker = protocol(Self::parse_marker(num))?;
        let payload_type = protocol(Self::parse_payload_type(num))?;

        let package_serial_number = protocol(Self::parse_package_serial_number(&bytes[6..8]))?;
        let terminal_serial_number = Self::parse_terminal_serial_number(&bytes[8..14]);
        let logical_channel_number: u8 = bytes[14];

        let num: u8 = bytes[15];
        let mut data_type: u8 = 5;
        let type_of_data = protocol(Self::parse_data_type(num, &mut data_type))?;
        let subpacket_processing_flag = protocol(Self::parse_subpacket_flag(num))?;

        let trailing: usize = protocol(Self::get_remaining_data_length(data_type))?;
        let end: usize = FIXED_LENGTH + trailing;
        if bytes.len() < end {
            return Err(FrameError::Truncated);
        }
        let mut timestamp: Option<u64> = None;
        let mut last_i_frame_interval: Option<u16> = None;
        let mut last_frame_interval: Option<u16> = None;
        if data_type < 4 {
            timestamp = Some(protocol(Self::parse_timestamp(&bytes[16..24]))?);
        }
        if data_type < 3 {
            last_i_frame_interval =
            Some(protocol(Self::parse_last_i_frame_interval(&bytes[24..26]))?);
            last_frame_interval = Some(protocol(Self::parse_last_frame_interval(&bytes[26..28]))?);
        }
        let data_body_length = protocol(Self::parse_data_body_length(&bytes[end - 2..end]))?;

        Ok(
            (
                RtpHeader {
                    version,
                    padding,
                    extension_bit,
                    csrc_count,
                    marker,
                    payload_type,
                    package_serial_number,
                    terminal_serial_number,
                    logical_channel_number,
                    data_type: type_of_data,
                    subpacket_processing_flag,
                    timestamp,
                    last_i_frame_interval,
                    last_frame_interval,
                    data_body_length,
                },
                end,
            ),
        )
    }

    /// Checks the magic constant in the first four bytes of a frame.
    ///
    /// Fails with `WrongLength` unless there are four bytes, and with
    /// `BadMagic` when the four bytes are not the constant.
    pub fn parse_header_id(bytees: &[u8]) -> (r: Result<u32, DecodeError>)
        ensures
            r == (if bytees@.len() != 4 {
                Err(DecodeError::Field { field: HeaderField::HeaderId, reason: Reason::WrongLength })
            } else if be32(bytees@) != HEADER_ID {
                Err(DecodeError::Field { field: HeaderField::HeaderId, reason: Reason::BadMagic })
            } else {
                Ok(HEADER_ID)
            }),
    {
        if bytees.len() != 4 {
            return Err(
                DecodeError::Field { field: HeaderField::HeaderId, reason: Reason::WrongLength },
            );
        }
        proof {
            assert(bytees@.skip(0) =~= bytees@);
        }
        if read_u32(bytees, 0) == HEADER_ID {
            Ok(HEADER_ID)
        } else {
            Err(DecodeError::Field { field: HeaderField::HeaderId, reason: Reason::BadMagic })
        }
    }

    /// The protocol version: bits 7 and 6, as a decimal digit.
    pub fn parse_version(bytee: u8) -> (r: Result<String, DecodeError>)
        ensures
            r matches Ok(text) && text@ == seq![digit_char(field_value(bytee, 7, 2))],
            0 <= field_value(bytee, 7, 2) <= 3,
    {
        match get_num_at(bytee, 7, 2) {
            Ok(v) => Ok(digit_text(v).to_string()),
            Err(_) => Err(
                DecodeError::Field { field: HeaderField::Version, reason: Reason::BitLayout },
            ),
        }
    }

    /// The padding flag: bit 5.
    pub fn parse_padding(bytee: u8) -> (r: Result<bool, DecodeError>)
        ensures
            r == Ok::<bool, DecodeError>(bit_value(bytee, 5) == 1),
    {
        match get_bit_at(bytee, 5) {
            Ok(p) => Ok(p == 1),
            Err(_) => Err(
                DecodeError::Field { field: HeaderField::Padding, reason: Reason::BitLayout },
            ),
        }
    }

    /// The extension flag: bit 4.
    pub fn parse_extension_bit(bytee: u8) -> (r: Result<bool, DecodeError>)
        ensures
            r == Ok::<bool, DecodeError>(bit_value(bytee, 4) == 1),
    {
        match get_bit_at(bytee, 4) {
            Ok(eb) => Ok(eb == 1),
            Err(_) => Err(
                DecodeError::Field { field: HeaderField::ExtensionBit, reason: Reason::BitLayout },
            ),
        }
    }

    /// The count of contributing sources: bits 3 to 0.
    pub fn parse_csrc_count(bytee: u8) -> (r: Result<u8, DecodeError>)
        ensures
            r matches Ok(count) && count == field_value(bytee, 3, 4) && count <= 15,
    {
        match get_num_at(bytee, 3, 4) {
            Ok(cc) => Ok(cc),
            Err(_) => Err(
                DecodeError::Field { field: HeaderField::CsrcCount, reason: Reason::BitLayout },
            ),
        }
    }

    /// The marker flag: bit 7.
    pub fn parse_marker(bytee: u8) -> (r: Result<bool, DecodeError>)
        ensures
            r == Ok::<bool, DecodeError>(bit_value(bytee, 7) == 1),
    {
        match get_bit_at(bytee, 7) {
            Ok(m) => Ok(m == 1),
            Err(_) => Err(
                DecodeError::Field { field: HeaderField::Marker, reason: Reason::BitLayout },
            ),
        }
    }

    /// The payload type: bits 6 to 0, as the name of the codec.
    ///
    /// Fails with `InvalidValue` exactly when the code names no codec.
    pub fn parse_payload_type(bytee: u8) -> (r: Result<String, DecodeError>)
        ensures
            match payload_type_name(field_value(bytee, 6, 7)) {
                Some(name) => r matches Ok(text) && text@ == name,
                None => r == Err::<String, DecodeError>(
                    DecodeError::Field {
                        field: HeaderField::PayloadType,
                        reason: Reason::InvalidValue,
                    },
                ),
            },
    {
        let pt: &'static str = match get_num_at(bytee, 6, 7) {
            Ok(98) => "H.264",
            Ok(99) => "H.265",
            Ok(6) => "G.711A",
            Ok(7) => "G.711U",
            Ok(_) | Err(_) => {
                return Err(
                    DecodeError::Field {
                        field: HeaderField::PayloadType,
                        reason: Reason::InvalidValue,
                    },
                )
            },
        };
        Ok(pt.to_string())
    }

    /// The package serial number: two bytes, big-endian.
    ///
    /// Fails with `WrongLength` exactly when there are not two bytes.
    pub fn parse_package_serial_number(bytees: &[u8]) -> (r: Result<u16, DecodeError>)
        ensures
            r == (if bytees@.len() == 2 {
                Ok(be16(bytees@) as u16)
            } else {
                Err(DecodeError::Field { field: HeaderField::PackageSerialNumber, reason: Reason::WrongLength })
            }),
    {
        if bytees.len() != 2 {
            return Err(
                DecodeError::Field { field: HeaderField::PackageSerialNumber, reason: Reason::WrongLength },
            );
        }
        proof {
            assert(bytees@.skip(0) =~= bytees@);
        }
        Ok(read_u16(bytees, 0))
    }

    /// The device's serial number: each byte as two upper-case hexadecimal
    /// digits.
    pub fn parse_terminal_serial_number(bytees: &[u8]) -> (r: String)
        ensures
            r@ == hex_text(bytees@),
    {
        let mut text: String = String::new();
        let mut i: usize = 0;
        while i < bytees.len()
            invariant
                i <= bytees@.len(),
                text@ == hex_text(bytees@.take(i as int)),
            decreases bytees@.len() - i,
        {
            let bytee: u8 = bytees[i];
            let ghost before = text@;
            text.append(digit_text(bytee / 16));
            text.append(digit_text(bytee % 16));
            i += 1;
            proof {
                assert(text@ == before + seq![digit_char(bytee as int / 16)] + seq![
                    digit_char(bytee as int % 16),
                ]);
                assert(text@ =~= hex_text(bytees@.take(i as int)));
            }
        }
        proof {
            assert(bytees@.take(i as int) =~= bytees@);
        }
        text
    }

    /// The data type: bits 7 to 4, as the name of the kind of frame. The
    /// code itself is stored in `data_type`.
    ///
    /// Fails with `InvalidValue` exactly when the code is above 4, and then
    /// leaves `data_type` as it was.
    pub fn parse_data_type(bytee: u8, data_type: &mut u8) -> (r: Result<String, DecodeError>)
        ensures
            match data_type_name(field_value(bytee, 7, 4)) {
                Some(name) => r matches Ok(text) && text@ == name && *final(data_type)
                    == field_value(bytee, 7, 4),
                None => r == Err::<String, DecodeError>(
                    DecodeError::Field { field: HeaderField::DataType, reason: Reason::InvalidValue },
                ) && *final(data_type) == *old(data_type),
            },
    {
        let fault = DecodeError::Field {
            field: HeaderField::DataType,
            reason: Reason::InvalidValue,
        };
        match get_num_at(bytee, 7, 4) {
            Ok(code) => {
                let name: &'static str = match code {
                    0 => "Video I Frame",
                    1 => "Video P Frame",
                    2 => "Video B Frame",
                    3 => "Audio Frame",
                    4 => "Transparent Data Transmission",
                    _ => { return Err(fault) },
                };
                *data_type = code;
                Ok(name.to_string())
            },
            Err(_) => Err(fault),
        }
    }

    /// The subpacket processing flag: bits 3 to 0, as the name of the
    /// frame's place in a split packet.
    ///
    /// Fails with `InvalidValue` exactly when the code is above 3.
    pub fn parse_subpacket_flag(bytee: u8) -> (r: Result<String, DecodeError>)
        ensures
            match subpacket_flag_name(field_value(bytee, 3, 4)) {
                Some(name) => r matches Ok(text) && text@ == name,
                None => r == Err::<String, DecodeError>(
                    DecodeError::Field {
                        field: HeaderField::SubpacketProcessingFlag,
                        reason: Reason::InvalidValue,
                    },
                ),
            },
    {
        let name: &'static str = match get_num_at(bytee, 3, 4) {
            Ok(0) => "Atomic Packet",
            Ok(1) => "First Packet",
            Ok(2) => "Last Packet",
            Ok(3) => "Intermediate Packet",
            Ok(_) | Err(_) => {
                return Err(
                    DecodeError::Field {
                        field: HeaderField::SubpacketProcessingFlag,
                        reason: Reason::InvalidValue,
                    },
                )
            },
        };
        Ok(name.to_string())
    }

    /// The length of the trailing layout for a data type: 14 for video, 10
    /// for audio, 2 for transparent data.
    ///
    /// Fails with `InvalidDataType` exactly when the code is above 4.
    pub fn get_remaining_data_length(bytee: u8) -> (r: Result<usize, DecodeError>)
        ensures
            match trailing_length(bytee as int) {
                Some(length) => r matches Ok(n) && n == length,
                None => r == Err::<usize, DecodeError>(DecodeError::InvalidDataType),
            },
    {
        match bytee {
            0 | 1 | 2 => Ok(14),
            3 => Ok(10),
            4 => Ok(2),
            _ => Err(DecodeError::InvalidDataType),
        }
    }

    /// The timestamp: eight bytes, big-endian.
    ///
    /// Fails with `WrongLength` exactly when there are not eight bytes.
    pub fn parse_timestamp(bytees: &[u8]) -> (r: Result<u64, DecodeError>)
        ensures
            r == (if bytees@.len() == 8 {
                Ok(be64(bytees@) as u64)
            } else {
                Err(DecodeError::Field { field: HeaderField::Timestamp, reason: Reason::WrongLength })
            }),
    {
        if bytees.len() != 8 {
            return Err(
                DecodeError::Field { field: HeaderField::Timestamp, reason: Reason::WrongLength },
            );
        }
        proof {
            assert(bytees@.skip(0) =~= bytees@);
        }
        Ok(read_u64(bytees, 0))
    }

    /// The time since the last I frame: two bytes, big-endian.
    ///
    /// Fails with `WrongLength` exactly when there are not two bytes.
    pub fn parse_last_i_frame_interval(bytees: &[u8]) -> (r: Result<u16, DecodeError>)
        ensures
            r == (if bytees@.len() == 2 {
                Ok(be16(bytees@) as u16)
            } else {
                Err(DecodeError::Field { field: HeaderField::LastIFrameInterval, reason: Reason::WrongLength })
            }),
    {
        if bytees.len() != 2 {
            return Err(
                DecodeError::Field { field: HeaderField::LastIFrameInterval, reason: Reason::WrongLength },
            );
        }
        proof {
            assert(bytees@.skip(0) =~= bytees@);
        }
        Ok(read_u16(bytees, 0))
    }

    /// The time since the last frame: two bytes, big-endian.
    ///
    /// Fails with `WrongLength` exactly when there are not two bytes.
    pub fn parse_last_frame_interval(bytees: &[u8]) -> (r: Result<u16, DecodeError>)
        ensures
            r == (if bytees@.len() == 2 {
                Ok(be16(bytees@) as u16)
            } else {
                Err(DecodeError::Field { field: HeaderField::LastFrameInterval, reason: Reason::WrongLength })
            }),
    {
        if bytees.len() != 2 {
            return Err(
                DecodeError::Field { field: HeaderField::LastFrameInterval, reason: Reason::WrongLength },
            );
        }
        proof {
            assert(bytees@.skip(0) =~= bytees@);
        }
        Ok(read_u16(bytees, 0))
    }

    /// The length of the payload: two bytes, big-endian.
    ///
    /// Fails with `WrongLength` exactly when there are not two bytes.
    pub fn parse_data_body_length(bytees: &[u8]) -> (r: Result<usize, DecodeError>)
        ensures
            r == (if bytees@.len() == 2 {
                Ok(be16(bytees@) as usize)
            } else {
                Err(DecodeError::Field { field: HeaderField::DataBodyLength, reason: Reason::WrongLength })
            }),
    {
        if bytees.len() != 2 {
            return Err(
                DecodeError::Field { field: HeaderField::DataBodyLength, reason: Reason::WrongLength },
            );
        }
        proof {
            assert(bytees@.skip(0) =~= bytees@);
        }
        Ok(read_u16(bytees, 0) as usize)
    }
}

/// One decoded frame: a header and the payload bytes that it announces.
#[derive(Clone, Debug, PartialEq, Eq)]
pub struct RtpPacket {
    pub header: RtpHeader,
    pub payload: Vec<u8>,
}

/// A packet as a mathematical value.
pub struct PacketView {
    pub header: HeaderView,
    pub payload: Seq<u8>,
}

impl PacketView {
    /// The payload is as long as the header says.
    pub open spec fn well_formed(self) -> bool {
        self.payload.len() == self.header.data_body_length
    }
}

impl View for RtpPacket {
    type V = PacketView;

    open spec fn view(&self) -> PacketView {
        PacketView { header: self.header@, payload: self.payload@ }
    }
}

/// What decoding the frame at the front of `bytes` gives: the packet and the
/// number of bytes that the frame takes up, or the reason why there is none.
pub open spec fn decode_packet(bytes: Seq<u8>) -> Result<(PacketView, nat), FrameError> {
    match decode_header(bytes) {
        Err(e) => Err(e),
        Ok((header, start)) => {
            let end = start + header.data_body_length as nat;
            if bytes.len() < end {
                Err(FrameError::Truncated)
            } else {
                Ok((PacketView { header, payload: bytes.subrange(start as int, end as int) }, end))
            }
        },
    }
}

/// `r` is what decoding the header at the front of `bytes` gives.
pub open spec fn is_header_of(r: Result<(RtpHeader, usize), FrameError>, bytes: Seq<u8>) -> bool {
    match decode_header(bytes) {
        Ok((header, length)) => r matches Ok((h, n)) && h@ == header && n == length,
        Err(e) => r == Err::<(RtpHeader, usize), FrameError>(e),
    }
}

/// `r` is what decoding the frame at the front of `bytes` gives.
pub open spec fn is_packet_of(r: Result<(RtpPacket, usize), FrameError>, bytes: Seq<u8>) -> bool {
    match decode_packet(bytes) {
        Ok((packet, length)) => r matches Ok((p, n)) && p@ == packet && n == length,
        Err(e) => r == Err::<(RtpPacket, usize), FrameError>(e),
    }
}

impl RtpPacket {
    /// Decodes the frame at the front of `bytes` and says how many bytes it
    /// takes up: the header, then as many payload bytes as the header
    /// announces.
    ///
    /// A malformed header gives `Protocol` with the field at fault. Bytes
    /// that end before the frame does give `Truncated`, and no bytes at all
    /// give `ConnectionClosed`.
    pub fn parse(bytes: &[u8]) -> (r: Result<(RtpPacket, usize), FrameError>)
        ensures
            is_packet_of(r, bytes@),
    {
        let (header, start) = RtpHeader::parse(bytes)?;
        proof {
            lemma_trailing_layout(bytes@);
        }
        if bytes.len() - start < header.data_body_length {
            return Err(FrameError::Truncated);
        }
        let end: usize = start + header.data_body_length;
        let payload: Vec<u8> = vstd::slice::slice_to_vec(&bytes[start..end]);
        Ok((RtpPacket { header, payload }, end))
    }
}

/// The data type decides the trailing layout. The three kinds of video
/// frame have fourteen trailing bytes, a timestamp and both intervals; audio
/// has ten bytes and a timestamp, and no interval; transparent data has two
/// bytes and none of the three. No other data type gives a header.
pub proof fn lemma_trailing_layout(bytes: Seq<u8>)
    requires
        decode_header(bytes) is Ok,
    ensures
        ({
            let (header, length) = decode_header(bytes)->Ok_0;
            let code = data_type_code(bytes);
            &&& 0 <= code <= 4
            &&& code <= 2 ==> length == FIXED_LENGTH + 14 && header.timestamp is Some
                && header.last_i_frame_interval is Some && header.last_frame_interval is Some
            &&& code == 3 ==> length == FIXED_LENGTH + 10 && header.timestamp is Some
                && header.last_i_frame_interval is None && header.last_frame_interval is None
            &&& code == 4 ==> length == FIXED_LENGTH + 2 && header.timestamp is None
                && header.last_i_frame_interval is None && header.last_frame_interval is None
            &&& length <= bytes.len()
            &&& header.data_body_length <= 0xffff
        }),
{
}

/// Every packet that decoding produces holds exactly as many payload bytes
/// as its header announces, and the frame is the header followed by them.
pub proof fn lemma_payload_length(bytes: Seq<u8>)
    requires
        decode_packet(bytes) is Ok,
    ensures
        ({
            let (packet, length) = decode_packet(bytes)->Ok_0;
            &&& packet.well_formed()
            &&& length == header_length(bytes) + packet.payload.len()
            &&& length <= bytes.len()
        }),
{
    lemma_trailing_layout(bytes);
}

/// Decoding is a function of the bytes: two results of decoding the same
/// bytes are the same error, or hold equal packets of equal length.
pub proof fn lemma_decoding_repeats(
    bytes: Seq<u8>,
    first: Result<(RtpPacket, usize), FrameError>,
    second: Result<(RtpPacket, usize), FrameError>,
)
    requires
        is_packet_of(first, bytes),
        is_packet_of(second, bytes),
    ensures
        first is Ok <==> second is Ok,
        first is Ok ==> first->Ok_0.0@ == second->Ok_0.0@ && first->Ok_0.1 == second->Ok_0.1,
        first is Err ==> first->Err_0 == second->Err_0,
{
}

/// Decoding a header is a function of the bytes: two results of decoding the
/// same bytes are the same error, or hold equal headers of equal length.
pub proof fn lemma_header_decoding_repeats(
    bytes: Seq<u8>,
    first: Result<(RtpHeader, usize), FrameError>,
    second: Result<(RtpHeader, usize), FrameError>,
)
    requires
        is_header_of(first, bytes),
        is_header_of(second, bytes),
    ensures
        first is Ok <==> second is Ok,
        first is Ok ==> first->Ok_0.0@ == second->Ok_0.0@ && first->Ok_0.1 == second->Ok_0.1,
        first is Err ==> first->Err_0 == second->Err_0,
{
}

/// What follows a frame has no part in it: once the bytes hold a whole frame
/// or a malformed header, more bytes behind them change nothing.
pub proof fn lemma_frame_ignores_rest(bytes: Seq<u8>, rest: Seq<u8>)
    requires
        decode_packet(bytes) is Ok || decode_packet(bytes) matches Err(FrameError::Protocol(_)),
    ensures
        decode_packet(bytes + rest) == decode_packet(bytes),
{
    let all = bytes + rest;
    if decode_packet(bytes) is Ok {
        lemma_payload_length(bytes);
        let (header, start) = decode_header(bytes)->Ok_0;
        assert(all.subrange(8, 14) =~= bytes.subrange(8, 14));
        assert(header_of(all) == header_of(bytes));
        assert(all.subrange(start as int, start + header.data_body_length) =~= bytes.subrange(
            start as int,
            start + header.data_body_length,
        ));
    }
}

} // verus!
