//! What can go wrong while a frame is decoded.
//!
//! A header that cannot be decoded always names the field at fault, so that a
//! log line points at the corrupt bytes instead of at the frame as a whole.

use vstd::prelude::*;

verus! {

/// The fields of a frame header, in wire order.
#[derive(Clone, Copy, Debug, PartialEq, Eq, Structural)]
pub enum HeaderField {
    HeaderId,
    Version,
    Padding,
    ExtensionBit,
    CsrcCount,
    Marker,
    PayloadType,
    PackageSerialNumber,
    DataType,
    SubpacketProcessingFlag,
    Timestamp,
    LastIFrameInterval,
    LastFrameInterval,
    DataBodyLength,
}

/// Why a field could not be decoded.
#[derive(Clone, Copy, Debug, PartialEq, Eq, Structural)]
pub enum Reason {
    /// The bytes handed over are not as many as the field is wide.
    WrongLength,
    /// The first four bytes are not the protocol's magic constant.
    BadMagic,
    /// The bits hold a number outside the field's enumeration.
    InvalidValue,
    /// The bit run asked for does not lie inside a byte. The header's own
    /// fields all do, so decoding a header never gives this reason.
    BitLayout,
}

/// A malformed header.
#[derive(Clone, Copy, Debug, PartialEq, Eq, Structural)]
pub enum DecodeError {
    /// The named field could not be decoded.
    Field { field: HeaderField, reason: Reason },
    /// The data type has no trailing layout.
    InvalidDataType,
}

/// Why no frame came out of a run of bytes.
#[derive(Clone, Copy, Debug, PartialEq, Eq, Structural)]
pub enum FrameError {
    /// The bytes end exactly between two frames: the peer has closed the
    /// connection. This ends a session quietly and is no fault.
    ConnectionClosed,
    /// The bytes end in the middle of a frame.
    Truncated,
    /// The header is malformed.
    Protocol(DecodeError),
}

/// The word by which a field is named in messages.
pub open spec fn field_name(field: HeaderField) -> Seq<char> {
    match field {
        HeaderField::HeaderId => "header_id"@,
        HeaderField::Version => "version"@,
        HeaderField::Padding => "padding"@,
        HeaderField::ExtensionBit => "extension_bit"@,
        HeaderField::CsrcCount => "csrc_count"@,
        HeaderField::Marker => "boundary"@,
        HeaderField::PayloadType => "payload_type"@,
        HeaderField::PackageSerialNumber => "package_serial_number"@,
        HeaderField::DataType => "type_of_data"@,
        HeaderField::SubpacketProcessingFlag => "subpacket_processing_flag"@,
        HeaderField::Timestamp => "timestamp"@,
        HeaderField::LastIFrameInterval => "last_i_frame_interval"@,
        HeaderField::LastFrameInterval => "last_frame_interval"@,
        HeaderField::DataBodyLength => "data_body_length"@,
    }
}

/// The text of a decode error.
pub open spec fn decode_message(error: DecodeError) -> Seq<char> {
    match error {
        DecodeError::Field { field: HeaderField::HeaderId, reason: Reason::BadMagic } =>
            "Invalid packet header"@,
        DecodeError::Field { field, reason } => "Failed to parse '"@ + field_name(field)
            + "' field"@,
        DecodeError::InvalidDataType => "Invalid 'data_type' field"@,
    }
}

impl HeaderField {
    /// The word by which this field is named in messages.
    pub fn name(&self) -> (r: &'static str)
        ensures
            r@ == field_name(*self),
    {
        match self {
            HeaderField::HeaderId => "header_id",
            HeaderField::Version => "version",
            HeaderField::Padding => "padding",
            HeaderField::ExtensionBit => "extension_bit",
            HeaderField::CsrcCount => "csrc_count",
            HeaderField::Marker => "boundary",
            HeaderField::PayloadType => "payload_type",
            HeaderField::PackageSerialNumber => "package_serial_number",
            HeaderField::DataType => "type_of_data",
            HeaderField::SubpacketProcessingFlag => "subpacket_processing_flag",
            HeaderField::Timestamp => "timestamp",
            HeaderField::LastIFrameInterval => "last_i_frame_interval",
            HeaderField::LastFrameInterval => "last_frame_interval",
            HeaderField::DataBodyLength => "data_body_length",
        }
    }
}

impl DecodeError {
    /// The error as a line of text that names the field at fault.
    pub fn message(&self) -> (r: String)
        ensures
            r@ == decode_message(*self),
    {
        match self {
            DecodeError::Field { field: HeaderField::HeaderId, reason: Reason::BadMagic } => {
                "Invalid packet header".to_string()
            },
            DecodeError::Field { field, reason } => {
                let mut text: String = "Failed to parse '".to_string();
                text.append(field.name());
                text.append("' field");
                text
            },
            DecodeError::InvalidDataType => "Invalid 'data_type' field".to_string(),
        }
    }
}

} // verus!
