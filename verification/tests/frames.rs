use jt1078_video_server::error::{DecodeError, FrameError, HeaderField, Reason};
use jt1078_video_server::rtp::{RtpHeader, RtpPacket};

fn video_frame() -> Vec<u8> {
    let mut bytes = vec![0x30, 0x31, 0x63, 0x64];
    bytes.extend_from_slice(&[0x80, 0x62, 0x00, 0x01]);
    bytes.extend_from_slice(&[0x35, 0x30, 0x71, 0x27, 0x93, 0x75]);
    bytes.extend_from_slice(&[0x00, 0x00]);
    bytes.extend_from_slice(&[0, 0, 0, 0, 0, 0, 0, 1]);
    bytes.extend_from_slice(&[0, 0, 0, 0]);
    bytes.extend_from_slice(&[0x00, 0x04]);
    bytes.extend_from_slice(&[0xaa, 0xbb, 0xcc, 0xdd]);
    bytes
}

fn field_fault(field: HeaderField, reason: Reason) -> FrameError {
    FrameError::Protocol(DecodeError::Field { field, reason })
}

#[test]
fn video_frame_decodes_end_to_end() {
    let bytes = video_frame();
    let (packet, used) = RtpPacket::parse(&bytes).unwrap();
    assert_eq!(used, 34);
    let header = &packet.header;
    assert_eq!(header.version, "2");
    assert!(!header.padding);
    assert!(!header.extension_bit);
    assert_eq!(header.csrc_count, 0);
    assert!(!header.marker);
    assert_eq!(header.payload_type, "H.264");
    assert_eq!(header.package_serial_number, 1);
    assert_eq!(header.terminal_serial_number, "353071279375");
    assert_eq!(header.logical_channel_number, 0);
    assert_eq!(header.data_type, "Video I Frame");
    assert_eq!(header.subpacket_processing_flag, "Atomic Packet");
    assert_eq!(header.timestamp, Some(1));
    assert_eq!(header.last_i_frame_interval, Some(0));
    assert_eq!(header.last_frame_interval, Some(0));
    assert_eq!(header.data_body_length, 4);
    assert_eq!(packet.payload, vec![0xaa, 0xbb, 0xcc, 0xdd]);
}

#[test]
fn decoding_twice_gives_the_same_packet() {
    let bytes = video_frame();
    let first = RtpPacket::parse(&bytes);
    let second = RtpPacket::parse(&bytes);
    assert_eq!(first, second);
    assert_eq!(RtpHeader::parse(&bytes), RtpHeader::parse(&bytes));
}

#[test]
fn bad_magic_is_a_protocol_error() {
    let mut bytes = video_frame();
    bytes[3] = 0x65;
    assert_eq!(
        RtpPacket::parse(&bytes),
        Err(field_fault(HeaderField::HeaderId, Reason::BadMagic))
    );
    assert_eq!(
        RtpHeader::parse_header_id(&bytes[0..4]),
        Err(DecodeError::Field { field: HeaderField::HeaderId, reason: Reason::BadMagic })
    );
    assert_eq!(RtpHeader::parse_header_id(&[0x30, 0x31, 0x63, 0x64]), Ok(0x30316364));
    assert_eq!(
        RtpHeader::parse_header_id(&[0x30, 0x31, 0x63]),
        Err(DecodeError::Field { field: HeaderField::HeaderId, reason: Reason::WrongLength })
    );
}

fn frame(data_type: u8, trailing: &[u8], payload: &[u8]) -> Vec<u8> {
    let mut bytes = vec![0x30, 0x31, 0x63, 0x64, 0xbf, 0xe3, 0x12, 0x34];
    bytes.extend_from_slice(&[0x01, 0x23, 0x45, 0x67, 0x89, 0xab]);
    bytes.push(0x07);
    bytes.push((data_type << 4) | 0x02);
    bytes.extend_from_slice(trailing);
    bytes.extend_from_slice(payload);
    bytes
}

#[test]
fn fixed_fields_are_taken_bit_by_bit() {
    let trailing = [1, 2, 3, 4, 5, 6, 7, 8, 0x11, 0x22, 0x33, 0x44, 0x00, 0x02];
    let (header, used) = RtpHeader::parse(&frame(1, &trailing, &[9, 9])).unwrap();
    assert_eq!(used, 30);
    assert_eq!(header.version, "2");
    assert!(header.padding);
    assert!(header.extension_bit);
    assert_eq!(header.csrc_count, 15);
    assert!(header.marker);
    assert_eq!(header.payload_type, "H.265");
    assert_eq!(header.package_serial_number, 0x1234);
    assert_eq!(header.terminal_serial_number, "0123456789AB");
    assert_eq!(header.logical_channel_number, 7);
    assert_eq!(header.data_type, "Video P Frame");
    assert_eq!(header.subpacket_processing_flag, "Last Packet");
    assert_eq!(header.timestamp, Some(0x0102030405060708));
    assert_eq!(header.last_i_frame_interval, Some(0x1122));
    assert_eq!(header.last_frame_interval, Some(0x3344));
    assert_eq!(header.data_body_length, 2);
}

#[test]
fn data_type_selects_the_trailing_layout() {
    let video = [0, 0, 0, 0, 0, 0, 0, 5, 0, 1, 0, 2, 0, 0];
    for data_type in 0..3u8 {
        let (header, used) = RtpHeader::parse(&frame(data_type, &video, &[])).unwrap();
        assert_eq!(used, 16 + 14);
        assert_eq!(header.timestamp, Some(5));
        assert_eq!(header.last_i_frame_interval, Some(1));
        assert_eq!(header.last_frame_interval, Some(2));
        assert_eq!(RtpHeader::get_remaining_data_length(data_type), Ok(14));
    }
    let audio = [0, 0, 0, 0, 0, 0, 1, 0, 0, 0];
    let (header, used) = RtpHeader::parse(&frame(3, &audio, &[])).unwrap();
    assert_eq!(used, 16 + 10);
    assert_eq!(header.data_type, "Audio Frame");
    assert_eq!(header.timestamp, Some(256));
    assert_eq!(header.last_i_frame_interval, None);
    assert_eq!(header.last_frame_interval, None);
    assert_eq!(RtpHeader::get_remaining_data_length(3), Ok(10));

    let (header, used) = RtpHeader::parse(&frame(4, &[0, 0], &[])).unwrap();
    assert_eq!(used, 16 + 2);
    assert_eq!(header.data_type, "Transparent Data Transmission");
    assert_eq!(header.timestamp, None);
    assert_eq!(header.last_i_frame_interval, None);
    assert_eq!(header.last_frame_interval, None);
    assert_eq!(RtpHeader::get_remaining_data_length(4), Ok(2));

    assert_eq!(RtpHeader::get_remaining_data_length(5), Err(DecodeError::InvalidDataType));
    assert_eq!(RtpHeader::get_remaining_data_length(255), Err(DecodeError::InvalidDataType));
}

#[test]
fn payload_is_as_long_as_the_header_says() {
    for length in [0usize, 1, 2, 255, 256, 1000, 65535] {
        let payload: Vec<u8> = (0..length).map(|i| (i % 251) as u8).collect();
        let trailing = [(length >> 8) as u8, (length & 0xff) as u8];
        let mut bytes = frame(4, &trailing, &payload);
        bytes.extend_from_slice(&[0x30, 0x31]);
        let (packet, used) = RtpPacket::parse(&bytes).unwrap();
        assert_eq!(packet.header.data_body_length, length);
        assert_eq!(packet.payload.len(), packet.header.data_body_length);
        assert_eq!(packet.payload, payload);
        assert_eq!(used, 18 + length);
    }
}

#[test]
fn short_bytes_are_told_from_no_bytes() {
    let bytes = video_frame();
    assert_eq!(RtpPacket::parse(&[]), Err(FrameError::ConnectionClosed));
    assert_eq!(RtpHeader::parse(&[]), Err(FrameError::ConnectionClosed));
    for cut in 1..bytes.len() {
        assert_eq!(RtpPacket::parse(&bytes[..cut]), Err(FrameError::Truncated));
    }
    for cut in 1..30 {
        assert_eq!(RtpHeader::parse(&bytes[..cut]), Err(FrameError::Truncated));
    }
    assert!(RtpHeader::parse(&bytes[..30]).is_ok());
}

#[test]
fn a_fault_in_the_fixed_layout_needs_no_more_than_sixteen_bytes() {
    let mut bytes = video_frame();
    bytes[0] = 0;
    assert_eq!(
        RtpPacket::parse(&bytes[..16]),
        Err(field_fault(HeaderField::HeaderId, Reason::BadMagic))
    );
    assert_eq!(RtpPacket::parse(&bytes[..15]), Err(FrameError::Truncated));
}

#[test]
fn enumerated_fields_reject_what_they_do_not_name() {
    let fault = |field| Err(DecodeError::Field { field, reason: Reason::InvalidValue });
    for code in 0..128u8 {
        let name = match code {
            98 => Some("H.264"),
            99 => Some("H.265"),
            6 => Some("G.711A"),
            7 => Some("G.711U"),
            _ => None,
        };
        for marker in [0u8, 0x80] {
            match name {
                Some(name) => {
                    assert_eq!(RtpHeader::parse_payload_type(marker | code), Ok(name.to_string()))
                }
                None => assert_eq!(
                    RtpHeader::parse_payload_type(marker | code),
                    fault(HeaderField::PayloadType)
                ),
            }
        }
    }
    let kinds = [
        "Video I Frame",
        "Video P Frame",
        "Video B Frame",
        "Audio Frame",
        "Transparent Data Transmission",
    ];
    let flags = ["Atomic Packet", "First Packet", "Last Packet", "Intermediate Packet"];
    for high in 0..16u8 {
        for low in 0..16u8 {
            let byte = (high << 4) | low;
            let mut code = 5u8;
            let kind = RtpHeader::parse_data_type(byte, &mut code);
            if high < 5 {
                assert_eq!(kind, Ok(kinds[high as usize].to_string()));
                assert_eq!(code, high);
            } else {
                assert_eq!(kind, fault(HeaderField::DataType));
                assert_eq!(code, 5);
            }
            let flag = RtpHeader::parse_subpacket_flag(byte);
            if low < 4 {
                assert_eq!(flag, Ok(flags[low as usize].to_string()));
            } else {
                assert_eq!(flag, fault(HeaderField::SubpacketProcessingFlag));
            }
        }
    }
}

#[test]
fn faults_come_in_wire_order() {
    let mut bytes = video_frame();
    bytes[5] = 0x00;
    bytes[15] = 0xff;
    assert_eq!(
        RtpPacket::parse(&bytes),
        Err(field_fault(HeaderField::PayloadType, Reason::InvalidValue))
    );
    bytes[5] = 0x62;
    assert_eq!(
        RtpPacket::parse(&bytes),
        Err(field_fault(HeaderField::DataType, Reason::InvalidValue))
    );
    bytes[15] = 0x0f;
    assert_eq!(
        RtpPacket::parse(&bytes),
        Err(field_fault(HeaderField::SubpacketProcessingFlag, Reason::InvalidValue))
    );
    bytes[0] = 0x31;
    assert_eq!(
        RtpPacket::parse(&bytes),
        Err(field_fault(HeaderField::HeaderId, Reason::BadMagic))
    );
}

#[test]
fn single_fields_decode_alone() {
    assert_eq!(RtpHeader::parse_version(0x80), Ok("2".to_string()));
    assert_eq!(RtpHeader::parse_version(0xff), Ok("3".to_string()));
    assert_eq!(RtpHeader::parse_version(0x3f), Ok("0".to_string()));
    assert_eq!(RtpHeader::parse_padding(0x20), Ok(true));
    assert_eq!(RtpHeader::parse_padding(0xdf), Ok(false));
    assert_eq!(RtpHeader::parse_extension_bit(0x10), Ok(true));
    assert_eq!(RtpHeader::parse_extension_bit(0xef), Ok(false));
    assert_eq!(RtpHeader::parse_csrc_count(0xf9), Ok(9));
    assert_eq!(RtpHeader::parse_marker(0x80), Ok(true));
    assert_eq!(RtpHeader::parse_marker(0x7f), Ok(false));
    assert_eq!(RtpHeader::parse_package_serial_number(&[0xab, 0xcd]), Ok(0xabcd));
    assert_eq!(RtpHeader::parse_last_i_frame_interval(&[0x01, 0x00]), Ok(256));
    assert_eq!(RtpHeader::parse_last_frame_interval(&[0xff, 0xff]), Ok(65535));
    assert_eq!(RtpHeader::parse_data_body_length(&[0x03, 0xe8]), Ok(1000));
    assert_eq!(
        RtpHeader::parse_timestamp(&[0xff, 0xee, 0xdd, 0xcc, 0xbb, 0xaa, 0x99, 0x88]),
        Ok(0xffeeddccbbaa9988)
    );
    assert_eq!(RtpHeader::parse_terminal_serial_number(&[]), "");
    assert_eq!(RtpHeader::parse_terminal_serial_number(&[0x0f, 0xa0, 0x9c]), "0FA09C");
}

#[test]
fn wide_fields_want_their_exact_width() {
    let wrong = |field| DecodeError::Field { field, reason: Reason::WrongLength };
    assert_eq!(
        RtpHeader::parse_package_serial_number(&[1]),
        Err(wrong(HeaderField::PackageSerialNumber))
    );
    assert_eq!(
        RtpHeader::parse_package_serial_number(&[1, 2, 3]),
        Err(wrong(HeaderField::PackageSerialNumber))
    );
    assert_eq!(RtpHeader::parse_timestamp(&[0; 7]), Err(wrong(HeaderField::Timestamp)));
    assert_eq!(RtpHeader::parse_timestamp(&[0; 9]), Err(wrong(HeaderField::Timestamp)));
    assert_eq!(
        RtpHeader::parse_last_i_frame_interval(&[]),
        Err(wrong(HeaderField::LastIFrameInterval))
    );
    assert_eq!(
        RtpHeader::parse_last_frame_interval(&[0; 4]),
        Err(wrong(HeaderField::LastFrameInterval))
    );
    assert_eq!(
        RtpHeader::parse_data_body_length(&[0]),
        Err(wrong(HeaderField::DataBodyLength))
    );
    assert_eq!(RtpHeader::parse_header_id(&[0; 5]), Err(wrong(HeaderField::HeaderId)));
}

#[test]
fn errors_name_the_field_at_fault() {
    let text = |field, reason| DecodeError::Field { field, reason }.message();
    assert_eq!(text(HeaderField::HeaderId, Reason::BadMagic), "Invalid packet header");
    assert_eq!(
        text(HeaderField::HeaderId, Reason::WrongLength),
        "Failed to parse 'header_id' field"
    );
    assert_eq!(
        text(HeaderField::PayloadType, Reason::InvalidValue),
        "Failed to parse 'payload_type' field"
    );
    assert_eq!(
        text(HeaderField::DataType, Reason::InvalidValue),
        "Failed to parse 'type_of_data' field"
    );
    assert_eq!(text(HeaderField::Marker, Reason::BitLayout), "Failed to parse 'boundary' field");
    assert_eq!(
        text(HeaderField::SubpacketProcessingFlag, Reason::InvalidValue),
        "Failed to parse 'subpacket_processing_flag' field"
    );
    assert_eq!(text(HeaderField::Timestamp, Reason::WrongLength), "Failed to parse 'timestamp' field");
    assert_eq!(DecodeError::InvalidDataType.message(), "Invalid 'data_type' field");
    assert_eq!(HeaderField::Version.name(), "version");
    assert_eq!(HeaderField::DataBodyLength.name(), "data_body_length");
}
