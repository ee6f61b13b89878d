use jt1078_video_server::error::{DecodeError, HeaderField, Reason};
use jt1078_video_server::reader::{Ending, FrameReader, Halt, Step};
use jt1078_video_server::rtp::RtpPacket;

fn frame(serial: u8, data_type: u8, payload: &[u8]) -> Vec<u8> {
    let mut bytes = vec![0x30, 0x31, 0x63, 0x64, 0x80, 0x62, 0x00, serial];
    bytes.extend_from_slice(&[0x35, 0x30, 0x71, 0x27, 0x93, 0x75, 0x00, data_type << 4]);
    let trailing = match data_type {
        0..=2 => 12,
        3 => 8,
        _ => 0,
    };
    bytes.extend(std::iter::repeat(0).take(trailing));
    bytes.push((payload.len() >> 8) as u8);
    bytes.push(payload.len() as u8);
    bytes.extend_from_slice(payload);
    bytes
}

fn bad_magic() -> DecodeError {
    DecodeError::Field { field: HeaderField::HeaderId, reason: Reason::BadMagic }
}

/// Feeds the stream as a caller would that reads exactly what is asked for.
fn run_exact(stream: &[u8]) -> (Vec<Step>, Vec<usize>) {
    let mut reader = FrameReader::new();
    let mut at = 0;
    let mut steps = Vec::new();
    let mut reads = Vec::new();
    loop {
        match reader.step() {
            Step::Read(n) => {
                assert!(n >= 1);
                reads.push(n);
                let end = (at + n).min(stream.len());
                reader.push(&stream[at..end]);
                if end - at < n {
                    reader.halt(Halt::PeerClosed);
                }
                at = end;
            }
            Step::Stop(ending) => {
                steps.push(Step::Stop(ending));
                return (steps, reads);
            }
            step => steps.push(step),
        }
    }
}

#[test]
fn reads_follow_the_layout_of_the_frame() {
    let stream = frame(1, 0, &[0xaa, 0xbb, 0xcc, 0xdd]);
    let (steps, reads) = run_exact(&stream);
    assert_eq!(reads, vec![16, 14, 4, 16]);
    assert_eq!(steps.len(), 2);
    match &steps[0] {
        Step::Deliver(packet) => {
            assert_eq!(packet.payload, vec![0xaa, 0xbb, 0xcc, 0xdd]);
            assert_eq!(packet.header.terminal_serial_number, "353071279375");
        }
        other => panic!("{:?}", other),
    }
    assert_eq!(steps[1], Step::Stop(Ending::ConnectionClosed));
}

#[test]
fn frames_come_out_in_stream_order() {
    let mut stream = Vec::new();
    for serial in 0..50u8 {
        stream.extend(frame(serial, serial % 5, &vec![serial; serial as usize]));
    }
    let (steps, _) = run_exact(&stream);
    assert_eq!(steps.len(), 51);
    for serial in 0..50u8 {
        match &steps[serial as usize] {
            Step::Deliver(packet) => {
                assert_eq!(packet.header.package_serial_number, serial as u16);
                assert_eq!(packet.payload, vec![serial; serial as usize]);
            }
            other => panic!("{:?}", other),
        }
    }
    assert_eq!(steps[50], Step::Stop(Ending::ConnectionClosed));
}

#[test]
fn chunking_does_not_change_the_frames() {
    let mut stream = Vec::new();
    for serial in 0..8u8 {
        stream.extend(frame(serial, serial % 5, &vec![serial; 3 * serial as usize]));
    }
    let (expected, _) = run_exact(&stream);
    for size in [1usize, 2, 3, 7, 16, 17, 64, 1000] {
        let mut reader = FrameReader::new();
        let mut steps = Vec::new();
        for chunk in stream.chunks(size) {
            reader.push(chunk);
            loop {
                match reader.step() {
                    Step::Read(_) => break,
                    step => steps.push(step),
                }
            }
        }
        reader.halt(Halt::PeerClosed);
        steps.push(reader.step());
        assert_eq!(steps, expected);
    }
}

#[test]
fn bad_magic_is_reported_and_the_reader_goes_on() {
    let mut stream = frame(1, 4, &[1, 2, 3]);
    let mut broken = frame(2, 4, &[]);
    broken[2] = 0;
    stream.extend_from_slice(&broken[..16]);
    stream.extend(frame(3, 4, &[4, 5]));
    let (steps, _) = run_exact(&stream);
    assert_eq!(steps.len(), 4);
    assert!(matches!(&steps[0], Step::Deliver(p) if p.header.package_serial_number == 1));
    assert_eq!(steps[1], Step::Report(bad_magic()));
    assert!(matches!(&steps[2], Step::Deliver(p) if p.payload == vec![4, 5]));
    assert_eq!(steps[3], Step::Stop(Ending::ConnectionClosed));
}

#[test]
fn no_search_for_the_next_magic_after_a_fault() {
    let mut broken = frame(2, 4, &[]);
    broken[0] = 0xff;
    let mut stream = broken.clone();
    stream.extend(frame(3, 4, &[]));
    let mut reader = FrameReader::new();
    reader.push(&stream);
    reader.halt(Halt::PeerClosed);
    assert_eq!(reader.step(), Step::Report(bad_magic()));
    assert_eq!(reader.step(), Step::Report(bad_magic()));
    assert_eq!(reader.step(), Step::Stop(Ending::Truncated));
}

#[test]
fn stream_end_inside_a_frame_is_no_clean_close() {
    let stream = frame(1, 0, &[1, 2, 3, 4]);
    for cut in 1..stream.len() {
        let (steps, _) = run_exact(&stream[..cut]);
        assert_eq!(steps, vec![Step::Stop(Ending::Truncated)]);
    }
    let (steps, reads) = run_exact(&[]);
    assert_eq!(steps, vec![Step::Stop(Ending::ConnectionClosed)]);
    assert_eq!(reads, vec![16]);
}

#[test]
fn whole_frames_are_delivered_before_the_end_is_told() {
    let mut reader = FrameReader::new();
    reader.push(&frame(1, 4, &[7]));
    reader.push(&frame(2, 4, &[8]));
    reader.push(&[0x30]);
    reader.halt(Halt::PeerClosed);
    assert!(matches!(reader.step(), Step::Deliver(p) if p.payload == vec![7]));
    assert!(matches!(reader.step(), Step::Deliver(p) if p.payload == vec![8]));
    assert_eq!(reader.step(), Step::Stop(Ending::Truncated));
    assert_eq!(reader.step(), Step::Stop(Ending::Truncated));
}

#[test]
fn a_failed_read_ends_the_loop() {
    let mut reader = FrameReader::new();
    reader.push(&frame(1, 4, &[7])[..10]);
    reader.halt(Halt::TransportFailed);
    assert_eq!(reader.step(), Step::Stop(Ending::TransportFailed));
    reader.halt(Halt::PeerClosed);
    assert_eq!(reader.step(), Step::Stop(Ending::TransportFailed));

    let mut reader = FrameReader::new();
    reader.halt(Halt::TransportFailed);
    assert_eq!(reader.step(), Step::Stop(Ending::TransportFailed));
}

#[test]
fn a_closed_queue_stops_the_loop_at_once() {
    let mut reader = FrameReader::new();
    reader.push(&frame(1, 4, &[7]));
    reader.push(&frame(2, 4, &[8]));
    assert!(matches!(reader.step(), Step::Deliver(_)));
    reader.halt(Halt::QueueClosed);
    assert_eq!(reader.step(), Step::Stop(Ending::QueueClosed));
    assert_eq!(reader.wanted(), 0);

    let mut reader = FrameReader::new();
    reader.halt(Halt::PeerClosed);
    reader.halt(Halt::QueueClosed);
    assert_eq!(reader.step(), Step::Stop(Ending::QueueClosed));
}

#[test]
fn wanted_counts_down_to_the_end_of_the_frame() {
    let stream = frame(1, 3, &[1, 2, 3, 4, 5]);
    assert_eq!(stream.len(), 31);
    for have in 0..=stream.len() {
        let mut reader = FrameReader::new();
        reader.push(&stream[..have]);
        let expected = if have < 16 {
            16 - have
        } else if have < 26 {
            26 - have
        } else {
            31 - have
        };
        assert_eq!(reader.wanted(), expected);
        if have < stream.len() {
            assert_eq!(reader.step(), Step::Read(expected));
        }
    }
    let mut broken = stream.clone();
    broken[15] = 0xf0;
    let mut reader = FrameReader::new();
    reader.push(&broken[..16]);
    assert_eq!(reader.wanted(), 0);
}

#[test]
fn reader_and_parse_agree() {
    let stream = frame(9, 2, &[1, 2, 3]);
    let (packet, used) = RtpPacket::parse(&stream).unwrap();
    assert_eq!(used, stream.len());
    let mut reader = FrameReader::new();
    reader.push(&stream);
    assert_eq!(reader.step(), Step::Deliver(packet));
    assert_eq!(reader.step(), Step::Read(16));
}
