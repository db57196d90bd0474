use ssb_packetstream::frame::{header_body_len, header_id, header_is_goodbye};
use ssb_packetstream::{BodyType, Error, IsEnd, IsStream, Packet, PacketStream, Step};
use std::io::ErrorKind;

/// A byte source that hands out at most `chunk` bytes per read, then fails
/// with `fail` (if set) or ends.
struct Source {
    data: Vec<u8>,
    pos: usize,
    chunk: usize,
    fail: Option<ErrorKind>,
    reads: usize,
}

impl Source {
    fn new(data: Vec<u8>, chunk: usize) -> Source {
        Source { data, pos: 0, chunk, fail: None, reads: 0 }
    }

    fn read(&mut self, n: usize) -> Result<Vec<u8>, std::io::Error> {
        self.reads += 1;
        let end = (self.pos + n.min(self.chunk)).min(self.data.len());
        if end == self.pos {
            if let Some(kind) = self.fail {
                return Err(std::io::Error::new(kind, "source failed"));
            }
        }
        let out = self.data[self.pos..end].to_vec();
        self.pos = end;
        Ok(out)
    }
}

/// Polls until the stream yields an item or finishes.
fn next(s: &mut PacketStream<Source>) -> Option<Result<Packet, Error>> {
    let mut step = s.poll_next();
    loop {
        match step {
            Step::Finished => return None,
            Step::Item(item) => return Some(item),
            Step::Read(n) => {
                let read = s.source_mut().read(n);
                step = s.resume(read);
            }
        }
    }
}

fn frame(flags: u8, id: i32, body: &[u8]) -> Vec<u8> {
    let mut f = vec![flags];
    f.extend_from_slice(&(body.len() as u32).to_be_bytes());
    f.extend_from_slice(&id.to_be_bytes());
    f.extend_from_slice(body);
    f
}

#[test]
fn one_packet_from_scenario() {
    let mut input = vec![0b0000_1001u8, 0, 0, 0, 5, 0, 0, 0x30, 0x39];
    input.extend_from_slice(&[1, 2, 3, 4, 5]);
    let mut s = PacketStream::new(Source::new(input, 64));
    let p = next(&mut s).unwrap().unwrap();
    assert_eq!(p.id, 12345);
    assert_eq!(p.body, vec![1, 2, 3, 4, 5]);
    assert_eq!(p.body.len(), 5);
    assert_eq!(p.stream, IsStream::Yes);
    assert_eq!(p.end, IsEnd::No);
    assert_eq!(p.body_type, BodyType::Utf8String);
    assert!(!s.is_closed());
}

#[test]
fn nine_zero_bytes_finish_the_stream() {
    let mut s = PacketStream::new(Source::new(vec![0; 9], 64));
    assert!(next(&mut s).is_none());
    assert!(s.is_closed());
    assert!(s.is_terminated());
}

#[test]
fn closed_stream_stays_finished_without_reading() {
    let mut s = PacketStream::new(Source::new(vec![0; 9], 64));
    assert!(next(&mut s).is_none());
    let reads = s.source_mut().reads;
    for _ in 0..3 {
        assert!(matches!(s.poll_next(), Step::Finished));
    }
    assert_eq!(s.source_mut().reads, reads);
    let src = s.into_inner();
    assert_eq!(src.pos, 9);
}

#[test]
fn stream_is_finished_after_an_error() {
    let mut s = PacketStream::new(Source::new(vec![1, 2, 3, 4], 64));
    assert!(matches!(next(&mut s), Some(Err(Error::Header { .. }))));
    assert!(s.is_closed());
    assert!(next(&mut s).is_none());
    assert!(next(&mut s).is_none());
}

#[test]
fn header_cut_after_four_bytes() {
    let mut s = PacketStream::new(Source::new(vec![8, 0, 0, 0], 64));
    match next(&mut s) {
        Some(Err(Error::Header { source })) => assert_eq!(source.kind(), ErrorKind::UnexpectedEof),
        other => panic!("unexpected {:?}", other),
    }
    assert!(s.is_closed());
}

#[test]
fn empty_source_closes_without_goodbye() {
    let mut s = PacketStream::new(Source::new(vec![], 64));
    assert!(matches!(next(&mut s), Some(Err(Error::NoGoodbye {}))));
    assert!(s.is_closed());
}

#[test]
fn failed_first_read_is_a_header_error() {
    let mut src = Source::new(vec![], 64);
    src.fail = Some(ErrorKind::ConnectionReset);
    let mut s = PacketStream::new(src);
    match next(&mut s) {
        Some(Err(Error::Header { source })) => assert_eq!(source.kind(), ErrorKind::ConnectionReset),
        other => panic!("unexpected {:?}", other),
    }
}

#[test]
fn header_arrives_one_byte_at_a_time() {
    let input = frame(0b0000_1110, -7, &[9, 8, 7]);
    let mut s = PacketStream::new(Source::new(input, 1));
    let p = next(&mut s).unwrap().unwrap();
    assert_eq!(p.id, -7);
    assert_eq!(p.body, vec![9, 8, 7]);
    assert_eq!(p.stream, IsStream::Yes);
    assert_eq!(p.end, IsEnd::Yes);
    assert_eq!(p.body_type, BodyType::Json);
    assert_eq!(s.source_mut().reads, 12);
}

#[test]
fn reads_ask_for_what_is_missing() {
    let input = frame(0, 1, &[1, 2, 3, 4, 5, 6]);
    let mut s = PacketStream::new(Source::new(input, 4));
    assert!(matches!(s.poll_next(), Step::Read(9)));
    let r = s.source_mut().read(9);
    assert!(matches!(s.resume(r), Step::Read(5)));
    assert!(matches!(s.poll_next(), Step::Read(5)));
    let r = s.source_mut().read(5);
    assert!(matches!(s.resume(r), Step::Read(1)));
    let r = s.source_mut().read(1);
    assert!(matches!(s.resume(r), Step::Read(6)));
    let r = s.source_mut().read(6);
    assert!(matches!(s.resume(r), Step::Read(2)));
    let r = s.source_mut().read(2);
    match s.resume(r) {
        Step::Item(Ok(p)) => assert_eq!(p.body, vec![1, 2, 3, 4, 5, 6]),
        other => panic!("unexpected {:?}", other),
    }
}

#[test]
fn empty_body_needs_no_body_read() {
    let input = frame(0b0000_0100, 42, &[]);
    let mut s = PacketStream::new(Source::new(input, 64));
    assert!(matches!(s.poll_next(), Step::Read(9)));
    let r = s.source_mut().read(9);
    match s.resume(r) {
        Step::Item(Ok(p)) => {
            assert!(p.body.is_empty());
            assert_eq!(p.id, 42);
            assert_eq!(p.end, IsEnd::Yes);
        }
        other => panic!("unexpected {:?}", other),
    }
    assert_eq!(s.source_mut().reads, 1);
}

#[test]
fn round_trip_of_several_packets() {
    let packets = vec![
        (IsStream::Yes, IsEnd::No, BodyType::Binary, 0b1000u8, 1i32, vec![0u8, 255]),
        (IsStream::No, IsEnd::Yes, BodyType::Json, 0b0110, -1, b"{}".to_vec()),
        (IsStream::No, IsEnd::No, BodyType::Utf8String, 0b0001, i32::MIN, vec![]),
        (IsStream::No, IsEnd::No, BodyType::Binary, 0, i32::MAX, vec![7; 300]),
    ];
    let mut input = Vec::new();
    for (_, _, _, flags, id, body) in &packets {
        input.extend(frame(*flags, *id, body));
    }
    input.extend_from_slice(&[0; 9]);
    let mut s = PacketStream::new(Source::new(input, 7));
    for (stream, end, body_type, _, id, body) in &packets {
        let p = next(&mut s).unwrap().unwrap();
        assert_eq!(p.stream, *stream);
        assert_eq!(p.end, *end);
        assert_eq!(p.body_type, *body_type);
        assert_eq!(p.id, *id);
        assert_eq!(&p.body, body);
    }
    assert!(next(&mut s).is_none());
    assert!(s.is_closed());
}

#[test]
fn body_cut_short_reports_its_size() {
    let mut input = frame(0, 3, &[1, 2, 3, 4, 5, 6, 7, 8]);
    input.truncate(12);
    let mut s = PacketStream::new(Source::new(input, 64));
    match next(&mut s) {
        Some(Err(Error::Body { size, source })) => {
            assert_eq!(size, 8);
            assert_eq!(source.kind(), ErrorKind::UnexpectedEof);
        }
        other => panic!("unexpected {:?}", other),
    }
    assert!(s.is_closed());
}

#[test]
fn failed_body_read_carries_the_source_error() {
    let mut input = frame(0, 3, &[1, 2, 3]);
    input.truncate(10);
    let mut src = Source::new(input, 64);
    src.fail = Some(ErrorKind::TimedOut);
    let mut s = PacketStream::new(src);
    match next(&mut s) {
        Some(Err(Error::Body { size, source })) => {
            assert_eq!(size, 3);
            assert_eq!(source.kind(), ErrorKind::TimedOut);
        }
        other => panic!("unexpected {:?}", other),
    }
}

#[test]
fn end_after_a_packet_is_no_goodbye() {
    let input = frame(0, 5, &[1]);
    let mut s = PacketStream::new(Source::new(input, 64));
    assert!(next(&mut s).unwrap().is_ok());
    assert!(matches!(next(&mut s), Some(Err(Error::NoGoodbye {}))));
}

#[test]
fn into_inner_returns_the_source_as_consumed() {
    let mut input = frame(0, 5, &[1]);
    input.extend_from_slice(&[0xAA; 4]);
    let mut s = PacketStream::new(Source::new(input, 64));
    assert!(next(&mut s).unwrap().is_ok());
    let src = s.into_inner();
    assert_eq!(src.pos, 10);
    assert_eq!(src.reads, 2);
}

#[test]
fn header_fields_read_big_endian() {
    let head = vec![0u8, 0x01, 0x02, 0x03, 0x04, 0xFF, 0xFF, 0xFF, 0xFE];
    assert_eq!(header_body_len(&head), 0x0102_0304);
    assert_eq!(header_id(&head), -2);
    assert!(!header_is_goodbye(&head));
    assert!(header_is_goodbye(&vec![0; 9]));
}

#[test]
fn flag_byte_classifications() {
    assert_eq!(IsStream::from(0b1000u8), IsStream::Yes);
    assert_eq!(IsStream::from(0b0111u8), IsStream::No);
    assert_eq!(IsEnd::from(0b0100u8), IsEnd::Yes);
    assert_eq!(IsEnd::from(0b1011u8), IsEnd::No);
    assert_eq!(BodyType::from(0b00u8), BodyType::Binary);
    assert_eq!(BodyType::from(0b01u8), BodyType::Utf8String);
    assert_eq!(BodyType::from(0b10u8), BodyType::Json);
    assert_eq!(BodyType::from(0b11u8), BodyType::Binary);
}

#[test]
fn packet_new_keeps_its_fields() {
    let p = Packet::new(IsStream::Yes, IsEnd::No, BodyType::Binary, 12345, vec![1, 2, 3, 4, 5]);
    assert_eq!(p.id, 12345);
    assert_eq!(p.body, vec![1, 2, 3, 4, 5]);
    assert_eq!(p.stream, IsStream::Yes);
}

#[test]
fn waiting_between_reads_of_one_packet() {
    let input = frame(0, 9, &[1, 2]);
    let mut s = PacketStream::new(Source::new(input, 3));
    assert!(!s.is_waiting());
    assert!(matches!(s.poll_next(), Step::Read(9)));
    assert!(s.is_waiting());
    let r = s.source_mut().read(9);
    assert!(matches!(s.resume(r), Step::Read(6)));
    assert!(s.is_waiting());
    assert!(next(&mut s).unwrap().is_ok());
    assert!(!s.is_waiting());
}
