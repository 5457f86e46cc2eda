use std::io;

use tokio_serde_bincode::{
    Async, AsyncSink, Bincode, Decoder, Encoder, Error, FramePoll, ReadBincode, WriteBincode,
};

fn chunk(bytes: Vec<u8>) -> FramePoll {
    Ok(Async::Ready(Some(bytes)))
}

fn read_i32(reader: &mut ReadBincode<(), i32>, frame: FramePoll) -> Result<Async<Option<i32>>, Error> {
    reader.poll(frame)
}

#[test]
fn encodes_i32_as_four_little_endian_bytes() {
    let mut writer: WriteBincode<(), i32> = WriteBincode::new(());
    let frame = writer.frame(&42).unwrap();
    assert_eq!(frame, vec![42, 0, 0, 0]);
    assert_eq!(writer.frame(&-2).unwrap(), vec![254, 255, 255, 255]);
    assert_eq!(writer.frame(&0x0102_0304).unwrap(), vec![4, 3, 2, 1]);
}

#[test]
fn encodes_u64_as_eight_little_endian_bytes() {
    let mut codec: Bincode<u64> = Bincode::new();
    let frame = codec.encode(&0x0102_0304_0506_0708).unwrap();
    assert_eq!(frame, vec![8, 7, 6, 5, 4, 3, 2, 1]);
    assert_eq!(codec.decode(&frame).unwrap(), 0x0102_0304_0506_0708);
}

#[test]
fn value_sent_through_sink_is_read_back() {
    let mut writer: WriteBincode<(), i32> = WriteBincode::new(());
    let frame = writer.frame(&42).unwrap();
    assert_eq!(frame.len(), 4);
    let mut reader: ReadBincode<(), i32> = ReadBincode::new(());
    let r = read_i32(&mut reader, chunk(frame));
    assert!(matches!(r, Ok(Async::Ready(Some(42)))));
}

#[test]
fn round_trip_of_edge_values() {
    let mut codec32: Bincode<i32> = Bincode::new();
    for v in [0, 1, -1, 42, i32::MIN, i32::MAX] {
        let bytes = codec32.encode(&v).unwrap();
        assert_eq!(codec32.decode(&bytes).unwrap(), v);
    }
    let mut codec64: Bincode<u64> = Bincode::new();
    for v in [0, 1, 255, 256, u64::MAX] {
        let bytes = codec64.encode(&v).unwrap();
        assert_eq!(codec64.decode(&bytes).unwrap(), v);
    }
}

#[test]
fn frames_are_read_one_value_each_then_end() {
    let mut writer: WriteBincode<(), i32> = WriteBincode::new(());
    let mut reader: ReadBincode<(), i32> = ReadBincode::new(());
    let values = vec![7, -3, 1000];
    for v in &values {
        let frame = writer.frame(v).unwrap();
        let r = read_i32(&mut reader, chunk(frame));
        match r {
            Ok(Async::Ready(Some(got))) => assert_eq!(got, *v),
            other => panic!("unexpected {:?}", other),
        }
    }
    assert!(matches!(read_i32(&mut reader, Ok(Async::Ready(None))), Ok(Async::Ready(None))));
}

#[test]
fn empty_chunk_is_an_encoding_error() {
    let mut reader: ReadBincode<(), i32> = ReadBincode::new(());
    assert!(matches!(read_i32(&mut reader, chunk(Vec::new())), Err(Error::Serde(_))));
}

#[test]
fn short_chunk_is_an_encoding_error_and_later_chunks_still_decode() {
    let mut reader: ReadBincode<(), i32> = ReadBincode::new(());
    assert!(matches!(read_i32(&mut reader, chunk(vec![1, 0, 0, 0])), Ok(Async::Ready(Some(1)))));
    assert!(matches!(read_i32(&mut reader, chunk(vec![1, 2, 3])), Err(Error::Serde(_))));
    assert!(matches!(read_i32(&mut reader, chunk(vec![2, 0, 0, 0])), Ok(Async::Ready(Some(2)))));
}

#[test]
fn u64_needs_eight_bytes() {
    let mut reader: ReadBincode<(), u64> = ReadBincode::new(());
    assert!(matches!(reader.poll(chunk(vec![1, 0, 0, 0])), Err(Error::Serde(_))));
    assert!(matches!(
        reader.poll(chunk(vec![1, 0, 0, 0, 0, 0, 0, 0])),
        Ok(Async::Ready(Some(1)))
    ));
}

#[test]
fn bytes_after_the_value_are_not_read() {
    let mut codec: Bincode<i32> = Bincode::new();
    assert_eq!(codec.decode(&[5, 0, 0, 0, 9, 9]).unwrap(), 5);
}

#[test]
fn transport_failure_is_an_io_error() {
    let mut reader: ReadBincode<(), i32> = ReadBincode::new(());
    assert!(matches!(read_i32(&mut reader, chunk(vec![3, 0, 0, 0])), Ok(Async::Ready(Some(3)))));
    let failure = io::Error::new(io::ErrorKind::ConnectionReset, "reset");
    match read_i32(&mut reader, Err(failure)) {
        Err(Error::Io(e)) => assert_eq!(e.kind(), io::ErrorKind::ConnectionReset),
        other => panic!("unexpected {:?}", other),
    }
}

#[test]
fn not_ready_suspends_without_losing_the_next_value() {
    let mut reader: ReadBincode<(), i32> = ReadBincode::new(());
    assert!(matches!(read_i32(&mut reader, Ok(Async::NotReady)), Ok(Async::NotReady)));
    assert!(matches!(read_i32(&mut reader, chunk(vec![9, 0, 0, 0])), Ok(Async::Ready(Some(9)))));
    assert!(matches!(read_i32(&mut reader, Ok(Async::Ready(None))), Ok(Async::Ready(None))));
}

#[test]
fn start_send_reports_what_the_transport_did() {
    let mut writer: WriteBincode<(), i32> = WriteBincode::new(());
    assert!(matches!(writer.start_send(1, Ok(AsyncSink::Ready)), Ok(AsyncSink::Ready)));
    let back = writer.start_send(2, Ok(AsyncSink::NotReady(vec![2, 0, 0, 0])));
    assert!(matches!(back, Ok(AsyncSink::NotReady(2))));
    let failure = io::Error::new(io::ErrorKind::BrokenPipe, "closed");
    match writer.start_send(3, Err(failure)) {
        Err(e) => assert_eq!(e.kind(), io::ErrorKind::BrokenPipe),
        other => panic!("unexpected {:?}", other),
    }
}

#[test]
fn get_mut_reaches_the_wrapped_transport() {
    let mut reader: ReadBincode<Vec<u8>, i32> = ReadBincode::new(vec![1]);
    reader.get_mut().push(2);
    assert_eq!(*reader.get_mut(), vec![1, 2]);
    let mut writer: WriteBincode<Vec<u8>, i32> = WriteBincode::new(vec![5]);
    writer.get_mut().clear();
    assert!(writer.get_mut().is_empty());
}

#[test]
fn io_error_converts_into_io_variant() {
    let e = Error::from(io::Error::new(io::ErrorKind::Other, "x"));
    assert!(matches!(e, Error::Io(_)));
}

#[test]
fn bool_is_one_byte_and_other_bytes_are_malformed() {
    let mut codec: Bincode<bool> = Bincode::new();
    assert_eq!(codec.encode(&true).unwrap(), vec![1]);
    assert_eq!(codec.encode(&false).unwrap(), vec![0]);
    let mut reader: ReadBincode<(), bool> = ReadBincode::new(());
    assert!(matches!(reader.poll(chunk(vec![1])), Ok(Async::Ready(Some(true)))));
    assert!(matches!(reader.poll(chunk(vec![2])), Err(Error::Serde(_))));
    assert!(matches!(reader.poll(chunk(vec![0])), Ok(Async::Ready(Some(false)))));
    assert!(matches!(reader.poll(chunk(Vec::new())), Err(Error::Serde(_))));
}
