use c2pa_bridge::streams::{read_to_end, write_all};
use c2pa_bridge::{SeekFrom, SeekMode, Stream, StreamAdapter, TestStream};

#[test]
fn test_stream_read() {
    let test = TestStream::from_memory(vec![0, 1, 2, 3, 4, 5, 6, 7, 8, 9]);
    let mut stream = StreamAdapter::from_stream_mut(test);
    let mut buf = vec![0u8; 5];
    let len = stream.read(&mut buf).unwrap();
    assert_eq!(len, 5);
    assert_eq!(buf, vec![0, 1, 2, 3, 4]);
}

#[test]
fn test_stream_seek() {
    let test = TestStream::from_memory(vec![0, 1, 2, 3, 4, 5, 6, 7, 8, 9]);
    let mut stream = StreamAdapter { stream: test };
    let pos = stream.seek(SeekFrom::Start(5)).unwrap();
    assert_eq!(pos, 5);
    let mut buf = vec![0u8; 5];
    let len = stream.read(&mut buf).unwrap();
    assert_eq!(len, 5);
    assert_eq!(buf, vec![5, 6, 7, 8, 9]);
}

#[test]
fn test_stream_write() {
    let test = TestStream::new();
    let mut stream = StreamAdapter { stream: test };
    let len = stream.write(&[0, 1, 2, 3, 4]).unwrap();
    assert_eq!(len, 5);
    stream.seek(SeekFrom::Start(0)).unwrap();
    let mut buf = vec![0u8; 5];
    let len = stream.read(&mut buf).unwrap();
    assert_eq!(len, 5);
    assert_eq!(buf, vec![0, 1, 2, 3, 4]);
}

#[test]
fn end_to_end_scenario() {
    let test = TestStream::from_memory(vec![0, 1, 2, 3, 4, 5, 6, 7, 8, 9]);
    let mut stream = StreamAdapter::from_stream_mut(test);
    let mut buf = vec![0u8; 5];
    assert_eq!(stream.read(&mut buf).unwrap(), 5);
    assert_eq!(buf, vec![0, 1, 2, 3, 4]);
    assert_eq!(stream.seek(SeekFrom::Start(5)).unwrap(), 5);
    let mut buf = vec![0u8; 5];
    assert_eq!(stream.read(&mut buf).unwrap(), 5);
    assert_eq!(buf, vec![5, 6, 7, 8, 9]);

    let mut fresh = StreamAdapter::from_stream_mut(TestStream::new());
    assert_eq!(fresh.write(&[0, 1, 2, 3, 4]).unwrap(), 5);
    assert_eq!(fresh.seek(SeekFrom::Start(0)).unwrap(), 0);
    let mut buf = vec![0u8; 5];
    assert_eq!(fresh.read(&mut buf).unwrap(), 5);
    assert_eq!(buf, vec![0, 1, 2, 3, 4]);
}

#[test]
fn round_trip_write_then_read_back() {
    let payload: Vec<u8> = (0u8..200).collect();
    let mut stream = StreamAdapter::from_stream_mut(TestStream::new());
    assert_eq!(stream.write(&payload).unwrap(), 200);
    assert_eq!(stream.seek(SeekFrom::Start(0)).unwrap(), 0);
    let mut buf = vec![0u8; 200];
    assert_eq!(stream.read(&mut buf).unwrap(), 200);
    assert_eq!(buf, payload);
}

#[test]
fn short_read_returns_remaining_and_hits_end() {
    let test = TestStream::from_memory(vec![1, 2, 3]);
    let mut stream = StreamAdapter::from_stream_mut(test);
    let mut buf = vec![9u8; 5];
    let len = stream.read(&mut buf).unwrap();
    assert_eq!(len, 3);
    assert_eq!(buf, vec![1, 2, 3, 9, 9]);
    let mut more = vec![7u8; 4];
    assert_eq!(stream.read(&mut more).unwrap(), 0);
    assert_eq!(more, vec![7, 7, 7, 7]);
}

#[test]
fn seek_anchors_resolve_as_documented() {
    let test = TestStream::from_memory(vec![0, 1, 2, 3, 4, 5, 6, 7, 8, 9]);
    let mut stream = StreamAdapter::from_stream_mut(test);
    assert_eq!(stream.seek(SeekFrom::End(0)).unwrap(), 10);
    let mut buf = vec![0u8; 4];
    assert_eq!(stream.read(&mut buf).unwrap(), 0);
    assert_eq!(stream.seek(SeekFrom::Start(3)).unwrap(), 3);
    let mut rest = vec![0u8; 7];
    assert_eq!(stream.read(&mut rest).unwrap(), 7);
    assert_eq!(rest, vec![3, 4, 5, 6, 7, 8, 9]);
    assert_eq!(stream.seek(SeekFrom::Current(-2)).unwrap(), 8);
    assert_eq!(stream.seek(SeekFrom::End(-10)).unwrap(), 0);
}

#[test]
fn seek_before_start_fails_and_keeps_position() {
    let test = TestStream::from_memory(vec![1, 2, 3]);
    let mut stream = StreamAdapter::from_stream_mut(test);
    assert_eq!(stream.seek(SeekFrom::Start(1)).unwrap(), 1);
    assert!(stream.seek(SeekFrom::Current(-5)).is_err());
    let mut buf = vec![0u8; 2];
    assert_eq!(stream.read(&mut buf).unwrap(), 2);
    assert_eq!(buf, vec![2, 3]);
}

#[test]
fn seek_past_end_is_legal_and_write_zero_fills() {
    let mut stream = StreamAdapter::from_stream_mut(TestStream::new());
    assert_eq!(stream.seek(SeekFrom::Start(3)).unwrap(), 3);
    assert_eq!(stream.write(&[7]).unwrap(), 1);
    assert_eq!(stream.seek(SeekFrom::Start(0)).unwrap(), 0);
    let mut buf = vec![9u8; 4];
    assert_eq!(stream.read(&mut buf).unwrap(), 4);
    assert_eq!(buf, vec![0, 0, 0, 7]);
}

#[test]
fn zero_length_requests_return_immediately() {
    let test = TestStream::from_memory(vec![1, 2, 3]);
    let mut stream = StreamAdapter::from_stream_mut(test);
    let mut empty: Vec<u8> = Vec::new();
    assert_eq!(stream.read(&mut empty).unwrap(), 0);
    assert_eq!(stream.write(&[]).unwrap(), 0);
    stream.flush().unwrap();
    let mut buf = vec![0u8; 3];
    assert_eq!(stream.read(&mut buf).unwrap(), 3);
    assert_eq!(buf, vec![1, 2, 3]);
}

#[test]
fn write_overwrites_in_the_middle() {
    let test = TestStream::from_memory(vec![0, 1, 2, 3, 4, 5]);
    let mut stream = StreamAdapter::from_stream_mut(test);
    assert_eq!(stream.seek(SeekFrom::Start(2)).unwrap(), 2);
    assert_eq!(stream.write(&[9, 9]).unwrap(), 2);
    assert_eq!(stream.seek(SeekFrom::Start(0)).unwrap(), 0);
    let mut buf = vec![0u8; 6];
    assert_eq!(stream.read(&mut buf).unwrap(), 6);
    assert_eq!(buf, vec![0, 1, 9, 9, 4, 5]);
}

#[test]
fn raw_capability_operations_match_the_adapter() {
    let mut test = TestStream::from_memory(vec![0, 1, 2, 3, 4]);
    let bytes = test.read_stream(2).unwrap();
    assert_eq!(bytes, vec![0, 1]);
    let pos = test.seek_stream(-1, SeekMode::End).unwrap();
    assert_eq!(pos, 4);
    let bytes = test.read_stream(10).unwrap();
    assert_eq!(bytes, vec![4]);
    let pos = test.seek_stream(0, SeekMode::Start).unwrap();
    assert_eq!(pos, 0);
    let written = test.write_stream(vec![8, 8]).unwrap();
    assert_eq!(written, 2);
    let rest = test.read_stream(10).unwrap();
    assert_eq!(rest, vec![2, 3, 4]);
}

#[test]
fn a_start_offset_beyond_the_signed_range_is_refused() {
    let test = TestStream::from_memory(vec![1, 2, 3]);
    let mut stream = StreamAdapter::from_stream_mut(test);
    assert!(stream.seek(SeekFrom::Start(u64::MAX)).is_err());
    assert_eq!(stream.seek(SeekFrom::Start(i64::MAX as u64)).unwrap(), i64::MAX as u64);
}

#[test]
fn read_to_end_drains_from_the_current_position() {
    let mut test = TestStream::from_memory(vec![0, 1, 2, 3, 4]);
    test.seek_stream(2, SeekMode::Start).unwrap();
    let rest = read_to_end(&mut test).unwrap();
    assert_eq!(rest, vec![2, 3, 4]);
    assert!(read_to_end(&mut test).unwrap().is_empty());
}

#[test]
fn write_all_hands_over_every_byte() {
    let mut test = TestStream::from_memory(vec![9, 9]);
    test.seek_stream(1, SeekMode::Start).unwrap();
    write_all(&mut test, &vec![5, 6, 7]).unwrap();
    test.seek_stream(0, SeekMode::Start).unwrap();
    let all = read_to_end(&mut test).unwrap();
    assert_eq!(all, vec![9, 5, 6, 7]);
}
