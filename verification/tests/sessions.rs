use c2pa_bridge::{Builder, ErrorKind, Reader, SeekFrom, StreamAdapter, TestStream};

#[test]
fn a_fresh_reader_reports_an_empty_manifest_store() {
    let mut reader = Reader::new();
    let report = reader.json().unwrap();
    assert!(!report.is_empty());
}

#[test]
fn parsing_garbage_fails_without_lock_contention() {
    let mut reader = Reader::new();
    let mut stream = TestStream::from_memory(vec![0, 1, 2, 3, 4, 5, 6, 7]);
    let err = reader.from_stream("image/jpeg", &mut stream).unwrap_err();
    assert_ne!(err.kind(), ErrorKind::LockContention);
}

#[test]
fn a_missing_resource_is_a_not_found_class_failure() {
    let mut reader = Reader::new();
    let mut dest = TestStream::new();
    let err = reader.resource_to_stream("no/such/uri", &mut dest).unwrap_err();
    assert!(
        err.kind() == ErrorKind::ResourceNotFound || err.kind() == ErrorKind::ManifestNotFound,
        "unexpected category: {:?}",
        err.kind()
    );
}

#[test]
fn a_builder_accepts_a_json_definition_and_rejects_junk() {
    let mut builder = Builder::new();
    builder.with_json("{\"title\": \"test asset\"}").unwrap();
    let err = builder.with_json("this is not json").unwrap_err();
    assert_eq!(err.kind(), ErrorKind::Json);
}

#[test]
fn builder_state_survives_an_archive_round_trip() {
    let mut builder = Builder::new();
    builder.with_json("{\"title\": \"archived asset\"}").unwrap();
    let mut resource = TestStream::from_memory(vec![9, 8, 7]);
    builder.add_resource("thumbnail.bin", &mut resource).unwrap();

    let mut archive = TestStream::new();
    builder.to_archive(&mut archive).unwrap();

    let mut adapter = StreamAdapter::from_stream_mut(archive);
    assert_eq!(adapter.seek(SeekFrom::Start(0)).unwrap(), 0);
    let mut archive = adapter.into_stream();

    let mut restored = Builder::new();
    restored.from_archive(&mut archive).unwrap();

    let mut more = TestStream::from_memory(vec![1, 2]);
    restored.add_resource("extra.bin", &mut more).unwrap();
}

#[test]
fn adding_the_same_resource_twice_is_rejected() {
    let mut builder = Builder::new();
    builder.with_json("{}").unwrap();
    let mut first = TestStream::from_memory(vec![1]);
    builder.add_resource("r.bin", &mut first).unwrap();
    let mut second = TestStream::from_memory(vec![2]);
    let err = builder.add_resource("r.bin", &mut second).unwrap_err();
    assert_ne!(err.kind(), ErrorKind::LockContention);
}
