use bytes::Bytes;
use request_core::body::{
    Body, BodyClone, BytesBody, Demand, Pushed, ReaderBody, StreamingBody, Supply,
};
use request_core::error::{Cause, Kind};

#[test]
fn bytes_test_as_bytes() {
    let test_data = b"Test body";
    let body = BytesBody::from(&test_data[..]);
    assert_eq!(body.as_bytes(), &test_data[..]);
}

#[test]
fn mod_test_as_bytes() {
    let test_data = b"Test body";
    let body = Body::Fixed(BytesBody::from(&test_data[..]));
    assert_eq!(body.as_bytes(), Some(&test_data[..]));
}

#[test]
fn fixed_body_from_each_source() {
    assert_eq!(BytesBody::from(vec![1u8, 2, 3]).as_bytes(), &[1u8, 2, 3][..]);
    assert_eq!(BytesBody::from(String::from("héllo")).as_bytes(), "héllo".as_bytes());
    assert_eq!(BytesBody::from("static").as_bytes(), b"static");
    assert_eq!(BytesBody::from(Bytes::from_static(b"shared")).as_bytes(), b"shared");
    assert_eq!(BytesBody::new(Bytes::new()).as_bytes(), b"");
    assert_eq!(BytesBody::from("12345").content_length(), Some(5));
}

#[test]
fn fixed_body_clones_with_equal_bytes() {
    let body = Body::from_bytes(Bytes::from_static(b"payload"));
    let copy = body.try_clone().expect("a fixed body can be had twice");
    assert_eq!(copy.as_bytes(), Some(&b"payload"[..]));
    assert_eq!(body.as_bytes(), Some(&b"payload"[..]));
    assert_eq!(body.try_reuse(), Some(Bytes::from_static(b"payload")));
}

#[test]
fn reader_and_stream_cannot_be_cloned() {
    for body in [Body::from_reader(Some(3)), Body::from_reader(None), Body::from_stream(), Body::response(true)] {
        let err = body.try_clone().expect_err("single consumption");
        assert_eq!(err.kind, Kind::Body);
        assert!(matches!(err.cause, Cause::CannotCloneBody));
        assert!(err.url.is_none());
        assert!(body.as_bytes().is_none());
        assert!(body.try_reuse().is_none());
    }
    let err = StreamingBody::from_stream().try_clone().expect_err("single consumption");
    assert!(matches!(err.cause, Cause::CannotCloneBody));
}

#[test]
fn non_empty_fixed_body_is_one_chunk_then_end() {
    let mut body = Body::from_bytes(Bytes::from_static(b"all of it"));
    assert_eq!(body.demand(), Demand::Nothing);
    let first = body.next_chunk(Supply::Nothing).expect("one chunk").expect("no error");
    assert_eq!(&first[..], b"all of it");
    assert!(body.next_chunk(Supply::Nothing).is_none());
    assert!(body.next_chunk(Supply::Nothing).is_none());
    assert_eq!(body.size_hint(), Some(0));
}

#[test]
fn empty_fixed_body_ends_at_once() {
    let mut body = Body::empty();
    assert!(body.next_chunk(Supply::Nothing).is_none());
    let mut other = Body::default();
    assert_eq!(other.content_length(), Some(0));
    assert!(other.next_chunk(Supply::Nothing).is_none());
}

#[test]
fn size_hint_by_variant() {
    assert_eq!(Body::from_bytes(Bytes::from_static(b"abcd")).size_hint(), Some(4));
    assert_eq!(Body::from_reader(Some(10_000)).size_hint(), Some(10_000));
    assert_eq!(Body::from_reader(None).size_hint(), None);
    assert_eq!(Body::from_stream().size_hint(), None);
    assert_eq!(Body::response(false).content_length(), None);
}

#[test]
fn reader_reads_in_bounded_chunks() {
    let mut reader = ReaderBody::new(Some(10_000));
    assert_eq!(reader.read_size(), 8192);
    let chunk = reader.next_chunk(Ok(vec![7u8; 8192])).expect("chunk").expect("no error");
    assert_eq!(chunk.len(), 8192);
    assert_eq!(reader.remaining_len, Some(1808));
    assert_eq!(reader.read_size(), 1808);
    assert!(!reader.is_end_stream());
    let chunk = reader.next_chunk(Ok(vec![7u8; 1808])).expect("chunk").expect("no error");
    assert_eq!(chunk.len(), 1808);
    assert_eq!(reader.remaining_len, Some(0));
    assert_eq!(reader.read_size(), 0);
    assert!(reader.is_end_stream());
    assert!(reader.next_chunk(Ok(Vec::new())).is_none());
    assert!(reader.finished);
    assert!(reader.next_chunk(Ok(vec![1u8])).is_none());
}

#[test]
fn reader_without_length_reads_default_chunks() {
    let mut body = Body::from_reader(None);
    assert_eq!(body.demand(), Demand::Read(8192));
    let chunk = body.next_chunk(Supply::Read(Ok(vec![1u8, 2, 3]))).expect("chunk").expect("ok");
    assert_eq!(&chunk[..], &[1u8, 2, 3]);
    assert_eq!(body.demand(), Demand::Read(8192));
    assert_eq!(body.size_hint(), None);
    assert!(body.next_chunk(Supply::Read(Ok(Vec::new()))).is_none());
    assert_eq!(body.demand(), Demand::Nothing);
    assert!(body.next_chunk(Supply::Read(Ok(vec![9u8]))).is_none());
}

#[test]
fn reader_failure_is_a_body_error_and_ends_the_body() {
    let mut body = Body::from_reader(Some(4));
    let err = body
        .next_chunk(Supply::Read(Err(String::from("disk on fire"))))
        .expect("the failure is reported")
        .expect_err("as an error");
    assert_eq!(err.kind, Kind::Body);
    assert!(matches!(err.cause, Cause::Other(ref m) if m == "disk on fire"));
    assert!(body.next_chunk(Supply::Read(Ok(vec![1u8]))).is_none());
    assert_eq!(body.size_hint(), Some(4));
}

#[test]
fn stream_forwards_items_and_maps_errors() {
    let mut body = Body::from_stream();
    assert_eq!(body.demand(), Demand::Push);
    let chunk = body
        .next_chunk(Supply::Pushed(false, Pushed::Item(Bytes::from_static(b"hello"))))
        .expect("item")
        .expect("ok");
    assert_eq!(&chunk[..], b"hello");
    let err = body
        .next_chunk(Supply::Pushed(false, Pushed::Failed(String::from("reset"))))
        .expect("failure")
        .expect_err("error");
    assert_eq!(err.kind, Kind::Body);
    assert!(matches!(err.cause, Cause::Other(ref m) if m == "reset"));
    assert!(body.next_chunk(Supply::Pushed(false, Pushed::End)).is_none());
    assert_eq!(body.demand(), Demand::Push);
}

#[test]
fn passed_deadline_comes_before_what_the_stream_did() {
    let mut bounded = Body::response(true);
    for pushed in [Pushed::Item(Bytes::from_static(b"late")), Pushed::Failed(String::from("x")), Pushed::End] {
        let err = bounded.next_chunk(Supply::Pushed(true, pushed)).expect("expiry").expect_err("error");
        assert!(err.is_body() && err.is_timeout());
    }
    let chunk = bounded
        .next_chunk(Supply::Pushed(false, Pushed::Item(Bytes::from_static(b"in time"))))
        .expect("item")
        .expect("ok");
    assert_eq!(&chunk[..], b"in time");

    let mut unbounded = StreamingBody::from_hyper(false);
    let chunk = unbounded.next_chunk(true, Pushed::Item(Bytes::from_static(b"no deadline"))).unwrap().unwrap();
    assert_eq!(&chunk[..], b"no deadline");
    assert!(unbounded.next_chunk(true, Pushed::End).is_none());
}

#[test]
fn body_from_each_source() {
    assert_eq!(Body::from(vec![1u8, 2]).as_bytes(), Some(&[1u8, 2][..]));
    assert_eq!(Body::from(&b"slice"[..]).as_bytes(), Some(&b"slice"[..]));
    assert_eq!(Body::from(String::from("owned")).as_bytes(), Some(&b"owned"[..]));
    assert_eq!(Body::from("literal").as_bytes(), Some(&b"literal"[..]));
    assert_eq!(Body::from(Bytes::from_static(b"bytes")).as_bytes(), Some(&b"bytes"[..]));
    assert_eq!(Body::from(BytesBody::from("fixed")).size_hint(), Some(5));
}

#[test]
fn clone_through_the_trait() {
    let fixed = BytesBody::from("again");
    assert_eq!(fixed.try_clone_body().unwrap().as_bytes(), Some(&b"again"[..]));
    assert!(ReaderBody::new(Some(1)).try_clone_body().is_none());
    assert!(StreamingBody::from_hyper(true).try_clone_body().is_none());
    assert!(ReaderBody::new(None).try_clone().unwrap_err().is_body());
}
