use bytes::Bytes;
use s3s::http::body::relay;
use s3s::http::body::Body;
use s3s::http::store::gather;
use s3s::http::store::Stored;
use s3s::poll::Polled;
use std::task::Context;
use std::task::Waker;

fn done(step: Stored) -> Vec<u8> {
    match step {
        Stored::Done(bytes) => bytes.to_vec(),
        Stored::Failed(error) => panic!("the materialization failed: {}", error),
        Stored::More => panic!("the materialization wants more"),
        Stored::Pending => panic!("the materialization waits"),
    }
}

#[test]
fn stored_buffer_comes_back_unchanged() {
    let mut cx = Context::from_waker(Waker::noop());
    let mut gathered: Vec<u8> = Vec::new();
    let mut body = Body::from(Bytes::from_static(b"in memory"));
    let first = done(body.store_all_unlimited(&mut gathered, &mut cx));
    let second = done(body.store_all_unlimited(&mut gathered, &mut cx));
    assert_eq!(first, b"in memory".to_vec());
    assert_eq!(first, second);
    assert!(gathered.is_empty());
    assert_eq!(body.bytes(), Some(Bytes::from_static(b"in memory")));
    assert_eq!(body.size_hint().exact(), Some(9));
    assert!(!body.is_end_stream());
    match body.poll_data(&mut cx) {
        Polled::Ready(Some(Ok(bytes))) => assert_eq!(bytes.to_vec(), b"in memory".to_vec()),
        _ => panic!("storing took the buffer out of the body"),
    }
}

#[test]
fn stored_empty_body_is_empty() {
    let mut cx = Context::from_waker(Waker::noop());
    let mut gathered: Vec<u8> = Vec::new();
    let mut body = Body::empty();
    assert_eq!(done(body.store_all_unlimited(&mut gathered, &mut cx)), Vec::<u8>::new());
    assert_eq!(done(body.store_all_unlimited(&mut gathered, &mut cx)), Vec::<u8>::new());
    assert!(body.is_end_stream());
    assert_eq!(body.render(), "Body");
    let mut body = Body::from(Bytes::new());
    assert_eq!(done(body.store_all_unlimited(&mut gathered, &mut cx)), Vec::<u8>::new());
    assert_eq!(body.render(), "Body { once: b\"\" }");
}

#[test]
fn stored_body_ignores_what_was_gathered() {
    let mut cx = Context::from_waker(Waker::noop());
    let mut gathered: Vec<u8> = vec![1, 2, 3];
    let mut body = Body::from(vec![9u8, 8]);
    assert_eq!(done(body.store_all_unlimited(&mut gathered, &mut cx)), vec![9u8, 8]);
    assert_eq!(gathered, vec![1u8, 2, 3]);
}

#[test]
fn chunks_are_joined_in_order() {
    let mut gathered: Vec<u8> = Vec::new();
    let answers = vec![b"ab".to_vec(), b"cd".to_vec(), b"".to_vec()];
    for chunk in answers {
        let polled = relay(Polled::Ready(Some(Ok(chunk))));
        assert!(matches!(gather(&mut gathered, polled), Stored::More));
    }
    assert_eq!(gathered, b"abcd".to_vec());
    let whole = done(gather(&mut gathered, relay(Polled::Ready(None))));
    assert_eq!(whole, b"abcd".to_vec());
    assert!(gathered.is_empty());
}

#[test]
fn empty_chunk_is_no_error() {
    let mut gathered: Vec<u8> = Vec::new();
    assert!(matches!(gather(&mut gathered, Polled::Ready(Some(Ok(Bytes::new())))), Stored::More));
    assert!(gathered.is_empty());
    assert!(matches!(
        gather(&mut gathered, Polled::Ready(Some(Ok(Bytes::from_static(b"x"))))),
        Stored::More
    ));
    assert!(matches!(gather(&mut gathered, Polled::Ready(Some(Ok(Bytes::new())))), Stored::More));
    assert_eq!(done(gather(&mut gathered, Polled::Ready(None))), b"x".to_vec());
}

#[test]
fn source_without_chunks_gives_empty_buffer() {
    let mut gathered: Vec<u8> = Vec::new();
    assert_eq!(done(gather(&mut gathered, Polled::Ready(None))), Vec::<u8>::new());
}

#[test]
fn error_after_a_chunk_fails_the_whole() {
    let mut gathered: Vec<u8> = Vec::new();
    let first = relay(Polled::Ready(Some(Ok(b"partial".to_vec()))));
    assert!(matches!(gather(&mut gathered, first), Stored::More));
    let second = relay(Polled::Ready(Some(Err(worker::Error::RustError(String::from("boom"))))));
    match gather(&mut gathered, second) {
        Stored::Failed(worker::Error::RustError(message)) => assert_eq!(message, "boom"),
        Stored::Done(_) => panic!("partial data was handed out as a success"),
        _ => panic!("the error was not handed on"),
    }
    assert!(gathered.is_empty());
}

#[test]
fn pending_changes_nothing() {
    let mut gathered: Vec<u8> = vec![5, 6];
    assert!(matches!(gather(&mut gathered, Polled::Pending), Stored::Pending));
    assert_eq!(gathered, vec![5u8, 6]);
    assert!(matches!(gather(&mut gathered, relay(Polled::Pending)), Stored::Pending));
    assert_eq!(gathered, vec![5u8, 6]);
}

#[test]
fn gathered_bytes_can_be_held_by_a_body() {
    let mut cx = Context::from_waker(Waker::noop());
    let mut gathered: Vec<u8> = Vec::new();
    let _ = gather(&mut gathered, Polled::Ready(Some(Ok(Bytes::from_static(b"he")))));
    let _ = gather(&mut gathered, Polled::Ready(Some(Ok(Bytes::from_static(b"llo")))));
    let whole = match gather(&mut gathered, Polled::Ready(None)) {
        Stored::Done(bytes) => bytes,
        _ => panic!("the end of the body did not finish the gathering"),
    };
    let mut body = Body::from(whole.clone());
    assert_eq!(done(body.store_all_unlimited(&mut gathered, &mut cx)), whole.to_vec());
    assert_eq!(body.bytes(), Some(Bytes::from_static(b"hello")));
}
