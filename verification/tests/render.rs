use bytes::Bytes;
use http_body::SizeHint;
use s3s::hint::hint_from_estimate;
use s3s::http::body::Body;
use s3s::poll::Polled;
use s3s::stream::decimal_string;
use s3s::stream::RemainingLength;
use std::task::Context;
use std::task::Waker;

#[test]
fn empty_body_renders_bare() {
    assert_eq!(Body::empty().render(), "Body");
    assert_eq!(Body::default().render(), "Body");
}

#[test]
fn buffer_renders_as_byte_string() {
    assert_eq!(Body::from(String::from("hello")).render(), "Body { once: b\"hello\" }");
    assert_eq!(Body::from(Bytes::new()).render(), "Body { once: b\"\" }");
    assert_eq!(
        Body::from(vec![b'a', b'\n', 0, 0xff, b'"', b'\\']).render(),
        "Body { once: b\"a\\n\\0\\xff\\\"\\\\\" }"
    );
}

#[test]
fn render_agrees_with_debug_of_the_buffer() {
    let bytes = Bytes::from_static(b"\tmixed \x01 bytes\r\n");
    let expected = format!("Body {{ once: {:?} }}", bytes);
    assert_eq!(Body::from(bytes).render(), expected);
}

#[test]
fn render_leaves_the_body_alone() {
    let mut cx = Context::from_waker(Waker::noop());
    let mut body = Body::from(String::from("still here"));
    let first = body.render();
    let second = body.render();
    assert_eq!(first, second);
    assert!(!body.is_end_stream());
    assert_eq!(body.size_hint().exact(), Some(10));
    match body.poll_data(&mut cx) {
        Polled::Ready(Some(Ok(bytes))) => assert_eq!(bytes.to_vec(), b"still here".to_vec()),
        _ => panic!("the buffer was gone after rendering"),
    }
    assert_eq!(body.render(), "Body");
}

#[test]
fn decimal_of_numbers() {
    assert_eq!(decimal_string(0), "0");
    assert_eq!(decimal_string(7), "7");
    assert_eq!(decimal_string(9), "9");
    assert_eq!(decimal_string(10), "10");
    assert_eq!(decimal_string(101), "101");
    assert_eq!(decimal_string(12345), "12345");
    assert_eq!(decimal_string(9876543210), "9876543210");
    assert_eq!(decimal_string(usize::MAX), usize::MAX.to_string());
}

#[test]
fn remaining_length_of_an_exact_hint() {
    let length = RemainingLength::from_size_hint(&SizeHint::with_exact(17));
    assert_eq!(length.lower(), 17);
    assert_eq!(length.upper(), Some(17));
    assert_eq!(length.exact(), Some(17));
    assert_eq!(length.render(), "17");
}

#[test]
fn remaining_length_of_a_known_minimum() {
    let mut hint = SizeHint::new();
    hint.set_lower(2);
    let length = RemainingLength::from_size_hint(&hint);
    assert_eq!(length.lower(), 2);
    assert_eq!(length.upper(), None);
    assert_eq!(length.exact(), None);
    assert_eq!(length.render(), "(2..)");
}

#[test]
fn remaining_length_of_an_unknown_hint() {
    let length = RemainingLength::from_size_hint(&SizeHint::new());
    assert_eq!(length.lower(), 0);
    assert_eq!(length.upper(), None);
    assert_eq!(length.exact(), None);
    assert_eq!(length.render(), "(0..)");
}

#[test]
fn remaining_length_of_a_range() {
    let mut hint = SizeHint::new();
    hint.set_upper(500);
    hint.set_lower(30);
    let length = RemainingLength::from_size_hint(&hint);
    assert_eq!(length.lower(), 30);
    assert_eq!(length.upper(), Some(500));
    assert_eq!(length.exact(), None);
    assert_eq!(length.render(), "(30..=500)");
}

#[test]
fn remaining_length_of_the_largest_hint() {
    let length = RemainingLength::from_size_hint(&SizeHint::with_exact(u64::MAX));
    let largest = usize::try_from(u64::MAX).unwrap_or(usize::MAX);
    assert_eq!(length.lower(), largest);
    assert_eq!(length.upper(), usize::try_from(u64::MAX).ok());
}

#[test]
fn hint_carries_an_estimate() {
    let hint = hint_from_estimate(0, None);
    assert_eq!(hint.lower(), 0);
    assert_eq!(hint.upper(), None);
    let hint = hint_from_estimate(3, Some(5));
    assert_eq!(hint.lower(), 3);
    assert_eq!(hint.upper(), Some(5));
    let hint = hint_from_estimate(4, Some(4));
    assert_eq!(hint.exact(), Some(4));
    let hint = hint_from_estimate(9, None);
    assert_eq!(hint.lower(), 9);
    assert_eq!(hint.upper(), None);
    let hint = hint_from_estimate(0, Some(0));
    assert_eq!(hint.exact(), Some(0));
}
