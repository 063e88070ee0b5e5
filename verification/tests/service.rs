use hyper::StatusCode;
use s3s::auth::S3Auth;
use s3s::http::response::Response;
use s3s::s3_trait::S3;
use s3s::service::S3ServiceBuilder;

struct Memory {
    name: &'static str,
}

struct Keys {
    secret: u32,
}

impl S3 for Memory {}

impl S3Auth for Keys {}

#[test]
fn fresh_builder_has_only_the_backend() {
    let service = S3ServiceBuilder::<Memory, Keys>::new(Memory { name: "m" }).build();
    assert_eq!(service.s3().name, "m");
    assert!(service.auth().is_none());
    assert!(service.base_domain().is_none());
}

#[test]
fn builder_keeps_what_is_set() {
    let mut builder = S3ServiceBuilder::new(Memory { name: "disk" });
    builder.set_auth(Keys { secret: 7 });
    builder.set_base_domain(String::from("example.com"));
    let service = builder.build();
    assert_eq!(service.s3().name, "disk");
    assert_eq!(service.auth().map(|keys| keys.secret), Some(7));
    assert_eq!(service.base_domain(), Some("example.com"));
}

#[test]
fn later_settings_replace_earlier_ones() {
    let mut builder = S3ServiceBuilder::new(Memory { name: "disk" });
    builder.set_auth(Keys { secret: 1 });
    builder.set_base_domain(String::from("first.test"));
    builder.set_auth(Keys { secret: 2 });
    builder.set_base_domain(String::from("second.test"));
    let service = builder.build();
    assert_eq!(service.auth().map(|keys| keys.secret), Some(2));
    assert_eq!(service.base_domain(), Some("second.test"));
    assert_eq!(service.s3().name, "disk");
}

#[test]
fn settings_do_not_touch_each_other() {
    let mut builder = S3ServiceBuilder::<Memory, Keys>::new(Memory { name: "a" });
    builder.set_base_domain(String::from("only.domain"));
    let service = builder.build();
    assert!(service.auth().is_none());
    assert_eq!(service.base_domain(), Some("only.domain"));
    let mut builder = S3ServiceBuilder::new(Memory { name: "b" });
    builder.set_auth(Keys { secret: 3 });
    let service = builder.build();
    assert_eq!(service.auth().map(|keys| keys.secret), Some(3));
    assert!(service.base_domain().is_none());
}

#[test]
fn response_with_status_has_nothing_else() {
    let response = Response::with_status(StatusCode::NOT_FOUND);
    assert_eq!(response.status, StatusCode::NOT_FOUND);
    assert_eq!(response.headers.len(), 0);
    assert!(response.headers.is_empty());
    assert!(response.body.is_end_stream());
    assert_eq!(response.body.render(), "Body");
}

#[test]
fn default_response_is_ok_and_empty() {
    let response = Response::default();
    assert_eq!(response.status.as_u16(), 200);
    assert_eq!(response.headers.len(), 0);
    assert_eq!(response.body.size_hint().exact(), Some(0));
}
