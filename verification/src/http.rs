//! The HTTP-facing types: the message body and the response envelope.

pub mod body;
pub mod response;
pub mod store;

pub use self::body::Body;
pub use self::response::Response;
