//! An HTTP message body that is empty, held whole in memory, or drawn chunk by
//! chunk from a streaming source, together with the thin envelope and service
//! types that carry it.
//!
//! Every function here is verified against its contract. Calls into other
//! crates go through a small number of trusted declarations, each documented
//! where it stands.

pub mod auth;
pub mod buf;
pub mod head;
pub mod hint;
pub mod http;
pub mod poll;
pub mod s3_trait;
pub mod service;
pub mod source;
pub mod stream;
