//! Trusted description of `bytes::Bytes`, the buffer type in which chunks are
//! held and handed out.
//!
//! Nothing in this file is proved. Each declaration states what the `bytes`
//! crate does, over the byte sequence that a buffer holds.

use vstd::prelude::*;
use bytes::Bytes;

verus! {

/// `bytes::Bytes`, opaque to Verus.
#[verifier::external_type_specification]
#[verifier::external_body]
pub struct ExBytes(Bytes);

/// The bytes that a buffer holds, in order.
pub uninterp spec fn contents(buffer: Bytes) -> Seq<u8>;

/// The text that the `Debug` formatting of `Bytes` produces for a buffer
/// holding `data`: a byte-string literal with escapes.
pub uninterp spec fn debug_text(data: Seq<u8>) -> Seq<char>;

/// `Bytes::new` makes a buffer that holds nothing.
pub assume_specification[ Bytes::new ]() -> (buffer: Bytes)
    ensures
        contents(buffer) == Seq::<u8>::empty(),
;

/// `Bytes::len` is the number of bytes held.
pub assume_specification[ Bytes::len ](buffer: &Bytes) -> (n: usize)
    ensures
        n == contents(*buffer).len(),
;

/// `Bytes::is_empty` tells whether no byte is held.
pub assume_specification[ Bytes::is_empty ](buffer: &Bytes) -> (empty: bool)
    ensures
        empty == (contents(*buffer).len() == 0),
;

/// Cloning a `Bytes` gives a buffer with the same bytes.
pub assume_specification[ <Bytes as Clone>::clone ](buffer: &Bytes) -> (copy: Bytes)
    ensures
        contents(copy) == contents(*buffer),
;

/// `Bytes::from` on a vector keeps the vector's bytes.
pub assume_specification[ <Bytes as From<Vec<u8>>>::from ](bytes: Vec<u8>) -> (buffer: Bytes)
    ensures
        contents(buffer) == bytes@,
;

/// `Bytes::from` on a string keeps the string's UTF-8 encoding.
pub assume_specification[ <Bytes as From<String>>::from ](text: String) -> (buffer: Bytes)
    ensures
        contents(buffer) == vstd::utf8::encode_utf8(text@),
;

/// `AsRef<[u8]>` on a `Bytes` lends the bytes held.
pub assume_specification<'a>[ <Bytes as AsRef<[u8]>>::as_ref ](buffer: &'a Bytes) -> (slice: &'a [u8])
    ensures
        slice@ == contents(*buffer),
;

/// Calls the `Debug` formatting of `Bytes`; the result is named, not stated.
#[verifier::external_body]
pub(crate) fn debug_string(buffer: &Bytes) -> (text: String)
    ensures
        text@ == debug_text(contents(*buffer)),
{
    format!("{:?}", buffer)
}

} // verus!
