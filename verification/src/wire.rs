//! The byte form of the messages.
//!
//! A message is a tag byte followed by its fields in order. Integers are
//! little-endian and of fixed width; text and byte strings carry their length
//! in bytes before them; an optional field is a presence byte and the field
//! behind it. Decoding accepts exactly the bytes of one message.

pub mod frame;
pub mod reader;
pub mod record;
pub mod scalar;
pub mod writer;

pub use reader::{decode_request, decode_response};
pub use writer::{encode_request, encode_response};
