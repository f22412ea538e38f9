//! Client side of a remote filesystem: every virtual-filesystem callback becomes
//! one request to the server and one response back.
//!
//! The crate holds the message set, its byte form, the rules that turn a
//! response into the reply owed to the kernel, and the adapter that keeps every
//! callback tied to exactly one exchange. Sockets, the secure channel and the
//! kernel interface stay with the program that drives the adapter.

pub mod adapter;
pub mod attr;
pub mod buffer;
pub mod exchange;
pub mod listing;
pub mod message;
pub mod reply;
pub mod session;
pub mod text;
pub mod wire;
