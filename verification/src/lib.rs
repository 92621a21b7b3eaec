//! Decoding the status lines that battery-powered sensor nodes send over IP
//! multicast.
//!
//! `mcast` turns a datagram into a line, `message` decodes a line into a typed
//! message with the extractors of `extract`, on the text functions of `text`
//! and the field mapping of `fields`. `args`, `http` and `ws` hold what the
//! program around the decoder decides.

pub mod args;
pub mod extract;
pub mod fields;
pub mod http;
pub mod mcast;
pub mod message;
pub mod text;
pub mod ws;
