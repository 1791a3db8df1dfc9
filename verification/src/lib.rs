//! Client library for a family of four-door access controllers that speak a
//! fixed-size UDP wire protocol: every request and every reply is exactly 64
//! bytes, little-endian, with binary-coded-decimal date and time fields.
//!
//! The crate provides the wire codec (one request type and, where the
//! protocol answers, one response type per operation), the BCD and calendar
//! conversions, and the decisions behind the exchange patterns. The socket
//! work itself lives outside the library; callers hand frames in and out as
//! plain byte vectors.

pub mod bcd;
pub mod calendar;
pub mod error;
pub mod frame;
pub mod messages;
pub mod opcode;
pub mod protocol;
pub mod text;
pub mod types;
pub mod wire;

pub use bcd::encode;
