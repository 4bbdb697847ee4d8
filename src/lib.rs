//! Conversions of fixed-width integers between the host's byte order and
//! explicit big-endian or little-endian byte orders.
//!
//! Every unsigned and signed integer type of 8, 16, 32, 64 and 128 bits
//! implements [`Endianness`]. Each conversion either returns its input or
//! reverses its bytes, depending on the host's byte order.
pub mod bytes;
pub mod convert;
pub mod host;
pub mod laws;

pub use convert::{ByteReverse, Endianness};
pub use host::{get_local_endianness, EndiannessType};
