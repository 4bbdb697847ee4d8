//! The byte order of the machine that runs the code.
use vstd::endian::{endianness, Endian};
use vstd::prelude::*;

verus! {

/// Represents the byte order of the host system.
#[derive(Debug, Clone, Copy, PartialEq, Eq, Structural)]
pub enum EndiannessType {
    /// Big endian byte order (most significant byte first).
    BigEndian,
    /// Little endian byte order (least significant byte first).
    LittleEndian,
}

/// The byte order of the hardware this process runs on. It is fixed for the
/// build target, so it is the same at every call.
pub open spec fn host_order() -> EndiannessType {
    match endianness() {
        Endian::Big => EndiannessType::BigEndian,
        Endian::Little => EndiannessType::LittleEndian,
    }
}

/// Relies on `u16::to_ne_bytes`: the two bytes of `v` as the host lays them
/// out in memory, least significant first on a little-endian host and most
/// significant first on a big-endian one.
#[verifier::external_body]
fn native_bytes_u16(v: u16) -> (r: [u8; 2])
    ensures
        r@ == (match endianness() {
            Endian::Little => seq![(v % 256) as u8, (v / 256) as u8],
            Endian::Big => seq![(v / 256) as u8, (v % 256) as u8],
        }),
{
    v.to_ne_bytes()
}

/// Reports the byte order of the host, found by looking at how the host
/// lays out the number one in memory.
pub fn get_local_endianness() -> (r: EndiannessType)
    ensures
        r == host_order(),
{
    let bytes = native_bytes_u16(1);
    if bytes[0] == 1 {
        EndiannessType::LittleEndian
    } else {
        EndiannessType::BigEndian
    }
}

} // verus!
