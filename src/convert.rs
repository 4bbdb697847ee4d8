//! The conversions between host byte order and explicit byte orders.
use crate::bytes::{
    lemma_reversed_bytes, lemma_reversed_bytes_involutive, pow256, reverse_low_bytes, reversed_bytes,
};
use crate::host::{get_local_endianness, host_order, EndiannessType};
use vstd::prelude::*;

verus! {

/// What `v` becomes when its bytes are laid out big-endian: unchanged on a
/// big-endian host, byte-reversed on a little-endian one.
pub open spec fn big_endian_form<T: ByteReverse>(v: T) -> T {
    if host_order() == EndiannessType::BigEndian {
        v
    } else {
        v.byte_reversed()
    }
}

/// What `v` becomes when its bytes are laid out little-endian: unchanged on a
/// little-endian host, byte-reversed on a big-endian one.
pub open spec fn little_endian_form<T: ByteReverse>(v: T) -> T {
    if host_order() == EndiannessType::LittleEndian {
        v
    } else {
        v.byte_reversed()
    }
}

/// The host value read from `v` when `v` holds big-endian bytes: unchanged on
/// a big-endian host, byte-reversed on a little-endian one.
pub open spec fn host_from_big_endian<T: ByteReverse>(v: T) -> T {
    if host_order() == EndiannessType::BigEndian {
        v
    } else {
        v.byte_reversed()
    }
}

/// The host value read from `v` when `v` holds little-endian bytes: unchanged
/// on a little-endian host, byte-reversed on a big-endian one.
pub open spec fn host_from_little_endian<T: ByteReverse>(v: T) -> T {
    if host_order() == EndiannessType::LittleEndian {
        v
    } else {
        v.byte_reversed()
    }
}

/// Types whose values are a fixed number of bytes that can be put in the
/// opposite order.
pub trait ByteReverse: Sized {
    /// The value whose bytes are those of `self` in the opposite order.
    spec fn byte_reversed(self) -> Self;

    /// Reversing the bytes twice gives the value back.
    proof fn lemma_byte_reversed_involutive(self)
        ensures
            self.byte_reversed().byte_reversed() == self,
    ;

    /// Reverses the order of the bytes of `self`.
    fn reverse_bytes(self) -> (r: Self)
        ensures
            r == self.byte_reversed(),
    ;
}

/// Converts integer values between the host's native byte order and
/// big-endian or little-endian byte order.
///
/// Converting to a byte order and converting from it are the same
/// transformation: the bytes are reversed exactly when the host's order
/// differs from the one asked for. They keep two names so that each call site
/// says which way the value goes.
pub trait Endianness: ByteReverse {
    /// Converts from host byte order to big endian.
    fn host_to_big_endian(self) -> (r: Self)
        ensures
            r == big_endian_form(self),
    {
        match get_local_endianness() {
            EndiannessType::BigEndian => self,
            EndiannessType::LittleEndian => self.reverse_bytes(),
        }
    }

    /// Converts from host byte order to little endian.
    fn host_to_little_endian(self) -> (r: Self)
        ensures
            r == little_endian_form(self),
    {
        match get_local_endianness() {
            EndiannessType::BigEndian => self.reverse_bytes(),
            EndiannessType::LittleEndian => self,
        }
    }

    /// Converts from big endian to host byte order.
    fn big_endian_to_host(self) -> (r: Self)
        ensures
            r == host_from_big_endian(self),
    {
        match get_local_endianness() {
            EndiannessType::BigEndian => self,
            EndiannessType::LittleEndian => self.reverse_bytes(),
        }
    }

    /// Converts from little endian to host byte order.
    fn little_endian_to_host(self) -> (r: Self)
        ensures
            r == host_from_little_endian(self),
    {
        match get_local_endianness() {
            EndiannessType::BigEndian => self.reverse_bytes(),
            EndiannessType::LittleEndian => self,
        }
    }
}

/// A single byte reads the same in either order.
impl ByteReverse for u8 {
    open spec fn byte_reversed(self) -> u8 {
        self
    }

    proof fn lemma_byte_reversed_involutive(self) {
    }

    fn reverse_bytes(self) -> (r: u8) {
        self
    }
}

/// A single byte has no order to change: every conversion returns its input.
impl Endianness for u8 {
    fn host_to_big_endian(self) -> (r: u8) {
        self
    }

    fn host_to_little_endian(self) -> (r: u8) {
        self
    }

    fn big_endian_to_host(self) -> (r: u8) {
        self
    }

    fn little_endian_to_host(self) -> (r: u8) {
        self
    }
}

/// A single byte reads the same in either order.
impl ByteReverse for i8 {
    open spec fn byte_reversed(self) -> i8 {
        self
    }

    proof fn lemma_byte_reversed_involutive(self) {
    }

    fn reverse_bytes(self) -> (r: i8) {
        self
    }
}

/// A single byte has no order to change: every conversion returns its input.
impl Endianness for i8 {
    fn host_to_big_endian(self) -> (r: i8) {
        self
    }

    fn host_to_little_endian(self) -> (r: i8) {
        self
    }

    fn big_endian_to_host(self) -> (r: i8) {
        self
    }

    fn little_endian_to_host(self) -> (r: i8) {
        self
    }
}

impl ByteReverse for u16 {
    open spec fn byte_reversed(self) -> u16 {
        reversed_bytes(self as nat, 2) as u16
    }

    proof fn lemma_byte_reversed_involutive(self) {
        reveal_with_fuel(pow256, 3);
        lemma_reversed_bytes(self as nat, 2);
        lemma_reversed_bytes_involutive(self as nat, 2);
    }

    fn reverse_bytes(self) -> (r: u16) {
        proof {
            reveal_with_fuel(pow256, 3);
            lemma_reversed_bytes(self as nat, 2);
        }
        reverse_low_bytes(self as u128, 2) as u16
    }
}

impl Endianness for u16 {}

impl ByteReverse for u32 {
    open spec fn byte_reversed(self) -> u32 {
        reversed_bytes(self as nat, 4) as u32
    }

    proof fn lemma_byte_reversed_involutive(self) {
        reveal_with_fuel(pow256, 5);
        lemma_reversed_bytes(self as nat, 4);
        lemma_reversed_bytes_involutive(self as nat, 4);
    }

    fn reverse_bytes(self) -> (r: u32) {
        proof {
            reveal_with_fuel(pow256, 5);
            lemma_reversed_bytes(self as nat, 4);
        }
        reverse_low_bytes(self as u128, 4) as u32
    }
}

impl Endianness for u32 {}

impl ByteReverse for u64 {
    open spec fn byte_reversed(self) -> u64 {
        reversed_bytes(self as nat, 8) as u64
    }

    proof fn lemma_byte_reversed_involutive(self) {
        reveal_with_fuel(pow256, 9);
        lemma_reversed_bytes(self as nat, 8);
        lemma_reversed_bytes_involutive(self as nat, 8);
    }

    fn reverse_bytes(self) -> (r: u64) {
        proof {
            reveal_with_fuel(pow256, 9);
            lemma_reversed_bytes(self as nat, 8);
        }
        reverse_low_bytes(self as u128, 8) as u64
    }
}

impl Endianness for u64 {}

impl ByteReverse for u128 {
    open spec fn byte_reversed(self) -> u128 {
        reversed_bytes(self as nat, 16) as u128
    }

    proof fn lemma_byte_reversed_involutive(self) {
        reveal_with_fuel(pow256, 17);
        lemma_reversed_bytes(self as nat, 16);
        lemma_reversed_bytes_involutive(self as nat, 16);
    }

    fn reverse_bytes(self) -> (r: u128) {
        proof {
            reveal_with_fuel(pow256, 17);
            lemma_reversed_bytes(self as nat, 16);
        }
        reverse_low_bytes(self, 16)
    }
}

impl Endianness for u128 {}

/// The bytes of a signed value are those of its two's complement bit
/// pattern, read as the unsigned type of the same width.
impl ByteReverse for i16 {
    open spec fn byte_reversed(self) -> i16 {
        (self as u16).byte_reversed() as i16
    }

    proof fn lemma_byte_reversed_involutive(self) {
        let u = (self as u16).byte_reversed();
        assert((u as i16) as u16 == u) by (bit_vector);
        (self as u16).lemma_byte_reversed_involutive();
        assert((self as u16) as i16 == self) by (bit_vector);
    }

    fn reverse_bytes(self) -> (r: i16) {
        (self as u16).reverse_bytes() as i16
    }
}

impl Endianness for i16 {}

/// The bytes of a signed value are those of its two's complement bit
/// pattern, read as the unsigned type of the same width.
impl ByteReverse for i32 {
    open spec fn byte_reversed(self) -> i32 {
        (self as u32).byte_reversed() as i32
    }

    proof fn lemma_byte_reversed_involutive(self) {
        let u = (self as u32).byte_reversed();
        assert((u as i32) as u32 == u) by (bit_vector);
        (self as u32).lemma_byte_reversed_involutive();
        assert((self as u32) as i32 == self) by (bit_vector);
    }

    fn reverse_bytes(self) -> (r: i32) {
        (self as u32).reverse_bytes() as i32
    }
}

impl Endianness for i32 {}

/// The bytes of a signed value are those of its two's complement bit
/// pattern, read as the unsigned type of the same width.
impl ByteReverse for i64 {
    open spec fn byte_reversed(self) -> i64 {
        (self as u64).byte_reversed() as i64
    }

    proof fn lemma_byte_reversed_involutive(self) {
        let u = (self as u64).byte_reversed();
        assert((u as i64) as u64 == u) by (bit_vector);
        (self as u64).lemma_byte_reversed_involutive();
        assert((self as u64) as i64 == self) by (bit_vector);
    }

    fn reverse_bytes(self) -> (r: i64) {
        (self as u64).reverse_bytes() as i64
    }
}

impl Endianness for i64 {}

/// The bytes of a signed value are those of its two's complement bit
/// pattern, read as the unsigned type of the same width.
impl ByteReverse for i128 {
    open spec fn byte_reversed(self) -> i128 {
        (self as u128).byte_reversed() as i128
    }

    proof fn lemma_byte_reversed_involutive(self) {
        let u = (self as u128).byte_reversed();
        assert((u as i128) as u128 == u) by (bit_vector);
        (self as u128).lemma_byte_reversed_involutive();
        assert((self as u128) as i128 == self) by (bit_vector);
    }

    fn reverse_bytes(self) -> (r: i128) {
        (self as u128).reverse_bytes() as i128
    }
}

impl Endianness for i128 {}

} // verus!
