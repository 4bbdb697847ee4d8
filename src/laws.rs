//! Properties that hold of the conversions for every supported type and
//! every value.
use crate::convert::{
    big_endian_form, host_from_big_endian, host_from_little_endian, little_endian_form,
    ByteReverse, Endianness,
};
use vstd::prelude::*;

verus! {

/// Converting a value from host order to big endian and back gives the value.
pub proof fn big_endian_round_trip<T: Endianness>(v: T)
    ensures
        host_from_big_endian(big_endian_form(v)) == v,
{
    v.lemma_byte_reversed_involutive();
}

/// Converting a value from host order to little endian and back gives the
/// value.
pub proof fn little_endian_round_trip<T: Endianness>(v: T)
    ensures
        host_from_little_endian(little_endian_form(v)) == v,
{
    v.lemma_byte_reversed_involutive();
}

/// The big-endian and the little-endian form of a value are each other's
/// byte reversal.
pub proof fn big_and_little_are_mirrors<T: Endianness>(v: T)
    ensures
        big_endian_form(v) == little_endian_form(v).byte_reversed(),
        little_endian_form(v) == big_endian_form(v).byte_reversed(),
{
    v.lemma_byte_reversed_involutive();
}

/// Converting to a byte order and converting from it are the same
/// transformation.
pub proof fn to_and_from_agree<T: Endianness>(v: T)
    ensures
        big_endian_form(v) == host_from_big_endian(v),
        little_endian_form(v) == host_from_little_endian(v),
{
}

/// Every conversion leaves a single-byte value, signed or unsigned, unchanged.
pub proof fn single_byte_fixed_point(u: u8, i: i8)
    ensures
        big_endian_form(u) == u,
        little_endian_form(u) == u,
        host_from_big_endian(u) == u,
        host_from_little_endian(u) == u,
        big_endian_form(i) == i,
        little_endian_form(i) == i,
        host_from_big_endian(i) == i,
        host_from_little_endian(i) == i,
{
}

/// The round trip through big endian keeps every bit of a 128-bit value,
/// signed or unsigned.
pub proof fn wide_round_trip(u: u128, i: i128)
    ensures
        host_from_big_endian(big_endian_form(u)) == u,
        host_from_big_endian(big_endian_form(i)) == i,
{
    big_endian_round_trip(u);
    big_endian_round_trip(i);
}

} // verus!
