use endbyte::{get_local_endianness, ByteReverse, Endianness, EndiannessType};

fn host_is_little() -> bool {
    u16::from_ne_bytes([1, 0]) == 1
}

#[test]
fn test_get_local_endianness() {
    assert_eq!(
        get_local_endianness(),
        if host_is_little() {
            EndiannessType::LittleEndian
        } else {
            EndiannessType::BigEndian
        }
    );
}

#[test]
fn test_swap_bytes() {
    assert_eq!(0x1234u16.swap_bytes(), 0x3412);
    assert_eq!(0x12345678u32.swap_bytes(), 0x78563412);

    // calculate the correct u64 swap
    let original = 0x123456789abcdef0u64;
    let expected = 0xf0debc9a78563412u64;
    assert_eq!(original.swap_bytes(), expected);
}

#[test]
fn test_endianness_conversions_u16() {
    let value = 0x1234u16;

    assert_eq!(value.host_to_big_endian().big_endian_to_host(), value);
    assert_eq!(value.host_to_little_endian().little_endian_to_host(), value);

    assert_eq!(
        value.host_to_big_endian(),
        value.host_to_little_endian().swap_bytes()
    );

    if host_is_little() {
        assert_eq!(value.host_to_big_endian(), value.swap_bytes());
        assert_eq!(value.host_to_little_endian(), value);
    } else {
        assert_eq!(value.host_to_big_endian(), value);
        assert_eq!(value.host_to_little_endian(), value.swap_bytes());
    }
}

#[test]
fn test_endianness_conversions_u32() {
    let value = 0x12345678u32;

    assert_eq!(value.host_to_big_endian().big_endian_to_host(), value);
    assert_eq!(value.host_to_little_endian().little_endian_to_host(), value);

    assert_eq!(
        value.host_to_big_endian(),
        value.host_to_little_endian().swap_bytes()
    );

    if host_is_little() {
        assert_eq!(value.host_to_big_endian(), value.swap_bytes());
        assert_eq!(value.host_to_little_endian(), value);
    } else {
        assert_eq!(value.host_to_big_endian(), value);
        assert_eq!(value.host_to_little_endian(), value.swap_bytes());
    }
}

#[test]
fn test_endianness_conversions_u64() {
    let value = 0x123456789abcdef0u64;

    assert_eq!(value.host_to_big_endian().big_endian_to_host(), value);
    assert_eq!(value.host_to_little_endian().little_endian_to_host(), value);

    assert_eq!(
        value.host_to_big_endian(),
        value.host_to_little_endian().swap_bytes()
    );

    if host_is_little() {
        assert_eq!(value.host_to_big_endian(), value.swap_bytes());
        assert_eq!(value.host_to_little_endian(), value);
    } else {
        assert_eq!(value.host_to_big_endian(), value);
        assert_eq!(value.host_to_little_endian(), value.swap_bytes());
    }
}

#[test]
fn test_u8_endianness() {
    let value = 0x42u8;
    assert_eq!(value.host_to_big_endian(), value);
    assert_eq!(value.host_to_little_endian(), value);
    assert_eq!(value.big_endian_to_host(), value);
    assert_eq!(value.little_endian_to_host(), value);
}

#[test]
fn test_signed_integers() {
    let value_i16 = 0x1234i16;
    let value_i32 = 0x12345678i32;
    let value_i64 = 0x123456789abcdef0i64;

    assert_eq!(
        value_i16.host_to_big_endian().big_endian_to_host(),
        value_i16
    );
    assert_eq!(
        value_i16.host_to_little_endian().little_endian_to_host(),
        value_i16
    );

    assert_eq!(
        value_i32.host_to_big_endian().big_endian_to_host(),
        value_i32
    );
    assert_eq!(
        value_i32.host_to_little_endian().little_endian_to_host(),
        value_i32
    );

    assert_eq!(
        value_i64.host_to_big_endian().big_endian_to_host(),
        value_i64
    );
    assert_eq!(
        value_i64.host_to_little_endian().little_endian_to_host(),
        value_i64
    );
}

#[test]
fn test_128bit_integers() {
    let value_u128 = 0x123456789abcdef0fedcba9876543210u128;
    let value_i128 = 0x123456789abcdef0fedcba9876543210i128;

    assert_eq!(
        value_u128.host_to_big_endian().big_endian_to_host(),
        value_u128
    );
    assert_eq!(
        value_u128.host_to_little_endian().little_endian_to_host(),
        value_u128
    );

    assert_eq!(
        value_i128.host_to_big_endian().big_endian_to_host(),
        value_i128
    );
    assert_eq!(
        value_i128.host_to_little_endian().little_endian_to_host(),
        value_i128
    );

    assert_eq!(
        value_u128.host_to_big_endian(),
        value_u128.host_to_little_endian().swap_bytes()
    );
}

#[test]
fn test_single_byte_integers() {
    let value_u8 = 0x42u8;
    let value_i8 = 0x42i8;

    assert_eq!(value_u8.host_to_big_endian(), value_u8);
    assert_eq!(value_u8.host_to_little_endian(), value_u8);
    assert_eq!(value_u8.big_endian_to_host(), value_u8);
    assert_eq!(value_u8.little_endian_to_host(), value_u8);

    assert_eq!(value_i8.host_to_big_endian(), value_i8);
    assert_eq!(value_i8.host_to_little_endian(), value_i8);
    assert_eq!(value_i8.big_endian_to_host(), value_i8);
    assert_eq!(value_i8.little_endian_to_host(), value_i8);
}
