use wasm_decoder::elements::primitives::{
    CountedList, Uint32, Uint64, Uint8, VarInt32, VarInt64, VarInt7, VarUint1, VarUint32, VarUint7,
};
use wasm_decoder::elements::types::ValueType;
use wasm_decoder::elements::{Deserialize, Error};
use wasm_decoder::io::BufReader;

fn decode<T: Deserialize>(bytes: &[u8]) -> (Result<T, Error>, usize) {
    let mut reader = BufReader::new(bytes.to_vec());
    let r = T::deserialize(&mut reader);
    (r, reader.position())
}

#[test]
fn primitives_test() {
    let buf = [1u8, 0u8, 0u8, 0u8];
    let mut stream = BufReader::new(buf.to_vec());

    let u = Uint32::deserialize(&mut stream);
    println!("{:?}", u);
    assert_eq!(u.unwrap(), Uint32(1));
}

#[test]
fn uint8_is_the_byte() {
    let (r, pos) = decode::<Uint8>(&[0xab, 0xcd]);
    assert_eq!(r.unwrap(), Uint8(0xab));
    assert_eq!(pos, 1);
    assert!(matches!(decode::<Uint8>(&[]).0, Err(Error::UnexpectedEof)));
}

#[test]
fn uint32_is_little_endian() {
    let (r, pos) = decode::<Uint32>(&[0x78, 0x56, 0x34, 0x12, 0xff]);
    assert_eq!(r.unwrap(), Uint32(0x1234_5678));
    assert_eq!(pos, 4);
    assert_eq!(decode::<Uint32>(&[0xff, 0xff, 0xff, 0xff]).0.unwrap(), Uint32(u32::MAX));
}

#[test]
fn uint32_needs_four_bytes() {
    let (r, pos) = decode::<Uint32>(&[1, 2, 3]);
    assert!(matches!(r, Err(Error::UnexpectedEof)));
    assert_eq!(pos, 0);
}

#[test]
fn uint64_is_little_endian() {
    let (r, pos) = decode::<Uint64>(&[1, 2, 3, 4, 5, 6, 7, 8]);
    assert_eq!(u64::from(r.unwrap()), 0x0807_0605_0403_0201);
    assert_eq!(pos, 8);
    assert_eq!(u64::from(decode::<Uint64>(&[0xff; 8]).0.unwrap()), u64::MAX);
    assert!(matches!(decode::<Uint64>(&[0; 7]).0, Err(Error::UnexpectedEof)));
}

#[test]
fn var_uint1_is_zero_or_one() {
    assert_eq!(decode::<VarUint1>(&[0]).0.unwrap(), VarUint1(false));
    assert_eq!(decode::<VarUint1>(&[1]).0.unwrap(), VarUint1(true));
    assert!(matches!(decode::<VarUint1>(&[2]).0, Err(Error::InvalidVarUint1(2))));
    assert!(matches!(decode::<VarUint1>(&[0x81]).0, Err(Error::InvalidVarUint1(0x81))));
    assert!(matches!(decode::<VarUint1>(&[]).0, Err(Error::UnexpectedEof)));
}

#[test]
fn var_uint7_takes_any_byte() {
    assert_eq!(decode::<VarUint7>(&[0x60]).0.unwrap(), VarUint7(0x60));
    assert_eq!(decode::<VarUint7>(&[0xff]).0.unwrap(), VarUint7(0xff));
    assert!(matches!(decode::<VarUint7>(&[]).0, Err(Error::UnexpectedEof)));
}

#[test]
fn var_int7_extends_the_sign() {
    assert_eq!(decode::<VarInt7>(&[0x00]).0.unwrap(), VarInt7(0));
    assert_eq!(decode::<VarInt7>(&[0x3f]).0.unwrap(), VarInt7(63));
    assert_eq!(decode::<VarInt7>(&[0x40]).0.unwrap(), VarInt7(-64));
    assert_eq!(decode::<VarInt7>(&[0x7f]).0.unwrap(), VarInt7(-1));
    assert_eq!(decode::<VarInt7>(&[0x70]).0.unwrap(), VarInt7(-16));
}

#[test]
fn var_int7_refuses_a_continued_byte() {
    assert!(matches!(decode::<VarInt7>(&[0x80]).0, Err(Error::InvalidVarInt7(0x80))));
    assert!(matches!(decode::<VarInt7>(&[0xff, 0x00]).0, Err(Error::InvalidVarInt7(0xff))));
    assert!(matches!(decode::<VarInt7>(&[]).0, Err(Error::UnexpectedEof)));
}

#[test]
fn var_uint32_values() {
    assert_eq!(decode::<VarUint32>(&[0x00]).0.unwrap(), VarUint32(0));
    assert_eq!(decode::<VarUint32>(&[0x7f]).0.unwrap(), VarUint32(127));
    assert_eq!(decode::<VarUint32>(&[0x80, 0x01]).0.unwrap(), VarUint32(128));
    let (r, pos) = decode::<VarUint32>(&[0xe5, 0x8e, 0x26, 0x99]);
    assert_eq!(r.unwrap(), VarUint32(624_485));
    assert_eq!(pos, 3);
    assert_eq!(
        decode::<VarUint32>(&[0xff, 0xff, 0xff, 0xff, 0x0f]).0.unwrap(),
        VarUint32(u32::MAX)
    );
}

#[test]
fn var_uint32_accepts_padding() {
    let (r, pos) = decode::<VarUint32>(&[0x80, 0x80, 0x80, 0x80, 0x00]);
    assert_eq!(r.unwrap(), VarUint32(0));
    assert_eq!(pos, 5);
    assert_eq!(decode::<VarUint32>(&[0x81, 0x00]).0.unwrap(), VarUint32(1));
}

#[test]
fn var_uint32_refuses_bits_beyond_the_32nd() {
    assert!(matches!(
        decode::<VarUint32>(&[0xff, 0xff, 0xff, 0xff, 0x1f]).0,
        Err(Error::InvalidVarInt32)
    ));
    assert!(matches!(
        decode::<VarUint32>(&[0x80, 0x80, 0x80, 0x80, 0x10]).0,
        Err(Error::InvalidVarInt32)
    ));
    assert!(matches!(
        decode::<VarUint32>(&[0x80, 0x80, 0x80, 0x80, 0x7f]).0,
        Err(Error::InvalidVarInt32)
    ));
}

#[test]
fn var_uint32_refuses_a_sixth_byte() {
    assert!(matches!(
        decode::<VarUint32>(&[0xff, 0xff, 0xff, 0xff, 0xff, 0x7f]).0,
        Err(Error::InvalidVarUint32)
    ));
    assert!(matches!(
        decode::<VarUint32>(&[0x80, 0x80, 0x80, 0x80, 0x80, 0x00]).0,
        Err(Error::InvalidVarUint32)
    ));
    // Five bytes that announce a sixth are too long whether or not it is there.
    assert!(matches!(
        decode::<VarUint32>(&[0x80, 0x80, 0x80, 0x80, 0x80]).0,
        Err(Error::InvalidVarUint32)
    ));
}

#[test]
fn var_uint32_needs_its_last_byte() {
    assert!(matches!(decode::<VarUint32>(&[]).0, Err(Error::UnexpectedEof)));
    assert!(matches!(decode::<VarUint32>(&[0x80]).0, Err(Error::UnexpectedEof)));
    assert!(matches!(
        decode::<VarUint32>(&[0xff, 0xff, 0xff, 0xff]).0,
        Err(Error::UnexpectedEof)
    ));
}

#[test]
fn var_int32_values() {
    assert_eq!(i32::from(decode::<VarInt32>(&[0x00]).0.unwrap()), 0);
    assert_eq!(i32::from(decode::<VarInt32>(&[0x3f]).0.unwrap()), 63);
    assert_eq!(i32::from(decode::<VarInt32>(&[0x40]).0.unwrap()), -64);
    assert_eq!(i32::from(decode::<VarInt32>(&[0x7f]).0.unwrap()), -1);
    assert_eq!(i32::from(decode::<VarInt32>(&[0x80, 0x01]).0.unwrap()), 128);
    assert_eq!(i32::from(decode::<VarInt32>(&[0xff, 0x00]).0.unwrap()), 127);
    assert_eq!(i32::from(decode::<VarInt32>(&[0x80, 0x7f]).0.unwrap()), -128);
    let (r, pos) = decode::<VarInt32>(&[0xc0, 0xbb, 0x78, 0x00]);
    assert_eq!(i32::from(r.unwrap()), -123_456);
    assert_eq!(pos, 3);
}

#[test]
fn var_int32_extremes() {
    assert_eq!(
        i32::from(decode::<VarInt32>(&[0xff, 0xff, 0xff, 0xff, 0x07]).0.unwrap()),
        i32::MAX
    );
    assert_eq!(
        i32::from(decode::<VarInt32>(&[0x80, 0x80, 0x80, 0x80, 0x78]).0.unwrap()),
        i32::MIN
    );
    assert_eq!(i32::from(decode::<VarInt32>(&[0xff, 0xff, 0xff, 0xff, 0x7f]).0.unwrap()), -1);
}

#[test]
fn var_int32_refuses_padding_that_is_not_the_sign() {
    assert!(matches!(
        decode::<VarInt32>(&[0xff, 0xff, 0xff, 0xff, 0x0f]).0,
        Err(Error::InvalidVarInt32)
    ));
    assert!(matches!(
        decode::<VarInt32>(&[0x80, 0x80, 0x80, 0x80, 0x70]).0,
        Err(Error::InvalidVarInt32)
    ));
    assert!(matches!(
        decode::<VarInt32>(&[0x80, 0x80, 0x80, 0x80, 0x08]).0,
        Err(Error::InvalidVarInt32)
    ));
    assert!(matches!(
        decode::<VarInt32>(&[0x80, 0x80, 0x80, 0x80, 0x77]).0,
        Err(Error::InvalidVarInt32)
    ));
}

#[test]
fn var_int32_refuses_a_sixth_byte() {
    assert!(matches!(
        decode::<VarInt32>(&[0x80, 0x80, 0x80, 0x80, 0x80, 0x00]).0,
        Err(Error::InvalidVarInt32)
    ));
    assert!(matches!(decode::<VarInt32>(&[0x80, 0x80]).0, Err(Error::UnexpectedEof)));
}

#[test]
fn var_int64_values() {
    assert_eq!(i64::from(decode::<VarInt64>(&[0x00]).0.unwrap()), 0);
    assert_eq!(i64::from(decode::<VarInt64>(&[0x7f]).0.unwrap()), -1);
    assert_eq!(i64::from(decode::<VarInt64>(&[0x40]).0.unwrap()), -64);
    assert_eq!(i64::from(decode::<VarInt64>(&[0xc0, 0xbb, 0x78]).0.unwrap()), -123_456);
    assert_eq!(
        i64::from(decode::<VarInt64>(&[0x80, 0x80, 0x80, 0x80, 0x10]).0.unwrap()),
        1i64 << 32
    );
}

#[test]
fn var_int64_extremes() {
    let (r, pos) =
        decode::<VarInt64>(&[0xff, 0xff, 0xff, 0xff, 0xff, 0xff, 0xff, 0xff, 0xff, 0x00]);
    assert_eq!(i64::from(r.unwrap()), i64::MAX);
    assert_eq!(pos, 10);
    assert_eq!(
        i64::from(
            decode::<VarInt64>(&[0x80, 0x80, 0x80, 0x80, 0x80, 0x80, 0x80, 0x80, 0x80, 0x7f])
                .0
                .unwrap()
        ),
        i64::MIN
    );
}

#[test]
fn var_int64_refuses_padding_that_is_not_the_sign() {
    assert!(matches!(
        decode::<VarInt64>(&[0xff, 0xff, 0xff, 0xff, 0xff, 0xff, 0xff, 0xff, 0xff, 0x01]).0,
        Err(Error::InvalidVarInt64)
    ));
    assert!(matches!(
        decode::<VarInt64>(&[0x80, 0x80, 0x80, 0x80, 0x80, 0x80, 0x80, 0x80, 0x80, 0x7e]).0,
        Err(Error::InvalidVarInt64)
    ));
    assert!(matches!(
        decode::<VarInt64>(&[0x80, 0x80, 0x80, 0x80, 0x80, 0x80, 0x80, 0x80, 0x80, 0x40]).0,
        Err(Error::InvalidVarInt64)
    ));
}

#[test]
fn var_int64_refuses_an_eleventh_byte() {
    assert!(matches!(
        decode::<VarInt64>(&[0x80, 0x80, 0x80, 0x80, 0x80, 0x80, 0x80, 0x80, 0x80, 0x80, 0x00]).0,
        Err(Error::InvalidVarInt64)
    ));
    assert!(matches!(decode::<VarInt64>(&[0xff; 9]).0, Err(Error::UnexpectedEof)));
}

#[test]
fn string_of_length_zero_reads_nothing_more() {
    let (r, pos) = decode::<String>(&[0x00]);
    assert_eq!(r.unwrap(), "");
    assert_eq!(pos, 1);
}

#[test]
fn string_holds_what_its_bytes_encode() {
    let (r, pos) = decode::<String>(&[0x02, b'h', b'i', b'!']);
    assert_eq!(r.unwrap(), "hi");
    assert_eq!(pos, 3);
    assert_eq!(decode::<String>(&[0x02, 0xc3, 0xa9]).0.unwrap(), "\u{e9}");
    assert_eq!(decode::<String>(&[0x04, 0xf0, 0x9f, 0x98, 0x80]).0.unwrap(), "\u{1f600}");
}

#[test]
fn string_must_be_utf8() {
    assert!(matches!(decode::<String>(&[0x01, 0xff]).0, Err(Error::NonUtf8String)));
    assert!(matches!(decode::<String>(&[0x02, 0xc3, 0x28]).0, Err(Error::NonUtf8String)));
    // An encoded surrogate is not well-formed.
    assert!(matches!(decode::<String>(&[0x03, 0xed, 0xa0, 0x80]).0, Err(Error::NonUtf8String)));
    // Neither is a character cut short by the declared length.
    assert!(matches!(decode::<String>(&[0x01, 0xc3, 0xa9]).0, Err(Error::NonUtf8String)));
}

#[test]
fn string_needs_all_its_bytes() {
    assert!(matches!(decode::<String>(&[0x03, b'a']).0, Err(Error::UnexpectedEof)));
    assert!(matches!(decode::<String>(&[]).0, Err(Error::UnexpectedEof)));
    assert!(matches!(
        decode::<String>(&[0xff, 0xff, 0xff, 0xff, 0xff, 0x7f]).0,
        Err(Error::InvalidVarUint32)
    ));
}

#[test]
fn counted_list_holds_as_many_as_counted() {
    let (r, pos) = decode::<CountedList<ValueType>>(&[0x02, 0x7f, 0x7e, 0x7d]);
    assert_eq!(r.unwrap().into_inner(), vec![ValueType::I32, ValueType::I64]);
    assert_eq!(pos, 3);
    let (r, pos) = decode::<CountedList<VarUint32>>(&[0x00, 0x05]);
    assert_eq!(r.unwrap().into_inner(), vec![]);
    assert_eq!(pos, 1);
    let (r, _) = decode::<CountedList<VarUint32>>(&[0x03, 0x01, 0x80, 0x01, 0x7f]);
    assert_eq!(r.unwrap().into_inner(), vec![VarUint32(1), VarUint32(128), VarUint32(127)]);
}

#[test]
fn counted_list_fails_as_its_item_fails() {
    assert!(matches!(
        decode::<CountedList<ValueType>>(&[0x02, 0x7f]).0,
        Err(Error::UnexpectedEof)
    ));
    assert!(matches!(
        decode::<CountedList<ValueType>>(&[0x02, 0x7f, 0x00]).0,
        Err(Error::UnknownValueType(0))
    ));
    assert!(matches!(decode::<CountedList<ValueType>>(&[]).0, Err(Error::UnexpectedEof)));
}

#[test]
fn conversions_keep_the_number() {
    assert_eq!(u32::from(Uint32::from(7u32)), 7);
    assert_eq!(u32::from(VarUint32::from(7u32)), 7);
    assert_eq!(i8::from(VarInt7::from(-7i8)), -7);
    assert_eq!(u8::from(VarInt7(-1)), 0xff);
    assert_eq!(u8::from(VarInt7(-32)), 0xe0);
    assert_eq!(u8::from(VarInt7(5)), 5);
    assert_eq!(u8::from(Uint8(9)), 9);
    assert!(bool::from(VarUint1(true)));
    assert_eq!(u8::from(VarUint7::from(0x60u8)), 0x60);
    assert_eq!(i64::from(VarInt64::from(-9i64)), -9);
    assert_eq!(i32::from(VarInt32::from(-9i32)), -9);
    assert_eq!(u64::from(Uint64::from(9u64)), 9);
}
