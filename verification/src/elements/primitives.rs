//! The primitive codecs: fixed-width and LEB128 integers, strings and counted
//! sequences.

use super::{lemma_views_push, views, Decoded, Deserialize, Error};
use crate::io::BufReader;
use vstd::prelude::*;
use vstd::std_specs::convert::FromSpecImpl;
use vstd::utf8::{decode_utf8, valid_utf8};

verus! {

/// 128 to the power `n`: the weight of the `n`-th seven-bit group of a LEB128
/// number.
pub open spec fn pow128(n: int) -> int
    decreases n,
{
    if n <= 0 {
        1
    } else {
        128 * pow128(n - 1)
    }
}

/// The number of bytes at the front of the (at most) `limit` bytes from `pos`
/// on that announce a further byte, counted from the `i`-th of them.
pub open spec fn leb128_continued(input: Seq<u8>, pos: int, i: int, limit: int) -> int
    decreases limit - i,
{
    if i < limit && 0 <= pos + i < input.len() && input[pos + i] >= 0x80 {
        leb128_continued(input, pos, i + 1, limit)
    } else {
        i
    }
}

/// The length in bytes of the LEB128 number at `pos`, which may take up to
/// `limit` bytes: the bytes up to and including the first one whose high bit
/// is clear.  Where the first `limit` bytes all announce a further byte, the
/// failure is `too_long`, whatever follows; where the input ends before the
/// number does, it is `UnexpectedEof`.  Either failure shows behind the bytes
/// that announce a further byte.
pub open spec fn leb128_len(input: Seq<u8>, pos: int, limit: int, too_long: Error) -> Result<
    int,
    (Error, int),
> {
    let k = leb128_continued(input, pos, 0, limit);
    if k >= limit {
        Err((too_long, pos + k))
    } else if !(0 <= pos + k < input.len()) {
        Err((Error::UnexpectedEof, pos + k))
    } else {
        Ok(k + 1)
    }
}

/// The number that the low seven bits of the `n` bytes from `pos` on spell,
/// least significant group first.
pub open spec fn leb128_unsigned(input: Seq<u8>, pos: int, n: int) -> int
    decreases n,
{
    if n <= 0 {
        0
    } else {
        leb128_unsigned(input, pos, n - 1) + (input[pos + n - 1] % 128) * pow128(n - 1)
    }
}

/// Whether the last of the `n` bytes from `pos` on carries a set sign bit.
pub open spec fn leb128_sign(input: Seq<u8>, pos: int, n: int) -> bool {
    input[pos + n - 1] % 128 >= 64
}

/// The number that the `n` bytes from `pos` on spell when the topmost of their
/// `7 * n` payload bits is taken as the sign of a two's complement number.
pub open spec fn leb128_signed(input: Seq<u8>, pos: int, n: int) -> int {
    if leb128_sign(input, pos, n) {
        leb128_unsigned(input, pos, n) - pow128(n)
    } else {
        leb128_unsigned(input, pos, n)
    }
}

/// The first powers of 128.
pub proof fn lemma_pow128_values()
    ensures
        pow128(0) == 1,
        pow128(1) == 0x80,
        pow128(2) == 0x4000,
        pow128(3) == 0x20_0000,
        pow128(4) == 0x1000_0000,
        pow128(5) == 0x8_0000_0000,
        pow128(6) == 0x400_0000_0000,
        pow128(7) == 0x2_0000_0000_0000,
        pow128(8) == 0x100_0000_0000_0000,
        pow128(9) == 0x8000_0000_0000_0000,
        pow128(10) == 0x40_0000_0000_0000_0000,
{
    reveal_with_fuel(pow128, 11);
}

/// The powers of 128 grow with the exponent.
pub proof fn lemma_pow128_monotonic(a: int, b: int)
    requires
        a <= b,
    ensures
        0 < pow128(a) <= pow128(b),
    decreases b,
{
    if b <= 0 {
    } else if a == b {
        lemma_pow128_monotonic(a - 1, b - 1);
    } else {
        lemma_pow128_monotonic(a, b - 1);
    }
}

/// `n` seven-bit groups spell a number below `128^n`.
pub proof fn lemma_leb128_unsigned_bound(input: Seq<u8>, pos: int, n: int)
    ensures
        0 <= leb128_unsigned(input, pos, n) < pow128(n),
    decreases n,
{
    if n > 0 {
        let m = n - 1;
        lemma_leb128_unsigned_bound(input, pos, m);
        let g = (input[pos + n - 1] % 128) as int;
        let w = pow128(m);
        assert(g * w <= 127 * w) by (nonlinear_arith)
            requires
                0 <= g <= 127,
                0 <= w,
        ;
    }
}

/// What the shared LEB128 reader hands to the codecs.
struct Leb128 {
    /// The payload bits as an unsigned number.
    payload: u128,
    /// 128 to the power of the number of bytes read.
    weight: u128,
    /// Whether the last byte carries a set sign bit.
    sign: bool,
}

/// Reads the LEB128 number at the reader's position, which may take up to
/// `limit` bytes.
fn read_leb128(reader: &mut BufReader, limit: usize, too_long: Error) -> (r: Result<Leb128, Error>)
    requires
        limit <= 10,
    ensures
        final(reader).input() == old(reader).input(),
        match leb128_len(old(reader).input(), old(reader).position() as int, limit as int, too_long) {
            Ok(n) => {
                &&& r matches Ok(x)
                &&& 1 <= n <= limit
                &&& final(reader).position() == old(reader).position() + n
                &&& x.payload == leb128_unsigned(
                    old(reader).input(),
                    old(reader).position() as int,
                    n,
                )
                &&& x.weight == pow128(n)
                &&& x.payload < x.weight
                &&& x.sign == leb128_sign(old(reader).input(), old(reader).position() as int, n)
            },
            Err((e, at)) => {
                &&& r == Err::<Leb128, Error>(e)
                &&& final(reader).position() == at
            },
        },
{
    let ghost input = reader.input();
    let ghost start = reader.position() as int;
    let mut payload: u128 = 0;
    let mut weight: u128 = 1;
    let mut count: usize = 0;
    proof {
        lemma_pow128_values();
    }
    loop
        invariant
            input == old(reader).input(),
            start == old(reader).position(),
            reader.input() == input,
            reader.position() == start + count,
            count <= limit <= 10,
            weight == pow128(count as int),
            payload == leb128_unsigned(input, start, count as int),
            payload < weight,
            leb128_continued(input, start, 0, limit as int) == leb128_continued(
                input,
                start,
                count as int,
                limit as int,
            ),
        decreases limit - count,
    {
        if count >= limit {
            return Err(too_long);
        }
        let b = reader.read_u8()?;
        let group = (b % 128) as u128;
        proof {
            lemma_pow128_values();
            lemma_pow128_monotonic(count as int, 9);
            lemma_pow128_monotonic(count + 1, 10);
            assert(group * weight <= 127 * weight) by (nonlinear_arith)
                requires
                    0 <= group <= 127,
                    0 <= weight,
            ;
        }
        payload = payload + group * weight;
        weight = weight * 128;
        count = count + 1;
        if b < 0x80 {
            return Ok(Leb128 { payload, weight, sign: group >= 64 });
        }
    }
}

/// One byte.
#[derive(Debug, Copy, Clone, PartialEq)]
pub struct Uint8(pub u8);

impl View for Uint8 {
    type V = u8;

    open spec fn view(&self) -> u8 {
        self.0
    }
}

impl Deserialize for Uint8 {
    /// One byte.
    open spec fn spec_deserialize(input: Seq<u8>, pos: int) -> Decoded<u8> {
        if 0 <= pos < input.len() {
            Ok((input[pos], pos + 1))
        } else {
            Err((Error::UnexpectedEof, pos))
        }
    }

    proof fn lemma_deserialize_bounds(input: Seq<u8>, pos: int) {
    }

    fn deserialize(reader: &mut BufReader) -> (r: Result<Uint8, Error>) {
        let b = reader.read_u8()?;
        Ok(Uint8(b))
    }
}

/// Unsigned variable-length integer, limited to 32 bits, represented by at
/// most 5 bytes that may contain padding 0x80 bytes.
#[derive(Debug, Copy, Clone, PartialEq)]
pub struct VarUint32(pub u32);

impl View for VarUint32 {
    type V = u32;

    open spec fn view(&self) -> u32 {
        self.0
    }
}

impl Deserialize for VarUint32 {
    /// At most five bytes; the number they spell must fit in 32 bits.
    open spec fn spec_deserialize(input: Seq<u8>, pos: int) -> Decoded<u32> {
        match leb128_len(input, pos, 5, Error::InvalidVarUint32) {
            Ok(n) => {
                let v = leb128_unsigned(input, pos, n);
                if v <= u32::MAX {
                    Ok((v as u32, pos + n))
                } else {
                    Err((Error::InvalidVarInt32, pos + n))
                }
            },
            Err(e) => Err(e),
        }
    }

    proof fn lemma_deserialize_bounds(input: Seq<u8>, pos: int) {
        lemma_leb128_len_bounds(input, pos, 5, Error::InvalidVarUint32);
    }

    fn deserialize(reader: &mut BufReader) -> (r: Result<VarUint32, Error>)
        ensures
            final(reader).position() - old(reader).position() <= 5,
    {
        proof {
            lemma_leb128_len_bounds(
                old(reader).input(),
                old(reader).position() as int,
                5,
                Error::InvalidVarUint32,
            );
        }
        let raw = read_leb128(reader, 5, Error::InvalidVarUint32)?;
        proof {
            lemma_pow128_values();
            lemma_pow128_monotonic(reader.position() - old(reader).position(), 5);
        }
        if raw.payload > 0xffff_ffff {
            return Err(Error::InvalidVarInt32);
        }
        Ok(VarUint32(raw.payload as u32))
    }
}

/// A LEB128 number that is there ends within its limit and within the input.
pub proof fn lemma_leb128_len_bounds(input: Seq<u8>, pos: int, limit: int, too_long: Error)
    requires
        0 <= limit,
    ensures
        leb128_len(input, pos, limit, too_long) matches Ok(n) ==> {
            &&& 1 <= n <= limit
            &&& 0 <= pos < pos + n <= input.len()
            &&& input[pos + n - 1] < 0x80
            &&& forall|j: int| pos <= j < pos + n - 1 ==> input[j] >= 0x80
        },
        leb128_len(input, pos, limit, too_long) matches Err((_, at)) ==> {
            &&& pos <= at <= pos + limit
            &&& at == pos || at <= input.len()
        },
{
    lemma_leb128_continued(input, pos, 0, limit);
}

/// The bytes that `leb128_continued` counts from the `i`-th on all announce a
/// further byte, and the byte behind them, if it lies within the limit and the
/// input, does not.
pub proof fn lemma_leb128_continued(input: Seq<u8>, pos: int, i: int, limit: int)
    ensures
        ({
            let k = leb128_continued(input, pos, i, limit);
            &&& i <= k
            &&& i <= limit ==> k <= limit
            &&& i < k ==> 0 <= pos + i && pos + k <= input.len()
            &&& forall|j: int| pos + i <= j < pos + k ==> input[j] >= 0x80
            &&& k < limit && 0 <= pos + k < input.len() ==> input[pos + k] < 0x80
        }),
    decreases limit - i,
{
    if i < limit && 0 <= pos + i < input.len() && input[pos + i] >= 0x80 {
        lemma_leb128_continued(input, pos, i + 1, limit);
    }
}

/// The number that the `n` bytes from `pos` on spell, least significant byte
/// first.
pub open spec fn le_unsigned(input: Seq<u8>, pos: int, n: int) -> int
    decreases n,
{
    if n <= 0 {
        0
    } else {
        input[pos] + 256 * le_unsigned(input, pos + 1, n - 1)
    }
}

/// 32-bit unsigned integer, encoded in little endian.
#[derive(Debug, Copy, Clone, PartialEq)]
pub struct Uint32(pub u32);

impl View for Uint32 {
    type V = u32;

    open spec fn view(&self) -> u32 {
        self.0
    }
}

impl Deserialize for Uint32 {
    /// Four bytes, least significant first.
    open spec fn spec_deserialize(input: Seq<u8>, pos: int) -> Decoded<u32> {
        if 0 <= pos && pos + 4 <= input.len() {
            Ok((le_unsigned(input, pos, 4) as u32, pos + 4))
        } else {
            Err((Error::UnexpectedEof, pos))
        }
    }

    proof fn lemma_deserialize_bounds(input: Seq<u8>, pos: int) {
    }

    fn deserialize(reader: &mut BufReader) -> (r: Result<Uint32, Error>) {
        let ghost input = reader.input();
        let ghost pos = reader.position() as int;
        let buf = reader.read_exact(4)?;
        proof {
            reveal_with_fuel(le_unsigned, 5);
            assert(forall|i: int| 0 <= i < 4 ==> buf@[i] == input[pos + i]);
        }
        let b0 = buf[0] as u32;
        let b1 = buf[1] as u32;
        let b2 = buf[2] as u32;
        let b3 = buf[3] as u32;
        Ok(Uint32(b0 + 0x100 * b1 + 0x1_0000 * b2 + 0x100_0000 * b3))
    }
}

/// 64-bit unsigned integer, encoded in little endian.
#[derive(Debug, Copy, Clone, PartialEq)]
pub struct Uint64(pub u64);

impl View for Uint64 {
    type V = u64;

    open spec fn view(&self) -> u64 {
        self.0
    }
}

impl Deserialize for Uint64 {
    /// Eight bytes, least significant first.
    open spec fn spec_deserialize(input: Seq<u8>, pos: int) -> Decoded<u64> {
        if 0 <= pos && pos + 8 <= input.len() {
            Ok((le_unsigned(input, pos, 8) as u64, pos + 8))
        } else {
            Err((Error::UnexpectedEof, pos))
        }
    }

    proof fn lemma_deserialize_bounds(input: Seq<u8>, pos: int) {
    }

    fn deserialize(reader: &mut BufReader) -> (r: Result<Uint64, Error>) {
        let ghost input = reader.input();
        let ghost pos = reader.position() as int;
        let buf = reader.read_exact(8)?;
        proof {
            reveal_with_fuel(le_unsigned, 9);
            assert(forall|i: int| 0 <= i < 8 ==> buf@[i] == input[pos + i]);
        }
        let b0 = buf[0] as u64;
        let b1 = buf[1] as u64;
        let b2 = buf[2] as u64;
        let b3 = buf[3] as u64;
        let b4 = buf[4] as u64;
        let b5 = buf[5] as u64;
        let b6 = buf[6] as u64;
        let b7 = buf[7] as u64;
        let low = b0 + 0x100 * b1 + 0x1_0000 * b2 + 0x100_0000 * b3;
        let high = b4 + 0x100 * b5 + 0x1_0000 * b6 + 0x100_0000 * b7;
        Ok(Uint64(low + 0x1_0000_0000 * high))
    }
}

/// A single bit, encoded in one byte that holds 0 or 1.
#[derive(Debug, Copy, Clone, PartialEq)]
pub struct VarUint1(pub bool);

impl View for VarUint1 {
    type V = bool;

    open spec fn view(&self) -> bool {
        self.0
    }
}

impl Deserialize for VarUint1 {
    /// One byte, which must be 0 or 1.
    open spec fn spec_deserialize(input: Seq<u8>, pos: int) -> Decoded<bool> {
        if 0 <= pos < input.len() {
            let b = input[pos];
            if b == 0 {
                Ok((false, pos + 1))
            } else if b == 1 {
                Ok((true, pos + 1))
            } else {
                Err((Error::InvalidVarUint1(b), pos + 1))
            }
        } else {
            Err((Error::UnexpectedEof, pos))
        }
    }

    proof fn lemma_deserialize_bounds(input: Seq<u8>, pos: int) {
    }

    fn deserialize(reader: &mut BufReader) -> (r: Result<VarUint1, Error>) {
        let b = reader.read_u8()?;
        match b {
            0 => Ok(VarUint1(false)),
            1 => Ok(VarUint1(true)),
            _ => Err(Error::InvalidVarUint1(b)),
        }
    }
}

/// 7-bit unsigned integer, encoded in LEB128 (always 1 byte length).
#[derive(Debug, Copy, Clone, PartialEq)]
pub struct VarUint7(pub u8);

impl View for VarUint7 {
    type V = u8;

    open spec fn view(&self) -> u8 {
        self.0
    }
}

impl Deserialize for VarUint7 {
    /// One byte, taken as it is: the caller judges its value.
    open spec fn spec_deserialize(input: Seq<u8>, pos: int) -> Decoded<u8> {
        if 0 <= pos < input.len() {
            Ok((input[pos], pos + 1))
        } else {
            Err((Error::UnexpectedEof, pos))
        }
    }

    proof fn lemma_deserialize_bounds(input: Seq<u8>, pos: int) {
    }

    fn deserialize(reader: &mut BufReader) -> (r: Result<VarUint7, Error>) {
        let b = reader.read_u8()?;
        Ok(VarUint7(b))
    }
}

/// 7-bit signed integer, encoded in LEB128 (always 1 byte length)
#[derive(Debug, Copy, Clone, PartialEq)]
pub struct VarInt7(pub i8);

impl View for VarInt7 {
    type V = i8;

    open spec fn view(&self) -> i8 {
        self.0
    }
}

impl Deserialize for VarInt7 {
    /// One byte whose high bit is clear; its bit 6 is the sign of the
    /// seven-bit two's complement number that the byte holds.
    open spec fn spec_deserialize(input: Seq<u8>, pos: int) -> Decoded<i8> {
        if 0 <= pos < input.len() {
            let b = input[pos];
            if b >= 0x80 {
                Err((Error::InvalidVarInt7(b), pos + 1))
            } else if b >= 0x40 {
                Ok(((b - 0x80) as i8, pos + 1))
            } else {
                Ok((b as i8, pos + 1))
            }
        } else {
            Err((Error::UnexpectedEof, pos))
        }
    }

    proof fn lemma_deserialize_bounds(input: Seq<u8>, pos: int) {
    }

    fn deserialize(reader: &mut BufReader) -> (r: Result<VarInt7, Error>) {
        let b = reader.read_u8()?;
        // check if number is not continued!
        if b >= 0x80 {
            return Err(Error::InvalidVarInt7(b));
        }
        // expand sign
        if b >= 0x40 {
            Ok(VarInt7((b as i16 - 0x80) as i8))
        } else {
            Ok(VarInt7(b as i8))
        }
    }
}

/// 32-bit signed integer, encoded in LEB128 (can be 1-5 bytes length).
#[derive(Debug, Copy, Clone, PartialEq)]
pub struct VarInt32(pub i32);

impl View for VarInt32 {
    type V = i32;

    open spec fn view(&self) -> i32 {
        self.0
    }
}

impl Deserialize for VarInt32 {
    /// At most five bytes; the two's complement number they spell must fit in
    /// 32 bits, which is to say that the bits of the fifth byte beyond the
    /// 32nd all repeat the sign.
    open spec fn spec_deserialize(input: Seq<u8>, pos: int) -> Decoded<i32> {
        match leb128_len(input, pos, 5, Error::InvalidVarInt32) {
            Ok(n) => {
                let v = leb128_signed(input, pos, n);
                if i32::MIN <= v <= i32::MAX {
                    Ok((v as i32, pos + n))
                } else {
                    Err((Error::InvalidVarInt32, pos + n))
                }
            },
            Err(e) => Err(e),
        }
    }

    proof fn lemma_deserialize_bounds(input: Seq<u8>, pos: int) {
        lemma_leb128_len_bounds(input, pos, 5, Error::InvalidVarInt32);
    }

    fn deserialize(reader: &mut BufReader) -> (r: Result<VarInt32, Error>)
        ensures
            final(reader).position() - old(reader).position() <= 5,
    {
        proof {
            lemma_leb128_len_bounds(
                old(reader).input(),
                old(reader).position() as int,
                5,
                Error::InvalidVarInt32,
            );
        }
        let raw = read_leb128(reader, 5, Error::InvalidVarInt32)?;
        proof {
            lemma_pow128_values();
            lemma_pow128_monotonic(reader.position() - old(reader).position(), 5);
        }
        let value: i128 = if raw.sign {
            raw.payload as i128 - raw.weight as i128
        } else {
            raw.payload as i128
        };
        if value < -0x8000_0000 || value > 0x7fff_ffff {
            return Err(Error::InvalidVarInt32);
        }
        Ok(VarInt32(value as i32))
    }
}

/// 64-bit signed integer, encoded in LEB128 (can be 1-10 bytes length).
#[derive(Debug, Copy, Clone, PartialEq)]
pub struct VarInt64(pub i64);

impl View for VarInt64 {
    type V = i64;

    open spec fn view(&self) -> i64 {
        self.0
    }
}

impl Deserialize for VarInt64 {
    /// At most ten bytes; the two's complement number they spell must fit in
    /// 64 bits, which is to say that the bits of the tenth byte beyond the
    /// 64th all repeat the sign.
    open spec fn spec_deserialize(input: Seq<u8>, pos: int) -> Decoded<i64> {
        match leb128_len(input, pos, 10, Error::InvalidVarInt64) {
            Ok(n) => {
                let v = leb128_signed(input, pos, n);
                if i64::MIN <= v <= i64::MAX {
                    Ok((v as i64, pos + n))
                } else {
                    Err((Error::InvalidVarInt64, pos + n))
                }
            },
            Err(e) => Err(e),
        }
    }

    proof fn lemma_deserialize_bounds(input: Seq<u8>, pos: int) {
        lemma_leb128_len_bounds(input, pos, 10, Error::InvalidVarInt64);
    }

    fn deserialize(reader: &mut BufReader) -> (r: Result<VarInt64, Error>)
        ensures
            final(reader).position() - old(reader).position() <= 10,
    {
        proof {
            lemma_leb128_len_bounds(
                old(reader).input(),
                old(reader).position() as int,
                10,
                Error::InvalidVarInt64,
            );
        }
        let raw = read_leb128(reader, 10, Error::InvalidVarInt64)?;
        proof {
            lemma_pow128_values();
            lemma_pow128_monotonic(reader.position() - old(reader).position(), 10);
        }
        let value: i128 = if raw.sign {
            raw.payload as i128 - raw.weight as i128
        } else {
            raw.payload as i128
        };
        if value < -0x8000_0000_0000_0000 || value > 0x7fff_ffff_ffff_ffff {
            return Err(Error::InvalidVarInt64);
        }
        Ok(VarInt64(value as i64))
    }
}

/// `String::from_utf8`: the conversion succeeds exactly on the byte
/// sequences that are well-formed UTF-8, and the string then holds the
/// characters that the bytes encode.
#[verifier::external_body]
fn string_from_utf8(bytes: Vec<u8>) -> (r: Option<String>)
    ensures
        r is Some <==> valid_utf8(bytes@),
        r matches Some(s) ==> s@ == decode_utf8(bytes@),
{
    String::from_utf8(bytes).ok()
}

impl Deserialize for String {
    /// A `VarUint32` length, then that many bytes, which must be well-formed
    /// UTF-8.  The empty string is its length alone.
    open spec fn spec_deserialize(input: Seq<u8>, pos: int) -> Decoded<Seq<char>> {
        match VarUint32::spec_deserialize(input, pos) {
            Ok((len, start)) => {
                if len == 0 {
                    Ok((Seq::empty(), start))
                } else if start + len > input.len() {
                    Err((Error::UnexpectedEof, start))
                } else if valid_utf8(input.subrange(start, start + len)) {
                    Ok((decode_utf8(input.subrange(start, start + len)), start + len))
                } else {
                    Err((Error::NonUtf8String, start + len))
                }
            },
            Err(e) => Err(e),
        }
    }

    proof fn lemma_deserialize_bounds(input: Seq<u8>, pos: int) {
        VarUint32::lemma_deserialize_bounds(input, pos);
    }

    fn deserialize(reader: &mut BufReader) -> (r: Result<String, Error>) {
        let len = VarUint32::deserialize(reader)?.0;
        if len == 0 {
            return Ok(String::new());
        }
        let bytes = reader.read_exact(len as usize)?;
        match string_from_utf8(bytes) {
            Some(s) => Ok(s),
            None => Err(Error::NonUtf8String),
        }
    }
}

/// What the format makes of `count` values of `T` that follow one another
/// from `pos` on: their views in order and the position behind the last.
pub open spec fn spec_sequence<T: Deserialize>(input: Seq<u8>, pos: int, count: nat) -> Decoded<Seq<T::V>>
    decreases count,
{
    if count == 0 {
        Ok((Seq::empty(), pos))
    } else {
        match T::spec_deserialize(input, pos) {
            Ok((v, next)) => match spec_sequence::<T>(input, next, (count - 1) as nat) {
                Ok((vs, end)) => Ok((seq![v] + vs, end)),
                Err(e) => Err(e),
            },
            Err(e) => Err(e),
        }
    }
}

/// A sequence of values ends at or behind the position where it starts, and
/// holds as many values as were counted.
pub proof fn lemma_sequence_bounds<T: Deserialize>(input: Seq<u8>, pos: int, count: nat)
    requires
        0 <= pos <= input.len(),
    ensures
        spec_sequence::<T>(input, pos, count) matches Ok((vs, end)) ==> pos <= end <= input.len()
            && vs.len() == count,
    decreases count,
{
    if count > 0 {
        T::lemma_deserialize_bounds(input, pos);
        if let Ok((v, next)) = T::spec_deserialize(input, pos) {
            lemma_sequence_bounds::<T>(input, next, (count - 1) as nat);
        }
    }
}

/// A sequence of values preceded by their number, a `VarUint32`.
#[derive(Debug, Clone)]
pub struct CountedList<T: Deserialize>(pub Vec<T>);

impl<T: Deserialize> CountedList<T> {
    /// The values of the list.
    pub fn into_inner(self) -> (r: Vec<T>)
        ensures
            r == self.0,
    {
        self.0
    }
}

impl<T: Deserialize> View for CountedList<T> {
    type V = Seq<T::V>;

    open spec fn view(&self) -> Seq<T::V> {
        views(self.0@)
    }
}

impl<T: Deserialize> Deserialize for CountedList<T> {
    /// A `VarUint32` count, then that many values.
    open spec fn spec_deserialize(input: Seq<u8>, pos: int) -> Decoded<Seq<T::V>> {
        match VarUint32::spec_deserialize(input, pos) {
            Ok((count, start)) => spec_sequence::<T>(input, start, count as nat),
            Err(e) => Err(e),
        }
    }

    proof fn lemma_deserialize_bounds(input: Seq<u8>, pos: int) {
        VarUint32::lemma_deserialize_bounds(input, pos);
        if let Ok((count, start)) = VarUint32::spec_deserialize(input, pos) {
            lemma_sequence_bounds::<T>(input, start, count as nat);
        }
    }

    fn deserialize(reader: &mut BufReader) -> (r: Result<CountedList<T>, Error>) {
        let ghost input = reader.input();
        let len = VarUint32::deserialize(reader)?.0;
        let ghost start = reader.position() as int;
        let mut res: Vec<T> = Vec::new();
        let mut i: u32 = 0;
        while i < len
            invariant
                i <= len,
                input == old(reader).input(),
                reader.input() == input,
                VarUint32::spec_deserialize(input, old(reader).position() as int) == Ok::<(u32, int), (Error, int)>((len, start)),
                match spec_sequence::<T>(input, reader.position() as int, (len - i) as nat) {
                    Ok((vs, end)) => spec_sequence::<T>(input, start, len as nat) == Ok::<(Seq<T::V>, int), (Error, int)>((views(res@) + vs, end)),
                    Err(e) => spec_sequence::<T>(input, start, len as nat) == Err::<(Seq<T::V>, int), (Error, int)>(e),
                },
            decreases len - i,
        {
            let ghost before = res@;
            let t = T::deserialize(reader)?;
            res.push(t);
            i = i + 1;
            proof {
                lemma_views_push(before, t);
                let v = t@;
                let vs = spec_sequence::<T>(input, reader.position() as int, (len - i) as nat);
                if let Ok((rest, end)) = vs {
                    assert(views(before) + (seq![v] + rest) =~= views(res@) + rest);
                }
            }
        }
        proof {
            assert(views(res@) + Seq::<T::V>::empty() =~= views(res@));
        }
        Ok(CountedList(res))
    }
}

impl From<Uint32> for u32 {
    /// The number.
    fn from(v: Uint32) -> (r: u32) {
        v.0
    }
}

impl FromSpecImpl<Uint32> for u32 {
    open spec fn obeys_from_spec() -> bool {
        true
    }

    open spec fn from_spec(v: Uint32) -> u32 {
        v@
    }
}

impl From<u32> for Uint32 {
    /// The number as a `Uint32`.
    fn from(v: u32) -> (r: Uint32) {
        Uint32(v)
    }
}

impl FromSpecImpl<u32> for Uint32 {
    open spec fn obeys_from_spec() -> bool {
        true
    }

    open spec fn from_spec(v: u32) -> Uint32 {
        Uint32(v)
    }
}

impl From<VarUint32> for u32 {
    /// The number.
    fn from(v: VarUint32) -> (r: u32) {
        v.0
    }
}

impl FromSpecImpl<VarUint32> for u32 {
    open spec fn obeys_from_spec() -> bool {
        true
    }

    open spec fn from_spec(v: VarUint32) -> u32 {
        v@
    }
}

impl From<u32> for VarUint32 {
    /// The number as a `VarUint32`.
    fn from(v: u32) -> (r: VarUint32) {
        VarUint32(v)
    }
}

impl FromSpecImpl<u32> for VarUint32 {
    open spec fn obeys_from_spec() -> bool {
        true
    }

    open spec fn from_spec(v: u32) -> VarUint32 {
        VarUint32(v)
    }
}

impl From<VarInt7> for i8 {
    /// The number.
    fn from(v: VarInt7) -> (r: i8) {
        v.0
    }
}

impl FromSpecImpl<VarInt7> for i8 {
    open spec fn obeys_from_spec() -> bool {
        true
    }

    open spec fn from_spec(v: VarInt7) -> i8 {
        v@
    }
}

impl From<i8> for VarInt7 {
    /// The number as a `VarInt7`.
    fn from(v: i8) -> (r: VarInt7) {
        VarInt7(v)
    }
}

impl FromSpecImpl<i8> for VarInt7 {
    open spec fn obeys_from_spec() -> bool {
        true
    }

    open spec fn from_spec(v: i8) -> VarInt7 {
        VarInt7(v)
    }
}

impl From<VarInt7> for u8 {
    /// The byte that holds the number in two's complement.
    fn from(v: VarInt7) -> (r: u8) {
        if v.0 < 0 {
            (v.0 as i16 + 0x100) as u8
        } else {
            v.0 as u8
        }
    }
}

impl FromSpecImpl<VarInt7> for u8 {
    open spec fn obeys_from_spec() -> bool {
        true
    }

    open spec fn from_spec(v: VarInt7) -> u8 {
        if v@ < 0 {
            (v@ + 0x100) as u8
        } else {
            v@ as u8
        }
    }
}

impl From<Uint8> for u8 {
    /// The byte.
    fn from(v: Uint8) -> (r: u8) {
        v.0
    }
}

impl FromSpecImpl<Uint8> for u8 {
    open spec fn obeys_from_spec() -> bool {
        true
    }

    open spec fn from_spec(v: Uint8) -> u8 {
        v@
    }
}

impl From<VarUint1> for bool {
    /// The bit.
    fn from(v: VarUint1) -> (r: bool) {
        v.0
    }
}

impl FromSpecImpl<VarUint1> for bool {
    open spec fn obeys_from_spec() -> bool {
        true
    }

    open spec fn from_spec(v: VarUint1) -> bool {
        v@
    }
}

impl From<VarUint7> for u8 {
    /// The number.
    fn from(v: VarUint7) -> (r: u8) {
        v.0
    }
}

impl FromSpecImpl<VarUint7> for u8 {
    open spec fn obeys_from_spec() -> bool {
        true
    }

    open spec fn from_spec(v: VarUint7) -> u8 {
        v@
    }
}

impl From<u8> for VarUint7 {
    /// The number as a `VarUint7`.
    fn from(v: u8) -> (r: VarUint7) {
        VarUint7(v)
    }
}

impl FromSpecImpl<u8> for VarUint7 {
    open spec fn obeys_from_spec() -> bool {
        true
    }

    open spec fn from_spec(v: u8) -> VarUint7 {
        VarUint7(v)
    }
}

impl From<VarInt64> for i64 {
    /// The number.
    fn from(v: VarInt64) -> (r: i64) {
        v.0
    }
}

impl FromSpecImpl<VarInt64> for i64 {
    open spec fn obeys_from_spec() -> bool {
        true
    }

    open spec fn from_spec(v: VarInt64) -> i64 {
        v@
    }
}

impl From<i64> for VarInt64 {
    /// The number as a `VarInt64`.
    fn from(v: i64) -> (r: VarInt64) {
        VarInt64(v)
    }
}

impl FromSpecImpl<i64> for VarInt64 {
    open spec fn obeys_from_spec() -> bool {
        true
    }

    open spec fn from_spec(v: i64) -> VarInt64 {
        VarInt64(v)
    }
}

impl From<VarInt32> for i32 {
    /// The number.
    fn from(v: VarInt32) -> (r: i32) {
        v.0
    }
}

impl FromSpecImpl<VarInt32> for i32 {
    open spec fn obeys_from_spec() -> bool {
        true
    }

    open spec fn from_spec(v: VarInt32) -> i32 {
        v@
    }
}

impl From<i32> for VarInt32 {
    /// The number as a `VarInt32`.
    fn from(v: i32) -> (r: VarInt32) {
        VarInt32(v)
    }
}

impl FromSpecImpl<i32> for VarInt32 {
    open spec fn obeys_from_spec() -> bool {
        true
    }

    open spec fn from_spec(v: i32) -> VarInt32 {
        VarInt32(v)
    }
}

impl From<Uint64> for u64 {
    /// The number.
    fn from(v: Uint64) -> (r: u64) {
        v.0
    }
}

impl FromSpecImpl<Uint64> for u64 {
    open spec fn obeys_from_spec() -> bool {
        true
    }

    open spec fn from_spec(v: Uint64) -> u64 {
        v@
    }
}

impl From<u64> for Uint64 {
    /// The number as a `Uint64`.
    fn from(v: u64) -> (r: Uint64) {
        Uint64(v)
    }
}

impl FromSpecImpl<u64> for Uint64 {
    open spec fn obeys_from_spec() -> bool {
        true
    }

    open spec fn from_spec(v: u64) -> Uint64 {
        Uint64(v)
    }
}

/// The numbers of a list of `VarUint32`.
pub fn unwrap_var_uint32s(list: CountedList<VarUint32>) -> (r: Vec<u32>)
    ensures
        r@ == list@,
{
    let items = list.into_inner();
    let mut r: Vec<u32> = Vec::new();
    let mut i: usize = 0;
    while i < items.len()
        invariant
            i <= items@.len(),
            r@ == views(items@).take(i as int),
        decreases items@.len() - i,
    {
        r.push(items[i].0);
        i = i + 1;
        assert(views(items@).take(i as int) =~= views(items@).take(i - 1).push(items@[i - 1]@));
    }
    assert(views(items@).take(i as int) =~= views(items@));
    r
}

/// A `VarUint32` takes one to five bytes, of which only the last has its
/// high bit clear; it is the number that their low seven bits spell, and a
/// fifth byte holds no bit beyond the 32nd: it is at most 0x0f.  A failure
/// takes at most five bytes too.
pub proof fn lemma_var_uint32_canonical(input: Seq<u8>, pos: int)
    ensures
        VarUint32::spec_deserialize(input, pos) matches Ok((v, end)) ==> {
            &&& 1 <= end - pos <= 5
            &&& 0 <= pos && end <= input.len()
            &&& forall|j: int| pos <= j < end - 1 ==> input[j] >= 0x80
            &&& input[end - 1] < 0x80
            &&& end - pos == 5 ==> input[end - 1] <= 0x0f
            &&& v == leb128_unsigned(input, pos, end - pos)
        },
        VarUint32::spec_deserialize(input, pos) matches Err((_, at)) ==> pos <= at <= pos + 5,
{
    lemma_leb128_len_bounds(input, pos, 5, Error::InvalidVarUint32);
    if let Ok(n) = leb128_len(input, pos, 5, Error::InvalidVarUint32) {
        lemma_pow128_values();
        lemma_leb128_unsigned_bound(input, pos, n - 1);
        if n == 5 {
            let g = (input[pos + 4] % 128) as int;
            assert(leb128_unsigned(input, pos, 5) == leb128_unsigned(input, pos, 4) + g
                * 0x1000_0000);
        }
    }
}

/// A `VarInt32` takes one to five bytes, of which only the last has its high
/// bit clear; it is the two's complement number that their low seven bits
/// spell, and in a fifth byte the bits beyond the 32nd all repeat the sign:
/// the byte is at most 0x07 or at least 0x78.  A failure takes at most five
/// bytes too.
pub proof fn lemma_var_int32_canonical(input: Seq<u8>, pos: int)
    ensures
        VarInt32::spec_deserialize(input, pos) matches Ok((v, end)) ==> {
            &&& 1 <= end - pos <= 5
            &&& 0 <= pos && end <= input.len()
            &&& forall|j: int| pos <= j < end - 1 ==> input[j] >= 0x80
            &&& input[end - 1] < 0x80
            &&& end - pos == 5 ==> input[end - 1] <= 0x07 || input[end - 1] >= 0x78
            &&& v == leb128_signed(input, pos, end - pos)
        },
        VarInt32::spec_deserialize(input, pos) matches Err((_, at)) ==> pos <= at <= pos + 5,
{
    lemma_leb128_len_bounds(input, pos, 5, Error::InvalidVarInt32);
    if let Ok(n) = leb128_len(input, pos, 5, Error::InvalidVarInt32) {
        lemma_pow128_values();
        lemma_leb128_unsigned_bound(input, pos, n - 1);
        if n == 5 {
            let g = (input[pos + 4] % 128) as int;
            assert(leb128_unsigned(input, pos, 5) == leb128_unsigned(input, pos, 4) + g
                * 0x1000_0000);
        }
    }
}

/// A `VarInt64` takes one to ten bytes, of which only the last has its high
/// bit clear; it is the two's complement number that their low seven bits
/// spell, and in a tenth byte the bits beyond the 64th all repeat the sign:
/// the byte is 0x00 or 0x7f.  A failure takes at most ten bytes too.
pub proof fn lemma_var_int64_canonical(input: Seq<u8>, pos: int)
    ensures
        VarInt64::spec_deserialize(input, pos) matches Ok((v, end)) ==> {
            &&& 1 <= end - pos <= 10
            &&& 0 <= pos && end <= input.len()
            &&& forall|j: int| pos <= j < end - 1 ==> input[j] >= 0x80
            &&& input[end - 1] < 0x80
            &&& end - pos == 10 ==> input[end - 1] == 0x00 || input[end - 1] == 0x7f
            &&& v == leb128_signed(input, pos, end - pos)
        },
        VarInt64::spec_deserialize(input, pos) matches Err((_, at)) ==> pos <= at <= pos + 10,
{
    lemma_leb128_len_bounds(input, pos, 10, Error::InvalidVarInt64);
    if let Ok(n) = leb128_len(input, pos, 10, Error::InvalidVarInt64) {
        lemma_pow128_values();
        lemma_leb128_unsigned_bound(input, pos, n - 1);
        if n == 10 {
            let g = (input[pos + 9] % 128) as int;
            assert(leb128_unsigned(input, pos, 10) == leb128_unsigned(input, pos, 9) + g
                * 0x8000_0000_0000_0000);
        }
    }
}

/// A `VarUint1` takes one byte, which is 0 or 1 and is the bit.  A byte
/// that is refused is taken too; only where no byte is left is none taken.
pub proof fn lemma_var_uint1_canonical(input: Seq<u8>, pos: int)
    ensures
        VarUint1::spec_deserialize(input, pos) matches Ok((v, end)) ==> {
            &&& end == pos + 1
            &&& 0 <= pos < input.len()
            &&& input[pos] <= 1
            &&& v == (input[pos] == 1)
        },
        VarUint1::spec_deserialize(input, pos) matches Err((e, at)) ==> {
            if 0 <= pos < input.len() {
                input[pos] >= 2 && e == Error::InvalidVarUint1(input[pos]) && at == pos + 1
            } else {
                e == Error::UnexpectedEof && at == pos
            }
        },
{
}

/// A `VarInt7` takes one byte, whose high bit is clear, and lies between -64
/// and 63.  A byte that is refused is taken too; only where no byte is left
/// is none taken.
pub proof fn lemma_var_int7_canonical(input: Seq<u8>, pos: int)
    ensures
        VarInt7::spec_deserialize(input, pos) matches Ok((v, end)) ==> {
            &&& end == pos + 1
            &&& 0 <= pos < input.len()
            &&& input[pos] < 0x80
            &&& -64 <= v <= 63
            &&& v == leb128_signed(input, pos, 1)
        },
        VarInt7::spec_deserialize(input, pos) matches Err((e, at)) ==> {
            if 0 <= pos < input.len() {
                input[pos] >= 0x80 && e == Error::InvalidVarInt7(input[pos]) && at == pos + 1
            } else {
                e == Error::UnexpectedEof && at == pos
            }
        },
{
    reveal_with_fuel(leb128_unsigned, 2);
    lemma_pow128_values();
}

/// The bytes of every string that the decoder accepts are well-formed
/// UTF-8, and the string holds the characters that they encode.
pub proof fn lemma_string_is_utf8(input: Seq<u8>, pos: int)
    ensures
        String::spec_deserialize(input, pos) matches Ok((s, end)) ==> {
            &&& VarUint32::spec_deserialize(input, pos) matches Ok((len, start))
            &&& end == start + len
            &&& valid_utf8(input.subrange(start, end))
            &&& s == decode_utf8(input.subrange(start, end))
        },
{
    VarUint32::lemma_deserialize_bounds(input, pos);
    if let Ok((len, start)) = VarUint32::spec_deserialize(input, pos) {
        if len == 0 {
            assert(input.subrange(start, start).len() == 0);
            assert(decode_utf8(input.subrange(start, start)) =~= Seq::<char>::empty());
        }
    }
}

/// A sequence of values fails as one of its values fails, with that
/// failure and where it shows.
pub proof fn lemma_sequence_failure<T: Deserialize>(input: Seq<u8>, pos: int, count: nat)
    ensures
        spec_sequence::<T>(input, pos, count) matches Err(failure) ==> exists|at: int|
            #[trigger] T::spec_deserialize(input, at) == Err::<(T::V, int), (Error, int)>(failure),
    decreases count,
{
    if count > 0 {
        if let Ok((v, next)) = T::spec_deserialize(input, pos) {
            lemma_sequence_failure::<T>(input, next, (count - 1) as nat);
        }
    }
}

} // verus!
