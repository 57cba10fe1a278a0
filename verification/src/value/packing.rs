//! The bytes that bincode writes for the Rust values of SQL values, and the calls that write and
//! read them.
//!
//! bincode 1.3's `serialize` and `deserialize` use fixed-width integers in little-endian order,
//! no size limit, and allow trailing bytes: an integer is its bytes, a `bool` one byte (`0` or `1`),
//! and a `String` the `u64` count of its UTF-8 bytes followed by those bytes.
use vstd::prelude::*;
use vstd::utf8::{decode_utf8, encode_utf8, valid_utf8};

verus! {

#[verifier::external_type_specification]
#[verifier::external_body]
pub struct ExBincodeErrorKind(bincode::ErrorKind);

/// The 2 bytes of `u` in little-endian order.
pub open spec fn u16_le_bytes(u: u16) -> Seq<u8> {
    seq![u as u8, (u >> 8u16) as u8]
}

/// The `u16` whose little-endian bytes are the first 2 bytes of `b`.
pub open spec fn u16_from_le_bytes(b: Seq<u8>) -> u16 {
    ((b[0] as u16) | ((b[1] as u16) << 8u16)) as u16
}

/// The 4 bytes of `u` in little-endian order.
pub open spec fn u32_le_bytes(u: u32) -> Seq<u8> {
    seq![u as u8, (u >> 8u32) as u8, (u >> 16u32) as u8, (u >> 24u32) as u8]
}

/// The `u32` whose little-endian bytes are the first 4 bytes of `b`.
pub open spec fn u32_from_le_bytes(b: Seq<u8>) -> u32 {
    (b[0] as u32) | ((b[1] as u32) << 8u32) | ((b[2] as u32) << 16u32) | ((b[3] as u32) << 24u32)
}

/// The 8 bytes of `u` in little-endian order.
pub open spec fn u64_le_bytes(u: u64) -> Seq<u8> {
    seq![
        u as u8,
        (u >> 8u64) as u8,
        (u >> 16u64) as u8,
        (u >> 24u64) as u8,
        (u >> 32u64) as u8,
        (u >> 40u64) as u8,
        (u >> 48u64) as u8,
        (u >> 56u64) as u8,
    ]
}

/// The `u64` whose little-endian bytes are the first 8 bytes of `b`.
pub open spec fn u64_from_le_bytes(b: Seq<u8>) -> u64 {
    (b[0] as u64) | ((b[1] as u64) << 8u64) | ((b[2] as u64) << 16u64) | ((b[3] as u64) << 24u64)
        | ((b[4] as u64) << 32u64) | ((b[5] as u64) << 40u64) | ((b[6] as u64) << 48u64) | ((
    b[7] as u64) << 56u64)
}

/// The bytes of a `bool`: `1` for `true`, `0` for `false`.
pub open spec fn bool_bytes(b: bool) -> Seq<u8> {
    seq![if b { 1u8 } else { 0u8 }]
}

/// The `bool` that the first byte of `raw` stands for, if it is `0` or `1`.
pub open spec fn bool_from_bytes(raw: Seq<u8>) -> Option<bool> {
    if raw.len() >= 1 && raw[0] == 1 {
        Some(true)
    } else if raw.len() >= 1 && raw[0] == 0 {
        Some(false)
    } else {
        None
    }
}

/// The bytes of a string: the `u64` count of its UTF-8 bytes, then those bytes.
pub open spec fn string_bytes(s: Seq<char>) -> Seq<u8> {
    u64_le_bytes(encode_utf8(s).len() as u64) + encode_utf8(s)
}

/// The string that `raw` starts with: a `u64` count, then that many bytes of valid UTF-8.
pub open spec fn string_from_bytes(raw: Seq<u8>) -> Option<Seq<char>> {
    if raw.len() < 8 {
        None
    } else {
        let n = u64_from_le_bytes(raw);
        if raw.len() - 8 < n {
            None
        } else if valid_utf8(raw.subrange(8, 8 + n)) {
            Some(decode_utf8(raw.subrange(8, 8 + n)))
        } else {
            None
        }
    }
}

/// `bincode::serialize` on an `i16`.
///
/// Trusted: bincode 1.3 writes the 2 little-endian bytes of the value (two's complement), and
/// writing a fixed-size integer with no size limit does not fail.
#[verifier::external_body]
pub(crate) fn bincode_serialize_i16(v: &i16) -> (r: Result<Vec<u8>, Box<bincode::ErrorKind>>)
    ensures
        r is Ok,
        r matches Ok(b) ==> b@ == u16_le_bytes(*v as u16),
{
    bincode::serialize(v)
}

/// `bincode::deserialize` into an `i16`.
///
/// Trusted: bincode 1.3 reads 2 little-endian bytes from the start of `raw` and allows trailing
/// bytes, so the call succeeds exactly when `raw` has at least 2 bytes.
#[verifier::external_body]
pub(crate) fn bincode_deserialize_i16(raw: &[u8]) -> (r: Result<i16, Box<bincode::ErrorKind>>)
    ensures
        r is Ok <==> raw@.len() >= 2,
        r matches Ok(v) ==> v == u16_from_le_bytes(raw@) as i16,
{
    bincode::deserialize(raw)
}

/// `bincode::serialize` on an `i32`.
///
/// Trusted: bincode 1.3 writes the 4 little-endian bytes of the value (two's complement), and
/// writing a fixed-size integer with no size limit does not fail.
#[verifier::external_body]
pub(crate) fn bincode_serialize_i32(v: &i32) -> (r: Result<Vec<u8>, Box<bincode::ErrorKind>>)
    ensures
        r is Ok,
        r matches Ok(b) ==> b@ == u32_le_bytes(*v as u32),
{
    bincode::serialize(v)
}

/// `bincode::deserialize` into an `i32`.
///
/// Trusted: bincode 1.3 reads 4 little-endian bytes from the start of `raw` and allows trailing
/// bytes, so the call succeeds exactly when `raw` has at least 4 bytes.
#[verifier::external_body]
pub(crate) fn bincode_deserialize_i32(raw: &[u8]) -> (r: Result<i32, Box<bincode::ErrorKind>>)
    ensures
        r is Ok <==> raw@.len() >= 4,
        r matches Ok(v) ==> v == u32_from_le_bytes(raw@) as i32,
{
    bincode::deserialize(raw)
}

/// `bincode::serialize` on an `i64`.
///
/// Trusted: bincode 1.3 writes the 8 little-endian bytes of the value (two's complement), and
/// writing a fixed-size integer with no size limit does not fail.
#[verifier::external_body]
pub(crate) fn bincode_serialize_i64(v: &i64) -> (r: Result<Vec<u8>, Box<bincode::ErrorKind>>)
    ensures
        r is Ok,
        r matches Ok(b) ==> b@ == u64_le_bytes(*v as u64),
{
    bincode::serialize(v)
}

/// `bincode::deserialize` into an `i64`.
///
/// Trusted: bincode 1.3 reads 8 little-endian bytes from the start of `raw` and allows trailing
/// bytes, so the call succeeds exactly when `raw` has at least 8 bytes.
#[verifier::external_body]
pub(crate) fn bincode_deserialize_i64(raw: &[u8]) -> (r: Result<i64, Box<bincode::ErrorKind>>)
    ensures
        r is Ok <==> raw@.len() >= 8,
        r matches Ok(v) ==> v == u64_from_le_bytes(raw@) as i64,
{
    bincode::deserialize(raw)
}

/// `bincode::serialize` on a `bool`.
///
/// Trusted: bincode 1.3 writes one byte, `1` for `true` and `0` for `false`, and does not fail.
#[verifier::external_body]
pub(crate) fn bincode_serialize_bool(v: &bool) -> (r: Result<Vec<u8>, Box<bincode::ErrorKind>>)
    ensures
        r is Ok,
        r matches Ok(b) ==> b@ == bool_bytes(*v),
{
    bincode::serialize(v)
}

/// `bincode::deserialize` into a `bool`.
///
/// Trusted: bincode 1.3 reads one byte; `1` is `true`, `0` is `false`, any other byte and an empty
/// `raw` are errors; trailing bytes are allowed.
#[verifier::external_body]
pub(crate) fn bincode_deserialize_bool(raw: &[u8]) -> (r: Result<bool, Box<bincode::ErrorKind>>)
    ensures
        r is Ok <==> bool_from_bytes(raw@) is Some,
        r matches Ok(v) ==> bool_from_bytes(raw@) == Some(v),
{
    bincode::deserialize(raw)
}

/// `bincode::serialize` on a `String`.
///
/// Trusted: bincode 1.3 writes the number of UTF-8 bytes of the string as a little-endian `u64`,
/// then those bytes (`str::as_bytes`), and does not fail with no size limit. The count of a string
/// in memory fits in a `u64`.
#[verifier::external_body]
pub(crate) fn bincode_serialize_string(v: &String) -> (r: Result<Vec<u8>, Box<bincode::ErrorKind>>)
    ensures
        r is Ok,
        r matches Ok(b) ==> encode_utf8(v@).len() <= u64::MAX && b@ == string_bytes(v@),
{
    bincode::serialize(v)
}

/// `bincode::deserialize` into a `String`.
///
/// Trusted: bincode 1.3 reads a little-endian `u64` count, then that many bytes, and makes a
/// `String` of them with `String::from_utf8`; it fails when `raw` is too short for either part or
/// the bytes are not valid UTF-8; trailing bytes are allowed.
#[verifier::external_body]
pub(crate) fn bincode_deserialize_string(raw: &[u8]) -> (r: Result<String, Box<bincode::ErrorKind>>)
    ensures
        r is Ok <==> string_from_bytes(raw@) is Some,
        r matches Ok(v) ==> string_from_bytes(raw@) == Some(v@),
{
    bincode::deserialize(raw)
}

/// Reading back the 2 bytes of a `u16` gives the `u16`.
pub proof fn lemma_u16_bytes(u: u16)
    ensures
        u16_from_le_bytes(u16_le_bytes(u)) == u,
        u16_le_bytes(u).len() == 2,
{
    let b = u16_le_bytes(u);
    let b0 = u as u8;
    let b1 = (u >> 8u16) as u8;
    assert(b[0] == b0 && b[1] == b1);
    assert(((b0 as u16) | ((b1 as u16) << 8u16)) == u) by (bit_vector)
        requires
            b0 == u as u8,
            b1 == (u >> 8u16) as u8,
    ;
}

/// Reading back the 4 bytes of a `u32` gives the `u32`.
pub proof fn lemma_u32_bytes(u: u32)
    ensures
        u32_from_le_bytes(u32_le_bytes(u)) == u,
        u32_le_bytes(u).len() == 4,
{
    let b = u32_le_bytes(u);
    let b0 = u as u8;
    let b1 = (u >> 8u32) as u8;
    let b2 = (u >> 16u32) as u8;
    let b3 = (u >> 24u32) as u8;
    assert(b[0] == b0 && b[1] == b1 && b[2] == b2 && b[3] == b3);
    assert(((b0 as u32) | ((b1 as u32) << 8u32) | ((b2 as u32) << 16u32) | ((b3 as u32) << 24u32)) == u)
        by (bit_vector)
        requires
            b0 == u as u8,
            b1 == (u >> 8u32) as u8,
            b2 == (u >> 16u32) as u8,
            b3 == (u >> 24u32) as u8,
    ;
}

/// Reading back the 8 bytes of a `u64` gives the `u64`.
pub proof fn lemma_u64_bytes(u: u64)
    ensures
        u64_from_le_bytes(u64_le_bytes(u)) == u,
        u64_le_bytes(u).len() == 8,
{
    let b = u64_le_bytes(u);
    let b0 = u as u8;
    let b1 = (u >> 8u64) as u8;
    let b2 = (u >> 16u64) as u8;
    let b3 = (u >> 24u64) as u8;
    let b4 = (u >> 32u64) as u8;
    let b5 = (u >> 40u64) as u8;
    let b6 = (u >> 48u64) as u8;
    let b7 = (u >> 56u64) as u8;
    assert(b[0] == b0 && b[1] == b1 && b[2] == b2 && b[3] == b3);
    assert(b[4] == b4 && b[5] == b5 && b[6] == b6 && b[7] == b7);
    assert((b0 as u64) | ((b1 as u64) << 8u64) | ((b2 as u64) << 16u64) | ((b3 as u64) << 24u64) | ((
    b4 as u64) << 32u64) | ((b5 as u64) << 40u64) | ((b6 as u64) << 48u64) | ((b7 as u64) << 56u64)
        == u) by (bit_vector)
        requires
            b0 == u as u8,
            b1 == (u >> 8u64) as u8,
            b2 == (u >> 16u64) as u8,
            b3 == (u >> 24u64) as u8,
            b4 == (u >> 32u64) as u8,
            b5 == (u >> 40u64) as u8,
            b6 == (u >> 48u64) as u8,
            b7 == (u >> 56u64) as u8,
    ;
}

/// Reading back the bytes of a string whose UTF-8 count fits in a `u64` gives the string.
pub proof fn lemma_string_bytes(s: Seq<char>)
    requires
        encode_utf8(s).len() <= u64::MAX,
    ensures
        string_from_bytes(string_bytes(s)) == Some(s),
{
    let e = encode_utf8(s);
    let n = e.len() as u64;
    lemma_u64_bytes(n);
    let raw = string_bytes(s);
    assert(raw.subrange(0, 8) =~= u64_le_bytes(n));
    assert(u64_from_le_bytes(raw) == u64_from_le_bytes(u64_le_bytes(n)));
    assert(raw.subrange(8, 8 + n) =~= e);
    vstd::utf8::encode_utf8_valid_utf8(s);
    vstd::utf8::encode_utf8_decode_utf8(s);
}

} // verus!
