//! The wire side of a cell: type identifiers, byte layouts, and the decoders
//! of the PostgreSQL client library.
//!
//! The decoders are called, not rebuilt. Each wrapper below states what the
//! client library's decoder does with the bytes; none of these statements is
//! proved here.

use postgres::types::{FromSql, Json, Kind, Type};
use vstd::prelude::*;
use vstd::utf8::{decode_utf8, valid_utf8};

verus! {

pub const BOOL_OID: u32 = 16;
pub const CHAR_OID: u32 = 18;
pub const NAME_OID: u32 = 19;
pub const INT8_OID: u32 = 20;
pub const INT2_OID: u32 = 21;
pub const INT4_OID: u32 = 23;
pub const TEXT_OID: u32 = 25;
pub const OID_OID: u32 = 26;
pub const XID_OID: u32 = 28;
pub const JSON_OID: u32 = 114;
pub const FLOAT4_OID: u32 = 700;
pub const FLOAT8_OID: u32 = 701;
pub const UNKNOWN_OID: u32 = 705;
pub const INET_OID: u32 = 869;
pub const BPCHAR_OID: u32 = 1042;
pub const VARCHAR_OID: u32 = 1043;
pub const TIMESTAMP_OID: u32 = 1114;
pub const TIMESTAMPTZ_OID: u32 = 1184;
pub const JSONB_OID: u32 = 3802;

/// The built-in types whose values are plain text.
pub open spec fn is_text_oid(oid: u32) -> bool {
    oid == VARCHAR_OID || oid == TEXT_OID || oid == BPCHAR_OID || oid == NAME_OID || oid
        == UNKNOWN_OID
}

/// The built-in types that a candidate other than the text one decodes.
pub open spec fn is_scalar_oid(oid: u32) -> bool {
    oid == BOOL_OID || oid == CHAR_OID || oid == INT8_OID || oid == INT2_OID || oid == INT4_OID
        || oid == OID_OID || oid == XID_OID || oid == JSON_OID || oid == JSONB_OID || oid
        == FLOAT4_OID || oid == FLOAT8_OID || oid == INET_OID || oid == TIMESTAMP_OID || oid
        == TIMESTAMPTZ_OID
}

/// The number that `bytes` spell, most significant byte first.
pub open spec fn be_unsigned(bytes: Seq<u8>) -> int
    decreases bytes.len(),
{
    if bytes.len() == 0 {
        0
    } else {
        256 * be_unsigned(bytes.drop_last()) + bytes.last() as int
    }
}

/// The number that `bytes` spell, least significant byte first.
pub open spec fn le_unsigned(bytes: Seq<u8>) -> int
    decreases bytes.len(),
{
    if bytes.len() == 0 {
        0
    } else {
        bytes.first() as int + 256 * le_unsigned(bytes.drop_first())
    }
}

/// 256 to the power `n`.
pub open spec fn radix_pow(n: nat) -> int
    decreases n,
{
    if n == 0 {
        1
    } else {
        256 * radix_pow((n - 1) as nat)
    }
}

/// The two's-complement number that `bytes` spell, most significant byte
/// first.
pub open spec fn be_signed(bytes: Seq<u8>) -> int {
    if bytes.len() > 0 && bytes.first() >= 128 {
        be_unsigned(bytes) - radix_pow(bytes.len())
    } else {
        be_unsigned(bytes)
    }
}

/// Whether the client library's text decoder takes a column of the type with
/// this identifier and name.
pub uninterp spec fn text_accepts(oid: u32, name: Seq<char>) -> bool;

/// The string that the client library's text decoder reads from `raw` for a
/// column of this type, if it reads one.
pub uninterp spec fn text_of(oid: u32, name: Seq<char>, raw: Seq<u8>) -> Option<Seq<char>>;

/// The serialized date and time that `raw` holds as a `timestamp`, if it
/// holds one.
pub uninterp spec fn timestamp_text(raw: Seq<u8>) -> Option<Seq<char>>;

/// The serialized UTC date and time that `raw` holds as a `timestamptz`, if
/// it holds one.
pub uninterp spec fn timestamptz_text(raw: Seq<u8>) -> Option<Seq<char>>;

/// The written form of the address that `raw` holds as an `inet`, if it
/// holds one.
pub uninterp spec fn inet_text(raw: Seq<u8>) -> Option<Seq<char>>;

/// The compact text of the JSON document that `raw` holds as a `json` or
/// `jsonb` value, if it holds one.
pub uninterp spec fn json_text(oid: u32, raw: Seq<u8>) -> Option<Seq<char>>;

/// Whether the text candidate takes a column of this type: each built-in text
/// type, no built-in type that another candidate decodes, and of the rest
/// those that the client library's text decoder takes.
pub open spec fn text_applies(oid: u32, name: Seq<char>) -> bool {
    is_text_oid(oid) || (!is_scalar_oid(oid) && text_accepts(oid, name))
}

/// The string of a text cell, if its bytes hold one: for a built-in text type
/// the characters that the bytes encode in UTF-8, for another type what the
/// client library's text decoder reads.
pub open spec fn text_read(oid: u32, name: Seq<char>, raw: Seq<u8>) -> Option<Seq<char>> {
    if is_text_oid(oid) {
        if valid_utf8(raw) {
            Some(decode_utf8(raw))
        } else {
            None
        }
    } else {
        text_of(oid, name, raw)
    }
}

/// What a named decoder read, against what the call returned.
pub open spec fn reads(named: Option<Seq<char>>, r: Result<String, String>) -> bool {
    match r {
        Ok(s) => named == Some(s@),
        Err(_) => named is None,
    }
}

/// `<&str as FromSql>::accepts`, asked of the type that the client library
/// has for this identifier: the built-in one if there is one, else a type of
/// this name. The built-in text types are taken; every built-in type that
/// another candidate decodes is not.
#[verifier::external_body]
pub(crate) fn accepts_text(oid: u32, name: &str) -> (b: bool)
    ensures
        b == (is_text_oid(oid) || (!is_scalar_oid(oid) && text_accepts(oid, name@))),
{
    let ty = match Type::from_oid(oid) {
        Some(ty) => ty,
        None => Type::new(name.to_string(), oid, Kind::Simple, String::new()),
    };
    <&str as FromSql>::accepts(&ty)
}

/// `<&str as FromSql>::from_sql` for the same type as in [`accepts_text`],
/// copied into a `String`. For the built-in text types the decoder is
/// `str::from_utf8`: it succeeds exactly on valid UTF-8 and yields the
/// characters that the bytes encode.
#[verifier::external_body]
pub(crate) fn decode_text(oid: u32, name: &str, raw: &[u8]) -> (r: Result<String, String>)
    ensures
        is_text_oid(oid) ==> reads(
            if valid_utf8(raw@) {
                Some(decode_utf8(raw@))
            } else {
                None
            },
            r,
        ),
        !is_text_oid(oid) ==> reads(text_of(oid, name@, raw@), r),
{
    let ty = match Type::from_oid(oid) {
        Some(ty) => ty,
        None => Type::new(name.to_string(), oid, Kind::Simple, String::new()),
    };
    match <&str as FromSql>::from_sql(&ty, raw) {
        Ok(s) => Ok(s.to_string()),
        Err(e) => Err(e.to_string()),
    }
}

/// `<i64 as FromSql>::from_sql`: exactly eight bytes, read big-endian as a
/// signed integer.
#[verifier::external_body]
pub(crate) fn decode_int8(raw: &[u8]) -> (r: Result<i64, String>)
    ensures
        r is Ok <==> raw@.len() == 8,
        r matches Ok(v) ==> v as int == be_signed(raw@),
{
    match <i64 as FromSql>::from_sql(&Type::INT8, raw) {
        Ok(v) => Ok(v),
        Err(e) => Err(e.to_string()),
    }
}

/// `<i32 as FromSql>::from_sql`: exactly four bytes, read big-endian as a
/// signed integer.
#[verifier::external_body]
pub(crate) fn decode_int4(raw: &[u8]) -> (r: Result<i32, String>)
    ensures
        r is Ok <==> raw@.len() == 4,
        r matches Ok(v) ==> v as int == be_signed(raw@),
{
    match <i32 as FromSql>::from_sql(&Type::INT4, raw) {
        Ok(v) => Ok(v),
        Err(e) => Err(e.to_string()),
    }
}

/// `<u32 as FromSql>::from_sql`: exactly four bytes, read big-endian as an
/// unsigned integer.
#[verifier::external_body]
pub(crate) fn decode_oid(raw: &[u8]) -> (r: Result<u32, String>)
    ensures
        r is Ok <==> raw@.len() == 4,
        r matches Ok(v) ==> v as int == be_unsigned(raw@),
{
    match <u32 as FromSql>::from_sql(&Type::OID, raw) {
        Ok(v) => Ok(v),
        Err(e) => Err(e.to_string()),
    }
}

/// `<i16 as FromSql>::from_sql`: exactly two bytes, read big-endian as a
/// signed integer.
#[verifier::external_body]
pub(crate) fn decode_int2(raw: &[u8]) -> (r: Result<i16, String>)
    ensures
        r is Ok <==> raw@.len() == 2,
        r matches Ok(v) ==> v as int == be_signed(raw@),
{
    match <i16 as FromSql>::from_sql(&Type::INT2, raw) {
        Ok(v) => Ok(v),
        Err(e) => Err(e.to_string()),
    }
}

/// `<i8 as FromSql>::from_sql`: exactly one byte, read as a signed integer.
#[verifier::external_body]
pub(crate) fn decode_char(raw: &[u8]) -> (r: Result<i8, String>)
    ensures
        r is Ok <==> raw@.len() == 1,
        r matches Ok(v) ==> v as int == be_signed(raw@),
{
    match <i8 as FromSql>::from_sql(&Type::CHAR, raw) {
        Ok(v) => Ok(v),
        Err(e) => Err(e.to_string()),
    }
}

/// `<bool as FromSql>::from_sql`: exactly one byte, true unless it is zero.
#[verifier::external_body]
pub(crate) fn decode_bool(raw: &[u8]) -> (r: Result<bool, String>)
    ensures
        r is Ok <==> raw@.len() == 1,
        r matches Ok(v) ==> v == (raw@[0] != 0),
{
    match <bool as FromSql>::from_sql(&Type::BOOL, raw) {
        Ok(v) => Ok(v),
        Err(e) => Err(e.to_string()),
    }
}

/// `<chrono::NaiveDateTime as FromSql>::from_sql`, then the string that
/// chrono's `Serialize` gives the value in `serde_json::to_value`. Both
/// depend on the bytes alone.
#[verifier::external_body]
pub(crate) fn decode_timestamp(raw: &[u8]) -> (r: Result<String, String>)
    ensures
        reads(timestamp_text(raw@), r),
{
    match <chrono::NaiveDateTime as FromSql>::from_sql(&Type::TIMESTAMP, raw) {
        Ok(t) => match serde_json::to_value(&t) {
            Ok(serde_json::Value::String(s)) => Ok(s),
            Ok(other) => Ok(other.to_string()),
            Err(e) => Err(e.to_string()),
        },
        Err(e) => Err(e.to_string()),
    }
}

/// `<chrono::DateTime<chrono::Utc> as FromSql>::from_sql`, then the string
/// that chrono's `Serialize` gives the value in `serde_json::to_value`. Both
/// depend on the bytes alone.
#[verifier::external_body]
pub(crate) fn decode_timestamptz(raw: &[u8]) -> (r: Result<String, String>)
    ensures
        reads(timestamptz_text(raw@), r),
{
    match <chrono::DateTime<chrono::Utc> as FromSql>::from_sql(&Type::TIMESTAMPTZ, raw) {
        Ok(t) => match serde_json::to_value(&t) {
            Ok(serde_json::Value::String(s)) => Ok(s),
            Ok(other) => Ok(other.to_string()),
            Err(e) => Err(e.to_string()),
        },
        Err(e) => Err(e.to_string()),
    }
}

/// `<std::net::IpAddr as FromSql>::from_sql`, then the string that serde's
/// `Serialize` gives the address in `serde_json::to_value`. Both depend on
/// the bytes alone.
#[verifier::external_body]
pub(crate) fn decode_inet(raw: &[u8]) -> (r: Result<String, String>)
    ensures
        reads(inet_text(raw@), r),
{
    match <core::net::IpAddr as FromSql>::from_sql(&Type::INET, raw) {
        Ok(a) => match serde_json::to_value(&a) {
            Ok(serde_json::Value::String(s)) => Ok(s),
            Ok(other) => Ok(other.to_string()),
            Err(e) => Err(e.to_string()),
        },
        Err(e) => Err(e.to_string()),
    }
}

/// `<Json<serde_json::Value> as FromSql>::from_sql` for the built-in type
/// with this identifier, then the parsed document written compactly by
/// `serde_json`. Both depend on the identifier and the bytes alone.
#[verifier::external_body]
pub(crate) fn decode_json(oid: u32, raw: &[u8]) -> (r: Result<String, String>)
    requires
        oid == JSON_OID || oid == JSONB_OID,
    ensures
        reads(json_text(oid, raw@), r),
{
    let ty = Type::from_oid(oid).unwrap_or(Type::JSON);
    match <Json<serde_json::Value> as FromSql>::from_sql(&ty, raw) {
        Ok(doc) => Ok(doc.0.to_string()),
        Err(e) => Err(e.to_string()),
    }
}

/// `u32::from_ne_bytes`: the four bytes in the byte order of the machine,
/// which is one of the two.
#[verifier::external_body]
pub(crate) fn native_u32(raw: &[u8]) -> (v: u32)
    requires
        raw@.len() == 4,
    ensures
        v as int == be_unsigned(raw@) || v as int == le_unsigned(raw@),
{
    u32::from_ne_bytes([raw[0], raw[1], raw[2], raw[3]])
}

} // verus!
