//! The chain of candidate decodings, and the mapping of one cell through it.
//!
//! A candidate either does not apply to a column's declared type, which is
//! no failure and hands the cell on to the next candidate, or it applies and
//! then decides the cell: SQL null becomes JSON `null`, a value is decoded,
//! and bytes that are not a value of the type end the mapping with an error.

use crate::decimal::{decimal_string, decimal_text};
use crate::value::{outcome_view, JsonModel, JsonValue, MapError, MapErrorModel};
use crate::wire::{
    accepts_text, be_signed, be_unsigned, decode_bool, decode_char, decode_int2,
    decode_int4, decode_int8, decode_json, decode_oid, decode_text, decode_timestamp,
    decode_timestamptz, decode_inet, inet_text, json_text, le_unsigned, native_u32,
    text_applies, text_read, timestamp_text, timestamptz_text, BOOL_OID, CHAR_OID, FLOAT4_OID,
    FLOAT8_OID, INET_OID, INT2_OID, INT4_OID, INT8_OID, JSONB_OID, JSON_OID, OID_OID,
    TIMESTAMPTZ_OID, TIMESTAMP_OID, XID_OID,
};
use vstd::prelude::*;
use vstd::slice::slice_to_vec;

verus! {

/// One value of a result: the column's declared type, by identifier and name,
/// and the bytes of the value, or `None` for SQL null.
#[derive(Debug, Clone, PartialEq, Eq)]
pub struct Cell {
    pub type_oid: u32,
    pub declared_type: String,
    pub raw: Option<Vec<u8>>,
}

impl Cell {
    /// The bytes of the cell as a sequence.
    pub open spec fn spec_raw(&self) -> Option<Seq<u8>> {
        match self.raw {
            Some(bytes) => Some(bytes@),
            None => None,
        }
    }
}

/// The decodings that yield a JSON value, in the order in which they are
/// tried.
#[derive(Debug, Clone, Copy, PartialEq, Eq)]
pub enum Candidate {
    Text,
    Int8,
    Int4,
    Oid,
    Int2,
    Char,
    Bool,
    Float8,
    Float4,
    TimestampTz,
    Timestamp,
    Inet,
    Json,
    Xid,
}

/// Why an attempt to read a cell as one type gave no value.
#[derive(Debug, Clone, PartialEq, Eq)]
pub enum TryGetError {
    /// The type does not apply to the column. Not a failure of the mapping.
    WrongType,
    /// The type applies, but the bytes are not a value of it.
    Decode { message: String },
}

/// A transaction identifier.
#[derive(Debug, Clone, Copy, PartialEq, Eq)]
pub struct Xid(pub u32);

/// The bytes of a value whose type no candidate decodes, with the name of
/// that type.
#[derive(Debug, Clone, PartialEq, Eq)]
pub struct RawBytes {
    pub declared_type: String,
    pub inner: Vec<u8>,
}

/// The number of candidates in the chain.
pub const CANDIDATES: usize = 14;

/// The candidate at position `i` of the chain.
pub open spec fn candidate(i: int) -> Candidate {
    if i == 0 {
        Candidate::Text
    } else if i == 1 {
        Candidate::Int8
    } else if i == 2 {
        Candidate::Int4
    } else if i == 3 {
        Candidate::Oid
    } else if i == 4 {
        Candidate::Int2
    } else if i == 5 {
        Candidate::Char
    } else if i == 6 {
        Candidate::Bool
    } else if i == 7 {
        Candidate::Float8
    } else if i == 8 {
        Candidate::Float4
    } else if i == 9 {
        Candidate::TimestampTz
    } else if i == 10 {
        Candidate::Timestamp
    } else if i == 11 {
        Candidate::Inet
    } else if i == 12 {
        Candidate::Json
    } else {
        Candidate::Xid
    }
}

/// Whether candidate `c` applies to a column of the type with this identifier
/// and name.
pub open spec fn applies(c: Candidate, oid: u32, name: Seq<char>) -> bool {
    match c {
        Candidate::Text => text_applies(oid, name),
        Candidate::Int8 => oid == INT8_OID,
        Candidate::Int4 => oid == INT4_OID,
        Candidate::Oid => oid == OID_OID,
        Candidate::Int2 => oid == INT2_OID,
        Candidate::Char => oid == CHAR_OID,
        Candidate::Bool => oid == BOOL_OID,
        Candidate::Float8 => oid == FLOAT8_OID,
        Candidate::Float4 => oid == FLOAT4_OID,
        Candidate::TimestampTz => oid == TIMESTAMPTZ_OID,
        Candidate::Timestamp => oid == TIMESTAMP_OID,
        Candidate::Inet => oid == INET_OID,
        Candidate::Json => oid == JSON_OID || oid == JSONB_OID,
        Candidate::Xid => oid == XID_OID,
    }
}

/// `Some(v)` if `present`, else `None`.
pub open spec fn when(present: bool, v: JsonModel) -> Option<JsonModel> {
    if present {
        Some(v)
    } else {
        None
    }
}

/// `Some` of the string as a JSON string, if there is one.
pub open spec fn as_text(read: Option<Seq<char>>) -> Option<JsonModel> {
    match read {
        Some(s) => Some(JsonModel::Text(s)),
        None => None,
    }
}

/// Whether candidate `c`, decoding `raw`, may come out as `out`: a JSON value,
/// or `None` where the bytes are not a value of the type.
///
/// Every candidate but the transaction identifier has exactly one outcome for
/// given bytes. A transaction identifier is read in the byte order of the
/// machine, so either order is allowed for.
pub open spec fn decodes_to(
    c: Candidate,
    oid: u32,
    name: Seq<char>,
    raw: Seq<u8>,
    out: Option<JsonModel>,
) -> bool {
    match c {
        Candidate::Text => out == as_text(text_read(oid, name, raw)),
        Candidate::Int8 => out == when(
            raw.len() == 8,
            JsonModel::Text(decimal_text(be_signed(raw))),
        ),
        Candidate::Int4 => out == when(raw.len() == 4, JsonModel::Number(be_signed(raw))),
        Candidate::Oid => out == when(raw.len() == 4, JsonModel::Number(be_unsigned(raw))),
        Candidate::Int2 => out == when(raw.len() == 2, JsonModel::Number(be_signed(raw))),
        Candidate::Char => out == when(raw.len() == 1, JsonModel::Number(be_signed(raw))),
        Candidate::Bool => out == when(raw.len() == 1, JsonModel::Bool(raw[0] != 0)),
        Candidate::Float8 => out == when(raw.len() == 8, JsonModel::Float8Bits(be_signed(raw))),
        Candidate::Float4 => out == when(
            raw.len() == 4,
            JsonModel::Float4Bits(be_unsigned(raw)),
        ),
        Candidate::TimestampTz => out == as_text(timestamptz_text(raw)),
        Candidate::Timestamp => out == as_text(timestamp_text(raw)),
        Candidate::Inet => out == as_text(inet_text(raw)),
        Candidate::Json => out == match json_text(oid, raw) {
            Some(s) => Some(JsonModel::Document(s)),
            None => None,
        },
        Candidate::Xid => if raw.len() == 4 {
            out == Some(JsonModel::Number(be_unsigned(raw))) || out == Some(
                JsonModel::Number(le_unsigned(raw)),
            )
        } else {
            out is None
        },
    }
}

/// The position of the first candidate from `from` on that applies to the
/// type, or `CANDIDATES` if none does.
pub open spec fn first_applicable(oid: u32, name: Seq<char>, from: int) -> int
    decreases CANDIDATES - from,
{
    if from < 0 || from >= CANDIDATES {
        CANDIDATES as int
    } else if applies(candidate(from), oid, name) {
        from
    } else {
        first_applicable(oid, name, from + 1)
    }
}

/// Whether `out` is an outcome of mapping the cell with this type and these
/// bytes.
///
/// SQL null maps to JSON `null` whatever the type. A value is decided by the
/// first candidate that applies: its decoding, or a decode failure. Where no
/// candidate applies the value is unmappable, and the error carries the type's
/// name and the bytes.
pub open spec fn maps_to(
    oid: u32,
    name: Seq<char>,
    raw: Option<Seq<u8>>,
    out: Result<JsonModel, MapErrorModel>,
) -> bool {
    match raw {
        None => out == Ok::<JsonModel, MapErrorModel>(JsonModel::Null),
        Some(bytes) => {
            let k = first_applicable(oid, name, 0);
            if k < CANDIDATES {
                match out {
                    Ok(v) => decodes_to(candidate(k), oid, name, bytes, Some(v)),
                    Err(e) => e == MapErrorModel::DecodeFailure && decodes_to(
                        candidate(k),
                        oid,
                        name,
                        bytes,
                        None,
                    ),
                }
            } else {
                out == Err::<JsonModel, MapErrorModel>(
                    MapErrorModel::UnmappableType { declared_type: name, raw: bytes },
                )
            }
        },
    }
}

/// The error that mapping the cell ends in, if it ends in one: a decode
/// failure where the first candidate that applies cannot read the bytes, an
/// unmappable type where none applies and the cell holds a value.
pub open spec fn failure_of(oid: u32, name: Seq<char>, raw: Option<Seq<u8>>) -> Option<
    MapErrorModel,
> {
    match raw {
        None => None,
        Some(bytes) => {
            let k = first_applicable(oid, name, 0);
            if k < CANDIDATES {
                if decodes_to(candidate(k), oid, name, bytes, None) {
                    Some(MapErrorModel::DecodeFailure)
                } else {
                    None
                }
            } else {
                Some(MapErrorModel::UnmappableType { declared_type: name, raw: bytes })
            }
        },
    }
}

/// Whether `r` is what one attempt with candidate `c` gives on the cell: a
/// mismatch where `c` does not apply, else `None` for SQL null, else the
/// decoding or its failure.
pub open spec fn attempt_gives(
    c: Candidate,
    oid: u32,
    name: Seq<char>,
    raw: Option<Seq<u8>>,
    r: Result<Option<JsonValue>, TryGetError>,
) -> bool {
    if !applies(c, oid, name) {
        r == Err::<Option<JsonValue>, TryGetError>(TryGetError::WrongType)
    } else {
        match raw {
            None => r == Ok::<Option<JsonValue>, TryGetError>(None),
            Some(bytes) => match r {
                Ok(Some(v)) => decodes_to(c, oid, name, bytes, Some(v@)),
                Ok(None) => false,
                Err(e) => e is Decode && decodes_to(c, oid, name, bytes, None),
            },
        }
    }
}

/// The candidate at position `i` of the chain.
pub fn candidate_at(i: usize) -> (c: Candidate)
    requires
        i < CANDIDATES,
    ensures
        c == candidate(i as int),
{
    if i == 0 {
        Candidate::Text
    } else if i == 1 {
        Candidate::Int8
    } else if i == 2 {
        Candidate::Int4
    } else if i == 3 {
        Candidate::Oid
    } else if i == 4 {
        Candidate::Int2
    } else if i == 5 {
        Candidate::Char
    } else if i == 6 {
        Candidate::Bool
    } else if i == 7 {
        Candidate::Float8
    } else if i == 8 {
        Candidate::Float4
    } else if i == 9 {
        Candidate::TimestampTz
    } else if i == 10 {
        Candidate::Timestamp
    } else if i == 11 {
        Candidate::Inet
    } else if i == 12 {
        Candidate::Json
    } else {
        Candidate::Xid
    }
}

impl Xid {
    /// Whether a column of this type holds transaction identifiers.
    pub fn accepts(oid: u32) -> (b: bool)
        ensures
            b == (oid == XID_OID),
    {
        oid == XID_OID
    }

    /// Reads a transaction identifier from exactly four bytes, in the byte
    /// order of the machine.
    pub fn from_sql(raw: &[u8]) -> (r: Result<Xid, String>)
        ensures
            r is Ok <==> raw@.len() == 4,
            r matches Ok(x) ==> x.0 as int == be_unsigned(raw@) || x.0 as int == le_unsigned(
                raw@,
            ),
            r matches Err(message) ==> message@ == "could not convert slice to array"@,
    {
        if raw.len() == 4 {
            Ok(Xid(native_u32(raw)))
        } else {
            Err("could not convert slice to array".to_string())
        }
    }
}

impl RawBytes {
    /// The catch-all takes every type.
    pub fn accepts(oid: u32) -> (b: bool)
        ensures
            b,
    {
        true
    }

    /// Keeps the bytes and the type's name. This never fails.
    pub fn from_sql(declared_type: &str, raw: &[u8]) -> (r: Result<RawBytes, String>)
        ensures
            r matches Ok(v) && v.declared_type@ == declared_type@ && v.inner@ == raw@,
    {
        Ok(RawBytes { declared_type: declared_type.to_string(), inner: slice_to_vec(raw) })
    }

    /// Reads the cell as raw bytes: `None` for SQL null, else the bytes with
    /// the type's name. The catch-all applies to every type, so this always
    /// succeeds.
    pub fn try_get(cell: &Cell) -> (r: Result<Option<RawBytes>, TryGetError>)
        ensures
            match r {
                Ok(None) => cell.raw is None,
                Ok(Some(v)) => cell.spec_raw() == Some(v.inner@) && v.declared_type@
                    == cell.declared_type@,
                Err(_) => false,
            },
    {
        if !RawBytes::accepts(cell.type_oid) {
            return Err(TryGetError::WrongType);
        }
        match &cell.raw {
            None => Ok(None),
            Some(bytes) => match RawBytes::from_sql(cell.declared_type.as_str(), bytes.as_slice()) {
                Ok(v) => Ok(Some(v)),
                Err(message) => Err(TryGetError::Decode { message }),
            },
        }
    }
}

/// Whether candidate `c` applies to a column of this type.
pub fn accepts(c: Candidate, oid: u32, name: &str) -> (b: bool)
    ensures
        b == applies(c, oid, name@),
{
    match c {
        Candidate::Text => accepts_text(oid, name),
        Candidate::Int8 => oid == INT8_OID,
        Candidate::Int4 => oid == INT4_OID,
        Candidate::Oid => oid == OID_OID,
        Candidate::Int2 => oid == INT2_OID,
        Candidate::Char => oid == CHAR_OID,
        Candidate::Bool => oid == BOOL_OID,
        Candidate::Float8 => oid == FLOAT8_OID,
        Candidate::Float4 => oid == FLOAT4_OID,
        Candidate::TimestampTz => oid == TIMESTAMPTZ_OID,
        Candidate::Timestamp => oid == TIMESTAMP_OID,
        Candidate::Inet => oid == INET_OID,
        Candidate::Json => oid == JSON_OID || oid == JSONB_OID,
        Candidate::Xid => Xid::accepts(oid),
    }
}

/// The view of a decoding: the value, or `None` for a failure.
pub open spec fn decoded_view(r: Result<JsonValue, String>) -> Option<JsonModel> {
    match r {
        Ok(v) => Some(v@),
        Err(_) => None,
    }
}

/// A decoded string as a JSON string; a failure stays the failure it is.
pub fn text_value(read: Result<String, String>) -> (r: Result<JsonValue, String>)
    ensures
        match read {
            Ok(s) => r == Ok::<JsonValue, String>(JsonValue::Text(s)),
            Err(message) => r == Err::<JsonValue, String>(message),
        },
{
    match read {
        Ok(s) => Ok(JsonValue::Text(s)),
        Err(message) => Err(message),
    }
}

/// The text of a decoded document as a JSON document; a failure stays the
/// failure it is.
pub fn document_value(read: Result<String, String>) -> (r: Result<JsonValue, String>)
    ensures
        match read {
            Ok(s) => r == Ok::<JsonValue, String>(JsonValue::Document(s)),
            Err(message) => r == Err::<JsonValue, String>(message),
        },
{
    match read {
        Ok(s) => Ok(JsonValue::Document(s)),
        Err(message) => Err(message),
    }
}

/// Decodes the bytes of a value with candidate `c`, which must be one that
/// the column's type allows: the JSON candidate reads `json` and `jsonb`
/// only.
pub fn from_sql(c: Candidate, oid: u32, name: &str, raw: &[u8]) -> (r: Result<JsonValue, String>)
    requires
        c is Json ==> oid == JSON_OID || oid == JSONB_OID,
    ensures
        decodes_to(c, oid, name@, raw@, decoded_view(r)),
{
    match c {
        Candidate::Text => text_value(decode_text(oid, name, raw)),
        Candidate::Int8 => match decode_int8(raw) {
            Ok(v) => Ok(JsonValue::Text(decimal_string(v))),
            Err(message) => Err(message),
        },
        Candidate::Int4 => match decode_int4(raw) {
            Ok(v) => Ok(JsonValue::Number(v as i64)),
            Err(message) => Err(message),
        },
        Candidate::Oid => match decode_oid(raw) {
            Ok(v) => Ok(JsonValue::Number(v as i64)),
            Err(message) => Err(message),
        },
        Candidate::Int2 => match decode_int2(raw) {
            Ok(v) => Ok(JsonValue::Number(v as i64)),
            Err(message) => Err(message),
        },
        Candidate::Char => match decode_char(raw) {
            Ok(v) => Ok(JsonValue::Number(v as i64)),
            Err(message) => Err(message),
        },
        Candidate::Bool => match decode_bool(raw) {
            Ok(v) => Ok(JsonValue::Bool(v)),
            Err(message) => Err(message),
        },
        Candidate::Float8 => match decode_int8(raw) {
            Ok(v) => Ok(JsonValue::Float8Bits(v)),
            Err(message) => Err(message),
        },
        Candidate::Float4 => match decode_oid(raw) {
            Ok(v) => Ok(JsonValue::Float4Bits(v)),
            Err(message) => Err(message),
        },
        Candidate::TimestampTz => text_value(decode_timestamptz(raw)),
        Candidate::Timestamp => text_value(decode_timestamp(raw)),
        Candidate::Inet => text_value(decode_inet(raw)),
        Candidate::Json => document_value(decode_json(oid, raw)),
        Candidate::Xid => match Xid::from_sql(raw) {
            Ok(x) => Ok(JsonValue::Number(x.0 as i64)),
            Err(message) => Err(message),
        },
    }
}

/// One attempt: reads the cell with candidate `c`.
pub fn try_get(c: Candidate, cell: &Cell) -> (r: Result<Option<JsonValue>, TryGetError>)
    ensures
        attempt_gives(c, cell.type_oid, cell.declared_type@, cell.spec_raw(), r),
{
    if !accepts(c, cell.type_oid, cell.declared_type.as_str()) {
        return Err(TryGetError::WrongType);
    }
    match &cell.raw {
        None => Ok(None),
        Some(bytes) => match from_sql(
            c,
            cell.type_oid,
            cell.declared_type.as_str(),
            bytes.as_slice(),
        ) {
            Ok(v) => Ok(Some(v)),
            Err(message) => Err(TryGetError::Decode { message }),
        },
    }
}

/// Whether the error only says that a candidate does not apply.
pub fn wrong_type(e: &TryGetError) -> (b: bool)
    ensures
        b == (e is WrongType),
{
    match e {
        TryGetError::WrongType => true,
        TryGetError::Decode { .. } => false,
    }
}

/// Lets a mismatch pass, so that the next candidate is tried, and turns every
/// other error into the failure of the mapping.
pub fn handle_type_error(e: TryGetError) -> (r: Result<(), MapError>)
    ensures
        e is WrongType ==> r is Ok,
        e matches TryGetError::Decode { message } ==> r == Err::<(), MapError>(
            MapError::DecodeFailure { message },
        ),
{
    if wrong_type(&e) {
        Ok(())
    } else {
        match e {
            TryGetError::WrongType => Ok(()),
            TryGetError::Decode { message } => Err(MapError::DecodeFailure { message }),
        }
    }
}

/// Maps one cell to its JSON value.
///
/// The candidates are tried in order and the first that applies to the cell's
/// type decides. A cell that none of them takes falls to the catch-all: SQL
/// null is still `null`, a value is an error that names the type and carries
/// the bytes.
pub fn map_type(cell: &Cell) -> (r: Result<JsonValue, MapError>)
    ensures
        maps_to(cell.type_oid, cell.declared_type@, cell.spec_raw(), outcome_view(r)),
        match outcome_view(r) {
            Ok(_) => failure_of(cell.type_oid, cell.declared_type@, cell.spec_raw()) is None,
            Err(e) => failure_of(cell.type_oid, cell.declared_type@, cell.spec_raw()) == Some(e),
        },
{
    let mut i: usize = 0;
    while i < CANDIDATES
        invariant
            i <= CANDIDATES,
            first_applicable(cell.type_oid, cell.declared_type@, 0) == first_applicable(
                cell.type_oid,
                cell.declared_type@,
                i as int,
            ),
        decreases CANDIDATES - i,
    {
        match try_get(candidate_at(i), cell) {
            Ok(Some(v)) => {
                return Ok(v);
            },
            Ok(None) => {
                return Ok(JsonValue::Null);
            },
            Err(e) => match handle_type_error(e) {
                Ok(()) => {},
                Err(failure) => {
                    return Err(failure);
                },
            },
        }
        i += 1;
    }
    match RawBytes::try_get(cell) {
        Ok(Some(unknown)) => Err(
            MapError::UnmappableType { declared_type: unknown.declared_type, raw: unknown.inner },
        ),
        Ok(None) => Ok(JsonValue::Null),
        Err(e) => match handle_type_error(e) {
            Ok(()) => Err(
                MapError::UnmappableType {
                    declared_type: cell.declared_type.clone(),
                    raw: Vec::new(),
                },
            ),
            Err(failure) => Err(failure),
        },
    }
}

/// SQL null maps to JSON `null` and to nothing else, whatever the column's
/// type and wherever in the chain its candidate stands.
pub proof fn law_null_maps_to_null(
    oid: u32,
    name: Seq<char>,
    out: Result<JsonModel, MapErrorModel>,
)
    ensures
        maps_to(oid, name, None, out) <==> out == Ok::<JsonModel, MapErrorModel>(JsonModel::Null),
        failure_of(oid, name, None) is None,
{
}

/// No two candidates apply to the same type.
pub proof fn law_candidates_exclusive(oid: u32, name: Seq<char>, i: int, j: int)
    requires
        0 <= i < j < CANDIDATES,
    ensures
        !(applies(candidate(i), oid, name) && applies(candidate(j), oid, name)),
{
}

/// The order of the chain does not matter to the outcome: a candidate that
/// applies to a type is the one that decides it, wherever it stands.
pub proof fn law_applicable_candidate_decides(oid: u32, name: Seq<char>, k: int)
    requires
        0 <= k < CANDIDATES,
        applies(candidate(k), oid, name),
    ensures
        first_applicable(oid, name, 0) == k,
{
    reveal_with_fuel(first_applicable, 15);
    assert forall|i: int| 0 <= i < k implies !applies(candidate(i), oid, name) by {
        law_candidates_exclusive(oid, name, i, k);
    }
}

/// What a value maps to is what the candidate that applies to its type
/// decodes, and a failure of that candidate is the failure of the mapping.
pub proof fn law_value_by_candidate(
    oid: u32,
    name: Seq<char>,
    bytes: Seq<u8>,
    out: Result<JsonModel, MapErrorModel>,
    k: int,
)
    requires
        0 <= k < CANDIDATES,
        applies(candidate(k), oid, name),
        maps_to(oid, name, Some(bytes), out),
    ensures
        match out {
            Ok(v) => decodes_to(candidate(k), oid, name, bytes, Some(v)),
            Err(e) => e == MapErrorModel::DecodeFailure && decodes_to(
                candidate(k),
                oid,
                name,
                bytes,
                None,
            ),
        },
{
    law_applicable_candidate_decides(oid, name, k);
}

/// Mapping has one outcome for a cell, but for a value of a transaction
/// identifier, which is read in the byte order of the machine.
pub proof fn law_outcome_is_unique(
    oid: u32,
    name: Seq<char>,
    raw: Option<Seq<u8>>,
    a: Result<JsonModel, MapErrorModel>,
    b: Result<JsonModel, MapErrorModel>,
)
    requires
        oid != XID_OID,
        maps_to(oid, name, raw, a),
        maps_to(oid, name, raw, b),
    ensures
        a == b,
{
    reveal_with_fuel(first_applicable, 15);
}

/// A column of 32-bit integers is never written as a string: its value is the
/// JSON number that its four bytes spell, and anything else is a failure.
pub proof fn law_int4_is_a_number(
    name: Seq<char>,
    bytes: Seq<u8>,
    out: Result<JsonModel, MapErrorModel>,
)
    requires
        maps_to(INT4_OID, name, Some(bytes), out),
    ensures
        bytes.len() == 4 ==> out == Ok::<JsonModel, MapErrorModel>(
            JsonModel::Number(be_signed(bytes)),
        ),
        bytes.len() != 4 ==> out == Err::<JsonModel, MapErrorModel>(MapErrorModel::DecodeFailure),
{
    law_applicable_candidate_decides(INT4_OID, name, 2);
}

/// A column of 64-bit integers is written as a JSON string that holds the
/// number in decimal.
pub proof fn law_int8_is_decimal_text(
    name: Seq<char>,
    bytes: Seq<u8>,
    out: Result<JsonModel, MapErrorModel>,
)
    requires
        maps_to(INT8_OID, name, Some(bytes), out),
    ensures
        bytes.len() == 8 ==> out == Ok::<JsonModel, MapErrorModel>(
            JsonModel::Text(decimal_text(be_signed(bytes))),
        ),
        bytes.len() != 8 ==> out == Err::<JsonModel, MapErrorModel>(MapErrorModel::DecodeFailure),
{
    law_applicable_candidate_decides(INT8_OID, name, 1);
}

/// The JSON shape of every value that maps: a string for text, 64-bit
/// integers, timestamps and addresses; a boolean for `bool`; a document for
/// `json` and `jsonb`; the bits of the float for the two float types; an
/// integer number for the rest.
pub proof fn law_documented_shape(oid: u32, name: Seq<char>, bytes: Seq<u8>, v: JsonModel)
    requires
        maps_to(oid, name, Some(bytes), Ok(v)),
    ensures
        first_applicable(oid, name, 0) < CANDIDATES,
        text_applies(oid, name) || oid == INT8_OID || oid == TIMESTAMP_OID || oid
            == TIMESTAMPTZ_OID || oid == INET_OID <==> v is Text,
        oid == INT4_OID || oid == OID_OID || oid == INT2_OID || oid == CHAR_OID || oid == XID_OID
            <==> v is Number,
        oid == BOOL_OID <==> v is Bool,
        oid == FLOAT8_OID <==> v is Float8Bits,
        oid == FLOAT4_OID <==> v is Float4Bits,
        oid == JSON_OID || oid == JSONB_OID <==> v is Document,
        !(v is Null),
{
    let k = first_applicable(oid, name, 0);
    reveal_with_fuel(first_applicable, 15);
    assert(0 <= k < CANDIDATES);
    assert(applies(candidate(k), oid, name));
}

/// A type that no candidate takes: a value of it is unmappable, and the error
/// names the type and carries the bytes; SQL null of it is still `null`.
pub proof fn law_unsupported_type(
    oid: u32,
    name: Seq<char>,
    raw: Option<Seq<u8>>,
    out: Result<JsonModel, MapErrorModel>,
)
    requires
        forall|i: int| 0 <= i < CANDIDATES ==> !applies(candidate(i), oid, name),
        maps_to(oid, name, raw, out),
    ensures
        match raw {
            None => out == Ok::<JsonModel, MapErrorModel>(JsonModel::Null),
            Some(bytes) => out == Err::<JsonModel, MapErrorModel>(
                MapErrorModel::UnmappableType { declared_type: name, raw: bytes },
            ),
        },
{
    reveal_with_fuel(first_applicable, 15);
}

/// An outcome is an error exactly if it is the failure of the cell, so a cell
/// either maps or fails, never both.
pub proof fn law_failure_is_decided(
    oid: u32,
    name: Seq<char>,
    raw: Option<Seq<u8>>,
    out: Result<JsonModel, MapErrorModel>,
)
    requires
        maps_to(oid, name, raw, out),
    ensures
        match out {
            Ok(_) => failure_of(oid, name, raw) is None,
            Err(e) => failure_of(oid, name, raw) == Some(e),
        },
{
}

} // verus!
