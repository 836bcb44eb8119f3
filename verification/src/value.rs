//! JSON values as the mapping produces them, and the ways a mapping fails.

use vstd::prelude::*;

verus! {

/// The JSON value of one cell.
///
/// Floating-point cells are carried as their IEEE-754 bit pattern, so that no
/// precision is lost before the value is written out. A native JSON cell is
/// carried as the compact text of the document it holds.
#[derive(Debug, Clone, PartialEq, Eq)]
pub enum JsonValue {
    /// JSON `null`.
    Null,
    /// A JSON boolean.
    Bool(bool),
    /// A JSON number with an integer value.
    Number(i64),
    /// A JSON number given as the bits of a binary64 float, read as a signed
    /// 64-bit integer.
    Float8Bits(i64),
    /// A JSON number given as the bits of a binary32 float.
    Float4Bits(u32),
    /// A JSON string.
    Text(String),
    /// A JSON document, embedded as it is rather than as a string.
    Document(String),
}

/// What a [`JsonValue`] stands for in contracts.
pub enum JsonModel {
    Null,
    Bool(bool),
    Number(int),
    Float8Bits(int),
    Float4Bits(int),
    Text(Seq<char>),
    Document(Seq<char>),
}

impl View for JsonValue {
    type V = JsonModel;

    open spec fn view(&self) -> JsonModel {
        match self {
            JsonValue::Null => JsonModel::Null,
            JsonValue::Bool(b) => JsonModel::Bool(*b),
            JsonValue::Number(n) => JsonModel::Number(*n as int),
            JsonValue::Float8Bits(n) => JsonModel::Float8Bits(*n as int),
            JsonValue::Float4Bits(n) => JsonModel::Float4Bits(*n as int),
            JsonValue::Text(s) => JsonModel::Text(s@),
            JsonValue::Document(s) => JsonModel::Document(s@),
        }
    }
}

impl JsonValue {
    /// A copy of the value.
    pub fn duplicate(&self) -> (r: JsonValue)
        ensures
            r@ == self@,
    {
        match self {
            JsonValue::Null => JsonValue::Null,
            JsonValue::Bool(b) => JsonValue::Bool(*b),
            JsonValue::Number(n) => JsonValue::Number(*n),
            JsonValue::Float8Bits(n) => JsonValue::Float8Bits(*n),
            JsonValue::Float4Bits(n) => JsonValue::Float4Bits(*n),
            JsonValue::Text(s) => JsonValue::Text(s.clone()),
            JsonValue::Document(s) => JsonValue::Document(s.clone()),
        }
    }
}

/// Why a cell could not be mapped. Either one ends the query it occurs in.
#[derive(Debug, Clone, PartialEq, Eq)]
pub enum MapError {
    /// A candidate applied to the cell's type, but the bytes are not a value
    /// of that type. `message` is the decoder's own description.
    DecodeFailure { message: String },
    /// No candidate applies to the cell's type and the cell holds a value.
    UnmappableType { declared_type: String, raw: Vec<u8> },
}

/// What a [`MapError`] stands for in contracts. The wording of a decoder's
/// message is not part of it.
pub enum MapErrorModel {
    DecodeFailure,
    UnmappableType { declared_type: Seq<char>, raw: Seq<u8> },
}

impl View for MapError {
    type V = MapErrorModel;

    open spec fn view(&self) -> MapErrorModel {
        match self {
            MapError::DecodeFailure { message } => MapErrorModel::DecodeFailure,
            MapError::UnmappableType { declared_type, raw } => MapErrorModel::UnmappableType {
                declared_type: declared_type@,
                raw: raw@,
            },
        }
    }
}

/// The outcome of a mapping as contracts see it.
pub open spec fn outcome_view(r: Result<JsonValue, MapError>) -> Result<JsonModel, MapErrorModel> {
    match r {
        Ok(v) => Ok(v@),
        Err(e) => Err(e@),
    }
}

} // verus!
