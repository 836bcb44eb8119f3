//! Turns the cells of a database result into JSON values.
//!
//! A cell is a declared wire type and, unless it is SQL null, the bytes the
//! server sent. [`mapping::map_type`] walks a fixed chain of candidate
//! decodings and yields the JSON value of the first one that applies;
//! [`record`] gathers the mapped cells of a result into one output record.

pub mod config;
pub mod decimal;
pub mod mapping;
pub mod record;
pub mod value;
pub mod wire;
