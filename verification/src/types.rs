//! The closed set of column types whose precision and scale rules this
//! library models.
//!
//! The full type catalog lives outside this subsystem; a caller resolves a
//! protocol type identifier against that catalog and hands this library one
//! of the variants below. Every type without a fixed precision or scale rule
//! is carried as [`Type::Other`] with its raw object identifier.

use vstd::prelude::*;

verus! {

/// A resolved column type, as far as the metadata rules care.
///
/// Each variant with a rule of its own corresponds to one PostgreSQL type;
/// [`Type::Other`] stands for every remaining type and keeps that type's
/// object identifier.
#[derive(Clone, Copy, Debug, PartialEq, Eq, Structural)]
pub enum Type {
    /// 2-byte integer (`int2`).
    Int2,
    /// 4-byte integer (`int4`).
    Int4,
    /// 8-byte integer (`int8`).
    Int8,
    /// Object identifier (`oid`).
    Oid,
    /// 4-byte floating point (`float4`).
    Float4,
    /// 8-byte floating point (`float8`).
    Float8,
    /// Arbitrary-precision decimal (`numeric`).
    Numeric,
    /// Single-byte character (`"char"`).
    Char,
    /// Boolean (`bool`).
    Bool,
    /// Blank-padded character (`bpchar`).
    Bpchar,
    /// Variable-length character (`varchar`).
    Varchar,
    /// Calendar date (`date`).
    Date,
    /// Time of day without time zone (`time`).
    Time,
    /// Time of day with time zone (`timetz`).
    Timetz,
    /// Date and time without time zone (`timestamp`).
    Timestamp,
    /// Date and time with time zone (`timestamptz`).
    Timestamptz,
    /// Time interval (`interval`).
    Interval,
    /// Fixed-length bit string (`bit`).
    Bit,
    /// Variable-length bit string (`varbit`).
    Varbit,
    /// Any other type, carrying its object identifier.
    Other(u32),
}

} // verus!
