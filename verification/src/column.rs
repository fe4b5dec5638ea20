//! Column metadata: deriving precision and scale from a type and its raw
//! type modifier.
//!
//! The modifier is a signed 32-bit value whose meaning depends on the type;
//! `-1` is the universal "no modifier / unbounded" sentinel. All masking and
//! shifting follows PostgreSQL's own conventions: the arithmetic is performed
//! on the signed value in two's complement and the result is read back as an
//! unsigned width, so the specifications below work on the unsigned 32-bit
//! image of the modifier with wrapping arithmetic.

use vstd::prelude::*;

use crate::types::Type;
use vstd::wrapping::i32_specs;
use vstd::wrapping::u32_specs;

verus! {

/// The two's-complement image of a signed 32-bit value: its bit pattern read
/// as unsigned.
pub open spec fn unsigned32(m: i32) -> u32 {
    ((m as int) % 0x1_0000_0000) as u32
}

/// Fractional-second digit width encoded by a time or timestamp modifier:
/// `-1` (unconstrained) counts as the full 7 character positions, `0` as
/// none, and `1` as 3 — the server prints at least two fractional digits
/// plus the decimal point whenever any are asked for. Every other value `x`
/// takes `x + 1` positions (the digits and the decimal point).
pub open spec fn spec_second_size(m: i32) -> i32 {
    if m == -1 {
        7
    } else if m == 0 {
        0
    } else if m == 1 {
        3
    } else {
        i32_specs::wrapping_add(m, 1)
    }
}

/// Precision of a constrained decimal: the high 16 bits of `modifier - 4`,
/// shifted down as the signed value is (arithmetically, so a negative
/// difference sign-extends) and read back as unsigned.
pub open spec fn spec_numeric_precision(m: i32) -> u32 {
    let masked = u32_specs::wrapping_sub(unsigned32(m), 4) & 0xFFFF_0000u32;
    if masked >= 0x8000_0000u32 {
        (masked >> 16u32) | 0xFFFF_0000u32
    } else {
        masked >> 16u32
    }
}

/// Scale of a constrained decimal: the low 16 bits of `modifier - 4`.
pub open spec fn spec_numeric_scale(m: i32) -> u32 {
    u32_specs::wrapping_sub(unsigned32(m), 4) & 0xFFFFu32
}

/// Declared character length: `modifier - 4`, read back as unsigned.
pub open spec fn spec_char_length(m: i32) -> u32 {
    u32_specs::wrapping_sub(unsigned32(m), 4)
}

/// Total significant character positions a value of type `t` with modifier
/// `m` can take; `None` means unbounded or not applicable.
pub open spec fn spec_precision(t: Type, m: i32) -> Option<u32> {
    match t {
        Type::Int2 => Some(5u32),
        Type::Oid => Some(10u32),
        Type::Int4 => Some(10u32),
        Type::Int8 => Some(19u32),
        Type::Float4 => Some(8u32),
        Type::Float8 => Some(17u32),
        Type::Numeric => if m == -1 {
            None
        } else {
            Some(spec_numeric_precision(m))
        },
        Type::Char => Some(1u32),
        Type::Bool => Some(1u32),
        Type::Bpchar | Type::Varchar => if m == -1 {
            None
        } else {
            Some(spec_char_length(m))
        },
        Type::Date => Some(13u32),
        Type::Time => Some(unsigned32(i32_specs::wrapping_add(spec_second_size(m), 8))),
        Type::Timetz => Some(
            unsigned32(i32_specs::wrapping_add(i32_specs::wrapping_add(spec_second_size(m), 8), 6)),
        ),
        Type::Timestamp => Some(unsigned32(i32_specs::wrapping_add(spec_second_size(m), 22))),
        Type::Timestamptz => Some(unsigned32(i32_specs::wrapping_add(spec_second_size(m), 26))),
        Type::Interval => Some(49u32),
        Type::Bit => Some(unsigned32(m)),
        Type::Varbit => if m == -1 {
            None
        } else {
            Some(unsigned32(m))
        },
        Type::Other(_) => None,
    }
}

/// Fractional digits a value of type `t` with modifier `m` carries; `None`
/// means not applicable. The floating-point figures mirror their precision,
/// a quirk of the modeled type system kept for compatibility.
pub open spec fn spec_scale(t: Type, m: i32) -> Option<u32> {
    match t {
        Type::Float4 => Some(8u32),
        Type::Float8 => Some(17u32),
        Type::Numeric => if m == -1 {
            Some(0u32)
        } else {
            Some(spec_numeric_scale(m))
        },
        Type::Time | Type::Timetz | Type::Timestamp | Type::Timestamptz => if m == -1 {
            Some(6u32)
        } else {
            Some(unsigned32(m))
        },
        Type::Interval => if m == -1 {
            Some(6u32)
        } else {
            Some(unsigned32(m) & 0xFFFFu32)
        },
        _ => None,
    }
}

/// Law: precision and scale are pure functions of the type and the
/// modifier — two columns that agree on those agree on both figures,
/// whatever their names, and nothing else enters.
pub proof fn lemma_metadata_is_pure(a: Column, b: Column)
    requires
        a.type_ == b.type_,
        a.type_modifier == b.type_modifier,
    ensures
        spec_precision(a.type_, a.type_modifier) == spec_precision(b.type_, b.type_modifier),
        spec_scale(a.type_, a.type_modifier) == spec_scale(b.type_, b.type_modifier),
{
}

/// Information about a column of a query: its label, resolved type, and the
/// raw type modifier from the protocol's row description.
#[derive(Debug)]
pub struct Column {
    /// Result column label as reported by the server.
    pub name: String,
    /// Resolved type descriptor.
    pub type_: Type,
    /// Raw type-specific modifier; `-1` means unconstrained.
    pub type_modifier: i32,
}

/// The bit pattern of `m` read as an unsigned 32-bit value.
fn reinterpret_unsigned(m: i32) -> (r: u32)
    ensures
        r == unsigned32(m),
{
    proof {
        assert(m as u32 == ((m as int) % 0x1_0000_0000) as u32) by (bit_vector);
    }
    #[verifier::truncate] (m as u32)
}

impl Column {
    /// Records one already-decoded result column.
    pub fn new(name: String, type_: Type, type_modifier: i32) -> (c: Column)
        ensures
            c.name@ == name@,
            c.type_ == type_,
            c.type_modifier == type_modifier,
    {
        Column { name, type_, type_modifier }
    }

    /// Returns the name of the column.
    pub fn name(&self) -> (r: &str)
        ensures
            r@ == self.name@,
    {
        self.name.as_str()
    }

    /// Returns the type of the column.
    pub fn type_(&self) -> (r: &Type)
        ensures
            *r == self.type_,
    {
        &self.type_
    }

    /// Returns the precision of the column, or `None` where the type is
    /// unbounded or has no precision figure.
    pub fn precision(&self) -> (r: Option<u32>)
        ensures
            r == spec_precision(self.type_, self.type_modifier),
    {
        let m = self.type_modifier;
        match self.type_ {
            Type::Int2 => Some(5),  // -32768 to +32767
            Type::Oid => Some(10),
            Type::Int4 => Some(10),  // -2147483648 to +2147483647
            Type::Int8 => Some(19),  // up to 19 significant digits
            // Floating-point output can carry up to two extra digits beyond
            // the 6 or 15 that are always significant.
            Type::Float4 => Some(8),
            Type::Float8 => Some(17),
            Type::Numeric => {
                if m == -1 {
                    None
                } else {
                    let masked = reinterpret_unsigned(m).wrapping_sub(4) & 0xFFFF_0000;
                    if masked >= 0x8000_0000 {
                        Some((masked >> 16) | 0xFFFF_0000)
                    } else {
                        Some(masked >> 16)
                    }
                }
            },
            Type::Char => Some(1),
            Type::Bool => Some(1),
            Type::Bpchar | Type::Varchar => {
                if m == -1 {
                    None
                } else {
                    Some(reinterpret_unsigned(m).wrapping_sub(4))
                }
            },
            Type::Date => Some(13),  // "5874897-12-31" in the worst case
            // Worst cases: time "00:00:00" is 8 positions, a date 13, a zone
            // offset 6, and the fractional seconds come from the modifier.
            Type::Time => {
                let second_size = Column::type_modifier_to_second_size(m);
                Some(reinterpret_unsigned(second_size.wrapping_add(8)))
            },
            Type::Timetz => {
                let second_size = Column::type_modifier_to_second_size(m);
                Some(reinterpret_unsigned(second_size.wrapping_add(8).wrapping_add(6)))
            },
            Type::Timestamp => {
                let second_size = Column::type_modifier_to_second_size(m);
                Some(reinterpret_unsigned(second_size.wrapping_add(22)))
            },
            Type::Timestamptz => {
                let second_size = Column::type_modifier_to_second_size(m);
                Some(reinterpret_unsigned(second_size.wrapping_add(26)))
            },
            Type::Interval => Some(49),
            Type::Bit => Some(reinterpret_unsigned(m)),
            Type::Varbit => {
                if m == -1 {
                    None
                } else {
                    Some(reinterpret_unsigned(m))
                }
            },
            Type::Other(_) => None,
        }
    }

    /// Returns the scale of the column, or `None` where the type has no
    /// scale figure.
    pub fn scale(&self) -> (r: Option<u32>)
        ensures
            r == spec_scale(self.type_, self.type_modifier),
    {
        let m = self.type_modifier;
        match self.type_ {
            Type::Float4 => Some(8),
            Type::Float8 => Some(17),
            Type::Numeric => {
                if m == -1 {
                    Some(0)
                } else {
                    Some(reinterpret_unsigned(m).wrapping_sub(4) & 0xFFFF)
                }
            },
            Type::Time | Type::Timetz | Type::Timestamp | Type::Timestamptz => {
                if m == -1 {
                    Some(6)
                } else {
                    Some(reinterpret_unsigned(m))
                }
            },
            Type::Interval => {
                if m == -1 {
                    Some(6)
                } else {
                    Some(reinterpret_unsigned(m) & 0xFFFF)
                }
            },
            _ => None,
        }
    }

    /// Width the fractional-second part of a time or timestamp value takes,
    /// as encoded by its modifier.
    pub fn type_modifier_to_second_size(type_modifier: i32) -> (r: i32)
        ensures
            r == spec_second_size(type_modifier),
    {
        match type_modifier {
            -1 => 7,
            0 => 0,
            1 => 3,
            x => x.wrapping_add(1),
        }
    }
}

} // verus!
