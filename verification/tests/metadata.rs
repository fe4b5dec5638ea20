//! Column metadata: precision and scale derivation.

use pg_statement::{Column, Type};

fn col(type_: Type, type_modifier: i32) -> Column {
    Column::new(String::from("c"), type_, type_modifier)
}

#[test]
fn accessors() {
    let c = Column::new(String::from("id"), Type::Int4, -1);
    assert_eq!(c.name(), "id");
    assert_eq!(*c.type_(), Type::Int4);
}

#[test]
fn fixed_precision_types() {
    assert_eq!(col(Type::Int2, -1).precision(), Some(5));
    assert_eq!(col(Type::Oid, -1).precision(), Some(10));
    assert_eq!(col(Type::Int4, -1).precision(), Some(10));
    assert_eq!(col(Type::Int8, -1).precision(), Some(19));
    assert_eq!(col(Type::Float4, -1).precision(), Some(8));
    assert_eq!(col(Type::Float8, -1).precision(), Some(17));
    assert_eq!(col(Type::Char, -1).precision(), Some(1));
    assert_eq!(col(Type::Bool, -1).precision(), Some(1));
    assert_eq!(col(Type::Date, -1).precision(), Some(13));
    assert_eq!(col(Type::Interval, -1).precision(), Some(49));
}

#[test]
fn float_scale_mirrors_precision() {
    assert_eq!(col(Type::Float4, -1).scale(), Some(8));
    assert_eq!(col(Type::Float8, -1).scale(), Some(17));
}

#[test]
fn numeric_unconstrained() {
    let c = col(Type::Numeric, -1);
    assert_eq!(c.precision(), None);
    assert_eq!(c.scale(), Some(0));
}

#[test]
fn numeric_packed_modifier() {
    // 4 + (1 << 16) + 1: precision 1 in the high half, scale 1 in the low.
    let c = col(Type::Numeric, 65541);
    assert_eq!(c.precision(), Some(1));
    assert_eq!(c.scale(), Some(1));
}

#[test]
fn numeric_wide_modifier() {
    // numeric(1000, 500): modifier 4 + (1000 << 16) + 500.
    let c = col(Type::Numeric, 4 + (1000 << 16) + 500);
    assert_eq!(c.precision(), Some(1000));
    assert_eq!(c.scale(), Some(500));
}

#[test]
fn numeric_small_modifier_sign_extends() {
    // modifier - 4 is negative; the arithmetic shift of the high half keeps
    // the sign and the unsigned reading shows it.
    let c = col(Type::Numeric, 0);
    assert_eq!(c.precision(), Some(4294967295));
    assert_eq!(c.scale(), Some(65532));
}

#[test]
fn varchar_boundaries() {
    assert_eq!(col(Type::Varchar, -1).precision(), None);
    assert_eq!(col(Type::Varchar, 24).precision(), Some(20));
    assert_eq!(col(Type::Varchar, -1).scale(), None);
    assert_eq!(col(Type::Bpchar, -1).precision(), None);
    assert_eq!(col(Type::Bpchar, 5).precision(), Some(1));
}

#[test]
fn time_precision_boundaries() {
    assert_eq!(col(Type::Time, -1).precision(), Some(15));
    assert_eq!(col(Type::Time, 0).precision(), Some(8));
    assert_eq!(col(Type::Time, 1).precision(), Some(11));
    assert_eq!(col(Type::Time, 6).precision(), Some(15));
}

#[test]
fn time_family_precision() {
    assert_eq!(col(Type::Timetz, -1).precision(), Some(21));
    assert_eq!(col(Type::Timetz, 0).precision(), Some(14));
    assert_eq!(col(Type::Timestamp, -1).precision(), Some(29));
    assert_eq!(col(Type::Timestamp, 2).precision(), Some(25));
    assert_eq!(col(Type::Timestamptz, -1).precision(), Some(33));
    assert_eq!(col(Type::Timestamptz, 0).precision(), Some(26));
}

#[test]
fn time_family_scale() {
    assert_eq!(col(Type::Time, -1).scale(), Some(6));
    assert_eq!(col(Type::Time, 3).scale(), Some(3));
    assert_eq!(col(Type::Timetz, 0).scale(), Some(0));
    assert_eq!(col(Type::Timestamp, -1).scale(), Some(6));
    assert_eq!(col(Type::Timestamptz, 4).scale(), Some(4));
}

#[test]
fn interval_scale() {
    assert_eq!(col(Type::Interval, -1).scale(), Some(6));
    assert_eq!(col(Type::Interval, 0x7000_0005).scale(), Some(5));
    assert_eq!(col(Type::Interval, 2).scale(), Some(2));
}

#[test]
fn bit_precision_is_the_modifier() {
    assert_eq!(col(Type::Bit, 8).precision(), Some(8));
    assert_eq!(col(Type::Bit, 1).precision(), Some(1));
    // The sentinel is read directly as unsigned for the fixed-length kind.
    assert_eq!(col(Type::Bit, -1).precision(), Some(4294967295));
}

#[test]
fn varbit_boundaries() {
    assert_eq!(col(Type::Varbit, -1).precision(), None);
    assert_eq!(col(Type::Varbit, 12).precision(), Some(12));
}

#[test]
fn unknown_types_have_no_figures() {
    // 25 and 3802 are the text and jsonb object identifiers.
    let text = col(Type::Other(25), -1);
    assert_eq!(text.precision(), None);
    assert_eq!(text.scale(), None);
    let jsonb = col(Type::Other(3802), 7);
    assert_eq!(jsonb.precision(), None);
    assert_eq!(jsonb.scale(), None);
}

#[test]
fn second_size_encoding() {
    assert_eq!(Column::type_modifier_to_second_size(-1), 7);
    assert_eq!(Column::type_modifier_to_second_size(0), 0);
    assert_eq!(Column::type_modifier_to_second_size(1), 3);
    assert_eq!(Column::type_modifier_to_second_size(2), 3);
    assert_eq!(Column::type_modifier_to_second_size(6), 7);
}

#[test]
fn metadata_is_pure() {
    let a = Column::new(String::from("a"), Type::Numeric, 65541);
    let b = Column::new(String::from("b"), Type::Numeric, 65541);
    assert_eq!(a.precision(), b.precision());
    assert_eq!(a.scale(), b.scale());
    assert_eq!(a.precision(), a.precision());
}
