//! Declarations of data shapes with their per-field constraints, and the
//! values that such shapes describe.
use vstd::prelude::*;

verus! {

/// The integer types a field can have.
#[derive(Debug, Clone, Copy, PartialEq, Eq)]
pub enum IntKind {
    I8,
    I16,
    I32,
    I64,
    Isize,
    U8,
    U16,
    U32,
    U64,
    Usize,
}

/// The smallest value of an integer type.
pub open spec fn kind_min(kind: IntKind) -> int {
    match kind {
        IntKind::I8 => i8::MIN as int,
        IntKind::I16 => i16::MIN as int,
        IntKind::I32 => i32::MIN as int,
        IntKind::I64 => i64::MIN as int,
        IntKind::Isize => isize::MIN as int,
        _ => 0,
    }
}

/// The largest value of an integer type.
pub open spec fn kind_max(kind: IntKind) -> int {
    match kind {
        IntKind::I8 => i8::MAX as int,
        IntKind::I16 => i16::MAX as int,
        IntKind::I32 => i32::MAX as int,
        IntKind::I64 => i64::MAX as int,
        IntKind::Isize => isize::MAX as int,
        IntKind::U8 => u8::MAX as int,
        IntKind::U16 => u16::MAX as int,
        IntKind::U32 => u32::MAX as int,
        IntKind::U64 => u64::MAX as int,
        IntKind::Usize => usize::MAX as int,
    }
}

/// The declared type of a field.
pub enum FieldType {
    Bool,
    Char,
    Integer(IntKind),
    Text,
    /// A value that may be absent.
    Optional(Box<FieldType>),
    /// An ordered collection of values of one type.
    List(Box<FieldType>),
    /// A record or union type of its own.
    Nested(Box<TypeDecl>),
}

/// The value of a declared constraint.
pub enum Literal {
    Int(i128),
    Text(String),
}

/// A declared constraint: its name, such as `minimum`, and its value.
pub struct Constraint {
    pub name: String,
    pub value: Literal,
}

/// A field: its name (none for a positional field), its type, and its
/// constraints in declaration order.
pub struct FieldDecl {
    pub name: Option<String>,
    pub ty: FieldType,
    pub constraints: Vec<Constraint>,
}

/// A variant of a union: its tag and its fields.
pub struct VariantDecl {
    pub name: String,
    pub fields: Vec<FieldDecl>,
}

/// A record type, with its fields in order, or a tagged union, with its
/// variants in order.
pub enum TypeDecl {
    Record(Vec<FieldDecl>),
    Union(Vec<VariantDecl>),
}

/// A value of a declared type.
pub enum Value {
    Bool(bool),
    Char(char),
    Int(i128),
    Text(String),
    /// A value of an optional field: present or absent.
    Optional(Option<Box<Value>>),
    /// The items of a list, in order.
    List(Vec<Value>),
    /// The values of a record's fields, in declaration order.
    Record(Vec<Value>),
    /// A value of a union: the tag of its variant and the values of the
    /// variant's fields, in declaration order.
    Variant(String, Vec<Value>),
}

} // verus!
