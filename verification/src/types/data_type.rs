//! Physical column types and schemas of a columnar dataset.

use vstd::prelude::*;

verus! {

/// The resolution of a timestamp column.
#[derive(Clone, Copy, Debug, PartialEq, Eq, Structural)]
pub enum TimeUnit {
    Second,
    Millisecond,
    Microsecond,
    Nanosecond,
}

/// The physical type of a column.
///
/// The variants are closed: a type that a dataset provider knows and this
/// library does not is `Unrecognized`, with the provider's name for it.
#[derive(Debug, PartialEq, Eq)]
pub enum ColumnType {
    Null,
    Boolean,
    Int8,
    Int16,
    Int32,
    Int64,
    UInt8,
    UInt16,
    UInt32,
    UInt64,
    Float16,
    Float32,
    Float64,
    Utf8,
    LargeUtf8,
    Binary,
    LargeBinary,
    /// Byte strings of one fixed length.
    FixedSizeBinary(i32),
    Date32,
    Date64,
    Time32,
    Time64,
    /// An instant counted from the epoch in the given unit, with an optional
    /// time zone label.
    Timestamp(TimeUnit, Option<String>),
    Interval,
    /// Variable-length lists of the inner type, with 32-bit offsets.
    List(Box<ColumnType>),
    /// Variable-length lists of the inner type, with 64-bit offsets.
    LargeList(Box<ColumnType>),
    /// Lists of the inner type that all have the given length.
    FixedSizeList(Box<ColumnType>, i32),
    /// Ordered named fields.
    Struct(Vec<Field>),
    /// Values of the second type, referred to by indices of the first.
    Dictionary(Box<ColumnType>, Box<ColumnType>),
    Decimal128,
    Decimal256,
    /// Rows of key-value entries.
    KeyedMap,
    Union,
    /// A type outside this list, under the name its provider gives it.
    Unrecognized(String),
}

/// A named column of a schema or a named member of a struct type.
#[derive(Debug, PartialEq, Eq)]
pub struct Field {
    pub name: String,
    pub data_type: ColumnType,
    pub nullable: bool,
}

/// The ordered columns of a dataset. Names need not be unique.
#[derive(Debug, PartialEq, Eq)]
pub struct Schema {
    pub fields: Vec<Field>,
}

impl Schema {
    /// A schema of the given fields, in their order.
    pub fn new(fields: Vec<Field>) -> (schema: Schema)
        ensures
            schema.fields == fields,
    {
        Schema { fields }
    }

    /// The number of columns.
    pub fn num_fields(&self) -> (n: usize)
        ensures
            n == self.fields.len(),
    {
        self.fields.len()
    }
}

impl Field {
    /// A field of the given name and type.
    pub fn new(name: String, data_type: ColumnType, nullable: bool) -> (field: Field)
        ensures
            field.name == name,
            field.data_type == data_type,
            field.nullable == nullable,
    {
        Field { name, data_type, nullable }
    }
}

} // verus!
