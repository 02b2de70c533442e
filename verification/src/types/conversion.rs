//! The mapping of physical column types to relational types.

use vstd::prelude::*;
use vstd::string::StringExecFns;
use crate::error::PgSqlErrorCode;
use crate::types::data_type::ColumnType;

verus! {

/// The relational types that a column type can map to.
#[allow(non_camel_case_types)]
#[derive(Clone, Copy, Debug, PartialEq, Eq, Structural)]
pub enum PgBuiltInOids {
    BOOLOID,
    BYTEAOID,
    CHAROID,
    INT8OID,
    INT2OID,
    INT4OID,
    TEXTOID,
    FLOAT4OID,
    FLOAT8OID,
    FLOAT4ARRAYOID,
    FLOAT8ARRAYOID,
    DATEOID,
    TIMEOID,
    TIMESTAMPOID,
    INTERVALOID,
    NUMERICOID,
    JSONBOID,
}

/// The identifier of a relational type.
#[derive(Clone, Copy, Debug, PartialEq, Eq, Structural)]
pub enum PgOid {
    /// No type.
    Invalid,
    /// A type that the host defines, by its number.
    Custom(u32),
    /// One of the built-in types.
    BuiltIn(PgBuiltInOids),
}

impl PgBuiltInOids {
    /// The number under which the host's catalog lists the type.
    pub open spec fn spec_value(self) -> u32 {
        match self {
            PgBuiltInOids::BOOLOID => 16,
            PgBuiltInOids::BYTEAOID => 17,
            PgBuiltInOids::CHAROID => 18,
            PgBuiltInOids::INT8OID => 20,
            PgBuiltInOids::INT2OID => 21,
            PgBuiltInOids::INT4OID => 23,
            PgBuiltInOids::TEXTOID => 25,
            PgBuiltInOids::FLOAT4OID => 700,
            PgBuiltInOids::FLOAT8OID => 701,
            PgBuiltInOids::FLOAT4ARRAYOID => 1021,
            PgBuiltInOids::FLOAT8ARRAYOID => 1022,
            PgBuiltInOids::DATEOID => 1082,
            PgBuiltInOids::TIMEOID => 1083,
            PgBuiltInOids::TIMESTAMPOID => 1114,
            PgBuiltInOids::INTERVALOID => 1186,
            PgBuiltInOids::NUMERICOID => 1700,
            PgBuiltInOids::JSONBOID => 3802,
        }
    }

    /// The number under which the host's catalog lists the type.
    #[verifier::when_used_as_spec(spec_value)]
    pub fn value(self) -> (oid: u32)
        ensures
            oid == self.spec_value(),
    {
        match self {
            PgBuiltInOids::BOOLOID => 16,
            PgBuiltInOids::BYTEAOID => 17,
            PgBuiltInOids::CHAROID => 18,
            PgBuiltInOids::INT8OID => 20,
            PgBuiltInOids::INT2OID => 21,
            PgBuiltInOids::INT4OID => 23,
            PgBuiltInOids::TEXTOID => 25,
            PgBuiltInOids::FLOAT4OID => 700,
            PgBuiltInOids::FLOAT8OID => 701,
            PgBuiltInOids::FLOAT4ARRAYOID => 1021,
            PgBuiltInOids::FLOAT8ARRAYOID => 1022,
            PgBuiltInOids::DATEOID => 1082,
            PgBuiltInOids::TIMEOID => 1083,
            PgBuiltInOids::TIMESTAMPOID => 1114,
            PgBuiltInOids::INTERVALOID => 1186,
            PgBuiltInOids::NUMERICOID => 1700,
            PgBuiltInOids::JSONBOID => 3802,
        }
    }
}

impl PgOid {
    /// The number of the type; zero for no type.
    pub open spec fn spec_value(self) -> u32 {
        match self {
            PgOid::Invalid => 0,
            PgOid::Custom(oid) => oid,
            PgOid::BuiltIn(builtin) => builtin.spec_value(),
        }
    }

    /// The number of the type; zero for no type.
    #[verifier::when_used_as_spec(spec_value)]
    pub fn value(self) -> (oid: u32)
        ensures
            oid == self.spec_value(),
    {
        match self {
            PgOid::Invalid => 0,
            PgOid::Custom(oid) => oid,
            PgOid::BuiltIn(builtin) => builtin.value(),
        }
    }
}

/// The built-in relational type of a physical column type.
///
/// A fixed-size list of 32-bit or 64-bit floating-point values is a numeric
/// vector, every other list, struct, union and map the generic structured
/// type. A dictionary maps as the type of its values. A type outside the
/// list, and the null type, map to text.
pub open spec fn builtin_of(arrow_type: ColumnType) -> PgBuiltInOids
    decreases arrow_type,
{
    match arrow_type {
        ColumnType::Boolean => PgBuiltInOids::BOOLOID,
        ColumnType::Int8 => PgBuiltInOids::CHAROID,
        ColumnType::Int16 => PgBuiltInOids::INT2OID,
        ColumnType::Int32 => PgBuiltInOids::INT4OID,
        ColumnType::Int64 => PgBuiltInOids::INT8OID,
        ColumnType::UInt8 => PgBuiltInOids::CHAROID,
        ColumnType::UInt16 => PgBuiltInOids::INT2OID,
        ColumnType::UInt32 => PgBuiltInOids::INT4OID,
        ColumnType::UInt64 => PgBuiltInOids::INT8OID,
        ColumnType::Float16 => PgBuiltInOids::FLOAT4OID,
        ColumnType::Float32 => PgBuiltInOids::FLOAT4OID,
        ColumnType::Float64 => PgBuiltInOids::FLOAT8OID,
        ColumnType::Utf8 => PgBuiltInOids::TEXTOID,
        ColumnType::LargeUtf8 => PgBuiltInOids::TEXTOID,
        ColumnType::Binary => PgBuiltInOids::BYTEAOID,
        ColumnType::LargeBinary => PgBuiltInOids::BYTEAOID,
        ColumnType::FixedSizeBinary(_) => PgBuiltInOids::BYTEAOID,
        ColumnType::Date32 => PgBuiltInOids::DATEOID,
        ColumnType::Date64 => PgBuiltInOids::DATEOID,
        ColumnType::Time32 => PgBuiltInOids::TIMEOID,
        ColumnType::Time64 => PgBuiltInOids::TIMEOID,
        ColumnType::Timestamp(_, _) => PgBuiltInOids::TIMESTAMPOID,
        ColumnType::Interval => PgBuiltInOids::INTERVALOID,
        ColumnType::List(_) => PgBuiltInOids::JSONBOID,
        ColumnType::LargeList(_) => PgBuiltInOids::JSONBOID,
        ColumnType::FixedSizeList(inner, _) => match *inner {
            ColumnType::Float32 => PgBuiltInOids::FLOAT4ARRAYOID,
            ColumnType::Float64 => PgBuiltInOids::FLOAT8ARRAYOID,
            _ => PgBuiltInOids::JSONBOID,
        },
        ColumnType::Struct(_) => PgBuiltInOids::JSONBOID,
        ColumnType::Union => PgBuiltInOids::JSONBOID,
        ColumnType::Dictionary(_, values) => builtin_of(*values),
        ColumnType::Decimal128 => PgBuiltInOids::NUMERICOID,
        ColumnType::Decimal256 => PgBuiltInOids::NUMERICOID,
        ColumnType::KeyedMap => PgBuiltInOids::JSONBOID,
        ColumnType::Null => PgBuiltInOids::TEXTOID,
        ColumnType::Unrecognized(_) => PgBuiltInOids::TEXTOID,
    }
}

/// The identifier of the relational type of a physical column type.
pub open spec fn pg_type_of(arrow_type: ColumnType) -> PgOid {
    PgOid::BuiltIn(builtin_of(arrow_type))
}

/// The provider's name of the type that makes a column type map to text
/// for want of a relational type of its own; none where it has one.
pub open spec fn unsupported_type(arrow_type: ColumnType) -> Option<Seq<char>>
    decreases arrow_type,
{
    match arrow_type {
        ColumnType::Null => Some("Null"@),
        ColumnType::Unrecognized(name) => Some(name@),
        ColumnType::Dictionary(_, values) => unsupported_type(*values),
        _ => None,
    }
}

/// The relational type of a physical column type. Every type has one.
pub fn arrow_to_pg_type(arrow_type: &ColumnType) -> (oid: Result<PgOid, PgSqlErrorCode>)
    ensures
        oid == Ok::<PgOid, PgSqlErrorCode>(pg_type_of(*arrow_type)),
    decreases arrow_type,
{
    match arrow_type {
        ColumnType::Boolean => Ok(PgOid::BuiltIn(PgBuiltInOids::BOOLOID)),
        ColumnType::Int8 => Ok(PgOid::BuiltIn(PgBuiltInOids::CHAROID)),
        ColumnType::Int16 => Ok(PgOid::BuiltIn(PgBuiltInOids::INT2OID)),
        ColumnType::Int32 => Ok(PgOid::BuiltIn(PgBuiltInOids::INT4OID)),
        ColumnType::Int64 => Ok(PgOid::BuiltIn(PgBuiltInOids::INT8OID)),
        ColumnType::UInt8 => Ok(PgOid::BuiltIn(PgBuiltInOids::CHAROID)),
        ColumnType::UInt16 => Ok(PgOid::BuiltIn(PgBuiltInOids::INT2OID)),
        ColumnType::UInt32 => Ok(PgOid::BuiltIn(PgBuiltInOids::INT4OID)),
        ColumnType::UInt64 => Ok(PgOid::BuiltIn(PgBuiltInOids::INT8OID)),
        ColumnType::Float16 => Ok(PgOid::BuiltIn(PgBuiltInOids::FLOAT4OID)),
        ColumnType::Float32 => Ok(PgOid::BuiltIn(PgBuiltInOids::FLOAT4OID)),
        ColumnType::Float64 => Ok(PgOid::BuiltIn(PgBuiltInOids::FLOAT8OID)),
        ColumnType::Utf8 => Ok(PgOid::BuiltIn(PgBuiltInOids::TEXTOID)),
        ColumnType::LargeUtf8 => Ok(PgOid::BuiltIn(PgBuiltInOids::TEXTOID)),
        ColumnType::Binary => Ok(PgOid::BuiltIn(PgBuiltInOids::BYTEAOID)),
        ColumnType::LargeBinary => Ok(PgOid::BuiltIn(PgBuiltInOids::BYTEAOID)),
        ColumnType::FixedSizeBinary(_) => Ok(PgOid::BuiltIn(PgBuiltInOids::BYTEAOID)),
        ColumnType::Date32 => Ok(PgOid::BuiltIn(PgBuiltInOids::DATEOID)),
        ColumnType::Date64 => Ok(PgOid::BuiltIn(PgBuiltInOids::DATEOID)),
        ColumnType::Time32 => Ok(PgOid::BuiltIn(PgBuiltInOids::TIMEOID)),
        ColumnType::Time64 => Ok(PgOid::BuiltIn(PgBuiltInOids::TIMEOID)),
        ColumnType::Timestamp(_, _) => Ok(PgOid::BuiltIn(PgBuiltInOids::TIMESTAMPOID)),
        ColumnType::Interval => Ok(PgOid::BuiltIn(PgBuiltInOids::INTERVALOID)),
        ColumnType::List(_) => Ok(PgOid::BuiltIn(PgBuiltInOids::JSONBOID)),
        ColumnType::LargeList(_) => Ok(PgOid::BuiltIn(PgBuiltInOids::JSONBOID)),
        ColumnType::FixedSizeList(inner, _) => match &**inner {
            ColumnType::Float32 => Ok(PgOid::BuiltIn(PgBuiltInOids::FLOAT4ARRAYOID)),
            ColumnType::Float64 => Ok(PgOid::BuiltIn(PgBuiltInOids::FLOAT8ARRAYOID)),
            _ => Ok(PgOid::BuiltIn(PgBuiltInOids::JSONBOID)),
        },
        ColumnType::Struct(_) => Ok(PgOid::BuiltIn(PgBuiltInOids::JSONBOID)),
        ColumnType::Union => Ok(PgOid::BuiltIn(PgBuiltInOids::JSONBOID)),
        ColumnType::Dictionary(_, values) => arrow_to_pg_type(values),
        ColumnType::Decimal128 => Ok(PgOid::BuiltIn(PgBuiltInOids::NUMERICOID)),
        ColumnType::Decimal256 => Ok(PgOid::BuiltIn(PgBuiltInOids::NUMERICOID)),
        ColumnType::KeyedMap => Ok(PgOid::BuiltIn(PgBuiltInOids::JSONBOID)),
        ColumnType::Null => Ok(PgOid::BuiltIn(PgBuiltInOids::TEXTOID)),
        ColumnType::Unrecognized(_) => Ok(PgOid::BuiltIn(PgBuiltInOids::TEXTOID)),
    }
}

/// The text of the warning that a column type maps to text for want of a
/// relational type of its own.
pub open spec fn warning_text(name: Seq<char>) -> Seq<char> {
    "Unsupported Arrow type: "@ + name + ", converting to TEXT"@
}

/// The warning that goes with `arrow_to_pg_type`: present exactly where the
/// type, or the value type that a dictionary leads to, is the null type or a
/// type outside the list. It does not stop the mapping.
pub fn unsupported_type_warning(arrow_type: &ColumnType) -> (warning: Option<String>)
    ensures
        match warning {
            Some(text) => unsupported_type(*arrow_type) matches Some(name) && text@
                == warning_text(name),
            None => unsupported_type(*arrow_type) is None,
        },
    decreases arrow_type,
{
    match arrow_type {
        ColumnType::Null => Some(
            "Unsupported Arrow type: ".to_owned().concat("Null").concat(", converting to TEXT"),
        ),
        ColumnType::Unrecognized(name) => Some(
            "Unsupported Arrow type: ".to_owned().concat(name.as_str()).concat(
                ", converting to TEXT",
            ),
        ),
        ColumnType::Dictionary(_, values) => unsupported_type_warning(values),
        _ => None,
    }
}

/// The display name of a relational type, as text.
pub open spec fn type_name_text(oid: PgOid) -> Seq<char> {
    match oid {
        PgOid::BuiltIn(PgBuiltInOids::BOOLOID) => "boolean"@,
        PgOid::BuiltIn(PgBuiltInOids::CHAROID) => "char"@,
        PgOid::BuiltIn(PgBuiltInOids::INT2OID) => "int2"@,
        PgOid::BuiltIn(PgBuiltInOids::INT4OID) => "int4"@,
        PgOid::BuiltIn(PgBuiltInOids::INT8OID) => "int8"@,
        PgOid::BuiltIn(PgBuiltInOids::FLOAT4OID) => "float4"@,
        PgOid::BuiltIn(PgBuiltInOids::FLOAT8OID) => "float8"@,
        PgOid::BuiltIn(PgBuiltInOids::TEXTOID) => "text"@,
        PgOid::BuiltIn(PgBuiltInOids::BYTEAOID) => "bytea"@,
        PgOid::BuiltIn(PgBuiltInOids::DATEOID) => "date"@,
        PgOid::BuiltIn(PgBuiltInOids::TIMEOID) => "time"@,
        PgOid::BuiltIn(PgBuiltInOids::TIMESTAMPOID) => "timestamp"@,
        PgOid::BuiltIn(PgBuiltInOids::INTERVALOID) => "interval"@,
        PgOid::BuiltIn(PgBuiltInOids::NUMERICOID) => "numeric"@,
        PgOid::BuiltIn(PgBuiltInOids::JSONBOID) => "jsonb"@,
        PgOid::BuiltIn(PgBuiltInOids::FLOAT4ARRAYOID) => "float4[]"@,
        PgOid::BuiltIn(PgBuiltInOids::FLOAT8ARRAYOID) => "float8[]"@,
        _ => "unknown"@,
    }
}

/// The display name of a relational type: a function of the identifier
/// alone. A type that is not built in is `unknown`.
pub fn pg_type_name(oid: PgOid) -> (name: &'static str)
    ensures
        name@ == type_name_text(oid),
{
    match oid {
        PgOid::BuiltIn(PgBuiltInOids::BOOLOID) => "boolean",
        PgOid::BuiltIn(PgBuiltInOids::CHAROID) => "char",
        PgOid::BuiltIn(PgBuiltInOids::INT2OID) => "int2",
        PgOid::BuiltIn(PgBuiltInOids::INT4OID) => "int4",
        PgOid::BuiltIn(PgBuiltInOids::INT8OID) => "int8",
        PgOid::BuiltIn(PgBuiltInOids::FLOAT4OID) => "float4",
        PgOid::BuiltIn(PgBuiltInOids::FLOAT8OID) => "float8",
        PgOid::BuiltIn(PgBuiltInOids::TEXTOID) => "text",
        PgOid::BuiltIn(PgBuiltInOids::BYTEAOID) => "bytea",
        PgOid::BuiltIn(PgBuiltInOids::DATEOID) => "date",
        PgOid::BuiltIn(PgBuiltInOids::TIMEOID) => "time",
        PgOid::BuiltIn(PgBuiltInOids::TIMESTAMPOID) => "timestamp",
        PgOid::BuiltIn(PgBuiltInOids::INTERVALOID) => "interval",
        PgOid::BuiltIn(PgBuiltInOids::NUMERICOID) => "numeric",
        PgOid::BuiltIn(PgBuiltInOids::JSONBOID) => "jsonb",
        PgOid::BuiltIn(PgBuiltInOids::FLOAT4ARRAYOID) => "float4[]",
        PgOid::BuiltIn(PgBuiltInOids::FLOAT8ARRAYOID) => "float8[]",
        _ => "unknown",
    }
}

/// Every built-in type has a display name that is not empty.
pub proof fn lemma_builtin_has_name(builtin: PgBuiltInOids)
    ensures
        type_name_text(PgOid::BuiltIn(builtin)).len() > 0,
{
    reveal_strlit("boolean");
    reveal_strlit("char");
    reveal_strlit("int2");
    reveal_strlit("int4");
    reveal_strlit("int8");
    reveal_strlit("float4");
    reveal_strlit("float8");
    reveal_strlit("text");
    reveal_strlit("bytea");
    reveal_strlit("date");
    reveal_strlit("time");
    reveal_strlit("timestamp");
    reveal_strlit("interval");
    reveal_strlit("numeric");
    reveal_strlit("jsonb");
    reveal_strlit("float4[]");
    reveal_strlit("float8[]");
}

/// Every physical column type maps to a built-in relational type, and the
/// display name of that type is not empty.
pub proof fn lemma_every_type_has_a_name(arrow_type: ColumnType)
    ensures
        pg_type_of(arrow_type) is BuiltIn,
        type_name_text(pg_type_of(arrow_type)).len() > 0,
{
    lemma_builtin_has_name(builtin_of(arrow_type));
}

/// A type that maps with a warning maps to text.
pub proof fn lemma_unsupported_is_text(arrow_type: ColumnType)
    requires
        unsupported_type(arrow_type) is Some,
    ensures
        pg_type_of(arrow_type) == PgOid::BuiltIn(PgBuiltInOids::TEXTOID),
    decreases arrow_type,
{
    match arrow_type {
        ColumnType::Dictionary(_, values) => lemma_unsupported_is_text(*values),
        _ => {},
    }
}

/// Two built-in types with the same number are the same type.
pub proof fn lemma_builtin_numbers_differ(a: PgBuiltInOids, b: PgBuiltInOids)
    requires
        a.spec_value() == b.spec_value(),
    ensures
        a == b,
{
}

} // verus!
