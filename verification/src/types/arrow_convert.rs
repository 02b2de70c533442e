//! Cells as values of the query host, and schemas as column lists.

use vstd::prelude::*;
use crate::error::PgSqlErrorCode;
use crate::types::array::{ColumnArray, ColumnData};
use crate::types::conversion::{arrow_to_pg_type, pg_type_of, PgBuiltInOids, PgOid};
use crate::types::data_type::Schema;

verus! {

/// A value of one of the host's types. A floating-point value is held as its
/// bit pattern.
#[derive(Clone, Debug, PartialEq, Eq)]
pub enum Datum {
    Bool(bool),
    Int4(i32),
    Int8(i64),
    /// A binary32 bit pattern.
    Float4(u32),
    /// A binary64 bit pattern.
    Float8(u64),
    Text(String),
}

/// What a `Datum` stands for.
pub enum DatumView {
    Bool(bool),
    Int4(i32),
    Int8(i64),
    Float4(u32),
    Float8(u64),
    Text(Seq<char>),
}

impl View for Datum {
    type V = DatumView;

    open spec fn view(&self) -> DatumView {
        match self {
            Datum::Bool(b) => DatumView::Bool(*b),
            Datum::Int4(v) => DatumView::Int4(*v),
            Datum::Int8(v) => DatumView::Int8(*v),
            Datum::Float4(bits) => DatumView::Float4(*bits),
            Datum::Float8(bits) => DatumView::Float8(*bits),
            Datum::Text(s) => DatumView::Text(s@),
        }
    }
}

/// What an optional datum stands for.
pub open spec fn datum_view(datum: Option<Datum>) -> Option<DatumView> {
    match datum {
        Some(d) => Some(d@),
        None => None,
    }
}

/// The host value of the cell in a row of a column: none for a null cell;
/// the value itself for booleans, 32-bit and 64-bit signed integers, 32-bit
/// and 64-bit floating-point values and texts; for a cell of any other type
/// the name of the type, as a text.
pub open spec fn cell_datum(array: ColumnArray, row: int) -> Option<DatumView> {
    if array.nulls@[row] {
        None
    } else {
        Some(
            match array.data {
                ColumnData::Boolean(v) => DatumView::Bool(v@[row]),
                ColumnData::Int32(v) => DatumView::Int4(v@[row]),
                ColumnData::Int64(v) => DatumView::Int8(v@[row]),
                ColumnData::Float32(v) => DatumView::Float4(v@[row]),
                ColumnData::Float64(v) => DatumView::Float8(v@[row]),
                ColumnData::Utf8(v) => DatumView::Text(v@[row]@),
                ColumnData::LargeUtf8(v) => DatumView::Text(v@[row]@),
                _ => DatumView::Text(array.type_label@),
            },
        )
    }
}

/// A null cell has no host value, whatever the type of its column.
pub proof fn lemma_null_has_no_datum(array: ColumnArray, row: int)
    requires
        array.nulls@[row],
    ensures
        cell_datum(array, row) is None,
{
}

/// Converts the cell in row `row_idx` of a column into a value of the host.
/// The conversion has no error of its own.
pub fn arrow_value_to_datum(array: &ColumnArray, row_idx: usize) -> (datum: Result<
    Option<Datum>,
    PgSqlErrorCode,
>)
    requires
        array.wf(),
        row_idx < array.rows(),
    ensures
        datum matches Ok(d) && datum_view(d) == cell_datum(*array, row_idx as int),
{
    if array.nulls[row_idx] {
        return Ok(None);
    }
    let datum = match &array.data {
        ColumnData::Boolean(v) => Datum::Bool(v[row_idx]),
        ColumnData::Int32(v) => Datum::Int4(v[row_idx]),
        ColumnData::Int64(v) => Datum::Int8(v[row_idx]),
        ColumnData::Float32(v) => Datum::Float4(v[row_idx]),
        ColumnData::Float64(v) => Datum::Float8(v[row_idx]),
        ColumnData::Utf8(v) => Datum::Text(v[row_idx].clone()),
        ColumnData::LargeUtf8(v) => Datum::Text(v[row_idx].clone()),
        _ => Datum::Text(array.type_label.clone()),
    };
    Ok(Some(datum))
}

/// What becomes of a value once the host has taken it into its own
/// representation: the host's value, or an error where the host has none
/// for it.
pub fn require_datum<T>(taken: Option<T>) -> (datum: Result<Option<T>, PgSqlErrorCode>)
    ensures
        datum == match taken {
            Some(d) => Ok::<Option<T>, PgSqlErrorCode>(Some(d)),
            None => Err::<Option<T>, PgSqlErrorCode>(
                PgSqlErrorCode::ERRCODE_NULL_VALUE_NOT_ALLOWED,
            ),
        },
{
    match taken {
        Some(d) => Ok(Some(d)),
        None => Err(PgSqlErrorCode::ERRCODE_NULL_VALUE_NOT_ALLOWED),
    }
}

/// The columns of a schema as the host sees them: for each field, in order,
/// its name, its relational type and whether it may hold nulls.
pub fn arrow_schema_to_pg_columns(schema: &Schema) -> (columns: Vec<(String, PgOid, bool)>)
    ensures
        columns@.len() == schema.fields@.len(),
        forall|i: int|
            0 <= i < columns@.len() ==> {
                &&& (#[trigger] columns@[i]).0@ == schema.fields@[i].name@
                &&& columns@[i].1 == pg_type_of(schema.fields@[i].data_type)
                &&& columns@[i].2 == schema.fields@[i].nullable
            },
{
    let mut columns: Vec<(String, PgOid, bool)> = Vec::new();
    let mut i: usize = 0;
    while i < schema.fields.len()
        invariant
            i <= schema.fields@.len(),
            columns@.len() == i,
            forall|j: int|
                0 <= j < i ==> {
                    &&& (#[trigger] columns@[j]).0@ == schema.fields@[j].name@
                    &&& columns@[j].1 == pg_type_of(schema.fields@[j].data_type)
                    &&& columns@[j].2 == schema.fields@[j].nullable
                },
        decreases schema.fields@.len() - i,
    {
        let field = &schema.fields[i];
        let pg_type = match arrow_to_pg_type(&field.data_type) {
            Ok(oid) => oid,
            Err(_) => PgOid::BuiltIn(PgBuiltInOids::TEXTOID),
        };
        columns.push((field.name.clone(), pg_type, field.nullable));
        i += 1;
    }
    columns
}

} // verus!
