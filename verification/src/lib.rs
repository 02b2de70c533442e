//! A columnar dataset for a row-oriented relational host: the relational
//! types of its columns, its statistics, and its rows as generic structured
//! values, optionally cut off at a row limit.

use vstd::prelude::*;
use crate::json::row::{fits_schema, row_to_json, row_value};
use crate::json::value::CanonicalValue;
use crate::scanner::lance_scanner::{LanceScanIterator, LanceTableStats};
use crate::scanner::row_order::{
    admitted,
    bounded_rows,
    lemma_bounded_in_range,
    lemma_bounded_rows,
    total_rows,
};
use crate::types::arrow_convert::arrow_schema_to_pg_columns;
use crate::types::batch::{batch_rows, ColumnarBatch};
use crate::types::conversion::{pg_type_name, pg_type_of, type_name_text};
use crate::types::data_type::Schema;

pub mod error;
pub mod json;
pub mod scanner;
pub mod types;

verus! {

/// The greeting of the library.
pub fn hello_pglance() -> (greeting: &'static str)
    ensures
        greeting@ == "Hello, pglance"@,
{
    "Hello, pglance"
}

/// The columns of a dataset: for each field of its schema, in order, the
/// name, the display name of its relational type, and whether it may hold
/// nulls.
pub fn lance_table_info(schema: &Schema) -> (rows: Vec<(String, String, bool)>)
    ensures
        rows@.len() == schema.fields@.len(),
        forall|i: int|
            0 <= i < rows@.len() ==> {
                &&& (#[trigger] rows@[i]).0@ == schema.fields@[i].name@
                &&& rows@[i].1@ == type_name_text(pg_type_of(schema.fields@[i].data_type))
                &&& rows@[i].2 == schema.fields@[i].nullable
            },
{
    let columns = arrow_schema_to_pg_columns(schema);
    let mut rows: Vec<(String, String, bool)> = Vec::new();
    let mut i: usize = 0;
    while i < columns.len()
        invariant
            i <= columns@.len(),
            columns@.len() == schema.fields@.len(),
            forall|j: int|
                0 <= j < columns@.len() ==> {
                    &&& (#[trigger] columns@[j]).0@ == schema.fields@[j].name@
                    &&& columns@[j].1 == pg_type_of(schema.fields@[j].data_type)
                    &&& columns@[j].2 == schema.fields@[j].nullable
                },
            rows@.len() == i,
            forall|j: int|
                0 <= j < i ==> {
                    &&& (#[trigger] rows@[j]).0@ == schema.fields@[j].name@
                    &&& rows@[j].1@ == type_name_text(pg_type_of(schema.fields@[j].data_type))
                    &&& rows@[j].2 == schema.fields@[j].nullable
                },
        decreases columns@.len() - i,
    {
        let column = &columns[i];
        rows.push((column.0.clone(), pg_type_name(column.1).to_owned(), column.2));
        i += 1;
    }
    rows
}

/// An integer as a signed 64-bit number keeps it: the low 64 bits, read in
/// two's complement.
pub open spec fn wrap_i64(v: int) -> int {
    let low = v % 0x1_0000_0000_0000_0000;
    if low < 0x8000_0000_0000_0000 {
        low
    } else {
        low - 0x1_0000_0000_0000_0000
    }
}

/// An integer as a signed 32-bit number keeps it: the low 32 bits, read in
/// two's complement.
pub open spec fn wrap_i32(v: int) -> int {
    let low = v % 0x1_0000_0000;
    if low < 0x8000_0000 {
        low
    } else {
        low - 0x1_0000_0000
    }
}

/// An unsigned number in the host's signed 64-bit type.
fn to_i64(v: u64) -> (wrapped: i64)
    ensures
        wrapped == wrap_i64(v as int),
        v <= i64::MAX ==> wrapped == v,
{
    if v <= 0x7fff_ffff_ffff_ffff {
        v as i64
    } else {
        (v - 0x8000_0000_0000_0000) as i64 + i64::MIN
    }
}

/// An unsigned number in the host's signed 32-bit type.
fn to_i32(v: u64) -> (wrapped: i32)
    ensures
        wrapped == wrap_i32(v as int),
        v <= i32::MAX ==> wrapped == v,
{
    let low: u64 = v % 0x1_0000_0000;
    if low < 0x8000_0000 {
        low as i32
    } else {
        (low as i64 - 0x1_0000_0000) as i32
    }
}

/// The one row of statistics of a dataset, in the host's types: revision,
/// number of rows and number of columns. The row is a function of the
/// statistics alone: no scan and no limit has a part in it. A number beyond
/// the host's type wraps around.
pub fn lance_table_stats(stats: &LanceTableStats) -> (row: (i64, i64, i32))
    ensures
        row.0 == wrap_i64(stats.version as int),
        row.1 == wrap_i64(stats.num_rows as int),
        row.2 == wrap_i32(stats.schema.fields@.len() as int),
        stats.version <= i64::MAX ==> row.0 == stats.version,
        stats.num_rows <= i64::MAX ==> row.1 == stats.num_rows,
        stats.schema.fields@.len() <= i32::MAX ==> row.2 == stats.schema.fields@.len(),
{
    (to_i64(stats.version), to_i64(stats.num_rows as u64), to_i32(stats.num_columns() as u64))
}

/// The rows of a scan as objects, in scan order: the rows of the batches in
/// batch-then-row order, as many as the limit admits, each keyed by the
/// names of the schema's fields.
pub fn lance_scan_jsonb(schema: &Schema, batches: Vec<ColumnarBatch>, limit: Option<i64>) -> (rows:
    Vec<CanonicalValue>)
    requires
        forall|b: int|
            0 <= b < batches@.len() ==> (#[trigger] batches@[b]).wf() && fits_schema(
                *schema,
                batches@[b],
            ),
    ensures
        rows@.len() == bounded_rows(batch_rows(batches@), limit).len(),
        rows@.len() == admitted(limit, total_rows(batch_rows(batches@), 0)),
        forall|i: int|
            0 <= i < rows@.len() ==> {
                &&& (#[trigger] rows@[i])@ == row_value(
                    schema.fields@,
                    batches@[bounded_rows(batch_rows(batches@), limit)[i].batch],
                    bounded_rows(batch_rows(batches@), limit)[i].row,
                )
                &&& rows@[i].wf()
            },
{
    let ghost places = bounded_rows(batch_rows(batches@), limit);
    proof {
        lemma_bounded_rows(batch_rows(batches@), limit);
    }
    let mut scan = LanceScanIterator::with_limit(batches, limit);
    let mut rows: Vec<CanonicalValue> = Vec::new();
    let mut done = false;
    assert(places.skip(0) =~= places);
    while !done
        invariant
            scan.wf(),
            scan.spec_batches() == batches@,
            forall|b: int|
                0 <= b < batches@.len() ==> (#[trigger] batches@[b]).wf() && fits_schema(
                    *schema,
                    batches@[b],
                ),
            places == bounded_rows(batch_rows(batches@), limit),
            rows@.len() <= places.len(),
            !done ==> scan.remaining() == places.skip(rows@.len() as int),
            done ==> rows@.len() == places.len(),
            forall|i: int|
                0 <= i < rows@.len() ==> {
                    &&& (#[trigger] rows@[i])@ == row_value(
                        schema.fields@,
                        batches@[places[i].batch],
                        places[i].row,
                    )
                    &&& rows@[i].wf()
                },
        decreases
                places.len() - rows@.len(),
                (if done {
                    0nat
                } else {
                    1nat
                }),
    {
        let ghost before = scan.remaining();
        match scan.next_row() {
            Some(Ok(row)) => {
                proof {
                    assert(before[0] == places[rows@.len() as int]);
                    lemma_bounded_in_range(
                        batch_rows(batches@),
                        limit,
                        rows@.len() as int,
                    );
                }
                let value = row_to_json(schema, row.batch(), row.row_index());
                rows.push(value);
                assert(before.skip(1) =~= places.skip(rows@.len() as int));
            },
            _ => {
                done = true;
            },
        }
    }
    rows
}

} // verus!
