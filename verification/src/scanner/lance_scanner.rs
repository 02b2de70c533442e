//! The walk over the rows of a scan, the rows it yields, and the
//! statistics of a dataset.

use vstd::prelude::*;
use vstd::string::StringExecFns;
use crate::error::PgSqlErrorCode;
use crate::scanner::row_order::{all_rows, bounded_rows, rows_from, RowPlace};
use crate::types::arrow_convert::{arrow_value_to_datum, cell_datum, datum_view, Datum};
use crate::types::batch::{batch_rows, ColumnarBatch};
use crate::types::data_type::Schema;

verus! {

/// The number of rows that a scan asks its provider to put into one batch.
pub const BATCH_SIZE: usize = 1024;

/// What can go wrong while a dataset provider works: its execution context
/// does not start, the dataset does not open, a filter predicate does not
/// parse, a scan does not start, a batch does not arrive, or the rows cannot
/// be counted.
#[derive(Clone, Copy, Debug, PartialEq, Eq, Structural)]
pub enum ProviderFailure {
    Runtime,
    Open,
    Filter,
    Scan,
    Batch,
    Count,
}

/// The error code that an operation ends in when its provider fails: a
/// syntax error for a filter that does not parse, an internal error for
/// everything else.
pub open spec fn failure_code(failure: ProviderFailure) -> PgSqlErrorCode {
    match failure {
        ProviderFailure::Filter => PgSqlErrorCode::ERRCODE_SYNTAX_ERROR,
        _ => PgSqlErrorCode::ERRCODE_INTERNAL_ERROR,
    }
}

/// What an operation could not do when its provider fails in the given
/// way: open the table, read its statistics, or scan it.
pub open spec fn failed_operation(failure: ProviderFailure) -> Seq<char> {
    match failure {
        ProviderFailure::Runtime | ProviderFailure::Open => "Failed to open Lance table at: "@,
        ProviderFailure::Count => "Failed to get table statistics of Lance table at: "@,
        _ => "Failed to create scan iterator for Lance table at: "@,
    }
}

/// The message that an operation on the table at a path ends with when its
/// provider fails: it names what could not be done, and after it the path,
/// whatever failed.
pub open spec fn failure_text(failure: ProviderFailure, table_path: Seq<char>) -> Seq<char> {
    failed_operation(failure) + table_path
}

impl ProviderFailure {
    /// The message that the failure ends an operation on a table with.
    pub fn message(self, table_path: &str) -> (text: String)
        ensures
            text@ == failure_text(self, table_path@),
    {
        let operation = match self {
            ProviderFailure::Runtime | ProviderFailure::Open => "Failed to open Lance table at: ",
            ProviderFailure::Count => "Failed to get table statistics of Lance table at: ",
            _ => "Failed to create scan iterator for Lance table at: ",
        };
        operation.to_owned().concat(table_path)
    }

    /// The error code that the failure ends the operation in.
    pub fn error_code(self) -> (code: PgSqlErrorCode)
        ensures
            code == failure_code(self),
    {
        match self {
            ProviderFailure::Filter => PgSqlErrorCode::ERRCODE_SYNTAX_ERROR,
            _ => PgSqlErrorCode::ERRCODE_INTERNAL_ERROR,
        }
    }
}

/// A single pass over the rows of a sequence of batches, in batch-then-row
/// order, that stops after an optional number of rows.
pub struct LanceScanIterator {
    batches: Vec<ColumnarBatch>,
    current_batch: usize,
    current_row: usize,
    /// How many rows may still be yielded; none where there is no limit.
    allowance: Option<u64>,
}

/// A row of a batch.
pub struct LanceRow<'a> {
    batch: &'a ColumnarBatch,
    row_index: usize,
}

/// The rows that are left of `rest` under an allowance.
pub open spec fn allowed(rest: Seq<RowPlace>, allowance: Option<u64>) -> Seq<RowPlace> {
    match allowance {
        None => rest,
        Some(n) => if n <= rest.len() {
            rest.take(n as int)
        } else {
            rest
        },
    }
}

impl LanceScanIterator {
    /// The batches of the scan.
    pub closed spec fn spec_batches(&self) -> Seq<ColumnarBatch> {
        self.batches@
    }

    /// The walk stands at a row of a batch or at the end of one, and every
    /// batch is well formed.
    pub closed spec fn wf(&self) -> bool {
        &&& self.current_batch <= self.batches@.len()
        &&& self.current_batch < self.batches@.len() ==> self.current_row
            <= self.batches@[self.current_batch as int].num_rows
        &&& forall|b: int| 0 <= b < self.batches@.len() ==> (#[trigger] self.batches@[b]).wf()
    }

    /// The rows that the walk has yet to yield, in order.
    pub closed spec fn remaining(&self) -> Seq<RowPlace> {
        allowed(
            rows_from(batch_rows(self.batches@), self.current_batch as int, self.current_row as int),
            self.allowance,
        )
    }

    /// A walk over all rows of the batches.
    pub fn new(batches: Vec<ColumnarBatch>) -> (scan: LanceScanIterator)
        requires
            forall|b: int| 0 <= b < batches@.len() ==> (#[trigger] batches@[b]).wf(),
        ensures
            scan.wf(),
            scan.spec_batches() == batches@,
            scan.remaining() == bounded_rows(batch_rows(batches@), None),
    {
        Self::with_limit(batches, None)
    }

    /// A walk over the rows of the batches that stops after `limit` rows,
    /// where a limit is given. A limit that is not positive admits no row.
    pub fn with_limit(batches: Vec<ColumnarBatch>, limit: Option<i64>) -> (scan: LanceScanIterator)
        requires
            forall|b: int| 0 <= b < batches@.len() ==> (#[trigger] batches@[b]).wf(),
        ensures
            scan.wf(),
            scan.spec_batches() == batches@,
            scan.remaining() == bounded_rows(batch_rows(batches@), limit),
    {
        let allowance = match limit {
            None => None,
            Some(l) => if l <= 0 {
                Some(0u64)
            } else {
                Some(l as u64)
            },
        };
        let scan = LanceScanIterator { batches, current_batch: 0, current_row: 0, allowance };
        proof {
            let rows = all_rows(batch_rows(batches@));
            assert(rows.take(rows.len() as int) =~= rows);
            assert(rows.take(0) =~= Seq::<RowPlace>::empty());
            assert(scan.remaining() =~= bounded_rows(batch_rows(batches@), limit));
        }
        scan
    }

    /// The batches of the scan.
    pub fn batches(&self) -> (batches: &Vec<ColumnarBatch>)
        ensures
            batches@ == self.spec_batches(),
    {
        &self.batches
    }

    /// Gives the batches back and ends the walk.
    pub fn into_batches(self) -> (batches: Vec<ColumnarBatch>)
        ensures
            batches@ == self.spec_batches(),
    {
        self.batches
    }

    /// The next row of the walk, or none where no row is left. The walk
    /// passes over batches without rows, and after the last row that a limit
    /// admits it yields nothing more.
    pub fn next_row(&mut self) -> (next: Option<Result<LanceRow<'_>, PgSqlErrorCode>>)
        requires
            old(self).wf(),
        ensures
            final(self).wf(),
            final(self).spec_batches() == old(self).spec_batches(),
            old(self).remaining().len() == 0 ==> next is None && final(self).remaining() == old(
                self,
            ).remaining(),
            old(self).remaining().len() > 0 ==> {
                &&& next matches Some(Ok(row))
                &&& row.wf()
                &&& *row.spec_batch() == old(self).spec_batches()[old(self).remaining()[0].batch]
                &&& row.spec_row_index() == old(self).remaining()[0].row
                &&& final(self).remaining() == old(self).remaining().skip(1)
            },
    {
        let ghost counts = batch_rows(self.batches@);
        if let Some(n) = self.allowance {
            if n == 0 {
                return None;
            }
        }
        while self.current_batch < self.batches.len() && self.current_row
            >= self.batches[self.current_batch].num_rows
            invariant
                self.wf(),
                self.batches == old(self).batches,
                self.allowance == old(self).allowance,
                counts == batch_rows(self.batches@),
                rows_from(counts, self.current_batch as int, self.current_row as int) == rows_from(
                    counts,
                    old(self).current_batch as int,
                    old(self).current_row as int,
                ),
            decreases self.batches@.len() - self.current_batch,
        {
            self.current_batch += 1;
            self.current_row = 0;
        }
        if self.current_batch >= self.batches.len() {
            return None;
        }
        let ghost rest = rows_from(counts, self.current_batch as int, self.current_row as int);
        let ghost after = rows_from(counts, self.current_batch as int, self.current_row + 1);
        proof {
            assert(rest == seq![
                RowPlace { batch: self.current_batch as int, row: self.current_row as int },
            ] + after);
            assert(rest.skip(1) =~= after);
            match self.allowance {
                Some(n) => {
                    if n <= rest.len() {
                        assert(rest.take(n as int).skip(1) =~= after.take(n - 1));
                    }
                },
                None => {},
            }
        }
        let row = LanceRow { batch: &self.batches[self.current_batch], row_index: self.current_row };
        self.current_row += 1;
        if let Some(n) = self.allowance {
            self.allowance = Some(n - 1);
        }
        Some(Ok(row))
    }
}

impl<'a> LanceRow<'a> {
    /// The batch of the row.
    pub closed spec fn spec_batch(&self) -> &'a ColumnarBatch {
        self.batch
    }

    /// The index of the row in its batch.
    pub closed spec fn spec_row_index(&self) -> usize {
        self.row_index
    }

    /// The row lies in its batch, and the batch is well formed.
    pub open spec fn wf(&self) -> bool {
        self.spec_batch().wf() && self.spec_row_index() < self.spec_batch().num_rows
    }

    /// A row of a batch.
    pub fn new(batch: &'a ColumnarBatch, row_index: usize) -> (row: LanceRow<'a>)
        ensures
            row.spec_batch() == batch,
            row.spec_row_index() == row_index,
    {
        LanceRow { batch, row_index }
    }

    /// The batch of the row.
    pub fn batch(&self) -> (batch: &'a ColumnarBatch)
        ensures
            batch == self.spec_batch(),
    {
        self.batch
    }

    /// The index of the row in its batch.
    pub fn row_index(&self) -> (index: usize)
        ensures
            index == self.spec_row_index(),
    {
        self.row_index
    }

    /// The value of the row in a column, for the host. A column index
    /// beyond the columns of the batch is an invalid column reference.
    pub fn get_column_value(&self, column_index: usize) -> (value: Result<
        Option<Datum>,
        PgSqlErrorCode,
    >)
        requires
            self.wf(),
        ensures
            column_index >= self.spec_batch().columns@.len() ==> value == Err::<
                Option<Datum>,
                PgSqlErrorCode,
            >(PgSqlErrorCode::ERRCODE_INVALID_COLUMN_REFERENCE),
            column_index < self.spec_batch().columns@.len() ==> (value matches Ok(d) && datum_view(
                d,
            ) == cell_datum(
                self.spec_batch().columns@[column_index as int],
                self.spec_row_index() as int,
            )),
    {
        if column_index >= self.batch.num_columns() {
            return Err(PgSqlErrorCode::ERRCODE_INVALID_COLUMN_REFERENCE);
        }
        let column = self.batch.column(column_index);
        arrow_value_to_datum(column, self.row_index)
    }

    /// The values of the row in all columns, in the order of the columns.
    pub fn get_all_values(&self) -> (values: Result<Vec<Option<Datum>>, PgSqlErrorCode>)
        requires
            self.wf(),
        ensures
            values matches Ok(all) && all@.len() == self.spec_batch().columns@.len() && forall|
                c: int,
            |
                0 <= c < all@.len() ==> datum_view(#[trigger] all@[c]) == cell_datum(
                    self.spec_batch().columns@[c],
                    self.spec_row_index() as int,
                ),
    {
        let mut values: Vec<Option<Datum>> = Vec::new();
        let mut i: usize = 0;
        while i < self.batch.num_columns()
            invariant
                self.wf(),
                i <= self.spec_batch().columns@.len(),
                values@.len() == i,
                forall|c: int|
                    0 <= c < i ==> datum_view(#[trigger] values@[c]) == cell_datum(
                        self.spec_batch().columns@[c],
                        self.spec_row_index() as int,
                    ),
            decreases self.spec_batch().columns@.len() - i,
        {
            match self.get_column_value(i) {
                Ok(value) => values.push(value),
                Err(code) => {
                    return Err(code);
                },
            }
            i += 1;
        }
        Ok(values)
    }
}

/// The statistics of a dataset: its revision, the number of all its rows,
/// and its schema.
#[derive(Debug)]
pub struct LanceTableStats {
    pub version: u64,
    pub num_rows: usize,
    pub schema: Schema,
}

impl LanceTableStats {
    /// The statistics of a dataset with the given revision, row count and
    /// schema.
    pub fn new(version: u64, num_rows: usize, schema: Schema) -> (stats: LanceTableStats)
        ensures
            stats.version == version,
            stats.num_rows == num_rows,
            stats.schema == schema,
    {
        LanceTableStats { version, num_rows, schema }
    }

    /// The number of columns of the dataset.
    pub fn num_columns(&self) -> (n: usize)
        ensures
            n == self.schema.fields@.len(),
    {
        self.schema.fields.len()
    }
}

} // verus!
