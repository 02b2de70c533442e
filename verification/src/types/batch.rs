//! Batches: blocks of rows with one column array for each column.

use vstd::prelude::*;
use crate::types::array::ColumnArray;

verus! {

/// A block of `num_rows` rows, with one array for each column.
#[derive(Debug, PartialEq)]
pub struct ColumnarBatch {
    pub num_rows: usize,
    pub columns: Vec<ColumnArray>,
}

impl ColumnarBatch {
    /// Every column is well formed and has the rows of the batch.
    pub open spec fn wf(&self) -> bool {
        forall|c: int|
            0 <= c < self.columns@.len() ==> {
                &&& (#[trigger] self.columns@[c]).wf()
                &&& self.columns@[c].rows() == self.num_rows
            }
    }

    /// Whether the batch is well formed, found by looking at it.
    pub fn is_well_formed(&self) -> (ok: bool)
        ensures
            ok == self.wf(),
    {
        let mut c: usize = 0;
        while c < self.columns.len()
            invariant
                c <= self.columns@.len(),
                forall|k: int|
                    0 <= k < c ==> {
                        &&& (#[trigger] self.columns@[k]).wf()
                        &&& self.columns@[k].rows() == self.num_rows
                    },
            decreases self.columns@.len() - c,
        {
            let column = &self.columns[c];
            if column.len() != self.num_rows || !column.is_well_formed() {
                return false;
            }
            c += 1;
        }
        true
    }

    /// A batch of the given columns.
    pub fn new(num_rows: usize, columns: Vec<ColumnArray>) -> (batch: ColumnarBatch)
        ensures
            batch.num_rows == num_rows,
            batch.columns == columns,
    {
        ColumnarBatch { num_rows, columns }
    }

    /// The number of rows.
    pub fn num_rows(&self) -> (n: usize)
        ensures
            n == self.num_rows,
    {
        self.num_rows
    }

    /// The number of columns.
    pub fn num_columns(&self) -> (n: usize)
        ensures
            n == self.columns@.len(),
    {
        self.columns.len()
    }

    /// The array of a column.
    pub fn column(&self, index: usize) -> (array: &ColumnArray)
        requires
            index < self.columns@.len(),
        ensures
            *array == self.columns@[index as int],
    {
        &self.columns[index]
    }
}

/// The number of rows of each batch, in the order of the batches.
pub open spec fn batch_rows(batches: Seq<ColumnarBatch>) -> Seq<nat> {
    Seq::new(batches.len(), |b: int| batches[b].num_rows as nat)
}

} // verus!
