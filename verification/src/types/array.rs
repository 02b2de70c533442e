//! Columns of cells, as a dataset provider hands them over.

use vstd::prelude::*;
use crate::types::data_type::TimeUnit;

verus! {

/// The cells of one column: a null marker for each row, and under it the
/// values in the layout of the column's physical type.
#[derive(Debug, PartialEq)]
pub struct ColumnArray {
    /// The provider's name for the physical type of the column.
    pub type_label: String,
    /// For each row, whether its cell is null.
    pub nulls: Vec<bool>,
    /// The values, one layout for each physical type.
    pub data: ColumnData,
}

/// The values of a column. A floating-point value is held as its bit
/// pattern in the width of its type.
#[derive(Debug, PartialEq)]
pub enum ColumnData {
    Boolean(Vec<bool>),
    Int8(Vec<i8>),
    Int16(Vec<i16>),
    Int32(Vec<i32>),
    Int64(Vec<i64>),
    UInt8(Vec<u8>),
    UInt16(Vec<u16>),
    UInt32(Vec<u32>),
    UInt64(Vec<u64>),
    /// Binary16 bit patterns.
    Float16(Vec<u16>),
    /// Binary32 bit patterns.
    Float32(Vec<u32>),
    /// Binary64 bit patterns.
    Float64(Vec<u64>),
    Utf8(Vec<String>),
    LargeUtf8(Vec<String>),
    Binary(Vec<Vec<u8>>),
    LargeBinary(Vec<Vec<u8>>),
    FixedSizeBinary(Vec<Vec<u8>>),
    /// Days since 1970-01-01.
    Date32(Vec<i32>),
    /// Milliseconds since 1970-01-01 00:00:00.
    Date64(Vec<i64>),
    /// Counts of the unit since 1970-01-01 00:00:00, with the time zone
    /// label of the column's type.
    Timestamp(TimeUnit, Option<String>, Vec<i64>),
    /// Offsets into the element column: row `r` holds the elements from
    /// offset `r` up to offset `r + 1`.
    List(Vec<i32>, Box<ColumnArray>),
    /// As `List`, with 64-bit offsets.
    LargeList(Vec<i64>, Box<ColumnArray>),
    /// A stride and the element column: row `r` holds the elements from
    /// `r` times the stride, as many as the stride.
    FixedSizeList(i32, Box<ColumnArray>),
    /// One column for each member, in the order of the struct type.
    Struct(Vec<NamedColumn>),
    /// A physical type whose values this library does not read.
    Unsupported,
}

/// A member column of a struct column, under the member's name.
#[derive(Debug, PartialEq)]
pub struct NamedColumn {
    pub name: String,
    pub array: ColumnArray,
}

impl ColumnArray {
    /// The number of rows.
    pub open spec fn rows(&self) -> nat {
        self.nulls@.len()
    }

    /// The number of rows.
    pub fn len(&self) -> (n: usize)
        ensures
            n == self.rows(),
    {
        self.nulls.len()
    }

    /// The column holds a value for each row: value vectors are as long as
    /// the null markers, list offsets rise from row to row within the
    /// element column, a fixed-size list has its stride times its rows as
    /// elements, the members of a struct have the rows of the struct, and
    /// the same holds of every column inside.
    pub open spec fn wf(&self) -> bool
        decreases self,
    {
        let rows = self.nulls@.len();
        match self.data {
            ColumnData::Boolean(v) => v@.len() == rows,
            ColumnData::Int8(v) => v@.len() == rows,
            ColumnData::Int16(v) => v@.len() == rows,
            ColumnData::Int32(v) => v@.len() == rows,
            ColumnData::Int64(v) => v@.len() == rows,
            ColumnData::UInt8(v) => v@.len() == rows,
            ColumnData::UInt16(v) => v@.len() == rows,
            ColumnData::UInt32(v) => v@.len() == rows,
            ColumnData::UInt64(v) => v@.len() == rows,
            ColumnData::Float16(v) => v@.len() == rows,
            ColumnData::Float32(v) => v@.len() == rows,
            ColumnData::Float64(v) => v@.len() == rows,
            ColumnData::Utf8(v) => v@.len() == rows,
            ColumnData::LargeUtf8(v) => v@.len() == rows,
            ColumnData::Binary(v) => v@.len() == rows,
            ColumnData::LargeBinary(v) => v@.len() == rows,
            ColumnData::FixedSizeBinary(v) => v@.len() == rows,
            ColumnData::Date32(v) => v@.len() == rows,
            ColumnData::Date64(v) => v@.len() == rows,
            ColumnData::Timestamp(_, _, v) => v@.len() == rows,
            ColumnData::List(offsets, elements) => {
                &&& offsets@.len() == rows + 1
                &&& forall|r: int|
                    0 <= r < rows ==> 0 <= #[trigger] offsets@[r] <= offsets@[r + 1]
                        <= elements.nulls@.len()
                &&& elements.wf()
            },
            ColumnData::LargeList(offsets, elements) => {
                &&& offsets@.len() == rows + 1
                &&& forall|r: int|
                    0 <= r < rows ==> 0 <= #[trigger] offsets@[r] <= offsets@[r + 1]
                        <= elements.nulls@.len()
                &&& elements.wf()
            },
            ColumnData::FixedSizeList(stride, elements) => {
                &&& stride >= 0
                &&& elements.nulls@.len() == rows * stride
                &&& elements.wf()
            },
            ColumnData::Struct(members) => forall|m: int|
                0 <= m < members@.len() ==> {
                    &&& (#[trigger] members@[m]).array.nulls@.len() == rows
                    &&& members@[m].array.wf()
                },
            ColumnData::Unsupported => true,
        }
    }
}

/// The rows of a column can be counted in a `usize`: they are as many as
/// the null markers, which a vector holds.
pub proof fn lemma_rows_fit(array: &ColumnArray)
    ensures
        array.rows() <= usize::MAX,
{
    assert(array.nulls@.len() == array.nulls.len());
}

/// Whether 32-bit list offsets rise from row to row, from zero or more up
/// to at most `limit`.
fn offsets_rise(offsets: &Vec<i32>, rows: usize, limit: usize) -> (ok: bool)
    requires
        offsets@.len() == rows + 1,
    ensures
        ok == forall|r: int|
            0 <= r < rows ==> 0 <= #[trigger] offsets@[r] <= offsets@[r + 1] <= limit,
{
    let mut r: usize = 0;
    while r < rows
        invariant
            r <= rows,
            offsets@.len() == rows + 1,
            forall|k: int| 0 <= k < r ==> 0 <= #[trigger] offsets@[k] <= offsets@[k + 1] <= limit,
        decreases rows - r,
    {
        let low = offsets[r];
        let high = offsets[r + 1];
        if low < 0 || high < low || high as u64 > limit as u64 {
            assert(!(0 <= offsets@[r as int] <= offsets@[r + 1] <= limit));
            return false;
        }
        r += 1;
    }
    true
}

/// Whether 64-bit list offsets rise from row to row, from zero or more up
/// to at most `limit`.
fn large_offsets_rise(offsets: &Vec<i64>, rows: usize, limit: usize) -> (ok: bool)
    requires
        offsets@.len() == rows + 1,
    ensures
        ok == forall|r: int|
            0 <= r < rows ==> 0 <= #[trigger] offsets@[r] <= offsets@[r + 1] <= limit,
{
    let mut r: usize = 0;
    while r < rows
        invariant
            r <= rows,
            offsets@.len() == rows + 1,
            forall|k: int| 0 <= k < r ==> 0 <= #[trigger] offsets@[k] <= offsets@[k + 1] <= limit,
        decreases rows - r,
    {
        let low = offsets[r];
        let high = offsets[r + 1];
        if low < 0 || high < low || high as u64 > limit as u64 {
            assert(!(0 <= offsets@[r as int] <= offsets@[r + 1] <= limit));
            return false;
        }
        r += 1;
    }
    true
}

/// Whether every member column of a struct is well formed and has the
/// given number of rows.
fn members_well_formed(members: &Vec<NamedColumn>, rows: usize) -> (ok: bool)
    ensures
        ok == forall|m: int|
            0 <= m < members@.len() ==> {
                &&& (#[trigger] members@[m]).array.nulls@.len() == rows
                &&& members@[m].array.wf()
            },
    decreases members, 0nat,
{
    let mut m: usize = 0;
    while m < members.len()
        invariant
            m <= members@.len(),
            forall|k: int|
                0 <= k < m ==> {
                    &&& (#[trigger] members@[k]).array.nulls@.len() == rows
                    &&& members@[k].array.wf()
                },
        decreases members@.len() - m,
    {
        let member = &members[m];
        if member.array.len() != rows || !member.array.is_well_formed() {
            return false;
        }
        m += 1;
    }
    true
}

impl ColumnArray {
    /// Whether the column is well formed, found by looking at it.
    pub fn is_well_formed(&self) -> (ok: bool)
        ensures
            ok == self.wf(),
        decreases self, 0nat,
    {
        let rows = self.nulls.len();
        match &self.data {
            ColumnData::Boolean(v) => v.len() == rows,
            ColumnData::Int8(v) => v.len() == rows,
            ColumnData::Int16(v) => v.len() == rows,
            ColumnData::Int32(v) => v.len() == rows,
            ColumnData::Int64(v) => v.len() == rows,
            ColumnData::UInt8(v) => v.len() == rows,
            ColumnData::UInt16(v) => v.len() == rows,
            ColumnData::UInt32(v) => v.len() == rows,
            ColumnData::UInt64(v) => v.len() == rows,
            ColumnData::Float16(v) => v.len() == rows,
            ColumnData::Float32(v) => v.len() == rows,
            ColumnData::Float64(v) => v.len() == rows,
            ColumnData::Utf8(v) => v.len() == rows,
            ColumnData::LargeUtf8(v) => v.len() == rows,
            ColumnData::Binary(v) => v.len() == rows,
            ColumnData::LargeBinary(v) => v.len() == rows,
            ColumnData::FixedSizeBinary(v) => v.len() == rows,
            ColumnData::Date32(v) => v.len() == rows,
            ColumnData::Date64(v) => v.len() == rows,
            ColumnData::Timestamp(_, _, v) => v.len() == rows,
            ColumnData::List(offsets, elements) => {
                offsets.len() >= 1 && offsets.len() - 1 == rows && offsets_rise(
                    offsets,
                    rows,
                    elements.len(),
                ) && elements.is_well_formed()
            },
            ColumnData::LargeList(offsets, elements) => {
                offsets.len() >= 1 && offsets.len() - 1 == rows && large_offsets_rise(
                    offsets,
                    rows,
                    elements.len(),
                ) && elements.is_well_formed()
            },
            ColumnData::FixedSizeList(stride, elements) => {
                if *stride < 0 {
                    return false;
                }
                let element_rows = elements.len();
                match rows.checked_mul(*stride as usize) {
                    Some(product) => product == element_rows && elements.is_well_formed(),
                    None => false,
                }
            },
            ColumnData::Struct(members) => members_well_formed(members, rows),
            ColumnData::Unsupported => true,
        }
    }
}

} // verus!
