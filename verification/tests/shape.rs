use pglance::types::array::{ColumnArray, ColumnData, NamedColumn};
use pglance::types::batch::ColumnarBatch;
use pglance::types::data_type::TimeUnit;

fn column(rows: usize, data: ColumnData) -> ColumnArray {
    ColumnArray { type_label: "column".to_string(), nulls: vec![false; rows], data }
}

fn ints(rows: usize) -> ColumnArray {
    column(rows, ColumnData::Int32(vec![0; rows]))
}

#[test]
fn a_column_needs_a_value_for_each_row() {
    assert!(column(2, ColumnData::Boolean(vec![true, false])).is_well_formed());
    assert!(!column(2, ColumnData::Boolean(vec![true])).is_well_formed());
    assert!(!column(0, ColumnData::Int8(vec![1])).is_well_formed());
    assert!(!column(1, ColumnData::Int16(vec![])).is_well_formed());
    assert!(!column(1, ColumnData::Int32(vec![1, 2])).is_well_formed());
    assert!(!column(1, ColumnData::Int64(vec![])).is_well_formed());
    assert!(!column(1, ColumnData::UInt8(vec![])).is_well_formed());
    assert!(!column(1, ColumnData::UInt16(vec![])).is_well_formed());
    assert!(!column(1, ColumnData::UInt32(vec![])).is_well_formed());
    assert!(!column(1, ColumnData::UInt64(vec![])).is_well_formed());
    assert!(!column(1, ColumnData::Float16(vec![])).is_well_formed());
    assert!(!column(1, ColumnData::Float32(vec![])).is_well_formed());
    assert!(!column(1, ColumnData::Float64(vec![])).is_well_formed());
    assert!(!column(1, ColumnData::Utf8(vec![])).is_well_formed());
    assert!(!column(1, ColumnData::LargeUtf8(vec![])).is_well_formed());
    assert!(!column(1, ColumnData::Binary(vec![])).is_well_formed());
    assert!(!column(1, ColumnData::LargeBinary(vec![])).is_well_formed());
    assert!(!column(1, ColumnData::FixedSizeBinary(vec![])).is_well_formed());
    assert!(!column(1, ColumnData::Date32(vec![])).is_well_formed());
    assert!(!column(1, ColumnData::Date64(vec![])).is_well_formed());
    assert!(!column(1, ColumnData::Timestamp(TimeUnit::Second, None, vec![])).is_well_formed());
    assert!(column(0, ColumnData::Date64(vec![])).is_well_formed());
    assert!(column(3, ColumnData::Unsupported).is_well_formed());
    assert_eq!(column(3, ColumnData::Unsupported).len(), 3);
}

#[test]
fn list_offsets_must_rise_within_the_elements() {
    let list = |offsets: Vec<i32>, rows: usize, elements: usize| {
        column(rows, ColumnData::List(offsets, Box::new(ints(elements))))
    };
    assert!(list(vec![0, 2, 2, 5], 3, 5).is_well_formed());
    assert!(list(vec![0], 0, 0).is_well_formed());
    assert!(list(vec![3], 0, 0).is_well_formed());
    assert!(list(vec![1, 2], 1, 5).is_well_formed());
    assert!(!list(vec![], 0, 0).is_well_formed());
    assert!(!list(vec![0, 2, 5], 3, 5).is_well_formed());
    assert!(!list(vec![0, 2, 2, 5, 5], 3, 5).is_well_formed());
    assert!(!list(vec![0, 3, 2, 5], 3, 5).is_well_formed());
    assert!(!list(vec![-1, 2, 2, 5], 3, 5).is_well_formed());
    assert!(!list(vec![0, 2, 2, 6], 3, 5).is_well_formed());
    assert!(!list(vec![0, 1], 1, 0).is_well_formed());
}

#[test]
fn large_list_offsets_must_rise_within_the_elements() {
    let list = |offsets: Vec<i64>, rows: usize, elements: usize| {
        column(rows, ColumnData::LargeList(offsets, Box::new(ints(elements))))
    };
    assert!(list(vec![0, 2, 2, 5], 3, 5).is_well_formed());
    assert!(!list(vec![], 0, 0).is_well_formed());
    assert!(!list(vec![0, 3, 2, 5], 3, 5).is_well_formed());
    assert!(!list(vec![-1, 2, 2, 5], 3, 5).is_well_formed());
    assert!(!list(vec![0, 2, 2, i64::MAX], 3, 5).is_well_formed());
    assert!(!list(vec![i64::MIN, 0], 1, 5).is_well_formed());
}

#[test]
fn a_fixed_size_list_has_its_stride_for_each_row() {
    let list = |stride: i32, rows: usize, elements: usize| {
        column(rows, ColumnData::FixedSizeList(stride, Box::new(ints(elements))))
    };
    assert!(list(4, 3, 12).is_well_formed());
    assert!(list(0, 3, 0).is_well_formed());
    assert!(list(7, 0, 0).is_well_formed());
    assert!(!list(4, 3, 11).is_well_formed());
    assert!(!list(4, 3, 13).is_well_formed());
    assert!(!list(-1, 3, 0).is_well_formed());
    assert!(!list(-4, 3, 12).is_well_formed());
    assert!(!list(i32::MAX, 3, 12).is_well_formed());
}

#[test]
fn the_members_of_a_struct_have_its_rows() {
    let member = |name: &str, array: ColumnArray| NamedColumn { name: name.to_string(), array };
    assert!(column(2, ColumnData::Struct(vec![])).is_well_formed());
    assert!(column(2, ColumnData::Struct(vec![member("a", ints(2)), member("a", ints(2))]))
        .is_well_formed());
    assert!(!column(2, ColumnData::Struct(vec![member("a", ints(2)), member("b", ints(3))]))
        .is_well_formed());
    assert!(!column(2, ColumnData::Struct(vec![member("a", ints(1))])).is_well_formed());
}

#[test]
fn a_column_inside_must_be_well_formed_too() {
    let broken = || column(2, ColumnData::Int32(vec![1]));
    assert!(!column(1, ColumnData::List(vec![0, 2], Box::new(broken()))).is_well_formed());
    assert!(!column(1, ColumnData::LargeList(vec![0, 2], Box::new(broken()))).is_well_formed());
    assert!(!column(1, ColumnData::FixedSizeList(2, Box::new(broken()))).is_well_formed());
    assert!(!column(
        2,
        ColumnData::Struct(vec![NamedColumn { name: "a".to_string(), array: broken() }])
    )
    .is_well_formed());
    let deep = column(
        1,
        ColumnData::List(
            vec![0, 1],
            Box::new(column(1, ColumnData::FixedSizeList(2, Box::new(broken())))),
        ),
    );
    assert!(!deep.is_well_formed());
}

#[test]
fn a_batch_has_its_rows_in_every_column() {
    assert!(ColumnarBatch::new(0, vec![]).is_well_formed());
    assert!(ColumnarBatch::new(9, vec![]).is_well_formed());
    assert!(ColumnarBatch::new(2, vec![ints(2), ints(2)]).is_well_formed());
    assert!(!ColumnarBatch::new(2, vec![ints(2), ints(3)]).is_well_formed());
    assert!(!ColumnarBatch::new(3, vec![ints(2)]).is_well_formed());
    assert!(!ColumnarBatch::new(2, vec![column(2, ColumnData::Utf8(vec![]))]).is_well_formed());
    let batch = ColumnarBatch::new(2, vec![ints(2)]);
    assert_eq!(batch.num_rows(), 2);
    assert_eq!(batch.num_columns(), 1);
    assert_eq!(batch.column(0), &ints(2));
}
