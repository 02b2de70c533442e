//! The conversion of a cell of a column into a generic value.

use vstd::prelude::*;
use vstd::string::StringExecFns;
use crate::json::binary::{binary_value, binary_view};
use crate::json::float::{f16_value, f16_view, f32_value, f32_view, f64_value, f64_view};
use crate::json::temporal::{
    date32_value,
    date32_view,
    date64_value,
    date64_view,
    timestamp_value,
    timestamp_view,
};
use crate::json::value::{
    entries_view,
    has_key,
    insert_entry,
    items_view,
    keys_distinct,
    lemma_array_view,
    lemma_object_insert,
    lemma_object_view,
    object_get,
    object_insert,
    CanonicalValue,
    EntryView,
    Number,
    NumberView,
    ValueView,
};
use crate::types::array::{lemma_rows_fit, ColumnArray, ColumnData, NamedColumn};

verus! {

/// The text that stands for a cell of a physical type whose values are not
/// read: it names the type.
pub open spec fn unsupported_text(type_label: Seq<char>) -> Seq<char> {
    "<unsupported_type: "@ + type_label + ">"@
}

/// The entries of the object that is filled with the given names and values
/// in their order: a name that comes again keeps its place and takes the
/// later value.
pub open spec fn object_of(members: Seq<EntryView>) -> Seq<EntryView>
    decreases members.len(),
{
    if members.len() == 0 {
        Seq::empty()
    } else {
        object_insert(object_of(members.drop_last()), members.last().name, members.last().value)
    }
}

/// The value that the last member of the given name has; none where no
/// member has the name.
pub open spec fn last_value(members: Seq<EntryView>, key: Seq<char>) -> Option<ValueView>
    decreases members.len(),
{
    if members.len() == 0 {
        None
    } else if members.last().name == key {
        Some(members.last().value)
    } else {
        last_value(members.drop_last(), key)
    }
}

/// An object that is filled with names and values has each name once, and
/// under each name the value that came last with it.
pub proof fn lemma_object_of(members: Seq<EntryView>)
    ensures
        keys_distinct(object_of(members)),
        forall|key: Seq<char>| object_get(object_of(members), key) == last_value(members, key),
    decreases members.len(),
{
    if members.len() == 0 {
        assert forall|key: Seq<char>| object_get(object_of(members), key) == last_value(
            members,
            key,
        ) by {
            assert(!has_key(object_of(members), key));
        }
    } else {
        let before = object_of(members.drop_last());
        let last = members.last();
        lemma_object_of(members.drop_last());
        lemma_object_insert(before, last.name, last.value);
        assert(object_of(members) == object_insert(before, last.name, last.value));
        assert forall|key: Seq<char>| object_get(object_of(members), key) == last_value(
            members,
            key,
        ) by {
            if key != last.name {
                assert(object_get(before, key) == last_value(members.drop_last(), key));
            }
        }
    }
}

/// What the cell in a row of a column converts to.
///
/// A null cell is null, whatever the type. Booleans, integers and texts
/// keep their value. A floating-point cell is its value as binary64, or null
/// where it is not finite. Dates and timestamps are calendar texts, binary
/// cells base64 texts. A list cell is the array of its elements, found by
/// the offsets or the stride of the column; a struct cell is the object of
/// its members at the same row. Any other cell is a text that names the
/// type.
pub open spec fn cell_value(array: ColumnArray, row: int) -> ValueView
    decreases array, 0nat,
{
    if array.nulls@[row] {
        ValueView::Null
    } else {
        match array.data {
            ColumnData::Boolean(v) => ValueView::Bool(v@[row]),
            ColumnData::Int8(v) => ValueView::Number(NumberView::Integer(v@[row] as int)),
            ColumnData::Int16(v) => ValueView::Number(NumberView::Integer(v@[row] as int)),
            ColumnData::Int32(v) => ValueView::Number(NumberView::Integer(v@[row] as int)),
            ColumnData::Int64(v) => ValueView::Number(NumberView::Integer(v@[row] as int)),
            ColumnData::UInt8(v) => ValueView::Number(NumberView::Integer(v@[row] as int)),
            ColumnData::UInt16(v) => ValueView::Number(NumberView::Integer(v@[row] as int)),
            ColumnData::UInt32(v) => ValueView::Number(NumberView::Integer(v@[row] as int)),
            ColumnData::UInt64(v) => ValueView::Number(NumberView::Integer(v@[row] as int)),
            ColumnData::Float16(v) => f16_view(v@[row]),
            ColumnData::Float32(v) => f32_view(v@[row]),
            ColumnData::Float64(v) => f64_view(v@[row]),
            ColumnData::Utf8(v) => ValueView::Text(v@[row]@),
            ColumnData::LargeUtf8(v) => ValueView::Text(v@[row]@),
            ColumnData::Binary(v) => binary_view(v@[row]@),
            ColumnData::LargeBinary(v) => binary_view(v@[row]@),
            ColumnData::FixedSizeBinary(v) => binary_view(v@[row]@),
            ColumnData::Date32(v) => date32_view(v@[row]),
            ColumnData::Date64(v) => date64_view(v@[row]),
            ColumnData::Timestamp(unit, zone, v) => timestamp_view(unit, zone, v@[row]),
            ColumnData::List(offsets, elements) => ValueView::Array(
                list_items(
                    *elements,
                    offsets@[row] as int,
                    (offsets@[row + 1] - offsets@[row]) as nat,
                ),
            ),
            ColumnData::LargeList(offsets, elements) => ValueView::Array(
                list_items(
                    *elements,
                    offsets@[row] as int,
                    (offsets@[row + 1] - offsets@[row]) as nat,
                ),
            ),
            ColumnData::FixedSizeList(stride, elements) => ValueView::Array(
                list_items(*elements, row * stride, stride as nat),
            ),
            ColumnData::Struct(members) => ValueView::Object(
                object_of(member_entries(members, row)),
            ),
            ColumnData::Unsupported => ValueView::Text(unsupported_text(array.type_label@)),
        }
    }
}

/// What `count` cells of a column convert to, from row `start` on.
pub open spec fn list_items(elements: ColumnArray, start: int, count: nat) -> Seq<ValueView>
    decreases elements, 1nat,
{
    Seq::new(count, |i: int| cell_value(elements, start + i))
}

/// The names of the member columns of a struct with what their cells in a
/// row convert to, in the order of the members.
pub open spec fn member_entries(members: Vec<NamedColumn>, row: int) -> Seq<EntryView>
    decreases members, 1nat,
{
    Seq::new(
        members@.len(),
        |m: int|
            if 0 <= m < members@.len() {
                EntryView { name: members@[m].name@, value: cell_value(members@[m].array, row) }
            } else {
                EntryView { name: Seq::empty(), value: ValueView::Null }
            },
    )
}

/// A null cell converts to null, whatever the type of its column and
/// whatever lies under the null marker.
pub proof fn lemma_null_first(array: ColumnArray, row: int)
    requires
        array.nulls@[row],
    ensures
        cell_value(array, row) == ValueView::Null,
{
}

/// The value of a signed integer cell.
fn integer_value(v: i64) -> (value: CanonicalValue)
    ensures
        value@ == ValueView::Number(NumberView::Integer(v as int)),
        value.wf(),
{
    CanonicalValue::Number(Number::from_i64(v))
}

/// The value of an unsigned integer cell.
fn unsigned_value(v: u64) -> (value: CanonicalValue)
    ensures
        value@ == ValueView::Number(NumberView::Integer(v as int)),
        value.wf(),
{
    CanonicalValue::Number(Number::from_u64(v))
}

/// The text that stands for a cell of a type whose values are not read.
pub fn unsupported_value(type_label: &String) -> (value: CanonicalValue)
    ensures
        value@ == ValueView::Text(unsupported_text(type_label@)),
        value.wf(),
{
    CanonicalValue::Text("<unsupported_type: ".to_owned().concat(type_label.as_str()).concat(">"))
}

/// Converts `count` cells of a column from row `start` on, in order, into
/// an array.
fn handle_list(elements: &ColumnArray, start: usize, count: usize) -> (value: CanonicalValue)
    requires
        elements.wf(),
        start + count <= elements.rows(),
    ensures
        value@ == ValueView::Array(list_items(*elements, start as int, count as nat)),
        value.wf(),
    decreases elements, 1nat,
{
    proof {
        lemma_rows_fit(elements);
    }
    let mut items: Vec<CanonicalValue> = Vec::new();
    let mut i: usize = 0;
    while i < count
        invariant
            i <= count,
            elements.wf(),
            start + count <= elements.rows() <= usize::MAX,
            items@.len() == i,
            forall|j: int|
                0 <= j < i ==> {
                    &&& (#[trigger] items@[j])@ == cell_value(*elements, start + j)
                    &&& items@[j].wf()
                },
        decreases count - i,
    {
        items.push(arrow_value_to_json(elements, start + i));
        i += 1;
    }
    proof {
        lemma_array_view(items);
        assert(items_view(items@) =~= list_items(*elements, start as int, count as nat));
    }
    CanonicalValue::Array(items)
}

/// Converts the members of a struct at one row into an object.
fn handle_struct(members: &Vec<NamedColumn>, row_idx: usize) -> (value: CanonicalValue)
    requires
        forall|m: int|
            0 <= m < members@.len() ==> {
                &&& row_idx < (#[trigger] members@[m]).array.rows()
                &&& members@[m].array.wf()
            },
    ensures
        value@ == ValueView::Object(object_of(member_entries(*members, row_idx as int))),
        value.wf(),
    decreases members, 0nat,
{
    let ghost named = member_entries(*members, row_idx as int);
    let mut entries: Vec<(String, CanonicalValue)> = Vec::new();
    let mut m: usize = 0;
    assert(entries_view(entries@) =~= object_of(named.take(0)));
    while m < members.len()
        invariant
            m <= members.len(),
            forall|k: int|
                0 <= k < members@.len() ==> {
                    &&& row_idx < (#[trigger] members@[k]).array.rows()
                    &&& members@[k].array.wf()
                },
            named == member_entries(*members, row_idx as int),
            entries_view(entries@) == object_of(named.take(m as int)),
            keys_distinct(entries_view(entries@)),
            forall|k: int| 0 <= k < entries@.len() ==> (#[trigger] entries@[k]).1.wf(),
        decreases members.len() - m,
    {
        let member = &members[m];
        let value = arrow_value_to_json(&member.array, row_idx);
        insert_entry(&mut entries, member.name.clone(), value);
        proof {
            let grown = named.take(m + 1);
            assert(grown.drop_last() =~= named.take(m as int));
            assert(grown.last() == named[m as int]);
        }
        m += 1;
    }
    proof {
        assert(named.take(m as int) =~= named);
        lemma_object_view(entries);
    }
    CanonicalValue::Object(entries)
}

/// Converts the cell in row `row_idx` of a column.
///
/// The contract is `cell_value`: the result stands for exactly that value,
/// with every number in its one representation and no name twice in an
/// object.
pub fn arrow_value_to_json(array: &ColumnArray, row_idx: usize) -> (value: CanonicalValue)
    requires
        array.wf(),
        row_idx < array.rows(),
    ensures
        value@ == cell_value(*array, row_idx as int),
        value.wf(),
    decreases array, 0nat,
{
    if array.nulls[row_idx] {
        return CanonicalValue::Null;
    }
    match &array.data {
        ColumnData::Boolean(v) => CanonicalValue::Bool(v[row_idx]),
        ColumnData::Int8(v) => integer_value(v[row_idx] as i64),
        ColumnData::Int16(v) => integer_value(v[row_idx] as i64),
        ColumnData::Int32(v) => integer_value(v[row_idx] as i64),
        ColumnData::Int64(v) => integer_value(v[row_idx]),
        ColumnData::UInt8(v) => unsigned_value(v[row_idx] as u64),
        ColumnData::UInt16(v) => unsigned_value(v[row_idx] as u64),
        ColumnData::UInt32(v) => unsigned_value(v[row_idx] as u64),
        ColumnData::UInt64(v) => unsigned_value(v[row_idx]),
        ColumnData::Float16(v) => f16_value(v[row_idx]),
        ColumnData::Float32(v) => f32_value(v[row_idx]),
        ColumnData::Float64(v) => f64_value(v[row_idx]),
        ColumnData::Utf8(v) => CanonicalValue::Text(v[row_idx].clone()),
        ColumnData::LargeUtf8(v) => CanonicalValue::Text(v[row_idx].clone()),
        ColumnData::Binary(v) => binary_value(&v[row_idx]),
        ColumnData::LargeBinary(v) => binary_value(&v[row_idx]),
        ColumnData::FixedSizeBinary(v) => binary_value(&v[row_idx]),
        ColumnData::Date32(v) => date32_value(v[row_idx]),
        ColumnData::Date64(v) => date64_value(v[row_idx]),
        ColumnData::Timestamp(unit, zone, v) => timestamp_value(*unit, zone, v[row_idx]),
        ColumnData::List(offsets, elements) => {
            proof {
                lemma_rows_fit(array);
            }
            let start = offsets[row_idx] as usize;
            let end = offsets[row_idx + 1] as usize;
            handle_list(elements, start, end - start)
        },
        ColumnData::LargeList(offsets, elements) => {
            proof {
                lemma_rows_fit(array);
                lemma_rows_fit(elements);
            }
            let start = offsets[row_idx] as usize;
            let end = offsets[row_idx + 1] as usize;
            handle_list(elements, start, end - start)
        },
        ColumnData::FixedSizeList(stride, elements) => {
            let width = *stride as usize;
            proof {
                lemma_rows_fit(elements);
            }
            assert(0 <= row_idx * width && row_idx * width + width <= array.rows() * width)
                by (nonlinear_arith)
                requires
                    row_idx < array.rows(),
                    0 <= width,
            ;
            handle_list(elements, row_idx * width, width)
        },
        ColumnData::Struct(members) => handle_struct(members, row_idx),
        ColumnData::Unsupported => unsupported_value(&array.type_label),
    }
}

} // verus!
