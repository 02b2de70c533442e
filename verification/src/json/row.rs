//! The conversion of a row of a batch into an object.

use vstd::prelude::*;
use crate::json::convert::{arrow_value_to_json, cell_value, object_of};
use crate::json::value::{
    entries_view,
    insert_entry,
    keys_distinct,
    lemma_object_view,
    CanonicalValue,
    EntryView,
    ValueView,
};
use crate::types::batch::ColumnarBatch;
use crate::types::data_type::{Field, Schema};

verus! {

/// The names of the fields of a schema with what the cells of a row
/// convert to, column by column.
pub open spec fn row_entries(fields: Seq<Field>, batch: ColumnarBatch, row: int) -> Seq<EntryView> {
    Seq::new(
        fields.len(),
        |c: int| EntryView { name: fields[c].name@, value: cell_value(batch.columns@[c], row) },
    )
}

/// What a row of a batch converts to: the object that has, under the name
/// of each field of the schema, the value of the row in the column of that
/// field. Where two fields have one name, the later column gives the value.
pub open spec fn row_value(fields: Seq<Field>, batch: ColumnarBatch, row: int) -> ValueView {
    ValueView::Object(object_of(row_entries(fields, batch, row)))
}

/// A batch has a column for each field of a schema.
pub open spec fn fits_schema(schema: Schema, batch: ColumnarBatch) -> bool {
    schema.fields@.len() <= batch.columns@.len()
}

/// Whether every batch is well formed and has a column for each field of
/// the schema, found by looking at the batches.
pub fn batches_fit(schema: &Schema, batches: &Vec<ColumnarBatch>) -> (ok: bool)
    ensures
        ok == forall|b: int|
            0 <= b < batches@.len() ==> (#[trigger] batches@[b]).wf() && fits_schema(
                *schema,
                batches@[b],
            ),
{
    let mut b: usize = 0;
    while b < batches.len()
        invariant
            b <= batches@.len(),
            forall|k: int|
                0 <= k < b ==> (#[trigger] batches@[k]).wf() && fits_schema(*schema, batches@[k]),
        decreases batches@.len() - b,
    {
        let batch = &batches[b];
        if schema.fields.len() > batch.num_columns() || !batch.is_well_formed() {
            return false;
        }
        b += 1;
    }
    true
}

/// Converts row `row_idx` of a batch into an object keyed by the names of
/// the schema's fields.
pub fn row_to_json(schema: &Schema, batch: &ColumnarBatch, row_idx: usize) -> (value:
    CanonicalValue)
    requires
        batch.wf(),
        fits_schema(*schema, *batch),
        row_idx < batch.num_rows,
    ensures
        value@ == row_value(schema.fields@, *batch, row_idx as int),
        value.wf(),
{
    let ghost named = row_entries(schema.fields@, *batch, row_idx as int);
    let mut entries: Vec<(String, CanonicalValue)> = Vec::new();
    let mut c: usize = 0;
    assert(entries_view(entries@) =~= object_of(named.take(0)));
    while c < schema.fields.len()
        invariant
            c <= schema.fields@.len(),
            batch.wf(),
            fits_schema(*schema, *batch),
            row_idx < batch.num_rows,
            named == row_entries(schema.fields@, *batch, row_idx as int),
            entries_view(entries@) == object_of(named.take(c as int)),
            keys_distinct(entries_view(entries@)),
            forall|k: int| 0 <= k < entries@.len() ==> (#[trigger] entries@[k]).1.wf(),
        decreases schema.fields@.len() - c,
    {
        let value = arrow_value_to_json(batch.column(c), row_idx);
        insert_entry(&mut entries, schema.fields[c].name.clone(), value);
        proof {
            let grown = named.take(c + 1);
            assert(grown.drop_last() =~= named.take(c as int));
            assert(grown.last() == named[c as int]);
        }
        c += 1;
    }
    proof {
        assert(named.take(c as int) =~= named);
        lemma_object_view(entries);
    }
    CanonicalValue::Object(entries)
}

} // verus!
