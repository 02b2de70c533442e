use pglance::json::row::{batches_fit, row_to_json};
use pglance::json::value::{CanonicalValue, Number};
use pglance::scanner::lance_scanner::LanceTableStats;
use pglance::types::array::{ColumnArray, ColumnData};
use pglance::types::batch::ColumnarBatch;
use pglance::types::data_type::{ColumnType, Field, Schema};
use pglance::{hello_pglance, lance_scan_jsonb, lance_table_info, lance_table_stats};

fn field(name: &str, data_type: ColumnType) -> Field {
    Field::new(name.to_string(), data_type, false)
}

fn array(label: &str, rows: usize, data: ColumnData) -> ColumnArray {
    ColumnArray { type_label: label.to_string(), nulls: vec![false; rows], data }
}

fn simple_schema() -> Schema {
    Schema::new(vec![
        field("id", ColumnType::Int32),
        field("name", ColumnType::Utf8),
        field("age", ColumnType::Int32),
        field("salary", ColumnType::Float32),
        field("is_active", ColumnType::Boolean),
    ])
}

fn simple_batches() -> Vec<ColumnarBatch> {
    let names = ["Alice", "Bob", "Charlie", "David", "Eve"];
    let salaries = [50000.5f32, 65000.0, 80000.25, 95000.75, 120000.0];
    vec![ColumnarBatch::new(
        5,
        vec![
            array("Int32", 5, ColumnData::Int32(vec![1, 2, 3, 4, 5])),
            array("Utf8", 5, ColumnData::Utf8(names.iter().map(|s| s.to_string()).collect())),
            array("Int32", 5, ColumnData::Int32(vec![25, 30, 35, 40, 45])),
            array("Float32", 5, ColumnData::Float32(salaries.iter().map(|v| v.to_bits()).collect())),
            array("Boolean", 5, ColumnData::Boolean(vec![true, true, false, true, false])),
        ],
    )]
}

fn vector_schema() -> Schema {
    Schema::new(vec![
        field("id", ColumnType::Int32),
        field("document", ColumnType::Utf8),
        field("embedding", ColumnType::List(Box::new(ColumnType::Float32))),
    ])
}

fn vector_batches() -> Vec<ColumnarBatch> {
    let embeddings: Vec<f32> = vec![0.1, 0.2, 0.3, 0.4, 0.5, 0.6, 0.7, 0.8, 0.9, 1.0, 1.1, 1.2];
    let elements = ColumnArray {
        type_label: "Float32".to_string(),
        nulls: vec![false; 12],
        data: ColumnData::Float32(embeddings.iter().map(|v| v.to_bits()).collect()),
    };
    vec![ColumnarBatch::new(
        3,
        vec![
            array("Int32", 3, ColumnData::Int32(vec![1, 2, 3])),
            array(
                "Utf8",
                3,
                ColumnData::Utf8(vec!["doc1".to_string(), "doc2".to_string(), "doc3".to_string()]),
            ),
            array("List", 3, ColumnData::List(vec![0, 4, 8, 12], Box::new(elements))),
        ],
    )]
}

fn number(value: &CanonicalValue) -> f64 {
    match value {
        CanonicalValue::Number(Number::Float(bits)) => f64::from_bits(*bits),
        other => panic!("no floating-point number: {:?}", other),
    }
}

fn whole(v: i64) -> CanonicalValue {
    CanonicalValue::Number(Number::from_i64(v))
}

#[test]
fn the_greeting() {
    assert_eq!(hello_pglance(), "Hello, pglance");
}

#[test]
fn table_info_of_a_simple_table() {
    let info = lance_table_info(&simple_schema());
    assert_eq!(info.len(), 5);
    let id = info.iter().find(|(name, _, _)| name == "id").unwrap();
    assert_eq!(id.1, "int4");
    assert!(!id.2);
    let name = info.iter().find(|(name, _, _)| name == "name").unwrap();
    assert_eq!(name.1, "text");
    let salary = info.iter().find(|(name, _, _)| name == "salary").unwrap();
    assert_eq!(salary.1, "float4");
    assert_eq!(
        info,
        vec![
            ("id".to_string(), "int4".to_string(), false),
            ("name".to_string(), "text".to_string(), false),
            ("age".to_string(), "int4".to_string(), false),
            ("salary".to_string(), "float4".to_string(), false),
            ("is_active".to_string(), "boolean".to_string(), false),
        ]
    );
}

#[test]
fn table_info_of_a_vector_table() {
    let info = lance_table_info(&vector_schema());
    assert_eq!(info.len(), 3);
    let embedding = info.iter().find(|(name, _, _)| name == "embedding").unwrap();
    assert!(embedding.1.contains("json"));
    let nullable = lance_table_info(&Schema::new(vec![Field::new(
        "v".to_string(),
        ColumnType::FixedSizeList(Box::new(ColumnType::Float32), 4),
        true,
    )]));
    assert_eq!(nullable, vec![("v".to_string(), "float4[]".to_string(), true)]);
}

#[test]
fn scan_of_a_simple_table_with_a_limit() {
    let schema = simple_schema();
    let batches = simple_batches();
    assert!(batches_fit(&schema, &batches));
    let data = lance_scan_jsonb(&schema, batches, Some(3));
    assert_eq!(data.len(), 3);
    let first = &data[0];
    assert_eq!(first.get("id"), Some(&whole(1)));
    assert_eq!(first.get("name"), Some(&CanonicalValue::Text("Alice".to_string())));
    assert_eq!(first.get("age"), Some(&whole(25)));
    let salary = number(first.get("salary").unwrap());
    assert!((salary - 50000.5).abs() < 0.1);
    assert_eq!(first.get("is_active"), Some(&CanonicalValue::Bool(true)));
    assert_eq!(data[2].get("name"), Some(&CanonicalValue::Text("Charlie".to_string())));
}

#[test]
fn scan_of_a_vector_table_with_a_limit() {
    let schema = vector_schema();
    let data = lance_scan_jsonb(&schema, vector_batches(), Some(2));
    assert_eq!(data.len(), 2);
    let first = &data[0];
    assert_eq!(first.get("id"), Some(&whole(1)));
    assert_eq!(first.get("document"), Some(&CanonicalValue::Text("doc1".to_string())));
    match first.get("embedding") {
        Some(CanonicalValue::Array(embedding)) => {
            assert_eq!(embedding.len(), 4);
            assert!((number(&embedding[0]) - 0.1).abs() < 0.01);
            assert!((number(&embedding[1]) - 0.2).abs() < 0.01);
        }
        other => panic!("no array: {:?}", other),
    }
}

fn counting_batches(counts: &[usize]) -> Vec<ColumnarBatch> {
    let mut next = 0;
    counts
        .iter()
        .map(|rows| {
            let values: Vec<i32> = (0..*rows as i32).map(|i| next + i).collect();
            next += *rows as i32;
            ColumnarBatch::new(*rows, vec![array("Int32", *rows, ColumnData::Int32(values))])
        })
        .collect()
}

fn numbers_of(rows: &[CanonicalValue]) -> Vec<CanonicalValue> {
    rows.iter().map(|row| row.get("n").unwrap().clone_number()).collect()
}

trait CloneNumber {
    fn clone_number(&self) -> CanonicalValue;
}

impl CloneNumber for CanonicalValue {
    fn clone_number(&self) -> CanonicalValue {
        match self {
            CanonicalValue::Number(n) => CanonicalValue::Number(*n),
            other => panic!("no number: {:?}", other),
        }
    }
}

#[test]
fn scan_stops_at_the_limit_across_batches() {
    let schema = Schema::new(vec![field("n", ColumnType::Int32)]);
    let rows = lance_scan_jsonb(&schema, counting_batches(&[3, 0, 4]), Some(5));
    assert_eq!(numbers_of(&rows), vec![whole(0), whole(1), whole(2), whole(3), whole(4)]);
}

#[test]
fn scan_without_a_limit_yields_every_row() {
    let schema = Schema::new(vec![field("n", ColumnType::Int32)]);
    let rows = lance_scan_jsonb(&schema, counting_batches(&[3, 0, 4]), None);
    assert_eq!(numbers_of(&rows), (0..7).map(whole).collect::<Vec<_>>());
    assert_eq!(lance_scan_jsonb(&schema, counting_batches(&[2, 2]), Some(0)), vec![]);
    assert_eq!(lance_scan_jsonb(&schema, counting_batches(&[2, 2]), Some(-1)), vec![]);
    assert_eq!(lance_scan_jsonb(&schema, counting_batches(&[2, 2]), Some(40)).len(), 4);
    assert_eq!(lance_scan_jsonb(&schema, vec![], None), vec![]);
}

#[test]
fn a_row_is_keyed_by_the_names_of_the_schema() {
    let schema = Schema::new(vec![
        field("x", ColumnType::Int32),
        field("y", ColumnType::Int32),
        field("x", ColumnType::Int32),
    ]);
    let batch = ColumnarBatch::new(
        1,
        vec![
            array("Int32", 1, ColumnData::Int32(vec![1])),
            array("Int32", 1, ColumnData::Int32(vec![2])),
            array("Int32", 1, ColumnData::Int32(vec![3])),
            array("Int32", 1, ColumnData::Int32(vec![4])),
        ],
    );
    assert_eq!(
        row_to_json(&schema, &batch, 0),
        CanonicalValue::Object(vec![("x".to_string(), whole(3)), ("y".to_string(), whole(2))])
    );
}

#[test]
fn batches_that_do_not_fit() {
    let schema = simple_schema();
    assert!(batches_fit(&schema, &simple_batches()));
    assert!(batches_fit(&schema, &vec![]));
    assert!(!batches_fit(&schema, &vector_batches()));
    let short = vec![ColumnarBatch::new(
        2,
        vec![array("Int32", 1, ColumnData::Int32(vec![1]))],
    )];
    assert!(!batches_fit(&Schema::new(vec![field("n", ColumnType::Int32)]), &short));
}

#[test]
fn statistics_do_not_depend_on_a_scan() {
    let stats = LanceTableStats::new(1, 5, simple_schema());
    let before = lance_table_stats(&stats);
    assert!(before.0 >= 1);
    assert_eq!(before.1, 5);
    assert_eq!(before.2, 5);
    for limit in [None, Some(0), Some(1), Some(3), Some(5), Some(100), Some(-1)] {
        let rows = lance_scan_jsonb(&simple_schema(), simple_batches(), limit);
        assert!(rows.len() <= 5);
        assert_eq!(lance_table_stats(&stats), (1, 5, 5));
    }
}

#[test]
fn statistics_beyond_the_host_types_wrap_around() {
    let huge = LanceTableStats::new(u64::MAX, usize::MAX, Schema::new(vec![]));
    let row = lance_table_stats(&huge);
    assert_eq!(row.0, u64::MAX as i64);
    assert_eq!(row.1, usize::MAX as i64);
    assert_eq!(row.2, 0);
    let edge = LanceTableStats::new(i64::MAX as u64 + 1, 7, Schema::new(vec![]));
    assert_eq!(lance_table_stats(&edge), (i64::MIN, 7, 0));
    let top = LanceTableStats::new(i64::MAX as u64, 0, Schema::new(vec![]));
    assert_eq!(lance_table_stats(&top), (i64::MAX, 0, 0));
}
