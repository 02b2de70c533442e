use pglance::error::PgSqlErrorCode;
use pglance::types::arrow_convert::arrow_schema_to_pg_columns;
use pglance::types::conversion::{
    arrow_to_pg_type, pg_type_name, unsupported_type_warning, PgBuiltInOids, PgOid,
};
use pglance::types::data_type::{ColumnType, Field, Schema, TimeUnit};

fn boxed(t: ColumnType) -> Box<ColumnType> {
    Box::new(t)
}

fn every_kind_of_type() -> Vec<(ColumnType, PgBuiltInOids, &'static str)> {
    vec![
        (ColumnType::Null, PgBuiltInOids::TEXTOID, "text"),
        (ColumnType::Boolean, PgBuiltInOids::BOOLOID, "boolean"),
        (ColumnType::Int8, PgBuiltInOids::CHAROID, "char"),
        (ColumnType::Int16, PgBuiltInOids::INT2OID, "int2"),
        (ColumnType::Int32, PgBuiltInOids::INT4OID, "int4"),
        (ColumnType::Int64, PgBuiltInOids::INT8OID, "int8"),
        (ColumnType::UInt8, PgBuiltInOids::CHAROID, "char"),
        (ColumnType::UInt16, PgBuiltInOids::INT2OID, "int2"),
        (ColumnType::UInt32, PgBuiltInOids::INT4OID, "int4"),
        (ColumnType::UInt64, PgBuiltInOids::INT8OID, "int8"),
        (ColumnType::Float16, PgBuiltInOids::FLOAT4OID, "float4"),
        (ColumnType::Float32, PgBuiltInOids::FLOAT4OID, "float4"),
        (ColumnType::Float64, PgBuiltInOids::FLOAT8OID, "float8"),
        (ColumnType::Utf8, PgBuiltInOids::TEXTOID, "text"),
        (ColumnType::LargeUtf8, PgBuiltInOids::TEXTOID, "text"),
        (ColumnType::Binary, PgBuiltInOids::BYTEAOID, "bytea"),
        (ColumnType::LargeBinary, PgBuiltInOids::BYTEAOID, "bytea"),
        (ColumnType::FixedSizeBinary(16), PgBuiltInOids::BYTEAOID, "bytea"),
        (ColumnType::Date32, PgBuiltInOids::DATEOID, "date"),
        (ColumnType::Date64, PgBuiltInOids::DATEOID, "date"),
        (ColumnType::Time32, PgBuiltInOids::TIMEOID, "time"),
        (ColumnType::Time64, PgBuiltInOids::TIMEOID, "time"),
        (ColumnType::Timestamp(TimeUnit::Second, None), PgBuiltInOids::TIMESTAMPOID, "timestamp"),
        (
            ColumnType::Timestamp(TimeUnit::Nanosecond, Some("UTC".to_string())),
            PgBuiltInOids::TIMESTAMPOID,
            "timestamp",
        ),
        (ColumnType::Interval, PgBuiltInOids::INTERVALOID, "interval"),
        (ColumnType::List(boxed(ColumnType::Float32)), PgBuiltInOids::JSONBOID, "jsonb"),
        (ColumnType::LargeList(boxed(ColumnType::Float64)), PgBuiltInOids::JSONBOID, "jsonb"),
        (
            ColumnType::FixedSizeList(boxed(ColumnType::Float32), 4),
            PgBuiltInOids::FLOAT4ARRAYOID,
            "float4[]",
        ),
        (
            ColumnType::FixedSizeList(boxed(ColumnType::Float64), 4),
            PgBuiltInOids::FLOAT8ARRAYOID,
            "float8[]",
        ),
        (
            ColumnType::FixedSizeList(boxed(ColumnType::Float16), 4),
            PgBuiltInOids::JSONBOID,
            "jsonb",
        ),
        (
            ColumnType::FixedSizeList(boxed(ColumnType::Int32), 4),
            PgBuiltInOids::JSONBOID,
            "jsonb",
        ),
        (
            ColumnType::Struct(vec![Field::new("a".to_string(), ColumnType::Int32, true)]),
            PgBuiltInOids::JSONBOID,
            "jsonb",
        ),
        (ColumnType::Union, PgBuiltInOids::JSONBOID, "jsonb"),
        (ColumnType::KeyedMap, PgBuiltInOids::JSONBOID, "jsonb"),
        (
            ColumnType::Dictionary(boxed(ColumnType::Int32), boxed(ColumnType::Utf8)),
            PgBuiltInOids::TEXTOID,
            "text",
        ),
        (
            ColumnType::Dictionary(boxed(ColumnType::Int8), boxed(ColumnType::Int64)),
            PgBuiltInOids::INT8OID,
            "int8",
        ),
        (ColumnType::Decimal128, PgBuiltInOids::NUMERICOID, "numeric"),
        (ColumnType::Decimal256, PgBuiltInOids::NUMERICOID, "numeric"),
        (ColumnType::Unrecognized("Utf8View".to_string()), PgBuiltInOids::TEXTOID, "text"),
    ]
}

#[test]
fn every_type_maps_as_the_table_says() {
    for (arrow_type, builtin, name) in every_kind_of_type() {
        let oid: Result<PgOid, PgSqlErrorCode> = arrow_to_pg_type(&arrow_type);
        assert_eq!(oid, Ok(PgOid::BuiltIn(builtin)), "{:?}", arrow_type);
        assert_eq!(pg_type_name(PgOid::BuiltIn(builtin)), name);
    }
}

#[test]
fn every_type_has_a_name_that_is_not_empty() {
    for (arrow_type, _, _) in every_kind_of_type() {
        let name = pg_type_name(arrow_to_pg_type(&arrow_type).unwrap());
        assert!(!name.is_empty());
        assert_ne!(name, "unknown");
    }
}

#[test]
fn a_dictionary_maps_as_its_values_however_deep() {
    let nested = ColumnType::Dictionary(
        boxed(ColumnType::Int8),
        boxed(ColumnType::Dictionary(
            boxed(ColumnType::Int16),
            boxed(ColumnType::FixedSizeList(boxed(ColumnType::Float64), 2)),
        )),
    );
    assert_eq!(arrow_to_pg_type(&nested), Ok(PgOid::BuiltIn(PgBuiltInOids::FLOAT8ARRAYOID)));
}

#[test]
fn types_that_are_not_built_in_are_unknown() {
    assert_eq!(pg_type_name(PgOid::Invalid), "unknown");
    assert_eq!(pg_type_name(PgOid::Custom(16)), "unknown");
    assert_eq!(pg_type_name(PgOid::Custom(0)), "unknown");
}

#[test]
fn the_numbers_of_the_built_in_types() {
    let expected: [(PgBuiltInOids, u32); 17] = [
        (PgBuiltInOids::BOOLOID, 16),
        (PgBuiltInOids::BYTEAOID, 17),
        (PgBuiltInOids::CHAROID, 18),
        (PgBuiltInOids::INT8OID, 20),
        (PgBuiltInOids::INT2OID, 21),
        (PgBuiltInOids::INT4OID, 23),
        (PgBuiltInOids::TEXTOID, 25),
        (PgBuiltInOids::FLOAT4OID, 700),
        (PgBuiltInOids::FLOAT8OID, 701),
        (PgBuiltInOids::FLOAT4ARRAYOID, 1021),
        (PgBuiltInOids::FLOAT8ARRAYOID, 1022),
        (PgBuiltInOids::DATEOID, 1082),
        (PgBuiltInOids::TIMEOID, 1083),
        (PgBuiltInOids::TIMESTAMPOID, 1114),
        (PgBuiltInOids::INTERVALOID, 1186),
        (PgBuiltInOids::NUMERICOID, 1700),
        (PgBuiltInOids::JSONBOID, 3802),
    ];
    for (builtin, number) in expected {
        assert_eq!(builtin.value(), number);
        assert_eq!(PgOid::BuiltIn(builtin).value(), number);
    }
    assert_eq!(PgOid::Invalid.value(), 0);
    assert_eq!(PgOid::Custom(123456).value(), 123456);
}

#[test]
fn only_types_without_a_relational_type_come_with_a_warning() {
    for (arrow_type, _, _) in every_kind_of_type() {
        let expected = match &arrow_type {
            ColumnType::Null => Some("Unsupported Arrow type: Null, converting to TEXT".to_string()),
            ColumnType::Unrecognized(name) => {
                Some(format!("Unsupported Arrow type: {}, converting to TEXT", name))
            }
            _ => None,
        };
        assert_eq!(unsupported_type_warning(&arrow_type), expected, "{:?}", arrow_type);
    }
}

#[test]
fn a_dictionary_of_an_unrecognized_type_comes_with_a_warning() {
    let arrow_type = ColumnType::Dictionary(
        boxed(ColumnType::Int32),
        boxed(ColumnType::Unrecognized("Duration(Second)".to_string())),
    );
    assert_eq!(arrow_to_pg_type(&arrow_type), Ok(PgOid::BuiltIn(PgBuiltInOids::TEXTOID)));
    assert_eq!(
        unsupported_type_warning(&arrow_type),
        Some("Unsupported Arrow type: Duration(Second), converting to TEXT".to_string())
    );
}

#[test]
fn the_columns_of_a_schema() {
    let schema = Schema::new(vec![
        Field::new("id".to_string(), ColumnType::Int32, false),
        Field::new("name".to_string(), ColumnType::Utf8, true),
        Field::new("id".to_string(), ColumnType::Float32, true),
        Field::new(String::new(), ColumnType::Null, false),
    ]);
    assert_eq!(schema.num_fields(), 4);
    assert_eq!(
        arrow_schema_to_pg_columns(&schema),
        vec![
            ("id".to_string(), PgOid::BuiltIn(PgBuiltInOids::INT4OID), false),
            ("name".to_string(), PgOid::BuiltIn(PgBuiltInOids::TEXTOID), true),
            ("id".to_string(), PgOid::BuiltIn(PgBuiltInOids::FLOAT4OID), true),
            (String::new(), PgOid::BuiltIn(PgBuiltInOids::TEXTOID), false),
        ]
    );
    assert_eq!(arrow_schema_to_pg_columns(&Schema::new(vec![])), vec![]);
}
