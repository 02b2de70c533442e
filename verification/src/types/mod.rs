pub mod array;
pub mod arrow_convert;
pub mod batch;
pub mod conversion;
pub mod data_type;

pub use arrow_convert::{arrow_schema_to_pg_columns, arrow_value_to_datum};
pub use conversion::{arrow_to_pg_type, pg_type_name};
