pub mod lance_scanner;
pub mod row_order;

pub use lance_scanner::{LanceRow, LanceScanIterator, LanceTableStats};
