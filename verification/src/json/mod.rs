pub mod binary;
pub mod convert;
pub mod float;
pub mod row;
pub mod temporal;
pub mod value;
