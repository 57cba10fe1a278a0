//! SQL values and their types.

pub mod nn_sql_value;
pub mod packing;
pub mod sql_compare_result;
pub mod sql_convertible;
pub mod sql_type;
pub mod sql_value;
pub mod sql_value_hash_key;
