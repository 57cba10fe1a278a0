//! Validations shared by the data structures.

pub mod collection;
pub mod short_name;
