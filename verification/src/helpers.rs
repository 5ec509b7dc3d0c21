//! Short constructors for column schemas and cell values.

pub mod schema;
pub mod values;
