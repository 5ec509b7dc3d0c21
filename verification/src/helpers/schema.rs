//! Constructors of column schemas, one for each role of a column.

use vstd::prelude::*;
use crate::api::v1::{ColumnDataType, ColumnSchema, SemanticType};

verus! {

/// What a schema constructor returns for a name, a type and a role.
pub open spec fn column_is(
    column: ColumnSchema,
    name: Seq<char>,
    datatype: ColumnDataType,
    role: SemanticType,
) -> bool {
    &&& column.column_name@ == name
    &&& column.datatype == datatype.spec_code()
    &&& column.semantic_type == role.spec_code()
}

/// A tag column: part of the key that identifies a series.
pub fn tag(name: &str, datatype: ColumnDataType) -> (column: ColumnSchema)
    ensures
        column_is(column, name@, datatype, SemanticType::Tag),
{
    ColumnSchema {
        column_name: name.to_owned(),
        semantic_type: SemanticType::Tag.code(),
        datatype: datatype.code(),
    }
}

/// The time index column.
pub fn timestamp(name: &str, datatype: ColumnDataType) -> (column: ColumnSchema)
    ensures
        column_is(column, name@, datatype, SemanticType::Timestamp),
{
    ColumnSchema {
        column_name: name.to_owned(),
        semantic_type: SemanticType::Timestamp.code(),
        datatype: datatype.code(),
    }
}

/// A field column: a measured value.
pub fn field(name: &str, datatype: ColumnDataType) -> (column: ColumnSchema)
    ensures
        column_is(column, name@, datatype, SemanticType::Field),
{
    ColumnSchema {
        column_name: name.to_owned(),
        semantic_type: SemanticType::Field.code(),
        datatype: datatype.code(),
    }
}

} // verus!
