//! Version 1 of the message model.
//!
//! Every type here holds plain values. Column blocks of the column-oriented
//! insert and delete requests are the one exception: they are carried to the
//! wire untouched, so they stay values of the protocol crate.

use vstd::prelude::*;

verus! {

/// A column block of a column-oriented request. The client never looks inside.
#[verifier::external_type_specification]
#[verifier::external_body]
pub struct ExColumn(greptime_proto::v1::Column);

/// Role of a column in a table.
#[derive(Clone, Copy, Debug, PartialEq, Eq, Hash)]
pub enum SemanticType {
    Tag,
    Field,
    Timestamp,
}

impl SemanticType {
    /// Number that stands for the role on the wire.
    pub open spec fn spec_code(self) -> int {
        match self {
            SemanticType::Tag => 0,
            SemanticType::Field => 1,
            SemanticType::Timestamp => 2,
        }
    }

    pub fn code(self) -> (c: i32)
        ensures
            c == self.spec_code(),
    {
        match self {
            SemanticType::Tag => 0,
            SemanticType::Field => 1,
            SemanticType::Timestamp => 2,
        }
    }
}

/// Type of the values of a column.
#[derive(Clone, Copy, Debug, PartialEq, Eq, Hash)]
pub enum ColumnDataType {
    Boolean,
    Int8,
    Int16,
    Int32,
    Int64,
    Uint8,
    Uint16,
    Uint32,
    Uint64,
    Float32,
    Float64,
    Binary,
    String,
    Date,
    Datetime,
    TimestampSecond,
    TimestampMillisecond,
    TimestampMicrosecond,
    TimestampNanosecond,
    TimeSecond,
    TimeMillisecond,
    TimeMicrosecond,
    TimeNanosecond,
    IntervalYearMonth,
    IntervalDayTime,
    IntervalMonthDayNano,
    Decimal128,
    Json,
    Vector,
    List,
    Struct,
    Dictionary,
}

impl ColumnDataType {
    /// Number that stands for the type on the wire.
    pub open spec fn spec_code(self) -> int {
        match self {
            ColumnDataType::Boolean => 0,
            ColumnDataType::Int8 => 1,
            ColumnDataType::Int16 => 2,
            ColumnDataType::Int32 => 3,
            ColumnDataType::Int64 => 4,
            ColumnDataType::Uint8 => 5,
            ColumnDataType::Uint16 => 6,
            ColumnDataType::Uint32 => 7,
            ColumnDataType::Uint64 => 8,
            ColumnDataType::Float32 => 9,
            ColumnDataType::Float64 => 10,
            ColumnDataType::Binary => 11,
            ColumnDataType::String => 12,
            ColumnDataType::Date => 13,
            ColumnDataType::Datetime => 14,
            ColumnDataType::TimestampSecond => 15,
            ColumnDataType::TimestampMillisecond => 16,
            ColumnDataType::TimestampMicrosecond => 17,
            ColumnDataType::TimestampNanosecond => 18,
            ColumnDataType::TimeSecond => 19,
            ColumnDataType::TimeMillisecond => 20,
            ColumnDataType::TimeMicrosecond => 21,
            ColumnDataType::TimeNanosecond => 22,
            ColumnDataType::IntervalYearMonth => 23,
            ColumnDataType::IntervalDayTime => 24,
            ColumnDataType::IntervalMonthDayNano => 25,
            ColumnDataType::Decimal128 => 30,
            ColumnDataType::Json => 31,
            ColumnDataType::Vector => 32,
            ColumnDataType::List => 40,
            ColumnDataType::Struct => 41,
            ColumnDataType::Dictionary => 42,
        }
    }

    pub fn code(self) -> (c: i32)
        ensures
            c == self.spec_code(),
    {
        match self {
            ColumnDataType::Boolean => 0,
            ColumnDataType::Int8 => 1,
            ColumnDataType::Int16 => 2,
            ColumnDataType::Int32 => 3,
            ColumnDataType::Int64 => 4,
            ColumnDataType::Uint8 => 5,
            ColumnDataType::Uint16 => 6,
            ColumnDataType::Uint32 => 7,
            ColumnDataType::Uint64 => 8,
            ColumnDataType::Float32 => 9,
            ColumnDataType::Float64 => 10,
            ColumnDataType::Binary => 11,
            ColumnDataType::String => 12,
            ColumnDataType::Date => 13,
            ColumnDataType::Datetime => 14,
            ColumnDataType::TimestampSecond => 15,
            ColumnDataType::TimestampMillisecond => 16,
            ColumnDataType::TimestampMicrosecond => 17,
            ColumnDataType::TimestampNanosecond => 18,
            ColumnDataType::TimeSecond => 19,
            ColumnDataType::TimeMillisecond => 20,
            ColumnDataType::TimeMicrosecond => 21,
            ColumnDataType::TimeNanosecond => 22,
            ColumnDataType::IntervalYearMonth => 23,
            ColumnDataType::IntervalDayTime => 24,
            ColumnDataType::IntervalMonthDayNano => 25,
            ColumnDataType::Decimal128 => 30,
            ColumnDataType::Json => 31,
            ColumnDataType::Vector => 32,
            ColumnDataType::List => 40,
            ColumnDataType::Struct => 41,
            ColumnDataType::Dictionary => 42,
        }
    }
}

/// Name, type and role of one column.
#[derive(Clone, Debug, PartialEq, Eq)]
pub struct ColumnSchema {
    pub column_name: String,
    pub datatype: i32,
    pub semantic_type: i32,
}

/// An interval of months, days and nanoseconds.
#[derive(Clone, Copy, Debug, PartialEq, Eq)]
pub struct IntervalMonthDayNano {
    pub months: i32,
    pub days: i32,
    pub nanoseconds: i64,
}

/// A 128-bit decimal, split in its high and low 64 bits.
#[derive(Clone, Copy, Debug, PartialEq, Eq)]
pub struct Decimal128 {
    pub hi: i64,
    pub lo: i64,
}

/// The payload of one cell. The two floating-point variants hold the
/// IEEE 754 bit pattern of the number.
#[derive(Clone, Debug, PartialEq, Eq)]
pub enum ValueData {
    I8Value(i32),
    I16Value(i32),
    I32Value(i32),
    I64Value(i64),
    U8Value(u32),
    U16Value(u32),
    U32Value(u32),
    U64Value(u64),
    F32Value(u32),
    F64Value(u64),
    BoolValue(bool),
    BinaryValue(Vec<u8>),
    StringValue(String),
    DateValue(i32),
    DatetimeValue(i64),
    TimestampSecondValue(i64),
    TimestampMillisecondValue(i64),
    TimestampMicrosecondValue(i64),
    TimestampNanosecondValue(i64),
    TimeSecondValue(i64),
    TimeMillisecondValue(i64),
    TimeMicrosecondValue(i64),
    TimeNanosecondValue(i64),
    IntervalYearMonthValue(i32),
    IntervalDayTimeValue(i64),
    IntervalMonthDayNanoValue(IntervalMonthDayNano),
    Decimal128Value(Decimal128),
}

/// One cell of a row; `None` is the null value.
#[derive(Clone, Debug, PartialEq, Eq)]
pub struct Value {
    pub value_data: Option<ValueData>,
}

/// One row of cells, in the order of the schema.
#[derive(Clone, Debug, PartialEq, Eq)]
pub struct Row {
    pub values: Vec<Value>,
}

/// A schema and the rows that follow it.
#[derive(Clone, Debug, PartialEq, Eq)]
pub struct Rows {
    pub schema: Vec<ColumnSchema>,
    pub rows: Vec<Row>,
}

/// Rows to insert into one table.
#[derive(Clone, Debug, PartialEq, Eq)]
pub struct RowInsertRequest {
    pub table_name: String,
    pub rows: Option<Rows>,
}

/// A batch of row-oriented inserts.
#[derive(Clone, Debug, PartialEq, Eq)]
pub struct RowInsertRequests {
    pub inserts: Vec<RowInsertRequest>,
}

/// Column blocks to insert into one table.
#[derive(Clone, Debug, PartialEq)]
pub struct InsertRequest {
    pub table_name: String,
    pub columns: Vec<greptime_proto::v1::Column>,
    pub row_count: u32,
}

/// A batch of column-oriented inserts.
#[derive(Clone, Debug, PartialEq)]
pub struct InsertRequests {
    pub inserts: Vec<InsertRequest>,
}

/// Rows to delete from one table, found by their key columns.
#[derive(Clone, Debug, PartialEq)]
pub struct DeleteRequest {
    pub table_name: String,
    pub key_columns: Vec<greptime_proto::v1::Column>,
    pub row_count: u32,
}

/// A batch of deletes.
#[derive(Clone, Debug, PartialEq)]
pub struct DeleteRequests {
    pub deletes: Vec<DeleteRequest>,
}

/// A user name and a password.
#[derive(Debug, PartialEq, Eq)]
pub struct Basic {
    pub username: String,
    pub password: String,
}

impl Clone for Basic {
    fn clone(&self) -> (copy: Basic)
        ensures
            copy == *self,
    {
        Basic { username: self.username.clone(), password: self.password.clone() }
    }
}

/// A bearer token.
#[derive(Debug, PartialEq, Eq)]
pub struct Token {
    pub token: String,
}

impl Clone for Token {
    fn clone(&self) -> (copy: Token)
        ensures
            copy == *self,
    {
        Token { token: self.token.clone() }
    }
}

/// The credential of a request.
#[derive(Debug, PartialEq, Eq)]
pub enum AuthScheme {
    Basic(Basic),
    Token(Token),
}

impl Clone for AuthScheme {
    fn clone(&self) -> (copy: AuthScheme)
        ensures
            copy == *self,
    {
        match self {
            AuthScheme::Basic(basic) => AuthScheme::Basic(basic.clone()),
            AuthScheme::Token(token) => AuthScheme::Token(token.clone()),
        }
    }
}

/// The authorization part of a request header.
#[derive(Debug, PartialEq, Eq)]
pub struct AuthHeader {
    pub auth_scheme: Option<AuthScheme>,
}

impl Clone for AuthHeader {
    fn clone(&self) -> (copy: AuthHeader)
        ensures
            copy == *self,
    {
        AuthHeader {
            auth_scheme: match &self.auth_scheme {
                Some(scheme) => Some(scheme.clone()),
                None => None,
            },
        }
    }
}

/// What every request says of itself: who sends it and which database it is for.
#[derive(Debug, PartialEq, Eq)]
pub struct RequestHeader {
    pub authorization: Option<AuthHeader>,
    pub dbname: String,
}

impl Clone for RequestHeader {
    fn clone(&self) -> (copy: RequestHeader)
        ensures
            copy == *self,
    {
        RequestHeader {
            authorization: match &self.authorization {
                Some(header) => Some(header.clone()),
                None => None,
            },
            dbname: self.dbname.clone(),
        }
    }
}

/// The payload of a request: exactly one of the three kinds of write.
#[derive(Clone, Debug, PartialEq)]
pub enum Request {
    Inserts(InsertRequests),
    Deletes(DeleteRequests),
    RowInserts(RowInsertRequests),
}

/// One outbound unit: a header and a payload.
#[derive(Clone, Debug, PartialEq)]
pub struct GreptimeRequest {
    pub header: Option<RequestHeader>,
    pub request: Option<Request>,
}

/// Number of rows that a write touched.
#[derive(Clone, Copy, Debug, PartialEq, Eq)]
pub struct AffectedRows {
    pub value: u32,
}

/// The payload of a response. Only one kind is legal.
#[derive(Clone, Copy, Debug, PartialEq, Eq)]
pub enum Response {
    AffectedRows(AffectedRows),
}

/// What the server answers to a request or to a whole stream of them.
#[derive(Clone, Copy, Debug, PartialEq, Eq)]
pub struct GreptimeResponse {
    pub response: Option<Response>,
}

} // verus!
