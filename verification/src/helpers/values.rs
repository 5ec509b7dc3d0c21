//! Constructors of cell values, one for each type of column.

use vstd::prelude::*;
use crate::api::v1::{Decimal128, IntervalMonthDayNano, Value, ValueData};

verus! {

/// Two to the power of 64.
pub open spec fn two_pow_64() -> int {
    0x1_0000_0000_0000_0000
}

/// The high 64 bits of a 128-bit number, read as a signed number.
pub open spec fn high_half(v: i128) -> int {
    v as int / two_pow_64()
}

/// The low 64 bits of a 128-bit number, read as a signed number.
pub open spec fn low_half(v: i128) -> int {
    let low = v as int % two_pow_64();
    if low >= 0x8000_0000_0000_0000 {
        low - two_pow_64()
    } else {
        low
    }
}

/// The null value.
pub fn none_value() -> (value: Value)
    ensures
        value.value_data is None,
{
    Value { value_data: None }
}

/// An 8-bit signed integer, widened to 32 bits.
pub fn i8_value(v: i8) -> (value: Value)
    ensures
        value.value_data == Some(ValueData::I8Value(v as i32)),
{
    Value { value_data: Some(ValueData::I8Value(v as i32)) }
}

/// A 16-bit signed integer, widened to 32 bits.
pub fn i16_value(v: i16) -> (value: Value)
    ensures
        value.value_data == Some(ValueData::I16Value(v as i32)),
{
    Value { value_data: Some(ValueData::I16Value(v as i32)) }
}

/// A 32-bit signed integer.
pub fn i32_value(v: i32) -> (value: Value)
    ensures
        value.value_data == Some(ValueData::I32Value(v)),
{
    Value { value_data: Some(ValueData::I32Value(v)) }
}

/// A 64-bit signed integer.
pub fn i64_value(v: i64) -> (value: Value)
    ensures
        value.value_data == Some(ValueData::I64Value(v)),
{
    Value { value_data: Some(ValueData::I64Value(v)) }
}

/// An 8-bit unsigned integer, widened to 32 bits.
pub fn u8_value(v: u8) -> (value: Value)
    ensures
        value.value_data == Some(ValueData::U8Value(v as u32)),
{
    Value { value_data: Some(ValueData::U8Value(v as u32)) }
}

/// A 16-bit unsigned integer, widened to 32 bits.
pub fn u16_value(v: u16) -> (value: Value)
    ensures
        value.value_data == Some(ValueData::U16Value(v as u32)),
{
    Value { value_data: Some(ValueData::U16Value(v as u32)) }
}

/// A 32-bit unsigned integer.
pub fn u32_value(v: u32) -> (value: Value)
    ensures
        value.value_data == Some(ValueData::U32Value(v)),
{
    Value { value_data: Some(ValueData::U32Value(v)) }
}

/// A 64-bit unsigned integer.
pub fn u64_value(v: u64) -> (value: Value)
    ensures
        value.value_data == Some(ValueData::U64Value(v)),
{
    Value { value_data: Some(ValueData::U64Value(v)) }
}

/// A 32-bit floating-point number, given by its IEEE 754 bit pattern.
pub fn f32_bits_value(v: u32) -> (value: Value)
    ensures
        value.value_data == Some(ValueData::F32Value(v)),
{
    Value { value_data: Some(ValueData::F32Value(v)) }
}

/// A 64-bit floating-point number, given by its IEEE 754 bit pattern.
pub fn f64_bits_value(v: u64) -> (value: Value)
    ensures
        value.value_data == Some(ValueData::F64Value(v)),
{
    Value { value_data: Some(ValueData::F64Value(v)) }
}

/// A truth value.
pub fn bool_value(v: bool) -> (value: Value)
    ensures
        value.value_data == Some(ValueData::BoolValue(v)),
{
    Value { value_data: Some(ValueData::BoolValue(v)) }
}

/// A text.
pub fn string_value(v: String) -> (value: Value)
    ensures
        value.value_data == Some(ValueData::StringValue(v)),
{
    Value { value_data: Some(ValueData::StringValue(v)) }
}

/// A string of bytes.
pub fn binary_value(v: Vec<u8>) -> (value: Value)
    ensures
        value.value_data == Some(ValueData::BinaryValue(v)),
{
    Value { value_data: Some(ValueData::BinaryValue(v)) }
}

/// A date, in days since the epoch.
pub fn date_value(v: i32) -> (value: Value)
    ensures
        value.value_data == Some(ValueData::DateValue(v)),
{
    Value { value_data: Some(ValueData::DateValue(v)) }
}

/// A date and time, in milliseconds since the epoch.
pub fn datetime_value(v: i64) -> (value: Value)
    ensures
        value.value_data == Some(ValueData::DatetimeValue(v)),
{
    Value { value_data: Some(ValueData::DatetimeValue(v)) }
}

/// A timestamp in seconds.
pub fn timestamp_second_value(v: i64) -> (value: Value)
    ensures
        value.value_data == Some(ValueData::TimestampSecondValue(v)),
{
    Value { value_data: Some(ValueData::TimestampSecondValue(v)) }
}

/// A timestamp in milliseconds.
pub fn timestamp_millisecond_value(v: i64) -> (value: Value)
    ensures
        value.value_data == Some(ValueData::TimestampMillisecondValue(v)),
{
    Value { value_data: Some(ValueData::TimestampMillisecondValue(v)) }
}

/// A timestamp in microseconds.
pub fn timestamp_microsecond_value(v: i64) -> (value: Value)
    ensures
        value.value_data == Some(ValueData::TimestampMicrosecondValue(v)),
{
    Value { value_data: Some(ValueData::TimestampMicrosecondValue(v)) }
}

/// A timestamp in nanoseconds.
pub fn timestamp_nanosecond_value(v: i64) -> (value: Value)
    ensures
        value.value_data == Some(ValueData::TimestampNanosecondValue(v)),
{
    Value { value_data: Some(ValueData::TimestampNanosecondValue(v)) }
}

/// A time of day in seconds.
pub fn time_second_value(v: i64) -> (value: Value)
    ensures
        value.value_data == Some(ValueData::TimeSecondValue(v)),
{
    Value { value_data: Some(ValueData::TimeSecondValue(v)) }
}

/// A time of day in milliseconds.
pub fn time_millisecond_value(v: i64) -> (value: Value)
    ensures
        value.value_data == Some(ValueData::TimeMillisecondValue(v)),
{
    Value { value_data: Some(ValueData::TimeMillisecondValue(v)) }
}

/// A time of day in microseconds.
pub fn time_microsecond_value(v: i64) -> (value: Value)
    ensures
        value.value_data == Some(ValueData::TimeMicrosecondValue(v)),
{
    Value { value_data: Some(ValueData::TimeMicrosecondValue(v)) }
}

/// A time of day in nanoseconds.
pub fn time_nanosecond_value(v: i64) -> (value: Value)
    ensures
        value.value_data == Some(ValueData::TimeNanosecondValue(v)),
{
    Value { value_data: Some(ValueData::TimeNanosecondValue(v)) }
}

/// An interval in months.
pub fn interval_year_month_value(v: i32) -> (value: Value)
    ensures
        value.value_data == Some(ValueData::IntervalYearMonthValue(v)),
{
    Value { value_data: Some(ValueData::IntervalYearMonthValue(v)) }
}

/// An interval of days and milliseconds, packed in 64 bits.
pub fn interval_day_time_value(v: i64) -> (value: Value)
    ensures
        value.value_data == Some(ValueData::IntervalDayTimeValue(v)),
{
    Value { value_data: Some(ValueData::IntervalDayTimeValue(v)) }
}

/// An interval of months, days and nanoseconds.
pub fn interval_month_day_nano_value(months: i32, days: i32, nanoseconds: i64) -> (value: Value)
    ensures
        value.value_data == Some(
            ValueData::IntervalMonthDayNanoValue(
                (IntervalMonthDayNano { months, days, nanoseconds }),
            ),
        ),
{
    Value {
        value_data: Some(
            ValueData::IntervalMonthDayNanoValue(
                IntervalMonthDayNano { months, days, nanoseconds },
            ),
        ),
    }
}

/// A 128-bit decimal: its high and its low 64 bits, each read as a signed
/// number. The two halves give the number back: see
/// [`lemma_halves_give_number`].
pub fn decimal128_value(v: i128) -> (value: Value)
    ensures
        value.value_data == Some(
            ValueData::Decimal128Value(
                (Decimal128 { hi: high_half(v) as i64, lo: low_half(v) as i64 }),
            ),
        ),
{
    let hi: i64 = #[verifier::truncate] ((v >> 64) as i64);
    let lo: i64 = #[verifier::truncate] (v as i64);
    proof {
        assert(hi == high_half(v) && lo == low_half(v)) by (bit_vector)
            requires
                hi == ((v >> 64) as i64),
                lo == (v as i64),
        ;
    }
    Value { value_data: Some(ValueData::Decimal128Value(Decimal128 { hi, lo })) }
}

/// The halves of a 128-bit number fit in 64 bits each, and the number is the
/// high half times two to the power of 64 plus the low half read as an
/// unsigned number.
pub proof fn lemma_halves_give_number(v: i128)
    ensures
        i64::MIN <= high_half(v) <= i64::MAX,
        i64::MIN <= low_half(v) <= i64::MAX,
        v == high_half(v) * two_pow_64() + (v as int % two_pow_64()),
        0 <= v as int % two_pow_64() < two_pow_64(),
        low_half(v) == v as int % two_pow_64() || low_half(v) == v as int % two_pow_64()
            - two_pow_64(),
{
    let n = v as int;
    let d = two_pow_64();
    assert(n == d * (n / d) + n % d && 0 <= n % d < d) by (nonlinear_arith)
        requires
            d == 0x1_0000_0000_0000_0000,
    ;
    assert(i64::MIN <= n / d <= i64::MAX) by (nonlinear_arith)
        requires
            d == 0x1_0000_0000_0000_0000,
            -0x8000_0000_0000_0000_0000_0000_0000_0000 <= n
                <= 0x7fff_ffff_ffff_ffff_ffff_ffff_ffff_ffff,
            n == d * (n / d) + n % d,
            0 <= n % d < d,
    ;
    assert(high_half(v) * d == d * (n / d)) by (nonlinear_arith)
        requires
            high_half(v) == n / d,
    ;
}

} // verus!
