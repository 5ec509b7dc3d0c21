use greptime_proto::v1::ColumnDataType as Wire;
use greptimedb_client::api::v1::{
    ColumnDataType, Decimal128, IntervalMonthDayNano, SemanticType, ValueData,
};
use greptimedb_client::helpers::schema::{field, tag, timestamp};
use greptimedb_client::helpers::values::{
    binary_value, bool_value, date_value, datetime_value, decimal128_value, f32_bits_value,
    f64_bits_value, i16_value, i32_value, i64_value, i8_value, interval_day_time_value,
    interval_month_day_nano_value, interval_year_month_value, none_value, string_value,
    time_microsecond_value, time_millisecond_value, time_nanosecond_value, time_second_value,
    timestamp_microsecond_value, timestamp_millisecond_value, timestamp_nanosecond_value,
    timestamp_second_value, u16_value, u32_value, u64_value, u8_value,
};

#[test]
fn tag_holds_name_type_and_role() {
    let column = tag("collector", ColumnDataType::String);
    assert_eq!(column.column_name, "collector");
    assert_eq!(column.datatype, 12);
    assert_eq!(column.semantic_type, 0);
}

#[test]
fn timestamp_holds_name_type_and_role() {
    let column = timestamp("ts", ColumnDataType::TimestampMillisecond);
    assert_eq!(column.column_name, "ts");
    assert_eq!(column.datatype, 16);
    assert_eq!(column.semantic_type, SemanticType::Timestamp.code());
    assert_eq!(column.semantic_type, 2);
}

#[test]
fn field_holds_name_type_and_role() {
    let column = field("humidity", ColumnDataType::Int32);
    assert_eq!(column.column_name, "humidity");
    assert_eq!(column.datatype, 3);
    assert_eq!(column.semantic_type, 1);
}

#[test]
fn schema_of_an_empty_name() {
    let column = field("", ColumnDataType::Float64);
    assert_eq!(column.column_name, "");
    assert_eq!(column.datatype, 10);
}

#[test]
fn semantic_codes_are_those_of_the_protocol() {
    assert_eq!(SemanticType::Tag.code(), greptime_proto::v1::SemanticType::Tag as i32);
    assert_eq!(SemanticType::Field.code(), greptime_proto::v1::SemanticType::Field as i32);
    assert_eq!(
        SemanticType::Timestamp.code(),
        greptime_proto::v1::SemanticType::Timestamp as i32
    );
}

#[test]
fn datatype_codes_are_those_of_the_protocol() {
    let pairs = vec![
        (ColumnDataType::Boolean, Wire::Boolean),
        (ColumnDataType::Int8, Wire::Int8),
        (ColumnDataType::Int16, Wire::Int16),
        (ColumnDataType::Int32, Wire::Int32),
        (ColumnDataType::Int64, Wire::Int64),
        (ColumnDataType::Uint8, Wire::Uint8),
        (ColumnDataType::Uint16, Wire::Uint16),
        (ColumnDataType::Uint32, Wire::Uint32),
        (ColumnDataType::Uint64, Wire::Uint64),
        (ColumnDataType::Float32, Wire::Float32),
        (ColumnDataType::Float64, Wire::Float64),
        (ColumnDataType::Binary, Wire::Binary),
        (ColumnDataType::String, Wire::String),
        (ColumnDataType::Date, Wire::Date),
        (ColumnDataType::Datetime, Wire::Datetime),
        (ColumnDataType::TimestampSecond, Wire::TimestampSecond),
        (ColumnDataType::TimestampMillisecond, Wire::TimestampMillisecond),
        (ColumnDataType::TimestampMicrosecond, Wire::TimestampMicrosecond),
        (ColumnDataType::TimestampNanosecond, Wire::TimestampNanosecond),
        (ColumnDataType::TimeSecond, Wire::TimeSecond),
        (ColumnDataType::TimeMillisecond, Wire::TimeMillisecond),
        (ColumnDataType::TimeMicrosecond, Wire::TimeMicrosecond),
        (ColumnDataType::TimeNanosecond, Wire::TimeNanosecond),
        (ColumnDataType::IntervalYearMonth, Wire::IntervalYearMonth),
        (ColumnDataType::IntervalDayTime, Wire::IntervalDayTime),
        (ColumnDataType::IntervalMonthDayNano, Wire::IntervalMonthDayNano),
        (ColumnDataType::Decimal128, Wire::Decimal128),
        (ColumnDataType::Json, Wire::Json),
        (ColumnDataType::Vector, Wire::Vector),
        (ColumnDataType::List, Wire::List),
        (ColumnDataType::Struct, Wire::Struct),
        (ColumnDataType::Dictionary, Wire::Dictionary),
    ];
    assert_eq!(pairs.len(), 32);
    for (own, wire) in pairs {
        assert_eq!(own.code(), wire as i32);
    }
}

#[test]
fn none_value_is_null() {
    assert_eq!(none_value().value_data, None);
}

#[test]
fn small_integers_are_widened() {
    assert_eq!(i8_value(-128).value_data, Some(ValueData::I8Value(-128)));
    assert_eq!(i8_value(127).value_data, Some(ValueData::I8Value(127)));
    assert_eq!(i16_value(-32768).value_data, Some(ValueData::I16Value(-32768)));
    assert_eq!(u8_value(255).value_data, Some(ValueData::U8Value(255)));
    assert_eq!(u16_value(65535).value_data, Some(ValueData::U16Value(65535)));
}

#[test]
fn integers_keep_their_value() {
    assert_eq!(i32_value(i32::MIN).value_data, Some(ValueData::I32Value(i32::MIN)));
    assert_eq!(i64_value(i64::MAX).value_data, Some(ValueData::I64Value(i64::MAX)));
    assert_eq!(u32_value(u32::MAX).value_data, Some(ValueData::U32Value(u32::MAX)));
    assert_eq!(u64_value(u64::MAX).value_data, Some(ValueData::U64Value(u64::MAX)));
}

#[test]
fn floats_are_kept_by_their_bits() {
    let single: f32 = 26.4;
    let double: f64 = -0.5;
    assert_eq!(
        f32_bits_value(single.to_bits()).value_data,
        Some(ValueData::F32Value(single.to_bits()))
    );
    assert_eq!(
        f64_bits_value(double.to_bits()).value_data,
        Some(ValueData::F64Value(0xBFE0_0000_0000_0000))
    );
    match f32_bits_value(single.to_bits()).value_data {
        Some(ValueData::F32Value(bits)) => assert_eq!(f32::from_bits(bits), 26.4),
        other => panic!("unexpected value {:?}", other),
    }
}

#[test]
fn plain_values_keep_their_value() {
    assert_eq!(bool_value(true).value_data, Some(ValueData::BoolValue(true)));
    assert_eq!(
        string_value("c1".to_string()).value_data,
        Some(ValueData::StringValue("c1".to_string()))
    );
    assert_eq!(
        binary_value(vec![0, 159, 255]).value_data,
        Some(ValueData::BinaryValue(vec![0, 159, 255]))
    );
}

#[test]
fn temporal_values_keep_their_value() {
    assert_eq!(date_value(19000).value_data, Some(ValueData::DateValue(19000)));
    assert_eq!(datetime_value(-5).value_data, Some(ValueData::DatetimeValue(-5)));
    assert_eq!(
        timestamp_second_value(1686109527).value_data,
        Some(ValueData::TimestampSecondValue(1686109527))
    );
    assert_eq!(
        timestamp_millisecond_value(1686109527000).value_data,
        Some(ValueData::TimestampMillisecondValue(1686109527000))
    );
    assert_eq!(
        timestamp_microsecond_value(7).value_data,
        Some(ValueData::TimestampMicrosecondValue(7))
    );
    assert_eq!(
        timestamp_nanosecond_value(8).value_data,
        Some(ValueData::TimestampNanosecondValue(8))
    );
    assert_eq!(time_second_value(1).value_data, Some(ValueData::TimeSecondValue(1)));
    assert_eq!(time_millisecond_value(2).value_data, Some(ValueData::TimeMillisecondValue(2)));
    assert_eq!(time_microsecond_value(3).value_data, Some(ValueData::TimeMicrosecondValue(3)));
    assert_eq!(time_nanosecond_value(4).value_data, Some(ValueData::TimeNanosecondValue(4)));
    assert_eq!(
        interval_year_month_value(14).value_data,
        Some(ValueData::IntervalYearMonthValue(14))
    );
    assert_eq!(
        interval_day_time_value(1 << 33).value_data,
        Some(ValueData::IntervalDayTimeValue(8589934592))
    );
}

#[test]
fn interval_month_day_nano_keeps_its_parts() {
    assert_eq!(
        interval_month_day_nano_value(1, -2, 3_000_000_000).value_data,
        Some(ValueData::IntervalMonthDayNanoValue(IntervalMonthDayNano {
            months: 1,
            days: -2,
            nanoseconds: 3_000_000_000,
        }))
    );
}

fn halves(v: i128) -> (i64, i64) {
    match decimal128_value(v).value_data {
        Some(ValueData::Decimal128Value(Decimal128 { hi, lo })) => (hi, lo),
        other => panic!("unexpected value {:?}", other),
    }
}

#[test]
fn decimal128_of_small_numbers() {
    assert_eq!(halves(0), (0, 0));
    assert_eq!(halves(1), (0, 1));
    assert_eq!(halves(-1), (-1, -1));
    assert_eq!(halves(12345), (0, 12345));
}

#[test]
fn decimal128_splits_at_bit_64() {
    assert_eq!(halves(1i128 << 64), (1, 0));
    assert_eq!(halves((1i128 << 64) + 5), (1, 5));
    assert_eq!(halves((1i128 << 63)), (0, i64::MIN));
    assert_eq!(halves(-(1i128 << 64)), (-1, 0));
    assert_eq!(halves(u64::MAX as i128), (0, -1));
}

#[test]
fn decimal128_of_the_extremes() {
    assert_eq!(halves(i128::MAX), (i64::MAX, -1));
    assert_eq!(halves(i128::MIN), (i64::MIN, 0));
}

#[test]
fn decimal128_halves_give_the_number_back() {
    for v in [0i128, 7, -7, 1 << 70, -(1 << 70) + 3, i128::MAX, i128::MIN, 123456789012345678901234567890] {
        let (hi, lo) = halves(v);
        let back = ((hi as i128) << 64) | ((lo as u64) as i128);
        assert_eq!(back, v);
    }
}
