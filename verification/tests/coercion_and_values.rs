use cache_rewrite::CacheMode;
use cache_rewrite::schema::{
    CoerceError, Field, LogicalType, Schema, TimeUnit, coerce_schema, coerce_type,
};
use cache_rewrite::values::{AdaptError, ScalarValue, decode_value, encode_value};

fn field(name: &str, ty: LogicalType) -> Field {
    Field { name: name.to_string(), ty }
}

#[test]
fn coercion_table_exact_values() {
    let m = CacheMode::InMemory;
    assert_eq!(coerce_type(LogicalType::Utf8, m).unwrap(), LogicalType::DictUtf8);
    assert_eq!(coerce_type(LogicalType::LargeUtf8, m).unwrap(), LogicalType::DictUtf8);
    assert_eq!(coerce_type(LogicalType::Binary, m).unwrap(), LogicalType::DictBinary);
    assert_eq!(
        coerce_type(LogicalType::Decimal { precision: 38, scale: 10 }, m).unwrap(),
        LogicalType::FixedBinary16
    );
    assert_eq!(
        coerce_type(LogicalType::Timestamp { unit: TimeUnit::Second }, m).unwrap(),
        LogicalType::Timestamp { unit: TimeUnit::Nanosecond }
    );
    assert_eq!(coerce_type(LogicalType::Int32, m).unwrap(), LogicalType::Int32);
    assert_eq!(coerce_type(LogicalType::Boolean, m).unwrap(), LogicalType::Boolean);
    assert!(coerce_type(LogicalType::Other { code: 3 }, m).is_none());
}

#[test]
fn disabled_mode_coerces_nothing() {
    let m = CacheMode::Disabled;
    assert_eq!(coerce_type(LogicalType::Utf8, m).unwrap(), LogicalType::Utf8);
    assert_eq!(
        coerce_type(LogicalType::Other { code: 3 }, m).unwrap(),
        LogicalType::Other { code: 3 }
    );
}

#[test]
fn schema_coercion_preserves_names_and_order() {
    let s = Schema {
        fields: vec![
            field("id", LogicalType::Int64),
            field("name", LogicalType::Utf8),
            field("price", LogicalType::Decimal { precision: 12, scale: 4 }),
        ],
    };
    let cs = coerce_schema(&s, CacheMode::Hybrid).unwrap();
    assert_eq!(
        cs,
        Schema {
            fields: vec![
                field("id", LogicalType::Int64),
                field("name", LogicalType::DictUtf8),
                field("price", LogicalType::FixedBinary16),
            ],
        }
    );
}

#[test]
fn schema_coercion_reports_the_unsupported_field() {
    let s = Schema {
        fields: vec![
            field("id", LogicalType::Int64),
            field("blob", LogicalType::Other { code: 42 }),
        ],
    };
    let err = coerce_schema(&s, CacheMode::InMemory).unwrap_err();
    assert_eq!(err, CoerceError::UnsupportedType { field_index: 1 });
}

fn round_trip(v: ScalarValue, t: LogicalType, mode: CacheMode) -> ScalarValue {
    let encoded = encode_value(v, t, mode).unwrap();
    decode_value(encoded, t, mode)
}

#[test]
fn text_value_round_trips_through_dictionary_encoding() {
    let t = LogicalType::Utf8;
    let v = ScalarValue::Text { s: "hello".to_string() };
    let encoded = encode_value(
        ScalarValue::Text { s: "hello".to_string() },
        t,
        CacheMode::InMemory,
    )
    .unwrap();
    assert_eq!(encoded, ScalarValue::DictText { s: "hello".to_string() });
    assert_eq!(decode_value(encoded, t, CacheMode::InMemory), v);
}

#[test]
fn binary_value_round_trips() {
    let t = LogicalType::Binary;
    let v = ScalarValue::Bytes { b: vec![1, 2, 255] };
    assert_eq!(
        round_trip(ScalarValue::Bytes { b: vec![1, 2, 255] }, t, CacheMode::InMemory),
        v
    );
}

#[test]
fn decimal_value_round_trips_through_fixed_width() {
    let t = LogicalType::Decimal { precision: 20, scale: 3 };
    let unscaled: i128 = -123_456_789_012_345_678_901_234_567;
    let encoded = encode_value(ScalarValue::Decimal { unscaled }, t, CacheMode::InMemory).unwrap();
    assert_eq!(encoded, ScalarValue::Fixed16 { unscaled });
    assert_eq!(
        decode_value(encoded, t, CacheMode::InMemory),
        ScalarValue::Decimal { unscaled }
    );
}

#[test]
fn timestamp_value_round_trips_through_unit_normalization() {
    let t = LogicalType::Timestamp { unit: TimeUnit::Millisecond };
    let encoded = encode_value(
        ScalarValue::Timestamp { ticks: 1_500 },
        t,
        CacheMode::InMemory,
    )
    .unwrap();
    assert_eq!(encoded, ScalarValue::Timestamp { ticks: 1_500_000_000 });
    assert_eq!(
        decode_value(encoded, t, CacheMode::InMemory),
        ScalarValue::Timestamp { ticks: 1_500 }
    );

    let before_epoch = round_trip(ScalarValue::Timestamp { ticks: -42 }, t, CacheMode::Hybrid);
    assert_eq!(before_epoch, ScalarValue::Timestamp { ticks: -42 });

    let seconds = LogicalType::Timestamp { unit: TimeUnit::Second };
    assert_eq!(
        round_trip(ScalarValue::Timestamp { ticks: 1_700_000_000 }, seconds, CacheMode::InMemory),
        ScalarValue::Timestamp { ticks: 1_700_000_000 }
    );
}

#[test]
fn unrepresentable_timestamp_is_refused_not_truncated() {
    let t = LogicalType::Timestamp { unit: TimeUnit::Second };
    let err = encode_value(
        ScalarValue::Timestamp { ticks: i64::MAX },
        t,
        CacheMode::InMemory,
    )
    .unwrap_err();
    assert_eq!(err, AdaptError::OutOfRange);
}

#[test]
fn identity_types_pass_values_through() {
    let m = CacheMode::InMemory;
    assert_eq!(
        round_trip(ScalarValue::Bool { v: true }, LogicalType::Boolean, m),
        ScalarValue::Bool { v: true }
    );
    assert_eq!(
        round_trip(ScalarValue::Int { v: -7 }, LogicalType::Int16, m),
        ScalarValue::Int { v: -7 }
    );
    assert_eq!(
        round_trip(ScalarValue::Date { days: 20_000 }, LogicalType::Date32, m),
        ScalarValue::Date { days: 20_000 }
    );
}

#[test]
fn disabled_mode_encodes_identically() {
    let v = ScalarValue::Text { s: "x".to_string() };
    let encoded = encode_value(
        ScalarValue::Text { s: "x".to_string() },
        LogicalType::Utf8,
        CacheMode::Disabled,
    )
    .unwrap();
    assert_eq!(encoded, v);
}

#[test]
fn a_whole_row_reads_back_identically_through_the_cache_path() {
    let m = CacheMode::InMemory;
    let schema = vec![
        LogicalType::Int64,
        LogicalType::Utf8,
        LogicalType::Decimal { precision: 10, scale: 2 },
        LogicalType::Timestamp { unit: TimeUnit::Microsecond },
    ];
    let row = || {
        vec![
            ScalarValue::Int { v: 42 },
            ScalarValue::Text { s: "pay".to_string() },
            ScalarValue::Decimal { unscaled: 123_450 },
            ScalarValue::Timestamp { ticks: 1_700_000_000_000_000 },
        ]
    };
    let mut through_cache = Vec::new();
    for (v, t) in row().into_iter().zip(schema.iter()) {
        let encoded = encode_value(v, *t, m).unwrap();
        through_cache.push(decode_value(encoded, *t, m));
    }
    assert_eq!(through_cache, row());
}
