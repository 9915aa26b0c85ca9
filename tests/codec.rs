use sql_gateway::text::{format_date, format_time};
use sql_gateway::value::{bind_values, to_json, to_native, JsonNumber, JsonValue, NativeValue};

fn json_eq(a: &JsonValue, b: &JsonValue) -> bool {
    match (a, b) {
        (JsonValue::Null, JsonValue::Null) => true,
        (JsonValue::Bool(x), JsonValue::Bool(y)) => x == y,
        (JsonValue::Number(x), JsonValue::Number(y)) => x == y,
        (JsonValue::String(x), JsonValue::String(y)) => x == y,
        _ => false,
    }
}

#[test]
fn date_cell_is_zero_padded() {
    assert_eq!(format_date(2024, 3, 5, 9, 7, 2, 123000), "2024-03-05 09:07:02.123000");
    let v = to_json(&NativeValue::Date(2024, 3, 5, 9, 7, 2, 123000));
    assert!(json_eq(&v, &JsonValue::String("2024-03-05 09:07:02.123000".to_string())));
}

#[test]
fn time_cell_counts_days_into_hours() {
    assert_eq!(format_time(false, 1, 2, 30, 0, 0), "26:30:00.000000");
    let v = to_json(&NativeValue::Time(false, 1, 2, 30, 0, 0));
    assert!(json_eq(&v, &JsonValue::String("26:30:00.000000".to_string())));
}

#[test]
fn negative_time_has_sign() {
    assert_eq!(format_time(true, 0, 5, 4, 3, 21), "-05:04:03.000021");
}

#[test]
fn wide_fields_are_not_cut() {
    assert_eq!(format_date(12345, 12, 31, 23, 59, 59, 1234567), "12345-12-31 23:59:59.1234567");
    assert_eq!(format_time(false, 34, 22, 59, 59, 999999), "838:59:59.999999");
    assert_eq!(format_date(0, 0, 0, 0, 0, 0, 0), "0000-00-00 00:00:00.000000");
}

#[test]
fn scalars_round_trip() {
    let cases = vec![
        JsonValue::Null,
        JsonValue::Bool(true),
        JsonValue::Bool(false),
        JsonValue::Number(JsonNumber::Int(-42)),
        JsonValue::Number(JsonNumber::Int(i64::MAX)),
        JsonValue::Number(JsonNumber::UInt(u64::MAX)),
        JsonValue::Number(JsonNumber::Float(1.5f64.to_bits())),
        JsonValue::String("héllo wörld".to_string()),
        JsonValue::String(String::new()),
    ];
    for v in &cases {
        let back = to_json(&to_native(v));
        assert!(json_eq(&back, v), "{:?} came back as {:?}", v, back);
    }
}

#[test]
fn composites_bind_as_null() {
    let arr = JsonValue::Array(vec![JsonValue::Bool(true), JsonValue::Null]);
    let obj = JsonValue::Object(vec![("a".to_string(), JsonValue::Number(JsonNumber::Int(1)))]);
    assert!(matches!(to_native(&arr), NativeValue::Null));
    assert!(matches!(to_native(&obj), NativeValue::Null));
    assert!(matches!(to_native(&JsonValue::Array(vec![])), NativeValue::Null));
}

#[test]
fn numbers_bind_by_range() {
    assert!(matches!(to_native(&JsonValue::Number(JsonNumber::Int(-7))), NativeValue::Int(-7)));
    assert!(matches!(to_native(&JsonValue::Number(JsonNumber::UInt(7))), NativeValue::Int(7)));
    assert!(matches!(
        to_native(&JsonValue::Number(JsonNumber::UInt(1u64 << 63))),
        NativeValue::UInt(u) if u == 1u64 << 63
    ));
    let bits = 2.25f64.to_bits();
    assert!(matches!(to_native(&JsonValue::Number(JsonNumber::Float(bits))), NativeValue::Double(b) if b == bits));
}

#[test]
fn strings_bind_as_utf8_bytes() {
    match to_native(&JsonValue::String("é".to_string())) {
        NativeValue::Bytes(b) => assert_eq!(b, vec![0xc3, 0xa9]),
        other => panic!("unexpected {:?}", other),
    }
}

#[test]
fn invalid_bytes_are_replaced() {
    let v = to_json(&NativeValue::Bytes(vec![b'a', 0xff, b'b']));
    assert!(json_eq(&v, &JsonValue::String("a\u{fffd}b".to_string())));
    let v = to_json(&NativeValue::Bytes(vec![0x68, 0x69]));
    assert!(json_eq(&v, &JsonValue::String("hi".to_string())));
}

#[test]
fn non_finite_floats_become_null() {
    assert!(matches!(to_json(&NativeValue::Double(f64::NAN.to_bits())), JsonValue::Null));
    assert!(matches!(to_json(&NativeValue::Double(f64::INFINITY.to_bits())), JsonValue::Null));
    assert!(matches!(to_json(&NativeValue::Float((f32::NEG_INFINITY as f64).to_bits())), JsonValue::Null));
    let bits = ((0.5f32) as f64).to_bits();
    assert!(matches!(to_json(&NativeValue::Float(bits)), JsonValue::Number(JsonNumber::Float(b)) if b == bits));
}

#[test]
fn integer_cells_become_numbers() {
    assert!(matches!(to_json(&NativeValue::Int(-3)), JsonValue::Number(JsonNumber::Int(-3))));
    assert!(matches!(to_json(&NativeValue::UInt(3)), JsonValue::Number(JsonNumber::Int(3))));
    assert!(matches!(to_json(&NativeValue::UInt(u64::MAX)), JsonValue::Number(JsonNumber::UInt(u64::MAX))));
    assert!(matches!(to_json(&NativeValue::Null), JsonValue::Null));
}

#[test]
fn values_bind_in_order() {
    let values = vec![
        JsonValue::String("x".to_string()),
        JsonValue::Null,
        JsonValue::Number(JsonNumber::Int(5)),
        JsonValue::Array(vec![]),
    ];
    let bound = bind_values(&values);
    assert_eq!(bound.len(), 4);
    assert!(matches!(&bound[0], NativeValue::Bytes(b) if b == b"x"));
    assert!(matches!(bound[1], NativeValue::Null));
    assert!(matches!(bound[2], NativeValue::Int(5)));
    assert!(matches!(bound[3], NativeValue::Null));
    assert!(bind_values(&vec![]).is_empty());
}
