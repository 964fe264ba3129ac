use paper_trail_db::codec::{json_to_libsql_value, libsql_value_to_json};
use paper_trail_db::values::{bits_are_finite, JsonNumber, JsonValue, SqlValue};

fn bits_of(x: f64) -> u64 {
    x.to_bits()
}

#[test]
fn null_becomes_null() {
    assert_eq!(json_to_libsql_value(JsonValue::Null), SqlValue::Null);
    assert_eq!(libsql_value_to_json(SqlValue::Null), JsonValue::Null);
}

#[test]
fn booleans_become_zero_and_one() {
    assert_eq!(json_to_libsql_value(JsonValue::Bool(true)), SqlValue::Integer(1));
    assert_eq!(json_to_libsql_value(JsonValue::Bool(false)), SqlValue::Integer(0));
}

#[test]
fn booleans_come_back_as_integers() {
    let back = libsql_value_to_json(json_to_libsql_value(JsonValue::Bool(true)));
    assert_eq!(back, JsonValue::Number(JsonNumber::PosInt(1)));
    let back = libsql_value_to_json(json_to_libsql_value(JsonValue::Bool(false)));
    assert_eq!(back, JsonValue::Number(JsonNumber::PosInt(0)));
}

#[test]
fn integers_stay_integers() {
    assert_eq!(
        json_to_libsql_value(JsonValue::Number(JsonNumber::PosInt(42))),
        SqlValue::Integer(42)
    );
    assert_eq!(
        json_to_libsql_value(JsonValue::Number(JsonNumber::NegInt(-7))),
        SqlValue::Integer(-7)
    );
    assert_eq!(
        json_to_libsql_value(JsonValue::Number(JsonNumber::PosInt(i64::MAX as u64))),
        SqlValue::Integer(i64::MAX)
    );
    assert_eq!(
        json_to_libsql_value(JsonValue::Number(JsonNumber::NegInt(i64::MIN))),
        SqlValue::Integer(i64::MIN)
    );
}

#[test]
fn integers_beyond_the_signed_range_become_null() {
    let samples: [u64; 6] = [
        1u64 << 63,
        (1u64 << 63) + 1,
        (1u64 << 63) + 1024,
        0xdead_beef_cafe_f00d,
        u64::MAX - 1,
        u64::MAX,
    ];
    for n in samples {
        assert_eq!(
            json_to_libsql_value(JsonValue::Number(JsonNumber::PosInt(n))),
            SqlValue::Null,
            "{}",
            n
        );
    }
}

#[test]
fn integer_valued_numbers_never_become_reals() {
    for n in [0u64, 1, i64::MAX as u64, (i64::MAX as u64) + 1, u64::MAX] {
        let native = json_to_libsql_value(JsonValue::Number(JsonNumber::PosInt(n)));
        assert!(!matches!(native, SqlValue::Real(_)), "{}", n);
    }
}

#[test]
fn reals_stay_reals() {
    for x in [0.5f64, -1.25, 1e300, -0.0, f64::MIN_POSITIVE, 3.0] {
        assert_eq!(
            json_to_libsql_value(JsonValue::Number(JsonNumber::Float(bits_of(x)))),
            SqlValue::Real(bits_of(x))
        );
    }
}

#[test]
fn strings_become_text() {
    assert_eq!(
        json_to_libsql_value(JsonValue::String("héllo".to_string())),
        SqlValue::Text("héllo".to_string())
    );
}

#[test]
fn arrays_and_objects_become_null() {
    assert_eq!(json_to_libsql_value(JsonValue::Array(vec![])), SqlValue::Null);
    assert_eq!(
        json_to_libsql_value(JsonValue::Array(vec![JsonValue::Number(JsonNumber::PosInt(1))])),
        SqlValue::Null
    );
    assert_eq!(json_to_libsql_value(JsonValue::Object(vec![])), SqlValue::Null);
    assert_eq!(
        json_to_libsql_value(JsonValue::Object(vec![("a".to_string(), JsonValue::Bool(true))])),
        SqlValue::Null
    );
}

#[test]
fn native_integers_become_numbers() {
    assert_eq!(
        libsql_value_to_json(SqlValue::Integer(5)),
        JsonValue::Number(JsonNumber::PosInt(5))
    );
    assert_eq!(
        libsql_value_to_json(SqlValue::Integer(0)),
        JsonValue::Number(JsonNumber::PosInt(0))
    );
    assert_eq!(
        libsql_value_to_json(SqlValue::Integer(-5)),
        JsonValue::Number(JsonNumber::NegInt(-5))
    );
    assert_eq!(
        libsql_value_to_json(SqlValue::Integer(i64::MIN)),
        JsonValue::Number(JsonNumber::NegInt(i64::MIN))
    );
}

#[test]
fn finite_reals_become_numbers() {
    assert_eq!(
        libsql_value_to_json(SqlValue::Real(bits_of(2.5))),
        JsonValue::Number(JsonNumber::Float(bits_of(2.5)))
    );
    assert_eq!(
        libsql_value_to_json(SqlValue::Real(bits_of(f64::MAX))),
        JsonValue::Number(JsonNumber::Float(bits_of(f64::MAX)))
    );
}

#[test]
fn reals_that_are_not_finite_become_zero() {
    for x in [f64::NAN, f64::INFINITY, f64::NEG_INFINITY, 1.0f64 / 0.0, -(0.0f64 / 0.0)] {
        assert_eq!(
            libsql_value_to_json(SqlValue::Real(bits_of(x))),
            JsonValue::Number(JsonNumber::PosInt(0))
        );
    }
}

#[test]
fn finite_test_agrees_with_the_floating_point_unit() {
    let samples = [
        0.0f64,
        -0.0,
        1.0,
        f64::MAX,
        f64::MIN,
        f64::MIN_POSITIVE,
        5e-324,
        f64::NAN,
        f64::INFINITY,
        f64::NEG_INFINITY,
    ];
    for x in samples {
        assert_eq!(bits_are_finite(x.to_bits()), x.is_finite(), "{}", x);
    }
    assert!(!bits_are_finite(0x7ff0_0000_0000_0001));
    assert!(!bits_are_finite(0xfff8_0000_0000_0000));
    assert!(bits_are_finite(0x7fef_ffff_ffff_ffff));
}

#[test]
fn text_becomes_string() {
    assert_eq!(
        libsql_value_to_json(SqlValue::Text("abc".to_string())),
        JsonValue::String("abc".to_string())
    );
}

#[test]
fn blobs_become_base64_strings() {
    assert_eq!(
        libsql_value_to_json(SqlValue::Blob(vec![0x4d, 0x61, 0x6e])),
        JsonValue::String("TWFu".to_string())
    );
    assert_eq!(
        libsql_value_to_json(SqlValue::Blob(vec![0x4d])),
        JsonValue::String("TQ==".to_string())
    );
    assert_eq!(libsql_value_to_json(SqlValue::Blob(vec![])), JsonValue::String(String::new()));
}

#[test]
fn scalars_round_trip() {
    let samples = || {
        vec![
            JsonValue::Null,
            JsonValue::Number(JsonNumber::PosInt(0)),
            JsonValue::Number(JsonNumber::PosInt(i64::MAX as u64)),
            JsonValue::Number(JsonNumber::NegInt(-1)),
            JsonValue::Number(JsonNumber::NegInt(i64::MIN)),
            JsonValue::Number(JsonNumber::Float(bits_of(0.1))),
            JsonValue::Number(JsonNumber::Float(bits_of(-1e-9))),
            JsonValue::String(String::new()),
            JsonValue::String("a string with \"quotes\"".to_string()),
        ]
    };
    for (sent, expected) in samples().into_iter().zip(samples()) {
        assert_eq!(libsql_value_to_json(json_to_libsql_value(sent)), expected);
    }
}

#[test]
fn large_unsigned_integer_does_not_round_trip() {
    let back = libsql_value_to_json(json_to_libsql_value(JsonValue::Number(JsonNumber::PosInt(
        u64::MAX,
    ))));
    assert_eq!(back, JsonValue::Null);
}
