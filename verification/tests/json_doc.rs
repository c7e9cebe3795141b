//! Checks of the document-value generator: structural bounds, the
//! always-null configuration, and an exact round trip through
//! serde_json for nested container values.

use autorand::json::{random_json_value, JsonValue, JSON_DEPTH_LIMIT};
use autorand::{Random, LEN_LIMIT};

fn check_wf(v: &JsonValue) {
    match v {
        JsonValue::Number(n) => assert!(*n <= 1000),
        JsonValue::Bool(_) => {}
        JsonValue::Text(s) => {
            assert!(s.len() < LEN_LIMIT);
            assert!(s.chars().all(|c| c.is_ascii_alphanumeric()));
        }
        JsonValue::Array(items) => {
            assert!(items.len() < LEN_LIMIT);
            for item in items {
                check_wf(item);
            }
        }
        JsonValue::Null => {}
        JsonValue::Object(members) => {
            assert!(members.len() < LEN_LIMIT);
            for (key, value) in members {
                assert!(key.len() < LEN_LIMIT);
                check_wf(value);
            }
        }
    }
}

fn to_serde(v: &JsonValue) -> serde_json::Value {
    match v {
        JsonValue::Number(n) => {
            serde_json::Value::Number(serde_json::Number::from_f64(*n as f64 / 1000.0).unwrap())
        }
        JsonValue::Bool(b) => serde_json::Value::Bool(*b),
        JsonValue::Text(s) => serde_json::Value::String(s.clone()),
        JsonValue::Array(items) => serde_json::Value::Array(items.iter().map(to_serde).collect()),
        JsonValue::Null => serde_json::Value::Null,
        JsonValue::Object(members) => {
            let mut map = serde_json::Map::new();
            for (key, value) in members {
                map.insert(key.clone(), to_serde(value));
            }
            serde_json::Value::Object(map)
        }
    }
}

#[test]
fn document_values_are_well_formed() {
    for _ in 0..500 {
        let v = JsonValue::random();
        check_wf(&v);
    }
}

#[test]
fn document_always_null_configuration() {
    for _ in 0..100 {
        let v = random_json_value(JSON_DEPTH_LIMIT, true);
        assert!(matches!(v, JsonValue::Null));
    }
}

#[test]
fn document_round_trip_through_serde_json() {
    for _ in 0..1000 {
        let v = to_serde(&JsonValue::random());
        let text = serde_json::to_string(&v).unwrap();
        let back: serde_json::Value = serde_json::from_str(&text).unwrap();
        assert_eq!(v, back);
    }
}
