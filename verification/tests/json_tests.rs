use qbittorrent_web_api::client::set_preferences_body;
use qbittorrent_web_api::json::json_to_string;
use qbittorrent_web_api::IntOrString;
use qbittorrent_web_api::JsonObject;
use qbittorrent_web_api::JsonValue;
use qbittorrent_web_api::QBittorrentError;

#[test]
fn scalars_render_like_json() {
    assert_eq!(json_to_string(&JsonValue::Null), "null");
    assert_eq!(json_to_string(&JsonValue::Bool(true)), "true");
    assert_eq!(json_to_string(&JsonValue::Bool(false)), "false");
    assert_eq!(json_to_string(&JsonValue::Num(0)), "0");
    assert_eq!(json_to_string(&JsonValue::Num(-42)), "-42");
    assert_eq!(json_to_string(&JsonValue::Num(i64::MIN)), "-9223372036854775808");
    assert_eq!(json_to_string(&JsonValue::Num(i64::MAX)), "9223372036854775807");
}

#[test]
fn raw_numbers_render_verbatim() {
    assert_eq!(json_to_string(&JsonValue::RawNum("0.5".to_string())), "0.5");
    assert_eq!(json_to_string(&JsonValue::RawNum("18446744073709551615".to_string())),
        "18446744073709551615");
    let obj = JsonValue::Obj(vec![("ratio".to_string(), JsonValue::RawNum("1.25".to_string()))]);
    let reparsed: serde_json::Value = serde_json::from_str(&json_to_string(&obj)).unwrap();
    assert_eq!(reparsed["ratio"], serde_json::Value::from(1.25f64));
}

#[test]
fn strings_render_with_escapes() {
    let s = JsonValue::Str("a\"b\\c\nd\u{1}".to_string());
    assert_eq!(json_to_string(&s), "\"a\\\"b\\\\c\\nd\\u0001\"");
    let plain = JsonValue::Str("héllo wörld".to_string());
    assert_eq!(json_to_string(&plain), "\"héllo wörld\"");
    let controls = JsonValue::Str("\u{8}\t\r\u{c}\u{1f}".to_string());
    assert_eq!(json_to_string(&controls), "\"\\b\\t\\r\\f\\u001f\"");
}

#[test]
fn arrays_and_objects_render_compactly() {
    assert_eq!(json_to_string(&JsonValue::Arr(vec![])), "[]");
    assert_eq!(json_to_string(&JsonValue::Obj(vec![])), "{}");
    let nested = JsonValue::Arr(vec![
        JsonValue::Num(1),
        JsonValue::Arr(vec![JsonValue::Bool(true), JsonValue::Null]),
        JsonValue::Str("x".to_string()),
    ]);
    assert_eq!(json_to_string(&nested), "[1,[true,null],\"x\"]");
    let obj = JsonValue::Obj(vec![
        ("save_path".to_string(), JsonValue::Str("/tmp/dl".to_string())),
        ("max_active_downloads".to_string(), JsonValue::Num(3)),
    ]);
    assert_eq!(json_to_string(&obj), "{\"save_path\":\"/tmp/dl\",\"max_active_downloads\":3}");
}

#[test]
fn json_object_accepts_objects_only() {
    assert!(JsonObject::try_from(JsonValue::Obj(vec![])).is_ok());
    for not_an_object in [
        JsonValue::Null,
        JsonValue::Bool(true),
        JsonValue::Num(1),
        JsonValue::Str("{}".to_string()),
        JsonValue::Arr(vec![]),
    ] {
        match JsonObject::try_from(not_an_object) {
            Err(QBittorrentError::BadInput(_)) => {},
            other => panic!("expected a BadInput error, got {other:?}"),
        }
    }
}

#[test]
fn preferences_body_wraps_the_object_under_json() {
    let obj = JsonObject::try_from(JsonValue::Obj(vec![
        ("save_path".to_string(), JsonValue::Str("/tmp/dl".to_string())),
        ("queueing_enabled".to_string(), JsonValue::Bool(false)),
    ]))
    .unwrap();
    assert_eq!(
        set_preferences_body(&obj),
        "json={\"save_path\":\"/tmp/dl\",\"queueing_enabled\":false}"
    );
}

#[test]
fn int_or_string_keeps_the_representation() {
    match IntOrString::from_json(&JsonValue::Num(42)).unwrap() {
        IntOrString::Int(i) => assert_eq!(i, 42),
        other => panic!("expected the integer representation, got {other:?}"),
    }
    match IntOrString::from_json(&JsonValue::Str("42".to_string())).unwrap() {
        IntOrString::Str(s) => assert_eq!(s, "42"),
        other => panic!("expected the string representation, got {other:?}"),
    }
}

#[test]
fn int_or_string_rejects_other_shapes() {
    for bad in [
        JsonValue::Null,
        JsonValue::Bool(true),
        JsonValue::RawNum("1.5".to_string()),
        JsonValue::Arr(vec![]),
        JsonValue::Obj(vec![]),
    ] {
        match IntOrString::from_json(&bad) {
            Err(QBittorrentError::BadInput(_)) => {},
            other => panic!("expected a BadInput error, got {other:?}"),
        }
    }
}

#[test]
fn int_or_string_reads_real_json_text() {
    // The same two shapes, arriving as JSON text through serde_json.
    let int_value: serde_json::Value = serde_json::from_str("42").unwrap();
    let str_value: serde_json::Value = serde_json::from_str("\"42\"").unwrap();
    let int_model = match int_value {
        serde_json::Value::Number(n) => JsonValue::Num(n.as_i64().unwrap()),
        other => panic!("expected a number, got {other:?}"),
    };
    let str_model = match str_value {
        serde_json::Value::String(s) => JsonValue::Str(s),
        other => panic!("expected a string, got {other:?}"),
    };
    assert!(matches!(IntOrString::from_json(&int_model).unwrap(), IntOrString::Int(42)));
    match IntOrString::from_json(&str_model).unwrap() {
        IntOrString::Str(s) => assert_eq!(s, "42"),
        other => panic!("expected the string representation, got {other:?}"),
    }
}

#[test]
fn rendered_json_is_what_serde_parses_back() {
    let obj = JsonValue::Obj(vec![
        ("k".to_string(), JsonValue::Arr(vec![JsonValue::Num(-1), JsonValue::Str(
            "a\"b".to_string(),
        )])),
    ]);
    let text = json_to_string(&obj);
    let reparsed: serde_json::Value = serde_json::from_str(&text).unwrap();
    assert_eq!(reparsed["k"][0], serde_json::Value::from(-1i64));
    assert_eq!(reparsed["k"][1], serde_json::Value::from("a\"b"));
}
