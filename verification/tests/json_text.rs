use shaayud_core::json::{json_equal, Json, JsonMember, JsonNumber, JsonString};
use shaayud_core::text::{append_i64_decimal, str_contains, str_equal, str_is_blank};

fn text(t: &str) -> Json {
    Json::Str(JsonString { text: t.to_string(), as_float: None })
}

fn float(x: f64) -> Json {
    Json::Number(JsonNumber::Float { bits: x.to_bits() })
}

fn num(u: u64) -> Json {
    Json::Number(JsonNumber::PosInt { unsigned: u, as_float: (u as f64).to_bits() })
}

#[test]
fn json_equality_follows_value_equality() {
    assert!(json_equal(&float(0.0), &float(-0.0)));
    assert!(!json_equal(&float(1.0), &num(1)));
    assert!(json_equal(&Json::Array(vec![num(1), text("a")]), &Json::Array(vec![num(1), text("a")])));
    assert!(!json_equal(&Json::Array(vec![num(1)]), &Json::Array(vec![num(1), num(1)])));
    let o1 = Json::Object(vec![JsonMember { key: "k".to_string(), value: Json::Null }]);
    let o2 = Json::Object(vec![JsonMember { key: "k".to_string(), value: Json::Null }]);
    let o3 = Json::Object(vec![JsonMember { key: "j".to_string(), value: Json::Null }]);
    assert!(json_equal(&o1, &o2));
    assert!(!json_equal(&o1, &o3));
    assert!(!json_equal(&Json::Null, &Json::Bool(false)));
}

#[test]
fn json_get_and_as_str() {
    let o = Json::Object(vec![
        JsonMember { key: "a".to_string(), value: text("x") },
        JsonMember { key: "b".to_string(), value: num(2) },
    ]);
    assert_eq!(o.get("a").and_then(|v| v.as_str()), Some("x"));
    assert!(o.get("b").unwrap().as_str().is_none());
    assert!(o.get("c").is_none());
    assert!(text("a").get("a").is_none());
}

#[test]
fn text_helpers() {
    assert!(str_equal("abc", "abc"));
    assert!(!str_equal("abc", "abd"));
    assert!(str_contains("Mozilla Mobile", "Mobile"));
    assert!(str_contains("abc", ""));
    assert!(!str_contains("Mob", "Mobile"));
    assert!(str_is_blank(""));
    assert!(str_is_blank(" \t\n\u{3000}"));
    assert!(!str_is_blank(" x "));
}

#[test]
fn decimal_formatting() {
    for n in [0i64, 7, -7, 10, 1_700_000_000, i64::MAX, i64::MIN] {
        let mut s = "n=".to_string();
        append_i64_decimal(&mut s, n);
        assert_eq!(s, format!("n={}", n));
    }
}

#[test]
fn json_equality_is_symmetric() {
    let values = vec![
        Json::Null,
        Json::Bool(true),
        num(3),
        float(3.0),
        float(-0.0),
        text("3"),
        Json::Array(vec![num(1), Json::Null]),
        Json::Object(vec![JsonMember { key: "a".to_string(), value: float(0.0) }]),
        Json::Object(vec![JsonMember { key: "a".to_string(), value: float(-0.0) }]),
    ];
    for a in &values {
        for b in &values {
            assert_eq!(json_equal(a, b), json_equal(b, a));
        }
    }
}
