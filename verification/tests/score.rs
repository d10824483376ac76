use shaayud_core::framekit::score::{as_f64, eval_score, get_path, matches_cond, try_eval_score, Cond, Rule, RuleSet};
use shaayud_core::json::{json_equal, Json, JsonMember, JsonNumber, JsonString};

fn text(t: &str) -> Json {
    Json::Str(JsonString { text: t.to_string(), as_float: t.parse::<f64>().ok().map(|f| f.to_bits()) })
}

fn num(u: u64) -> Json {
    Json::Number(JsonNumber::PosInt { unsigned: u, as_float: (u as f64).to_bits() })
}

fn neg(i: i64) -> Json {
    Json::Number(JsonNumber::NegInt { signed: i, as_float: (i as f64).to_bits() })
}

fn float(x: f64) -> Json {
    Json::Number(JsonNumber::Float { bits: x.to_bits() })
}

fn obj(pairs: Vec<(&str, Json)>) -> Json {
    let mut members: Vec<JsonMember> =
        pairs.into_iter().map(|(k, v)| JsonMember { key: k.to_string(), value: v }).collect();
    members.sort_by(|a, b| a.key.cmp(&b.key));
    Json::Object(members)
}

fn bag() -> Json {
    obj(vec![
        (
            "event",
            obj(vec![
                ("type", text("mouse_batch")),
                ("front_path", text("/checkout")),
                ("user_agent", Json::Null),
                ("ua_empty", Json::Bool(true)),
            ]),
        ),
        (
            "feat",
            obj(vec![
                ("identity_known_devices_recent", num(1)),
                ("is_new_device_for_identity", Json::Bool(true)),
                ("session_ip_country_changed", Json::Bool(false)),
                ("mouse_points_len", num(2048)),
                ("ratio", text("3.5")),
            ]),
        ),
    ])
}

fn eq(path: &str, v: Json) -> Cond {
    Cond::Eq { eq: (path.to_string(), v) }
}

fn gt(path: &str, thr: f64) -> Cond {
    Cond::Gt { gt: (path.to_string(), thr.to_bits()) }
}

fn re(path: &str, pattern: &str) -> Cond {
    Cond::Regex { regex: (path.to_string(), pattern.to_string()) }
}

fn rule(id: &str, when: Cond, score: i64, desc: Option<&str>) -> Rule {
    Rule { id: id.to_string(), when, score, desc: desc.map(|d| d.to_string()) }
}

#[test]
fn get_path_follows_dots() {
    let b = bag();
    assert!(json_equal(get_path(&b, "feat.mouse_points_len").unwrap(), &num(2048)));
    assert!(get_path(&b, "feat.missing").is_none());
    assert!(get_path(&b, "event.type.inner").is_none());
    assert!(get_path(&b, "").is_none());
    assert!(get_path(&b, "feat.").is_none());
}

#[test]
fn as_f64_readings() {
    assert_eq!(as_f64(&Json::Bool(true)).map(f64::from_bits), Some(1.0));
    assert_eq!(as_f64(&Json::Bool(false)).map(f64::from_bits), Some(0.0));
    assert_eq!(as_f64(&num(7)).map(f64::from_bits), Some(7.0));
    assert_eq!(as_f64(&text("2.25")).map(f64::from_bits), Some(2.25));
    assert_eq!(as_f64(&text("abc")), None);
    assert_eq!(as_f64(&Json::Null), None);
}

#[test]
fn eq_condition() {
    let b = bag();
    assert!(matches_cond(&b, &eq("event.type", text("mouse_batch"))));
    assert!(!matches_cond(&b, &eq("event.type", text("click"))));
    assert!(matches_cond(&b, &eq("event.ua_empty", Json::Bool(true))));
    assert!(!matches_cond(&b, &eq("feat.identity_known_devices_recent", float(1.0))));
    assert!(!matches_cond(&b, &eq("nowhere", Json::Null)));
    assert!(matches_cond(&b, &eq("event.user_agent", Json::Null)));
}

#[test]
fn gt_condition() {
    let b = bag();
    assert!(matches_cond(&b, &gt("feat.mouse_points_len", 1000.0)));
    assert!(!matches_cond(&b, &gt("feat.mouse_points_len", 2048.0)));
    assert!(matches_cond(&b, &gt("feat.is_new_device_for_identity", 0.5)));
    assert!(!matches_cond(&b, &gt("feat.session_ip_country_changed", 0.0)));
    assert!(matches_cond(&b, &gt("feat.ratio", 3.0)));
    assert!(!matches_cond(&b, &gt("event.type", -1.0)));
    assert!(!matches_cond(&b, &gt("feat.mouse_points_len", f64::NAN)));
    assert!(matches_cond(&b, &gt("feat.mouse_points_len", f64::NEG_INFINITY)));
}

#[test]
fn gt_negative_values() {
    let b = obj(vec![("a", neg(-3)), ("z", float(-0.0))]);
    assert!(matches_cond(&b, &gt("a", -4.0)));
    assert!(!matches_cond(&b, &gt("a", -3.0)));
    assert!(!matches_cond(&b, &gt("z", 0.0)));
    assert!(matches_cond(&b, &gt("z", -0.5)));
}

#[test]
fn regex_condition() {
    let b = bag();
    assert!(matches_cond(&b, &re("event.front_path", "^/check")));
    assert!(!matches_cond(&b, &re("event.front_path", "^/cart")));
    assert!(!matches_cond(&b, &re("event.front_path", "(")));
    assert!(!matches_cond(&b, &re("feat.mouse_points_len", ".*")));
}

#[test]
fn all_and_any_conditions() {
    let b = bag();
    let yes = || eq("event.type", text("mouse_batch"));
    let no = || eq("event.type", text("click"));
    assert!(matches_cond(&b, &Cond::All { all: vec![] }));
    assert!(!matches_cond(&b, &Cond::Any { any: vec![] }));
    assert!(matches_cond(&b, &Cond::All { all: vec![yes(), yes()] }));
    assert!(!matches_cond(&b, &Cond::All { all: vec![yes(), no()] }));
    assert!(matches_cond(&b, &Cond::Any { any: vec![no(), yes()] }));
    assert!(!matches_cond(&b, &Cond::Any { any: vec![no(), no()] }));
}

#[test]
fn eval_score_adds_matched_rules() {
    let rules = RuleSet {
        version: 1,
        default: 10,
        rules: vec![
            rule("new_device", eq("feat.is_new_device_for_identity", Json::Bool(true)), 25, Some("new device")),
            rule("no_ua", eq("event.ua_empty", Json::Bool(false)), 40, None),
            rule("mouse", gt("feat.mouse_points_len", 100.0), -5, None),
        ],
    };
    let s = eval_score(&bag(), &rules);
    assert_eq!(s.total, 30);
    assert_eq!(s.matched.len(), 2);
    assert_eq!(s.matched[0], ("new_device".to_string(), 25, Some("new device".to_string())));
    assert_eq!(s.matched[1], ("mouse".to_string(), -5, None));
}

#[test]
fn eval_score_without_rules_is_default() {
    let rules = RuleSet { version: 1, default: -7, rules: vec![] };
    let s = eval_score(&bag(), &rules);
    assert_eq!(s.total, -7);
    assert!(s.matched.is_empty());
}

#[test]
fn try_eval_score_refuses_overflow() {
    let always = || Cond::All { all: vec![] };
    let rules = RuleSet {
        version: 1,
        default: i64::MAX - 1,
        rules: vec![rule("a", always(), 1, None), rule("b", always(), 1, None), rule("c", always(), -5, None)],
    };
    assert!(try_eval_score(&bag(), &rules).is_none());
    let rules = RuleSet {
        version: 1,
        default: i64::MAX - 1,
        rules: vec![rule("a", always(), 1, None), rule("c", always(), -5, None), rule("b", always(), 1, None)],
    };
    let s = try_eval_score(&bag(), &rules).unwrap();
    assert_eq!(s.total, i64::MAX - 4);
}

#[test]
fn scoring_concatenated_rule_lists_adds_up() {
    let b = bag();
    let first = vec![rule("x", eq("event.type", text("mouse_batch")), 3, None)];
    let second = vec![rule("y", gt("feat.mouse_points_len", 10.0), 4, None), rule("z", Cond::Any { any: vec![] }, 9, None)];
    let s1 = eval_score(&b, &RuleSet { version: 1, default: 0, rules: first }).total;
    let s2 = eval_score(&b, &RuleSet { version: 1, default: 0, rules: second }).total;
    let all = vec![
        rule("x", eq("event.type", text("mouse_batch")), 3, None),
        rule("y", gt("feat.mouse_points_len", 10.0), 4, None),
        rule("z", Cond::Any { any: vec![] }, 9, None),
    ];
    let s = eval_score(&b, &RuleSet { version: 1, default: 0, rules: all });
    assert_eq!(s.total, s1 + s2);
    assert_eq!(s.matched.len(), 2);
}

#[test]
fn dotted_path_is_followed_piece_by_piece() {
    let b = obj(vec![("a", obj(vec![("b", obj(vec![("c", num(9))]))]))]);
    let whole = get_path(&b, "a.b.c").unwrap();
    let step = get_path(get_path(&b, "a").unwrap(), "b.c").unwrap();
    assert!(json_equal(whole, step));
    assert!(json_equal(get_path(&b, "a").unwrap(), b.get("a").unwrap()));
    assert!(get_path(&b, "a.x.c").is_none());
}
