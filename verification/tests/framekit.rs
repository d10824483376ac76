use shaayud_core::framekit::event::extract_event_info;
use shaayud_core::framekit::geo::extract_geo_info;
use shaayud_core::framekit::identity::extract_identity_info;
use shaayud_core::framekit::network::extract_network_info;
use shaayud_core::framekit::session::extract_session_info;
use shaayud_core::json::{Json, JsonMember, JsonNumber, JsonString};
use shaayud_core::structs::eventos::GeoPayload;
use shaayud_core::time::UtcTimestamp;
use shaayud_core::extract_device_info;

fn text(t: &str) -> Json {
    Json::Str(JsonString { text: t.to_string(), as_float: t.parse::<f64>().ok().map(|f| f.to_bits()) })
}

fn num(u: u64) -> Json {
    Json::Number(JsonNumber::PosInt { unsigned: u, as_float: (u as f64).to_bits() })
}

fn obj(pairs: Vec<(&str, Json)>) -> Json {
    let mut members: Vec<JsonMember> =
        pairs.into_iter().map(|(k, v)| JsonMember { key: k.to_string(), value: v }).collect();
    members.sort_by(|a, b| a.key.cmp(&b.key));
    Json::Object(members)
}

fn ts(secs: i64, nanos: u32) -> UtcTimestamp {
    UtcTimestamp::from_timestamp(secs, nanos).unwrap()
}

fn fingerprint(ua: Option<&str>) -> Json {
    let mut comps = vec![("platform", obj(vec![("value", text("Linux x86_64"))]))];
    if let Some(ua) = ua {
        comps.push(("userAgent", obj(vec![("value", text(ua))])));
    }
    obj(vec![("visitorId", text("v-123")), ("components", obj(comps))])
}

#[test]
fn identity_keeps_id_and_has_no_user() {
    let r = extract_identity_info("shy-42");
    assert_eq!(r.id, "shy-42");
    assert!(r.user_id.is_none());
}

#[test]
fn network_leaves_out_empty_fields() {
    let r = extract_network_info("", "");
    assert!(r.ip.is_none());
    assert!(r.ua_raw.is_none());
    let r = extract_network_info("10.0.0.1", "curl/8.0");
    assert_eq!(r.ip.as_deref(), Some("10.0.0.1"));
    assert_eq!(r.ua_raw.as_deref(), Some("curl/8.0"));
}

#[test]
fn device_mobile_user_agent() {
    let d = extract_device_info(&fingerprint(Some("Mozilla/5.0 (iPhone) Mobile Safari")));
    assert_eq!(d.id, "v-123");
    assert_eq!(d.os.as_deref(), Some("Linux x86_64"));
    assert_eq!(d.browser.as_deref(), Some("Mozilla/5.0 (iPhone) Mobile Safari"));
    assert_eq!(d.device_type.as_deref(), Some("mobile"));
}

#[test]
fn device_tablet_and_desktop_user_agents() {
    let d = extract_device_info(&fingerprint(Some("Mozilla/5.0 (Tablet; Android)")));
    assert_eq!(d.device_type.as_deref(), Some("tablet"));
    let d = extract_device_info(&fingerprint(Some("Mozilla/5.0 (X11; Linux)")));
    assert_eq!(d.device_type.as_deref(), Some("desktop"));
}

#[test]
fn device_mobile_wins_over_tablet() {
    let d = extract_device_info(&fingerprint(Some("Tablet Mobile")));
    assert_eq!(d.device_type.as_deref(), Some("mobile"));
}

#[test]
fn device_without_user_agent_has_no_kind() {
    let d = extract_device_info(&fingerprint(None));
    assert!(d.browser.is_none());
    assert!(d.device_type.is_none());
}

#[test]
fn device_unknown_when_visitor_id_missing_or_not_text() {
    let d = extract_device_info(&obj(vec![]));
    assert_eq!(d.id, "unknown");
    assert!(d.os.is_none());
    let d = extract_device_info(&obj(vec![("visitorId", num(7))]));
    assert_eq!(d.id, "unknown");
    let d = extract_device_info(&Json::Null);
    assert_eq!(d.id, "unknown");
}

#[test]
fn geo_from_payload() {
    let payload = GeoPayload {
        country: Some("BR".to_string()),
        region: Some("SP".to_string()),
        city: None,
        latitude: Some((-23.5f64).to_bits()),
        longitude: Some((-46.6f64).to_bits()),
        timezone: Some("America/Sao_Paulo".to_string()),
    };
    let headers = obj(vec![("x-geo-country", text("US"))]);
    let g = extract_geo_info(&Some(payload), &headers);
    assert_eq!(g.key, "BR|SP||America/Sao_Paulo");
    assert_eq!(g.country.as_deref(), Some("BR"));
    assert!(g.city.is_none());
    assert_eq!(g.latitude.map(f64::from_bits), Some(-23.5));
    assert_eq!(g.longitude.map(f64::from_bits), Some(-46.6));
}

#[test]
fn geo_from_headers() {
    let headers = obj(vec![
        ("x-geo-country", text("US")),
        ("x-geo-region", text("CA")),
        ("x-geo-city", num(5)),
        ("x-geo-timezone", text("America/Los_Angeles")),
    ]);
    let g = extract_geo_info(&None, &headers);
    assert_eq!(g.key, "US|CA||America/Los_Angeles");
    assert_eq!(g.region.as_deref(), Some("CA"));
    assert!(g.city.is_none());
    assert!(g.latitude.is_none());
    assert!(g.longitude.is_none());
}

#[test]
fn geo_key_of_nothing() {
    let g = extract_geo_info(&None, &Json::Null);
    assert_eq!(g.key, "|||");
    assert!(g.country.is_none());
}

#[test]
fn session_id_precedence() {
    let header = obj(vec![("sessionId", text("hdr-1"))]);
    let s = extract_session_info(&header, &Some("pay-1".to_string()), "dev", ts(1_700_000_000, 0));
    assert_eq!(s.id, "pay-1");
    let s = extract_session_info(&header, &None, "dev", ts(1_700_000_000, 0));
    assert_eq!(s.id, "hdr-1");
    let s = extract_session_info(&obj(vec![("sessionId", num(3))]), &None, "dev", ts(1_700_000_000, 0));
    assert_eq!(s.id, "sess:dev:1700000000");
}

#[test]
fn session_generated_id_for_negative_time() {
    let s = extract_session_info(&Json::Null, &None, "d", ts(-5, 0));
    assert_eq!(s.id, "sess:d:-5");
    assert_eq!(s.started_at_iso, "1969-12-31T23:59:55+00:00");
}

#[test]
fn session_started_at_is_rfc3339() {
    let s = extract_session_info(&Json::Null, &None, "d", ts(1_700_000_000, 123_000_000));
    assert_eq!(s.started_at_iso, "2023-11-14T22:13:20.123+00:00");
}

#[test]
fn event_keeps_carried_id_and_type() {
    let e = extract_event_info(
        &Some("e-1".to_string()),
        &Some("click".to_string()),
        "POST",
        "/api",
        "idy",
        "sess",
        ts(1_700_000_000, 456_789_000),
    );
    assert_eq!(e.id, "e-1");
    assert_eq!(e.event_type, "click");
    assert_eq!(e.ts_ms, 1_700_000_000_456);
}

#[test]
fn event_generated_id_and_type() {
    let e = extract_event_info(&None, &None, "GET", "/home", "idy", "sess", ts(1_700_000_000, 0));
    assert_eq!(e.id, "evt:idy:sess:1700000000");
    assert_eq!(e.event_type, "GET /home");
    assert_eq!(e.ts_ms, 1_700_000_000_000);
}

#[test]
fn timestamp_refuses_bad_nanoseconds() {
    assert!(UtcTimestamp::from_timestamp(0, 2_000_000_000).is_none());
    assert!(UtcTimestamp::from_timestamp(i64::MAX, 0).is_none());
    let t = ts(0, 0);
    assert_eq!(t.to_rfc3339(), "1970-01-01T00:00:00+00:00");
    assert_eq!(t.timestamp(), 0);
    assert_eq!(ts(-1, 500_000_000).timestamp_millis(), -500);
}

#[test]
fn millis_stay_within_their_second() {
    for (secs, nanos) in [(5i64, 999_999_999u32), (-3, 1), (0, 0), (1_700_000_000, 500_000_000)] {
        let t = ts(secs, nanos);
        assert_eq!(t.timestamp_millis().div_euclid(1000), t.timestamp());
    }
    let leap = ts(59, 1_500_000_000);
    assert_eq!(leap.timestamp_millis(), 60_500);
}
