use shaayud_core::ingest::{check_request, prepare_ingest, reply_for, IngestOutcome};
use shaayud_core::json::{Json, JsonMember, JsonString};
use shaayud_core::structs::eventos::{EventoInput, Viewport, Wheel};
use shaayud_core::time::UtcTimestamp;

fn text(t: &str) -> Json {
    Json::Str(JsonString { text: t.to_string(), as_float: t.parse::<f64>().ok().map(|f| f.to_bits()) })
}

fn obj(pairs: Vec<(&str, Json)>) -> Json {
    let mut members: Vec<JsonMember> =
        pairs.into_iter().map(|(k, v)| JsonMember { key: k.to_string(), value: v }).collect();
    members.sort_by(|a, b| a.key.cmp(&b.key));
    Json::Object(members)
}

fn input() -> EventoInput {
    EventoInput {
        shaayud_id: "idy-1".to_string(),
        fingerprint: obj(vec![
            ("visitorId", text("dev-9")),
            ("components", obj(vec![("userAgent", obj(vec![("value", text("X Mobile"))]))])),
        ]),
        ip: "".to_string(),
        user_agent: "   ".to_string(),
        header: obj(vec![("x-geo-country", text("PT"))]),
        timestamp: UtcTimestamp::from_timestamp(1_700_000_000, 5_000_000).unwrap(),
        method: "POST".to_string(),
        path: "/ingest".to_string(),
        session_id: None,
        event_id: None,
        event_type: None,
        geo: None,
        front_url: None,
        front_path: None,
        front_referrer: None,
        backend_path: None,
        backend_method: None,
        backend_host: None,
        ts_start: Some(1),
        ts_end: None,
        viewport: Some(Viewport { w: 1280, h: 720 }),
        points_deflate_b64: Some("ação".to_string()),
        clicks: None,
        wheel: Some(Wheel { ticks: 3, dy_sum: (12.5f64).to_bits() }),
    }
}

#[test]
fn prepare_ingest_works_out_the_record() {
    let r = prepare_ingest(&input());
    assert_eq!(r.identity_id, "idy-1");
    assert_eq!(r.device_id, "dev-9");
    assert_eq!(r.os, "");
    assert_eq!(r.browser, "X Mobile");
    assert_eq!(r.device_type, "mobile");
    assert_eq!(r.session.id, "sess:dev-9:1700000000");
    assert!(r.network.ip.is_none());
    assert_eq!(r.network.ua_raw.as_deref(), Some("   "));
    assert_eq!(r.event.id, "evt:idy-1:sess:dev-9:1700000000:1700000000");
    assert_eq!(r.event.event_type, "POST /ingest");
    assert_eq!(r.event.ts_ms, 1_700_000_000_005);
    assert_eq!(r.geo.key, "PT|||");
    assert_eq!(r.geo_key.as_deref(), Some("PT|||"));
    assert_eq!((r.viewport_w, r.viewport_h), (Some(1280), Some(720)));
    assert_eq!(r.wheel_ticks, Some(3));
    assert_eq!(r.wheel_dy_sum.map(f64::from_bits), Some(12.5));
    assert_eq!(r.bag.event_type, "POST /ingest");
    assert_eq!(r.bag.front_path, "");
    assert!(r.bag.ua_empty);
    assert_eq!(r.bag.mouse_points_len, 6);
}

#[test]
fn prepare_ingest_defaults() {
    let mut data = input();
    data.fingerprint = Json::Null;
    data.user_agent = String::new();
    data.points_deflate_b64 = None;
    data.front_path = Some("/a".to_string());
    let r = prepare_ingest(&data);
    assert_eq!(r.device_id, "unknown");
    assert_eq!(r.device_type, "unknown");
    assert_eq!(r.browser, "");
    assert!(r.bag.user_agent.is_none());
    assert!(r.bag.ua_empty);
    assert_eq!(r.bag.mouse_points_len, 0);
    assert_eq!(r.bag.front_path, "/a");
}

#[test]
fn geo_key_of_no_place_is_kept() {
    let mut data = input();
    data.header = Json::Null;
    let r = prepare_ingest(&data);
    assert_eq!(r.geo.key, "|||");
    assert_eq!(r.geo_key.as_deref(), Some("|||"));
}

#[test]
fn request_checks() {
    assert!(matches!(check_request(false, 10), Some(IngestOutcome::WrongMethod)));
    assert!(matches!(check_request(false, 0), Some(IngestOutcome::WrongMethod)));
    assert!(matches!(check_request(true, 0), Some(IngestOutcome::EmptyPayload)));
    assert!(check_request(true, 3).is_none());
}

#[test]
fn replies() {
    let r = reply_for(&IngestOutcome::WrongMethod);
    assert_eq!((r.status, r.body.as_str()), (405, "use POST"));
    let r = reply_for(&IngestOutcome::EmptyPayload);
    assert_eq!((r.status, r.body.as_str()), (422, "invalid payload"));
    let r = reply_for(&IngestOutcome::InvalidPayload);
    assert_eq!((r.status, r.body.as_str()), (422, "invalid payload"));
    let r = reply_for(&IngestOutcome::Stored);
    assert_eq!((r.status, r.body.as_str()), (200, "ok"));
    let r = reply_for(&IngestOutcome::Failed("Timeout".to_string()));
    assert_eq!((r.status, r.body.as_str()), (500, "ingest error: Timeout"));
}
