//! What ingesting an event decides before anything is stored: the parsed
//! pieces of the event, the features that scoring reads, and the reply that
//! the ingestion endpoint gives.
use vstd::prelude::*;
use vstd::utf8::encode_utf8;
use crate::framekit::event::{event_info_is, extract_event_info, ParsedEvent};
use crate::framekit::fingerprint::device::{component_text, device_info_is, device_kind, extract_device_info, fingerprint_id};
use crate::framekit::geo::{extract_geo_info, geo_info_is, ParsedGeo};
use crate::framekit::identity::extract_identity_info;
use crate::framekit::network::{extract_network_info, non_empty_text, ParsedNetwork};
use crate::framekit::session::{extract_session_info, session_info_is, ParsedSession};
use crate::structs::eventos::EventoInput;
use crate::text::{opt_text, seq_is_blank, str_is_blank, text_or_empty};

verus! {

/// The facts of an event that scoring reads.
pub struct BagFeatures {
    /// the event's type
    pub event_type: String,
    /// the front-end path, empty where there is none
    pub front_path: String,
    /// the raw user agent, where there is one
    pub user_agent: Option<String>,
    /// whether the user agent is missing or blank
    pub ua_empty: bool,
    /// the byte length of the encoded mouse points, zero where there are none
    pub mouse_points_len: usize,
}

/// Everything that storing an event needs, worked out from the event.
pub struct IngestRecord {
    pub identity_id: String,
    pub device_id: String,
    pub os: String,
    pub browser: String,
    pub device_type: String,
    pub session: ParsedSession,
    pub network: ParsedNetwork,
    pub event: ParsedEvent,
    pub geo: ParsedGeo,
    /// the place key, left out where it is empty
    pub geo_key: Option<String>,
    pub viewport_w: Option<i32>,
    pub viewport_h: Option<i32>,
    pub wheel_ticks: Option<i32>,
    /// the summed wheel delta, a double bit pattern
    pub wheel_dy_sum: Option<u64>,
    pub bag: BagFeatures,
}

/// What working out an event for storage gives.
pub open spec fn record_is(r: IngestRecord, data: EventoInput) -> bool {
    let fp = data.fingerprint;
    let ua_component = component_text(fp, "userAgent"@);
    &&& r.device_id@ == fingerprint_id(fp)
    &&& r.os@ == text_or_empty(component_text(fp, "platform"@))
    &&& r.browser@ == text_or_empty(ua_component)
    &&& r.device_type@ == match ua_component {
        Some(ua) => device_kind(ua),
        None => "unknown"@,
    }
    &&& r.identity_id@ == data.shaayud_id@
    &&& session_info_is(r.session, data.header, opt_text(data.session_id), r.device_id@, data.timestamp)
    &&& opt_text(r.network.ip) == non_empty_text(data.ip@)
    &&& opt_text(r.network.ua_raw) == non_empty_text(data.user_agent@)
    &&& event_info_is(
        r.event,
        opt_text(data.event_id),
        opt_text(data.event_type),
        data.method@,
        data.path@,
        r.identity_id@,
        r.session.id@,
        data.timestamp,
    )
    &&& geo_info_is(r.geo, data.geo, data.header)
    &&& opt_text(r.geo_key) == non_empty_text(r.geo.key@)
    &&& r.viewport_w == match data.viewport {
        Some(v) => Some(v.w),
        None => None,
    }
    &&& r.viewport_h == match data.viewport {
        Some(v) => Some(v.h),
        None => None,
    }
    &&& r.wheel_ticks == match data.wheel {
        Some(w) => Some(w.ticks),
        None => None,
    }
    &&& r.wheel_dy_sum == match data.wheel {
        Some(w) => Some(w.dy_sum),
        None => None,
    }
    &&& r.bag.event_type@ == r.event.event_type@
    &&& r.bag.front_path@ == text_or_empty(opt_text(data.front_path))
    &&& opt_text(r.bag.user_agent) == opt_text(r.network.ua_raw)
    &&& r.bag.ua_empty == match opt_text(r.network.ua_raw) {
        Some(ua) => seq_is_blank(ua),
        None => true,
    }
    &&& r.bag.mouse_points_len == match data.points_deflate_b64 {
        Some(p) => encode_utf8(p@).len() as usize,
        None => 0,
    }
}

fn string_or_empty(o: Option<String>) -> (r: String)
    ensures
        r@ == text_or_empty(opt_text(o)),
{
    match o {
        Some(s) => s,
        None => String::new(),
    }
}

fn non_empty_or_none(s: String) -> (r: Option<String>)
    ensures
        opt_text(r) == non_empty_text(s@),
{
    if s.as_str().is_empty() {
        None
    } else {
        Some(s)
    }
}

/// Works out, from an incoming event, the device, identity, session,
/// network, event and place, and the features that scoring reads.
pub fn prepare_ingest(data: &EventoInput) -> (r: IngestRecord)
    ensures
        record_is(r, *data),
{
    let dev = extract_device_info(&data.fingerprint);
    let device_id = dev.id;
    let os = string_or_empty(dev.os);
    let browser = string_or_empty(dev.browser);
    let device_type = match dev.device_type {
        Some(t) => t,
        None => "unknown".to_owned(),
    };
    let idy = extract_identity_info(data.shaayud_id.as_str());
    let identity_id = idy.id;
    let sess = extract_session_info(&data.header, &data.session_id, device_id.as_str(), data.timestamp);
    let net = extract_network_info(data.ip.as_str(), data.user_agent.as_str());
    let evt = extract_event_info(
        &data.event_id,
        &data.event_type,
        data.method.as_str(),
        data.path.as_str(),
        identity_id.as_str(),
        sess.id.as_str(),
        data.timestamp,
    );
    let geo = extract_geo_info(&data.geo, &data.header);
    let geo_key = non_empty_or_none(geo.key.clone());
    let (viewport_w, viewport_h) = match &data.viewport {
        Some(v) => (Some(v.w), Some(v.h)),
        None => (None, None),
    };
    let (wheel_ticks, wheel_dy_sum) = match &data.wheel {
        Some(w) => (Some(w.ticks), Some(w.dy_sum)),
        None => (None, None),
    };
    let front_path = match &data.front_path {
        Some(p) => p.clone(),
        None => String::new(),
    };
    let (user_agent, ua_empty) = match &net.ua_raw {
        Some(s) => (Some(s.clone()), str_is_blank(s.as_str())),
        None => (None, true),
    };
    let mouse_points_len = match &data.points_deflate_b64 {
        Some(p) => p.as_str().len(),
        None => 0,
    };
    let bag = BagFeatures {
        event_type: evt.event_type.clone(),
        front_path,
        user_agent,
        ua_empty,
        mouse_points_len,
    };
    IngestRecord {
        identity_id,
        device_id,
        os,
        browser,
        device_type,
        session: sess,
        network: net,
        event: evt,
        geo,
        geo_key,
        viewport_w,
        viewport_h,
        wheel_ticks,
        wheel_dy_sum,
        bag,
    }
}

/// An HTTP reply: status code and text body.
pub struct HttpReply {
    pub status: u16,
    pub body: String,
}

/// How a request to the ingestion endpoint ended.
pub enum IngestOutcome {
    /// the request was not a POST
    WrongMethod,
    /// the request had no body
    EmptyPayload,
    /// the body was not a valid event
    InvalidPayload,
    /// the event was stored
    Stored,
    /// storing failed; the failure as text
    Failed(String),
}

/// Which outcome a request has before its body is parsed, if any: a
/// request that is not a POST is refused, then one with an empty body.
pub fn check_request(is_post: bool, body_len: usize) -> (r: Option<IngestOutcome>)
    ensures
        !is_post ==> r matches Some(IngestOutcome::WrongMethod),
        is_post && body_len == 0 ==> r matches Some(IngestOutcome::EmptyPayload),
        is_post && body_len > 0 ==> r is None,
{
    if !is_post {
        Some(IngestOutcome::WrongMethod)
    } else if body_len == 0 {
        Some(IngestOutcome::EmptyPayload)
    } else {
        None
    }
}

/// The reply for an outcome: 405 `use POST`; 422 `invalid payload` for an
/// empty or invalid body; 200 `ok`; 500 `ingest error: <failure>`.
pub fn reply_for(outcome: &IngestOutcome) -> (r: HttpReply)
    ensures
        match *outcome {
            IngestOutcome::WrongMethod => r.status == 405 && r.body@ == "use POST"@,
            IngestOutcome::EmptyPayload => r.status == 422 && r.body@ == "invalid payload"@,
            IngestOutcome::InvalidPayload => r.status == 422 && r.body@ == "invalid payload"@,
            IngestOutcome::Stored => r.status == 200 && r.body@ == "ok"@,
            IngestOutcome::Failed(e) => r.status == 500 && r.body@ == "ingest error: "@ + e@,
        },
{
    match outcome {
        IngestOutcome::WrongMethod => HttpReply { status: 405, body: "use POST".to_owned() },
        IngestOutcome::EmptyPayload => HttpReply { status: 422, body: "invalid payload".to_owned() },
        IngestOutcome::InvalidPayload => HttpReply { status: 422, body: "invalid payload".to_owned() },
        IngestOutcome::Stored => HttpReply { status: 200, body: "ok".to_owned() },
        IngestOutcome::Failed(e) => {
            let mut body = "ingest error: ".to_owned();
            body.append(e.as_str());
            HttpReply { status: 500, body }
        },
    }
}

} // verus!
