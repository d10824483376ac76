//! The incoming event and the pieces of it.  Doubles (coordinates, wheel
//! deltas) are carried by their IEEE-754 bit patterns.
use vstd::prelude::*;
use crate::json::Json;
use crate::time::UtcTimestamp;

verus! {

/// Size of the browser viewport.
pub struct Viewport {
    pub w: i32,
    pub h: i32,
}

/// A mouse click: position, time and button.
pub struct Click {
    pub x: i32,
    pub y: i32,
    pub t: i32,
    pub b: i32,
}

/// Mouse wheel activity: tick count and the summed vertical delta.
pub struct Wheel {
    pub ticks: i32,
    pub dy_sum: u64,
}

/// Where the client is, as the client reports it.
pub struct GeoPayload {
    pub country: Option<String>,
    pub region: Option<String>,
    pub city: Option<String>,
    pub latitude: Option<u64>,
    pub longitude: Option<u64>,
    pub timezone: Option<String>,
}

/// An event sent in for ingestion.
pub struct EventoInput {
    pub shaayud_id: String,
    pub fingerprint: Json,
    pub ip: String,
    pub user_agent: String,
    pub header: Json,
    pub timestamp: UtcTimestamp,
    pub method: String,
    pub path: String,
    pub session_id: Option<String>,
    pub event_id: Option<String>,
    pub event_type: Option<String>,
    pub geo: Option<GeoPayload>,
    pub front_url: Option<String>,
    pub front_path: Option<String>,
    pub front_referrer: Option<String>,
    pub backend_path: Option<String>,
    pub backend_method: Option<String>,
    pub backend_host: Option<String>,
    pub ts_start: Option<i64>,
    pub ts_end: Option<i64>,
    pub viewport: Option<Viewport>,
    pub points_deflate_b64: Option<String>,
    pub clicks: Option<Vec<Click>>,
    pub wheel: Option<Wheel>,
}

} // verus!
