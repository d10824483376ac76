//! Event ingestion core: parsing of device, identity, session, network,
//! event and geo information out of an incoming event, and rule-based
//! risk scoring over a JSON document.

pub mod float;
pub mod framekit;
pub mod ingest;
pub mod json;
pub mod structs;
pub mod text;
pub mod time;

pub use framekit::fingerprint::{extract_device_info, ParsedDevice};
pub use structs::eventos::EventoInput;
