pub mod device;

pub use device::{extract_device_info, ParsedDevice};
