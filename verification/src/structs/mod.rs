pub mod device;
pub mod eventos;
