pub mod event;
pub mod fingerprint;
pub mod geo;
pub mod identity;
pub mod network;
pub mod score;
pub mod session;
