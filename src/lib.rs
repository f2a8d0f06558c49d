//! Typed client logic for the Apex Legends statistics API: status mapping,
//! the single rate-limited retry, and decoding of JSON bodies into records.
pub mod json;
pub mod data_types;
pub mod decode;
pub mod rate;
pub mod client;
