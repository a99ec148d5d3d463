//! Data feed for a desktop status bar: decodes the JSON payloads of a few
//! small HTTP sensors (a garage-door monitor, a weather-observation service)
//! and renders short text segments for local sensors (battery, CPU
//! temperature, audio volume).

pub mod bar;
pub mod config;
pub mod garage;
pub mod json;
pub mod segment;
pub mod text;
pub mod weather;
