//! Normalization and alert aggregation for a Jeedom home-automation
//! status bar.
//!
//! The library decodes the controller's JSON-RPC responses — whose field
//! shapes are inconsistent (numbers arrive as integers or strings, record
//! fields arrive as objects or empty arrays) — into typed models, aggregates
//! them into per-category alert counters, and renders the counters as a
//! status-bar line for several bar formats and glyph themes.

pub mod api;
pub mod decode;
pub mod encode;
pub mod flexible;
pub mod io_models;
pub mod json;
pub mod numbers;
pub mod output;

pub use api::ConnectivityErrors;
pub use api::JeedomClient;
pub use output::BarStyle;
pub use output::BarType;

pub use json::DecodeError;
pub use json::JsonValue;
