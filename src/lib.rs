//! Ingestion core of a location-telemetry backend: normalisation of device
//! reports, the decisions around storing them idempotently, and resolution
//! of the WiFi access points that a report mentions.

pub mod trigger;
pub mod bssid;
pub mod time;
pub mod models;
pub mod normalize;
pub mod outcome;
pub mod ingest;
pub mod store_model;
pub mod read_path;
pub mod dispatch;
pub mod auth;
pub mod web;
pub mod settings;
