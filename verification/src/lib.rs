//! A typed client library for the Open-Meteo weather APIs.
//!
//! The crate covers two read-only endpoints: geocoding (location name to
//! coordinates) and weather forecast (coordinates to time-series weather
//! variables). Request values are encoded into query parameters, and JSON
//! response bodies are parsed and decoded into structured records.

pub mod args;
pub mod common;
pub mod error;
pub mod forecast;
pub mod geocoding;
pub mod json;
pub mod query;
pub mod shape;
pub mod text;
