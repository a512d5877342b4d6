//! Serving core of a text summarization service.
//!
//! The library decides everything that happens around the inference model:
//! which decoding parameters are accepted, when the expensive model is loaded
//! and who waits for it, how raw model output becomes a response, and which
//! error a caller sees. The model itself and the HTTP transport live outside.

pub mod convert;
pub mod error;
pub mod params;
pub mod coordinator;
pub mod manager;
pub mod config;
