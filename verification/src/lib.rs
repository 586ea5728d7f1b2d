//! Verified core of a Pylontech battery to MQTT adapter: the serial protocol
//! framing, payload decoding, battery model derivations, runtime statistics,
//! configuration validation and Home Assistant discovery layout.
#![allow(unused_imports)]

pub mod backoff;
pub mod config;
pub mod discovery;
pub mod error;
pub mod hexcodec;
pub mod model;
pub mod payload;
pub mod protocol;
pub mod session;
pub mod stats;
pub mod text;
