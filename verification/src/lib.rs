//! Orchestration core of a CD ripping and playback tool.
//!
//! The library models the media engine's graphs, probes, and run protocol as
//! verified data and state machines; the thin executable shell drives the
//! actual engine from these decisions.

pub mod encoder;
pub mod engine;
pub mod filename;
pub mod format;
pub mod metadata;
pub mod musicbrainz;
pub mod player;
pub mod service;
pub mod text;
pub mod ui;
pub mod validator;
