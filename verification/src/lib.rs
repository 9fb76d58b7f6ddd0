//! Core logic of a continuous broadcaster that plays a random walk over a set
//! of local media files as one uninterrupted program.
//!
//! The modules here hold the decision logic of the broadcaster: classifying
//! probed media, sampling files without repetition, the pre-rolling switcher
//! state machine, normalization of arbitrary inputs to one fixed output
//! profile, and the small text formats the program emits. The surrounding
//! process (GStreamer pipelines, HTTP control, the relay sidecar) lives
//! outside this crate and calls in with plain values.

pub mod assembly;
pub mod config;
pub mod control;
pub mod encoder;
pub mod error;
pub mod media;
pub mod profile;
pub mod probe;
pub mod producer;
pub mod switcher;
pub mod text;
pub mod timeline;
