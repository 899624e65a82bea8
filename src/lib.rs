//! Event model and renderers for the diagnostics of a spelling scanner.
//!
//! Events describe what a scan found; the renderers turn one event into the
//! lines a front end writes, each tagged with the stream it belongs to.
pub mod message;
pub mod render;
pub mod status;
pub mod text;

