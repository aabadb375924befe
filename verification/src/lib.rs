//! Embedding a still image into a video container as its cover art.
//!
//! The library holds the orchestration logic of that single operation:
//! decomposing the video path, materializing the image (from a file path or
//! from inline base64 text), computing the output target for the chosen save
//! mode, building the argument list for the external mux tool, and the
//! decision engine that sequences the filesystem and process steps.  The
//! filesystem and process work itself is performed by the caller, which feeds
//! each step's outcome back into the engine.

pub mod engine;
pub mod errors;
pub mod image;
pub mod paths;
pub mod target;
pub mod text;
