//! Core of a GPU-backed image viewer with real-time hue/saturation/value
//! adjustment: a queue of decoded bitmaps, the per-draw decisions of the
//! renderer, and the row-alignment arithmetic of the export/readback path.
//!
//! The library is pure decision logic: it computes what to upload, bind,
//! draw and read back, while the GPU device, the surface and all I/O are
//! driven by an unverified shell that executes the plans produced here.

pub mod adjust;
pub mod bitmap;
pub mod engine;
pub mod formats;
pub mod laws;
pub mod layout;
pub mod png;
pub mod queue;
