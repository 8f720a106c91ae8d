//! Decoding and visualization pipeline for a dual-plane thermal camera frame.
//!
//! A captured frame stacks two sub-images of equal size: an upper
//! visible-light region in an interleaved luma/chroma (YUYV) encoding and a
//! lower raw-thermal region whose two-byte samples encode a temperature-linked
//! magnitude. The library splits such a frame, decodes the thermal samples
//! into exact fixed-point Celsius values, locates the hottest cell, renders
//! the visible region as an upscaled false-color heatmap, and overlays a
//! crosshair on the peak. Device capture and presentation are left to the
//! binary around the library; the capture loop's decisions are provided here
//! as a verified state-transition function.

#![verifier::loop_isolation(false)]

pub mod argparse;
pub mod compositor;
pub mod config;
pub mod error;
pub mod frame;
pub mod peak;
pub mod pipeline;
pub mod raster;
pub mod render;
pub mod session;
pub mod thermal;
