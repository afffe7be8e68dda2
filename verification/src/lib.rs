//! Core of an offline path-tracing renderer: canvas presets, render
//! configuration, the transport loop's decision machine, and the binary
//! PPM byte layout of the finished image.

pub mod canvas;
pub mod image;
pub mod render;
pub mod transport;
