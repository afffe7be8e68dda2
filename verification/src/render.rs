//! Configuration a render runs under: the pixel grid, the number of
//! stochastic samples per pixel, and the bounce budget of each path.

use vstd::prelude::*;

verus! {

use crate::canvas::{CanvasConfig, Resolution, spec_height, spec_width};

/// Configuration for the rendered image.
#[derive(Copy, Clone, Debug, PartialEq, Eq, Structural)]
pub struct RenderConfig {
    /// Rendered image height in pixels.
    pub height: usize,
    /// Rendered image width in pixels.
    pub width: usize,
    /// Number of random samples for each pixel.
    pub samples_per_pixel: usize,
    /// Maximum number of times a ray can bounce in the scene.
    pub max_depth: i32,
}

impl RenderConfig {
    pub fn new(resolution: Resolution, samples_per_pixel: usize, max_depth: i32) -> (c: Self)
        ensures
            c.height == spec_height(resolution),
            c.width == spec_width(resolution),
            c.samples_per_pixel == samples_per_pixel,
            c.max_depth == max_depth,
    {
        let canvas_config = CanvasConfig { resolution };
        RenderConfig {
            height: canvas_config.height(),
            width: canvas_config.width(),
            samples_per_pixel,
            max_depth,
        }
    }
}

} // verus!
