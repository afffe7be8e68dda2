//! Resolution presets for the rendered image and the canvas built on them.
//! Every preset is a 16:9 picture, named by its height in pixels.

use vstd::prelude::*;

verus! {

/// The vertical resolutions the renderer offers.
#[derive(Copy, Clone, Debug, PartialEq, Eq, Structural)]
pub enum Resolution {
    _240p,
    _360p,
    _480p,
    _720p,
    _1080p,
    _2K,
    _4K,
    _5K,
}

/// Height in pixels of a resolution preset.
pub open spec fn spec_height(r: Resolution) -> nat {
    match r {
        Resolution::_240p => 240,
        Resolution::_360p => 360,
        Resolution::_480p => 480,
        Resolution::_720p => 720,
        Resolution::_1080p => 1080,
        Resolution::_2K => 1440,
        Resolution::_4K => 2160,
        Resolution::_5K => 2880,
    }
}

/// Width in pixels of a resolution preset: the height stretched to the
/// fixed 16:9 aspect ratio, truncated to whole pixels.
pub open spec fn spec_width(r: Resolution) -> nat {
    spec_height(r) * 16 / 9
}

impl Resolution {
    /// The preset's height in pixels.
    pub fn height(&self) -> (h: usize)
        ensures
            h == spec_height(*self),
    {
        match self {
            Resolution::_240p => 240,
            Resolution::_360p => 360,
            Resolution::_480p => 480,
            Resolution::_720p => 720,
            Resolution::_1080p => 1080,
            Resolution::_2K => 1440,
            Resolution::_4K => 2160,
            Resolution::_5K => 2880,
        }
    }
}

/// The pixel grid the image is rendered on, fixed by a resolution preset.
#[derive(Copy, Clone, Debug, PartialEq, Eq, Structural)]
pub struct CanvasConfig {
    pub resolution: Resolution,
}

impl CanvasConfig {
    pub fn new(resolution: Resolution) -> (c: Self)
        ensures
            c.resolution == resolution,
    {
        CanvasConfig { resolution }
    }

    /// Height of the canvas in pixels.
    pub fn height(self) -> (h: usize)
        ensures
            h == spec_height(self.resolution),
    {
        self.resolution.height()
    }

    /// Width of the canvas in pixels, from the 16:9 aspect ratio: the
    /// truncation loses less than one pixel of width.
    pub fn width(self) -> (w: usize)
        ensures
            w == spec_width(self.resolution),
            9 * w <= 16 * spec_height(self.resolution) < 9 * (w + 1),
    {
        let h: usize = self.height();
        assert(spec_height(self.resolution) <= 2880);
        (h * 16) / 9
    }
}

} // verus!
