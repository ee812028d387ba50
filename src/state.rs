//! The render-state selectors that the UI writes and the render loop reads
//! once per frame as a plain value.
use vstd::prelude::*;

verus! {

/// The color space in which the color cloud places each pixel.
#[derive(Clone, Copy, PartialEq, Eq, Structural, Hash, Debug, Default)]
pub enum ColorSpace {
    #[default]
    Rgb,
    Hsv,
    Hsl,
    Yuv,
}

impl ColorSpace {
    /// The index under which the shaders know this color space.
    pub open spec fn spec_index(self) -> u32 {
        match self {
            ColorSpace::Rgb => 0,
            ColorSpace::Hsv => 1,
            ColorSpace::Hsl => 2,
            ColorSpace::Yuv => 3,
        }
    }

    pub fn index(&self) -> (r: u32)
        ensures
            r == self.spec_index(),
            r < 4,
    {
        match *self {
            ColorSpace::Rgb => 0,
            ColorSpace::Hsv => 1,
            ColorSpace::Hsl => 2,
            ColorSpace::Yuv => 3,
        }
    }
}

/// Which of the three color channels a channel view shows.
#[derive(Clone, Copy, PartialEq, Debug, Default)]
pub struct ChannelMask(pub [bool; 3]);

impl ChannelMask {
    pub fn new(ch1: bool, ch2: bool, ch3: bool) -> (r: Self)
        ensures
            r.0@ == seq![ch1, ch2, ch3],
    {
        ChannelMask([ch1, ch2, ch3])
    }

    /// Whether channel `i` is shown; a channel past the third never is.
    pub fn at(&self, i: usize) -> (r: bool)
        ensures
            r == (i < 3 && self.0@[i as int]),
    {
        if i < 3 {
            self.0[i]
        } else {
            false
        }
    }
}

/// How the captured content itself is filtered.
#[derive(Clone, Copy, PartialEq, Debug, Default)]
pub enum ViewMode {
    #[default]
    Original,
    Rgb(ChannelMask),
    Hue,
    Saturation,
    Brightness,
}

impl ViewMode {
    pub open spec fn spec_is_enable(self) -> bool {
        !(self is Original)
    }

    /// The filter index handed to the view shader.
    pub open spec fn spec_mode_index(self) -> u32 {
        match self {
            ViewMode::Original => 0,
            ViewMode::Rgb(_) => 1,
            ViewMode::Hue => 2,
            ViewMode::Saturation => 3,
            ViewMode::Brightness => 4,
        }
    }

    pub fn is_enable(&self) -> (r: bool)
        ensures
            r == self.spec_is_enable(),
    {
        match *self {
            ViewMode::Original => false,
            _ => true,
        }
    }

    pub fn mode_index(&self) -> (r: u32)
        ensures
            r == self.spec_mode_index(),
    {
        match *self {
            ViewMode::Original => 0,
            ViewMode::Rgb(_) => 1,
            ViewMode::Hue => 2,
            ViewMode::Saturation => 3,
            ViewMode::Brightness => 4,
        }
    }
}

/// What the histogram counts, if it is shown at all.
#[derive(Clone, Copy, PartialEq, Eq, Structural, Debug, Default)]
pub enum HistogramMode {
    #[default]
    Disable,
    Rgb,
    Hue,
    Saturation,
    Brightness,
}

impl HistogramMode {
    pub open spec fn spec_is_enable(self) -> bool {
        !(self is Disable)
    }

    /// The mode index handed to the histogram shaders.
    pub open spec fn spec_mode_index(self) -> u32 {
        match self {
            HistogramMode::Disable => 0,
            HistogramMode::Rgb => 1,
            HistogramMode::Hue => 2,
            HistogramMode::Saturation => 3,
            HistogramMode::Brightness => 4,
        }
    }

    pub fn is_enable(&self) -> (r: bool)
        ensures
            r == self.spec_is_enable(),
    {
        match *self {
            HistogramMode::Disable => false,
            _ => true,
        }
    }

    pub fn mode_index(&self) -> (r: u32)
        ensures
            r == self.spec_mode_index(),
    {
        match *self {
            HistogramMode::Disable => 0,
            HistogramMode::Rgb => 1,
            HistogramMode::Hue => 2,
            HistogramMode::Saturation => 3,
            HistogramMode::Brightness => 4,
        }
    }
}

/// Whether the color cloud is shown, and in which color space.
#[derive(Clone, Copy, PartialEq, Eq, Structural, Debug, Default)]
pub enum ColorCloudMode {
    #[default]
    Disable,
    Enable(ColorSpace),
}

impl ColorCloudMode {
    pub open spec fn spec_is_enable(self) -> bool {
        self is Enable
    }

    pub fn is_enable(&self) -> (r: bool)
        ensures
            r == self.spec_is_enable(),
    {
        match *self {
            ColorCloudMode::Disable => false,
            _ => true,
        }
    }

    pub fn color_space(&self) -> (r: Option<ColorSpace>)
        ensures
            r == (match *self {
                ColorCloudMode::Disable => None,
                ColorCloudMode::Enable(cs) => Some(cs),
            }),
    {
        match *self {
            ColorCloudMode::Disable => None,
            ColorCloudMode::Enable(color_space) => Some(color_space),
        }
    }
}

} // verus!
