//! Scaling of layout sizes to a display's pixel density.
use vstd::prelude::*;

verus! {

/// Dots per inch at which layout sizes are given.
pub const BASE_DPI: i32 = 96;

/// `x / 96`, rounded toward zero as integer division in Rust is.
pub open spec fn div96(x: int) -> int {
    if x >= 0 {
        x / 96
    } else {
        -((-x) / 96)
    }
}

/// A display's pixel density in dots per inch.
#[derive(Clone, Copy, Debug)]
pub struct Dpi(pub i32);

impl Dpi {
    /// The size in pixels at this density of `pix` pixels at 96 dpi.
    pub fn absolute(&self, pix: i32) -> (r: i32)
        requires
            i32::MIN <= pix * self.0 <= i32::MAX,
        ensures
            r as int == div96(pix * self.0),
    {
        pix * self.0 / BASE_DPI
    }
}

} // verus!
