//! The per-frame decisions of the render loop: which part of the window is
//! analysed, whether a frame is rendered at all, and which passes run in
//! which order.
use vstd::prelude::*;
use crate::command_list::{ceil_div, div_round_up};
use crate::state::{ColorCloudMode, HistogramMode, ViewMode};

verus! {

/// The sleep before the next attempt when no frame came, in milliseconds.
pub const FRAME_SKIP_SLEEP_MS: u32 = 1;

/// Threads along each axis of one histogram thread group.
pub const HISTOGRAM_THREAD: u32 = 8;

/// A rectangle in screen pixels: `left` and `top` inclusive, `right` and
/// `bottom` exclusive.
#[derive(Clone, Copy, PartialEq, Eq, Structural, Debug, Default)]
pub struct Rect {
    pub left: i32,
    pub top: i32,
    pub right: i32,
    pub bottom: i32,
}

/// The part of the window that a frame analyses, with its size.
#[derive(Clone, Copy, PartialEq, Eq, Structural, Debug)]
pub struct FrameRect {
    pub rect: Rect,
    pub width: u32,
    pub height: u32,
}

pub open spec fn max_i32(a: i32, b: i32) -> i32 {
    if a >= b { a } else { b }
}

pub open spec fn min_i32(a: i32, b: i32) -> i32 {
    if a <= b { a } else { b }
}

/// The window's client rectangle cut to the captured screen of
/// `capture_width` × `capture_height` pixels.
pub open spec fn spec_clamped(client: Rect, capture_width: u32, capture_height: u32) -> Rect {
    Rect {
        left: max_i32(client.left, 0),
        top: max_i32(client.top, 0),
        right: min_i32(client.right, capture_width as i32),
        bottom: min_i32(client.bottom, capture_height as i32),
    }
}

/// The rectangle a frame analyses: the client rectangle cut to the screen,
/// or nothing where that leaves no pixel.
pub open spec fn spec_frame_rect(client: Rect, capture_width: u32, capture_height: u32) -> Option<
    FrameRect,
> {
    let r = spec_clamped(client, capture_width, capture_height);
    if r.right > r.left && r.bottom > r.top {
        Some(
            FrameRect {
                rect: r,
                width: (r.right - r.left) as u32,
                height: (r.bottom - r.top) as u32,
            },
        )
    } else {
        None
    }
}

/// The rectangle that this frame analyses, or `None` where the window shows
/// no part of the captured screen (the frame is then skipped).
pub fn frame_rect(client: Rect, capture_width: u32, capture_height: u32) -> (r: Option<FrameRect>)
    requires
        capture_width <= i32::MAX,
        capture_height <= i32::MAX,
    ensures
        r == spec_frame_rect(client, capture_width, capture_height),
{
    let left = if client.left >= 0 { client.left } else { 0 };
    let top = if client.top >= 0 { client.top } else { 0 };
    let cw = capture_width as i32;
    let ch = capture_height as i32;
    let right = if client.right <= cw { client.right } else { cw };
    let bottom = if client.bottom <= ch { client.bottom } else { ch };
    if right > left && bottom > top {
        let rect = Rect { left, top, right, bottom };
        Some(
            FrameRect {
                rect,
                width: (right as i64 - left as i64) as u32,
                height: (bottom as i64 - top as i64) as u32,
            },
        )
    } else {
        None
    }
}

/// What the render loop does with one iteration.
#[derive(Clone, Copy, PartialEq, Eq, Structural, Debug)]
pub enum FrameAction {
    /// The shared state is no longer active: leave the loop.
    Stop,
    /// The window shows no part of the screen: try again next iteration.
    Skip,
    /// Capture a frame and render over this rectangle.
    Capture(FrameRect),
}

/// The start of one iteration of the render loop, from a snapshot of the
/// shared state's `active` flag and the window's client rectangle.
pub fn plan_frame(active: bool, client: Rect, capture_width: u32, capture_height: u32) -> (r:
    FrameAction)
    requires
        capture_width <= i32::MAX,
        capture_height <= i32::MAX,
    ensures
        r == (if !active {
            FrameAction::Stop
        } else {
            match spec_frame_rect(client, capture_width, capture_height) {
                Some(f) => FrameAction::Capture(f),
                None => FrameAction::Skip,
            }
        }),
{
    if !active {
        return FrameAction::Stop;
    }
    match frame_rect(client, capture_width, capture_height) {
        Some(f) => FrameAction::Capture(f),
        None => FrameAction::Skip,
    }
}

/// How the color cloud is drawn, chosen once at start-up.
#[derive(Clone, Copy, PartialEq, Eq, Structural, Debug)]
pub enum ColorCloudStrategy {
    /// Compaction writes the instance list and the draw arguments; the draw
    /// reads them from GPU memory.
    Indirect,
    /// An amplification and mesh stage cull and expand the counter grid
    /// inside the pipeline.
    PrimitiveExpansion,
}

impl ColorCloudStrategy {
    /// Primitive expansion where the device could build its pipeline, else
    /// the indirect path.
    pub fn select(mesh_pipeline_built: bool) -> (r: Self)
        ensures
            r == (if mesh_pipeline_built {
                ColorCloudStrategy::PrimitiveExpansion
            } else {
                ColorCloudStrategy::Indirect
            }),
    {
        if mesh_pipeline_built {
            ColorCloudStrategy::PrimitiveExpansion
        } else {
            ColorCloudStrategy::Indirect
        }
    }

    /// The color-cloud work of one frame, in the order in which it is
    /// recorded.
    pub open spec fn spec_steps(self) -> Seq<CloudStep> {
        match self {
            ColorCloudStrategy::Indirect => seq![
                CloudStep::ClearCounts,
                CloudStep::Count,
                CloudStep::ClearArguments,
                CloudStep::Compact,
                CloudStep::DrawIndirect,
            ],
            ColorCloudStrategy::PrimitiveExpansion => seq![
                CloudStep::ClearCounts,
                CloudStep::Count,
                CloudStep::DrawExpanded,
            ],
        }
    }

    pub fn steps(&self) -> (r: Vec<CloudStep>)
        ensures
            r@ == self.spec_steps(),
    {
        match *self {
            ColorCloudStrategy::Indirect => vec![
                CloudStep::ClearCounts,
                CloudStep::Count,
                CloudStep::ClearArguments,
                CloudStep::Compact,
                CloudStep::DrawIndirect,
            ],
            ColorCloudStrategy::PrimitiveExpansion => vec![
                CloudStep::ClearCounts,
                CloudStep::Count,
                CloudStep::DrawExpanded,
            ],
        }
    }
}

/// One unit of color-cloud work, each behind a barrier between the
/// shader-read and the shader-write state of the buffers it touches.
#[derive(Clone, Copy, PartialEq, Eq, Structural, Debug)]
pub enum CloudStep {
    /// Clear the counter grid to zero.
    ClearCounts,
    /// Count the capture rectangle's pixels into the grid.
    Count,
    /// Clear the draw-record counter.
    ClearArguments,
    /// Compact the occupied buckets into the instance list.
    Compact,
    /// Draw from the GPU-written arguments.
    DrawIndirect,
    /// Draw by culling and expanding the grid in the pipeline.
    DrawExpanded,
}

/// The passes of one frame, in the fixed order view, color cloud, histogram;
/// each runs only where its mode is enabled.
#[derive(Clone, Copy, PartialEq, Eq, Structural, Debug)]
pub struct FramePasses {
    pub view: bool,
    pub color_cloud: bool,
    pub histogram: bool,
}

pub fn frame_passes(
    view_mode: &ViewMode,
    color_cloud_mode: &ColorCloudMode,
    histogram_mode: &HistogramMode,
) -> (r: FramePasses)
    ensures
        r == (FramePasses {
            view: view_mode.spec_is_enable(),
            color_cloud: color_cloud_mode.spec_is_enable(),
            histogram: histogram_mode.spec_is_enable(),
        }),
{
    FramePasses {
        view: view_mode.is_enable(),
        color_cloud: color_cloud_mode.is_enable(),
        histogram: histogram_mode.is_enable(),
    }
}

/// The per-frame constants that both color-cloud draws read, but for the
/// camera's projection and the aspect scale.
#[derive(Clone, Copy, PartialEq, Eq, Structural, Debug)]
pub struct CloudConstants {
    /// The number of pixels in the capture rectangle.
    pub num_pixels: u32,
    /// The index of the color space in use.
    pub color_space: u32,
}

/// The color-cloud constants of a frame over `frame`, where the cloud is on.
pub fn cloud_constants(frame: &FrameRect, mode: &ColorCloudMode) -> (r: Option<CloudConstants>)
    requires
        frame.width * frame.height <= u32::MAX,
    ensures
        r == (match *mode {
            ColorCloudMode::Disable => None,
            ColorCloudMode::Enable(cs) => Some(
                CloudConstants {
                    num_pixels: (frame.width * frame.height) as u32,
                    color_space: cs.spec_index(),
                },
            ),
        }),
{
    match mode.color_space() {
        Some(cs) => Some(
            CloudConstants { num_pixels: frame.width * frame.height, color_space: cs.index() },
        ),
        None => None,
    }
}

/// Thread groups that the histogram pass dispatches over a `width` ×
/// `height` capture rectangle, in 8×8 groups.
pub fn histogram_dispatch(width: u32, height: u32) -> (r: (u32, u32, u32))
    ensures
        r.0 as int == ceil_div(width as int, HISTOGRAM_THREAD as int),
        r.1 as int == ceil_div(height as int, HISTOGRAM_THREAD as int),
        r.2 == 1,
{
    (div_round_up(width, HISTOGRAM_THREAD), div_round_up(height, HISTOGRAM_THREAD), 1)
}

} // verus!
