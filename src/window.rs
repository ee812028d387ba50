//! The rules of the overlay window's own interaction: which part of the
//! borderless frame the cursor is over, where a scroll command moves the
//! panel, and how a drag turns into camera motion.
use vstd::prelude::*;
use crate::executor::Rect;

verus! {

/// Where a position falls along one axis of the window.
#[derive(Clone, Copy, PartialEq, Eq, Structural, Debug)]
pub enum Region {
    Outside,
    Caption,
    /// The resize frame at the start of the axis (left or top).
    FrameA,
    Client,
    /// The resize frame at the end of the axis (right or bottom).
    FrameB,
}

/// The region of `pos` on an axis that runs from `beg` (inclusive) to `end`
/// (exclusive), with a resize frame of `frame` pixels at each end and a
/// caption band of `caption` pixels at each end.
pub open spec fn spec_region(pos: int, beg: int, end: int, frame: int, caption: int) -> Region {
    if pos < beg || pos >= end {
        Region::Outside
    } else if pos < beg + frame {
        Region::FrameA
    } else if pos >= end - frame {
        Region::FrameB
    } else if pos < beg + caption || pos >= end - caption {
        Region::Caption
    } else {
        Region::Client
    }
}

pub fn detect(pos: i32, beg: i32, end: i32, frame: i32, caption: i32) -> (r: Region)
    ensures
        r == spec_region(pos as int, beg as int, end as int, frame as int, caption as int),
{
    let (pos, beg, end, frame, caption) = (
        pos as i64,
        beg as i64,
        end as i64,
        frame as i64,
        caption as i64,
    );
    if pos < beg || pos >= end {
        Region::Outside
    } else if pos < beg + frame {
        Region::FrameA
    } else if pos >= end - frame {
        Region::FrameB
    } else if pos < beg + caption || pos >= end - caption {
        Region::Caption
    } else {
        Region::Client
    }
}

/// What the cursor is over, as the window manager is told.
#[derive(Clone, Copy, PartialEq, Eq, Structural, Debug)]
pub enum HitArea {
    Nowhere,
    Caption,
    TopLeft,
    Top,
    TopRight,
    Left,
    Client,
    Right,
    BottomLeft,
    Bottom,
    BottomRight,
}

/// The area under the cursor given its region on each axis: outside on
/// either axis is nowhere, a caption band on either axis is the caption, and
/// the frames combine into edges and corners.
pub open spec fn spec_hit_area(rx: Region, ry: Region) -> HitArea {
    match (rx, ry) {
        (Region::Outside, _) => HitArea::Nowhere,
        (_, Region::Outside) => HitArea::Nowhere,
        (Region::Caption, _) => HitArea::Caption,
        (_, Region::Caption) => HitArea::Caption,
        (Region::FrameA, Region::FrameA) => HitArea::TopLeft,
        (Region::Client, Region::FrameA) => HitArea::Top,
        (Region::FrameB, Region::FrameA) => HitArea::TopRight,
        (Region::FrameA, Region::Client) => HitArea::Left,
        (Region::Client, Region::Client) => HitArea::Client,
        (Region::FrameB, Region::Client) => HitArea::Right,
        (Region::FrameA, Region::FrameB) => HitArea::BottomLeft,
        (Region::Client, Region::FrameB) => HitArea::Bottom,
        (Region::FrameB, Region::FrameB) => HitArea::BottomRight,
    }
}

/// The area of the window `rect` under the cursor at (`x`, `y`), with a
/// resize frame of `frame` pixels and a caption band of `caption` pixels.
pub fn hit_test(x: i32, y: i32, rect: Rect, frame: i32, caption: i32) -> (r: HitArea)
    ensures
        r == spec_hit_area(
            spec_region(x as int, rect.left as int, rect.right as int, frame as int, caption as int),
            spec_region(y as int, rect.top as int, rect.bottom as int, frame as int, caption as int),
        ),
{
    let rx = detect(x, rect.left, rect.right, frame, caption);
    let ry = detect(y, rect.top, rect.bottom, frame, caption);
    match (rx, ry) {
        (Region::Outside, _) => HitArea::Nowhere,
        (_, Region::Outside) => HitArea::Nowhere,
        (Region::Caption, _) => HitArea::Caption,
        (_, Region::Caption) => HitArea::Caption,
        (Region::FrameA, Region::FrameA) => HitArea::TopLeft,
        (Region::Client, Region::FrameA) => HitArea::Top,
        (Region::FrameB, Region::FrameA) => HitArea::TopRight,
        (Region::FrameA, Region::Client) => HitArea::Left,
        (Region::Client, Region::Client) => HitArea::Client,
        (Region::FrameB, Region::Client) => HitArea::Right,
        (Region::FrameA, Region::FrameB) => HitArea::BottomLeft,
        (Region::Client, Region::FrameB) => HitArea::Bottom,
        (Region::FrameB, Region::FrameB) => HitArea::BottomRight,
    }
}

/// Pixels that one line step scrolls.
pub const SCROLL_LINE: i32 = 13;

/// A scroll-bar command.
#[derive(Clone, Copy, PartialEq, Eq, Structural, Debug)]
pub enum ScrollCommand {
    LineUp,
    LineDown,
    PageUp,
    PageDown,
    Top,
    Bottom,
    ThumbTrack,
    Other,
}

/// The scroll bar's state as the window manager reports it.
#[derive(Clone, Copy, PartialEq, Eq, Structural, Debug)]
pub struct ScrollInfo {
    pub pos: i32,
    pub page: u32,
    pub min: i32,
    pub max: i32,
    pub track_pos: i32,
}

/// `v` held to the range of `i32`.
pub open spec fn clamp_i32(v: int) -> i32 {
    if v < i32::MIN {
        i32::MIN
    } else if v > i32::MAX {
        i32::MAX
    } else {
        v as i32
    }
}

/// The position that `command` asks for, before the window manager keeps it
/// inside the scroll range.
pub open spec fn spec_scroll_position(command: ScrollCommand, info: ScrollInfo) -> i32 {
    match command {
        ScrollCommand::LineUp => clamp_i32(info.pos - SCROLL_LINE),
        ScrollCommand::LineDown => clamp_i32(info.pos + SCROLL_LINE),
        ScrollCommand::PageUp => clamp_i32(info.pos - info.page),
        ScrollCommand::PageDown => clamp_i32(info.pos + info.page),
        ScrollCommand::Top => info.min,
        ScrollCommand::Bottom => info.max,
        ScrollCommand::ThumbTrack => info.track_pos,
        ScrollCommand::Other => info.pos,
    }
}

fn clamp(v: i64) -> (r: i32)
    ensures
        r == clamp_i32(v as int),
{
    if v < i32::MIN as i64 {
        i32::MIN
    } else if v > i32::MAX as i64 {
        i32::MAX
    } else {
        v as i32
    }
}

pub fn scroll_position(command: ScrollCommand, info: ScrollInfo) -> (r: i32)
    ensures
        r == spec_scroll_position(command, info),
{
    let pos = info.pos as i64;
    match command {
        ScrollCommand::LineUp => clamp(pos - SCROLL_LINE as i64),
        ScrollCommand::LineDown => clamp(pos + SCROLL_LINE as i64),
        ScrollCommand::PageUp => clamp(pos - info.page as i64),
        ScrollCommand::PageDown => clamp(pos + info.page as i64),
        ScrollCommand::Top => info.min,
        ScrollCommand::Bottom => info.max,
        ScrollCommand::ThumbTrack => info.track_pos,
        ScrollCommand::Other => info.pos,
    }
}

/// A drag with the left button: each move while the button is held yields
/// the motion since the previous one.
pub struct Gesture {
    prev: Option<(i16, i16)>,
}

impl Gesture {
    /// The last position seen with the button held.
    pub closed spec fn previous(&self) -> Option<(i16, i16)> {
        self.prev
    }

    pub fn new() -> (r: Self)
        ensures
            r.previous() == None::<(i16, i16)>,
    {
        Gesture { prev: None }
    }

    /// A cursor move to (`x`, `y`): the motion since the previous move when
    /// the left button was held for both, else nothing; releasing the button
    /// ends the drag.
    pub fn on_move(&mut self, left_button: bool, x: i16, y: i16) -> (r: Option<(i32, i32)>)
        ensures
            r == (match old(self).previous() {
                Some((px, py)) => if left_button {
                    Some(((x - px) as i32, (y - py) as i32))
                } else {
                    None
                },
                None => None,
            }),
            final(self).previous() == (if left_button {
                Some((x, y))
            } else {
                None
            }),
    {
        if left_button {
            let delta = match self.prev {
                Some((px, py)) => Some((x as i32 - px as i32, y as i32 - py as i32)),
                None => None,
            };
            self.prev = Some((x, y));
            delta
        } else {
            self.prev = None;
            None
        }
    }
}

} // verus!
