use color_overlay::executor::{
    cloud_constants, frame_passes, frame_rect, histogram_dispatch, plan_frame, CloudConstants,
    CloudStep, ColorCloudStrategy, FrameAction, FramePasses, FrameRect, Rect,
};
use color_overlay::state::{ChannelMask, ColorCloudMode, ColorSpace, HistogramMode, ViewMode};

#[test]
fn frame_rect_clamps_to_the_screen() {
    let client = Rect { left: -50, top: 20, right: 3000, bottom: 500 };
    let f = frame_rect(client, 1920, 1080).unwrap();
    assert_eq!(f.rect, Rect { left: 0, top: 20, right: 1920, bottom: 500 });
    assert_eq!((f.width, f.height), (1920, 480));
}

#[test]
fn frame_rect_inside_is_unchanged() {
    let client = Rect { left: 10, top: 10, right: 74, bottom: 74 };
    assert_eq!(
        frame_rect(client, 1920, 1080),
        Some(FrameRect { rect: client, width: 64, height: 64 })
    );
}

#[test]
fn frame_rect_off_screen_is_skipped() {
    assert_eq!(frame_rect(Rect { left: 2000, top: 0, right: 2100, bottom: 100 }, 1920, 1080), None);
    assert_eq!(frame_rect(Rect { left: 0, top: 0, right: 100, bottom: 0 }, 1920, 1080), None);
    assert_eq!(frame_rect(Rect { left: -300, top: -300, right: -1, bottom: 50 }, 1920, 1080), None);
    assert_eq!(frame_rect(Rect { left: i32::MIN, top: 0, right: i32::MAX, bottom: 1 }, 5, 5).map(|f| f.width), Some(5));
}

#[test]
fn strategy_selection_and_steps() {
    assert_eq!(ColorCloudStrategy::select(true), ColorCloudStrategy::PrimitiveExpansion);
    assert_eq!(ColorCloudStrategy::select(false), ColorCloudStrategy::Indirect);
    assert_eq!(
        ColorCloudStrategy::Indirect.steps(),
        vec![
            CloudStep::ClearCounts,
            CloudStep::Count,
            CloudStep::ClearArguments,
            CloudStep::Compact,
            CloudStep::DrawIndirect
        ]
    );
    assert_eq!(
        ColorCloudStrategy::PrimitiveExpansion.steps(),
        vec![CloudStep::ClearCounts, CloudStep::Count, CloudStep::DrawExpanded]
    );
}

#[test]
fn passes_follow_the_modes() {
    assert_eq!(
        frame_passes(&ViewMode::Original, &ColorCloudMode::Enable(ColorSpace::Rgb), &HistogramMode::Disable),
        FramePasses { view: false, color_cloud: true, histogram: false }
    );
    assert_eq!(
        frame_passes(
            &ViewMode::Rgb(ChannelMask::new(true, false, false)),
            &ColorCloudMode::Disable,
            &HistogramMode::Rgb
        ),
        FramePasses { view: true, color_cloud: false, histogram: true }
    );
}

#[test]
fn cloud_constants_of_a_64_square() {
    let f = FrameRect { rect: Rect { left: 0, top: 0, right: 64, bottom: 64 }, width: 64, height: 64 };
    assert_eq!(
        cloud_constants(&f, &ColorCloudMode::Enable(ColorSpace::Rgb)),
        Some(CloudConstants { num_pixels: 4096, color_space: 0 })
    );
    assert_eq!(
        cloud_constants(&f, &ColorCloudMode::Enable(ColorSpace::Yuv)),
        Some(CloudConstants { num_pixels: 4096, color_space: 3 })
    );
    assert_eq!(cloud_constants(&f, &ColorCloudMode::Disable), None);
}

#[test]
fn histogram_dispatch_rounds_up() {
    assert_eq!(histogram_dispatch(1920, 1080), (240, 135, 1));
    assert_eq!(histogram_dispatch(1, 9), (1, 2, 1));
}

#[test]
fn plan_frame_stops_skips_or_captures() {
    let inside = Rect { left: 0, top: 0, right: 64, bottom: 64 };
    let outside = Rect { left: 5000, top: 0, right: 5064, bottom: 64 };
    assert_eq!(plan_frame(false, inside, 1920, 1080), FrameAction::Stop);
    assert_eq!(plan_frame(true, outside, 1920, 1080), FrameAction::Skip);
    assert_eq!(
        plan_frame(true, inside, 1920, 1080),
        FrameAction::Capture(FrameRect { rect: inside, width: 64, height: 64 })
    );
}
