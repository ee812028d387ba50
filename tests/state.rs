use color_overlay::dpi::Dpi;
use color_overlay::state::{ChannelMask, ColorCloudMode, ColorSpace, HistogramMode, ViewMode};

#[test]
fn channel_mask_at() {
    let m = ChannelMask::new(true, false, true);
    assert!(m.at(0));
    assert!(!m.at(1));
    assert!(m.at(2));
    assert!(!m.at(3));
    assert!(!m.at(usize::MAX));
}

#[test]
fn modes_enable() {
    assert!(!ViewMode::Original.is_enable());
    assert!(ViewMode::Rgb(ChannelMask::new(true, true, true)).is_enable());
    assert!(ViewMode::Hue.is_enable());
    assert!(!HistogramMode::Disable.is_enable());
    assert!(HistogramMode::Brightness.is_enable());
    assert!(!ColorCloudMode::Disable.is_enable());
    assert!(ColorCloudMode::Enable(ColorSpace::Yuv).is_enable());
    assert_eq!(ViewMode::default(), ViewMode::Original);
    assert_eq!(HistogramMode::default(), HistogramMode::Disable);
    assert_eq!(ColorCloudMode::default(), ColorCloudMode::Disable);
}

#[test]
fn color_cloud_color_space() {
    assert_eq!(ColorCloudMode::Disable.color_space(), None);
    assert_eq!(ColorCloudMode::Enable(ColorSpace::Hsl).color_space(), Some(ColorSpace::Hsl));
    assert_eq!(ColorSpace::Rgb.index(), 0);
    assert_eq!(ColorSpace::Hsv.index(), 1);
    assert_eq!(ColorSpace::Hsl.index(), 2);
    assert_eq!(ColorSpace::Yuv.index(), 3);
}

#[test]
fn mode_indices() {
    assert_eq!(ViewMode::Original.mode_index(), 0);
    assert_eq!(ViewMode::Rgb(ChannelMask::default()).mode_index(), 1);
    assert_eq!(ViewMode::Brightness.mode_index(), 4);
    assert_eq!(HistogramMode::Disable.mode_index(), 0);
    assert_eq!(HistogramMode::Saturation.mode_index(), 3);
}

#[test]
fn dpi_absolute_scales_from_96() {
    assert_eq!(Dpi(96).absolute(10), 10);
    assert_eq!(Dpi(144).absolute(10), 15);
    assert_eq!(Dpi(120).absolute(7), 8);
    assert_eq!(Dpi(144).absolute(-7), -10);
    assert_eq!(Dpi(192).absolute(0), 0);
}
