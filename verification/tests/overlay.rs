use folco::geometry::RectPx;
use folco::layer::LayerConfig;
use folco::overlay::{
    calculate_position, parse_overlay_anchor_mode, parse_overlay_position, ImageOverlayConfig,
    OverlayAnchorMode, OverlayPosition,
};
use folco::source::{ImageSource, SvgSource};

#[test]
fn centered_anchor_can_hang_off_bottom_right_corner() {
    let bounds = RectPx::new(10, 20, 100, 80);
    let pos = calculate_position(OverlayPosition::BottomRight, OverlayAnchorMode::Centered, &bounds, 20, 10);
    assert_eq!(pos, (100, 95));
}

#[test]
fn inset_anchor_keeps_bottom_right_inside_bounds() {
    let bounds = RectPx::new(10, 20, 100, 80);
    let pos = calculate_position(OverlayPosition::BottomRight, OverlayAnchorMode::Inset, &bounds, 20, 10);
    assert_eq!(pos, (90, 90));
}

#[test]
fn center_of_an_overlay_larger_than_the_bounds_rounds_toward_zero() {
    let bounds = RectPx::new(10, 10, 10, 10);
    // (10 - 13) / 2 rounds toward zero to -1.
    let pos = calculate_position(OverlayPosition::Center, OverlayAnchorMode::Inset, &bounds, 13, 13);
    assert_eq!(pos, (9, 9));
    let pos = calculate_position(OverlayPosition::Center, OverlayAnchorMode::Centered, &bounds, 4, 6);
    assert_eq!(pos, (13, 12));
}

#[test]
fn corners_in_both_anchor_modes() {
    let b = RectPx::new(0, 0, 100, 100);
    assert_eq!(calculate_position(OverlayPosition::TopLeft, OverlayAnchorMode::Inset, &b, 20, 20), (0, 0));
    assert_eq!(calculate_position(OverlayPosition::TopRight, OverlayAnchorMode::Inset, &b, 20, 20), (80, 0));
    assert_eq!(calculate_position(OverlayPosition::BottomLeft, OverlayAnchorMode::Inset, &b, 20, 20), (0, 80));
    assert_eq!(calculate_position(OverlayPosition::TopLeft, OverlayAnchorMode::Centered, &b, 21, 21), (-10, -10));
    assert_eq!(calculate_position(OverlayPosition::TopRight, OverlayAnchorMode::Centered, &b, 20, 20), (90, -10));
    assert_eq!(calculate_position(OverlayPosition::BottomLeft, OverlayAnchorMode::Centered, &b, 20, 20), (-10, 90));
}

#[test]
fn overlay_config_creation() {
    let config = ImageOverlayConfig::from_svg("<svg></svg>", OverlayPosition::BottomRight, OverlayAnchorMode::Inset, 2500);
    assert_eq!(config.position, OverlayPosition::BottomRight);
    assert_eq!(config.scale, 2500);
    assert_eq!(config.source, ImageSource::Svg(SvgSource::Raw("<svg></svg>".into())));
}

#[test]
fn overlay_scale_is_clamped() {
    let config = ImageOverlayConfig::from_raster(vec![1, 2], OverlayPosition::Center, OverlayAnchorMode::Inset, 12000);
    assert_eq!(config.scale, 10000);
}

#[test]
fn overlay_differs_on_each_field_and_tolerates_tiny_scale_changes() {
    let a = ImageOverlayConfig::from_svg("<svg/>", OverlayPosition::TopLeft, OverlayAnchorMode::Inset, 3000);
    let same = ImageOverlayConfig::from_svg("<svg/>", OverlayPosition::TopLeft, OverlayAnchorMode::Inset, 3001);
    let moved = ImageOverlayConfig::from_svg("<svg/>", OverlayPosition::TopRight, OverlayAnchorMode::Inset, 3000);
    let anchored = ImageOverlayConfig::from_svg("<svg/>", OverlayPosition::TopLeft, OverlayAnchorMode::Centered, 3000);
    let scaled = ImageOverlayConfig::from_svg("<svg/>", OverlayPosition::TopLeft, OverlayAnchorMode::Inset, 3002);
    let other = ImageOverlayConfig::from_svg("<svg></svg>", OverlayPosition::TopLeft, OverlayAnchorMode::Inset, 3000);
    assert!(!a.differs_from(&same));
    assert!(a.differs_from(&moved));
    assert!(a.differs_from(&anchored));
    assert!(a.differs_from(&scaled));
    assert!(a.differs_from(&other));
}

#[test]
fn overlay_from_emoji_and_name() {
    let by_char = ImageOverlayConfig::from_emoji("🦆", OverlayPosition::Center, OverlayAnchorMode::Inset, 5000).unwrap();
    assert!(by_char.source.is_svg());
    let by_name = ImageOverlayConfig::from_emoji_name("duck", OverlayPosition::Center, OverlayAnchorMode::Inset, 5000).unwrap();
    assert!(by_name.source.is_svg());
    assert!(ImageOverlayConfig::from_emoji_name("nope-not-a-name", OverlayPosition::Center, OverlayAnchorMode::Inset, 5000).is_err());
}

#[test]
fn anchor_mode_defaults_to_inset() {
    assert_eq!(OverlayAnchorMode::default(), OverlayAnchorMode::Inset);
}

#[test]
fn position_and_anchor_names() {
    assert_eq!(parse_overlay_position("top-left"), OverlayPosition::TopLeft);
    assert_eq!(parse_overlay_position("top-right"), OverlayPosition::TopRight);
    assert_eq!(parse_overlay_position("bottom-left"), OverlayPosition::BottomLeft);
    assert_eq!(parse_overlay_position("center"), OverlayPosition::Center);
    assert_eq!(parse_overlay_position("bottom-right"), OverlayPosition::BottomRight);
    assert_eq!(parse_overlay_position("anything"), OverlayPosition::BottomRight);
    assert_eq!(parse_overlay_anchor_mode("centered"), OverlayAnchorMode::Centered);
    assert_eq!(parse_overlay_anchor_mode("inset"), OverlayAnchorMode::Inset);
    assert_eq!(parse_overlay_anchor_mode("Centered"), OverlayAnchorMode::Inset);
}

#[test]
fn inset_overlays_stay_inside_at_every_position() {
    let b = RectPx::new(5, 7, 40, 30);
    for position in [
        OverlayPosition::TopLeft,
        OverlayPosition::TopRight,
        OverlayPosition::BottomLeft,
        OverlayPosition::BottomRight,
        OverlayPosition::Center,
    ] {
        let (x, y) = calculate_position(position, OverlayAnchorMode::Inset, &b, 13, 9);
        assert!(x >= 5 && x + 13 <= 45, "{position:?}");
        assert!(y >= 7 && y + 9 <= 37, "{position:?}");
    }
}

#[test]
fn centered_overlays_cover_their_corner() {
    let b = RectPx::new(5, 7, 40, 30);
    let corners = [
        (OverlayPosition::TopLeft, (5, 7)),
        (OverlayPosition::TopRight, (45, 7)),
        (OverlayPosition::BottomLeft, (5, 37)),
        (OverlayPosition::BottomRight, (45, 37)),
    ];
    for (position, (cx, cy)) in corners {
        let (x, y) = calculate_position(position, OverlayAnchorMode::Centered, &b, 13, 9);
        assert!(x <= cx && cx <= x + 13, "{position:?}");
        assert!(y <= cy && cy <= y + 9, "{position:?}");
    }
}

#[test]
fn oversized_overlay_wraps_in_i32_arithmetic() {
    let b = RectPx::new(0, 0, 100, 100);
    assert_eq!(calculate_position(OverlayPosition::TopLeft, OverlayAnchorMode::Inset, &b, u32::MAX, u32::MAX), (0, 0));
    let ow: u32 = 3_000_000_000;
    let expected_x = 100i32.wrapping_sub(ow as i32);
    assert_eq!(
        calculate_position(OverlayPosition::TopRight, OverlayAnchorMode::Inset, &b, ow, 10),
        (expected_x, 0)
    );
    assert_eq!(expected_x, 1_294_967_396);
}
