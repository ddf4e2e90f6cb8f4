use folco::color::ColorDotConfig;
use folco::dot::{color_dot_origin, color_dot_size, color_dot_svg};
use folco::geometry::RectPx;
use folco::icon::RgbaPixels;
use folco::overlay::{ImageOverlayConfig, OverlayAnchorMode, OverlayPosition};
use folco::source::ImageSource;
use folco::svg_layer::{image_fragment, placement, source_data_uri, Percent, SvgLayer};

fn pct(negative: bool, magnitude: u64) -> Percent {
    Percent { negative, magnitude }
}

fn red_png_source() -> ImageSource {
    let img = RgbaPixels::new(8, 8, [255u8, 0, 0, 255].repeat(64));
    ImageSource::from_rgba_image(&img).unwrap()
}

#[test]
fn color_dot_inactive_layer_renders_nothing() {
    let layer: SvgLayer<ColorDotConfig> = SvgLayer::default();
    assert!(layer.render_fragment().is_none());
}

#[test]
fn disabled_layer_renders_nothing() {
    let mut layer: SvgLayer<ColorDotConfig> = SvgLayer::default();
    layer.set_config(Some(ColorDotConfig::new(33, 150, 243)));
    layer.set_enabled(false);
    assert!(layer.render_fragment().is_none());
}

#[test]
fn active_layer_renders_circle_with_color() {
    let mut layer: SvgLayer<ColorDotConfig> = SvgLayer::default();
    layer.set_config(Some(ColorDotConfig::new(33, 150, 243)));
    let fragment = layer.render_fragment().unwrap();

    assert!(fragment.contains("<circle"));
    assert!(fragment.contains("#2196f3"));
    assert!(fragment.starts_with("<svg"));
    assert!(fragment.ends_with("</svg>"));
}

#[test]
fn fragment_is_inset_from_the_bottom_right_corner() {
    let mut layer: SvgLayer<ColorDotConfig> = SvgLayer::default();
    layer.set_config(Some(ColorDotConfig::new(0, 0, 0)));
    let fragment = layer.render_fragment().unwrap();

    assert!(fragment.contains("x=\"55%\""));
    assert!(fragment.contains("width=\"40%\""));
}

#[test]
fn color_dot_fragment_exact_markup() {
    let mut layer: SvgLayer<ColorDotConfig> = SvgLayer::default();
    layer.set_config(Some(ColorDotConfig::new(1, 2, 3)));
    assert_eq!(
        layer.render_fragment().unwrap(),
        "<svg x=\"55%\" y=\"55%\" width=\"40%\" height=\"40%\" viewBox=\"0 0 100 100\" \
preserveAspectRatio=\"xMidYMid meet\"><circle cx=\"50\" cy=\"50\" r=\"42\" fill=\"#010203\" \
stroke=\"#ffffff\" stroke-width=\"8\"/></svg>"
    );
}

#[test]
fn color_dot_document_and_raster_geometry() {
    let doc = color_dot_svg(&ColorDotConfig::new(255, 0, 0));
    assert!(doc.starts_with("<svg xmlns=\"http://www.w3.org/2000/svg\" viewBox=\"0 0 100 100\"><circle"));
    assert!(doc.contains("fill=\"#ff0000\""));
    let bounds = RectPx::from_size(64, 64);
    assert_eq!(color_dot_size(&bounds), 25);
    // 64 - margin(3) - size(25)
    assert_eq!(color_dot_origin(&bounds, 25, 25), (36, 36));
}

#[test]
fn overlay_inactive_layer_renders_nothing() {
    let layer: SvgLayer<ImageOverlayConfig> = SvgLayer::default();
    assert_eq!(layer.render_fragment().unwrap(), None);
}

#[test]
fn svg_source_embeds_as_svg_data_uri() {
    let mut layer: SvgLayer<ImageOverlayConfig> = SvgLayer::default();
    layer.set_config(Some(ImageOverlayConfig::from_svg(
        "<svg xmlns=\"http://www.w3.org/2000/svg\"></svg>",
        OverlayPosition::Center,
        OverlayAnchorMode::Inset,
        5000,
    )));
    let fragment = layer.render_fragment().unwrap().unwrap();

    assert!(fragment.starts_with("<image"));
    assert!(fragment.contains("data:image/svg+xml;base64,"));
    assert!(fragment.contains("preserveAspectRatio=\"xMidYMid meet\""));
}

#[test]
fn raster_source_wraps_in_image_png_uri() {
    let mut layer: SvgLayer<ImageOverlayConfig> = SvgLayer::default();
    layer.set_config(Some(ImageOverlayConfig::new(
        red_png_source(),
        OverlayPosition::BottomRight,
        OverlayAnchorMode::Inset,
        2500,
    )));
    let fragment = layer.render_fragment().unwrap().unwrap();

    assert!(fragment.contains("data:image/png;base64,"));
}

#[test]
fn data_uri_holds_the_base64_of_the_markup() {
    let uri = source_data_uri(&ImageSource::svg("<svg></svg>")).unwrap();
    assert_eq!(uri, "data:image/svg+xml;base64,PHN2Zz48L3N2Zz4=");
    let uri = source_data_uri(&ImageSource::raster(vec![0, 1, 2])).unwrap();
    assert_eq!(uri, "data:image/png;base64,AAEC");
}

#[test]
fn unresolvable_overlay_source_fails() {
    let mut layer: SvgLayer<ImageOverlayConfig> = SvgLayer::default();
    let source = ImageSource::Svg(folco::source::SvgSource::EmojiName("not-an-emoji-name".to_string()));
    layer.set_config(Some(ImageOverlayConfig::new(source, OverlayPosition::Center, OverlayAnchorMode::Inset, 5000)));
    assert!(layer.render_fragment().is_err());
}

#[test]
fn inset_bottom_right_stays_in_bounds() {
    let (x, y, size) = placement(OverlayPosition::BottomRight, OverlayAnchorMode::Inset, 2500);
    assert_eq!(size, pct(false, 250_000));
    assert_eq!((x, y), (pct(false, 750_000), pct(false, 750_000)));
}

#[test]
fn centered_bottom_right_can_hang_off() {
    let (x, y, size) = placement(OverlayPosition::BottomRight, OverlayAnchorMode::Centered, 5000);
    assert_eq!(size, pct(false, 500_000));
    assert_eq!((x, y), (pct(false, 750_000), pct(false, 750_000)));
}

#[test]
fn centered_top_left_uses_negative_offsets() {
    let (x, y, _) = placement(OverlayPosition::TopLeft, OverlayAnchorMode::Centered, 4000);
    assert_eq!((x, y), (pct(true, 200_000), pct(true, 200_000)));
}

#[test]
fn image_element_prints_four_decimals() {
    let f = image_fragment("h", OverlayPosition::TopLeft, OverlayAnchorMode::Centered, 2500);
    assert_eq!(
        f,
        "<image href=\"h\" x=\"-12.5000%\" y=\"-12.5000%\" width=\"25.0000%\" height=\"25.0000%\" \
preserveAspectRatio=\"xMidYMid meet\"/>"
    );
    let f = image_fragment("h", OverlayPosition::Center, OverlayAnchorMode::Inset, 3333);
    assert!(f.contains("x=\"33.3350%\""));
    assert!(f.contains("width=\"33.3300%\""));
    let f = image_fragment("h", OverlayPosition::TopLeft, OverlayAnchorMode::Centered, 0);
    assert!(f.contains("x=\"-0.0000%\""));
}

#[test]
fn svg_layer_toggle_and_versions() {
    let mut layer: SvgLayer<ColorDotConfig> = SvgLayer::default();
    assert_eq!(layer.version(), 0);
    assert!(layer.set_config(Some(ColorDotConfig::new(1, 1, 1))));
    assert_eq!(layer.version(), 1);
    assert!(!layer.set_config(Some(ColorDotConfig::new(1, 1, 1))));
    assert_eq!(layer.version(), 1);
    assert!(layer.set_enabled(false));
    assert!(!layer.is_active());
    assert!(layer.has_config());
    assert_eq!(layer.version(), 2);
    layer.invalidate();
    assert_eq!(layer.version(), 3);
    assert_eq!(layer.config(), Some(&ColorDotConfig::new(1, 1, 1)));
}
