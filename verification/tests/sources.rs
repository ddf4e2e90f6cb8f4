use folco::error::RenderError;
use folco::icon::{IconImage, RgbaPixels};
use folco::markup::{format_hex_color, replace_color_attr, replace_svg_colors};
use folco::source::{render_raster_at_size, strip_variation_selectors, ImageSource, SvgSource};

#[test]
fn image_source_from_svg_source() {
    let svg = SvgSource::from_svg("<svg></svg>");
    let source = ImageSource::from(svg);
    assert!(source.is_svg());
    assert!(!source.is_raster());
}

#[test]
fn image_source_raster_constructor() {
    let source = ImageSource::raster(vec![1, 2, 3]);
    assert!(source.is_raster());
    assert!(!source.is_svg());
}

#[test]
fn image_source_svg_constructor() {
    let source = ImageSource::svg("<svg></svg>");
    assert!(source.is_svg());
}

#[test]
fn image_source_from_rgba_image() {
    let img = RgbaPixels::new(16, 16, vec![0u8; 16 * 16 * 4]);
    let source = ImageSource::from_rgba_image(&img).unwrap();
    assert!(source.is_raster());

    let png = match &source {
        ImageSource::Raster(bytes) => bytes.clone(),
        ImageSource::Svg(_) => panic!("expected raster data"),
    };
    let rendered = render_raster_at_size(&png, 16).unwrap();
    assert_eq!(rendered.width, 16);
    assert_eq!(rendered.height, 16);
}

#[test]
fn png_encoding_is_not_the_raw_pixels() {
    let img = RgbaPixels::new(2, 2, vec![255u8; 16]);
    let bytes = IconImage::new_full_content(img, 0x3f80_0000).to_png_bytes().unwrap();
    assert_eq!(&bytes[..8], &[0x89, b'P', b'N', b'G', 0x0d, 0x0a, 0x1a, 0x0a]);
    assert_ne!(bytes, vec![255u8; 16]);
}

#[test]
fn raster_rendering_fits_larger_images() {
    let img = RgbaPixels::new(32, 16, vec![200u8; 32 * 16 * 4]);
    let png = IconImage::new_full_content(img, 0x3f80_0000).to_png_bytes().unwrap();
    let rendered = render_raster_at_size(&png, 16).unwrap();
    assert_eq!(rendered.width, 16);
    assert_eq!(rendered.height, 8);
    assert_eq!(rendered.data.len(), 16 * 8 * 4);
}

#[test]
fn raster_rendering_rejects_garbage() {
    let result = render_raster_at_size(&[1, 2, 3], 16);
    assert!(matches!(result, Err(RenderError::ImageDecode(_))));
}

#[test]
fn replace_color_preserves_none() {
    let svg = r##"<circle fill="none" stroke="#000000"/>"##;
    let result = replace_svg_colors(svg, 255, 0, 0);
    assert!(result.contains(r#"fill="none""#));
    assert!(result.contains(r##"stroke="#ff0000""##));
}

#[test]
fn replace_color_rewrites_every_value_but_none_and_transparent() {
    let svg = r##"<g fill="red"><path fill="transparent"/><path fill="#123"/></g>"##;
    let result = replace_color_attr(svg, "fill", "#00ff00");
    assert_eq!(
        result,
        r##"<g fill="#00ff00"><path fill="transparent"/><path fill="#00ff00"/></g>"##
    );
}

#[test]
fn hex_color_is_lowercase_two_digits_per_channel() {
    assert_eq!(format_hex_color(33, 150, 243), "#2196f3");
    assert_eq!(format_hex_color(0, 10, 255), "#000aff");
}

#[test]
fn svg_source_from_raw() {
    let source = SvgSource::from_svg("<svg></svg>");
    assert!(source.is_raw());
    assert!(!source.is_emoji());
    assert_eq!(source.resolve().unwrap(), "<svg></svg>");
}

#[test]
fn svg_source_from_emoji() {
    let source = SvgSource::from_emoji("🦆").expect("Duck emoji should be supported");
    assert!(source.is_emoji());
    assert!(!source.is_raw());

    let svg = source.resolve().expect("Should resolve to SVG");
    assert!(svg.contains("<svg"), "Should be valid SVG data");
}

#[test]
fn svg_source_invalid_emoji_returns_error() {
    let result = SvgSource::from_emoji("not-an-emoji");
    assert!(result.is_err());
}

#[test]
fn svg_source_from_emoji_name() {
    let source = SvgSource::from_emoji_name("duck").expect("Duck emoji should be supported by name");
    assert!(source.is_emoji_name());
    assert!(!source.is_raw());
    assert!(!source.is_emoji());

    let svg = source.resolve().expect("Should resolve to SVG");
    assert!(svg.contains("<svg"), "Should be valid SVG data");
}

#[test]
fn svg_source_invalid_emoji_name_returns_error() {
    let result = SvgSource::from_emoji_name("not-a-valid-emoji-name");
    assert!(result.is_err());
}

#[test]
fn invalid_emoji_error_names_the_input() {
    match SvgSource::from_emoji("xyz") {
        Err(RenderError::InvalidEmoji { emoji }) => assert_eq!(emoji, "xyz"),
        other => panic!("unexpected {other:?}"),
    }
    match SvgSource::from_emoji_name("no-such-name") {
        Err(RenderError::InvalidEmojiName { name }) => assert_eq!(name, "no-such-name"),
        other => panic!("unexpected {other:?}"),
    }
}

#[test]
fn emoji_with_variation_selector_falls_back() {
    // The red heart is stored without U+FE0F in some data sets and with it in others.
    let with_selector = SvgSource::from_emoji("\u{2764}\u{FE0F}");
    let without = SvgSource::from_emoji("\u{2764}");
    assert!(with_selector.is_ok() || without.is_ok());
    assert_eq!(strip_variation_selectors("a\u{FE0F}b\u{FE0F}"), "ab");
}

#[test]
fn sources_compare_by_content() {
    assert!(ImageSource::svg("<svg/>").same_as(&ImageSource::svg("<svg/>")));
    assert!(!ImageSource::svg("<svg/>").same_as(&ImageSource::raster(vec![1])));
    assert!(ImageSource::raster(vec![1, 2]).same_as(&ImageSource::raster(vec![1, 2])));
    assert!(!ImageSource::raster(vec![1, 2]).same_as(&ImageSource::raster(vec![1, 3])));
}

#[test]
fn recoloring_without_the_attribute_changes_nothing() {
    let svg = r#"<svg><path d="M0 0" stroke-width="2"/></svg>"#;
    assert_eq!(replace_color_attr(svg, "fill", "#ff0000"), svg);
}

#[test]
fn recoloring_twice_equals_recoloring_once() {
    let svg = r##"<svg><path fill="#000" stroke="none"/><circle fill="transparent"/><rect fill="red/></svg>"##;
    let once = replace_color_attr(svg, "fill", "#00ff00");
    let twice = replace_color_attr(&once, "fill", "#00ff00");
    assert_eq!(once, twice);
    assert!(once.starts_with(r##"<svg><path fill="#00ff00" stroke="none"/><circle fill="transparent"/>"##));
}

#[test]
fn raster_rendering_at_size_zero_gives_one_pixel() {
    let img = RgbaPixels::new(32, 16, vec![200u8; 32 * 16 * 4]);
    let png = IconImage::new_full_content(img, 0x3f80_0000).to_png_bytes().unwrap();
    let rendered = render_raster_at_size(&png, 0).unwrap();
    assert_eq!((rendered.width, rendered.height), (1, 1));
    assert_eq!(rendered.data.len(), 4);
}
