use folco::color::{ColorDotConfig, DominantColor, FolderColorTargetConfig};
use folco::customizer::{CustomLayers, FolderLayers};
use folco::decal::DecalConfig;
use folco::icon::{IconImage, RgbaPixels};
use folco::layer::{CacheKey, CachedOutput, LayerStep};
use folco::profile::LayerKind;

fn key() -> CacheKey {
    CacheKey::new(4, 4, 0x3f80_0000)
}

fn tile(v: u8) -> RgbaPixels {
    RgbaPixels::new(1, 1, vec![v; 4])
}

#[test]
fn folder_layers_run_recolor_decal_dot_overlay() {
    assert_eq!(
        FolderLayers::execution_order(),
        [LayerKind::SolidColor, LayerKind::Decal, LayerKind::ColorDot, LayerKind::Overlay]
    );
    assert_eq!(CustomLayers::execution_order(), [LayerKind::ColorDot, LayerKind::Overlay]);
}

#[test]
fn inactive_layers_are_skipped_and_active_ones_render_then_reuse() {
    let mut layers = FolderLayers::new();
    for layer in FolderLayers::execution_order() {
        assert!(matches!(layers.step(layer, key()), LayerStep::Skip));
    }
    layers.color_dot.set_config(Some(ColorDotConfig::new(1, 2, 3)));
    assert!(matches!(layers.step(LayerKind::ColorDot, key()), LayerStep::Render));
    layers.record(LayerKind::ColorDot, key(), CachedOutput::Tile(tile(7)));
    match layers.step(LayerKind::ColorDot, key()) {
        LayerStep::Reuse(CachedOutput::Tile(t)) => assert_eq!(t.data, vec![7; 4]),
        other => panic!("unexpected {other:?}"),
    }
    // Another size still renders.
    assert!(matches!(layers.step(LayerKind::ColorDot, CacheKey::new(8, 8, 0x3f80_0000)), LayerStep::Render));
}

#[test]
fn decal_tiles_follow_the_recolor_version() {
    let mut layers = FolderLayers::new();
    layers.decal.set_config(Some(DecalConfig::new("<svg/>", 5000)));
    layers.record(LayerKind::Decal, key(), CachedOutput::Tile(tile(1)));
    assert!(matches!(layers.step(LayerKind::Decal, key()), LayerStep::Reuse(_)));

    // Toggling the recolor layer moves its version: the decal must re-render.
    layers.folder_color_target.set_enabled(false);
    assert!(matches!(layers.step(LayerKind::Decal, key()), LayerStep::Render));
    layers.record(LayerKind::Decal, key(), CachedOutput::Tile(tile(2)));
    assert!(matches!(layers.step(LayerKind::Decal, key()), LayerStep::Reuse(_)));

    // The overlay depends on nothing upstream.
    layers.overlay.set_config(Some(folco::overlay::ImageOverlayConfig::from_svg(
        "<svg/>",
        folco::overlay::OverlayPosition::Center,
        folco::overlay::OverlayAnchorMode::Inset,
        5000,
    )));
    layers.record(LayerKind::Overlay, key(), CachedOutput::Tile(tile(3)));
    layers.folder_color_target.set_enabled(true);
    assert!(matches!(layers.step(LayerKind::Overlay, key()), LayerStep::Reuse(_)));
}

#[test]
fn recolor_reuses_whole_images_only() {
    let mut layers = FolderLayers::new();
    layers.folder_color_target.set_config(Some(FolderColorTargetConfig::new(9, 8, 7)));
    layers.record(LayerKind::SolidColor, key(), CachedOutput::Tile(tile(1)));
    assert!(matches!(layers.step(LayerKind::SolidColor, key()), LayerStep::Render));
    let img = IconImage::new_full_content(RgbaPixels::new(4, 4, vec![5; 64]), 0x3f80_0000);
    layers.record(LayerKind::SolidColor, key(), CachedOutput::Image(img.duplicate()));
    match layers.step(LayerKind::SolidColor, key()) {
        LayerStep::Reuse(CachedOutput::Image(i)) => assert_eq!(i, img),
        other => panic!("unexpected {other:?}"),
    }
}

#[test]
fn dominant_color_comes_from_an_active_recolor() {
    let mut layers = FolderLayers::new();
    assert_eq!(layers.dominant_color(), None);
    layers.folder_color_target.set_config(Some(FolderColorTargetConfig::new(33, 150, 243)));
    assert_eq!(layers.dominant_color(), Some(DominantColor::new(33, 150, 243, 255)));
    layers.folder_color_target.set_enabled(false);
    assert_eq!(layers.dominant_color(), None);
}

#[test]
fn custom_layers_skip_what_they_lack() {
    let mut layers = CustomLayers::new();
    assert!(matches!(layers.step(LayerKind::Decal, key()), LayerStep::Skip));
    layers.overlay.set_config(Some(folco::overlay::ImageOverlayConfig::from_svg(
        "<svg/>",
        folco::overlay::OverlayPosition::Center,
        folco::overlay::OverlayAnchorMode::Inset,
        5000,
    )));
    assert!(matches!(layers.step(LayerKind::Overlay, key()), LayerStep::Render));
    layers.record(LayerKind::Overlay, key(), CachedOutput::Tile(tile(4)));
    assert!(matches!(layers.step(LayerKind::Overlay, key()), LayerStep::Reuse(_)));
}
