use folco::color::{ColorDotConfig, FolderColorTargetConfig};
use folco::customizer::{
    CustomIconCustomizer, FolderIconCustomizer, LayerSet, SvgFolderIconCustomizer,
};
use folco::decal::DecalConfig;
use folco::geometry::{RectPx, SurfaceColor};
use folco::icon::{FolderIconBase, IconBase, IconImage, IconSet, RgbaPixels, SvgFolderIconBase};
use folco::layer::{dependency, CacheKey, CachedOutput, DependencyVersion, Layer, LayerVersions, RenderStep};
use folco::overlay::{ImageOverlayConfig, OverlayAnchorMode, OverlayPosition};
use folco::profile::{CustomIconProfile, CustomizationProfile, LayerKind};
use folco::source::{ImageSource, SvgSource};

const ONE: u32 = 0x3f80_0000;

fn image(size: u32, rgba: [u8; 4]) -> IconImage {
    let data = rgba.repeat((size * size) as usize);
    IconImage::new_full_content(RgbaPixels::new(size, size, data), ONE)
}

fn create_test_icon_base() -> FolderIconBase {
    let mut set = IconSet::new();
    set.add_image(image(16, [255, 0, 0, 255]));
    set.add_image(image(32, [0, 255, 0, 255]));
    FolderIconBase::new(set, SurfaceColor::new(255, 217, 112))
}

#[test]
fn customizer_creation() {
    let customizer = FolderIconCustomizer::from_folder(create_test_icon_base());
    assert!(customizer.layers.folder_color_target.config().is_none());
    assert!(customizer.layers.decal.config().is_none());
    assert!(customizer.layers.overlay.config().is_none());
    assert_eq!(customizer.base_icons().len(), 2);
    assert_eq!(customizer.surface_color(), Some(&SurfaceColor::new(255, 217, 112)));
}

#[test]
fn hsl_mutation_setting() {
    let mut customizer = FolderIconCustomizer::from_folder(create_test_icon_base());
    customizer.layers.folder_color_target.set_config(Some(FolderColorTargetConfig::new(33, 150, 243)));
    assert_eq!(customizer.layers.folder_color_target.config().unwrap().target_r, 33);
    assert_eq!(customizer.layers.folder_color_target.config().unwrap().target_g, 150);
    assert_eq!(customizer.layers.folder_color_target.config().unwrap().target_b, 243);

    customizer.layers.folder_color_target.set_config(None);
    assert!(customizer.layers.folder_color_target.config().is_none());
}

#[test]
fn layer_generic_set_config() {
    let mut layer: Layer<DecalConfig> = Layer::default();

    assert!(!layer.has_config());
    assert!(!layer.is_active());
    assert_eq!(layer.version(), 0);

    let changed = layer.set_config(Some(DecalConfig::new("svg", 5000)));
    assert!(changed);
    assert!(layer.has_config());
    assert!(layer.is_active());
    assert_eq!(layer.version(), 1);

    let changed = layer.set_config(Some(DecalConfig::new("svg", 5000)));
    assert!(!changed);
    assert_eq!(layer.version(), 1);

    let changed = layer.set_config(Some(DecalConfig::new("svg2", 5000)));
    assert!(changed);
    assert_eq!(layer.version(), 2);
}

#[test]
fn layer_toggle_without_losing_config() {
    let mut layer: Layer<DecalConfig> = Layer::default();

    layer.set_config(Some(DecalConfig::new("my-svg", 5000)));
    assert!(layer.is_active());
    assert!(layer.is_enabled());
    assert_eq!(layer.version(), 1);

    layer.set_enabled(false);
    assert!(!layer.is_active());
    assert!(!layer.is_enabled());
    assert!(layer.has_config());
    assert_eq!(layer.version(), 2);

    layer.set_enabled(true);
    assert!(layer.is_active());
    assert!(layer.is_enabled());
    assert_eq!(layer.config().unwrap().source, SvgSource::Raw("my-svg".into()));
    assert_eq!(layer.version(), 3);

    let changed = layer.set_enabled(true);
    assert!(!changed);
    assert_eq!(layer.version(), 3);
}

#[test]
fn layer_config_set_clear_cycle() {
    let mut layer: Layer<DecalConfig> = Layer::default();

    layer.set_config(Some(DecalConfig::new("my-svg", 5000)));
    assert!(layer.is_active());
    assert_eq!(layer.version(), 1);

    let changed = layer.set_config(None);
    assert!(changed);
    assert!(!layer.is_active());
    assert!(!layer.has_config());
    assert_eq!(layer.version(), 2);

    let changed = layer.set_config(Some(DecalConfig::new("my-svg", 5000)));
    assert!(changed);
    assert!(layer.is_active());
    assert_eq!(layer.config().unwrap().source, SvgSource::Raw("my-svg".into()));
    assert_eq!(layer.version(), 3);
}

#[test]
fn decal_config_creation() {
    let config = DecalConfig::new("<svg></svg>", 5000);
    assert_eq!(config.source, SvgSource::Raw("<svg></svg>".into()));
    assert_eq!(config.scale, 5000);

    let clamped = DecalConfig::new("svg", 15000);
    assert_eq!(clamped.scale, 10000);
}

#[test]
fn nearly_equal_scales_do_not_change_a_layer() {
    let mut layer: Layer<DecalConfig> = Layer::default();
    layer.set_config(Some(DecalConfig::new("svg", 5000)));
    assert!(!layer.set_config(Some(DecalConfig::new("svg", 5001))));
    assert_eq!(layer.config().unwrap().scale, 5000);
    assert!(layer.set_config(Some(DecalConfig::new("svg", 5002))));
    assert_eq!(layer.config().unwrap().scale, 5002);
}

#[test]
fn layer_cache_read_after_write_and_invalidation() {
    let mut layer: Layer<ColorDotConfig> = Layer::default();
    layer.set_config(Some(ColorDotConfig::new(1, 2, 3)));
    let key = CacheKey::new(16, 16, ONE);
    let deps = DependencyVersion::none();
    assert!(matches!(layer.plan(key, deps), RenderStep::Render(c) if *c == ColorDotConfig::new(1, 2, 3)));

    layer.store(key, CachedOutput::Tile(RgbaPixels::new(1, 1, vec![9, 9, 9, 9])), deps);
    match layer.get_cached(key, deps) {
        Some(CachedOutput::Tile(t)) => assert_eq!(t.data, vec![9, 9, 9, 9]),
        other => panic!("unexpected {other:?}"),
    }
    assert!(matches!(layer.plan(key, deps), RenderStep::Cached(_)));
    // Stored under other dependencies, the entry is not valid.
    assert!(layer.get_cached(key, DependencyVersion::from_version(7)).is_none());
    // Another size is not cached.
    assert!(layer.get_cached(CacheKey::new(32, 32, ONE), deps).is_none());

    layer.set_enabled(false);
    assert!(matches!(layer.plan(key, deps), RenderStep::Inactive));
    assert!(layer.get_cached(key, deps).is_some());

    layer.invalidate();
    assert!(layer.get_cached(key, deps).is_none());
}

#[test]
fn decal_depends_on_the_color_target() {
    let versions = LayerVersions { folder_color_target: 5, color_dot: 6, decal: 7, overlay: 8 };
    assert_eq!(dependency(LayerKind::Decal, &versions), DependencyVersion(5));
    assert_eq!(dependency(LayerKind::Overlay, &versions), DependencyVersion(0));
    assert_eq!(dependency(LayerKind::ColorDot, &versions), DependencyVersion(0));
    assert_eq!(dependency(LayerKind::SolidColor, &versions), DependencyVersion(0));
}

#[test]
fn combined_version_is_the_wrapping_sum() {
    assert_eq!(DependencyVersion::combine(&[1, 2, 3]), DependencyVersion(6));
    assert_eq!(DependencyVersion::combine(&[u64::MAX, 2]), DependencyVersion(1));
    assert_eq!(DependencyVersion::combine(&[]), DependencyVersion(0));
}

#[test]
fn composite_cache_follows_layer_versions() {
    let mut customizer = FolderIconCustomizer::from_folder(create_test_icon_base());
    let base = customizer.base_icons().get(0).unwrap().duplicate();
    let key = CacheKey::from_icon(&base);
    assert!(customizer.cached_render(key).is_none());

    customizer.store_render(key, base.duplicate());
    assert_eq!(customizer.cached_render(key), Some(&base));

    customizer.layers.color_dot.set_config(Some(ColorDotConfig::new(1, 2, 3)));
    assert!(customizer.cached_render(key).is_none());

    customizer.store_render(key, base.duplicate());
    assert!(customizer.cached_render(key).is_some());
    customizer.clear_cache();
    assert!(customizer.cached_render(key).is_none());
    assert!(customizer.layers.color_dot.has_config());
}

#[test]
fn layer_versions_report_each_layer() {
    let mut customizer = FolderIconCustomizer::from_folder(create_test_icon_base());
    customizer.layers.decal.set_config(Some(DecalConfig::new("svg", 5000)));
    customizer.layers.overlay.set_enabled(false);
    let v = customizer.layers.layer_versions();
    assert_eq!(v, LayerVersions { folder_color_target: 0, color_dot: 0, decal: 1, overlay: 1 });
    assert_eq!(customizer.layers.combined_version(), DependencyVersion(2));
}

#[test]
fn profile_apply_to_customizer() {
    let profile = CustomizationProfile::new().with_folder_color_target(FolderColorTargetConfig::new(76, 175, 80));

    let mut customizer = FolderIconCustomizer::from_folder(FolderIconBase::new(IconSet::new(), SurfaceColor::new(255, 217, 112)));
    customizer.apply_profile(&profile);

    assert!(customizer.layers.folder_color_target.is_active());
    assert_eq!(customizer.layers.folder_color_target.config().unwrap().target_r, 76);

    assert!(!customizer.layers.decal.has_config());
    assert!(!customizer.layers.decal.is_active());
}

#[test]
fn profile_export_from_customizer() {
    let mut customizer = FolderIconCustomizer::from_folder(FolderIconBase::new(IconSet::new(), SurfaceColor::new(255, 217, 112)));
    customizer.layers.folder_color_target.set_config(Some(FolderColorTargetConfig::new(76, 175, 80)));

    let profile = customizer.export_profile();

    let ct = profile.folder_color_target.unwrap();
    assert_eq!(ct.target_r, 76);
    assert_eq!(ct.target_g, 175);
    assert_eq!(ct.target_b, 80);
    assert!(profile.decal.is_none());
    assert!(profile.overlay.is_none());
}

fn custom() -> CustomIconCustomizer {
    CustomIconCustomizer::from_icon_set(IconSet::new())
}

#[test]
fn apply_profile_keeps_draw_on_top_intents() {
    let profile = CustomizationProfile::new()
        .with_color_dot(ColorDotConfig::new(1, 2, 3))
        .with_overlay(ImageOverlayConfig::from_svg("<svg></svg>", OverlayPosition::TopLeft, OverlayAnchorMode::Centered, 2500));

    let mut c = custom();
    c.apply_profile(&profile);

    assert_eq!(c.layers.color_dot.config().unwrap(), &ColorDotConfig::new(1, 2, 3));
    assert_eq!(c.layers.overlay.config().unwrap().position, OverlayPosition::TopLeft);
    assert!(c.base().is_custom());
    assert_eq!(c.surface_color(), None);
}

#[test]
fn apply_profile_drops_surface_relative_intents() {
    let profile = CustomizationProfile::new()
        .with_folder_color_target(FolderColorTargetConfig::new(76, 175, 80))
        .with_decal(DecalConfig::new("<svg></svg>", 5000));

    let mut c = custom();
    c.apply_profile(&profile);

    let exported = c.export_profile();
    assert!(exported.folder_color_target.is_none());
    assert!(exported.decal.is_none());
}

#[test]
fn custom_icon_profile_carries_only_the_overlay() {
    let overlay = ImageOverlayConfig::from_svg("<svg>badge</svg>", OverlayPosition::BottomRight, OverlayAnchorMode::Inset, 2500);
    let profile = CustomIconProfile::new().with_overlay(overlay).into_profile();
    assert!(profile.carries(LayerKind::Overlay));
    assert!(!profile.carries(LayerKind::ColorDot));
    let mut c = custom();
    c.apply_profile(&profile);
    assert_eq!(
        c.layers.overlay.config().unwrap().source,
        ImageSource::Svg(SvgSource::Raw("<svg>badge</svg>".into()))
    );
}

const BASE_SVG: &str =
    r##"<svg xmlns="http://www.w3.org/2000/svg" viewBox="0 0 16 16"><rect width="16" height="16" fill="#ffd970"/></svg>"##;

fn test_base() -> SvgFolderIconBase {
    SvgFolderIconBase::new(BASE_SVG, SurfaceColor::new(255, 217, 112))
}

#[test]
fn passthrough_render_returns_base_unchanged() {
    let mut customizer = SvgFolderIconCustomizer::from_folder(test_base());
    assert_eq!(customizer.render_output().unwrap(), BASE_SVG);
}

#[test]
fn exposes_surface_color() {
    let customizer = SvgFolderIconCustomizer::from_folder(test_base());
    assert_eq!(*customizer.surface_color(), SurfaceColor::new(255, 217, 112));
}

#[test]
fn clear_cache_does_not_panic() {
    let mut customizer = SvgFolderIconCustomizer::from_folder(test_base());
    customizer.clear_cache();
    assert_eq!(customizer.render_output().unwrap(), BASE_SVG);
}

#[test]
fn apply_profile_adds_overlay_image() {
    let mut customizer = SvgFolderIconCustomizer::from_folder(test_base());
    let profile = CustomizationProfile::new().with_overlay(ImageOverlayConfig::from_svg(
        "<svg xmlns=\"http://www.w3.org/2000/svg\"></svg>",
        OverlayPosition::BottomRight,
        OverlayAnchorMode::Inset,
        5000,
    ));
    customizer.apply_profile(&profile);

    let svg = customizer.render_output().unwrap();
    assert!(svg.contains("<image"));
    assert!(svg.contains("data:image/svg+xml;base64,"));
    assert!(svg.ends_with("</svg>"));
}

#[test]
fn overlay_round_trips_through_profile() {
    let mut customizer = SvgFolderIconCustomizer::from_folder(test_base());
    let profile = CustomizationProfile::new().with_overlay(ImageOverlayConfig::from_svg(
        "<svg/>",
        OverlayPosition::TopLeft,
        OverlayAnchorMode::Centered,
        3000,
    ));
    customizer.apply_profile(&profile);

    let exported = customizer.export_profile();
    let overlay = exported.overlay.unwrap();
    assert_eq!(overlay.position, OverlayPosition::TopLeft);
    assert_eq!(overlay.anchor_mode, OverlayAnchorMode::Centered);
}

#[test]
fn svg_color_dot_goes_before_the_closing_tag() {
    let mut customizer = SvgFolderIconCustomizer::from_folder(test_base());
    customizer.apply_profile(&CustomizationProfile::new().with_color_dot(ColorDotConfig::new(33, 150, 243)));
    let svg = customizer.render_output().unwrap();
    assert!(svg.contains("<circle"));
    assert!(svg.contains("#2196f3"));
    assert!(svg.ends_with("</svg></svg>"));
    assert!(svg.starts_with(&BASE_SVG[..BASE_SVG.len() - 6]));

    customizer.apply_profile(&CustomizationProfile::new());
    assert!(customizer.export_profile().color_dot.is_none());
    assert_eq!(customizer.render_output().unwrap(), BASE_SVG);
}

#[test]
fn folder_customizer_base_is_the_folder() {
    let c = FolderIconCustomizer::from_folder(create_test_icon_base());
    assert!(matches!(c.base(), IconBase::Folder(_)));
    assert_eq!(c.base_icons().get(1).unwrap().content_bounds, RectPx::from_size(32, 32));
}

#[test]
fn dependency_from_an_upstream_layer() {
    let mut layer: Layer<FolderColorTargetConfig> = Layer::default();
    layer.set_config(Some(FolderColorTargetConfig::new(1, 2, 3)));
    layer.set_enabled(false);
    assert_eq!(DependencyVersion::from_layer(&layer), DependencyVersion(2));
}

#[test]
fn icon_base_kinds() {
    let folder = IconBase::Folder(create_test_icon_base());
    assert!(folder.is_folder());
    assert!(!folder.is_custom());
    let custom = IconBase::Custom(IconSet::new());
    assert!(custom.is_custom());
    assert!(!custom.is_folder());
    assert_eq!(custom.surface_color(), None);
}

#[test]
fn combined_version_ignores_order() {
    let a = DependencyVersion::combine(&[3, u64::MAX, 7]);
    let b = DependencyVersion::combine(&[7, 3, u64::MAX]);
    assert_eq!(a, b);
    assert_eq!(a, DependencyVersion(9));
    assert_eq!(DependencyVersion::combine(&[]), DependencyVersion::none());
}

#[test]
fn applying_a_profile_moves_only_the_changed_layers() {
    let mut customizer = FolderIconCustomizer::from_folder(create_test_icon_base());
    let profile = CustomizationProfile::new().with_folder_color_target(FolderColorTargetConfig::new(76, 175, 80));
    customizer.apply_profile(&profile);
    assert_eq!(
        customizer.layers.layer_versions(),
        LayerVersions { folder_color_target: 1, color_dot: 0, decal: 0, overlay: 0 }
    );
    customizer.apply_profile(&profile);
    assert_eq!(
        customizer.layers.layer_versions(),
        LayerVersions { folder_color_target: 1, color_dot: 0, decal: 0, overlay: 0 }
    );
    customizer.apply_profile(&CustomizationProfile::new());
    assert_eq!(
        customizer.layers.layer_versions(),
        LayerVersions { folder_color_target: 2, color_dot: 0, decal: 0, overlay: 0 }
    );
}
