use folco::capabilities::IconBaseKind;
use folco::color::{ColorDotConfig, FolderColorTargetConfig};
use folco::customizer::{CustomIconCustomizer, FolderIconCustomizer, SvgFolderIconCustomizer};
use folco::decal::DecalConfig;
use folco::geometry::SurfaceColor;
use folco::icon::{FolderIconBase, IconSet, SvgFolderIconBase};
use folco::overlay::{ImageOverlayConfig, OverlayAnchorMode, OverlayPosition};
use folco::profile::{CustomizationProfile, LayerKind};

fn full_profile() -> CustomizationProfile {
    CustomizationProfile::new()
        .with_folder_color_target(FolderColorTargetConfig::new(1, 2, 3))
        .with_color_dot(ColorDotConfig::new(4, 5, 6))
        .with_decal(DecalConfig::new("<svg></svg>", 5000))
        .with_overlay(ImageOverlayConfig::from_svg("<svg></svg>", OverlayPosition::TopLeft, OverlayAnchorMode::Inset, 2500))
}

#[test]
fn raster_folder_realizes_everything() {
    let caps = IconBaseKind::RasterFolder.capabilities();
    assert!(LayerKind::all().iter().all(|&l| caps.supports(l)));
    assert!(caps.unsupported_in(&full_profile()).is_empty());
}

#[test]
fn surface_relative_layers_need_a_raster_folder() {
    for kind in [IconBaseKind::VectorFolder, IconBaseKind::CustomImage] {
        assert_eq!(
            kind.capabilities().unsupported_in(&full_profile()),
            vec![LayerKind::SolidColor, LayerKind::Decal],
            "{kind:?}"
        );
    }
}

#[test]
fn unsupported_only_reports_layers_the_profile_carries() {
    let profile = CustomizationProfile::new().with_decal(DecalConfig::new("<svg></svg>", 5000));
    assert_eq!(IconBaseKind::VectorFolder.capabilities().unsupported_in(&profile), vec![LayerKind::Decal]);
}

#[test]
fn filter_drops_exactly_the_unsupported_layers() {
    let filtered = IconBaseKind::CustomImage.capabilities().filter(&full_profile());

    assert!(filtered.folder_color_target.is_none());
    assert!(filtered.decal.is_none());
    assert!(filtered.color_dot.is_some());
    assert!(filtered.overlay.is_some());
}

#[test]
fn rejection_is_present_exactly_when_unsupported() {
    for kind in [IconBaseKind::RasterFolder, IconBaseKind::VectorFolder, IconBaseKind::CustomImage] {
        let caps = kind.capabilities();
        for layer in LayerKind::all() {
            assert_eq!(kind.rejection(layer).is_none(), caps.supports(layer), "{kind:?} / {}", layer.name());
        }
    }
}

#[test]
fn rejections_explain_each_refused_layer() {
    let r = IconBaseKind::VectorFolder.rejections();
    assert_eq!(
        r.solid_color.as_deref(),
        Some("this system's folder icon is a scalable SVG, which has no pixels to recolor")
    );
    assert_eq!(
        r.decal.as_deref(),
        Some("this system's folder icon is a scalable SVG, and decals are imprinted per-pixel")
    );
    assert!(r.color_dot.is_none());
    assert!(r.overlay.is_none());
    let r = IconBaseKind::CustomImage.rejections();
    assert_eq!(r.solid_color.as_deref(), Some("a custom image has no known surface color to recolor away from"));
    assert_eq!(
        r.decal.as_deref(),
        Some("decals are tinted against a folder's surface color, which a custom image has none of")
    );
    let r = IconBaseKind::RasterFolder.rejections();
    assert!(r.solid_color.is_none() && r.color_dot.is_none() && r.decal.is_none() && r.overlay.is_none());
}

#[test]
fn layer_names() {
    let names: Vec<&str> = LayerKind::all().iter().map(|l| l.name()).collect();
    assert_eq!(names, vec!["solid color", "color dot", "decal", "overlay"]);
}

#[test]
fn capabilities_match_what_customizers_keep() {
    fn assert_keeps_exactly(caps: folco::capabilities::IconCapabilities, exported: &CustomizationProfile) {
        for layer in LayerKind::all() {
            assert_eq!(exported.carries(layer), caps.supports(layer), "{}", layer.name());
        }
    }

    let profile = full_profile();
    let surface = SurfaceColor::new(255, 217, 112);

    let mut folder = FolderIconCustomizer::from_folder(FolderIconBase::new(IconSet::new(), surface));
    folder.apply_profile(&profile);
    assert_keeps_exactly(FolderIconCustomizer::capabilities(), &folder.export_profile());

    let mut svg = SvgFolderIconCustomizer::from_folder(SvgFolderIconBase::new(
        r#"<svg xmlns="http://www.w3.org/2000/svg" viewBox="0 0 16 16"></svg>"#,
        surface,
    ));
    svg.apply_profile(&profile);
    assert_keeps_exactly(SvgFolderIconCustomizer::capabilities(), &svg.export_profile());

    let mut custom = CustomIconCustomizer::from_icon_set(IconSet::new());
    custom.apply_profile(&profile);
    assert_keeps_exactly(CustomIconCustomizer::capabilities(), &custom.export_profile());
}
