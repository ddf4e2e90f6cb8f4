use folco::cache::{CacheConfig, IconCache};
use folco::cli_input::{
    classify_decal_source, classify_overlay_source, folder_profile_from_options, is_raster_extension,
    looks_like_emoji, DecalInput, OverlayInput,
};
use folco::color::{ColorDotConfig, FolderColor};
use folco::context::{AppInfo, CustomizationContextBuilder, FolderStrategy};
use folco::decal::DecalConfig;
use folco::geometry::SurfaceColor;
use folco::icon::{IconImage, IconSet, RgbaPixels};
use folco::overlay::{ImageOverlayConfig, OverlayAnchorMode, OverlayPosition};
use folco::profile::CustomizationProfile;
use folco::progress::{BatchProgress, Progress};
use folco::text::trim;
use folco::theme::StartupTheme;
use folco::transfer::SerializableFolderIconBase;

#[test]
fn test_cache_config_new() {
    let config = CacheConfig::new("/tmp/test_cache");
    assert_eq!(config.cache_dir, "/tmp/test_cache");
    assert!(!config.force_refresh);
}

#[test]
fn test_cache_config_with_force_refresh() {
    let config = CacheConfig::new("/tmp/test_cache").with_force_refresh(true);
    assert!(config.force_refresh);
}

#[test]
fn cache_is_used_only_when_present_and_not_forced() {
    let cache = IconCache::new(CacheConfig::new("/tmp/icons"));
    assert_eq!(cache.cache_dir(), "/tmp/icons");
    assert!(!cache.is_cached(false));
    assert!(cache.is_cached(true));
    let forced = IconCache::new(CacheConfig::new("/tmp/icons").with_force_refresh(true));
    assert!(!forced.is_cached(true));
}

#[test]
fn cached_file_names() {
    assert_eq!(IconCache::icon_file_name(256, 7), "folder_icon_256_7.png");
    assert_eq!(IconCache::icon_file_name(16, 0), "folder_icon_16_0.png");
    assert_eq!(IconCache::index_file_name(), "icons.json");
}

#[test]
fn test_builder_has_default_app_info() {
    let builder = CustomizationContextBuilder::new();
    assert_eq!(builder.app_info.qualifier, "com");
    assert_eq!(builder.app_info.organization, "ecoates2");
    assert_eq!(builder.app_info.application, "folco");
}

#[test]
fn test_builder_with_cache_dir() {
    let builder = CustomizationContextBuilder::new()
        .with_cache_dir("/tmp/test_folco")
        .with_force_cache_refresh(true);

    assert!(builder.cache_dir.is_some());
    assert!(builder.force_cache_refresh);
}

#[test]
fn test_builder_with_custom_app_info() {
    let builder = CustomizationContextBuilder::new().with_app_info(AppInfo::new("org", "example", "myapp"));

    assert_eq!(builder.app_info.qualifier, "org");
    assert_eq!(builder.app_info.organization, "example");
    assert_eq!(builder.app_info.application, "myapp");
}

#[test]
fn test_app_info_default() {
    let info = AppInfo::default();
    assert_eq!(info.qualifier, "com");
    assert_eq!(info.organization, "ecoates2");
    assert_eq!(info.application, "folco");
}

#[test]
fn explicit_cache_dir_wins() {
    let builder = CustomizationContextBuilder::new().with_cache_dir("/tmp/x").with_force_cache_refresh(true);
    let config = builder.cache_config().unwrap();
    assert_eq!(config.cache_dir, "/tmp/x");
    assert!(config.force_refresh);
}

fn icons() -> IconSet {
    let mut set = IconSet::new();
    set.add_image(IconImage::new_full_content(RgbaPixels::new(2, 2, vec![7u8; 16]), 0x3f80_0000));
    set
}

#[test]
fn strategy_follows_the_icon_medium() {
    let surface = SurfaceColor::new(255, 217, 112);
    let svg = FolderStrategy::from_icon_source(Some("<svg></svg>".to_string()), icons(), surface);
    assert_eq!(svg.base_svg().as_deref(), Some("<svg></svg>"));
    assert!(svg.folder_icon_base().is_none());
    assert!(svg.customizer().is_none());
    assert_eq!(svg.surface_color(), surface);

    let raster = FolderStrategy::from_icon_source(None, icons(), surface);
    assert!(raster.base_svg().is_none());
    let base = raster.folder_icon_base().unwrap();
    assert_eq!(base.icons, icons());
    assert_eq!(base.surface_color, surface);
    assert!(raster.customizer().is_some());
    assert_eq!(raster.surface_color(), surface);
}

#[test]
fn strategy_applies_what_its_medium_realizes() {
    let surface = SurfaceColor::new(1, 2, 3);
    let profile = CustomizationProfile::new()
        .with_folder_color_target(folco::color::FolderColorTargetConfig::new(9, 9, 9))
        .with_color_dot(ColorDotConfig::new(4, 5, 6));
    let mut svg = FolderStrategy::from_icon_source(Some("<svg/>".to_string()), IconSet::new(), surface);
    svg.apply_profile(&profile);
    let exported = svg.export_profile();
    assert!(exported.folder_color_target.is_none());
    assert_eq!(exported.color_dot, Some(ColorDotConfig::new(4, 5, 6)));

    let mut raster = FolderStrategy::from_icon_source(None, IconSet::new(), surface);
    raster.apply_profile(&profile);
    let exported = raster.export_profile();
    assert!(exported.folder_color_target.is_some());
    assert!(exported.color_dot.is_some());
}

#[test]
fn batch_reports_each_folder_and_the_tallies() {
    let (mut batch, started) = BatchProgress::start(3);
    assert!(matches!(started, Progress::Started { total: 3 }));
    assert!(matches!(batch.processing("/a"), Progress::Processing { current: 0, ref path } if path == "/a"));
    assert!(matches!(batch.record("/a", Ok(())), Progress::FolderComplete { index: 0, ref path } if path == "/a"));
    assert!(matches!(
        batch.record("/b", Err("denied".to_string())),
        Progress::FolderFailed { index: 1, ref path, ref error } if path == "/b" && error == "denied"
    ));
    assert!(!batch.is_done());
    assert!(matches!(batch.processing("/c"), Progress::Processing { current: 2, .. }));
    batch.record("/c", Ok(()));
    assert!(batch.is_done());
    assert_eq!(batch.next_index(), 3);
    assert!(matches!(batch.finish(), Progress::Completed { succeeded: 2, failed: 1 }));
}

#[test]
fn failed_render_counts_every_folder_as_failed() {
    let (batch, _) = BatchProgress::start(4);
    let (first, second) = batch.render_failed("bad svg".to_string());
    assert!(matches!(first, Progress::RenderFailed { ref error } if error == "bad svg"));
    assert!(matches!(second, Progress::Completed { succeeded: 0, failed: 4 }));
}

#[test]
fn emoji_detection() {
    assert!(looks_like_emoji("🦆"));
    assert!(looks_like_emoji("a\u{2600}"));
    assert!(looks_like_emoji("\u{2B50}"));
    assert!(!looks_like_emoji("duck"));
    assert!(!looks_like_emoji(""));
}

#[test]
fn raster_extensions_ignore_case() {
    for ext in ["png", "PNG", "Jpg", "jpeg", "webp", "bmp", "gif", "tiff", "TIF"] {
        assert!(is_raster_extension(ext), "{ext}");
    }
    assert!(!is_raster_extension("svg"));
    assert!(!is_raster_extension("pngx"));
    assert!(!is_raster_extension(""));
}

#[test]
fn overlay_sources_are_classified_in_order() {
    assert!(matches!(classify_overlay_source("<svg/>", None, false), OverlayInput::Markup(ref s) if s == "<svg/>"));
    assert!(matches!(classify_overlay_source("a.SVG", Some("SVG"), true), OverlayInput::SvgFile));
    assert!(matches!(classify_overlay_source("a.png", Some("png"), true), OverlayInput::RasterFile));
    assert!(matches!(classify_overlay_source("a.png", Some("png"), false), OverlayInput::EmojiName(_)));
    assert!(matches!(classify_overlay_source("🦆", None, false), OverlayInput::Emoji(ref s) if s == "🦆"));
    assert!(matches!(classify_overlay_source("duck", None, false), OverlayInput::EmojiName(ref s) if s == "duck"));
}

#[test]
fn decal_sources_accept_svg_only() {
    assert!(matches!(classify_decal_source("<svg/>", None, false), DecalInput::Markup(_)));
    assert!(matches!(classify_decal_source("x.svg", Some("svg"), true), DecalInput::SvgFile));
    assert!(matches!(classify_decal_source("x.png", Some("png"), true), DecalInput::WrongExtension(ref e) if e == "png"));
    assert!(matches!(classify_decal_source("x", None, true), DecalInput::NoExtension));
    assert!(matches!(classify_decal_source("x.svg", Some("svg"), false), DecalInput::Unresolved));
}

#[test]
fn folder_profile_needs_a_layer() {
    assert!(folder_profile_from_options(None, None, None).is_none());
    let p = folder_profile_from_options(Some(FolderColor::Red), None, None).unwrap();
    let t = p.folder_color_target.unwrap();
    assert_eq!((t.target_r, t.target_g, t.target_b), (244, 67, 54));
    let p = folder_profile_from_options(None, Some(DecalConfig::new("<svg/>", 7000)), None).unwrap();
    assert!(p.decal.is_some() && p.folder_color_target.is_none() && p.overlay.is_none());
    let o = ImageOverlayConfig::from_svg("<svg/>", OverlayPosition::Center, OverlayAnchorMode::Inset, 7000);
    assert!(folder_profile_from_options(None, None, Some(o)).unwrap().overlay.is_some());
}

#[test]
fn trimming_removes_unicode_white_space() {
    assert_eq!(trim("  dark\n"), "dark");
    assert_eq!(trim("\u{3000}a b\u{a0}"), "a b");
    assert_eq!(trim("   "), "");
    assert_eq!(trim("x"), "x");
}

#[test]
fn startup_theme_reads_and_names() {
    assert_eq!(StartupTheme::from_cached(Some(" dark \n")), StartupTheme::Dark);
    assert_eq!(StartupTheme::from_cached(Some("Dark")), StartupTheme::Light);
    assert_eq!(StartupTheme::from_cached(None), StartupTheme::Light);
    assert_eq!(StartupTheme::Dark.as_str(), "dark");
    assert_eq!(StartupTheme::Light.as_str(), "light");
    assert_eq!(StartupTheme::Light.background_color(), (255, 255, 255, 255));
    assert_eq!(StartupTheme::Dark.background_color(), (2, 6, 23, 255));
}

#[test]
fn transferable_base_round_trips() {
    let mut set = IconSet::new();
    let pixels: Vec<u8> = (0..64u8).collect();
    let bounds = folco::geometry::RectPx::new(1, 1, 2, 2);
    set.add_image(IconImage::new(RgbaPixels::new(4, 4, pixels.clone()), 0x4000_0000, bounds));
    let base = folco::icon::FolderIconBase::new(set, SurfaceColor::new(1, 2, 3));
    let transferable = SerializableFolderIconBase::from_folder_icon_base(&base).unwrap();
    assert_eq!(transferable.images.len(), 1);
    assert_ne!(transferable.images[0].png_data, pixels);
    assert_eq!(transferable.images[0].content_bounds, Some(bounds));
    let restored = transferable.into_folder_icon_base().unwrap();
    assert_eq!(restored, base);
}

#[test]
fn undecodable_transfer_fails() {
    let t = SerializableFolderIconBase {
        images: vec![folco::transfer::SerializableIconImage {
            png_data: vec![1, 2, 3],
            scale_bits: 0x3f80_0000,
            width: 1,
            height: 1,
            content_bounds: None,
        }],
        surface_color: SurfaceColor::new(0, 0, 0),
    };
    assert!(matches!(t.into_folder_icon_base(), Err(folco::error::RenderError::ImageDecode(_))));
}

#[test]
fn app_cache_dir_is_named_icon_cache() {
    match CacheConfig::from_app_info("com", "ecoates2", "folco") {
        Ok(config) => {
            assert!(config.cache_dir.ends_with("icon_cache"));
            assert!(config.cache_dir.len() > "icon_cache".len());
            assert!(!config.force_refresh);
        }
        Err(e) => panic!("no data directory located: {:?}", e),
    }
    match IconCache::from_app_info("com", "ecoates2", "folco") {
        Ok(cache) => assert!(cache.cache_dir().ends_with("icon_cache")),
        Err(e) => panic!("no data directory located: {:?}", e),
    }
}
