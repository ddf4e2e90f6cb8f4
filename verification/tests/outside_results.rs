use folco::cache::CacheConfig;
use folco::core_error::Error;
use folco::geometry::RectPx;
use folco::source::needs_fit;
use folco::svg_layer::data_uri_of;
use folco::transfer::SerializableIconImage;

#[test]
fn located_cache_dir_or_the_error() {
    let config = CacheConfig::from_located_dir(Some("/data/folco/icon_cache".to_string())).unwrap();
    assert_eq!(config.cache_dir, "/data/folco/icon_cache");
    assert!(!config.force_refresh);
    match CacheConfig::from_located_dir(None) {
        Err(Error::AppDataDir { message }) => assert_eq!(message, "failed to determine app data directory"),
        other => panic!("unexpected {other:?}"),
    }
}

#[test]
fn fitting_is_skipped_at_the_requested_size() {
    assert!(!needs_fit(16, 16, 16));
    assert!(!needs_fit(16, 8, 16));
    assert!(!needs_fit(8, 16, 16));
    assert!(needs_fit(32, 32, 16));
    assert!(needs_fit(8, 8, 16));
}

#[test]
fn data_uris_name_the_media_type() {
    assert_eq!(data_uri_of("image/png", "AAEC"), "data:image/png;base64,AAEC");
    assert_eq!(data_uri_of("image/svg+xml", ""), "data:image/svg+xml;base64,");
}

#[test]
fn decoded_pixels_take_the_transferred_metadata() {
    let with_bounds = SerializableIconImage {
        png_data: Vec::new(),
        scale_bits: 0x4000_0000,
        width: 4,
        height: 4,
        content_bounds: Some(RectPx::new(1, 1, 2, 2)),
    };
    let img = with_bounds.image_from_pixels(4, 4, vec![1; 64]);
    assert_eq!(img.content_bounds, RectPx::new(1, 1, 2, 2));
    assert_eq!(img.scale_bits, 0x4000_0000);
    let without = SerializableIconImage { content_bounds: None, ..with_bounds };
    let img = without.image_from_pixels(3, 2, vec![0; 24]);
    assert_eq!(img.content_bounds, RectPx::from_size(3, 2));
    assert_eq!(img.data.width, 3);
}
