use folco::sizes::{IconSizeSpec, PlatformSizeSpec, SCALE_1X, SCALE_2X};

#[test]
fn icon_size_spec_square() {
    let spec = IconSizeSpec::square(64, SCALE_2X);
    assert!(spec.is_square());
    assert_eq!(spec.max_dimension(), 64);
    assert_eq!(f32::from_bits(spec.scale_bits), 2.0);
}

#[test]
fn icon_size_spec_rectangle() {
    let spec = IconSizeSpec::new(30, 40, SCALE_1X);
    assert!(!spec.is_square());
    assert_eq!(spec.max_dimension(), 40);
    assert_eq!(f32::from_bits(spec.scale_bits), 1.0);
}

#[test]
fn all_sizes_are_positive() {
    for spec in [PlatformSizeSpec::windows(), PlatformSizeSpec::macos(), PlatformSizeSpec::linux()] {
        assert!(!spec.sizes().is_empty());
        for size in spec.sizes() {
            assert!(size.width > 0);
            assert!(size.height > 0);
            assert!(f32::from_bits(size.scale_bits) > 0.0);
        }
    }
}

#[test]
fn platform_size_lists() {
    let windows: Vec<u32> = PlatformSizeSpec::windows().sizes().iter().map(|s| s.width).collect();
    assert_eq!(windows, vec![16, 20, 24, 32, 40, 48, 64, 256]);
    let linux: Vec<u32> = PlatformSizeSpec::linux().sizes().iter().map(|s| s.width).collect();
    assert_eq!(linux, vec![16, 22, 24, 32, 48, 64, 128, 256]);
    let mac = PlatformSizeSpec::macos();
    assert_eq!(mac.sizes().len(), 10);
    assert_eq!(mac.sizes()[9], IconSizeSpec::square(1024, SCALE_2X));
}

#[test]
fn macos_sizes_cover_each_size_at_both_scales() {
    let mac = PlatformSizeSpec::macos();
    for s in [16u32, 32, 128, 256, 512] {
        assert!(mac.sizes().contains(&IconSizeSpec::square(s, SCALE_1X)));
        assert!(mac.sizes().contains(&IconSizeSpec::square(2 * s, SCALE_2X)));
    }
    assert_eq!(mac.sizes()[1], IconSizeSpec::square(32, SCALE_2X));
}

#[test]
fn current_platform_returns_sizes() {
    assert!(!PlatformSizeSpec::windows().sizes().is_empty());
    assert!(!PlatformSizeSpec::macos().sizes().is_empty());
    assert!(!PlatformSizeSpec::linux().sizes().is_empty());
}
