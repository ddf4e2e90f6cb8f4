use folco::color::{ColorDotConfig, DominantColor, FolderColor, FolderColorExt, FolderColorTargetConfig};
use folco::layer::LayerConfig;

#[test]
fn to_solid_color_config() {
    let config = FolderColor::Red.to_solid_color_config();
    assert_eq!(config.target_r, 244);
    assert_eq!(config.target_g, 67);
    assert_eq!(config.target_b, 54);
}

#[test]
fn to_color_dot_config() {
    assert_eq!(FolderColor::Red.to_color_dot_config(), ColorDotConfig::new(244, 67, 54));
}

#[test]
fn differs_from_detects_color_change() {
    let a = ColorDotConfig::new(0, 0, 0);
    let b = ColorDotConfig::new(0, 0, 1);
    assert!(a.differs_from(&b));
    assert!(!a.differs_from(&a));
}

#[test]
fn color_target_differs_on_any_channel() {
    let base = FolderColorTargetConfig::new(10, 20, 30);
    assert!(!base.differs_from(&FolderColorTargetConfig::new(10, 20, 30)));
    assert!(base.differs_from(&FolderColorTargetConfig::new(11, 20, 30)));
    assert!(base.differs_from(&FolderColorTargetConfig::new(10, 21, 30)));
    assert!(base.differs_from(&FolderColorTargetConfig::new(10, 20, 31)));
}

#[test]
fn dominant_color_as_tuple() {
    assert_eq!(DominantColor::new(1, 2, 3, 4).as_tuple(), (1, 2, 3, 4));
}

#[test]
fn preset_rgb_matches_configs() {
    assert_eq!(FolderColor::Red.rgb(), (244, 67, 54));
}
