use folco::color::{DominantColor, FolderColorTargetConfig};
use folco::customizer::FolderIconCustomizer;
use folco::decal::{decal_base_color, scaled_size};
use folco::error::RenderError;
use folco::geometry::{RectPx, SurfaceColor};
use folco::icon::{closest_index, FolderIconBase, IconImage, IconSet, RgbaPixels};
use folco::scale::{clamp_scale, scale_differs};

fn image(size: u32) -> IconImage {
    IconImage::new_full_content(RgbaPixels::new(size, size, vec![0; (size * size * 4) as usize]), 0x3f80_0000)
}

#[test]
fn closest_base_image_wins_and_ties_keep_the_first() {
    let mut set = IconSet::new();
    set.add_image(image(16));
    set.add_image(image(32));
    let c = FolderIconCustomizer::from_folder(FolderIconBase::new(set, SurfaceColor::new(0, 0, 0)));
    // Distances of 16 and 32 from 20.
    assert_eq!(c.select_base(&[4, 12], 20).unwrap().data.width, 16);
    assert_eq!(c.select_base(&[8, 8], 24).unwrap().data.width, 16);
    assert_eq!(closest_index(&[5, 3, 3, 9]), Some(1));
    assert_eq!(closest_index(&[]), None);
}

#[test]
fn no_base_image_is_an_error() {
    let c = FolderIconCustomizer::from_folder(FolderIconBase::new(IconSet::new(), SurfaceColor::new(0, 0, 0)));
    assert!(matches!(c.select_base(&[], 48), Err(RenderError::NoBaseIcon { logical_size: 48 })));
}

#[test]
fn scaled_edges_round_down() {
    let bounds = RectPx::new(0, 4, 16, 9);
    assert_eq!(scaled_size(&bounds, 5000), 4);
    assert_eq!(scaled_size(&bounds, 10000), 9);
    assert_eq!(scaled_size(&bounds, 0), 0);
    assert_eq!(scaled_size(&RectPx::from_size(256, 256), 7000), 179);
}

#[test]
fn decal_color_prefers_the_dominant_color() {
    let surface = SurfaceColor::new(255, 217, 112);
    assert_eq!(decal_base_color(None, Some(surface)), (255, 217, 112, 255));
    let dominant = FolderColorTargetConfig::new(33, 150, 243).dominant_color();
    assert_eq!(dominant, DominantColor::new(33, 150, 243, 255));
    assert_eq!(decal_base_color(Some(dominant), Some(surface)), (33, 150, 243, 255));
    assert_eq!(decal_base_color(Some(DominantColor::new(1, 2, 3, 4)), None), (1, 2, 3, 4));
}

#[test]
fn scales_clamp_and_compare_with_tolerance() {
    assert_eq!(clamp_scale(12345), 10000);
    assert_eq!(clamp_scale(7000), 7000);
    assert!(!scale_differs(5000, 5001));
    assert!(!scale_differs(5001, 5000));
    assert!(scale_differs(5000, 5002));
    assert!(scale_differs(0, u32::MAX));
}

#[test]
fn icon_set_operations() {
    let mut set = IconSet::new();
    assert!(set.is_empty());

    set.add_image(image(16));
    set.add_image(image(32));

    assert_eq!(set.len(), 2);
    assert!(!set.is_empty());

    // Find the image whose logical size is closest to 20.
    let distances: Vec<u32> = set
        .as_slice()
        .iter()
        .map(|img| (img.data.width as f32 / f32::from_bits(img.scale_bits) - 20.0).abs() as u32)
        .collect();
    let c = FolderIconCustomizer::from_folder(FolderIconBase::new(set, SurfaceColor::new(0, 0, 0)));
    let found = c.select_base(&distances, 20).unwrap();
    assert_eq!(found.dimensions().width, 16);
}
