//! Color configurations: the folder recolor target, the color dot, the
//! dominant color passed between layers, and named presets.

use vstd::prelude::*;
use crate::layer::LayerConfig;

verus! {

/// Configuration for recoloring a folder icon to a target RGB color.
///
/// Stores only the target color; the hue, saturation and lightness shifts are
/// derived from the base icon's surface color at render time.
#[derive(Debug, Clone, Copy, PartialEq, Eq, Structural)]
pub struct FolderColorTargetConfig {
    /// Target red channel.
    pub target_r: u8,
    /// Target green channel.
    pub target_g: u8,
    /// Target blue channel.
    pub target_b: u8,
}

impl FolderColorTargetConfig {
    /// Creates a new color target config from target RGB values.
    pub fn new(target_r: u8, target_g: u8, target_b: u8) -> (c: Self)
        ensures
            c == (FolderColorTargetConfig { target_r, target_g, target_b }),
    {
        FolderColorTargetConfig { target_r, target_g, target_b }
    }
}

impl FolderColorTargetConfig {
    /// The dominant color a recolored image has: the opaque target color.
    pub fn dominant_color(&self) -> (c: DominantColor)
        ensures
            c == (DominantColor { r: self.target_r, g: self.target_g, b: self.target_b, a: 255 }),
    {
        DominantColor::new(self.target_r, self.target_g, self.target_b, 255)
    }
}

impl View for FolderColorTargetConfig {
    type V = FolderColorTargetConfig;

    open spec fn view(&self) -> FolderColorTargetConfig {
        *self
    }
}

/// Configuration for the color dot: a small colored badge drawn in the
/// bottom-right corner of the icon.
#[derive(Debug, Clone, Copy, PartialEq, Eq, Structural)]
pub struct ColorDotConfig {
    /// Red channel.
    pub r: u8,
    /// Green channel.
    pub g: u8,
    /// Blue channel.
    pub b: u8,
}

impl ColorDotConfig {
    /// Creates a new color-dot config from RGB values.
    pub fn new(r: u8, g: u8, b: u8) -> (c: Self)
        ensures
            c == (ColorDotConfig { r, g, b }),
    {
        ColorDotConfig { r, g, b }
    }
}

impl View for ColorDotConfig {
    type V = ColorDotConfig;

    open spec fn view(&self) -> ColorDotConfig {
        *self
    }
}

/// The dominant color of the image, passed from a recoloring layer to layers
/// that derive their colors from it (such as the decal).
#[derive(Debug, Clone, Copy, PartialEq, Eq, Structural)]
pub struct DominantColor {
    pub r: u8,
    pub g: u8,
    pub b: u8,
    pub a: u8,
}

impl DominantColor {
    pub fn new(r: u8, g: u8, b: u8, a: u8) -> (c: Self)
        ensures
            c == (DominantColor { r, g, b, a }),
    {
        DominantColor { r, g, b, a }
    }

    pub fn as_tuple(&self) -> (t: (u8, u8, u8, u8))
        ensures
            t == (self.r, self.g, self.b, self.a),
    {
        (self.r, self.g, self.b, self.a)
    }
}

/// A named folder color preset.
#[derive(Debug, Clone, Copy, PartialEq, Eq, Structural)]
pub enum FolderColor {
    Red,
}

/// The RGB value of a preset.
pub open spec fn preset_rgb(color: FolderColor) -> (u8, u8, u8) {
    match color {
        FolderColor::Red => (244, 67, 54),
    }
}

impl FolderColor {
    /// The preset's RGB value.
    pub fn rgb(&self) -> (t: (u8, u8, u8))
        ensures
            t == preset_rgb(*self),
    {
        match self {
            FolderColor::Red => (244, 67, 54),
        }
    }
}

/// Bridges a named preset to the color layer configurations.
pub trait FolderColorExt {
    /// The preset's RGB value.
    spec fn preset(&self) -> (u8, u8, u8);

    /// A recolor config targeting this preset's RGB value.
    fn to_solid_color_config(&self) -> (c: FolderColorTargetConfig)
        ensures
            c == (FolderColorTargetConfig {
                target_r: self.preset().0,
                target_g: self.preset().1,
                target_b: self.preset().2,
            }),
    ;

    /// A color-dot config in this preset's RGB value.
    fn to_color_dot_config(&self) -> (c: ColorDotConfig)
        ensures
            c == (ColorDotConfig { r: self.preset().0, g: self.preset().1, b: self.preset().2 }),
    ;
}

impl FolderColorExt for FolderColor {
    open spec fn preset(&self) -> (u8, u8, u8) {
        preset_rgb(*self)
    }

    fn to_solid_color_config(&self) -> (c: FolderColorTargetConfig) {
        let (r, g, b) = self.rgb();
        FolderColorTargetConfig::new(r, g, b)
    }

    fn to_color_dot_config(&self) -> (c: ColorDotConfig) {
        let (r, g, b) = self.rgb();
        ColorDotConfig::new(r, g, b)
    }
}


impl LayerConfig for FolderColorTargetConfig {
    open spec fn renders_differently(a: FolderColorTargetConfig, b: FolderColorTargetConfig) -> bool {
        a.target_r != b.target_r || a.target_g != b.target_g || a.target_b != b.target_b
    }

    proof fn lemma_same_renders_same(a: FolderColorTargetConfig) {
    }

    fn differs_from(&self, other: &Self) -> (r: bool) {
        self.target_r != other.target_r || self.target_g != other.target_g || self.target_b
            != other.target_b
    }

    fn duplicate(&self) -> (r: Self) {
        *self
    }
}

impl LayerConfig for ColorDotConfig {
    open spec fn renders_differently(a: ColorDotConfig, b: ColorDotConfig) -> bool {
        a != b
    }

    proof fn lemma_same_renders_same(a: ColorDotConfig) {
    }

    fn differs_from(&self, other: &Self) -> (r: bool) {
        !(self.r == other.r && self.g == other.g && self.b == other.b)
    }

    fn duplicate(&self) -> (r: Self) {
        *self
    }
}

} // verus!
