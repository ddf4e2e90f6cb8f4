//! Customization profiles: the layer configurations a user asked for, as
//! plain data that can be stored, exchanged and applied to a customizer.

use vstd::prelude::*;
use crate::color::{ColorDotConfig, FolderColorTargetConfig};
use crate::decal::{DecalConfig, DecalConfigView};
use crate::layer::{LayerConfig, config_changes, config_model};
use crate::overlay::{ImageOverlayConfig, OverlayConfigView};

verus! {

/// The kinds of layer a profile can carry, in pipeline order.
#[derive(Debug, Clone, Copy, PartialEq, Eq, Hash, Structural)]
pub enum LayerKind {
    /// Recolors the whole icon against its surface color.
    SolidColor,
    /// A colored badge in the bottom-right corner.
    ColorDot,
    /// A tinted glyph imprinted into the icon's face.
    Decal,
    /// An image composited on top of the icon.
    Overlay,
}

/// Every layer, in pipeline order.
pub open spec fn all_layers() -> Seq<LayerKind> {
    seq![LayerKind::SolidColor, LayerKind::ColorDot, LayerKind::Decal, LayerKind::Overlay]
}

/// The name of a layer, for messages.
pub open spec fn layer_name(layer: LayerKind) -> Seq<char> {
    match layer {
        LayerKind::SolidColor => "solid color"@,
        LayerKind::ColorDot => "color dot"@,
        LayerKind::Decal => "decal"@,
        LayerKind::Overlay => "overlay"@,
    }
}

impl LayerKind {
    /// Every layer, in pipeline order.
    pub fn all() -> (r: [LayerKind; 4])
        ensures
            r@ == all_layers(),
    {
        [LayerKind::SolidColor, LayerKind::ColorDot, LayerKind::Decal, LayerKind::Overlay]
    }

    /// The layer's name, for messages.
    pub fn name(&self) -> (r: &'static str)
        ensures
            r@ == layer_name(*self),
    {
        match self {
            LayerKind::SolidColor => "solid color",
            LayerKind::ColorDot => "color dot",
            LayerKind::Decal => "decal",
            LayerKind::Overlay => "overlay",
        }
    }
}

/// The model of a profile: the model of each configured layer.
pub struct ProfileView {
    pub folder_color_target: Option<FolderColorTargetConfig>,
    pub color_dot: Option<ColorDotConfig>,
    pub decal: Option<DecalConfigView>,
    pub overlay: Option<OverlayConfigView>,
}

/// Whether a profile model configures `layer`.
pub open spec fn profile_carries(p: ProfileView, layer: LayerKind) -> bool {
    match layer {
        LayerKind::SolidColor => p.folder_color_target is Some,
        LayerKind::ColorDot => p.color_dot is Some,
        LayerKind::Decal => p.decal is Some,
        LayerKind::Overlay => p.overlay is Some,
    }
}

/// The profile model that configures nothing.
pub open spec fn empty_profile() -> ProfileView {
    ProfileView { folder_color_target: None, color_dot: None, decal: None, overlay: None }
}

/// A copy of an optional configuration.
pub fn duplicate_config<C: LayerConfig>(config: &Option<C>) -> (r: Option<C>)
    ensures
        config_model(r) == config_model(*config),
{
    match config {
        Some(c) => Some(c.duplicate()),
        None => None,
    }
}

/// The layer configurations of a customization. `Some` means the layer is
/// configured; `None` means it is absent.
#[derive(Debug)]
pub struct CustomizationProfile {
    /// Recolor target. `None` means not configured.
    pub folder_color_target: Option<FolderColorTargetConfig>,
    /// Color dot. `None` means not configured.
    pub color_dot: Option<ColorDotConfig>,
    /// Decal imprint. `None` means not configured.
    pub decal: Option<DecalConfig>,
    /// Image overlay. `None` means not configured.
    pub overlay: Option<ImageOverlayConfig>,
}

impl View for CustomizationProfile {
    type V = ProfileView;

    open spec fn view(&self) -> ProfileView {
        ProfileView {
            folder_color_target: self.folder_color_target,
            color_dot: self.color_dot,
            decal: config_model(self.decal),
            overlay: config_model(self.overlay),
        }
    }
}

impl CustomizationProfile {
    /// Creates an empty profile with no layers configured.
    pub fn new() -> (p: Self)
        ensures
            p@ == empty_profile(),
    {
        CustomizationProfile { folder_color_target: None, color_dot: None, decal: None, overlay: None }
    }

    /// Sets the recolor target.
    pub fn with_folder_color_target(self, config: FolderColorTargetConfig) -> (p: Self)
        ensures
            p@ == (ProfileView { folder_color_target: Some(config), ..self@ }),
    {
        CustomizationProfile { folder_color_target: Some(config), ..self }
    }

    /// Sets the color dot.
    pub fn with_color_dot(self, config: ColorDotConfig) -> (p: Self)
        ensures
            p@ == (ProfileView { color_dot: Some(config), ..self@ }),
    {
        CustomizationProfile { color_dot: Some(config), ..self }
    }

    /// Sets the decal.
    pub fn with_decal(self, config: DecalConfig) -> (p: Self)
        ensures
            p@ == (ProfileView { decal: Some(config@), ..self@ }),
    {
        CustomizationProfile { decal: Some(config), ..self }
    }

    /// Sets the overlay.
    pub fn with_overlay(self, config: ImageOverlayConfig) -> (p: Self)
        ensures
            p@ == (ProfileView { overlay: Some(config@), ..self@ }),
    {
        CustomizationProfile { overlay: Some(config), ..self }
    }

    /// Whether the profile configures `layer`.
    pub fn carries(&self, layer: LayerKind) -> (r: bool)
        ensures
            r == profile_carries(self@, layer),
    {
        match layer {
            LayerKind::SolidColor => self.folder_color_target.is_some(),
            LayerKind::ColorDot => self.color_dot.is_some(),
            LayerKind::Decal => self.decal.is_some(),
            LayerKind::Overlay => self.overlay.is_some(),
        }
    }

    /// A copy of this profile.
    pub fn duplicate(&self) -> (r: Self)
        ensures
            r@ == self@,
    {
        CustomizationProfile {
            folder_color_target: self.folder_color_target,
            color_dot: self.color_dot,
            decal: duplicate_config(&self.decal),
            overlay: duplicate_config(&self.overlay),
        }
    }
}

/// A profile for customizing a user-supplied image: only the overlay
/// applies, since such an image has no known surface color.
#[derive(Debug)]
pub struct CustomIconProfile {
    /// Image overlay. `None` means not configured.
    pub overlay: Option<ImageOverlayConfig>,
}

impl CustomIconProfile {
    /// Creates an empty profile with no overlay configured.
    pub fn new() -> (p: Self)
        ensures
            p.overlay is None,
    {
        CustomIconProfile { overlay: None }
    }

    /// Sets the overlay.
    pub fn with_overlay(self, config: ImageOverlayConfig) -> (p: Self)
        ensures
            config_model(p.overlay) == Some(config@),
    {
        CustomIconProfile { overlay: Some(config) }
    }

    /// The full profile that configures this profile's overlay and nothing
    /// else.
    pub fn into_profile(self) -> (p: CustomizationProfile)
        ensures
            p@ == (ProfileView { overlay: config_model(self.overlay), ..empty_profile() }),
    {
        CustomizationProfile {
            folder_color_target: None,
            color_dot: None,
            decal: None,
            overlay: self.overlay,
        }
    }
}

/// Whether two profile models configure the same layers and would render
/// alike: each layer is absent from both, or present in both with
/// configurations that do not render differently.
pub open spec fn profiles_alike(a: ProfileView, b: ProfileView) -> bool {
    &&& !config_changes::<FolderColorTargetConfig>(a.folder_color_target, b.folder_color_target)
    &&& !config_changes::<ColorDotConfig>(a.color_dot, b.color_dot)
    &&& !config_changes::<DecalConfig>(a.decal, b.decal)
    &&& !config_changes::<ImageOverlayConfig>(a.overlay, b.overlay)
}

/// Alike profiles carry the same layers.
pub proof fn lemma_alike_profiles_carry_same_layers(a: ProfileView, b: ProfileView, layer: LayerKind)
    requires
        profiles_alike(a, b),
    ensures
        profile_carries(a, layer) == profile_carries(b, layer),
{
}

} // verus!
