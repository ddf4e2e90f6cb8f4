//! Customizers: a base icon, an ordered set of layers, and the cache of
//! final composited images, for raster folder icons, user-supplied images
//! and scalable folder icons.
//!
//! A customizer applies a profile by configuring its layers, keeping only
//! what its base can realize, and exports its layers back into a profile.
//! Raster pixel work happens outside; the customizer decides what is
//! rendered, what is reused from the caches, and what is stored.

use vstd::prelude::*;
use crate::capabilities::{IconBaseKind, IconCapabilities, allows, capabilities_of, filtered_profile, lemma_filter_keeps_allowed};
use crate::color::{ColorDotConfig, DominantColor, FolderColorTargetConfig};
use crate::decal::DecalConfig;
use crate::dot::dot_fragment;
use crate::error::RenderError;
use crate::geometry::SurfaceColor;
use crate::icon::{FolderIconBase, IconBase, IconImage, IconSet, SvgFolderIconBase};
use crate::layer::{
    CacheKey, CachedOutput, CompositeLayer, DependencyVersion, Layer, LayerStep, LayerVersions,
    config_changes, config_model, dependency, dependency_of, lemma_steps_change_combined, next_version,
    step_is, stepped_versions, u64_range, wrapping_sum,
};
use crate::medium::{SvgCanvas, canvas_output};
use crate::overlay::ImageOverlayConfig;
use crate::profile::{
    CustomizationProfile, LayerKind, ProfileView, duplicate_config, empty_profile,
    lemma_alike_profiles_carry_same_layers, profile_carries, profiles_alike,
};
use crate::svg_layer::{SvgLayer, overlay_element, source_resolves};

verus! {

/// An ordered set of raster layers.
pub trait LayerSet {
    /// The layers' versions, in pipeline order.
    spec fn versions(&self) -> Seq<u64>;

    /// The configurations the layers hold, as a profile.
    spec fn configured(&self) -> ProfileView;

    /// Whether every layer's cache is empty.
    spec fn caches_empty(&self) -> bool;

    /// The combined version of all layers: the wrapping sum of their
    /// versions. The composite cache uses it to notice any layer change.
    fn combined_version(&self) -> (r: DependencyVersion)
        ensures
            r.0 == wrapping_sum(self.versions()),
    ;

    /// Invalidates every layer: each version moves and each cache empties;
    /// the configurations stay.
    fn invalidate_all(&mut self)
        ensures
            final(self).versions() == old(self).versions().map_values(|v: u64| next_version(v)),
            final(self).caches_empty(),
            final(self).configured() == old(self).configured(),
    ;
}

/// The generic customization engine over a layer set `L`.
pub struct IconCustomizer<L: LayerSet> {
    base: IconBase,
    /// The layers; configure them directly.
    pub layers: L,
    composite: CompositeLayer,
}

impl<L: LayerSet> IconCustomizer<L> {
    /// The base icons and associated metadata.
    pub closed spec fn base_spec(&self) -> IconBase {
        self.base
    }

    /// The layer set.
    pub closed spec fn layers_spec(&self) -> L {
        self.layers
    }

    /// The composited image and combined version stored for `key`, if any.
    pub closed spec fn composite_spec(&self, key: CacheKey) -> Option<(IconImage, u64)> {
        self.composite.cached_spec(key)
    }

    /// Creates a customizer with the given base and layers and an empty
    /// composite cache.
    pub fn new(base: IconBase, layers: L) -> (r: Self)
        ensures
            r.base_spec() == base,
            r.layers_spec() == layers,
            forall|k: CacheKey| r.composite_spec(k) is None,
    {
        IconCustomizer { base, layers, composite: CompositeLayer::new() }
    }

    /// Returns the icon base.
    pub fn base(&self) -> (r: &IconBase)
        ensures
            *r == self.base_spec(),
    {
        &self.base
    }

    /// Returns the base icon set.
    pub fn base_icons(&self) -> (r: &IconSet)
        ensures
            *r == self.base_spec().icon_set(),
    {
        self.base.icons()
    }

    /// Returns the surface color, if this is a folder-based customizer.
    pub fn surface_color(&self) -> (r: Option<&SurfaceColor>)
        ensures
            match self.base_spec() {
                IconBase::Folder(b) => r == Some(&b.surface_color),
                IconBase::Custom(_) => r is None,
            },
    {
        self.base.surface_color()
    }

    /// The base image to render for a logical size: the one at the smallest
    /// distance from it (the first of equals), where `distances` holds each
    /// base image's distance in order. Fails when the base has no image.
    pub fn select_base(&self, distances: &[u32], logical_size: u32) -> (r: Result<&IconImage, RenderError>)
        requires
            distances@.len() == self.base_spec().icon_set().images@.len(),
        ensures
            match r {
                Ok(img) => exists|i: int| {
                    &&& 0 <= i < distances@.len()
                    &&& *img == self.base_spec().icon_set().images@[i]
                    &&& forall|j: int| 0 <= j < distances@.len() ==> distances@[i] <= distances@[j]
                    &&& forall|j: int| 0 <= j < i ==> distances@[i] < distances@[j]
                },
                Err(e) => distances@.len() == 0 && e == RenderError::NoBaseIcon { logical_size },
            },
    {
        match crate::icon::closest_index(distances) {
            Some(i) => {
                let img = &self.base.icons().images[i];
                Ok(img)
            },
            None => Err(RenderError::NoBaseIcon { logical_size }),
        }
    }

    /// The finished image for `key`, when one was stored under the layers'
    /// current combined version.
    pub fn cached_render(&self, key: CacheKey) -> (r: Option<&IconImage>)
        ensures
            match r {
                Some(img) => self.composite_spec(key) == Some(
                    (*img, wrapping_sum(self.layers_spec().versions())),
                ),
                None => !(self.composite_spec(key) matches Some((_, v)) && v == wrapping_sum(
                    self.layers_spec().versions(),
                )),
            },
    {
        let deps = self.layers.combined_version();
        self.composite.get_cached(key, deps)
    }

    /// Stores a finished image for `key` under the layers' current combined
    /// version.
    pub fn store_render(&mut self, key: CacheKey, image: IconImage)
        ensures
            final(self).layers_spec() == old(self).layers_spec(),
            final(self).base_spec() == old(self).base_spec(),
            final(self).composite_spec(key) == Some((image, wrapping_sum(old(self).layers_spec().versions()))),
            forall|k: CacheKey| k != key ==> final(self).composite_spec(k) == old(self).composite_spec(k),
    {
        let deps = self.layers.combined_version();
        self.composite.store(key, image, deps);
    }

    /// Clears every layer cache and the composite cache.
    pub fn clear_cache(&mut self)
        ensures
            final(self).base_spec() == old(self).base_spec(),
            final(self).layers_spec().versions() == old(self).layers_spec().versions().map_values(
                |v: u64| next_version(v),
            ),
            final(self).layers_spec().caches_empty(),
            final(self).layers_spec().configured() == old(self).layers_spec().configured(),
            forall|k: CacheKey| final(self).composite_spec(k) is None,
    {
        self.layers.invalidate_all();
        self.composite.invalidate();
    }
}

/// A stored finished image is handed back for its size as long as no layer
/// changed in between.
pub proof fn lemma_render_cache_read_after_write<L: LayerSet>(
    before: IconCustomizer<L>,
    after: IconCustomizer<L>,
    key: CacheKey,
    image: IconImage,
)
    requires
        after.composite_spec(key) == Some((image, wrapping_sum(before.layers_spec().versions()))),
        after.layers_spec().versions() == before.layers_spec().versions(),
    ensures
        after.composite_spec(key) matches Some((img, v)) && img == image && v == wrapping_sum(
            after.layers_spec().versions(),
        ),
{
}

/// Once any one layer's version moves, a finished image stored before is
/// no longer handed back.
pub proof fn lemma_layer_change_invalidates_render<L: LayerSet>(
    before: IconCustomizer<L>,
    after: IconCustomizer<L>,
    key: CacheKey,
    i: int,
)
    requires
        0 <= i < before.layers_spec().versions().len(),
        after.layers_spec().versions() == before.layers_spec().versions().update(
            i,
            next_version(before.layers_spec().versions()[i]),
        ),
        after.composite_spec(key) == before.composite_spec(key),
        before.composite_spec(key) matches Some((_, v)) && v == wrapping_sum(before.layers_spec().versions()),
    ensures
        !(after.composite_spec(key) matches Some((_, v)) && v == wrapping_sum(after.layers_spec().versions())),
{
    crate::layer::lemma_version_step_changes_combined(before.layers_spec().versions(), i);
}

/// Once a profile is applied that changes any layer's configuration, a
/// finished image stored before is no longer handed back: every changed
/// layer moves its version, and so the combined version moves.
pub proof fn lemma_profile_change_invalidates_render<L: LayerSet>(
    before: IconCustomizer<L>,
    after: IconCustomizer<L>,
    key: CacheKey,
    changed: Seq<bool>,
    i: int,
)
    requires
        changed.len() == before.layers_spec().versions().len(),
        before.layers_spec().versions().len() < u64_range(),
        0 <= i < changed.len(),
        changed[i],
        after.layers_spec().versions() == stepped_versions(before.layers_spec().versions(), changed),
        after.composite_spec(key) == before.composite_spec(key),
        before.composite_spec(key) matches Some((_, v)) && v == wrapping_sum(before.layers_spec().versions()),
    ensures
        !(after.composite_spec(key) matches Some((_, v)) && v == wrapping_sum(after.layers_spec().versions())),
{
    lemma_steps_change_combined(before.layers_spec().versions(), changed, i);
}

// ----------------------------------------------------------------------------
// Raster folder icons
// ----------------------------------------------------------------------------

/// The layers of a raster folder icon, in pipeline order.
pub struct FolderLayers {
    /// Recolors the icon toward a target color.
    pub folder_color_target: Layer<FolderColorTargetConfig>,
    /// Imprints a tinted glyph.
    pub decal: Layer<DecalConfig>,
    /// Draws a colored dot in the bottom-right corner.
    pub color_dot: Layer<ColorDotConfig>,
    /// Composites an image on top.
    pub overlay: Layer<ImageOverlayConfig>,
}

impl FolderLayers {
    /// Fresh layers: none configured, every one enabled, all at version 0,
    /// with nothing cached.
    pub fn new() -> (r: Self)
        ensures
            r.configured() == empty_profile(),
            r.folder_color_target.enabled_spec(),
            r.decal.enabled_spec(),
            r.color_dot.enabled_spec(),
            r.overlay.enabled_spec(),
            r.versions() == seq![0u64, 0u64, 0u64, 0u64],
            r.caches_empty(),
    {
        FolderLayers {
            folder_color_target: Layer::new(),
            decal: Layer::new(),
            color_dot: Layer::new(),
            overlay: Layer::new(),
        }
    }

    /// The current version of every layer.
    pub fn layer_versions(&self) -> (r: LayerVersions)
        ensures
            r == (LayerVersions {
                folder_color_target: self.folder_color_target.version_spec(),
                color_dot: self.color_dot.version_spec(),
                decal: self.decal.version_spec(),
                overlay: self.overlay.version_spec(),
            }),
    {
        LayerVersions {
            folder_color_target: self.folder_color_target.version(),
            color_dot: self.color_dot.version(),
            decal: self.decal.version(),
            overlay: self.overlay.version(),
        }
    }
}

impl FolderLayers {
    /// Which layers, in pipeline order, a profile would change: those whose
    /// configuration it replaces by one that renders differently.
    pub open spec fn changes_for(&self, p: ProfileView) -> Seq<bool> {
        seq![
            config_changes::<FolderColorTargetConfig>(self.folder_color_target.config_spec(), p.folder_color_target),
            config_changes::<ColorDotConfig>(self.color_dot.config_spec(), p.color_dot),
            config_changes::<DecalConfig>(self.decal.config_spec(), p.decal),
            config_changes::<ImageOverlayConfig>(self.overlay.config_spec(), p.overlay),
        ]
    }

    /// The order in which the layers run: recolor, decal, color dot,
    /// overlay. Each later layer draws over what the earlier ones left.
    pub fn execution_order() -> (r: [LayerKind; 4])
        ensures
            r@ == seq![LayerKind::SolidColor, LayerKind::Decal, LayerKind::ColorDot, LayerKind::Overlay],
    {
        [LayerKind::SolidColor, LayerKind::Decal, LayerKind::ColorDot, LayerKind::Overlay]
    }

    /// The current versions of all layers.
    pub open spec fn versions_spec(&self) -> LayerVersions {
        LayerVersions {
            folder_color_target: self.folder_color_target.version_spec(),
            color_dot: self.color_dot.version_spec(),
            decal: self.decal.version_spec(),
            overlay: self.overlay.version_spec(),
        }
    }

    /// What `layer` does for `key`, under the dependency version it caches
    /// by: the recolor produces whole images, the others tiles.
    pub fn step(&self, layer: LayerKind, key: CacheKey) -> (r: LayerStep)
        ensures
            match layer {
                LayerKind::SolidColor => step_is(r, self.folder_color_target, key, dependency_of(layer, self.versions_spec()), true),
                LayerKind::Decal => step_is(r, self.decal, key, dependency_of(layer, self.versions_spec()), false),
                LayerKind::ColorDot => step_is(r, self.color_dot, key, dependency_of(layer, self.versions_spec()), false),
                LayerKind::Overlay => step_is(r, self.overlay, key, dependency_of(layer, self.versions_spec()), false),
            },
    {
        let versions = self.layer_versions();
        let deps = dependency(layer, &versions);
        match layer {
            LayerKind::SolidColor => self.folder_color_target.step(key, deps, true),
            LayerKind::Decal => self.decal.step(key, deps, false),
            LayerKind::ColorDot => self.color_dot.step(key, deps, false),
            LayerKind::Overlay => self.overlay.step(key, deps, false),
        }
    }

    /// Records what `layer` rendered for `key`, under the dependency version
    /// it caches by; nothing else changes.
    pub fn record(&mut self, layer: LayerKind, key: CacheKey, output: CachedOutput)
        ensures
            final(self).versions() == old(self).versions(),
            final(self).configured() == old(self).configured(),
            layer == LayerKind::SolidColor ==> final(self).folder_color_target.cached_spec(key) == Some(
                (output, dependency_of(layer, old(self).versions_spec())),
            ),
            layer == LayerKind::Decal ==> final(self).decal.cached_spec(key) == Some(
                (output, dependency_of(layer, old(self).versions_spec())),
            ),
            layer == LayerKind::ColorDot ==> final(self).color_dot.cached_spec(key) == Some(
                (output, dependency_of(layer, old(self).versions_spec())),
            ),
            layer == LayerKind::Overlay ==> final(self).overlay.cached_spec(key) == Some(
                (output, dependency_of(layer, old(self).versions_spec())),
            ),
            layer != LayerKind::SolidColor ==> final(self).folder_color_target == old(self).folder_color_target,
            layer != LayerKind::Decal ==> final(self).decal == old(self).decal,
            layer != LayerKind::ColorDot ==> final(self).color_dot == old(self).color_dot,
            layer != LayerKind::Overlay ==> final(self).overlay == old(self).overlay,
            forall|k: CacheKey| k != key ==> {
                &&& final(self).folder_color_target.cached_spec(k) == old(self).folder_color_target.cached_spec(k)
                &&& final(self).decal.cached_spec(k) == old(self).decal.cached_spec(k)
                &&& final(self).color_dot.cached_spec(k) == old(self).color_dot.cached_spec(k)
                &&& final(self).overlay.cached_spec(k) == old(self).overlay.cached_spec(k)
            },
    {
        let versions = self.layer_versions();
        let deps = dependency(layer, &versions);
        match layer {
            LayerKind::SolidColor => self.folder_color_target.store(key, output, deps),
            LayerKind::Decal => self.decal.store(key, output, deps),
            LayerKind::ColorDot => self.color_dot.store(key, output, deps),
            LayerKind::Overlay => self.overlay.store(key, output, deps),
        }
    }

    /// The dominant color the recolor layer passes downstream: its target,
    /// opaque, while it is active; none otherwise.
    pub fn dominant_color(&self) -> (r: Option<DominantColor>)
        ensures
            r == if self.folder_color_target.active_spec() {
                Some(
                    DominantColor {
                        r: self.folder_color_target.config_spec()->0.target_r,
                        g: self.folder_color_target.config_spec()->0.target_g,
                        b: self.folder_color_target.config_spec()->0.target_b,
                        a: 255,
                    },
                )
            } else {
                None
            },
    {
        if !self.folder_color_target.is_active() {
            return None;
        }
        match self.folder_color_target.config() {
            Some(c) => Some(c.dominant_color()),
            None => None,
        }
    }
}

impl LayerSet for FolderLayers {
    open spec fn versions(&self) -> Seq<u64> {
        seq![
            self.folder_color_target.version_spec(),
            self.color_dot.version_spec(),
            self.decal.version_spec(),
            self.overlay.version_spec(),
        ]
    }

    open spec fn configured(&self) -> ProfileView {
        ProfileView {
            folder_color_target: self.folder_color_target.config_spec(),
            color_dot: self.color_dot.config_spec(),
            decal: self.decal.config_spec(),
            overlay: self.overlay.config_spec(),
        }
    }

    open spec fn caches_empty(&self) -> bool {
        &&& forall|k: CacheKey| self.folder_color_target.cached_spec(k) is None
        &&& forall|k: CacheKey| self.decal.cached_spec(k) is None
        &&& forall|k: CacheKey| self.color_dot.cached_spec(k) is None
        &&& forall|k: CacheKey| self.overlay.cached_spec(k) is None
    }

    fn combined_version(&self) -> (r: DependencyVersion) {
        let versions = [
            self.folder_color_target.version(),
            self.color_dot.version(),
            self.decal.version(),
            self.overlay.version(),
        ];
        assert(versions@ == self.versions());
        DependencyVersion::combine(&versions)
    }

    fn invalidate_all(&mut self) {
        self.folder_color_target.invalidate();
        self.color_dot.invalidate();
        self.decal.invalidate();
        self.overlay.invalidate();
        assert(self.versions() =~= old(self).versions().map_values(|v: u64| next_version(v)));
    }
}

/// The customizer for raster system folder icons.
pub type FolderIconCustomizer = IconCustomizer<FolderLayers>;

impl IconCustomizer<FolderLayers> {
    /// Creates a customizer for a folder icon base, with no layer
    /// configured.
    pub fn from_folder(base: FolderIconBase) -> (r: Self)
        ensures
            r.base_spec() == IconBase::Folder(base),
            r.layers_spec().configured() == empty_profile(),
            forall|k: CacheKey| r.composite_spec(k) is None,
    {
        IconCustomizer::new(IconBase::Folder(base), FolderLayers::new())
    }

    /// What this customizer resolves to: a raster folder icon.
    pub fn base_kind() -> (r: IconBaseKind)
        ensures
            r == IconBaseKind::RasterFolder,
    {
        IconBaseKind::RasterFolder
    }

    /// The layers a raster folder icon can realize: all of them.
    pub fn capabilities() -> (r: IconCapabilities)
        ensures
            r == capabilities_of(IconBaseKind::RasterFolder),
    {
        Self::base_kind().capabilities()
    }

    /// Configures every layer from the profile: a layer the profile does
    /// not carry is cleared.
    pub fn apply_profile(&mut self, profile: &CustomizationProfile)
        ensures
            profiles_alike(
                final(self).layers_spec().configured(),
                filtered_profile(capabilities_of(IconBaseKind::RasterFolder), profile@),
            ),
            final(self).layers_spec().configured().folder_color_target == profile@.folder_color_target,
            final(self).layers_spec().configured().color_dot == profile@.color_dot,
            final(self).layers_spec().versions() == stepped_versions(
                old(self).layers_spec().versions(),
                old(self).layers_spec().changes_for(profile@),
            ),
            final(self).base_spec() == old(self).base_spec(),
            forall|k: CacheKey| final(self).composite_spec(k) == old(self).composite_spec(k),
    {
        self.layers.folder_color_target.set_config(profile.folder_color_target);
        self.layers.color_dot.set_config(profile.color_dot);
        self.layers.decal.set_config(duplicate_config(&profile.decal));
        self.layers.overlay.set_config(duplicate_config(&profile.overlay));
        assert(self.layers_spec().versions() =~= stepped_versions(
            old(self).layers_spec().versions(),
            old(self).layers_spec().changes_for(profile@),
        ));
    }

    /// The current layer configurations, as a profile.
    pub fn export_profile(&self) -> (r: CustomizationProfile)
        ensures
            r@ == self.layers_spec().configured(),
    {
        CustomizationProfile {
            folder_color_target: copy_config(self.layers.folder_color_target.config()),
            color_dot: copy_config(self.layers.color_dot.config()),
            decal: clone_config(self.layers.decal.config()),
            overlay: clone_config(self.layers.overlay.config()),
        }
    }
}

/// An owned copy of an optional configuration reference.
fn clone_config<C: crate::layer::LayerConfig>(config: Option<&C>) -> (r: Option<C>)
    ensures
        config_model(r) == match config {
            Some(c) => Some(c@),
            None => None::<C::V>,
        },
{
    match config {
        Some(c) => Some(c.duplicate()),
        None => None,
    }
}

/// A copy of an optional reference to a plain configuration.
fn copy_config<C: Copy>(config: Option<&C>) -> (r: Option<C>)
    ensures
        r == match config {
            Some(c) => Some(*c),
            None => None::<C>,
        },
{
    match config {
        Some(c) => Some(*c),
        None => None,
    }
}

// ----------------------------------------------------------------------------
// User-supplied images
// ----------------------------------------------------------------------------

/// The layers of a user-supplied image: only those that draw on top.
pub struct CustomLayers {
    /// Draws a colored dot in the bottom-right corner.
    pub color_dot: Layer<ColorDotConfig>,
    /// Composites an image on top.
    pub overlay: Layer<ImageOverlayConfig>,
}

impl CustomLayers {
    /// Fresh layers: none configured.
    pub fn new() -> (r: Self)
        ensures
            r.configured() == empty_profile(),
            r.versions() == seq![0u64, 0u64],
            r.caches_empty(),
    {
        CustomLayers { color_dot: Layer::new(), overlay: Layer::new() }
    }

    /// The current layer versions; the layers this set lacks are at 0.
    pub fn layer_versions(&self) -> (r: LayerVersions)
        ensures
            r == (LayerVersions {
                folder_color_target: 0,
                color_dot: self.color_dot.version_spec(),
                decal: 0,
                overlay: self.overlay.version_spec(),
            }),
    {
        LayerVersions {
            folder_color_target: 0,
            color_dot: self.color_dot.version(),
            decal: 0,
            overlay: self.overlay.version(),
        }
    }
}

impl CustomLayers {
    /// Which layers, in pipeline order, a profile would change: those whose
    /// configuration it replaces by one that renders differently.
    pub open spec fn changes_for(&self, p: ProfileView) -> Seq<bool> {
        seq![
            config_changes::<ColorDotConfig>(self.color_dot.config_spec(), p.color_dot),
            config_changes::<ImageOverlayConfig>(self.overlay.config_spec(), p.overlay),
        ]
    }

    /// The order in which the layers run: color dot, then overlay.
    pub fn execution_order() -> (r: [LayerKind; 2])
        ensures
            r@ == seq![LayerKind::ColorDot, LayerKind::Overlay],
    {
        [LayerKind::ColorDot, LayerKind::Overlay]
    }

    /// What `layer` does for `key`; layers this set lacks are skipped.
    pub fn step(&self, layer: LayerKind, key: CacheKey) -> (r: LayerStep)
        ensures
            match layer {
                LayerKind::ColorDot => step_is(r, self.color_dot, key, 0, false),
                LayerKind::Overlay => step_is(r, self.overlay, key, 0, false),
                _ => r is Skip,
            },
    {
        let deps = DependencyVersion::none();
        match layer {
            LayerKind::ColorDot => self.color_dot.step(key, deps, false),
            LayerKind::Overlay => self.overlay.step(key, deps, false),
            _ => LayerStep::Skip,
        }
    }

    /// Records what `layer` rendered for `key`; layers this set lacks
    /// record nothing.
    pub fn record(&mut self, layer: LayerKind, key: CacheKey, output: CachedOutput)
        ensures
            final(self).versions() == old(self).versions(),
            final(self).configured() == old(self).configured(),
            layer == LayerKind::ColorDot ==> final(self).color_dot.cached_spec(key) == Some((output, 0u64)),
            layer == LayerKind::Overlay ==> final(self).overlay.cached_spec(key) == Some((output, 0u64)),
            layer != LayerKind::ColorDot ==> final(self).color_dot == old(self).color_dot,
            layer != LayerKind::Overlay ==> final(self).overlay == old(self).overlay,
            forall|k: CacheKey| k != key ==> {
                &&& final(self).color_dot.cached_spec(k) == old(self).color_dot.cached_spec(k)
                &&& final(self).overlay.cached_spec(k) == old(self).overlay.cached_spec(k)
            },
    {
        let deps = DependencyVersion::none();
        match layer {
            LayerKind::ColorDot => self.color_dot.store(key, output, deps),
            LayerKind::Overlay => self.overlay.store(key, output, deps),
            _ => {},
        }
    }
}

impl LayerSet for CustomLayers {
    open spec fn versions(&self) -> Seq<u64> {
        seq![self.color_dot.version_spec(), self.overlay.version_spec()]
    }

    open spec fn configured(&self) -> ProfileView {
        ProfileView {
            folder_color_target: None,
            color_dot: self.color_dot.config_spec(),
            decal: None,
            overlay: self.overlay.config_spec(),
        }
    }

    open spec fn caches_empty(&self) -> bool {
        &&& forall|k: CacheKey| self.color_dot.cached_spec(k) is None
        &&& forall|k: CacheKey| self.overlay.cached_spec(k) is None
    }

    fn combined_version(&self) -> (r: DependencyVersion) {
        let versions = [self.color_dot.version(), self.overlay.version()];
        assert(versions@ == self.versions());
        DependencyVersion::combine(&versions)
    }

    fn invalidate_all(&mut self) {
        self.color_dot.invalidate();
        self.overlay.invalidate();
        assert(self.versions() =~= old(self).versions().map_values(|v: u64| next_version(v)));
    }
}

/// The customizer for user-supplied images.
pub type CustomIconCustomizer = IconCustomizer<CustomLayers>;

impl IconCustomizer<CustomLayers> {
    /// Creates a customizer over an already rasterized icon set, with no
    /// layer configured.
    pub fn from_icon_set(icons: IconSet) -> (r: Self)
        ensures
            r.base_spec() == IconBase::Custom(icons),
            r.layers_spec().configured() == empty_profile(),
            forall|k: CacheKey| r.composite_spec(k) is None,
    {
        IconCustomizer::new(IconBase::Custom(icons), CustomLayers::new())
    }

    /// What this customizer resolves to: a user-supplied image.
    pub fn base_kind() -> (r: IconBaseKind)
        ensures
            r == IconBaseKind::CustomImage,
    {
        IconBaseKind::CustomImage
    }

    /// The layers a user-supplied image can realize.
    pub fn capabilities() -> (r: IconCapabilities)
        ensures
            r == capabilities_of(IconBaseKind::CustomImage),
    {
        Self::base_kind().capabilities()
    }

    /// Configures the layers from the profile, dropping the intents a custom
    /// image can't realize (recoloring and decals).
    pub fn apply_profile(&mut self, profile: &CustomizationProfile)
        ensures
            profiles_alike(
                final(self).layers_spec().configured(),
                filtered_profile(capabilities_of(IconBaseKind::CustomImage), profile@),
            ),
            final(self).layers_spec().configured().color_dot == profile@.color_dot,
            final(self).layers_spec().versions() == stepped_versions(
                old(self).layers_spec().versions(),
                old(self).layers_spec().changes_for(filtered_profile(capabilities_of(IconBaseKind::CustomImage), profile@)),
            ),
            final(self).base_spec() == old(self).base_spec(),
            forall|k: CacheKey| final(self).composite_spec(k) == old(self).composite_spec(k),
    {
        let caps = Self::capabilities();
        let kept = caps.filter(profile);
        self.layers.color_dot.set_config(kept.color_dot);
        self.layers.overlay.set_config(kept.overlay);
        assert(self.layers_spec().versions() =~= stepped_versions(
            old(self).layers_spec().versions(),
            old(self).layers_spec().changes_for(kept@),
        ));
    }

    /// The current layer configurations, as a profile.
    pub fn export_profile(&self) -> (r: CustomizationProfile)
        ensures
            r@ == self.layers_spec().configured(),
    {
        CustomizationProfile {
            folder_color_target: None,
            color_dot: copy_config(self.layers.color_dot.config()),
            decal: None,
            overlay: clone_config(self.layers.overlay.config()),
        }
    }
}

// ----------------------------------------------------------------------------
// Scalable folder icons
// ----------------------------------------------------------------------------

/// An ordered set of SVG layers that append fragments to a canvas.
pub trait SvgLayerSet {
    /// The layers' versions, in pipeline order.
    spec fn versions(&self) -> Seq<u64>;

    /// The configurations the layers hold, as a profile.
    spec fn configured(&self) -> ProfileView;

    /// Whether every active layer can render its fragment.
    spec fn renders(&self) -> bool;

    /// The fragments the active layers emit, in order.
    spec fn fragments(&self) -> Seq<Seq<char>>;

    /// Appends the active layers' fragments to the canvas, in order; fails,
    /// leaving the layers as they were, when a layer cannot render.
    fn execute(&mut self, canvas: &mut SvgCanvas) -> (r: Result<(), RenderError>)
        ensures
            final(self).versions() == old(self).versions(),
            final(self).configured() == old(self).configured(),
            final(self).renders() == old(self).renders(),
            final(self).fragments() == old(self).fragments(),
            r is Ok <==> old(self).renders(),
            final(canvas).base_text() == old(canvas).base_text(),
            r is Ok ==> final(canvas).fragments() == old(canvas).fragments() + old(self).fragments(),
    ;

    /// The combined version of all layers: the wrapping sum of their
    /// versions.
    fn combined_version(&self) -> (r: DependencyVersion)
        ensures
            r.0 == wrapping_sum(self.versions()),
    ;

    /// Moves every layer's version; the configurations stay.
    fn invalidate_all(&mut self)
        ensures
            final(self).versions() == old(self).versions().map_values(|v: u64| next_version(v)),
            final(self).configured() == old(self).configured(),
            final(self).renders() == old(self).renders(),
            final(self).fragments() == old(self).fragments(),
    ;
}

/// The SVG layers of a scalable folder icon: those that draw on top.
#[derive(Debug)]
pub struct SvgFolderLayers {
    /// Draws a colored dot in the bottom-right corner.
    pub color_dot: SvgLayer<ColorDotConfig>,
    /// Embeds an image on top.
    pub overlay: SvgLayer<ImageOverlayConfig>,
}

impl SvgFolderLayers {
    /// Which layers, in pipeline order, a profile would change: those whose
    /// configuration it replaces by one that renders differently.
    pub open spec fn changes_for(&self, p: ProfileView) -> Seq<bool> {
        seq![
            config_changes::<ColorDotConfig>(self.color_dot.config_spec(), p.color_dot),
            config_changes::<ImageOverlayConfig>(self.overlay.config_spec(), p.overlay),
        ]
    }

    /// Fresh layers: none configured, both enabled, both at version 0, so
    /// they emit nothing.
    pub fn new() -> (r: Self)
        ensures
            r.configured() == empty_profile(),
            r.color_dot.enabled_spec(),
            r.overlay.enabled_spec(),
            r.versions() == seq![0u64, 0u64],
            r.fragments() == Seq::<Seq<char>>::empty(),
    {
        let r = SvgFolderLayers { color_dot: SvgLayer::new(), overlay: SvgLayer::new() };
        assert(r.fragments() =~= Seq::<Seq<char>>::empty());
        r
    }
}

impl SvgLayerSet for SvgFolderLayers {
    open spec fn versions(&self) -> Seq<u64> {
        seq![self.color_dot.version_spec(), self.overlay.version_spec()]
    }

    open spec fn configured(&self) -> ProfileView {
        ProfileView {
            folder_color_target: None,
            color_dot: self.color_dot.config_spec(),
            decal: None,
            overlay: self.overlay.config_spec(),
        }
    }

    open spec fn renders(&self) -> bool {
        self.overlay.active_spec() ==> source_resolves(self.overlay.config_spec()->0.source)
    }

    open spec fn fragments(&self) -> Seq<Seq<char>> {
        let dot: Seq<Seq<char>> = if self.color_dot.active_spec() {
            seq![dot_fragment(self.color_dot.config_spec()->0)]
        } else {
            Seq::empty()
        };
        let overlay: Seq<Seq<char>> = if self.overlay.active_spec() {
            seq![overlay_element(self.overlay.config_spec()->0)]
        } else {
            Seq::empty()
        };
        dot + overlay
    }

    fn execute(&mut self, canvas: &mut SvgCanvas) -> (r: Result<(), RenderError>) {
        let ghost start = canvas.fragments();
        let dot = self.color_dot.render_fragment();
        let overlay = self.overlay.render_fragment();
        match overlay {
            Err(e) => Err(e),
            Ok(overlay) => {
                if let Some(fragment) = dot {
                    canvas.push_overlay(fragment.as_str());
                }
                if let Some(fragment) = overlay {
                    canvas.push_overlay(fragment.as_str());
                }
                assert(canvas.fragments() =~= start + self.fragments());
                Ok(())
            },
        }
    }

    fn combined_version(&self) -> (r: DependencyVersion) {
        let versions = [self.color_dot.version(), self.overlay.version()];
        assert(versions@ == self.versions());
        DependencyVersion::combine(&versions)
    }

    fn invalidate_all(&mut self) {
        self.color_dot.invalidate();
        self.overlay.invalidate();
        assert(self.versions() =~= old(self).versions().map_values(|v: u64| next_version(v)));
    }
}

/// The customizer for scalable system folder icons: it renders to one SVG
/// document, with the layers' fragments nested into the base markup.
pub struct SvgFolderIconCustomizer {
    base: SvgFolderIconBase,
    /// The layers; configure them directly.
    pub layers: SvgFolderLayers,
}

impl SvgFolderIconCustomizer {
    /// The base icon.
    pub closed spec fn base_spec(&self) -> SvgFolderIconBase {
        self.base
    }

    /// The layer set.
    pub closed spec fn layers_spec(&self) -> SvgFolderLayers {
        self.layers
    }

    /// Creates a customizer over a scalable folder icon, with no layer
    /// configured.
    pub fn from_folder(base: SvgFolderIconBase) -> (r: Self)
        ensures
            r.base_spec() == base,
            r.layers_spec().configured() == empty_profile(),
            r.layers_spec().fragments() == Seq::<Seq<char>>::empty(),
    {
        SvgFolderIconCustomizer { base, layers: SvgFolderLayers::new() }
    }

    /// Returns the base icon.
    pub fn base(&self) -> (r: &SvgFolderIconBase)
        ensures
            *r == self.base_spec(),
    {
        &self.base
    }

    /// Returns the surface color of the base icon.
    pub fn surface_color(&self) -> (r: &SurfaceColor)
        ensures
            *r == self.base_spec().surface_color,
    {
        &self.base.surface_color
    }

    /// What this customizer resolves to: a scalable folder icon.
    pub fn base_kind() -> (r: IconBaseKind)
        ensures
            r == IconBaseKind::VectorFolder,
    {
        IconBaseKind::VectorFolder
    }

    /// The layers a scalable folder icon can realize.
    pub fn capabilities() -> (r: IconCapabilities)
        ensures
            r == capabilities_of(IconBaseKind::VectorFolder),
    {
        Self::base_kind().capabilities()
    }

    /// Renders the customized icon as one SVG document: the base markup
    /// with the active layers' fragments inserted before its closing tag;
    /// the base unchanged when no layer is active.
    pub fn render_output(&mut self) -> (r: Result<String, RenderError>)
        ensures
            final(self).base_spec() == old(self).base_spec(),
            final(self).layers_spec().configured() == old(self).layers_spec().configured(),
            final(self).layers_spec().versions() == old(self).layers_spec().versions(),
            final(self).layers_spec().fragments() == old(self).layers_spec().fragments(),
            final(self).layers_spec().renders() == old(self).layers_spec().renders(),
            r is Ok <==> old(self).layers_spec().renders(),
            r matches Ok(svg) ==> svg@ == canvas_output(
                old(self).base_spec().svg@,
                old(self).layers_spec().fragments(),
            ),
    {
        let mut canvas = SvgCanvas::new(self.base.svg.as_str());
        self.layers.execute(&mut canvas)?;
        Ok(canvas.into_svg())
    }

    /// Configures the layers from the profile, dropping the intents a
    /// scalable icon can't realize (recoloring and decals).
    pub fn apply_profile(&mut self, profile: &CustomizationProfile)
        ensures
            profiles_alike(
                final(self).layers_spec().configured(),
                filtered_profile(capabilities_of(IconBaseKind::VectorFolder), profile@),
            ),
            final(self).layers_spec().configured().color_dot == profile@.color_dot,
            final(self).layers_spec().versions() == stepped_versions(
                old(self).layers_spec().versions(),
                old(self).layers_spec().changes_for(filtered_profile(capabilities_of(IconBaseKind::VectorFolder), profile@)),
            ),
            final(self).base_spec() == old(self).base_spec(),
    {
        let caps = Self::capabilities();
        let kept = caps.filter(profile);
        self.layers.color_dot.set_config(kept.color_dot);
        self.layers.overlay.set_config(kept.overlay);
        assert(self.layers_spec().versions() =~= stepped_versions(
            old(self).layers_spec().versions(),
            old(self).layers_spec().changes_for(kept@),
        ));
    }

    /// The current layer configurations, as a profile.
    pub fn export_profile(&self) -> (r: CustomizationProfile)
        ensures
            r@ == self.layers_spec().configured(),
    {
        CustomizationProfile {
            folder_color_target: None,
            color_dot: copy_config(self.layers.color_dot.config()),
            decal: None,
            overlay: clone_config(self.layers.overlay.config()),
        }
    }

    /// Moves every layer's version.
    pub fn clear_cache(&mut self)
        ensures
            final(self).base_spec() == old(self).base_spec(),
            final(self).layers_spec().versions() == old(self).layers_spec().versions().map_values(
                |v: u64| next_version(v),
            ),
            final(self).layers_spec().configured() == old(self).layers_spec().configured(),
            final(self).layers_spec().fragments() == old(self).layers_spec().fragments(),
    {
        self.layers.invalidate_all();
    }
}

/// With no active layer, a scalable folder icon renders to its base markup
/// unchanged.
pub proof fn lemma_passthrough(base: Seq<char>, layers: SvgFolderLayers)
    requires
        !layers.color_dot.active_spec(),
        !layers.overlay.active_spec(),
    ensures
        layers.renders(),
        canvas_output(base, layers.fragments()) == base,
{
    assert(layers.fragments() =~= Seq::<Seq<char>>::empty());
}

/// What a customizer keeps of an applied profile is exactly what its base
/// can realize: a layer ends up configured if and only if the profile
/// carries it and the base kind allows it.
pub proof fn lemma_customizer_keeps_capabilities(
    kind: IconBaseKind,
    configured: ProfileView,
    profile: ProfileView,
    layer: LayerKind,
)
    requires
        profiles_alike(configured, filtered_profile(capabilities_of(kind), profile)),
    ensures
        profile_carries(configured, layer) == (profile_carries(profile, layer) && allows(
            capabilities_of(kind),
            layer,
        )),
{
    lemma_alike_profiles_carry_same_layers(configured, filtered_profile(capabilities_of(kind), profile), layer);
    lemma_filter_keeps_allowed(capabilities_of(kind), profile, layer);
}

} // verus!
