//! The configuration of a customization context and the strategy it
//! chooses for the system folder icon.
//!
//! Building a context reads the icon cache and talks to the platform's
//! folder settings, which happens outside this crate; what is decided here
//! is where the cache lives and which pipeline serves the folder icon.

use vstd::prelude::*;
use crate::cache::CacheConfig;
use crate::capabilities::{IconBaseKind, capabilities_of, filtered_profile};
use crate::core_error::Error;
use crate::customizer::{FolderIconCustomizer, IconCustomizer, LayerSet, SvgFolderIconCustomizer, SvgLayerSet};
use crate::geometry::SurfaceColor;
use crate::icon::{FolderIconBase, IconBase, IconSet, same_images};
use crate::profile::{CustomizationProfile, ProfileView, empty_profile, profiles_alike};
use crate::layer::stepped_versions;

verus! {

/// Identifies the application, for locating its data directory.
#[derive(Debug)]
pub struct AppInfo {
    /// Reverse domain qualifier (e.g., "com").
    pub qualifier: String,
    /// Organization name (e.g., "ecoates2").
    pub organization: String,
    /// Application name (e.g., "folco").
    pub application: String,
}

impl AppInfo {
    /// Creates an `AppInfo` from its three parts.
    pub fn new(qualifier: &str, organization: &str, application: &str) -> (r: Self)
        ensures
            r.qualifier@ == qualifier@,
            r.organization@ == organization@,
            r.application@ == application@,
    {
        AppInfo {
            qualifier: qualifier.to_owned(),
            organization: organization.to_owned(),
            application: application.to_owned(),
        }
    }
}

/// Whether `info` is this application's own identity, `com.ecoates2.folco`.
pub open spec fn is_default_app_info(info: AppInfo) -> bool {
    &&& info.qualifier@ == "com"@
    &&& info.organization@ == "ecoates2"@
    &&& info.application@ == "folco"@
}

impl Default for AppInfo {
    /// This application's own identity: `com.ecoates2.folco`.
    fn default() -> (r: Self)
        ensures
            is_default_app_info(r),
    {
        AppInfo::new("com", "ecoates2", "folco")
    }
}

/// Builder for a customization context: which application's data
/// directory to use, or an explicit cache directory, and whether to refresh
/// the cache.
#[derive(Debug)]
pub struct CustomizationContextBuilder {
    /// The application whose data directory holds the cache.
    pub app_info: AppInfo,
    /// An explicit cache directory, which takes precedence over `app_info`.
    pub cache_dir: Option<String>,
    /// Whether the cache is refreshed on build.
    pub force_cache_refresh: bool,
}

impl CustomizationContextBuilder {
    /// A builder with this application's identity, no explicit cache
    /// directory, and no forced refresh.
    pub fn new() -> (r: Self)
        ensures
            is_default_app_info(r.app_info),
            r.cache_dir is None,
            !r.force_cache_refresh,
    {
        CustomizationContextBuilder { app_info: AppInfo::default(), cache_dir: None, force_cache_refresh: false }
    }

    /// Sets the application whose data directory holds the cache.
    pub fn with_app_info(self, app_info: AppInfo) -> (r: Self)
        ensures
            r.app_info == app_info,
            r.cache_dir == self.cache_dir,
            r.force_cache_refresh == self.force_cache_refresh,
    {
        CustomizationContextBuilder { app_info, ..self }
    }

    /// Sets an explicit cache directory, which overrides the application's
    /// data directory.
    pub fn with_cache_dir(self, cache_dir: &str) -> (r: Self)
        ensures
            r.app_info == self.app_info,
            r.cache_dir matches Some(d) && d@ == cache_dir@,
            r.force_cache_refresh == self.force_cache_refresh,
    {
        CustomizationContextBuilder { cache_dir: Some(cache_dir.to_owned()), ..self }
    }

    /// Sets whether the cache is refreshed on build.
    pub fn with_force_cache_refresh(self, force: bool) -> (r: Self)
        ensures
            r.app_info == self.app_info,
            r.cache_dir == self.cache_dir,
            r.force_cache_refresh == force,
    {
        CustomizationContextBuilder { force_cache_refresh: force, ..self }
    }

    /// The cache configuration a build uses: the explicit cache directory
    /// when one is set, else the application's data directory (which may
    /// fail to be found); refreshing as requested either way.
    pub fn cache_config(&self) -> (r: Result<CacheConfig, Error>)
        ensures
            r matches Ok(c) ==> c.force_refresh == self.force_cache_refresh,
            self.cache_dir matches Some(d) ==> (r matches Ok(c) && c.cache_dir@ == d@),
            r is Err ==> self.cache_dir is None,
            r matches Err(e) ==> e matches Error::AppDataDir { message } && message@
                == "failed to determine app data directory"@,
    {
        match &self.cache_dir {
            Some(dir) => Ok(CacheConfig::new(dir.as_str()).with_force_refresh(self.force_cache_refresh)),
            None => {
                let config = CacheConfig::from_app_info(
                    self.app_info.qualifier.as_str(),
                    self.app_info.organization.as_str(),
                    self.app_info.application.as_str(),
                )?;
                Ok(config.with_force_refresh(self.force_cache_refresh))
            },
        }
    }
}

impl Default for CustomizationContextBuilder {
    fn default() -> (r: Self)
        ensures
            is_default_app_info(r.app_info),
            r.cache_dir is None,
            !r.force_cache_refresh,
    {
        CustomizationContextBuilder::new()
    }
}

/// The pipeline serving the system folder icon: pixels when the system
/// delivers PNGs, markup when it delivers a scalable SVG.
pub enum FolderStrategy {
    /// Pixel-based pipeline over system PNG icons.
    Raster(Box<FolderIconCustomizer>),
    /// Vector pipeline over a scalable system SVG icon.
    Svg(SvgFolderIconCustomizer),
}

impl FolderStrategy {
    /// A raster strategy always works on a folder icon base.
    pub open spec fn wf(&self) -> bool {
        self matches FolderStrategy::Raster(c) ==> c.base_spec() is Folder
    }

    /// The configurations the strategy's layers hold, as a profile.
    pub open spec fn configured(&self) -> ProfileView {
        match self {
            FolderStrategy::Raster(c) => c.layers_spec().configured(),
            FolderStrategy::Svg(c) => c.layers_spec().configured(),
        }
    }

    /// The versions of the strategy's layers, in pipeline order.
    pub open spec fn versions(&self) -> Seq<u64> {
        match self {
            FolderStrategy::Raster(c) => c.layers_spec().versions(),
            FolderStrategy::Svg(c) => c.layers_spec().versions(),
        }
    }

    /// Which of the strategy's layers, in pipeline order, applying the
    /// profile would change: those whose configuration the part of the
    /// profile the base can realize replaces by one that renders differently.
    pub open spec fn changes_for(&self, profile: ProfileView) -> Seq<bool> {
        match self {
            FolderStrategy::Raster(c) => c.layers_spec().changes_for(profile),
            FolderStrategy::Svg(c) => c.layers_spec().changes_for(
                filtered_profile(capabilities_of(IconBaseKind::VectorFolder), profile),
            ),
        }
    }

    /// What the strategy operates on.
    pub open spec fn kind(&self) -> IconBaseKind {
        match self {
            FolderStrategy::Raster(_) => IconBaseKind::RasterFolder,
            FolderStrategy::Svg(_) => IconBaseKind::VectorFolder,
        }
    }

    /// Chooses the pipeline for a system folder icon: when the system
    /// delivered scalable markup, the vector pipeline over it (the PNGs are
    /// disregarded); otherwise the raster pipeline over the PNGs. No layer
    /// is configured yet.
    pub fn from_icon_source(svg: Option<String>, icons: IconSet, surface_color: SurfaceColor) -> (r: Self)
        ensures
            r.wf(),
            r.configured() == empty_profile(),
            match svg {
                Some(s) => r matches FolderStrategy::Svg(c) && c.base_spec().svg@ == s@
                    && c.base_spec().surface_color == surface_color,
                None => r matches FolderStrategy::Raster(c) && c.base_spec() == IconBase::Folder(
                    FolderIconBase { icons, surface_color },
                ),
            },
    {
        match svg {
            Some(markup) => {
                let base = crate::icon::SvgFolderIconBase::new(markup.as_str(), surface_color);
                FolderStrategy::Svg(SvgFolderIconCustomizer::from_folder(base))
            },
            None => {
                let base = FolderIconBase::new(icons, surface_color);
                FolderStrategy::Raster(Box::new(IconCustomizer::from_folder(base)))
            },
        }
    }

    /// Applies a profile to the active pipeline, which keeps what its base
    /// can realize.
    pub fn apply_profile(&mut self, profile: &CustomizationProfile)
        requires
            old(self).wf(),
        ensures
            final(self).wf(),
            final(self).kind() == old(self).kind(),
            profiles_alike(final(self).configured(), filtered_profile(capabilities_of(old(self).kind()), profile@)),
            final(self).versions() == stepped_versions(old(self).versions(), old(self).changes_for(profile@)),
    {
        match self {
            FolderStrategy::Raster(c) => c.apply_profile(profile),
            FolderStrategy::Svg(c) => c.apply_profile(profile),
        }
    }

    /// The active pipeline's configurations, as a profile.
    pub fn export_profile(&self) -> (r: CustomizationProfile)
        ensures
            r@ == self.configured(),
    {
        match self {
            FolderStrategy::Raster(c) => c.export_profile(),
            FolderStrategy::Svg(c) => c.export_profile(),
        }
    }

    /// The raster base (icons and surface color), or `None` for the vector
    /// pipeline.
    pub fn folder_icon_base(&self) -> (r: Option<FolderIconBase>)
        requires
            self.wf(),
        ensures
            match self {
                FolderStrategy::Raster(c) => (r matches Some(b) && (c.base_spec() matches IconBase::Folder(fb)
                    && same_images(b.icons.images@, fb.icons.images@) && b.surface_color == fb.surface_color)),
                FolderStrategy::Svg(_) => r is None,
            },
    {
        match self {
            FolderStrategy::Raster(c) => match c.base() {
                IconBase::Folder(b) => Some(FolderIconBase::new(b.icons.duplicate(), b.surface_color)),
                IconBase::Custom(_) => None,
            },
            FolderStrategy::Svg(_) => None,
        }
    }

    /// The surface color of the base folder icon, whatever the medium.
    pub fn surface_color(&self) -> (r: SurfaceColor)
        requires
            self.wf(),
        ensures
            match self {
                FolderStrategy::Raster(c) => (c.base_spec() matches IconBase::Folder(fb) && r == fb.surface_color),
                FolderStrategy::Svg(c) => r == c.base_spec().surface_color,
            },
    {
        match self {
            FolderStrategy::Raster(c) => match c.base() {
                IconBase::Folder(b) => b.surface_color,
                IconBase::Custom(_) => SurfaceColor::new(0, 0, 0),
            },
            FolderStrategy::Svg(c) => *c.surface_color(),
        }
    }

    /// The base markup when the active pipeline is the vector one.
    pub fn base_svg(&self) -> (r: Option<String>)
        ensures
            match self {
                FolderStrategy::Raster(_) => r is None,
                FolderStrategy::Svg(c) => r matches Some(s) && s@ == c.base_spec().svg@,
            },
    {
        match self {
            FolderStrategy::Raster(_) => None,
            FolderStrategy::Svg(c) => Some(c.base().svg.clone()),
        }
    }

    /// The raster customizer, when the active pipeline is the raster one.
    pub fn customizer(&self) -> (r: Option<&FolderIconCustomizer>)
        ensures
            match self {
                FolderStrategy::Raster(c) => r == Some(&**c),
                FolderStrategy::Svg(_) => r is None,
            },
    {
        match self {
            FolderStrategy::Raster(c) => Some(&**c),
            FolderStrategy::Svg(_) => None,
        }
    }
}

} // verus!
