//! Layer infrastructure: configuration change detection, version tracking
//! for cache invalidation, and per-size output caches.
//!
//! Each layer holds an optional configuration, an `enabled` flag for live
//! toggling, a version that moves on every state change, and a cache of
//! rendered outputs keyed by image size and tagged with the version of the
//! upstream layers they were computed from.

use vstd::prelude::*;
use vstd::wrapping::u64_specs;
use crate::icon::{IconImage, RgbaPixels};
use crate::profile::LayerKind;

verus! {

/// Configuration data of a layer, with change detection.
///
/// Configurations are pure data; they know whether another configuration
/// would render differently from them.
pub trait LayerConfig: View + Sized {
    /// Whether configuration `a` renders differently from `b`.
    spec fn renders_differently(a: Self::V, b: Self::V) -> bool;

    /// A configuration never renders differently from itself.
    proof fn lemma_same_renders_same(a: Self::V)
        ensures
            !Self::renders_differently(a, a),
    ;

    /// Returns true if this config differs from `other` in a way that would
    /// produce different rendering output.
    fn differs_from(&self, other: &Self) -> (r: bool)
        ensures
            r == Self::renders_differently(self@, other@),
    ;

    /// A copy of this configuration.
    fn duplicate(&self) -> (r: Self)
        ensures
            r@ == self@,
    ;
}

/// The version that follows `v`: one more, wrapping around at the maximum.
pub open spec fn next_version(v: u64) -> u64 {
    u64_specs::wrapping_add(v, 1)
}

/// The combined version of upstream layer dependencies.
///
/// Used to detect when a layer's cache is stale because an upstream layer
/// has changed.
#[derive(Debug, Clone, Copy, PartialEq, Eq, Structural)]
pub struct DependencyVersion(pub u64);

/// The wrapping sum of a sequence of versions.
pub open spec fn wrapping_sum(versions: Seq<u64>) -> u64
    decreases versions.len(),
{
    if versions.len() == 0 {
        0
    } else {
        u64_specs::wrapping_add(wrapping_sum(versions.drop_last()), versions.last())
    }
}

impl DependencyVersion {
    /// No dependencies (root layer).
    pub fn none() -> (r: Self)
        ensures
            r.0 == 0,
    {
        DependencyVersion(0)
    }

    /// Creates a dependency version from a single version number.
    pub fn from_version(version: u64) -> (r: Self)
        ensures
            r.0 == version,
    {
        DependencyVersion(version)
    }

    /// Creates a dependency version from a single upstream layer.
    pub fn from_layer<C: LayerConfig>(layer: &Layer<C>) -> (r: Self)
        ensures
            r.0 == layer.version_spec(),
    {
        DependencyVersion(layer.version())
    }

    /// Combines multiple upstream layer versions into one: their sum,
    /// wrapping around on overflow.
    pub fn combine(versions: &[u64]) -> (r: Self)
        ensures
            r.0 == wrapping_sum(versions@),
    {
        let mut acc: u64 = 0;
        let mut i: usize = 0;
        while i < versions.len()
            invariant
                i <= versions@.len(),
                acc == wrapping_sum(versions@.take(i as int)),
            decreases versions.len() - i,
        {
            assert(versions@.take(i + 1).drop_last() =~= versions@.take(i as int));
            acc = acc.wrapping_add(versions[i]);
            i += 1;
        }
        assert(versions@.take(versions@.len() as int) =~= versions@);
        DependencyVersion(acc)
    }
}

/// Snapshot of all layer versions in the pipeline, from which each layer
/// reads the versions of the layers it depends on.
#[derive(Debug, Clone, Copy, PartialEq, Eq, Structural)]
pub struct LayerVersions {
    /// Version of the color target layer.
    pub folder_color_target: u64,
    /// Version of the color dot layer.
    pub color_dot: u64,
    /// Version of the decal layer.
    pub decal: u64,
    /// Version of the overlay layer.
    pub overlay: u64,
}

/// Key for cached rendered images: width, height and the bits of the scale
/// factor identify a size.
#[derive(Debug, Clone, Copy, PartialEq, Eq, Hash, Structural)]
pub struct CacheKey {
    pub width: u32,
    pub height: u32,
    pub scale_bits: u32,
}

impl CacheKey {
    /// Creates a cache key for the given dimensions and scale bits.
    pub fn new(width: u32, height: u32, scale_bits: u32) -> (r: Self)
        ensures
            r == (CacheKey { width, height, scale_bits }),
    {
        CacheKey { width, height, scale_bits }
    }

    /// Creates a cache key from an icon image.
    pub fn from_icon(icon: &IconImage) -> (r: Self)
        ensures
            r == (CacheKey {
                width: icon.data.width,
                height: icon.data.height,
                scale_bits: icon.scale_bits,
            }),
    {
        CacheKey::new(icon.data.width, icon.data.height, icon.scale_bits)
    }
}

/// Cached result of a layer's rendering.
#[derive(Debug)]
pub enum CachedOutput {
    /// Full transformed image (a layer that changes the base icon).
    Image(IconImage),
    /// Transparent tile composited on top of the image.
    Tile(RgbaPixels),
}

/// Whether two cached outputs hold the same image or the same tile.
pub open spec fn same_output(a: CachedOutput, b: CachedOutput) -> bool {
    match (a, b) {
        (CachedOutput::Image(x), CachedOutput::Image(y)) => crate::icon::same_image(x, y),
        (CachedOutput::Tile(x), CachedOutput::Tile(y)) => x.width == y.width && x.height == y.height
            && x.data@ == y.data@,
        _ => false,
    }
}

impl CachedOutput {
    /// A copy of this output.
    pub fn duplicate(&self) -> (r: Self)
        ensures
            same_output(r, *self),
    {
        match self {
            CachedOutput::Image(img) => CachedOutput::Image(img.duplicate()),
            CachedOutput::Tile(t) => CachedOutput::Tile(t.duplicate()),
        }
    }
}

/// The value stored for `key` in a list of entries, if any.
pub open spec fn entry_for<T>(entries: Seq<(CacheKey, T, u64)>, key: CacheKey) -> Option<(T, u64)> {
    if exists|i: int| 0 <= i < entries.len() && entries[i].0 == key {
        let i = choose|i: int| 0 <= i < entries.len() && entries[i].0 == key;
        Some((entries[i].1, entries[i].2))
    } else {
        None
    }
}

/// No key appears twice.
pub open spec fn keys_distinct<T>(entries: Seq<(CacheKey, T, u64)>) -> bool {
    forall|i: int, j: int|
        0 <= i < entries.len() && 0 <= j < entries.len() && i != j ==> entries[i].0 != entries[j].0
}

/// A cache of outputs keyed by size, each stored with the dependency version
/// it was computed under. Each key holds at most one entry.
#[derive(Debug)]
pub struct OutputCache<T> {
    entries: Vec<(CacheKey, T, u64)>,
}

impl<T> OutputCache<T> {
    #[verifier::type_invariant]
    spec fn inv(self) -> bool {
        keys_distinct(self.entries@)
    }

    /// The output and dependency version stored for `key`, if any.
    pub closed spec fn stored(self, key: CacheKey) -> Option<(T, u64)> {
        entry_for(self.entries@, key)
    }

    /// The output stored for `key` when it was computed under `deps`.
    pub open spec fn valid_entry(self, key: CacheKey, deps: u64) -> Option<T> {
        match self.stored(key) {
            Some((out, d)) => if d == deps { Some(out) } else { None },
            None => None,
        }
    }

    /// An empty cache.
    pub fn new() -> (r: Self)
        ensures
            forall|k: CacheKey| r.stored(k) is None,
    {
        OutputCache { entries: Vec::new() }
    }

    fn position(&self, key: CacheKey) -> (r: Option<usize>)
        ensures
            match r {
                Some(i) => i < self.entries@.len() && self.entries@[i as int].0 == key,
                None => forall|i: int| 0 <= i < self.entries@.len() ==> self.entries@[i].0 != key,
            },
    {
        let mut i: usize = 0;
        while i < self.entries.len()
            invariant
                i <= self.entries@.len(),
                forall|j: int| 0 <= j < i ==> self.entries@[j].0 != key,
            decreases self.entries.len() - i,
        {
            if self.entries[i].0 == key {
                return Some(i);
            }
            i += 1;
        }
        None
    }

    /// The output stored for `key` if it was computed under `deps`.
    pub fn get(&self, key: CacheKey, deps: u64) -> (r: Option<&T>)
        ensures
            match r {
                Some(out) => self.valid_entry(key, deps) == Some(*out),
                None => self.valid_entry(key, deps) is None,
            },
    {
        proof {
            use_type_invariant(self);
        }
        match self.position(key) {
            Some(i) => {
                let entry = &self.entries[i];
                proof {
                    let j = choose|j: int| 0 <= j < self.entries@.len() && self.entries@[j].0 == key;
                    assert(j == i);
                }
                if entry.2 == deps {
                    Some(&entry.1)
                } else {
                    None
                }
            },
            None => None,
        }
    }

    /// Stores `output` for `key` under `deps`, replacing any earlier entry
    /// for that key and leaving the other keys as they were.
    pub fn store(&mut self, key: CacheKey, output: T, deps: u64)
        ensures
            final(self).stored(key) == Some((output, deps)),
            forall|k: CacheKey| k != key ==> final(self).stored(k) == old(self).stored(k),
    {
        proof {
            use_type_invariant(&*self);
        }
        let ghost before = self.entries@;
        let found = self.position(key);
        let mut entries: Vec<(CacheKey, T, u64)> = Vec::new();
        std::mem::swap(&mut entries, &mut self.entries);
        assert(entries@ == before);
        match found {
            Some(i) => {
                entries.set(i, (key, output, deps));
                proof {
                    let after = entries@;
                    assert(after == before.update(i as int, (key, output, deps)));
                    assert(keys_distinct(after));
                    assert(after[i as int].0 == key);
                    let j = choose|j: int| 0 <= j < after.len() && after[j].0 == key;
                    assert(j == i);
                    assert forall|k: CacheKey| k != key implies entry_for(after, k) == entry_for(
                        before,
                        k,
                    ) by {
                        if exists|m: int| 0 <= m < before.len() && before[m].0 == k {
                            let m = choose|m: int| 0 <= m < before.len() && before[m].0 == k;
                            assert(after[m].0 == k);
                            let m2 = choose|m2: int| 0 <= m2 < after.len() && after[m2].0 == k;
                            assert(m2 == m);
                        } else {
                            assert forall|m: int| 0 <= m < after.len() implies after[m].0 != k by {
                                if m != i {
                                    assert(after[m] == before[m]);
                                }
                            }
                        }
                    }
                }
            },
            None => {
                entries.push((key, output, deps));
                proof {
                    let after = entries@;
                    let n = before.len() as int;
                    assert(after == before.push((key, output, deps)));
                    assert(keys_distinct(after));
                    assert(after[n].0 == key);
                    let j = choose|j: int| 0 <= j < after.len() && after[j].0 == key;
                    assert(j == n);
                    assert forall|k: CacheKey| k != key implies entry_for(after, k) == entry_for(
                        before,
                        k,
                    ) by {
                        if exists|m: int| 0 <= m < before.len() && before[m].0 == k {
                            let m = choose|m: int| 0 <= m < before.len() && before[m].0 == k;
                            assert(after[m].0 == k);
                            let m2 = choose|m2: int| 0 <= m2 < after.len() && after[m2].0 == k;
                            assert(m2 == m);
                        } else {
                            assert forall|m: int| 0 <= m < after.len() implies after[m].0 != k by {
                                if m < n {
                                    assert(after[m] == before[m]);
                                }
                            }
                        }
                    }
                }
            },
        }
        self.entries = entries;
    }

    /// Removes every entry.
    pub fn clear(&mut self)
        ensures
            forall|k: CacheKey| final(self).stored(k) is None,
    {
        self.entries = Vec::new();
    }
}

/// The model of an optional configuration.
pub open spec fn config_model<C: View>(config: Option<C>) -> Option<C::V> {
    match config {
        Some(c) => Some(c@),
        None => None,
    }
}

/// Whether replacing configuration `old` by `new` changes what is rendered:
/// adding or removing a configuration always does, replacing one with
/// another does when it renders differently.
pub open spec fn config_changes<C: LayerConfig>(old: Option<C::V>, new: Option<C::V>) -> bool {
    match (old, new) {
        (None, None) => false,
        (Some(a), Some(b)) => C::renders_differently(a, b),
        _ => true,
    }
}

/// A layer with an optional configuration, an enabled flag, a version, and a
/// cache of rendered outputs keyed by size.
///
/// A layer is active when it has a configuration and is enabled. The enabled
/// flag is for live editing; it does not touch the configuration or cache.
pub struct Layer<C: LayerConfig> {
    config: Option<C>,
    enabled: bool,
    version: u64,
    cache: OutputCache<CachedOutput>,
}

impl<C: LayerConfig> Layer<C> {
    /// The configuration, as a model.
    pub closed spec fn config_spec(&self) -> Option<C::V> {
        config_model(self.config)
    }

    /// The enabled flag.
    pub closed spec fn enabled_spec(&self) -> bool {
        self.enabled
    }

    /// The version number.
    pub closed spec fn version_spec(&self) -> u64 {
        self.version
    }

    /// The cached output and dependency version stored for `key`, if any.
    pub closed spec fn cached_spec(&self, key: CacheKey) -> Option<(CachedOutput, u64)> {
        self.cache.stored(key)
    }

    /// Whether the layer has a configuration and is enabled.
    pub open spec fn active_spec(&self) -> bool {
        self.enabled_spec() && self.config_spec() is Some
    }

    /// A fresh layer: no configuration, enabled, version 0, empty cache.
    pub fn new() -> (r: Self)
        ensures
            r.config_spec() is None,
            r.enabled_spec(),
            r.version_spec() == 0,
            forall|k: CacheKey| r.cached_spec(k) is None,
    {
        Layer { config: None, enabled: true, version: 0, cache: OutputCache::new() }
    }

    /// Returns the current configuration, if any.
    pub fn config(&self) -> (r: Option<&C>)
        ensures
            match r {
                Some(c) => self.config_spec() == Some(c@),
                None => self.config_spec() is None,
            },
    {
        match &self.config {
            Some(c) => Some(c),
            None => None,
        }
    }

    /// Returns true if this layer is active (has config AND is enabled).
    pub fn is_active(&self) -> (r: bool)
        ensures
            r == self.active_spec(),
    {
        self.enabled && self.config.is_some()
    }

    /// Returns true if the layer has a configuration set.
    pub fn has_config(&self) -> (r: bool)
        ensures
            r == (self.config_spec() is Some),
    {
        self.config.is_some()
    }

    /// Returns whether the layer is enabled.
    pub fn is_enabled(&self) -> (r: bool)
        ensures
            r == self.enabled_spec(),
    {
        self.enabled
    }

    /// Sets whether the layer is enabled; returns true if the state changed.
    ///
    /// Toggling keeps the configuration and the cache; only the version moves,
    /// so that composite caches re-evaluate.
    pub fn set_enabled(&mut self, enabled: bool) -> (changed: bool)
        ensures
            changed == (old(self).enabled_spec() != enabled),
            final(self).enabled_spec() == enabled,
            final(self).config_spec() == old(self).config_spec(),
            final(self).version_spec() == if changed {
                next_version(old(self).version_spec())
            } else {
                old(self).version_spec()
            },
            forall|k: CacheKey| final(self).cached_spec(k) == old(self).cached_spec(k),
    {
        if self.enabled != enabled {
            self.enabled = enabled;
            self.version = self.version.wrapping_add(1);
            true
        } else {
            false
        }
    }

    /// Returns the current version number.
    pub fn version(&self) -> (r: u64)
        ensures
            r == self.version_spec(),
    {
        self.version
    }

    /// Sets the configuration; returns true if it changed.
    ///
    /// When the new configuration renders differently, it replaces the old
    /// one, the version moves and the cache is cleared. Otherwise nothing
    /// changes and the old configuration stays.
    pub fn set_config(&mut self, config: Option<C>) -> (changed: bool)
        ensures
            changed == config_changes::<C>(old(self).config_spec(), config_model(config)),
            final(self).enabled_spec() == old(self).enabled_spec(),
            changed ==> final(self).config_spec() == config_model(config),
            changed ==> final(self).version_spec() == next_version(old(self).version_spec()),
            changed ==> forall|k: CacheKey| final(self).cached_spec(k) is None,
            !changed ==> final(self).config_spec() == old(self).config_spec(),
            !changed ==> final(self).version_spec() == old(self).version_spec(),
            !changed ==> forall|k: CacheKey| final(self).cached_spec(k) == old(self).cached_spec(k),
    {
        let differs = match (&self.config, &config) {
            (None, None) => false,
            (Some(old_config), Some(new_config)) => old_config.differs_from(new_config),
            _ => true,
        };
        if differs {
            self.config = config;
            self.version = self.version.wrapping_add(1);
            self.cache.clear();
            true
        } else {
            false
        }
    }

    /// Invalidates the cache and moves the version; called when upstream
    /// layers change.
    pub fn invalidate(&mut self)
        ensures
            final(self).config_spec() == old(self).config_spec(),
            final(self).enabled_spec() == old(self).enabled_spec(),
            final(self).version_spec() == next_version(old(self).version_spec()),
            forall|k: CacheKey| final(self).cached_spec(k) is None,
    {
        self.version = self.version.wrapping_add(1);
        self.cache.clear();
    }

    /// The cached output for `key`, if it was stored under `deps`.
    pub fn get_cached(&self, key: CacheKey, deps: DependencyVersion) -> (r: Option<&CachedOutput>)
        ensures
            match r {
                Some(out) => self.cached_spec(key) == Some((*out, deps.0)),
                None => !(self.cached_spec(key) matches Some((_, d)) && d == deps.0),
            },
    {
        self.cache.get(key, deps.0)
    }

    /// Stores a layer output in the cache under the given dependency version.
    pub fn store(&mut self, key: CacheKey, output: CachedOutput, deps: DependencyVersion)
        ensures
            final(self).config_spec() == old(self).config_spec(),
            final(self).enabled_spec() == old(self).enabled_spec(),
            final(self).version_spec() == old(self).version_spec(),
            final(self).cached_spec(key) == Some((output, deps.0)),
            forall|k: CacheKey| k != key ==> final(self).cached_spec(k) == old(self).cached_spec(k),
    {
        self.cache.store(key, output, deps.0);
    }
}

/// A cache-only layer for final composited images: no configuration, just a
/// version and the cached results.
pub struct CompositeLayer {
    version: u64,
    cache: OutputCache<IconImage>,
}

impl CompositeLayer {
    /// The version number.
    pub closed spec fn version_spec(&self) -> u64 {
        self.version
    }

    /// The image and dependency version stored for `key`, if any.
    pub closed spec fn cached_spec(&self, key: CacheKey) -> Option<(IconImage, u64)> {
        self.cache.stored(key)
    }

    /// A fresh composite layer: version 0 and an empty cache.
    pub fn new() -> (r: Self)
        ensures
            r.version_spec() == 0,
            forall|k: CacheKey| r.cached_spec(k) is None,
    {
        CompositeLayer { version: 0, cache: OutputCache::new() }
    }

    /// Returns the current version number.
    pub fn version(&self) -> (r: u64)
        ensures
            r == self.version_spec(),
    {
        self.version
    }

    /// Invalidates the cache and moves the version.
    pub fn invalidate(&mut self)
        ensures
            final(self).version_spec() == next_version(old(self).version_spec()),
            forall|k: CacheKey| final(self).cached_spec(k) is None,
    {
        self.version = self.version.wrapping_add(1);
        self.cache.clear();
    }

    /// The cached image for `key`, if it was stored under `deps`.
    pub fn get_cached(&self, key: CacheKey, deps: DependencyVersion) -> (r: Option<&IconImage>)
        ensures
            match r {
                Some(img) => self.cached_spec(key) == Some((*img, deps.0)),
                None => !(self.cached_spec(key) matches Some((_, d)) && d == deps.0),
            },
    {
        self.cache.get(key, deps.0)
    }

    /// Stores an image in the cache under the given dependency version.
    pub fn store(&mut self, key: CacheKey, image: IconImage, deps: DependencyVersion)
        ensures
            final(self).version_spec() == old(self).version_spec(),
            final(self).cached_spec(key) == Some((image, deps.0)),
            forall|k: CacheKey| k != key ==> final(self).cached_spec(k) == old(self).cached_spec(k),
    {
        self.cache.store(key, image, deps.0);
    }
}

impl<C: LayerConfig> Default for Layer<C> {
    fn default() -> (r: Self)
        ensures
            r.config_spec() is None,
            r.enabled_spec(),
            r.version_spec() == 0,
            forall|k: CacheKey| r.cached_spec(k) is None,
    {
        Layer::new()
    }
}

/// What a raster layer does for one size: nothing when inactive, reuse a
/// cached output stored under the current dependency version, or render
/// from its configuration.
pub enum RenderStep<'a, C> {
    /// The layer is inactive; the image passes through unchanged.
    Inactive,
    /// A cached output is valid for this size and these dependencies.
    Cached(&'a CachedOutput),
    /// The output must be rendered from this configuration and stored.
    Render(&'a C),
}

impl<C: LayerConfig> Layer<C> {
    /// Decides what this layer does for `key` under the dependency version
    /// `deps`.
    pub fn plan(&self, key: CacheKey, deps: DependencyVersion) -> (r: RenderStep<'_, C>)
        ensures
            (r is Inactive) <==> !self.active_spec(),
            r matches RenderStep::Cached(out) ==> self.cached_spec(key) == Some((*out, deps.0)),
            r matches RenderStep::Render(c) ==> self.config_spec() == Some(c@) && !(self.cached_spec(
                key,
            ) matches Some((_, d)) && d == deps.0),
    {
        if !self.is_active() {
            return RenderStep::Inactive;
        }
        match self.get_cached(key, deps) {
            Some(out) => RenderStep::Cached(out),
            None => match self.config() {
                Some(c) => RenderStep::Render(c),
                None => RenderStep::Inactive,
            },
        }
    }
}

/// The upstream version a layer's cached outputs depend on: the decal is
/// tinted from the recolor target's color, so it depends on that layer;
/// every other layer depends on nothing upstream.
pub open spec fn dependency_of(layer: LayerKind, versions: LayerVersions) -> u64 {
    match layer {
        LayerKind::Decal => versions.folder_color_target,
        _ => 0,
    }
}

/// The dependency version under which `layer` caches its outputs.
pub fn dependency(layer: LayerKind, versions: &LayerVersions) -> (r: DependencyVersion)
    ensures
        r.0 == dependency_of(layer, *versions),
{
    match layer {
        LayerKind::Decal => DependencyVersion::from_version(versions.folder_color_target),
        _ => DependencyVersion::none(),
    }
}

impl Default for CompositeLayer {
    fn default() -> (r: Self)
        ensures
            r.version_spec() == 0,
            forall|k: CacheKey| r.cached_spec(k) is None,
    {
        CompositeLayer::new()
    }
}

/// Setting a configuration that renders like the current one changes
/// nothing; in particular, setting the same configuration again.
pub proof fn lemma_same_config_is_no_change<C: LayerConfig>(config: Option<C::V>)
    ensures
        !config_changes::<C>(config, config),
{
    if let Some(c) = config {
        C::lemma_same_renders_same(c);
    }
}

/// A cache hands back what was stored for a key, for the dependency
/// version it was stored under, and for no other.
pub proof fn lemma_cache_read_after_write<T>(cache: OutputCache<T>, key: CacheKey, output: T, deps: u64, other: u64)
    requires
        cache.stored(key) == Some((output, deps)),
        other != deps,
    ensures
        cache.valid_entry(key, deps) == Some(output),
        cache.valid_entry(key, other) is None,
{
}

/// The plain sum of a sequence of versions.
pub open spec fn version_total(versions: Seq<u64>) -> int
    decreases versions.len(),
{
    if versions.len() == 0 {
        0
    } else {
        version_total(versions.drop_last()) + versions.last()
    }
}

/// The number of distinct `u64` values.
pub open spec fn u64_range() -> int {
    0x1_0000_0000_0000_0000
}

/// The wrapping sum is the plain sum reduced modulo 2^64.
pub proof fn lemma_wrapping_sum_is_total_mod(versions: Seq<u64>)
    ensures
        wrapping_sum(versions) as int == version_total(versions) % u64_range(),
        version_total(versions) >= 0,
    decreases versions.len(),
{
    if versions.len() > 0 {
        lemma_wrapping_sum_is_total_mod(versions.drop_last());
        let prev = version_total(versions.drop_last());
        let w = wrapping_sum(versions.drop_last()) as int;
        let x = versions.last() as int;
        assert(w == prev % u64_range());
        assert((w + x) % u64_range() == (prev + x) % u64_range());
    }
}

/// The versions after each layer whose flag is set has moved to its next
/// version; the others stay.
pub open spec fn stepped_versions(versions: Seq<u64>, changed: Seq<bool>) -> Seq<u64> {
    Seq::new(versions.len(), |i: int| if changed[i] { next_version(versions[i]) } else { versions[i] })
}

/// How many flags are set.
pub open spec fn count_set(changed: Seq<bool>) -> nat
    decreases changed.len(),
{
    if changed.len() == 0 {
        0
    } else {
        count_set(changed.drop_last()) + if changed.last() { 1nat } else { 0nat }
    }
}

/// How many of the moved versions wrapped from `u64::MAX` to 0.
pub open spec fn count_wrapped(versions: Seq<u64>, changed: Seq<bool>) -> nat
    decreases versions.len(),
{
    if versions.len() == 0 {
        0
    } else {
        count_wrapped(versions.drop_last(), changed.drop_last()) + if changed[versions.len() - 1]
            && versions.last() == u64::MAX {
            1nat
        } else {
            0nat
        }
    }
}

/// Moving some versions adds one per moved version to the plain sum, less a
/// full turn for each that wrapped.
proof fn lemma_total_after_steps(versions: Seq<u64>, changed: Seq<bool>)
    requires
        changed.len() == versions.len(),
    ensures
        version_total(stepped_versions(versions, changed)) == version_total(versions) + count_set(changed)
            - u64_range() * count_wrapped(versions, changed),
    decreases versions.len(),
{
    if versions.len() > 0 {
        let n = versions.len() - 1;
        lemma_total_after_steps(versions.drop_last(), changed.drop_last());
        assert(stepped_versions(versions, changed).drop_last() =~= stepped_versions(
            versions.drop_last(),
            changed.drop_last(),
        ));
        assert(changed.last() == changed[n]);
    }
}

/// A set flag is counted.
proof fn lemma_count_set_positive(changed: Seq<bool>, i: int)
    requires
        0 <= i < changed.len(),
        changed[i],
    ensures
        1 <= count_set(changed) <= changed.len(),
    decreases changed.len(),
{
    lemma_count_set_bounded(changed.drop_last());
    if i < changed.len() - 1 {
        lemma_count_set_positive(changed.drop_last(), i);
    }
}

/// No more flags are set than there are.
proof fn lemma_count_set_bounded(changed: Seq<bool>)
    ensures
        count_set(changed) <= changed.len(),
    decreases changed.len(),
{
    if changed.len() > 0 {
        lemma_count_set_bounded(changed.drop_last());
    }
}

/// When at least one of fewer than 2^64 layers moves its version, the
/// combined version changes, so whatever was cached under the old one is no
/// longer valid.
pub proof fn lemma_steps_change_combined(versions: Seq<u64>, changed: Seq<bool>, i: int)
    requires
        changed.len() == versions.len(),
        versions.len() < u64_range(),
        0 <= i < changed.len(),
        changed[i],
    ensures
        wrapping_sum(stepped_versions(versions, changed)) != wrapping_sum(versions),
{
    let stepped = stepped_versions(versions, changed);
    lemma_total_after_steps(versions, changed);
    lemma_count_set_positive(changed, i);
    lemma_wrapping_sum_is_total_mod(versions);
    lemma_wrapping_sum_is_total_mod(stepped);
    let t = version_total(versions);
    let c = count_set(changed) as int;
    let w = count_wrapped(versions, changed) as int;
    let m = u64_range();
    vstd::arithmetic::div_mod::lemma_mod_multiples_vanish(-w, t + c, m);
    assert(m * -w + (t + c) == t + c - m * w) by (nonlinear_arith);
    assert((t + c) % m != t % m);
}

/// The plain sum without one element.
proof fn lemma_total_after_remove(versions: Seq<u64>, i: int)
    requires
        0 <= i < versions.len(),
    ensures
        version_total(versions) == version_total(versions.remove(i)) + versions[i],
    decreases versions.len(),
{
    if i == versions.len() - 1 {
        assert(versions.remove(i) =~= versions.drop_last());
    } else {
        lemma_total_after_remove(versions.drop_last(), i);
        assert(versions.remove(i).drop_last() =~= versions.drop_last().remove(i));
        assert(versions.remove(i).last() == versions.last());
    }
}

/// The plain sum of the same versions in any order is the same.
proof fn lemma_total_ignores_order(a: Seq<u64>, b: Seq<u64>)
    requires
        a.to_multiset() == b.to_multiset(),
    ensures
        version_total(a) == version_total(b),
    decreases a.len(),
{
    vstd::seq_lib::to_multiset_len(a);
    vstd::seq_lib::to_multiset_len(b);
    if a.len() > 0 {
        let n = a.len() - 1;
        let x = a[n];
        assert(a.contains(x));
        vstd::seq_lib::to_multiset_contains(a, x);
        vstd::seq_lib::to_multiset_contains(b, x);
        let k = choose|k: int| 0 <= k < b.len() && b[k] == x;
        vstd::seq_lib::to_multiset_remove(a, n);
        vstd::seq_lib::to_multiset_remove(b, k);
        assert(a.remove(n) =~= a.drop_last());
        lemma_total_ignores_order(a.drop_last(), b.remove(k));
        lemma_total_after_remove(b, k);
    }
}

/// The combined version of a set of layer versions does not depend on the
/// order in which they are listed: the same versions, in any order, give
/// the same wrapping sum. No versions at all combine to 0.
pub proof fn lemma_wrapping_sum_ignores_order(a: Seq<u64>, b: Seq<u64>)
    requires
        a.to_multiset() == b.to_multiset(),
    ensures
        wrapping_sum(a) == wrapping_sum(b),
        wrapping_sum(Seq::<u64>::empty()) == 0,
{
    lemma_total_ignores_order(a, b);
    lemma_wrapping_sum_is_total_mod(a);
    lemma_wrapping_sum_is_total_mod(b);
}

/// The plain sum after one element is replaced.
pub proof fn lemma_total_after_update(versions: Seq<u64>, i: int, v: u64)
    requires
        0 <= i < versions.len(),
    ensures
        version_total(versions.update(i, v)) == version_total(versions) - versions[i] + v,
    decreases versions.len(),
{
    let updated = versions.update(i, v);
    if i == versions.len() - 1 {
        assert(updated.drop_last() =~= versions.drop_last());
    } else {
        lemma_total_after_update(versions.drop_last(), i, v);
        assert(updated.drop_last() =~= versions.drop_last().update(i, v));
    }
}

/// Moving one layer's version to the next always changes the combined
/// version, so whatever was cached under the old one is no longer valid.
pub proof fn lemma_version_step_changes_combined(versions: Seq<u64>, i: int)
    requires
        0 <= i < versions.len(),
    ensures
        wrapping_sum(versions.update(i, next_version(versions[i]))) != wrapping_sum(versions),
{
    let stepped = versions.update(i, next_version(versions[i]));
    lemma_wrapping_sum_is_total_mod(versions);
    lemma_wrapping_sum_is_total_mod(stepped);
    lemma_total_after_update(versions, i, next_version(versions[i]));
    let t = version_total(versions);
    let v = versions[i] as int;
    if v + 1 > u64::MAX {
        assert(version_total(stepped) == t + 1 - u64_range());
        assert((t + 1 - u64_range()) % u64_range() == (t + 1) % u64_range());
    } else {
        assert(version_total(stepped) == t + 1);
    }
    assert((t + 1) % u64_range() != t % u64_range());
}

/// What a raster layer does in a pipeline run for one size.
#[derive(Debug)]
pub enum LayerStep {
    /// The layer is inactive: nothing to do.
    Skip,
    /// Reuse this output, cached under the current dependency version.
    Reuse(CachedOutput),
    /// Render the layer from its configuration, then record the output.
    Render,
}

/// Whether `out` is the kind of output a layer produces: a whole image for
/// a layer that transforms the icon, a tile for one that draws on top.
pub open spec fn output_fits(out: CachedOutput, transforms: bool) -> bool {
    if transforms {
        out is Image
    } else {
        out is Tile
    }
}

/// Whether the layer holds, for `key`, an output of the right kind stored
/// under `deps`.
pub open spec fn reusable<C: LayerConfig>(layer: Layer<C>, key: CacheKey, deps: u64, transforms: bool) -> bool {
    layer.cached_spec(key) matches Some((out, d)) && d == deps && output_fits(out, transforms)
}

/// Whether `step` is what `layer` does for `key` under `deps`: skip when
/// inactive, reuse a fitting cached output when there is one, else render.
pub open spec fn step_is<C: LayerConfig>(
    step: LayerStep,
    layer: Layer<C>,
    key: CacheKey,
    deps: u64,
    transforms: bool,
) -> bool {
    if !layer.active_spec() {
        step is Skip
    } else if reusable(layer, key, deps, transforms) {
        step matches LayerStep::Reuse(out) && same_output(out, (layer.cached_spec(key)->0).0)
    } else {
        step is Render
    }
}

impl<C: LayerConfig> Layer<C> {
    /// What this layer does for `key` under `deps`; `transforms` tells
    /// whether it produces whole images or tiles.
    pub fn step(&self, key: CacheKey, deps: DependencyVersion, transforms: bool) -> (r: LayerStep)
        ensures
            step_is(r, *self, key, deps.0, transforms),
    {
        match self.plan(key, deps) {
            RenderStep::Inactive => LayerStep::Skip,
            RenderStep::Cached(out) => {
                let fits = match out {
                    CachedOutput::Image(_) => transforms,
                    CachedOutput::Tile(_) => !transforms,
                };
                if fits {
                    LayerStep::Reuse(out.duplicate())
                } else {
                    LayerStep::Render
                }
            },
            RenderStep::Render(_) => LayerStep::Render,
        }
    }
}

} // verus!
