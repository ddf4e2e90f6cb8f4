//! Where the system folder icon is cached, and when the cache may be used.
//!
//! Extracting the default folder icon from the system can be slow, so it is
//! stored once in the application's data directory: one PNG per size plus an
//! index listing them. Reading and writing those files happens outside this crate.

use vstd::prelude::*;
use crate::core_error::Error;
use crate::text::{decimal, empty_string, push_decimal, push_str};

verus! {

/// The data directory of an application, as `directories::ProjectDirs`
/// locates it for the platform, or `None` when no home directory is known.
///
/// Trusted, with nothing stated of the result: it depends on the platform
/// and the environment.
#[verifier::external_body]
fn project_data_dir(qualifier: &str, organization: &str, application: &str) -> (r: Option<String>) {
    match directories::ProjectDirs::from(qualifier, organization, application) {
        Some(dirs) => Some(dirs.data_dir().to_string_lossy().into_owned()),
        None => None,
    }
}

/// A single relative path component made of ASCII letters, digits and
/// underscores only, such as `icon_cache`.
pub open spec fn is_plain_name(s: Seq<char>) -> bool {
    &&& s.len() > 0
    &&& forall|i: int|
        0 <= i < s.len() ==> ('a' <= #[trigger] s[i] <= 'z' || 'A' <= s[i] <= 'Z' || '0' <= s[i]
            <= '9' || s[i] == '_')
}

/// `std::path::Path::join`: `child` adjoined to `base`.
///
/// Trusted: as the standard library documents, a relative `child` is
/// adjoined after `base`, so the result ends with `child`. What comes
/// before it is not stated: the separator depends on the platform, and on
/// Windows a base with a verbatim prefix is rebuilt from its components.
#[verifier::external_body]
fn join_path(base: &str, child: &str) -> (r: String)
    requires
        is_plain_name(child@),
    ensures
        child@.is_suffix_of(r@),
{
    std::path::Path::new(base).join(child).to_string_lossy().into_owned()
}

/// Configuration of the icon cache.
#[derive(Debug)]
pub struct CacheConfig {
    /// The directory where cached icons are stored.
    pub cache_dir: String,
    /// Whether to bypass the cache and refetch on next access.
    pub force_refresh: bool,
}

impl CacheConfig {
    /// A configuration caching into `cache_dir`, without forced refresh.
    pub fn new(cache_dir: &str) -> (r: Self)
        ensures
            r.cache_dir@ == cache_dir@,
            !r.force_refresh,
    {
        CacheConfig { cache_dir: cache_dir.to_owned(), force_refresh: false }
    }

    /// A configuration caching into the `icon_cache` directory of the
    /// application's data directory; fails when that directory cannot be
    /// determined.
    pub fn from_app_info(qualifier: &str, organization: &str, application: &str) -> (r: Result<
        Self,
        Error,
    >)
        ensures
            r matches Ok(c) ==> !c.force_refresh && "icon_cache"@.is_suffix_of(c.cache_dir@),
            r matches Err(e) ==> e matches Error::AppDataDir { message } && message@
                == "failed to determine app data directory"@,
    {
        let located = match project_data_dir(qualifier, organization, application) {
            Some(dir) => {
                proof {
                    reveal_strlit("icon_cache");
                }
                Some(join_path(dir.as_str(), "icon_cache"))
            },
            None => None,
        };
        Self::from_located_dir(located)
    }

    /// A configuration caching into the located cache directory, or the
    /// error reporting that no directory could be located.
    pub fn from_located_dir(cache_dir: Option<String>) -> (r: Result<Self, Error>)
        ensures
            cache_dir is Some <==> r is Ok,
            r matches Ok(c) ==> c.cache_dir@ == cache_dir->0@ && !c.force_refresh,
            r matches Err(e) ==> e matches Error::AppDataDir { message } && message@
                == "failed to determine app data directory"@,
    {
        match cache_dir {
            Some(dir) => Ok(CacheConfig::new(dir.as_str())),
            None => Err(Error::AppDataDir { message: "failed to determine app data directory".to_owned() }),
        }
    }

    /// Sets whether to force refreshing the cache.
    pub fn with_force_refresh(self, force: bool) -> (r: Self)
        ensures
            r.cache_dir@ == self.cache_dir@,
            r.force_refresh == force,
    {
        CacheConfig { force_refresh: force, ..self }
    }
}

/// The file name under which the icon image of the given size and position
/// in the set is cached.
pub open spec fn icon_file_name_of(size: u32, index: usize) -> Seq<char> {
    "folder_icon_"@ + decimal(size as nat) + "_"@ + decimal(index as nat) + ".png"@
}

/// The cache of the system folder icon.
#[derive(Debug)]
pub struct IconCache {
    config: CacheConfig,
}

impl IconCache {
    /// The cache's configuration.
    pub closed spec fn config_spec(&self) -> CacheConfig {
        self.config
    }

    /// Creates a cache with the given configuration.
    pub fn new(config: CacheConfig) -> (r: Self)
        ensures
            r.config_spec() == config,
    {
        IconCache { config }
    }

    /// Creates a cache in the application's data directory; fails when that
    /// directory cannot be determined.
    pub fn from_app_info(qualifier: &str, organization: &str, application: &str) -> (r: Result<
        Self,
        Error,
    >)
        ensures
            r matches Ok(c) ==> !c.config_spec().force_refresh && "icon_cache"@.is_suffix_of(
                c.config_spec().cache_dir@,
            ),
            r matches Err(e) ==> e matches Error::AppDataDir { message } && message@
                == "failed to determine app data directory"@,
    {
        let config = CacheConfig::from_app_info(qualifier, organization, application)?;
        Ok(IconCache::new(config))
    }

    /// The cache directory.
    pub fn cache_dir(&self) -> (r: &str)
        ensures
            r@ == self.config_spec().cache_dir@,
    {
        self.config.cache_dir.as_str()
    }

    /// The file name of the cached icon image of the given size and index.
    pub fn icon_file_name(size: u32, index: usize) -> (r: String)
        ensures
            r@ == icon_file_name_of(size, index),
    {
        let mut s = empty_string();
        push_str(&mut s, "folder_icon_");
        push_decimal(&mut s, size as u64);
        push_str(&mut s, "_");
        push_decimal(&mut s, index as u64);
        push_str(&mut s, ".png");
        s
    }

    /// The file name of the cache index, which lists the cached images.
    pub fn index_file_name() -> (r: &'static str)
        ensures
            r@ == "icons.json"@,
    {
        "icons.json"
    }

    /// Whether the cache may be used: it is not forced to refresh and its
    /// index exists.
    pub fn is_cached(&self, index_exists: bool) -> (r: bool)
        ensures
            r == (!self.config_spec().force_refresh && index_exists),
    {
        if self.config.force_refresh {
            return false;
        }
        index_exists
    }
}

} // verus!
