//! The per-editor settings and their defaults.

use vstd::prelude::*;
use crate::storage::workspace::{AssetCachingStrategy, RemoteDataStrategy};

verus! {

/// The empty setting value.
pub fn null() -> (r: Option<()>)
    ensures
        r is None,
{
    None
}

/// The settings of an editor window.
#[derive(Debug)]
pub struct EditorSettings {
    plugins: EditorPluginSettings,
    assets: EditorAssetSettings,
}

/// Whether plugins run, and whether unpacked plugins are allowed.
#[derive(Debug, Copy, Clone)]
pub struct EditorPluginSettings {
    pub enable: bool,
    pub allow_unpacked: bool,
}

/// How assets are cached and which remote data is fetched.
#[derive(Debug, Copy, Clone)]
pub struct EditorAssetSettings {
    pub cache_strategy: AssetCachingStrategy,
    pub fetch_remote: RemoteDataStrategy,
}

impl EditorSettings {
    /// The plugin settings.
    pub closed spec fn spec_plugins(&self) -> EditorPluginSettings {
        self.plugins
    }

    /// The asset settings.
    pub closed spec fn spec_assets(&self) -> EditorAssetSettings {
        self.assets
    }

    /// Editor settings with the default plugin and asset settings.
    pub fn new() -> (r: Self)
        ensures
            !r.spec_plugins().enable,
            !r.spec_plugins().allow_unpacked,
            r.spec_assets().cache_strategy == AssetCachingStrategy::Blob,
            r.spec_assets().fetch_remote == RemoteDataStrategy::All,
    {
        Self { plugins: EditorPluginSettings::default(), assets: EditorAssetSettings::default() }
    }

    /// The plugin settings.
    pub fn plugins(&self) -> (r: EditorPluginSettings)
        ensures
            r == self.spec_plugins(),
    {
        self.plugins
    }

    /// The asset settings.
    pub fn assets(&self) -> (r: EditorAssetSettings)
        ensures
            r == self.spec_assets(),
    {
        self.assets
    }
}

impl Default for EditorPluginSettings {
    /// Plugins disabled, unpacked plugins refused.
    fn default() -> (r: Self)
        ensures
            !r.enable,
            !r.allow_unpacked,
    {
        Self { enable: false, allow_unpacked: false }
    }
}

impl Default for EditorAssetSettings {
    /// Assets cached as blobs, all remote data fetched.
    fn default() -> (r: Self)
        ensures
            r.cache_strategy == AssetCachingStrategy::Blob,
            r.fetch_remote == RemoteDataStrategy::All,
    {
        Self { cache_strategy: AssetCachingStrategy::Blob, fetch_remote: RemoteDataStrategy::All }
    }
}

} // verus!
