//! Where the application keeps its assets.
//!
//! A location is the list of names to descend through, starting at the
//! platform's application data directory. Joining the names to that
//! directory is left to the caller, who knows the platform's separator.

use vstd::prelude::*;

verus! {

/// The application's directory below the data directory.
pub const APP_DIR: &'static str = "Notion";

/// The asset cache below the application's directory.
pub const CACHE_DIR: &'static str = "notionAssetCache-v2";

/// The version manifest inside the asset cache.
pub const MANIFEST_FILE: &'static str = "latestVersion.json";

/// The directory of a version that holds its assets.
pub const ASSETS_DIR: &'static str = "assets";

/// The directory below [`ASSETS_DIR`] that holds the web bundle.
pub const BUNDLE_DIR: &'static str = "_assets";

/// The file name pattern of the Chinese locale script.
pub const SCRIPT_PATTERN: &'static str = "localeSetup-zh-CN-*.js";

/// The file name pattern of the entry page.
pub const PAGE_PATTERN: &'static str = "index-en-US-*.html";

/// The asset cache directory.
pub open spec fn asset_cache_dir() -> Seq<Seq<char>> {
    seq![APP_DIR@, CACHE_DIR@]
}

/// The version manifest.
pub open spec fn manifest_path() -> Seq<Seq<char>> {
    asset_cache_dir().push(MANIFEST_FILE@)
}

/// The directory that holds the web bundle of `version`.
pub open spec fn versioned_asset_dir(version: Seq<char>) -> Seq<Seq<char>> {
    asset_cache_dir() + seq![version, ASSETS_DIR@, BUNDLE_DIR@]
}

/// The file named `name` in the web bundle of `version`.
pub open spec fn asset_path(version: Seq<char>, name: Seq<char>) -> Seq<Seq<char>> {
    versioned_asset_dir(version).push(name)
}

/// Builds the location of the asset cache directory.
pub fn resolve_asset_cache_dir() -> (path: Vec<String>)
    ensures
        path.deep_view() == asset_cache_dir(),
{
    let mut path: Vec<String> = Vec::new();
    path.push(APP_DIR.to_owned());
    path.push(CACHE_DIR.to_owned());
    assert(path.deep_view() =~= asset_cache_dir());
    path
}

/// Builds the location of the version manifest.
pub fn resolve_manifest_path() -> (path: Vec<String>)
    ensures
        path.deep_view() == manifest_path(),
{
    let mut path = resolve_asset_cache_dir();
    path.push(MANIFEST_FILE.to_owned());
    assert(path.deep_view() =~= manifest_path());
    path
}

/// Builds the location of the web bundle of `version`. Whether it exists
/// shows only when files are looked for in it.
pub fn resolve_versioned_asset_dir(version: &str) -> (path: Vec<String>)
    ensures
        path.deep_view() == versioned_asset_dir(version@),
{
    let mut path = resolve_asset_cache_dir();
    path.push(version.to_owned());
    path.push(ASSETS_DIR.to_owned());
    path.push(BUNDLE_DIR.to_owned());
    assert(path.deep_view() =~= versioned_asset_dir(version@));
    path
}

/// Builds the location of the file named `name` in the web bundle of
/// `version`.
pub fn resolve_asset_path(version: &str, name: &str) -> (path: Vec<String>)
    ensures
        path.deep_view() == asset_path(version@, name@),
{
    let mut path = resolve_versioned_asset_dir(version);
    path.push(name.to_owned());
    assert(path.deep_view() =~= asset_path(version@, name@));
    path
}

} // verus!
