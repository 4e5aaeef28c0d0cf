use notion_zh::layout::{
    resolve_asset_cache_dir, resolve_asset_path, resolve_manifest_path,
    resolve_versioned_asset_dir, PAGE_PATTERN, SCRIPT_PATTERN,
};

#[test]
fn asset_cache_is_below_the_application_directory() {
    assert_eq!(resolve_asset_cache_dir(), vec!["Notion", "notionAssetCache-v2"]);
}

#[test]
fn manifest_is_inside_the_asset_cache() {
    assert_eq!(
        resolve_manifest_path(),
        vec!["Notion", "notionAssetCache-v2", "latestVersion.json"]
    );
}

#[test]
fn bundle_of_a_version_is_two_levels_below_it() {
    assert_eq!(
        resolve_versioned_asset_dir("9.9.9"),
        vec!["Notion", "notionAssetCache-v2", "9.9.9", "assets", "_assets"]
    );
}

#[test]
fn asset_is_named_inside_the_bundle() {
    assert_eq!(
        resolve_asset_path("9.9.9", "index-en-US-5.html"),
        vec!["Notion", "notionAssetCache-v2", "9.9.9", "assets", "_assets", "index-en-US-5.html"]
    );
}

#[test]
fn patterns_have_one_wildcard_each() {
    assert_eq!(SCRIPT_PATTERN, "localeSetup-zh-CN-*.js");
    assert_eq!(PAGE_PATTERN, "index-en-US-*.html");
}
