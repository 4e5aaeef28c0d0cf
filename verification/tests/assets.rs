use notion_zh::assets::find_by_glob;
use notion_zh::error::LocalizeError;

fn name(s: &str) -> Option<String> {
    Some(s.to_string())
}

#[test]
fn single_match_is_taken() {
    assert_eq!(
        find_by_glob(&vec![name("localeSetup-zh-CN-42.js")], "localeSetup-zh-CN-*.js"),
        Ok("localeSetup-zh-CN-42.js".to_string())
    );
}

#[test]
fn first_match_is_taken_without_sorting() {
    let matches = vec![name("index-en-US-9.html"), name("index-en-US-1.html")];
    assert_eq!(find_by_glob(&matches, "index-en-US-*.html"), Ok("index-en-US-9.html".to_string()));
}

#[test]
fn unreadable_matches_are_passed_over() {
    let matches = vec![None, None, name("index-en-US-1.html"), name("index-en-US-2.html")];
    assert_eq!(find_by_glob(&matches, "index-en-US-*.html"), Ok("index-en-US-1.html".to_string()));
}

#[test]
fn no_match_reports_the_pattern() {
    assert_eq!(
        find_by_glob(&vec![], "localeSetup-zh-CN-*.js"),
        Err(LocalizeError::AssetNotFound("localeSetup-zh-CN-*.js".to_string()))
    );
}

#[test]
fn only_unreadable_matches_report_the_pattern() {
    assert_eq!(
        find_by_glob(&vec![None, None], "index-en-US-*.html"),
        Err(LocalizeError::AssetNotFound("index-en-US-*.html".to_string()))
    );
}

#[test]
fn error_clone_keeps_the_variant_and_the_pattern() {
    let errors = vec![
        LocalizeError::Environment,
        LocalizeError::NotInstalled,
        LocalizeError::ManifestParse,
        LocalizeError::VersionNotFound,
        LocalizeError::AssetNotFound("index-en-US-*.html".to_string()),
        LocalizeError::Io,
        LocalizeError::Encoding,
    ];
    for error in &errors {
        assert_eq!(&error.clone(), error);
    }
}
