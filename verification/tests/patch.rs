use notion_zh::patch::{apply_localization, build_marker, Patch, DOCTYPE, SCRIPT_CLOSE, SCRIPT_OPEN};

const MARKER_42: &str =
    "<!doctype html><script defer=\"defer\" src=\"/_assets/localeSetup-zh-CN-42.js\"></script>";

fn rewritten(patch: Patch) -> String {
    match patch {
        Patch::Rewrite(content) => content,
        Patch::AlreadyLocalized => panic!("the page was taken for localized"),
    }
}

#[test]
fn marker_parts_are_the_declaration_and_the_script_tag() {
    assert_eq!(DOCTYPE, "<!doctype html>");
    assert_eq!(SCRIPT_OPEN, "<script defer=\"defer\" src=\"/_assets/");
    assert_eq!(SCRIPT_CLOSE, "\"></script>");
}

#[test]
fn marker_is_exact_for_a_script_name() {
    assert_eq!(build_marker("localeSetup-zh-CN-42.js"), MARKER_42);
}

#[test]
fn marker_has_no_whitespace_between_declaration_and_tag() {
    let marker = build_marker("a.js");
    assert_eq!(marker, "<!doctype html><script defer=\"defer\" src=\"/_assets/a.js\"></script>");
    assert!(marker.starts_with("<!doctype html><script "));
}

#[test]
fn leading_declaration_is_replaced_by_the_marker() {
    let page = "<!doctype html><html><head></head><body></body></html>";
    let patch = apply_localization(page, "localeSetup-zh-CN-42.js");
    assert_eq!(
        patch,
        Patch::Rewrite(format!("{}<html><head></head><body></body></html>", MARKER_42))
    );
}

#[test]
fn applying_twice_changes_nothing_the_second_time() {
    let page = "<!doctype html><html lang=\"en\"></html>";
    let once = rewritten(apply_localization(page, "localeSetup-zh-CN-42.js"));
    assert_eq!(apply_localization(&once, "localeSetup-zh-CN-42.js"), Patch::AlreadyLocalized);
}

#[test]
fn marker_anywhere_in_the_page_counts_as_localized() {
    let page = format!("<!-- saved -->\n{}<html></html>", MARKER_42);
    assert_eq!(apply_localization(&page, "localeSetup-zh-CN-42.js"), Patch::AlreadyLocalized);
}

#[test]
fn only_the_first_declaration_is_replaced() {
    let page = "<!doctype html><html><pre><!doctype html></pre></html>";
    let patch = apply_localization(page, "localeSetup-zh-CN-42.js");
    assert_eq!(
        patch,
        Patch::Rewrite(format!("{}<html><pre><!doctype html></pre></html>", MARKER_42))
    );
}

#[test]
fn declaration_behind_other_text_is_replaced_in_place() {
    let page = "\u{feff}\n<!doctype html><html></html>";
    let patch = apply_localization(page, "localeSetup-zh-CN-42.js");
    assert_eq!(patch, Patch::Rewrite(format!("\u{feff}\n{}<html></html>", MARKER_42)));
}

#[test]
fn declaration_is_matched_case_sensitively() {
    let page = "<!DOCTYPE html><html></html>";
    assert_eq!(
        apply_localization(page, "localeSetup-zh-CN-42.js"),
        Patch::Rewrite(page.to_string())
    );
}

#[test]
fn declaration_with_attributes_is_not_the_bare_declaration() {
    let page = "<!doctype html public><html></html>";
    assert_eq!(
        apply_localization(page, "localeSetup-zh-CN-42.js"),
        Patch::Rewrite(page.to_string())
    );
}

#[test]
fn page_without_declaration_is_rewritten_unchanged() {
    assert_eq!(
        apply_localization("<html></html>", "localeSetup-zh-CN-42.js"),
        Patch::Rewrite("<html></html>".to_string())
    );
    assert_eq!(apply_localization("", "localeSetup-zh-CN-42.js"), Patch::Rewrite(String::new()));
}

#[test]
fn page_without_declaration_stays_the_same_when_applied_twice() {
    let once = rewritten(apply_localization("<html></html>", "x.js"));
    let twice = rewritten(apply_localization(&once, "x.js"));
    assert_eq!(once, twice);
}

#[test]
fn page_localized_for_another_script_gets_the_new_marker() {
    let old = "<!doctype html><script defer=\"defer\" src=\"/_assets/localeSetup-zh-CN-41.js\"></script><html></html>";
    let patch = apply_localization(old, "localeSetup-zh-CN-42.js");
    assert_eq!(
        patch,
        Patch::Rewrite(format!(
            "{}<script defer=\"defer\" src=\"/_assets/localeSetup-zh-CN-41.js\"></script><html></html>",
            MARKER_42
        ))
    );
}

#[test]
fn text_outside_ascii_is_kept_as_it_is() {
    let page = "<!-- 页面 --><!doctype html><title>笔记 – Notion</title>";
    let patch = apply_localization(page, "localeSetup-zh-CN-42.js");
    assert_eq!(
        patch,
        Patch::Rewrite(format!("<!-- 页面 -->{}<title>笔记 – Notion</title>", MARKER_42))
    );
}
