use fullstack_bulletin::orchestrator::{build_campaign_name, build_issue_slug, build_subject_line};
use fullstack_bulletin::text::{contains_str, join_comma, slugify, u32_to_string};

#[test]
fn test_slug_from_title() {
    assert_eq!(
        build_issue_slug(435, "An Interactive Guide to SVG Paths"),
        "435-an-interactive-guide-to-svg-paths"
    );
}

#[test]
fn test_slug_collapses_runs_and_trims() {
    let slug = build_issue_slug(7, "Multiple---dashes & spaces!!!");
    assert_eq!(slug, "7-multiple-dashes-spaces");
    assert!(!slug.ends_with('-'));
    // the bare slug body carries no leading or trailing hyphen either
    assert_eq!(slugify("  --Hello, World!--  "), "hello-world");
    assert_eq!(slugify("!!!"), "");
}

#[test]
fn test_decimal_rendering() {
    assert_eq!(u32_to_string(0), "0");
    assert_eq!(u32_to_string(435), "435");
    assert_eq!(u32_to_string(4294967295), "4294967295");
}

#[test]
fn test_subject_line_exact() {
    assert_eq!(
        build_subject_line(435, "An Interactive Guide to SVG Paths"),
        "📨 An Interactive Guide to SVG Paths — FullStack Bulletin #435"
    );
}

#[test]
fn test_campaign_name_exact() {
    assert_eq!(build_campaign_name(435), "fullstackBulletin-435");
}

#[test]
fn test_contains_str() {
    assert!(contains_str("https://github.com/user", "github.com"));
    assert!(!contains_str("https://example.com", "github.com"));
    assert!(contains_str("abc", ""));
    assert!(!contains_str("ab", "abc"));
}

#[test]
fn test_join_comma() {
    let items: Vec<String> = vec!["a".to_string(), "b".to_string(), "c".to_string()];
    assert_eq!(join_comma(&items), "a, b, c");
    let one: Vec<String> = vec!["solo".to_string()];
    assert_eq!(join_comma(&one), "solo");
    let none: Vec<String> = Vec::new();
    assert_eq!(join_comma(&none), "");
}
