//! Confidence scoring and license-text discovery.

use bundle_licenses_lib::discovery::{
    check_against_template, find_package_license, Confidence, SourceFile,
};
use bundle_licenses_lib::license::License;
use bundle_licenses_lib::templates;

#[test]
fn template_against_itself_is_confident() {
    let mit = templates::mit_text();
    assert_eq!(
        check_against_template(&mit, &License::MIT),
        Confidence::Confident
    );
    let zlib = templates::zlib_text();
    assert_eq!(
        check_against_template(&zlib, &License::Zlib),
        Confidence::Confident
    );
}

#[test]
fn whitespace_only_changes_keep_the_tier() {
    let mit = templates::mit_text();
    let reflowed = mit.split_whitespace().collect::<Vec<_>>().join("  \n ");
    assert_eq!(
        check_against_template(&reflowed, &License::MIT),
        Confidence::Confident
    );
}

#[test]
fn placeholder_substitution_is_tolerated() {
    let mit = templates::mit_text()
        .replace("<year>", "2021")
        .replace("<copyright holders>", "A Real Person");
    assert_eq!(
        check_against_template(&mit, &License::MIT),
        Confidence::Confident
    );
}

#[test]
fn unrelated_text_is_unsure() {
    let text = "This file has nothing to do with any license text whatsoever. \
                It talks about build instructions and nothing else at all.";
    assert_eq!(
        check_against_template(text, &License::MIT),
        Confidence::Unsure
    );
}

#[test]
fn missing_template_scores_no_template() {
    assert_eq!(
        check_against_template("anything", &License::CC0_1_0),
        Confidence::NoTemplate
    );
    assert_eq!(
        check_against_template("anything", &License::Custom(String::from("own"))),
        Confidence::NoTemplate
    );
}

#[test]
fn multiple_uses_the_union_of_templates() {
    let both = License::Multiple(vec![License::Apache_2_0, License::MIT]);
    let merged = format!("{}\n{}", templates::apache_2_0_text(), templates::mit_text());
    assert_eq!(
        check_against_template(&merged, &both),
        Confidence::Confident
    );
    // a member without a template degrades the whole comparison
    let degraded = License::Multiple(vec![License::MIT, License::CC0_1_0]);
    assert_eq!(
        check_against_template(&merged, &degraded),
        Confidence::NoTemplate
    );
}

fn file(name: &str, text: &str) -> SourceFile {
    SourceFile {
        name: String::from(name),
        path: format!("pkg/{name}"),
        text: String::from(text),
    }
}

#[test]
fn name_specific_files_beat_generic_ones() {
    let mit = templates::mit_text();
    let files = vec![
        file("README.md", "hello"),
        file("LICENSE", &mit),
        file("LICENSE-MIT", &mit),
    ];
    let found = find_package_license(&files, &License::MIT);
    assert_eq!(found.len(), 1);
    assert_eq!(found[0].path, "pkg/LICENSE-MIT");
    assert_eq!(found[0].confidence, Confidence::Confident);
}

#[test]
fn generic_file_is_the_fallback() {
    let mit = templates::mit_text();
    let files = vec![file("README.md", "hello"), file("COPYING", &mit)];
    let found = find_package_license(&files, &License::MIT);
    assert_eq!(found.len(), 1);
    assert_eq!(found[0].path, "pkg/COPYING");
    assert_eq!(found[0].confidence, Confidence::Confident);
}

#[test]
fn no_plausible_file_finds_nothing() {
    let files = vec![file("README.md", "hello"), file("src.rs", "fn main() {}")];
    let found = find_package_license(&files, &License::MIT);
    assert_eq!(found.len(), 0);
}

#[test]
fn custom_license_matches_its_slug() {
    let files = vec![file("LICENSE-my-own-terms.txt", "the terms")];
    let found = find_package_license(&files, &License::Custom(String::from("My Own Terms")));
    assert_eq!(found.len(), 1);
    assert_eq!(found[0].confidence, Confidence::NoTemplate);
}

#[test]
fn scoring_folds_case() {
    let shouted = templates::mit_text().to_uppercase();
    assert_eq!(
        check_against_template(&shouted, &License::MIT),
        Confidence::Confident
    );
}

#[test]
fn generic_names_match_case_insensitively() {
    let mit = templates::mit_text();
    let files = vec![file("license", &mit)];
    let found = find_package_license(&files, &License::MIT);
    assert_eq!(found.len(), 1);
    assert_eq!(found[0].confidence, Confidence::Confident);
}
