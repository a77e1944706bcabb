//! The best-candidate selector.

use bundle_licenses_lib::discovery::{Confidence, LicenseText};
use bundle_licenses_lib::found_license::{choose_best, BestChoice};

fn candidate(path: &str, confidence: Confidence) -> LicenseText {
    LicenseText {
        path: String::from(path),
        text: String::from("text"),
        confidence,
    }
}

#[test]
fn confident_beats_unsure() {
    let (choice, confidence) = choose_best(vec![
        candidate("a", Confidence::Unsure),
        candidate("b", Confidence::Confident),
    ]);
    assert_eq!(confidence, Confidence::Confident);
    match choice {
        BestChoice::Single(t) => assert_eq!(t.path, "b"),
        _ => panic!("expected a single choice"),
    }
}

#[test]
fn two_confident_candidates_are_ambiguous() {
    let (choice, confidence) = choose_best(vec![
        candidate("a", Confidence::Confident),
        candidate("b", Confidence::Confident),
    ]);
    assert_eq!(confidence, Confidence::Confident);
    match choice {
        BestChoice::Multiple(ts) => {
            assert_eq!(ts.len(), 2);
            assert_eq!(ts[0].path, "a");
            assert_eq!(ts[1].path, "b");
        }
        _ => panic!("expected an ambiguous choice"),
    }
}

#[test]
fn no_candidates_is_missing_license_file() {
    let (choice, confidence) = choose_best(vec![]);
    assert_eq!(confidence, Confidence::MissingLicenseFile);
    assert!(matches!(choice, BestChoice::NoneFound));
}

#[test]
fn lower_tiers_are_reached_in_order() {
    let (choice, confidence) = choose_best(vec![
        candidate("a", Confidence::NoTemplate),
        candidate("b", Confidence::Unsure),
    ]);
    assert_eq!(confidence, Confidence::Unsure);
    match choice {
        BestChoice::Single(t) => assert_eq!(t.path, "b"),
        _ => panic!("expected a single choice"),
    }
    let (choice, confidence) = choose_best(vec![candidate("a", Confidence::NoTemplate)]);
    assert_eq!(confidence, Confidence::NoTemplate);
    assert!(matches!(choice, BestChoice::Single(_)));
}
