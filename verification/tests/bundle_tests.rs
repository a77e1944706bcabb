//! Bundle assembly: back-fill from a previous bundle, preference filtering
//! and the subset check.

use bundle_licenses_lib::bundle::{Bundle, BundleBuilder};
use bundle_licenses_lib::discovery::SourceFile;
use bundle_licenses_lib::finalized_license::{
    finalized_licenses_lookup, FinalizedLicense, LicenseAndText, LICENSE_NOT_FOUNT_TEXT,
};
use bundle_licenses_lib::format::Format;
use bundle_licenses_lib::found_license::WarningKind;
use bundle_licenses_lib::license::License;
use bundle_licenses_lib::package_loader::{
    DepKind, NodeDep, PackageGraph, PackageMeta, Resolve, ResolveNode,
};
use bundle_licenses_lib::templates;

fn meta(id: &str, name: &str, version: &str, license: Option<&str>) -> PackageMeta {
    PackageMeta {
        id: String::from(id),
        name: String::from(name),
        version: String::from(version),
        repository: None,
        license: license.map(String::from),
        license_file: None,
    }
}

fn node(id: &str, deps: Vec<&str>) -> ResolveNode {
    ResolveNode {
        id: String::from(id),
        deps: deps
            .into_iter()
            .map(|pkg| NodeDep {
                pkg: String::from(pkg),
                kinds: vec![DepKind::Normal],
            })
            .collect(),
    }
}

/// A graph with a root and one dependency `dep@1.0.0` with the given
/// declaration, plus the dependency's files.
fn one_dep_graph(license: Option<&str>) -> (PackageGraph, Vec<Vec<SourceFile>>) {
    let graph = PackageGraph {
        packages: vec![
            meta("root-id", "root", "0.1.0", Some("MIT")),
            meta("dep-id", "dep", "1.0.0", license),
        ],
        workspace_members: vec![],
        resolve: Some(Resolve {
            root: Some(String::from("root-id")),
            nodes: vec![node("root-id", vec!["dep-id"]), node("dep-id", vec![])],
        }),
    };
    let files = vec![vec![], vec![]];
    (graph, files)
}

#[test]
fn bundle_contains_the_dependency_but_not_the_root() {
    let (graph, files) = one_dep_graph(Some("MIT"));
    let (bundle, _warnings) = BundleBuilder::new().exec(&graph, &files).unwrap();
    assert_eq!(bundle.root_name(), "root");
    let libs = bundle.third_party_libraries();
    assert_eq!(libs.len(), 1);
    assert_eq!(libs[0].package_name, "dep");
    assert_eq!(libs[0].package_version, "1.0.0");
    assert_eq!(libs[0].license, "MIT");
    assert_eq!(libs[0].licenses.len(), 1);
    assert_eq!(libs[0].licenses[0].license, "MIT");
    assert_eq!(libs[0].licenses[0].text, LICENSE_NOT_FOUNT_TEXT);
}

#[test]
fn found_text_is_carried_into_the_bundle() {
    let (graph, mut files) = one_dep_graph(Some("MIT"));
    files[1] = vec![SourceFile {
        name: String::from("LICENSE"),
        path: String::from("dep/LICENSE"),
        text: templates::mit_text(),
    }];
    let (bundle, warnings) = BundleBuilder::new().exec(&graph, &files).unwrap();
    let libs = bundle.third_party_libraries();
    assert_eq!(libs[0].licenses[0].text, templates::mit_text());
    assert!(warnings.is_empty());
}

#[test]
fn backfill_takes_the_previous_real_text() {
    let (graph, files) = one_dep_graph(Some("MIT"));
    let previous = Bundle::from_parts(
        String::from("root"),
        vec![FinalizedLicense {
            package_name: String::from("dep"),
            package_version: String::from("1.0.0"),
            repository: String::new(),
            license: String::from("MIT"),
            licenses: vec![LicenseAndText::new(
                &License::MIT,
                String::from("the manually supplied text"),
            )],
        }],
    );
    let (bundle, _warnings) = BundleBuilder::new()
        .previous(&previous)
        .exec(&graph, &files)
        .unwrap();
    let libs = bundle.third_party_libraries();
    assert_eq!(libs[0].licenses[0].text, "the manually supplied text");
}

#[test]
fn backfill_ignores_a_previous_not_found() {
    let (graph, files) = one_dep_graph(Some("MIT"));
    let previous = Bundle::from_parts(
        String::from("root"),
        vec![FinalizedLicense {
            package_name: String::from("dep"),
            package_version: String::from("1.0.0"),
            repository: String::new(),
            license: String::from("MIT"),
            licenses: vec![LicenseAndText::new(
                &License::MIT,
                String::from(LICENSE_NOT_FOUNT_TEXT),
            )],
        }],
    );
    let (bundle, _warnings) = BundleBuilder::new()
        .previous(&previous)
        .exec(&graph, &files)
        .unwrap();
    let libs = bundle.third_party_libraries();
    assert_eq!(libs[0].licenses[0].text, LICENSE_NOT_FOUNT_TEXT);
}

#[test]
fn preference_keeps_only_the_preferred_license() {
    let (graph, files) = one_dep_graph(Some("Apache-2.0 OR MIT"));
    let (bundle, _warnings) = BundleBuilder::new()
        .prefer(&[String::from("MIT")])
        .exec(&graph, &files)
        .unwrap();
    let libs = bundle.third_party_libraries();
    assert_eq!(libs[0].license, "MIT");
    assert_eq!(libs[0].licenses.len(), 1);
    assert_eq!(libs[0].licenses[0].license, "MIT");
}

#[test]
fn preference_leaves_and_declarations_alone() {
    let (graph, files) = one_dep_graph(Some("Apache-2.0 AND MIT"));
    let (bundle, _warnings) = BundleBuilder::new()
        .prefer(&[String::from("MIT")])
        .exec(&graph, &files)
        .unwrap();
    let libs = bundle.third_party_libraries();
    assert_eq!(libs[0].license, "Apache-2.0 AND MIT");
    assert_eq!(libs[0].licenses.len(), 2);
}

#[test]
fn unspecified_license_is_warned_about() {
    let (graph, files) = one_dep_graph(None);
    let (bundle, warnings) = BundleBuilder::new().exec(&graph, &files).unwrap();
    let libs = bundle.third_party_libraries();
    assert_eq!(libs[0].license, "No license specified");
    assert_eq!(warnings.len(), 1);
    assert_eq!(warnings[0].kind, WarningKind::UnspecifiedLicense);
    assert_eq!(warnings[0].package_name, "dep");
}

fn finalized(name: &str, version: &str, text: &str) -> FinalizedLicense {
    FinalizedLicense {
        package_name: String::from(name),
        package_version: String::from(version),
        repository: String::new(),
        license: String::from("MIT"),
        licenses: vec![LicenseAndText::new(&License::MIT, String::from(text))],
    }
}

#[test]
fn subset_check_accepts_a_superset_candidate() {
    let prior = Bundle::from_parts(
        String::from("root"),
        vec![finalized("a", "1", "ta"), finalized("b", "2", "tb")],
    );
    let candidate = Bundle::from_parts(
        String::from("root"),
        vec![
            finalized("a", "1", "ta"),
            finalized("b", "2", "tb"),
            finalized("c", "3", "tc"),
        ],
    );
    assert!(candidate.check_subset(&prior));
    assert!(!prior.check_subset(&candidate));
}

#[test]
fn subset_check_rejects_changed_entries_and_roots() {
    let prior = Bundle::from_parts(String::from("root"), vec![finalized("a", "1", "ta")]);
    let changed = Bundle::from_parts(String::from("root"), vec![finalized("a", "1", "other")]);
    assert!(!changed.check_subset(&prior));
    let renamed = Bundle::from_parts(String::from("other-root"), vec![finalized("a", "1", "ta")]);
    assert!(!renamed.check_subset(&prior));
}

#[test]
fn bundle_equality_is_positional() {
    let a = Bundle::from_parts(
        String::from("root"),
        vec![finalized("a", "1", "ta"), finalized("b", "2", "tb")],
    );
    let b = Bundle::from_parts(
        String::from("root"),
        vec![finalized("a", "1", "ta"), finalized("b", "2", "tb")],
    );
    let c = Bundle::from_parts(
        String::from("root"),
        vec![finalized("b", "2", "tb"), finalized("a", "1", "ta")],
    );
    assert!(a == b);
    assert!(a != c);
}

#[test]
fn format_names_round_trip() {
    assert_eq!(Format::parse_name("json"), Some(Format::Json));
    assert_eq!(Format::parse_name("toml"), Some(Format::Toml));
    assert_eq!(Format::parse_name("tml"), Some(Format::Toml));
    assert_eq!(Format::parse_name("yaml"), Some(Format::Yaml));
    assert_eq!(Format::parse_name("yml"), Some(Format::Yaml));
    assert_eq!(Format::parse_name("xml"), None);
    assert_eq!(Format::Toml.name(), "toml");
}

#[test]
fn lookup_mirrors_the_records() {
    let records = vec![finalized("a", "1", "ta"), finalized("b", "2", "tb")];
    let lookup = finalized_licenses_lookup(&records);
    assert_eq!(lookup.len(), 2);
    assert_eq!(lookup[0].1.len(), 1);
    assert_eq!(lookup[0].1[0].license, "MIT");
    assert_eq!(lookup[0].1[0].text, "ta");
    assert_eq!(lookup[1].1[0].text, "tb");
}
