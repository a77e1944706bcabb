//! The package graph: root discovery and the normal-dependency closure.

use bundle_licenses_lib::package_loader::{
    DepKind, NodeDep, PackageGraph, PackageLoaderError, PackageMeta, Resolve, ResolveNode,
};

fn meta(id: &str, name: &str, version: &str) -> PackageMeta {
    PackageMeta {
        id: String::from(id),
        name: String::from(name),
        version: String::from(version),
        repository: None,
        license: Some(String::from("MIT")),
        license_file: None,
    }
}

fn node(id: &str, deps: Vec<(&str, DepKind)>) -> ResolveNode {
    ResolveNode {
        id: String::from(id),
        deps: deps
            .into_iter()
            .map(|(pkg, kind)| NodeDep {
                pkg: String::from(pkg),
                kinds: vec![kind],
            })
            .collect(),
    }
}

#[test]
fn closure_follows_normal_edges_only() {
    // a -> b (normal), a -> c (dev-only)
    let graph = PackageGraph {
        packages: vec![meta("a", "a", "1"), meta("b", "b", "1"), meta("c", "c", "1")],
        workspace_members: vec![],
        resolve: Some(Resolve {
            root: Some(String::from("a")),
            nodes: vec![
                node("a", vec![("b", DepKind::Normal), ("c", DepKind::Development)]),
                node("b", vec![]),
                node("c", vec![]),
            ],
        }),
    };
    let roots = graph.get_package_roots().unwrap();
    assert_eq!(roots, vec![0]);
    let mut closure = graph.get_root_dependencies(&roots).unwrap();
    closure.sort();
    assert_eq!(closure, vec![0, 1]);
}

#[test]
fn closure_is_transitive_and_visits_once() {
    // a -> b -> c, and b -> a closes a cycle
    let graph = PackageGraph {
        packages: vec![meta("a", "a", "1"), meta("b", "b", "1"), meta("c", "c", "1")],
        workspace_members: vec![],
        resolve: Some(Resolve {
            root: Some(String::from("a")),
            nodes: vec![
                node("a", vec![("b", DepKind::Normal)]),
                node("b", vec![("c", DepKind::Normal), ("a", DepKind::Normal)]),
                node("c", vec![]),
            ],
        }),
    };
    let roots = graph.get_package_roots().unwrap();
    let mut closure = graph.get_root_dependencies(&roots).unwrap();
    closure.sort();
    assert_eq!(closure, vec![0, 1, 2]);
}

#[test]
fn missing_resolution_is_fatal() {
    let graph = PackageGraph {
        packages: vec![meta("a", "a", "1")],
        workspace_members: vec![],
        resolve: None,
    };
    assert!(matches!(
        graph.get_package_roots(),
        Err(PackageLoaderError::DependencyResolution)
    ));
}

#[test]
fn missing_package_is_fatal() {
    let graph = PackageGraph {
        packages: vec![meta("a", "a", "1")],
        workspace_members: vec![],
        resolve: Some(Resolve {
            root: Some(String::from("a")),
            nodes: vec![node("a", vec![("ghost-pkg", DepKind::Normal)]), node("ghost-pkg", vec![])],
        }),
    };
    let roots = graph.get_package_roots().unwrap();
    match graph.get_root_dependencies(&roots) {
        Err(PackageLoaderError::PackageNotFound(id)) => assert_eq!(id, "ghost-pkg"),
        other => panic!("expected a missing package, got {other:?}"),
    }
}

#[test]
fn workspace_members_are_the_roots_without_a_single_root() {
    let graph = PackageGraph {
        packages: vec![meta("a", "a", "1"), meta("b", "b", "1")],
        workspace_members: vec![String::from("b"), String::from("a")],
        resolve: Some(Resolve {
            root: None,
            nodes: vec![node("a", vec![]), node("b", vec![])],
        }),
    };
    let roots = graph.get_package_roots().unwrap();
    assert_eq!(roots, vec![1, 0]);
}
