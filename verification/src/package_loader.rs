//! The resolved package graph of a project and the computation of the
//! transitive closure of its normal (runtime) dependencies.

use vstd::prelude::*;
use vstd::string::StringExecFns;

verus! {

/// A failure while resolving the package graph: the metadata could not be
/// loaded, the graph carries no resolution, or an identifier points at no
/// package.
#[derive(Debug)]
pub enum PackageLoaderError {
    CargoMetadata(String),
    DependencyResolution,
    PackageNotFound(String),
}

/// What the loader knows about one package: its identity and the license
/// declarations of its manifest. The license-file path, when present, is
/// already normalized by the caller.
#[derive(Debug)]
pub struct PackageMeta {
    pub id: String,
    pub name: String,
    pub version: String,
    pub repository: Option<String>,
    pub license: Option<String>,
    pub license_file: Option<String>,
}

/// The mathematical shape of a [`PackageMeta`].
pub struct PackageMetaV {
    pub id: Seq<char>,
    pub name: Seq<char>,
    pub version: Seq<char>,
    pub repository: Option<Seq<char>>,
    pub license: Option<Seq<char>>,
    pub license_file: Option<Seq<char>>,
}

/// The view of an optional string.
pub open spec fn opt_view(o: Option<String>) -> Option<Seq<char>> {
    match o {
        Some(s) => Some(s@),
        None => None,
    }
}

impl View for PackageMeta {
    type V = PackageMetaV;

    open spec fn view(&self) -> PackageMetaV {
        PackageMetaV {
            id: self.id@,
            name: self.name@,
            version: self.version@,
            repository: opt_view(self.repository),
            license: opt_view(self.license),
            license_file: opt_view(self.license_file),
        }
    }
}

/// Clones an optional string, preserving the view.
pub(crate) fn clone_opt_string(o: &Option<String>) -> (r: Option<String>)
    ensures
        opt_view(r) == opt_view(*o),
{
    match o {
        Some(s) => Some(s.clone()),
        None => None,
    }
}

impl Clone for PackageMeta {
    /// A clone has the same view as the original.
    fn clone(&self) -> (r: Self)
        ensures
            r@ == self@,
    {
        PackageMeta {
            id: self.id.clone(),
            name: self.name.clone(),
            version: self.version.clone(),
            repository: clone_opt_string(&self.repository),
            license: clone_opt_string(&self.license),
            license_file: clone_opt_string(&self.license_file),
        }
    }
}

/// The kind of one dependency edge.
#[derive(Debug, Clone, Copy, PartialEq, Eq, Structural)]
pub enum DepKind {
    Normal,
    Development,
    Build,
    Unknown,
}

/// One outgoing dependency edge of a resolve node.
#[derive(Debug)]
pub struct NodeDep {
    /// The identifier of the package depended on.
    pub pkg: String,
    /// Every kind under which the dependency is declared.
    pub kinds: Vec<DepKind>,
}

/// The mathematical shape of a [`NodeDep`].
pub struct NodeDepV {
    pub pkg: Seq<char>,
    pub kinds: Seq<DepKind>,
}

impl View for NodeDep {
    type V = NodeDepV;

    open spec fn view(&self) -> NodeDepV {
        NodeDepV { pkg: self.pkg@, kinds: self.kinds@ }
    }
}

/// One node of the dependency resolution: a package and its outgoing edges.
#[derive(Debug)]
pub struct ResolveNode {
    pub id: String,
    pub deps: Vec<NodeDep>,
}

/// The mathematical shape of a [`ResolveNode`].
pub struct ResolveNodeV {
    pub id: Seq<char>,
    pub deps: Seq<NodeDepV>,
}

impl View for ResolveNode {
    type V = ResolveNodeV;

    open spec fn view(&self) -> ResolveNodeV {
        ResolveNodeV { id: self.id@, deps: self.deps@.map_values(|d: NodeDep| d@) }
    }
}

/// The dependency resolution of the graph: the root package (absent for a
/// virtual workspace) and one node per package.
#[derive(Debug)]
pub struct Resolve {
    pub root: Option<String>,
    pub nodes: Vec<ResolveNode>,
}

/// The mathematical shape of a [`Resolve`].
pub struct ResolveV {
    pub root: Option<Seq<char>>,
    pub nodes: Seq<ResolveNodeV>,
}

impl View for Resolve {
    type V = ResolveV;

    open spec fn view(&self) -> ResolveV {
        ResolveV { root: opt_view(self.root), nodes: self.nodes@.map_values(|n: ResolveNode| n@) }
    }
}

/// A project's resolved package graph, as the metadata provider reports it.
#[derive(Debug)]
pub struct PackageGraph {
    pub packages: Vec<PackageMeta>,
    pub workspace_members: Vec<String>,
    pub resolve: Option<Resolve>,
}

/// The mathematical shape of a [`PackageGraph`].
pub struct PackageGraphV {
    pub packages: Seq<PackageMetaV>,
    pub workspace_members: Seq<Seq<char>>,
    pub resolve: Option<ResolveV>,
}

impl View for PackageGraph {
    type V = PackageGraphV;

    open spec fn view(&self) -> PackageGraphV {
        PackageGraphV {
            packages: self.packages@.map_values(|p: PackageMeta| p@),
            workspace_members: self.workspace_members@.map_values(|m: String| m@),
            resolve: match self.resolve {
                Some(r) => Some(r@),
                None => None,
            },
        }
    }
}

/// The first package with the given identifier, as every lookup resolves it.
pub open spec fn first_pkg(ps: Seq<PackageMetaV>, id: Seq<char>) -> Option<int>
    decreases ps.len(),
{
    if ps.len() == 0 {
        None
    } else if ps[0].id == id {
        Some(0)
    } else {
        match first_pkg(ps.drop_first(), id) {
            Some(i) => Some(i + 1),
            None => None,
        }
    }
}

/// The first resolve node with the given identifier.
pub open spec fn first_node(ns: Seq<ResolveNodeV>, id: Seq<char>) -> Option<int>
    decreases ns.len(),
{
    if ns.len() == 0 {
        None
    } else if ns[0].id == id {
        Some(0)
    } else {
        match first_node(ns.drop_first(), id) {
            Some(i) => Some(i + 1),
            None => None,
        }
    }
}

/// Where the first package lookup lands: in bounds, on the identifier, and
/// after no earlier match.
pub proof fn lemma_first_pkg(ps: Seq<PackageMetaV>, id: Seq<char>)
    ensures
        match first_pkg(ps, id) {
            Some(i) => 0 <= i < ps.len() && ps[i].id == id && forall|k: int|
                0 <= k < i ==> (#[trigger] ps[k]).id != id,
            None => forall|k: int| 0 <= k < ps.len() ==> (#[trigger] ps[k]).id != id,
        },
    decreases ps.len(),
{
    if ps.len() > 0 && ps[0].id != id {
        lemma_first_pkg(ps.drop_first(), id);
        match first_pkg(ps.drop_first(), id) {
            Some(i) => {
                assert(ps.drop_first()[i] == ps[i + 1]);
                assert forall|k: int| 0 <= k < i + 1 implies (#[trigger] ps[k]).id != id by {
                    if k > 0 {
                        assert(ps.drop_first()[k - 1] == ps[k]);
                    }
                }
            },
            None => {
                assert forall|k: int| 0 <= k < ps.len() implies (#[trigger] ps[k]).id != id by {
                    if k > 0 {
                        assert(ps.drop_first()[k - 1] == ps[k]);
                    }
                }
            },
        }
    }
}

proof fn lemma_first_node(ns: Seq<ResolveNodeV>, id: Seq<char>)
    ensures
        match first_node(ns, id) {
            Some(i) => 0 <= i < ns.len() && ns[i].id == id && forall|k: int|
                0 <= k < i ==> (#[trigger] ns[k]).id != id,
            None => forall|k: int| 0 <= k < ns.len() ==> (#[trigger] ns[k]).id != id,
        },
    decreases ns.len(),
{
    if ns.len() > 0 && ns[0].id != id {
        lemma_first_node(ns.drop_first(), id);
        match first_node(ns.drop_first(), id) {
            Some(i) => {
                assert(ns.drop_first()[i] == ns[i + 1]);
                assert forall|k: int| 0 <= k < i + 1 implies (#[trigger] ns[k]).id != id by {
                    if k > 0 {
                        assert(ns.drop_first()[k - 1] == ns[k]);
                    }
                }
            },
            None => {
                assert forall|k: int| 0 <= k < ns.len() implies (#[trigger] ns[k]).id != id by {
                    if k > 0 {
                        assert(ns.drop_first()[k - 1] == ns[k]);
                    }
                }
            },
        }
    }
}

/// Finds the first package with the given identifier.
fn find_package(packages: &Vec<PackageMeta>, id: &str) -> (r: Option<usize>)
    ensures
        match r {
            Some(i) => first_pkg(packages@.map_values(|p: PackageMeta| p@), id@) == Some(i as int),
            None => first_pkg(packages@.map_values(|p: PackageMeta| p@), id@) is None,
        },
{
    let ghost ps = packages@.map_values(|p: PackageMeta| p@);
    proof {
        lemma_first_pkg(ps, id@);
    }
    let mut i: usize = 0;
    while i < packages.len()
        invariant
            ps == packages@.map_values(|p: PackageMeta| p@),
            ps.len() == packages@.len(),
            0 <= i <= packages@.len(),
            forall|k: int| 0 <= k < i ==> (#[trigger] ps[k]).id != id@,
            match first_pkg(ps, id@) {
                Some(j) => 0 <= j < ps.len() && ps[j].id == id@ && forall|k: int|
                    0 <= k < j ==> (#[trigger] ps[k]).id != id@,
                None => forall|k: int| 0 <= k < ps.len() ==> (#[trigger] ps[k]).id != id@,
            },
        decreases packages@.len() - i,
    {
        if crate::text::str_eq(packages[i].id.as_str(), id) {
            proof {
                assert(ps[i as int] == packages@[i as int]@);
                if first_pkg(ps, id@) != Some(i as int) {
                    match first_pkg(ps, id@) {
                        Some(j) => {
                            if j < i {
                                assert(ps[j].id != id@);
                            } else {
                                assert(ps[i as int].id != id@);
                            }
                        },
                        None => {
                            assert(ps[i as int].id != id@);
                        },
                    }
                }
            }
            return Some(i);
        }
        proof {
            assert(ps[i as int] == packages@[i as int]@);
        }
        i += 1;
    }
    proof {
        if first_pkg(ps, id@) is Some {
            let j = first_pkg(ps, id@)->Some_0;
            assert(ps[j].id != id@);
        }
    }
    None
}

/// Finds the first resolve node with the given identifier.
fn find_node(nodes: &Vec<ResolveNode>, id: &str) -> (r: Option<usize>)
    ensures
        match r {
            Some(i) => first_node(nodes@.map_values(|n: ResolveNode| n@), id@) == Some(i as int)
                && i < nodes@.len(),
            None => first_node(nodes@.map_values(|n: ResolveNode| n@), id@) is None,
        },
{
    let ghost ns = nodes@.map_values(|n: ResolveNode| n@);
    proof {
        lemma_first_node(ns, id@);
    }
    let mut i: usize = 0;
    while i < nodes.len()
        invariant
            ns == nodes@.map_values(|n: ResolveNode| n@),
            ns.len() == nodes@.len(),
            0 <= i <= nodes@.len(),
            forall|k: int| 0 <= k < i ==> (#[trigger] ns[k]).id != id@,
            match first_node(ns, id@) {
                Some(j) => 0 <= j < ns.len() && ns[j].id == id@ && forall|k: int|
                    0 <= k < j ==> (#[trigger] ns[k]).id != id@,
                None => forall|k: int| 0 <= k < ns.len() ==> (#[trigger] ns[k]).id != id@,
            },
        decreases nodes@.len() - i,
    {
        if crate::text::str_eq(nodes[i].id.as_str(), id) {
            proof {
                assert(ns[i as int] == nodes@[i as int]@);
                if first_node(ns, id@) != Some(i as int) {
                    match first_node(ns, id@) {
                        Some(j) => {
                            if j < i {
                                assert(ns[j].id != id@);
                            } else {
                                assert(ns[i as int].id != id@);
                            }
                        },
                        None => {
                            assert(ns[i as int].id != id@);
                        },
                    }
                }
            }
            return Some(i);
        }
        proof {
            assert(ns[i as int] == nodes@[i as int]@);
        }
        i += 1;
    }
    proof {
        if first_node(ns, id@) is Some {
            let j = first_node(ns, id@)->Some_0;
            assert(ns[j].id != id@);
        }
    }
    None
}

/// The node declares a normal dependency on package `b`.
pub open spec fn node_has_normal_dep(n: ResolveNodeV, b: Seq<char>) -> bool {
    exists|d: int|
        0 <= d < n.deps.len() && (#[trigger] n.deps[d]).pkg == b && n.deps[d].kinds.contains(
            DepKind::Normal,
        )
}

/// A normal (runtime) dependency edge from package `a` to package `b`, read
/// off the first resolve node of `a`.
pub open spec fn normal_edge(g: PackageGraphV, a: Seq<char>, b: Seq<char>) -> bool {
    g.resolve is Some && match first_node(g.resolve->Some_0.nodes, a) {
        Some(j) => node_has_normal_dep(g.resolve->Some_0.nodes[j], b),
        None => false,
    }
}

/// A walk along normal edges whose first element is one of the roots.
pub open spec fn is_id_path(g: PackageGraphV, roots: Seq<Seq<char>>, p: Seq<Seq<char>>) -> bool {
    p.len() >= 1 && roots.contains(p[0]) && forall|k: int|
        0 <= k < p.len() - 1 ==> normal_edge(g, #[trigger] p[k], p[k + 1])
}

/// A package identifier is in the transitive normal-dependency closure of
/// the roots.
pub open spec fn id_reaches(g: PackageGraphV, roots: Seq<Seq<char>>, id: Seq<char>) -> bool {
    exists|p: Seq<Seq<char>>| is_id_path(g, roots, p) && p.last() == id
}

/// Every root reaches itself.
pub proof fn lemma_root_reaches(g: PackageGraphV, roots: Seq<Seq<char>>, id: Seq<char>)
    requires
        roots.contains(id),
    ensures
        id_reaches(g, roots, id),
{
    let p = seq![id];
    assert(is_id_path(g, roots, p) && p.last() == id);
}

/// A reachable identifier's normal dependencies are reachable.
pub proof fn lemma_reach_step(g: PackageGraphV, roots: Seq<Seq<char>>, a: Seq<char>, b: Seq<char>)
    requires
        id_reaches(g, roots, a),
        normal_edge(g, a, b),
    ensures
        id_reaches(g, roots, b),
{
    let p = choose|p: Seq<Seq<char>>| is_id_path(g, roots, p) && p.last() == a;
    let q = p.push(b);
    assert(q[0] == p[0]);
    assert forall|k: int| 0 <= k < q.len() - 1 implies normal_edge(g, #[trigger] q[k], q[k + 1]) by {
        if k < p.len() - 1 {
            assert(q[k] == p[k] && q[k + 1] == p[k + 1]);
        } else {
            assert(q[k] == p.last() && q[k + 1] == b);
        }
    }
    assert(is_id_path(g, roots, q) && q.last() == b);
}

/// A set that contains the roots and is closed under normal edges contains
/// everything reachable.
proof fn lemma_closed_set_contains(
    g: PackageGraphV,
    roots: Seq<Seq<char>>,
    vs: Set<Seq<char>>,
    p: Seq<Seq<char>>,
)
    requires
        is_id_path(g, roots, p),
        forall|k: int| 0 <= k < roots.len() ==> vs.contains(#[trigger] roots[k]),
        forall|a: Seq<char>, b: Seq<char>|
            vs.contains(a) && normal_edge(g, a, b) ==> vs.contains(b),
    ensures
        vs.contains(p.last()),
    decreases p.len(),
{
    if p.len() == 1 {
        let k = choose|k: int| 0 <= k < roots.len() && roots[k] == p[0];
        assert(vs.contains(roots[k]));
    } else {
        let q = p.drop_last();
        assert(q[0] == p[0]);
        assert forall|k: int| 0 <= k < q.len() - 1 implies normal_edge(
            g,
            #[trigger] q[k],
            q[k + 1],
        ) by {
            assert(q[k] == p[k] && q[k + 1] == p[k + 1]);
        }
        assert(is_id_path(g, roots, q));
        lemma_closed_set_contains(g, roots, vs, q);
        assert(normal_edge(g, p[p.len() - 2], p.last()));
    }
}

/// How many entries of a flag sequence are still unset: the termination
/// measure of the closure walk.
pub open spec fn count_false(s: Seq<bool>) -> nat
    decreases s.len(),
{
    if s.len() == 0 {
        0
    } else {
        count_false(s.drop_last()) + if s.last() {
            0nat
        } else {
            1nat
        }
    }
}

proof fn lemma_count_false_update(s: Seq<bool>, i: int)
    requires
        0 <= i < s.len(),
        !s[i],
    ensures
        count_false(s.update(i, true)) < count_false(s),
    decreases s.len(),
{
    let t = s.update(i, true);
    if i == s.len() - 1 {
        assert(t.drop_last() =~= s.drop_last());
    } else {
        assert(t.drop_last() =~= s.drop_last().update(i, true));
        lemma_count_false_update(s.drop_last(), i);
    }
}

/// The dependency entry found at the node establishes a normal edge.
proof fn lemma_edge_established(g: PackageGraphV, id: Seq<char>, j: int, d: int, b: Seq<char>)
    requires
        g.resolve is Some,
        first_node(g.resolve->Some_0.nodes, id) == Some(j),
        0 <= j < g.resolve->Some_0.nodes.len(),
        0 <= d < g.resolve->Some_0.nodes[j].deps.len(),
        g.resolve->Some_0.nodes[j].deps[d].pkg == b,
        g.resolve->Some_0.nodes[j].deps[d].kinds.contains(DepKind::Normal),
    ensures
        normal_edge(g, id, b),
{
    let rr = g.resolve->Some_0;
    let n = rr.nodes[j];
    assert(node_has_normal_dep(n, b)) by {
        assert(0 <= d < n.deps.len() && (#[trigger] n.deps[d]).pkg == b && n.deps[d].kinds.contains(
            DepKind::Normal,
        ));
    }
}

/// When the walk has finished, the marks cover exactly the closure: every
/// reachable identifier is represented once in the result.
proof fn lemma_closure_complete(
    g: PackageGraphV,
    root_ids: Seq<Seq<char>>,
    vis: Seq<bool>,
    res: Seq<usize>,
)
    requires
        vis.len() == g.packages.len(),
        forall|j: int|
            0 <= j < res.len() ==> (#[trigger] res[j] as int) < g.packages.len()
                && vis[res[j] as int],
        forall|i: int|
            0 <= i < vis.len() && vis[i] ==> exists|j: int|
                0 <= j < res.len() && res[j] as int == i,
        forall|i: int|
            0 <= i < vis.len() && #[trigger] vis[i] ==> first_pkg(g.packages, g.packages[i].id)
                == Some(i),
        forall|k: int, l: int| 0 <= k < l < res.len() ==> res[k] != res[l],
        forall|j: int|
            0 <= j < root_ids.len() ==> visited_id(vis, g.packages, #[trigger] root_ids[j]),
        forall|i: int, b: Seq<char>|
            0 <= i < vis.len() && vis[i] && #[trigger] normal_edge(g, g.packages[i].id, b)
                ==> visited_id(vis, g.packages, b),
    ensures
        forall|id: Seq<char>|
            id_reaches(g, root_ids, id) ==> exists|k: int|
                0 <= k < res.len() && g.packages[#[trigger] res[k] as int].id == id,
        forall|k: int, l: int|
            0 <= k < l < res.len() ==> g.packages[res[k] as int].id != g.packages[res[l] as int].id,
{
    let vs = Set::new(|id: Seq<char>| visited_id(vis, g.packages, id));
    assert forall|a: Seq<char>, b: Seq<char>| vs.contains(a) && normal_edge(g, a, b) implies vs.contains(
        b,
    ) by {
        let i = choose|i: int|
            0 <= i < g.packages.len() && i < vis.len() && vis[i] && g.packages[i].id == a;
        assert(normal_edge(g, g.packages[i].id, b));
        assert(visited_id(vis, g.packages, b));
    }
    assert forall|w: int| 0 <= w < root_ids.len() implies vs.contains(#[trigger] root_ids[w]) by {
        assert(visited_id(vis, g.packages, root_ids[w]));
    }
    assert forall|id: Seq<char>| id_reaches(g, root_ids, id) implies exists|k: int|
        0 <= k < res.len() && g.packages[#[trigger] res[k] as int].id == id by {
        let p = choose|p: Seq<Seq<char>>| is_id_path(g, root_ids, p) && p.last() == id;
        lemma_closed_set_contains(g, root_ids, vs, p);
        let i = choose|i: int|
            0 <= i < g.packages.len() && i < vis.len() && vis[i] && g.packages[i].id == id;
        let k = choose|k: int| 0 <= k < res.len() && res[k] as int == i;
        assert(g.packages[res[k] as int].id == id);
    }
    assert forall|k: int, l: int| 0 <= k < l < res.len() implies g.packages[res[k] as int].id
        != g.packages[res[l] as int].id by {
        assert((res[k] as int) < g.packages.len() && vis[res[k] as int]);
        assert((res[l] as int) < g.packages.len() && vis[res[l] as int]);
        assert(first_pkg(g.packages, g.packages[res[k] as int].id) == Some(res[k] as int));
        assert(first_pkg(g.packages, g.packages[res[l] as int].id) == Some(res[l] as int));
        assert(res[k] != res[l]);
    }
}

/// Some package already marked visited carries this identifier.
pub open spec fn visited_id(vis: Seq<bool>, ps: Seq<PackageMetaV>, id: Seq<char>) -> bool {
    exists|i: int| 0 <= i < ps.len() && i < vis.len() && vis[i] && ps[i].id == id
}

impl PackageGraph {
    /// The top-level packages of the project: the resolution's root package,
    /// or every workspace member when there is no single root. Fails when
    /// the graph carries no resolution or an identifier points at no
    /// package.
    pub fn get_package_roots(&self) -> (r: Result<Vec<usize>, PackageLoaderError>)
        ensures
            match r {
                Ok(v) => self@.resolve is Some && match self@.resolve->Some_0.root {
                    Some(root) => v@.len() == 1 && first_pkg(self@.packages, root) == Some(
                        v@[0] as int,
                    ),
                    None => v@.len() == self@.workspace_members.len() && forall|k: int|
                        0 <= k < v@.len() ==> first_pkg(
                            self@.packages,
                            self@.workspace_members[k],
                        ) == Some(#[trigger] v@[k] as int),
                },
                Err(e) => match e {
                    PackageLoaderError::DependencyResolution => self@.resolve is None,
                    PackageLoaderError::PackageNotFound(id) => self@.resolve is Some && first_pkg(
                        self@.packages,
                        id@,
                    ) is None && (self@.resolve->Some_0.root == Some(id@)
                        || self@.workspace_members.contains(id@)),
                    PackageLoaderError::CargoMetadata(_) => false,
                },
            },
    {
        let resolve = match &self.resolve {
            Some(r) => r,
            None => {
                return Err(PackageLoaderError::DependencyResolution);
            },
        };
        match &resolve.root {
            Some(root) => {
                match find_package(&self.packages, root.as_str()) {
                    Some(i) => {
                        let mut v: Vec<usize> = Vec::new();
                        v.push(i);
                        Ok(v)
                    },
                    None => Err(PackageLoaderError::PackageNotFound(root.clone())),
                }
            },
            None => {
                let ghost ms = self@.workspace_members;
                let mut v: Vec<usize> = Vec::new();
                let mut k: usize = 0;
                while k < self.workspace_members.len()
                    invariant
                        self@.resolve is Some,
                        self@.resolve->Some_0.root is None,
                        ms == self@.workspace_members,
                        ms.len() == self.workspace_members@.len(),
                        0 <= k <= ms.len(),
                        v@.len() == k,
                        forall|j: int|
                            0 <= j < k ==> first_pkg(self@.packages, ms[j]) == Some(
                                #[trigger] v@[j] as int,
                            ),
                    decreases ms.len() - k,
                {
                    proof {
                        assert(ms[k as int] == self.workspace_members@[k as int]@);
                    }
                    match find_package(&self.packages, self.workspace_members[k].as_str()) {
                        Some(i) => {
                            v.push(i);
                        },
                        None => {
                            proof {
                                assert(self@.workspace_members.contains(ms[k as int]));
                            }
                            return Err(
                                PackageLoaderError::PackageNotFound(
                                    self.workspace_members[k].clone(),
                                ),
                            );
                        },
                    }
                    k += 1;
                }
                Ok(v)
            },
        }
    }

    /// Collects the full transitive closure of normal (runtime) dependencies
    /// of the given root packages, roots included, visiting each package
    /// once. Fails when an identifier reachable from the roots points at no
    /// package or no resolve node.
    #[verifier::rlimit(100)]
    #[verifier::spinoff_prover]
    pub fn get_root_dependencies(&self, roots: &Vec<usize>) -> (r: Result<
        Vec<usize>,
        PackageLoaderError,
    >)
        requires
            self@.resolve is Some,
            forall|k: int| 0 <= k < roots@.len() ==> roots@[k] < self@.packages.len(),
        ensures
            ({
                let g = self@;
                let root_ids = roots@.map_values(|i: usize| g.packages[i as int].id);
                match r {
                    Ok(v) => {
                        &&& forall|k: int| 0 <= k < v@.len() ==> v@[k] < g.packages.len()
                        &&& forall|k: int|
                            0 <= k < v@.len() ==> id_reaches(
                                g,
                                root_ids,
                                g.packages[#[trigger] v@[k] as int].id,
                            )
                        &&& forall|id: Seq<char>|
                            id_reaches(g, root_ids, id) ==> exists|k: int|
                                0 <= k < v@.len() && g.packages[#[trigger] v@[k] as int].id == id
                        &&& forall|k: int, l: int|
                            0 <= k < l < v@.len() ==> g.packages[v@[k] as int].id
                                != g.packages[v@[l] as int].id
                    },
                    Err(e) => match e {
                        PackageLoaderError::DependencyResolution => false,
                        PackageLoaderError::PackageNotFound(id) => id_reaches(g, root_ids, id@)
                            && (first_pkg(g.packages, id@) is None || first_node(
                            g.resolve->Some_0.nodes,
                            id@,
                        ) is None),
                        PackageLoaderError::CargoMetadata(_) => false,
                    },
                }
            }),
    {
        let ghost g = self@;
        let ghost root_ids = roots@.map_values(|i: usize| g.packages[i as int].id);
        let resolve = match &self.resolve {
            Some(r) => r,
            None => {
                proof {
                    assert(false);
                }
                return Err(PackageLoaderError::DependencyResolution);
            },
        };
        let n = self.packages.len();
        let mut visited: Vec<bool> = vec![false; n];
        let mut result: Vec<usize> = Vec::new();
        let mut work: Vec<String> = Vec::new();
        let mut k: usize = 0;
        while k < roots.len()
            invariant
                g == self@,
                root_ids == roots@.map_values(|i: usize| g.packages[i as int].id),
                root_ids.len() == roots@.len(),
                forall|j: int| 0 <= j < roots@.len() ==> roots@[j] < g.packages.len(),
                0 <= k <= roots@.len(),
                work@.len() == k,
                forall|j: int| 0 <= j < k ==> work.deep_view()[j] == root_ids[j],
            decreases roots@.len() - k,
        {
            let idx = roots[k];
            work.push(self.packages[idx].id.clone());
            proof {
                assert(root_ids[k as int] == g.packages[roots@[k as int] as int].id);
                assert(g.packages[idx as int] == self.packages@[idx as int]@);
                assert forall|j: int| 0 <= j < k + 1 implies work.deep_view()[j] == root_ids[j] by {
                    assert(work.deep_view()[j] == work@[j]@);
                    if j < k {
                        assert(work@[j] == work@.drop_last()[j]);
                    }
                }
            }
            k += 1;
        }
        proof {
            assert forall|j: int| 0 <= j < root_ids.len() implies work.deep_view().contains(
                #[trigger] root_ids[j],
            ) by {
                assert(work.deep_view()[j] == root_ids[j]);
            }
            assert forall|j: int| 0 <= j < work@.len() implies id_reaches(
                g,
                root_ids,
                #[trigger] work.deep_view()[j],
            ) by {
                assert(root_ids.contains(root_ids[j]));
                lemma_root_reaches(g, root_ids, root_ids[j]);
            }
        }
        while work.len() > 0
            invariant
                g == self@,
                g.resolve == Some(resolve@),
                root_ids == roots@.map_values(|i: usize| g.packages[i as int].id),
                visited@.len() == g.packages.len(),
                n == g.packages.len(),
                forall|j: int|
                    0 <= j < result@.len() ==> (#[trigger] result@[j] as int) < g.packages.len()
                        && visited@[result@[j] as int],
                forall|i: int|
                    0 <= i < visited@.len() && visited@[i] ==> exists|j: int|
                        0 <= j < result@.len() && result@[j] as int == i,
                forall|j: int, l: int| 0 <= j < l < result@.len() ==> result@[j] != result@[l],
                forall|i: int|
                    0 <= i < visited@.len() && #[trigger] visited@[i] ==> first_pkg(
                        g.packages,
                        g.packages[i].id,
                    ) == Some(i),
                forall|i: int|
                    0 <= i < visited@.len() && #[trigger] visited@[i] ==> id_reaches(
                        g,
                        root_ids,
                        g.packages[i].id,
                    ),
                forall|j: int|
                    0 <= j < work@.len() ==> id_reaches(
                        g,
                        root_ids,
                        #[trigger] work.deep_view()[j],
                    ),
                forall|j: int|
                    0 <= j < root_ids.len() ==> visited_id(visited@, g.packages, #[trigger] root_ids[j])
                        || work.deep_view().contains(root_ids[j]),
                forall|i: int, b: Seq<char>|
                    0 <= i < visited@.len() && visited@[i] && #[trigger] normal_edge(
                        g,
                        g.packages[i].id,
                        b,
                    ) ==> visited_id(visited@, g.packages, b) || work.deep_view().contains(b),
            decreases count_false(visited@), work@.len(),
        {
            let ghost work_pre = work.deep_view();
            let id = match work.pop() {
                Some(id) => id,
                None => {
                    proof {
                        assert(false);
                    }
                    String::new()
                },
            };
            proof {
                assert forall|j: int| 0 <= j < work@.len() implies work.deep_view()[j]
                    == work_pre[j] by {
                    assert(work.deep_view()[j] == work@[j]@);
                }
                assert(work.deep_view() =~= work_pre.drop_last());
                assert(id@ == work_pre.last());
            }
            let idx = match find_package(&self.packages, id.as_str()) {
                Some(idx) => idx,
                None => {
                    proof {
                        lemma_first_pkg(g.packages, id@);
                    }
                    return Err(PackageLoaderError::PackageNotFound(id));
                },
            };
            proof {
                lemma_first_pkg(g.packages, id@);
                assert(g.packages[idx as int].id == id@);
            }
            if visited[idx] {
                proof {
                    assert(visited_id(visited@, g.packages, id@));
                    assert forall|j: int|
                        0 <= j < root_ids.len() && !visited_id(
                            visited@,
                            g.packages,
                            #[trigger] root_ids[j],
                        ) implies work.deep_view().contains(root_ids[j]) by {
                        let w = choose|w: int|
                            0 <= w < work_pre.len() && work_pre[w] == root_ids[j];
                        assert(w < work_pre.len() - 1);
                        assert(work.deep_view()[w] == root_ids[j]);
                    }
                    assert forall|i: int, b: Seq<char>|
                        0 <= i < visited@.len() && visited@[i] && #[trigger] normal_edge(
                            g,
                            g.packages[i].id,
                            b,
                        ) && !visited_id(visited@, g.packages, b) implies work.deep_view()
                        .contains(b) by {
                        let w = choose|w: int| 0 <= w < work_pre.len() && work_pre[w] == b;
                        assert(w < work_pre.len() - 1);
                        assert(work.deep_view()[w] == b);
                    }
                }
                continue ;
            }
            let j = match find_node(&resolve.nodes, id.as_str()) {
                Some(j) => j,
                None => {
                    proof {
                        lemma_first_node(resolve@.nodes, id@);
                    }
                    return Err(PackageLoaderError::PackageNotFound(id));
                },
            };
            let ghost node = resolve@.nodes[j as int];
            let deps_len = resolve.nodes[j].deps.len();
            let mut d: usize = 0;
            while d < deps_len
                invariant
                    g == self@,
                    g.resolve == Some(resolve@),
                    root_ids == roots@.map_values(|i: usize| g.packages[i as int].id),
                    first_node(resolve@.nodes, id@) == Some(j as int),
                    0 <= (j as int) < resolve@.nodes.len(),
                    node == resolve@.nodes[j as int],
                    deps_len == node.deps.len(),
                    j < resolve.nodes@.len(),
                    node == resolve.nodes@[j as int]@,
                    id_reaches(g, root_ids, id@),
                    work_pre.len() >= 1,
                    0 <= d <= deps_len,
                    forall|w: int|
                        0 <= w < work@.len() ==> id_reaches(
                            g,
                            root_ids,
                            #[trigger] work.deep_view()[w],
                        ),
                    forall|dd: int|
                        0 <= dd < d && (#[trigger] node.deps[dd]).kinds.contains(DepKind::Normal)
                            ==> work.deep_view().contains(node.deps[dd].pkg),
                    forall|b: Seq<char>|
                        #[trigger] work_pre.drop_last().contains(b) ==> work.deep_view().contains(
                            b,
                        ),
                decreases deps_len - d,
            {
                let ghost work_in = work.deep_view();
                let dep = &resolve.nodes[j].deps[d];
                proof {
                    assert(resolve.nodes@[j as int]@.deps[d as int] == resolve.nodes@[j as int].deps@.map_values(
                        |x: NodeDep| x@,
                    )[d as int]);
                    assert(node.deps[d as int] == dep@);
                }
                let mut has_normal = false;
                let kn = dep.kinds.len();
                let mut q: usize = 0;
                while q < kn
                    invariant
                        kn == dep.kinds@.len(),
                        0 <= q <= kn,
                        has_normal == exists|t: int| 0 <= t < q && dep.kinds@[t] is Normal,
                    decreases kn - q,
                {
                    if matches!(dep.kinds[q], DepKind::Normal) {
                        has_normal = true;
                    }
                    q += 1;
                }
                if has_normal {
                    proof {
                        let t = choose|t: int| 0 <= t < dep.kinds@.len() && dep.kinds@[t] is Normal;
                        assert(dep@.kinds[t] == DepKind::Normal);
                        assert(dep@.kinds.contains(DepKind::Normal));
                        assert(node.deps[d as int].pkg == dep@.pkg);
                        let rr = g.resolve->Some_0;
                        assert(rr == resolve@);
                        assert(rr.nodes[j as int].deps[d as int].pkg == dep@.pkg);
                        assert(rr.nodes[j as int].deps[d as int].kinds.contains(DepKind::Normal));
                        assert(first_node(rr.nodes, id@) == Some(j as int));
                        lemma_edge_established(g, id@, j as int, d as int, dep@.pkg);
                        lemma_reach_step(g, root_ids, id@, dep@.pkg);
                    }
                    work.push(dep.pkg.clone());
                    proof {
                        assert forall|w: int| 0 <= w < work@.len() - 1 implies work.deep_view()[w]
                            == work_in[w] by {
                            assert(work.deep_view()[w] == work@[w]@);
                            assert(work@[w] == work@.drop_last()[w]);
                        }
                        assert(work.deep_view()[work@.len() - 1] == dep@.pkg);
                        assert(work.deep_view() =~= work_in.push(dep@.pkg));
                        assert forall|b: Seq<char>| work_in.contains(b) implies work.deep_view()
                            .contains(b) by {
                            let w = choose|w: int| 0 <= w < work_in.len() && work_in[w] == b;
                            assert(work.deep_view()[w] == b);
                        }
                        assert forall|b: Seq<char>|
                            work_pre.drop_last().contains(b) implies work.deep_view().contains(
                            b,
                        ) by {
                            assert(work_in.contains(b));
                        }
                        assert(work.deep_view().contains(dep@.pkg)) by {
                            assert(work.deep_view()[work.deep_view().len() - 1] == dep@.pkg);
                        }
                    }
                }
                d += 1;
            }
            let ghost vis_pre = visited@;
            let ghost res_pre = result@;
            let flag = visited.remove(idx);
            visited.insert(idx, true);
            result.push(idx);
            proof {
                assert(visited@ =~= vis_pre.update(idx as int, true));
                assert(result@.drop_last() =~= res_pre);
                lemma_count_false_update(vis_pre, idx as int);
                assert forall|i: int|
                    0 <= i < visited@.len() && #[trigger] visited@[i] implies exists|w: int|
                    0 <= w < result@.len() && result@[w] as int == i by {
                    if i == idx as int {
                        assert(result@[result@.len() - 1] as int == i);
                    } else {
                        assert(vis_pre[i]);
                        let w = choose|w: int| 0 <= w < res_pre.len() && res_pre[w] as int == i;
                        assert(result@[w] == res_pre[w]);
                        assert(result@[w] as int == i);
                    }
                }
                assert forall|w: int, l: int|
                    0 <= w < l < result@.len() implies result@[w] != result@[l] by {
                    if l == result@.len() - 1 {
                        assert(!vis_pre[idx as int]);
                        assert(visited@[result@[w] as int] == vis_pre[result@[w] as int]
                            || result@[w] as int == idx as int);
                    }
                }
                assert forall|w: int|
                    0 <= w < root_ids.len() && !visited_id(
                        visited@,
                        g.packages,
                        #[trigger] root_ids[w],
                    ) implies work.deep_view().contains(root_ids[w]) by {
                    if visited_id(vis_pre, g.packages, root_ids[w]) {
                        let v = choose|v: int|
                            0 <= v < g.packages.len() && v < vis_pre.len() && vis_pre[v]
                                && g.packages[v].id == root_ids[w];
                        assert(visited@[v]);
                        assert(visited_id(visited@, g.packages, root_ids[w]));
                    }
                    assert(!visited_id(vis_pre, g.packages, root_ids[w]));
                    if work_pre.drop_last().contains(root_ids[w]) {
                    } else {
                        let ww = choose|ww: int|
                            0 <= ww < work_pre.len() && work_pre[ww] == root_ids[w];
                        assert(ww == work_pre.len() - 1);
                        assert(root_ids[w] == id@);
                        assert(visited@[idx as int] && g.packages[idx as int].id == id@);
                        assert(visited_id(visited@, g.packages, root_ids[w]));
                    }
                }
                assert forall|i: int, b: Seq<char>|
                    0 <= i < visited@.len() && visited@[i] && #[trigger] normal_edge(
                        g,
                        g.packages[i].id,
                        b,
                    ) && !visited_id(visited@, g.packages, b) implies work.deep_view().contains(
                    b,
                ) by {
                    if i == idx as int {
                        assert(node_has_normal_dep(node, b));
                        let dd = choose|dd: int|
                            0 <= dd < node.deps.len() && (#[trigger] node.deps[dd]).pkg == b
                                && node.deps[dd].kinds.contains(DepKind::Normal);
                        assert(work.deep_view().contains(node.deps[dd].pkg));
                    } else {
                        assert(vis_pre[i]);
                        assert(visited_id(vis_pre, g.packages, b) || work_pre.contains(b));
                        if visited_id(vis_pre, g.packages, b) {
                            let v = choose|v: int|
                                0 <= v < g.packages.len() && v < vis_pre.len() && vis_pre[v]
                                    && g.packages[v].id == b;
                            assert(visited@[v]);
                            assert(visited_id(visited@, g.packages, b));
                        } else {
                            let ww = choose|ww: int|
                                0 <= ww < work_pre.len() && work_pre[ww] == b;
                            if ww == work_pre.len() - 1 {
                                assert(b == id@);
                                assert((idx as int) < g.packages.len() && visited@[idx as int]
                                    && g.packages[idx as int].id == b);
                                assert(visited_id(visited@, g.packages, b));
                            } else {
                                assert(work_pre.drop_last()[ww] == b);
                                assert(work_pre.drop_last().contains(b));
                            }
                        }
                    }
                }
            }
        }
        proof {
            assert(work@.len() == 0);
            assert forall|jj: int| 0 <= jj < root_ids.len() implies visited_id(
                visited@,
                g.packages,
                #[trigger] root_ids[jj],
            ) by {
                if work.deep_view().contains(root_ids[jj]) {
                    let w = choose|w: int|
                        0 <= w < work.deep_view().len() && work.deep_view()[w] == root_ids[jj];
                    assert(false);
                }
            }
            assert forall|i: int, b: Seq<char>|
                0 <= i < visited@.len() && visited@[i] && #[trigger] normal_edge(
                    g,
                    g.packages[i].id,
                    b,
                ) implies visited_id(visited@, g.packages, b) by {
                if work.deep_view().contains(b) {
                    let w = choose|w: int|
                        0 <= w < work.deep_view().len() && work.deep_view()[w] == b;
                    assert(false);
                }
            }
            lemma_closure_complete(g, root_ids, visited@, result@);
        }
        Ok(result)
    }
}

} // verus!
