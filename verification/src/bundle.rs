//! The final bundle: one finalized license per dependency, with back-fill
//! from a previous bundle, preference filtering and the subset check.

use vstd::prelude::*;
use vstd::string::StringExecFns;

use crate::finalized_license::{
    fin_eq, fin_views, lat_views, FinalizedLicense, FinalizedLicenseV, LicenseAndText,
    LicenseAndTextV, LICENSE_NOT_FOUNT_TEXT,
};
use crate::found_license::{FoundLicense, FoundLicenseError, LicenseWarning};
use crate::license::{canon_of, parse_spec, License, LicenseV};
use crate::package_loader::{PackageGraph, PackageLoaderError, PackageMeta};

verus! {

/// A failure while assembling the bundle: the per-package findings or the
/// package graph could not be obtained.
#[derive(Debug)]
pub enum BundleError {
    FoundLicenseError(FoundLicenseError),
    PackageLoaderError(PackageLoaderError),
}

/// The root names joined with `, `.
pub open spec fn join_names(names: Seq<Seq<char>>) -> Seq<char>
    decreases names.len(),
{
    if names.len() == 0 {
        Seq::empty()
    } else if names.len() == 1 {
        names[0]
    } else {
        join_names(names.drop_last()) + ", "@ + names.last()
    }
}

/// A bundle of licenses: the root package name(s) and one finalized license
/// per third-party dependency.
#[derive(Debug)]
pub struct Bundle {
    root_name: String,
    third_party_libraries: Vec<FinalizedLicense>,
}

/// The mathematical shape of a [`Bundle`].
pub struct BundleV {
    pub root_name: Seq<char>,
    pub third_party_libraries: Seq<FinalizedLicenseV>,
}

impl View for Bundle {
    type V = BundleV;

    closed spec fn view(&self) -> BundleV {
        BundleV {
            root_name: self.root_name@,
            third_party_libraries: fin_views(self.third_party_libraries@),
        }
    }
}

impl Clone for Bundle {
    /// A clone has the same view as the original.
    fn clone(&self) -> (r: Self)
        ensures
            r@ == self@,
    {
        let mut libs: Vec<FinalizedLicense> = Vec::new();
        let mut i: usize = 0;
        while i < self.third_party_libraries.len()
            invariant
                0 <= i <= self.third_party_libraries@.len(),
                libs@.len() == i,
                forall|k: int|
                    0 <= k < i ==> #[trigger] libs@[k]@ == self.third_party_libraries@[k]@,
            decreases self.third_party_libraries@.len() - i,
        {
            libs.push(self.third_party_libraries[i].clone());
            i += 1;
        }
        proof {
            assert forall|k: int| 0 <= k < libs@.len() implies fin_views(libs@)[k] == fin_views(
                self.third_party_libraries@,
            )[k] by {
                assert(fin_views(libs@)[k] == libs@[k]@);
                assert(fin_views(self.third_party_libraries@)[k]
                    == self.third_party_libraries@[k]@);
            }
            assert(fin_views(libs@) =~= fin_views(self.third_party_libraries@));
        }
        Bundle { root_name: self.root_name.clone(), third_party_libraries: libs }
    }
}

impl Bundle {
    /// Assembles a bundle from the root packages and the finalized licenses
    /// of their dependencies; several root names are joined with `, `.
    pub fn new(roots: &Vec<PackageMeta>, third_party_libraries: Vec<FinalizedLicense>) -> (r: Self)
        ensures
            r@.root_name == join_names(roots@.map_values(|p: PackageMeta| p@.name)),
            r@.third_party_libraries == fin_views(third_party_libraries@),
    {
        let ghost names = roots@.map_values(|p: PackageMeta| p@.name);
        let mut root_name = String::new();
        let mut i: usize = 0;
        proof {
            assert(names.take(0) =~= Seq::<Seq<char>>::empty());
            assert(root_name@ =~= join_names(names.take(0)));
        }
        while i < roots.len()
            invariant
                names == roots@.map_values(|p: PackageMeta| p@.name),
                names.len() == roots@.len(),
                0 <= i <= roots@.len(),
                root_name@ == join_names(names.take(i as int)),
            decreases roots@.len() - i,
        {
            proof {
                assert(names[i as int] == roots@[i as int]@.name);
                assert(names.take(i + 1).drop_last() =~= names.take(i as int));
                assert(names.take(i + 1).last() == names[i as int]);
            }
            if i == 0 {
                root_name = roots[0].name.clone();
                proof {
                    assert(names.take(1).len() == 1);
                    assert(names.take(1)[0] == names[0]);
                }
            } else {
                root_name.append(", ");
                root_name.append(roots[i].name.as_str());
            }
            i += 1;
        }
        proof {
            assert(names.take(names.len() as int) =~= names);
        }
        Bundle { root_name, third_party_libraries }
    }
}

/// The first record with the given package name and version.
pub open spec fn first_by_key(
    libs: Seq<FinalizedLicenseV>,
    name: Seq<char>,
    version: Seq<char>,
) -> Option<int>
    decreases libs.len(),
{
    if libs.len() == 0 {
        None
    } else if libs[0].package_name == name && libs[0].package_version == version {
        Some(0)
    } else {
        match first_by_key(libs.drop_first(), name, version) {
            Some(i) => Some(i + 1),
            None => None,
        }
    }
}

proof fn lemma_first_by_key(libs: Seq<FinalizedLicenseV>, name: Seq<char>, version: Seq<char>)
    ensures
        match first_by_key(libs, name, version) {
            Some(i) => 0 <= i < libs.len() && libs[i].package_name == name
                && libs[i].package_version == version && forall|k: int|
                0 <= k < i ==> !((#[trigger] libs[k]).package_name == name
                    && libs[k].package_version == version),
            None => forall|k: int|
                0 <= k < libs.len() ==> !((#[trigger] libs[k]).package_name == name
                    && libs[k].package_version == version),
        },
    decreases libs.len(),
{
    if libs.len() > 0 && !(libs[0].package_name == name && libs[0].package_version == version) {
        lemma_first_by_key(libs.drop_first(), name, version);
        match first_by_key(libs.drop_first(), name, version) {
            Some(i) => {
                assert(libs.drop_first()[i] == libs[i + 1]);
                assert forall|k: int|
                    0 <= k < i + 1 implies !((#[trigger] libs[k]).package_name == name && libs[k].package_version
                    == version) by {
                    if k > 0 {
                        assert(libs.drop_first()[k - 1] == libs[k]);
                    }
                }
            },
            None => {
                assert forall|k: int|
                    0 <= k < libs.len() implies !((#[trigger] libs[k]).package_name == name
                    && libs[k].package_version == version) by {
                    if k > 0 {
                        assert(libs.drop_first()[k - 1] == libs[k]);
                    }
                }
            },
        }
    }
}

/// Finds the first record with the given package name and version.
fn find_by_key(libs: &Vec<FinalizedLicense>, name: &str, version: &str) -> (r: Option<usize>)
    ensures
        match r {
            Some(i) => first_by_key(fin_views(libs@), name@, version@) == Some(i as int) && i
                < libs@.len(),
            None => first_by_key(fin_views(libs@), name@, version@) is None,
        },
{
    let ghost fv = fin_views(libs@);
    proof {
        lemma_first_by_key(fv, name@, version@);
    }
    let mut i: usize = 0;
    while i < libs.len()
        invariant
            fv == fin_views(libs@),
            fv.len() == libs@.len(),
            0 <= i <= libs@.len(),
            forall|k: int|
                0 <= k < i ==> !((#[trigger] fv[k]).package_name == name@ && fv[k].package_version
                    == version@),
            match first_by_key(fv, name@, version@) {
                Some(j) => 0 <= j < fv.len() && fv[j].package_name == name@
                    && fv[j].package_version == version@ && forall|k: int|
                    0 <= k < j ==> !((#[trigger] fv[k]).package_name == name@
                        && fv[k].package_version == version@),
                None => forall|k: int|
                    0 <= k < fv.len() ==> !((#[trigger] fv[k]).package_name == name@
                        && fv[k].package_version == version@),
            },
        decreases libs@.len() - i,
    {
        proof {
            assert(fv[i as int] == libs@[i as int]@);
        }
        if crate::text::str_eq(libs[i].package_name.as_str(), name) && crate::text::str_eq(
            libs[i].package_version.as_str(),
            version,
        ) {
            proof {
                match first_by_key(fv, name@, version@) {
                    Some(j) => {
                        if j < i {
                            assert(!(fv[j].package_name == name@ && fv[j].package_version
                                == version@));
                        } else if j > i {
                            assert(!(fv[i as int].package_name == name@
                                && fv[i as int].package_version == version@));
                        }
                    },
                    None => {
                        assert(!(fv[i as int].package_name == name@ && fv[i as int].package_version
                            == version@));
                    },
                }
            }
            return Some(i);
        }
        i += 1;
    }
    proof {
        if first_by_key(fv, name@, version@) is Some {
            let j = first_by_key(fv, name@, version@)->Some_0;
            assert(!(fv[j].package_name == name@ && fv[j].package_version == version@));
        }
    }
    None
}

/// The candidate holds every record of the prior bundle: same root name, and
/// for each prior record a record with the same package name and version
/// that agrees field for field.
pub open spec fn subset_ok(candidate: BundleV, prior: BundleV) -> bool {
    candidate.root_name == prior.root_name && forall|k: int|
        0 <= k < prior.third_party_libraries.len() ==> match first_by_key(
            candidate.third_party_libraries,
            (#[trigger] prior.third_party_libraries[k]).package_name,
            prior.third_party_libraries[k].package_version,
        ) {
            Some(j) => fin_eq(
                candidate.third_party_libraries[j],
                prior.third_party_libraries[k],
            ),
            None => false,
        }
}

impl Bundle {
    /// Checks that `other` is a subset of this bundle: the root names agree
    /// and every record of `other` appears here, matched by package name and
    /// version and equal field for field. Extra records here are permitted.
    pub fn check_subset(&self, other: &Self) -> (r: bool)
        ensures
            r == subset_ok(self@, other@),
    {
        if !crate::text::str_eq(self.root_name.as_str(), other.root_name.as_str()) {
            return false;
        }
        let ghost sv = fin_views(self.third_party_libraries@);
        let ghost ov = fin_views(other.third_party_libraries@);
        let mut k: usize = 0;
        while k < other.third_party_libraries.len()
            invariant
                sv == fin_views(self.third_party_libraries@),
                ov == fin_views(other.third_party_libraries@),
                ov.len() == other.third_party_libraries@.len(),
                self@.third_party_libraries == sv,
                self@.root_name == other@.root_name,
                other@.third_party_libraries == ov,
                0 <= k <= ov.len(),
                forall|j: int|
                    0 <= j < k ==> match first_by_key(
                        sv,
                        (#[trigger] ov[j]).package_name,
                        ov[j].package_version,
                    ) {
                        Some(i) => fin_eq(sv[i], ov[j]),
                        None => false,
                    },
            decreases ov.len() - k,
        {
            let lic = &other.third_party_libraries[k];
            proof {
                assert(ov[k as int] == other.third_party_libraries@[k as int]@);
            }
            match find_by_key(
                &self.third_party_libraries,
                lic.package_name.as_str(),
                lic.package_version.as_str(),
            ) {
                Some(i) => {
                    proof {
                        assert(fin_views(self.third_party_libraries@)[i as int]
                            == self.third_party_libraries@[i as int]@);
                    }
                    if !(&self.third_party_libraries[i] == lic) {
                        return false;
                    }
                },
                None => {
                    return false;
                },
            }
            k += 1;
        }
        true
    }
}

/// Bundles are equal when the root names agree and the records agree
/// pairwise, in order.
pub open spec fn bundle_eq(a: BundleV, b: BundleV) -> bool {
    a.root_name == b.root_name && a.third_party_libraries.len() == b.third_party_libraries.len()
        && forall|k: int|
        0 <= k < a.third_party_libraries.len() ==> fin_eq(
            #[trigger] a.third_party_libraries[k],
            b.third_party_libraries[k],
        )
}

impl PartialEq for Bundle {
    fn eq(&self, other: &Self) -> (r: bool) {
        if !crate::text::str_eq(self.root_name.as_str(), other.root_name.as_str()) {
            return false;
        }
        if self.third_party_libraries.len() != other.third_party_libraries.len() {
            return false;
        }
        let ghost sv = fin_views(self.third_party_libraries@);
        let ghost ov = fin_views(other.third_party_libraries@);
        let mut k: usize = 0;
        while k < self.third_party_libraries.len()
            invariant
                sv == fin_views(self.third_party_libraries@),
                ov == fin_views(other.third_party_libraries@),
                sv.len() == self.third_party_libraries@.len(),
                sv.len() == ov.len(),
                0 <= k <= sv.len(),
                forall|j: int| 0 <= j < k ==> fin_eq(#[trigger] sv[j], ov[j]),
            decreases sv.len() - k,
        {
            proof {
                assert(sv[k as int] == self.third_party_libraries@[k as int]@);
                assert(ov[k as int] == other.third_party_libraries@[k as int]@);
            }
            if !(&self.third_party_libraries[k] == &other.third_party_libraries[k]) {
                return false;
            }
            k += 1;
        }
        true
    }
}

impl vstd::std_specs::cmp::PartialEqSpecImpl for Bundle {
    open spec fn obeys_eq_spec() -> bool {
        true
    }

    open spec fn eq_spec(&self, other: &Self) -> bool {
        bundle_eq(self@, other@)
    }
}

/// Some sub-license of the record still carries the NOT FOUND marker.
pub open spec fn has_not_found(f: FinalizedLicenseV) -> bool {
    exists|i: int| 0 <= i < f.licenses.len() && (#[trigger] f.licenses[i]).text == "NOT FOUND"@
}

/// The last entry for the given license name, as a map built by repeated
/// insertion resolves it.
pub open spec fn last_lat(prev: Seq<LicenseAndTextV>, name: Seq<char>) -> Option<int>
    decreases prev.len(),
{
    if prev.len() == 0 {
        None
    } else if prev.last().license == name {
        Some(prev.len() - 1)
    } else {
        last_lat(prev.drop_last(), name)
    }
}

proof fn lemma_last_lat(prev: Seq<LicenseAndTextV>, name: Seq<char>)
    ensures
        match last_lat(prev, name) {
            Some(i) => 0 <= i < prev.len() && prev[i].license == name && forall|k: int|
                i < k < prev.len() ==> (#[trigger] prev[k]).license != name,
            None => forall|k: int| 0 <= k < prev.len() ==> (#[trigger] prev[k]).license != name,
        },
    decreases prev.len(),
{
    if prev.len() > 0 && prev.last().license != name {
        lemma_last_lat(prev.drop_last(), name);
        match last_lat(prev.drop_last(), name) {
            Some(i) => {
                assert(prev.drop_last()[i] == prev[i]);
                assert forall|k: int| i < k < prev.len() implies (#[trigger] prev[k]).license
                    != name by {
                    if k < prev.len() - 1 {
                        assert(prev.drop_last()[k] == prev[k]);
                    }
                }
            },
            None => {
                assert forall|k: int| 0 <= k < prev.len() implies (#[trigger] prev[k]).license
                    != name by {
                    if k < prev.len() - 1 {
                        assert(prev.drop_last()[k] == prev[k]);
                    }
                }
            },
        }
    }
}

/// One sub-license after back-fill: a NOT FOUND text is replaced by the
/// previously stored text for the same license, when that text is real.
pub open spec fn backfill_lat(l: LicenseAndTextV, prev: Seq<LicenseAndTextV>) -> LicenseAndTextV {
    if l.text == "NOT FOUND"@ {
        match last_lat(prev, l.license) {
            Some(j) => if 0 <= j < prev.len() && prev[j].text != "NOT FOUND"@ {
                LicenseAndTextV { license: l.license, text: prev[j].text }
            } else {
                l
            },
            None => l,
        }
    } else {
        l
    }
}

/// The last record for the given package name and version.
pub open spec fn last_by_key(
    prev: Seq<FinalizedLicenseV>,
    name: Seq<char>,
    version: Seq<char>,
) -> Option<int>
    decreases prev.len(),
{
    if prev.len() == 0 {
        None
    } else if prev.last().package_name == name && prev.last().package_version == version {
        Some(prev.len() - 1)
    } else {
        last_by_key(prev.drop_last(), name, version)
    }
}

proof fn lemma_last_by_key(prev: Seq<FinalizedLicenseV>, name: Seq<char>, version: Seq<char>)
    ensures
        match last_by_key(prev, name, version) {
            Some(i) => 0 <= i < prev.len() && prev[i].package_name == name
                && prev[i].package_version == version && forall|k: int|
                i < k < prev.len() ==> !((#[trigger] prev[k]).package_name == name
                    && prev[k].package_version == version),
            None => forall|k: int|
                0 <= k < prev.len() ==> !((#[trigger] prev[k]).package_name == name
                    && prev[k].package_version == version),
        },
    decreases prev.len(),
{
    if prev.len() > 0 && !(prev.last().package_name == name && prev.last().package_version
        == version) {
        lemma_last_by_key(prev.drop_last(), name, version);
        match last_by_key(prev.drop_last(), name, version) {
            Some(i) => {
                assert(prev.drop_last()[i] == prev[i]);
                assert forall|k: int|
                    i < k < prev.len() implies !((#[trigger] prev[k]).package_name == name
                    && prev[k].package_version == version) by {
                    if k < prev.len() - 1 {
                        assert(prev.drop_last()[k] == prev[k]);
                    }
                }
            },
            None => {
                assert forall|k: int|
                    0 <= k < prev.len() implies !((#[trigger] prev[k]).package_name == name
                    && prev[k].package_version == version) by {
                    if k < prev.len() - 1 {
                        assert(prev.drop_last()[k] == prev[k]);
                    }
                }
            },
        }
    }
}

/// One record after back-fill: when any of its texts is still NOT FOUND and
/// the previous bundle knows the same package and version, each NOT FOUND
/// text is replaced by the previously stored real text for that license.
pub open spec fn backfill_fin(f: FinalizedLicenseV, prev: Seq<FinalizedLicenseV>) -> FinalizedLicenseV {
    if has_not_found(f) {
        match last_by_key(prev, f.package_name, f.package_version) {
            Some(j) => if 0 <= j < prev.len() {
                FinalizedLicenseV {
                    package_name: f.package_name,
                    package_version: f.package_version,
                    repository: f.repository,
                    license: f.license,
                    licenses: f.licenses.map_values(
                        |l: LicenseAndTextV| backfill_lat(l, prev[j].licenses),
                    ),
                }
            } else {
                f
            },
            None => f,
        }
    } else {
        f
    }
}

/// Whether any stored text is still the NOT FOUND marker.
fn any_not_found(lats: &Vec<LicenseAndText>) -> (r: bool)
    ensures
        r == exists|i: int|
            0 <= i < lat_views(lats@).len() && (#[trigger] lat_views(lats@)[i]).text
                == "NOT FOUND"@,
{
    let mut i: usize = 0;
    while i < lats.len()
        invariant
            0 <= i <= lats@.len(),
            forall|k: int| 0 <= k < i ==> (#[trigger] lat_views(lats@)[k]).text != "NOT FOUND"@,
        decreases lats@.len() - i,
    {
        proof {
            assert(lat_views(lats@)[i as int] == lats@[i as int]@);
        }
        if crate::text::str_eq(lats[i].text.as_str(), LICENSE_NOT_FOUNT_TEXT) {
            return true;
        }
        i += 1;
    }
    proof {
        if exists|k: int|
            0 <= k < lat_views(lats@).len() && (#[trigger] lat_views(lats@)[k]).text
                == "NOT FOUND"@ {
            let k = choose|k: int|
                0 <= k < lat_views(lats@).len() && (#[trigger] lat_views(lats@)[k]).text
                    == "NOT FOUND"@;
            assert(false);
        }
    }
    false
}

/// Finds the last entry for a license name.
fn find_last_lat(prev: &Vec<LicenseAndText>, name: &str) -> (r: Option<usize>)
    ensures
        match r {
            Some(i) => last_lat(lat_views(prev@), name@) == Some(i as int) && i < prev@.len(),
            None => last_lat(lat_views(prev@), name@) is None,
        },
{
    let ghost pv = lat_views(prev@);
    proof {
        lemma_last_lat(pv, name@);
    }
    let mut i: usize = prev.len();
    while i > 0
        invariant
            pv == lat_views(prev@),
            pv.len() == prev@.len(),
            0 <= i <= prev@.len(),
            forall|k: int| i <= k < pv.len() ==> (#[trigger] pv[k]).license != name@,
            match last_lat(pv, name@) {
                Some(j) => 0 <= j < pv.len() && pv[j].license == name@ && forall|k: int|
                    j < k < pv.len() ==> (#[trigger] pv[k]).license != name@,
                None => forall|k: int| 0 <= k < pv.len() ==> (#[trigger] pv[k]).license != name@,
            },
        decreases i,
    {
        proof {
            assert(pv[i - 1] == prev@[i - 1]@);
        }
        if crate::text::str_eq(prev[i - 1].license.as_str(), name) {
            proof {
                match last_lat(pv, name@) {
                    Some(j) => {
                        if j > i - 1 {
                            assert(pv[j].license != name@);
                        } else if j < i - 1 {
                            assert(pv[i - 1].license != name@);
                        }
                    },
                    None => {
                        assert(pv[i - 1].license != name@);
                    },
                }
            }
            return Some(i - 1);
        }
        i -= 1;
    }
    proof {
        if last_lat(pv, name@) is Some {
            let j = last_lat(pv, name@)->Some_0;
            assert(pv[j].license != name@);
        }
    }
    None
}

/// Finds the last record for a package name and version.
fn find_last_by_key(prev: &Vec<FinalizedLicense>, name: &str, version: &str) -> (r: Option<usize>)
    ensures
        match r {
            Some(i) => last_by_key(fin_views(prev@), name@, version@) == Some(i as int) && i
                < prev@.len(),
            None => last_by_key(fin_views(prev@), name@, version@) is None,
        },
{
    let ghost pv = fin_views(prev@);
    proof {
        lemma_last_by_key(pv, name@, version@);
    }
    let mut i: usize = prev.len();
    while i > 0
        invariant
            pv == fin_views(prev@),
            pv.len() == prev@.len(),
            0 <= i <= prev@.len(),
            forall|k: int|
                i <= k < pv.len() ==> !((#[trigger] pv[k]).package_name == name@
                    && pv[k].package_version == version@),
            match last_by_key(pv, name@, version@) {
                Some(j) => 0 <= j < pv.len() && pv[j].package_name == name@
                    && pv[j].package_version == version@ && forall|k: int|
                    j < k < pv.len() ==> !((#[trigger] pv[k]).package_name == name@
                        && pv[k].package_version == version@),
                None => forall|k: int|
                    0 <= k < pv.len() ==> !((#[trigger] pv[k]).package_name == name@
                        && pv[k].package_version == version@),
            },
        decreases i,
    {
        proof {
            assert(pv[i - 1] == prev@[i - 1]@);
        }
        if crate::text::str_eq(prev[i - 1].package_name.as_str(), name) && crate::text::str_eq(
            prev[i - 1].package_version.as_str(),
            version,
        ) {
            proof {
                match last_by_key(pv, name@, version@) {
                    Some(j) => {
                        if j > i - 1 {
                            assert(!(pv[j].package_name == name@ && pv[j].package_version
                                == version@));
                        } else if j < i - 1 {
                            assert(!(pv[i - 1].package_name == name@ && pv[i - 1].package_version
                                == version@));
                        }
                    },
                    None => {
                        assert(!(pv[i - 1].package_name == name@ && pv[i - 1].package_version
                            == version@));
                    },
                }
            }
            return Some(i - 1);
        }
        i -= 1;
    }
    proof {
        if last_by_key(pv, name@, version@) is Some {
            let j = last_by_key(pv, name@, version@)->Some_0;
            assert(!(pv[j].package_name == name@ && pv[j].package_version == version@));
        }
    }
    None
}

/// Back-fills one record from the previous bundle's records.
fn backfill_one(lic: &FinalizedLicense, prev: &Vec<FinalizedLicense>) -> (r: FinalizedLicense)
    ensures
        r@ == backfill_fin(lic@, fin_views(prev@)),
{
    if !any_not_found(&lic.licenses) {
        return lic.clone();
    }
    let j = match find_last_by_key(
        prev,
        lic.package_name.as_str(),
        lic.package_version.as_str(),
    ) {
        Some(j) => j,
        None => {
            return lic.clone();
        },
    };
    proof {
        assert(fin_views(prev@)[j as int] == prev@[j as int]@);
    }
    let prev_lats = &prev[j].licenses;
    let ghost prevv = lat_views(prev_lats@);
    let ghost lv = lat_views(lic.licenses@);
    let mut lats: Vec<LicenseAndText> = Vec::new();
    let mut i: usize = 0;
    proof {
        assert(lat_views(lats@) =~= lv.take(0).map_values(
            |l: LicenseAndTextV| backfill_lat(l, prevv),
        ));
    }
    while i < lic.licenses.len()
        invariant
            lv == lat_views(lic.licenses@),
            prevv == lat_views(prev_lats@),
            lv.len() == lic.licenses@.len(),
            0 <= i <= lv.len(),
            lats@.len() == i,
            lat_views(lats@) == lv.take(i as int).map_values(
                |l: LicenseAndTextV| backfill_lat(l, prevv),
            ),
        decreases lv.len() - i,
    {
        let l = &lic.licenses[i];
        proof {
            assert(lv[i as int] == lic.licenses@[i as int]@);
        }
        let entry: LicenseAndText = if crate::text::str_eq(
            l.text.as_str(),
            LICENSE_NOT_FOUNT_TEXT,
        ) {
            match find_last_lat(prev_lats, l.license.as_str()) {
                Some(p) => {
                    proof {
                        assert(prevv[p as int] == prev_lats@[p as int]@);
                    }
                    if !crate::text::str_eq(prev_lats[p].text.as_str(), LICENSE_NOT_FOUNT_TEXT) {
                        LicenseAndText {
                            license: l.license.clone(),
                            text: prev_lats[p].text.clone(),
                        }
                    } else {
                        l.clone()
                    }
                },
                None => l.clone(),
            }
        } else {
            l.clone()
        };
        let ghost lpre = lat_views(lats@);
        lats.push(entry);
        proof {
            let target = lv.take(i + 1).map_values(|l: LicenseAndTextV| backfill_lat(l, prevv));
            assert forall|k: int| 0 <= k < lats@.len() implies lat_views(lats@)[k] == target[k] by {
                assert(lat_views(lats@)[k] == lats@[k]@);
                assert(lv.take(i + 1)[k] == lv[k]);
                assert(target[k] == backfill_lat(lv[k], prevv));
                if k < i {
                    assert(lats@[k] == lats@.drop_last()[k]);
                    assert(lpre[k] == lats@.drop_last()[k]@);
                    assert(lv.take(i as int)[k] == lv[k]);
                    assert(lpre[k] == lv.take(i as int).map_values(
                        |l: LicenseAndTextV| backfill_lat(l, prevv),
                    )[k]);
                } else {
                    assert(lats@[k] == lats@.last());
                }
            }
            assert(lat_views(lats@) =~= target);
        }
        i += 1;
    }
    proof {
        assert(lv.take(lv.len() as int) =~= lv);
    }
    FinalizedLicense {
        package_name: lic.package_name.clone(),
        package_version: lic.package_version.clone(),
        repository: lic.repository.clone(),
        license: lic.license.clone(),
        licenses: lats,
    }
}

/// A preferred license matches some sub-license entry of the record, by
/// parsing the entry's license string.
pub open spec fn pref_matches(p: LicenseV, lats: Seq<LicenseAndTextV>) -> bool {
    exists|i: int| 0 <= i < lats.len() && parse_spec((#[trigger] lats[i]).license) == p
}

/// The first preferred license that matches some entry of the record.
pub open spec fn first_pref(prefer: Seq<LicenseV>, lats: Seq<LicenseAndTextV>) -> Option<int>
    decreases prefer.len(),
{
    if prefer.len() == 0 {
        None
    } else if pref_matches(prefer[0], lats) {
        Some(0)
    } else {
        match first_pref(prefer.drop_first(), lats) {
            Some(i) => Some(i + 1),
            None => None,
        }
    }
}

proof fn lemma_first_pref(prefer: Seq<LicenseV>, lats: Seq<LicenseAndTextV>)
    ensures
        match first_pref(prefer, lats) {
            Some(i) => 0 <= i < prefer.len() && pref_matches(prefer[i], lats) && forall|k: int|
                0 <= k < i ==> !pref_matches(#[trigger] prefer[k], lats),
            None => forall|k: int| 0 <= k < prefer.len() ==> !pref_matches(#[trigger] prefer[k], lats),
        },
    decreases prefer.len(),
{
    if prefer.len() > 0 && !pref_matches(prefer[0], lats) {
        lemma_first_pref(prefer.drop_first(), lats);
        match first_pref(prefer.drop_first(), lats) {
            Some(i) => {
                assert(prefer.drop_first()[i] == prefer[i + 1]);
                assert forall|k: int| 0 <= k < i + 1 implies !pref_matches(
                    #[trigger] prefer[k],
                    lats,
                ) by {
                    if k > 0 {
                        assert(prefer.drop_first()[k - 1] == prefer[k]);
                    }
                }
            },
            None => {
                assert forall|k: int| 0 <= k < prefer.len() implies !pref_matches(
                    #[trigger] prefer[k],
                    lats,
                ) by {
                    if k > 0 {
                        assert(prefer.drop_first()[k - 1] == prefer[k]);
                    }
                }
            },
        }
    }
}

/// The entries whose parsed license equals the preferred one, in order.
pub open spec fn retain_pref(lats: Seq<LicenseAndTextV>, p: LicenseV) -> Seq<LicenseAndTextV>
    decreases lats.len(),
{
    if lats.len() == 0 {
        Seq::empty()
    } else {
        let rest = retain_pref(lats.drop_last(), p);
        if parse_spec(lats.last().license) == p {
            rest.push(lats.last())
        } else {
            rest
        }
    }
}

/// One record after preference filtering: when the raw declaration carries
/// no `AND` and some preferred license is among the alternatives, only the
/// entries of the first such preference are kept and the reported license
/// becomes that preference. Declarations with `AND` are left untouched.
pub open spec fn prefer_fin(f: FinalizedLicenseV, prefer: Seq<LicenseV>) -> FinalizedLicenseV {
    if crate::text::seq_contains(f.license, "AND"@) {
        f
    } else {
        match first_pref(prefer, f.licenses) {
            Some(p) => if 0 <= p < prefer.len() {
                FinalizedLicenseV {
                    package_name: f.package_name,
                    package_version: f.package_version,
                    repository: f.repository,
                    license: canon_of(prefer[p]),
                    licenses: retain_pref(f.licenses, prefer[p]),
                }
            } else {
                f
            },
            None => f,
        }
    }
}

/// Whether a preferred license is among the record's parsed entries.
fn pref_matches_exec(p: &License, lats: &Vec<LicenseAndText>) -> (r: bool)
    ensures
        r == pref_matches(p@, lat_views(lats@)),
{
    let mut i: usize = 0;
    while i < lats.len()
        invariant
            0 <= i <= lats@.len(),
            forall|k: int|
                0 <= k < i ==> parse_spec((#[trigger] lat_views(lats@)[k]).license) != p@,
        decreases lats@.len() - i,
    {
        proof {
            assert(lat_views(lats@)[i as int] == lats@[i as int]@);
        }
        let parsed = crate::license::parse_license(lats[i].license.as_str());
        if crate::license::license_eq(&parsed, p) {
            proof {
                assert(parse_spec(lat_views(lats@)[i as int].license) == p@);
            }
            return true;
        }
        i += 1;
    }
    proof {
        if pref_matches(p@, lat_views(lats@)) {
            let k = choose|k: int|
                0 <= k < lat_views(lats@).len() && parse_spec(
                    (#[trigger] lat_views(lats@)[k]).license,
                ) == p@;
            assert(false);
        }
    }
    false
}

/// Finds the first preferred license among the record's entries.
fn find_first_pref(prefer: &Vec<License>, lats: &Vec<LicenseAndText>) -> (r: Option<usize>)
    ensures
        match r {
            Some(j) => first_pref(crate::license::lic_views(prefer@), lat_views(lats@)) == Some(
                j as int,
            ) && j < prefer@.len(),
            None => first_pref(crate::license::lic_views(prefer@), lat_views(lats@)) is None,
        },
{
    let ghost pv = crate::license::lic_views(prefer@);
    let ghost lv = lat_views(lats@);
    proof {
        crate::license::lemma_lic_views_index(prefer@);
        lemma_first_pref(pv, lv);
    }
    let mut p: usize = 0;
    while p < prefer.len()
        invariant
            pv == crate::license::lic_views(prefer@),
            lv == lat_views(lats@),
            pv.len() == prefer@.len(),
            forall|k: int|
                0 <= k < prefer@.len() ==> pv[k] == crate::license::lic_view(#[trigger] prefer@[k]),
            0 <= p <= pv.len(),
            forall|k: int| 0 <= k < p ==> !pref_matches(#[trigger] pv[k], lv),
            match first_pref(pv, lv) {
                Some(j) => 0 <= j < pv.len() && pref_matches(pv[j], lv) && forall|k: int|
                    0 <= k < j ==> !pref_matches(#[trigger] pv[k], lv),
                None => forall|k: int| 0 <= k < pv.len() ==> !pref_matches(#[trigger] pv[k], lv),
            },
        decreases pv.len() - p,
    {
        proof {
            assert(pv[p as int] == crate::license::lic_view(prefer@[p as int]));
        }
        if pref_matches_exec(&prefer[p], lats) {
            proof {
                match first_pref(pv, lv) {
                    Some(j) => {
                        if j < p {
                            assert(!pref_matches(pv[j], lv));
                        } else if j > p {
                            assert(!pref_matches(pv[p as int], lv));
                        }
                    },
                    None => {
                        assert(!pref_matches(pv[p as int], lv));
                    },
                }
            }
            return Some(p);
        }
        p += 1;
    }
    proof {
        if first_pref(pv, lv) is Some {
            let j = first_pref(pv, lv)->Some_0;
            assert(!pref_matches(pv[j], lv));
        }
    }
    None
}

/// Applies preference filtering to one record.
fn prefer_one(lic: &FinalizedLicense, prefer: &Vec<License>) -> (r: FinalizedLicense)
    ensures
        r@ == prefer_fin(lic@, crate::license::lic_views(prefer@)),
{
    let ghost pv = crate::license::lic_views(prefer@);
    proof {
        crate::license::lemma_lic_views_index(prefer@);
        lemma_first_pref(pv, lic@.licenses);
    }
    if crate::text::contains_substr(lic.license.as_str(), "AND") {
        return lic.clone();
    }
    let chosen = find_first_pref(prefer, &lic.licenses);
    let chosen_idx = match chosen {
        Some(j) => j,
        None => {
            return lic.clone();
        },
    };
    let preferred = &prefer[chosen_idx];
    let ghost pl = pv[chosen_idx as int];
    let ghost lv = lat_views(lic.licenses@);
    let mut kept: Vec<LicenseAndText> = Vec::new();
    let mut i: usize = 0;
    proof {
        assert(pl == crate::license::lic_view(prefer@[chosen_idx as int]));
        assert(lat_views(kept@) =~= retain_pref(lv.take(0), pl));
    }
    while i < lic.licenses.len()
        invariant
            pl == preferred@,
            lv == lat_views(lic.licenses@),
            lv.len() == lic.licenses@.len(),
            0 <= i <= lv.len(),
            lat_views(kept@) == retain_pref(lv.take(i as int), pl),
        decreases lv.len() - i,
    {
        proof {
            assert(lv[i as int] == lic.licenses@[i as int]@);
            assert(lv.take(i + 1).drop_last() =~= lv.take(i as int));
            assert(lv.take(i + 1).last() == lv[i as int]);
        }
        let parsed = crate::license::parse_license(lic.licenses[i].license.as_str());
        let ghost kpre = lat_views(kept@);
        if crate::license::license_eq(&parsed, preferred) {
            kept.push(lic.licenses[i].clone());
            proof {
                assert forall|k: int| 0 <= k < kept@.len() implies lat_views(kept@)[k] == kpre.push(
                    lv[i as int],
                )[k] by {
                    assert(lat_views(kept@)[k] == kept@[k]@);
                    if k < kept@.len() - 1 {
                        assert(kept@[k] == kept@.drop_last()[k]);
                        assert(kpre[k] == kept@.drop_last()[k]@);
                    }
                }
                assert(lat_views(kept@) =~= kpre.push(lv[i as int]));
            }
        }
        i += 1;
    }
    proof {
        assert(lv.take(lv.len() as int) =~= lv);
    }
    FinalizedLicense {
        package_name: lic.package_name.clone(),
        package_version: lic.package_version.clone(),
        repository: lic.repository.clone(),
        license: preferred.canonical_string(),
        licenses: kept,
    }
}

/// The package-graph spec pieces `exec` is pinned against.
pub open spec fn roots_ok(g: crate::package_loader::PackageGraphV, roots: Seq<usize>) -> bool {
    g.resolve is Some && match g.resolve->Some_0.root {
        Some(root) => roots.len() == 1 && crate::package_loader::first_pkg(g.packages, root)
            == Some(roots[0] as int),
        None => roots.len() == g.workspace_members.len() && forall|k: int|
            0 <= k < roots.len() ==> crate::package_loader::first_pkg(
                g.packages,
                g.workspace_members[k],
            ) == Some(#[trigger] roots[k] as int),
    }
}

/// What a successful dependency-closure walk yields (see
/// `PackageGraph::get_root_dependencies`).
pub open spec fn closure_ok(
    g: crate::package_loader::PackageGraphV,
    root_ids: Seq<Seq<char>>,
    v: Seq<usize>,
) -> bool {
    &&& forall|k: int| 0 <= k < v.len() ==> v[k] < g.packages.len()
    &&& forall|k: int|
        0 <= k < v.len() ==> crate::package_loader::id_reaches(
            g,
            root_ids,
            g.packages[#[trigger] v[k] as int].id,
        )
    &&& forall|id: Seq<char>|
        crate::package_loader::id_reaches(g, root_ids, id) ==> exists|k: int|
            0 <= k < v.len() && g.packages[#[trigger] v[k] as int].id == id
    &&& forall|k: int, l: int|
        0 <= k < l < v.len() ==> g.packages[v[k] as int].id != g.packages[v[l] as int].id
}

/// The identifiers of the root packages.
pub open spec fn root_ids_of(g: crate::package_loader::PackageGraphV, roots: Seq<usize>) -> Seq<
    Seq<char>,
> {
    roots.map_values(|i: usize| g.packages[i as int].id)
}

/// The names of the root packages.
pub open spec fn root_names_of(g: crate::package_loader::PackageGraphV, roots: Seq<usize>) -> Seq<
    Seq<char>,
> {
    roots.map_values(|i: usize| g.packages[i as int].name)
}

/// The closure with packages named like a root removed.
pub open spec fn filter_roots(
    g: crate::package_loader::PackageGraphV,
    s: Seq<usize>,
    root_names: Seq<Seq<char>>,
) -> Seq<usize>
    decreases s.len(),
{
    if s.len() == 0 {
        Seq::empty()
    } else {
        let rest = filter_roots(g, s.drop_last(), root_names);
        if root_names.contains(g.packages[s.last() as int].name) {
            rest
        } else {
            rest.push(s.last())
        }
    }
}

/// The sort order of the bundle: package name, then version.
pub open spec fn pkg_lt(
    g: crate::package_loader::PackageGraphV,
    a: usize,
    b: usize,
) -> bool {
    let pa = g.packages[a as int];
    let pb = g.packages[b as int];
    if pa.name != pb.name {
        crate::text::lex_le(pa.name, pb.name) && pa.name != pb.name
    } else {
        crate::text::lex_le(pa.version, pb.version) && pa.version != pb.version
    }
}

/// Stable insertion by [`pkg_lt`].
pub open spec fn insert_pkg(
    g: crate::package_loader::PackageGraphV,
    s: Seq<usize>,
    x: usize,
) -> Seq<usize>
    decreases s.len(),
{
    if s.len() == 0 {
        seq![x]
    } else if pkg_lt(g, x, s.last()) {
        insert_pkg(g, s.drop_last(), x).push(s.last())
    } else {
        s.push(x)
    }
}

/// Stable insertion sort of package indices by name, then version.
pub open spec fn sort_pkgs(g: crate::package_loader::PackageGraphV, s: Seq<usize>) -> Seq<usize>
    decreases s.len(),
{
    if s.len() == 0 {
        s
    } else {
        insert_pkg(g, sort_pkgs(g, s.drop_last()), s.last())
    }
}

proof fn lemma_insert_pkg_at(
    g: crate::package_loader::PackageGraphV,
    s: Seq<usize>,
    x: usize,
    j: int,
)
    requires
        0 <= j <= s.len(),
        forall|k: int| j <= k < s.len() ==> pkg_lt(g, x, #[trigger] s[k]),
        j == 0 || !pkg_lt(g, x, s[j - 1]),
    ensures
        insert_pkg(g, s, x) == s.take(j) + seq![x] + s.skip(j),
    decreases s.len(),
{
    if s.len() == 0 {
        assert(insert_pkg(g, s, x) =~= s.take(j) + seq![x] + s.skip(j));
    } else if j == s.len() {
        assert(insert_pkg(g, s, x) =~= s.take(j) + seq![x] + s.skip(j));
    } else {
        lemma_insert_pkg_at(g, s.drop_last(), x, j);
        assert(s.drop_last().take(j) =~= s.take(j));
        assert((s.drop_last().take(j) + seq![x] + s.drop_last().skip(j)).push(s.last()) =~= s.take(
            j,
        ) + seq![x] + s.skip(j));
    }
}

/// Executable comparison for the bundle order.
fn pkg_lt_exec(graph: &PackageGraph, a: usize, b: usize) -> (r: bool)
    requires
        a < graph@.packages.len(),
        b < graph@.packages.len(),
    ensures
        r == pkg_lt(graph@, a, b),
{
    proof {
        assert(graph@.packages[a as int] == graph.packages@[a as int]@);
        assert(graph@.packages[b as int] == graph.packages@[b as int]@);
    }
    let pa = &graph.packages[a];
    let pb = &graph.packages[b];
    if !crate::text::str_eq(pa.name.as_str(), pb.name.as_str()) {
        crate::text::str_le(pa.name.as_str(), pb.name.as_str())
    } else {
        crate::text::str_le(pa.version.as_str(), pb.version.as_str()) && !crate::text::str_eq(
            pa.version.as_str(),
            pb.version.as_str(),
        )
    }
}

/// Inserts a package index into a vector kept sorted by [`pkg_lt`].
fn insert_pkg_exec(graph: &PackageGraph, r: &mut Vec<usize>, x: usize)
    requires
        x < graph@.packages.len(),
        forall|k: int| 0 <= k < old(r)@.len() ==> old(r)@[k] < graph@.packages.len(),
    ensures
        final(r)@ == insert_pkg(graph@, old(r)@, x),
        forall|k: int| 0 <= k < final(r)@.len() ==> final(r)@[k] < graph@.packages.len(),
{
    let ghost s = r@;
    let mut j: usize = r.len();
    while j > 0 && pkg_lt_exec(graph, x, r[j - 1])
        invariant
            s == r@,
            x < graph@.packages.len(),
            forall|k: int| 0 <= k < s.len() ==> s[k] < graph@.packages.len(),
            0 <= j <= s.len(),
            forall|k: int| j <= k < s.len() ==> pkg_lt(graph@, x, #[trigger] s[k]),
        decreases j,
    {
        j -= 1;
    }
    proof {
        lemma_insert_pkg_at(graph@, s, x, j as int);
    }
    r.insert(j, x);
    proof {
        assert(r@ =~= s.take(j as int) + seq![x] + s.skip(j as int));
    }
}

/// The warnings of the packages at the given indices, in order.
pub open spec fn warns_of_pkgs(
    g: crate::package_loader::PackageGraphV,
    files: Seq<Seq<crate::discovery::SourceFileV>>,
    idxs: Seq<usize>,
) -> Seq<crate::found_license::LicenseWarningV>
    decreases idxs.len(),
{
    if idxs.len() == 0 {
        Seq::empty()
    } else {
        warns_of_pkgs(g, files, idxs.drop_last()) + crate::found_license::check_spec(
            crate::found_license::found_license_spec(
                g.packages[idxs.last() as int],
                files[idxs.last() as int],
            ),
        )
    }
}

/// One finalized entry of the bundle, after back-fill and preference
/// filtering.
pub open spec fn entry_spec(
    prev: Option<BundleV>,
    prefer: Seq<LicenseV>,
    g: crate::package_loader::PackageGraphV,
    files: Seq<Seq<crate::discovery::SourceFileV>>,
    idx: usize,
) -> FinalizedLicenseV {
    let fin = crate::found_license::finalize_spec(
        crate::found_license::found_license_spec(g.packages[idx as int], files[idx as int]),
    );
    let back = match prev {
        Some(pb) => backfill_fin(fin, pb.third_party_libraries),
        None => fin,
    };
    prefer_fin(back, prefer)
}

/// Configures and runs the assembly of a [`Bundle`].
#[derive(Debug)]
pub struct BundleBuilder {
    previous: Option<Bundle>,
    features: Vec<String>,
    prefer: Vec<License>,
}

/// The mathematical shape of a [`BundleBuilder`].
pub struct BundleBuilderV {
    pub previous: Option<BundleV>,
    pub features: Seq<Seq<char>>,
    pub prefer: Seq<LicenseV>,
}

impl View for BundleBuilder {
    type V = BundleBuilderV;

    closed spec fn view(&self) -> BundleBuilderV {
        BundleBuilderV {
            previous: match self.previous {
                Some(b) => Some(b@),
                None => None,
            },
            features: self.features@.map_values(|f: String| f@),
            prefer: crate::license::lic_views(self.prefer@),
        }
    }
}

impl BundleBuilder {
    /// A builder with no previous bundle, no extra features and no
    /// preferences.
    pub fn new() -> (r: Self)
        ensures
            r@.previous is None,
            r@.features == Seq::<Seq<char>>::empty(),
            r@.prefer == Seq::<LicenseV>::empty(),
    {
        let r = BundleBuilder { previous: None, features: Vec::new(), prefer: Vec::new() };
        proof {
            assert(r@.features =~= Seq::<Seq<char>>::empty());
            assert(r@.prefer =~= Seq::<LicenseV>::empty());
        }
        r
    }

    /// Supplies the previous bundle used for back-fill.
    pub fn previous(self, previous: &Bundle) -> (r: Self)
        ensures
            r@.previous == Some(previous@),
            r@.features == self@.features,
            r@.prefer == self@.prefer,
    {
        BundleBuilder {
            previous: Some(previous.clone()),
            features: self.features,
            prefer: self.prefer,
        }
    }

    /// Supplies the extra feature names handed to the metadata provider.
    pub fn features(self, features: &[String]) -> (r: Self)
        ensures
            r@.features == features@.map_values(|f: String| f@),
            r@.previous == self@.previous,
            r@.prefer == self@.prefer,
    {
        let mut fs: Vec<String> = Vec::new();
        let n = features.len();
        let mut i: usize = 0;
        while i < n
            invariant
                n == features@.len(),
                0 <= i <= n,
                fs@.len() == i,
                forall|k: int| 0 <= k < i ==> #[trigger] fs@[k]@ == features@[k]@,
            decreases n - i,
        {
            let f = vstd::slice::slice_index_get(features, i);
            fs.push(f.clone());
            i += 1;
        }
        let r = BundleBuilder { previous: self.previous, features: fs, prefer: self.prefer };
        proof {
            assert forall|k: int| 0 <= k < r@.features.len() implies r@.features[k]
                == features@.map_values(|f: String| f@)[k] by {}
            assert(r@.features =~= features@.map_values(|f: String| f@));
        }
        r
    }

    /// Supplies the preferred licenses, parsed from their names.
    pub fn prefer(self, prefer: &[String]) -> (r: Self)
        ensures
            r@.prefer == features_parsed(prefer@),
            r@.previous == self@.previous,
            r@.features == self@.features,
    {
        let mut ps: Vec<License> = Vec::new();
        let n = prefer.len();
        let mut i: usize = 0;
        while i < n
            invariant
                n == prefer@.len(),
                0 <= i <= n,
                ps@.len() == i,
                forall|k: int|
                    0 <= k < i ==> crate::license::lic_view(#[trigger] ps@[k]) == parse_spec(
                        prefer@[k]@,
                    ),
            decreases n - i,
        {
            let p = vstd::slice::slice_index_get(prefer, i);
            ps.push(crate::license::parse_license(p.as_str()));
            i += 1;
        }
        let r = BundleBuilder { previous: self.previous, features: self.features, prefer: ps };
        proof {
            crate::license::lemma_lic_views_index(ps@);
            assert forall|k: int| 0 <= k < r@.prefer.len() implies r@.prefer[k] == features_parsed(
                prefer@,
            )[k] by {
                assert(crate::license::lic_views(ps@)[k] == crate::license::lic_view(ps@[k]));
            }
            assert(r@.prefer =~= features_parsed(prefer@));
        }
        r
    }
}

/// The preference names parsed into licenses.
pub open spec fn features_parsed(names: Seq<String>) -> Seq<LicenseV> {
    names.map_values(|n: String| parse_spec(n@))
}

/// The views of the per-package file lists.
pub open spec fn files_views(fs: Seq<Vec<crate::discovery::SourceFile>>) -> Seq<
    Seq<crate::discovery::SourceFileV>,
> {
    fs.map_values(|v: Vec<crate::discovery::SourceFile>| crate::discovery::file_views(v@))
}

impl BundleBuilder {
    /// Assembles the bundle. The dependency closure of the root packages is
    /// resolved, each dependency's sources are searched and scored, and the
    /// finalized records are back-filled from the previous bundle and
    /// preference-filtered; the result is sorted by package name and
    /// version, roots excluded, and paired with the warnings gathered along
    /// the way. `files` holds the readable files of each package's source
    /// directory, in graph order.
    #[verifier::rlimit(100)]
    #[verifier::spinoff_prover]
    pub fn exec(&self, graph: &PackageGraph, files: &Vec<Vec<crate::discovery::SourceFile>>) -> (r:
        Result<(Bundle, Vec<LicenseWarning>), BundleError>)
        requires
            files@.len() == graph@.packages.len(),
        ensures
            ({
                let g = graph@;
                let fv = files_views(files@);
                match r {
                    Ok(out) => exists|roots: Seq<usize>, raw: Seq<usize>|
                        #![trigger roots_ok(g, roots), closure_ok(g, root_ids_of(g, roots), raw)]
                        {
                            &&& roots_ok(g, roots)
                            &&& closure_ok(g, root_ids_of(g, roots), raw)
                            &&& ({
                                let idxs = sort_pkgs(
                                    g,
                                    filter_roots(g, raw, root_names_of(g, roots)),
                                );
                                &&& out.0@.root_name == join_names(root_names_of(g, roots))
                                &&& out.0@.third_party_libraries == idxs.map_values(
                                    |i: usize| entry_spec(self@.previous, self@.prefer, g, fv, i),
                                )
                                &&& crate::found_license::warning_views(out.1@) == warns_of_pkgs(
                                    g,
                                    fv,
                                    idxs,
                                )
                            })
                        },
                    Err(e) => match e {
                        BundleError::PackageLoaderError(pe) => match pe {
                            PackageLoaderError::DependencyResolution => g.resolve is None,
                            PackageLoaderError::PackageNotFound(id) => g.resolve is Some && (
                            crate::package_loader::first_pkg(g.packages, id@) is None
                                || crate::package_loader::first_node(
                                g.resolve->Some_0.nodes,
                                id@,
                            ) is None),
                            PackageLoaderError::CargoMetadata(_) => false,
                        },
                        BundleError::FoundLicenseError(_) => false,
                    },
                }
            }),
    {
        let ghost g = graph@;
        let ghost fvv = files_views(files@);
        let roots_idx = match graph.get_package_roots() {
            Ok(v) => v,
            Err(e) => {
                return Err(BundleError::PackageLoaderError(e));
            },
        };
        proof {
            match g.resolve->Some_0.root {
                Some(root) => {
                    crate::package_loader::lemma_first_pkg(g.packages, root);
                },
                None => {},
            }
            assert forall|k: int|
                0 <= k < roots_idx@.len() implies (#[trigger] roots_idx@[k]) < g.packages.len() by {
                match g.resolve->Some_0.root {
                    Some(root) => {},
                    None => {
                        crate::package_loader::lemma_first_pkg(
                            g.packages,
                            g.workspace_members[k],
                        );
                    },
                }
            }
        }
        let deps = match graph.get_root_dependencies(&roots_idx) {
            Ok(v) => v,
            Err(e) => {
                return Err(BundleError::PackageLoaderError(e));
            },
        };
        let ghost rid = roots_idx@.map_values(|i: usize| g.packages[i as int].id);
        let ghost rnames = root_names_of(g, roots_idx@);
        proof {
            assert(rid =~= root_ids_of(g, roots_idx@));
        }
        // the root packages, for the bundle's name
        let mut root_metas: Vec<PackageMeta> = Vec::new();
        let mut k: usize = 0;
        while k < roots_idx.len()
            invariant
                g == graph@,
                forall|j: int| 0 <= j < roots_idx@.len() ==> (#[trigger] roots_idx@[j]) < g.packages.len(),
                0 <= k <= roots_idx@.len(),
                root_metas@.len() == k,
                forall|j: int|
                    0 <= j < k ==> #[trigger] root_metas@[j]@ == g.packages[roots_idx@[j] as int],
            decreases roots_idx@.len() - k,
        {
            let idx = roots_idx[k];
            root_metas.push(graph.packages[idx].clone());
            proof {
                assert(g.packages[idx as int] == graph.packages@[idx as int]@);
            }
            k += 1;
        }
        // drop packages named like a root
        let mut kept: Vec<usize> = Vec::new();
        let mut d: usize = 0;
        proof {
            assert(kept@ =~= filter_roots(g, deps@.take(0), rnames));
        }
        while d < deps.len()
            invariant
                g == graph@,
                rnames == root_names_of(g, roots_idx@),
                rnames.len() == roots_idx@.len(),
                forall|j: int| 0 <= j < roots_idx@.len() ==> (#[trigger] roots_idx@[j]) < g.packages.len(),
                forall|j: int| 0 <= j < root_metas@.len() ==> #[trigger] root_metas@[j]@ == g.packages[roots_idx@[j] as int],
                root_metas@.len() == roots_idx@.len(),
                forall|j: int| 0 <= j < deps@.len() ==> (#[trigger] deps@[j]) < g.packages.len(),
                0 <= d <= deps@.len(),
                kept@ == filter_roots(g, deps@.take(d as int), rnames),
                forall|j: int| 0 <= j < kept@.len() ==> (#[trigger] kept@[j]) < g.packages.len(),
            decreases deps@.len() - d,
        {
            let idx = deps[d];
            proof {
                assert(deps@.take(d + 1).drop_last() =~= deps@.take(d as int));
                assert(deps@.take(d + 1).last() == deps@[d as int]);
                assert(g.packages[idx as int] == graph.packages@[idx as int]@);
            }
            let mut is_root = false;
            let mut j: usize = 0;
            while j < root_metas.len()
                invariant
                    g == graph@,
                    rnames == root_names_of(g, roots_idx@),
                    rnames.len() == roots_idx@.len(),
                    root_metas@.len() == roots_idx@.len(),
                    forall|q: int|
                        0 <= q < root_metas@.len() ==> #[trigger] root_metas@[q]@ == g.packages[roots_idx@[q] as int],
                    idx < g.packages.len(),
                    idx == deps@[d as int],
                    0 <= d < deps@.len(),
                    0 <= j <= root_metas@.len(),
                    is_root == exists|q: int|
                        0 <= q < j && #[trigger] rnames[q] == g.packages[idx as int].name,
                decreases root_metas@.len() - j,
            {
                proof {
                    assert(rnames[j as int] == g.packages[roots_idx@[j as int] as int].name);
                    assert(root_metas@[j as int]@ == g.packages[roots_idx@[j as int] as int]);
                }
                if crate::text::str_eq(
                    root_metas[j].name.as_str(),
                    graph.packages[idx].name.as_str(),
                ) {
                    proof {
                        assert(rnames[j as int] == g.packages[idx as int].name);
                    }
                    is_root = true;
                }
                j += 1;
            }
            proof {
                if is_root {
                    let q = choose|q: int|
                        0 <= q < rnames.len() && #[trigger] rnames[q] == g.packages[idx as int].name;
                    assert(rnames.contains(g.packages[idx as int].name));
                } else {
                    if rnames.contains(g.packages[idx as int].name) {
                        let q = choose|q: int|
                            0 <= q < rnames.len() && rnames[q] == g.packages[idx as int].name;
                        assert(false);
                    }
                }
            }
            if !is_root {
                kept.push(idx);
            }
            d += 1;
        }
        proof {
            assert(deps@.take(deps@.len() as int) =~= deps@);
        }
        // sort by package name, then version
        let mut sorted: Vec<usize> = Vec::new();
        let mut s: usize = 0;
        proof {
            assert(sorted@ =~= sort_pkgs(g, kept@.take(0)));
        }
        while s < kept.len()
            invariant
                g == graph@,
                forall|j: int| 0 <= j < kept@.len() ==> (#[trigger] kept@[j]) < g.packages.len(),
                0 <= s <= kept@.len(),
                sorted@ == sort_pkgs(g, kept@.take(s as int)),
                forall|j: int| 0 <= j < sorted@.len() ==> (#[trigger] sorted@[j]) < g.packages.len(),
            decreases kept@.len() - s,
        {
            proof {
                assert(kept@.take(s + 1).drop_last() =~= kept@.take(s as int));
                assert(kept@.take(s + 1).last() == kept@[s as int]);
            }
            insert_pkg_exec(graph, &mut sorted, kept[s]);
            s += 1;
        }
        proof {
            assert(kept@.take(kept@.len() as int) =~= kept@);
        }
        // per package: find, score, warn, finalize, back-fill, prefer
        let mut finals: Vec<FinalizedLicense> = Vec::new();
        let mut warnings: Vec<LicenseWarning> = Vec::new();
        let mut i: usize = 0;
        proof {
            assert(fin_views(finals@) =~= sorted@.take(0).map_values(
                |ix: usize| entry_spec(self@.previous, self@.prefer, g, fvv, ix),
            ));
            assert(crate::found_license::warning_views(warnings@) =~= warns_of_pkgs(
                g,
                fvv,
                sorted@.take(0),
            ));
        }
        while i < sorted.len()
            invariant
                g == graph@,
                fvv == files_views(files@),
                files@.len() == g.packages.len(),
                fvv.len() == g.packages.len(),
                forall|j: int| 0 <= j < sorted@.len() ==> (#[trigger] sorted@[j]) < g.packages.len(),
                0 <= i <= sorted@.len(),
                finals@.len() == i,
                fin_views(finals@) == sorted@.take(i as int).map_values(
                    |ix: usize| entry_spec(self@.previous, self@.prefer, g, fvv, ix),
                ),
                crate::found_license::warning_views(warnings@) == warns_of_pkgs(
                    g,
                    fvv,
                    sorted@.take(i as int),
                ),
            decreases sorted@.len() - i,
        {
            let idx = sorted[i];
            proof {
                assert(sorted@.take(i + 1).drop_last() =~= sorted@.take(i as int));
                assert(sorted@.take(i + 1).last() == sorted@[i as int]);
                assert(g.packages[idx as int] == graph.packages@[idx as int]@);
                assert(fvv[idx as int] == crate::discovery::file_views(files@[idx as int]@));
            }
            let fl = FoundLicense::new(&graph.packages[idx], &files[idx]);
            let mut w = fl.check();
            let ghost wpre = crate::found_license::warning_views(warnings@);
            let ghost wnew = crate::found_license::warning_views(w@);
            warnings.append(&mut w);
            proof {
                assert forall|q: int|
                    0 <= q < warnings@.len() implies crate::found_license::warning_views(
                    warnings@,
                )[q] == (wpre + wnew)[q] by {
                    assert(crate::found_license::warning_views(warnings@)[q] == warnings@[q]@);
                }
                assert(crate::found_license::warning_views(warnings@) =~= wpre + wnew);
            }
            let fin = fl.finalize();
            let fin2 = match &self.previous {
                Some(prev) => backfill_one(&fin, &prev.third_party_libraries),
                None => fin,
            };
            let fin3 = prefer_one(&fin2, &self.prefer);
            let ghost fpre = fin_views(finals@);
            finals.push(fin3);
            proof {
                let target = sorted@.take(i + 1).map_values(
                    |ix: usize| entry_spec(self@.previous, self@.prefer, g, fvv, ix),
                );
                assert forall|q: int| 0 <= q < finals@.len() implies fin_views(finals@)[q]
                    == target[q] by {
                    assert(fin_views(finals@)[q] == finals@[q]@);
                    assert(sorted@.take(i + 1)[q] == sorted@[q]);
                    assert(target[q] == entry_spec(
                        self@.previous,
                        self@.prefer,
                        g,
                        fvv,
                        sorted@[q],
                    ));
                    if q < i {
                        assert(finals@[q] == finals@.drop_last()[q]);
                        assert(fpre[q] == finals@.drop_last()[q]@);
                        assert(sorted@.take(i as int)[q] == sorted@[q]);
                        assert(fpre[q] == sorted@.take(i as int).map_values(
                            |ix: usize| entry_spec(self@.previous, self@.prefer, g, fvv, ix),
                        )[q]);
                    } else {
                        assert(finals@[q] == finals@.last());
                    }
                }
                assert(fin_views(finals@) =~= target);
            }
            i += 1;
        }
        proof {
            assert(sorted@.take(sorted@.len() as int) =~= sorted@);
        }
        let bundle = Bundle::new(&root_metas, finals);
        proof {
            assert(root_metas@.map_values(|p: PackageMeta| p@.name) =~= rnames);
            assert(roots_ok(g, roots_idx@));
            assert(closure_ok(g, root_ids_of(g, roots_idx@), deps@)) by {
                assert(root_ids_of(g, roots_idx@) == rid);
            }
        }
        Ok((bundle, warnings))
    }
}

impl Bundle {
    /// The bundle's root package name(s).
    pub fn root_name(&self) -> (r: &String)
        ensures
            r@ == self@.root_name,
    {
        &self.root_name
    }

    /// The bundle's finalized licenses, in order.
    pub fn third_party_libraries(&self) -> (r: &Vec<FinalizedLicense>)
        ensures
            fin_views(r@) == self@.third_party_libraries,
    {
        &self.third_party_libraries
    }

    /// Rebuilds a bundle from its serialized parts.
    pub fn from_parts(root_name: String, third_party_libraries: Vec<FinalizedLicense>) -> (r: Self)
        ensures
            r@.root_name == root_name@,
            r@.third_party_libraries == fin_views(third_party_libraries@),
    {
        Bundle { root_name, third_party_libraries }
    }
}

/// The back-fill rule, spelled out: real text is never overwritten; a NOT
/// FOUND text is replaced exactly when the previous record stores a real
/// text for the same license, and is kept otherwise.
pub proof fn lemma_backfill_rule(l: LicenseAndTextV, prev: Seq<LicenseAndTextV>)
    ensures
        l.text != "NOT FOUND"@ ==> backfill_lat(l, prev) == l,
        l.text == "NOT FOUND"@ && last_lat(prev, l.license) is None ==> backfill_lat(l, prev) == l,
        (l.text == "NOT FOUND"@ && match last_lat(prev, l.license) {
            Some(j) => 0 <= j < prev.len() && prev[j].text == "NOT FOUND"@,
            None => false,
        }) ==> backfill_lat(l, prev) == l,
        (l.text == "NOT FOUND"@ && match last_lat(prev, l.license) {
            Some(j) => 0 <= j < prev.len() && prev[j].text != "NOT FOUND"@,
            None => false,
        }) ==> backfill_lat(l, prev).text == prev[last_lat(prev, l.license)->Some_0].text
            && backfill_lat(l, prev).license == l.license,
{
}

/// The preference rule, spelled out: a declaration carrying `AND` is left
/// untouched; otherwise, when the first matching preference exists, only its
/// entries are kept and it becomes the reported license.
pub proof fn lemma_prefer_rule(f: FinalizedLicenseV, prefer: Seq<LicenseV>)
    ensures
        crate::text::seq_contains(f.license, "AND"@) ==> prefer_fin(f, prefer) == f,
        first_pref(prefer, f.licenses) is None ==> prefer_fin(f, prefer) == f,
        (!crate::text::seq_contains(f.license, "AND"@) && match first_pref(prefer, f.licenses) {
            Some(p) => 0 <= p < prefer.len(),
            None => false,
        }) ==> {
            let p = first_pref(prefer, f.licenses)->Some_0;
            prefer_fin(f, prefer).license == canon_of(prefer[p]) && prefer_fin(f, prefer).licenses
                == retain_pref(f.licenses, prefer[p])
        },
{
}

} // verus!
