//! The serializable per-package result: the package's identity, its declared
//! license and one text (or the NOT FOUND marker) per sub-license.

use vstd::prelude::*;
use vstd::string::StringExecFns;

use crate::license::{canon_of, License};
use crate::package_loader::{PackageMeta, PackageMetaV};

verus! {

/// The reserved marker for a sub-license whose text was not found; never
/// emitted as genuine license text.
pub const LICENSE_NOT_FOUNT_TEXT: &'static str = "NOT FOUND";

/// One sub-license of a package together with its text.
#[derive(Debug)]
pub struct LicenseAndText {
    /// The license itself, canonically written.
    pub license: String,
    /// The license text, or the NOT FOUND marker.
    pub text: String,
}

/// The mathematical shape of a [`LicenseAndText`].
pub struct LicenseAndTextV {
    pub license: Seq<char>,
    pub text: Seq<char>,
}

impl View for LicenseAndText {
    type V = LicenseAndTextV;

    open spec fn view(&self) -> LicenseAndTextV {
        LicenseAndTextV { license: self.license@, text: self.text@ }
    }
}

impl Clone for LicenseAndText {
    /// A clone has the same view as the original.
    fn clone(&self) -> (r: Self)
        ensures
            r@ == self@,
    {
        LicenseAndText { license: self.license.clone(), text: self.text.clone() }
    }
}

impl LicenseAndText {
    /// Pairs a license's canonical string with a text.
    pub fn new(license: &License, text: String) -> (r: Self)
        ensures
            r@.license == canon_of(license@),
            r@.text == text@,
    {
        LicenseAndText { license: license.canonical_string(), text }
    }
}

/// The views of a list of sub-license texts.
pub open spec fn lat_views(ls: Seq<LicenseAndText>) -> Seq<LicenseAndTextV> {
    ls.map_values(|l: LicenseAndText| l@)
}

/// One finalized package: what the bundle serializes.
#[derive(Debug)]
pub struct FinalizedLicense {
    /// The name of the package this license is for.
    pub package_name: String,
    /// The version of the package this license is for.
    pub package_version: String,
    /// The url of the package's repository, empty when absent.
    pub repository: String,
    /// The license declaration as the package wrote it, or the canonical
    /// string of the resolved license when absent.
    pub license: String,
    /// The sub-licenses and their texts.
    pub licenses: Vec<LicenseAndText>,
}

/// The mathematical shape of a [`FinalizedLicense`].
pub struct FinalizedLicenseV {
    pub package_name: Seq<char>,
    pub package_version: Seq<char>,
    pub repository: Seq<char>,
    pub license: Seq<char>,
    pub licenses: Seq<LicenseAndTextV>,
}

impl View for FinalizedLicense {
    type V = FinalizedLicenseV;

    open spec fn view(&self) -> FinalizedLicenseV {
        FinalizedLicenseV {
            package_name: self.package_name@,
            package_version: self.package_version@,
            repository: self.repository@,
            license: self.license@,
            licenses: lat_views(self.licenses@),
        }
    }
}

/// Clones a list of sub-license texts.
pub(crate) fn clone_lats(ls: &Vec<LicenseAndText>) -> (r: Vec<LicenseAndText>)
    ensures
        lat_views(r@) == lat_views(ls@),
{
    let mut r: Vec<LicenseAndText> = Vec::new();
    let mut i: usize = 0;
    while i < ls.len()
        invariant
            0 <= i <= ls@.len(),
            r@.len() == i,
            forall|k: int| 0 <= k < i ==> #[trigger] r@[k]@ == ls@[k]@,
        decreases ls@.len() - i,
    {
        r.push(ls[i].clone());
        i += 1;
    }
    proof {
        assert forall|k: int| 0 <= k < r@.len() implies lat_views(r@)[k] == lat_views(ls@)[k] by {
            assert(lat_views(r@)[k] == r@[k]@);
            assert(lat_views(ls@)[k] == ls@[k]@);
        }
        assert(lat_views(r@) =~= lat_views(ls@));
    }
    r
}

impl Clone for FinalizedLicense {
    /// A clone has the same view as the original.
    fn clone(&self) -> (r: Self)
        ensures
            r@ == self@,
    {
        FinalizedLicense {
            package_name: self.package_name.clone(),
            package_version: self.package_version.clone(),
            repository: self.repository.clone(),
            license: self.license.clone(),
            licenses: clone_lats(&self.licenses),
        }
    }
}

/// What `FinalizedLicense::new` yields for a package, a resolved license and
/// its texts.
pub open spec fn finalized_new_spec(
    p: PackageMetaV,
    license: crate::license::LicenseV,
    lats: Seq<LicenseAndTextV>,
) -> FinalizedLicenseV {
    FinalizedLicenseV {
        package_name: p.name,
        package_version: p.version,
        repository: match p.repository {
            Some(r) => r,
            None => Seq::empty(),
        },
        license: match p.license {
            Some(d) => d,
            None => canon_of(license),
        },
        licenses: lats,
    }
}

impl FinalizedLicense {
    /// Builds the serializable record of one package: the declaration falls
    /// back to the resolved license's canonical string, the repository to
    /// the empty string.
    pub fn new(package: &PackageMeta, license: License, licenses: Vec<LicenseAndText>) -> (r: Self)
        ensures
            r@ == finalized_new_spec(package@, license@, lat_views(licenses@)),
    {
        let repository = match &package.repository {
            Some(r) => r.clone(),
            None => String::new(),
        };
        let lic = match &package.license {
            Some(d) => d.clone(),
            None => license.canonical_string(),
        };
        proof {
            assert(repository@ =~= match package@.repository {
                Some(r) => r,
                None => Seq::<char>::empty(),
            });
        }
        FinalizedLicense {
            package_name: package.name.clone(),
            package_version: package.version.clone(),
            repository,
            license: lic,
            licenses,
        }
    }
}

/// Equality of two sub-license texts.
pub open spec fn lat_eq(a: LicenseAndTextV, b: LicenseAndTextV) -> bool {
    a.license == b.license && a.text == b.text
}

/// Some entry of the list equals the given sub-license text.
pub open spec fn lat_contains(b: Seq<LicenseAndTextV>, x: LicenseAndTextV) -> bool {
    exists|j: int| 0 <= j < b.len() && lat_eq(x, #[trigger] b[j])
}

/// The two lists hold the same sub-license texts, order-independent.
pub open spec fn lat_set_eq(a: Seq<LicenseAndTextV>, b: Seq<LicenseAndTextV>) -> bool {
    (forall|i: int| 0 <= i < a.len() ==> lat_contains(b, #[trigger] a[i])) && (forall|j: int|
        0 <= j < b.len() ==> lat_contains(a, #[trigger] b[j]))
}

/// Finalized records are equal when every field agrees, with the
/// sub-license lists compared as sets.
pub open spec fn fin_eq(a: FinalizedLicenseV, b: FinalizedLicenseV) -> bool {
    a.package_name == b.package_name && a.package_version == b.package_version && a.repository
        == b.repository && a.license == b.license && lat_set_eq(a.licenses, b.licenses)
}

/// Executable equality of two sub-license texts.
fn lat_eq_exec(a: &LicenseAndText, b: &LicenseAndText) -> (r: bool)
    ensures
        r == lat_eq(a@, b@),
{
    crate::text::str_eq(a.license.as_str(), b.license.as_str()) && crate::text::str_eq(
        a.text.as_str(),
        b.text.as_str(),
    )
}

/// Does some entry of `b` equal `x`?
fn lat_in(x: &LicenseAndText, b: &Vec<LicenseAndText>) -> (r: bool)
    ensures
        r == lat_contains(lat_views(b@), x@),
{
    let mut j: usize = 0;
    while j < b.len()
        invariant
            0 <= j <= b@.len(),
            forall|k: int| 0 <= k < j ==> !lat_eq(x@, #[trigger] lat_views(b@)[k]),
        decreases b@.len() - j,
    {
        proof {
            assert(lat_views(b@)[j as int] == b@[j as int]@);
        }
        if lat_eq_exec(x, &b[j]) {
            proof {
                assert(lat_eq(x@, lat_views(b@)[j as int]));
            }
            return true;
        }
        j += 1;
    }
    proof {
        if lat_contains(lat_views(b@), x@) {
            let k = choose|k: int| 0 <= k < lat_views(b@).len() && lat_eq(x@, lat_views(b@)[k]);
            assert(false);
        }
    }
    false
}

/// One-directional containment of sub-license lists.
fn lat_subset(a: &Vec<LicenseAndText>, b: &Vec<LicenseAndText>) -> (r: bool)
    ensures
        r == forall|i: int|
            0 <= i < lat_views(a@).len() ==> lat_contains(lat_views(b@), #[trigger] lat_views(a@)[i]),
{
    let mut i: usize = 0;
    while i < a.len()
        invariant
            0 <= i <= a@.len(),
            forall|k: int| 0 <= k < i ==> lat_contains(lat_views(b@), #[trigger] lat_views(a@)[k]),
        decreases a@.len() - i,
    {
        proof {
            assert(lat_views(a@)[i as int] == a@[i as int]@);
        }
        if !lat_in(&a[i], b) {
            return false;
        }
        i += 1;
    }
    true
}

impl PartialEq for FinalizedLicense {
    fn eq(&self, other: &Self) -> (r: bool) {
        crate::text::str_eq(self.package_name.as_str(), other.package_name.as_str())
            && crate::text::str_eq(self.package_version.as_str(), other.package_version.as_str())
            && crate::text::str_eq(self.repository.as_str(), other.repository.as_str())
            && crate::text::str_eq(self.license.as_str(), other.license.as_str()) && lat_subset(
            &self.licenses,
            &other.licenses,
        ) && lat_subset(&other.licenses, &self.licenses)
    }
}

impl vstd::std_specs::cmp::PartialEqSpecImpl for FinalizedLicense {
    open spec fn obeys_eq_spec() -> bool {
        true
    }

    open spec fn eq_spec(&self, other: &Self) -> bool {
        fin_eq(self@, other@)
    }
}

/// The lookup key of a package: its name and version.
#[derive(Debug)]
pub struct LicenseKey {
    package_name: String,
    package_version: String,
}

/// The mathematical shape of a [`LicenseKey`].
pub struct LicenseKeyV {
    pub package_name: Seq<char>,
    pub package_version: Seq<char>,
}

impl View for LicenseKey {
    type V = LicenseKeyV;

    closed spec fn view(&self) -> LicenseKeyV {
        LicenseKeyV { package_name: self.package_name@, package_version: self.package_version@ }
    }
}

impl LicenseKey {
    /// Builds a lookup key from a package name and version.
    pub fn new(package_name: String, package_version: String) -> (r: Self)
        ensures
            r@.package_name == package_name@,
            r@.package_version == package_version@,
    {
        LicenseKey { package_name, package_version }
    }
}

/// The key of a finalized record.
pub open spec fn key_of(f: FinalizedLicenseV) -> LicenseKeyV {
    LicenseKeyV { package_name: f.package_name, package_version: f.package_version }
}

/// The views of a list of finalized records.
pub open spec fn fin_views(fs: Seq<FinalizedLicense>) -> Seq<FinalizedLicenseV> {
    fs.map_values(|f: FinalizedLicense| f@)
}

/// Builds the lookup from package key to that package's sub-license texts,
/// one entry per record in order.
pub fn finalized_licenses_lookup(licenses: &Vec<FinalizedLicense>) -> (r: Vec<
    (LicenseKey, Vec<LicenseAndText>),
>)
    ensures
        r@.len() == licenses@.len(),
        forall|i: int|
            0 <= i < r@.len() ==> (#[trigger] r@[i].0)@ == key_of(fin_views(licenses@)[i])
                && lat_views(r@[i].1@) == fin_views(licenses@)[i].licenses,
{
    let mut r: Vec<(LicenseKey, Vec<LicenseAndText>)> = Vec::new();
    let mut i: usize = 0;
    while i < licenses.len()
        invariant
            0 <= i <= licenses@.len(),
            r@.len() == i,
            forall|k: int|
                0 <= k < i ==> (#[trigger] r@[k].0)@ == key_of(fin_views(licenses@)[k])
                    && lat_views(r@[k].1@) == fin_views(licenses@)[k].licenses,
        decreases licenses@.len() - i,
    {
        let f = &licenses[i];
        let key = LicenseKey::new(f.package_name.clone(), f.package_version.clone());
        let inner = clone_lats(&f.licenses);
        r.push((key, inner));
        proof {
            assert(fin_views(licenses@)[i as int] == licenses@[i as int]@);
        }
        i += 1;
    }
    r
}

} // verus!
