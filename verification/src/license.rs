//! The license-expression model: a canonical representation of a package's
//! license declaration.
//!
//! A license `WITH` an exception is treated as its own atomic license, so
//! `Apache-2.0 WITH LLVM-exception` is a variant of its own.

use vstd::prelude::*;
use vstd::string::StringExecFns;

use crate::templates;

verus! {

/// A license declaration in canonical form.
///
/// The named variants are the well-known identifiers from the SPDX license
/// list that this crate ships reference templates or synonyms for; everything
/// else degrades to `Custom` (free-text), `File` (a path to a license file),
/// `Multiple` (a list of alternatives, "choose one") or `Unspecified`.
#[allow(non_camel_case_types)]
#[derive(Debug)]
pub enum License {
    Unlicense,
    BSD_0_Clause,
    CC0_1_0,
    MIT,
    X11,
    BSD_2_Clause,
    BSD_3_Clause,
    BSL_1_0,
    Apache_2_0,
    Apache_2_0_WITH_LLVM_exception,
    LGPL_2_0,
    LGPL_2_1,
    LGPL_2_1Plus,
    LGPL_3_0,
    LGPL_3_0Plus,
    MPL_1_1,
    MPL_2_0,
    GPL_2_0,
    GPL_2_0Plus,
    GPL_3_0,
    GPL_3_0Plus,
    AGPL_3_0,
    AGPL_3_0Plus,
    Zlib,
    /// A declaration this crate has no table entry for, kept verbatim.
    Custom(String),
    /// "whatever text is in this file": a path instead of a license name.
    File(String),
    /// An ordered list of alternative licenses ("choose one").
    Multiple(Vec<License>),
    Unspecified,
}

/// The mathematical shape of a [`License`]: strings become character
/// sequences, the list of alternatives becomes a sequence of shapes.
#[allow(non_camel_case_types)]
pub enum LicenseV {
    Unlicense,
    BSD_0_Clause,
    CC0_1_0,
    MIT,
    X11,
    BSD_2_Clause,
    BSD_3_Clause,
    BSL_1_0,
    Apache_2_0,
    Apache_2_0_WITH_LLVM_exception,
    LGPL_2_0,
    LGPL_2_1,
    LGPL_2_1Plus,
    LGPL_3_0,
    LGPL_3_0Plus,
    MPL_1_1,
    MPL_2_0,
    GPL_2_0,
    GPL_2_0Plus,
    GPL_3_0,
    GPL_3_0Plus,
    AGPL_3_0,
    AGPL_3_0Plus,
    Zlib,
    Custom(Seq<char>),
    File(Seq<char>),
    Multiple(Seq<LicenseV>),
    Unspecified,
}

pub open spec fn lic_view(l: License) -> LicenseV
    decreases l,
{
    match l {
        License::Unlicense => LicenseV::Unlicense,
        License::BSD_0_Clause => LicenseV::BSD_0_Clause,
        License::CC0_1_0 => LicenseV::CC0_1_0,
        License::MIT => LicenseV::MIT,
        License::X11 => LicenseV::X11,
        License::BSD_2_Clause => LicenseV::BSD_2_Clause,
        License::BSD_3_Clause => LicenseV::BSD_3_Clause,
        License::BSL_1_0 => LicenseV::BSL_1_0,
        License::Apache_2_0 => LicenseV::Apache_2_0,
        License::Apache_2_0_WITH_LLVM_exception => LicenseV::Apache_2_0_WITH_LLVM_exception,
        License::LGPL_2_0 => LicenseV::LGPL_2_0,
        License::LGPL_2_1 => LicenseV::LGPL_2_1,
        License::LGPL_2_1Plus => LicenseV::LGPL_2_1Plus,
        License::LGPL_3_0 => LicenseV::LGPL_3_0,
        License::LGPL_3_0Plus => LicenseV::LGPL_3_0Plus,
        License::MPL_1_1 => LicenseV::MPL_1_1,
        License::MPL_2_0 => LicenseV::MPL_2_0,
        License::GPL_2_0 => LicenseV::GPL_2_0,
        License::GPL_2_0Plus => LicenseV::GPL_2_0Plus,
        License::GPL_3_0 => LicenseV::GPL_3_0,
        License::GPL_3_0Plus => LicenseV::GPL_3_0Plus,
        License::AGPL_3_0 => LicenseV::AGPL_3_0,
        License::AGPL_3_0Plus => LicenseV::AGPL_3_0Plus,
        License::Zlib => LicenseV::Zlib,
        License::Custom(s) => LicenseV::Custom(s@),
        License::File(p) => LicenseV::File(p@),
        License::Multiple(ls) => LicenseV::Multiple(lic_views(ls@)),
        License::Unspecified => LicenseV::Unspecified,
    }
}

pub open spec fn lic_views(ls: Seq<License>) -> Seq<LicenseV>
    decreases ls,
{
    if ls.len() == 0 {
        Seq::empty()
    } else {
        seq![lic_view(ls[0])] + lic_views(ls.drop_first())
    }
}

impl View for License {
    type V = LicenseV;

    open spec fn view(&self) -> LicenseV {
        lic_view(*self)
    }
}

/// `lic_views` is the element-wise image of `lic_view`.
pub proof fn lemma_lic_views_index(ls: Seq<License>)
    ensures
        lic_views(ls).len() == ls.len(),
        forall|i: int| 0 <= i < ls.len() ==> lic_views(ls)[i] == lic_view(#[trigger] ls[i]),
    decreases ls,
{
    if ls.len() > 0 {
        lemma_lic_views_index(ls.drop_first());
        assert forall|i: int| 0 <= i < ls.len() implies lic_views(ls)[i] == lic_view(
            #[trigger] ls[i],
        ) by {
            if i > 0 {
                assert(ls.drop_first()[i - 1] == ls[i]);
                assert(lic_views(ls)[i] == lic_views(ls.drop_first())[i - 1]);
            }
        }
    }
}

impl Clone for License {
    /// A clone has the same view as the original.
    fn clone(&self) -> (r: Self)
        ensures
            r@ == self@,
        decreases *self, 1int,
    {
        match self {
            License::Unlicense => License::Unlicense,
            License::BSD_0_Clause => License::BSD_0_Clause,
            License::CC0_1_0 => License::CC0_1_0,
            License::MIT => License::MIT,
            License::X11 => License::X11,
            License::BSD_2_Clause => License::BSD_2_Clause,
            License::BSD_3_Clause => License::BSD_3_Clause,
            License::BSL_1_0 => License::BSL_1_0,
            License::Apache_2_0 => License::Apache_2_0,
            License::Apache_2_0_WITH_LLVM_exception => License::Apache_2_0_WITH_LLVM_exception,
            License::LGPL_2_0 => License::LGPL_2_0,
            License::LGPL_2_1 => License::LGPL_2_1,
            License::LGPL_2_1Plus => License::LGPL_2_1Plus,
            License::LGPL_3_0 => License::LGPL_3_0,
            License::LGPL_3_0Plus => License::LGPL_3_0Plus,
            License::MPL_1_1 => License::MPL_1_1,
            License::MPL_2_0 => License::MPL_2_0,
            License::GPL_2_0 => License::GPL_2_0,
            License::GPL_2_0Plus => License::GPL_2_0Plus,
            License::GPL_3_0 => License::GPL_3_0,
            License::GPL_3_0Plus => License::GPL_3_0Plus,
            License::AGPL_3_0 => License::AGPL_3_0,
            License::AGPL_3_0Plus => License::AGPL_3_0Plus,
            License::Zlib => License::Zlib,
            License::Custom(s) => License::Custom(s.clone()),
            License::File(p) => License::File(p.clone()),
            License::Multiple(ls) => License::Multiple(license_list_clone(self, ls)),
            License::Unspecified => License::Unspecified,
        }
    }
}

/// Clones a list of alternatives; `owner` is the `Multiple` that `ls` belongs
/// to, carried only for the termination measure.
fn license_list_clone(owner: &License, ls: &Vec<License>) -> (r: Vec<License>)
    requires
        owner is Multiple,
        owner->Multiple_0@ == ls@,
    ensures
        lic_views(r@) == lic_views(ls@),
    decreases *owner, 0int,
{
    proof {
        lemma_lic_views_index(ls@);
    }
    let n = ls.len();
    let mut r: Vec<License> = Vec::new();
    let mut i: usize = 0;
    while i < n
        invariant
            n == ls.len(),
            owner is Multiple,
            owner->Multiple_0@ == ls@,
            0 <= i <= n,
            r@.len() == i,
            lic_views(ls@).len() == n,
            forall|j: int| 0 <= j < i ==> lic_view(#[trigger] r@[j]) == lic_views(ls@)[j],
            forall|j: int| 0 <= j < ls@.len() ==> lic_views(ls@)[j] == lic_view(#[trigger] ls@[j]),
        decreases n - i,
    {
        proof {
            assert(decreases_to!(*owner => owner->Multiple_0));
            assert(decreases_to!(owner->Multiple_0 => owner->Multiple_0@));
            assert(decreases_to!(owner->Multiple_0@ => owner->Multiple_0@[i as int]));
        }
        r.push(ls[i].clone());
        i += 1;
    }
    proof {
        lemma_lic_views_index(r@);
        assert forall|j: int| 0 <= j < n implies lic_views(r@)[j] == lic_views(ls@)[j] by {
            assert(lic_views(r@)[j] == lic_view(r@[j]));
        }
        assert(lic_views(r@) =~= lic_views(ls@));
    }
    r
}

/// Verified deep equality: two licenses are equal exactly when their views are.
pub fn license_eq(a: &License, b: &License) -> (r: bool)
    ensures
        r == (a@ == b@),
    decreases *a, 1int,
{
    match (a, b) {
        (License::Unlicense, License::Unlicense) => true,
        (License::BSD_0_Clause, License::BSD_0_Clause) => true,
        (License::CC0_1_0, License::CC0_1_0) => true,
        (License::MIT, License::MIT) => true,
        (License::X11, License::X11) => true,
        (License::BSD_2_Clause, License::BSD_2_Clause) => true,
        (License::BSD_3_Clause, License::BSD_3_Clause) => true,
        (License::BSL_1_0, License::BSL_1_0) => true,
        (License::Apache_2_0, License::Apache_2_0) => true,
        (
            License::Apache_2_0_WITH_LLVM_exception,
            License::Apache_2_0_WITH_LLVM_exception,
        ) => true,
        (License::LGPL_2_0, License::LGPL_2_0) => true,
        (License::LGPL_2_1, License::LGPL_2_1) => true,
        (License::LGPL_2_1Plus, License::LGPL_2_1Plus) => true,
        (License::LGPL_3_0, License::LGPL_3_0) => true,
        (License::LGPL_3_0Plus, License::LGPL_3_0Plus) => true,
        (License::MPL_1_1, License::MPL_1_1) => true,
        (License::MPL_2_0, License::MPL_2_0) => true,
        (License::GPL_2_0, License::GPL_2_0) => true,
        (License::GPL_2_0Plus, License::GPL_2_0Plus) => true,
        (License::GPL_3_0, License::GPL_3_0) => true,
        (License::GPL_3_0Plus, License::GPL_3_0Plus) => true,
        (License::AGPL_3_0, License::AGPL_3_0) => true,
        (License::AGPL_3_0Plus, License::AGPL_3_0Plus) => true,
        (License::Zlib, License::Zlib) => true,
        (License::Custom(x), License::Custom(y)) => *x == *y,
        (License::File(x), License::File(y)) => *x == *y,
        (License::Multiple(xs), License::Multiple(ys)) => license_list_eq(a, xs, ys),
        (License::Unspecified, License::Unspecified) => true,
        _ => false,
    }
}

/// Element-wise equality of two alternative lists; `owner` is the `Multiple`
/// that `xs` belongs to, carried only for the termination measure.
fn license_list_eq(owner: &License, xs: &Vec<License>, ys: &Vec<License>) -> (r: bool)
    requires
        owner is Multiple,
        owner->Multiple_0@ == xs@,
    ensures
        r == (lic_views(xs@) == lic_views(ys@)),
    decreases *owner, 0int,
{
    proof {
        lemma_lic_views_index(xs@);
        lemma_lic_views_index(ys@);
    }
    if xs.len() != ys.len() {
        proof {
            assert(lic_views(xs@).len() != lic_views(ys@).len());
        }
        return false;
    }
    let n = xs.len();
    let mut i: usize = 0;
    while i < n
        invariant
            n == xs.len() == ys.len(),
            owner is Multiple,
            owner->Multiple_0@ == xs@,
            0 <= i <= n,
            lic_views(xs@).len() == n,
            lic_views(ys@).len() == n,
            forall|j: int| 0 <= j < i ==> lic_views(xs@)[j] == lic_views(ys@)[j],
            forall|j: int| 0 <= j < xs@.len() ==> lic_views(xs@)[j] == lic_view(#[trigger] xs@[j]),
            forall|j: int| 0 <= j < ys@.len() ==> lic_views(ys@)[j] == lic_view(#[trigger] ys@[j]),
        decreases n - i,
    {
        proof {
            assert(decreases_to!(*owner => owner->Multiple_0));
            assert(decreases_to!(owner->Multiple_0 => owner->Multiple_0@));
            assert(decreases_to!(owner->Multiple_0@ => owner->Multiple_0@[i as int]));
        }
        if !license_eq(&xs[i], &ys[i]) {
            proof {
                assert(lic_views(xs@)[i as int] != lic_views(ys@)[i as int]);
            }
            return false;
        }
        i += 1;
    }
    proof {
        assert(lic_views(xs@) =~= lic_views(ys@));
    }
    true
}

impl PartialEq for License {
    fn eq(&self, other: &Self) -> (r: bool) {
        license_eq(self, other)
    }
}

impl vstd::std_specs::cmp::PartialEqSpecImpl for License {
    open spec fn obeys_eq_spec() -> bool {
        true
    }

    open spec fn eq_spec(&self, other: &Self) -> bool {
        self@ == other@
    }
}

/// The canonical display string of a license shape: the SPDX identifier for
/// the well-known variants, the text itself for `Custom`, a description for
/// `File`, and the members joined with ` / ` for `Multiple`.
pub open spec fn canon_of(l: LicenseV) -> Seq<char>
    decreases l,
{
    match l {
        LicenseV::Unlicense => "Unlicense"@,
        LicenseV::BSD_0_Clause => "0BSD"@,
        LicenseV::CC0_1_0 => "CC0-1.0"@,
        LicenseV::MIT => "MIT"@,
        LicenseV::X11 => "X11"@,
        LicenseV::BSD_2_Clause => "BSD-2-Clause"@,
        LicenseV::BSD_3_Clause => "BSD-3-Clause"@,
        LicenseV::BSL_1_0 => "BSL-1.0"@,
        LicenseV::Apache_2_0 => "Apache-2.0"@,
        LicenseV::Apache_2_0_WITH_LLVM_exception => "Apache-2.0 WITH LLVM-exception"@,
        LicenseV::LGPL_2_0 => "LGPL-2.0-only"@,
        LicenseV::LGPL_2_1 => "LGPL-2.1-only"@,
        LicenseV::LGPL_2_1Plus => "LGPL-2.1-or-later"@,
        LicenseV::LGPL_3_0 => "LGPL-3.0-only"@,
        LicenseV::LGPL_3_0Plus => "LGPL-3.0-or-later"@,
        LicenseV::MPL_1_1 => "MPL-1.1"@,
        LicenseV::MPL_2_0 => "MPL-2.0"@,
        LicenseV::GPL_2_0 => "GPL-2.0-only"@,
        LicenseV::GPL_2_0Plus => "GPL-2.0-or-later"@,
        LicenseV::GPL_3_0 => "GPL-3.0-only"@,
        LicenseV::GPL_3_0Plus => "GPL-3.0-or-later"@,
        LicenseV::AGPL_3_0 => "AGPL-3.0-only"@,
        LicenseV::AGPL_3_0Plus => "AGPL-3.0-or-later"@,
        LicenseV::Zlib => "Zlib"@,
        LicenseV::Custom(s) => s,
        LicenseV::File(p) => "License specified in file ("@ + p + ")"@,
        LicenseV::Multiple(ls) => canons_joined(ls),
        LicenseV::Unspecified => "No license specified"@,
    }
}

/// The members' canonical strings joined with ` / `.
pub open spec fn canons_joined(ls: Seq<LicenseV>) -> Seq<char>
    decreases ls,
{
    if ls.len() == 0 {
        Seq::empty()
    } else if ls.len() == 1 {
        canon_of(ls[0])
    } else {
        canons_joined(ls.drop_last()) + " / "@ + canon_of(ls.last())
    }
}

impl License {
    /// The canonical display string of this license.
    pub fn canonical_string(&self) -> (r: String)
        ensures
            r@ == canon_of(self@),
        decreases *self, 1int,
    {
        match self {
            License::Unlicense => String::from_str("Unlicense"),
            License::BSD_0_Clause => String::from_str("0BSD"),
            License::CC0_1_0 => String::from_str("CC0-1.0"),
            License::MIT => String::from_str("MIT"),
            License::X11 => String::from_str("X11"),
            License::BSD_2_Clause => String::from_str("BSD-2-Clause"),
            License::BSD_3_Clause => String::from_str("BSD-3-Clause"),
            License::BSL_1_0 => String::from_str("BSL-1.0"),
            License::Apache_2_0 => String::from_str("Apache-2.0"),
            License::Apache_2_0_WITH_LLVM_exception => String::from_str(
                "Apache-2.0 WITH LLVM-exception",
            ),
            License::LGPL_2_0 => String::from_str("LGPL-2.0-only"),
            License::LGPL_2_1 => String::from_str("LGPL-2.1-only"),
            License::LGPL_2_1Plus => String::from_str("LGPL-2.1-or-later"),
            License::LGPL_3_0 => String::from_str("LGPL-3.0-only"),
            License::LGPL_3_0Plus => String::from_str("LGPL-3.0-or-later"),
            License::MPL_1_1 => String::from_str("MPL-1.1"),
            License::MPL_2_0 => String::from_str("MPL-2.0"),
            License::GPL_2_0 => String::from_str("GPL-2.0-only"),
            License::GPL_2_0Plus => String::from_str("GPL-2.0-or-later"),
            License::GPL_3_0 => String::from_str("GPL-3.0-only"),
            License::GPL_3_0Plus => String::from_str("GPL-3.0-or-later"),
            License::AGPL_3_0 => String::from_str("AGPL-3.0-only"),
            License::AGPL_3_0Plus => String::from_str("AGPL-3.0-or-later"),
            License::Zlib => String::from_str("Zlib"),
            License::Custom(s) => s.clone(),
            License::File(p) => {
                let r = String::from_str("License specified in file (").concat(p.as_str()).concat(
                    ")",
                );
                r
            },
            License::Multiple(ls) => join_canons(self, ls),
            License::Unspecified => String::from_str("No license specified"),
        }
    }
}

/// Joins the members' canonical strings with ` / `; `owner` is the `Multiple`
/// that `ls` belongs to, carried only for the termination measure.
fn join_canons(owner: &License, ls: &Vec<License>) -> (r: String)
    requires
        owner is Multiple,
        owner->Multiple_0@ == ls@,
    ensures
        r@ == canons_joined(lic_views(ls@)),
    decreases *owner, 0int,
{
    proof {
        lemma_lic_views_index(ls@);
    }
    let ghost vs = lic_views(ls@);
    let n = ls.len();
    let mut acc = String::new();
    let mut i: usize = 0;
    proof {
        assert(vs.take(0) =~= Seq::<LicenseV>::empty());
    }
    while i < n
        invariant
            n == ls.len(),
            owner is Multiple,
            owner->Multiple_0@ == ls@,
            vs == lic_views(ls@),
            vs.len() == n,
            0 <= i <= n,
            acc@ == canons_joined(vs.take(i as int)),
            forall|j: int| 0 <= j < ls@.len() ==> vs[j] == lic_view(#[trigger] ls@[j]),
        decreases n - i,
    {
        proof {
            assert(decreases_to!(*owner => owner->Multiple_0));
            assert(decreases_to!(owner->Multiple_0 => owner->Multiple_0@));
            assert(decreases_to!(owner->Multiple_0@ => owner->Multiple_0@[i as int]));
        }
        let c = ls[i].canonical_string();
        proof {
            assert(vs.take(i + 1).drop_last() =~= vs.take(i as int));
            assert(vs.take(i + 1).last() == vs[i as int]);
        }
        if i == 0 {
            acc = c;
            proof {
                assert(vs.take(1).len() == 1);
                assert(vs.take(1)[0] == vs[0]);
            }
        } else {
            acc.append(" / ");
            acc.append(c.as_str());
        }
        i += 1;
    }
    proof {
        assert(vs.take(n as int) =~= vs);
    }
    acc
}

/// The shape's reference template body, where one is embedded.
pub open spec fn template_of(l: LicenseV) -> Option<Seq<char>> {
    match l {
        LicenseV::Unlicense => Some(templates::unlicense_spec()),
        LicenseV::BSD_0_Clause => Some(templates::bsd_0_clause_spec()),
        LicenseV::MIT => Some(templates::mit_spec()),
        LicenseV::BSD_2_Clause => Some(templates::bsd_2_clause_spec()),
        LicenseV::BSD_3_Clause => Some(templates::bsd_3_clause_spec()),
        LicenseV::BSL_1_0 => Some(templates::bsl_1_0_spec()),
        LicenseV::Apache_2_0 => Some(templates::apache_2_0_spec()),
        LicenseV::Apache_2_0_WITH_LLVM_exception => Some(
            templates::apache_2_0_with_llvm_exception_spec(),
        ),
        LicenseV::GPL_2_0Plus => Some(templates::gpl_2_0_plus_spec()),
        LicenseV::GPL_3_0Plus => Some(templates::gpl_3_0_plus_spec()),
        LicenseV::LGPL_2_1Plus => Some(templates::lgpl_2_1_plus_spec()),
        LicenseV::LGPL_3_0Plus => Some(templates::lgpl_3_0_plus_spec()),
        LicenseV::Zlib => Some(templates::zlib_spec()),
        _ => None,
    }
}

impl License {
    /// The embedded reference template for this license, if it has one.
    ///
    /// `Multiple` carries no direct template: callers expand it to the union
    /// of its members' templates.
    pub fn template(&self) -> (r: Option<String>)
        requires
            !(self@ is Multiple),
        ensures
            match r {
                Some(t) => template_of(self@) == Some(t@),
                None => template_of(self@) is None,
            },
    {
        match self {
            License::Unlicense => Some(templates::unlicense_text()),
            License::BSD_0_Clause => Some(templates::bsd_0_clause_text()),
            License::MIT => Some(templates::mit_text()),
            License::BSD_2_Clause => Some(templates::bsd_2_clause_text()),
            License::BSD_3_Clause => Some(templates::bsd_3_clause_text()),
            License::BSL_1_0 => Some(templates::bsl_1_0_text()),
            License::Apache_2_0 => Some(templates::apache_2_0_text()),
            License::Apache_2_0_WITH_LLVM_exception => Some(
                templates::apache_2_0_with_llvm_exception_text(),
            ),
            License::GPL_2_0Plus => Some(templates::gpl_2_0_plus_text()),
            License::GPL_3_0Plus => Some(templates::gpl_3_0_plus_text()),
            License::LGPL_2_1Plus => Some(templates::lgpl_2_1_plus_text()),
            License::LGPL_3_0Plus => Some(templates::lgpl_3_0_plus_text()),
            License::Zlib => Some(templates::zlib_text()),
            _ => None,
        }
    }
}

/// What the lax SPDX-expression parser extracts from a declaration: the
/// display strings of its leaf requirements, in order of appearance, or
/// nothing when the string does not parse as an expression.
pub uninterp spec fn spdx_leaves(s: Seq<char>) -> Option<Seq<Seq<char>>>;

/// Relies on `spdx::Expression::parse_mode` (lax rules), its
/// `requirements()` walk and the display form of `spdx::LicenseReq`: the leaf
/// requirements of the expression in order of appearance, or `None` when the
/// string does not parse. The result depends on the input alone.
#[verifier::external_body]
fn parse_spdx_leaves(s: &str) -> (r: Option<Vec<String>>)
    ensures
        match r {
            Some(v) => spdx_leaves(s@) == Some(v.deep_view()),
            None => spdx_leaves(s@) is None,
        },
{
    match spdx::Expression::parse_mode(s, spdx::ParseMode::LAX) {
        Ok(expr) => Some(expr.requirements().map(|er| er.req.to_string()).collect()),
        Err(_) => None,
    }
}

/// The ASCII slug of a string: what file names are normalized to before they
/// are compared against license-name synonyms.
pub uninterp spec fn slug_of(s: Seq<char>) -> Seq<char>;

/// Relies on `slug::slugify`: the ASCII slug of the input (lower-case
/// letters, digits and single hyphens). The result depends on the input
/// alone.
#[verifier::external_body]
pub(crate) fn slugify_text(s: &str) -> (r: String)
    ensures
        r@ == slug_of(s@),
{
    slug::slugify(s)
}

/// The fixed identifier table: maps a trimmed declaration to its well-known
/// license, including the common short forms.
pub open spec fn table_lookup(t: Seq<char>) -> Option<LicenseV> {
    if t == "Unlicense"@ {
        Some(LicenseV::Unlicense)
    } else if t == "0BSD"@ {
        Some(LicenseV::BSD_0_Clause)
    } else if t == "CC0-1.0"@ {
        Some(LicenseV::CC0_1_0)
    } else if t == "MIT"@ {
        Some(LicenseV::MIT)
    } else if t == "X11"@ {
        Some(LicenseV::X11)
    } else if t == "BSD-2-Clause"@ {
        Some(LicenseV::BSD_2_Clause)
    } else if t == "BSD-3-Clause"@ {
        Some(LicenseV::BSD_3_Clause)
    } else if t == "BSL-1.0"@ {
        Some(LicenseV::BSL_1_0)
    } else if t == "Apache-2.0"@ {
        Some(LicenseV::Apache_2_0)
    } else if t == "Apache-2.0 WITH LLVM-exception"@ {
        Some(LicenseV::Apache_2_0_WITH_LLVM_exception)
    } else if t == "LGPL-2.0-only"@ || t == "LGPL-2.0"@ {
        Some(LicenseV::LGPL_2_0)
    } else if t == "LGPL-2.1-only"@ || t == "LGPL-2.1"@ {
        Some(LicenseV::LGPL_2_1)
    } else if t == "LGPL-2.1-or-later"@ || t == "LGPL-2.1+"@ {
        Some(LicenseV::LGPL_2_1Plus)
    } else if t == "LGPL-3.0-only"@ || t == "LGPL-3.0"@ {
        Some(LicenseV::LGPL_3_0)
    } else if t == "LGPL-3.0-or-later"@ || t == "LGPL-3.0+"@ {
        Some(LicenseV::LGPL_3_0Plus)
    } else if t == "MPL-1.1"@ {
        Some(LicenseV::MPL_1_1)
    } else if t == "MPL-2.0"@ {
        Some(LicenseV::MPL_2_0)
    } else if t == "GPL-2.0-only"@ || t == "GPL-2.0"@ {
        Some(LicenseV::GPL_2_0)
    } else if t == "GPL-2.0-or-later"@ || t == "GPL-2.0+"@ {
        Some(LicenseV::GPL_2_0Plus)
    } else if t == "GPL-3.0-only"@ || t == "GPL-3.0"@ {
        Some(LicenseV::GPL_3_0)
    } else if t == "GPL-3.0-or-later"@ || t == "GPL-3.0+"@ {
        Some(LicenseV::GPL_3_0Plus)
    } else if t == "AGPL-3.0-only"@ || t == "AGPL-3.0"@ {
        Some(LicenseV::AGPL_3_0)
    } else if t == "AGPL-3.0-or-later"@ || t == "AGPL-3.0+"@ {
        Some(LicenseV::AGPL_3_0Plus)
    } else if t == "Zlib"@ {
        Some(LicenseV::Zlib)
    } else {
        None
    }
}

/// Executable table lookup on an already-trimmed declaration.
fn table_license(t: &str) -> (r: Option<License>)
    ensures
        match r {
            Some(l) => table_lookup(t@) == Some(l@),
            None => table_lookup(t@) is None,
        },
{
    if crate::text::str_eq(t, "Unlicense") {
        Some(License::Unlicense)
    } else if crate::text::str_eq(t, "0BSD") {
        Some(License::BSD_0_Clause)
    } else if crate::text::str_eq(t, "CC0-1.0") {
        Some(License::CC0_1_0)
    } else if crate::text::str_eq(t, "MIT") {
        Some(License::MIT)
    } else if crate::text::str_eq(t, "X11") {
        Some(License::X11)
    } else if crate::text::str_eq(t, "BSD-2-Clause") {
        Some(License::BSD_2_Clause)
    } else if crate::text::str_eq(t, "BSD-3-Clause") {
        Some(License::BSD_3_Clause)
    } else if crate::text::str_eq(t, "BSL-1.0") {
        Some(License::BSL_1_0)
    } else if crate::text::str_eq(t, "Apache-2.0") {
        Some(License::Apache_2_0)
    } else if crate::text::str_eq(t, "Apache-2.0 WITH LLVM-exception") {
        Some(License::Apache_2_0_WITH_LLVM_exception)
    } else if crate::text::str_eq(t, "LGPL-2.0-only") || crate::text::str_eq(t, "LGPL-2.0") {
        Some(License::LGPL_2_0)
    } else if crate::text::str_eq(t, "LGPL-2.1-only") || crate::text::str_eq(t, "LGPL-2.1") {
        Some(License::LGPL_2_1)
    } else if crate::text::str_eq(t, "LGPL-2.1-or-later") || crate::text::str_eq(t, "LGPL-2.1+") {
        Some(License::LGPL_2_1Plus)
    } else if crate::text::str_eq(t, "LGPL-3.0-only") || crate::text::str_eq(t, "LGPL-3.0") {
        Some(License::LGPL_3_0)
    } else if crate::text::str_eq(t, "LGPL-3.0-or-later") || crate::text::str_eq(t, "LGPL-3.0+") {
        Some(License::LGPL_3_0Plus)
    } else if crate::text::str_eq(t, "MPL-1.1") {
        Some(License::MPL_1_1)
    } else if crate::text::str_eq(t, "MPL-2.0") {
        Some(License::MPL_2_0)
    } else if crate::text::str_eq(t, "GPL-2.0-only") || crate::text::str_eq(t, "GPL-2.0") {
        Some(License::GPL_2_0)
    } else if crate::text::str_eq(t, "GPL-2.0-or-later") || crate::text::str_eq(t, "GPL-2.0+") {
        Some(License::GPL_2_0Plus)
    } else if crate::text::str_eq(t, "GPL-3.0-only") || crate::text::str_eq(t, "GPL-3.0") {
        Some(License::GPL_3_0)
    } else if crate::text::str_eq(t, "GPL-3.0-or-later") || crate::text::str_eq(t, "GPL-3.0+") {
        Some(License::GPL_3_0Plus)
    } else if crate::text::str_eq(t, "AGPL-3.0-only") || crate::text::str_eq(t, "AGPL-3.0") {
        Some(License::AGPL_3_0)
    } else if crate::text::str_eq(t, "AGPL-3.0-or-later") || crate::text::str_eq(t, "AGPL-3.0+") {
        Some(License::AGPL_3_0Plus)
    } else if crate::text::str_eq(t, "Zlib") {
        Some(License::Zlib)
    } else {
        None
    }
}

/// A declaration matched only against the trimmed identifier table, with the
/// free-text fallback: the terminal step of parsing.
pub open spec fn flat_license_spec(s: Seq<char>) -> LicenseV {
    let t = crate::text::trim_of(s);
    match table_lookup(t) {
        Some(l) => l,
        None => LicenseV::Custom(t),
    }
}

/// Executable counterpart of [`flat_license_spec`].
fn flat_license(s: &str) -> (r: License)
    ensures
        r@ == flat_license_spec(s@),
{
    let t = crate::text::trim(s);
    match table_license(t) {
        Some(l) => l,
        None => License::Custom(String::from_str(t)),
    }
}

/// The position of a shape's variant in the declaration order of
/// [`License`]: the first component of the model's total order.
pub open spec fn rank_of(l: LicenseV) -> int {
    match l {
        LicenseV::Unlicense => 0,
        LicenseV::BSD_0_Clause => 1,
        LicenseV::CC0_1_0 => 2,
        LicenseV::MIT => 3,
        LicenseV::X11 => 4,
        LicenseV::BSD_2_Clause => 5,
        LicenseV::BSD_3_Clause => 6,
        LicenseV::BSL_1_0 => 7,
        LicenseV::Apache_2_0 => 8,
        LicenseV::Apache_2_0_WITH_LLVM_exception => 9,
        LicenseV::LGPL_2_0 => 10,
        LicenseV::LGPL_2_1 => 11,
        LicenseV::LGPL_2_1Plus => 12,
        LicenseV::LGPL_3_0 => 13,
        LicenseV::LGPL_3_0Plus => 14,
        LicenseV::MPL_1_1 => 15,
        LicenseV::MPL_2_0 => 16,
        LicenseV::GPL_2_0 => 17,
        LicenseV::GPL_2_0Plus => 18,
        LicenseV::GPL_3_0 => 19,
        LicenseV::GPL_3_0Plus => 20,
        LicenseV::AGPL_3_0 => 21,
        LicenseV::AGPL_3_0Plus => 22,
        LicenseV::Zlib => 23,
        LicenseV::Custom(_) => 24,
        LicenseV::File(_) => 25,
        LicenseV::Multiple(_) => 26,
        LicenseV::Unspecified => 27,
    }
}

/// Strict order used to sort alternative lists: by variant rank, then by the
/// text for `Custom` and `File`; anything else of equal rank is a tie.
pub open spec fn lic_lt(a: LicenseV, b: LicenseV) -> bool {
    rank_of(a) < rank_of(b) || (rank_of(a) == rank_of(b) && match (a, b) {
        (LicenseV::Custom(x), LicenseV::Custom(y)) => crate::text::lex_le(x, y) && x != y,
        (LicenseV::File(x), LicenseV::File(y)) => crate::text::lex_le(x, y) && x != y,
        _ => false,
    })
}

/// Executable variant rank.
fn rank(l: &License) -> (r: u32)
    ensures
        r as int == rank_of(l@),
{
    match l {
        License::Unlicense => 0,
        License::BSD_0_Clause => 1,
        License::CC0_1_0 => 2,
        License::MIT => 3,
        License::X11 => 4,
        License::BSD_2_Clause => 5,
        License::BSD_3_Clause => 6,
        License::BSL_1_0 => 7,
        License::Apache_2_0 => 8,
        License::Apache_2_0_WITH_LLVM_exception => 9,
        License::LGPL_2_0 => 10,
        License::LGPL_2_1 => 11,
        License::LGPL_2_1Plus => 12,
        License::LGPL_3_0 => 13,
        License::LGPL_3_0Plus => 14,
        License::MPL_1_1 => 15,
        License::MPL_2_0 => 16,
        License::GPL_2_0 => 17,
        License::GPL_2_0Plus => 18,
        License::GPL_3_0 => 19,
        License::GPL_3_0Plus => 20,
        License::AGPL_3_0 => 21,
        License::AGPL_3_0Plus => 22,
        License::Zlib => 23,
        License::Custom(_) => 24,
        License::File(_) => 25,
        License::Multiple(_) => 26,
        License::Unspecified => 27,
    }
}

/// Executable decision for [`lic_lt`].
fn license_lt(a: &License, b: &License) -> (r: bool)
    ensures
        r == lic_lt(a@, b@),
{
    let ra = rank(a);
    let rb = rank(b);
    if ra < rb {
        true
    } else if ra > rb {
        false
    } else {
        match (a, b) {
            (License::Custom(x), License::Custom(y)) => crate::text::str_le(x.as_str(), y.as_str())
                && !crate::text::str_eq(x.as_str(), y.as_str()),
            (License::File(x), License::File(y)) => crate::text::str_le(x.as_str(), y.as_str())
                && !crate::text::str_eq(x.as_str(), y.as_str()),
            _ => false,
        }
    }
}

/// Stable insertion of `x` into an already sorted sequence: `x` moves left
/// past the elements strictly greater than it.
pub open spec fn insert_sorted(s: Seq<LicenseV>, x: LicenseV) -> Seq<LicenseV>
    decreases s.len(),
{
    if s.len() == 0 {
        seq![x]
    } else if lic_lt(x, s.last()) {
        insert_sorted(s.drop_last(), x).push(s.last())
    } else {
        s.push(x)
    }
}

/// Stable insertion sort by [`lic_lt`]: the order an alternative list is
/// normalized to.
pub open spec fn sort_licenses(s: Seq<LicenseV>) -> Seq<LicenseV>
    decreases s.len(),
{
    if s.len() == 0 {
        s
    } else {
        insert_sorted(sort_licenses(s.drop_last()), s.last())
    }
}

/// Where the scan of the insertion point stops, that is where
/// [`insert_sorted`] puts the element.
proof fn lemma_insert_sorted_at(s: Seq<LicenseV>, x: LicenseV, j: int)
    requires
        0 <= j <= s.len(),
        forall|k: int| j <= k < s.len() ==> lic_lt(x, #[trigger] s[k]),
        j == 0 || !lic_lt(x, s[j - 1]),
    ensures
        insert_sorted(s, x) == s.take(j) + seq![x] + s.skip(j),
    decreases s.len(),
{
    if s.len() == 0 {
        assert(insert_sorted(s, x) =~= s.take(j) + seq![x] + s.skip(j));
    } else if j == s.len() {
        assert(!lic_lt(x, s.last()));
        assert(insert_sorted(s, x) =~= s.take(j) + seq![x] + s.skip(j));
    } else {
        assert(lic_lt(x, s.last()));
        lemma_insert_sorted_at(s.drop_last(), x, j);
        assert(s.drop_last().take(j) =~= s.take(j));
        assert((s.drop_last().take(j) + seq![x] + s.drop_last().skip(j)).push(s.last()) =~= s.take(
            j,
        ) + seq![x] + s.skip(j));
    }
}

/// Inserts a license into a vector kept sorted by [`lic_lt`].
fn insert_license(r: &mut Vec<License>, x: License)
    ensures
        lic_views(final(r)@) == insert_sorted(lic_views(old(r)@), x@),
{
    proof {
        lemma_lic_views_index(r@);
    }
    let ghost s = lic_views(r@);
    let ghost xv = x@;
    let mut j: usize = r.len();
    while j > 0 && license_lt(&x, &r[j - 1])
        invariant
            s == lic_views(r@),
            s.len() == r@.len(),
            forall|k: int| 0 <= k < r@.len() ==> s[k] == lic_view(#[trigger] r@[k]),
            0 <= j <= r@.len(),
            forall|k: int| j <= k < s.len() ==> lic_lt(xv, #[trigger] s[k]),
            xv == x@,
        decreases j,
    {
        j -= 1;
    }
    proof {
        lemma_insert_sorted_at(s, xv, j as int);
    }
    r.insert(j, x);
    proof {
        lemma_lic_views_index(r@);
        assert forall|k: int| 0 <= k < r@.len() implies lic_views(r@)[k] == (s.take(j as int)
            + seq![xv] + s.skip(j as int))[k] by {
            assert(lic_views(r@)[k] == lic_view(r@[k]));
            if k < j {
                assert(r@[k] == old(r)@[k]);
            } else if k == j {
            } else {
                assert(r@[k] == old(r)@[k - 1]);
            }
        }
        assert(lic_views(r@) =~= s.take(j as int) + seq![xv] + s.skip(j as int));
    }
}

/// Sorts an alternative list by [`lic_lt`], stably.
fn sort_licenses_vec(ls: Vec<License>) -> (r: Vec<License>)
    ensures
        lic_views(r@) == sort_licenses(lic_views(ls@)),
{
    proof {
        lemma_lic_views_index(ls@);
    }
    let ghost s = lic_views(ls@);
    let mut r: Vec<License> = Vec::new();
    let mut i: usize = 0;
    proof {
        assert(lic_views(r@) =~= sort_licenses(s.take(0)));
    }
    while i < ls.len()
        invariant
            s == lic_views(ls@),
            s.len() == ls@.len(),
            forall|k: int| 0 <= k < ls@.len() ==> s[k] == lic_view(#[trigger] ls@[k]),
            0 <= i <= ls@.len(),
            lic_views(r@) == sort_licenses(s.take(i as int)),
        decreases ls@.len() - i,
    {
        insert_license(&mut r, ls[i].clone());
        proof {
            assert(s.take(i + 1).drop_last() =~= s.take(i as int));
            assert(s.take(i + 1).last() == s[i as int]);
        }
        i += 1;
    }
    proof {
        assert(s.take(s.len() as int) =~= s);
    }
    r
}

/// First-seen de-duplication: an element is kept only if it is not already
/// among the kept ones.
pub open spec fn dedup_keep_first(s: Seq<LicenseV>) -> Seq<LicenseV>
    decreases s.len(),
{
    if s.len() == 0 {
        s
    } else {
        let d = dedup_keep_first(s.drop_last());
        if d.contains(s.last()) {
            d
        } else {
            d.push(s.last())
        }
    }
}

/// Membership test against a list of licenses, by view.
fn contains_license(v: &Vec<License>, x: &License) -> (r: bool)
    ensures
        r == lic_views(v@).contains(x@),
{
    proof {
        lemma_lic_views_index(v@);
    }
    let mut i: usize = 0;
    while i < v.len()
        invariant
            0 <= i <= v@.len(),
            lic_views(v@).len() == v@.len(),
            forall|k: int| 0 <= k < v@.len() ==> lic_views(v@)[k] == lic_view(#[trigger] v@[k]),
            forall|k: int| 0 <= k < i ==> lic_views(v@)[k] != x@,
        decreases v@.len() - i,
    {
        if license_eq(&v[i], x) {
            proof {
                assert(lic_views(v@)[i as int] == x@);
            }
            return true;
        }
        i += 1;
    }
    proof {
        if lic_views(v@).contains(x@) {
            let k = choose|k: int| 0 <= k < lic_views(v@).len() && lic_views(v@)[k] == x@;
            assert(false);
        }
    }
    false
}

/// De-duplicates a list of licenses, keeping the first occurrence of each.
fn dedup_licenses(ls: Vec<License>) -> (r: Vec<License>)
    ensures
        lic_views(r@) == dedup_keep_first(lic_views(ls@)),
{
    proof {
        lemma_lic_views_index(ls@);
    }
    let ghost s = lic_views(ls@);
    let mut r: Vec<License> = Vec::new();
    let mut i: usize = 0;
    proof {
        assert(lic_views(r@) =~= dedup_keep_first(s.take(0)));
    }
    while i < ls.len()
        invariant
            s == lic_views(ls@),
            s.len() == ls@.len(),
            forall|k: int| 0 <= k < ls@.len() ==> s[k] == lic_view(#[trigger] ls@[k]),
            0 <= i <= ls@.len(),
            lic_views(r@) == dedup_keep_first(s.take(i as int)),
        decreases ls@.len() - i,
    {
        let ghost rv_old = r@;
        let keep = !contains_license(&r, &ls[i]);
        proof {
            assert(s.take(i + 1).drop_last() =~= s.take(i as int));
            assert(s.take(i + 1).last() == s[i as int]);
        }
        if keep {
            r.push(ls[i].clone());
            proof {
                lemma_lic_views_snoc(r@);
                assert(r@.drop_last() =~= rv_old);
                assert(lic_view(r@.last()) == s[i as int]);
            }
        }
        i += 1;
    }
    proof {
        assert(s.take(s.len() as int) =~= s);
    }
    r
}

/// `lic_views` of a non-empty sequence is `lic_views` of the front followed
/// by the view of the last element.
proof fn lemma_lic_views_snoc(s: Seq<License>)
    requires
        s.len() > 0,
    ensures
        lic_views(s) == lic_views(s.drop_last()).push(lic_view(s.last())),
{
    lemma_lic_views_index(s);
    lemma_lic_views_index(s.drop_last());
    let rhs = lic_views(s.drop_last()).push(lic_view(s.last()));
    assert forall|k: int| 0 <= k < s.len() implies lic_views(s)[k] == rhs[k] by {
        if k < s.len() - 1 {
            assert(s.drop_last()[k] == s[k]);
        }
    }
    assert(lic_views(s) =~= rhs);
}

/// Each leaf requirement matched against the identifier table.
pub open spec fn leaves_flat(leaves: Seq<Seq<char>>) -> Seq<LicenseV> {
    leaves.map_values(|l: Seq<char>| flat_license_spec(l))
}

/// Maps the leaf requirement strings through the table and de-duplicates,
/// keeping first-seen order.
fn licenses_from_leaves(leaves: &Vec<String>) -> (r: Vec<License>)
    ensures
        lic_views(r@) == dedup_keep_first(leaves_flat(leaves.deep_view())),
{
    let ghost dv = leaves.deep_view();
    let mut mapped: Vec<License> = Vec::new();
    let mut i: usize = 0;
    proof {
        assert(lic_views(mapped@) =~= leaves_flat(dv).take(0));
    }
    while i < leaves.len()
        invariant
            dv == leaves.deep_view(),
            dv.len() == leaves@.len(),
            0 <= i <= leaves@.len(),
            lic_views(mapped@) == leaves_flat(dv).take(i as int),
        decreases leaves@.len() - i,
    {
        let ghost mv_old = mapped@;
        mapped.push(flat_license(leaves[i].as_str()));
        proof {
            lemma_lic_views_snoc(mapped@);
            assert(mapped@.drop_last() =~= mv_old);
            assert(leaves_flat(dv)[i as int] == flat_license_spec(dv[i as int]));
            assert(dv[i as int] == leaves@[i as int]@);
            assert(leaves_flat(dv).take(i + 1).drop_last() =~= leaves_flat(dv).take(i as int));
        }
        i += 1;
    }
    proof {
        assert(leaves_flat(dv).take(dv.len() as int) =~= leaves_flat(dv));
    }
    dedup_licenses(mapped)
}

/// One piece of a split declaration: parsed leniently as an SPDX expression,
/// with the identifier table as fallback. A piece holds no delimiter, so it
/// never splits further.
pub open spec fn segment_spec(p: Seq<char>) -> LicenseV {
    match spdx_leaves(p) {
        Some(leaves) => {
            let ded = dedup_keep_first(leaves_flat(leaves));
            if ded.len() == 0 {
                flat_license_spec(p)
            } else if ded.len() == 1 {
                ded[0]
            } else {
                LicenseV::Multiple(ded)
            }
        },
        None => flat_license_spec(p),
    }
}

/// Executable counterpart of [`segment_spec`].
fn segment_license(p: &str) -> (r: License)
    ensures
        r@ == segment_spec(p@),
{
    match parse_spdx_leaves(p) {
        Some(leaves) => {
            let mut ded = licenses_from_leaves(&leaves);
            proof {
                lemma_lic_views_index(ded@);
            }
            if ded.len() == 0 {
                flat_license(p)
            } else if ded.len() == 1 {
                ded.remove(0)
            } else {
                License::Multiple(ded)
            }
        },
        None => flat_license(p),
    }
}

/// The simple matcher: trim, look the string up in the identifier table,
/// recognize `/`- or ` OR `-separated alternatives, and otherwise keep the
/// trimmed text as a custom license.
pub open spec fn simple_license_spec(s: Seq<char>) -> LicenseV {
    let t = crate::text::trim_of(s);
    match table_lookup(t) {
        Some(l) => l,
        None => if t.contains('/') || crate::text::seq_contains(t, " OR "@) {
            LicenseV::Multiple(
                sort_licenses(crate::text::split_alt(t).map_values(|p: Seq<char>| segment_spec(p))),
            )
        } else {
            LicenseV::Custom(t)
        },
    }
}

/// Executable counterpart of [`simple_license_spec`].
pub fn simple_license(s: &str) -> (r: License)
    ensures
        r@ == simple_license_spec(s@),
{
    let t = crate::text::trim(s);
    if let Some(l) = table_license(t) {
        return l;
    }
    if crate::text::contains_char(t, '/') || crate::text::contains_substr(t, " OR ") {
        let pieces = crate::text::split_alternatives(t);
        let ghost ps = crate::text::split_alt(t@).map_values(|p: Seq<char>| segment_spec(p));
        let mut ls: Vec<License> = Vec::new();
        let mut i: usize = 0;
        proof {
            assert(lic_views(ls@) =~= ps.take(0));
        }
        while i < pieces.len()
            invariant
                pieces.deep_view() == crate::text::split_alt(t@),
                ps == crate::text::split_alt(t@).map_values(|p: Seq<char>| segment_spec(p)),
                ps.len() == pieces@.len(),
                0 <= i <= pieces@.len(),
                lic_views(ls@) == ps.take(i as int),
            decreases pieces@.len() - i,
        {
            let ghost lv_old = ls@;
            ls.push(segment_license(pieces[i].as_str()));
            proof {
                lemma_lic_views_snoc(ls@);
                assert(ls@.drop_last() =~= lv_old);
                assert(pieces.deep_view()[i as int] == pieces@[i as int]@);
                assert(ps[i as int] == segment_spec(pieces.deep_view()[i as int]));
                assert(ps.take(i + 1).drop_last() =~= ps.take(i as int));
            }
            i += 1;
        }
        proof {
            assert(ps.take(ps.len() as int) =~= ps);
        }
        License::Multiple(sort_licenses_vec(ls))
    } else {
        License::Custom(String::from_str(t))
    }
}

/// What parsing a declaration yields: the lenient SPDX-expression walk when
/// the string parses, the simple matcher otherwise. Boolean operators are
/// ignored: `AND` and `OR` both flatten to "one of these applies".
pub open spec fn parse_spec(s: Seq<char>) -> LicenseV {
    match spdx_leaves(s) {
        Some(leaves) => {
            let ded = dedup_keep_first(leaves_flat(leaves));
            if ded.len() == 0 {
                simple_license_spec(s)
            } else if ded.len() == 1 {
                ded[0]
            } else {
                LicenseV::Multiple(ded)
            }
        },
        None => simple_license_spec(s),
    }
}

/// Parses a license declaration. Total: every string yields a license, with
/// unrecognized input kept verbatim as `Custom`.
pub fn parse_license(s: &str) -> (r: License)
    ensures
        r@ == parse_spec(s@),
{
    match parse_spdx_leaves(s) {
        Some(leaves) => {
            let mut ded = licenses_from_leaves(&leaves);
            proof {
                lemma_lic_views_index(ded@);
            }
            if ded.len() == 0 {
                simple_license(s)
            } else if ded.len() == 1 {
                ded.remove(0)
            } else {
                License::Multiple(ded)
            }
        },
        None => simple_license(s),
    }
}

impl core::str::FromStr for License {
    type Err = core::convert::Infallible;

    fn from_str(s: &str) -> Result<License, core::convert::Infallible> {
        Ok(parse_license(s))
    }
}

impl Default for License {
    fn default() -> (r: License)
        ensures
            r@ == LicenseV::Unspecified,
    {
        License::Unspecified
    }
}

/// The unsorted synonym list of a license: its slugified canonical string,
/// plus a few extra short names for licenses commonly referred to loosely.
pub open spec fn syn_base(l: LicenseV) -> Seq<Seq<char>> {
    match l {
        LicenseV::Apache_2_0 => seq![
            slug_of(canon_of(l)),
            "apache"@,
            "apache2"@,
            "apache-2"@,
        ],
        LicenseV::BSL_1_0 => seq![slug_of(canon_of(l)), "boost"@],
        _ => seq![slug_of(canon_of(l))],
    }
}

/// Stable insertion keeping longer entries first.
pub open spec fn syn_insert(s: Seq<Seq<char>>, x: Seq<char>) -> Seq<Seq<char>>
    decreases s.len(),
{
    if s.len() == 0 {
        seq![x]
    } else if x.len() > s.last().len() {
        syn_insert(s.drop_last(), x).push(s.last())
    } else {
        s.push(x)
    }
}

/// Stable sort keeping longer entries first, on the assumption that a longer
/// synonym is the more specific one.
pub open spec fn syn_sort(s: Seq<Seq<char>>) -> Seq<Seq<char>>
    decreases s.len(),
{
    if s.len() == 0 {
        s
    } else {
        syn_insert(syn_sort(s.drop_last()), s.last())
    }
}

/// The synonym list, longest first.
pub open spec fn synonyms_of(l: LicenseV) -> Seq<Seq<char>> {
    syn_sort(syn_base(l))
}

proof fn lemma_syn_insert_at(s: Seq<Seq<char>>, x: Seq<char>, j: int)
    requires
        0 <= j <= s.len(),
        forall|k: int| j <= k < s.len() ==> x.len() > (#[trigger] s[k]).len(),
        j == 0 || !(x.len() > s[j - 1].len()),
    ensures
        syn_insert(s, x) == s.take(j) + seq![x] + s.skip(j),
    decreases s.len(),
{
    if s.len() == 0 {
        assert(syn_insert(s, x) =~= s.take(j) + seq![x] + s.skip(j));
    } else if j == s.len() {
        assert(syn_insert(s, x) =~= s.take(j) + seq![x] + s.skip(j));
    } else {
        lemma_syn_insert_at(s.drop_last(), x, j);
        assert(s.drop_last().take(j) =~= s.take(j));
        assert((s.drop_last().take(j) + seq![x] + s.drop_last().skip(j)).push(s.last()) =~= s.take(
            j,
        ) + seq![x] + s.skip(j));
    }
}

/// Inserts a synonym into a vector kept sorted longest-first.
fn insert_synonym(r: &mut Vec<String>, x: String)
    ensures
        final(r).deep_view() == syn_insert(old(r).deep_view(), x@),
{
    let ghost s = r.deep_view();
    let ghost xv = x@;
    let xn = x.as_str().unicode_len();
    let mut j: usize = r.len();
    while j > 0 && xn > r[j - 1].as_str().unicode_len()
        invariant
            s == r.deep_view(),
            s.len() == r@.len(),
            xn == xv.len(),
            xv == x@,
            0 <= j <= r@.len(),
            forall|k: int| j <= k < s.len() ==> xv.len() > (#[trigger] s[k]).len(),
        decreases j,
    {
        proof {
            assert(s[j - 1] == r@[j - 1]@);
        }
        j -= 1;
    }
    proof {
        if j > 0 {
            assert(s[j - 1] == r@[j - 1]@);
        }
        lemma_syn_insert_at(s, xv, j as int);
    }
    r.insert(j, x);
    proof {
        assert forall|k: int| 0 <= k < r@.len() implies r.deep_view()[k] == (s.take(j as int)
            + seq![xv] + s.skip(j as int))[k] by {
            if k < j {
                assert(r@[k] == old(r)@[k]);
            } else if k == j {
            } else {
                assert(r@[k] == old(r)@[k - 1]);
            }
        }
        assert(r.deep_view() =~= s.take(j as int) + seq![xv] + s.skip(j as int));
    }
}

impl License {
    /// Slugified synonyms, longest first, on the assumption that a longer
    /// name is the more specific one.
    pub fn synonyms(&self) -> (r: Vec<String>)
        ensures
            r.deep_view() == synonyms_of(self@),
    {
        let slug = slugify_text(self.canonical_string().as_str());
        let mut base: Vec<String> = Vec::new();
        base.push(slug);
        match self {
            License::Apache_2_0 => {
                base.push(String::from_str("apache"));
                base.push(String::from_str("apache2"));
                base.push(String::from_str("apache-2"));
            },
            License::BSL_1_0 => {
                base.push(String::from_str("boost"));
            },
            _ => {},
        }
        proof {
            assert(base.deep_view() =~= syn_base(self@));
        }
        let ghost bs = syn_base(self@);
        let mut r: Vec<String> = Vec::new();
        let mut i: usize = 0;
        proof {
            assert(r.deep_view() =~= syn_sort(bs.take(0)));
        }
        while i < base.len()
            invariant
                base.deep_view() == bs,
                bs.len() == base@.len(),
                0 <= i <= base@.len(),
                r.deep_view() == syn_sort(bs.take(i as int)),
            decreases base@.len() - i,
        {
            let x = base[i].clone();
            proof {
                assert(x@ == base@[i as int]@);
                assert(bs.take(i + 1).drop_last() =~= bs.take(i as int));
                assert(bs.take(i + 1).last() == bs[i as int]);
            }
            insert_synonym(&mut r, x);
            i += 1;
        }
        proof {
            assert(bs.take(bs.len() as int) =~= bs);
        }
        r
    }
}

/// For every well-known license, looking its canonical string back up in the
/// table returns the same license: the verified core of the parse round
/// trip.
pub proof fn lemma_canonical_round_trip(l: LicenseV)
    requires
        rank_of(l) < 24,
    ensures
        flat_license_spec(canon_of(l)) == l,
        simple_license_spec(canon_of(l)) == l,
{
    reveal_strlit("Unlicense");
    reveal_strlit("0BSD");
    reveal_strlit("CC0-1.0");
    reveal_strlit("MIT");
    reveal_strlit("X11");
    reveal_strlit("BSD-2-Clause");
    reveal_strlit("BSD-3-Clause");
    reveal_strlit("BSL-1.0");
    reveal_strlit("Apache-2.0");
    reveal_strlit("Apache-2.0 WITH LLVM-exception");
    reveal_strlit("LGPL-2.0-only");
    reveal_strlit("LGPL-2.0");
    reveal_strlit("LGPL-2.1-only");
    reveal_strlit("LGPL-2.1");
    reveal_strlit("LGPL-2.1-or-later");
    reveal_strlit("LGPL-2.1+");
    reveal_strlit("LGPL-3.0-only");
    reveal_strlit("LGPL-3.0");
    reveal_strlit("LGPL-3.0-or-later");
    reveal_strlit("LGPL-3.0+");
    reveal_strlit("MPL-1.1");
    reveal_strlit("MPL-2.0");
    reveal_strlit("GPL-2.0-only");
    reveal_strlit("GPL-2.0");
    reveal_strlit("GPL-2.0-or-later");
    reveal_strlit("GPL-2.0+");
    reveal_strlit("GPL-3.0-only");
    reveal_strlit("GPL-3.0");
    reveal_strlit("GPL-3.0-or-later");
    reveal_strlit("GPL-3.0+");
    reveal_strlit("AGPL-3.0-only");
    reveal_strlit("AGPL-3.0");
    reveal_strlit("AGPL-3.0-or-later");
    reveal_strlit("AGPL-3.0+");
    reveal_strlit("Zlib");
    assert("X11"@[0] != "MIT"@[0]);
    assert("BSD-3-Clause"@[4] != "BSD-2-Clause"@[4]);
    assert("BSL-1.0"@[0] != "CC0-1.0"@[0]);
    assert("LGPL-2.1-only"@[7] != "LGPL-2.0-only"@[7]);
    assert("LGPL-3.0-only"@[5] != "LGPL-2.0-only"@[5]);
    assert("LGPL-3.0-only"@[5] != "LGPL-2.1-only"@[5]);
    assert("LGPL-3.0-or-later"@[5] != "LGPL-2.1-or-later"@[5]);
    assert("MPL-1.1"@[0] != "CC0-1.0"@[0]);
    assert("MPL-1.1"@[0] != "BSL-1.0"@[0]);
    assert("MPL-2.0"@[0] != "CC0-1.0"@[0]);
    assert("MPL-2.0"@[0] != "BSL-1.0"@[0]);
    assert("MPL-2.0"@[4] != "MPL-1.1"@[4]);
    assert("GPL-2.0-only"@[0] != "BSD-2-Clause"@[0]);
    assert("GPL-2.0-only"@[0] != "BSD-3-Clause"@[0]);
    assert("GPL-3.0-only"@[0] != "BSD-2-Clause"@[0]);
    assert("GPL-3.0-only"@[0] != "BSD-3-Clause"@[0]);
    assert("GPL-3.0-only"@[4] != "GPL-2.0-only"@[4]);
    assert("GPL-3.0-or-later"@[4] != "GPL-2.0-or-later"@[4]);
    assert("AGPL-3.0-only"@[0] != "LGPL-2.0-only"@[0]);
    assert("AGPL-3.0-only"@[0] != "LGPL-2.1-only"@[0]);
    assert("AGPL-3.0-only"@[0] != "LGPL-3.0-only"@[0]);
    assert("AGPL-3.0-or-later"@[0] != "LGPL-2.1-or-later"@[0]);
    assert("AGPL-3.0-or-later"@[0] != "LGPL-3.0-or-later"@[0]);
    assert("Zlib"@[0] != "0BSD"@[0]);
    let c = canon_of(l);
    assert(crate::text::trim_of(c) == c) by {
        assert(c.len() > 0 && !crate::text::is_ws_char(c[0]));
        assert(!crate::text::is_ws_char(c[c.len() - 1]));
        assert(crate::text::trim_front(c) == c);
        assert(crate::text::trim_back(c) == c);
    }
    assert(table_lookup(c) == Some(l));
}

} // verus!
