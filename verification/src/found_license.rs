//! The raw per-package findings: for each (sub-)license of a package, the
//! best candidate text discovered in its sources.

use vstd::prelude::*;
use vstd::string::StringExecFns;

use crate::discovery::{
    find_package_license, find_spec, file_views, text_views, Confidence, DiscoveryError,
    LicenseText, LicenseTextV, SourceFile,
};
use crate::finalized_license::{
    finalized_new_spec, FinalizedLicense, LicenseAndText, LicenseAndTextV, LICENSE_NOT_FOUNT_TEXT,
};
use crate::license::{canon_of, lic_views, parse_spec, License, LicenseV};
use crate::package_loader::{PackageMeta, PackageMetaV};

verus! {

/// A failure while collecting a package's license findings: discovery could
/// not list the package's sources.
#[derive(Debug)]
pub enum FoundLicenseError {
    Discovery(DiscoveryError),
}

/// The selector's outcome for one (sub-)license: a single best candidate, an
/// ambiguous set of equally good candidates, or nothing.
#[derive(Debug)]
pub enum BestChoice {
    Single(LicenseText),
    Multiple(Vec<LicenseText>),
    NoneFound,
}

/// The mathematical shape of a [`BestChoice`].
pub enum BestChoiceV {
    Single(LicenseTextV),
    Multiple(Seq<LicenseTextV>),
    NoneFound,
}

impl View for BestChoice {
    type V = BestChoiceV;

    open spec fn view(&self) -> BestChoiceV {
        match self {
            BestChoice::Single(t) => BestChoiceV::Single(t@),
            BestChoice::Multiple(v) => BestChoiceV::Multiple(text_views(v@)),
            BestChoice::NoneFound => BestChoiceV::NoneFound,
        }
    }
}

/// The findings for one concrete (sub-)license.
#[derive(Debug)]
pub struct FoundText {
    license: License,
    best_choice: BestChoice,
    confidence: Confidence,
}

/// The mathematical shape of a [`FoundText`].
pub struct FoundTextV {
    pub license: LicenseV,
    pub best_choice: BestChoiceV,
    pub confidence: Confidence,
}

impl View for FoundText {
    type V = FoundTextV;

    closed spec fn view(&self) -> FoundTextV {
        FoundTextV {
            license: self.license@,
            best_choice: self.best_choice@,
            confidence: self.confidence,
        }
    }
}

impl FoundText {
    /// Records the selector's outcome for one license.
    pub fn new(license: License, best_choice: BestChoice, confidence: Confidence) -> (r: Self)
        ensures
            r@.license == license@,
            r@.best_choice == best_choice@,
            r@.confidence == confidence,
    {
        FoundText { license, best_choice, confidence }
    }
}

/// The findings of a package: one entry, or one per alternative of a
/// `Multiple` license.
#[derive(Debug)]
pub enum FoundTexts {
    Single(FoundText),
    Multiple(Vec<FoundText>),
}

/// The mathematical shape of [`FoundTexts`].
pub enum FoundTextsV {
    Single(FoundTextV),
    Multiple(Seq<FoundTextV>),
}

/// The views of a list of findings.
pub open spec fn ft_views(ts: Seq<FoundText>) -> Seq<FoundTextV> {
    ts.map_values(|t: FoundText| t@)
}

impl View for FoundTexts {
    type V = FoundTextsV;

    open spec fn view(&self) -> FoundTextsV {
        match self {
            FoundTexts::Single(t) => FoundTextsV::Single(t@),
            FoundTexts::Multiple(ts) => FoundTextsV::Multiple(ft_views(ts@)),
        }
    }
}

/// The candidates of one confidence tier, in input order.
pub open spec fn tier_texts(ts: Seq<LicenseTextV>, c: Confidence) -> Seq<LicenseTextV>
    decreases ts.len(),
{
    if ts.len() == 0 {
        Seq::empty()
    } else {
        let rest = tier_texts(ts.drop_last(), c);
        if ts.last().confidence == c {
            rest.push(ts.last())
        } else {
            rest
        }
    }
}

/// What the selector picks: within the best non-empty tier, the single
/// candidate, or all of them when the tier is ambiguous; nothing when every
/// tier is empty.
pub open spec fn choose_spec(ts: Seq<LicenseTextV>) -> (BestChoiceV, Confidence) {
    let c = tier_texts(ts, Confidence::Confident);
    let s = tier_texts(ts, Confidence::SemiConfident);
    let u = tier_texts(ts, Confidence::Unsure);
    let n = tier_texts(ts, Confidence::NoTemplate);
    if c.len() == 1 {
        (BestChoiceV::Single(c[0]), Confidence::Confident)
    } else if c.len() > 1 {
        (BestChoiceV::Multiple(c), Confidence::Confident)
    } else if s.len() == 1 {
        (BestChoiceV::Single(s[0]), Confidence::SemiConfident)
    } else if s.len() > 1 {
        (BestChoiceV::Multiple(s), Confidence::SemiConfident)
    } else if u.len() == 1 {
        (BestChoiceV::Single(u[0]), Confidence::Unsure)
    } else if u.len() > 1 {
        (BestChoiceV::Multiple(u), Confidence::Unsure)
    } else if n.len() == 1 {
        (BestChoiceV::Single(n[0]), Confidence::NoTemplate)
    } else if n.len() > 1 {
        (BestChoiceV::Multiple(n), Confidence::NoTemplate)
    } else {
        (BestChoiceV::NoneFound, Confidence::MissingLicenseFile)
    }
}

/// Selects the best-confidence outcome among the candidates for one
/// (sub-)license: the first non-empty tier wins, a tier with more than one
/// candidate is reported as ambiguous rather than guessed between, and no
/// candidates at all surface as `MissingLicenseFile`.
pub fn choose_best(texts: Vec<LicenseText>) -> (r: (BestChoice, Confidence))
    ensures
        (r.0@, r.1) == choose_spec(text_views(texts@)),
{
    let total = texts.len();
    let ghost orig = text_views(texts@);
    let mut texts = texts;
    let mut confident: Vec<LicenseText> = Vec::new();
    let mut semi: Vec<LicenseText> = Vec::new();
    let mut unsure: Vec<LicenseText> = Vec::new();
    let mut no_template: Vec<LicenseText> = Vec::new();
    let mut i: usize = 0;
    proof {
        assert(orig.take(0) =~= Seq::<LicenseTextV>::empty());
        assert(text_views(confident@) =~= tier_texts(orig.take(0), Confidence::Confident));
        assert(text_views(semi@) =~= tier_texts(orig.take(0), Confidence::SemiConfident));
        assert(text_views(unsure@) =~= tier_texts(orig.take(0), Confidence::Unsure));
        assert(text_views(no_template@) =~= tier_texts(orig.take(0), Confidence::NoTemplate));
    }
    while texts.len() > 0
        invariant
            orig.len() == texts@.len() + i,
            orig.len() == total,
            0 <= i,
            text_views(texts@) =~= orig.skip(i as int),
            text_views(confident@) == tier_texts(orig.take(i as int), Confidence::Confident),
            text_views(semi@) == tier_texts(orig.take(i as int), Confidence::SemiConfident),
            text_views(unsure@) == tier_texts(orig.take(i as int), Confidence::Unsure),
            text_views(no_template@) == tier_texts(orig.take(i as int), Confidence::NoTemplate),
        decreases texts@.len(),
    {
        let t = texts.remove(0);
        proof {
            assert(t@ == text_views(texts@.insert(0, t))[0]);
            assert(orig.skip(i as int)[0] == orig[i as int]);
            assert(t@ == orig[i as int]);
            assert forall|k: int| 0 <= k < texts@.len() implies text_views(texts@)[k] == orig.skip(
                i + 1,
            )[k] by {
                assert(text_views(texts@)[k] == texts@[k]@);
                assert(orig.skip(i + 1)[k] == orig[i + 1 + k]);
                assert(orig.skip(i as int)[k + 1] == orig[i + 1 + k]);
            }
            assert(text_views(texts@) =~= orig.skip(i + 1));
            assert(orig.take(i + 1).drop_last() =~= orig.take(i as int));
            assert(orig.take(i + 1).last() == orig[i as int]);
        }
        let ghost cpre = text_views(confident@);
        let ghost spre = text_views(semi@);
        let ghost upre = text_views(unsure@);
        let ghost npre = text_views(no_template@);
        if matches!(t.confidence, Confidence::Confident) {
            confident.push(t);
            proof {
                lemma_text_views_snoc(confident@);
            }
        } else if matches!(t.confidence, Confidence::SemiConfident) {
            semi.push(t);
            proof {
                lemma_text_views_snoc(semi@);
            }
        } else if matches!(t.confidence, Confidence::Unsure) {
            unsure.push(t);
            proof {
                lemma_text_views_snoc(unsure@);
            }
        } else if matches!(t.confidence, Confidence::NoTemplate) {
            no_template.push(t);
            proof {
                lemma_text_views_snoc(no_template@);
            }
        }
        i += 1;
    }
    proof {
        assert(orig.take(i as int) =~= orig);
    }
    if confident.len() == 1 {
        let one = confident.remove(0);
        (BestChoice::Single(one), Confidence::Confident)
    } else if confident.len() > 1 {
        (BestChoice::Multiple(confident), Confidence::Confident)
    } else if semi.len() == 1 {
        let one = semi.remove(0);
        (BestChoice::Single(one), Confidence::SemiConfident)
    } else if semi.len() > 1 {
        (BestChoice::Multiple(semi), Confidence::SemiConfident)
    } else if unsure.len() == 1 {
        let one = unsure.remove(0);
        (BestChoice::Single(one), Confidence::Unsure)
    } else if unsure.len() > 1 {
        (BestChoice::Multiple(unsure), Confidence::Unsure)
    } else if no_template.len() == 1 {
        let one = no_template.remove(0);
        (BestChoice::Single(one), Confidence::NoTemplate)
    } else if no_template.len() > 1 {
        (BestChoice::Multiple(no_template), Confidence::NoTemplate)
    } else {
        (BestChoice::NoneFound, Confidence::MissingLicenseFile)
    }
}

/// `text_views` of a non-empty sequence ends with the view of its last
/// element.
proof fn lemma_text_views_snoc(s: Seq<LicenseText>)
    requires
        s.len() > 0,
    ensures
        text_views(s) == text_views(s.drop_last()).push(s.last()@),
{
    let rhs = text_views(s.drop_last()).push(s.last()@);
    assert forall|k: int| 0 <= k < s.len() implies text_views(s)[k] == rhs[k] by {
        assert(text_views(s)[k] == s[k]@);
        if k < s.len() - 1 {
            assert(s.drop_last()[k] == s[k]);
            assert(text_views(s.drop_last())[k] == s.drop_last()[k]@);
        }
    }
    assert(text_views(s) =~= rhs);
}

/// The license a package's manifest resolves to: the parsed declaration, the
/// declared license file, or nothing.
pub open spec fn package_license_spec(p: PackageMetaV) -> LicenseV {
    match p.license {
        Some(d) => parse_spec(d),
        None => match p.license_file {
            Some(f) => LicenseV::File(f),
            None => LicenseV::Unspecified,
        },
    }
}

/// Resolves a package's manifest to a license.
pub fn resolved_license(p: &PackageMeta) -> (r: License)
    ensures
        r@ == package_license_spec(p@),
{
    match &p.license {
        Some(d) => crate::license::parse_license(d.as_str()),
        None => match &p.license_file {
            Some(f) => License::File(f.clone()),
            None => License::Unspecified,
        },
    }
}

/// Resolves a value to a [`License`].
pub trait Licensed {
    fn license(&self) -> License;
}

impl Licensed for PackageMeta {
    /// The license a package's manifest resolves to.
    fn license(&self) -> License {
        resolved_license(self)
    }
}

/// The findings for one concrete (sub-)license of a package.
pub open spec fn found_text_for(files: Seq<crate::discovery::SourceFileV>, l: LicenseV) -> FoundTextV {
    let (bc, c) = choose_spec(find_spec(files, l));
    FoundTextV { license: l, best_choice: bc, confidence: c }
}

/// What searching a package yields: per (sub-)license, the best candidate
/// among the package's files.
pub open spec fn found_license_spec(
    p: PackageMetaV,
    files: Seq<crate::discovery::SourceFileV>,
) -> FoundLicenseV {
    let l = package_license_spec(p);
    let texts = match l {
        LicenseV::Unspecified => FoundTextsV::Single(
            FoundTextV {
                license: l,
                best_choice: BestChoiceV::NoneFound,
                confidence: Confidence::UnspecifiedLicenseInPackage,
            },
        ),
        LicenseV::Multiple(ls) => FoundTextsV::Multiple(
            ls.map_values(|m: LicenseV| found_text_for(files, m)),
        ),
        _ => FoundTextsV::Single(found_text_for(files, l)),
    };
    FoundLicenseV { package: p, license: l, texts }
}

/// A selector outcome is well formed: a single choice carries a comparison
/// tier and an ambiguous choice is never empty.
pub open spec fn ft_wf(t: FoundTextV) -> bool {
    match t.best_choice {
        BestChoiceV::Single(_) => t.confidence == Confidence::Confident || t.confidence
            == Confidence::SemiConfident || t.confidence == Confidence::Unsure || t.confidence
            == Confidence::NoTemplate,
        BestChoiceV::Multiple(v) => v.len() >= 1,
        BestChoiceV::NoneFound => true,
    }
}

/// Every finding of the package is well formed.
pub open spec fn found_wf(f: FoundLicenseV) -> bool {
    match f.texts {
        FoundTextsV::Single(t) => ft_wf(t),
        FoundTextsV::Multiple(ts) => forall|k: int| 0 <= k < ts.len() ==> ft_wf(#[trigger] ts[k]),
    }
}

/// A package's license findings: its resolved license and, per
/// (sub-)license, the best candidate text.
#[derive(Debug)]
pub struct FoundLicense {
    package: PackageMeta,
    license: License,
    texts: FoundTexts,
}

/// The mathematical shape of a [`FoundLicense`].
pub struct FoundLicenseV {
    pub package: PackageMetaV,
    pub license: LicenseV,
    pub texts: FoundTextsV,
}

impl View for FoundLicense {
    type V = FoundLicenseV;

    closed spec fn view(&self) -> FoundLicenseV {
        FoundLicenseV { package: self.package@, license: self.license@, texts: self.texts@ }
    }
}

/// The selector's outcome is well formed by construction.
proof fn lemma_choose_wf(ts: Seq<LicenseTextV>, l: LicenseV)
    ensures
        ft_wf(
            FoundTextV {
                license: l,
                best_choice: choose_spec(ts).0,
                confidence: choose_spec(ts).1,
            },
        ),
{
}

impl FoundLicense {
    /// Searches a package's files for each of its (sub-)licenses and keeps
    /// the best candidates.
    pub fn new(package: &PackageMeta, files: &Vec<SourceFile>) -> (r: Self)
        ensures
            r@ == found_license_spec(package@, file_views(files@)),
            found_wf(r@),
    {
        let license = resolved_license(package);
        let texts = match &license {
            License::Unspecified => FoundTexts::Single(
                FoundText::new(
                    license.clone(),
                    BestChoice::NoneFound,
                    Confidence::UnspecifiedLicenseInPackage,
                ),
            ),
            License::Multiple(ls) => {
                proof {
                    crate::license::lemma_lic_views_index(ls@);
                }
                let ghost lv = lic_views(ls@);
                let ghost fv = file_views(files@);
                let mut choices: Vec<FoundText> = Vec::new();
                let mut i: usize = 0;
                proof {
                    assert(ft_views(choices@) =~= lv.take(0).map_values(
                        |m: LicenseV| found_text_for(fv, m),
                    ));
                }
                while i < ls.len()
                    invariant
                        license@ is Multiple,
                        license@->Multiple_0 == lv,
                        lv == lic_views(ls@),
                        fv == file_views(files@),
                        lv.len() == ls@.len(),
                        forall|k: int|
                            0 <= k < ls@.len() ==> lv[k] == crate::license::lic_view(
                                #[trigger] ls@[k],
                            ),
                        0 <= i <= ls@.len(),
                        choices@.len() == i,
                        ft_views(choices@) == lv.take(i as int).map_values(
                            |m: LicenseV| found_text_for(fv, m),
                        ),
                        forall|k: int| 0 <= k < choices@.len() ==> ft_wf(#[trigger] ft_views(choices@)[k]),
                    decreases ls@.len() - i,
                {
                    let lic = &ls[i];
                    let found = find_package_license(files, lic);
                    let (choice, conf) = choose_best(found);
                    let ghost cpre = ft_views(choices@);
                    choices.push(FoundText::new(lic.clone(), choice, conf));
                    proof {
                        lemma_choose_wf(find_spec(fv, lv[i as int]), lv[i as int]);
                        assert(lv[i as int] == crate::license::lic_view(ls@[i as int]));
                        assert(lic@ == lv[i as int]);
                        assert(choices@.last()@ == found_text_for(fv, lv[i as int]));
                        assert(choices@.len() == i + 1);
                        let target = lv.take(i + 1).map_values(
                            |m: LicenseV| found_text_for(fv, m),
                        );
                        assert(target.len() == i + 1);
                        assert forall|k: int| 0 <= k < choices@.len() implies ft_views(choices@)[k]
                            == target[k] by {
                            assert(ft_views(choices@)[k] == choices@[k]@);
                            assert(lv.take(i + 1)[k] == lv[k]);
                            assert(target[k] == found_text_for(fv, lv[k]));
                            if k < i {
                                assert(choices@[k] == choices@.drop_last()[k]);
                                assert(cpre[k] == choices@.drop_last()[k]@);
                                assert(lv.take(i as int)[k] == lv[k]);
                                assert(cpre[k] == lv.take(i as int).map_values(
                                    |m: LicenseV| found_text_for(fv, m),
                                )[k]);
                                assert(cpre[k] == found_text_for(fv, lv[k]));
                            } else {
                                assert(choices@[k] == choices@.last());
                            }
                        }
                        assert(ft_views(choices@) =~= target);
                    }
                    i += 1;
                }
                proof {
                    assert(lv.take(lv.len() as int) =~= lv);
                }
                FoundTexts::Multiple(choices)
            },
            _ => {
                let found = find_package_license(files, &license);
                let (choice, conf) = choose_best(found);
                proof {
                    lemma_choose_wf(find_spec(file_views(files@), license@), license@);
                }
                FoundTexts::Single(FoundText::new(license.clone(), choice, conf))
            },
        };
        FoundLicense { package: package.clone(), license, texts }
    }
}

/// The kind of issue reported for a package's license findings.
#[derive(Debug, Clone, Copy, PartialEq, Eq, Structural)]
pub enum WarningKind {
    UnspecifiedLicense,
    SemiConfidentMatch,
    UnsureMatch,
    NoTemplateForLicense,
    MultipleCandidates,
    NoLicenseFound,
}

/// One issue with a package's license findings, reported as data so callers
/// decide how to surface it.
#[derive(Debug)]
pub struct LicenseWarning {
    pub kind: WarningKind,
    /// The canonical string of the license concerned.
    pub license: String,
    pub package_name: String,
    pub package_version: String,
}

/// The mathematical shape of a [`LicenseWarning`].
pub struct LicenseWarningV {
    pub kind: WarningKind,
    pub license: Seq<char>,
    pub package_name: Seq<char>,
    pub package_version: Seq<char>,
}

impl View for LicenseWarning {
    type V = LicenseWarningV;

    open spec fn view(&self) -> LicenseWarningV {
        LicenseWarningV {
            kind: self.kind,
            license: self.license@,
            package_name: self.package_name@,
            package_version: self.package_version@,
        }
    }
}

/// The views of a list of warnings.
pub open spec fn warning_views(ws: Seq<LicenseWarning>) -> Seq<LicenseWarningV> {
    ws.map_values(|w: LicenseWarning| w@)
}

/// A warning of the given kind about one license of one package.
pub open spec fn warning_for(kind: WarningKind, t: FoundTextV, p: PackageMetaV) -> LicenseWarningV {
    LicenseWarningV {
        kind,
        license: canon_of(t.license),
        package_name: p.name,
        package_version: p.version,
    }
}

/// The warnings one finding gives rise to: an unspecified license, a match
/// below full confidence, an ambiguous tier, or no candidate at all. A
/// confident single match warns of nothing.
pub open spec fn warn_of_text(t: FoundTextV, p: PackageMetaV) -> Seq<LicenseWarningV> {
    if t.license is Unspecified {
        seq![warning_for(WarningKind::UnspecifiedLicense, t, p)]
    } else {
        match t.best_choice {
            BestChoiceV::Single(_) => if t.confidence == Confidence::SemiConfident {
                seq![warning_for(WarningKind::SemiConfidentMatch, t, p)]
            } else if t.confidence == Confidence::Unsure {
                seq![warning_for(WarningKind::UnsureMatch, t, p)]
            } else if t.confidence == Confidence::NoTemplate {
                seq![warning_for(WarningKind::NoTemplateForLicense, t, p)]
            } else {
                Seq::empty()
            },
            BestChoiceV::Multiple(_) => seq![warning_for(WarningKind::MultipleCandidates, t, p)],
            BestChoiceV::NoneFound => seq![warning_for(WarningKind::NoLicenseFound, t, p)],
        }
    }
}

/// The warnings of a list of findings, in order.
pub open spec fn warns_of_texts(ts: Seq<FoundTextV>, p: PackageMetaV) -> Seq<LicenseWarningV>
    decreases ts.len(),
{
    if ts.len() == 0 {
        Seq::empty()
    } else {
        warns_of_texts(ts.drop_last(), p) + warn_of_text(ts.last(), p)
    }
}

/// Everything `check` reports for a package.
pub open spec fn check_spec(f: FoundLicenseV) -> Seq<LicenseWarningV> {
    match f.texts {
        FoundTextsV::Single(t) => warn_of_text(t, f.package),
        FoundTextsV::Multiple(ts) => warns_of_texts(ts, f.package),
    }
}

/// Builds the warnings of one finding.
fn warn_text(t: &FoundText, p: &PackageMeta) -> (r: Vec<LicenseWarning>)
    ensures
        warning_views(r@) == warn_of_text(t@, p@),
{
    let mut r: Vec<LicenseWarning> = Vec::new();
    let kind: Option<WarningKind> = match &t.license {
        License::Unspecified => Some(WarningKind::UnspecifiedLicense),
        _ => match &t.best_choice {
            BestChoice::Single(_) => {
                if matches!(t.confidence, Confidence::SemiConfident) {
                    Some(WarningKind::SemiConfidentMatch)
                } else if matches!(t.confidence, Confidence::Unsure) {
                    Some(WarningKind::UnsureMatch)
                } else if matches!(t.confidence, Confidence::NoTemplate) {
                    Some(WarningKind::NoTemplateForLicense)
                } else {
                    None
                }
            },
            BestChoice::Multiple(_) => Some(WarningKind::MultipleCandidates),
            BestChoice::NoneFound => Some(WarningKind::NoLicenseFound),
        },
    };
    match kind {
        Some(k) => {
            r.push(
                LicenseWarning {
                    kind: k,
                    license: t.license.canonical_string(),
                    package_name: p.name.clone(),
                    package_version: p.version.clone(),
                },
            );
            proof {
                assert(warning_views(r@) =~= warn_of_text(t@, p@));
            }
        },
        None => {
            proof {
                assert(warning_views(r@) =~= warn_of_text(t@, p@));
            }
        },
    }
    r
}

impl FoundLicense {
    /// Reports the issues with this package's findings: an unspecified
    /// license, matches below full confidence, ambiguous candidate sets and
    /// licenses with no candidate at all.
    pub fn check(&self) -> (r: Vec<LicenseWarning>)
        ensures
            warning_views(r@) == check_spec(self@),
    {
        match &self.texts {
            FoundTexts::Single(t) => warn_text(t, &self.package),
            FoundTexts::Multiple(ts) => {
                let ghost tv = ft_views(ts@);
                let mut r: Vec<LicenseWarning> = Vec::new();
                let mut i: usize = 0;
                proof {
                    assert(warning_views(r@) =~= warns_of_texts(tv.take(0), self.package@));
                }
                while i < ts.len()
                    invariant
                        self@.texts == FoundTextsV::Multiple(tv),
                        tv == ft_views(ts@),
                        tv.len() == ts@.len(),
                        self.package@ == self@.package,
                        0 <= i <= ts@.len(),
                        warning_views(r@) == warns_of_texts(tv.take(i as int), self.package@),
                    decreases ts@.len() - i,
                {
                    let mut w = warn_text(&ts[i], &self.package);
                    let ghost wpre = warning_views(r@);
                    let ghost wnew = warning_views(w@);
                    r.append(&mut w);
                    proof {
                        assert(tv[i as int] == ts@[i as int]@);
                        assert(tv.take(i + 1).drop_last() =~= tv.take(i as int));
                        assert(tv.take(i + 1).last() == tv[i as int]);
                        assert forall|k: int| 0 <= k < r@.len() implies warning_views(r@)[k] == (
                        wpre + wnew)[k] by {
                            assert(warning_views(r@)[k] == r@[k]@);
                        }
                        assert(warning_views(r@) =~= wpre + wnew);
                    }
                    i += 1;
                }
                proof {
                    assert(tv.take(tv.len() as int) =~= tv);
                }
                r
            },
        }
    }
}

/// The serialized entry of one finding: the canonical license string paired
/// with the chosen text, the first candidate of an ambiguous tier, or the
/// NOT FOUND marker.
pub open spec fn lat_of_text(t: FoundTextV) -> LicenseAndTextV {
    LicenseAndTextV {
        license: canon_of(t.license),
        text: match t.best_choice {
            BestChoiceV::Single(lt) => lt.text,
            BestChoiceV::Multiple(lts) => lts[0].text,
            BestChoiceV::NoneFound => "NOT FOUND"@,
        },
    }
}

/// What `finalize` yields for a package's findings.
pub open spec fn finalize_spec(f: FoundLicenseV) -> crate::finalized_license::FinalizedLicenseV {
    let lats = match f.texts {
        FoundTextsV::Single(t) => seq![lat_of_text(t)],
        FoundTextsV::Multiple(ts) => ts.map_values(|t: FoundTextV| lat_of_text(t)),
    };
    finalized_new_spec(f.package, f.license, lats)
}

/// Builds the serialized entry of one finding.
fn lat_text(t: &FoundText) -> (r: LicenseAndText)
    requires
        ft_wf(t@),
    ensures
        r@ == lat_of_text(t@),
{
    let text: String = match &t.best_choice {
        BestChoice::Single(lt) => lt.text.clone(),
        BestChoice::Multiple(lts) => {
            proof {
                assert(text_views(lts@).len() >= 1);
                assert(text_views(lts@)[0] == lts@[0]@);
            }
            lts[0].text.clone()
        },
        BestChoice::NoneFound => String::from_str(LICENSE_NOT_FOUNT_TEXT),
    };
    LicenseAndText::new(&t.license, text)
}

impl FoundLicense {
    /// Finalizes the findings into the serializable record: the top
    /// candidate where several were possible, and the NOT FOUND marker where
    /// none was found.
    pub fn finalize(&self) -> (r: FinalizedLicense)
        requires
            found_wf(self@),
        ensures
            r@ == finalize_spec(self@),
    {
        let licenses: Vec<LicenseAndText> = match &self.texts {
            FoundTexts::Single(t) => {
                let mut v: Vec<LicenseAndText> = Vec::new();
                v.push(lat_text(t));
                proof {
                    assert(crate::finalized_license::lat_views(v@) =~= seq![lat_of_text(t@)]);
                }
                v
            },
            FoundTexts::Multiple(ts) => {
                let ghost tv = ft_views(ts@);
                let mut v: Vec<LicenseAndText> = Vec::new();
                let mut i: usize = 0;
                proof {
                    assert(crate::finalized_license::lat_views(v@) =~= tv.take(0).map_values(
                        |t: FoundTextV| lat_of_text(t),
                    ));
                    assert(self@.texts == FoundTextsV::Multiple(tv));
                    assert(found_wf(self@));
                    assert forall|k: int| 0 <= k < tv.len() implies ft_wf(#[trigger] tv[k]) by {
                        match self@.texts {
                            FoundTextsV::Multiple(mts) => {
                                assert(mts == tv);
                                assert(ft_wf(mts[k]));
                            },
                            _ => {},
                        }
                    }
                }
                while i < ts.len()
                    invariant
                        self@.texts == FoundTextsV::Multiple(tv),
                        forall|k: int| 0 <= k < tv.len() ==> ft_wf(#[trigger] tv[k]),
                        tv == ft_views(ts@),
                        tv.len() == ts@.len(),
                        0 <= i <= ts@.len(),
                        v@.len() == i,
                        crate::finalized_license::lat_views(v@) == tv.take(i as int).map_values(
                            |t: FoundTextV| lat_of_text(t),
                        ),
                    decreases ts@.len() - i,
                {
                    proof {
                        assert(tv[i as int] == ts@[i as int]@);
                        assert(ft_wf(tv[i as int]));
                    }
                    let ghost vpre = crate::finalized_license::lat_views(v@);
                    v.push(lat_text(&ts[i]));
                    proof {
                        let target = tv.take(i + 1).map_values(|t: FoundTextV| lat_of_text(t));
                        assert forall|k: int|
                            0 <= k < v@.len() implies crate::finalized_license::lat_views(v@)[k]
                            == target[k] by {
                            assert(crate::finalized_license::lat_views(v@)[k] == v@[k]@);
                            assert(tv.take(i + 1)[k] == tv[k]);
                            assert(target[k] == lat_of_text(tv[k]));
                            if k < i {
                                assert(v@[k] == v@.drop_last()[k]);
                                assert(vpre[k] == v@.drop_last()[k]@);
                                assert(tv.take(i as int)[k] == tv[k]);
                                assert(vpre[k] == tv.take(i as int).map_values(
                                    |t: FoundTextV| lat_of_text(t),
                                )[k]);
                            } else {
                                assert(v@[k] == v@.last());
                            }
                        }
                        assert(crate::finalized_license::lat_views(v@) =~= target);
                    }
                    i += 1;
                }
                proof {
                    assert(tv.take(tv.len() as int) =~= tv);
                }
                v
            },
        };
        FinalizedLicense::new(&self.package, self.license.clone(), licenses)
    }
}

/// The selector's tier rule, spelled out: a lone `Confident` candidate is
/// chosen outright, whatever sits in the lower tiers.
pub proof fn lemma_selector_single_confident(ts: Seq<LicenseTextV>)
    requires
        tier_texts(ts, Confidence::Confident).len() == 1,
    ensures
        choose_spec(ts) == (
            BestChoiceV::Single(tier_texts(ts, Confidence::Confident)[0]),
            Confidence::Confident,
        ),
{
}

/// Two or more `Confident` candidates are reported together as ambiguous,
/// never guessed between.
pub proof fn lemma_selector_ambiguous_confident(ts: Seq<LicenseTextV>)
    requires
        tier_texts(ts, Confidence::Confident).len() > 1,
    ensures
        choose_spec(ts) == (
            BestChoiceV::Multiple(tier_texts(ts, Confidence::Confident)),
            Confidence::Confident,
        ),
{
}

/// With no candidates at all, the selector reports a missing license file.
pub proof fn lemma_selector_empty(ts: Seq<LicenseTextV>)
    requires
        ts.len() == 0,
    ensures
        choose_spec(ts) == (BestChoiceV::NoneFound, Confidence::MissingLicenseFile),
{
}

} // verus!
