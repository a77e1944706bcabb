//! Parsing of license declarations: the identifier table, exceptions,
//! expression flattening and the canonical round trip.

use std::str::FromStr;

use bundle_licenses_lib::license::License;

#[test]
fn simple_spdx() {
    assert_eq!(License::from_str("Unlicense"), Ok(License::Unlicense));
    assert_eq!(License::from_str("0BSD"), Ok(License::BSD_0_Clause));
    assert_eq!(License::from_str("CC0-1.0"), Ok(License::CC0_1_0));
    assert_eq!(License::from_str("MIT"), Ok(License::MIT));
    assert_eq!(License::from_str("X11"), Ok(License::X11));
    assert_eq!(License::from_str("BSD-2-Clause"), Ok(License::BSD_2_Clause));
    assert_eq!(License::from_str("BSD-3-Clause"), Ok(License::BSD_3_Clause));
    assert_eq!(License::from_str("BSL-1.0"), Ok(License::BSL_1_0));
    assert_eq!(License::from_str("Apache-2.0"), Ok(License::Apache_2_0));
    assert_eq!(License::from_str("LGPL-2.0-only"), Ok(License::LGPL_2_0));
    assert_eq!(License::from_str("LGPL-2.0"), Ok(License::LGPL_2_0));
    assert_eq!(License::from_str("LGPL-2.1-only"), Ok(License::LGPL_2_1));
    assert_eq!(License::from_str("LGPL-2.1"), Ok(License::LGPL_2_1));
    assert_eq!(
        License::from_str("LGPL-2.1-or-later"),
        Ok(License::LGPL_2_1Plus)
    );
    assert_eq!(License::from_str("LGPL-2.1+"), Ok(License::LGPL_2_1Plus));
    assert_eq!(License::from_str("LGPL-3.0-only"), Ok(License::LGPL_3_0));
    assert_eq!(License::from_str("LGPL-3.0"), Ok(License::LGPL_3_0));
    assert_eq!(
        License::from_str("LGPL-3.0-or-later"),
        Ok(License::LGPL_3_0Plus)
    );
    assert_eq!(License::from_str("LGPL-3.0+"), Ok(License::LGPL_3_0Plus));
    assert_eq!(License::from_str("MPL-1.1"), Ok(License::MPL_1_1));
    assert_eq!(License::from_str("MPL-2.0"), Ok(License::MPL_2_0));
    assert_eq!(License::from_str("GPL-2.0-only"), Ok(License::GPL_2_0));
    assert_eq!(License::from_str("GPL-2.0"), Ok(License::GPL_2_0));
    assert_eq!(
        License::from_str("GPL-2.0-or-later"),
        Ok(License::GPL_2_0Plus)
    );
    assert_eq!(License::from_str("GPL-2.0+"), Ok(License::GPL_2_0Plus));
    assert_eq!(License::from_str("GPL-3.0-only"), Ok(License::GPL_3_0));
    assert_eq!(License::from_str("GPL-3.0"), Ok(License::GPL_3_0));
    assert_eq!(
        License::from_str("GPL-3.0-or-later"),
        Ok(License::GPL_3_0Plus)
    );
    assert_eq!(License::from_str("GPL-3.0+"), Ok(License::GPL_3_0Plus));
    assert_eq!(License::from_str("AGPL-3.0-only"), Ok(License::AGPL_3_0));
    assert_eq!(License::from_str("AGPL-3.0"), Ok(License::AGPL_3_0));
    assert_eq!(
        License::from_str("AGPL-3.0-or-later"),
        Ok(License::AGPL_3_0Plus)
    );
    assert_eq!(License::from_str("AGPL-3.0+"), Ok(License::AGPL_3_0Plus));
    assert_eq!(License::from_str("Zlib"), Ok(License::Zlib));
}

#[test]
fn simple_with_exception() {
    assert_eq!(
        License::from_str("Apache-2.0 WITH LLVM-exception"),
        Ok(License::Apache_2_0_WITH_LLVM_exception)
    );
}

#[test]
fn complex_spdx() {
    assert_eq!(
        License::from_str("Apache-2.0 OR MIT"),
        Ok(License::Multiple(vec![License::Apache_2_0, License::MIT]))
    );
    assert_eq!(
        License::from_str("Apache-2.0 / MIT"),
        Ok(License::Multiple(vec![License::Apache_2_0, License::MIT]))
    );
    assert_eq!(
        License::from_str("(Apache-2.0 OR MIT) AND BSD-3-Clause"),
        Ok(License::Multiple(vec![
            License::Apache_2_0,
            License::MIT,
            License::BSD_3_Clause
        ]))
    );
}

#[test]
fn canonical_round_trip() {
    let well_known = vec![
        License::Unlicense,
        License::BSD_0_Clause,
        License::CC0_1_0,
        License::MIT,
        License::X11,
        License::BSD_2_Clause,
        License::BSD_3_Clause,
        License::BSL_1_0,
        License::Apache_2_0,
        License::Apache_2_0_WITH_LLVM_exception,
        License::LGPL_2_0,
        License::LGPL_2_1,
        License::LGPL_2_1Plus,
        License::LGPL_3_0,
        License::LGPL_3_0Plus,
        License::MPL_1_1,
        License::MPL_2_0,
        License::GPL_2_0,
        License::GPL_2_0Plus,
        License::GPL_3_0,
        License::GPL_3_0Plus,
        License::AGPL_3_0,
        License::AGPL_3_0Plus,
        License::Zlib,
    ];
    for license in well_known {
        let canonical = license.canonical_string();
        let reparsed = License::from_str(&canonical).unwrap();
        assert_eq!(
            reparsed.canonical_string(),
            canonical,
            "round trip failed for {canonical}"
        );
        assert_eq!(reparsed, license);
    }
}

#[test]
fn parsing_is_total() {
    assert_eq!(
        License::from_str("Entirely Made Up License 3.1"),
        Ok(License::Custom(String::from("Entirely Made Up License 3.1")))
    );
    assert_eq!(License::from_str(""), Ok(License::Custom(String::new())));
    assert_eq!(
        License::from_str("   spaced out   "),
        Ok(License::Custom(String::from("spaced out")))
    );
}

#[test]
fn slash_fallback_splits_alternatives() {
    // the whole string is no SPDX expression, so the simple matcher splits it
    let parsed = License::from_str("MIT / Some In-House License!!").unwrap();
    assert_eq!(
        parsed,
        License::Multiple(vec![
            License::MIT,
            License::Custom(String::from("Some In-House License!!")),
        ])
    );
}

#[test]
fn exception_canonical_string() {
    assert_eq!(
        License::Apache_2_0_WITH_LLVM_exception.canonical_string(),
        "Apache-2.0 WITH LLVM-exception"
    );
    assert_eq!(
        License::Multiple(vec![License::Apache_2_0, License::MIT]).canonical_string(),
        "Apache-2.0 / MIT"
    );
    assert_eq!(License::Unspecified.canonical_string(), "No license specified");
    assert_eq!(
        License::File(String::from("vendored/COPYING")).canonical_string(),
        "License specified in file (vendored/COPYING)"
    );
}

#[test]
fn synonyms_longest_first() {
    let syns = License::Apache_2_0.synonyms();
    assert_eq!(syns, vec!["apache-2-0", "apache-2", "apache2", "apache"]);
    let syns = License::BSL_1_0.synonyms();
    assert_eq!(syns, vec!["bsl-1-0", "boost"]);
    let syns = License::MIT.synonyms();
    assert_eq!(syns, vec!["mit"]);
}
