//! The textual encodings a bundle can be carried in. The encoding and
//! decoding themselves live with the caller; this module only names the
//! formats and their spellings.

use vstd::prelude::*;
use vstd::string::StringExecFns;

verus! {

/// One of the three equivalent textual encodings of a bundle.
#[derive(Debug, Clone, Copy, PartialEq, Eq, Structural)]
pub enum Format {
    Json,
    Toml,
    Yaml,
}

/// The format a name denotes, short spellings included.
pub open spec fn format_of_name(s: Seq<char>) -> Option<Format> {
    if s == "json"@ {
        Some(Format::Json)
    } else if s == "toml"@ || s == "tml"@ {
        Some(Format::Toml)
    } else if s == "yaml"@ || s == "yml"@ {
        Some(Format::Yaml)
    } else {
        None
    }
}

/// The canonical name of a format.
pub open spec fn name_of_format(f: Format) -> Seq<char> {
    match f {
        Format::Json => "json"@,
        Format::Toml => "toml"@,
        Format::Yaml => "yaml"@,
    }
}

impl Format {
    /// Parses a format name, accepting the short spellings.
    pub fn parse_name(s: &str) -> (r: Option<Format>)
        ensures
            r == format_of_name(s@),
    {
        if crate::text::str_eq(s, "json") {
            Some(Format::Json)
        } else if crate::text::str_eq(s, "toml") || crate::text::str_eq(s, "tml") {
            Some(Format::Toml)
        } else if crate::text::str_eq(s, "yaml") || crate::text::str_eq(s, "yml") {
            Some(Format::Yaml)
        } else {
            None
        }
    }

    /// The canonical name of this format.
    pub fn name(&self) -> (r: String)
        ensures
            r@ == name_of_format(*self),
    {
        match self {
            Format::Json => String::from_str("json"),
            Format::Toml => String::from_str("toml"),
            Format::Yaml => String::from_str("yaml"),
        }
    }
}

} // verus!
