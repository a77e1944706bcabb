//! The command-line surface of the tool, as plain data: argument parsing
//! itself lives with the caller.

use vstd::prelude::*;

use crate::format::Format;

verus! {

/// The options a bundling run is configured with.
#[derive(Debug)]
pub struct Opts {
    /// The format to write the output in.
    pub format: Format,
    /// The file to write the output to; none, or `-`, for standard output.
    pub output: Option<String>,
    /// A previous bundle file used for back-fill and comparison.
    pub previous: Option<String>,
    /// After back-fill, require the previous bundle to be a subset of the
    /// new one.
    pub check_previous: bool,
    /// Extra features to pull dependencies from.
    pub features: Vec<String>,
    /// Preferred licenses to keep when several apply.
    pub prefer: Vec<String>,
}

} // verus!
