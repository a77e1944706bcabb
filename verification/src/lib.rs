//! Discovers, scores and reconciles open-source license declarations and
//! license-text files for a project's dependency set, producing a stable,
//! serializable bundle of third-party license attributions.

pub mod bundle;
pub mod discovery;
pub mod finalized_license;
pub mod format;
pub mod found_license;
pub mod license;
pub mod opts;
pub mod package_loader;
pub mod templates;
pub mod text;
