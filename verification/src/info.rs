//! Build-version information served to clients.

use vstd::prelude::*;

verus! {

/// The running backend's version.
#[derive(Debug, Clone)]
pub struct VersionInfo {
    pub major: u8,
    pub minor: u8,
    pub bug_fix: u8,
    pub version_string: &'static str,
}

} // verus!
