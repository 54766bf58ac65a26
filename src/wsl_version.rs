//! The host's API version as the plugin sees it.
#![allow(non_snake_case)]
use crate::sys;
use vstd::prelude::*;

verus! {

#[verifier::external_type_specification]
#[verifier::external_body]
pub struct ExSemverVersion(semver::Version);

/// Relies on semver's `Version::new`, which builds the version `major.minor.patch` with
/// empty pre-release and build metadata.
#[verifier::external_body]
fn new_semver_version(major: u64, minor: u64, patch: u64) -> (r: semver::Version) {
    semver::Version::new(major, minor, patch)
}

/// A host API version: major, minor and revision numbers.
#[derive(Clone, Copy, Debug, PartialEq, Eq, Hash, Ord, Structural)]
pub struct WSLVersion {
    Major: u32,
    Minor: u32,
    Revision: u32,
}

impl View for WSLVersion {
    type V = (u32, u32, u32);

    closed spec fn view(&self) -> (u32, u32, u32) {
        (self.Major, self.Minor, self.Revision)
    }
}

/// The order of two versions: by major number, then minor, then revision.
pub open spec fn version_order(a: (u32, u32, u32), b: (u32, u32, u32)) -> std::cmp::Ordering {
    if a.0 < b.0 || (a.0 == b.0 && a.1 < b.1) || (a.0 == b.0 && a.1 == b.1 && a.2 < b.2) {
        std::cmp::Ordering::Less
    } else if a == b {
        std::cmp::Ordering::Equal
    } else {
        std::cmp::Ordering::Greater
    }
}

impl PartialOrd for WSLVersion {
    fn partial_cmp(&self, other: &WSLVersion) -> (r: Option<std::cmp::Ordering>)
        ensures
            r == Some(version_order(self@, other@)),
    {
        if self.Major < other.Major || (self.Major == other.Major && self.Minor < other.Minor) || (
        self.Major == other.Major && self.Minor == other.Minor && self.Revision < other.Revision) {
            Some(std::cmp::Ordering::Less)
        } else if self.Major == other.Major && self.Minor == other.Minor && self.Revision
            == other.Revision {
            Some(std::cmp::Ordering::Equal)
        } else {
            Some(std::cmp::Ordering::Greater)
        }
    }
}

impl vstd::std_specs::cmp::PartialOrdSpecImpl for WSLVersion {
    open spec fn obeys_partial_cmp_spec() -> bool {
        true
    }

    open spec fn partial_cmp_spec(&self, other: &WSLVersion) -> Option<std::cmp::Ordering> {
        Some(version_order(self@, other@))
    }
}

impl WSLVersion {
    /// The version held by the host's record.
    pub fn from(version: &sys::WSLVersion) -> (r: WSLVersion)
        ensures
            r@ == (version.Major, version.Minor, version.Revision),
    {
        WSLVersion { Major: version.Major, Minor: version.Minor, Revision: version.Revision }
    }

    pub fn major(&self) -> (r: u32)
        ensures
            r == self@.0,
    {
        self.Major
    }

    pub fn minor(&self) -> (r: u32)
        ensures
            r == self@.1,
    {
        self.Minor
    }

    pub fn revision(&self) -> (r: u32)
        ensures
            r == self@.2,
    {
        self.Revision
    }

    /// The same version as a semantic version, the revision being the patch number.
    pub fn to_semver(&self) -> semver::Version {
        new_semver_version(self.Major as u64, self.Minor as u64, self.Revision as u64)
    }
}

/// Why a semantic version has no host version counterpart.
#[derive(Clone, Copy, Debug, PartialEq, Eq, Hash, Structural)]
pub enum WSLVersionError {
    PreReleaseNotEmpty,
    BuildMetadataNotEmpty,
}

impl WSLVersionError {
    /// The error's message.
    pub fn to_string(&self) -> (r: String)
        ensures
            r@ == match self {
                WSLVersionError::PreReleaseNotEmpty => "Pre-release field is not empty"@,
                WSLVersionError::BuildMetadataNotEmpty => "Build metadata field is not empty"@,
            },
    {
        match self {
            WSLVersionError::PreReleaseNotEmpty => String::from_str("Pre-release field is not empty"),
            WSLVersionError::BuildMetadataNotEmpty => String::from_str("Build metadata field is not empty"),
        }
    }
}

} // verus!
