//! The host's records as plain values, and the negotiation of the API version.
#![allow(non_snake_case)]
use vstd::prelude::*;

verus! {

/// The host's API version.
#[derive(Clone, Copy, Debug, PartialEq, Eq, Hash, Structural)]
pub struct WSLVersion {
    pub Major: u32,
    pub Minor: u32,
    pub Revision: u32,
}

/// The host's API table, of which the plugin reads the version.
#[derive(Clone, Copy, Debug, PartialEq, Eq, Structural)]
pub struct WSLPluginAPIV1 {
    pub Version: WSLVersion,
}

/// The settings of a virtual machine being created.
#[derive(Clone, Copy, Debug, PartialEq, Eq, Structural)]
pub struct WSLVmCreationSettings {
    pub CustomConfigurationFlags: i32,
}

/// A running distribution.
#[derive(Debug, PartialEq, Eq)]
pub struct WSLDistributionInformation {
    /// The distribution's GUID, as a 128-bit number.
    pub Id: u128,
    pub Name: String,
    /// `None` where the host passes no package name.
    pub PackageFamilyName: Option<String>,
    pub PidNamespace: u64,
    pub InitPid: u32,
}

/// A registered distribution that is not running.
#[derive(Debug, PartialEq, Eq)]
pub struct WslOfflineDistributionInformation {
    pub Id: u128,
    pub Name: String,
    pub PackageFamilyName: Option<String>,
}

/// The status of success.
pub const S_OK: i32 = 0;

/// The status returned when the host is older than the plugin requires (`0x8004032A`).
pub const WSL_E_PLUGIN_REQUIRES_UPDATE: i32 = -2147220694;

/// The host at version `host` is older than the version `major.minor.revision`.
pub open spec fn host_too_old(host: WSLVersion, major: u32, minor: u32, revision: u32) -> bool {
    ||| host.Major < major
    ||| (host.Major == major && host.Minor < minor)
    ||| (host.Major == major && host.Minor == minor && host.Revision < revision)
}

/// `S_OK` when the host's version is at least `required_major.required_minor.required_revision`,
/// compared component by component from the major one; `WSL_E_PLUGIN_REQUIRES_UPDATE`
/// otherwise.
pub fn require_version(
    required_major: u32,
    required_minor: u32,
    required_revision: u32,
    api: &WSLPluginAPIV1,
) -> (r: i32)
    ensures
        r == if host_too_old(api.Version, required_major, required_minor, required_revision) {
            WSL_E_PLUGIN_REQUIRES_UPDATE
        } else {
            S_OK
        },
{
    let version = &api.Version;
    if version.Major < required_major || (version.Major == required_major && version.Minor
        < required_minor) || (version.Major == required_major && version.Minor == required_minor
        && version.Revision < required_revision) {
        WSL_E_PLUGIN_REQUIRES_UPDATE
    } else {
        S_OK
    }
}

} // verus!
