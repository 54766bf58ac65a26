//! The host's API table as the plugin sees it.
use crate::sys;
use crate::wsl_version::WSLVersion;
use vstd::prelude::*;

verus! {

/// The host's API table.
#[derive(Debug)]
pub struct ApiV1 {
    pub api: sys::WSLPluginAPIV1,
}

impl ApiV1 {
    pub fn from(api: &sys::WSLPluginAPIV1) -> (r: ApiV1)
        ensures
            r.api == *api,
    {
        ApiV1 { api: *api }
    }

    /// The host's API version.
    pub fn version(&self) -> (r: WSLVersion)
        ensures
            r@ == (self.api.Version.Major, self.api.Version.Minor, self.api.Version.Revision),
    {
        WSLVersion::from(&self.api.Version)
    }
}

} // verus!
