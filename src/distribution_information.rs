//! Running and registered distributions as the plugin sees them.
use crate::sys;
use vstd::prelude::*;

verus! {

fn copy_name(s: &Option<String>) -> (r: Option<String>)
    ensures
        r == *s,
{
    match s {
        Some(n) => Some(n.clone()),
        None => None,
    }
}

/// A running distribution.
#[derive(Debug, PartialEq, Eq)]
pub struct DistributionInformation {
    pub id: u128,
    pub name: String,
    pub package_family_name: Option<String>,
    pub pid_namespace: u64,
    pub init_pid: u32,
}

impl DistributionInformation {
    pub fn from(info: &sys::WSLDistributionInformation) -> (r: DistributionInformation)
        ensures
            r.id == info.Id,
            r.name == info.Name,
            r.package_family_name == info.PackageFamilyName,
            r.pid_namespace == info.PidNamespace,
            r.init_pid == info.InitPid,
    {
        DistributionInformation {
            id: info.Id,
            name: info.Name.clone(),
            package_family_name: copy_name(&info.PackageFamilyName),
            pid_namespace: info.PidNamespace,
            init_pid: info.InitPid,
        }
    }

    /// The pid of the distribution's init process.
    pub fn init_pid(&self) -> (r: u32)
        ensures
            r == self.init_pid,
    {
        self.init_pid
    }

    pub fn pid_namespace(&self) -> (r: u64)
        ensures
            r == self.pid_namespace,
    {
        self.pid_namespace
    }

    /// The package family name, when the distribution is packaged.
    pub fn package_family_name(&self) -> (r: Option<String>)
        ensures
            r == self.package_family_name,
    {
        copy_name(&self.package_family_name)
    }
}

/// A registered distribution that is not running.
#[derive(Debug, PartialEq, Eq)]
pub struct OfflineDistributionInformation {
    pub id: u128,
    pub name: String,
    pub package_family_name: Option<String>,
}

impl OfflineDistributionInformation {
    pub fn from(info: &sys::WslOfflineDistributionInformation) -> (r: OfflineDistributionInformation)
        ensures
            r.id == info.Id,
            r.name == info.Name,
            r.package_family_name == info.PackageFamilyName,
    {
        OfflineDistributionInformation {
            id: info.Id,
            name: info.Name.clone(),
            package_family_name: copy_name(&info.PackageFamilyName),
        }
    }

    /// The package family name, when the distribution is packaged: an empty name counts as
    /// none.
    pub fn package_family_name(&self) -> (r: Option<String>)
        ensures
            r == match self.package_family_name {
                Some(n) => if n@.len() == 0 {
                    None
                } else {
                    Some(n)
                },
                None => None,
            },
    {
        match &self.package_family_name {
            Some(n) => if n.as_str().unicode_len() == 0 {
                None
            } else {
                Some(n.clone())
            },
            None => None,
        }
    }
}

} // verus!
