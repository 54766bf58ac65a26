//! The settings of a virtual machine being created, and the user configuration flags among
//! them.
use crate::sys;
use vstd::prelude::*;

verus! {

/// The user's configuration flags: a custom kernel, a custom kernel command line.
#[derive(Clone, Copy, Debug, PartialEq, Eq, Hash, Structural)]
pub struct WSLUserConfiguration {
    bits: i32,
}

/// The flag of a custom kernel.
pub const CUSTOM_KERNEL: i32 = 1;

/// The flag of a custom kernel command line.
pub const CUSTOM_KERNEL_COMMAND_LINE: i32 = 2;

impl View for WSLUserConfiguration {
    type V = i32;

    closed spec fn view(&self) -> i32 {
        self.bits
    }
}

impl WSLUserConfiguration {
    /// The flags of `bits` that are known; other bits are dropped.
    pub fn from_bits_truncate(bits: i32) -> (r: WSLUserConfiguration)
        ensures
            r@ == bits & 3,
    {
        WSLUserConfiguration { bits: bits & 3 }
    }

    pub fn bits(&self) -> (r: i32)
        ensures
            r == self@,
    {
        self.bits
    }

    pub fn custom_kernel(&self) -> (r: bool)
        ensures
            r == (self@ & 1 != 0),
    {
        self.bits & CUSTOM_KERNEL != 0
    }

    pub fn custom_kernel_command_line(&self) -> (r: bool)
        ensures
            r == (self@ & 2 != 0),
    {
        self.bits & CUSTOM_KERNEL_COMMAND_LINE != 0
    }
}

/// The settings of a virtual machine being created.
#[derive(Debug)]
pub struct WSLVmCreationSettings {
    pub settings: sys::WSLVmCreationSettings,
}

impl WSLVmCreationSettings {
    pub fn from(settings: &sys::WSLVmCreationSettings) -> (r: WSLVmCreationSettings)
        ensures
            r.settings == *settings,
    {
        WSLVmCreationSettings { settings: *settings }
    }

    /// The known user configuration flags of the settings.
    pub fn custom_configuration_flags(&self) -> (r: WSLUserConfiguration)
        ensures
            r@ == self.settings.CustomConfigurationFlags & 3,
    {
        WSLUserConfiguration::from_bits_truncate(self.settings.CustomConfigurationFlags)
    }
}

} // verus!
