//! Code generation core for WSL plugins: a catalog of lifecycle hooks, parsers for the
//! attribute's version literal and the annotated implementation block, a lifetime rewriter
//! over a model of Rust types, and the generator of the C-ABI glue text. Beside it, the
//! host's records as plain values and the plugin's views of them.
pub mod api_v1;
pub mod diagnostics;
pub mod distribution_information;
pub mod expand;
pub mod generator;
pub mod hooks;
pub mod parsed_impl;
pub mod sys;
pub mod types;
pub mod utils;
pub mod version;
pub mod wsl_version;
pub mod wsl_vm_creation_settings;

pub use api_v1::ApiV1;
pub use distribution_information::{DistributionInformation, OfflineDistributionInformation};
pub use expand::{wsl_plugin_v1, UseGuard};
pub use generator::{generate, StoragePolicy};
pub use hooks::Hooks;
pub use parsed_impl::{ImplBlock, ImplItem, ParsedImpl};
pub use sys::require_version;
pub use utils::{cstring_from_str, encode_wide_null_terminated};
pub use version::{RequiredVersion, VersionToken};
pub use wsl_version::{WSLVersion, WSLVersionError};
pub use wsl_vm_creation_settings::{WSLUserConfiguration, WSLVmCreationSettings};
