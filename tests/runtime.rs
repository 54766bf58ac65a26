use wslplugins::sys;
use wslplugins::sys::WSLVersion as NativeWSLVersion;
use wslplugins::{
    ApiV1, DistributionInformation, OfflineDistributionInformation, WSLUserConfiguration,
    WSLVersion, WSLVersionError, WSLVmCreationSettings,
};

#[test]
fn test_from_raw() {
    let native_version = NativeWSLVersion {
        Major: 1,
        Minor: 2,
        Revision: 3,
    };
    let version = WSLVersion::from(&native_version);
    assert_eq!(version.major(), 1);
    assert_eq!(version.minor(), 2);
    assert_eq!(version.revision(), 3);
}

#[test]
fn test_to_semver() {
    let native_version = NativeWSLVersion {
        Major: 1,
        Minor: 2,
        Revision: 3,
    };
    let version = WSLVersion::from(&native_version);
    let semver_version: semver::Version = version.to_semver();
    assert_eq!(semver_version, semver::Version::new(1, 2, 3));
}

#[test]
fn test_comparison() {
    let version1 = NativeWSLVersion {
        Major: 1,
        Minor: 2,
        Revision: 3,
    };
    let version2 = NativeWSLVersion {
        Major: 1,
        Minor: 2,
        Revision: 4,
    };
    let version3 = NativeWSLVersion {
        Major: 2,
        Minor: 0,
        Revision: 0,
    };

    let wsl_version1 = WSLVersion::from(&version1);
    let wsl_version2 = WSLVersion::from(&version2);
    let wsl_version3 = WSLVersion::from(&version3);

    assert!(wsl_version1 < wsl_version2);
    assert!(wsl_version2 < wsl_version3);
    assert!(wsl_version1 < wsl_version3);
}

#[test]
fn test_debug() {
    let version = NativeWSLVersion {
        Major: 1,
        Minor: 2,
        Revision: 3,
    };
    let debug_str = format!("{:?}", WSLVersion::from(&version));
    assert_eq!(debug_str, "WSLVersion { Major: 1, Minor: 2, Revision: 3 }");
}

#[test]
fn test_partial_eq_pointer_equality() {
    let native_version = NativeWSLVersion {
        Major: 1,
        Minor: 2,
        Revision: 3,
    };
    let version1 = WSLVersion::from(&native_version);
    let version2 = WSLVersion::from(&native_version);
    assert_eq!(version1, version2);
}

#[test]
fn test_partial_ord_pointer_equality() {
    let native_version = NativeWSLVersion {
        Major: 1,
        Minor: 2,
        Revision: 3,
    };
    let version1 = WSLVersion::from(&native_version);
    let version2 = WSLVersion::from(&native_version);
    assert_eq!(
        version1.partial_cmp(&version2),
        Some(std::cmp::Ordering::Equal)
    );
}

#[test]
fn test_display_wslversionerror() {
    assert_eq!(
        WSLVersionError::PreReleaseNotEmpty.to_string(),
        "Pre-release field is not empty"
    );
    assert_eq!(
        WSLVersionError::BuildMetadataNotEmpty.to_string(),
        "Build metadata field is not empty"
    );
}

#[test]
fn order_agrees_with_derived_cmp() {
    let a = WSLVersion::from(&NativeWSLVersion { Major: 1, Minor: 9, Revision: 9 });
    let b = WSLVersion::from(&NativeWSLVersion { Major: 2, Minor: 0, Revision: 0 });
    assert_eq!(a.partial_cmp(&b), Some(a.cmp(&b)));
    assert_eq!(b.partial_cmp(&a), Some(std::cmp::Ordering::Greater));
}

#[test]
fn api_reports_host_version() {
    let api = ApiV1::from(&sys::WSLPluginAPIV1 {
        Version: NativeWSLVersion { Major: 2, Minor: 1, Revision: 3 },
    });
    let v = api.version();
    assert_eq!((v.major(), v.minor(), v.revision()), (2, 1, 3));
}

#[test]
fn configuration_flags_drop_unknown_bits() {
    let settings = WSLVmCreationSettings::from(&sys::WSLVmCreationSettings {
        CustomConfigurationFlags: 0b1111,
    });
    let flags = settings.custom_configuration_flags();
    assert_eq!(flags.bits(), 3);
    assert!(flags.custom_kernel());
    assert!(flags.custom_kernel_command_line());
    let only_cmdline = WSLUserConfiguration::from_bits_truncate(2);
    assert!(!only_cmdline.custom_kernel());
    assert!(only_cmdline.custom_kernel_command_line());
    assert_eq!(WSLUserConfiguration::from_bits_truncate(-4).bits(), 0);
}

#[test]
fn distribution_views() {
    let d = DistributionInformation::from(&sys::WSLDistributionInformation {
        Id: 42,
        Name: "Ubuntu".to_string(),
        PackageFamilyName: Some(String::new()),
        PidNamespace: 4026531836,
        InitPid: 1,
    });
    assert_eq!(d.init_pid(), 1);
    assert_eq!(d.pid_namespace(), 4026531836);
    assert_eq!(d.package_family_name(), Some(String::new()));
    let o = OfflineDistributionInformation::from(&sys::WslOfflineDistributionInformation {
        Id: 7,
        Name: "Debian".to_string(),
        PackageFamilyName: Some(String::new()),
    });
    assert_eq!(o.package_family_name(), None);
    assert_eq!(o.name, "Debian");
    let packaged = OfflineDistributionInformation::from(&sys::WslOfflineDistributionInformation {
        Id: 7,
        Name: "Debian".to_string(),
        PackageFamilyName: Some("Pkg".to_string()),
    });
    assert_eq!(packaged.package_family_name(), Some("Pkg".to_string()));
}
