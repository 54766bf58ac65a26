use wslplugins::require_version;
use wslplugins::sys::{WSLPluginAPIV1, WSLVersion, S_OK, WSL_E_PLUGIN_REQUIRES_UPDATE};

fn api(major: u32, minor: u32, revision: u32) -> WSLPluginAPIV1 {
    WSLPluginAPIV1 {
        Version: WSLVersion {
            Major: major,
            Minor: minor,
            Revision: revision,
        },
    }
}

#[test]
fn test_version_exact_match() {
    let api = api(1, 0, 0);
    assert_eq!(require_version(1, 0, 0, &api), S_OK);
}

#[test]
fn test_version_major_too_low() {
    let api = api(0, 9, 0);
    assert_eq!(require_version(1, 0, 0, &api), WSL_E_PLUGIN_REQUIRES_UPDATE);
}

#[test]
fn test_version_minor_too_low() {
    let api = api(1, 0, 0);
    assert_eq!(require_version(1, 1, 0, &api), WSL_E_PLUGIN_REQUIRES_UPDATE);
}

#[test]
fn test_version_revision_too_low() {
    let api = api(1, 0, 0);
    assert_eq!(require_version(1, 0, 1, &api), WSL_E_PLUGIN_REQUIRES_UPDATE);
}

#[test]
fn test_version_high_enough() {
    let api = api(1, 2, 3);
    assert_eq!(require_version(1, 0, 1, &api), S_OK);
}

#[test]
fn newer_major_ignores_lower_components() {
    assert_eq!(require_version(1, 9, 9, &api(2, 0, 0)), S_OK);
    assert_eq!(require_version(2, 0, 5, &api(2, 0, 4)), WSL_E_PLUGIN_REQUIRES_UPDATE);
}

#[test]
fn requires_update_status_value() {
    assert_eq!(WSL_E_PLUGIN_REQUIRES_UPDATE as u32, 0x8004032A);
}
