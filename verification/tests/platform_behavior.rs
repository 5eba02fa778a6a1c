use launcher_core::errors::ConfigError;
use launcher_core::platform::{
    artifact_format, executable_name, locate, needs_exec_bit, platform_of_os, relative_path,
    ArtifactFormat, Platform,
};

#[test]
fn locate_supported_is_nonempty_and_pure() {
    for os in ["windows", "macos", "darwin", "linux"] {
        let first = locate(os, "/data").expect("supported platform must resolve");
        let second = locate(os, "/data").expect("supported platform must resolve");
        assert!(!first.0.is_empty());
        assert!(!first.1.is_empty());
        assert_eq!(first, second);
    }
}

#[test]
fn locate_windows_exact() {
    let (path, exe) = locate("windows", "/data").unwrap();
    assert_eq!(path, "/data/runtime/win/flashplayer.exe");
    assert_eq!(exe, "flashplayer.exe");
}

#[test]
fn locate_mac_exact() {
    for os in ["macos", "darwin"] {
        let (path, exe) = locate(os, "/home/u/.local/share/app").unwrap();
        assert_eq!(path, "/home/u/.local/share/app/runtime/mac/flashplayer");
        assert_eq!(exe, "flashplayer");
    }
}

#[test]
fn locate_linux_exact() {
    let (path, exe) = locate("linux", "/data").unwrap();
    assert_eq!(path, "/data/runtime/linux/flashplayer");
    assert_eq!(exe, "flashplayer");
}

#[test]
fn locate_unsupported_is_config_error() {
    for os in ["freebsd", "", "Windows", "win32", "solaris", "android"] {
        assert_eq!(
            locate(os, "/data"),
            Err(ConfigError::UnsupportedPlatform),
            "identifier {:?} must be rejected",
            os
        );
    }
}

#[test]
fn platform_table_entries() {
    assert_eq!(platform_of_os("windows"), Some(Platform::Windows));
    assert_eq!(platform_of_os("macos"), Some(Platform::Mac));
    assert_eq!(platform_of_os("darwin"), Some(Platform::Mac));
    assert_eq!(platform_of_os("linux"), Some(Platform::Linux));
    assert_eq!(platform_of_os("plan9"), None);

    assert_eq!(relative_path(Platform::Windows), "runtime/win/flashplayer.exe");
    assert_eq!(executable_name(Platform::Windows), "flashplayer.exe");
    assert_eq!(artifact_format(Platform::Windows), ArtifactFormat::Archive);
    assert!(!needs_exec_bit(Platform::Windows));

    assert_eq!(artifact_format(Platform::Mac), ArtifactFormat::Archive);
    assert!(needs_exec_bit(Platform::Mac));

    assert_eq!(artifact_format(Platform::Linux), ArtifactFormat::BareExecutable);
    assert!(needs_exec_bit(Platform::Linux));
}
