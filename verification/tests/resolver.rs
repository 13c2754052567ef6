use twbm_installer::platform::{Arch, Os};
use twbm_installer::resolver::{
    build_download_url, parse_version_response, portable_artifact_name, version_endpoint,
};

#[test]
fn version_endpoint_is_fixed() {
    assert_eq!(
        version_endpoint(),
        "https://github.com/mq1/TinyWiiBackupManager/releases/latest/download/version.txt"
    );
}

#[test]
fn download_url_encodes_version_twice_with_tokens() {
    let url = build_download_url("3.2.1", Os::Windows, Arch::X86_64);
    assert_eq!(
        url,
        "https://github.com/mq1/TinyWiiBackupManager/releases/download/v3.2.1/TinyWiiBackupManager-v3.2.1-windows-x86_64.zip"
    );
}

#[test]
fn download_url_legacy_variant() {
    let url = build_download_url("1.0.0", Os::Windows7, Arch::I686);
    assert_eq!(
        url,
        "https://github.com/mq1/TinyWiiBackupManager/releases/download/v1.0.0/TinyWiiBackupManager-v1.0.0-windows7-x86.zip"
    );
}

#[test]
fn download_url_v3_and_arm_variants() {
    assert_eq!(
        build_download_url("2.5.0", Os::Windows, Arch::X86_64v3),
        "https://github.com/mq1/TinyWiiBackupManager/releases/download/v2.5.0/TinyWiiBackupManager-v2.5.0-windows-x86_64-v3.zip"
    );
    assert_eq!(
        build_download_url("2.5.0", Os::Windows, Arch::Aarch64),
        "https://github.com/mq1/TinyWiiBackupManager/releases/download/v2.5.0/TinyWiiBackupManager-v2.5.0-windows-arm64.zip"
    );
}

#[test]
fn version_response_is_trimmed() {
    assert_eq!(parse_version_response("3.2.1"), "3.2.1");
    assert_eq!(parse_version_response("  3.2.1\r\n"), "3.2.1");
    assert_eq!(parse_version_response("\n\t 3.2.1 \t\n"), "3.2.1");
    assert_eq!(parse_version_response(""), "");
    assert_eq!(parse_version_response(" \r\n\t"), "");
    assert_eq!(parse_version_response("a b"), "a b");
}

#[test]
fn portable_name_embeds_version() {
    assert_eq!(
        portable_artifact_name("3.2.1"),
        "TinyWiiBackupManager-v3.2.1-portable.exe"
    );
}
