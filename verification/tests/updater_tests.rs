use tcc_launcher::updater::{
    background_reaction, check_digest, check_failed_message, check_for_updates,
    downloading_message, installer_file_name, interactive_reaction, platform_key, to_hex_lower,
    up_to_date_message, update_failed_message, verify_download, PlatformRelease, UpdateError,
    UpdateInfo, UpdateManifest, UpdatePrompt,
};

fn entry(key: &str, url: Option<&str>, sha: Option<&str>) -> PlatformRelease {
    PlatformRelease {
        key: key.to_string(),
        url: url.map(|s| s.to_string()),
        sha256: sha.map(|s| s.to_string()),
    }
}

fn manifest(version: Option<&str>, platforms: Vec<PlatformRelease>) -> UpdateManifest {
    UpdateManifest {
        version: version.map(|s| s.to_string()),
        notes: Some("Bug fixes".to_string()),
        platforms,
    }
}

fn info(sha: Option<&str>) -> UpdateInfo {
    UpdateInfo {
        version: "1.0.0".to_string(),
        notes: None,
        url: "https://example.com/a/setup.exe".to_string(),
        sha256: sha.map(|s| s.to_string()),
    }
}

const ABC_SHA256: &str = "ba7816bf8f01cfea414140de5dae2223b00361a396177a9cb410ff61f20015ad";

#[test]
fn finds_update_for_platform() {
    let m = manifest(
        Some("1.3.0"),
        vec![
            entry("linux-x64", Some("https://e/linux.tar"), None),
            entry("windows-x64", Some("https://e/win.exe"), Some("AB")),
        ],
    );
    let r = check_for_updates(&m, "1.2.9", "windows-x64").unwrap().unwrap();
    assert_eq!(r.version, "1.3.0");
    assert_eq!(r.url, "https://e/win.exe");
    assert_eq!(r.sha256.as_deref(), Some("AB"));
    assert_eq!(r.notes.as_deref(), Some("Bug fixes"));
}

#[test]
fn falls_back_to_long_architecture_key() {
    let m = manifest(Some("2.0.0"), vec![entry("windows-x86_64", Some("https://e/long.exe"), None)]);
    let r = check_for_updates(&m, "1.0.0", "windows-x64").unwrap().unwrap();
    assert_eq!(r.url, "https://e/long.exe");
    assert_eq!(r.sha256, None);
}

#[test]
fn exact_key_wins_over_long_key() {
    let m = manifest(
        Some("2.0.0"),
        vec![
            entry("windows-x86_64", Some("https://e/long.exe"), None),
            entry("windows-x64", Some("https://e/short.exe"), None),
        ],
    );
    let r = check_for_updates(&m, "1.0.0", "windows-x64").unwrap().unwrap();
    assert_eq!(r.url, "https://e/short.exe");
}

#[test]
fn no_update_when_not_newer() {
    let m = manifest(Some("1.2.3"), vec![]);
    assert!(check_for_updates(&m, "1.2.3", "windows-x64").unwrap().is_none());
    assert!(check_for_updates(&m, "v1.3.0", "windows-x64").unwrap().is_none());
}

#[test]
fn missing_version_is_an_error() {
    let m = manifest(None, vec![entry("windows-x64", Some("u"), None)]);
    assert!(matches!(check_for_updates(&m, "0.1.0", "windows-x64"), Err(UpdateError::MissingVersion)));
}

#[test]
fn missing_platform_is_an_error() {
    let m = manifest(Some("9.0.0"), vec![entry("windows-x64", Some("u"), None)]);
    match check_for_updates(&m, "0.1.0", "linux-x64") {
        Err(UpdateError::NoPlatform(k)) => assert_eq!(k, "linux-x64"),
        other => panic!("unexpected {:?}", other),
    }
}

#[test]
fn missing_url_is_an_error() {
    let m = manifest(Some("9.0.0"), vec![entry("macos-aarch64", None, Some("00"))]);
    assert!(matches!(check_for_updates(&m, "0.1.0", "macos-aarch64"), Err(UpdateError::MissingUrl)));
}

#[test]
fn platform_key_joins_os_and_arch() {
    assert_eq!(platform_key("windows", "x64"), "windows-x64");
    assert_eq!(platform_key("", ""), "-");
}

#[test]
fn hex_is_lowercase_two_digits_per_byte() {
    assert_eq!(to_hex_lower(&[0x00, 0xab, 0x10, 0xff]), "00ab10ff");
    assert_eq!(to_hex_lower(&[]), "");
}

#[test]
fn digest_check_ignores_ascii_case() {
    assert!(check_digest(&None, &[1, 2]).is_ok());
    assert!(check_digest(&Some("0AFF".to_string()), &[0x0a, 0xff]).is_ok());
    match check_digest(&Some("0aef".to_string()), &[0x0a, 0xff]) {
        Err(UpdateError::ChecksumMismatch { expected, got }) => {
            assert_eq!(expected, "0aef");
            assert_eq!(got, "0aff");
        }
        other => panic!("unexpected {:?}", other),
    }
    assert!(check_digest(&Some("0aff00".to_string()), &[0x0a, 0xff]).is_err());
}

#[test]
fn download_is_checked_with_sha256() {
    assert!(verify_download(&info(Some(ABC_SHA256)), b"abc").is_ok());
    assert!(verify_download(&info(Some(&ABC_SHA256.to_uppercase())), b"abc").is_ok());
    assert!(verify_download(&info(None), b"anything").is_ok());
    match verify_download(&info(Some(ABC_SHA256)), b"abd") {
        Err(UpdateError::ChecksumMismatch { expected, got }) => {
            assert_eq!(expected, ABC_SHA256);
            assert_ne!(got, ABC_SHA256);
            assert_eq!(got.len(), 64);
        }
        other => panic!("unexpected {:?}", other),
    }
}

#[test]
fn installer_name_is_last_url_segment() {
    assert_eq!(installer_file_name("https://example.com/a/setup.exe"), "setup.exe");
    assert_eq!(installer_file_name("setup.exe"), "setup.exe");
    assert_eq!(installer_file_name("https://example.com/dir/"), "");
}

#[test]
fn error_messages() {
    assert_eq!(UpdateError::MissingVersion.message(), "update manifest is missing `version`");
    assert_eq!(
        UpdateError::NoPlatform("linux-x64".to_string()).message(),
        "no update published for platform `linux-x64`"
    );
    assert_eq!(UpdateError::MissingUrl.message(), "manifest entry is missing `url`");
    assert_eq!(
        UpdateError::ChecksumMismatch { expected: "aa".to_string(), got: "bb".to_string() }.message(),
        "checksum mismatch: expected aa, got bb"
    );
}

#[test]
fn dialog_messages() {
    assert_eq!(
        downloading_message("1.4.0"),
        "Downloading update to 1.4.0...\nThe launcher will restart when it finishes."
    );
    assert_eq!(update_failed_message("1.4.0", "boom"), "Update to 1.4.0 failed:\nboom");
    assert_eq!(up_to_date_message("1.3.0"), "You are already on the latest version (1.3.0).");
    assert_eq!(check_failed_message("offline"), "Update check failed:\noffline");
}

#[test]
fn manual_check_reactions() {
    match interactive_reaction(Ok(Some(info(None))), "0.9.0") {
        UpdatePrompt::Install(i) => assert_eq!(i.version, "1.0.0"),
        other => panic!("unexpected {:?}", other),
    }
    match interactive_reaction(Ok(None), "0.9.0") {
        UpdatePrompt::Tell(m) => assert_eq!(m, "You are already on the latest version (0.9.0)."),
        other => panic!("unexpected {:?}", other),
    }
    match interactive_reaction(Err("no network".to_string()), "0.9.0") {
        UpdatePrompt::Tell(m) => assert_eq!(m, "Update check failed:\nno network"),
        other => panic!("unexpected {:?}", other),
    }
}

#[test]
fn background_check_reactions() {
    assert!(background_reaction(Ok(Some(info(None)))).is_some());
    assert!(background_reaction(Ok(None)).is_none());
    assert!(background_reaction(Err("x".to_string())).is_none());
}
