use kd::config::{Config, KernelConfig, KernelHeaders, XfsprogsConfig, XfstestsConfig};
use kd::utils::KdErrorKind;

fn kernel(
    prebuild: Option<&str>,
    version: Option<&str>,
    rev: Option<&str>,
    repo: Option<&str>,
) -> KernelConfig {
    KernelConfig {
        prebuild: prebuild.map(|s| s.to_string()),
        version: version.map(|s| s.to_string()),
        rev: rev.map(|s| s.to_string()),
        repo: repo.map(|s| s.to_string()),
        flavors: None,
        config: None,
    }
}

fn headers(version: Option<&str>, rev: Option<&str>, repo: Option<&str>) -> KernelHeaders {
    KernelHeaders {
        version: version.map(|s| s.to_string()),
        rev: rev.map(|s| s.to_string()),
        repo: repo.map(|s| s.to_string()),
    }
}

#[test]
fn empty_config_validates() {
    let c = Config::default();
    assert!(c.validate(true, true).is_ok());
}

#[test]
fn repo_without_rev_fails() {
    let mut c = Config::default();
    c.kernel = Some(kernel(None, Some("6.1"), None, Some("https://example.org/linux.git")));
    let e = c.validate(true, true).unwrap_err();
    assert!(matches!(e.kind, KdErrorKind::ConfigError));
    assert_eq!(e.message, "While using 'repo' rev/version need to be set");
}

#[test]
fn repo_without_version_fails() {
    let mut c = Config::default();
    c.kernel = Some(kernel(None, None, Some("abc"), Some("https://example.org/linux.git")));
    let e = c.validate(true, true).unwrap_err();
    assert!(matches!(e.kind, KdErrorKind::ConfigError));
    assert_eq!(e.message, "While using 'repo' rev/version need to be set");
}

#[test]
fn rev_without_version_fails() {
    let mut c = Config::default();
    c.kernel = Some(kernel(None, None, Some("abc"), None));
    let e = c.validate(true, true).unwrap_err();
    assert!(matches!(e.kind, KdErrorKind::ConfigError));
    assert_eq!(e.message, "Revision can not be used without 'version'");
}

#[test]
fn rev_and_version_without_repo_validates() {
    let mut c = Config::default();
    c.kernel = Some(kernel(None, Some("6.1"), Some("abc"), None));
    assert!(c.validate(true, true).is_ok());
}

#[test]
fn repo_rev_version_validates() {
    let mut c = Config::default();
    c.kernel = Some(kernel(None, Some("6.1"), Some("abc"), Some("https://example.org/l.git")));
    assert!(c.validate(true, true).is_ok());
}

#[test]
fn missing_prebuild_path_fails_naming_it() {
    let mut c = Config::default();
    c.kernel = Some(kernel(Some("/no/such/kernel"), None, None, None));
    let e = c.validate(false, true).unwrap_err();
    assert!(matches!(e.kind, KdErrorKind::ConfigError));
    assert_eq!(e.message, "Kernel doesn't exists: /no/such/kernel");
}

#[test]
fn existing_prebuild_path_validates() {
    let mut c = Config::default();
    c.kernel = Some(kernel(Some("./kernel"), None, None, None));
    assert!(c.validate(true, true).is_ok());
}

#[test]
fn prebuild_note_condition() {
    let mut c = Config::default();
    c.kernel = Some(kernel(Some("./kernel"), Some("6.1"), Some("abc"), None));
    assert!(c.prebuild_note_applies());
    assert!(c.validate(true, true).is_ok());

    let mut quiet = Config::default();
    quiet.kernel = Some(kernel(Some("./kernel"), None, None, None));
    assert!(!quiet.prebuild_note_applies());
}

#[test]
fn xfsprogs_headers_missing_repo() {
    let mut c = Config::default();
    c.xfsprogs = Some(XfsprogsConfig {
        repo: None,
        rev: None,
        kernel_headers: Some(headers(Some("6.1"), Some("abc"), None)),
    });
    let e = c.validate(true, true).unwrap_err();
    assert!(matches!(e.kind, KdErrorKind::ConfigError));
    assert_eq!(e.message, "You are missing 'repo' parameter for kernel headers");
}

#[test]
fn xfsprogs_headers_missing_rev() {
    let mut c = Config::default();
    c.xfsprogs = Some(XfsprogsConfig {
        repo: None,
        rev: None,
        kernel_headers: Some(headers(Some("6.1"), None, Some("r"))),
    });
    let e = c.validate(true, true).unwrap_err();
    assert!(matches!(e.kind, KdErrorKind::ConfigError));
    assert_eq!(e.message, "You are missing 'rev' parameter for kernel headers");
}

#[test]
fn xfsprogs_headers_missing_version() {
    let mut c = Config::default();
    c.xfsprogs = Some(XfsprogsConfig {
        repo: None,
        rev: None,
        kernel_headers: Some(headers(None, Some("abc"), Some("r"))),
    });
    let e = c.validate(true, true).unwrap_err();
    assert!(matches!(e.kind, KdErrorKind::ConfigError));
    assert_eq!(e.message, "You are missing 'version' parameter for kernel headers");
}

#[test]
fn xfstests_headers_missing_repo() {
    let mut c = Config::default();
    let mut x = XfstestsConfig::default();
    x.kernel_headers = Some(headers(Some("6.1"), Some("abc"), None));
    c.xfstests = Some(x);
    let e = c.validate(true, true).unwrap_err();
    assert!(matches!(e.kind, KdErrorKind::ConfigError));
    assert_eq!(e.message, "You are missing 'repo' parameter for kernel headers");
}

#[test]
fn xfstests_headers_missing_rev() {
    let mut c = Config::default();
    let mut x = XfstestsConfig::default();
    x.kernel_headers = Some(headers(Some("6.1"), None, Some("r")));
    c.xfstests = Some(x);
    let e = c.validate(true, true).unwrap_err();
    assert!(matches!(e.kind, KdErrorKind::ConfigError));
    assert_eq!(e.message, "You are missing 'rev' parameter for kernel headers");
}

#[test]
fn xfstests_headers_missing_version() {
    let mut c = Config::default();
    let mut x = XfstestsConfig::default();
    x.kernel_headers = Some(headers(None, Some("abc"), Some("r")));
    c.xfstests = Some(x);
    let e = c.validate(true, true).unwrap_err();
    assert!(matches!(e.kind, KdErrorKind::ConfigError));
    assert_eq!(e.message, "You are missing 'version' parameter for kernel headers");
}

#[test]
fn complete_headers_validate() {
    let mut c = Config::default();
    let mut x = XfstestsConfig::default();
    x.kernel_headers = Some(headers(Some("6.1"), Some("abc"), Some("r")));
    c.xfstests = Some(x);
    c.xfsprogs = Some(XfsprogsConfig {
        repo: None,
        rev: None,
        kernel_headers: Some(headers(Some("6.1"), Some("abc"), Some("r"))),
    });
    assert!(c.validate(true, true).is_ok());
}

#[test]
fn missing_hooks_path_fails() {
    let mut c = Config::default();
    let mut x = XfstestsConfig::default();
    x.hooks = Some("./hooks.sh".to_string());
    c.xfstests = Some(x);
    let e = c.validate(true, false).unwrap_err();
    assert!(matches!(e.kind, KdErrorKind::ConfigError));
    assert_eq!(e.message, "Failed to find hooks file: ./hooks.sh");
}

#[test]
fn existing_hooks_path_validates() {
    let mut c = Config::default();
    let mut x = XfstestsConfig::default();
    x.hooks = Some("./hooks.sh".to_string());
    c.xfstests = Some(x);
    assert!(c.validate(true, true).is_ok());
}

#[test]
fn xfsprogs_headers_error_comes_first() {
    // Both records are incomplete; the xfsprogs one is checked first.
    let mut c = Config::default();
    let mut x = XfstestsConfig::default();
    x.kernel_headers = Some(headers(Some("6.1"), None, Some("r")));
    c.xfstests = Some(x);
    c.xfsprogs = Some(XfsprogsConfig {
        repo: None,
        rev: None,
        kernel_headers: Some(headers(None, Some("abc"), Some("r"))),
    });
    let e = c.validate(true, true).unwrap_err();
    assert_eq!(e.message, "You are missing 'version' parameter for kernel headers");
}
