use kd::config::{KernelConfig, ScriptConfig, SystemConfig, XfsprogsConfig, XfstestsConfig};
use kd::utils::{is_executable, nurl_result, KdError, KdErrorKind};

#[test]
fn nurl_failure_is_a_runtime_error_naming_the_source() {
    let e = nurl_result("repo.git", "abc123", false, Some("ignored".to_string())).unwrap_err();
    assert!(matches!(e.kind, KdErrorKind::RuntimeError));
    assert_eq!(e.message, "command failed: repo.git at abc123");
}

#[test]
fn nurl_bad_output_is_a_runtime_error_naming_the_source() {
    let e = nurl_result("repo.git", "abc123", true, None).unwrap_err();
    assert!(matches!(e.kind, KdErrorKind::RuntimeError));
    assert_eq!(e.message, "Failed to parse Nurl output: repo.git at abc123");
}

#[test]
fn nurl_success_returns_stdout() {
    let out = nurl_result("repo.git", "abc123", true, Some("fetchGit { url = ...; }".to_string()))
        .unwrap();
    assert_eq!(out, "fetchGit { url = ...; }");
}

#[test]
fn kd_error_new_keeps_fields() {
    let e = KdError::new(KdErrorKind::RuntimeError, "boom".to_string());
    assert!(matches!(e.kind, KdErrorKind::RuntimeError));
    assert_eq!(e.message, "boom");
}

#[test]
fn executable_needs_file_and_exec_bit() {
    assert!(is_executable(true, 0o755));
    assert!(is_executable(true, 0o100));
    assert!(!is_executable(true, 0o644));
    assert!(!is_executable(false, 0o755));
}

#[test]
fn merge_replaces_present_sections() {
    let mut base = SystemConfig {
        kernel: Some(KernelConfig {
            version: Some("6.0".to_string()),
            ..Default::default()
        }),
        xfstests: Some(XfstestsConfig::default()),
        xfsprogs: None,
        script: Some(ScriptConfig { script: "old".to_string() }),
    };
    let incoming = SystemConfig {
        kernel: Some(KernelConfig {
            version: Some("6.1".to_string()),
            rev: Some("abc".to_string()),
            ..Default::default()
        }),
        xfstests: None,
        xfsprogs: Some(XfsprogsConfig {
            rev: Some("r".to_string()),
            ..Default::default()
        }),
        script: None,
    };
    base.merge(incoming);
    let k = base.kernel.unwrap();
    assert_eq!(k.version.as_deref(), Some("6.1"));
    assert_eq!(k.rev.as_deref(), Some("abc"));
    // sections the incoming config leaves unset are kept
    assert!(base.xfstests.is_some());
    assert_eq!(base.script.unwrap().script, "old");
    // sections only the incoming config carries are taken over
    assert_eq!(base.xfsprogs.unwrap().rev.as_deref(), Some("r"));
}

#[test]
fn merge_into_empty_takes_everything() {
    let mut base = SystemConfig::default();
    base.merge(SystemConfig {
        script: Some(ScriptConfig { script: "run".to_string() }),
        ..Default::default()
    });
    assert_eq!(base.script.unwrap().script, "run");
    assert!(base.kernel.is_none());
}
