use kd::config::Config;
use kd::utils::KdErrorKind;

const XFSTESTS_UPSTREAM: &str = "git://git.kernel.org/pub/scm/fs/xfs/xfstests-dev.git";
const XFSPROGS_UPSTREAM: &str = "git://git.kernel.org/pub/scm/fs/xfs/xfsprogs-dev.git";

fn roundtrip(text: &str) -> Config {
    let first = Config::load_from_str(text).unwrap();
    let serialized = first.to_toml_string();
    let second = Config::load_from_str(&serialized).unwrap();
    assert_eq!(first, second, "round trip changed the config for input:\n{text}");
    first
}

#[test]
fn empty_document_loads_with_defaults() {
    let c = Config::load_from_str("").unwrap();
    assert_eq!(c.name.as_deref(), Some("default"));
    assert!(c.packages.is_none());
    assert!(c.kernel.is_none());
    assert!(c.xfstests.is_none());
}

#[test]
fn syntax_error_is_a_toml_error() {
    let e = Config::load_from_str("name = [").unwrap_err();
    assert!(matches!(e.kind, KdErrorKind::TOMLError(_)));
    assert_eq!(e.message, "invalid TOML");
}

#[test]
fn wrong_type_is_a_toml_error() {
    let e = Config::load_from_str("name = 3").unwrap_err();
    assert!(matches!(e.kind, KdErrorKind::TOMLError(_)));
    let e = Config::load_from_str("kernel = \"x\"").unwrap_err();
    assert!(matches!(e.kind, KdErrorKind::TOMLError(_)));
    let e = Config::load_from_str("packages = [1, 2]").unwrap_err();
    assert!(matches!(e.kind, KdErrorKind::TOMLError(_)));
}

#[test]
fn unknown_keys_are_ignored() {
    let c = Config::load_from_str("future_option = \"x\"\nname = \"n\"").unwrap();
    assert_eq!(c.name.as_deref(), Some("n"));
}

#[test]
fn xfstests_repo_defaults_to_upstream() {
    let c = Config::load_from_str("[xfstests]\nrev = \"abc123\"").unwrap();
    let x = c.xfstests.unwrap();
    assert_eq!(x.repo.as_deref(), Some(XFSTESTS_UPSTREAM));
    assert_eq!(x.rev.as_deref(), Some("abc123"));
}

#[test]
fn xfsprogs_repo_defaults_to_upstream() {
    let c = Config::load_from_str("[xfsprogs]\nrev = \"abc\"").unwrap();
    let x = c.xfsprogs.unwrap();
    assert_eq!(x.repo.as_deref(), Some(XFSPROGS_UPSTREAM));
}

#[test]
fn kernel_repo_is_not_defaulted_at_load() {
    let c = Config::load_from_str("[kernel]\nversion = \"6.1\"\nrev = \"abc\"").unwrap();
    let k = c.kernel.unwrap();
    assert!(k.repo.is_none());
}

#[test]
fn kernel_config_keeps_document_order_and_renderings() {
    let text = "[kernel.config]\nCONFIG_B = \"y\"\nCONFIG_A = \"n\"\nCONFIG_N = 128\nCONFIG_F = true";
    let c = Config::load_from_str(text).unwrap();
    let opts = c.kernel.unwrap().config.unwrap();
    let names: Vec<&str> = opts.iter().map(|o| o.name.as_str()).collect();
    assert_eq!(names, vec!["CONFIG_B", "CONFIG_A", "CONFIG_N", "CONFIG_F"]);
    assert_eq!(opts[0].value, "\"y\"");
    assert_eq!(opts[2].value, "128");
    assert_eq!(opts[3].value, "true");
}

#[test]
fn roundtrip_minimal() {
    roundtrip("");
    roundtrip("name = \"env1\"");
    roundtrip("packages = [\"vim\", \"git\"]");
}

#[test]
fn roundtrip_kernel_section() {
    let c = roundtrip(
        "[kernel]\nprebuild = \"./k\"\nversion = \"6.1\"\nrev = \"abc\"\nrepo = \"r\"\nflavors = [\"xfs\", \"debug\"]\n[kernel.config]\nCONFIG_XFS_FS = \"y\"\nCONFIG_NR_CPUS = 8",
    );
    let k = c.kernel.unwrap();
    assert_eq!(k.prebuild.as_deref(), Some("./k"));
    assert_eq!(k.flavors.unwrap(), vec!["xfs".to_string(), "debug".to_string()]);
    assert_eq!(k.config.unwrap().len(), 2);
}

#[test]
fn roundtrip_full_document() {
    roundtrip(
        "name = \"full\"\npackages = [\"vim\"]\n[kernel]\nversion = \"6.1\"\nrev = \"abc\"\n[kernel.config]\nCONFIG_XFS_FS = \"y\"\n[xfstests]\nrepo = \"r1\"\nrev = \"v1\"\nargs = \"-g auto\"\nextra_env = \"A=1\"\nfilesystem = \"xfs\"\nhooks = \"./hooks\"\n[xfstests.devices]\ntest = \"/dev/vdb\"\nscratch = \"/dev/vdc\"\n[xfstests.kernel_headers]\nversion = \"6.2\"\nrev = \"hr\"\nrepo = \"hrepo\"\n[xfsprogs]\nrepo = \"r2\"\nrev = \"v2\"\n[xfsprogs.kernel_headers]\nversion = \"6.3\"\nrev = \"hr2\"\nrepo = \"hrepo2\"\n[script]\nscript = \"echo hi\"\n[qemu]\noptions = [\"-m 2G\"]",
    );
}

#[test]
fn roundtrip_devices_partial() {
    let c = roundtrip("[xfstests]\n[xfstests.devices]\ntest_rtdev = \"/dev/vdd\"\nscratch_logdev = \"/dev/vde\"");
    let d = c.xfstests.unwrap().devices.unwrap();
    assert_eq!(d.test_rtdev.as_deref(), Some("/dev/vdd"));
    assert_eq!(d.scratch_logdev.as_deref(), Some("/dev/vde"));
    assert!(d.test.is_none());
}

#[test]
fn roundtrip_escaped_strings() {
    let c = roundtrip("name = \"a\\\"b\\\\c\"\n[xfstests]\nextra_env = \"A=1\\nB=2\\tend\"");
    assert_eq!(c.name.as_deref(), Some("a\"b\\c"));
    assert_eq!(c.xfstests.unwrap().extra_env.as_deref(), Some("A=1\nB=2\tend"));
}

#[test]
fn roundtrip_empty_sections() {
    let c = roundtrip("[kernel]\n[qemu]\n[xfstests]");
    assert!(c.kernel.is_some());
    assert!(c.qemu.is_some());
    assert!(c.xfstests.is_some());
}

#[test]
fn serialized_form_is_plain_toml() {
    let c = Config::load_from_str("name = \"n\"\n[script]\nscript = \"echo\"").unwrap();
    let s = c.to_toml_string();
    assert!(s.contains("name = \"n\"\n"));
    assert!(s.contains("[script]\nscript = \"echo\"\n"));
}

#[test]
fn missing_script_body_is_an_error() {
    let e = Config::load_from_str("[script]\nother = 1").unwrap_err();
    assert!(matches!(e.kind, KdErrorKind::TOMLError(_)));
}
