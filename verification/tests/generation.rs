use kd::config::{
    Config, KernelConfig, KernelConfigOption, KernelHeaders, QemuConfig, XfsprogsConfig,
    XfstestsConfig, XfstestsDevices,
};
use kd::generate::{fetch_plan, fetched_matches, render, FetchPurpose, Fetched};
use kd::utils::KdErrorKind;

const XFSTESTS_UPSTREAM: &str = "git://git.kernel.org/pub/scm/fs/xfs/xfstests-dev.git";
const XFSPROGS_UPSTREAM: &str = "git://git.kernel.org/pub/scm/fs/xfs/xfsprogs-dev.git";
const KERNEL_UPSTREAM: &str = "git@github.com:torvalds/linux.git";

#[test]
fn empty_config_renders_scaffold_only() {
    let c = Config::default();
    assert!(fetch_plan(&c).is_empty());
    let g = render(&c, "/cwd", &Fetched::default()).unwrap();
    assert_eq!(
        g.text,
        "name = \"default\";\nkernel = {\n};\nkernel.kconfig = with pkgs.lib.kernel; {\n};\n"
    );
    assert!(g.envs.is_empty());
}

#[test]
fn render_is_deterministic() {
    let mut c = Config::default();
    c.name = Some("env1".to_string());
    c.packages = Some(vec!["vim".to_string(), "git".to_string()]);
    let mut x = XfstestsConfig::default();
    x.rev = Some("abc123".to_string());
    x.args = Some("-g auto".to_string());
    c.xfstests = Some(x);
    let f = Fetched {
        xfstests_src: Some("SRC_EXPR".to_string()),
        ..Default::default()
    };
    let first = render(&c, "/cwd", &f).unwrap();
    let second = render(&c, "/cwd", &f).unwrap();
    assert_eq!(first.text, second.text);
    assert_eq!(first.envs, second.envs);
}

#[test]
fn xfstests_rev_without_repo_fetches_from_default_upstream() {
    let mut c = Config::default();
    let mut x = XfstestsConfig::default();
    x.rev = Some("abc123".to_string());
    c.xfstests = Some(x);
    let plan = fetch_plan(&c);
    assert_eq!(plan.len(), 1);
    assert_eq!(plan[0].purpose, FetchPurpose::XfstestsSrc);
    assert_eq!(plan[0].repo, XFSTESTS_UPSTREAM);
    assert_eq!(plan[0].rev, "abc123");

    let f = Fetched {
        xfstests_src: Some("FETCHED_EXPR".to_string()),
        ..Default::default()
    };
    let g = render(&c, "/cwd", &f).unwrap();
    assert!(g.text.contains("services.xfstests.src = FETCHED_EXPR;\n"));
}

#[test]
fn explicit_xfstests_repo_is_used() {
    let mut c = Config::default();
    let mut x = XfstestsConfig::default();
    x.repo = Some("https://example.org/xfstests.git".to_string());
    x.rev = Some("deadbeef".to_string());
    c.xfstests = Some(x);
    let plan = fetch_plan(&c);
    assert_eq!(plan.len(), 1);
    assert_eq!(plan[0].repo, "https://example.org/xfstests.git");
}

#[test]
fn xfsprogs_rev_without_repo_fetches_from_default_upstream() {
    let mut c = Config::default();
    c.xfsprogs = Some(XfsprogsConfig {
        repo: None,
        rev: Some("cafe".to_string()),
        kernel_headers: None,
    });
    let plan = fetch_plan(&c);
    assert_eq!(plan.len(), 1);
    assert_eq!(plan[0].purpose, FetchPurpose::XfsprogsSrc);
    assert_eq!(plan[0].repo, XFSPROGS_UPSTREAM);
    let f = Fetched {
        xfsprogs_src: Some("PROGS_EXPR".to_string()),
        ..Default::default()
    };
    let g = render(&c, "/cwd", &f).unwrap();
    assert!(g.text.contains("services.xfsprogs.src = PROGS_EXPR;\n"));
}

#[test]
fn kernel_rev_and_version_fetch_from_default_upstream() {
    let mut c = Config::default();
    c.kernel = Some(KernelConfig {
        version: Some("6.1".to_string()),
        rev: Some("abc".to_string()),
        ..Default::default()
    });
    let plan = fetch_plan(&c);
    assert_eq!(plan.len(), 1);
    assert_eq!(plan[0].purpose, FetchPurpose::KernelSrc);
    assert_eq!(plan[0].repo, KERNEL_UPSTREAM);
    assert_eq!(plan[0].rev, "abc");
    let f = Fetched {
        kernel_src: Some("KSRC".to_string()),
        ..Default::default()
    };
    let g = render(&c, "/cwd", &f).unwrap();
    assert!(g.text.contains("kernel = {\nversion = \"6.1\";\nsrc = KSRC;\n};\n"));
}

#[test]
fn fetch_order_is_xfstests_xfsprogs_kernel() {
    let mut c = Config::default();
    let mut x = XfstestsConfig::default();
    x.rev = Some("r1".to_string());
    x.kernel_headers = Some(KernelHeaders {
        version: Some("6.1".to_string()),
        rev: Some("r2".to_string()),
        repo: Some("hrepo".to_string()),
    });
    c.xfstests = Some(x);
    c.xfsprogs = Some(XfsprogsConfig {
        repo: Some("prepo".to_string()),
        rev: Some("r3".to_string()),
        kernel_headers: Some(KernelHeaders {
            version: Some("6.2".to_string()),
            rev: Some("r4".to_string()),
            repo: Some("hrepo2".to_string()),
        }),
    });
    c.kernel = Some(KernelConfig {
        version: Some("6.3".to_string()),
        rev: Some("r5".to_string()),
        ..Default::default()
    });
    let plan = fetch_plan(&c);
    let purposes: Vec<FetchPurpose> = plan.iter().map(|q| q.purpose).collect();
    assert_eq!(
        purposes,
        vec![
            FetchPurpose::XfstestsSrc,
            FetchPurpose::XfstestsHeaders,
            FetchPurpose::XfsprogsSrc,
            FetchPurpose::XfsprogsHeaders,
            FetchPurpose::KernelSrc,
        ]
    );
    assert_eq!(plan[1].repo, "hrepo");
    assert_eq!(plan[1].rev, "r2");
    assert_eq!(plan[3].repo, "hrepo2");
}

#[test]
fn kconfig_prefix_is_stripped_and_value_unquoted() {
    let mut c = Config::default();
    c.kernel = Some(KernelConfig {
        config: Some(vec![KernelConfigOption {
            name: "CONFIG_XFS_FS".to_string(),
            value: "\"y\"".to_string(),
        }]),
        ..Default::default()
    });
    let g = render(&c, "/cwd", &Fetched::default()).unwrap();
    assert!(g.text.contains("kernel.kconfig = with pkgs.lib.kernel; {\nXFS_FS = y;\n};\n"));
}

#[test]
fn kconfig_numeric_value_is_inserted_bare() {
    let mut c = Config::default();
    c.kernel = Some(KernelConfig {
        config: Some(vec![KernelConfigOption {
            name: "CONFIG_NR_CPUS".to_string(),
            value: "128".to_string(),
        }]),
        ..Default::default()
    });
    let g = render(&c, "/cwd", &Fetched::default()).unwrap();
    assert!(g.text.contains("NR_CPUS = 128;\n"));
}

#[test]
fn kconfig_key_without_prefix_fails_generation() {
    let mut c = Config::default();
    c.kernel = Some(KernelConfig {
        config: Some(vec![KernelConfigOption {
            name: "XFS_FS".to_string(),
            value: "\"y\"".to_string(),
        }]),
        ..Default::default()
    });
    let e = render(&c, "/cwd", &Fetched::default()).unwrap_err();
    assert!(matches!(e.kind, KdErrorKind::ConfigError));
    assert_eq!(e.message, "Option doesn't start with CONFIG_");
}

#[test]
fn prebuild_suppresses_kernel_source_and_records_env() {
    let mut c = Config::default();
    c.kernel = Some(KernelConfig {
        prebuild: Some("build/kernel".to_string()),
        version: Some("6.1".to_string()),
        rev: Some("abc".to_string()),
        ..Default::default()
    });
    assert!(c.validate(true, true).is_ok());
    assert!(c.prebuild_note_applies());
    assert!(fetch_plan(&c).is_empty());
    let g = render(&c, "/cur", &Fetched::default()).unwrap();
    assert!(g.text.contains("kernel = {\n};\n"));
    assert!(!g.text.contains("version ="));
    assert_eq!(g.envs.len(), 1);
    assert_eq!(g.envs[0].0, "NIXPKGS_QEMU_KERNEL_default");
    assert_eq!(g.envs[0].1, "/cur/build/kernel");
}

#[test]
fn absolute_prebuild_path_is_kept() {
    let mut c = Config::default();
    c.name = Some("myenv".to_string());
    c.kernel = Some(KernelConfig {
        prebuild: Some("/abs/kernel".to_string()),
        ..Default::default()
    });
    let g = render(&c, "/cur", &Fetched::default()).unwrap();
    assert_eq!(g.envs.len(), 1);
    assert_eq!(g.envs[0].0, "NIXPKGS_QEMU_KERNEL_myenv");
    assert_eq!(g.envs[0].1, "/abs/kernel");
}

#[test]
fn packages_render_as_package_set() {
    let mut c = Config::default();
    c.packages = Some(vec!["vim".to_string(), "git".to_string()]);
    let g = render(&c, "/cwd", &Fetched::default()).unwrap();
    assert!(g.text.contains("environment.systemPackages = with pkgs; [vim\ngit\n];\n"));
}

#[test]
fn qemu_options_render_as_quoted_list() {
    let mut c = Config::default();
    c.qemu = Some(QemuConfig {
        options: Some(vec!["-m 2G".to_string(), "-smp 4".to_string()]),
    });
    let g = render(&c, "/cwd", &Fetched::default()).unwrap();
    assert!(g.text.contains("virtualisation.qemu.options = [\"-m 2G\"\n\"-smp 4\"\n];\n"));
}

#[test]
fn flavors_render_space_joined() {
    let mut c = Config::default();
    c.kernel = Some(KernelConfig {
        flavors: Some(vec!["xfs".to_string(), "debug".to_string()]),
        ..Default::default()
    });
    let g = render(&c, "/cwd", &Fetched::default()).unwrap();
    assert!(g.text.contains("kernel = {\nflavors = with pkgs.kconfigs; [xfs debug];\n};\n"));
}

#[test]
fn xfstests_fields_render() {
    let mut c = Config::default();
    let mut x = XfstestsConfig::default();
    x.args = Some("-g auto".to_string());
    x.extra_env = Some("TEST_DEV_TYPE=ssd".to_string());
    x.filesystem = Some("xfs".to_string());
    x.hooks = Some("./hooks".to_string());
    x.devices = Some(XfstestsDevices {
        test: Some("/dev/vdb".to_string()),
        scratch: Some("/dev/vdc".to_string()),
        ..Default::default()
    });
    c.xfstests = Some(x);
    let g = render(&c, "/cwd", &Fetched::default()).unwrap();
    assert!(g.text.contains("services.xfstests.arguments = \"-g auto\";\n"));
    assert!(g.text.contains("services.xfstests.test-dev = \"/dev/vdb\";\n"));
    assert!(g.text.contains("services.xfstests.scratch-dev = \"/dev/vdc\";\n"));
    assert!(g.text.contains("services.xfstests.filesystem = \"xfs\";\n"));
    assert!(g.text.contains("services.xfstests.extraEnv = ''\nTEST_DEV_TYPE=ssd\n'';\n"));
    assert!(g.text.contains("services.xfstests.hooks = ./hooks;\n"));
}

#[test]
fn kernel_headers_render_build_expression() {
    let mut c = Config::default();
    let mut x = XfstestsConfig::default();
    x.kernel_headers = Some(KernelHeaders {
        version: Some("6.1".to_string()),
        rev: Some("r2".to_string()),
        repo: Some("hrepo".to_string()),
    });
    c.xfstests = Some(x);
    let f = Fetched {
        xfstests_headers_src: Some("HSRC".to_string()),
        ..Default::default()
    };
    let g = render(&c, "/cwd", &f).unwrap();
    assert!(g.text.contains(
        "services.xfstests.kernelHeaders = kd.lib.buildKernelHeaders { src = HSRC; version = \"6.1\"; };\n"
    ));
}

#[test]
fn fetched_matches_mirrors_the_plan() {
    let mut c = Config::default();
    let mut x = XfstestsConfig::default();
    x.rev = Some("abc".to_string());
    c.xfstests = Some(x);
    let missing = Fetched::default();
    assert!(!fetched_matches(&c, &missing));
    let extra = Fetched {
        xfstests_src: Some("S".to_string()),
        kernel_src: Some("K".to_string()),
        ..Default::default()
    };
    assert!(!fetched_matches(&c, &extra));
    let right = Fetched {
        xfstests_src: Some("S".to_string()),
        ..Default::default()
    };
    assert!(fetched_matches(&c, &right));
}
