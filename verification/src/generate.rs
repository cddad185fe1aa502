//! The generator: turns a validated configuration into the build-system
//! configuration artifact, the plan of source-fetch calls that the artifact
//! depends on, and the extra environment variables the eventual build
//! invocation needs.
//!
//! Fetching itself is external work: the caller performs each request of
//! [`fetch_plan`] in order with the source-fetch tool and hands the results
//! back in a [`Fetched`] record, and [`render`] then assembles the artifact
//! deterministically.  The artifact is a line of text per option
//! assignment: a `name` header, the flat option assignments, a
//! `kernel = { ... }` block and a `kernel.kconfig = { ... }` block, the two
//! blocks emitted even when empty.

use vstd::prelude::*;
use crate::config::{Config, KernelConfigOption, XfstestsConfig, XfstestsDevices, XfsprogsConfig};
use crate::utils::{KdError, KdErrorKind};
use crate::text::{
    spec_assign, spec_assign_str, spec_items_lines, spec_quoted_items_lines, spec_join_space,
    spec_strip_quotes, spec_has_config_prefix, spec_strip_config, spec_resolve_path,
    append_assign, append_assign_str, packages_value, quoted_list_value, flavors_value,
    strip_quotes, strip_config_prefix, resolve_path, lemma_add_assoc, lemma_add_empty,
};

verus! {

/// What a source-fetch request is for; tells the caller where to file the
/// fetched expression in [`Fetched`].
#[derive(Debug, Clone, Copy, PartialEq, Eq, Structural)]
pub enum FetchPurpose {
    XfstestsSrc,
    XfstestsHeaders,
    XfsprogsSrc,
    XfsprogsHeaders,
    KernelSrc,
}

/// One source-fetch call the generator needs: a repository and a revision.
#[derive(Debug, Clone, PartialEq)]
pub struct FetchRequest {
    pub purpose: FetchPurpose,
    pub repo: String,
    pub rev: String,
}

/// The fetched source expressions, one per satisfied request.  Each field
/// is set exactly when the corresponding request appears in the plan.
#[derive(Debug, Clone, Default, PartialEq)]
pub struct Fetched {
    pub xfstests_src: Option<String>,
    pub xfstests_headers_src: Option<String>,
    pub xfsprogs_src: Option<String>,
    pub xfsprogs_headers_src: Option<String>,
    pub kernel_src: Option<String>,
}

/// What generation produces: the artifact text and the environment
/// variables to forward to the eventual build invocation.
#[derive(Debug, Clone, PartialEq)]
pub struct Generated {
    pub text: String,
    pub envs: Vec<(String, String)>,
}

/// The environment's identifier: the configured name, or `default`.
pub open spec fn spec_name(c: Config) -> Seq<char> {
    if c.name is Some {
        c.name->Some_0@
    } else {
        "default"@
    }
}

pub open spec fn spec_xfstests_default_repo() -> Seq<char> {
    "git://git.kernel.org/pub/scm/fs/xfs/xfstests-dev.git"@
}

pub open spec fn spec_xfsprogs_default_repo() -> Seq<char> {
    "git://git.kernel.org/pub/scm/fs/xfs/xfsprogs-dev.git"@
}

pub open spec fn spec_kernel_default_repo() -> Seq<char> {
    "git@github.com:torvalds/linux.git"@
}

/// The repository a section's source is fetched from: the explicit one, or
/// the section's upstream default.
pub open spec fn spec_xfstests_repo(x: XfstestsConfig) -> Seq<char> {
    if x.repo is Some {
        x.repo->Some_0@
    } else {
        spec_xfstests_default_repo()
    }
}

pub open spec fn spec_xfsprogs_repo(x: XfsprogsConfig) -> Seq<char> {
    if x.repo is Some {
        x.repo->Some_0@
    } else {
        spec_xfsprogs_default_repo()
    }
}

pub open spec fn spec_kernel_repo(c: Config) -> Seq<char> {
    if c.kernel->Some_0.repo is Some {
        c.kernel->Some_0.repo->Some_0@
    } else {
        spec_kernel_default_repo()
    }
}

pub open spec fn spec_wants_xfstests_src(c: Config) -> bool {
    c.xfstests is Some && c.xfstests->Some_0.rev is Some
}

pub open spec fn spec_wants_xfstests_headers(c: Config) -> bool {
    c.xfstests is Some && c.xfstests->Some_0.kernel_headers is Some
        && c.xfstests->Some_0.kernel_headers->Some_0.spec_complete()
}

pub open spec fn spec_wants_xfsprogs_src(c: Config) -> bool {
    c.xfsprogs is Some && c.xfsprogs->Some_0.rev is Some
}

pub open spec fn spec_wants_xfsprogs_headers(c: Config) -> bool {
    c.xfsprogs is Some && c.xfsprogs->Some_0.kernel_headers is Some
        && c.xfsprogs->Some_0.kernel_headers->Some_0.spec_complete()
}

/// The kernel source is fetched only when no prebuilt kernel overrides it
/// and both the revision and the version are known.
pub open spec fn spec_wants_kernel_src(c: Config) -> bool {
    c.kernel is Some && c.kernel->Some_0.prebuild is None && c.kernel->Some_0.rev is Some
        && c.kernel->Some_0.version is Some
}

pub open spec fn spec_plan_xfstests_src(c: Config) -> Seq<(FetchPurpose, Seq<char>, Seq<char>)> {
    if spec_wants_xfstests_src(c) {
        seq![
            (
                FetchPurpose::XfstestsSrc,
                spec_xfstests_repo(c.xfstests->Some_0),
                c.xfstests->Some_0.rev->Some_0@,
            ),
        ]
    } else {
        Seq::empty()
    }
}

pub open spec fn spec_plan_xfstests_headers(c: Config) -> Seq<(FetchPurpose, Seq<char>, Seq<char>)> {
    if spec_wants_xfstests_headers(c) {
        seq![
            (
                FetchPurpose::XfstestsHeaders,
                c.xfstests->Some_0.kernel_headers->Some_0.repo->Some_0@,
                c.xfstests->Some_0.kernel_headers->Some_0.rev->Some_0@,
            ),
        ]
    } else {
        Seq::empty()
    }
}

pub open spec fn spec_plan_xfsprogs_src(c: Config) -> Seq<(FetchPurpose, Seq<char>, Seq<char>)> {
    if spec_wants_xfsprogs_src(c) {
        seq![
            (
                FetchPurpose::XfsprogsSrc,
                spec_xfsprogs_repo(c.xfsprogs->Some_0),
                c.xfsprogs->Some_0.rev->Some_0@,
            ),
        ]
    } else {
        Seq::empty()
    }
}

pub open spec fn spec_plan_xfsprogs_headers(c: Config) -> Seq<(FetchPurpose, Seq<char>, Seq<char>)> {
    if spec_wants_xfsprogs_headers(c) {
        seq![
            (
                FetchPurpose::XfsprogsHeaders,
                c.xfsprogs->Some_0.kernel_headers->Some_0.repo->Some_0@,
                c.xfsprogs->Some_0.kernel_headers->Some_0.rev->Some_0@,
            ),
        ]
    } else {
        Seq::empty()
    }
}

pub open spec fn spec_plan_kernel_src(c: Config) -> Seq<(FetchPurpose, Seq<char>, Seq<char>)> {
    if spec_wants_kernel_src(c) {
        seq![(FetchPurpose::KernelSrc, spec_kernel_repo(c), c.kernel->Some_0.rev->Some_0@)]
    } else {
        Seq::empty()
    }
}

/// The source-fetch calls generation makes, in their fixed order: xfstests
/// before xfsprogs before the kernel, each section's source before its
/// kernel headers.
pub open spec fn spec_fetch_plan(c: Config) -> Seq<(FetchPurpose, Seq<char>, Seq<char>)> {
    spec_plan_xfstests_src(c) + spec_plan_xfstests_headers(c) + spec_plan_xfsprogs_src(c)
        + spec_plan_xfsprogs_headers(c) + spec_plan_kernel_src(c)
}

pub open spec fn spec_req_matches(q: FetchRequest, p: (FetchPurpose, Seq<char>, Seq<char>)) -> bool {
    q.purpose == p.0 && q.repo@ == p.1 && q.rev@ == p.2
}

pub open spec fn spec_reqs_match(
    qs: Seq<FetchRequest>,
    ps: Seq<(FetchPurpose, Seq<char>, Seq<char>)>,
) -> bool {
    qs.len() == ps.len() && forall|i: int|
        0 <= i < qs.len() ==> spec_req_matches(#[trigger] qs[i], ps[i])
}

pub fn xfstests_default_repo() -> (r: String)
    ensures
        r@ == spec_xfstests_default_repo(),
{
    "git://git.kernel.org/pub/scm/fs/xfs/xfstests-dev.git".to_owned()
}

pub fn xfsprogs_default_repo() -> (r: String)
    ensures
        r@ == spec_xfsprogs_default_repo(),
{
    "git://git.kernel.org/pub/scm/fs/xfs/xfsprogs-dev.git".to_owned()
}

pub fn kernel_default_repo() -> (r: String)
    ensures
        r@ == spec_kernel_default_repo(),
{
    "git@github.com:torvalds/linux.git".to_owned()
}

/// Computes the source-fetch calls this configuration needs, in the order
/// generation relies on them.
pub fn fetch_plan(c: &Config) -> (r: Vec<FetchRequest>)
    ensures
        spec_reqs_match(r@, spec_fetch_plan(*c)),
{
    let mut r: Vec<FetchRequest> = Vec::new();
    if let Some(x) = &c.xfstests {
        if let Some(rev) = &x.rev {
            let repo = match &x.repo {
                Some(rp) => rp.clone(),
                None => xfstests_default_repo(),
            };
            r.push(FetchRequest { purpose: FetchPurpose::XfstestsSrc, repo, rev: rev.clone() });
        }
        if let Some(h) = &x.kernel_headers {
            if h.version.is_some() {
                if let (Some(rp), Some(rv)) = (&h.repo, &h.rev) {
                    r.push(
                        FetchRequest {
                            purpose: FetchPurpose::XfstestsHeaders,
                            repo: rp.clone(),
                            rev: rv.clone(),
                        },
                    );
                }
            }
        }
    }
    proof {
        assert(spec_reqs_match(r@, spec_plan_xfstests_src(*c) + spec_plan_xfstests_headers(*c)));
    }
    if let Some(x) = &c.xfsprogs {
        if let Some(rev) = &x.rev {
            let repo = match &x.repo {
                Some(rp) => rp.clone(),
                None => xfsprogs_default_repo(),
            };
            r.push(FetchRequest { purpose: FetchPurpose::XfsprogsSrc, repo, rev: rev.clone() });
        }
        if let Some(h) = &x.kernel_headers {
            if h.version.is_some() {
                if let (Some(rp), Some(rv)) = (&h.repo, &h.rev) {
                    r.push(
                        FetchRequest {
                            purpose: FetchPurpose::XfsprogsHeaders,
                            repo: rp.clone(),
                            rev: rv.clone(),
                        },
                    );
                }
            }
        }
    }
    proof {
        assert(spec_reqs_match(
            r@,
            spec_plan_xfstests_src(*c) + spec_plan_xfstests_headers(*c) + spec_plan_xfsprogs_src(
                *c,
            ) + spec_plan_xfsprogs_headers(*c),
        ));
    }
    if let Some(k) = &c.kernel {
        if k.prebuild.is_none() && k.version.is_some() {
            if let Some(rev) = &k.rev {
                let repo = match &k.repo {
                    Some(rp) => rp.clone(),
                    None => kernel_default_repo(),
                };
                r.push(FetchRequest { purpose: FetchPurpose::KernelSrc, repo, rev: rev.clone() });
            }
        }
    }
    proof {
        assert(spec_reqs_match(r@, spec_fetch_plan(*c)));
    }
    r
}

/// Every field of `f` is set exactly when the plan for `c` contains the
/// corresponding request.
pub open spec fn spec_fetched_matches(c: Config, f: Fetched) -> bool {
    &&& (f.xfstests_src is Some <==> spec_wants_xfstests_src(c))
    &&& (f.xfstests_headers_src is Some <==> spec_wants_xfstests_headers(c))
    &&& (f.xfsprogs_src is Some <==> spec_wants_xfsprogs_src(c))
    &&& (f.xfsprogs_headers_src is Some <==> spec_wants_xfsprogs_headers(c))
    &&& (f.kernel_src is Some <==> spec_wants_kernel_src(c))
}

/// Checks at run time that every fetched expression the plan calls for is
/// present and no other is: the condition under which [`render`] may be
/// called.
pub fn fetched_matches(c: &Config, f: &Fetched) -> (r: bool)
    ensures
        r == spec_fetched_matches(*c, *f),
{
    let xt_src = match &c.xfstests {
        Some(x) => x.rev.is_some(),
        None => false,
    };
    let xt_hdr = match &c.xfstests {
        Some(x) => match &x.kernel_headers {
            Some(h) => h.repo.is_some() && h.rev.is_some() && h.version.is_some(),
            None => false,
        },
        None => false,
    };
    let xp_src = match &c.xfsprogs {
        Some(x) => x.rev.is_some(),
        None => false,
    };
    let xp_hdr = match &c.xfsprogs {
        Some(x) => match &x.kernel_headers {
            Some(h) => h.repo.is_some() && h.rev.is_some() && h.version.is_some(),
            None => false,
        },
        None => false,
    };
    let k_src = match &c.kernel {
        Some(k) => k.prebuild.is_none() && k.rev.is_some() && k.version.is_some(),
        None => false,
    };
    (f.xfstests_src.is_some() == xt_src) && (f.xfstests_headers_src.is_some() == xt_hdr)
        && (f.xfsprogs_src.is_some() == xp_src) && (f.xfsprogs_headers_src.is_some() == xp_hdr)
        && (f.kernel_src.is_some() == k_src)
}

/// A headers-build invocation expression, parameterized by the fetched
/// source expression and the declared version.
pub open spec fn spec_headers_value(src: Seq<char>, version: Seq<char>) -> Seq<char> {
    "kd.lib.buildKernelHeaders { src = "@ + src + "; version = \""@ + version + "\"; }"@
}

/// The device-path assignments, one quoted-string option per set field.
pub open spec fn spec_devices_options(d: XfstestsDevices) -> Seq<char> {
    (if d.test is Some {
        spec_assign_str("services.xfstests.test-dev"@, d.test->Some_0@)
    } else {
        Seq::<char>::empty()
    }) + (if d.test_rtdev is Some {
        spec_assign_str("services.xfstests.test-rtdev"@, d.test_rtdev->Some_0@)
    } else {
        Seq::<char>::empty()
    }) + (if d.test_logdev is Some {
        spec_assign_str("services.xfstests.test-logdev"@, d.test_logdev->Some_0@)
    } else {
        Seq::<char>::empty()
    }) + (if d.scratch is Some {
        spec_assign_str("services.xfstests.scratch-dev"@, d.scratch->Some_0@)
    } else {
        Seq::<char>::empty()
    }) + (if d.scratch_rtdev is Some {
        spec_assign_str("services.xfstests.scratch-rtdev"@, d.scratch_rtdev->Some_0@)
    } else {
        Seq::<char>::empty()
    }) + (if d.scratch_logdev is Some {
        spec_assign_str("services.xfstests.scratch-logdev"@, d.scratch_logdev->Some_0@)
    } else {
        Seq::<char>::empty()
    })
}

/// The xfstests assignments, in their fixed order: source, arguments,
/// devices, filesystem, extra environment, hooks, kernel headers.
pub open spec fn spec_xfstests_options(x: XfstestsConfig, f: Fetched) -> Seq<char> {
    (if x.rev is Some {
        spec_assign("services.xfstests.src"@, f.xfstests_src->Some_0@)
    } else {
        Seq::<char>::empty()
    }) + (if x.args is Some {
        spec_assign_str("services.xfstests.arguments"@, x.args->Some_0@)
    } else {
        Seq::<char>::empty()
    }) + (if x.devices is Some {
        spec_devices_options(x.devices->Some_0)
    } else {
        Seq::<char>::empty()
    }) + (if x.filesystem is Some {
        spec_assign_str("services.xfstests.filesystem"@, x.filesystem->Some_0@)
    } else {
        Seq::<char>::empty()
    }) + (if x.extra_env is Some {
        spec_assign("services.xfstests.extraEnv"@, "''\n"@ + x.extra_env->Some_0@ + "\n''"@)
    } else {
        Seq::<char>::empty()
    }) + (if x.hooks is Some {
        spec_assign("services.xfstests.hooks"@, x.hooks->Some_0@)
    } else {
        Seq::<char>::empty()
    }) + (if x.kernel_headers is Some && x.kernel_headers->Some_0.spec_complete() {
        spec_assign(
            "services.xfstests.kernelHeaders"@,
            spec_headers_value(
                f.xfstests_headers_src->Some_0@,
                x.kernel_headers->Some_0.version->Some_0@,
            ),
        )
    } else {
        Seq::<char>::empty()
    })
}

/// The xfsprogs assignments: source, then kernel headers.
pub open spec fn spec_xfsprogs_options(x: XfsprogsConfig, f: Fetched) -> Seq<char> {
    (if x.rev is Some {
        spec_assign("services.xfsprogs.src"@, f.xfsprogs_src->Some_0@)
    } else {
        Seq::<char>::empty()
    }) + (if x.kernel_headers is Some && x.kernel_headers->Some_0.spec_complete() {
        spec_assign(
            "services.xfsprogs.kernelHeaders"@,
            spec_headers_value(
                f.xfsprogs_headers_src->Some_0@,
                x.kernel_headers->Some_0.version->Some_0@,
            ),
        )
    } else {
        Seq::<char>::empty()
    })
}

/// The flat option assignments: packages, xfstests, xfsprogs,
/// virtualization options.
pub open spec fn spec_top_options(c: Config, f: Fetched) -> Seq<char> {
    (if c.packages is Some {
        spec_assign(
            "environment.systemPackages"@,
            "with pkgs; ["@ + spec_items_lines(c.packages->Some_0@) + "]"@,
        )
    } else {
        Seq::<char>::empty()
    }) + (if c.xfstests is Some {
        spec_xfstests_options(c.xfstests->Some_0, f)
    } else {
        Seq::<char>::empty()
    }) + (if c.xfsprogs is Some {
        spec_xfsprogs_options(c.xfsprogs->Some_0, f)
    } else {
        Seq::<char>::empty()
    }) + (if c.qemu is Some && c.qemu->Some_0.options is Some {
        spec_assign(
            "virtualisation.qemu.options"@,
            "["@ + spec_quoted_items_lines(c.qemu->Some_0.options->Some_0@) + "]"@,
        )
    } else {
        Seq::<char>::empty()
    })
}

/// The kernel-block assignments: version and source when the kernel is
/// fetched (a prebuilt kernel suppresses both), then the flavors preset
/// list.
pub open spec fn spec_kernel_options(c: Config, f: Fetched) -> Seq<char> {
    if c.kernel is Some {
        let k = c.kernel->Some_0;
        (if spec_wants_kernel_src(c) {
            spec_assign_str("version"@, k.version->Some_0@) + spec_assign(
                "src"@,
                f.kernel_src->Some_0@,
            )
        } else {
            Seq::<char>::empty()
        }) + (if k.flavors is Some {
            spec_assign(
                "flavors"@,
                "with pkgs.kconfigs; ["@ + spec_join_space(k.flavors->Some_0@) + "]"@,
            )
        } else {
            Seq::<char>::empty()
        })
    } else {
        Seq::<char>::empty()
    }
}

/// The kconfig-block assignments: each raw option with its `CONFIG_` prefix
/// stripped and any quote characters removed from its value.
pub open spec fn spec_kconfig_lines(opts: Seq<KernelConfigOption>) -> Seq<char>
    decreases opts.len(),
{
    if opts.len() == 0 {
        Seq::empty()
    } else {
        spec_kconfig_lines(opts.drop_last()) + spec_assign(
            spec_strip_config(opts.last().name@),
            spec_strip_quotes(opts.last().value@),
        )
    }
}

pub open spec fn spec_kernel_kconfig(c: Config) -> Seq<char> {
    if c.kernel is Some && c.kernel->Some_0.config is Some {
        spec_kconfig_lines(c.kernel->Some_0.config->Some_0@)
    } else {
        Seq::<char>::empty()
    }
}

/// Every raw kconfig option name carries the mandatory `CONFIG_` prefix;
/// the one condition under which generation can fail.
pub open spec fn spec_kconfig_ok(c: Config) -> bool {
    c.kernel is Some && c.kernel->Some_0.config is Some ==> forall|i: int|
        0 <= i < c.kernel->Some_0.config->Some_0@.len() ==> spec_has_config_prefix(
            (#[trigger] c.kernel->Some_0.config->Some_0@[i]).name@,
        )
}

/// The whole artifact: the name header, the flat options, the kernel block
/// and the kconfig block, the blocks present even when empty.
pub open spec fn spec_render_text(c: Config, f: Fetched) -> Seq<char> {
    spec_assign_str("name"@, spec_name(c)) + spec_top_options(c, f) + "kernel = {\n"@
        + spec_kernel_options(c, f) + "};\n"@ + "kernel.kconfig = with pkgs.lib.kernel; {\n"@
        + spec_kernel_kconfig(c) + "};\n"@
}

/// The environment variables generation records: when a prebuilt kernel is
/// configured, one variable keyed by the environment's name points the
/// virtual machine at the resolved kernel path.
pub open spec fn spec_envs(c: Config, curdir: Seq<char>) -> Seq<(Seq<char>, Seq<char>)> {
    if c.kernel is Some && c.kernel->Some_0.prebuild is Some {
        seq![
            (
                "NIXPKGS_QEMU_KERNEL_"@ + spec_name(c),
                spec_resolve_path(curdir, c.kernel->Some_0.prebuild->Some_0@),
            ),
        ]
    } else {
        Seq::empty()
    }
}

pub open spec fn spec_envs_match(es: Seq<(String, String)>, ps: Seq<(Seq<char>, Seq<char>)>) -> bool {
    es.len() == ps.len() && forall|i: int|
        0 <= i < es.len() ==> (#[trigger] es[i]).0@ == ps[i].0 && es[i].1@ == ps[i].1
}

fn headers_value(src: &str, version: &str) -> (r: String)
    ensures
        r@ == spec_headers_value(src@, version@),
{
    "kd.lib.buildKernelHeaders { src = ".to_owned().concat(src).concat("; version = \"").concat(
        version,
    ).concat("\"; }")
}

fn append_devices_options(out: &mut String, d: &XfstestsDevices)
    ensures
        final(out)@ == old(out)@ + spec_devices_options(*d),
{
    let ghost s1 = if d.test is Some {
        spec_assign_str("services.xfstests.test-dev"@, d.test->Some_0@)
    } else {
        Seq::<char>::empty()
    };
    let ghost s2 = if d.test_rtdev is Some {
        spec_assign_str("services.xfstests.test-rtdev"@, d.test_rtdev->Some_0@)
    } else {
        Seq::<char>::empty()
    };
    let ghost s3 = if d.test_logdev is Some {
        spec_assign_str("services.xfstests.test-logdev"@, d.test_logdev->Some_0@)
    } else {
        Seq::<char>::empty()
    };
    let ghost s4 = if d.scratch is Some {
        spec_assign_str("services.xfstests.scratch-dev"@, d.scratch->Some_0@)
    } else {
        Seq::<char>::empty()
    };
    let ghost s5 = if d.scratch_rtdev is Some {
        spec_assign_str("services.xfstests.scratch-rtdev"@, d.scratch_rtdev->Some_0@)
    } else {
        Seq::<char>::empty()
    };
    let ghost s6 = if d.scratch_logdev is Some {
        spec_assign_str("services.xfstests.scratch-logdev"@, d.scratch_logdev->Some_0@)
    } else {
        Seq::<char>::empty()
    };
    if let Some(v) = &d.test {
        append_assign_str(out, "services.xfstests.test-dev", v.as_str());
    }
    proof {
        lemma_add_empty(old(out)@);
        assert(out@ == old(out)@ + s1);
    }
    if let Some(v) = &d.test_rtdev {
        append_assign_str(out, "services.xfstests.test-rtdev", v.as_str());
    }
    proof {
        lemma_add_assoc(old(out)@, s1, s2);
        lemma_add_empty(s1);
        assert(out@ == old(out)@ + (s1 + s2));
    }
    if let Some(v) = &d.test_logdev {
        append_assign_str(out, "services.xfstests.test-logdev", v.as_str());
    }
    proof {
        lemma_add_assoc(old(out)@, s1 + s2, s3);
        lemma_add_empty(s1 + s2);
        assert(out@ == old(out)@ + (s1 + s2 + s3));
    }
    if let Some(v) = &d.scratch {
        append_assign_str(out, "services.xfstests.scratch-dev", v.as_str());
    }
    proof {
        lemma_add_assoc(old(out)@, s1 + s2 + s3, s4);
        lemma_add_empty(s1 + s2 + s3);
        assert(out@ == old(out)@ + (s1 + s2 + s3 + s4));
    }
    if let Some(v) = &d.scratch_rtdev {
        append_assign_str(out, "services.xfstests.scratch-rtdev", v.as_str());
    }
    proof {
        lemma_add_assoc(old(out)@, s1 + s2 + s3 + s4, s5);
        lemma_add_empty(s1 + s2 + s3 + s4);
        assert(out@ == old(out)@ + (s1 + s2 + s3 + s4 + s5));
    }
    if let Some(v) = &d.scratch_logdev {
        append_assign_str(out, "services.xfstests.scratch-logdev", v.as_str());
    }
    proof {
        lemma_add_assoc(old(out)@, s1 + s2 + s3 + s4 + s5, s6);
        lemma_add_empty(s1 + s2 + s3 + s4 + s5);
        assert(out@ == old(out)@ + (s1 + s2 + s3 + s4 + s5 + s6));
        assert(spec_devices_options(*d) == s1 + s2 + s3 + s4 + s5 + s6);
    }
}

fn append_xfstests_options(out: &mut String, x: &XfstestsConfig, f: &Fetched)
    requires
        x.rev is Some ==> f.xfstests_src is Some,
        x.kernel_headers is Some && x.kernel_headers->Some_0.spec_complete()
            ==> f.xfstests_headers_src is Some,
    ensures
        final(out)@ == old(out)@ + spec_xfstests_options(*x, *f),
{
    let ghost s1 = if x.rev is Some {
        spec_assign("services.xfstests.src"@, f.xfstests_src->Some_0@)
    } else {
        Seq::<char>::empty()
    };
    let ghost s2 = if x.args is Some {
        spec_assign_str("services.xfstests.arguments"@, x.args->Some_0@)
    } else {
        Seq::<char>::empty()
    };
    let ghost s3 = if x.devices is Some {
        spec_devices_options(x.devices->Some_0)
    } else {
        Seq::<char>::empty()
    };
    let ghost s4 = if x.filesystem is Some {
        spec_assign_str("services.xfstests.filesystem"@, x.filesystem->Some_0@)
    } else {
        Seq::<char>::empty()
    };
    let ghost s5 = if x.extra_env is Some {
        spec_assign("services.xfstests.extraEnv"@, "''\n"@ + x.extra_env->Some_0@ + "\n''"@)
    } else {
        Seq::<char>::empty()
    };
    let ghost s6 = if x.hooks is Some {
        spec_assign("services.xfstests.hooks"@, x.hooks->Some_0@)
    } else {
        Seq::<char>::empty()
    };
    let ghost s7 = if x.kernel_headers is Some && x.kernel_headers->Some_0.spec_complete() {
        spec_assign(
            "services.xfstests.kernelHeaders"@,
            spec_headers_value(
                f.xfstests_headers_src->Some_0@,
                x.kernel_headers->Some_0.version->Some_0@,
            ),
        )
    } else {
        Seq::<char>::empty()
    };
    if x.rev.is_some() {
        match &f.xfstests_src {
            Some(src) => append_assign(out, "services.xfstests.src", src.as_str()),
            None => {
                proof {
                    assert(false);
                }
            },
        }
    }
    proof {
        lemma_add_empty(old(out)@);
        assert(out@ == old(out)@ + s1);
    }
    if let Some(args) = &x.args {
        append_assign_str(out, "services.xfstests.arguments", args.as_str());
    }
    proof {
        lemma_add_assoc(old(out)@, s1, s2);
        lemma_add_empty(s1);
        assert(out@ == old(out)@ + (s1 + s2));
    }
    if let Some(d) = &x.devices {
        append_devices_options(out, d);
    }
    proof {
        lemma_add_assoc(old(out)@, s1 + s2, s3);
        lemma_add_empty(s1 + s2);
        assert(out@ == old(out)@ + (s1 + s2 + s3));
    }
    if let Some(fsname) = &x.filesystem {
        append_assign_str(out, "services.xfstests.filesystem", fsname.as_str());
    }
    proof {
        lemma_add_assoc(old(out)@, s1 + s2 + s3, s4);
        lemma_add_empty(s1 + s2 + s3);
        assert(out@ == old(out)@ + (s1 + s2 + s3 + s4));
    }
    if let Some(env) = &x.extra_env {
        let value = "''\n".to_owned().concat(env.as_str()).concat("\n''");
        append_assign(out, "services.xfstests.extraEnv", value.as_str());
    }
    proof {
        lemma_add_assoc(old(out)@, s1 + s2 + s3 + s4, s5);
        lemma_add_empty(s1 + s2 + s3 + s4);
        assert(out@ == old(out)@ + (s1 + s2 + s3 + s4 + s5));
    }
    if let Some(hooks) = &x.hooks {
        append_assign(out, "services.xfstests.hooks", hooks.as_str());
    }
    proof {
        lemma_add_assoc(old(out)@, s1 + s2 + s3 + s4 + s5, s6);
        lemma_add_empty(s1 + s2 + s3 + s4 + s5);
        assert(out@ == old(out)@ + (s1 + s2 + s3 + s4 + s5 + s6));
    }
    if let Some(h) = &x.kernel_headers {
        if h.repo.is_some() && h.rev.is_some() {
            if let Some(version) = &h.version {
                match &f.xfstests_headers_src {
                    Some(src) => {
                        let value = headers_value(src.as_str(), version.as_str());
                        append_assign(out, "services.xfstests.kernelHeaders", value.as_str());
                    },
                    None => {
                        proof {
                            assert(false);
                        }
                    },
                }
            }
        }
    }
    proof {
        lemma_add_assoc(old(out)@, s1 + s2 + s3 + s4 + s5 + s6, s7);
        lemma_add_empty(s1 + s2 + s3 + s4 + s5 + s6);
        assert(out@ == old(out)@ + (s1 + s2 + s3 + s4 + s5 + s6 + s7));
        assert(spec_xfstests_options(*x, *f) == s1 + s2 + s3 + s4 + s5 + s6 + s7);
    }
}

fn append_xfsprogs_options(out: &mut String, x: &XfsprogsConfig, f: &Fetched)
    requires
        x.rev is Some ==> f.xfsprogs_src is Some,
        x.kernel_headers is Some && x.kernel_headers->Some_0.spec_complete()
            ==> f.xfsprogs_headers_src is Some,
    ensures
        final(out)@ == old(out)@ + spec_xfsprogs_options(*x, *f),
{
    if x.rev.is_some() {
        match &f.xfsprogs_src {
            Some(src) => append_assign(out, "services.xfsprogs.src", src.as_str()),
            None => {
                proof {
                    assert(false);
                }
            },
        }
    }
    if let Some(h) = &x.kernel_headers {
        if h.repo.is_some() && h.rev.is_some() {
            if let Some(version) = &h.version {
                match &f.xfsprogs_headers_src {
                    Some(src) => {
                        let value = headers_value(src.as_str(), version.as_str());
                        append_assign(out, "services.xfsprogs.kernelHeaders", value.as_str());
                    },
                    None => {
                        proof {
                            assert(false);
                        }
                    },
                }
            }
        }
    }
    proof {
        assert(out@ =~= old(out)@ + spec_xfsprogs_options(*x, *f));
    }
}

fn append_kernel_options(out: &mut String, c: &Config, f: &Fetched)
    requires
        spec_wants_kernel_src(*c) ==> f.kernel_src is Some,
    ensures
        final(out)@ == old(out)@ + spec_kernel_options(*c, *f),
{
    if let Some(k) = &c.kernel {
        if k.prebuild.is_none() && k.rev.is_some() {
            if let Some(version) = &k.version {
                append_assign_str(out, "version", version.as_str());
                match &f.kernel_src {
                    Some(src) => append_assign(out, "src", src.as_str()),
                    None => {
                        proof {
                            assert(false);
                        }
                    },
                }
            }
        }
        if let Some(flavors) = &k.flavors {
            let value = flavors_value(flavors);
            append_assign(out, "flavors", value.as_str());
        }
    }
    proof {
        assert(out@ =~= old(out)@ + spec_kernel_options(*c, *f));
    }
}

/// Renders the kconfig-block lines, failing on the first option name that
/// does not carry the mandatory `CONFIG_` prefix.
fn kconfig_text(opts: &Vec<KernelConfigOption>) -> (r: Result<String, KdError>)
    ensures
        r is Ok <==> (forall|i: int|
            0 <= i < opts@.len() ==> spec_has_config_prefix((#[trigger] opts@[i]).name@)),
        r is Ok ==> r->Ok_0@ == spec_kconfig_lines(opts@),
        r is Err ==> r->Err_0.kind is ConfigError && r->Err_0.message@
            == "Option doesn't start with CONFIG_"@,
{
    let mut s = String::new();
    let mut i: usize = 0;
    while i < opts.len()
        invariant
            i <= opts@.len(),
            forall|j: int| 0 <= j < i ==> spec_has_config_prefix((#[trigger] opts@[j]).name@),
            s@ == spec_kconfig_lines(opts@.take(i as int)),
        decreases opts@.len() - i,
    {
        match strip_config_prefix(opts[i].name.as_str()) {
            Some(stripped) => {
                let value = strip_quotes(opts[i].value.as_str());
                append_assign(&mut s, stripped.as_str(), value.as_str());
                proof {
                    assert(opts@.take(i + 1 as int).drop_last() =~= opts@.take(i as int));
                    assert(s@ =~= spec_kconfig_lines(opts@.take(i + 1 as int)));
                }
            },
            None => {
                proof {
                    assert(!spec_has_config_prefix(opts@[i as int].name@));
                }
                return Err(
                    KdError::new(
                        KdErrorKind::ConfigError,
                        "Option doesn't start with CONFIG_".to_owned(),
                    ),
                );
            },
        }
        i += 1;
    }
    proof {
        assert(opts@.take(opts@.len() as int) =~= opts@);
    }
    Ok(s)
}

/// Assembles the artifact and the recorded environment variables from a
/// configuration and its fetched source expressions.  Deterministic: the
/// output is a function of the configuration, the fetched expressions and
/// the working directory alone.  Fails exactly when a raw kconfig option
/// name lacks the `CONFIG_` prefix.
#[verifier::rlimit(100)]
pub fn render(c: &Config, curdir: &str, f: &Fetched) -> (r: Result<Generated, KdError>)
    requires
        spec_fetched_matches(*c, *f),
    ensures
        r is Ok <==> spec_kconfig_ok(*c),
        r is Ok ==> r->Ok_0.text@ == spec_render_text(*c, *f) && spec_envs_match(
            r->Ok_0.envs@,
            spec_envs(*c, curdir@),
        ),
        r is Err ==> r->Err_0.kind is ConfigError && r->Err_0.message@
            == "Option doesn't start with CONFIG_"@,
{
    let kc: String = match &c.kernel {
        Some(k) => match &k.config {
            Some(opts) => match kconfig_text(opts) {
                Ok(t) => t,
                Err(e) => {
                    return Err(e);
                },
            },
            None => String::new(),
        },
        None => String::new(),
    };

    let ghost t_name = spec_assign_str("name"@, spec_name(*c));
    let ghost t_pack = if c.packages is Some {
        spec_assign(
            "environment.systemPackages"@,
            "with pkgs; ["@ + spec_items_lines(c.packages->Some_0@) + "]"@,
        )
    } else {
        Seq::<char>::empty()
    };
    let ghost t_xt = if c.xfstests is Some {
        spec_xfstests_options(c.xfstests->Some_0, *f)
    } else {
        Seq::<char>::empty()
    };
    let ghost t_xp = if c.xfsprogs is Some {
        spec_xfsprogs_options(c.xfsprogs->Some_0, *f)
    } else {
        Seq::<char>::empty()
    };
    let ghost t_qemu = if c.qemu is Some && c.qemu->Some_0.options is Some {
        spec_assign(
            "virtualisation.qemu.options"@,
            "["@ + spec_quoted_items_lines(c.qemu->Some_0.options->Some_0@) + "]"@,
        )
    } else {
        Seq::<char>::empty()
    };

    let mut out = String::new();
    let name: String = match &c.name {
        Some(n) => n.clone(),
        None => "default".to_owned(),
    };
    append_assign_str(&mut out, "name", name.as_str());
    proof {
        assert(out@ =~= t_name);
    }
    if let Some(p) = &c.packages {
        let value = packages_value(p);
        append_assign(&mut out, "environment.systemPackages", value.as_str());
    }
    proof {
        assert(out@ =~= t_name + t_pack);
    }
    if let Some(x) = &c.xfstests {
        append_xfstests_options(&mut out, x, f);
    }
    proof {
        assert(out@ =~= t_name + (t_pack + t_xt));
    }
    if let Some(x) = &c.xfsprogs {
        append_xfsprogs_options(&mut out, x, f);
    }
    proof {
        assert(out@ =~= t_name + (t_pack + t_xt + t_xp));
    }
    if let Some(q) = &c.qemu {
        if let Some(opts) = &q.options {
            let value = quoted_list_value(opts);
            append_assign(&mut out, "virtualisation.qemu.options", value.as_str());
        }
    }
    proof {
        assert(out@ =~= t_name + (t_pack + t_xt + t_xp + t_qemu));
        assert(spec_top_options(*c, *f) == t_pack + t_xt + t_xp + t_qemu);
        assert(out@ == t_name + spec_top_options(*c, *f));
    }
    out.append("kernel = {\n");
    proof {
        assert(out@ =~= t_name + spec_top_options(*c, *f) + "kernel = {\n"@);
    }
    append_kernel_options(&mut out, c, f);
    out.append("};\n");
    proof {
        assert(out@ =~= t_name + spec_top_options(*c, *f) + "kernel = {\n"@
            + spec_kernel_options(*c, *f) + "};\n"@);
    }
    out.append("kernel.kconfig = with pkgs.lib.kernel; {\n");
    out.append(kc.as_str());
    out.append("};\n");
    proof {
        assert(out@ =~= t_name + spec_top_options(*c, *f) + "kernel = {\n"@
            + spec_kernel_options(*c, *f) + "};\n"@ + "kernel.kconfig = with pkgs.lib.kernel; {\n"@
            + spec_kernel_kconfig(*c) + "};\n"@);
        assert(out@ == spec_render_text(*c, *f));
    }

    let mut envs: Vec<(String, String)> = Vec::new();
    if let Some(k) = &c.kernel {
        if let Some(pb) = &k.prebuild {
            let key = "NIXPKGS_QEMU_KERNEL_".to_owned().concat(name.as_str());
            let val = resolve_path(curdir, pb.as_str());
            envs.push((key, val));
        }
    }
    proof {
        assert(spec_envs_match(envs@, spec_envs(*c, curdir@)));
    }
    Ok(Generated { text: out, envs })
}

/// Generation is deterministic: the artifact text is a function of the
/// configuration and the fetched source expressions alone, so two
/// generations from the same validated configuration with no external
/// state change produce byte-identical output.
pub proof fn lemma_render_deterministic(c: Config, f: Fetched, t1: Seq<char>, t2: Seq<char>)
    requires
        t1 == spec_render_text(c, f),
        t2 == spec_render_text(c, f),
    ensures
        t1 == t2,
{
}

} // verus!
