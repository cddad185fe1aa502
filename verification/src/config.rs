//! The settings model: the typed representation of the project-local
//! settings file, section merging, and semantic validation of the
//! cross-field invariants that must hold before any generation starts.

use vstd::prelude::*;
use crate::utils::{KdError, KdErrorKind, print_line};

verus! {

/// One raw kernel configuration option, as it appears in the generated
/// kconfig block: a name (stored with its `CONFIG_` prefix) and the TOML
/// rendering of its value.
#[derive(Debug, Clone, Default, PartialEq)]
pub struct KernelConfigOption {
    pub name: String,
    pub value: String,
}

/// Where to take kernel headers from when a test suite must build them from
/// a different source than the kernel under test.  All three fields must be
/// given together; validation rejects a partial record.
#[derive(Debug, Clone, Default, PartialEq)]
pub struct KernelHeaders {
    pub version: Option<String>,
    pub rev: Option<String>,
    pub repo: Option<String>,
}

/// How to obtain and configure the kernel under test.
#[derive(Debug, Clone, Default, PartialEq)]
pub struct KernelConfig {
    /// Path to an already-built kernel tree.  When set, the source fields
    /// below are ignored and only an advisory is printed.
    pub prebuild: Option<String>,
    pub version: Option<String>,
    pub rev: Option<String>,
    pub repo: Option<String>,
    /// Named kconfig presets.
    pub flavors: Option<Vec<String>>,
    /// Raw `CONFIG_*` options, in the settings file's order.
    pub config: Option<Vec<KernelConfigOption>>,
}

/// Block-device paths handed to the filesystem test suite.
#[derive(Debug, Clone, Default, PartialEq)]
pub struct XfstestsDevices {
    pub test: Option<String>,
    pub test_rtdev: Option<String>,
    pub test_logdev: Option<String>,
    pub scratch: Option<String>,
    pub scratch_rtdev: Option<String>,
    pub scratch_logdev: Option<String>,
}

/// Settings for the xfstests test-suite source and run.
#[derive(Debug, Clone, Default, PartialEq)]
pub struct XfstestsConfig {
    pub repo: Option<String>,
    pub rev: Option<String>,
    pub devices: Option<XfstestsDevices>,
    pub args: Option<String>,
    pub extra_env: Option<String>,
    pub filesystem: Option<String>,
    pub hooks: Option<String>,
    pub kernel_headers: Option<KernelHeaders>,
}

/// Settings for the xfsprogs source.
#[derive(Debug, Clone, Default, PartialEq)]
pub struct XfsprogsConfig {
    pub repo: Option<String>,
    pub rev: Option<String>,
    pub kernel_headers: Option<KernelHeaders>,
}

/// An inline script to run inside the environment.
#[derive(Debug, Clone, Default, PartialEq)]
pub struct ScriptConfig {
    pub script: String,
}

/// Extra virtualization options.
#[derive(Debug, Clone, Default, PartialEq)]
pub struct QemuConfig {
    pub options: Option<Vec<String>>,
}

/// One system's worth of settings, used when several configurations share a
/// common base: an incoming section, when present, replaces the base's.
#[derive(Debug, Clone, Default, PartialEq)]
pub struct SystemConfig {
    pub kernel: Option<KernelConfig>,
    pub xfstests: Option<XfstestsConfig>,
    pub xfsprogs: Option<XfsprogsConfig>,
    pub script: Option<ScriptConfig>,
}

impl SystemConfig {
    /// Overlays `config` onto `self`, section by section: each section that
    /// `config` carries replaces the one in `self`; sections that `config`
    /// leaves unset are kept.
    pub fn merge(&mut self, config: SystemConfig)
        ensures
            final(self).kernel == (if config.kernel is Some { config.kernel } else { old(self).kernel }),
            final(self).xfstests == (if config.xfstests is Some { config.xfstests } else { old(self).xfstests }),
            final(self).xfsprogs == (if config.xfsprogs is Some { config.xfsprogs } else { old(self).xfsprogs }),
            final(self).script == (if config.script is Some { config.script } else { old(self).script }),
    {
        if let Some(kernel) = config.kernel {
            self.kernel = Some(kernel);
        }
        if let Some(xfstests) = config.xfstests {
            self.xfstests = Some(xfstests);
        }
        if let Some(xfsprogs) = config.xfsprogs {
            self.xfsprogs = Some(xfsprogs);
        }
        if let Some(script) = config.script {
            self.script = Some(script);
        }
    }
}

/// The root settings object, one per invocation.
#[derive(Debug, Clone, Default, PartialEq)]
pub struct Config {
    /// The environment's identifier; `"default"` when unset.
    pub name: Option<String>,
    /// Packages to install into the environment, in order.
    pub packages: Option<Vec<String>>,
    pub kernel: Option<KernelConfig>,
    pub xfstests: Option<XfstestsConfig>,
    pub xfsprogs: Option<XfsprogsConfig>,
    pub script: Option<ScriptConfig>,
    pub qemu: Option<QemuConfig>,
}

impl KernelHeaders {
    /// A headers record is usable only when all three of its fields are set.
    pub open spec fn spec_complete(self) -> bool {
        self.repo is Some && self.rev is Some && self.version is Some
    }

    /// The validation message for an incomplete record, naming the first
    /// missing field, checked in the order repo, rev, version.
    pub open spec fn spec_missing_msg(self) -> Seq<char> {
        if self.repo is None {
            "You are missing 'repo' parameter for kernel headers"@
        } else if self.rev is None {
            "You are missing 'rev' parameter for kernel headers"@
        } else {
            "You are missing 'version' parameter for kernel headers"@
        }
    }

    fn missing_error(&self) -> (r: KdError)
        requires
            !self.spec_complete(),
        ensures
            r.kind is ConfigError,
            r.message@ == self.spec_missing_msg(),
    {
        if self.repo.is_none() {
            KdError::new(
                KdErrorKind::ConfigError,
                "You are missing 'repo' parameter for kernel headers".to_owned(),
            )
        } else if self.rev.is_none() {
            KdError::new(
                KdErrorKind::ConfigError,
                "You are missing 'rev' parameter for kernel headers".to_owned(),
            )
        } else {
            KdError::new(
                KdErrorKind::ConfigError,
                "You are missing 'version' parameter for kernel headers".to_owned(),
            )
        }
    }
}

impl Config {
    /// The advisory condition: a prebuilt kernel is configured while other
    /// kernel source fields are also set.  Those fields are then ignored;
    /// this is informational only, never an error.
    pub open spec fn spec_prebuild_note(self) -> bool {
        self.kernel is Some && {
            let k = self.kernel->Some_0;
            k.prebuild is Some && (k.version is Some || k.rev is Some || k.repo is Some
                || k.config is Some)
        }
    }

    /// An xfsprogs or xfstests kernel-headers record is present but misses
    /// one of its three fields.
    pub open spec fn spec_xfsprogs_headers_violation(self) -> bool {
        self.xfsprogs is Some && self.xfsprogs->Some_0.kernel_headers is Some
            && !self.xfsprogs->Some_0.kernel_headers->Some_0.spec_complete()
    }

    pub open spec fn spec_xfstests_headers_violation(self) -> bool {
        self.xfstests is Some && self.xfstests->Some_0.kernel_headers is Some
            && !self.xfstests->Some_0.kernel_headers->Some_0.spec_complete()
    }

    /// A hooks script is named but no such path exists.
    pub open spec fn spec_hooks_violation(self, hooks_exists: bool) -> bool {
        self.xfstests is Some && self.xfstests->Some_0.hooks is Some && !hooks_exists
    }

    /// A kernel repository is named without both a revision and a version.
    pub open spec fn spec_repo_violation(self) -> bool {
        self.kernel is Some && self.kernel->Some_0.repo is Some
            && (self.kernel->Some_0.rev is None || self.kernel->Some_0.version is None)
    }

    /// A kernel revision is named without the version string that module
    /// installation needs.
    pub open spec fn spec_rev_violation(self) -> bool {
        self.kernel is Some && self.kernel->Some_0.rev is Some
            && self.kernel->Some_0.version is None
    }

    /// A prebuilt kernel is named but no such path exists.
    pub open spec fn spec_prebuild_violation(self, prebuild_exists: bool) -> bool {
        self.kernel is Some && self.kernel->Some_0.prebuild is Some && !prebuild_exists
    }

    /// The first violated invariant's message, in the fixed order that
    /// `validate` checks: xfsprogs headers, xfstests headers, hooks path,
    /// kernel repo consistency, kernel rev consistency, prebuild path.
    /// `None` when the configuration is valid.
    pub open spec fn spec_validate_err(self, prebuild_exists: bool, hooks_exists: bool) -> Option<
        Seq<char>,
    > {
        if self.spec_xfsprogs_headers_violation() {
            Some(self.xfsprogs->Some_0.kernel_headers->Some_0.spec_missing_msg())
        } else if self.spec_xfstests_headers_violation() {
            Some(self.xfstests->Some_0.kernel_headers->Some_0.spec_missing_msg())
        } else if self.spec_hooks_violation(hooks_exists) {
            Some("Failed to find hooks file: "@ + self.xfstests->Some_0.hooks->Some_0@)
        } else if self.spec_repo_violation() {
            Some("While using 'repo' rev/version need to be set"@)
        } else if self.spec_rev_violation() {
            Some("Revision can not be used without 'version'"@)
        } else if self.spec_prebuild_violation(prebuild_exists) {
            Some("Kernel doesn't exists: "@ + self.kernel->Some_0.prebuild->Some_0@)
        } else {
            None
        }
    }

    /// Whether the prebuild advisory applies to this configuration; the
    /// condition under which `validate` prints its one non-fatal note.
    pub fn prebuild_note_applies(&self) -> (r: bool)
        ensures
            r == self.spec_prebuild_note(),
    {
        match &self.kernel {
            Some(k) => k.prebuild.is_some() && (k.version.is_some() || k.rev.is_some()
                || k.repo.is_some() || k.config.is_some()),
            None => false,
        }
    }

    /// Checks the semantic invariants in a fixed order and returns the first
    /// violated one as a `ConfigError` whose message names the offending
    /// field or path.  The caller supplies what the filesystem says of the
    /// two paths the settings may name: whether `kernel.prebuild` resolves
    /// to an existing path, and whether `xfstests.hooks` does.  The only
    /// side effect is the prebuild advisory printed to standard output when
    /// `spec_prebuild_note` holds; it never makes validation fail.
    pub fn validate(&self, prebuild_exists: bool, hooks_exists: bool) -> (r: Result<
        (),
        KdError,
    >)
        ensures
            r is Ok <==> self.spec_validate_err(prebuild_exists, hooks_exists) is None,
            r is Err ==> r->Err_0.kind is ConfigError && r->Err_0.message@
                == self.spec_validate_err(prebuild_exists, hooks_exists)->Some_0,
    {
        if self.prebuild_note_applies() {
            print_line("Note! You're using 'prebuild', none of the [kernel] options applies.");
        }

        if let Some(subconfig) = &self.xfsprogs {
            if let Some(headers) = &subconfig.kernel_headers {
                if !(headers.repo.is_some() && headers.rev.is_some() && headers.version.is_some()) {
                    return Err(headers.missing_error());
                }
            }
        }

        if let Some(subconfig) = &self.xfstests {
            if let Some(headers) = &subconfig.kernel_headers {
                if !(headers.repo.is_some() && headers.rev.is_some() && headers.version.is_some()) {
                    return Err(headers.missing_error());
                }
            }
            if let Some(hooks) = &subconfig.hooks {
                if !hooks_exists {
                    return Err(KdError::new(
                        KdErrorKind::ConfigError,
                        "Failed to find hooks file: ".to_owned().concat(hooks.as_str()),
                    ));
                }
            }
        }

        if let Some(subconfig) = &self.kernel {
            if subconfig.repo.is_some() && (subconfig.rev.is_none() || subconfig.version.is_none()) {
                return Err(KdError::new(
                    KdErrorKind::ConfigError,
                    "While using 'repo' rev/version need to be set".to_owned(),
                ));
            }
            if subconfig.rev.is_some() && subconfig.version.is_none() {
                return Err(KdError::new(
                    KdErrorKind::ConfigError,
                    "Revision can not be used without 'version'".to_owned(),
                ));
            }
            if let Some(prebuild) = &subconfig.prebuild {
                if !prebuild_exists {
                    return Err(KdError::new(
                        KdErrorKind::ConfigError,
                        "Kernel doesn't exists: ".to_owned().concat(prebuild.as_str()),
                    ));
                }
            }
        }

        Ok(())
    }
}

/// A configuration whose kernel section names a repository while its
/// revision or its version is unset never validates: some invariant is
/// violated, and `validate` then fails with a `ConfigError`.  When no
/// invariant checked earlier is violated, the reported message is the
/// repo-consistency one.
pub proof fn lemma_repo_requires_rev_and_version(c: Config, prebuild_exists: bool, hooks_exists: bool)
    requires
        c.kernel is Some,
        c.kernel->Some_0.repo is Some,
        c.kernel->Some_0.rev is None || c.kernel->Some_0.version is None,
    ensures
        c.spec_validate_err(prebuild_exists, hooks_exists) is Some,
        !c.spec_xfsprogs_headers_violation() && !c.spec_xfstests_headers_violation()
            && !c.spec_hooks_violation(hooks_exists) ==> c.spec_validate_err(
            prebuild_exists,
            hooks_exists,
        ) == Some("While using 'repo' rev/version need to be set"@),
{
}

/// A configuration whose kernel section names a revision without a version
/// never validates, whether or not a repository is also named.  When no
/// invariant checked earlier is violated — for the message this includes
/// the repo-consistency rule, so the repository must be unset — the
/// reported message is the revision one.
pub proof fn lemma_rev_requires_version(c: Config, prebuild_exists: bool, hooks_exists: bool)
    requires
        c.kernel is Some,
        c.kernel->Some_0.rev is Some,
        c.kernel->Some_0.version is None,
    ensures
        c.spec_validate_err(prebuild_exists, hooks_exists) is Some,
        !c.spec_xfsprogs_headers_violation() && !c.spec_xfstests_headers_violation()
            && !c.spec_hooks_violation(hooks_exists) && c.kernel->Some_0.repo is None
            ==> c.spec_validate_err(prebuild_exists, hooks_exists) == Some(
            "Revision can not be used without 'version'"@,
        ),
{
}

/// A configuration naming a prebuilt kernel path that does not exist never
/// validates; and when no invariant checked before the prebuild one is
/// violated, the error message names exactly that path.
pub proof fn lemma_missing_prebuild_names_path(c: Config, prebuild_exists: bool, hooks_exists: bool)
    requires
        c.kernel is Some,
        c.kernel->Some_0.prebuild is Some,
        !prebuild_exists,
    ensures
        c.spec_validate_err(prebuild_exists, hooks_exists) is Some,
        !c.spec_xfsprogs_headers_violation() && !c.spec_xfstests_headers_violation()
            && !c.spec_hooks_violation(hooks_exists) && !c.spec_repo_violation()
            && !c.spec_rev_violation() ==> c.spec_validate_err(prebuild_exists, hooks_exists)
            == Some("Kernel doesn't exists: "@ + c.kernel->Some_0.prebuild->Some_0@),
{
}

/// An incomplete xfsprogs kernel-headers record is always the first
/// invariant checked, so validation reports exactly its first missing
/// field, in the order repo, rev, version.  With exactly one field missing,
/// the named field is the missing one.
pub proof fn lemma_xfsprogs_headers_missing_field(c: Config, prebuild_exists: bool, hooks_exists: bool)
    requires
        c.xfsprogs is Some,
        c.xfsprogs->Some_0.kernel_headers is Some,
        !c.xfsprogs->Some_0.kernel_headers->Some_0.spec_complete(),
    ensures
        c.spec_validate_err(prebuild_exists, hooks_exists) == Some(
            c.xfsprogs->Some_0.kernel_headers->Some_0.spec_missing_msg(),
        ),
        ({
            let h = c.xfsprogs->Some_0.kernel_headers->Some_0;
            &&& (h.repo is None && h.rev is Some && h.version is Some)
                ==> h.spec_missing_msg() == "You are missing 'repo' parameter for kernel headers"@
            &&& (h.repo is Some && h.rev is None && h.version is Some)
                ==> h.spec_missing_msg() == "You are missing 'rev' parameter for kernel headers"@
            &&& (h.repo is Some && h.rev is Some && h.version is None) ==> h.spec_missing_msg()
                == "You are missing 'version' parameter for kernel headers"@
        }),
{
}

/// An incomplete xfstests kernel-headers record is reported with its first
/// missing field named, whenever the xfsprogs record (checked just before
/// it) is absent or complete.
pub proof fn lemma_xfstests_headers_missing_field(c: Config, prebuild_exists: bool, hooks_exists: bool)
    requires
        c.xfstests is Some,
        c.xfstests->Some_0.kernel_headers is Some,
        !c.xfstests->Some_0.kernel_headers->Some_0.spec_complete(),
        !c.spec_xfsprogs_headers_violation(),
    ensures
        c.spec_validate_err(prebuild_exists, hooks_exists) == Some(
            c.xfstests->Some_0.kernel_headers->Some_0.spec_missing_msg(),
        ),
        ({
            let h = c.xfstests->Some_0.kernel_headers->Some_0;
            &&& (h.repo is None && h.rev is Some && h.version is Some)
                ==> h.spec_missing_msg() == "You are missing 'repo' parameter for kernel headers"@
            &&& (h.repo is Some && h.rev is None && h.version is Some)
                ==> h.spec_missing_msg() == "You are missing 'rev' parameter for kernel headers"@
            &&& (h.repo is Some && h.rev is Some && h.version is None) ==> h.spec_missing_msg()
                == "You are missing 'version' parameter for kernel headers"@
        }),
{
}

} // verus!
