//! Backend configuration (`[package.build.config]`).

use crate::env::{
    entry_keys, env_clone, env_entries, env_extend, env_new, extend_entries, keys_unique,
    lemma_extend_associative, lemma_extend_keeps_unique, lemma_extend_keys, lemma_lookup_extend,
    lookup, merged_keys, EnvEntry,
};
use indexmap::IndexMap;
use std::path::PathBuf;
use vstd::prelude::*;

verus! {

/// The optimization mode passed to `zig build` as `-Doptimize=<mode>`.
///
/// These are the four modes registered by `b.standardOptimizeOption` in a
/// `build.zig`.
#[derive(Debug, Clone, Copy, PartialEq, Eq, Structural)]
pub enum ZigOptimize {
    Debug,
    ReleaseSafe,
    /// The default: packages are redistributable release artifacts.
    ReleaseFast,
    ReleaseSmall,
}

/// The name of an optimization mode, as `zig build` spells it.
pub open spec fn optimize_name(mode: ZigOptimize) -> Seq<char> {
    match mode {
        ZigOptimize::Debug => "Debug"@,
        ZigOptimize::ReleaseSafe => "ReleaseSafe"@,
        ZigOptimize::ReleaseFast => "ReleaseFast"@,
        ZigOptimize::ReleaseSmall => "ReleaseSmall"@,
    }
}

impl ZigOptimize {
    pub fn as_str(&self) -> (s: &'static str)
        ensures
            s@ == optimize_name(*self),
    {
        match self {
            ZigOptimize::Debug => "Debug",
            ZigOptimize::ReleaseSafe => "ReleaseSafe",
            ZigOptimize::ReleaseFast => "ReleaseFast",
            ZigOptimize::ReleaseSmall => "ReleaseSmall",
        }
    }
}

/// The Windows ABI used when deriving the zig target triple.
#[derive(Debug, Clone, Copy, PartialEq, Eq, Structural)]
pub enum WindowsAbi {
    /// MinGW-w64/UCRT (`*-windows-gnu`). Zig bundles the MinGW headers and
    /// UCRT import libraries, so this works out of the box, including when
    /// cross-compiling.
    Gnu,
    /// MSVC ABI (`*-windows-msvc`). Requires MSVC libraries to be available.
    Msvc,
}

/// The name of a Windows ABI as it appears in a zig target triple.
pub open spec fn abi_name(abi: WindowsAbi) -> Seq<char> {
    match abi {
        WindowsAbi::Gnu => "gnu"@,
        WindowsAbi::Msvc => "msvc"@,
    }
}

impl WindowsAbi {
    pub fn as_str(&self) -> (s: &'static str)
        ensures
            s@ == abi_name(*self),
    {
        match self {
            WindowsAbi::Gnu => "gnu",
            WindowsAbi::Msvc => "msvc",
        }
    }
}

impl Default for ZigOptimize {
    fn default() -> (m: Self)
        ensures
            m == ZigOptimize::ReleaseFast,
    {
        ZigOptimize::ReleaseFast
    }
}

impl Default for WindowsAbi {
    fn default() -> (a: Self)
        ensures
            a == WindowsAbi::Gnu,
    {
        WindowsAbi::Gnu
    }
}

/// The configuration of the backend, from `[package.build.config]`.
#[derive(Debug)]
pub struct ZigBackendConfig {
    /// Extra args to pass to `zig build`, appended after the args the backend
    /// derives itself.
    pub extra_args: Vec<String>,
    /// Environment variables set while the build script runs.
    pub env: IndexMap<String, String>,
    /// Deprecated. Setting this has no effect on where debug data goes; it is
    /// always written to the `debug` subdirectory of the work directory. Like
    /// the other scalar options, a target-specific value wins when merging.
    pub debug_dir: Option<PathBuf>,
    /// Extra input globs to include in addition to the default ones.
    pub extra_input_globs: Vec<String>,
    /// Override the zig target triple passed as `-Dtarget=<triple>`. The
    /// special value `"native"` suppresses both `-Dtarget` and `-Dcpu`,
    /// producing a host-native build.
    pub target: Option<String>,
    /// The CPU feature set passed as `-Dcpu=<cpu>`. Defaults to `baseline` so
    /// that packages run on any machine of the target architecture rather
    /// than only on machines with the build machine's CPU features.
    pub cpu: Option<String>,
    /// The optimization mode passed as `-Doptimize=<mode>`. Defaults to
    /// `ReleaseFast`.
    pub optimize: Option<ZigOptimize>,
    /// The glibc version appended to `*-linux-gnu` target triples, e.g.
    /// `2.28` producing `x86_64-linux-gnu.2.28`. Defaults to `2.28`, matching
    /// the conda-forge sysroot. Set to an empty string to omit the suffix.
    pub glibc_version: Option<String>,
    /// The ABI used for Windows targets. Defaults to `gnu` (MinGW-w64/UCRT),
    /// which zig supports out of the box on every build machine.
    pub windows_abi: Option<WindowsAbi>,
    /// Minimum macOS version appended to `*-macos` target triples, e.g.
    /// `11.0` producing `aarch64-macos.11.0`. No suffix when unset.
    pub macos_deployment_target: Option<String>,
    /// Whether the project's `build.zig` uses `b.standardTargetOptions` and
    /// `b.standardOptimizeOption` (the ecosystem convention). When set to
    /// `false` the backend emits no `-Dtarget`/`-Dcpu`/`-Doptimize` flags at
    /// all and only `extra-args` control the build. Defaults to `true`.
    pub standard_options: Option<bool>,
    /// Whether rattler-build relocates binaries (rpath/install-name
    /// rewriting) after the build. When unset, relocation is enabled except
    /// when cross-compiling for macOS from a non-mac machine.
    pub binary_relocation: Option<bool>,
    /// Whether to export the zig-based C toolchain (`CC="zig cc ..."`,
    /// `CXX="zig c++ ..."`, `AR="zig ar"`, `RANLIB="zig ranlib"`, plus
    /// untargeted `CC_FOR_BUILD`/`CXX_FOR_BUILD`). Defaults to `true`.
    pub export_c_toolchain: Option<bool>,
}

/// The abstract content of a [`ZigBackendConfig`]: strings by their
/// characters, the environment by its ordered entries.
pub struct ConfigView {
    pub extra_args: Seq<Seq<char>>,
    pub env: Seq<EnvEntry>,
    pub debug_dir: Option<PathBuf>,
    pub extra_input_globs: Seq<Seq<char>>,
    pub target: Option<Seq<char>>,
    pub cpu: Option<Seq<char>>,
    pub optimize: Option<ZigOptimize>,
    pub glibc_version: Option<Seq<char>>,
    pub windows_abi: Option<WindowsAbi>,
    pub macos_deployment_target: Option<Seq<char>>,
    pub standard_options: Option<bool>,
    pub binary_relocation: Option<bool>,
    pub export_c_toolchain: Option<bool>,
}

/// The characters of each string of a sequence.
pub open spec fn strings_view(v: Seq<String>) -> Seq<Seq<char>> {
    v.map_values(|s: String| s@)
}

/// The characters of an optional string.
pub open spec fn opt_chars(o: Option<String>) -> Option<Seq<char>> {
    match o {
        Some(s) => Some(s@),
        None => None,
    }
}

impl View for ZigBackendConfig {
    type V = ConfigView;

    open spec fn view(&self) -> ConfigView {
        ConfigView {
            extra_args: strings_view(self.extra_args@),
            env: env_entries(self.env),
            debug_dir: self.debug_dir,
            extra_input_globs: strings_view(self.extra_input_globs@),
            target: opt_chars(self.target),
            cpu: opt_chars(self.cpu),
            optimize: self.optimize,
            glibc_version: opt_chars(self.glibc_version),
            windows_abi: self.windows_abi,
            macos_deployment_target: opt_chars(self.macos_deployment_target),
            standard_options: self.standard_options,
            binary_relocation: self.binary_relocation,
            export_c_toolchain: self.export_c_toolchain,
        }
    }
}

/// The configuration with nothing set.
pub open spec fn default_config() -> ConfigView {
    ConfigView {
        extra_args: Seq::empty(),
        env: Seq::empty(),
        debug_dir: None,
        extra_input_globs: Seq::empty(),
        target: None,
        cpu: None,
        optimize: None,
        glibc_version: None,
        windows_abi: None,
        macos_deployment_target: None,
        standard_options: None,
        binary_relocation: None,
        export_c_toolchain: None,
    }
}

impl Default for ZigBackendConfig {
    fn default() -> (c: Self)
        ensures
            c@ == default_config(),
    {
        let c = ZigBackendConfig {
            extra_args: Vec::new(),
            env: env_new(),
            debug_dir: None,
            extra_input_globs: Vec::new(),
            target: None,
            cpu: None,
            optimize: None,
            glibc_version: None,
            windows_abi: None,
            macos_deployment_target: None,
            standard_options: None,
            binary_relocation: None,
            export_c_toolchain: None,
        };
        assert(c@.extra_args =~= Seq::<Seq<char>>::empty());
        assert(c@.extra_input_globs =~= Seq::<Seq<char>>::empty());
        c
    }
}

/// The first value when it is set, the second otherwise.
pub open spec fn prefer<T>(first: Option<T>, second: Option<T>) -> Option<T> {
    match first {
        Some(v) => Some(v),
        None => second,
    }
}

/// The target-specific list when it is non-empty, the base list otherwise.
pub open spec fn list_override(base: Seq<Seq<char>>, target: Seq<Seq<char>>) -> Seq<Seq<char>> {
    if target.len() == 0 {
        base
    } else {
        target
    }
}

/// A base configuration merged with a target-specific one:
/// - `extra_args`, `extra_input_globs`: the target's list replaces the
///   base's unless it is empty;
/// - `env`: the target's variables are inserted into the base's, so they
///   override base variables with the same name;
/// - scalar options, `debug_dir` among them: the target's value wins when
///   set.
pub open spec fn merged_config(base: ConfigView, target: ConfigView) -> ConfigView {
    ConfigView {
        extra_args: list_override(base.extra_args, target.extra_args),
        env: extend_entries(base.env, target.env),
        debug_dir: prefer(target.debug_dir, base.debug_dir),
        extra_input_globs: list_override(base.extra_input_globs, target.extra_input_globs),
        target: prefer(target.target, base.target),
        cpu: prefer(target.cpu, base.cpu),
        optimize: prefer(target.optimize, base.optimize),
        glibc_version: prefer(target.glibc_version, base.glibc_version),
        windows_abi: prefer(target.windows_abi, base.windows_abi),
        macos_deployment_target: prefer(
            target.macos_deployment_target,
            base.macos_deployment_target,
        ),
        standard_options: prefer(target.standard_options, base.standard_options),
        binary_relocation: prefer(target.binary_relocation, base.binary_relocation),
        export_c_toolchain: prefer(target.export_c_toolchain, base.export_c_toolchain),
    }
}

fn clone_strings(v: &Vec<String>) -> (r: Vec<String>)
    ensures
        strings_view(r@) == strings_view(v@),
{
    let r = v.clone();
    assert(strings_view(r@) =~= strings_view(v@));
    r
}

fn clone_opt_string(o: &Option<String>) -> (r: Option<String>)
    ensures
        opt_chars(r) == opt_chars(*o),
{
    match o {
        Some(s) => Some(s.clone()),
        None => None,
    }
}

fn prefer_string(first: &Option<String>, second: &Option<String>) -> (r: Option<String>)
    ensures
        opt_chars(r) == prefer(opt_chars(*first), opt_chars(*second)),
{
    match first {
        Some(s) => Some(s.clone()),
        None => clone_opt_string(second),
    }
}

fn override_list(base: &Vec<String>, target: &Vec<String>) -> (r: Vec<String>)
    ensures
        strings_view(r@) == list_override(strings_view(base@), strings_view(target@)),
{
    if target.len() == 0 {
        clone_strings(base)
    } else {
        clone_strings(target)
    }
}

impl Clone for ZigBackendConfig {
    fn clone(&self) -> (c: Self)
        ensures
            c@ == self@,
            keys_unique(c@.env),
    {
        ZigBackendConfig {
            extra_args: clone_strings(&self.extra_args),
            env: env_clone(&self.env),
            debug_dir: match &self.debug_dir {
                Some(p) => Some(p.clone()),
                None => None,
            },
            extra_input_globs: clone_strings(&self.extra_input_globs),
            target: clone_opt_string(&self.target),
            cpu: clone_opt_string(&self.cpu),
            optimize: self.optimize,
            glibc_version: clone_opt_string(&self.glibc_version),
            windows_abi: self.windows_abi,
            macos_deployment_target: clone_opt_string(&self.macos_deployment_target),
            standard_options: self.standard_options,
            binary_relocation: self.binary_relocation,
            export_c_toolchain: self.export_c_toolchain,
        }
    }
}

impl ZigBackendConfig {
    /// Merge this configuration with a target-specific configuration.
    /// Target-specific values override base values using the following rules:
    /// - `extra_args`: platform-specific completely replaces base
    /// - `env`: platform env vars override base, others merge
    /// - `extra_input_globs`: platform-specific completely replaces base
    /// - scalar options: platform-specific value wins when set
    pub fn merge_with_target_config(&self, target_config: &Self) -> (merged: Self)
        ensures
            merged@ == merged_config(self@, target_config@),
            keys_unique(self@.env),
            keys_unique(target_config@.env),
            keys_unique(merged@.env),
            entry_keys(merged@.env) == merged_keys(
                entry_keys(self@.env),
                entry_keys(target_config@.env),
            ),
            forall|k: Seq<char>|
                lookup(merged@.env, k) == prefer(
                    #[trigger] lookup(target_config@.env, k),
                    lookup(self@.env, k),
                ),
    {
        let mut env = env_clone(&self.env);
        let target_env = env_clone(&target_config.env);
        env_extend(&mut env, target_env);
        proof {
            lemma_extend_keys(self@.env, target_config@.env);
            assert forall|k: Seq<char>|
                lookup(extend_entries(self@.env, target_config@.env), k) == prefer(
                    #[trigger] lookup(target_config@.env, k),
                    lookup(self@.env, k),
                ) by {
                lemma_lookup_extend(self@.env, target_config@.env, k);
            }
        }
        let debug_dir = match &target_config.debug_dir {
            Some(p) => Some(p.clone()),
            None => match &self.debug_dir {
                Some(p) => Some(p.clone()),
                None => None,
            },
        };
        ZigBackendConfig {
            extra_args: override_list(&self.extra_args, &target_config.extra_args),
            env,
            debug_dir,
            extra_input_globs: override_list(
                &self.extra_input_globs,
                &target_config.extra_input_globs,
            ),
            target: prefer_string(&target_config.target, &self.target),
            cpu: prefer_string(&target_config.cpu, &self.cpu),
            optimize: match target_config.optimize {
                Some(o) => Some(o),
                None => self.optimize,
            },
            glibc_version: prefer_string(&target_config.glibc_version, &self.glibc_version),
            windows_abi: match target_config.windows_abi {
                Some(a) => Some(a),
                None => self.windows_abi,
            },
            macos_deployment_target: prefer_string(
                &target_config.macos_deployment_target,
                &self.macos_deployment_target,
            ),
            standard_options: match target_config.standard_options {
                Some(b) => Some(b),
                None => self.standard_options,
            },
            binary_relocation: match target_config.binary_relocation {
                Some(b) => Some(b),
                None => self.binary_relocation,
            },
            export_c_toolchain: match target_config.export_c_toolchain {
                Some(b) => Some(b),
                None => self.export_c_toolchain,
            },
        }
    }
}


/// Merging with a target configuration that sets nothing gives back the
/// base configuration.
pub proof fn lemma_merge_with_unset_target(base: ConfigView)
    ensures
        merged_config(base, default_config()) == base,
{
}

/// Target environment variables override base variables with the same
/// name; every other variable keeps its base value.
pub proof fn lemma_merge_env_precedence(base: ConfigView, target: ConfigView, key: Seq<char>)
    requires
        keys_unique(target.env),
    ensures
        lookup(merged_config(base, target).env, key) == prefer(
            lookup(target.env, key),
            lookup(base.env, key),
        ),
{
    lemma_lookup_extend(base.env, target.env, key);
}

/// The merged environment lists the base's variables in the base's order,
/// followed by the target's variables that the base lacks, in the target's
/// order.
pub proof fn lemma_merge_env_order(base: ConfigView, target: ConfigView)
    requires
        keys_unique(target.env),
    ensures
        entry_keys(merged_config(base, target).env) == merged_keys(
            entry_keys(base.env),
            entry_keys(target.env),
        ),
{
    lemma_extend_keys(base.env, target.env);
}

/// Merging is associative: merging `a` with `b` and the result with `c`
/// gives what merging `a` with `b` merged with `c` gives, field for field,
/// with the environment variables in the same order.
pub proof fn lemma_merge_associative(a: ConfigView, b: ConfigView, c: ConfigView)
    requires
        keys_unique(a.env),
        keys_unique(b.env),
        keys_unique(c.env),
    ensures
        merged_config(merged_config(a, b), c) == merged_config(a, merged_config(b, c)),
{
    lemma_extend_associative(a.env, b.env, c.env);
}

/// The merged environment is still a map: every variable occurs once.
pub proof fn lemma_merge_env_keys_unique(base: ConfigView, target: ConfigView)
    requires
        keys_unique(base.env),
    ensures
        keys_unique(merged_config(base, target).env),
{
    lemma_extend_keeps_unique(base.env, target.env);
}

/// The target-specific value of every scalar option wins when it is set;
/// when it is unset, the base value is kept. Each list option is the
/// target's list when that is non-empty, and the base's list otherwise.
pub proof fn lemma_merge_target_scalars_win(base: ConfigView, target: ConfigView)
    ensures
        ({
            let m = merged_config(base, target);
            &&& target.target matches Some(v) ==> m.target == Some(v)
            &&& target.target is None ==> m.target == base.target
            &&& target.cpu matches Some(v) ==> m.cpu == Some(v)
            &&& target.cpu is None ==> m.cpu == base.cpu
            &&& target.optimize matches Some(v) ==> m.optimize == Some(v)
            &&& target.optimize is None ==> m.optimize == base.optimize
            &&& target.glibc_version matches Some(v) ==> m.glibc_version == Some(v)
            &&& target.glibc_version is None ==> m.glibc_version == base.glibc_version
            &&& target.windows_abi matches Some(v) ==> m.windows_abi == Some(v)
            &&& target.windows_abi is None ==> m.windows_abi == base.windows_abi
            &&& target.macos_deployment_target matches Some(v) ==> m.macos_deployment_target
                == Some(v)
            &&& target.macos_deployment_target is None ==> m.macos_deployment_target
                == base.macos_deployment_target
            &&& target.standard_options matches Some(v) ==> m.standard_options == Some(v)
            &&& target.standard_options is None ==> m.standard_options == base.standard_options
            &&& target.binary_relocation matches Some(v) ==> m.binary_relocation == Some(v)
            &&& target.binary_relocation is None ==> m.binary_relocation
                == base.binary_relocation
            &&& target.export_c_toolchain matches Some(v) ==> m.export_c_toolchain == Some(v)
            &&& target.export_c_toolchain is None ==> m.export_c_toolchain
                == base.export_c_toolchain
            &&& target.debug_dir matches Some(v) ==> m.debug_dir == Some(v)
            &&& target.debug_dir is None ==> m.debug_dir == base.debug_dir
            &&& target.extra_args.len() > 0 ==> m.extra_args == target.extra_args
            &&& target.extra_args.len() == 0 ==> m.extra_args == base.extra_args
            &&& target.extra_input_globs.len() > 0 ==> m.extra_input_globs
                == target.extra_input_globs
            &&& target.extra_input_globs.len() == 0 ==> m.extra_input_globs
                == base.extra_input_globs
        }),
{
}

} // verus!
