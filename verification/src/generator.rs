//! The recipe decisions of the backend: the build script, whether binaries
//! are relocated, and the input globs.

use crate::build_script::{
    install_prefix, lemma_spaced_args_concat, rendered_script, spaced_args, toolchain_lines, BuildScriptContext,
    BuildScriptView,
};
use crate::config::{strings_view, ConfigView, ZigBackendConfig};
use crate::platform::{platform_is_osx, platform_is_windows, Platform};
use crate::target::{
    build_args_of, cc_flags_of, unknown_platform_error, zig_build_args, zig_cc_flags, TargetError,
};
use vstd::prelude::*;

verus! {

/// The recipe generator of the zig backend.
#[derive(Debug, Clone, Copy)]
pub struct ZigGenerator {}

impl Default for ZigGenerator {
    fn default() -> (g: Self) {
        ZigGenerator {  }
    }
}

/// Whether the zig C toolchain is exported (the default).
pub open spec fn exports_c_toolchain(c: ConfigView) -> bool {
    c.export_c_toolchain != Some(false)
}

/// The inputs of the build script for a package built for `host` on a
/// machine of platform `build`, from the sources in `source_dir`: the
/// derived `-D` args followed by the configured extra args, the C toolchain
/// flags when the toolchain is exported, bash unless the build machine runs
/// Windows. Nothing when a zig target is needed and none can be derived.
pub open spec fn script_inputs(
    host: Platform,
    build: Platform,
    c: ConfigView,
    source_dir: Seq<char>,
) -> Option<BuildScriptView> {
    match build_args_of(host, c) {
        None => None,
        Some(args) => {
            let cc_flags = if exports_c_toolchain(c) {
                cc_flags_of(host, c)
            } else {
                None
            };
            if exports_c_toolchain(c) && cc_flags is None {
                None
            } else {
                Some(
                    BuildScriptView {
                        source_dir,
                        args: args + c.extra_args,
                        cc_flags,
                        is_bash: !platform_is_windows(build),
                        host_is_windows: platform_is_windows(host),
                    },
                )
            }
        },
    }
}

/// Whether binaries are relocated after the build: as configured; by
/// default, except when cross-compiling for macOS from a non-mac machine
/// (whose post-processing tools only exist on macOS, while zig links and
/// signs its artifacts itself).
pub open spec fn relocates_binaries(host: Platform, build: Platform, c: ConfigView) -> bool {
    match c.binary_relocation {
        Some(b) => b,
        None => !(platform_is_osx(host) && !platform_is_osx(build)),
    }
}

/// The input globs of a build: zig sources and build files, then the
/// configured extra globs.
pub open spec fn default_input_globs() -> Seq<Seq<char>> {
    seq!["**/*.zig"@, "build.zig"@, "build.zig.zon"@]
}

/// What the backend decides for a recipe.
pub struct BuildPlan {
    /// The build script.
    pub script: String,
    /// Whether rattler-build relocates binaries after the build.
    pub binary_relocation: bool,
}

fn concat_strings(a: Vec<String>, b: &Vec<String>) -> (r: Vec<String>)
    ensures
        strings_view(r@) == strings_view(a@) + strings_view(b@),
{
    let mut r = a;
    let mut i: usize = 0;
    let ghost start = r@;
    while i < b.len()
        invariant
            i <= b@.len(),
            r@ == start + b@.subrange(0, i as int),
        decreases b@.len() - i,
    {
        r.push(b[i].clone());
        assert(r@ =~= start + b@.subrange(0, i + 1));
        i = i + 1;
    }
    assert(b@.subrange(0, b@.len() as int) =~= b@);
    assert(strings_view(r@) =~= strings_view(start) + strings_view(b@));
    r
}

impl ZigGenerator {
    /// Returns the build input globs used by the backend.
    pub fn extract_input_globs_from_build(&self, config: &ZigBackendConfig) -> (globs: Vec<
        String,
    >)
        ensures
            strings_view(globs@) == default_input_globs() + config@.extra_input_globs,
    {
        let mut globs: Vec<String> = Vec::new();
        globs.push("**/*.zig".to_owned());
        globs.push("build.zig".to_owned());
        globs.push("build.zig.zon".to_owned());
        assert(strings_view(globs@) =~= default_input_globs());
        concat_strings(globs, &config.extra_input_globs)
    }

    /// The build script and relocation decision for a package built for
    /// `host_platform` on a machine of platform `build_platform`, from the
    /// sources in `source_dir`.
    pub fn build_plan(
        &self,
        config: &ZigBackendConfig,
        host_platform: &Platform,
        build_platform: &Platform,
        source_dir: String,
    ) -> (r: Result<BuildPlan, TargetError>)
        ensures
            match r {
                Ok(plan) => script_inputs(
                    *host_platform,
                    *build_platform,
                    config@,
                    source_dir@,
                ) matches Some(inputs) && plan.script@ == rendered_script(inputs)
                    && plan.binary_relocation == relocates_binaries(
                    *host_platform,
                    *build_platform,
                    config@,
                ),
                Err(e) => script_inputs(
                    *host_platform,
                    *build_platform,
                    config@,
                    source_dir@,
                ) is None && unknown_platform_error(*host_platform, e),
            },
    {
        let derived = zig_build_args(host_platform, config)?;
        let args = concat_strings(derived, &config.extra_args);
        let cc_flags = if config.export_c_toolchain != Some(false) {
            Some(zig_cc_flags(host_platform, config)?)
        } else {
            None
        };
        let context = BuildScriptContext {
            source_dir,
            args,
            cc_flags,
            is_bash: !build_platform.is_windows(),
            host_is_windows: host_platform.is_windows(),
        };
        let script = context.render();
        let cross_to_macos = host_platform.is_osx() && !build_platform.is_osx();
        let binary_relocation = match config.binary_relocation {
            Some(b) => b,
            None => !cross_to_macos,
        };
        Ok(BuildPlan { script, binary_relocation })
    }
}


/// The args the backend derives come first on the `zig build` line; the
/// configured extra args come after them.
pub proof fn lemma_extra_args_come_last(
    host: Platform,
    build: Platform,
    c: ConfigView,
    source_dir: Seq<char>,
)
    ensures
        script_inputs(host, build, c, source_dir) matches Some(inputs) ==> build_args_of(
            host,
            c,
        ) matches Some(derived) && spaced_args(inputs.args) == spaced_args(derived) + spaced_args(
            c.extra_args,
        ),
{
    if let Some(derived) = build_args_of(host, c) {
        lemma_spaced_args_concat(derived, c.extra_args);
    }
}

/// With the C toolchain export disabled, the script exports no toolchain
/// variables.
pub proof fn lemma_disabled_toolchain_exports_nothing(
    host: Platform,
    build: Platform,
    c: ConfigView,
    source_dir: Seq<char>,
)
    requires
        !exports_c_toolchain(c),
    ensures
        script_inputs(host, build, c, source_dir) matches Some(inputs) ==> toolchain_lines(
            inputs.is_bash,
            inputs.cc_flags,
        ) == Seq::<char>::empty(),
{
}

/// Binaries are relocated as configured; when unconfigured, they are not
/// relocated exactly when cross-compiling for macOS from a non-mac machine.
pub proof fn lemma_relocation_default(host: Platform, build: Platform, c: ConfigView)
    ensures
        c.binary_relocation matches Some(b) ==> relocates_binaries(host, build, c) == b,
        c.binary_relocation is None ==> (!relocates_binaries(host, build, c) <==> (
        platform_is_osx(host) && !platform_is_osx(build))),
{
}

/// The script installs into the `Library` subdirectory of the prefix
/// exactly when the package is for Windows, whatever machine builds it; and
/// it runs under bash exactly when the build machine is not Windows.
pub proof fn lemma_install_prefix_follows_host(
    host: Platform,
    build: Platform,
    c: ConfigView,
    source_dir: Seq<char>,
)
    ensures
        script_inputs(host, build, c, source_dir) matches Some(inputs) ==> {
            &&& inputs.is_bash == !(build is Win64 || build is WinArm64 || build is Win32)
            &&& install_prefix(inputs.is_bash, inputs.host_is_windows) == if inputs.is_bash {
                if host is Win64 || host is WinArm64 || host is Win32 {
                    "$PREFIX/Library"@
                } else {
                    "$PREFIX"@
                }
            } else {
                if host is Win64 || host is WinArm64 || host is Win32 {
                    "%LIBRARY_PREFIX%"@
                } else {
                    "%PREFIX%"@
                }
            }
        },
{
}

/// The build machine matters to the script only through whether it runs
/// Windows: two build machines that agree on that get the same script
/// inputs for the same package.
pub proof fn lemma_build_machine_only_picks_the_shell(
    host: Platform,
    build1: Platform,
    build2: Platform,
    c: ConfigView,
    source_dir: Seq<char>,
)
    requires
        (build1 is Win64 || build1 is WinArm64 || build1 is Win32) == (build2 is Win64
            || build2 is WinArm64 || build2 is Win32),
    ensures
        script_inputs(host, build1, c, source_dir) == script_inputs(host, build2, c, source_dir),
{
}

} // verus!
