//! Mapping from conda platforms to zig target triples, and the flags the
//! backend derives from them.
//!
//! The backend always emits an explicit `-Dtarget` (and `-Dcpu`) instead of
//! relying on zig's native default. This makes a native build just the
//! special case of a cross build where the target happens to equal the build
//! machine, and it keeps packages redistributable: without `-Dcpu=baseline`
//! zig compiles for the build machine's CPU features.

use crate::config::{
    abi_name, optimize_name, strings_view, ConfigView, WindowsAbi, ZigBackendConfig, ZigOptimize,
};
use crate::platform::Platform;
use vstd::prelude::*;

verus! {

/// The default glibc version appended to `*-linux-gnu` triples. Matches the
/// glibc of the conda-forge `sysroot_linux-64` in current use.
pub const DEFAULT_GLIBC_VERSION: &'static str = "2.28";

/// The CPU feature set used when none is configured.
pub const DEFAULT_CPU: &'static str = "baseline";

/// The `.<glibc>` suffix of linux triples: the configured version (none for
/// an empty one), or the default version.
pub open spec fn glibc_suffix(c: ConfigView) -> Seq<char> {
    match c.glibc_version {
        Some(v) => if v.len() == 0 {
            Seq::empty()
        } else {
            "."@ + v
        },
        None => "."@ + DEFAULT_GLIBC_VERSION@,
    }
}

/// The `.<version>` suffix of macOS triples, when a deployment target is set.
pub open spec fn macos_suffix(c: ConfigView) -> Seq<char> {
    match c.macos_deployment_target {
        Some(v) => "."@ + v,
        None => Seq::empty(),
    }
}

/// The Windows ABI in effect: the configured one, `gnu` by default.
pub open spec fn abi_of(c: ConfigView) -> WindowsAbi {
    match c.windows_abi {
        Some(a) => a,
        None => WindowsAbi::Gnu,
    }
}

/// The zig target triple of a conda platform under a configuration;
/// nothing for a platform zig has no obvious triple for.
pub open spec fn triple_of(p: Platform, c: ConfigView) -> Option<Seq<char>> {
    match p {
        Platform::Linux64 => Some("x86_64-linux-gnu"@ + glibc_suffix(c)),
        Platform::LinuxAarch64 => Some("aarch64-linux-gnu"@ + glibc_suffix(c)),
        Platform::Linux32 => Some("x86-linux-gnu"@ + glibc_suffix(c)),
        Platform::LinuxArmV6l => Some("arm-linux-gnueabihf"@ + glibc_suffix(c)),
        Platform::LinuxArmV7l => Some("arm-linux-gnueabihf"@ + glibc_suffix(c)),
        Platform::LinuxPpc64le => Some("powerpc64le-linux-gnu"@ + glibc_suffix(c)),
        Platform::LinuxPpc64 => Some("powerpc64-linux-gnu"@ + glibc_suffix(c)),
        Platform::LinuxS390X => Some("s390x-linux-gnu"@ + glibc_suffix(c)),
        Platform::LinuxRiscv64 => Some("riscv64-linux-gnu"@ + glibc_suffix(c)),
        Platform::LinuxLoongArch64 => Some("loongarch64-linux-gnu"@ + glibc_suffix(c)),
        Platform::Osx64 => Some("x86_64-macos"@ + macos_suffix(c)),
        Platform::OsxArm64 => Some("aarch64-macos"@ + macos_suffix(c)),
        Platform::Win64 => Some("x86_64-windows-"@ + abi_name(abi_of(c))),
        Platform::WinArm64 => Some("aarch64-windows-"@ + abi_name(abi_of(c))),
        Platform::Win32 => Some("x86-windows-"@ + abi_name(abi_of(c))),
        Platform::EmscriptenWasm32 => Some("wasm32-emscripten"@),
        Platform::WasiWasm32 => Some("wasm32-wasi"@),
        Platform::FreeBsd64 => Some("x86_64-freebsd"@),
        Platform::FreeBsdArm64 => Some("aarch64-freebsd"@),
        Platform::Other(_) => None,
    }
}

/// Why no zig target could be derived.
#[derive(Debug, Clone)]
pub enum TargetError {
    /// The platform (by its conda name) has no known zig target triple.
    UnknownPlatform { platform: String },
}

/// The text of an unknown-platform error.
pub open spec fn unknown_platform_message(platform: Seq<char>) -> Seq<char> {
    "pixi-build-zig does not know a zig target triple for platform `"@ + platform
        + "`; set `target` in [package.build.config] to provide one explicitly"@
}

impl TargetError {
    /// The error as text.
    pub fn message(&self) -> (m: String)
        ensures
            match self {
                TargetError::UnknownPlatform { platform } => m@ == unknown_platform_message(
                    platform@,
                ),
            },
    {
        match self {
            TargetError::UnknownPlatform { platform } => {
                let mut m =
                    "pixi-build-zig does not know a zig target triple for platform `".to_owned();
                m.append(platform.as_str());
                m.append("`; set `target` in [package.build.config] to provide one explicitly");
                m
            },
        }
    }
}

/// The error `zig_triple` gives for a platform without a triple: the
/// platform's conda name.
pub open spec fn unknown_platform_error(p: Platform, e: TargetError) -> bool {
    match (p, e) {
        (Platform::Other(name), TargetError::UnknownPlatform { platform }) => platform@ == name@,
        _ => false,
    }
}

fn append_str(s: String, tail: &str) -> (r: String)
    ensures
        r@ == s@ + tail@,
{
    let mut s = s;
    s.append(tail);
    s
}

fn glibc_suffix_of(config: &ZigBackendConfig) -> (r: String)
    ensures
        r@ == glibc_suffix(config@),
{
    match &config.glibc_version {
        Some(version) => {
            if version.as_str().is_empty() {
                String::new()
            } else {
                append_str(".".to_owned(), version.as_str())
            }
        },
        None => append_str(".".to_owned(), DEFAULT_GLIBC_VERSION),
    }
}

fn macos_suffix_of(config: &ZigBackendConfig) -> (r: String)
    ensures
        r@ == macos_suffix(config@),
{
    match &config.macos_deployment_target {
        Some(version) => append_str(".".to_owned(), version.as_str()),
        None => String::new(),
    }
}

/// Derive the zig target triple for a conda platform.
///
/// Returns an error for platforms zig has no obvious triple for; users can
/// always take over with the `target` config option.
pub fn zig_triple(host_platform: &Platform, config: &ZigBackendConfig) -> (r: Result<
    String,
    TargetError,
>)
    ensures
        match r {
            Ok(triple) => triple_of(*host_platform, config@) == Some(triple@),
            Err(e) => triple_of(*host_platform, config@) is None && unknown_platform_error(
                *host_platform,
                e,
            ),
        },
{
    let glibc = glibc_suffix_of(config);
    let windows_abi = match config.windows_abi {
        Some(a) => a,
        None => WindowsAbi::Gnu,
    };
    let macos = macos_suffix_of(config);
    let triple = match host_platform {
        Platform::Linux64 => append_str("x86_64-linux-gnu".to_owned(), glibc.as_str()),
        Platform::LinuxAarch64 => append_str("aarch64-linux-gnu".to_owned(), glibc.as_str()),
        Platform::Linux32 => append_str("x86-linux-gnu".to_owned(), glibc.as_str()),
        Platform::LinuxArmV6l | Platform::LinuxArmV7l => append_str(
            "arm-linux-gnueabihf".to_owned(),
            glibc.as_str(),
        ),
        Platform::LinuxPpc64le => append_str("powerpc64le-linux-gnu".to_owned(), glibc.as_str()),
        Platform::LinuxPpc64 => append_str("powerpc64-linux-gnu".to_owned(), glibc.as_str()),
        Platform::LinuxS390X => append_str("s390x-linux-gnu".to_owned(), glibc.as_str()),
        Platform::LinuxRiscv64 => append_str("riscv64-linux-gnu".to_owned(), glibc.as_str()),
        Platform::LinuxLoongArch64 => append_str(
            "loongarch64-linux-gnu".to_owned(),
            glibc.as_str(),
        ),
        Platform::Osx64 => append_str("x86_64-macos".to_owned(), macos.as_str()),
        Platform::OsxArm64 => append_str("aarch64-macos".to_owned(), macos.as_str()),
        Platform::Win64 => append_str("x86_64-windows-".to_owned(), windows_abi.as_str()),
        Platform::WinArm64 => append_str("aarch64-windows-".to_owned(), windows_abi.as_str()),
        Platform::Win32 => append_str("x86-windows-".to_owned(), windows_abi.as_str()),
        Platform::EmscriptenWasm32 => "wasm32-emscripten".to_owned(),
        Platform::WasiWasm32 => "wasm32-wasi".to_owned(),
        Platform::FreeBsd64 => "x86_64-freebsd".to_owned(),
        Platform::FreeBsdArm64 => "aarch64-freebsd".to_owned(),
        Platform::Other(name) => {
            return Err(TargetError::UnknownPlatform { platform: name.clone() });
        },
    };
    Ok(triple)
}


/// The CPU feature set in effect: the configured one, `baseline` by default.
pub open spec fn cpu_of(c: ConfigView) -> Seq<char> {
    match c.cpu {
        Some(v) => v,
        None => DEFAULT_CPU@,
    }
}

/// The value of `target` that asks for a host-native build.
pub open spec fn native_target() -> Seq<char> {
    "native"@
}

/// The clang-style flags that select a triple and a CPU.
pub open spec fn cc_flags_for(triple: Seq<char>, cpu: Seq<char>) -> Seq<char> {
    " -target "@ + triple + " -mcpu="@ + cpu
}

/// The flags appended to `zig cc` / `zig c++`: none for a native build, the
/// configured or derived triple and the CPU otherwise; nothing when no
/// triple can be derived.
pub open spec fn cc_flags_of(p: Platform, c: ConfigView) -> Option<Seq<char>> {
    match c.target {
        Some(t) => if t == native_target() {
            Some(Seq::empty())
        } else {
            Some(cc_flags_for(t, cpu_of(c)))
        },
        None => match triple_of(p, c) {
            Some(t) => Some(cc_flags_for(t, cpu_of(c))),
            None => None,
        },
    }
}

/// The optimization mode in effect: the configured one, `ReleaseFast` by
/// default.
pub open spec fn optimize_of(c: ConfigView) -> ZigOptimize {
    match c.optimize {
        Some(o) => o,
        None => ZigOptimize::ReleaseFast,
    }
}

/// `-Doptimize=<mode>`.
pub open spec fn optimize_arg(c: ConfigView) -> Seq<char> {
    "-Doptimize="@ + optimize_name(optimize_of(c))
}

/// `-Dtarget=<triple>` followed by `-Dcpu=<cpu>`.
pub open spec fn target_args(triple: Seq<char>, c: ConfigView) -> Seq<Seq<char>> {
    seq!["-Dtarget="@ + triple, "-Dcpu="@ + cpu_of(c)]
}

/// Whether `build.zig` follows the convention of registering the standard
/// target and optimize options (the default).
pub open spec fn uses_standard_options(c: ConfigView) -> bool {
    c.standard_options != Some(false)
}

/// The `-D` args the backend derives: none when standard options are off;
/// otherwise the target and CPU (unless the build is native) followed by the
/// optimization mode. Nothing when a triple is needed and none can be
/// derived.
pub open spec fn build_args_of(p: Platform, c: ConfigView) -> Option<Seq<Seq<char>>> {
    if !uses_standard_options(c) {
        Some(Seq::empty())
    } else {
        match c.target {
            Some(t) => if t == native_target() {
                Some(seq![optimize_arg(c)])
            } else {
                Some(target_args(t, c).push(optimize_arg(c)))
            },
            None => match triple_of(p, c) {
                Some(t) => Some(target_args(t, c).push(optimize_arg(c))),
                None => None,
            },
        }
    }
}

fn is_native(target: &String) -> (r: bool)
    ensures
        r == (target@ == native_target()),
{
    let native = "native".to_owned();
    *target == native
}

fn cpu_value(config: &ZigBackendConfig) -> (r: &str)
    ensures
        r@ == cpu_of(config@),
{
    match &config.cpu {
        Some(cpu) => cpu.as_str(),
        None => DEFAULT_CPU,
    }
}

/// The target flags appended to `zig cc` / `zig c++` when exporting the C
/// toolchain environment (`CC`, `CXX`, ...). Empty when the user opted into a
/// native build via `target = "native"`.
///
/// These are clang-style flags (`-target`, `-mcpu`), not `zig build` `-D`
/// options, because they are consumed by subprocesses the build spawns
/// (configure/make scripts probing `$CC`), not by `build.zig`.
pub fn zig_cc_flags(host_platform: &Platform, config: &ZigBackendConfig) -> (r: Result<
    String,
    TargetError,
>)
    ensures
        match r {
            Ok(flags) => cc_flags_of(*host_platform, config@) == Some(flags@),
            Err(e) => cc_flags_of(*host_platform, config@) is None && unknown_platform_error(
                *host_platform,
                e,
            ),
        },
{
    let triple = match &config.target {
        Some(t) => {
            if is_native(t) {
                return Ok(String::new());
            }
            t.clone()
        },
        None => zig_triple(host_platform, config)?,
    };
    let cpu = cpu_value(config);
    let flags = append_str(" -target ".to_owned(), triple.as_str());
    let flags = append_str(flags, " -mcpu=");
    Ok(append_str(flags, cpu))
}

fn optimize_flag(config: &ZigBackendConfig) -> (r: String)
    ensures
        r@ == optimize_arg(config@),
{
    let mode = match config.optimize {
        Some(o) => o,
        None => ZigOptimize::ReleaseFast,
    };
    append_str("-Doptimize=".to_owned(), mode.as_str())
}

fn push_target_args(args: &mut Vec<String>, triple: &str, config: &ZigBackendConfig)
    ensures
        strings_view(final(args)@) == strings_view(old(args)@) + target_args(triple@, config@),
{
    args.push(append_str("-Dtarget=".to_owned(), triple));
    args.push(append_str("-Dcpu=".to_owned(), cpu_value(config)));
    assert(strings_view(args@) =~= strings_view(old(args)@) + target_args(triple@, config@));
}

/// The `-D` args the backend derives from the platform and configuration.
///
/// Empty when `standard-options = false`, because the flags only exist for
/// projects whose `build.zig` calls `b.standardTargetOptions` and
/// `b.standardOptimizeOption`.
pub fn zig_build_args(host_platform: &Platform, config: &ZigBackendConfig) -> (r: Result<
    Vec<String>,
    TargetError,
>)
    ensures
        match r {
            Ok(args) => build_args_of(*host_platform, config@) == Some(strings_view(args@)),
            Err(e) => build_args_of(*host_platform, config@) is None && unknown_platform_error(
                *host_platform,
                e,
            ),
        },
{
    if config.standard_options == Some(false) {
        let empty: Vec<String> = Vec::new();
        assert(strings_view(empty@) =~= Seq::<Seq<char>>::empty());
        return Ok(empty);
    }
    let mut args: Vec<String> = Vec::new();
    assert(strings_view(args@) =~= Seq::<Seq<char>>::empty());
    match &config.target {
        Some(t) => {
            if !is_native(t) {
                push_target_args(&mut args, t.as_str(), config);
            }
        },
        None => {
            let triple = zig_triple(host_platform, config)?;
            push_target_args(&mut args, triple.as_str(), config);
        },
    }
    let ghost before = args@;
    args.push(optimize_flag(config));
    assert(strings_view(args@) =~= strings_view(before).push(optimize_arg(config@)));
    Ok(args)
}


// ---------------------------------------------------------------------------
// Laws
// ---------------------------------------------------------------------------

/// A zig triple is derived for exactly the platforms that have a variant
/// of their own.
pub proof fn lemma_triple_known_iff_mapped(p: Platform, c: ConfigView)
    ensures
        triple_of(p, c) is None <==> p is Other,
{
}

/// The derived `-D` args are empty exactly when standard options are off;
/// otherwise they end with the optimization mode.
pub proof fn lemma_build_args_shape(p: Platform, c: ConfigView)
    ensures
        build_args_of(p, c) matches Some(args) ==> {
            &&& (args.len() == 0 <==> !uses_standard_options(c))
            &&& uses_standard_options(c) ==> args.last() == optimize_arg(c)
        },
{
}

/// The triple a build targets: the configured one, or the one derived from
/// the platform.
pub open spec fn selected_triple(p: Platform, c: ConfigView) -> Option<Seq<char>> {
    match c.target {
        Some(t) => Some(t),
        None => triple_of(p, c),
    }
}

/// The C toolchain flags follow the zig build args: unless the build is
/// native, both name the same triple and CPU, and both fail together.
pub proof fn lemma_cc_flags_follow_build_args(p: Platform, c: ConfigView)
    requires
        uses_standard_options(c),
        c.target != Some(native_target()),
    ensures
        (build_args_of(p, c) is None) == (cc_flags_of(p, c) is None),
        selected_triple(p, c) matches Some(t) ==> {
            &&& build_args_of(p, c) matches Some(args)
            &&& args.len() == 3
            &&& args[0] == "-Dtarget="@ + t
            &&& args[1] == "-Dcpu="@ + cpu_of(c)
            &&& cc_flags_of(p, c) == Some(cc_flags_for(t, cpu_of(c)))
        },
{
}

/// A native build selects no target: no `-Dtarget`/`-Dcpu` args and no C
/// toolchain target flags, whatever the platform.
pub proof fn lemma_native_build_selects_no_target(p: Platform, c: ConfigView)
    requires
        c.target == Some(native_target()),
    ensures
        cc_flags_of(p, c) == Some(Seq::<char>::empty()),
        build_args_of(p, c) == if uses_standard_options(c) {
            Some(seq![optimize_arg(c)])
        } else {
            Some(Seq::<Seq<char>>::empty())
        },
{
}

/// The C toolchain flags are empty exactly for a native build.
pub proof fn lemma_cc_flags_empty_iff_native(p: Platform, c: ConfigView)
    ensures
        cc_flags_of(p, c) matches Some(f) ==> (f.len() == 0 <==> c.target == Some(native_target())),
{
    reveal_strlit(" -target ");
    if let Some(f) = cc_flags_of(p, c) {
        if c.target != Some(native_target()) {
            assert(f.len() >= 9);
        }
    }
}

/// The configured optimization mode reaches `zig build` unchanged: with
/// standard options on, the last derived arg is `-Doptimize=` followed by
/// the name of the configured mode, and `ReleaseFast` when none is set.
pub proof fn lemma_optimize_mode_passed_through(p: Platform, c: ConfigView)
    requires
        c.standard_options != Some(false),
    ensures
        build_args_of(p, c) matches Some(args) ==> args.len() > 0 && args.last() == match c.optimize {
            Some(ZigOptimize::Debug) => "-Doptimize=Debug"@,
            Some(ZigOptimize::ReleaseSafe) => "-Doptimize=ReleaseSafe"@,
            Some(ZigOptimize::ReleaseFast) => "-Doptimize=ReleaseFast"@,
            Some(ZigOptimize::ReleaseSmall) => "-Doptimize=ReleaseSmall"@,
            None => "-Doptimize=ReleaseFast"@,
        },
{
    reveal_strlit("-Doptimize=");
    reveal_strlit("Debug");
    reveal_strlit("ReleaseSafe");
    reveal_strlit("ReleaseFast");
    reveal_strlit("ReleaseSmall");
    reveal_strlit("-Doptimize=Debug");
    reveal_strlit("-Doptimize=ReleaseSafe");
    reveal_strlit("-Doptimize=ReleaseFast");
    reveal_strlit("-Doptimize=ReleaseSmall");
    assert("-Doptimize="@ + "Debug"@ =~= "-Doptimize=Debug"@);
    assert("-Doptimize="@ + "ReleaseSafe"@ =~= "-Doptimize=ReleaseSafe"@);
    assert("-Doptimize="@ + "ReleaseFast"@ =~= "-Doptimize=ReleaseFast"@);
    assert("-Doptimize="@ + "ReleaseSmall"@ =~= "-Doptimize=ReleaseSmall"@);
}

/// A macOS triple carries the deployment target: with one set to `v`, the
/// triple is the platform's macOS triple followed by `.` and `v`; without
/// one, it is the bare macOS triple.
pub proof fn lemma_macos_triple_carries_deployment_target(c: ConfigView)
    ensures
        c.macos_deployment_target matches Some(v) ==> {
            &&& triple_of(Platform::Osx64, c) == Some("x86_64-macos."@ + v)
            &&& triple_of(Platform::OsxArm64, c) == Some("aarch64-macos."@ + v)
        },
        c.macos_deployment_target is None ==> {
            &&& triple_of(Platform::Osx64, c) == Some("x86_64-macos"@)
            &&& triple_of(Platform::OsxArm64, c) == Some("aarch64-macos"@)
        },
{
    reveal_strlit("x86_64-macos");
    reveal_strlit("aarch64-macos");
    reveal_strlit("x86_64-macos.");
    reveal_strlit("aarch64-macos.");
    reveal_strlit(".");
    if let Some(v) = c.macos_deployment_target {
        assert("x86_64-macos"@ + ("."@ + v) =~= "x86_64-macos."@ + v);
        assert("aarch64-macos"@ + ("."@ + v) =~= "aarch64-macos."@ + v);
    } else {
        assert("x86_64-macos"@ + Seq::<char>::empty() =~= "x86_64-macos"@);
        assert("aarch64-macos"@ + Seq::<char>::empty() =~= "aarch64-macos"@);
    }
}

/// The Linux platforms, by their variants.
pub open spec fn is_linux_variant(p: Platform) -> bool {
    p is Linux64 || p is LinuxAarch64 || p is Linux32 || p is LinuxArmV6l || p is LinuxArmV7l
        || p is LinuxPpc64le || p is LinuxPpc64 || p is LinuxS390X || p is LinuxRiscv64
        || p is LinuxLoongArch64
}

/// A Linux triple carries the glibc version: a configured non-empty version
/// `v` is appended as `.v` to the triple without any version, an empty one
/// appends nothing, and by default `.2.28` is appended.
pub proof fn lemma_linux_triple_carries_glibc(p: Platform, c: ConfigView)
    requires
        is_linux_variant(p),
    ensures
        ({
            let bare = triple_of(p, ConfigView { glibc_version: Some(Seq::empty()), ..c });
            &&& bare is Some
            &&& triple_of(p, c) == match c.glibc_version {
                Some(v) => if v.len() == 0 {
                    bare
                } else {
                    Some(bare.unwrap() + "."@ + v)
                },
                None => Some(bare.unwrap() + ".2.28"@),
            }
        }),
{
    reveal_strlit(".");
    reveal_strlit(".2.28");
    reveal_strlit("2.28");
    let bare = triple_of(p, ConfigView { glibc_version: Some(Seq::empty()), ..c }).unwrap();
    assert(bare + Seq::<char>::empty() =~= bare);
    if let Some(v) = c.glibc_version {
        assert(bare + ("."@ + v) =~= bare + "."@ + v);
        if v.len() == 0 {
            assert(v =~= Seq::<char>::empty());
        }
    } else {
        assert("."@ + "2.28"@ =~= ".2.28"@);
        assert(bare + ("."@ + "2.28"@) =~= bare + ".2.28"@);
    }
}

/// A Windows triple ends in the ABI: `-msvc` when MSVC is configured, and
/// `-gnu` otherwise.
pub proof fn lemma_windows_triple_abi(c: ConfigView)
    ensures
        c.windows_abi == Some(WindowsAbi::Msvc) ==> {
            &&& triple_of(Platform::Win64, c) == Some("x86_64-windows-msvc"@)
            &&& triple_of(Platform::WinArm64, c) == Some("aarch64-windows-msvc"@)
            &&& triple_of(Platform::Win32, c) == Some("x86-windows-msvc"@)
        },
        c.windows_abi != Some(WindowsAbi::Msvc) ==> {
            &&& triple_of(Platform::Win64, c) == Some("x86_64-windows-gnu"@)
            &&& triple_of(Platform::WinArm64, c) == Some("aarch64-windows-gnu"@)
            &&& triple_of(Platform::Win32, c) == Some("x86-windows-gnu"@)
        },
{
    reveal_strlit("x86_64-windows-");
    reveal_strlit("aarch64-windows-");
    reveal_strlit("x86-windows-");
    reveal_strlit("msvc");
    reveal_strlit("gnu");
    reveal_strlit("x86_64-windows-msvc");
    reveal_strlit("aarch64-windows-msvc");
    reveal_strlit("x86-windows-msvc");
    reveal_strlit("x86_64-windows-gnu");
    reveal_strlit("aarch64-windows-gnu");
    reveal_strlit("x86-windows-gnu");
    assert("x86_64-windows-"@ + "msvc"@ =~= "x86_64-windows-msvc"@);
    assert("aarch64-windows-"@ + "msvc"@ =~= "aarch64-windows-msvc"@);
    assert("x86-windows-"@ + "msvc"@ =~= "x86-windows-msvc"@);
    assert("x86_64-windows-"@ + "gnu"@ =~= "x86_64-windows-gnu"@);
    assert("aarch64-windows-"@ + "gnu"@ =~= "aarch64-windows-gnu"@);
    assert("x86-windows-"@ + "gnu"@ =~= "x86-windows-gnu"@);
}

/// With standard options on and no target configured, the derived args
/// are exactly `-Dtarget=` with the platform's triple, `-Dcpu=` with the
/// configured CPU (`baseline` by default), and the optimization mode.
pub proof fn lemma_build_args_select_platform_triple(p: Platform, c: ConfigView)
    requires
        c.standard_options != Some(false),
        c.target is None,
    ensures
        triple_of(p, c) matches Some(t) ==> build_args_of(p, c) matches Some(args) && args.len()
            == 3 && args[0] == "-Dtarget="@ + t && args[1] == "-Dcpu="@ + match c.cpu {
            Some(v) => v,
            None => "baseline"@,
        },
        triple_of(p, c) is None ==> build_args_of(p, c) is None,
{
}

/// With standard options on and a target configured, the derived args
/// select that target with `-Dtarget=` and the CPU with `-Dcpu=`, except
/// for `native`, which leaves only the optimization mode.
pub proof fn lemma_build_args_select_configured_target(p: Platform, c: ConfigView, t: Seq<char>)
    requires
        c.standard_options != Some(false),
        c.target == Some(t),
    ensures
        t == "native"@ ==> (build_args_of(p, c) matches Some(args) && args.len() == 1),
        t != "native"@ ==> (build_args_of(p, c) matches Some(args) && args.len() == 3 && args[0]
            == "-Dtarget="@ + t && args[1] == "-Dcpu="@ + match c.cpu {
            Some(v) => v,
            None => "baseline"@,
        }),
{
}

/// With standard options off, no `-D` args are derived at all.
pub proof fn lemma_build_args_without_standard_options(p: Platform, c: ConfigView)
    requires
        c.standard_options == Some(false),
    ensures
        build_args_of(p, c) == Some(Seq::<Seq<char>>::empty()),
{
}

} // verus!
