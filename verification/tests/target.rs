use pixi_build_zig::config::{WindowsAbi, ZigBackendConfig, ZigOptimize};
use pixi_build_zig::platform::Platform;
use pixi_build_zig::target::{zig_build_args, zig_cc_flags, zig_triple, TargetError};

fn config() -> ZigBackendConfig {
    ZigBackendConfig::default()
}

#[test]
fn test_linux_triples_pin_glibc() {
    assert_eq!(
        zig_triple(&Platform::Linux64, &config()).unwrap(),
        "x86_64-linux-gnu.2.28"
    );
    assert_eq!(
        zig_triple(&Platform::LinuxAarch64, &config()).unwrap(),
        "aarch64-linux-gnu.2.28"
    );
    assert_eq!(
        zig_triple(&Platform::LinuxPpc64le, &config()).unwrap(),
        "powerpc64le-linux-gnu.2.28"
    );
}

#[test]
fn test_glibc_version_override_and_removal() {
    let cfg = ZigBackendConfig {
        glibc_version: Some("2.34".to_string()),
        ..config()
    };
    assert_eq!(
        zig_triple(&Platform::Linux64, &cfg).unwrap(),
        "x86_64-linux-gnu.2.34"
    );

    let cfg = ZigBackendConfig {
        glibc_version: Some(String::new()),
        ..config()
    };
    assert_eq!(zig_triple(&Platform::Linux64, &cfg).unwrap(), "x86_64-linux-gnu");
}

#[test]
fn test_windows_defaults_to_gnu_abi() {
    assert_eq!(
        zig_triple(&Platform::Win64, &config()).unwrap(),
        "x86_64-windows-gnu"
    );
    assert_eq!(
        zig_triple(&Platform::WinArm64, &config()).unwrap(),
        "aarch64-windows-gnu"
    );

    let cfg = ZigBackendConfig {
        windows_abi: Some(WindowsAbi::Msvc),
        ..config()
    };
    assert_eq!(
        zig_triple(&Platform::Win64, &cfg).unwrap(),
        "x86_64-windows-msvc"
    );
}

#[test]
fn test_macos_deployment_target_suffix() {
    assert_eq!(
        zig_triple(&Platform::OsxArm64, &config()).unwrap(),
        "aarch64-macos"
    );
    let cfg = ZigBackendConfig {
        macos_deployment_target: Some("11.0".to_string()),
        ..config()
    };
    assert_eq!(
        zig_triple(&Platform::OsxArm64, &cfg).unwrap(),
        "aarch64-macos.11.0"
    );
}

#[test]
fn test_unknown_platform_is_an_error() {
    let err = zig_triple(&Platform::Other("zos-z".to_string()), &config()).unwrap_err();
    assert!(err.message().contains("zos-z"), "got: {}", err.message());
}

#[test]
fn test_build_args_defaults() {
    let args = zig_build_args(&Platform::Linux64, &config()).unwrap();
    assert_eq!(
        args,
        vec![
            "-Dtarget=x86_64-linux-gnu.2.28",
            "-Dcpu=baseline",
            "-Doptimize=ReleaseFast",
        ]
    );
}

#[test]
fn test_build_args_native_target_keeps_optimize() {
    let cfg = ZigBackendConfig {
        target: Some("native".to_string()),
        optimize: Some(ZigOptimize::ReleaseSafe),
        ..config()
    };
    let args = zig_build_args(&Platform::Linux64, &cfg).unwrap();
    assert_eq!(args, vec!["-Doptimize=ReleaseSafe"]);
}

#[test]
fn test_build_args_explicit_target_override() {
    let cfg = ZigBackendConfig {
        target: Some("x86_64-linux-musl".to_string()),
        cpu: Some("x86_64_v2".to_string()),
        ..config()
    };
    let args = zig_build_args(&Platform::Linux64, &cfg).unwrap();
    assert_eq!(
        args,
        vec![
            "-Dtarget=x86_64-linux-musl",
            "-Dcpu=x86_64_v2",
            "-Doptimize=ReleaseFast",
        ]
    );
}

#[test]
fn test_cc_flags_follow_target() {
    assert_eq!(
        zig_cc_flags(&Platform::Linux64, &config()).unwrap(),
        " -target x86_64-linux-gnu.2.28 -mcpu=baseline"
    );
    let cfg = ZigBackendConfig {
        target: Some("native".to_string()),
        ..config()
    };
    assert_eq!(zig_cc_flags(&Platform::Linux64, &cfg).unwrap(), "");
}

#[test]
fn test_build_args_standard_options_disabled() {
    let cfg = ZigBackendConfig {
        standard_options: Some(false),
        ..config()
    };
    let args = zig_build_args(&Platform::Linux64, &cfg).unwrap();
    assert!(args.is_empty());
}

#[test]
fn test_every_mapped_platform_has_a_triple() {
    let cases = [
        (Platform::Linux32, "x86-linux-gnu.2.28"),
        (Platform::LinuxArmV6l, "arm-linux-gnueabihf.2.28"),
        (Platform::LinuxArmV7l, "arm-linux-gnueabihf.2.28"),
        (Platform::LinuxPpc64, "powerpc64-linux-gnu.2.28"),
        (Platform::LinuxS390X, "s390x-linux-gnu.2.28"),
        (Platform::LinuxRiscv64, "riscv64-linux-gnu.2.28"),
        (Platform::LinuxLoongArch64, "loongarch64-linux-gnu.2.28"),
        (Platform::Osx64, "x86_64-macos"),
        (Platform::Win32, "x86-windows-gnu"),
        (Platform::EmscriptenWasm32, "wasm32-emscripten"),
        (Platform::WasiWasm32, "wasm32-wasi"),
        (Platform::FreeBsd64, "x86_64-freebsd"),
        (Platform::FreeBsdArm64, "aarch64-freebsd"),
    ];
    for (platform, triple) in cases {
        assert_eq!(zig_triple(&platform, &config()).unwrap(), triple);
    }
}

#[test]
fn test_unknown_platform_error_message() {
    let err = zig_build_args(&Platform::Other("noarch".to_string()), &config()).unwrap_err();
    let TargetError::UnknownPlatform { platform } = &err;
    assert_eq!(platform, "noarch");
    assert_eq!(
        err.message(),
        "pixi-build-zig does not know a zig target triple for platform `noarch`; \
         set `target` in [package.build.config] to provide one explicitly"
    );
}

#[test]
fn test_unknown_platform_with_standard_options_disabled_has_no_args() {
    let cfg = ZigBackendConfig {
        standard_options: Some(false),
        ..config()
    };
    assert!(zig_build_args(&Platform::Other("zos-z".to_string()), &cfg)
        .unwrap()
        .is_empty());
    assert!(zig_cc_flags(&Platform::Other("zos-z".to_string()), &cfg).is_err());
}

#[test]
fn test_cc_flags_with_explicit_target_and_cpu() {
    let cfg = ZigBackendConfig {
        target: Some("x86_64-linux-musl".to_string()),
        cpu: Some("x86_64_v3".to_string()),
        ..config()
    };
    assert_eq!(
        zig_cc_flags(&Platform::Other("zos-z".to_string()), &cfg).unwrap(),
        " -target x86_64-linux-musl -mcpu=x86_64_v3"
    );
}

#[test]
fn test_optimize_and_abi_names() {
    assert_eq!(ZigOptimize::Debug.as_str(), "Debug");
    assert_eq!(ZigOptimize::ReleaseSafe.as_str(), "ReleaseSafe");
    assert_eq!(ZigOptimize::ReleaseFast.as_str(), "ReleaseFast");
    assert_eq!(ZigOptimize::ReleaseSmall.as_str(), "ReleaseSmall");
    assert_eq!(ZigOptimize::default(), ZigOptimize::ReleaseFast);
    assert_eq!(WindowsAbi::Gnu.as_str(), "gnu");
    assert_eq!(WindowsAbi::Msvc.as_str(), "msvc");
    assert_eq!(WindowsAbi::default(), WindowsAbi::Gnu);
}
