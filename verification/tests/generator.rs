use indexmap::IndexMap;
use pixi_build_zig::config::ZigBackendConfig;
use pixi_build_zig::generator::ZigGenerator;
use pixi_build_zig::platform::Platform;

fn script(config: &ZigBackendConfig, host: Platform) -> String {
    ZigGenerator::default()
        .build_plan(config, &host, &Platform::Linux64, ".".to_string())
        .expect("Failed to generate recipe")
        .script
}

#[test]
fn test_target_args_are_rendered() {
    let content = script(&ZigBackendConfig::default(), Platform::WinArm64);
    assert!(content.contains("-Dtarget=aarch64-windows-gnu"));
    assert!(content.contains("-Dcpu=baseline"));
    assert!(content.contains("-Doptimize=ReleaseFast"));
}

#[test]
fn test_extra_args_come_after_derived_args() {
    let config = ZigBackendConfig {
        extra_args: vec!["-Dfoo=bar".to_string()],
        ..Default::default()
    };
    let content = script(&config, Platform::Linux64);
    let derived = content.find("-Dtarget=").expect("derived target arg present");
    let extra = content.find("-Dfoo=bar").expect("extra arg present");
    assert!(derived < extra, "extra args must come last");
}

#[test]
fn test_c_toolchain_exported_by_default() {
    let content = script(&ZigBackendConfig::default(), Platform::Linux64);
    assert!(content.contains(r#"CC="zig cc -target x86_64-linux-gnu.2.28 -mcpu=baseline""#));
    assert!(content.contains(r#"RANLIB="zig ranlib""#));
    assert!(content.contains(r#"CC_FOR_BUILD="zig cc""#));
}

#[test]
fn test_c_toolchain_export_can_be_disabled() {
    let config = ZigBackendConfig {
        export_c_toolchain: Some(false),
        ..Default::default()
    };
    let content = script(&config, Platform::Linux64);
    assert!(!content.contains("CC="));
    assert!(!content.contains("AR="));
}

#[test]
fn test_standard_options_disabled_omits_d_flags() {
    let config = ZigBackendConfig {
        standard_options: Some(false),
        ..Default::default()
    };
    let content = script(&config, Platform::Linux64);
    assert!(!content.contains("-Dtarget="));
    assert!(!content.contains("-Dcpu="));
    assert!(!content.contains("-Doptimize="));
}

#[test]
fn test_cross_to_macos_disables_binary_relocation() {
    let generator = ZigGenerator::default();
    let linux = Platform::Linux64;

    // Cross to macOS: relocation disabled by default.
    let plan = generator
        .build_plan(&ZigBackendConfig::default(), &Platform::OsxArm64, &linux, ".".to_string())
        .expect("Failed to generate recipe");
    assert!(!plan.binary_relocation);

    // Same target with an explicit override: relocation stays enabled.
    let config = ZigBackendConfig {
        binary_relocation: Some(true),
        ..Default::default()
    };
    let plan = generator
        .build_plan(&config, &Platform::OsxArm64, &linux, ".".to_string())
        .expect("Failed to generate recipe");
    assert!(plan.binary_relocation);

    // Non-mac target: relocation untouched.
    let plan = generator
        .build_plan(&ZigBackendConfig::default(), &Platform::Linux64, &linux, ".".to_string())
        .expect("Failed to generate recipe");
    assert!(plan.binary_relocation);
}

#[test]
fn test_native_macos_build_keeps_binary_relocation() {
    let plan = ZigGenerator::default()
        .build_plan(
            &ZigBackendConfig::default(),
            &Platform::OsxArm64,
            &Platform::Osx64,
            ".".to_string(),
        )
        .unwrap();
    assert!(plan.binary_relocation);
}

#[test]
fn test_windows_build_machine_writes_cmd_script() {
    let plan = ZigGenerator::default()
        .build_plan(
            &ZigBackendConfig::default(),
            &Platform::Win64,
            &Platform::Win64,
            "C:\\src".to_string(),
        )
        .unwrap();
    assert!(plan.script.starts_with("if not defined ZIG_GLOBAL_CACHE_DIR"));
    assert!(plan
        .script
        .contains(r#"zig build --build-file "C:\src\build.zig" --prefix "%LIBRARY_PREFIX%""#));
    assert!(plan.script.ends_with("if errorlevel 1 exit 1"));
}

#[test]
fn test_unknown_host_platform_fails_the_plan() {
    let err = ZigGenerator::default()
        .build_plan(
            &ZigBackendConfig::default(),
            &Platform::Other("zos-z".to_string()),
            &Platform::Linux64,
            ".".to_string(),
        )
        .err()
        .unwrap();
    assert!(err.message().contains("zos-z"));
}

#[test]
fn test_env_is_not_part_of_the_script() {
    let mut env = IndexMap::new();
    env.insert("foo".to_string(), "bar".to_string());
    let config = ZigBackendConfig {
        env,
        ..Default::default()
    };
    let content = script(&config, Platform::Linux64);
    assert!(!content.contains("foo"));
}

#[test]
fn test_input_globs_includes_extra_globs() {
    let config = ZigBackendConfig {
        extra_input_globs: vec!["custom/*.txt".to_string(), "extra/**/*.zig".to_string()],
        ..Default::default()
    };

    let generator = ZigGenerator::default();

    let result = generator.extract_input_globs_from_build(&config);

    let contains = |needle: &str| result.iter().any(|g| g == needle);

    for extra_glob in &config.extra_input_globs {
        assert!(
            contains(extra_glob),
            "Result should contain extra glob: {extra_glob}"
        );
    }

    assert!(contains("**/*.zig"));
    assert!(contains("build.zig"));
    assert!(contains("build.zig.zon"));
}

#[test]
fn test_input_globs_order() {
    let config = ZigBackendConfig {
        extra_input_globs: vec!["a".to_string()],
        ..Default::default()
    };
    assert_eq!(
        ZigGenerator::default().extract_input_globs_from_build(&config),
        vec!["**/*.zig", "build.zig", "build.zig.zon", "a"]
    );
}
