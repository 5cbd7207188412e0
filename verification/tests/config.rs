use indexmap::IndexMap;
use pixi_build_zig::config::{ZigBackendConfig, ZigOptimize};

#[test]
fn test_merge_with_target_config() {
    let mut base_env = IndexMap::new();
    base_env.insert("BASE_VAR".to_string(), "base_value".to_string());
    base_env.insert("SHARED_VAR".to_string(), "base_shared".to_string());

    let base_config = ZigBackendConfig {
        extra_args: vec!["--base-arg".to_string()],
        env: base_env,
        optimize: Some(ZigOptimize::ReleaseSmall),
        glibc_version: Some("2.28".to_string()),
        ..Default::default()
    };

    let mut target_env = IndexMap::new();
    target_env.insert("TARGET_VAR".to_string(), "target_value".to_string());
    target_env.insert("SHARED_VAR".to_string(), "target_shared".to_string());

    let target_config = ZigBackendConfig {
        extra_args: vec!["--target-arg".to_string()],
        env: target_env,
        cpu: Some("x86_64_v2".to_string()),
        ..Default::default()
    };

    let merged = base_config.merge_with_target_config(&target_config);

    // extra_args are completely overridden
    assert_eq!(merged.extra_args, vec!["--target-arg".to_string()]);

    // env merges with target taking precedence
    assert_eq!(merged.env.get("BASE_VAR"), Some(&"base_value".to_string()));
    assert_eq!(
        merged.env.get("TARGET_VAR"),
        Some(&"target_value".to_string())
    );
    assert_eq!(
        merged.env.get("SHARED_VAR"),
        Some(&"target_shared".to_string())
    );

    // scalars: target wins when set, base otherwise
    assert_eq!(merged.cpu.as_deref(), Some("x86_64_v2"));
    assert_eq!(merged.optimize, Some(ZigOptimize::ReleaseSmall));
    assert_eq!(merged.glibc_version.as_deref(), Some("2.28"));
}

#[test]
fn test_merge_keeps_base_env_order_and_appends_new_keys() {
    let mut base_env = IndexMap::new();
    base_env.insert("A".to_string(), "1".to_string());
    base_env.insert("B".to_string(), "2".to_string());
    let mut target_env = IndexMap::new();
    target_env.insert("C".to_string(), "3".to_string());
    target_env.insert("A".to_string(), "4".to_string());
    let base = ZigBackendConfig { env: base_env, ..Default::default() };
    let target = ZigBackendConfig { env: target_env, ..Default::default() };
    let merged = base.merge_with_target_config(&target);
    let entries: Vec<(&str, &str)> = merged
        .env
        .iter()
        .map(|(k, v)| (k.as_str(), v.as_str()))
        .collect();
    assert_eq!(entries, vec![("A", "4"), ("B", "2"), ("C", "3")]);
}

#[test]
fn test_merge_with_unset_target_keeps_base() {
    let mut env = IndexMap::new();
    env.insert("K".to_string(), "v".to_string());
    let base = ZigBackendConfig {
        extra_args: vec!["-Dx=1".to_string()],
        extra_input_globs: vec!["assets/**".to_string()],
        env,
        target: Some("x86_64-linux-musl".to_string()),
        standard_options: Some(false),
        debug_dir: Some(std::path::PathBuf::from("dbg")),
        ..Default::default()
    };
    let merged = base.merge_with_target_config(&ZigBackendConfig::default());
    assert_eq!(merged.extra_args, base.extra_args);
    assert_eq!(merged.extra_input_globs, base.extra_input_globs);
    assert_eq!(merged.env, base.env);
    assert_eq!(merged.target, base.target);
    assert_eq!(merged.standard_options, Some(false));
    assert_eq!(merged.debug_dir, base.debug_dir);
}

#[test]
fn test_merge_debug_dir_target_wins_when_set() {
    let base = ZigBackendConfig::default();
    let target = ZigBackendConfig {
        debug_dir: Some(std::path::PathBuf::from("dbg")),
        extra_input_globs: vec!["t/**".to_string()],
        windows_abi: Some(pixi_build_zig::config::WindowsAbi::Msvc),
        ..Default::default()
    };
    let merged = base.merge_with_target_config(&target);
    assert_eq!(merged.debug_dir, Some(std::path::PathBuf::from("dbg")));
    assert_eq!(merged.extra_input_globs, vec!["t/**".to_string()]);
    assert_eq!(merged.windows_abi, Some(pixi_build_zig::config::WindowsAbi::Msvc));

    let base = ZigBackendConfig {
        debug_dir: Some(std::path::PathBuf::from("base-dbg")),
        ..Default::default()
    };
    let merged = base.merge_with_target_config(&target);
    assert_eq!(merged.debug_dir, Some(std::path::PathBuf::from("dbg")));
    let merged = base.merge_with_target_config(&ZigBackendConfig::default());
    assert_eq!(merged.debug_dir, Some(std::path::PathBuf::from("base-dbg")));
}

#[test]
fn test_config_clone_is_equal() {
    let mut env = IndexMap::new();
    env.insert("K".to_string(), "v".to_string());
    let config = ZigBackendConfig {
        env,
        cpu: Some("x86_64_v3".to_string()),
        ..Default::default()
    };
    let copy = config.clone();
    assert_eq!(copy.env, config.env);
    assert_eq!(copy.cpu, config.cpu);
}

fn env_of(pairs: &[(&str, &str)]) -> IndexMap<String, String> {
    let mut env = IndexMap::new();
    for (k, v) in pairs {
        env.insert(k.to_string(), v.to_string());
    }
    env
}

fn env_entries(config: &ZigBackendConfig) -> Vec<(String, String)> {
    config.env.iter().map(|(k, v)| (k.clone(), v.clone())).collect()
}

#[test]
fn test_merge_is_associative() {
    let a = ZigBackendConfig {
        extra_args: vec!["-Da=1".to_string()],
        env: env_of(&[("X", "a"), ("Y", "a")]),
        cpu: Some("baseline".to_string()),
        ..Default::default()
    };
    let b = ZigBackendConfig {
        env: env_of(&[("Z", "b"), ("X", "b")]),
        target: Some("native".to_string()),
        optimize: Some(ZigOptimize::Debug),
        ..Default::default()
    };
    let c = ZigBackendConfig {
        extra_args: vec!["-Dc=1".to_string()],
        env: env_of(&[("W", "c"), ("Z", "c"), ("Y", "c")]),
        optimize: Some(ZigOptimize::ReleaseSafe),
        ..Default::default()
    };
    let left = a.merge_with_target_config(&b).merge_with_target_config(&c);
    let right = a.merge_with_target_config(&b.merge_with_target_config(&c));
    assert_eq!(env_entries(&left), env_entries(&right));
    assert_eq!(
        env_entries(&left),
        vec![
            ("X".to_string(), "b".to_string()),
            ("Y".to_string(), "c".to_string()),
            ("Z".to_string(), "c".to_string()),
            ("W".to_string(), "c".to_string()),
        ]
    );
    assert_eq!(left.extra_args, right.extra_args);
    assert_eq!(left.extra_args, vec!["-Dc=1".to_string()]);
    assert_eq!(left.target, right.target);
    assert_eq!(left.cpu, right.cpu);
    assert_eq!(left.optimize, right.optimize);
    assert_eq!(left.optimize, Some(ZigOptimize::ReleaseSafe));
}
