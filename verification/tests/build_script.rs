use pixi_build_zig::build_script::BuildScriptContext;

fn render(is_bash: bool, host_is_windows: bool, cc_flags: Option<String>) -> String {
    BuildScriptContext {
        source_dir: String::from("my-source-dir"),
        args: vec![
            "-Dtarget=x86_64-linux-gnu.2.28".to_string(),
            "-Dcpu=baseline".to_string(),
            "-Doptimize=ReleaseFast".to_string(),
        ],
        cc_flags,
        is_bash,
        host_is_windows,
    }
    .render()
}

#[test]
fn test_build_script_bash() {
    assert_eq!(
        render(true, false, None),
        r#"export ZIG_GLOBAL_CACHE_DIR="${ZIG_GLOBAL_CACHE_DIR:-$SRC_DIR/.zig-global-cache}"
export ZIG_LOCAL_CACHE_DIR="${ZIG_LOCAL_CACHE_DIR:-$SRC_DIR/.zig-local-cache}"

mkdir -p "$PREFIX"
zig build --build-file "my-source-dir/build.zig" --prefix "$PREFIX" --search-prefix "$PREFIX" -Dtarget=x86_64-linux-gnu.2.28 -Dcpu=baseline -Doptimize=ReleaseFast"#
    );
}

#[test]
fn test_build_script_cmdexe() {
    assert_eq!(
        render(false, true, None),
        r#"if not defined ZIG_GLOBAL_CACHE_DIR SET "ZIG_GLOBAL_CACHE_DIR=%SRC_DIR%\.zig-global-cache"
if not defined ZIG_LOCAL_CACHE_DIR SET "ZIG_LOCAL_CACHE_DIR=%SRC_DIR%\.zig-local-cache"

if not exist "%LIBRARY_PREFIX%" mkdir "%LIBRARY_PREFIX%"
zig build --build-file "my-source-dir\build.zig" --prefix "%LIBRARY_PREFIX%" --search-prefix "%LIBRARY_PREFIX%" -Dtarget=x86_64-linux-gnu.2.28 -Dcpu=baseline -Doptimize=ReleaseFast
if errorlevel 1 exit 1"#
    );
}

#[test]
fn test_build_script_c_toolchain_bash() {
    let flags = String::from(" -target x86_64-linux-gnu.2.28 -mcpu=baseline");
    assert_eq!(
        render(true, false, Some(flags)),
        r#"export ZIG_GLOBAL_CACHE_DIR="${ZIG_GLOBAL_CACHE_DIR:-$SRC_DIR/.zig-global-cache}"
export ZIG_LOCAL_CACHE_DIR="${ZIG_LOCAL_CACHE_DIR:-$SRC_DIR/.zig-local-cache}"

export CC="zig cc -target x86_64-linux-gnu.2.28 -mcpu=baseline"
export CXX="zig c++ -target x86_64-linux-gnu.2.28 -mcpu=baseline"
export AR="zig ar"
export RANLIB="zig ranlib"
export CC_FOR_BUILD="zig cc"
export CXX_FOR_BUILD="zig c++"

mkdir -p "$PREFIX"
zig build --build-file "my-source-dir/build.zig" --prefix "$PREFIX" --search-prefix "$PREFIX" -Dtarget=x86_64-linux-gnu.2.28 -Dcpu=baseline -Doptimize=ReleaseFast"#
    );
}

#[test]
fn test_build_script_c_toolchain_cmdexe() {
    let flags = String::from(" -target x86_64-windows-gnu -mcpu=baseline");
    assert_eq!(
        render(false, true, Some(flags)),
        r#"if not defined ZIG_GLOBAL_CACHE_DIR SET "ZIG_GLOBAL_CACHE_DIR=%SRC_DIR%\.zig-global-cache"
if not defined ZIG_LOCAL_CACHE_DIR SET "ZIG_LOCAL_CACHE_DIR=%SRC_DIR%\.zig-local-cache"

SET "CC=zig cc -target x86_64-windows-gnu -mcpu=baseline"
SET "CXX=zig c++ -target x86_64-windows-gnu -mcpu=baseline"
SET "AR=zig ar"
SET "RANLIB=zig ranlib"
SET "CC_FOR_BUILD=zig cc"
SET "CXX_FOR_BUILD=zig c++"

if not exist "%LIBRARY_PREFIX%" mkdir "%LIBRARY_PREFIX%"
zig build --build-file "my-source-dir\build.zig" --prefix "%LIBRARY_PREFIX%" --search-prefix "%LIBRARY_PREFIX%" -Dtarget=x86_64-linux-gnu.2.28 -Dcpu=baseline -Doptimize=ReleaseFast
if errorlevel 1 exit 1"#
    );
}

#[test]
fn test_build_script_cross_to_windows_from_bash() {
    assert_eq!(
        render(true, true, None),
        r#"export ZIG_GLOBAL_CACHE_DIR="${ZIG_GLOBAL_CACHE_DIR:-$SRC_DIR/.zig-global-cache}"
export ZIG_LOCAL_CACHE_DIR="${ZIG_LOCAL_CACHE_DIR:-$SRC_DIR/.zig-local-cache}"

mkdir -p "$PREFIX/Library"
zig build --build-file "my-source-dir/build.zig" --prefix "$PREFIX/Library" --search-prefix "$PREFIX/Library" -Dtarget=x86_64-linux-gnu.2.28 -Dcpu=baseline -Doptimize=ReleaseFast"#
    );
}

#[test]
fn test_build_script_no_args() {
    let script = BuildScriptContext {
        source_dir: String::from("my-source-dir"),
        args: vec![],
        cc_flags: None,
        is_bash: true,
        host_is_windows: false,
    }
    .render();
    assert_eq!(
        script,
        r#"export ZIG_GLOBAL_CACHE_DIR="${ZIG_GLOBAL_CACHE_DIR:-$SRC_DIR/.zig-global-cache}"
export ZIG_LOCAL_CACHE_DIR="${ZIG_LOCAL_CACHE_DIR:-$SRC_DIR/.zig-local-cache}"

mkdir -p "$PREFIX"
zig build --build-file "my-source-dir/build.zig" --prefix "$PREFIX" --search-prefix "$PREFIX""#
    );
}

#[test]
fn test_build_script_trims_trailing_whitespace_of_last_arg() {
    let script = BuildScriptContext {
        source_dir: String::from("src"),
        args: vec!["-Dx=1".to_string(), "  \t".to_string()],
        cc_flags: None,
        is_bash: true,
        host_is_windows: false,
    }
    .render();
    assert!(script.ends_with(r#"--search-prefix "$PREFIX" -Dx=1"#));
}

#[test]
fn test_build_script_native_c_toolchain_has_no_target_flags() {
    let script = BuildScriptContext {
        source_dir: String::from("src"),
        args: vec![],
        cc_flags: Some(String::new()),
        is_bash: true,
        host_is_windows: false,
    }
    .render();
    assert!(script.contains("export CC=\"zig cc\"\nexport CXX=\"zig c++\"\n"));
}
