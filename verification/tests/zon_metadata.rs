use pixi_build_zig::metadata::{ZonError, ZonMetadataProvider};
use pixi_build_zig::zon::{parse_zon, ZonMetadata};

/// Hands the provider the manifest's text when it asks for it, as the
/// backend does: the text when the file exists, nothing when it does not.
fn manifest_text(provider: &ZonMetadataProvider) -> Option<String> {
    if provider.needs_source() && provider.zon_path().exists() {
        Some(fs_err::read_to_string(provider.zon_path()).unwrap())
    } else {
        None
    }
}

#[test]
fn test_parse_enum_literal_name() {
    let meta = parse_zon(
        r#".{
            .name = .zig_sdl, // trailing comment
            .version = "0.1.0",
            .minimum_zig_version = "0.14.0",
        }"#,
    );
    assert_eq!(meta.name.as_deref(), Some("zig_sdl"));
    assert_eq!(meta.version.as_deref(), Some("0.1.0"));
}

#[test]
fn test_parse_string_name_and_quoted_identifier() {
    let meta = parse_zon(r#".{ .name = "old-style", .version = "1.2.3" }"#);
    assert_eq!(meta.name.as_deref(), Some("old-style"));

    let meta = parse_zon(r#".{ .name = .@"my-pkg", .version = "1.2.3" }"#);
    assert_eq!(meta.name.as_deref(), Some("my-pkg"));
}

#[test]
fn test_nested_fields_are_ignored() {
    let meta = parse_zon(
        r#".{
            .version = "2.0.0",
            .dependencies = .{
                .sdl = .{
                    // a nested struct must not contribute fields, even
                    // one literally called .name or .version
                    .name = .not_this_one,
                    .version = "9.9.9",
                    .url = "https://example.com/sdl.tar.gz",
                    .hash = "1220deadbeef",
                },
            },
            .name = .real_name,
            .paths = .{ "build.zig", "src" },
        }"#,
    );
    assert_eq!(meta.name.as_deref(), Some("real_name"));
    assert_eq!(meta.version.as_deref(), Some("2.0.0"));
}

#[test]
fn test_comments_and_strings_do_not_confuse_the_scanner() {
    let meta = parse_zon(
        r#".{
            // .name = .commented_out,
            .description = "contains .name = .fake and a { brace",
            .name = .actual,
            .version = "0.0.1",
        }"#,
    );
    assert_eq!(meta.name.as_deref(), Some("actual"));
    assert_eq!(meta.version.as_deref(), Some("0.0.1"));
}

#[test]
fn test_missing_file_provides_nothing() {
    let dir = tempfile::tempdir().unwrap();
    let mut provider = ZonMetadataProvider::new(dir.path(), false);
    let source = manifest_text(&provider);
    assert_eq!(provider.name(source.as_deref()), None);
    assert_eq!(provider.version(None).unwrap(), None);
}

#[test]
fn test_provider_reads_and_ignores() {
    let dir = tempfile::tempdir().unwrap();
    fs_err::write(
        dir.path().join("build.zig.zon"),
        r#".{ .name = .from_zon, .version = "3.2.1" }"#,
    )
    .unwrap();

    let mut provider = ZonMetadataProvider::new(dir.path(), false);
    let source = manifest_text(&provider);
    assert_eq!(provider.name(source.as_deref()).as_deref(), Some("from_zon"));
    let source = manifest_text(&provider);
    assert_eq!(
        provider.version(source.as_deref()).unwrap().unwrap().to_string(),
        "3.2.1"
    );
    assert_eq!(provider.input_globs(), vec!["build.zig.zon".to_string()]);

    let mut ignoring = ZonMetadataProvider::new(dir.path(), true);
    let source = manifest_text(&ignoring);
    assert_eq!(ignoring.name(source.as_deref()), None);
    assert!(ignoring.input_globs().is_empty());
}

#[test]
fn test_invalid_version_is_an_error() {
    let dir = tempfile::tempdir().unwrap();
    fs_err::write(
        dir.path().join("build.zig.zon"),
        r#".{ .name = .pkg, .version = "not a version" }"#,
    )
    .unwrap();
    let mut provider = ZonMetadataProvider::new(dir.path(), false);
    let source = manifest_text(&provider);
    assert!(provider.version(source.as_deref()).is_err());
}

#[test]
fn test_metadata_is_read_once() {
    let dir = tempfile::tempdir().unwrap();
    let mut provider = ZonMetadataProvider::new(dir.path(), false);
    assert!(provider.needs_source());
    let first = provider.metadata(Some(r#".{ .name = .first, .version = "1.0" }"#));
    assert_eq!(first.name.as_deref(), Some("first"));
    assert!(!provider.needs_source());
    let later = provider.metadata(Some(r#".{ .name = .second }"#));
    assert_eq!(later, first);
}

#[test]
fn test_ignoring_provider_ignores_given_text() {
    let dir = tempfile::tempdir().unwrap();
    let mut provider = ZonMetadataProvider::new(dir.path(), true);
    assert!(!provider.needs_source());
    let meta = provider.metadata(Some(r#".{ .name = .some, .version = "1.0" }"#));
    assert_eq!(meta, ZonMetadata::default());
}

#[test]
fn test_source_without_struct_has_no_fields() {
    let meta = parse_zon(r#".name = .top, .version = "1.0""#);
    assert_eq!(meta, ZonMetadata::default());
}

#[test]
fn test_last_assignment_wins_and_unreadable_value_clears() {
    let meta = parse_zon(r#".{ .name = .one, .name = .two, .version = "1", .version = 5 }"#);
    assert_eq!(meta.name.as_deref(), Some("two"));
    assert_eq!(meta.version, None);
}

#[test]
fn test_escapes_and_unterminated_strings() {
    let meta = parse_zon(r#".{ .name = "a\"b", .version = "1.0"#);
    assert_eq!(meta.name.as_deref(), Some(r#"a\"b"#));
    assert_eq!(meta.version.as_deref(), Some("1.0"));

    let meta = parse_zon(".{ .name = \"abc\\");
    assert_eq!(meta.name, None);
}

#[test]
fn test_unicode_values_and_unbalanced_closing_braces() {
    let meta = parse_zon(".{ .name = \"zig-ü\" }} .{ .version = \"2\" }");
    assert_eq!(meta.name.as_deref(), Some("zig-ü"));
    assert_eq!(meta.version.as_deref(), Some("2"));
}

#[test]
fn test_invalid_version_error_names_the_manifest_and_the_text() {
    let dir = tempfile::tempdir().unwrap();
    fs_err::write(
        dir.path().join("build.zig.zon"),
        r#".{ .name = .pkg, .version = "not a version" }"#,
    )
    .unwrap();
    let mut provider = ZonMetadataProvider::new(dir.path(), false);
    let source = manifest_text(&provider);
    match provider.version(source.as_deref()) {
        Err(ZonError::InvalidVersion { path, version, .. }) => {
            assert_eq!(path, dir.path().join("build.zig.zon"));
            assert_eq!(version, "not a version");
        }
        other => panic!("expected an invalid version, got {:?}", other),
    }
}

#[test]
fn test_provider_reads_the_manifest_inside_the_root() {
    let dir = tempfile::tempdir().unwrap();
    let provider = ZonMetadataProvider::new(dir.path(), false);
    assert_eq!(provider.zon_path(), &dir.path().join("build.zig.zon"));
    let ignoring = ZonMetadataProvider::new(dir.path(), true);
    assert_eq!(ignoring.zon_path(), &dir.path().join("build.zig.zon"));
}

#[test]
fn test_version_is_the_parsed_manifest_text() {
    let dir = tempfile::tempdir().unwrap();
    let mut provider = ZonMetadataProvider::new(dir.path(), false);
    let version = provider
        .version(Some(r#".{ .name = .pkg, .version = "1.2.3a" }"#))
        .unwrap()
        .unwrap();
    assert_eq!(version, "1.2.3a".parse::<rattler_conda_types::Version>().unwrap());
    assert_ne!(version, "0".parse::<rattler_conda_types::Version>().unwrap());
}
