//! Package metadata provided by `build.zig.zon` next to the manifest, so
//! `[package]` in `pixi.toml` can omit `name`/`version`.
//!
//! The provider decides whether the manifest must be read and what its
//! text yields; reading the file is left to the caller, which hands the
//! text (or its absence) to [`ZonMetadataProvider::metadata`].

use crate::config::strings_view;
use crate::path::{join_path, joined_path};
use crate::zon::{empty_metadata, opt_string_view, parse_zon, zon_metadata, ZonMetadata, ZonMetadataView};
use rattler_conda_types::{ParseVersionError, Version};
use std::path::{Path, PathBuf};
use vstd::prelude::*;

verus! {

#[verifier::external_type_specification]
#[verifier::external_body]
pub struct ExVersion(Version);

#[verifier::external_type_specification]
#[verifier::external_body]
pub struct ExParseVersionError(ParseVersionError);

#[verifier::external_type_specification]
#[verifier::external_body]
pub struct ExIoError(std::io::Error);

/// What `Version::from_str` makes of a text: the parsed conda version, or
/// `None` where the text is not one.
pub uninterp spec fn parsed_version(s: Seq<char>) -> Option<Version>;

/// `Version::from_str` of rattler_conda_types: parses a conda version
/// literal. The contract claims that the call depends on the text alone: it
/// succeeds exactly where [`parsed_version`] gives a version, and then
/// returns that version. What the error holds is left unsaid.
#[verifier::external_body]
fn parse_version(raw: &str) -> (r: Result<Version, ParseVersionError>)
    ensures
        r is Ok <==> parsed_version(raw@) is Some,
        r matches Ok(v) ==> parsed_version(raw@) == Some(v),
{
    raw.parse()
}

/// Why `build.zig.zon` could not provide metadata.
#[derive(Debug)]
pub enum ZonError {
    /// The manifest exists but could not be read.
    Io { path: PathBuf, source: std::io::Error },
    /// The manifest's `.version` is not a conda version.
    InvalidVersion { path: PathBuf, version: String, source: ParseVersionError },
}

/// The name of the manifest file next to the project manifest.
pub const ZON_FILE_NAME: &'static str = "build.zig.zon";

/// The metadata a provider settles on: what it cached already; otherwise
/// nothing when it ignores the manifest or the manifest is absent, and what
/// the manifest's text yields when it is present.
pub open spec fn settled_metadata(
    cached: Option<ZonMetadataView>,
    ignore: bool,
    source: Option<Seq<char>>,
) -> ZonMetadataView {
    match cached {
        Some(m) => m,
        None => if ignore {
            empty_metadata()
        } else {
            match source {
                Some(text) => zon_metadata(text),
                None => empty_metadata(),
            }
        },
    }
}

/// The globs that contribute to the metadata-cache fingerprint.
pub open spec fn provider_input_globs(ignore: bool) -> Seq<Seq<char>> {
    if ignore {
        Seq::empty()
    } else {
        seq![ZON_FILE_NAME@]
    }
}

/// A metadata provider backed by `build.zig.zon` next to the manifest.
/// A missing file simply provides nothing; the project model then has to
/// carry the name/version itself.
pub struct ZonMetadataProvider {
    zon_path: PathBuf,
    ignore: bool,
    cache: Option<ZonMetadata>,
}

fn clone_metadata(m: &ZonMetadata) -> (r: ZonMetadata)
    ensures
        r@ == m@,
{
    ZonMetadata { name: m.name.clone(), version: m.version.clone() }
}

impl ZonMetadataProvider {
    /// Whether the provider ignores the manifest.
    pub closed spec fn ignores(&self) -> bool {
        self.ignore
    }

    /// The metadata the provider has settled on, if it has.
    pub closed spec fn cached(&self) -> Option<ZonMetadataView> {
        match self.cache {
            Some(m) => Some(m@),
            None => None,
        }
    }

    /// The path of the manifest.
    pub closed spec fn path(&self) -> PathBuf {
        self.zon_path
    }

    /// A provider for the `build.zig.zon` inside `manifest_root`, which has
    /// not read anything yet.
    pub fn new(manifest_root: &Path, ignore: bool) -> (p: Self)
        ensures
            p.path() == joined_path(manifest_root, ZON_FILE_NAME@),
            p.ignores() == ignore,
            p.cached() is None,
    {
        Self { zon_path: join_path(manifest_root, ZON_FILE_NAME), ignore, cache: None }
    }

    /// The path of the manifest the provider reads.
    pub fn zon_path(&self) -> (p: &PathBuf)
        ensures
            *p == self.path(),
    {
        &self.zon_path
    }

    /// Whether the next call of [`Self::metadata`] uses the manifest's text:
    /// only when nothing is cached yet and the manifest is not ignored.
    pub fn needs_source(&self) -> (r: bool)
        ensures
            r == (self.cached() is None && !self.ignores()),
    {
        self.cache.is_none() && !self.ignore
    }

    /// The provider's metadata. The first call settles it: nothing when the
    /// provider ignores the manifest or `source` is `None` (the manifest does
    /// not exist), otherwise what [`parse_zon`] finds in `source`. Later
    /// calls give the settled metadata whatever their `source`.
    pub fn metadata(&mut self, source: Option<&str>) -> (m: ZonMetadata)
        ensures
            m@ == settled_metadata(
                old(self).cached(),
                old(self).ignores(),
                match source {
                    Some(s) => Some(s@),
                    None => None,
                },
            ),
            final(self).cached() == Some(m@),
            final(self).ignores() == old(self).ignores(),
            final(self).path() == old(self).path(),
    {
        if self.cache.is_none() {
            let meta = if self.ignore {
                ZonMetadata::default()
            } else {
                match source {
                    Some(text) => parse_zon(text),
                    None => ZonMetadata::default(),
                }
            };
            self.cache = Some(meta);
        }
        match &self.cache {
            Some(m) => clone_metadata(m),
            None => ZonMetadata::default(),
        }
    }

    /// Globs contributing to the metadata-cache fingerprint when the zon
    /// manifest was consulted.
    pub fn input_globs(&self) -> (globs: Vec<String>)
        ensures
            strings_view(globs@) == provider_input_globs(self.ignores()),
    {
        if self.ignore {
            let globs: Vec<String> = Vec::new();
            assert(strings_view(globs@) =~= Seq::<Seq<char>>::empty());
            globs
        } else {
            let mut globs: Vec<String> = Vec::new();
            globs.push(ZON_FILE_NAME.to_owned());
            assert(strings_view(globs@) =~= seq![ZON_FILE_NAME@]);
            globs
        }
    }

    /// The package name from the manifest (see [`Self::metadata`] for
    /// `source`).
    pub fn name(&mut self, source: Option<&str>) -> (n: Option<String>)
        ensures
            final(self).cached() matches Some(m) && opt_string_view(n) == m.name,
            final(self).cached() == Some(
                settled_metadata(
                    old(self).cached(),
                    old(self).ignores(),
                    match source {
                        Some(s) => Some(s@),
                        None => None,
                    },
                ),
            ),
            final(self).ignores() == old(self).ignores(),
            final(self).path() == old(self).path(),
    {
        self.metadata(source).name
    }

    /// The package version from the manifest (see [`Self::metadata`] for
    /// `source`): none when the manifest gives none, an error when what it
    /// gives is not a conda version.
    pub fn version(&mut self, source: Option<&str>) -> (v: Result<Option<Version>, ZonError>)
        ensures
            final(self).cached() == Some(
                settled_metadata(
                    old(self).cached(),
                    old(self).ignores(),
                    match source {
                        Some(s) => Some(s@),
                        None => None,
                    },
                ),
            ),
            final(self).ignores() == old(self).ignores(),
            final(self).path() == old(self).path(),
            final(self).cached() matches Some(m) && match v {
                Ok(None) => m.version is None,
                Ok(Some(parsed)) => m.version matches Some(raw) && parsed_version(raw) == Some(
                    parsed,
                ),
                Err(ZonError::InvalidVersion { path, version, source: _ }) => {
                    &&& m.version == Some(version@)
                    &&& parsed_version(version@) is None
                    &&& path == old(self).path()
                },
                Err(ZonError::Io { .. }) => false,
            },
    {
        let path = self.zon_path.clone();
        let meta = self.metadata(source);
        match meta.version {
            None => Ok(None),
            Some(raw) => match parse_version(raw.as_str()) {
                Ok(version) => Ok(Some(version)),
                Err(source) => Err(ZonError::InvalidVersion { path, version: raw, source }),
            },
        }
    }
}

/// Once a provider has settled on its metadata, later calls give the same
/// metadata whatever source they are handed.
pub proof fn lemma_metadata_settles_once(
    cached: Option<ZonMetadataView>,
    ignore: bool,
    first: Option<Seq<char>>,
    later: Option<Seq<char>>,
)
    ensures
        settled_metadata(Some(settled_metadata(cached, ignore, first)), ignore, later)
            == settled_metadata(cached, ignore, first),
{
}

/// A provider that ignores the manifest provides neither a name nor a
/// version, and contributes no input globs.
pub proof fn lemma_ignoring_provider_provides_nothing(source: Option<Seq<char>>)
    ensures
        settled_metadata(None, true, source) == empty_metadata(),
        provider_input_globs(true).len() == 0,
{
}

/// A missing manifest provides neither a name nor a version.
pub proof fn lemma_missing_manifest_provides_nothing(ignore: bool)
    ensures
        settled_metadata(None, ignore, None) == empty_metadata(),
{
}

} // verus!
