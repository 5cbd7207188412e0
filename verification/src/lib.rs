//! Verified core of a pixi build backend for projects that use the Zig
//! build system: configuration and its target-specific merge, zig target
//! triples and flags, the generated build script, and `build.zig.zon`
//! metadata extraction.

pub mod build_script;
pub mod config;
pub mod env;
pub mod generator;
pub mod metadata;
pub mod path;
pub mod platform;
pub mod target;
pub mod zon;

pub use build_script::BuildScriptContext;
pub use config::{WindowsAbi, ZigBackendConfig, ZigOptimize};
pub use generator::{BuildPlan, ZigGenerator};
pub use metadata::{ZonError, ZonMetadataProvider};
pub use platform::Platform;
pub use target::{zig_build_args, zig_cc_flags, zig_triple, TargetError};
pub use zon::{parse_zon, ZonMetadata};
