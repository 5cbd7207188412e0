[package]
name = "pixi_build_zig"
version = "0.1.0"
edition = "2021"
publish = false

[dependencies]
indexmap = { version = "=2.14.2", features = ["serde"] }
rattler_conda_types = "=0.58.1"
serde = { version = "=1.0.229", features = ["derive"] }
miette = "=7.6.0"
thiserror = "=2.0.21"
fs-err = "=3.3.2"
tokio = { version = "=1.54.1", features = ["macros", "rt-multi-thread"] }
async-trait = "=0.1.92"

[dev-dependencies]
tempfile = "=3.27.0"
