//! A verified core for a multi-tool version manager: version resolution
//! over alias tables and release lists, the idempotent install pipeline,
//! multi-format archive extraction with path-prefix stripping, and the
//! helpers of the plugin host bridge.

pub mod error;
pub mod text;
pub mod version;
pub mod resolver;
pub mod host;
pub mod archive;
pub mod platform;
pub mod checksum;
pub mod installer;
pub mod bridge;
pub mod manifest;
pub mod tool;
pub mod wasm_plugin;
pub mod shim;
pub mod rustup;
