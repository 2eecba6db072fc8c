//! Plugin system v2: manifests, package checks, launch planning and the
//! runtime table of a plugin host.
pub mod digest;
pub mod handlers;
pub mod host_api;
pub mod installer;
pub mod manager;
pub mod manifest;
pub mod market;
pub mod package;
pub mod paths;
pub mod permissions;
pub mod public;
pub mod registry;
pub mod runtime;
pub mod text;

pub use installer::{PLUGIN_DEFAULT_CONFIG_FILE_NAME, PLUGIN_MANIFEST_FILE_NAME};
pub use manager::{PluginRuntimeManagerV2, PluginRuntimeStatusSnapshot};
