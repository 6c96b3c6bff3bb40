//! Discovery, validation and sandboxed execution of plugins.
//!
//! A plugin is a directory under the plugin root that holds a manifest and a
//! script. The host reads the files; this module decides what they amount to,
//! runs the scripts and reports what came of it.

pub mod color;
pub mod document;
pub mod encoding;
pub mod event;
pub mod execution;
pub mod laws;
pub mod lifecycle;
pub mod loader;
pub mod manifest;
pub mod sandbox;

pub use crate::plugins::event::{Event, EventView};
pub use crate::plugins::execution::{broadcast_event, Broadcast, Execution, Invocation};
pub use crate::plugins::color::cprint;
pub use crate::plugins::loader::{
    discover_plugins,
    Plugin,
    PluginView,
    APP_NAME,
    MANIFEST_FILENAME,
    PLUGINS_DIR,
    SCRIPT_FILENAME,
};
pub use crate::plugins::manifest::{Manifest, ManifestView};
