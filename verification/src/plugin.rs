//! The plugin marker and the synchronous asset sources it registers fonts and Fluent
//! bundles from.
use vstd::prelude::*;

use crate::ecs::owned;

verus! {

/// Marker for the plugin that wires projection synthesis, styling and the headless
/// runtime into an application.
#[derive(Debug, Clone, Copy, PartialEq, Eq, Structural)]
pub struct BevyXilemPlugin;

impl Default for BevyXilemPlugin {
    fn default() -> (plugin: Self)
        ensures
            plugin == BevyXilemPlugin,
    {
        BevyXilemPlugin
    }
}

/// Synchronous source for binary assets (fonts).
pub enum SyncAssetSource<'a> {
    Bytes(&'a [u8]),
    FilePath(&'a str),
}

/// Synchronous source for textual assets (FTL bundles).
pub enum SyncTextSource<'a> {
    String(&'a str),
    FilePath(&'a str),
}

impl<'a> SyncAssetSource<'a> {
    /// The bytes carried in memory; a file path has to be read first.
    pub fn embedded_bytes(&self) -> (bytes: Option<Vec<u8>>)
        ensures
            match *self {
                SyncAssetSource::Bytes(data) => bytes matches Some(b) && b@ == data@,
                SyncAssetSource::FilePath(_) => bytes is None,
            },
    {
        match self {
            SyncAssetSource::Bytes(data) => Some(vstd::slice::slice_to_vec(data)),
            SyncAssetSource::FilePath(_) => None,
        }
    }
}

impl<'a> SyncTextSource<'a> {
    /// The text carried in memory; a file path has to be read first.
    pub fn embedded_text(&self) -> (text: Option<String>)
        ensures
            match *self {
                SyncTextSource::String(data) => text matches Some(t) && t@ == data@,
                SyncTextSource::FilePath(_) => text is None,
            },
    {
        match self {
            SyncTextSource::String(data) => Some(owned(data)),
            SyncTextSource::FilePath(_) => None,
        }
    }
}

/// Tracing filter used when `RUST_LOG` is not set: informational output, with the noisy
/// renderer and app-loop targets limited to warnings.
pub const DEFAULT_LOG_FILTER: &'static str = "info,wgpu_core=warn,wgpu_hal=warn,bevy_render=warn,bevy_app=warn";

} // verus!
