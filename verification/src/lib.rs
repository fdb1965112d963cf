//! LiveWall: setting any video as a live wallpaper or screensaver on macOS.
//!
//! The library holds what the `livewallctl` tool decides: where the system
//! keeps its aerial wallpapers, how the manifest `entries.json` is edited,
//! how the ffmpeg steps are run and judged, and in which order the daemons
//! are signalled. The program around it does the file, process and terminal
//! work.
use vstd::prelude::*;

pub mod commands;
pub mod daemon;
pub mod ffmpeg;
pub mod manifest;
pub mod path_resolver;
pub mod paths;
pub mod resolve_laws;
pub mod text;

pub use daemon::DaemonManager;
pub use ffmpeg::FfmpegManager;
pub use manifest::{Manifest, ManifestEntry};
pub use path_resolver::{MacOSVersion, PathResolver, ResolvedPaths};

verus! {

} // verus!
