//! Core logic of a cross-platform desktop launcher: deciding how a stored
//! program shortcut is started on each operating system, resolving `.lnk`
//! and `.desktop` indirection files into a concrete command line, and
//! sequencing batched launches with a pacing delay.

pub mod batch;
pub mod desktop;
pub mod model;
pub mod resolver;
pub mod shortcut;
pub mod text;
pub mod tray;

pub use batch::BatchRun;
pub use model::{
    BatchLaunchResult, ImportResult, LaunchPlan, LaunchResult, Platform, ProgramGroup,
    ProgramItem, ResolvedCommand, WindowState,
};
pub use resolver::{get_executable_extensions, get_platform, launch_platform_specific, resolve_launch};
pub use shortcut::LnkData;
