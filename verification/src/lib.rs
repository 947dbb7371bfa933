//! Directory-synchronization planning library.
//!
//! The library models local and remote locations, builds the exact external
//! command vectors needed to list or synchronize them (archive, transfer,
//! extract, cleanup), and drives a confirmation-gated execution state machine.
//! Process execution itself is left to the caller; everything here is pure
//! planning and decision logic.

pub mod cli;
pub mod config;
pub mod folder;
pub mod link;
pub mod ssh;
pub mod sync;
pub mod tar;
pub mod text;

pub use cli::{Args, CliCmd, CmdArgs, PullArgs, PushArgs};
pub use config::{ConfigError, TomlConfig, TomlFolder, TomlLink, TomlSshServer, TomlType};
pub use folder::{Folder, FolderType};
pub use link::Link;
pub use ssh::SshServer;
pub use sync::{SyncError, SyncPhase, SyncPlan, SyncRun};
