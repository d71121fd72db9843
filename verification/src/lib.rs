//! Machine provisioning: installs declared packages through a system package
//! manager and links each package's configuration file into the home directory.
//!
//! The commands to run and the links to create are decided here; running and
//! linking are left to the [`Shell`] and [`Filesystem`] handed in.

pub mod config;
pub mod filesystem;
pub mod manager;
pub mod package;
pub mod path;
pub mod shell;

pub use config::{can_link_all, install_config_files};
pub use filesystem::{Filesystem, LinkLog, RecordingFilesystem, SymlinkRequest};
pub use manager::{install_batch, install_packages, PacMan, PackageManager, Snap};
pub use package::{all_packages, Package, PackageGroup, PackageManagers};
pub use shell::{CommandInvocation, InvocationLog, RecordingShell, Shell};
