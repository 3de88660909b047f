//! Keeps a vendor space: a directory that holds one clone for each configured
//! repository, with the dependencies of each of its branches vendored.
//!
//! The library decides and the program that uses it acts. Nothing here looks
//! at the filesystem or starts a process. The procedures are step functions
//! that name a request, take what came of it, and say how to go on:
//!
//! - [`repository`] acquires one repository: it clones it, adopts a clean
//!   clone that is already there, or rejects what it finds.
//! - [`vendoring`] vendors the branches of one repository and leaves it on
//!   its primary branch.
//! - [`space`] takes the repositories of a configuration one after the other.
//!
//! [`cmd`] holds the scripts that the requests carry, [`protocol`] the
//! requests and events themselves, and [`config`] the configuration and the
//! rules by which it is resolved.

pub mod cmd;
pub mod config;
pub mod protocol;
pub mod repository;
pub mod space;
pub mod vendoring;

pub use cmd::{exit_result, Command, Script, ShellError};
pub use config::{
    config_source, resolve_allow_existing, resolve_config, resolve_repo, root_plan,
    root_plan_given, Args, Config, ConfigError, ConfigFile, ConfigFileHeader, ConfigFileRepo,
    ConfigSource, Repo, RootPlan, ALLOW_EXISTING_DEFAULT,
};
pub use protocol::{Event, PathKind, Request, Step};
pub use repository::{acquire_request, get_code, AcquireStage, RepositoryError};
pub use space::{prepare, Phase, Preparation, VendorSpaceError};
pub use vendoring::{vendor, vendor_request, VendorStage};
