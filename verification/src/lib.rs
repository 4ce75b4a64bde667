//! A capability-based permission engine: for each capability kind (file
//! read/write, network, environment, system information, subprocess, FFI,
//! module import) it decides whether a requested operation is allowed,
//! denied, or needs an interactive prompt, and remembers the outcome.
//!
//! The engine works on descriptors whose contents are plain values (path
//! segments, host names, variable names); turning host-specific input such
//! as relative paths or URLs into descriptors is the job of a
//! `PermissionDescriptorParser` collaborator supplied by the embedder, and
//! interactive questions go through a `PermissionPrompter` collaborator.

pub mod container;
pub mod env;
pub mod errors;
pub mod fs;
pub mod host;
pub mod laws;
pub mod net;
pub mod parser;
pub mod path;
pub mod perms;
pub mod query;
pub mod run;
pub mod state;
pub mod strings;
pub mod sys;
pub mod unary;
pub mod unit;

pub use container::PermissionsContainer;
pub use env::EnvDescriptor;
pub use errors::PermError;
pub use fs::{FfiDescriptor, FfiQueryDescriptor, PathQueryDescriptor, ReadDescriptor,
    ReadQueryDescriptor, WriteDescriptor, WriteQueryDescriptor};
pub use host::{Host, IpRepr};
pub use net::{ImportDescriptor, NetDescriptor};
pub use parser::{AllowRunDescriptorParseResult, CheckSpecifierKind, ModuleSpecifier,
    PermissionDescriptorParser};
pub use path::PathRepr;
pub use perms::{ChildPermissionsArg, ChildUnaryPermissionArg, Permissions, PermissionsOptions};
pub use run::{AllowRunDescriptor, DenyRunDescriptor, RunDescriptorArg, RunQueryDescriptor};
pub use state::{PermissionPrompter, PermissionState, PromptResponse};
pub use sys::SysDescriptor;
pub use unary::{ChildUnaryArg, UnaryPermission};
pub use unit::{ChildUnitPermissionArg, UnitPermission};
