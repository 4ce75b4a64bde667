//! The descriptor-parser collaborator and the resolved module specifier.
//!
//! Turning raw flag or API text into typed descriptors is host-specific
//! work (it resolves relative paths against a real or virtual root and
//! looks executables up on a search path), so the engine consumes it
//! through this trait and trusts nothing about the results: every caller's
//! contract covers whatever descriptors come back.

use vstd::prelude::*;

use crate::env::EnvDescriptor;
use crate::errors::{type_error, PermError};
use crate::fs::{FfiDescriptor, PathQueryDescriptor, ReadDescriptor, WriteDescriptor};
use crate::host::{host_parse_model, Host};
use crate::net::{ImportDescriptor, NetDescriptor, NetModel};
use crate::run::{AllowRunDescriptor, DenyRunDescriptor, RunQueryDescriptor};
use crate::strings::str_copy;
use crate::sys::SysDescriptor;

verus! {

/// A module specifier, reduced to the parts the permission rules read:
/// its scheme, its host and effective port (the written one or the
/// scheme's default), the filesystem path it converts to when it is a
/// `file` specifier, and its full text for messages. The embedder builds
/// this from its URL library.
#[derive(Debug)]
pub struct ModuleSpecifier {
    pub scheme: String,
    pub host: Option<String>,
    pub port: Option<u16>,
    pub file_path: Option<PathQueryDescriptor>,
    pub display: String,
}

/// The mathematical shape of a module specifier.
pub struct SpecifierModel {
    pub scheme: Seq<char>,
    pub host: Option<Seq<char>>,
    pub port: Option<u16>,
    pub file_path: Option<crate::fs::PathQueryModel>,
    pub display: Seq<char>,
}

impl View for ModuleSpecifier {
    type V = SpecifierModel;

    open spec fn view(&self) -> SpecifierModel {
        SpecifierModel {
            scheme: self.scheme@,
            host: match &self.host {
                Some(h) => Some(h@),
                None => None,
            },
            port: self.port,
            file_path: match &self.file_path {
                Some(p) => Some(p@),
                None => None,
            },
            display: self.display@,
        }
    }
}

/// What building a network descriptor from a specifier yields: nothing
/// without a host or with an unparseable one, else the host with the
/// specifier's effective port.
pub open spec fn net_from_url_model(u: SpecifierModel) -> Option<NetModel> {
    match u.host {
        None => None,
        Some(h) => match host_parse_model(h) {
            Some(hm) => Some(NetModel { host: hm, port: u.port }),
            None => None,
        },
    }
}

impl NetDescriptor {
    /// The network scope of a specifier: its host and effective port.
    pub fn from_url(url: &ModuleSpecifier) -> (r: Result<NetDescriptor, PermError>)
        ensures
            match r {
                Ok(d) => net_from_url_model(url@) == Some(d@),
                Err(_) => net_from_url_model(url@) is None,
            },
    {
        let host_text: &String = match &url.host {
            Some(h) => h,
            None => {
                let mut msg = String::new();
                msg.append("Missing host in url: '");
                msg.append(url.display.as_str());
                msg.append("'");
                return Err(type_error(msg));
            },
        };
        match Host::parse(host_text.as_str()) {
            Ok(h) => Ok(NetDescriptor(h, url.port)),
            Err(e) => Err(e),
        }
    }
}

impl ImportDescriptor {
    /// The import scope of a specifier: its host and effective port.
    pub fn from_url(url: &ModuleSpecifier) -> (r: Result<ImportDescriptor, PermError>)
        ensures
            match r {
                Ok(d) => net_from_url_model(url@) == Some(d@),
                Err(_) => net_from_url_model(url@) is None,
            },
    {
        match NetDescriptor::from_url(url) {
            Ok(d) => Ok(ImportDescriptor(d)),
            Err(e) => Err(e),
        }
    }
}

/// What parsing an allow-run flag yields: a resolved executable, or the
/// resolution failure — surfaced as a warning when starting a process,
/// ignored when deriving a child scope.
pub enum AllowRunDescriptorParseResult {
    Unresolved(PermError),
    Descriptor(AllowRunDescriptor),
}

/// Parses and normalizes permission descriptors. The engine has no file
/// system of its own: resolving relative paths against a working
/// directory, looking a command up on the search path, or reading a URL
/// is the embedder's work, behind this trait.
pub trait PermissionDescriptorParser {
    fn parse_read_descriptor(&self, text: &str) -> Result<ReadDescriptor, PermError>;

    fn parse_write_descriptor(&self, text: &str) -> Result<WriteDescriptor, PermError>;

    fn parse_net_descriptor(&self, text: &str) -> Result<NetDescriptor, PermError>;

    fn parse_net_descriptor_from_url(&self, url: &ModuleSpecifier) -> Result<
        NetDescriptor,
        PermError,
    >;

    fn parse_import_descriptor(&self, text: &str) -> Result<ImportDescriptor, PermError>;

    fn parse_import_descriptor_from_url(&self, url: &ModuleSpecifier) -> Result<
        ImportDescriptor,
        PermError,
    >;

    fn parse_env_descriptor(&self, text: &str) -> Result<EnvDescriptor, PermError>;

    fn parse_sys_descriptor(&self, text: &str) -> Result<SysDescriptor, PermError>;

    fn parse_allow_run_descriptor(&self, text: &str) -> Result<
        AllowRunDescriptorParseResult,
        PermError,
    >;

    fn parse_deny_run_descriptor(&self, text: &str) -> Result<DenyRunDescriptor, PermError>;

    fn parse_ffi_descriptor(&self, text: &str) -> Result<FfiDescriptor, PermError>;

    fn parse_path_query(&self, path: &str) -> Result<PathQueryDescriptor, PermError>;

    fn parse_run_query(&self, requested: &str) -> Result<RunQueryDescriptor, PermError>;
}

/// How a specifier is being checked: a static import resolved at load
/// time, or a dynamic one requested by running code.
#[derive(Debug, Clone, Copy, PartialEq, Eq, Structural)]
pub enum CheckSpecifierKind {
    Static,
    Dynamic,
}

impl ModuleSpecifier {
    /// A specifier from its parts.
    pub fn new(
        scheme: String,
        host: Option<String>,
        port: Option<u16>,
        file_path: Option<PathQueryDescriptor>,
        display: String,
    ) -> (r: ModuleSpecifier)
        ensures
            r.scheme@ == scheme@,
            r@.host == (match host {
                Some(h) => Some(h@),
                None => None,
            }),
            r.port == port,
            r@.file_path == (match file_path {
                Some(p) => Some(p@),
                None => None,
            }),
            r.display@ == display@,
    {
        ModuleSpecifier { scheme, host, port, file_path, display }
    }

    /// The specifier's full text, for messages.
    pub fn display_text(&self) -> (r: String)
        ensures
            r@ == self@.display,
    {
        str_copy(self.display.as_str())
    }
}

} // verus!
