//! The facade call sites consult: a permission set together with the
//! descriptor-parser and prompter collaborators. Every method resolves raw
//! input through the parser, delegates to the matching per-kind
//! permission, and skips parsing entirely when the whole kind is already
//! unconditionally granted.
//!
//! The container owns its state; an embedder that shares one scope across
//! threads wraps it in its own lock, holding the lock for the duration of
//! each call so concurrent prompts stay serialized.

use vstd::prelude::*;

use crate::env::env_view;
use crate::errors::{uri_error, PermError};
use crate::fs::{PathQueryDescriptor, PathQueryModel, ReadQueryDescriptor, WriteQueryDescriptor,
    FfiQueryDescriptor};
use crate::net::{ImportDescriptor, NetDescriptor, NetModel};
use crate::parser::{AllowRunDescriptorParseResult, CheckSpecifierKind, ModuleSpecifier,
    PermissionDescriptorParser};
use crate::path::PathRepr;
use crate::perms::{ChildPermissionsArg, ChildUnaryPermissionArg, Permissions};
use crate::run::RunQueryDescriptor;
use crate::sys::SysDescriptor;
use crate::state::{AllowPartial, PermissionPrompter, PermissionState, PromptResponse};
use crate::strings::str_eq;
use crate::unary::{spec_formatted_display, ChildUnaryArg, UnaryPermission};
use crate::unit::ChildUnitPermissionArg;

verus! {

/// The permission state of one execution scope, with its collaborators.
pub struct PermissionsContainer<TParser: PermissionDescriptorParser, TPrompter: PermissionPrompter> {
    pub parser: TParser,
    pub prompter: TPrompter,
    pub inner: Permissions,
}

/// Only the read permission may differ.
pub open spec fn only_read_changed(a: Permissions, b: Permissions) -> bool {
    &&& b.write == a.write
    &&& b.net == a.net
    &&& b.env == a.env
    &&& b.sys == a.sys
    &&& b.run == a.run
    &&& b.ffi == a.ffi
    &&& b.import == a.import
    &&& b.all == a.all
}

/// Only the write permission may differ.
pub open spec fn only_write_changed(a: Permissions, b: Permissions) -> bool {
    &&& b.read == a.read
    &&& b.net == a.net
    &&& b.env == a.env
    &&& b.sys == a.sys
    &&& b.run == a.run
    &&& b.ffi == a.ffi
    &&& b.import == a.import
    &&& b.all == a.all
}

/// Only the net permission may differ.
pub open spec fn only_net_changed(a: Permissions, b: Permissions) -> bool {
    &&& b.read == a.read
    &&& b.write == a.write
    &&& b.env == a.env
    &&& b.sys == a.sys
    &&& b.run == a.run
    &&& b.ffi == a.ffi
    &&& b.import == a.import
    &&& b.all == a.all
}

/// Only the env permission may differ.
pub open spec fn only_env_changed(a: Permissions, b: Permissions) -> bool {
    &&& b.read == a.read
    &&& b.write == a.write
    &&& b.net == a.net
    &&& b.sys == a.sys
    &&& b.run == a.run
    &&& b.ffi == a.ffi
    &&& b.import == a.import
    &&& b.all == a.all
}

/// Only the sys permission may differ.
pub open spec fn only_sys_changed(a: Permissions, b: Permissions) -> bool {
    &&& b.read == a.read
    &&& b.write == a.write
    &&& b.net == a.net
    &&& b.env == a.env
    &&& b.run == a.run
    &&& b.ffi == a.ffi
    &&& b.import == a.import
    &&& b.all == a.all
}

/// Only the run permission may differ.
pub open spec fn only_run_changed(a: Permissions, b: Permissions) -> bool {
    &&& b.read == a.read
    &&& b.write == a.write
    &&& b.net == a.net
    &&& b.env == a.env
    &&& b.sys == a.sys
    &&& b.ffi == a.ffi
    &&& b.import == a.import
    &&& b.all == a.all
}

/// Only the ffi permission may differ.
pub open spec fn only_ffi_changed(a: Permissions, b: Permissions) -> bool {
    &&& b.read == a.read
    &&& b.write == a.write
    &&& b.net == a.net
    &&& b.env == a.env
    &&& b.sys == a.sys
    &&& b.run == a.run
    &&& b.import == a.import
    &&& b.all == a.all
}

/// Only the import permission may differ.
pub open spec fn only_import_changed(a: Permissions, b: Permissions) -> bool {
    &&& b.read == a.read
    &&& b.write == a.write
    &&& b.net == a.net
    &&& b.env == a.env
    &&& b.sys == a.sys
    &&& b.run == a.run
    &&& b.ffi == a.ffi
    &&& b.all == a.all
}


/// Only the read and import permissions may differ.
pub open spec fn only_read_import_changed(a: Permissions, b: Permissions) -> bool {
    &&& b.write == a.write
    &&& b.net == a.net
    &&& b.env == a.env
    &&& b.sys == a.sys
    &&& b.run == a.run
    &&& b.ffi == a.ffi
    &&& b.all == a.all
}

/// Whether a child-scope request asks for nothing new: every kind either
/// inherits or takes nothing, so deriving it parses nothing and cannot
/// fail.
pub open spec fn asks_nothing_new(arg: ChildPermissionsArg) -> bool {
    &&& (arg.read is Inherit || arg.read is NotGranted)
    &&& (arg.write is Inherit || arg.write is NotGranted)
    &&& (arg.net is Inherit || arg.net is NotGranted)
    &&& (arg.env is Inherit || arg.env is NotGranted)
    &&& (arg.sys is Inherit || arg.sys is NotGranted)
    &&& (arg.run is Inherit || arg.run is NotGranted)
    &&& (arg.ffi is Inherit || arg.ffi is NotGranted)
    &&& (arg.import is Inherit || arg.import is NotGranted)
}

/// Only the all-permissions umbrella may differ.
pub open spec fn only_all_changed(a: Permissions, b: Permissions) -> bool {
    &&& b.read == a.read
    &&& b.write == a.write
    &&& b.net == a.net
    &&& b.env == a.env
    &&& b.sys == a.sys
    &&& b.run == a.run
    &&& b.ffi == a.ffi
    &&& b.import == a.import
}

impl<TParser: PermissionDescriptorParser, TPrompter: PermissionPrompter> PermissionsContainer<
    TParser,
    TPrompter,
> {
    /// A container over the given state and collaborators.
    pub fn new(parser: TParser, prompter: TPrompter, perms: Permissions) -> (r: Self)
        ensures
            r.inner == perms,
    {
        PermissionsContainer { parser, prompter, inner: perms }
    }

    /// A container whose every capability is granted.
    pub fn allow_all(parser: TParser, prompter: TPrompter) -> (r: Self)
        ensures
            r.inner.read.spec_is_allow_all(),
            r.inner.write.spec_is_allow_all(),
            r.inner.net.spec_is_allow_all(),
            r.inner.env.spec_is_allow_all(),
            r.inner.sys.spec_is_allow_all(),
            r.inner.run.spec_is_allow_all(),
            r.inner.ffi.spec_is_allow_all(),
            r.inner.import.spec_is_allow_all(),
    {
        Self::new(parser, prompter, Permissions::allow_all())
    }

    /// Checks the whole env kind.
    pub fn check_env_all(&mut self) -> (r: Result<(), PermError>)
        ensures
            only_env_changed(old(self).inner, final(self).inner),
            UnaryPermission::<crate::env::EnvDescriptor>::spec_checked_outcome(
                old(self).inner.env,
                final(self).inner.env,
                None,
                false,
                true,
                r,
            ),
    {
        self.inner.env.check_all(&mut self.prompter)
    }

    /// Checks the whole sys kind.
    pub fn check_sys_all(&mut self) -> (r: Result<(), PermError>)
        ensures
            only_sys_changed(old(self).inner, final(self).inner),
            UnaryPermission::<crate::sys::SysDescriptor>::spec_checked_outcome(
                old(self).inner.sys,
                final(self).inner.sys,
                None,
                false,
                true,
                r,
            ),
    {
        self.inner.sys.check_all(&mut self.prompter)
    }

    /// Checks the whole ffi kind.
    pub fn check_ffi_all(&mut self) -> (r: Result<(), PermError>)
        ensures
            only_ffi_changed(old(self).inner, final(self).inner),
            UnaryPermission::<FfiQueryDescriptor>::spec_checked_outcome(
                old(self).inner.ffi,
                final(self).inner.ffi,
                None,
                false,
                true,
                r,
            ),
    {
        self.inner.ffi.check_all(&mut self.prompter)
    }

    /// Checks the whole read kind.
    pub fn check_read_all(&mut self, api_name: &str) -> (r: Result<(), PermError>)
        ensures
            only_read_changed(old(self).inner, final(self).inner),
            UnaryPermission::<ReadQueryDescriptor>::spec_checked_outcome(
                old(self).inner.read,
                final(self).inner.read,
                None,
                false,
                true,
                r,
            ),
    {
        self.inner.read.check_all(Some(api_name), &mut self.prompter)
    }

    /// Whether the whole read kind is granted.
    pub fn query_read_all(&self) -> (r: bool)
        ensures
            r == (self.inner.read.spec_is_allow_all() || self.inner.read.spec_query_desc(
                None,
                AllowPartial::TreatAsPartialGranted,
            ) == PermissionState::Granted),
    {
        if self.inner.read.is_allow_all() {
            return true;
        }
        let state = self.inner.read.query(None);
        match state {
            PermissionState::Granted => true,
            _ => false,
        }
    }

    /// Checks the whole write kind.
    pub fn check_write_all(&mut self, api_name: &str) -> (r: Result<(), PermError>)
        ensures
            only_write_changed(old(self).inner, final(self).inner),
            UnaryPermission::<WriteQueryDescriptor>::spec_checked_outcome(
                old(self).inner.write,
                final(self).inner.write,
                None,
                false,
                true,
                r,
            ),
    {
        self.inner.write.check_all(Some(api_name), &mut self.prompter)
    }

    /// Checks the whole run kind.
    pub fn check_run_all(&mut self, api_name: &str) -> (r: Result<(), PermError>)
        ensures
            only_run_changed(old(self).inner, final(self).inner),
            UnaryPermission::<RunQueryDescriptor>::spec_checked_outcome(
                old(self).inner.run,
                final(self).inner.run,
                None,
                false,
                false,
                r,
            ),
    {
        self.inner.run.check_all(Some(api_name), &mut self.prompter)
    }

    /// Whether the whole run kind passes without prompting.
    pub fn query_run_all(&mut self, api_name: &str) -> (r: bool)
        ensures
            *final(self) == *old(self),
            r == old(self).inner.run.spec_silent_check_passes(None, true),
    {
        self.inner.run.query_all(Some(api_name))
    }

    /// Checks whether the all-permissions flag was passed — not whether
    /// every permission happens to be enabled.
    pub fn check_was_allow_all_flag_passed(&mut self) -> (r: Result<(), PermError>)
        ensures
            only_all_changed(old(self).inner, final(self).inner),
            exists|resp: Option<PromptResponse>, prompted: bool|
                #[trigger] crate::unit::unit_check_post(
                    old(self).inner.all,
                    final(self).inner.all,
                    r,
                    resp,
                    prompted,
                ),
    {
        self.inner.all.check(&mut self.prompter)
    }

    /// Checks one environment variable.
    pub fn check_env(&mut self, var: &str) -> (r: Result<(), PermError>)
        ensures
            only_env_changed(old(self).inner, final(self).inner),
            UnaryPermission::<crate::env::EnvDescriptor>::spec_checked_outcome(
                old(self).inner.env,
                final(self).inner.env,
                Some(var@),
                false,
                true,
                r,
            ),
    {
        self.inner.env.check(var, None, &mut self.prompter)
    }

    /// Checks one run query.
    pub fn check_run(&mut self, cmd: &RunQueryDescriptor, api_name: &str) -> (r: Result<
        (),
        PermError,
    >)
        ensures
            only_run_changed(old(self).inner, final(self).inner),
            UnaryPermission::<RunQueryDescriptor>::spec_checked_outcome(
                old(self).inner.run,
                final(self).inner.run,
                Some(cmd@),
                false,
                false,
                r,
            ),
    {
        self.inner.run.check(cmd, Some(api_name), &mut self.prompter)
    }

    /// The state of a read query, parsed by the collaborator; the
    /// fully granted fast path answers without parsing.
    pub fn query_read(&self, v: Option<&str>) -> (r: Result<PermissionState, PermError>)
        ensures
            self.inner.read.spec_is_allow_all() ==> (r matches Ok(s) && s
                == PermissionState::Granted),
            !self.inner.read.spec_is_allow_all() ==> match v {
                None => r matches Ok(s) && s == self.inner.read.spec_query_desc(
                    None,
                    AllowPartial::TreatAsPartialGranted,
                ),
                Some(_) => match r {
                    Ok(s) => exists|qm: PathQueryModel|
                        s == #[trigger] self.inner.read.spec_query_desc(
                            Some(qm),
                            AllowPartial::TreatAsPartialGranted,
                        ),
                    Err(_) => true,
                },
            },
    {
        if self.inner.read.is_allow_all() {
            return Ok(PermissionState::Granted);
        }
        match v {
            Some(k) => {
                let parsed = match self.parser.parse_path_query(k) { Ok(pq) => Ok(pq.into_read()), Err(e) => Err(e) };
                match parsed {
                    Ok(d) => {
                        let s = self.inner.read.query(Some(&d));
                        proof {
                            assert(s == self.inner.read.spec_query_desc(
                                Some(d@),
                                AllowPartial::TreatAsPartialGranted,
                            ));
                        }
                        Ok(s)
                    },
                    Err(e) => Err(e),
                }
            },
            None => Ok(self.inner.read.query(None)),
        }
    }

    /// Revokes a read query's grants, or the whole kind's for `None`.
    pub fn revoke_read(&mut self, v: Option<&str>) -> (r: Result<PermissionState, PermError>)
        ensures
            only_read_changed(old(self).inner, final(self).inner),
            match v {
                None => r matches Ok(s) && UnaryPermission::<ReadQueryDescriptor>::spec_revoke_post(
                    old(self).inner.read,
                    final(self).inner.read,
                    None,
                    s,
                ),
                Some(_) => match r {
                    Ok(s) => exists|qm: PathQueryModel|
                        #[trigger] UnaryPermission::<ReadQueryDescriptor>::spec_revoke_post(
                            old(self).inner.read,
                            final(self).inner.read,
                            Some(qm),
                            s,
                        ),
                    Err(_) => final(self).inner.read == old(self).inner.read,
                },
            },
    {
        match v {
            Some(k) => {
                let parsed = match self.parser.parse_path_query(k) { Ok(pq) => Ok(pq.into_read()), Err(e) => Err(e) };
                match parsed {
                    Ok(d) => {
                        let s = self.inner.read.revoke(Some(&d));
                        proof {
                            assert(UnaryPermission::<ReadQueryDescriptor>::spec_revoke_post(
                                old(self).inner.read,
                                final(self).inner.read,
                                Some(d@),
                                s,
                            ));
                        }
                        Ok(s)
                    },
                    Err(e) => Err(e),
                }
            },
            None => {
                let s = self.inner.read.revoke(None);
                proof {
                    assert(UnaryPermission::<ReadQueryDescriptor>::spec_revoke_post(
                        old(self).inner.read,
                        final(self).inner.read,
                        None,
                        s,
                    ));
                }
                Ok(s)
            },
        }
    }

    /// Requests a read permission now, prompting when the state allows.
    pub fn request_read(&mut self, v: Option<&str>) -> (r: Result<PermissionState, PermError>)
        ensures
            only_read_changed(old(self).inner, final(self).inner),
            match v {
                None => r matches Ok(s) && exists|resp: Option<PromptResponse>|
                    #[trigger] UnaryPermission::<ReadQueryDescriptor>::spec_request_post(
                        old(self).inner.read,
                        final(self).inner.read,
                        None,
                        s,
                        resp,
                    ),
                Some(_) => match r {
                    Ok(s) => exists|qm: PathQueryModel, resp: Option<PromptResponse>|
                        #[trigger] UnaryPermission::<ReadQueryDescriptor>::spec_request_post(
                            old(self).inner.read,
                            final(self).inner.read,
                            Some(qm),
                            s,
                            resp,
                        ),
                    Err(_) => final(self).inner.read == old(self).inner.read,
                },
            },
    {
        match v {
            Some(k) => {
                let parsed = match self.parser.parse_path_query(k) { Ok(pq) => Ok(pq.into_read()), Err(e) => Err(e) };
                match parsed {
                    Ok(d) => {
                        let s = self.inner.read.request(Some(&d), &mut self.prompter);
                        proof {
                            let resp = choose|resp: Option<PromptResponse>|
                                UnaryPermission::<ReadQueryDescriptor>::spec_request_post(
                                    old(self).inner.read,
                                    self.inner.read,
                                    Some(d@),
                                    s,
                                    resp,
                                );
                            assert(UnaryPermission::<ReadQueryDescriptor>::spec_request_post(
                                old(self).inner.read,
                                self.inner.read,
                                Some(d@),
                                s,
                                resp,
                            ));
                        }
                        Ok(s)
                    },
                    Err(e) => Err(e),
                }
            },
            None => {
                let s = self.inner.read.request(None, &mut self.prompter);
                proof {
                    let resp = choose|resp: Option<PromptResponse>|
                        UnaryPermission::<ReadQueryDescriptor>::spec_request_post(
                            old(self).inner.read,
                            self.inner.read,
                            None,
                            s,
                            resp,
                        );
                    assert(UnaryPermission::<ReadQueryDescriptor>::spec_request_post(
                        old(self).inner.read,
                        self.inner.read,
                        None,
                        s,
                        resp,
                    ));
                }
                Ok(s)
            },
        }
    }

    /// The state of a write query, parsed by the collaborator; the
    /// fully granted fast path answers without parsing.
    pub fn query_write(&self, v: Option<&str>) -> (r: Result<PermissionState, PermError>)
        ensures
            self.inner.write.spec_is_allow_all() ==> (r matches Ok(s) && s
                == PermissionState::Granted),
            !self.inner.write.spec_is_allow_all() ==> match v {
                None => r matches Ok(s) && s == self.inner.write.spec_query_desc(
                    None,
                    AllowPartial::TreatAsPartialGranted,
                ),
                Some(_) => match r {
                    Ok(s) => exists|qm: PathQueryModel|
                        s == #[trigger] self.inner.write.spec_query_desc(
                            Some(qm),
                            AllowPartial::TreatAsPartialGranted,
                        ),
                    Err(_) => true,
                },
            },
    {
        if self.inner.write.is_allow_all() {
            return Ok(PermissionState::Granted);
        }
        match v {
            Some(k) => {
                let parsed = match self.parser.parse_path_query(k) { Ok(pq) => Ok(pq.into_write()), Err(e) => Err(e) };
                match parsed {
                    Ok(d) => {
                        let s = self.inner.write.query(Some(&d));
                        proof {
                            assert(s == self.inner.write.spec_query_desc(
                                Some(d@),
                                AllowPartial::TreatAsPartialGranted,
                            ));
                        }
                        Ok(s)
                    },
                    Err(e) => Err(e),
                }
            },
            None => Ok(self.inner.write.query(None)),
        }
    }

    /// Revokes a write query's grants, or the whole kind's for `None`.
    pub fn revoke_write(&mut self, v: Option<&str>) -> (r: Result<PermissionState, PermError>)
        ensures
            only_write_changed(old(self).inner, final(self).inner),
            match v {
                None => r matches Ok(s) && UnaryPermission::<WriteQueryDescriptor>::spec_revoke_post(
                    old(self).inner.write,
                    final(self).inner.write,
                    None,
                    s,
                ),
                Some(_) => match r {
                    Ok(s) => exists|qm: PathQueryModel|
                        #[trigger] UnaryPermission::<WriteQueryDescriptor>::spec_revoke_post(
                            old(self).inner.write,
                            final(self).inner.write,
                            Some(qm),
                            s,
                        ),
                    Err(_) => final(self).inner.write == old(self).inner.write,
                },
            },
    {
        match v {
            Some(k) => {
                let parsed = match self.parser.parse_path_query(k) { Ok(pq) => Ok(pq.into_write()), Err(e) => Err(e) };
                match parsed {
                    Ok(d) => {
                        let s = self.inner.write.revoke(Some(&d));
                        proof {
                            assert(UnaryPermission::<WriteQueryDescriptor>::spec_revoke_post(
                                old(self).inner.write,
                                final(self).inner.write,
                                Some(d@),
                                s,
                            ));
                        }
                        Ok(s)
                    },
                    Err(e) => Err(e),
                }
            },
            None => {
                let s = self.inner.write.revoke(None);
                proof {
                    assert(UnaryPermission::<WriteQueryDescriptor>::spec_revoke_post(
                        old(self).inner.write,
                        final(self).inner.write,
                        None,
                        s,
                    ));
                }
                Ok(s)
            },
        }
    }

    /// Requests a write permission now, prompting when the state allows.
    pub fn request_write(&mut self, v: Option<&str>) -> (r: Result<PermissionState, PermError>)
        ensures
            only_write_changed(old(self).inner, final(self).inner),
            match v {
                None => r matches Ok(s) && exists|resp: Option<PromptResponse>|
                    #[trigger] UnaryPermission::<WriteQueryDescriptor>::spec_request_post(
                        old(self).inner.write,
                        final(self).inner.write,
                        None,
                        s,
                        resp,
                    ),
                Some(_) => match r {
                    Ok(s) => exists|qm: PathQueryModel, resp: Option<PromptResponse>|
                        #[trigger] UnaryPermission::<WriteQueryDescriptor>::spec_request_post(
                            old(self).inner.write,
                            final(self).inner.write,
                            Some(qm),
                            s,
                            resp,
                        ),
                    Err(_) => final(self).inner.write == old(self).inner.write,
                },
            },
    {
        match v {
            Some(k) => {
                let parsed = match self.parser.parse_path_query(k) { Ok(pq) => Ok(pq.into_write()), Err(e) => Err(e) };
                match parsed {
                    Ok(d) => {
                        let s = self.inner.write.request(Some(&d), &mut self.prompter);
                        proof {
                            let resp = choose|resp: Option<PromptResponse>|
                                UnaryPermission::<WriteQueryDescriptor>::spec_request_post(
                                    old(self).inner.write,
                                    self.inner.write,
                                    Some(d@),
                                    s,
                                    resp,
                                );
                            assert(UnaryPermission::<WriteQueryDescriptor>::spec_request_post(
                                old(self).inner.write,
                                self.inner.write,
                                Some(d@),
                                s,
                                resp,
                            ));
                        }
                        Ok(s)
                    },
                    Err(e) => Err(e),
                }
            },
            None => {
                let s = self.inner.write.request(None, &mut self.prompter);
                proof {
                    let resp = choose|resp: Option<PromptResponse>|
                        UnaryPermission::<WriteQueryDescriptor>::spec_request_post(
                            old(self).inner.write,
                            self.inner.write,
                            None,
                            s,
                            resp,
                        );
                    assert(UnaryPermission::<WriteQueryDescriptor>::spec_request_post(
                        old(self).inner.write,
                        self.inner.write,
                        None,
                        s,
                        resp,
                    ));
                }
                Ok(s)
            },
        }
    }

    /// The state of a ffi query, parsed by the collaborator; the
    /// fully granted fast path answers without parsing.
    pub fn query_ffi(&self, v: Option<&str>) -> (r: Result<PermissionState, PermError>)
        ensures
            self.inner.ffi.spec_is_allow_all() ==> (r matches Ok(s) && s
                == PermissionState::Granted),
            !self.inner.ffi.spec_is_allow_all() ==> match v {
                None => r matches Ok(s) && s == self.inner.ffi.spec_query_desc(
                    None,
                    AllowPartial::TreatAsPartialGranted,
                ),
                Some(_) => match r {
                    Ok(s) => exists|qm: PathQueryModel|
                        s == #[trigger] self.inner.ffi.spec_query_desc(
                            Some(qm),
                            AllowPartial::TreatAsPartialGranted,
                        ),
                    Err(_) => true,
                },
            },
    {
        if self.inner.ffi.is_allow_all() {
            return Ok(PermissionState::Granted);
        }
        match v {
            Some(k) => {
                let parsed = match self.parser.parse_path_query(k) { Ok(pq) => Ok(pq.into_ffi()), Err(e) => Err(e) };
                match parsed {
                    Ok(d) => {
                        let s = self.inner.ffi.query(Some(&d));
                        proof {
                            assert(s == self.inner.ffi.spec_query_desc(
                                Some(d@),
                                AllowPartial::TreatAsPartialGranted,
                            ));
                        }
                        Ok(s)
                    },
                    Err(e) => Err(e),
                }
            },
            None => Ok(self.inner.ffi.query(None)),
        }
    }

    /// Revokes a ffi query's grants, or the whole kind's for `None`.
    pub fn revoke_ffi(&mut self, v: Option<&str>) -> (r: Result<PermissionState, PermError>)
        ensures
            only_ffi_changed(old(self).inner, final(self).inner),
            match v {
                None => r matches Ok(s) && UnaryPermission::<FfiQueryDescriptor>::spec_revoke_post(
                    old(self).inner.ffi,
                    final(self).inner.ffi,
                    None,
                    s,
                ),
                Some(_) => match r {
                    Ok(s) => exists|qm: PathQueryModel|
                        #[trigger] UnaryPermission::<FfiQueryDescriptor>::spec_revoke_post(
                            old(self).inner.ffi,
                            final(self).inner.ffi,
                            Some(qm),
                            s,
                        ),
                    Err(_) => final(self).inner.ffi == old(self).inner.ffi,
                },
            },
    {
        match v {
            Some(k) => {
                let parsed = match self.parser.parse_path_query(k) { Ok(pq) => Ok(pq.into_ffi()), Err(e) => Err(e) };
                match parsed {
                    Ok(d) => {
                        let s = self.inner.ffi.revoke(Some(&d));
                        proof {
                            assert(UnaryPermission::<FfiQueryDescriptor>::spec_revoke_post(
                                old(self).inner.ffi,
                                final(self).inner.ffi,
                                Some(d@),
                                s,
                            ));
                        }
                        Ok(s)
                    },
                    Err(e) => Err(e),
                }
            },
            None => {
                let s = self.inner.ffi.revoke(None);
                proof {
                    assert(UnaryPermission::<FfiQueryDescriptor>::spec_revoke_post(
                        old(self).inner.ffi,
                        final(self).inner.ffi,
                        None,
                        s,
                    ));
                }
                Ok(s)
            },
        }
    }

    /// Requests a ffi permission now, prompting when the state allows.
    pub fn request_ffi(&mut self, v: Option<&str>) -> (r: Result<PermissionState, PermError>)
        ensures
            only_ffi_changed(old(self).inner, final(self).inner),
            match v {
                None => r matches Ok(s) && exists|resp: Option<PromptResponse>|
                    #[trigger] UnaryPermission::<FfiQueryDescriptor>::spec_request_post(
                        old(self).inner.ffi,
                        final(self).inner.ffi,
                        None,
                        s,
                        resp,
                    ),
                Some(_) => match r {
                    Ok(s) => exists|qm: PathQueryModel, resp: Option<PromptResponse>|
                        #[trigger] UnaryPermission::<FfiQueryDescriptor>::spec_request_post(
                            old(self).inner.ffi,
                            final(self).inner.ffi,
                            Some(qm),
                            s,
                            resp,
                        ),
                    Err(_) => final(self).inner.ffi == old(self).inner.ffi,
                },
            },
    {
        match v {
            Some(k) => {
                let parsed = match self.parser.parse_path_query(k) { Ok(pq) => Ok(pq.into_ffi()), Err(e) => Err(e) };
                match parsed {
                    Ok(d) => {
                        let s = self.inner.ffi.request(Some(&d), &mut self.prompter);
                        proof {
                            let resp = choose|resp: Option<PromptResponse>|
                                UnaryPermission::<FfiQueryDescriptor>::spec_request_post(
                                    old(self).inner.ffi,
                                    self.inner.ffi,
                                    Some(d@),
                                    s,
                                    resp,
                                );
                            assert(UnaryPermission::<FfiQueryDescriptor>::spec_request_post(
                                old(self).inner.ffi,
                                self.inner.ffi,
                                Some(d@),
                                s,
                                resp,
                            ));
                        }
                        Ok(s)
                    },
                    Err(e) => Err(e),
                }
            },
            None => {
                let s = self.inner.ffi.request(None, &mut self.prompter);
                proof {
                    let resp = choose|resp: Option<PromptResponse>|
                        UnaryPermission::<FfiQueryDescriptor>::spec_request_post(
                            old(self).inner.ffi,
                            self.inner.ffi,
                            None,
                            s,
                            resp,
                        );
                    assert(UnaryPermission::<FfiQueryDescriptor>::spec_request_post(
                        old(self).inner.ffi,
                        self.inner.ffi,
                        None,
                        s,
                        resp,
                    ));
                }
                Ok(s)
            },
        }
    }

    /// The state of a net query, parsed by the collaborator; the
    /// fully granted fast path answers without parsing.
    pub fn query_net(&self, v: Option<&str>) -> (r: Result<PermissionState, PermError>)
        ensures
            self.inner.net.spec_is_allow_all() ==> (r matches Ok(s) && s
                == PermissionState::Granted),
            !self.inner.net.spec_is_allow_all() ==> match v {
                None => r matches Ok(s) && s == self.inner.net.spec_query_desc(
                    None,
                    AllowPartial::TreatAsPartialGranted,
                ),
                Some(_) => match r {
                    Ok(s) => exists|qm: NetModel|
                        s == #[trigger] self.inner.net.spec_query_desc(
                            Some(qm),
                            AllowPartial::TreatAsPartialGranted,
                        ),
                    Err(_) => true,
                },
            },
    {
        if self.inner.net.is_allow_all() {
            return Ok(PermissionState::Granted);
        }
        match v {
            Some(k) => {
                let parsed = self.parser.parse_net_descriptor(k);
                match parsed {
                    Ok(d) => {
                        let s = self.inner.net.query(Some(&d));
                        proof {
                            assert(s == self.inner.net.spec_query_desc(
                                Some(d@),
                                AllowPartial::TreatAsPartialGranted,
                            ));
                        }
                        Ok(s)
                    },
                    Err(e) => Err(e),
                }
            },
            None => Ok(self.inner.net.query(None)),
        }
    }

    /// Revokes a net query's grants, or the whole kind's for `None`.
    pub fn revoke_net(&mut self, v: Option<&str>) -> (r: Result<PermissionState, PermError>)
        ensures
            only_net_changed(old(self).inner, final(self).inner),
            match v {
                None => r matches Ok(s) && UnaryPermission::<NetDescriptor>::spec_revoke_post(
                    old(self).inner.net,
                    final(self).inner.net,
                    None,
                    s,
                ),
                Some(_) => match r {
                    Ok(s) => exists|qm: NetModel|
                        #[trigger] UnaryPermission::<NetDescriptor>::spec_revoke_post(
                            old(self).inner.net,
                            final(self).inner.net,
                            Some(qm),
                            s,
                        ),
                    Err(_) => final(self).inner.net == old(self).inner.net,
                },
            },
    {
        match v {
            Some(k) => {
                let parsed = self.parser.parse_net_descriptor(k);
                match parsed {
                    Ok(d) => {
                        let s = self.inner.net.revoke(Some(&d));
                        proof {
                            assert(UnaryPermission::<NetDescriptor>::spec_revoke_post(
                                old(self).inner.net,
                                final(self).inner.net,
                                Some(d@),
                                s,
                            ));
                        }
                        Ok(s)
                    },
                    Err(e) => Err(e),
                }
            },
            None => {
                let s = self.inner.net.revoke(None);
                proof {
                    assert(UnaryPermission::<NetDescriptor>::spec_revoke_post(
                        old(self).inner.net,
                        final(self).inner.net,
                        None,
                        s,
                    ));
                }
                Ok(s)
            },
        }
    }

    /// Requests a net permission now, prompting when the state allows.
    pub fn request_net(&mut self, v: Option<&str>) -> (r: Result<PermissionState, PermError>)
        ensures
            only_net_changed(old(self).inner, final(self).inner),
            match v {
                None => r matches Ok(s) && exists|resp: Option<PromptResponse>|
                    #[trigger] UnaryPermission::<NetDescriptor>::spec_request_post(
                        old(self).inner.net,
                        final(self).inner.net,
                        None,
                        s,
                        resp,
                    ),
                Some(_) => match r {
                    Ok(s) => exists|qm: NetModel, resp: Option<PromptResponse>|
                        #[trigger] UnaryPermission::<NetDescriptor>::spec_request_post(
                            old(self).inner.net,
                            final(self).inner.net,
                            Some(qm),
                            s,
                            resp,
                        ),
                    Err(_) => final(self).inner.net == old(self).inner.net,
                },
            },
    {
        match v {
            Some(k) => {
                let parsed = self.parser.parse_net_descriptor(k);
                match parsed {
                    Ok(d) => {
                        let s = self.inner.net.request(Some(&d), &mut self.prompter);
                        proof {
                            let resp = choose|resp: Option<PromptResponse>|
                                UnaryPermission::<NetDescriptor>::spec_request_post(
                                    old(self).inner.net,
                                    self.inner.net,
                                    Some(d@),
                                    s,
                                    resp,
                                );
                            assert(UnaryPermission::<NetDescriptor>::spec_request_post(
                                old(self).inner.net,
                                self.inner.net,
                                Some(d@),
                                s,
                                resp,
                            ));
                        }
                        Ok(s)
                    },
                    Err(e) => Err(e),
                }
            },
            None => {
                let s = self.inner.net.request(None, &mut self.prompter);
                proof {
                    let resp = choose|resp: Option<PromptResponse>|
                        UnaryPermission::<NetDescriptor>::spec_request_post(
                            old(self).inner.net,
                            self.inner.net,
                            None,
                            s,
                            resp,
                        );
                    assert(UnaryPermission::<NetDescriptor>::spec_request_post(
                        old(self).inner.net,
                        self.inner.net,
                        None,
                        s,
                        resp,
                    ));
                }
                Ok(s)
            },
        }
    }

    /// The state of a sys query, parsed by the collaborator; the
    /// fully granted fast path answers without parsing.
    pub fn query_sys(&self, v: Option<&str>) -> (r: Result<PermissionState, PermError>)
        ensures
            self.inner.sys.spec_is_allow_all() ==> (r matches Ok(s) && s
                == PermissionState::Granted),
            !self.inner.sys.spec_is_allow_all() ==> match v {
                None => r matches Ok(s) && s == self.inner.sys.spec_query_desc(
                    None,
                    AllowPartial::TreatAsPartialGranted,
                ),
                Some(_) => match r {
                    Ok(s) => exists|qm: Seq<char>|
                        s == #[trigger] self.inner.sys.spec_query_desc(
                            Some(qm),
                            AllowPartial::TreatAsPartialGranted,
                        ),
                    Err(_) => true,
                },
            },
    {
        if self.inner.sys.is_allow_all() {
            return Ok(PermissionState::Granted);
        }
        match v {
            Some(k) => {
                let parsed = self.parser.parse_sys_descriptor(k);
                match parsed {
                    Ok(d) => {
                        let s = self.inner.sys.query(Some(&d));
                        proof {
                            assert(s == self.inner.sys.spec_query_desc(
                                Some(d@),
                                AllowPartial::TreatAsPartialGranted,
                            ));
                        }
                        Ok(s)
                    },
                    Err(e) => Err(e),
                }
            },
            None => Ok(self.inner.sys.query(None)),
        }
    }

    /// Revokes a sys query's grants, or the whole kind's for `None`.
    pub fn revoke_sys(&mut self, v: Option<&str>) -> (r: Result<PermissionState, PermError>)
        ensures
            only_sys_changed(old(self).inner, final(self).inner),
            match v {
                None => r matches Ok(s) && UnaryPermission::<SysDescriptor>::spec_revoke_post(
                    old(self).inner.sys,
                    final(self).inner.sys,
                    None,
                    s,
                ),
                Some(_) => match r {
                    Ok(s) => exists|qm: Seq<char>|
                        #[trigger] UnaryPermission::<SysDescriptor>::spec_revoke_post(
                            old(self).inner.sys,
                            final(self).inner.sys,
                            Some(qm),
                            s,
                        ),
                    Err(_) => final(self).inner.sys == old(self).inner.sys,
                },
            },
    {
        match v {
            Some(k) => {
                let parsed = self.parser.parse_sys_descriptor(k);
                match parsed {
                    Ok(d) => {
                        let s = self.inner.sys.revoke(Some(&d));
                        proof {
                            assert(UnaryPermission::<SysDescriptor>::spec_revoke_post(
                                old(self).inner.sys,
                                final(self).inner.sys,
                                Some(d@),
                                s,
                            ));
                        }
                        Ok(s)
                    },
                    Err(e) => Err(e),
                }
            },
            None => {
                let s = self.inner.sys.revoke(None);
                proof {
                    assert(UnaryPermission::<SysDescriptor>::spec_revoke_post(
                        old(self).inner.sys,
                        final(self).inner.sys,
                        None,
                        s,
                    ));
                }
                Ok(s)
            },
        }
    }

    /// Requests a sys permission now, prompting when the state allows.
    pub fn request_sys(&mut self, v: Option<&str>) -> (r: Result<PermissionState, PermError>)
        ensures
            only_sys_changed(old(self).inner, final(self).inner),
            match v {
                None => r matches Ok(s) && exists|resp: Option<PromptResponse>|
                    #[trigger] UnaryPermission::<SysDescriptor>::spec_request_post(
                        old(self).inner.sys,
                        final(self).inner.sys,
                        None,
                        s,
                        resp,
                    ),
                Some(_) => match r {
                    Ok(s) => exists|qm: Seq<char>, resp: Option<PromptResponse>|
                        #[trigger] UnaryPermission::<SysDescriptor>::spec_request_post(
                            old(self).inner.sys,
                            final(self).inner.sys,
                            Some(qm),
                            s,
                            resp,
                        ),
                    Err(_) => final(self).inner.sys == old(self).inner.sys,
                },
            },
    {
        match v {
            Some(k) => {
                let parsed = self.parser.parse_sys_descriptor(k);
                match parsed {
                    Ok(d) => {
                        let s = self.inner.sys.request(Some(&d), &mut self.prompter);
                        proof {
                            let resp = choose|resp: Option<PromptResponse>|
                                UnaryPermission::<SysDescriptor>::spec_request_post(
                                    old(self).inner.sys,
                                    self.inner.sys,
                                    Some(d@),
                                    s,
                                    resp,
                                );
                            assert(UnaryPermission::<SysDescriptor>::spec_request_post(
                                old(self).inner.sys,
                                self.inner.sys,
                                Some(d@),
                                s,
                                resp,
                            ));
                        }
                        Ok(s)
                    },
                    Err(e) => Err(e),
                }
            },
            None => {
                let s = self.inner.sys.request(None, &mut self.prompter);
                proof {
                    let resp = choose|resp: Option<PromptResponse>|
                        UnaryPermission::<SysDescriptor>::spec_request_post(
                            old(self).inner.sys,
                            self.inner.sys,
                            None,
                            s,
                            resp,
                        );
                    assert(UnaryPermission::<SysDescriptor>::spec_request_post(
                        old(self).inner.sys,
                        self.inner.sys,
                        None,
                        s,
                        resp,
                    ));
                }
                Ok(s)
            },
        }
    }

    /// The state of a run query, parsed by the collaborator; the
    /// fully granted fast path answers without parsing.
    pub fn query_run(&self, v: Option<&str>) -> (r: Result<PermissionState, PermError>)
        ensures
            self.inner.run.spec_is_allow_all() ==> (r matches Ok(s) && s
                == PermissionState::Granted),
            !self.inner.run.spec_is_allow_all() ==> match v {
                None => r matches Ok(s) && s == self.inner.run.spec_query_desc(
                    None,
                    AllowPartial::TreatAsPartialGranted,
                ),
                Some(_) => match r {
                    Ok(s) => exists|qm: crate::run::RunQueryModel|
                        s == #[trigger] self.inner.run.spec_query_desc(
                            Some(qm),
                            AllowPartial::TreatAsPartialGranted,
                        ),
                    Err(_) => true,
                },
            },
    {
        if self.inner.run.is_allow_all() {
            return Ok(PermissionState::Granted);
        }
        match v {
            Some(k) => {
                let parsed = self.parser.parse_run_query(k);
                match parsed {
                    Ok(d) => {
                        let s = self.inner.run.query(Some(&d));
                        proof {
                            assert(s == self.inner.run.spec_query_desc(
                                Some(d@),
                                AllowPartial::TreatAsPartialGranted,
                            ));
                        }
                        Ok(s)
                    },
                    Err(e) => Err(e),
                }
            },
            None => Ok(self.inner.run.query(None)),
        }
    }

    /// Revokes a run query's grants, or the whole kind's for `None`.
    pub fn revoke_run(&mut self, v: Option<&str>) -> (r: Result<PermissionState, PermError>)
        ensures
            only_run_changed(old(self).inner, final(self).inner),
            match v {
                None => r matches Ok(s) && UnaryPermission::<RunQueryDescriptor>::spec_revoke_post(
                    old(self).inner.run,
                    final(self).inner.run,
                    None,
                    s,
                ),
                Some(_) => match r {
                    Ok(s) => exists|qm: crate::run::RunQueryModel|
                        #[trigger] UnaryPermission::<RunQueryDescriptor>::spec_revoke_post(
                            old(self).inner.run,
                            final(self).inner.run,
                            Some(qm),
                            s,
                        ),
                    Err(_) => final(self).inner.run == old(self).inner.run,
                },
            },
    {
        match v {
            Some(k) => {
                let parsed = self.parser.parse_run_query(k);
                match parsed {
                    Ok(d) => {
                        let s = self.inner.run.revoke(Some(&d));
                        proof {
                            assert(UnaryPermission::<RunQueryDescriptor>::spec_revoke_post(
                                old(self).inner.run,
                                final(self).inner.run,
                                Some(d@),
                                s,
                            ));
                        }
                        Ok(s)
                    },
                    Err(e) => Err(e),
                }
            },
            None => {
                let s = self.inner.run.revoke(None);
                proof {
                    assert(UnaryPermission::<RunQueryDescriptor>::spec_revoke_post(
                        old(self).inner.run,
                        final(self).inner.run,
                        None,
                        s,
                    ));
                }
                Ok(s)
            },
        }
    }

    /// Requests a run permission now, prompting when the state allows.
    pub fn request_run(&mut self, v: Option<&str>) -> (r: Result<PermissionState, PermError>)
        ensures
            only_run_changed(old(self).inner, final(self).inner),
            match v {
                None => r matches Ok(s) && exists|resp: Option<PromptResponse>|
                    #[trigger] UnaryPermission::<RunQueryDescriptor>::spec_request_post(
                        old(self).inner.run,
                        final(self).inner.run,
                        None,
                        s,
                        resp,
                    ),
                Some(_) => match r {
                    Ok(s) => exists|qm: crate::run::RunQueryModel, resp: Option<PromptResponse>|
                        #[trigger] UnaryPermission::<RunQueryDescriptor>::spec_request_post(
                            old(self).inner.run,
                            final(self).inner.run,
                            Some(qm),
                            s,
                            resp,
                        ),
                    Err(_) => final(self).inner.run == old(self).inner.run,
                },
            },
    {
        match v {
            Some(k) => {
                let parsed = self.parser.parse_run_query(k);
                match parsed {
                    Ok(d) => {
                        let s = self.inner.run.request(Some(&d), &mut self.prompter);
                        proof {
                            let resp = choose|resp: Option<PromptResponse>|
                                UnaryPermission::<RunQueryDescriptor>::spec_request_post(
                                    old(self).inner.run,
                                    self.inner.run,
                                    Some(d@),
                                    s,
                                    resp,
                                );
                            assert(UnaryPermission::<RunQueryDescriptor>::spec_request_post(
                                old(self).inner.run,
                                self.inner.run,
                                Some(d@),
                                s,
                                resp,
                            ));
                        }
                        Ok(s)
                    },
                    Err(e) => Err(e),
                }
            },
            None => {
                let s = self.inner.run.request(None, &mut self.prompter);
                proof {
                    let resp = choose|resp: Option<PromptResponse>|
                        UnaryPermission::<RunQueryDescriptor>::spec_request_post(
                            old(self).inner.run,
                            self.inner.run,
                            None,
                            s,
                            resp,
                        );
                    assert(UnaryPermission::<RunQueryDescriptor>::spec_request_post(
                        old(self).inner.run,
                        self.inner.run,
                        None,
                        s,
                        resp,
                    ));
                }
                Ok(s)
            },
        }
    }

    /// The state of an environment variable, or of the whole kind.
    pub fn query_env(&self, var: Option<&str>) -> (r: PermissionState)
        ensures
            self.inner.env.spec_is_allow_all() ==> r == PermissionState::Granted,
            !self.inner.env.spec_is_allow_all() ==> r == self.inner.env.spec_query_desc(
                env_view(var),
                AllowPartial::TreatAsPartialGranted,
            ),
    {
        if self.inner.env.is_allow_all() {
            return PermissionState::Granted;
        }
        self.inner.env.query(var)
    }

    /// Revokes an environment variable's grants, or the whole kind's.
    pub fn revoke_env(&mut self, var: Option<&str>) -> (r: PermissionState)
        ensures
            only_env_changed(old(self).inner, final(self).inner),
            UnaryPermission::<crate::env::EnvDescriptor>::spec_revoke_post(
                old(self).inner.env,
                final(self).inner.env,
                env_view(var),
                r,
            ),
    {
        self.inner.env.revoke(var)
    }

    /// Requests an environment variable now, prompting when possible.
    pub fn request_env(&mut self, var: Option<&str>) -> (r: PermissionState)
        ensures
            only_env_changed(old(self).inner, final(self).inner),
            exists|resp: Option<PromptResponse>|
                #[trigger] UnaryPermission::<crate::env::EnvDescriptor>::spec_request_post(
                    old(self).inner.env,
                    final(self).inner.env,
                    env_view(var),
                    r,
                    resp,
                ),
    {
        let s = self.inner.env.request(var, &mut self.prompter);
        proof {
            let resp = choose|resp: Option<PromptResponse>|
                UnaryPermission::<crate::env::EnvDescriptor>::spec_request_post(
                    old(self).inner.env,
                    self.inner.env,
                    env_view(var),
                    s,
                    resp,
                );
            assert(UnaryPermission::<crate::env::EnvDescriptor>::spec_request_post(
                old(self).inner.env,
                self.inner.env,
                env_view(var),
                s,
                resp,
            ));
        }
        s
    }


    /// Checks a read path given as text; see `check_read_with_api_name`.
    /// When the kind is fully granted, parsing is skipped and the caller
    /// gets the text's own segments back, normalized but not resolved
    /// against any working directory.
    pub fn check_read(&mut self, path: &str, api_name: &str) -> (r: Result<PathRepr, PermError>)
        ensures
            only_read_changed(old(self).inner, final(self).inner),
            old(self).inner.read.spec_is_allow_all() ==> (final(self).inner == old(self).inner
                && (r matches Ok(p) && p@
                == crate::path::normalize_model(crate::strings::spec_split(path@, '/')))),
            !old(self).inner.read.spec_is_allow_all() ==> match r {
                Ok(resolved) => exists|qm: PathQueryModel, rr: Result<(), PermError>|
                    rr is Ok && #[trigger] UnaryPermission::<ReadQueryDescriptor>::spec_checked_outcome(
                        old(self).inner.read,
                        final(self).inner.read,
                        Some(qm),
                        true,
                        true,
                        rr,
                    ) && resolved@ == qm.resolved,
                Err(_) => final(self).inner.read == old(self).inner.read || exists|
                    qm: PathQueryModel,
                    rr: Result<(), PermError>,
                |
                    rr is Err && #[trigger] UnaryPermission::<ReadQueryDescriptor>::spec_checked_outcome(
                        old(self).inner.read,
                        final(self).inner.read,
                        Some(qm),
                        true,
                        true,
                        rr,
                    ),
            },
    {
        self.check_read_with_api_name(path, Some(api_name))
    }

    /// Checks a read path given as text, resolving it through the
    /// collaborator; callers must use the returned resolved path for the
    /// actual operation (using the raw text again would race against the
    /// check).
    pub fn check_read_with_api_name(&mut self, path: &str, api_name: Option<&str>) -> (r: Result<PathRepr, PermError>)
        ensures
            only_read_changed(old(self).inner, final(self).inner),
            old(self).inner.read.spec_is_allow_all() ==> (final(self).inner == old(self).inner
                && (r matches Ok(p) && p@
                == crate::path::normalize_model(crate::strings::spec_split(path@, '/')))),
            !old(self).inner.read.spec_is_allow_all() ==> match r {
                Ok(resolved) => exists|qm: PathQueryModel, rr: Result<(), PermError>|
                    rr is Ok && #[trigger] UnaryPermission::<ReadQueryDescriptor>::spec_checked_outcome(
                        old(self).inner.read,
                        final(self).inner.read,
                        Some(qm),
                        true,
                        true,
                        rr,
                    ) && resolved@ == qm.resolved,
                Err(_) => final(self).inner.read == old(self).inner.read || exists|
                    qm: PathQueryModel,
                    rr: Result<(), PermError>,
                |
                    rr is Err && #[trigger] UnaryPermission::<ReadQueryDescriptor>::spec_checked_outcome(
                        old(self).inner.read,
                        final(self).inner.read,
                        Some(qm),
                        true,
                        true,
                        rr,
                    ),
            },
    {
        if self.inner.read.is_allow_all() {
            return Ok(PathRepr::parse(path));
        }
        let pq = match self.parser.parse_path_query(path) {
            Ok(v) => v,
            Err(e) => {
                return Err(e);
            },
        };
        let desc = pq.into_read();
        let res = self.inner.read.check(&desc, api_name, &mut self.prompter);
        proof {
            assert(UnaryPermission::<ReadQueryDescriptor>::spec_checked_outcome(
                old(self).inner.read,
                self.inner.read,
                Some(desc@),
                true,
                true,
                res,
            ));
        }
        match res {
            Ok(_) => {
                let out = desc.0.resolved;
                Ok(out)
            },
            Err(e) => Err(e),
        }
    }

    /// Checks an already resolved read path.
    pub fn check_read_path(&mut self, path: &PathRepr, api_name: Option<&str>) -> (r: Result<
        PathRepr,
        PermError,
    >)
        ensures
            only_read_changed(old(self).inner, final(self).inner),
            old(self).inner.read.spec_is_allow_all() ==> (final(self).inner == old(self).inner && (
            r matches Ok(p) && p@ == path@)),
            !old(self).inner.read.spec_is_allow_all() ==> exists|rr: Result<(), PermError>|
                (r is Ok == rr is Ok) && #[trigger] UnaryPermission::<
                    ReadQueryDescriptor,
                >::spec_checked_outcome(
                    old(self).inner.read,
                    final(self).inner.read,
                    Some(
                        PathQueryModel {
                            requested: crate::path::path_display_model(path@),
                            resolved: path@,
                        },
                    ),
                    true,
                    true,
                    rr,
                ),
            !old(self).inner.read.spec_is_allow_all() ==> (r matches Ok(p) ==> p@ == path@),
    {
        if self.inner.read.is_allow_all() {
            return Ok(path.duplicate());
        }
        let desc = PathQueryDescriptor::new(path.display_text(), path.duplicate()).into_read();
        let res = self.inner.read.check(&desc, api_name, &mut self.prompter);
        proof {
            assert(UnaryPermission::<ReadQueryDescriptor>::spec_checked_outcome(
                old(self).inner.read,
                self.inner.read,
                Some(desc@),
                true,
                true,
                res,
            ));
        }
        match res {
            Ok(_) => Ok(desc.0.resolved),
            Err(e) => Err(e),
        }
    }

    /// As the path check, but messages show `<display>` instead of the
    /// path: a denial's text is pinned to the capability name and that
    /// placeholder, so it never carries the real location.
    pub fn check_read_blind(&mut self, path: &PathRepr, display: &str, api_name: &str) -> (r:
        Result<(), PermError>)
        ensures
            only_read_changed(old(self).inner, final(self).inner),
            old(self).inner.read.spec_is_allow_all() ==> (final(self).inner == old(self).inner
                && r is Ok),
            !old(self).inner.read.spec_is_allow_all() ==> UnaryPermission::<
                ReadQueryDescriptor,
            >::spec_checked_outcome(
                old(self).inner.read,
                final(self).inner.read,
                Some(PathQueryModel { requested: "<"@ + display@ + ">"@, resolved: path@ }),
                true,
                true,
                r,
            ),
            !old(self).inner.read.spec_is_allow_all() ==> match r {
                Err(e) => (e.class@ == "PermissionDenied"@ && e.message@
                    == crate::state::denial_message("read"@, Some("<"@ + display@ + ">"@))) || (
                e.class@ == "Yield"@ && e.message@ == "yield."@),
                Ok(_) => true,
            },
    {
        if self.inner.read.is_allow_all() {
            return Ok(());
        }
        let mut requested = String::new();
        proof {
            reveal_strlit("<");
            reveal_strlit(">");
        }
        requested.append("<");
        requested.append(display);
        requested.append(">");
        let desc = PathQueryDescriptor::new(requested, path.duplicate()).into_read();
        let res = self.inner.read.check(&desc, Some(api_name), &mut self.prompter);
        proof {
            reveal_strlit("<");
            reveal_strlit(">");
            if res is Err {
                let (resp, prompted, aa) = choose|
                    resp: Option<PromptResponse>,
                    prompted: bool,
                    aa: bool,
                |
                    UnaryPermission::<ReadQueryDescriptor>::spec_check_post(
                        old(self).inner.read,
                        self.inner.read,
                        Some(desc@),
                        true,
                        res,
                        resp,
                        prompted,
                        aa,
                    );
                assert(("<"@ + display@ + ">"@)[0] == '<');
                assert(("<"@ + display@ + ">"@).last() == '>');
                assert(spec_formatted_display("<"@ + display@ + ">"@) == "<"@ + display@
                    + ">"@);
            }
        }
        res
    }

    /// Checks a write path given as text; see `check_write_with_api_name`.
    pub fn check_write(&mut self, path: &str, api_name: &str) -> (r: Result<PathRepr, PermError>)
        ensures
            only_write_changed(old(self).inner, final(self).inner),
            old(self).inner.write.spec_is_allow_all() ==> (final(self).inner == old(self).inner
                && (r matches Ok(p) && p@
                == crate::path::normalize_model(crate::strings::spec_split(path@, '/')))),
            !old(self).inner.write.spec_is_allow_all() ==> match r {
                Ok(resolved) => exists|qm: PathQueryModel, rr: Result<(), PermError>|
                    rr is Ok && #[trigger] UnaryPermission::<WriteQueryDescriptor>::spec_checked_outcome(
                        old(self).inner.write,
                        final(self).inner.write,
                        Some(qm),
                        true,
                        true,
                        rr,
                    ) && resolved@ == qm.resolved,
                Err(_) => final(self).inner.write == old(self).inner.write || exists|
                    qm: PathQueryModel,
                    rr: Result<(), PermError>,
                |
                    rr is Err && #[trigger] UnaryPermission::<WriteQueryDescriptor>::spec_checked_outcome(
                        old(self).inner.write,
                        final(self).inner.write,
                        Some(qm),
                        true,
                        true,
                        rr,
                    ),
            },
    {
        self.check_write_with_api_name(path, Some(api_name))
    }

    /// Checks a write path given as text, resolving it through the
    /// collaborator; callers must use the returned resolved path for the
    /// actual operation (using the raw text again would race against the
    /// check).
    pub fn check_write_with_api_name(&mut self, path: &str, api_name: Option<&str>) -> (r: Result<PathRepr, PermError>)
        ensures
            only_write_changed(old(self).inner, final(self).inner),
            old(self).inner.write.spec_is_allow_all() ==> (final(self).inner == old(self).inner
                && (r matches Ok(p) && p@
                == crate::path::normalize_model(crate::strings::spec_split(path@, '/')))),
            !old(self).inner.write.spec_is_allow_all() ==> match r {
                Ok(resolved) => exists|qm: PathQueryModel, rr: Result<(), PermError>|
                    rr is Ok && #[trigger] UnaryPermission::<WriteQueryDescriptor>::spec_checked_outcome(
                        old(self).inner.write,
                        final(self).inner.write,
                        Some(qm),
                        true,
                        true,
                        rr,
                    ) && resolved@ == qm.resolved,
                Err(_) => final(self).inner.write == old(self).inner.write || exists|
                    qm: PathQueryModel,
                    rr: Result<(), PermError>,
                |
                    rr is Err && #[trigger] UnaryPermission::<WriteQueryDescriptor>::spec_checked_outcome(
                        old(self).inner.write,
                        final(self).inner.write,
                        Some(qm),
                        true,
                        true,
                        rr,
                    ),
            },
    {
        if self.inner.write.is_allow_all() {
            return Ok(PathRepr::parse(path));
        }
        let pq = match self.parser.parse_path_query(path) {
            Ok(v) => v,
            Err(e) => {
                return Err(e);
            },
        };
        let desc = pq.into_write();
        let res = self.inner.write.check(&desc, api_name, &mut self.prompter);
        proof {
            assert(UnaryPermission::<WriteQueryDescriptor>::spec_checked_outcome(
                old(self).inner.write,
                self.inner.write,
                Some(desc@),
                true,
                true,
                res,
            ));
        }
        match res {
            Ok(_) => {
                let out = desc.0.resolved;
                Ok(out)
            },
            Err(e) => Err(e),
        }
    }

    /// Checks an already resolved write path.
    pub fn check_write_path(&mut self, path: &PathRepr, api_name: Option<&str>) -> (r: Result<
        PathRepr,
        PermError,
    >)
        ensures
            only_write_changed(old(self).inner, final(self).inner),
            old(self).inner.write.spec_is_allow_all() ==> (final(self).inner == old(self).inner && (
            r matches Ok(p) && p@ == path@)),
            !old(self).inner.write.spec_is_allow_all() ==> exists|rr: Result<(), PermError>|
                (r is Ok == rr is Ok) && #[trigger] UnaryPermission::<
                    WriteQueryDescriptor,
                >::spec_checked_outcome(
                    old(self).inner.write,
                    final(self).inner.write,
                    Some(
                        PathQueryModel {
                            requested: crate::path::path_display_model(path@),
                            resolved: path@,
                        },
                    ),
                    true,
                    true,
                    rr,
                ),
            !old(self).inner.write.spec_is_allow_all() ==> (r matches Ok(p) ==> p@ == path@),
    {
        if self.inner.write.is_allow_all() {
            return Ok(path.duplicate());
        }
        let desc = PathQueryDescriptor::new(path.display_text(), path.duplicate()).into_write();
        let res = self.inner.write.check(&desc, api_name, &mut self.prompter);
        proof {
            assert(UnaryPermission::<WriteQueryDescriptor>::spec_checked_outcome(
                old(self).inner.write,
                self.inner.write,
                Some(desc@),
                true,
                true,
                res,
            ));
        }
        match res {
            Ok(_) => Ok(desc.0.resolved),
            Err(e) => Err(e),
        }
    }

    /// As the path check, but messages show `<display>` instead of the
    /// path: a denial's text is pinned to the capability name and that
    /// placeholder, so it never carries the real location.
    pub fn check_write_blind(&mut self, path: &PathRepr, display: &str, api_name: &str) -> (r:
        Result<(), PermError>)
        ensures
            only_write_changed(old(self).inner, final(self).inner),
            old(self).inner.write.spec_is_allow_all() ==> (final(self).inner == old(self).inner
                && r is Ok),
            !old(self).inner.write.spec_is_allow_all() ==> UnaryPermission::<
                WriteQueryDescriptor,
            >::spec_checked_outcome(
                old(self).inner.write,
                final(self).inner.write,
                Some(PathQueryModel { requested: "<"@ + display@ + ">"@, resolved: path@ }),
                true,
                true,
                r,
            ),
            !old(self).inner.write.spec_is_allow_all() ==> match r {
                Err(e) => (e.class@ == "PermissionDenied"@ && e.message@
                    == crate::state::denial_message("write"@, Some("<"@ + display@ + ">"@))) || (
                e.class@ == "Yield"@ && e.message@ == "yield."@),
                Ok(_) => true,
            },
    {
        if self.inner.write.is_allow_all() {
            return Ok(());
        }
        let mut requested = String::new();
        proof {
            reveal_strlit("<");
            reveal_strlit(">");
        }
        requested.append("<");
        requested.append(display);
        requested.append(">");
        let desc = PathQueryDescriptor::new(requested, path.duplicate()).into_write();
        let res = self.inner.write.check(&desc, Some(api_name), &mut self.prompter);
        proof {
            reveal_strlit("<");
            reveal_strlit(">");
            if res is Err {
                let (resp, prompted, aa) = choose|
                    resp: Option<PromptResponse>,
                    prompted: bool,
                    aa: bool,
                |
                    UnaryPermission::<WriteQueryDescriptor>::spec_check_post(
                        old(self).inner.write,
                        self.inner.write,
                        Some(desc@),
                        true,
                        res,
                        resp,
                        prompted,
                        aa,
                    );
                assert(("<"@ + display@ + ">"@)[0] == '<');
                assert(("<"@ + display@ + ">"@).last() == '>');
                assert(spec_formatted_display("<"@ + display@ + ">"@) == "<"@ + display@
                    + ">"@);
            }
        }
        res
    }

    /// As `check_write`, but a flag-denial that only partly overlaps the
    /// path does not by itself deny. On the fully-granted fast path the
    /// caller gets the text's own segments back, normalized but not
    /// resolved against any working directory.
    pub fn check_write_partial(&mut self, path: &str, api_name: &str) -> (r: Result<PathRepr, PermError>)
        ensures
            only_write_changed(old(self).inner, final(self).inner),
            old(self).inner.write.spec_is_allow_all() ==> (final(self).inner == old(self).inner
                && (r matches Ok(p) && p@
                == crate::path::normalize_model(crate::strings::spec_split(path@, '/')))),
            !old(self).inner.write.spec_is_allow_all() ==> match r {
                Ok(resolved) => exists|qm: PathQueryModel, rr: Result<(), PermError>|
                    rr is Ok && #[trigger] UnaryPermission::<WriteQueryDescriptor>::spec_checked_outcome(
                        old(self).inner.write,
                        final(self).inner.write,
                        Some(qm),
                        false,
                        true,
                        rr,
                    ) && resolved@ == qm.resolved,
                Err(_) => final(self).inner.write == old(self).inner.write || exists|
                    qm: PathQueryModel,
                    rr: Result<(), PermError>,
                |
                    rr is Err && #[trigger] UnaryPermission::<WriteQueryDescriptor>::spec_checked_outcome(
                        old(self).inner.write,
                        final(self).inner.write,
                        Some(qm),
                        false,
                        true,
                        rr,
                    ),
            },
    {
        if self.inner.write.is_allow_all() {
            return Ok(PathRepr::parse(path));
        }
        let pq = match self.parser.parse_path_query(path) {
            Ok(v) => v,
            Err(e) => {
                return Err(e);
            },
        };
        let desc = pq.into_write();
        let res = self.inner.write.check_partial(&desc, Some(api_name), &mut self.prompter);
        proof {
            assert(UnaryPermission::<WriteQueryDescriptor>::spec_checked_outcome(
                old(self).inner.write,
                self.inner.write,
                Some(desc@),
                false,
                true,
                res,
            ));
        }
        match res {
            Ok(_) => {
                let out = desc.0.resolved;
                Ok(out)
            },
            Err(e) => Err(e),
        }
    }

    /// Checks a dynamic-library path given as text, resolving it through
    /// the collaborator; callers must use the returned resolved path for
    /// the actual load (using the raw text again would race against the
    /// check). On the fully-granted fast path the caller gets the text's
    /// own segments back, normalized but not resolved against any working
    /// directory.
    pub fn check_ffi(&mut self, path: &str) -> (r: Result<PathRepr, PermError>)
        ensures
            only_ffi_changed(old(self).inner, final(self).inner),
            old(self).inner.ffi.spec_is_allow_all() ==> (final(self).inner == old(self).inner
                && (r matches Ok(p) && p@
                == crate::path::normalize_model(crate::strings::spec_split(path@, '/')))),
            !old(self).inner.ffi.spec_is_allow_all() ==> match r {
                Ok(resolved) => exists|qm: PathQueryModel, rr: Result<(), PermError>|
                    rr is Ok && #[trigger] UnaryPermission::<FfiQueryDescriptor>::spec_checked_outcome(
                        old(self).inner.ffi,
                        final(self).inner.ffi,
                        Some(qm),
                        true,
                        true,
                        rr,
                    ) && resolved@ == qm.resolved,
                Err(_) => final(self).inner.ffi == old(self).inner.ffi || exists|
                    qm: PathQueryModel,
                    rr: Result<(), PermError>,
                |
                    rr is Err && #[trigger] UnaryPermission::<FfiQueryDescriptor>::spec_checked_outcome(
                        old(self).inner.ffi,
                        final(self).inner.ffi,
                        Some(qm),
                        true,
                        true,
                        rr,
                    ),
            },
    {
        if self.inner.ffi.is_allow_all() {
            return Ok(PathRepr::parse(path));
        }
        let pq = match self.parser.parse_path_query(path) {
            Ok(v) => v,
            Err(e) => {
                return Err(e);
            },
        };
        let desc = pq.into_ffi();
        let res = self.inner.ffi.check(&desc, None, &mut self.prompter);
        proof {
            assert(UnaryPermission::<FfiQueryDescriptor>::spec_checked_outcome(
                old(self).inner.ffi,
                self.inner.ffi,
                Some(desc@),
                true,
                true,
                res,
            ));
        }
        match res {
            Ok(_) => {
                let out = desc.0.resolved;
                Ok(out)
            },
            Err(e) => Err(e),
        }
    }

    /// Checks the ffi kind as a whole, tolerating partial flag-denials.
    pub fn check_ffi_partial_no_path(&mut self) -> (r: Result<(), PermError>)
        ensures
            only_ffi_changed(old(self).inner, final(self).inner),
            UnaryPermission::<FfiQueryDescriptor>::spec_checked_outcome(
                old(self).inner.ffi,
                final(self).inner.ffi,
                None,
                false,
                true,
                r,
            ),
    {
        self.inner.ffi.check_partial(None, &mut self.prompter)
    }

    /// Checks a dynamic-library path, tolerating partial flag-denials. On
    /// the fully-granted fast path the caller gets the text's own
    /// segments back, normalized but not resolved against any working
    /// directory.
    pub fn check_ffi_partial_with_path(&mut self, path: &str) -> (r: Result<PathRepr, PermError>)
        ensures
            only_ffi_changed(old(self).inner, final(self).inner),
            old(self).inner.ffi.spec_is_allow_all() ==> (final(self).inner == old(self).inner
                && (r matches Ok(p) && p@
                == crate::path::normalize_model(crate::strings::spec_split(path@, '/')))),
            !old(self).inner.ffi.spec_is_allow_all() ==> match r {
                Ok(resolved) => exists|qm: PathQueryModel, rr: Result<(), PermError>|
                    rr is Ok && #[trigger] UnaryPermission::<FfiQueryDescriptor>::spec_checked_outcome(
                        old(self).inner.ffi,
                        final(self).inner.ffi,
                        Some(qm),
                        false,
                        true,
                        rr,
                    ) && resolved@ == qm.resolved,
                Err(_) => final(self).inner.ffi == old(self).inner.ffi || exists|
                    qm: PathQueryModel,
                    rr: Result<(), PermError>,
                |
                    rr is Err && #[trigger] UnaryPermission::<FfiQueryDescriptor>::spec_checked_outcome(
                        old(self).inner.ffi,
                        final(self).inner.ffi,
                        Some(qm),
                        false,
                        true,
                        rr,
                    ),
            },
    {
        if self.inner.ffi.is_allow_all() {
            return Ok(PathRepr::parse(path));
        }
        let pq = match self.parser.parse_path_query(path) {
            Ok(v) => v,
            Err(e) => {
                return Err(e);
            },
        };
        let desc = pq.into_ffi();
        let res = self.inner.ffi.check_partial(Some(&desc), &mut self.prompter);
        proof {
            assert(UnaryPermission::<FfiQueryDescriptor>::spec_checked_outcome(
                old(self).inner.ffi,
                self.inner.ffi,
                Some(desc@),
                false,
                true,
                res,
            ));
        }
        match res {
            Ok(_) => {
                let out = desc.0.resolved;
                Ok(out)
            },
            Err(e) => Err(e),
        }
    }

    /// Checks network access to a host and optional port; the host text is
    /// parsed here, with the host grammar.
    pub fn check_net(&mut self, host: &str, port: Option<u16>, api_name: &str) -> (r: Result<
        (),
        PermError,
    >)
        ensures
            only_net_changed(old(self).inner, final(self).inner),
            old(self).inner.net.spec_is_allow_all() ==> (final(self).inner == old(self).inner
                && r is Ok),
            !old(self).inner.net.spec_is_allow_all() ==> match crate::host::host_parse_model(
                host@,
            ) {
                None => r is Err && final(self).inner.net == old(self).inner.net,
                Some(hm) => UnaryPermission::<NetDescriptor>::spec_checked_outcome(
                    old(self).inner.net,
                    final(self).inner.net,
                    Some(NetModel { host: hm, port: port }),
                    false,
                    true,
                    r,
                ),
            },
    {
        if self.inner.net.is_allow_all() {
            return Ok(());
        }
        let hostname = match crate::host::Host::parse(host) {
            Ok(h) => h,
            Err(e) => {
                return Err(e);
            },
        };
        let descriptor = NetDescriptor(hostname, port);
        self.inner.net.check(&descriptor, Some(api_name), &mut self.prompter)
    }

    /// Checks network access to a specifier's host and effective port,
    /// built by the collaborator.
    pub fn check_net_url(&mut self, url: &ModuleSpecifier, api_name: &str) -> (r: Result<
        (),
        PermError,
    >)
        ensures
            only_net_changed(old(self).inner, final(self).inner),
            old(self).inner.net.spec_is_allow_all() ==> (final(self).inner == old(self).inner
                && r is Ok),
            !old(self).inner.net.spec_is_allow_all() ==> match r {
                Ok(_) => exists|qm: NetModel, rr: Result<(), PermError>|
                    rr is Ok && #[trigger] UnaryPermission::<NetDescriptor>::spec_checked_outcome(
                        old(self).inner.net,
                        final(self).inner.net,
                        Some(qm),
                        false,
                        true,
                        rr,
                    ),
                Err(_) => final(self).inner.net == old(self).inner.net || exists|
                    qm: NetModel,
                    rr: Result<(), PermError>,
                |
                    rr is Err && #[trigger] UnaryPermission::<NetDescriptor>::spec_checked_outcome(
                        old(self).inner.net,
                        final(self).inner.net,
                        Some(qm),
                        false,
                        true,
                        rr,
                    ),
            },
    {
        if self.inner.net.is_allow_all() {
            return Ok(());
        }
        let desc = match self.parser.parse_net_descriptor_from_url(url) {
            Ok(d) => d,
            Err(e) => {
                return Err(e);
            },
        };
        let res = self.inner.net.check(&desc, Some(api_name), &mut self.prompter);
        proof {
            assert(UnaryPermission::<NetDescriptor>::spec_checked_outcome(
                old(self).inner.net,
                self.inner.net,
                Some(desc@),
                false,
                true,
                res,
            ));
        }
        match res {
            Ok(_) => Ok(()),
            Err(e) => Err(e),
        }
    }

    /// Checks one system-information category, parsed by the collaborator.
    pub fn check_sys(&mut self, kind: &str, api_name: &str) -> (r: Result<(), PermError>)
        ensures
            only_sys_changed(old(self).inner, final(self).inner),
            match r {
                Ok(_) => exists|qm: Seq<char>, rr: Result<(), PermError>|
                    rr is Ok && #[trigger] UnaryPermission::<SysDescriptor>::spec_checked_outcome(
                        old(self).inner.sys,
                        final(self).inner.sys,
                        Some(qm),
                        false,
                        true,
                        rr,
                    ),
                Err(_) => final(self).inner.sys == old(self).inner.sys || exists|
                    qm: Seq<char>,
                    rr: Result<(), PermError>,
                |
                    rr is Err && #[trigger] UnaryPermission::<SysDescriptor>::spec_checked_outcome(
                        old(self).inner.sys,
                        final(self).inner.sys,
                        Some(qm),
                        false,
                        true,
                        rr,
                    ),
            },
    {
        let desc = match self.parser.parse_sys_descriptor(kind) {
            Ok(d) => d,
            Err(e) => {
                return Err(e);
            },
        };
        let res = self.inner.sys.check(&desc, Some(api_name), &mut self.prompter);
        proof {
            assert(UnaryPermission::<SysDescriptor>::spec_checked_outcome(
                old(self).inner.sys,
                self.inner.sys,
                Some(desc@),
                false,
                true,
                res,
            ));
        }
        match res {
            Ok(_) => Ok(()),
            Err(e) => Err(e),
        }
    }

    fn parse_child_read(&self, arg: &ChildUnaryPermissionArg) -> (r: Result<
        ChildUnaryArg<crate::fs::ReadDescriptor>,
        PermError,
    >)
        ensures
            match r {
                Ok(parsed) => (arg is Inherit <==> parsed is Inherit) && (arg is Granted
                    <==> parsed is Granted) && (arg is NotGranted <==> parsed is NotGranted) && (
                arg is GrantedList <==> parsed is GrantedList),
                Err(_) => arg is GrantedList,
            },
    {
        match arg {
            ChildUnaryPermissionArg::Inherit => Ok(ChildUnaryArg::Inherit),
            ChildUnaryPermissionArg::Granted => Ok(ChildUnaryArg::Granted),
            ChildUnaryPermissionArg::NotGranted => Ok(ChildUnaryArg::NotGranted),
            ChildUnaryPermissionArg::GrantedList(list) => {
                let n = list.len();
                let mut out: Vec<crate::fs::ReadDescriptor> = Vec::new();
                let mut i: usize = 0;
                while i < n
                    invariant
                        arg is GrantedList,
                        n == list@.len(),
                        i <= n,
                    decreases n - i,
                {
                    match self.parser.parse_read_descriptor(list[i].as_str()) {
                        Ok(d) => {
                            out.push(d);
                        },
                        Err(e) => {
                            return Err(e);
                        },
                    }
                    i += 1;
                }
                Ok(ChildUnaryArg::GrantedList(out))
            },
        }
    }

    fn parse_child_write(&self, arg: &ChildUnaryPermissionArg) -> (r: Result<
        ChildUnaryArg<crate::fs::WriteDescriptor>,
        PermError,
    >)
        ensures
            match r {
                Ok(parsed) => (arg is Inherit <==> parsed is Inherit) && (arg is Granted
                    <==> parsed is Granted) && (arg is NotGranted <==> parsed is NotGranted) && (
                arg is GrantedList <==> parsed is GrantedList),
                Err(_) => arg is GrantedList,
            },
    {
        match arg {
            ChildUnaryPermissionArg::Inherit => Ok(ChildUnaryArg::Inherit),
            ChildUnaryPermissionArg::Granted => Ok(ChildUnaryArg::Granted),
            ChildUnaryPermissionArg::NotGranted => Ok(ChildUnaryArg::NotGranted),
            ChildUnaryPermissionArg::GrantedList(list) => {
                let n = list.len();
                let mut out: Vec<crate::fs::WriteDescriptor> = Vec::new();
                let mut i: usize = 0;
                while i < n
                    invariant
                        arg is GrantedList,
                        n == list@.len(),
                        i <= n,
                    decreases n - i,
                {
                    match self.parser.parse_write_descriptor(list[i].as_str()) {
                        Ok(d) => {
                            out.push(d);
                        },
                        Err(e) => {
                            return Err(e);
                        },
                    }
                    i += 1;
                }
                Ok(ChildUnaryArg::GrantedList(out))
            },
        }
    }

    fn parse_child_net(&self, arg: &ChildUnaryPermissionArg) -> (r: Result<
        ChildUnaryArg<NetDescriptor>,
        PermError,
    >)
        ensures
            match r {
                Ok(parsed) => (arg is Inherit <==> parsed is Inherit) && (arg is Granted
                    <==> parsed is Granted) && (arg is NotGranted <==> parsed is NotGranted) && (
                arg is GrantedList <==> parsed is GrantedList),
                Err(_) => arg is GrantedList,
            },
    {
        match arg {
            ChildUnaryPermissionArg::Inherit => Ok(ChildUnaryArg::Inherit),
            ChildUnaryPermissionArg::Granted => Ok(ChildUnaryArg::Granted),
            ChildUnaryPermissionArg::NotGranted => Ok(ChildUnaryArg::NotGranted),
            ChildUnaryPermissionArg::GrantedList(list) => {
                let n = list.len();
                let mut out: Vec<NetDescriptor> = Vec::new();
                let mut i: usize = 0;
                while i < n
                    invariant
                        arg is GrantedList,
                        n == list@.len(),
                        i <= n,
                    decreases n - i,
                {
                    match self.parser.parse_net_descriptor(list[i].as_str()) {
                        Ok(d) => {
                            out.push(d);
                        },
                        Err(e) => {
                            return Err(e);
                        },
                    }
                    i += 1;
                }
                Ok(ChildUnaryArg::GrantedList(out))
            },
        }
    }

    fn parse_child_import(&self, arg: &ChildUnaryPermissionArg) -> (r: Result<
        ChildUnaryArg<ImportDescriptor>,
        PermError,
    >)
        ensures
            match r {
                Ok(parsed) => (arg is Inherit <==> parsed is Inherit) && (arg is Granted
                    <==> parsed is Granted) && (arg is NotGranted <==> parsed is NotGranted) && (
                arg is GrantedList <==> parsed is GrantedList),
                Err(_) => arg is GrantedList,
            },
    {
        match arg {
            ChildUnaryPermissionArg::Inherit => Ok(ChildUnaryArg::Inherit),
            ChildUnaryPermissionArg::Granted => Ok(ChildUnaryArg::Granted),
            ChildUnaryPermissionArg::NotGranted => Ok(ChildUnaryArg::NotGranted),
            ChildUnaryPermissionArg::GrantedList(list) => {
                let n = list.len();
                let mut out: Vec<ImportDescriptor> = Vec::new();
                let mut i: usize = 0;
                while i < n
                    invariant
                        arg is GrantedList,
                        n == list@.len(),
                        i <= n,
                    decreases n - i,
                {
                    match self.parser.parse_import_descriptor(list[i].as_str()) {
                        Ok(d) => {
                            out.push(d);
                        },
                        Err(e) => {
                            return Err(e);
                        },
                    }
                    i += 1;
                }
                Ok(ChildUnaryArg::GrantedList(out))
            },
        }
    }

    fn parse_child_env(&self, arg: &ChildUnaryPermissionArg) -> (r: Result<
        ChildUnaryArg<crate::env::EnvDescriptor>,
        PermError,
    >)
        ensures
            match r {
                Ok(parsed) => (arg is Inherit <==> parsed is Inherit) && (arg is Granted
                    <==> parsed is Granted) && (arg is NotGranted <==> parsed is NotGranted) && (
                arg is GrantedList <==> parsed is GrantedList),
                Err(_) => arg is GrantedList,
            },
    {
        match arg {
            ChildUnaryPermissionArg::Inherit => Ok(ChildUnaryArg::Inherit),
            ChildUnaryPermissionArg::Granted => Ok(ChildUnaryArg::Granted),
            ChildUnaryPermissionArg::NotGranted => Ok(ChildUnaryArg::NotGranted),
            ChildUnaryPermissionArg::GrantedList(list) => {
                let n = list.len();
                let mut out: Vec<crate::env::EnvDescriptor> = Vec::new();
                let mut i: usize = 0;
                while i < n
                    invariant
                        arg is GrantedList,
                        n == list@.len(),
                        i <= n,
                    decreases n - i,
                {
                    match self.parser.parse_env_descriptor(list[i].as_str()) {
                        Ok(d) => {
                            out.push(d);
                        },
                        Err(e) => {
                            return Err(e);
                        },
                    }
                    i += 1;
                }
                Ok(ChildUnaryArg::GrantedList(out))
            },
        }
    }

    fn parse_child_sys(&self, arg: &ChildUnaryPermissionArg) -> (r: Result<
        ChildUnaryArg<SysDescriptor>,
        PermError,
    >)
        ensures
            match r {
                Ok(parsed) => (arg is Inherit <==> parsed is Inherit) && (arg is Granted
                    <==> parsed is Granted) && (arg is NotGranted <==> parsed is NotGranted) && (
                arg is GrantedList <==> parsed is GrantedList),
                Err(_) => arg is GrantedList,
            },
    {
        match arg {
            ChildUnaryPermissionArg::Inherit => Ok(ChildUnaryArg::Inherit),
            ChildUnaryPermissionArg::Granted => Ok(ChildUnaryArg::Granted),
            ChildUnaryPermissionArg::NotGranted => Ok(ChildUnaryArg::NotGranted),
            ChildUnaryPermissionArg::GrantedList(list) => {
                let n = list.len();
                let mut out: Vec<SysDescriptor> = Vec::new();
                let mut i: usize = 0;
                while i < n
                    invariant
                        arg is GrantedList,
                        n == list@.len(),
                        i <= n,
                    decreases n - i,
                {
                    match self.parser.parse_sys_descriptor(list[i].as_str()) {
                        Ok(d) => {
                            out.push(d);
                        },
                        Err(e) => {
                            return Err(e);
                        },
                    }
                    i += 1;
                }
                Ok(ChildUnaryArg::GrantedList(out))
            },
        }
    }

    fn parse_child_ffi(&self, arg: &ChildUnaryPermissionArg) -> (r: Result<
        ChildUnaryArg<crate::fs::FfiDescriptor>,
        PermError,
    >)
        ensures
            match r {
                Ok(parsed) => (arg is Inherit <==> parsed is Inherit) && (arg is Granted
                    <==> parsed is Granted) && (arg is NotGranted <==> parsed is NotGranted) && (
                arg is GrantedList <==> parsed is GrantedList),
                Err(_) => arg is GrantedList,
            },
    {
        match arg {
            ChildUnaryPermissionArg::Inherit => Ok(ChildUnaryArg::Inherit),
            ChildUnaryPermissionArg::Granted => Ok(ChildUnaryArg::Granted),
            ChildUnaryPermissionArg::NotGranted => Ok(ChildUnaryArg::NotGranted),
            ChildUnaryPermissionArg::GrantedList(list) => {
                let n = list.len();
                let mut out: Vec<crate::fs::FfiDescriptor> = Vec::new();
                let mut i: usize = 0;
                while i < n
                    invariant
                        arg is GrantedList,
                        n == list@.len(),
                        i <= n,
                    decreases n - i,
                {
                    match self.parser.parse_ffi_descriptor(list[i].as_str()) {
                        Ok(d) => {
                            out.push(d);
                        },
                        Err(e) => {
                            return Err(e);
                        },
                    }
                    i += 1;
                }
                Ok(ChildUnaryArg::GrantedList(out))
            },
        }
    }

    fn parse_child_run(&self, arg: &ChildUnaryPermissionArg) -> (r: Result<
        ChildUnaryArg<crate::run::AllowRunDescriptor>,
        PermError,
    >)
        ensures
            match r {
                Ok(parsed) => (arg is Inherit <==> parsed is Inherit) && (arg is Granted
                    <==> parsed is Granted) && (arg is NotGranted <==> parsed is NotGranted) && (
                arg is GrantedList <==> parsed is GrantedList),
                Err(_) => arg is GrantedList,
            },
    {
        match arg {
            ChildUnaryPermissionArg::Inherit => Ok(ChildUnaryArg::Inherit),
            ChildUnaryPermissionArg::Granted => Ok(ChildUnaryArg::Granted),
            ChildUnaryPermissionArg::NotGranted => Ok(ChildUnaryArg::NotGranted),
            ChildUnaryPermissionArg::GrantedList(list) => {
                let n = list.len();
                let mut out: Vec<crate::run::AllowRunDescriptor> = Vec::new();
                let mut i: usize = 0;
                while i < n
                    invariant
                        arg is GrantedList,
                        n == list@.len(),
                        i <= n,
                    decreases n - i,
                {
                    match self.parser.parse_allow_run_descriptor(list[i].as_str()) {
                        Ok(AllowRunDescriptorParseResult::Descriptor(d)) => {
                            out.push(d);
                        },
                        Ok(AllowRunDescriptorParseResult::Unresolved(_)) => {},
                        Err(e) => {
                            return Err(e);
                        },
                    }
                    i += 1;
                }
                Ok(ChildUnaryArg::GrantedList(out))
            },
        }
    }


    /// Derives the child state of the read kind from its request: parses a
    /// grant list through the collaborator and lets the per-kind
    /// derivation check it against this (parent) scope.
    fn derive_child_read(&mut self, arg: &ChildUnaryPermissionArg) -> (r: Result<
        UnaryPermission<ReadQueryDescriptor>,
        PermError,
    >)
        ensures
            only_read_changed(old(self).inner, final(self).inner),
            match r {
                Ok(child) => {
                    &&& crate::unary::child_deny_carried(final(self).inner.read, child)
                    &&& (arg is Granted ==> child.granted_global && child.granted_list@.len()
                        == 0)
                    &&& (arg is NotGranted ==> !child.granted_global && child.granted_list@.len()
                        == 0 && final(self).inner == old(self).inner)
                    &&& (arg is Inherit ==> final(self).inner == old(self).inner && child.granted_global
                        == old(self).inner.read.granted_global && UnaryPermission::<
                        ReadQueryDescriptor,
                    >::allow_views(child.granted_list@) == UnaryPermission::<
                        ReadQueryDescriptor,
                    >::allow_views(old(self).inner.read.granted_list@))
                },
                Err(_) => arg is Granted || arg is GrantedList,
            },
    {
        let parsed = match self.parse_child_read(arg) {
            Ok(v) => v,
            Err(e) => {
                return Err(e);
            },
        };
        self.inner.read.create_child_permissions(parsed, &mut self.prompter)
    }

    /// Derives the child state of the write kind from its request: parses a
    /// grant list through the collaborator and lets the per-kind
    /// derivation check it against this (parent) scope.
    fn derive_child_write(&mut self, arg: &ChildUnaryPermissionArg) -> (r: Result<
        UnaryPermission<WriteQueryDescriptor>,
        PermError,
    >)
        ensures
            only_write_changed(old(self).inner, final(self).inner),
            match r {
                Ok(child) => {
                    &&& crate::unary::child_deny_carried(final(self).inner.write, child)
                    &&& (arg is Granted ==> child.granted_global && child.granted_list@.len()
                        == 0)
                    &&& (arg is NotGranted ==> !child.granted_global && child.granted_list@.len()
                        == 0 && final(self).inner == old(self).inner)
                    &&& (arg is Inherit ==> final(self).inner == old(self).inner && child.granted_global
                        == old(self).inner.write.granted_global && UnaryPermission::<
                        WriteQueryDescriptor,
                    >::allow_views(child.granted_list@) == UnaryPermission::<
                        WriteQueryDescriptor,
                    >::allow_views(old(self).inner.write.granted_list@))
                },
                Err(_) => arg is Granted || arg is GrantedList,
            },
    {
        let parsed = match self.parse_child_write(arg) {
            Ok(v) => v,
            Err(e) => {
                return Err(e);
            },
        };
        self.inner.write.create_child_permissions(parsed, &mut self.prompter)
    }

    /// Derives the child state of the net kind from its request: parses a
    /// grant list through the collaborator and lets the per-kind
    /// derivation check it against this (parent) scope.
    fn derive_child_net(&mut self, arg: &ChildUnaryPermissionArg) -> (r: Result<
        UnaryPermission<NetDescriptor>,
        PermError,
    >)
        ensures
            only_net_changed(old(self).inner, final(self).inner),
            match r {
                Ok(child) => {
                    &&& crate::unary::child_deny_carried(final(self).inner.net, child)
                    &&& (arg is Granted ==> child.granted_global && child.granted_list@.len()
                        == 0)
                    &&& (arg is NotGranted ==> !child.granted_global && child.granted_list@.len()
                        == 0 && final(self).inner == old(self).inner)
                    &&& (arg is Inherit ==> final(self).inner == old(self).inner && child.granted_global
                        == old(self).inner.net.granted_global && UnaryPermission::<
                        NetDescriptor,
                    >::allow_views(child.granted_list@) == UnaryPermission::<
                        NetDescriptor,
                    >::allow_views(old(self).inner.net.granted_list@))
                },
                Err(_) => arg is Granted || arg is GrantedList,
            },
    {
        let parsed = match self.parse_child_net(arg) {
            Ok(v) => v,
            Err(e) => {
                return Err(e);
            },
        };
        self.inner.net.create_child_permissions(parsed, &mut self.prompter)
    }

    /// Derives the child state of the env kind from its request: parses a
    /// grant list through the collaborator and lets the per-kind
    /// derivation check it against this (parent) scope.
    fn derive_child_env(&mut self, arg: &ChildUnaryPermissionArg) -> (r: Result<
        UnaryPermission<crate::env::EnvDescriptor>,
        PermError,
    >)
        ensures
            only_env_changed(old(self).inner, final(self).inner),
            match r {
                Ok(child) => {
                    &&& crate::unary::child_deny_carried(final(self).inner.env, child)
                    &&& (arg is Granted ==> child.granted_global && child.granted_list@.len()
                        == 0)
                    &&& (arg is NotGranted ==> !child.granted_global && child.granted_list@.len()
                        == 0 && final(self).inner == old(self).inner)
                    &&& (arg is Inherit ==> final(self).inner == old(self).inner && child.granted_global
                        == old(self).inner.env.granted_global && UnaryPermission::<
                        crate::env::EnvDescriptor,
                    >::allow_views(child.granted_list@) == UnaryPermission::<
                        crate::env::EnvDescriptor,
                    >::allow_views(old(self).inner.env.granted_list@))
                },
                Err(_) => arg is Granted || arg is GrantedList,
            },
    {
        let parsed = match self.parse_child_env(arg) {
            Ok(v) => v,
            Err(e) => {
                return Err(e);
            },
        };
        self.inner.env.create_child_permissions(parsed, &mut self.prompter)
    }

    /// Derives the child state of the sys kind from its request: parses a
    /// grant list through the collaborator and lets the per-kind
    /// derivation check it against this (parent) scope.
    fn derive_child_sys(&mut self, arg: &ChildUnaryPermissionArg) -> (r: Result<
        UnaryPermission<SysDescriptor>,
        PermError,
    >)
        ensures
            only_sys_changed(old(self).inner, final(self).inner),
            match r {
                Ok(child) => {
                    &&& crate::unary::child_deny_carried(final(self).inner.sys, child)
                    &&& (arg is Granted ==> child.granted_global && child.granted_list@.len()
                        == 0)
                    &&& (arg is NotGranted ==> !child.granted_global && child.granted_list@.len()
                        == 0 && final(self).inner == old(self).inner)
                    &&& (arg is Inherit ==> final(self).inner == old(self).inner && child.granted_global
                        == old(self).inner.sys.granted_global && UnaryPermission::<
                        SysDescriptor,
                    >::allow_views(child.granted_list@) == UnaryPermission::<
                        SysDescriptor,
                    >::allow_views(old(self).inner.sys.granted_list@))
                },
                Err(_) => arg is Granted || arg is GrantedList,
            },
    {
        let parsed = match self.parse_child_sys(arg) {
            Ok(v) => v,
            Err(e) => {
                return Err(e);
            },
        };
        self.inner.sys.create_child_permissions(parsed, &mut self.prompter)
    }

    /// Derives the child state of the run kind from its request: parses a
    /// grant list through the collaborator and lets the per-kind
    /// derivation check it against this (parent) scope.
    fn derive_child_run(&mut self, arg: &ChildUnaryPermissionArg) -> (r: Result<
        UnaryPermission<RunQueryDescriptor>,
        PermError,
    >)
        ensures
            only_run_changed(old(self).inner, final(self).inner),
            match r {
                Ok(child) => {
                    &&& crate::unary::child_deny_carried(final(self).inner.run, child)
                    &&& (arg is Granted ==> child.granted_global && child.granted_list@.len()
                        == 0)
                    &&& (arg is NotGranted ==> !child.granted_global && child.granted_list@.len()
                        == 0 && final(self).inner == old(self).inner)
                    &&& (arg is Inherit ==> final(self).inner == old(self).inner && child.granted_global
                        == old(self).inner.run.granted_global && UnaryPermission::<
                        RunQueryDescriptor,
                    >::allow_views(child.granted_list@) == UnaryPermission::<
                        RunQueryDescriptor,
                    >::allow_views(old(self).inner.run.granted_list@))
                },
                Err(_) => arg is Granted || arg is GrantedList,
            },
    {
        let parsed = match self.parse_child_run(arg) {
            Ok(v) => v,
            Err(e) => {
                return Err(e);
            },
        };
        self.inner.run.create_child_permissions(parsed, &mut self.prompter)
    }

    /// Derives the child state of the ffi kind from its request: parses a
    /// grant list through the collaborator and lets the per-kind
    /// derivation check it against this (parent) scope.
    fn derive_child_ffi(&mut self, arg: &ChildUnaryPermissionArg) -> (r: Result<
        UnaryPermission<FfiQueryDescriptor>,
        PermError,
    >)
        ensures
            only_ffi_changed(old(self).inner, final(self).inner),
            match r {
                Ok(child) => {
                    &&& crate::unary::child_deny_carried(final(self).inner.ffi, child)
                    &&& (arg is Granted ==> child.granted_global && child.granted_list@.len()
                        == 0)
                    &&& (arg is NotGranted ==> !child.granted_global && child.granted_list@.len()
                        == 0 && final(self).inner == old(self).inner)
                    &&& (arg is Inherit ==> final(self).inner == old(self).inner && child.granted_global
                        == old(self).inner.ffi.granted_global && UnaryPermission::<
                        FfiQueryDescriptor,
                    >::allow_views(child.granted_list@) == UnaryPermission::<
                        FfiQueryDescriptor,
                    >::allow_views(old(self).inner.ffi.granted_list@))
                },
                Err(_) => arg is Granted || arg is GrantedList,
            },
    {
        let parsed = match self.parse_child_ffi(arg) {
            Ok(v) => v,
            Err(e) => {
                return Err(e);
            },
        };
        self.inner.ffi.create_child_permissions(parsed, &mut self.prompter)
    }

    /// Derives the child state of the import kind from its request: parses a
    /// grant list through the collaborator and lets the per-kind
    /// derivation check it against this (parent) scope.
    fn derive_child_import(&mut self, arg: &ChildUnaryPermissionArg) -> (r: Result<
        UnaryPermission<ImportDescriptor>,
        PermError,
    >)
        ensures
            only_import_changed(old(self).inner, final(self).inner),
            match r {
                Ok(child) => {
                    &&& crate::unary::child_deny_carried(final(self).inner.import, child)
                    &&& (arg is Granted ==> child.granted_global && child.granted_list@.len()
                        == 0)
                    &&& (arg is NotGranted ==> !child.granted_global && child.granted_list@.len()
                        == 0 && final(self).inner == old(self).inner)
                    &&& (arg is Inherit ==> final(self).inner == old(self).inner && child.granted_global
                        == old(self).inner.import.granted_global && UnaryPermission::<
                        ImportDescriptor,
                    >::allow_views(child.granted_list@) == UnaryPermission::<
                        ImportDescriptor,
                    >::allow_views(old(self).inner.import.granted_list@))
                },
                Err(_) => arg is Granted || arg is GrantedList,
            },
    {
        let parsed = match self.parse_child_import(arg) {
            Ok(v) => v,
            Err(e) => {
                return Err(e);
            },
        };
        self.inner.import.create_child_permissions(parsed, &mut self.prompter)
    }

    /// Derives the permission set for a narrower execution scope (a
    /// worker or subprocess). Whatever each kind is given, the parent's
    /// deny state and prompt flag carry into the child; asked-for grants
    /// are checked against this (parent) scope and escalate into an error
    /// when not covered. The all-permissions umbrella is inherited, but
    /// downgraded unless every kind was asked for in full.
    #[verifier::rlimit(100)]
    pub fn create_child_permissions(&mut self, child_permissions_arg: ChildPermissionsArg) -> (r:
        Result<Permissions, PermError>)
        ensures
            match r {
                Ok(child) => {
                    &&& crate::unary::child_deny_carried(final(self).inner.read, child.read)
                    &&& crate::unary::child_deny_carried(final(self).inner.write, child.write)
                    &&& crate::unary::child_deny_carried(final(self).inner.net, child.net)
                    &&& crate::unary::child_deny_carried(final(self).inner.env, child.env)
                    &&& crate::unary::child_deny_carried(final(self).inner.sys, child.sys)
                    &&& crate::unary::child_deny_carried(final(self).inner.run, child.run)
                    &&& crate::unary::child_deny_carried(final(self).inner.ffi, child.ffi)
                    &&& crate::unary::child_deny_carried(final(self).inner.import, child.import)
                    &&& (child_permissions_arg.read is Granted ==> child.read.granted_global
                        && child.read.granted_list@.len() == 0)
                    &&& (child_permissions_arg.read is NotGranted ==> !child.read.granted_global
                        && child.read.granted_list@.len() == 0)
                    &&& (child_permissions_arg.read is Inherit ==> child.read.granted_global == old(
                        self,
                    ).inner.read.granted_global && UnaryPermission::<ReadQueryDescriptor>::allow_views(
                        child.read.granted_list@,
                    ) == UnaryPermission::<ReadQueryDescriptor>::allow_views(old(self).inner.read.granted_list@))
                    &&& (child_permissions_arg.write is Granted ==> child.write.granted_global
                        && child.write.granted_list@.len() == 0)
                    &&& (child_permissions_arg.write is NotGranted ==> !child.write.granted_global
                        && child.write.granted_list@.len() == 0)
                    &&& (child_permissions_arg.write is Inherit ==> child.write.granted_global == old(
                        self,
                    ).inner.write.granted_global && UnaryPermission::<WriteQueryDescriptor>::allow_views(
                        child.write.granted_list@,
                    ) == UnaryPermission::<WriteQueryDescriptor>::allow_views(old(self).inner.write.granted_list@))
                    &&& (child_permissions_arg.net is Granted ==> child.net.granted_global
                        && child.net.granted_list@.len() == 0)
                    &&& (child_permissions_arg.net is NotGranted ==> !child.net.granted_global
                        && child.net.granted_list@.len() == 0)
                    &&& (child_permissions_arg.net is Inherit ==> child.net.granted_global == old(
                        self,
                    ).inner.net.granted_global && UnaryPermission::<NetDescriptor>::allow_views(
                        child.net.granted_list@,
                    ) == UnaryPermission::<NetDescriptor>::allow_views(old(self).inner.net.granted_list@))
                    &&& (child_permissions_arg.env is Granted ==> child.env.granted_global
                        && child.env.granted_list@.len() == 0)
                    &&& (child_permissions_arg.env is NotGranted ==> !child.env.granted_global
                        && child.env.granted_list@.len() == 0)
                    &&& (child_permissions_arg.env is Inherit ==> child.env.granted_global == old(
                        self,
                    ).inner.env.granted_global && UnaryPermission::<crate::env::EnvDescriptor>::allow_views(
                        child.env.granted_list@,
                    ) == UnaryPermission::<crate::env::EnvDescriptor>::allow_views(old(self).inner.env.granted_list@))
                    &&& (child_permissions_arg.sys is Granted ==> child.sys.granted_global
                        && child.sys.granted_list@.len() == 0)
                    &&& (child_permissions_arg.sys is NotGranted ==> !child.sys.granted_global
                        && child.sys.granted_list@.len() == 0)
                    &&& (child_permissions_arg.sys is Inherit ==> child.sys.granted_global == old(
                        self,
                    ).inner.sys.granted_global && UnaryPermission::<SysDescriptor>::allow_views(
                        child.sys.granted_list@,
                    ) == UnaryPermission::<SysDescriptor>::allow_views(old(self).inner.sys.granted_list@))
                    &&& (child_permissions_arg.run is Granted ==> child.run.granted_global
                        && child.run.granted_list@.len() == 0)
                    &&& (child_permissions_arg.run is NotGranted ==> !child.run.granted_global
                        && child.run.granted_list@.len() == 0)
                    &&& (child_permissions_arg.run is Inherit ==> child.run.granted_global == old(
                        self,
                    ).inner.run.granted_global && UnaryPermission::<RunQueryDescriptor>::allow_views(
                        child.run.granted_list@,
                    ) == UnaryPermission::<RunQueryDescriptor>::allow_views(old(self).inner.run.granted_list@))
                    &&& (child_permissions_arg.ffi is Granted ==> child.ffi.granted_global
                        && child.ffi.granted_list@.len() == 0)
                    &&& (child_permissions_arg.ffi is NotGranted ==> !child.ffi.granted_global
                        && child.ffi.granted_list@.len() == 0)
                    &&& (child_permissions_arg.ffi is Inherit ==> child.ffi.granted_global == old(
                        self,
                    ).inner.ffi.granted_global && UnaryPermission::<FfiQueryDescriptor>::allow_views(
                        child.ffi.granted_list@,
                    ) == UnaryPermission::<FfiQueryDescriptor>::allow_views(old(self).inner.ffi.granted_list@))
                    &&& (child_permissions_arg.import is Granted ==> child.import.granted_global
                        && child.import.granted_list@.len() == 0)
                    &&& (child_permissions_arg.import is NotGranted ==> !child.import.granted_global
                        && child.import.granted_list@.len() == 0)
                    &&& (child_permissions_arg.import is Inherit ==> child.import.granted_global == old(
                        self,
                    ).inner.import.granted_global && UnaryPermission::<ImportDescriptor>::allow_views(
                        child.import.granted_list@,
                    ) == UnaryPermission::<ImportDescriptor>::allow_views(old(self).inner.import.granted_list@))
                },
                Err(_) => !asks_nothing_new(child_permissions_arg),
            },
    {
        let mut worker = Permissions::none_without_prompt();
        worker.all = match self.inner.all.create_child_permissions(
            ChildUnitPermissionArg::Inherit,
            &mut self.prompter,
        ) {
            Ok(v) => v,
            Err(e) => {
                return Err(e);
            },
        };
        // the umbrella only survives when every kind was asked for in full
        let all_granted = is_granted_unary(&child_permissions_arg.read) && is_granted_unary(
            &child_permissions_arg.write,
        ) && is_granted_unary(&child_permissions_arg.net) && is_granted_unary(
            &child_permissions_arg.import,
        ) && is_granted_unary(&child_permissions_arg.env) && is_granted_unary(
            &child_permissions_arg.sys,
        ) && is_granted_unary(&child_permissions_arg.run) && is_granted_unary(
            &child_permissions_arg.ffi,
        );
        if worker.all.query() == PermissionState::Granted && !all_granted {
            worker.all.revoke();
        }
        worker.read = match self.derive_child_read(&child_permissions_arg.read) {
            Ok(v) => v,
            Err(e) => {
                return Err(e);
            },
        };
        worker.write = match self.derive_child_write(&child_permissions_arg.write) {
            Ok(v) => v,
            Err(e) => {
                return Err(e);
            },
        };
        worker.import = match self.derive_child_import(&child_permissions_arg.import) {
            Ok(v) => v,
            Err(e) => {
                return Err(e);
            },
        };
        worker.net = match self.derive_child_net(&child_permissions_arg.net) {
            Ok(v) => v,
            Err(e) => {
                return Err(e);
            },
        };
        worker.env = match self.derive_child_env(&child_permissions_arg.env) {
            Ok(v) => v,
            Err(e) => {
                return Err(e);
            },
        };
        worker.sys = match self.derive_child_sys(&child_permissions_arg.sys) {
            Ok(v) => v,
            Err(e) => {
                return Err(e);
            },
        };
        worker.run = match self.derive_child_run(&child_permissions_arg.run) {
            Ok(v) => v,
            Err(e) => {
                return Err(e);
            },
        };
        worker.ffi = match self.derive_child_ffi(&child_permissions_arg.ffi) {
            Ok(v) => v,
            Err(e) => {
                return Err(e);
            },
        };
        Ok(worker)
    }

    /// Gates a module load: `file` specifiers consult the read permission
    /// (static loads and a fully granted read kind pass outright, and a
    /// specifier that converts to no path is a hard error, not a denial);
    /// `data` and `blob` always pass; every other scheme consults the
    /// import permission for the specifier's host and port.
    pub fn check_specifier(&mut self, specifier: &ModuleSpecifier, kind: CheckSpecifierKind) -> (r:
        Result<(), PermError>)
        ensures
            only_read_import_changed(old(self).inner, final(self).inner),
            specifier@.scheme == "data"@ || specifier@.scheme == "blob"@ ==> (r is Ok
                && final(self).inner == old(self).inner),
            specifier@.scheme == "file"@ ==> {
                if old(self).inner.read.spec_is_allow_all() || kind == CheckSpecifierKind::Static {
                    r is Ok && final(self).inner == old(self).inner
                } else {
                    match specifier@.file_path {
                        None => (r matches Err(e) && e.class@ == "URIError"@) && final(self).inner
                            == old(self).inner,
                        Some(pqm) => UnaryPermission::<ReadQueryDescriptor>::spec_checked_outcome(
                            old(self).inner.read,
                            final(self).inner.read,
                            Some(pqm),
                            true,
                            true,
                            r,
                        ) && final(self).inner.import == old(self).inner.import,
                    }
                }
            },
            specifier@.scheme != "file"@ && specifier@.scheme != "data"@ && specifier@.scheme
                != "blob"@ ==> {
                if old(self).inner.import.spec_is_allow_all() {
                    r is Ok && final(self).inner == old(self).inner
                } else {
                    final(self).inner.read == old(self).inner.read && match r {
                        Ok(_) => exists|qm: NetModel, rr: Result<(), PermError>|
                            rr is Ok && #[trigger] UnaryPermission::<
                                ImportDescriptor,
                            >::spec_checked_outcome(
                                old(self).inner.import,
                                final(self).inner.import,
                                Some(qm),
                                false,
                                true,
                                rr,
                            ),
                        Err(_) => final(self).inner.import == old(self).inner.import || exists|
                            qm: NetModel,
                            rr: Result<(), PermError>,
                        |
                            rr is Err && #[trigger] UnaryPermission::<
                                ImportDescriptor,
                            >::spec_checked_outcome(
                                old(self).inner.import,
                                final(self).inner.import,
                                Some(qm),
                                false,
                                true,
                                rr,
                            ),
                    }
                }
            },
    {
        let scheme = specifier.scheme.as_str();
        if str_eq(scheme, "file") {
            proof {
                reveal_strlit("file");
                reveal_strlit("data");
                reveal_strlit("blob");
                assert(scheme@ == "file"@);
                assert(specifier@.scheme == scheme@);
                assert("file"@ != "data"@) by {
                    assert("file"@[0] != "data"@[0]);
                }
                assert("file"@ != "blob"@) by {
                    assert("file"@[0] != "blob"@[0]);
                }
                assert(specifier@.scheme != "data"@ && specifier@.scheme != "blob"@);
            }
            if self.inner.read.is_allow_all() {
                return Ok(());
            }
            match kind {
                CheckSpecifierKind::Static => {
                    return Ok(());
                },
                CheckSpecifierKind::Dynamic => {},
            }
            match &specifier.file_path {
                Some(pq) => {
                    let desc = pq.duplicate().into_read();
                    self.inner.read.check(&desc, Some("import()"), &mut self.prompter)
                },
                None => {
                    let mut msg = String::new();
                    msg.append("Invalid file path.\n  Specifier: ");
                    msg.append(specifier.display.as_str());
                    Err(uri_error(msg))
                },
            }
        } else if str_eq(scheme, "data") || str_eq(scheme, "blob") {
            proof {
                reveal_strlit("file");
                reveal_strlit("data");
                reveal_strlit("blob");
                assert(specifier@.scheme != "file"@ && (specifier@.scheme == "data"@
                    || specifier@.scheme == "blob"@));
            }
            Ok(())
        } else {
            proof {
                reveal_strlit("file");
                reveal_strlit("data");
                reveal_strlit("blob");
                assert(specifier@.scheme != "file"@ && specifier@.scheme != "data"@
                    && specifier@.scheme != "blob"@);
            }
            if self.inner.import.is_allow_all() {
                return Ok(());
            }
            let desc = match self.parser.parse_import_descriptor_from_url(specifier) {
                Ok(d) => d,
                Err(e) => {
                    return Err(e);
                },
            };
            let res = self.inner.import.check(&desc, Some("import()"), &mut self.prompter);
            proof {
                assert(UnaryPermission::<ImportDescriptor>::spec_checked_outcome(
                    old(self).inner.import,
                    self.inner.import,
                    Some(desc@),
                    false,
                    true,
                    res,
                ));
            }
            match res {
                Ok(_) => Ok(()),
                Err(e) => Err(e),
            }
        }
    }

    /// Special filesystem carve-outs: a few side-effect-free device files
    /// are always permitted; so is opening a process file descriptor above
    /// the standard streams when the embedder has probed that it refers to
    /// a pipe (`fd_pipe`); a path ending in the environment file consults
    /// the env permission; anything else under `/dev`, `/proc` or `/sys`
    /// needs the all-permissions flag. The failed permission's name comes
    /// back as the error.
    pub fn check_special_file(&mut self, path: &PathRepr, fd_pipe: bool, api_name: &str) -> (r:
        Result<(), &'static str>)
        ensures
            only_env_all_changed(old(self).inner, final(self).inner),
            is_free_device_path(path@) ==> (r is Ok && final(self).inner == old(self).inner),
            !is_free_device_path(path@) && is_fd_path(path@) && fd_pipe ==> (r is Ok
                && final(self).inner == old(self).inner),
            !is_free_device_path(path@) && !(is_fd_path(path@) && fd_pipe)
                && is_under_special_root(path@) && is_environ_path(path@) ==> (final(self).inner.all
                == old(self).inner.all && exists|rr: Result<(), PermError>|
                (r is Ok == rr is Ok) && #[trigger] UnaryPermission::<
                    crate::env::EnvDescriptor,
                >::spec_checked_outcome(
                    old(self).inner.env,
                    final(self).inner.env,
                    None,
                    false,
                    true,
                    rr,
                ) && (r matches Err(name) ==> name@ == "env"@)),
            !is_free_device_path(path@) && !(is_fd_path(path@) && fd_pipe)
                && is_under_special_root(path@) && !is_environ_path(path@) ==> (
            final(self).inner.env == old(self).inner.env && (exists|
                rr: Result<(), PermError>,
                resp: Option<PromptResponse>,
                prompted: bool,
            |
                (r is Ok == rr is Ok) && #[trigger] crate::unit::unit_check_post(
                    old(self).inner.all,
                    final(self).inner.all,
                    rr,
                    resp,
                    prompted,
                )) && (r matches Err(name) ==> name@ == "all"@)),
            !is_free_device_path(path@) && !(is_fd_path(path@) && fd_pipe)
                && !is_under_special_root(path@) ==> (r is Ok && final(self).inner
                == old(self).inner),
    {
        let n = path.depth();
        // side-effect-free device files
        if n == 2 && str_eq(path.segments[0].as_str(), "dev") {
            let seg1 = path.segments[1].as_str();
            if str_eq(seg1, "random") || str_eq(seg1, "urandom") || str_eq(seg1, "zero") || str_eq(
                seg1,
                "null",
            ) {
                proof {
                    assert(path@[0] == "dev"@ && (path@[1] == "random"@ || path@[1] == "urandom"@
                        || path@[1] == "zero"@ || path@[1] == "null"@));
                    if path@[1] == "random"@ {
                        assert(path@ =~= seq!["dev"@, "random"@]);
                    } else if path@[1] == "urandom"@ {
                        assert(path@ =~= seq!["dev"@, "urandom"@]);
                    } else if path@[1] == "zero"@ {
                        assert(path@ =~= seq!["dev"@, "zero"@]);
                    } else {
                        assert(path@ =~= seq!["dev"@, "null"@]);
                    }
                }
                return Ok(());
            }
        }
        proof {
            assert(!is_free_device_path(path@));
        }
        // pipe redirections through process file descriptors
        let mut fd_candidate = false;
        if n == 3 && str_eq(path.segments[0].as_str(), "dev") && str_eq(
            path.segments[1].as_str(),
            "fd",
        ) {
            match crate::strings::parse_u16(path.segments[2].as_str()) {
                Some(v) => {
                    fd_candidate = v > 2;
                },
                None => {},
            }
        }
        if n == 4 && str_eq(path.segments[0].as_str(), "proc") && str_eq(
            path.segments[1].as_str(),
            "self",
        ) && str_eq(path.segments[2].as_str(), "fd") {
            match crate::strings::parse_u16(path.segments[3].as_str()) {
                Some(v) => {
                    fd_candidate = v > 2;
                },
                None => {},
            }
        }
        proof {
            assert(fd_candidate == is_fd_path(path@));
        }
        if fd_candidate && fd_pipe {
            return Ok(());
        }
        let under = n > 0 && (str_eq(path.segments[0].as_str(), "dev") || str_eq(
            path.segments[0].as_str(),
            "proc",
        ) || str_eq(path.segments[0].as_str(), "sys"));
        proof {
            assert(under == is_under_special_root(path@));
        }
        if under {
            if str_eq(path.segments[n - 1].as_str(), "environ") {
                proof {
                    assert(is_environ_path(path@));
                }
                let res = self.check_env_all();
                match res {
                    Ok(_) => Ok(()),
                    Err(_) => Err("env"),
                }
            } else {
                proof {
                    assert(!is_environ_path(path@));
                }
                let res = self.inner.all.check(&mut self.prompter);
                match res {
                    Ok(_) => Ok(()),
                    Err(_) => Err("all"),
                }
            }
        } else {
            Ok(())
        }
    }
}

/// Whether a child argument asks for the kind in full (inheriting it or
/// granting it whole).
fn is_granted_unary(arg: &ChildUnaryPermissionArg) -> (r: bool)
    ensures
        r == (arg is Inherit || arg is Granted),
{
    match arg {
        ChildUnaryPermissionArg::Inherit => true,
        ChildUnaryPermissionArg::Granted => true,
        ChildUnaryPermissionArg::NotGranted => false,
        ChildUnaryPermissionArg::GrantedList(_) => false,
    }
}


/// Only the env permission and the all-permissions umbrella may differ.
pub open spec fn only_env_all_changed(a: Permissions, b: Permissions) -> bool {
    &&& b.read == a.read
    &&& b.write == a.write
    &&& b.net == a.net
    &&& b.sys == a.sys
    &&& b.run == a.run
    &&& b.ffi == a.ffi
    &&& b.import == a.import
}

/// The device files that are always free to open: reading them has no
/// side effect worth guarding.
pub open spec fn is_free_device_path(p: Seq<Seq<char>>) -> bool {
    ||| p == seq!["dev"@, "random"@]
    ||| p == seq!["dev"@, "urandom"@]
    ||| p == seq!["dev"@, "zero"@]
    ||| p == seq!["dev"@, "null"@]
}

/// A file-descriptor segment above the standard streams: decimal text
/// whose value exceeds 2.
pub open spec fn is_fd_above_stdio(seg: Seq<char>) -> bool {
    crate::strings::is_port_number(seg) && crate::strings::dec_value(
        crate::strings::port_digits(seg),
    ) > 2
}

/// A path that names a process file descriptor above the standard
/// streams: `/dev/fd/{n}` or `/proc/self/fd/{n}`.
pub open spec fn is_fd_path(p: Seq<Seq<char>>) -> bool {
    ||| (p.len() == 3 && p[0] == "dev"@ && p[1] == "fd"@ && is_fd_above_stdio(p[2]))
    ||| (p.len() == 4 && p[0] == "proc"@ && p[1] == "self"@ && p[2] == "fd"@ && is_fd_above_stdio(
        p[3],
    ))
}

/// A path under one of the special filesystem roots.
pub open spec fn is_under_special_root(p: Seq<Seq<char>>) -> bool {
    p.len() > 0 && (p[0] == "dev"@ || p[0] == "proc"@ || p[0] == "sys"@)
}

/// A path whose final segment is the process environment file.
pub open spec fn is_environ_path(p: Seq<Seq<char>>) -> bool {
    p.len() > 0 && p.last() == "environ"@
}

} // verus!
