//! The permissions aggregate: one unary permission per capability kind
//! plus the all-permissions umbrella, and its bulk constructors.

use vstd::prelude::*;

use crate::env::EnvDescriptor;
use crate::errors::{generic_error, PermError};
use crate::fs::{FfiDescriptor, FfiQueryDescriptor, ReadDescriptor, ReadQueryDescriptor,
    WriteDescriptor, WriteQueryDescriptor};
use crate::net::{ImportDescriptor, NetDescriptor};
use crate::parser::{AllowRunDescriptorParseResult, PermissionDescriptorParser};
use crate::query::QueryDescriptor;
use crate::run::{AllowRunDescriptor, DenyRunDescriptor, RunQueryDescriptor};
use crate::state::PermissionState;
use crate::sys::SysDescriptor;
use crate::unary::UnaryPermission;
use crate::unit::{unit_permission_from_flag_bools, UnitPermission};

verus! {

/// One permission per capability kind, plus the all-permissions umbrella.
/// Created once per execution scope and mutated in place as prompts are
/// answered.
#[derive(Debug, PartialEq, Eq)]
pub struct Permissions {
    pub read: UnaryPermission<ReadQueryDescriptor>,
    pub write: UnaryPermission<WriteQueryDescriptor>,
    pub net: UnaryPermission<NetDescriptor>,
    pub env: UnaryPermission<EnvDescriptor>,
    pub sys: UnaryPermission<SysDescriptor>,
    pub run: UnaryPermission<RunQueryDescriptor>,
    pub ffi: UnaryPermission<FfiQueryDescriptor>,
    pub import: UnaryPermission<ImportDescriptor>,
    pub all: UnitPermission,
}

/// The startup options: per kind an optional allow-list and deny-list of
/// raw strings, a global prompt flag, and the all-permissions flag. A
/// present-but-empty allow list means the whole kind is granted; an absent
/// one grants nothing.
#[derive(Debug, Clone, PartialEq, Eq, Default)]
pub struct PermissionsOptions {
    pub allow_all: bool,
    pub allow_env: Option<Vec<String>>,
    pub deny_env: Option<Vec<String>>,
    pub allow_net: Option<Vec<String>>,
    pub deny_net: Option<Vec<String>>,
    pub allow_ffi: Option<Vec<String>>,
    pub deny_ffi: Option<Vec<String>>,
    pub allow_read: Option<Vec<String>>,
    pub deny_read: Option<Vec<String>>,
    pub allow_run: Option<Vec<String>>,
    pub deny_run: Option<Vec<String>>,
    pub allow_sys: Option<Vec<String>>,
    pub deny_sys: Option<Vec<String>>,
    pub allow_write: Option<Vec<String>>,
    pub deny_write: Option<Vec<String>>,
    pub allow_import: Option<Vec<String>>,
    pub prompt: bool,
}

/// Whether a freshly built unary permission carries exactly the given
/// parsed lists: a present-but-empty allow list grants the whole kind, a
/// present-but-empty deny list denies it, and no interactive denials
/// exist yet.
pub open spec fn is_new_unary<TQuery: QueryDescriptor>(
    r: UnaryPermission<TQuery>,
    allow_list: Option<Vec<TQuery::AllowDesc>>,
    deny_list: Option<Vec<TQuery::DenyDesc>>,
    prompt: bool,
) -> bool {
    &&& r.granted_global == (allow_list matches Some(v) && v@.len() == 0)
    &&& r.granted_list@ == (match allow_list {
        Some(v) => v@,
        None => Seq::<TQuery::AllowDesc>::empty(),
    })
    &&& r.flag_denied_global == (deny_list matches Some(v) && v@.len() == 0)
    &&& r.flag_denied_list@ == (match deny_list {
        Some(v) => v@,
        None => Seq::<TQuery::DenyDesc>::empty(),
    })
    &&& r.prompt_denied_global == false
    &&& r.prompt_denied_list@.len() == 0
    &&& r.prompt == prompt
}

/// Whether some entry of `wl` denies exactly the path `path`.
pub open spec fn has_write_denial(wl: Seq<WriteDescriptor>, path: Seq<Seq<char>>) -> bool {
    exists|j: int| 0 <= j && j < wl.len() && (#[trigger] wl[j])@ == path
}

/// Every entry of `rl` has an entry of `wl` with the same path.
pub open spec fn lists_coupled(rl: Seq<AllowRunDescriptor>, wl: Seq<WriteDescriptor>) -> bool {
    forall|i: int| 0 <= i && i < rl.len() ==> has_write_denial(wl, (#[trigger] rl[i])@)
}

/// The run-to-write coupling: every granted executable path is also
/// flag-denied for writing, so granting execute access to a binary never
/// implies write access to it.
pub open spec fn run_write_coupled(p: Permissions) -> bool {
    lists_coupled(p.run.granted_list@, p.write.flag_denied_list@)
}

/// Appending one write denial per run entry at offset `off` couples the
/// lists.
proof fn lemma_lists_coupled_intro(rl: Seq<AllowRunDescriptor>, wl: Seq<WriteDescriptor>, off: int)
    requires
        0 <= off,
        wl.len() == off + rl.len(),
        forall|k: int| 0 <= k && k < rl.len() ==> (#[trigger] rl[k])@ == wl[off + k]@,
    ensures
        lists_coupled(rl, wl),
{
    assert forall|i: int| 0 <= i && i < rl.len() implies has_write_denial(wl, (#[trigger] rl[i])@) by {
        assert(0 <= off + i && off + i < wl.len() && wl[off + i]@ == rl[i]@);
    }
}

impl Permissions {
    /// A unary permission from parsed allow and deny lists: an absent list
    /// holds nothing, a present-but-empty one sets the matching global
    /// flag.
    pub fn new_unary<TQuery: QueryDescriptor>(
        allow_list: Option<Vec<TQuery::AllowDesc>>,
        deny_list: Option<Vec<TQuery::DenyDesc>>,
        prompt: bool,
    ) -> (r: Result<UnaryPermission<TQuery>, PermError>)
        ensures
            r matches Ok(p) && is_new_unary(p, allow_list, deny_list, prompt),
    {
        let (granted_global, granted_list): (bool, Vec<TQuery::AllowDesc>) = match allow_list {
            Some(v) => (v.len() == 0, v),
            None => (false, Vec::new()),
        };
        let (flag_denied_global, flag_denied_list): (bool, Vec<TQuery::DenyDesc>) = match deny_list {
            Some(v) => (v.len() == 0, v),
            None => (false, Vec::new()),
        };
        Ok(
            UnaryPermission {
                granted_global,
                granted_list,
                flag_denied_global,
                flag_denied_list,
                prompt_denied_global: false,
                prompt_denied_list: Vec::new(),
                prompt,
            },
        )
    }

    /// The all-permissions umbrella from its startup flag; it never
    /// prompts.
    pub fn new_all(allow_state: bool) -> (r: UnitPermission)
        ensures
            r.name@ == "all"@,
            r.prompt == false,
            r.state == (if allow_state {
                PermissionState::Granted
            } else {
                PermissionState::Prompt
            }),
    {
        unit_permission_from_flag_bools(allow_state, false, "all", "all", false)
    }

    /// A set of permissions that explicitly allows everything.
    pub fn allow_all() -> (r: Self)
        ensures
            r.read.spec_is_allow_all(),
            r.write.spec_is_allow_all(),
            r.net.spec_is_allow_all(),
            r.env.spec_is_allow_all(),
            r.sys.spec_is_allow_all(),
            r.run.spec_is_allow_all(),
            r.ffi.spec_is_allow_all(),
            r.import.spec_is_allow_all(),
            r.all.state == PermissionState::Granted,
    {
        Permissions {
            read: UnaryPermission::allow_all(),
            write: UnaryPermission::allow_all(),
            net: UnaryPermission::allow_all(),
            env: UnaryPermission::allow_all(),
            sys: UnaryPermission::allow_all(),
            run: UnaryPermission::allow_all(),
            ffi: UnaryPermission::allow_all(),
            import: UnaryPermission::allow_all(),
            all: Permissions::new_all(true),
        }
    }

    /// A set of permissions that grants nothing but may prompt.
    pub fn none_with_prompt() -> (r: Self)
        ensures
            is_none_permissions(r, true),
    {
        Self::none(true)
    }

    /// A set of permissions that grants nothing and never prompts.
    pub fn none_without_prompt() -> (r: Self)
        ensures
            is_none_permissions(r, false),
    {
        Self::none(false)
    }

    fn none(prompt: bool) -> (r: Self)
        ensures
            is_none_permissions(r, prompt),
    {
        Permissions {
            read: empty_unary(prompt),
            write: empty_unary(prompt),
            net: empty_unary(prompt),
            env: empty_unary(prompt),
            sys: empty_unary(prompt),
            run: empty_unary(prompt),
            ffi: empty_unary(prompt),
            import: empty_unary(prompt),
            all: Permissions::new_all(false),
        }
    }
}

/// A unary permission with nothing granted or denied.
fn empty_unary<TQuery: QueryDescriptor>(prompt: bool) -> (r: UnaryPermission<TQuery>)
    ensures
        is_empty_unary(r, prompt),
{
    UnaryPermission {
        granted_global: false,
        granted_list: Vec::new(),
        flag_denied_global: false,
        flag_denied_list: Vec::new(),
        prompt_denied_global: false,
        prompt_denied_list: Vec::new(),
        prompt,
    }
}

/// A unary permission holding nothing at all, with the given prompt flag.
pub open spec fn is_empty_unary<TQuery: QueryDescriptor>(
    r: UnaryPermission<TQuery>,
    prompt: bool,
) -> bool {
    &&& r.granted_global == false
    &&& r.granted_list@.len() == 0
    &&& r.flag_denied_global == false
    &&& r.flag_denied_list@.len() == 0
    &&& r.prompt_denied_global == false
    &&& r.prompt_denied_list@.len() == 0
    &&& r.prompt == prompt
}

/// A permission set holding nothing at all, with the given prompt flag.
pub open spec fn is_none_permissions(r: Permissions, prompt: bool) -> bool {
    &&& is_empty_unary(r.read, prompt)
    &&& is_empty_unary(r.write, prompt)
    &&& is_empty_unary(r.net, prompt)
    &&& is_empty_unary(r.env, prompt)
    &&& is_empty_unary(r.sys, prompt)
    &&& is_empty_unary(r.run, prompt)
    &&& is_empty_unary(r.ffi, prompt)
    &&& is_empty_unary(r.import, prompt)
    &&& r.all.state == PermissionState::Prompt
    &&& r.all.prompt == false
}

/// Whether an optional string list is present but empty — the shape that
/// grants (or denies) a whole kind.
pub open spec fn present_and_empty(items: Option<Vec<String>>) -> bool {
    items matches Some(v) && v@.len() == 0
}

/// Whether the options ask for no descriptor parsing at all: every
/// allow and deny list of every kind is absent.
pub open spec fn no_lists_given(opts: PermissionsOptions) -> bool {
    &&& opts.allow_read is None
    &&& opts.deny_read is None
    &&& opts.allow_write is None
    &&& opts.deny_write is None
    &&& opts.allow_net is None
    &&& opts.deny_net is None
    &&& opts.allow_env is None
    &&& opts.deny_env is None
    &&& opts.allow_sys is None
    &&& opts.deny_sys is None
    &&& opts.allow_run is None
    &&& opts.deny_run is None
    &&& opts.allow_ffi is None
    &&& opts.deny_ffi is None
    &&& opts.allow_import is None
}

/// Whether an allow-run list carries an empty command name, which the
/// construction rejects outright.
pub open spec fn has_empty_run_entry(opts: PermissionsOptions) -> bool {
    opts.allow_run matches Some(v) && exists|i: int|
        0 <= i && i < v@.len() && (#[trigger] v@[i])@.len() == 0
}


/// The option lists after parsing: one optional descriptor vector per
/// kind, with the run-to-write coupling already applied to the write
/// denials.
struct ParsedOptionLists {
    read_allow: Option<Vec<ReadDescriptor>>,
    read_deny: Option<Vec<ReadDescriptor>>,
    write_allow: Option<Vec<WriteDescriptor>>,
    write_deny: Option<Vec<WriteDescriptor>>,
    net_allow: Option<Vec<NetDescriptor>>,
    net_deny: Option<Vec<NetDescriptor>>,
    env_allow: Option<Vec<EnvDescriptor>>,
    env_deny: Option<Vec<EnvDescriptor>>,
    sys_allow: Option<Vec<SysDescriptor>>,
    sys_deny: Option<Vec<SysDescriptor>>,
    run_allow: Option<Vec<AllowRunDescriptor>>,
    run_deny: Option<Vec<DenyRunDescriptor>>,
    ffi_allow: Option<Vec<FfiDescriptor>>,
    ffi_deny: Option<Vec<FfiDescriptor>>,
    import_allow: Option<Vec<ImportDescriptor>>,
}

/// Whether a parsed list mirrors its source text list: absent together,
/// or present with one descriptor per string.
pub open spec fn matches_presence<T>(parsed: Option<Vec<T>>, src: Option<Vec<String>>) -> bool {
    match parsed {
        Some(v) => src matches Some(texts) && v@.len() == texts@.len(),
        None => src is None,
    }
}

/// Parses every option list through the collaborator, resolves the
/// allow-run entries, and folds each resolved executable into the write
/// denials. Fails on the first parse error or empty command name; with no
/// lists given there is nothing to parse and nothing to fail.
fn parse_option_lists<TParser: PermissionDescriptorParser>(
    parser: &TParser,
    opts: &PermissionsOptions,
) -> (r: Result<ParsedOptionLists, PermError>)
    ensures
        match r {
            Ok(pl) => {
                &&& !has_empty_run_entry(*opts)
                &&& matches_presence(pl.read_allow, opts.allow_read)
                &&& matches_presence(pl.read_deny, opts.deny_read)
                &&& matches_presence(pl.write_allow, opts.allow_write)
                &&& matches_presence(pl.net_allow, opts.allow_net)
                &&& matches_presence(pl.net_deny, opts.deny_net)
                &&& matches_presence(pl.env_allow, opts.allow_env)
                &&& matches_presence(pl.env_deny, opts.deny_env)
                &&& matches_presence(pl.sys_allow, opts.allow_sys)
                &&& matches_presence(pl.sys_deny, opts.deny_sys)
                &&& matches_presence(pl.run_deny, opts.deny_run)
                &&& matches_presence(pl.ffi_allow, opts.allow_ffi)
                &&& matches_presence(pl.ffi_deny, opts.deny_ffi)
                &&& matches_presence(pl.import_allow, opts.allow_import)
                &&& ((pl.run_allow matches Some(v) && v@.len() == 0) <==> present_and_empty(
                    opts.allow_run,
                ))
                &&& lists_coupled(
                    match pl.run_allow {
                        Some(v) => v@,
                        None => Seq::<AllowRunDescriptor>::empty(),
                    },
                    match pl.write_deny {
                        Some(v) => v@,
                        None => Seq::<WriteDescriptor>::empty(),
                    },
                )
            },
            Err(_) => !no_lists_given(*opts),
        },
{
    let deny_write = match parse_write_list(parser, &opts.deny_write) {
        Ok(v) => v,
        Err(e) => {
            return Err(e);
        },
    };
    let allow_run: Option<Vec<AllowRunDescriptor>> = match &opts.allow_run {
        Some(raw) => {
            let resolved = match resolve_allow_run(parser, raw) {
                Ok(v) => v,
                Err(e) => {
                    return Err(e);
                },
            };
            if resolved.len() == 0 && raw.len() > 0 {
                None
            } else {
                Some(resolved)
            }
        },
        None => None,
    };
    // every resolved allow-run executable is also flag-denied for writing
    let deny_write_final: Option<Vec<WriteDescriptor>>;
    let allow_run_final: Option<Vec<AllowRunDescriptor>>;
    match allow_run {
        Some(rv) => {
            if rv.len() > 0 {
                let mut dw: Vec<WriteDescriptor> = match deny_write {
                    Some(v) => v,
                    None => Vec::new(),
                };
                let ghost dw0 = dw@;
                let n = rv.len();
                let mut i: usize = 0;
                while i < n
                    invariant
                        n == rv@.len(),
                        i <= n,
                        dw@.len() == dw0.len() + i,
                        forall|k: int|
                            0 <= k && k < i ==> dw@[dw0.len() + k]@ == (#[trigger] rv@[k])@,
                    decreases n - i,
                {
                    let ghost dw_pre = dw@;
                    dw.push(WriteDescriptor(rv[i].0.duplicate()));
                    proof {
                        assert(dw@ =~= dw_pre.push(dw@.last()));
                        assert(dw@[dw0.len() + i as int]@ == rv@[i as int]@);
                    }
                    i += 1;
                }
                proof {
                    lemma_lists_coupled_intro(rv@, dw@, dw0.len() as int);
                }
                deny_write_final = Some(dw);
                allow_run_final = Some(rv);
            } else {
                proof {
                    assert(rv@.len() == 0);
                }
                deny_write_final = deny_write;
                allow_run_final = Some(rv);
            }
        },
        None => {
            deny_write_final = deny_write;
            allow_run_final = None;
        },
    }
    let read_allow = match parse_read_list(parser, &opts.allow_read) {
        Ok(v) => v,
        Err(e) => {
            return Err(e);
        },
    };
    let read_deny = match parse_read_list(parser, &opts.deny_read) {
        Ok(v) => v,
        Err(e) => {
            return Err(e);
        },
    };
    let write_allow = match parse_write_list(parser, &opts.allow_write) {
        Ok(v) => v,
        Err(e) => {
            return Err(e);
        },
    };
    let net_allow = match parse_net_list(parser, &opts.allow_net) {
        Ok(v) => v,
        Err(e) => {
            return Err(e);
        },
    };
    let net_deny = match parse_net_list(parser, &opts.deny_net) {
        Ok(v) => v,
        Err(e) => {
            return Err(e);
        },
    };
    let env_allow = match parse_env_list(parser, &opts.allow_env) {
        Ok(v) => v,
        Err(e) => {
            return Err(e);
        },
    };
    let env_deny = match parse_env_list(parser, &opts.deny_env) {
        Ok(v) => v,
        Err(e) => {
            return Err(e);
        },
    };
    let sys_allow = match parse_sys_list(parser, &opts.allow_sys) {
        Ok(v) => v,
        Err(e) => {
            return Err(e);
        },
    };
    let sys_deny = match parse_sys_list(parser, &opts.deny_sys) {
        Ok(v) => v,
        Err(e) => {
            return Err(e);
        },
    };
    let run_deny = match parse_deny_run_list(parser, &opts.deny_run) {
        Ok(v) => v,
        Err(e) => {
            return Err(e);
        },
    };
    let ffi_allow = match parse_ffi_list(parser, &opts.allow_ffi) {
        Ok(v) => v,
        Err(e) => {
            return Err(e);
        },
    };
    let ffi_deny = match parse_ffi_list(parser, &opts.deny_ffi) {
        Ok(v) => v,
        Err(e) => {
            return Err(e);
        },
    };
    let import_allow = match parse_import_list(parser, &opts.allow_import) {
        Ok(v) => v,
        Err(e) => {
            return Err(e);
        },
    };
    Ok(
        ParsedOptionLists {
            read_allow,
            read_deny,
            write_allow,
            write_deny: deny_write_final,
            net_allow,
            net_deny,
            env_allow,
            env_deny,
            sys_allow,
            sys_deny,
            run_allow: allow_run_final,
            run_deny,
            ffi_allow,
            ffi_deny,
            import_allow,
        },
    )
}

impl Permissions {
    /// Builds the permission set the options describe: per kind, the
    /// allow and deny strings are parsed by the collaborator and become
    /// the granted and flag-denied lists, a present-but-empty list
    /// setting the matching global flag instead. Every resolved allow-run
    /// executable is also flag-denied for writing, so execute access
    /// never implies write access. An allow-run list none of whose
    /// entries resolved grants nothing; an empty command name in it is
    /// rejected outright. With no lists given at all, nothing is parsed
    /// and construction cannot fail.
    pub fn from_options<TParser: PermissionDescriptorParser>(
        parser: &TParser,
        opts: &PermissionsOptions,
    ) -> (r: Result<Permissions, PermError>)
        ensures
            match r {
                Ok(p) => {
                    &&& !has_empty_run_entry(*opts)
                    &&& p.read.prompt == opts.prompt
                    &&& p.write.prompt == opts.prompt
                    &&& p.net.prompt == opts.prompt
                    &&& p.env.prompt == opts.prompt
                    &&& p.sys.prompt == opts.prompt
                    &&& p.run.prompt == opts.prompt
                    &&& p.ffi.prompt == opts.prompt
                    &&& p.import.prompt == opts.prompt
                    &&& p.all.name@ == "all"@
                    &&& p.all.prompt == false
                    &&& p.all.state == (if opts.allow_all {
                        PermissionState::Granted
                    } else {
                        PermissionState::Prompt
                    })
                    &&& p.read.granted_global == present_and_empty(opts.allow_read)
                    &&& p.read.flag_denied_global == present_and_empty(opts.deny_read)
                    &&& p.write.granted_global == present_and_empty(opts.allow_write)
                    &&& p.net.granted_global == present_and_empty(opts.allow_net)
                    &&& p.net.flag_denied_global == present_and_empty(opts.deny_net)
                    &&& p.env.granted_global == present_and_empty(opts.allow_env)
                    &&& p.env.flag_denied_global == present_and_empty(opts.deny_env)
                    &&& p.sys.granted_global == present_and_empty(opts.allow_sys)
                    &&& p.sys.flag_denied_global == present_and_empty(opts.deny_sys)
                    &&& p.run.granted_global == present_and_empty(opts.allow_run)
                    &&& p.run.flag_denied_global == present_and_empty(opts.deny_run)
                    &&& p.ffi.granted_global == present_and_empty(opts.allow_ffi)
                    &&& p.ffi.flag_denied_global == present_and_empty(opts.deny_ffi)
                    &&& p.import.granted_global == present_and_empty(opts.allow_import)
                    &&& p.import.flag_denied_global == false
                    &&& p.import.flag_denied_list@.len() == 0
                    &&& p.read.prompt_denied_global == false
                    &&& p.read.prompt_denied_list@.len() == 0
                    &&& p.write.prompt_denied_global == false
                    &&& p.write.prompt_denied_list@.len() == 0
                    &&& p.net.prompt_denied_global == false
                    &&& p.net.prompt_denied_list@.len() == 0
                    &&& p.env.prompt_denied_global == false
                    &&& p.env.prompt_denied_list@.len() == 0
                    &&& p.sys.prompt_denied_global == false
                    &&& p.sys.prompt_denied_list@.len() == 0
                    &&& p.run.prompt_denied_global == false
                    &&& p.run.prompt_denied_list@.len() == 0
                    &&& p.ffi.prompt_denied_global == false
                    &&& p.ffi.prompt_denied_list@.len() == 0
                    &&& p.import.prompt_denied_global == false
                    &&& p.import.prompt_denied_list@.len() == 0
                    &&& run_write_coupled(p)
                },
                Err(_) => !no_lists_given(*opts),
            },
    {
        let pl = match parse_option_lists(parser, opts) {
            Ok(v) => v,
            Err(e) => {
                return Err(e);
            },
        };
        let ghost g_run_allow = pl.run_allow;
        let ghost g_write_deny = pl.write_deny;
        let ParsedOptionLists {
            read_allow,
            read_deny,
            write_allow,
            write_deny,
            net_allow,
            net_deny,
            env_allow,
            env_deny,
            sys_allow,
            sys_deny,
            run_allow,
            run_deny,
            ffi_allow,
            ffi_deny,
            import_allow,
        } = pl;
        let read = match Permissions::new_unary::<ReadQueryDescriptor>(
            read_allow,
            read_deny,
            opts.prompt,
        ) {
            Ok(v) => v,
            Err(e) => {
                return Err(e);
            },
        };
        let write = match Permissions::new_unary::<WriteQueryDescriptor>(
            write_allow,
            write_deny,
            opts.prompt,
        ) {
            Ok(v) => v,
            Err(e) => {
                return Err(e);
            },
        };
        let net = match Permissions::new_unary::<NetDescriptor>(net_allow, net_deny, opts.prompt) {
            Ok(v) => v,
            Err(e) => {
                return Err(e);
            },
        };
        let env = match Permissions::new_unary::<EnvDescriptor>(env_allow, env_deny, opts.prompt) {
            Ok(v) => v,
            Err(e) => {
                return Err(e);
            },
        };
        let sys = match Permissions::new_unary::<SysDescriptor>(sys_allow, sys_deny, opts.prompt) {
            Ok(v) => v,
            Err(e) => {
                return Err(e);
            },
        };
        let run = match Permissions::new_unary::<RunQueryDescriptor>(
            run_allow,
            run_deny,
            opts.prompt,
        ) {
            Ok(v) => v,
            Err(e) => {
                return Err(e);
            },
        };
        let ffi = match Permissions::new_unary::<FfiQueryDescriptor>(
            ffi_allow,
            ffi_deny,
            opts.prompt,
        ) {
            Ok(v) => v,
            Err(e) => {
                return Err(e);
            },
        };
        let import = match Permissions::new_unary::<ImportDescriptor>(
            import_allow,
            None,
            opts.prompt,
        ) {
            Ok(v) => v,
            Err(e) => {
                return Err(e);
            },
        };
        let p = Permissions {
            read,
            write,
            net,
            env,
            sys,
            run,
            ffi,
            import,
            all: Permissions::new_all(opts.allow_all),
        };
        proof {
            let rl = match g_run_allow {
                Some(v) => v@,
                None => Seq::<AllowRunDescriptor>::empty(),
            };
            let wl = match g_write_deny {
                Some(v) => v@,
                None => Seq::<WriteDescriptor>::empty(),
            };
            assert(p.run.granted_list@ == rl);
            assert(p.write.flag_denied_list@ == wl);
            assert(run_write_coupled(p));
        }
        Ok(p)
    }
}

/// Resolves each allow-run entry through the parser. An empty command
/// name is an error; an entry that fails to resolve is skipped.
fn resolve_allow_run<TParser: PermissionDescriptorParser>(
    parser: &TParser,
    raw: &Vec<String>,
) -> (r: Result<Vec<AllowRunDescriptor>, PermError>)
    ensures
        r matches Ok(v) ==> (raw@.len() == 0 ==> v@.len() == 0),
        r is Ok ==> forall|i: int| 0 <= i && i < raw@.len() ==> (#[trigger] raw@[i])@.len() > 0,
{
    let n = raw.len();
    let mut out: Vec<AllowRunDescriptor> = Vec::new();
    let mut i: usize = 0;
    while i < n
        invariant
            n == raw@.len(),
            i <= n,
            n == 0 ==> out@.len() == 0,
            forall|j: int| 0 <= j && j < i ==> (#[trigger] raw@[j])@.len() > 0,
        decreases n - i,
    {
        if raw[i].as_str().is_empty() {
            return Err(
                generic_error(
                    crate::strings::str_copy("Empty command name not allowed in --allow-run=..."),
                ),
            );
        }
        match parser.parse_allow_run_descriptor(raw[i].as_str()) {
            Ok(AllowRunDescriptorParseResult::Descriptor(d)) => {
                out.push(d);
            },
            Ok(AllowRunDescriptorParseResult::Unresolved(_)) => {},
            Err(e) => {
                return Err(e);
            },
        }
        i += 1;
    }
    Ok(out)
}

/// What a child scope asks for, per kind: inherit, the whole kind,
/// nothing, or an explicit list of raw descriptor strings.
#[derive(Debug, PartialEq, Eq)]
pub enum ChildUnaryPermissionArg {
    Inherit,
    Granted,
    NotGranted,
    GrantedList(Vec<String>),
}

/// What a child scope asks for, for every kind at once.
#[derive(Debug, PartialEq, Eq)]
pub struct ChildPermissionsArg {
    pub env: ChildUnaryPermissionArg,
    pub net: ChildUnaryPermissionArg,
    pub ffi: ChildUnaryPermissionArg,
    pub import: ChildUnaryPermissionArg,
    pub read: ChildUnaryPermissionArg,
    pub run: ChildUnaryPermissionArg,
    pub sys: ChildUnaryPermissionArg,
    pub write: ChildUnaryPermissionArg,
}

impl ChildPermissionsArg {
    /// Every kind inherited from the parent.
    pub fn inherit() -> (r: Self)
        ensures
            r.env is Inherit,
            r.net is Inherit,
            r.ffi is Inherit,
            r.import is Inherit,
            r.read is Inherit,
            r.run is Inherit,
            r.sys is Inherit,
            r.write is Inherit,
    {
        ChildPermissionsArg {
            env: ChildUnaryPermissionArg::Inherit,
            net: ChildUnaryPermissionArg::Inherit,
            ffi: ChildUnaryPermissionArg::Inherit,
            import: ChildUnaryPermissionArg::Inherit,
            read: ChildUnaryPermissionArg::Inherit,
            run: ChildUnaryPermissionArg::Inherit,
            sys: ChildUnaryPermissionArg::Inherit,
            write: ChildUnaryPermissionArg::Inherit,
        }
    }

    /// Every kind granted nothing.
    pub fn none() -> (r: Self)
        ensures
            r.env is NotGranted,
            r.net is NotGranted,
            r.ffi is NotGranted,
            r.import is NotGranted,
            r.read is NotGranted,
            r.run is NotGranted,
            r.sys is NotGranted,
            r.write is NotGranted,
    {
        ChildPermissionsArg {
            env: ChildUnaryPermissionArg::NotGranted,
            net: ChildUnaryPermissionArg::NotGranted,
            ffi: ChildUnaryPermissionArg::NotGranted,
            import: ChildUnaryPermissionArg::NotGranted,
            read: ChildUnaryPermissionArg::NotGranted,
            run: ChildUnaryPermissionArg::NotGranted,
            sys: ChildUnaryPermissionArg::NotGranted,
            write: ChildUnaryPermissionArg::NotGranted,
        }
    }
}


/// Parses each entry of an optional string list through the collaborator;
/// an absent list stays absent, and the first parse failure wins.
fn parse_read_list<TParser: PermissionDescriptorParser>(
    parser: &TParser,
    items: &Option<Vec<String>>,
) -> (r: Result<Option<Vec<ReadDescriptor>>, PermError>)
    ensures
        match r {
            Ok(opt) => match items {
                Some(src) => opt matches Some(v) && v@.len() == src@.len(),
                None => opt is None,
            },
            Err(_) => items is Some,
        },
{
    match items {
        Some(src) => {
            let n = src.len();
            let mut out: Vec<ReadDescriptor> = Vec::new();
            let mut i: usize = 0;
            while i < n
                invariant
                    items is Some,
                    n == src@.len(),
                    i <= n,
                    out@.len() == i,
                decreases n - i,
            {
                match parser.parse_read_descriptor(src[i].as_str()) {
                    Ok(d) => {
                        out.push(d);
                    },
                    Err(e) => {
                        return Err(e);
                    },
                }
                i += 1;
            }
            Ok(Some(out))
        },
        None => Ok(None),
    }
}

/// Parses each entry of an optional string list through the collaborator;
/// an absent list stays absent, and the first parse failure wins.
fn parse_write_list<TParser: PermissionDescriptorParser>(
    parser: &TParser,
    items: &Option<Vec<String>>,
) -> (r: Result<Option<Vec<WriteDescriptor>>, PermError>)
    ensures
        match r {
            Ok(opt) => match items {
                Some(src) => opt matches Some(v) && v@.len() == src@.len(),
                None => opt is None,
            },
            Err(_) => items is Some,
        },
{
    match items {
        Some(src) => {
            let n = src.len();
            let mut out: Vec<WriteDescriptor> = Vec::new();
            let mut i: usize = 0;
            while i < n
                invariant
                    items is Some,
                    n == src@.len(),
                    i <= n,
                    out@.len() == i,
                decreases n - i,
            {
                match parser.parse_write_descriptor(src[i].as_str()) {
                    Ok(d) => {
                        out.push(d);
                    },
                    Err(e) => {
                        return Err(e);
                    },
                }
                i += 1;
            }
            Ok(Some(out))
        },
        None => Ok(None),
    }
}

/// Parses each entry of an optional string list through the collaborator;
/// an absent list stays absent, and the first parse failure wins.
fn parse_net_list<TParser: PermissionDescriptorParser>(
    parser: &TParser,
    items: &Option<Vec<String>>,
) -> (r: Result<Option<Vec<NetDescriptor>>, PermError>)
    ensures
        match r {
            Ok(opt) => match items {
                Some(src) => opt matches Some(v) && v@.len() == src@.len(),
                None => opt is None,
            },
            Err(_) => items is Some,
        },
{
    match items {
        Some(src) => {
            let n = src.len();
            let mut out: Vec<NetDescriptor> = Vec::new();
            let mut i: usize = 0;
            while i < n
                invariant
                    items is Some,
                    n == src@.len(),
                    i <= n,
                    out@.len() == i,
                decreases n - i,
            {
                match parser.parse_net_descriptor(src[i].as_str()) {
                    Ok(d) => {
                        out.push(d);
                    },
                    Err(e) => {
                        return Err(e);
                    },
                }
                i += 1;
            }
            Ok(Some(out))
        },
        None => Ok(None),
    }
}

/// Parses each entry of an optional string list through the collaborator;
/// an absent list stays absent, and the first parse failure wins.
fn parse_env_list<TParser: PermissionDescriptorParser>(
    parser: &TParser,
    items: &Option<Vec<String>>,
) -> (r: Result<Option<Vec<EnvDescriptor>>, PermError>)
    ensures
        match r {
            Ok(opt) => match items {
                Some(src) => opt matches Some(v) && v@.len() == src@.len(),
                None => opt is None,
            },
            Err(_) => items is Some,
        },
{
    match items {
        Some(src) => {
            let n = src.len();
            let mut out: Vec<EnvDescriptor> = Vec::new();
            let mut i: usize = 0;
            while i < n
                invariant
                    items is Some,
                    n == src@.len(),
                    i <= n,
                    out@.len() == i,
                decreases n - i,
            {
                match parser.parse_env_descriptor(src[i].as_str()) {
                    Ok(d) => {
                        out.push(d);
                    },
                    Err(e) => {
                        return Err(e);
                    },
                }
                i += 1;
            }
            Ok(Some(out))
        },
        None => Ok(None),
    }
}

/// Parses each entry of an optional string list through the collaborator;
/// an absent list stays absent, and the first parse failure wins.
fn parse_sys_list<TParser: PermissionDescriptorParser>(
    parser: &TParser,
    items: &Option<Vec<String>>,
) -> (r: Result<Option<Vec<SysDescriptor>>, PermError>)
    ensures
        match r {
            Ok(opt) => match items {
                Some(src) => opt matches Some(v) && v@.len() == src@.len(),
                None => opt is None,
            },
            Err(_) => items is Some,
        },
{
    match items {
        Some(src) => {
            let n = src.len();
            let mut out: Vec<SysDescriptor> = Vec::new();
            let mut i: usize = 0;
            while i < n
                invariant
                    items is Some,
                    n == src@.len(),
                    i <= n,
                    out@.len() == i,
                decreases n - i,
            {
                match parser.parse_sys_descriptor(src[i].as_str()) {
                    Ok(d) => {
                        out.push(d);
                    },
                    Err(e) => {
                        return Err(e);
                    },
                }
                i += 1;
            }
            Ok(Some(out))
        },
        None => Ok(None),
    }
}

/// Parses each entry of an optional string list through the collaborator;
/// an absent list stays absent, and the first parse failure wins.
fn parse_ffi_list<TParser: PermissionDescriptorParser>(
    parser: &TParser,
    items: &Option<Vec<String>>,
) -> (r: Result<Option<Vec<FfiDescriptor>>, PermError>)
    ensures
        match r {
            Ok(opt) => match items {
                Some(src) => opt matches Some(v) && v@.len() == src@.len(),
                None => opt is None,
            },
            Err(_) => items is Some,
        },
{
    match items {
        Some(src) => {
            let n = src.len();
            let mut out: Vec<FfiDescriptor> = Vec::new();
            let mut i: usize = 0;
            while i < n
                invariant
                    items is Some,
                    n == src@.len(),
                    i <= n,
                    out@.len() == i,
                decreases n - i,
            {
                match parser.parse_ffi_descriptor(src[i].as_str()) {
                    Ok(d) => {
                        out.push(d);
                    },
                    Err(e) => {
                        return Err(e);
                    },
                }
                i += 1;
            }
            Ok(Some(out))
        },
        None => Ok(None),
    }
}

/// Parses each entry of an optional string list through the collaborator;
/// an absent list stays absent, and the first parse failure wins.
fn parse_import_list<TParser: PermissionDescriptorParser>(
    parser: &TParser,
    items: &Option<Vec<String>>,
) -> (r: Result<Option<Vec<ImportDescriptor>>, PermError>)
    ensures
        match r {
            Ok(opt) => match items {
                Some(src) => opt matches Some(v) && v@.len() == src@.len(),
                None => opt is None,
            },
            Err(_) => items is Some,
        },
{
    match items {
        Some(src) => {
            let n = src.len();
            let mut out: Vec<ImportDescriptor> = Vec::new();
            let mut i: usize = 0;
            while i < n
                invariant
                    items is Some,
                    n == src@.len(),
                    i <= n,
                    out@.len() == i,
                decreases n - i,
            {
                match parser.parse_import_descriptor(src[i].as_str()) {
                    Ok(d) => {
                        out.push(d);
                    },
                    Err(e) => {
                        return Err(e);
                    },
                }
                i += 1;
            }
            Ok(Some(out))
        },
        None => Ok(None),
    }
}

/// Parses each entry of an optional string list through the collaborator;
/// an absent list stays absent, and the first parse failure wins.
fn parse_deny_run_list<TParser: PermissionDescriptorParser>(
    parser: &TParser,
    items: &Option<Vec<String>>,
) -> (r: Result<Option<Vec<DenyRunDescriptor>>, PermError>)
    ensures
        match r {
            Ok(opt) => match items {
                Some(src) => opt matches Some(v) && v@.len() == src@.len(),
                None => opt is None,
            },
            Err(_) => items is Some,
        },
{
    match items {
        Some(src) => {
            let n = src.len();
            let mut out: Vec<DenyRunDescriptor> = Vec::new();
            let mut i: usize = 0;
            while i < n
                invariant
                    items is Some,
                    n == src@.len(),
                    i <= n,
                    out@.len() == i,
                decreases n - i,
            {
                match parser.parse_deny_run_descriptor(src[i].as_str()) {
                    Ok(d) => {
                        out.push(d);
                    },
                    Err(e) => {
                        return Err(e);
                    },
                }
                i += 1;
            }
            Ok(Some(out))
        },
        None => Ok(None),
    }
}

} // verus!
