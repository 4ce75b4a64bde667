//! The system-information descriptor kind: a fixed set of recognized
//! categories, matched exactly.

use vstd::prelude::*;

use crate::errors::{type_error, PermError};
use crate::query::QueryDescriptor;
use crate::strings::{str_copy, str_eq};
use crate::query::view_opt;
use crate::state::{AllowPartial, PermissionPrompter, PermissionState, PromptResponse};
use crate::unary::UnaryPermission;

verus! {

/// Whether `s` names a recognized system-information category.
pub open spec fn is_sys_kind(s: Seq<char>) -> bool {
    ||| s == "hostname"@
    ||| s == "osRelease"@
    ||| s == "osUptime"@
    ||| s == "loadavg"@
    ||| s == "networkInterfaces"@
    ||| s == "systemMemoryInfo"@
    ||| s == "uid"@
    ||| s == "gid"@
    ||| s == "cpus"@
    ||| s == "homedir"@
    ||| s == "getegid"@
    ||| s == "username"@
    ||| s == "statfs"@
    ||| s == "getPriority"@
    ||| s == "setPriority"@
}

/// A system-information query, allow entry and deny entry: one recognized
/// category name.
#[derive(Debug, PartialEq, Eq)]
pub struct SysDescriptor(pub String);

impl View for SysDescriptor {
    type V = Seq<char>;

    open spec fn view(&self) -> Seq<char> {
        self.0@
    }
}

impl Clone for SysDescriptor {
    fn clone(&self) -> (r: Self)
        ensures
            r@ == self@,
    {
        SysDescriptor(str_copy(self.0.as_str()))
    }
}

impl SysDescriptor {
    /// Accepts one of the recognized category names; anything else is a
    /// type error.
    pub fn parse(kind: String) -> (r: Result<Self, PermError>)
        ensures
            match r {
                Ok(d) => is_sys_kind(kind@) && d@ == kind@,
                Err(e) => !is_sys_kind(kind@) && e.class@ == "TypeError"@ && e.message@
                    == "unknown system info kind \""@ + kind@ + "\""@,
            },
    {
        let k = kind.as_str();
        if str_eq(k, "hostname") || str_eq(k, "osRelease") || str_eq(k, "osUptime") || str_eq(
            k,
            "loadavg",
        ) || str_eq(k, "networkInterfaces") || str_eq(k, "systemMemoryInfo") || str_eq(k, "uid")
            || str_eq(k, "gid") || str_eq(k, "cpus") || str_eq(k, "homedir") || str_eq(k, "getegid")
            || str_eq(k, "username") || str_eq(k, "statfs") || str_eq(k, "getPriority") || str_eq(
            k,
            "setPriority",
        ) {
            Ok(SysDescriptor(kind))
        } else {
            let mut msg = String::new();
            msg.append("unknown system info kind \"");
            msg.append(kind.as_str());
            msg.append("\"");
            Err(type_error(msg))
        }
    }

    /// The category name.
    pub fn into_string(self) -> (r: String)
        ensures
            r@ == self@,
    {
        self.0
    }
}

impl QueryDescriptor for SysDescriptor {
    type AllowDesc = SysDescriptor;

    type DenyDesc = SysDescriptor;

    open spec fn spec_matches_allow(q: Seq<char>, a: Seq<char>) -> bool {
        q == a
    }

    open spec fn spec_matches_deny(q: Seq<char>, d: Seq<char>) -> bool {
        q == d
    }

    open spec fn spec_revokes(q: Seq<char>, a: Seq<char>) -> bool {
        q == a
    }

    open spec fn spec_stronger_than_deny(q: Seq<char>, d: Seq<char>) -> bool {
        q == d
    }

    open spec fn spec_overlaps_deny(q: Seq<char>, d: Seq<char>) -> bool {
        false
    }

    open spec fn spec_as_allow(q: Seq<char>) -> Option<Seq<char>> {
        Some(q)
    }

    open spec fn spec_as_deny(q: Seq<char>) -> Seq<char> {
        q
    }

    open spec fn spec_from_allow(a: Seq<char>) -> Seq<char> {
        a
    }

    open spec fn spec_flag_name() -> Seq<char> {
        "sys"@
    }

    open spec fn spec_display_name(q: Seq<char>) -> Seq<char> {
        q
    }

    open spec fn spec_check_non_partial() -> bool {
        false
    }

    fn flag_name() -> (r: &'static str) {
        "sys"
    }

    fn check_non_partial() -> (r: bool) {
        false
    }

    fn display_name(&self) -> String {
        str_copy(self.0.as_str())
    }

    fn from_allow(allow: &SysDescriptor) -> (r: Self) {
        allow.clone()
    }

    fn as_allow(&self) -> (r: Option<SysDescriptor>) {
        Some(self.clone())
    }

    fn as_deny(&self) -> (r: SysDescriptor) {
        self.clone()
    }

    fn matches_allow(&self, other: &SysDescriptor) -> (r: bool) {
        str_eq(self.0.as_str(), other.0.as_str())
    }

    fn matches_deny(&self, other: &SysDescriptor) -> (r: bool) {
        str_eq(self.0.as_str(), other.0.as_str())
    }

    fn revokes(&self, other: &SysDescriptor) -> (r: bool) {
        str_eq(self.0.as_str(), other.0.as_str())
    }

    fn stronger_than_deny(&self, other: &SysDescriptor) -> (r: bool) {
        str_eq(self.0.as_str(), other.0.as_str())
    }

    fn overlaps_deny(&self, other: &SysDescriptor) -> (r: bool) {
        false
    }

    fn clone_allow(a: &SysDescriptor) -> (r: SysDescriptor) {
        a.clone()
    }

    fn clone_deny(d: &SysDescriptor) -> (r: SysDescriptor) {
        d.clone()
    }

    proof fn lemma_as_allow_self_matches(q: Seq<char>, a: Seq<char>) {
    }
}


impl UnaryPermission<SysDescriptor> {
    /// The state of a query (or of the whole kind, for `None`), reporting
    /// grants that a flag-denial partly overlaps as `GrantedPartial`.
    pub fn query(&self, desc: Option<&SysDescriptor>) -> (r: PermissionState)
        ensures
            r == self.spec_query_desc(view_opt(desc), AllowPartial::TreatAsPartialGranted),
    {
        self.query_desc(desc, AllowPartial::TreatAsPartialGranted)
    }

    /// Asks for the permission now: prompts whenever the state allows it,
    /// and memoizes the answer.
    pub fn request<TPrompter: PermissionPrompter>(
        &mut self,
        desc: Option<&SysDescriptor>,
        prompter: &mut TPrompter,
    ) -> (r: PermissionState)
        ensures
            exists|resp: Option<PromptResponse>|
                #[trigger] Self::spec_request_post(
                    *old(self),
                    *final(self),
                    view_opt(desc),
                    r,
                    resp,
                ),
    {
        self.request_desc(desc, prompter)
    }

    /// Revokes a query's grants, or — for `None` — clears the granted
    /// state entirely. Deny state is untouched. Returns the state the
    /// query has afterwards.
    pub fn revoke(&mut self, desc: Option<&SysDescriptor>) -> (r: PermissionState)
        ensures
            Self::frame_deny_and_prompt(*old(self), *final(self)),
            match view_opt(desc) {
                Some(qv) => final(self).granted_global == old(self).granted_global
                    && final(self).granted_list@ == Self::spec_revoke_filter(
                    qv,
                    old(self).granted_list@,
                ),
                None => final(self).granted_global == false && final(self).granted_list@.len()
                    == 0,
            },
            r == final(self).spec_query_desc(view_opt(desc), AllowPartial::TreatAsPartialGranted),
    {
        self.revoke_desc(desc)
    }

    /// Checks one query, prompting if needed and memoizing the answer.
    pub fn check<TPrompter: PermissionPrompter>(
        &mut self,
        desc: &SysDescriptor,
        api_name: Option<&str>,
        prompter: &mut TPrompter,
    ) -> (r: Result<(), PermError>)
        ensures
            Self::spec_checked_outcome(
                *old(self),
                *final(self),
                Some(desc@),
                false,
                true,
                r,
            ),
    {
        if self.is_allow_all() {
            return Ok(());
        }
        self.check_desc(Some(desc), false, api_name, prompter)
    }

    /// Checks the whole kind, prompting if needed.
    pub fn check_all<TPrompter: PermissionPrompter>(
        &mut self,
        prompter: &mut TPrompter,
    ) -> (r: Result<(), PermError>)
        ensures
            Self::spec_checked_outcome(*old(self), *final(self), None, false, true, r),
    {
        if self.is_allow_all() {
            return Ok(());
        }
        self.check_desc(None, false, None, prompter)
    }
}

} // verus!
