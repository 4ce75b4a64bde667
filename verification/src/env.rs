//! The environment-variable descriptor kind: exact name matching.
//!
//! Names are matched exactly as stored. A host whose environment is
//! case-insensitive normalizes names in its descriptor parser, at
//! construction time — never at comparison time.

use vstd::prelude::*;

use crate::query::QueryDescriptor;
use crate::strings::{str_copy, str_eq};
use crate::errors::PermError;
use crate::state::{AllowPartial, PermissionPrompter, PermissionState, PromptResponse};
use crate::unary::UnaryPermission;

verus! {

/// An environment variable name, as the host convention normalized it.
#[derive(Debug, PartialEq, Eq)]
pub struct EnvVarName {
    pub inner: String,
}

impl View for EnvVarName {
    type V = Seq<char>;

    open spec fn view(&self) -> Seq<char> {
        self.inner@
    }
}

impl EnvVarName {
    /// A name, stored as given.
    pub fn new(env: String) -> (r: Self)
        ensures
            r@ == env@,
    {
        EnvVarName { inner: env }
    }

    /// The stored name.
    pub fn text(&self) -> (r: &str)
        ensures
            r@ == self@,
    {
        self.inner.as_str()
    }
}

/// An environment-variable query, allow entry and deny entry: one name.
#[derive(Debug, PartialEq, Eq)]
pub struct EnvDescriptor(pub EnvVarName);

impl View for EnvDescriptor {
    type V = Seq<char>;

    open spec fn view(&self) -> Seq<char> {
        self.0@
    }
}

impl Clone for EnvDescriptor {
    fn clone(&self) -> (r: Self)
        ensures
            r@ == self@,
    {
        EnvDescriptor(EnvVarName { inner: str_copy(self.0.inner.as_str()) })
    }
}

impl EnvDescriptor {
    /// A descriptor for the given variable name.
    pub fn new(env: String) -> (r: Self)
        ensures
            r@ == env@,
    {
        EnvDescriptor(EnvVarName::new(env))
    }

    /// The variable name.
    pub fn name_text(&self) -> (r: &str)
        ensures
            r@ == self@,
    {
        self.0.text()
    }
}

impl QueryDescriptor for EnvDescriptor {
    type AllowDesc = EnvDescriptor;

    type DenyDesc = EnvDescriptor;

    open spec fn spec_matches_allow(q: Seq<char>, a: Seq<char>) -> bool {
        q == a
    }

    open spec fn spec_matches_deny(q: Seq<char>, d: Seq<char>) -> bool {
        q == d
    }

    open spec fn spec_revokes(q: Seq<char>, a: Seq<char>) -> bool {
        q == a
    }

    open spec fn spec_stronger_than_deny(q: Seq<char>, d: Seq<char>) -> bool {
        q == d
    }

    open spec fn spec_overlaps_deny(q: Seq<char>, d: Seq<char>) -> bool {
        false
    }

    open spec fn spec_as_allow(q: Seq<char>) -> Option<Seq<char>> {
        Some(q)
    }

    open spec fn spec_as_deny(q: Seq<char>) -> Seq<char> {
        q
    }

    open spec fn spec_from_allow(a: Seq<char>) -> Seq<char> {
        a
    }

    open spec fn spec_flag_name() -> Seq<char> {
        "env"@
    }

    open spec fn spec_display_name(q: Seq<char>) -> Seq<char> {
        q
    }

    open spec fn spec_check_non_partial() -> bool {
        false
    }

    fn flag_name() -> (r: &'static str) {
        "env"
    }

    fn check_non_partial() -> (r: bool) {
        false
    }

    fn display_name(&self) -> String {
        str_copy(self.0.inner.as_str())
    }

    fn from_allow(allow: &EnvDescriptor) -> (r: Self) {
        allow.clone()
    }

    fn as_allow(&self) -> (r: Option<EnvDescriptor>) {
        Some(self.clone())
    }

    fn as_deny(&self) -> (r: EnvDescriptor) {
        self.clone()
    }

    fn matches_allow(&self, other: &EnvDescriptor) -> (r: bool) {
        str_eq(self.0.inner.as_str(), other.0.inner.as_str())
    }

    fn matches_deny(&self, other: &EnvDescriptor) -> (r: bool) {
        str_eq(self.0.inner.as_str(), other.0.inner.as_str())
    }

    fn revokes(&self, other: &EnvDescriptor) -> (r: bool) {
        str_eq(self.0.inner.as_str(), other.0.inner.as_str())
    }

    fn stronger_than_deny(&self, other: &EnvDescriptor) -> (r: bool) {
        str_eq(self.0.inner.as_str(), other.0.inner.as_str())
    }

    fn overlaps_deny(&self, other: &EnvDescriptor) -> (r: bool) {
        false
    }

    fn clone_allow(a: &EnvDescriptor) -> (r: EnvDescriptor) {
        a.clone()
    }

    fn clone_deny(d: &EnvDescriptor) -> (r: EnvDescriptor) {
        d.clone()
    }

    proof fn lemma_as_allow_self_matches(q: Seq<char>, a: Seq<char>) {
    }
}


/// The view of an optional variable name.
pub open spec fn env_view(env: Option<&str>) -> Option<Seq<char>> {
    match env {
        Some(e) => Some(e@),
        None => None,
    }
}

impl UnaryPermission<EnvDescriptor> {
    /// The state of a variable (or of the whole kind, for `None`),
    /// reporting grants that a flag-denial partly overlaps as
    /// `GrantedPartial`.
    pub fn query(&self, env: Option<&str>) -> (r: PermissionState)
        ensures
            r == self.spec_query_desc(env_view(env), AllowPartial::TreatAsPartialGranted),
    {
        match env {
            Some(e) => {
                let d = EnvDescriptor::new(str_copy(e));
                self.query_desc(Some(&d), AllowPartial::TreatAsPartialGranted)
            },
            None => self.query_desc(None, AllowPartial::TreatAsPartialGranted),
        }
    }

    /// Asks for the permission now: prompts whenever the state allows it,
    /// and memoizes the answer.
    pub fn request<TPrompter: PermissionPrompter>(
        &mut self,
        env: Option<&str>,
        prompter: &mut TPrompter,
    ) -> (r: PermissionState)
        ensures
            exists|resp: Option<PromptResponse>|
                #[trigger] Self::spec_request_post(
                    *old(self),
                    *final(self),
                    env_view(env),
                    r,
                    resp,
                ),
    {
        match env {
            Some(e) => {
                let d = EnvDescriptor::new(str_copy(e));
                self.request_desc(Some(&d), prompter)
            },
            None => self.request_desc(None, prompter),
        }
    }

    /// Revokes a variable's grants, or — for `None` — clears the granted
    /// state entirely. Deny state is untouched.
    pub fn revoke(&mut self, env: Option<&str>) -> (r: PermissionState)
        ensures
            Self::frame_deny_and_prompt(*old(self), *final(self)),
            match env_view(env) {
                Some(qv) => final(self).granted_global == old(self).granted_global
                    && final(self).granted_list@ == Self::spec_revoke_filter(
                    qv,
                    old(self).granted_list@,
                ),
                None => final(self).granted_global == false && final(self).granted_list@.len()
                    == 0,
            },
            r == final(self).spec_query_desc(env_view(env), AllowPartial::TreatAsPartialGranted),
    {
        match env {
            Some(e) => {
                let d = EnvDescriptor::new(str_copy(e));
                self.revoke_desc(Some(&d))
            },
            None => self.revoke_desc(None),
        }
    }

    /// Checks one variable, prompting if needed and memoizing the answer.
    pub fn check<TPrompter: PermissionPrompter>(
        &mut self,
        env: &str,
        api_name: Option<&str>,
        prompter: &mut TPrompter,
    ) -> (r: Result<(), PermError>)
        ensures
            Self::spec_checked_outcome(*old(self), *final(self), Some(env@), false, true, r),
    {
        if self.is_allow_all() {
            return Ok(());
        }
        let d = EnvDescriptor::new(str_copy(env));
        self.check_desc(Some(&d), false, api_name, prompter)
    }

    /// Checks the whole kind, prompting if needed.
    pub fn check_all<TPrompter: PermissionPrompter>(
        &mut self,
        prompter: &mut TPrompter,
    ) -> (r: Result<(), PermError>)
        ensures
            Self::spec_checked_outcome(*old(self), *final(self), None, false, true, r),
    {
        if self.is_allow_all() {
            return Ok(());
        }
        self.check_desc(None, false, None, prompter)
    }
}

} // verus!
