//! The filesystem-like descriptor kinds: read, write, and FFI (dynamic
//! library loading). All three match by path containment: a query falls
//! inside an entry when the entry's path is an ancestor of (or equal to)
//! the query's resolved path.

use vstd::prelude::*;

use crate::path::{path_contains, path_display_model, PathRepr};
use crate::query::QueryDescriptor;
use crate::strings::str_copy;
use crate::errors::PermError;
use crate::query::view_opt;
use crate::state::{AllowPartial, PermissionPrompter, PermissionState, PromptResponse};
use crate::unary::UnaryPermission;

verus! {

/// An incoming path request: the text as the caller wrote it (for
/// display), and the resolved, normalized absolute path (for matching).
#[derive(Debug, PartialEq, Eq)]
pub struct PathQueryDescriptor {
    pub requested: String,
    pub resolved: PathRepr,
}

/// The mathematical shape of a path query.
pub struct PathQueryModel {
    pub requested: Seq<char>,
    pub resolved: Seq<Seq<char>>,
}

impl View for PathQueryDescriptor {
    type V = PathQueryModel;

    open spec fn view(&self) -> PathQueryModel {
        PathQueryModel { requested: self.requested@, resolved: self.resolved@ }
    }
}

impl PathQueryDescriptor {
    /// A path query from its parts.
    pub fn new(requested: String, resolved: PathRepr) -> (r: PathQueryDescriptor)
        ensures
            r@ == (PathQueryModel { requested: requested@, resolved: resolved@ }),
    {
        PathQueryDescriptor { requested, resolved }
    }

    /// An exact copy of this query.
    pub fn duplicate(&self) -> (r: PathQueryDescriptor)
        ensures
            r@ == self@,
    {
        PathQueryDescriptor {
            requested: str_copy(self.requested.as_str()),
            resolved: self.resolved.duplicate(),
        }
    }

    /// This path request, as an FFI query.
    pub fn into_ffi(self) -> (r: FfiQueryDescriptor)
        ensures
            r@ == self@,
    {
        FfiQueryDescriptor(self)
    }

    /// This path request, as a read query.
    pub fn into_read(self) -> (r: ReadQueryDescriptor)
        ensures
            r@ == self@,
    {
        ReadQueryDescriptor(self)
    }

    /// This path request, as a write query.
    pub fn into_write(self) -> (r: WriteQueryDescriptor)
        ensures
            r@ == self@,
    {
        WriteQueryDescriptor(self)
    }
}

/// A granted or denied read scope: an absolute, normalized path.
#[derive(Debug, PartialEq, Eq)]
pub struct ReadDescriptor(pub PathRepr);

impl Clone for ReadDescriptor {
    fn clone(&self) -> (r: Self)
        ensures
            r@ == self@,
    {
        ReadDescriptor(self.0.duplicate())
    }
}

impl View for ReadDescriptor {
    type V = Seq<Seq<char>>;

    open spec fn view(&self) -> Seq<Seq<char>> {
        self.0@
    }
}

/// A read request.
#[derive(Debug, PartialEq, Eq)]
pub struct ReadQueryDescriptor(pub PathQueryDescriptor);

impl View for ReadQueryDescriptor {
    type V = PathQueryModel;

    open spec fn view(&self) -> PathQueryModel {
        self.0@
    }
}

impl QueryDescriptor for ReadQueryDescriptor {
    type AllowDesc = ReadDescriptor;

    type DenyDesc = ReadDescriptor;

    open spec fn spec_matches_allow(q: PathQueryModel, a: Seq<Seq<char>>) -> bool {
        path_contains(a, q.resolved)
    }

    open spec fn spec_matches_deny(q: PathQueryModel, d: Seq<Seq<char>>) -> bool {
        path_contains(d, q.resolved)
    }

    open spec fn spec_revokes(q: PathQueryModel, a: Seq<Seq<char>>) -> bool {
        path_contains(a, q.resolved)
    }

    open spec fn spec_stronger_than_deny(q: PathQueryModel, d: Seq<Seq<char>>) -> bool {
        path_contains(q.resolved, d)
    }

    open spec fn spec_overlaps_deny(q: PathQueryModel, d: Seq<Seq<char>>) -> bool {
        path_contains(q.resolved, d)
    }

    open spec fn spec_as_allow(q: PathQueryModel) -> Option<Seq<Seq<char>>> {
        Some(q.resolved)
    }

    open spec fn spec_as_deny(q: PathQueryModel) -> Seq<Seq<char>> {
        q.resolved
    }

    open spec fn spec_from_allow(allow: Seq<Seq<char>>) -> PathQueryModel {
        PathQueryModel { requested: path_display_model(allow), resolved: allow }
    }

    open spec fn spec_flag_name() -> Seq<char> {
        "read"@
    }

    open spec fn spec_display_name(q: PathQueryModel) -> Seq<char> {
        q.requested
    }

    open spec fn spec_check_non_partial() -> bool {
        true
    }

    fn flag_name() -> (r: &'static str) {
        "read"
    }

    fn check_non_partial() -> (r: bool) {
        true
    }

    fn display_name(&self) -> String {
        str_copy(self.0.requested.as_str())
    }

    fn from_allow(allow: &ReadDescriptor) -> (r: Self) {
        ReadQueryDescriptor(
            PathQueryDescriptor { requested: allow.0.display_text(), resolved: allow.0.duplicate() },
        )
    }

    fn as_allow(&self) -> (r: Option<ReadDescriptor>) {
        Some(ReadDescriptor(self.0.resolved.duplicate()))
    }

    fn as_deny(&self) -> (r: ReadDescriptor) {
        ReadDescriptor(self.0.resolved.duplicate())
    }

    fn matches_allow(&self, other: &ReadDescriptor) -> (r: bool) {
        self.0.resolved.starts_with(&other.0)
    }

    fn matches_deny(&self, other: &ReadDescriptor) -> (r: bool) {
        self.0.resolved.starts_with(&other.0)
    }

    fn revokes(&self, other: &ReadDescriptor) -> (r: bool) {
        self.0.resolved.starts_with(&other.0)
    }

    fn stronger_than_deny(&self, other: &ReadDescriptor) -> (r: bool) {
        other.0.starts_with(&self.0.resolved)
    }

    fn overlaps_deny(&self, other: &ReadDescriptor) -> (r: bool) {
        other.0.starts_with(&self.0.resolved)
    }

    fn clone_allow(a: &ReadDescriptor) -> (r: ReadDescriptor) {
        ReadDescriptor(a.0.duplicate())
    }

    fn clone_deny(d: &ReadDescriptor) -> (r: ReadDescriptor) {
        ReadDescriptor(d.0.duplicate())
    }

    proof fn lemma_as_allow_self_matches(q: PathQueryModel, a: Seq<Seq<char>>) {
        assert(q.resolved.subrange(0, q.resolved.len() as int) =~= q.resolved);
    }
}

/// A granted or denied write scope: an absolute, normalized path.
#[derive(Debug, PartialEq, Eq)]
pub struct WriteDescriptor(pub PathRepr);

impl Clone for WriteDescriptor {
    fn clone(&self) -> (r: Self)
        ensures
            r@ == self@,
    {
        WriteDescriptor(self.0.duplicate())
    }
}

impl View for WriteDescriptor {
    type V = Seq<Seq<char>>;

    open spec fn view(&self) -> Seq<Seq<char>> {
        self.0@
    }
}

/// A write request.
#[derive(Debug, PartialEq, Eq)]
pub struct WriteQueryDescriptor(pub PathQueryDescriptor);

impl View for WriteQueryDescriptor {
    type V = PathQueryModel;

    open spec fn view(&self) -> PathQueryModel {
        self.0@
    }
}

impl QueryDescriptor for WriteQueryDescriptor {
    type AllowDesc = WriteDescriptor;

    type DenyDesc = WriteDescriptor;

    open spec fn spec_matches_allow(q: PathQueryModel, a: Seq<Seq<char>>) -> bool {
        path_contains(a, q.resolved)
    }

    open spec fn spec_matches_deny(q: PathQueryModel, d: Seq<Seq<char>>) -> bool {
        path_contains(d, q.resolved)
    }

    open spec fn spec_revokes(q: PathQueryModel, a: Seq<Seq<char>>) -> bool {
        path_contains(a, q.resolved)
    }

    open spec fn spec_stronger_than_deny(q: PathQueryModel, d: Seq<Seq<char>>) -> bool {
        path_contains(q.resolved, d)
    }

    open spec fn spec_overlaps_deny(q: PathQueryModel, d: Seq<Seq<char>>) -> bool {
        path_contains(q.resolved, d)
    }

    open spec fn spec_as_allow(q: PathQueryModel) -> Option<Seq<Seq<char>>> {
        Some(q.resolved)
    }

    open spec fn spec_as_deny(q: PathQueryModel) -> Seq<Seq<char>> {
        q.resolved
    }

    open spec fn spec_from_allow(allow: Seq<Seq<char>>) -> PathQueryModel {
        PathQueryModel { requested: path_display_model(allow), resolved: allow }
    }

    open spec fn spec_flag_name() -> Seq<char> {
        "write"@
    }

    open spec fn spec_display_name(q: PathQueryModel) -> Seq<char> {
        q.requested
    }

    open spec fn spec_check_non_partial() -> bool {
        true
    }

    fn flag_name() -> (r: &'static str) {
        "write"
    }

    fn check_non_partial() -> (r: bool) {
        true
    }

    fn display_name(&self) -> String {
        str_copy(self.0.requested.as_str())
    }

    fn from_allow(allow: &WriteDescriptor) -> (r: Self) {
        WriteQueryDescriptor(
            PathQueryDescriptor { requested: allow.0.display_text(), resolved: allow.0.duplicate() },
        )
    }

    fn as_allow(&self) -> (r: Option<WriteDescriptor>) {
        Some(WriteDescriptor(self.0.resolved.duplicate()))
    }

    fn as_deny(&self) -> (r: WriteDescriptor) {
        WriteDescriptor(self.0.resolved.duplicate())
    }

    fn matches_allow(&self, other: &WriteDescriptor) -> (r: bool) {
        self.0.resolved.starts_with(&other.0)
    }

    fn matches_deny(&self, other: &WriteDescriptor) -> (r: bool) {
        self.0.resolved.starts_with(&other.0)
    }

    fn revokes(&self, other: &WriteDescriptor) -> (r: bool) {
        self.0.resolved.starts_with(&other.0)
    }

    fn stronger_than_deny(&self, other: &WriteDescriptor) -> (r: bool) {
        other.0.starts_with(&self.0.resolved)
    }

    fn overlaps_deny(&self, other: &WriteDescriptor) -> (r: bool) {
        other.0.starts_with(&self.0.resolved)
    }

    fn clone_allow(a: &WriteDescriptor) -> (r: WriteDescriptor) {
        WriteDescriptor(a.0.duplicate())
    }

    fn clone_deny(d: &WriteDescriptor) -> (r: WriteDescriptor) {
        WriteDescriptor(d.0.duplicate())
    }

    proof fn lemma_as_allow_self_matches(q: PathQueryModel, a: Seq<Seq<char>>) {
        assert(q.resolved.subrange(0, q.resolved.len() as int) =~= q.resolved);
    }
}

/// A granted or denied dynamic-library scope: an absolute, normalized path.
#[derive(Debug, PartialEq, Eq)]
pub struct FfiDescriptor(pub PathRepr);

impl Clone for FfiDescriptor {
    fn clone(&self) -> (r: Self)
        ensures
            r@ == self@,
    {
        FfiDescriptor(self.0.duplicate())
    }
}

impl View for FfiDescriptor {
    type V = Seq<Seq<char>>;

    open spec fn view(&self) -> Seq<Seq<char>> {
        self.0@
    }
}

/// A dynamic-library load request.
#[derive(Debug, PartialEq, Eq)]
pub struct FfiQueryDescriptor(pub PathQueryDescriptor);

impl View for FfiQueryDescriptor {
    type V = PathQueryModel;

    open spec fn view(&self) -> PathQueryModel {
        self.0@
    }
}

impl QueryDescriptor for FfiQueryDescriptor {
    type AllowDesc = FfiDescriptor;

    type DenyDesc = FfiDescriptor;

    open spec fn spec_matches_allow(q: PathQueryModel, a: Seq<Seq<char>>) -> bool {
        path_contains(a, q.resolved)
    }

    open spec fn spec_matches_deny(q: PathQueryModel, d: Seq<Seq<char>>) -> bool {
        path_contains(d, q.resolved)
    }

    open spec fn spec_revokes(q: PathQueryModel, a: Seq<Seq<char>>) -> bool {
        path_contains(a, q.resolved)
    }

    open spec fn spec_stronger_than_deny(q: PathQueryModel, d: Seq<Seq<char>>) -> bool {
        path_contains(q.resolved, d)
    }

    open spec fn spec_overlaps_deny(q: PathQueryModel, d: Seq<Seq<char>>) -> bool {
        path_contains(q.resolved, d)
    }

    open spec fn spec_as_allow(q: PathQueryModel) -> Option<Seq<Seq<char>>> {
        Some(q.resolved)
    }

    open spec fn spec_as_deny(q: PathQueryModel) -> Seq<Seq<char>> {
        q.resolved
    }

    open spec fn spec_from_allow(allow: Seq<Seq<char>>) -> PathQueryModel {
        PathQueryModel { requested: path_display_model(allow), resolved: allow }
    }

    open spec fn spec_flag_name() -> Seq<char> {
        "ffi"@
    }

    open spec fn spec_display_name(q: PathQueryModel) -> Seq<char> {
        q.requested
    }

    open spec fn spec_check_non_partial() -> bool {
        true
    }

    fn flag_name() -> (r: &'static str) {
        "ffi"
    }

    fn check_non_partial() -> (r: bool) {
        true
    }

    fn display_name(&self) -> String {
        str_copy(self.0.requested.as_str())
    }

    fn from_allow(allow: &FfiDescriptor) -> (r: Self) {
        FfiQueryDescriptor(
            PathQueryDescriptor { requested: allow.0.display_text(), resolved: allow.0.duplicate() },
        )
    }

    fn as_allow(&self) -> (r: Option<FfiDescriptor>) {
        Some(FfiDescriptor(self.0.resolved.duplicate()))
    }

    fn as_deny(&self) -> (r: FfiDescriptor) {
        FfiDescriptor(self.0.resolved.duplicate())
    }

    fn matches_allow(&self, other: &FfiDescriptor) -> (r: bool) {
        self.0.resolved.starts_with(&other.0)
    }

    fn matches_deny(&self, other: &FfiDescriptor) -> (r: bool) {
        self.0.resolved.starts_with(&other.0)
    }

    fn revokes(&self, other: &FfiDescriptor) -> (r: bool) {
        self.0.resolved.starts_with(&other.0)
    }

    fn stronger_than_deny(&self, other: &FfiDescriptor) -> (r: bool) {
        other.0.starts_with(&self.0.resolved)
    }

    fn overlaps_deny(&self, other: &FfiDescriptor) -> (r: bool) {
        other.0.starts_with(&self.0.resolved)
    }

    fn clone_allow(a: &FfiDescriptor) -> (r: FfiDescriptor) {
        FfiDescriptor(a.0.duplicate())
    }

    fn clone_deny(d: &FfiDescriptor) -> (r: FfiDescriptor) {
        FfiDescriptor(d.0.duplicate())
    }

    proof fn lemma_as_allow_self_matches(q: PathQueryModel, a: Seq<Seq<char>>) {
        assert(q.resolved.subrange(0, q.resolved.len() as int) =~= q.resolved);
    }
}


impl UnaryPermission<ReadQueryDescriptor> {
    /// The state of a query (or of the whole kind, for `None`), reporting
    /// grants that a flag-denial partly overlaps as `GrantedPartial`.
    pub fn query(&self, desc: Option<&ReadQueryDescriptor>) -> (r: PermissionState)
        ensures
            r == self.spec_query_desc(view_opt(desc), AllowPartial::TreatAsPartialGranted),
    {
        self.query_desc(desc, AllowPartial::TreatAsPartialGranted)
    }

    /// Asks for the permission now: prompts whenever the state allows it,
    /// and memoizes the answer.
    pub fn request<TPrompter: PermissionPrompter>(
        &mut self,
        desc: Option<&ReadQueryDescriptor>,
        prompter: &mut TPrompter,
    ) -> (r: PermissionState)
        ensures
            exists|resp: Option<PromptResponse>|
                #[trigger] Self::spec_request_post(
                    *old(self),
                    *final(self),
                    view_opt(desc),
                    r,
                    resp,
                ),
    {
        self.request_desc(desc, prompter)
    }

    /// Revokes a query's grants, or — for `None` — clears the granted
    /// state entirely. Deny state is untouched. Returns the state the
    /// query has afterwards.
    pub fn revoke(&mut self, desc: Option<&ReadQueryDescriptor>) -> (r: PermissionState)
        ensures
            Self::frame_deny_and_prompt(*old(self), *final(self)),
            match view_opt(desc) {
                Some(qv) => final(self).granted_global == old(self).granted_global
                    && final(self).granted_list@ == Self::spec_revoke_filter(
                    qv,
                    old(self).granted_list@,
                ),
                None => final(self).granted_global == false && final(self).granted_list@.len()
                    == 0,
            },
            r == final(self).spec_query_desc(view_opt(desc), AllowPartial::TreatAsPartialGranted),
    {
        self.revoke_desc(desc)
    }

    /// Checks one query, prompting if needed and memoizing the answer.
    pub fn check<TPrompter: PermissionPrompter>(
        &mut self,
        desc: &ReadQueryDescriptor,
        api_name: Option<&str>,
        prompter: &mut TPrompter,
    ) -> (r: Result<(), PermError>)
        ensures
            Self::spec_checked_outcome(
                *old(self),
                *final(self),
                Some(desc@),
                true,
                true,
                r,
            ),
    {
        if self.is_allow_all() {
            return Ok(());
        }
        self.check_desc(Some(desc), true, api_name, prompter)
    }

    /// As `check`, but a flag-denial that only partly overlaps the query's
    /// scope does not turn the outcome into a denial.
    pub fn check_partial<TPrompter: PermissionPrompter>(
        &mut self,
        desc: &ReadQueryDescriptor,
        api_name: Option<&str>,
        prompter: &mut TPrompter,
    ) -> (r: Result<(), PermError>)
        ensures
            Self::spec_checked_outcome(*old(self), *final(self), Some(desc@), false, true, r),
    {
        if self.is_allow_all() {
            return Ok(());
        }
        self.check_desc(Some(desc), false, api_name, prompter)
    }

    /// Checks the whole kind, prompting if needed.
    pub fn check_all<TPrompter: PermissionPrompter>(
        &mut self,
        api_name: Option<&str>,
        prompter: &mut TPrompter,
    ) -> (r: Result<(), PermError>)
        ensures
            Self::spec_checked_outcome(*old(self), *final(self), None, false, true, r),
    {
        if self.is_allow_all() {
            return Ok(());
        }
        self.check_desc(None, false, api_name, prompter)
    }
}

impl UnaryPermission<WriteQueryDescriptor> {
    /// The state of a query (or of the whole kind, for `None`), reporting
    /// grants that a flag-denial partly overlaps as `GrantedPartial`.
    pub fn query(&self, desc: Option<&WriteQueryDescriptor>) -> (r: PermissionState)
        ensures
            r == self.spec_query_desc(view_opt(desc), AllowPartial::TreatAsPartialGranted),
    {
        self.query_desc(desc, AllowPartial::TreatAsPartialGranted)
    }

    /// Asks for the permission now: prompts whenever the state allows it,
    /// and memoizes the answer.
    pub fn request<TPrompter: PermissionPrompter>(
        &mut self,
        desc: Option<&WriteQueryDescriptor>,
        prompter: &mut TPrompter,
    ) -> (r: PermissionState)
        ensures
            exists|resp: Option<PromptResponse>|
                #[trigger] Self::spec_request_post(
                    *old(self),
                    *final(self),
                    view_opt(desc),
                    r,
                    resp,
                ),
    {
        self.request_desc(desc, prompter)
    }

    /// Revokes a query's grants, or — for `None` — clears the granted
    /// state entirely. Deny state is untouched. Returns the state the
    /// query has afterwards.
    pub fn revoke(&mut self, desc: Option<&WriteQueryDescriptor>) -> (r: PermissionState)
        ensures
            Self::frame_deny_and_prompt(*old(self), *final(self)),
            match view_opt(desc) {
                Some(qv) => final(self).granted_global == old(self).granted_global
                    && final(self).granted_list@ == Self::spec_revoke_filter(
                    qv,
                    old(self).granted_list@,
                ),
                None => final(self).granted_global == false && final(self).granted_list@.len()
                    == 0,
            },
            r == final(self).spec_query_desc(view_opt(desc), AllowPartial::TreatAsPartialGranted),
    {
        self.revoke_desc(desc)
    }

    /// Checks one query, prompting if needed and memoizing the answer.
    pub fn check<TPrompter: PermissionPrompter>(
        &mut self,
        desc: &WriteQueryDescriptor,
        api_name: Option<&str>,
        prompter: &mut TPrompter,
    ) -> (r: Result<(), PermError>)
        ensures
            Self::spec_checked_outcome(
                *old(self),
                *final(self),
                Some(desc@),
                true,
                true,
                r,
            ),
    {
        if self.is_allow_all() {
            return Ok(());
        }
        self.check_desc(Some(desc), true, api_name, prompter)
    }

    /// As `check`, but a flag-denial that only partly overlaps the query's
    /// scope does not turn the outcome into a denial.
    pub fn check_partial<TPrompter: PermissionPrompter>(
        &mut self,
        desc: &WriteQueryDescriptor,
        api_name: Option<&str>,
        prompter: &mut TPrompter,
    ) -> (r: Result<(), PermError>)
        ensures
            Self::spec_checked_outcome(*old(self), *final(self), Some(desc@), false, true, r),
    {
        if self.is_allow_all() {
            return Ok(());
        }
        self.check_desc(Some(desc), false, api_name, prompter)
    }

    /// Checks the whole kind, prompting if needed.
    pub fn check_all<TPrompter: PermissionPrompter>(
        &mut self,
        api_name: Option<&str>,
        prompter: &mut TPrompter,
    ) -> (r: Result<(), PermError>)
        ensures
            Self::spec_checked_outcome(*old(self), *final(self), None, false, true, r),
    {
        if self.is_allow_all() {
            return Ok(());
        }
        self.check_desc(None, false, api_name, prompter)
    }
}

impl UnaryPermission<FfiQueryDescriptor> {
    /// The state of a query (or of the whole kind, for `None`), reporting
    /// grants that a flag-denial partly overlaps as `GrantedPartial`.
    pub fn query(&self, desc: Option<&FfiQueryDescriptor>) -> (r: PermissionState)
        ensures
            r == self.spec_query_desc(view_opt(desc), AllowPartial::TreatAsPartialGranted),
    {
        self.query_desc(desc, AllowPartial::TreatAsPartialGranted)
    }

    /// Asks for the permission now: prompts whenever the state allows it,
    /// and memoizes the answer.
    pub fn request<TPrompter: PermissionPrompter>(
        &mut self,
        desc: Option<&FfiQueryDescriptor>,
        prompter: &mut TPrompter,
    ) -> (r: PermissionState)
        ensures
            exists|resp: Option<PromptResponse>|
                #[trigger] Self::spec_request_post(
                    *old(self),
                    *final(self),
                    view_opt(desc),
                    r,
                    resp,
                ),
    {
        self.request_desc(desc, prompter)
    }

    /// Revokes a query's grants, or — for `None` — clears the granted
    /// state entirely. Deny state is untouched. Returns the state the
    /// query has afterwards.
    pub fn revoke(&mut self, desc: Option<&FfiQueryDescriptor>) -> (r: PermissionState)
        ensures
            Self::frame_deny_and_prompt(*old(self), *final(self)),
            match view_opt(desc) {
                Some(qv) => final(self).granted_global == old(self).granted_global
                    && final(self).granted_list@ == Self::spec_revoke_filter(
                    qv,
                    old(self).granted_list@,
                ),
                None => final(self).granted_global == false && final(self).granted_list@.len()
                    == 0,
            },
            r == final(self).spec_query_desc(view_opt(desc), AllowPartial::TreatAsPartialGranted),
    {
        self.revoke_desc(desc)
    }

    /// Checks one query, prompting if needed and memoizing the answer.
    pub fn check<TPrompter: PermissionPrompter>(
        &mut self,
        desc: &FfiQueryDescriptor,
        api_name: Option<&str>,
        prompter: &mut TPrompter,
    ) -> (r: Result<(), PermError>)
        ensures
            Self::spec_checked_outcome(
                *old(self),
                *final(self),
                Some(desc@),
                true,
                true,
                r,
            ),
    {
        if self.is_allow_all() {
            return Ok(());
        }
        self.check_desc(Some(desc), true, api_name, prompter)
    }

    /// As `check`, but the query may be absent (the whole kind), and a
    /// flag-denial that only partly overlaps does not deny.
    pub fn check_partial<TPrompter: PermissionPrompter>(
        &mut self,
        desc: Option<&FfiQueryDescriptor>,
        prompter: &mut TPrompter,
    ) -> (r: Result<(), PermError>)
        ensures
            Self::spec_checked_outcome(*old(self), *final(self), view_opt(desc), false, true, r),
    {
        if self.is_allow_all() {
            return Ok(());
        }
        self.check_desc(desc, false, None, prompter)
    }

    /// Checks the whole kind, prompting if needed.
    pub fn check_all<TPrompter: PermissionPrompter>(
        &mut self,
        prompter: &mut TPrompter,
    ) -> (r: Result<(), PermError>)
        ensures
            Self::spec_checked_outcome(*old(self), *final(self), None, false, true, r),
    {
        if self.is_allow_all() {
            return Ok(());
        }
        self.check_desc(None, false, Some("all"), prompter)
    }
}

} // verus!
