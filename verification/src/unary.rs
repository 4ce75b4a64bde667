//! The per-kind permission state container: three lists (granted,
//! flag-denied, prompt-denied) with global short-cuts, a prompt-eligibility
//! flag, and the query/check/request/revoke/derive-child operations over
//! them. Denial always wins over grant; flag-denials are permanent;
//! prompt-denials persist until explicitly revoked.

use vstd::prelude::*;

use crate::errors::{escalation_error, PermError};
use crate::query::{view_opt, QueryDescriptor};
use crate::state::{
    state_check_outcome, AllowPartial, PermissionPrompter, PermissionState, PromptResponse,
};

verus! {

/// The view of a kind's allow entries.
pub type AllowViewOf<TQuery> = <<TQuery as QueryDescriptor>::AllowDesc as View>::V;

/// The view of a kind's deny entries.
pub type DenyViewOf<TQuery> = <<TQuery as QueryDescriptor>::DenyDesc as View>::V;

/// The state of one capability kind: what was granted, what the embedder
/// denied at startup (permanent), what the user denied interactively
/// (persistent until revoked), and whether prompting is permitted.
#[derive(Debug, PartialEq, Eq)]
pub struct UnaryPermission<TQuery: QueryDescriptor> {
    pub granted_global: bool,
    pub granted_list: Vec<TQuery::AllowDesc>,
    pub flag_denied_global: bool,
    pub flag_denied_list: Vec<TQuery::DenyDesc>,
    pub prompt_denied_global: bool,
    pub prompt_denied_list: Vec<TQuery::DenyDesc>,
    pub prompt: bool,
}

/// What a granted child scope may be given, already parsed: its parent's
/// exact state, the whole kind, nothing, or an explicit list of allow
/// entries.
pub enum ChildUnaryArg<TAllow> {
    Inherit,
    Granted,
    NotGranted,
    GrantedList(Vec<TAllow>),
}

impl<TQuery: QueryDescriptor> UnaryPermission<TQuery> {
    /// The views of a sequence of allow entries.
    pub open spec fn allow_views(s: Seq<TQuery::AllowDesc>) -> Seq<AllowViewOf<TQuery>> {
        s.map_values(|a: TQuery::AllowDesc| a@)
    }

    /// The views of a sequence of deny entries.
    pub open spec fn deny_views(s: Seq<TQuery::DenyDesc>) -> Seq<DenyViewOf<TQuery>> {
        s.map_values(|d: TQuery::DenyDesc| d@)
    }

    /// Fully granted: the whole kind is granted and no denial of either
    /// sort competes. The fast path for checks.
    pub open spec fn spec_is_allow_all(&self) -> bool {
        self.granted_global && self.flag_denied_list@.len() == 0 && self.prompt_denied_list@.len()
            == 0
    }

    /// Whether a query (or the whole kind, for `None`) is granted.
    pub open spec fn spec_is_granted(&self, desc: Option<TQuery::V>) -> bool {
        match desc {
            Some(qv) => self.granted_global || exists|i: int|
                0 <= i && i < self.granted_list@.len() && TQuery::spec_matches_allow(
                    qv,
                    (#[trigger] self.granted_list@[i])@,
                ),
            None => self.granted_global,
        }
    }

    /// Whether a query (or the whole kind) is denied by a startup flag.
    pub open spec fn spec_is_flag_denied(&self, desc: Option<TQuery::V>) -> bool {
        match desc {
            Some(qv) => self.flag_denied_global || exists|i: int|
                0 <= i && i < self.flag_denied_list@.len() && TQuery::spec_matches_deny(
                    qv,
                    (#[trigger] self.flag_denied_list@[i])@,
                ),
            None => self.flag_denied_global,
        }
    }

    /// Whether a query is denied by an earlier interactive refusal: a
    /// query is blocked when it would reach a recorded denial's scope; the
    /// whole kind counts as denied as soon as any interactive denial
    /// exists, global or not.
    pub open spec fn spec_is_prompt_denied(&self, desc: Option<TQuery::V>) -> bool {
        match desc {
            Some(qv) => exists|i: int|
                0 <= i && i < self.prompt_denied_list@.len()
                    && TQuery::spec_stronger_than_deny(
                    qv,
                    (#[trigger] self.prompt_denied_list@[i])@,
                ),
            None => self.prompt_denied_global || self.prompt_denied_list@.len() > 0,
        }
    }

    /// Whether a flag-denial overlaps the scope of the query (or, for the
    /// whole kind, whether any flag-denial entry exists at all).
    pub open spec fn spec_is_partial_flag_denied(&self, desc: Option<TQuery::V>) -> bool {
        match desc {
            Some(qv) => exists|i: int|
                0 <= i && i < self.flag_denied_list@.len() && TQuery::spec_overlaps_deny(
                    qv,
                    (#[trigger] self.flag_denied_list@[i])@,
                ),
            None => self.flag_denied_list@.len() > 0,
        }
    }

    /// The state of a query, in priority order: flag-denials and recorded
    /// interactive denials win; then grants, downgraded as the mode asks
    /// when a flag-denial overlaps; otherwise the query is promptable,
    /// except that the strict mode turns an overlapped non-grant into a
    /// denial.
    pub open spec fn spec_query_desc(
        &self,
        desc: Option<TQuery::V>,
        allow_partial: AllowPartial,
    ) -> PermissionState {
        if self.spec_is_flag_denied(desc) || self.spec_is_prompt_denied(desc) {
            PermissionState::Denied
        } else if self.spec_is_granted(desc) {
            match allow_partial {
                AllowPartial::TreatAsGranted => PermissionState::Granted,
                AllowPartial::TreatAsDenied => if self.spec_is_partial_flag_denied(desc) {
                    PermissionState::Denied
                } else {
                    PermissionState::Granted
                },
                AllowPartial::TreatAsPartialGranted => if self.spec_is_partial_flag_denied(desc) {
                    PermissionState::GrantedPartial
                } else {
                    PermissionState::Granted
                },
            }
        } else if allow_partial == AllowPartial::TreatAsDenied && self.spec_is_partial_flag_denied(
            desc,
        ) {
            PermissionState::Denied
        } else {
            PermissionState::Prompt
        }
    }

    /// Everything but the granted fields is unchanged.
    pub open spec fn frame_deny_and_prompt(pre: Self, post: Self) -> bool {
        &&& post.flag_denied_global == pre.flag_denied_global
        &&& post.flag_denied_list == pre.flag_denied_list
        &&& post.prompt_denied_global == pre.prompt_denied_global
        &&& post.prompt_denied_list == pre.prompt_denied_list
        &&& post.prompt == pre.prompt
    }

    /// Everything but the prompt-denied fields is unchanged.
    pub open spec fn frame_granted_and_flag(pre: Self, post: Self) -> bool {
        &&& post.granted_global == pre.granted_global
        &&& post.granted_list == pre.granted_list
        &&& post.flag_denied_global == pre.flag_denied_global
        &&& post.flag_denied_list == pre.flag_denied_list
        &&& post.prompt == pre.prompt
    }

    /// The whole kind became granted; nothing else moved.
    pub open spec fn spec_with_granted_global(pre: Self, post: Self) -> bool {
        &&& Self::frame_deny_and_prompt(pre, post)
        &&& post.granted_global == true
        &&& post.granted_list == pre.granted_list
    }

    /// One allow entry was appended; nothing else moved.
    pub open spec fn spec_with_granted_pushed(pre: Self, post: Self, a: TQuery::AllowDesc) -> bool {
        &&& Self::frame_deny_and_prompt(pre, post)
        &&& post.granted_global == pre.granted_global
        &&& post.granted_list@ == pre.granted_list@.push(a)
    }

    /// The whole kind became prompt-denied; nothing else moved.
    pub open spec fn spec_with_prompt_denied_global(pre: Self, post: Self) -> bool {
        &&& Self::frame_granted_and_flag(pre, post)
        &&& post.prompt_denied_global == true
        &&& post.prompt_denied_list == pre.prompt_denied_list
    }

    /// One deny entry was appended to the prompt-denied list.
    pub open spec fn spec_with_prompt_denied_pushed(
        pre: Self,
        post: Self,
        d: TQuery::DenyDesc,
    ) -> bool {
        &&& Self::frame_granted_and_flag(pre, post)
        &&& post.prompt_denied_global == pre.prompt_denied_global
        &&& post.prompt_denied_list@ == pre.prompt_denied_list@.push(d)
    }

    /// What memoizing a grant does: the whole kind for `None`, one entry
    /// whose view is the query's allow form for `Some`, and nothing at all
    /// for a query that must never grant (it has no allow form).
    pub open spec fn spec_insert_granted_effect(
        pre: Self,
        post: Self,
        desc: Option<TQuery::V>,
    ) -> bool {
        match desc {
            None => Self::spec_with_granted_global(pre, post),
            Some(qv) => match TQuery::spec_as_allow(qv) {
                Some(av) => exists|a: TQuery::AllowDesc|
                    a@ == av && #[trigger] Self::spec_with_granted_pushed(pre, post, a),
                None => post == pre,
            },
        }
    }

    /// What memoizing an interactive denial does.
    pub open spec fn spec_insert_prompt_denied_effect(
        pre: Self,
        post: Self,
        desc: Option<TQuery::V>,
    ) -> bool {
        match desc {
            None => Self::spec_with_prompt_denied_global(pre, post),
            Some(qv) => exists|d: TQuery::DenyDesc|
                d@ == TQuery::spec_as_deny(qv) && #[trigger] Self::spec_with_prompt_denied_pushed(
                    pre,
                    post,
                    d,
                ),
        }
    }

    /// The full transition of one check: the outcome follows the queried
    /// state and the prompt response (if any), and the lists change exactly
    /// by the memoization the response asks for.
    pub open spec fn spec_check_post(
        pre: Self,
        post: Self,
        desc: Option<TQuery::V>,
        assert_non_partial: bool,
        r: Result<(), PermError>,
        resp: Option<PromptResponse>,
        prompted: bool,
        allow_all: bool,
    ) -> bool {
        let mode = if assert_non_partial {
            AllowPartial::TreatAsDenied
        } else {
            AllowPartial::TreatAsGranted
        };
        &&& state_check_outcome(
            pre.spec_query_desc(desc, mode),
            pre.prompt,
            TQuery::spec_flag_name(),
            match desc {
                Some(qv) => Some(spec_formatted_display(TQuery::spec_display_name(qv))),
                None => None,
            },
            (r, prompted, allow_all),
            resp,
        )
        &&& if !prompted {
            post == pre
        } else if r is Ok {
            if allow_all {
                Self::spec_with_granted_global(pre, post)
            } else {
                Self::spec_insert_granted_effect(pre, post, desc)
            }
        } else {
            Self::spec_insert_prompt_denied_effect(pre, post, desc)
        }
    }

    /// The contract of the public check entry points: the fast path
    /// answers a fully-granted kind at once, otherwise some prompt
    /// interaction (or none) explains the outcome and the state change.
    pub open spec fn spec_checked_outcome(
        pre: Self,
        post: Self,
        desc: Option<TQuery::V>,
        assert_non_partial: bool,
        skip_if_allow_all: bool,
        r: Result<(), PermError>,
    ) -> bool {
        if skip_if_allow_all && pre.spec_is_allow_all() {
            r is Ok && post == pre
        } else {
            exists|resp: Option<PromptResponse>, prompted: bool, allow_all: bool|
                #[trigger] Self::spec_check_post(
                    pre,
                    post,
                    desc,
                    assert_non_partial,
                    r,
                    resp,
                    prompted,
                    allow_all,
                )
        }
    }

    /// Whether a check that cannot prompt would pass: the kind is fully
    /// granted, or the queried state is already `Granted`.
    pub open spec fn spec_silent_check_passes(
        &self,
        desc: Option<TQuery::V>,
        assert_non_partial: bool,
    ) -> bool {
        self.spec_is_allow_all() || self.spec_query_desc(
            desc,
            if assert_non_partial {
                AllowPartial::TreatAsDenied
            } else {
                AllowPartial::TreatAsGranted
            },
        ) == PermissionState::Granted
    }

    /// Whether every entry of a prospective child grant list would pass a
    /// non-prompting check against this permission.
    pub open spec fn spec_all_silently_pass(&self, list: Seq<TQuery::AllowDesc>) -> bool {
        forall|j: int|
            0 <= j && j < list.len() ==> self.spec_silent_check_passes(
                Some(TQuery::spec_from_allow((#[trigger] list[j])@)),
                TQuery::spec_check_non_partial(),
            )
    }

    /// A permission with the whole kind granted and nothing else set.
    pub fn allow_all() -> (r: Self)
        ensures
            r.granted_global == true,
            r.granted_list@.len() == 0,
            r.flag_denied_global == false,
            r.flag_denied_list@.len() == 0,
            r.prompt_denied_global == false,
            r.prompt_denied_list@.len() == 0,
            r.prompt == false,
            r.spec_is_allow_all(),
    {
        UnaryPermission {
            granted_global: true,
            granted_list: Vec::new(),
            flag_denied_global: false,
            flag_denied_list: Vec::new(),
            prompt_denied_global: false,
            prompt_denied_list: Vec::new(),
            prompt: false,
        }
    }

    /// Fully granted: the fast-path test.
    pub fn is_allow_all(&self) -> (r: bool)
        ensures
            r == self.spec_is_allow_all(),
    {
        self.granted_global && self.flag_denied_list.is_empty()
            && self.prompt_denied_list.is_empty()
    }

    proof fn lemma_granted_witness(p: Self, qv: TQuery::V, i: int)
        requires
            0 <= i && i < p.granted_list@.len(),
            TQuery::spec_matches_allow(qv, p.granted_list@[i]@),
        ensures
            p.spec_is_granted(Some(qv)),
    {
    }

    proof fn lemma_flag_denied_witness(p: Self, qv: TQuery::V, i: int)
        requires
            0 <= i && i < p.flag_denied_list@.len(),
            TQuery::spec_matches_deny(qv, p.flag_denied_list@[i]@),
        ensures
            p.spec_is_flag_denied(Some(qv)),
    {
    }

    proof fn lemma_prompt_denied_witness(p: Self, qv: TQuery::V, i: int)
        requires
            0 <= i && i < p.prompt_denied_list@.len(),
            TQuery::spec_stronger_than_deny(qv, p.prompt_denied_list@[i]@),
        ensures
            p.spec_is_prompt_denied(Some(qv)),
    {
    }

    proof fn lemma_partial_flag_denied_witness(p: Self, qv: TQuery::V, i: int)
        requires
            0 <= i && i < p.flag_denied_list@.len(),
            TQuery::spec_overlaps_deny(qv, p.flag_denied_list@[i]@),
        ensures
            p.spec_is_partial_flag_denied(Some(qv)),
    {
    }

    fn is_granted(&self, query: Option<&TQuery>) -> (r: bool)
        ensures
            r == self.spec_is_granted(view_opt(query)),
    {
        match query {
            Some(q) => {
                if self.granted_global {
                    return true;
                }
                let n = self.granted_list.len();
                let mut i: usize = 0;
                while i < n
                    invariant
                        query == Some(q),
                        n == self.granted_list@.len(),
                        i <= n,
                        forall|j: int| 0 <= j < i ==> !TQuery::spec_matches_allow(
                            q@,
                            #[trigger] self.granted_list@[j]@,
                        ),
                    decreases n - i,
                {
                    if q.matches_allow(&self.granted_list[i]) {
                        proof {
                            Self::lemma_granted_witness(*self, q@, i as int);
                        }
                        return true;
                    }
                    i += 1;
                }
                false
            },
            None => self.granted_global,
        }
    }

    fn is_flag_denied(&self, query: Option<&TQuery>) -> (r: bool)
        ensures
            r == self.spec_is_flag_denied(view_opt(query)),
    {
        match query {
            Some(q) => {
                if self.flag_denied_global {
                    return true;
                }
                let n = self.flag_denied_list.len();
                let mut i: usize = 0;
                while i < n
                    invariant
                        query == Some(q),
                        n == self.flag_denied_list@.len(),
                        i <= n,
                        forall|j: int| 0 <= j < i ==> !TQuery::spec_matches_deny(
                            q@,
                            (#[trigger] self.flag_denied_list@[j])@,
                        ),
                    decreases n - i,
                {
                    if q.matches_deny(&self.flag_denied_list[i]) {
                        proof {
                            Self::lemma_flag_denied_witness(*self, q@, i as int);
                        }
                        return true;
                    }
                    i += 1;
                }
                false
            },
            None => self.flag_denied_global,
        }
    }

    fn is_prompt_denied(&self, query: Option<&TQuery>) -> (r: bool)
        ensures
            r == self.spec_is_prompt_denied(view_opt(query)),
    {
        match query {
            Some(q) => {
                let n = self.prompt_denied_list.len();
                let mut i: usize = 0;
                while i < n
                    invariant
                        query == Some(q),
                        n == self.prompt_denied_list@.len(),
                        i <= n,
                        forall|j: int| 0 <= j < i ==> !TQuery::spec_stronger_than_deny(
                            q@,
                            (#[trigger] self.prompt_denied_list@[j])@,
                        ),
                    decreases n - i,
                {
                    if q.stronger_than_deny(&self.prompt_denied_list[i]) {
                        proof {
                            Self::lemma_prompt_denied_witness(*self, q@, i as int);
                        }
                        return true;
                    }
                    i += 1;
                }
                false
            },
            None => self.prompt_denied_global || !self.prompt_denied_list.is_empty(),
        }
    }

    fn is_partial_flag_denied(&self, query: Option<&TQuery>) -> (r: bool)
        ensures
            r == self.spec_is_partial_flag_denied(view_opt(query)),
    {
        match query {
            Some(q) => {
                let n = self.flag_denied_list.len();
                let mut i: usize = 0;
                while i < n
                    invariant
                        query == Some(q),
                        n == self.flag_denied_list@.len(),
                        i <= n,
                        forall|j: int| 0 <= j < i ==> !TQuery::spec_overlaps_deny(
                            q@,
                            (#[trigger] self.flag_denied_list@[j])@,
                        ),
                    decreases n - i,
                {
                    if q.overlaps_deny(&self.flag_denied_list[i]) {
                        proof {
                            Self::lemma_partial_flag_denied_witness(*self, q@, i as int);
                        }
                        return true;
                    }
                    i += 1;
                }
                false
            },
            None => !self.flag_denied_list.is_empty(),
        }
    }

    /// The state of a query (or of the whole kind), with the given
    /// treatment of partial flag-denials.
    pub(crate) fn query_desc(&self, desc: Option<&TQuery>, allow_partial: AllowPartial) -> (r:
        PermissionState)
        ensures
            r == self.spec_query_desc(view_opt(desc), allow_partial),
    {
        if self.is_flag_denied(desc) || self.is_prompt_denied(desc) {
            PermissionState::Denied
        } else if self.is_granted(desc) {
            match allow_partial {
                AllowPartial::TreatAsGranted => PermissionState::Granted,
                AllowPartial::TreatAsDenied => {
                    if self.is_partial_flag_denied(desc) {
                        PermissionState::Denied
                    } else {
                        PermissionState::Granted
                    }
                },
                AllowPartial::TreatAsPartialGranted => {
                    if self.is_partial_flag_denied(desc) {
                        PermissionState::GrantedPartial
                    } else {
                        PermissionState::Granted
                    }
                },
            }
        } else {
            let strict = match allow_partial {
                AllowPartial::TreatAsDenied => true,
                _ => false,
            };
            if strict && self.is_partial_flag_denied(desc) {
                PermissionState::Denied
            } else {
                PermissionState::Prompt
            }
        }
    }

    fn insert_granted(&mut self, query: Option<&TQuery>)
        ensures
            Self::spec_insert_granted_effect(*old(self), *final(self), view_opt(query)),
    {
        match query {
            Some(q) => {
                match q.as_allow() {
                    Some(a) => {
                        let ghost pre = *self;
                        let ghost av = a@;
                        self.granted_list.push(a);
                        proof {
                            assert(final(self).granted_list@.last()@ == av);
                            assert(Self::spec_with_granted_pushed(
                                pre,
                                *final(self),
                                final(self).granted_list@.last(),
                            ));
                        }
                    },
                    None => {},
                }
            },
            None => {
                self.granted_global = true;
            },
        }
    }

    fn insert_prompt_denied(&mut self, query: Option<&TQuery>)
        ensures
            Self::spec_insert_prompt_denied_effect(*old(self), *final(self), view_opt(query)),
    {
        match query {
            Some(q) => {
                let d = q.as_deny();
                let ghost pre = *self;
                let ghost dv = d@;
                self.prompt_denied_list.push(d);
                proof {
                    assert(final(self).prompt_denied_list@.last()@ == dv);
                    assert(Self::spec_with_prompt_denied_pushed(
                        pre,
                        *final(self),
                        final(self).prompt_denied_list@.last(),
                    ));
                }
            },
            None => {
                self.prompt_denied_global = true;
            },
        }
    }

    /// One check of a query (or of the whole kind): resolves the state,
    /// prompts if that state asks for it and prompting is enabled, and
    /// memoizes what the answer granted or denied.
    pub(crate) fn check_desc<TPrompter: PermissionPrompter>(
        &mut self,
        desc: Option<&TQuery>,
        assert_non_partial: bool,
        api_name: Option<&str>,
        prompter: &mut TPrompter,
    ) -> (r: Result<(), PermError>)
        ensures
            exists|resp: Option<PromptResponse>, prompted: bool, allow_all: bool|
                #[trigger] Self::spec_check_post(
                    *old(self),
                    *final(self),
                    view_opt(desc),
                    assert_non_partial,
                    r,
                    resp,
                    prompted,
                    allow_all,
                ),
    {
        let state = self.query_desc(desc, AllowPartial::from_flag(!assert_non_partial));
        let info: Option<String> = match desc {
            Some(d) => Some(format_display_name(d.display_name())),
            None => None,
        };
        let info_ref: Option<&str> = match &info {
            Some(s) => Some(s.as_str()),
            None => None,
        };
        let flag = TQuery::flag_name();
        let (result, prompted, is_allow_all) = state.check2(
            flag,
            api_name,
            info_ref,
            self.prompt,
            prompter,
        );
        let ghost mid = *self;
        let ghost ginfo: Option<Seq<char>> = match view_opt(desc) {
            Some(qv) => Some(spec_formatted_display(TQuery::spec_display_name(qv))),
            None => None,
        };
        proof {
            assert(crate::state::opt_str_view(info_ref) == ginfo);
        }
        let ghost resp = choose|resp: Option<PromptResponse>|
            state_check_outcome(
                state,
                mid.prompt,
                TQuery::spec_flag_name(),
                ginfo,
                (result, prompted, is_allow_all),
                resp,
            );
        if prompted {
            if result.is_ok() {
                if is_allow_all {
                    self.insert_granted(None);
                } else {
                    self.insert_granted(desc);
                }
            } else {
                self.insert_prompt_denied(desc);
            }
        }
        proof {
            assert(Self::spec_check_post(
                *old(self),
                *final(self),
                view_opt(desc),
                assert_non_partial,
                result,
                resp,
                prompted,
                is_allow_all,
            ));
        }
        result
    }

    /// Checks the whole kind, prompting if needed; the fast path answers a
    /// fully granted kind at once.
    pub fn check_all_api<TPrompter: PermissionPrompter>(
        &mut self,
        api_name: Option<&str>,
        prompter: &mut TPrompter,
    ) -> (r: Result<(), PermError>)
        ensures
            Self::spec_checked_outcome(*old(self), *final(self), None, false, true, r),
    {
        if self.is_allow_all() {
            return Ok(());
        }
        self.check_desc(None, false, api_name, prompter)
    }

    /// The transition of one request: an already granted query is
    /// memoized; a non-promptable state answers at once; otherwise the
    /// user is asked, and the answer is memoized exactly as for a check.
    pub open spec fn spec_request_post(
        pre: Self,
        post: Self,
        desc: Option<TQuery::V>,
        r: PermissionState,
        resp: Option<PromptResponse>,
    ) -> bool {
        let state = pre.spec_query_desc(desc, AllowPartial::TreatAsPartialGranted);
        if state == PermissionState::Granted {
            r == state && Self::spec_insert_granted_effect(pre, post, desc) && resp is None
        } else if state != PermissionState::Prompt {
            r == state && post == pre && resp is None
        } else if !pre.prompt {
            r == PermissionState::Denied && post == pre && resp is None
        } else {
            match resp {
                Some(PromptResponse::Allow) => r == PermissionState::Granted
                    && Self::spec_insert_granted_effect(pre, post, desc),
                Some(PromptResponse::Deny) => r == PermissionState::Denied
                    && Self::spec_insert_prompt_denied_effect(pre, post, desc),
                Some(PromptResponse::AllowAll) => r == PermissionState::Granted
                    && Self::spec_with_granted_global(pre, post),
                Some(PromptResponse::Yield) => r == PermissionState::Yield && post == pre,
                None => false,
            }
        }
    }

    /// Requests a query (or the whole kind) now: always prompts when the
    /// state allows it, and memoizes the answer.
    pub(crate) fn request_desc<TPrompter: PermissionPrompter>(
        &mut self,
        desc: Option<&TQuery>,
        prompter: &mut TPrompter,
    ) -> (r: PermissionState)
        ensures
            exists|resp: Option<PromptResponse>|
                #[trigger] Self::spec_request_post(
                    *old(self),
                    *final(self),
                    view_opt(desc),
                    r,
                    resp,
                ),
    {
        let state = self.query_desc(desc, AllowPartial::TreatAsPartialGranted);
        if state == PermissionState::Granted {
            self.insert_granted(desc);
            proof {
                assert(Self::spec_request_post(
                    *old(self),
                    *final(self),
                    view_opt(desc),
                    state,
                    None::<PromptResponse>,
                ));
            }
            return state;
        }
        if state != PermissionState::Prompt {
            proof {
                assert(Self::spec_request_post(
                    *old(self),
                    *final(self),
                    view_opt(desc),
                    state,
                    None::<PromptResponse>,
                ));
            }
            return state;
        }
        if !self.prompt {
            proof {
                assert(Self::spec_request_post(
                    *old(self),
                    *final(self),
                    view_opt(desc),
                    PermissionState::Denied,
                    None::<PromptResponse>,
                ));
            }
            return PermissionState::Denied;
        }
        let mut message = String::new();
        message.append(TQuery::flag_name());
        message.append(" access");
        match desc {
            Some(d) => {
                message.append(" to ");
                let display = format_display_name(d.display_name());
                message.append(display.as_str());
            },
            None => {},
        }
        let resp = prompter.prompt(
            message.as_str(),
            TQuery::flag_name(),
            Some("Deno.permissions.request()"),
            true,
        );
        let r = match resp {
            PromptResponse::Allow => {
                self.insert_granted(desc);
                PermissionState::Granted
            },
            PromptResponse::Deny => {
                self.insert_prompt_denied(desc);
                PermissionState::Denied
            },
            PromptResponse::AllowAll => {
                self.insert_granted(None);
                PermissionState::Granted
            },
            PromptResponse::Yield => PermissionState::Yield,
        };
        proof {
            assert(Self::spec_request_post(
                *old(self),
                *final(self),
                view_opt(desc),
                r,
                Some(resp),
            ));
        }
        r
    }

    /// The granted list after revoking a query: every entry the query
    /// revokes is gone; the others keep their order.
    pub open spec fn spec_revoke_filter(
        qv: TQuery::V,
        s: Seq<TQuery::AllowDesc>,
    ) -> Seq<TQuery::AllowDesc>
        decreases s.len(),
    {
        if s.len() == 0 {
            Seq::empty()
        } else {
            let rest = Self::spec_revoke_filter(qv, s.drop_last());
            if TQuery::spec_revokes(qv, s.last()@) {
                rest
            } else {
                rest.push(s.last())
            }
        }
    }

    /// The transition of one revocation: deny state is untouched; a
    /// specific query filters the granted list through `spec_revokes`; the
    /// whole kind clears it; the result is the state afterwards.
    pub open spec fn spec_revoke_post(
        pre: Self,
        post: Self,
        desc: Option<TQuery::V>,
        r: PermissionState,
    ) -> bool {
        &&& Self::frame_deny_and_prompt(pre, post)
        &&& match desc {
            Some(qv) => post.granted_global == pre.granted_global && post.granted_list@
                == Self::spec_revoke_filter(qv, pre.granted_list@),
            None => post.granted_global == false && post.granted_list@.len() == 0,
        }
        &&& r == post.spec_query_desc(desc, AllowPartial::TreatAsPartialGranted)
    }

    /// Revokes a query, removing every allow entry it covers; revoking the
    /// whole kind clears the granted state entirely (a hard reset, not a
    /// set subtraction). Returns the state the query has afterwards.
    pub(crate) fn revoke_desc(&mut self, desc: Option<&TQuery>) -> (r: PermissionState)
        ensures
            Self::frame_deny_and_prompt(*old(self), *final(self)),
            match view_opt(desc) {
                Some(qv) => final(self).granted_global == old(self).granted_global
                    && final(self).granted_list@ == Self::spec_revoke_filter(
                    qv,
                    old(self).granted_list@,
                ),
                None => final(self).granted_global == false && final(self).granted_list@.len()
                    == 0,
            },
            r == final(self).spec_query_desc(view_opt(desc), AllowPartial::TreatAsPartialGranted),
    {
        match desc {
            Some(query) => {
                let mut taken: Vec<TQuery::AllowDesc> = Vec::new();
                core::mem::swap(&mut self.granted_list, &mut taken);
                let ghost orig = taken@;
                let mut kept: Vec<TQuery::AllowDesc> = Vec::new();
                // walk the taken entries back to front, moving the kept
                // ones, then restore the original order
                while taken.len() > 0
                    invariant
                        Self::spec_revoke_filter(query@, orig) =~= Self::spec_revoke_filter(
                            query@,
                            taken@,
                        ) + kept@.reverse(),
                        self.granted_list@.len() == 0,
                        self.granted_global == old(self).granted_global,
                        Self::frame_deny_and_prompt(*old(self), *self),
                    decreases taken.len(),
                {
                    let ghost taken_pre = taken@;
                    let ghost kept_pre = kept@;
                    let last = taken.pop().unwrap();
                    proof {
                        assert(taken@ =~= taken_pre.drop_last());
                        assert(last == taken_pre.last());
                    }
                    if !query.revokes(&last) {
                        kept.push(last);
                        proof {
                            assert(kept@.reverse() =~= seq![last] + kept_pre.reverse());
                            assert(Self::spec_revoke_filter(query@, taken_pre) =~=
                                Self::spec_revoke_filter(query@, taken@).push(last));
                            assert(Self::spec_revoke_filter(query@, taken@).push(last) + kept_pre.reverse()
                                =~= Self::spec_revoke_filter(query@, taken@) + kept@.reverse());
                        }
                    }
                }
                while kept.len() > 0
                    invariant
                        Self::spec_revoke_filter(query@, orig) =~= self.granted_list@
                            + kept@.reverse(),
                        Self::frame_deny_and_prompt(*old(self), *self),
                        self.granted_global == old(self).granted_global,
                    decreases kept.len(),
                {
                    let ghost kept_pre = kept@;
                    let ghost list_pre = self.granted_list@;
                    let last = kept.pop().unwrap();
                    self.granted_list.push(last);
                    proof {
                        assert(kept@ =~= kept_pre.drop_last());
                        assert(self.granted_list@ =~= list_pre.push(kept_pre.last()));
                        assert(list_pre + kept_pre.reverse() =~= self.granted_list@
                            + kept@.reverse());
                    }
                }
                proof {
                    assert(self.granted_list@ + kept@.reverse() =~= self.granted_list@);
                }
            },
            None => {
                self.granted_global = false;
                self.granted_list.clear();
            },
        }
        self.query_desc(desc, AllowPartial::TreatAsPartialGranted)
    }
}

impl<TQuery: QueryDescriptor> Default for UnaryPermission<TQuery> {
    /// A permission with nothing granted, nothing denied, and prompting
    /// off.
    fn default() -> (r: Self)
        ensures
            r.granted_global == false,
            r.granted_list@.len() == 0,
            r.flag_denied_global == false,
            r.flag_denied_list@.len() == 0,
            r.prompt_denied_global == false,
            r.prompt_denied_list@.len() == 0,
            r.prompt == false,
    {
        UnaryPermission {
            granted_global: false,
            granted_list: Vec::new(),
            flag_denied_global: false,
            flag_denied_list: Vec::new(),
            prompt_denied_global: false,
            prompt_denied_list: Vec::new(),
            prompt: false,
        }
    }
}

impl<TQuery: QueryDescriptor> UnaryPermission<TQuery> {
    /// Two permission states with the same contents, entry for entry.
    pub open spec fn spec_same_views(a: Self, b: Self) -> bool {
        &&& a.granted_global == b.granted_global
        &&& Self::allow_views(a.granted_list@) == Self::allow_views(b.granted_list@)
        &&& a.flag_denied_global == b.flag_denied_global
        &&& Self::deny_views(a.flag_denied_list@) == Self::deny_views(b.flag_denied_list@)
        &&& a.prompt_denied_global == b.prompt_denied_global
        &&& Self::deny_views(a.prompt_denied_list@) == Self::deny_views(b.prompt_denied_list@)
        &&& a.prompt == b.prompt
    }

    fn clone_allow_entries(s: &Vec<TQuery::AllowDesc>) -> (r: Vec<TQuery::AllowDesc>)
        ensures
            Self::allow_views(r@) == Self::allow_views(s@),
    {
        let n = s.len();
        let mut out: Vec<TQuery::AllowDesc> = Vec::new();
        let mut i: usize = 0;
        while i < n
            invariant
                n == s@.len(),
                i <= n,
                Self::allow_views(out@) =~= Self::allow_views(s@.subrange(0, i as int)),
            decreases n - i,
        {
            let ghost out_pre = out@;
            let copy = TQuery::clone_allow(&s[i]);
            out.push(copy);
            proof {
                assert(Self::allow_views(out@) =~= Self::allow_views(out_pre).push(s@[i as int]@));
                assert(Self::allow_views(s@.subrange(0, i + 1 as int)) =~= Self::allow_views(
                    s@.subrange(0, i as int),
                ).push(s@[i as int]@));
            }
            i += 1;
        }
        proof {
            assert(s@.subrange(0, n as int) =~= s@);
        }
        out
    }

    fn clone_deny_entries(s: &Vec<TQuery::DenyDesc>) -> (r: Vec<TQuery::DenyDesc>)
        ensures
            Self::deny_views(r@) == Self::deny_views(s@),
    {
        let n = s.len();
        let mut out: Vec<TQuery::DenyDesc> = Vec::new();
        let mut i: usize = 0;
        while i < n
            invariant
                n == s@.len(),
                i <= n,
                Self::deny_views(out@) =~= Self::deny_views(s@.subrange(0, i as int)),
            decreases n - i,
        {
            let ghost out_pre = out@;
            let copy = TQuery::clone_deny(&s[i]);
            out.push(copy);
            proof {
                assert(Self::deny_views(out@) =~= Self::deny_views(out_pre).push(s@[i as int]@));
                assert(Self::deny_views(s@.subrange(0, i + 1 as int)) =~= Self::deny_views(
                    s@.subrange(0, i as int),
                ).push(s@[i as int]@));
            }
            i += 1;
        }
        proof {
            assert(s@.subrange(0, n as int) =~= s@);
        }
        out
    }

    /// A permission with the same contents, entry for entry.
    pub fn duplicate(&self) -> (r: Self)
        ensures
            Self::spec_same_views(*self, r),
    {
        UnaryPermission {
            granted_global: self.granted_global,
            granted_list: Self::clone_allow_entries(&self.granted_list),
            flag_denied_global: self.flag_denied_global,
            flag_denied_list: Self::clone_deny_entries(&self.flag_denied_list),
            prompt_denied_global: self.prompt_denied_global,
            prompt_denied_list: Self::clone_deny_entries(&self.prompt_denied_list),
            prompt: self.prompt,
        }
    }

    /// Derives the permission for a narrower execution scope. Deny state
    /// and the prompt flag always carry over, whatever the grant mode: a
    /// child can never see what its parent has denied. A `Granted` or
    /// `GrantedList` request is checked against this (parent) permission,
    /// prompting if allowed, and fails whole with an escalation error if
    /// anything asked for is not covered.
    pub fn create_child_permissions<TPrompter: PermissionPrompter>(
        &mut self,
        flag: ChildUnaryArg<TQuery::AllowDesc>,
        prompter: &mut TPrompter,
    ) -> (r: Result<Self, PermError>)
        ensures
            !old(self).prompt ==> *final(self) == *old(self),
            match r {
                Ok(child) => {
                    &&& child.prompt == final(self).prompt
                    &&& child.flag_denied_global == final(self).flag_denied_global
                    &&& Self::deny_views(child.flag_denied_list@) == Self::deny_views(
                        final(self).flag_denied_list@,
                    )
                    &&& child.prompt_denied_global == final(self).prompt_denied_global
                    &&& Self::deny_views(child.prompt_denied_list@) == Self::deny_views(
                        final(self).prompt_denied_list@,
                    )
                    &&& match flag {
                        ChildUnaryArg::Inherit => child.granted_global == old(
                            self,
                        ).granted_global && Self::allow_views(child.granted_list@)
                            == Self::allow_views(old(self).granted_list@) && *final(self) == *old(
                            self,
                        ),
                        ChildUnaryArg::Granted => child.granted_global == true
                            && child.granted_list@.len() == 0,
                        ChildUnaryArg::NotGranted => child.granted_global == false
                            && child.granted_list@.len() == 0 && *final(self) == *old(self),
                        ChildUnaryArg::GrantedList(list) => child.granted_global == false
                            && child.granted_list == list,
                    }
                },
                Err(e) => e.class@ == "PermissionDenied"@ && e.message@
                    == "Can't escalate parent thread permissions"@ && (flag is Granted
                    || flag is GrantedList),
            },
            !old(self).prompt ==> match flag {
                ChildUnaryArg::Inherit => r is Ok,
                ChildUnaryArg::NotGranted => r is Ok,
                ChildUnaryArg::Granted => r is Ok <==> old(self).spec_silent_check_passes(
                    None,
                    false,
                ),
                ChildUnaryArg::GrantedList(list) => r is Ok <==> old(
                    self,
                ).spec_all_silently_pass(list@),
            },
    {
        let granted_global: bool;
        let granted_list: Vec<TQuery::AllowDesc>;
        match flag {
            ChildUnaryArg::Inherit => {
                return Ok(self.duplicate());
            },
            ChildUnaryArg::Granted => {
                if self.check_all_api(None, prompter).is_err() {
                    return Err(escalation_error());
                }
                granted_global = true;
                granted_list = Vec::new();
            },
            ChildUnaryArg::NotGranted => {
                granted_global = false;
                granted_list = Vec::new();
            },
            ChildUnaryArg::GrantedList(list) => {
                let n = list.len();
                let mut i: usize = 0;
                while i < n
                    invariant
                        flag == ChildUnaryArg::GrantedList(list),
                        n == list@.len(),
                        i <= n,
                        !old(self).prompt ==> *self == *old(self),
                        !old(self).prompt ==> forall|j: int|
                            0 <= j && j < i ==> old(self).spec_silent_check_passes(
                                Some(TQuery::spec_from_allow((#[trigger] list@[j])@)),
                                TQuery::spec_check_non_partial(),
                            ),
                    decreases n - i,
                {
                    let q = TQuery::from_allow(&list[i]);
                    let passed: bool;
                    let ghost pre_call = *self;
                    if self.is_allow_all() {
                        passed = true;
                        proof {
                            if !old(self).prompt {
                                assert(old(self).spec_silent_check_passes(
                                    Some(TQuery::spec_from_allow(list@[i as int]@)),
                                    TQuery::spec_check_non_partial(),
                                ));
                            }
                        }
                    } else {
                        let res = self.check_desc(
                            Some(&q),
                            TQuery::check_non_partial(),
                            None,
                            prompter,
                        );
                        passed = res.is_ok();
                        proof {
                            if !old(self).prompt {
                                let (resp, prompted, allow_all) = choose|
                                    resp: Option<PromptResponse>,
                                    prompted: bool,
                                    allow_all: bool,
                                |
                                    Self::spec_check_post(
                                        pre_call,
                                        *self,
                                        Some(q@),
                                        TQuery::spec_check_non_partial(),
                                        res,
                                        resp,
                                        prompted,
                                        allow_all,
                                    );
                                assert(!prompted);
                                assert(*self == pre_call);
                                assert(passed == old(self).spec_silent_check_passes(
                                    Some(TQuery::spec_from_allow(list@[i as int]@)),
                                    TQuery::spec_check_non_partial(),
                                ));
                            }
                        }
                    }
                    if !passed {
                        proof {
                            if !old(self).prompt {
                                assert(!old(self).spec_all_silently_pass(list@)) by {
                                    assert(!old(self).spec_silent_check_passes(
                                        Some(TQuery::spec_from_allow(list@[i as int]@)),
                                        TQuery::spec_check_non_partial(),
                                    ));
                                }
                            }
                        }
                        return Err(escalation_error());
                    }
                    i += 1;
                }
                proof {
                    if !old(self).prompt {
                        assert(old(self).spec_all_silently_pass(list@));
                    }
                }
                granted_global = false;
                granted_list = list;
            },
        }
        let child = UnaryPermission {
            granted_global,
            granted_list,
            flag_denied_global: self.flag_denied_global,
            flag_denied_list: Self::clone_deny_entries(&self.flag_denied_list),
            prompt_denied_global: self.prompt_denied_global,
            prompt_denied_list: Self::clone_deny_entries(&self.prompt_denied_list),
            prompt: self.prompt,
        };
        Ok(child)
    }
}

/// The quoted form of a display text: angle-bracketed placeholders stay
/// bare, anything else is put in quotes.
pub open spec fn spec_formatted_display(d: Seq<char>) -> Seq<char> {
    if d.len() >= 2 && d[0] == '<' && d[d.len() - 1] == '>' {
        d
    } else {
        "\""@ + d + "\""@
    }
}

/// The quoted form of a descriptor's display text: angle-bracketed
/// placeholders stay bare, anything else is put in quotes.
pub(crate) fn format_display_name(display_name: String) -> (r: String)
    ensures
        r@ == spec_formatted_display(display_name@),
{
    let n = display_name.as_str().unicode_len();
    if n >= 2 && display_name.as_str().get_char(0) == '<' && display_name.as_str().get_char(n - 1)
        == '>' {
        display_name
    } else {
        let mut out = String::new();
        out.append("\"");
        out.append(display_name.as_str());
        out.append("\"");
        out
    }
}


/// What a derived child scope always carries from its parent, whatever
/// grant mode was asked: the deny state, of both sorts, and the
/// prompt-eligibility flag.
pub open spec fn child_deny_carried<TQuery: QueryDescriptor>(
    parent: UnaryPermission<TQuery>,
    child: UnaryPermission<TQuery>,
) -> bool {
    &&& child.prompt == parent.prompt
    &&& child.flag_denied_global == parent.flag_denied_global
    &&& UnaryPermission::<TQuery>::deny_views(child.flag_denied_list@)
        == UnaryPermission::<TQuery>::deny_views(parent.flag_denied_list@)
    &&& child.prompt_denied_global == parent.prompt_denied_global
    &&& UnaryPermission::<TQuery>::deny_views(child.prompt_denied_list@)
        == UnaryPermission::<TQuery>::deny_views(parent.prompt_denied_list@)
}

} // verus!
