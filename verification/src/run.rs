//! The subprocess descriptor kind.
//!
//! A run query is either a resolved executable path or a bare command
//! name. The bare-name form never grants anything (it has no allow form)
//! but flows through prompting like any other query, so a script cannot
//! tell from timing whether a command exists on the search path. Denials
//! by name also cover resolved paths whose file stem is the name, so
//! denying `deno` covers `/usr/bin/deno` and `deno.exe` alike.

use vstd::prelude::*;

use crate::path::{path_contains, resolve_from_known_cwd, spec_resolve_from, PathRepr};
use crate::query::QueryDescriptor;
use crate::strings::{eq_ignore_case, str_contains_char, str_copy, str_eq_ignore_ascii_case};
use crate::errors::PermError;
use crate::query::view_opt;
use crate::state::{AllowPartial, PermissionPrompter, PermissionState, PromptResponse};
use crate::unary::UnaryPermission;

verus! {

/// The index of the last `.` in `s`, or -1 if there is none.
pub open spec fn last_dot_index(s: Seq<char>) -> int
    decreases s.len(),
{
    if s.len() == 0 {
        -1
    } else if s.last() == '.' {
        s.len() - 1
    } else {
        last_dot_index(s.drop_last())
    }
}

/// The file stem of one path segment: the part before the last dot,
/// except that a lone leading dot (a hidden file) belongs to the stem.
pub open spec fn spec_file_stem(seg: Seq<char>) -> Seq<char> {
    let k = last_dot_index(seg);
    if k <= 0 {
        seg
    } else {
        seg.subrange(0, k)
    }
}

proof fn lemma_last_dot_at(s: Seq<char>, k: int)
    requires
        0 <= k && k < s.len(),
        s[k] == '.',
        forall|j: int| k < j && j < s.len() ==> s[j] != '.',
    ensures
        last_dot_index(s) == k,
    decreases s.len(),
{
    if k == s.len() - 1 {
    } else {
        assert(s.last() != '.');
        assert(s.drop_last()[k] == '.');
        lemma_last_dot_at(s.drop_last(), k);
    }
}

proof fn lemma_no_dot(s: Seq<char>)
    requires
        forall|j: int| 0 <= j && j < s.len() ==> s[j] != '.',
    ensures
        last_dot_index(s) == -1,
    decreases s.len(),
{
    if s.len() > 0 {
        lemma_no_dot(s.drop_last());
    }
}

/// The last position of `c` in `s`, if any.
fn rfind_char(s: &str, c: char) -> (r: Option<usize>)
    ensures
        match r {
            Some(i) => i < s@.len() && s@[i as int] == c && forall|j: int|
                i < j && j < s@.len() ==> s@[j] != c,
            None => forall|j: int| 0 <= j && j < s@.len() ==> s@[j] != c,
        },
{
    let n = s.unicode_len();
    let mut i: usize = n;
    while i > 0
        invariant
            n == s@.len(),
            i <= n,
            forall|j: int| i <= j && j < n ==> s@[j] != c,
        decreases i,
    {
        i -= 1;
        if s.get_char(i) == c {
            return Some(i);
        }
    }
    None
}

/// Whether denying the bare name `name` covers the executable at
/// `cmd_path`: the path's file stem is the name (ignoring ASCII case), or
/// the name followed by a dotted suffix.
pub open spec fn spec_denies_run_name(name: Seq<char>, path: Seq<Seq<char>>) -> bool {
    path.len() > 0 && {
        let stem = spec_file_stem(path.last());
        &&& stem.len() >= name.len()
        &&& eq_ignore_case(stem.subrange(0, name.len() as int), name)
        &&& (stem.len() == name.len() || stem[name.len() as int] == '.')
    }
}

/// Whether a denial by the bare command name `name` covers `cmd_path`.
pub fn denies_run_name(name: &str, cmd_path: &PathRepr) -> (r: bool)
    ensures
        r == spec_denies_run_name(name@, cmd_path@),
{
    let seg: &String = match cmd_path.file_name() {
        Some(s) => s,
        None => {
            return false;
        },
    };
    let stem: &str = match rfind_char(seg.as_str(), '.') {
        Some(k) => {
            proof {
                lemma_last_dot_at(seg@, k as int);
            }
            if k > 0 {
                seg.as_str().substring_char(0, k)
            } else {
                seg.as_str()
            }
        },
        None => {
            proof {
                lemma_no_dot(seg@);
            }
            seg.as_str()
        },
    };
    proof {
        assert(stem@ =~= spec_file_stem(cmd_path@.last()));
    }
    let name_len = name.unicode_len();
    let stem_len = stem.unicode_len();
    if stem_len < name_len {
        return false;
    }
    let prefix = stem.substring_char(0, name_len);
    if !str_eq_ignore_ascii_case(prefix, name) {
        return false;
    }
    stem_len == name_len || stem.get_char(name_len) == '.'
}

/// The mathematical shape of a run query.
pub enum RunQueryModel {
    Path { requested: Seq<char>, resolved: Seq<Seq<char>> },
    Name(Seq<char>),
}

/// The mathematical shape of a run denial.
pub enum DenyRunModel {
    Name(Seq<char>),
    Path(Seq<Seq<char>>),
}

/// A subprocess request: a resolved executable path together with the text
/// the caller wrote, or a bare name that could not be resolved.
#[derive(Debug, PartialEq, Eq)]
pub enum RunQueryDescriptor {
    Path { requested: String, resolved: PathRepr },
    Name(String),
}

impl View for RunQueryDescriptor {
    type V = RunQueryModel;

    open spec fn view(&self) -> RunQueryModel {
        match self {
            RunQueryDescriptor::Path { requested, resolved } => RunQueryModel::Path {
                requested: requested@,
                resolved: resolved@,
            },
            RunQueryDescriptor::Name(n) => RunQueryModel::Name(n@),
        }
    }
}

/// A granted executable: one resolved path, covered exactly (running a
/// directory's contents is not implied by running the directory).
#[derive(Debug, PartialEq, Eq)]
pub struct AllowRunDescriptor(pub PathRepr);

impl Clone for AllowRunDescriptor {
    fn clone(&self) -> (r: Self)
        ensures
            r@ == self@,
    {
        AllowRunDescriptor(self.0.duplicate())
    }
}

impl View for AllowRunDescriptor {
    type V = Seq<Seq<char>>;

    open spec fn view(&self) -> Seq<Seq<char>> {
        self.0@
    }
}

/// A denied executable: a bare command name, or a path prefix.
#[derive(Debug, PartialEq, Eq)]
pub enum DenyRunDescriptor {
    Name(String),
    Path(PathRepr),
}

impl Clone for DenyRunDescriptor {
    fn clone(&self) -> (r: Self)
        ensures
            r@ == self@,
    {
        match self {
            DenyRunDescriptor::Name(n) => DenyRunDescriptor::Name(str_copy(n.as_str())),
            DenyRunDescriptor::Path(p) => DenyRunDescriptor::Path(p.duplicate()),
        }
    }
}

impl View for DenyRunDescriptor {
    type V = DenyRunModel;

    open spec fn view(&self) -> DenyRunModel {
        match self {
            DenyRunDescriptor::Name(n) => DenyRunModel::Name(n@),
            DenyRunDescriptor::Path(p) => DenyRunModel::Path(p@),
        }
    }
}

impl DenyRunDescriptor {
    /// A denial from flag text: with a path separator it denies a path
    /// (resolved against the working directory), else a bare name.
    pub fn parse(text: &str, cwd: &PathRepr) -> (r: Self)
        ensures
            r@ == (if text@.contains('/') {
                DenyRunModel::Path(spec_resolve_from(text@, cwd@))
            } else {
                DenyRunModel::Name(text@)
            }),
    {
        if str_contains_char(text, '/') {
            DenyRunDescriptor::Path(resolve_from_known_cwd(text, cwd))
        } else {
            DenyRunDescriptor::Name(str_copy(text))
        }
    }
}

/// A run scope given by the embedder: a bare name or a path.
pub enum RunDescriptorArg {
    Name(String),
    Path(PathRepr),
}

/// Whether a query model is covered by a deny model.
pub open spec fn run_matches_deny(q: RunQueryModel, d: DenyRunModel) -> bool {
    match d {
        DenyRunModel::Name(deny_name) => match q {
            RunQueryModel::Path { resolved, .. } => spec_denies_run_name(deny_name, resolved),
            RunQueryModel::Name(query_name) => query_name == deny_name,
        },
        DenyRunModel::Path(deny_path) => match q {
            RunQueryModel::Path { resolved, .. } => path_contains(deny_path, resolved),
            RunQueryModel::Name(query_name) => spec_denies_run_name(query_name, deny_path),
        },
    }
}

impl QueryDescriptor for RunQueryDescriptor {
    type AllowDesc = AllowRunDescriptor;

    type DenyDesc = DenyRunDescriptor;

    open spec fn spec_matches_allow(q: RunQueryModel, a: Seq<Seq<char>>) -> bool {
        match q {
            RunQueryModel::Path { resolved, .. } => resolved == a,
            RunQueryModel::Name(_) => false,
        }
    }

    open spec fn spec_matches_deny(q: RunQueryModel, d: DenyRunModel) -> bool {
        run_matches_deny(q, d)
    }

    open spec fn spec_revokes(q: RunQueryModel, a: Seq<Seq<char>>) -> bool {
        match q {
            RunQueryModel::Path { requested, resolved } => resolved == a || (!requested.contains(
                '/',
            ) && spec_denies_run_name(requested, a)),
            RunQueryModel::Name(n) => spec_denies_run_name(n, a),
        }
    }

    open spec fn spec_stronger_than_deny(q: RunQueryModel, d: DenyRunModel) -> bool {
        run_matches_deny(q, d)
    }

    open spec fn spec_overlaps_deny(q: RunQueryModel, d: DenyRunModel) -> bool {
        false
    }

    open spec fn spec_as_allow(q: RunQueryModel) -> Option<Seq<Seq<char>>> {
        match q {
            RunQueryModel::Path { resolved, .. } => Some(resolved),
            RunQueryModel::Name(_) => None,
        }
    }

    open spec fn spec_as_deny(q: RunQueryModel) -> DenyRunModel {
        match q {
            RunQueryModel::Path { requested, resolved } => if requested.contains('/') {
                DenyRunModel::Path(resolved)
            } else {
                DenyRunModel::Name(requested)
            },
            RunQueryModel::Name(n) => DenyRunModel::Name(n),
        }
    }

    open spec fn spec_from_allow(a: Seq<Seq<char>>) -> RunQueryModel {
        RunQueryModel::Path { requested: crate::path::path_display_model(a), resolved: a }
    }

    open spec fn spec_flag_name() -> Seq<char> {
        "run"@
    }

    open spec fn spec_display_name(q: RunQueryModel) -> Seq<char> {
        match q {
            RunQueryModel::Path { requested, .. } => requested,
            RunQueryModel::Name(n) => n,
        }
    }

    open spec fn spec_check_non_partial() -> bool {
        false
    }

    fn flag_name() -> (r: &'static str) {
        "run"
    }

    fn check_non_partial() -> (r: bool) {
        false
    }

    fn display_name(&self) -> String {
        match self {
            RunQueryDescriptor::Path { requested, .. } => str_copy(requested.as_str()),
            RunQueryDescriptor::Name(name) => str_copy(name.as_str()),
        }
    }

    fn from_allow(allow: &AllowRunDescriptor) -> (r: Self) {
        RunQueryDescriptor::Path { requested: allow.0.display_text(), resolved: allow.0.duplicate() }
    }

    fn as_allow(&self) -> (r: Option<AllowRunDescriptor>) {
        match self {
            RunQueryDescriptor::Path { resolved, .. } => Some(
                AllowRunDescriptor(resolved.duplicate()),
            ),
            RunQueryDescriptor::Name(_) => None,
        }
    }

    fn as_deny(&self) -> (r: DenyRunDescriptor) {
        match self {
            RunQueryDescriptor::Path { resolved, requested } => {
                if str_contains_char(requested.as_str(), '/') {
                    let out = DenyRunDescriptor::Path(resolved.duplicate());
                    proof {
                        assert(out@ == Self::spec_as_deny(self@));
                    }
                    out
                } else {
                    let out = DenyRunDescriptor::Name(str_copy(requested.as_str()));
                    proof {
                        assert(out@ == Self::spec_as_deny(self@));
                    }
                    out
                }
            },
            RunQueryDescriptor::Name(name) => {
                let out = DenyRunDescriptor::Name(str_copy(name.as_str()));
                proof {
                    assert(out@ == Self::spec_as_deny(self@));
                }
                out
            },
        }
    }

    fn matches_allow(&self, other: &AllowRunDescriptor) -> (r: bool) {
        match self {
            RunQueryDescriptor::Path { resolved, .. } => resolved.same_as(&other.0),
            RunQueryDescriptor::Name(_) => false,
        }
    }

    fn matches_deny(&self, other: &DenyRunDescriptor) -> (r: bool) {
        let out: bool = match other {
            DenyRunDescriptor::Name(deny_name) => match self {
                RunQueryDescriptor::Path { resolved, .. } => denies_run_name(
                    deny_name.as_str(),
                    resolved,
                ),
                RunQueryDescriptor::Name(query) => crate::strings::str_eq(
                    query.as_str(),
                    deny_name.as_str(),
                ),
            },
            DenyRunDescriptor::Path(deny_path) => match self {
                RunQueryDescriptor::Path { resolved, .. } => resolved.starts_with(deny_path),
                RunQueryDescriptor::Name(query) => denies_run_name(query.as_str(), deny_path),
            },
        };
        proof {
            assert(out == Self::spec_matches_deny(self@, other@));
        }
        out
    }

    fn revokes(&self, other: &AllowRunDescriptor) -> (r: bool) {
        match self {
            RunQueryDescriptor::Path { resolved, requested } => {
                if resolved.same_as(&other.0) {
                    true
                } else if str_contains_char(requested.as_str(), '/') {
                    false
                } else {
                    denies_run_name(requested.as_str(), &other.0)
                }
            },
            RunQueryDescriptor::Name(query) => denies_run_name(query.as_str(), &other.0),
        }
    }

    fn stronger_than_deny(&self, other: &DenyRunDescriptor) -> (r: bool) {
        self.matches_deny(other)
    }

    fn overlaps_deny(&self, other: &DenyRunDescriptor) -> (r: bool) {
        false
    }

    fn clone_allow(a: &AllowRunDescriptor) -> (r: AllowRunDescriptor) {
        a.clone()
    }

    fn clone_deny(d: &DenyRunDescriptor) -> (r: DenyRunDescriptor) {
        d.clone()
    }

    proof fn lemma_as_allow_self_matches(q: RunQueryModel, a: Seq<Seq<char>>) {
    }
}


impl UnaryPermission<RunQueryDescriptor> {
    /// The state of a query (or of the whole kind, for `None`), reporting
    /// grants that a flag-denial partly overlaps as `GrantedPartial`.
    pub fn query(&self, desc: Option<&RunQueryDescriptor>) -> (r: PermissionState)
        ensures
            r == self.spec_query_desc(view_opt(desc), AllowPartial::TreatAsPartialGranted),
    {
        self.query_desc(desc, AllowPartial::TreatAsPartialGranted)
    }

    /// Asks for the permission now: prompts whenever the state allows it,
    /// and memoizes the answer.
    pub fn request<TPrompter: PermissionPrompter>(
        &mut self,
        desc: Option<&RunQueryDescriptor>,
        prompter: &mut TPrompter,
    ) -> (r: PermissionState)
        ensures
            exists|resp: Option<PromptResponse>|
                #[trigger] Self::spec_request_post(
                    *old(self),
                    *final(self),
                    view_opt(desc),
                    r,
                    resp,
                ),
    {
        self.request_desc(desc, prompter)
    }

    /// Revokes a query's grants, or — for `None` — clears the granted
    /// state entirely. Deny state is untouched. Returns the state the
    /// query has afterwards. A bare-name revocation also removes resolved
    /// paths whose file stem is the name.
    pub fn revoke(&mut self, desc: Option<&RunQueryDescriptor>) -> (r: PermissionState)
        ensures
            Self::frame_deny_and_prompt(*old(self), *final(self)),
            match view_opt(desc) {
                Some(qv) => final(self).granted_global == old(self).granted_global
                    && final(self).granted_list@ == Self::spec_revoke_filter(
                    qv,
                    old(self).granted_list@,
                ),
                None => final(self).granted_global == false && final(self).granted_list@.len()
                    == 0,
            },
            r == final(self).spec_query_desc(view_opt(desc), AllowPartial::TreatAsPartialGranted),
    {
        self.revoke_desc(desc)
    }

    /// Checks one query, prompting if needed and memoizing the answer.
    /// There is no fully-granted fast path here: a run check always
    /// consults the lists.
    pub fn check<TPrompter: PermissionPrompter>(
        &mut self,
        desc: &RunQueryDescriptor,
        api_name: Option<&str>,
        prompter: &mut TPrompter,
    ) -> (r: Result<(), PermError>)
        ensures
            Self::spec_checked_outcome(*old(self), *final(self), Some(desc@), false, false, r),
    {
        self.check_desc(Some(desc), false, api_name, prompter)
    }

    /// Checks the whole kind, prompting if needed.
    pub fn check_all<TPrompter: PermissionPrompter>(
        &mut self,
        api_name: Option<&str>,
        prompter: &mut TPrompter,
    ) -> (r: Result<(), PermError>)
        ensures
            Self::spec_checked_outcome(*old(self), *final(self), None, false, false, r),
    {
        self.check_desc(None, false, api_name, prompter)
    }

    /// Whether the whole kind passes without prompting: fully granted, or
    /// granted with no flag-denial in the way.
    pub fn query_all(&mut self, api_name: Option<&str>) -> (r: bool)
        ensures
            r == old(self).spec_silent_check_passes(None, true),
            *final(self) == *old(self),
    {
        if self.is_allow_all() {
            return true;
        }
        let state = self.query_desc(None, AllowPartial::TreatAsDenied);
        match state {
            PermissionState::Granted => true,
            _ => false,
        }
    }
}

} // verus!
