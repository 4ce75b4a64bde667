//! The engine's laws: what holds of every permission state, proved once
//! and for all over the spec model the contracts use.

use vstd::prelude::*;

use crate::errors::PermError;
use crate::fs::{PathQueryModel, ReadQueryDescriptor, WriteQueryDescriptor, FfiQueryDescriptor};
use crate::net::{net_matches, NetDescriptor, NetModel};
use crate::path::path_contains;
use crate::query::QueryDescriptor;
use crate::state::{AllowPartial, PermissionState, PromptResponse};
use crate::unary::UnaryPermission;

verus! {

/// Law: granting an ancestor covers every descendant. If some granted
/// entry holds the path `anc` and a read query resolves under `anc`, and
/// no denial of either sort reaches the query, then the query's state is
/// `Granted` — a check succeeds without prompting.
pub proof fn lemma_read_ancestor_grant(
    perm: UnaryPermission<ReadQueryDescriptor>,
    anc: Seq<Seq<char>>,
    q: PathQueryModel,
)
    requires
        exists|i: int|
            0 <= i && i < perm.granted_list@.len() && (#[trigger] perm.granted_list@[i])@ == anc,
        path_contains(anc, q.resolved),
        !perm.spec_is_flag_denied(Some(q)),
        !perm.spec_is_prompt_denied(Some(q)),
    ensures
        perm.spec_is_granted(Some(q)),
        perm.spec_query_desc(Some(q), AllowPartial::TreatAsGranted) == PermissionState::Granted,
        perm.spec_silent_check_passes(Some(q), false),
{
    let i = choose|i: int|
        0 <= i && i < perm.granted_list@.len() && (#[trigger] perm.granted_list@[i])@ == anc;
    assert(ReadQueryDescriptor::spec_matches_allow(q, perm.granted_list@[i]@));
}

/// Law: denying an ancestor blocks every descendant, whatever the granted
/// list holds — a grant of the descendant, before or after the denial,
/// cannot override it. The granted list is left entirely unconstrained
/// here: a flag-denial of a parent wins over an allow of a child.
pub proof fn lemma_read_ancestor_deny(
    perm: UnaryPermission<ReadQueryDescriptor>,
    anc: Seq<Seq<char>>,
    q: PathQueryModel,
)
    requires
        exists|i: int|
            0 <= i && i < perm.flag_denied_list@.len() && (#[trigger] perm.flag_denied_list@[i])@
                == anc,
        path_contains(anc, q.resolved),
    ensures
        perm.spec_is_flag_denied(Some(q)),
        perm.spec_query_desc(Some(q), AllowPartial::TreatAsGranted) == PermissionState::Denied,
        perm.spec_query_desc(Some(q), AllowPartial::TreatAsDenied) == PermissionState::Denied,
        perm.spec_query_desc(Some(q), AllowPartial::TreatAsPartialGranted)
            == PermissionState::Denied,
{
    let i = choose|i: int|
        0 <= i && i < perm.flag_denied_list@.len() && (#[trigger] perm.flag_denied_list@[i])@
            == anc;
    assert(ReadQueryDescriptor::spec_matches_deny(q, perm.flag_denied_list@[i]@));
}

/// The write kind obeys the same ancestor-grant law as the read kind.
pub proof fn lemma_write_ancestor_grant(
    perm: UnaryPermission<WriteQueryDescriptor>,
    anc: Seq<Seq<char>>,
    q: PathQueryModel,
)
    requires
        exists|i: int|
            0 <= i && i < perm.granted_list@.len() && (#[trigger] perm.granted_list@[i])@ == anc,
        path_contains(anc, q.resolved),
        !perm.spec_is_flag_denied(Some(q)),
        !perm.spec_is_prompt_denied(Some(q)),
    ensures
        perm.spec_is_granted(Some(q)),
        perm.spec_query_desc(Some(q), AllowPartial::TreatAsGranted) == PermissionState::Granted,
{
    let i = choose|i: int|
        0 <= i && i < perm.granted_list@.len() && (#[trigger] perm.granted_list@[i])@ == anc;
    assert(WriteQueryDescriptor::spec_matches_allow(q, perm.granted_list@[i]@));
}

/// The write kind obeys the same ancestor-denial law as the read kind.
pub proof fn lemma_write_ancestor_deny(
    perm: UnaryPermission<WriteQueryDescriptor>,
    anc: Seq<Seq<char>>,
    q: PathQueryModel,
)
    requires
        exists|i: int|
            0 <= i && i < perm.flag_denied_list@.len() && (#[trigger] perm.flag_denied_list@[i])@
                == anc,
        path_contains(anc, q.resolved),
    ensures
        perm.spec_is_flag_denied(Some(q)),
        perm.spec_query_desc(Some(q), AllowPartial::TreatAsGranted) == PermissionState::Denied,
        perm.spec_query_desc(Some(q), AllowPartial::TreatAsDenied) == PermissionState::Denied,
        perm.spec_query_desc(Some(q), AllowPartial::TreatAsPartialGranted)
            == PermissionState::Denied,
{
    let i = choose|i: int|
        0 <= i && i < perm.flag_denied_list@.len() && (#[trigger] perm.flag_denied_list@[i])@
            == anc;
    assert(WriteQueryDescriptor::spec_matches_deny(q, perm.flag_denied_list@[i]@));
}

/// The FFI kind obeys the same ancestor-denial law as the read kind.
pub proof fn lemma_ffi_ancestor_deny(
    perm: UnaryPermission<FfiQueryDescriptor>,
    anc: Seq<Seq<char>>,
    q: PathQueryModel,
)
    requires
        exists|i: int|
            0 <= i && i < perm.flag_denied_list@.len() && (#[trigger] perm.flag_denied_list@[i])@
                == anc,
        path_contains(anc, q.resolved),
    ensures
        perm.spec_is_flag_denied(Some(q)),
        perm.spec_query_desc(Some(q), AllowPartial::TreatAsPartialGranted)
            == PermissionState::Denied,
{
    let i = choose|i: int|
        0 <= i && i < perm.flag_denied_list@.len() && (#[trigger] perm.flag_denied_list@[i])@
            == anc;
    assert(FfiQueryDescriptor::spec_matches_deny(q, perm.flag_denied_list@[i]@));
}

/// Law: a network entry with a port covers exactly that port of its host;
/// one without a port covers every port of its host.
pub proof fn lemma_net_port_semantics(entry: NetModel, q: NetModel)
    ensures
        entry.port is Some ==> (net_matches(q, entry) <==> (q.host == entry.host && q.port
            == entry.port)),
        entry.port is None ==> (net_matches(q, entry) <==> q.host == entry.host),
{
}

/// Law: a portless network denial blocks every port of its host, whatever
/// the granted list holds.
pub proof fn lemma_net_deny_blocks_all_ports(perm: UnaryPermission<NetDescriptor>, q: NetModel)
    requires
        exists|i: int|
            0 <= i && i < perm.flag_denied_list@.len() && (#[trigger] perm.flag_denied_list@[i])@
                == (NetModel { host: q.host, port: None }),
    ensures
        perm.spec_is_flag_denied(Some(q)),
        perm.spec_query_desc(Some(q), AllowPartial::TreatAsPartialGranted)
            == PermissionState::Denied,
{
    let i = choose|i: int|
        0 <= i && i < perm.flag_denied_list@.len() && (#[trigger] perm.flag_denied_list@[i])@ == (
        NetModel { host: q.host, port: None });
    assert(NetDescriptor::spec_matches_deny(q, perm.flag_denied_list@[i]@));
}

/// Law: a network grant naming a port covers only that port: a query for
/// another port of the same host is not granted by it (though it may be
/// granted by other entries or globally).
pub proof fn lemma_net_grant_port_exact(entry: NetModel, q: NetModel)
    requires
        entry.port is Some,
        q.port != entry.port,
    ensures
        !net_matches(q, entry),
{
}

/// Law: revoking a whole kind is a hard reset of its granted state, and
/// the following whole-kind query answers `Prompt` — provided no sticky
/// denial of either sort exists. The granted list's prior contents are
/// irrelevant: it is cleared, not filtered.
pub proof fn lemma_revoke_all_then_prompt<TQuery: QueryDescriptor>(
    pre: UnaryPermission<TQuery>,
    post: UnaryPermission<TQuery>,
    s: PermissionState,
)
    requires
        UnaryPermission::<TQuery>::spec_revoke_post(pre, post, None, s),
        !pre.flag_denied_global,
        pre.flag_denied_list@.len() == 0,
        !pre.prompt_denied_global,
        pre.prompt_denied_list@.len() == 0,
    ensures
        s == PermissionState::Prompt,
        post.granted_global == false,
        post.granted_list@.len() == 0,
        post.spec_query_desc(None, AllowPartial::TreatAsPartialGranted) == PermissionState::Prompt,
{
}

/// Law: an interactive whole-kind answer of "allow all" engages the
/// global-grant fast path: after a prompted check of `desc` succeeded
/// that way, the same query's state is `Granted`, and a repeated check
/// succeeds without prompting and without touching the state again.
pub proof fn lemma_allow_all_answer_is_idempotent<TQuery: QueryDescriptor>(
    pre: UnaryPermission<TQuery>,
    mid: UnaryPermission<TQuery>,
    desc: Option<TQuery::V>,
    assert_non_partial: bool,
    r: Result<(), PermError>,
)
    requires
        UnaryPermission::<TQuery>::spec_check_post(
            pre,
            mid,
            desc,
            assert_non_partial,
            r,
            Some(PromptResponse::AllowAll),
            true,
            true,
        ),
    ensures
        r is Ok,
        mid.spec_query_desc(
            desc,
            if assert_non_partial {
                AllowPartial::TreatAsDenied
            } else {
                AllowPartial::TreatAsGranted
            },
        ) == PermissionState::Granted,
        forall|post2: UnaryPermission<TQuery>, r2: Result<(), PermError>, resp2: Option<
            PromptResponse,
        >, prompted2: bool, allow2: bool|
            #[trigger] UnaryPermission::<TQuery>::spec_check_post(
                mid,
                post2,
                desc,
                assert_non_partial,
                r2,
                resp2,
                prompted2,
                allow2,
            ) ==> r2 is Ok && !prompted2 && post2 == mid,
{
    let mode = if assert_non_partial {
        AllowPartial::TreatAsDenied
    } else {
        AllowPartial::TreatAsGranted
    };
    // the first check can only have prompted from the `Prompt` state, so
    // nothing denied the query before, and the memoized global grant
    // answers it now
    assert(pre.spec_query_desc(desc, mode) == PermissionState::Prompt);
    assert(mid.spec_is_granted(desc));
    assert(!mid.spec_is_flag_denied(desc));
    assert(!mid.spec_is_prompt_denied(desc));
    assert(!mid.spec_is_partial_flag_denied(desc) || mode == AllowPartial::TreatAsGranted);
    assert forall|post2: UnaryPermission<TQuery>, r2: Result<(), PermError>, resp2: Option<
        PromptResponse,
    >, prompted2: bool, allow2: bool|
        #[trigger] UnaryPermission::<TQuery>::spec_check_post(
            mid,
            post2,
            desc,
            assert_non_partial,
            r2,
            resp2,
            prompted2,
            allow2,
        ) implies r2 is Ok && !prompted2 && post2 == mid by {
        assert(mid.spec_query_desc(desc, mode) == PermissionState::Granted);
    }
}

/// Law: deriving a child scope from an explicit grant list fails whole as
/// soon as one listed descriptor is not covered by the (non-prompting)
/// parent: with the derivation's contract, the parent then returns the
/// escalation error unchanged, and no partial grant is applied.
pub proof fn lemma_grant_list_escalation<TQuery: QueryDescriptor>(
    parent: UnaryPermission<TQuery>,
    list: Vec<TQuery::AllowDesc>,
    i: int,
)
    requires
        !parent.prompt,
        0 <= i && i < list@.len(),
        !parent.spec_silent_check_passes(
            Some(TQuery::spec_from_allow(list@[i]@)),
            TQuery::spec_check_non_partial(),
        ),
    ensures
        !parent.spec_all_silently_pass(list@),
{
}

} // verus!
