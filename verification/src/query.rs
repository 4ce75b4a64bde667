//! The protocol every descriptor kind implements: containment and matching
//! rules, conversion between query and allow/deny shapes, and display.
//!
//! The meaning of each exec method is a spec function over the *views* of
//! its arguments, so the generic permission engine can state what it does
//! to its lists purely in terms of descriptor models, and a stored copy of
//! a descriptor behaves exactly like the descriptor it was taken from.

use vstd::prelude::*;

verus! {

/// One descriptor kind: the shape of an incoming query, with its allow and
/// deny list entry types and their asymmetric matching rules.
pub trait QueryDescriptor: View + Sized {
    /// The canonical form stored in granted lists.
    type AllowDesc: View + Clone + PartialEq + Eq + core::fmt::Debug;

    /// The canonical form stored in denied lists.
    type DenyDesc: View + Clone + PartialEq + Eq + core::fmt::Debug;

    /// Whether a query falls inside the scope of an allow entry.
    spec fn spec_matches_allow(q: Self::V, a: <Self::AllowDesc as View>::V) -> bool;

    /// Whether a query falls inside the scope of a deny entry.
    spec fn spec_matches_deny(q: Self::V, d: <Self::DenyDesc as View>::V) -> bool;

    /// Whether revoking a query removes the given allow entry.
    spec fn spec_revokes(q: Self::V, a: <Self::AllowDesc as View>::V) -> bool;

    /// Whether a query, if granted, would reach the scope of the given
    /// deny entry (for path kinds: the deny entry lies under the query).
    spec fn spec_stronger_than_deny(q: Self::V, d: <Self::DenyDesc as View>::V) -> bool;

    /// Whether a grant of the query merely overlaps the deny entry, for
    /// partial-denial reporting.
    spec fn spec_overlaps_deny(q: Self::V, d: <Self::DenyDesc as View>::V) -> bool;

    /// The allow-entry model a query memoizes as, if any; a query that
    /// must never grant anything (an unresolved command name) has none.
    spec fn spec_as_allow(q: Self::V) -> Option<<Self::AllowDesc as View>::V>;

    /// The deny-entry model a query memoizes as.
    spec fn spec_as_deny(q: Self::V) -> <Self::DenyDesc as View>::V;

    /// The query model an allow entry turns back into.
    spec fn spec_from_allow(a: <Self::AllowDesc as View>::V) -> Self::V;

    /// The stable identifier of the kind, as flags and messages use it.
    spec fn spec_flag_name() -> Seq<char>;

    /// The human text of a query, as prompts and errors show it: the
    /// originally requested form where one is carried, not the canonical
    /// one.
    spec fn spec_display_name(q: Self::V) -> Seq<char>;

    /// Whether a check of one descriptor of this kind treats a partial
    /// flag-denial as a denial (true for the path kinds, whose checks are
    /// strict) rather than ignoring it.
    spec fn spec_check_non_partial() -> bool;

    fn flag_name() -> (r: &'static str)
        ensures
            r@ == Self::spec_flag_name(),
    ;

    fn check_non_partial() -> (r: bool)
        ensures
            r == Self::spec_check_non_partial(),
    ;

    /// The human text for prompts and errors: the originally requested
    /// form where one is carried, not the canonical one.
    fn display_name(&self) -> (r: String)
        ensures
            r@ == Self::spec_display_name(self@),
    ;

    fn from_allow(allow: &Self::AllowDesc) -> (r: Self)
        ensures
            r@ == Self::spec_from_allow(allow@),
    ;

    fn as_allow(&self) -> (r: Option<Self::AllowDesc>)
        ensures
            match r {
                Some(a) => Self::spec_as_allow(self@) == Some(a@),
                None => Self::spec_as_allow(self@) is None,
            },
    ;

    fn as_deny(&self) -> (r: Self::DenyDesc)
        ensures
            r@ == Self::spec_as_deny(self@),
    ;

    fn matches_allow(&self, other: &Self::AllowDesc) -> (r: bool)
        ensures
            r == Self::spec_matches_allow(self@, other@),
    ;

    fn matches_deny(&self, other: &Self::DenyDesc) -> (r: bool)
        ensures
            r == Self::spec_matches_deny(self@, other@),
    ;

    fn revokes(&self, other: &Self::AllowDesc) -> (r: bool)
        ensures
            r == Self::spec_revokes(self@, other@),
    ;

    fn stronger_than_deny(&self, other: &Self::DenyDesc) -> (r: bool)
        ensures
            r == Self::spec_stronger_than_deny(self@, other@),
    ;

    fn overlaps_deny(&self, other: &Self::DenyDesc) -> (r: bool)
        ensures
            r == Self::spec_overlaps_deny(self@, other@),
    ;

    /// An allow entry with the same contents.
    fn clone_allow(a: &Self::AllowDesc) -> (r: Self::AllowDesc)
        ensures
            r@ == a@,
    ;

    /// A deny entry with the same contents.
    fn clone_deny(d: &Self::DenyDesc) -> (r: Self::DenyDesc)
        ensures
            r@ == d@,
    ;

    /// Law: the allow entry a query memoizes as falls inside the query's
    /// own scope, so a grant recorded from a prompt answers the same query.
    proof fn lemma_as_allow_self_matches(q: Self::V, a: <Self::AllowDesc as View>::V)
        requires
            Self::spec_as_allow(q) == Some(a),
        ensures
            Self::spec_matches_allow(q, a),
    ;
}

/// The view of an optional query reference.
pub open spec fn view_opt<TQuery: View>(desc: Option<&TQuery>) -> Option<TQuery::V> {
    match desc {
        Some(q) => Some(q@),
        None => None,
    }
}

} // verus!
