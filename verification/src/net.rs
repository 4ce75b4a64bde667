//! The network and import descriptor kinds: a host plus an optional port.
//!
//! A query matches an entry when the hosts are the same and the entry
//! either names no port (any port of that host is covered) or names the
//! query's port exactly.

use vstd::prelude::*;

use crate::errors::{uri_error, PermError};
use crate::host::{host_display_model, host_parse_model, ipv6_canon, Host, HostModel, IpRepr};
use crate::query::QueryDescriptor;
use crate::strings::{
    dec_digits, dec_value, find_char, is_port_number, is_prefix_of, parse_u16, port_digits,
    str_starts_with, u16_to_dec,
};
use crate::query::view_opt;
use crate::state::{AllowPartial, PermissionPrompter, PermissionState, PromptResponse};
use crate::unary::UnaryPermission;

verus! {

/// The mathematical shape of a network descriptor.
pub struct NetModel {
    pub host: HostModel,
    pub port: Option<u16>,
}

/// A network query, allow entry and deny entry: a host, and the one port
/// it speaks of — or none, which in an entry means every port of that
/// host, and in a query means the whole host is asked for.
#[derive(Debug, PartialEq, Eq)]
pub struct NetDescriptor(pub Host, pub Option<u16>);

impl View for NetDescriptor {
    type V = NetModel;

    open spec fn view(&self) -> NetModel {
        NetModel { host: self.0@, port: self.1 }
    }
}

impl Clone for NetDescriptor {
    fn clone(&self) -> (r: Self)
        ensures
            r@ == self@,
    {
        NetDescriptor(self.0.duplicate(), self.1)
    }
}

/// Whether a query's host and port fall inside an entry's scope.
pub open spec fn net_matches(q: NetModel, e: NetModel) -> bool {
    q.host == e.host && (e.port is None || q.port == e.port)
}

/// What parsing a network descriptor from text yields: an optional
/// bracketed IPv6 literal with a port, or a host text with an optional
/// port after a colon. A URL, an empty port after a colon, a malformed
/// port, or a malformed host yields nothing.
pub open spec fn net_parse_model(s: Seq<char>) -> Option<NetModel> {
    if is_prefix_of("http://"@, s) || is_prefix_of("https://"@, s) {
        None
    } else if s.len() > 0 && s[0] == '[' {
        net_parse_bracketed_model(s)
    } else {
        net_parse_plain_model(s)
    }
}

/// Parsing a text that opens a bracketed IPv6 literal: everything up to
/// the first closing bracket is the address; after it, nothing, or a colon
/// and a port.
pub open spec fn net_parse_bracketed_model(s: Seq<char>) -> Option<NetModel> {
    if !(exists|k: int| 0 <= k && k < s.len() && s[k] == ']') {
        None
    } else {
        let k = first_index_of(s, ']');
        match ipv6_canon(s.subrange(0, k + 1)) {
            None => None,
            Some(c) => {
                let after = s.subrange(k + 1, s.len() as int);
                if after.len() == 0 {
                    Some(NetModel { host: HostModel::Ip6(c), port: None })
                } else if after[0] == ':' {
                    let p = after.subrange(1, after.len() as int);
                    if is_port_number(p) {
                        Some(
                            NetModel {
                                host: HostModel::Ip6(c),
                                port: Some(dec_value(port_digits(p)) as u16),
                            },
                        )
                    } else {
                        None
                    }
                } else {
                    None
                }
            },
        }
    }
}

/// Parsing a host text with an optional `:port`: the part before the
/// first colon is the host; a colon followed by nothing is an error.
pub open spec fn net_parse_plain_model(s: Seq<char>) -> Option<NetModel> {
    if exists|k: int| 0 <= k && k < s.len() && s[k] == ':' {
        let k = first_index_of(s, ':');
        let host_text = s.subrange(0, k);
        let port_text = s.subrange(k + 1, s.len() as int);
        if port_text.len() == 0 {
            None
        } else if !is_port_number(port_text) {
            None
        } else {
            match host_parse_model(host_text) {
                Some(h) => Some(
                    NetModel { host: h, port: Some(dec_value(port_digits(port_text)) as u16) },
                ),
                None => None,
            }
        }
    } else {
        match host_parse_model(s) {
            Some(h) => Some(NetModel { host: h, port: None }),
            None => None,
        }
    }
}

/// The first position of `c` in `s` (meaningful only when one exists).
pub open spec fn first_index_of(s: Seq<char>, c: char) -> int {
    choose|k: int| 0 <= k && k < s.len() && s[k] == c && (forall|j: int| 0 <= j && j < k ==> s[j] != c)
}

impl NetDescriptor {
    /// Parses `host`, `host:port`, `[ipv6]` or `[ipv6]:port`. URLs are
    /// rejected outright, as are empty or malformed ports and hosts.
    pub fn parse(hostname: &str) -> (r: Result<Self, PermError>)
        ensures
            match r {
                Ok(d) => net_parse_model(hostname@) == Some(d@),
                Err(_) => net_parse_model(hostname@) is None,
            },
    {
        if str_starts_with(hostname, "http://") || str_starts_with(hostname, "https://") {
            let mut msg = String::new();
            msg.append("invalid value '");
            msg.append(hostname);
            msg.append("': URLs are not supported, only domains and ips");
            return Err(uri_error(msg));
        }
        let n = hostname.unicode_len();
        if n > 0 && hostname.get_char(0) == '[' {
            // a bracketed IPv6 literal, maybe with a port
            match find_char(hostname, ']') {
                Some(k) => {
                    proof {
                        assert(first_index_of(hostname@, ']') == k as int) by {
                            let w = first_index_of(hostname@, ']');
                            assert(0 <= k as int && (k as int) < hostname@.len() && hostname@[
                                k as int
                            ] == ']' && (forall|j: int|
                                0 <= j && j < k as int ==> hostname@[j] != ']'));
                        }
                    }
                    let ip_text = hostname.substring_char(0, k + 1);
                    let after: &str = hostname.substring_char(k + 1, n);
                    let canon = match crate::host::parse_ipv6_literal(ip_text) {
                        Some(c) => c,
                        None => {
                            let mut msg = String::new();
                            msg.append("invalid IPv6 address in '");
                            msg.append(hostname);
                            msg.append("'");
                            return Err(uri_error(msg));
                        },
                    };
                    if after.unicode_len() == 0 {
                        return Ok(NetDescriptor(Host::Ip(IpRepr::V6(canon)), None));
                    }
                    if after.get_char(0) == ':' {
                        let port_text = after.substring_char(1, after.unicode_len());
                        proof {
                            assert(port_text@ =~= hostname@.subrange(
                                k + 1 as int,
                                hostname@.len() as int,
                            ).subrange(
                                1,
                                hostname@.subrange(
                                    k + 1 as int,
                                    hostname@.len() as int,
                                ).len() as int,
                            ));
                        }
                        match parse_u16(port_text) {
                            Some(p) => {
                                return Ok(NetDescriptor(Host::Ip(IpRepr::V6(canon)), Some(p)));
                            },
                            None => {
                                let mut msg = String::new();
                                msg.append("invalid port in '");
                                msg.append(hostname);
                                msg.append("': '");
                                msg.append(port_text);
                                msg.append("'");
                                return Err(uri_error(msg));
                            },
                        }
                    }
                    let mut msg = String::new();
                    msg.append("invalid host: '");
                    msg.append(hostname);
                    msg.append("'");
                    return Err(uri_error(msg));
                },
                None => {
                    let mut msg = String::new();
                    msg.append("invalid host: '");
                    msg.append(hostname);
                    msg.append("'");
                    return Err(uri_error(msg));
                },
            }
        }
        // a plain host, maybe followed by a port
        let (host_text, port_text): (&str, Option<&str>) = match find_char(hostname, ':') {
            Some(k) => {
                proof {
                    assert(first_index_of(hostname@, ':') == k as int) by {
                        assert(0 <= k as int && (k as int) < hostname@.len() && hostname@[k as int]
                            == ':' && (forall|j: int|
                            0 <= j && j < k as int ==> hostname@[j] != ':'));
                    }
                }
                (hostname.substring_char(0, k), Some(hostname.substring_char(k + 1, n)))
            },
            None => (hostname, None),
        };
        let port: Option<u16> = match port_text {
            Some(p) => {
                if p.unicode_len() == 0 {
                    let mut msg = String::new();
                    msg.append("invalid empty port in '");
                    msg.append(hostname);
                    msg.append("'");
                    return Err(uri_error(msg));
                }
                match parse_u16(p) {
                    Some(v) => Some(v),
                    None => {
                        // a helpful hint for a bare IPv6 address
                        let mut msg = String::new();
                        if crate::strings::str_contains_char(p, ':') {
                            msg.append("ipv6 addresses must be enclosed in square brackets: '");
                            msg.append(hostname);
                            msg.append("'");
                        } else {
                            msg.append("invalid port in '");
                            msg.append(hostname);
                            msg.append("': '");
                            msg.append(p);
                            msg.append("'");
                        }
                        return Err(uri_error(msg));
                    },
                }
            },
            None => None,
        };
        match Host::parse(host_text) {
            Ok(h) => Ok(NetDescriptor(h, port)),
            Err(e) => Err(e),
        }
    }

    /// The display text: the host, then `:port` if one is named.
    pub fn display_text(&self) -> (r: String)
        ensures
            r@ == net_display_model(self@),
    {
        let mut out = self.0.display_text();
        match self.1 {
            Some(p) => {
                proof {
                    reveal_strlit(":");
                }
                out.append(":");
                let digits = u16_to_dec(p);
                out.append(digits.as_str());
            },
            None => {},
        }
        out
    }
}

/// The display text of a network descriptor model.
pub open spec fn net_display_model(m: NetModel) -> Seq<char> {
    match m.port {
        Some(p) => host_display_model(m.host) + ":"@ + dec_digits(p as int),
        None => host_display_model(m.host),
    }
}

impl QueryDescriptor for NetDescriptor {
    type AllowDesc = NetDescriptor;

    type DenyDesc = NetDescriptor;

    open spec fn spec_matches_allow(q: NetModel, a: NetModel) -> bool {
        net_matches(q, a)
    }

    open spec fn spec_matches_deny(q: NetModel, d: NetModel) -> bool {
        net_matches(q, d)
    }

    open spec fn spec_revokes(q: NetModel, a: NetModel) -> bool {
        net_matches(q, a)
    }

    open spec fn spec_stronger_than_deny(q: NetModel, d: NetModel) -> bool {
        net_matches(q, d)
    }

    open spec fn spec_overlaps_deny(q: NetModel, d: NetModel) -> bool {
        false
    }

    open spec fn spec_as_allow(q: NetModel) -> Option<NetModel> {
        Some(q)
    }

    open spec fn spec_as_deny(q: NetModel) -> NetModel {
        q
    }

    open spec fn spec_from_allow(a: NetModel) -> NetModel {
        a
    }

    open spec fn spec_flag_name() -> Seq<char> {
        "net"@
    }

    open spec fn spec_display_name(q: NetModel) -> Seq<char> {
        net_display_model(q)
    }

    open spec fn spec_check_non_partial() -> bool {
        false
    }

    fn flag_name() -> (r: &'static str) {
        "net"
    }

    fn check_non_partial() -> (r: bool) {
        false
    }

    fn display_name(&self) -> String {
        self.display_text()
    }

    fn from_allow(allow: &NetDescriptor) -> (r: Self) {
        allow.clone()
    }

    fn as_allow(&self) -> (r: Option<NetDescriptor>) {
        Some(self.clone())
    }

    fn as_deny(&self) -> (r: NetDescriptor) {
        self.clone()
    }

    fn matches_allow(&self, other: &NetDescriptor) -> (r: bool) {
        self.matches_entry(other)
    }

    fn matches_deny(&self, other: &NetDescriptor) -> (r: bool) {
        self.matches_entry(other)
    }

    fn revokes(&self, other: &NetDescriptor) -> (r: bool) {
        self.matches_entry(other)
    }

    fn stronger_than_deny(&self, other: &NetDescriptor) -> (r: bool) {
        self.matches_entry(other)
    }

    fn overlaps_deny(&self, other: &NetDescriptor) -> (r: bool) {
        false
    }

    fn clone_allow(a: &NetDescriptor) -> (r: NetDescriptor) {
        a.clone()
    }

    fn clone_deny(d: &NetDescriptor) -> (r: NetDescriptor) {
        d.clone()
    }

    proof fn lemma_as_allow_self_matches(q: NetModel, a: NetModel) {
    }
}

impl NetDescriptor {
    /// Whether this query falls inside the entry's scope: same host, and
    /// the entry names no port or exactly this one.
    pub fn matches_entry(&self, other: &NetDescriptor) -> (r: bool)
        ensures
            r == net_matches(self@, other@),
    {
        if !self.0.same_host(&other.0) {
            return false;
        }
        match (&self.1, &other.1) {
            (_, Option::None) => true,
            (Option::Some(p), Option::Some(q)) => p == q,
            (Option::None, Option::Some(_)) => false,
        }
    }
}

/// A module-import query, allow entry and deny entry: network scope,
/// matched exactly as network descriptors are.
#[derive(Debug, PartialEq, Eq)]
pub struct ImportDescriptor(pub NetDescriptor);

impl View for ImportDescriptor {
    type V = NetModel;

    open spec fn view(&self) -> NetModel {
        self.0@
    }
}

impl Clone for ImportDescriptor {
    fn clone(&self) -> (r: Self)
        ensures
            r@ == self@,
    {
        ImportDescriptor(self.0.clone())
    }
}

impl ImportDescriptor {
    /// Parses an import scope, with the network descriptor grammar.
    pub fn parse(specifier: &str) -> (r: Result<Self, PermError>)
        ensures
            match r {
                Ok(d) => net_parse_model(specifier@) == Some(d@),
                Err(_) => net_parse_model(specifier@) is None,
            },
    {
        match NetDescriptor::parse(specifier) {
            Ok(d) => Ok(ImportDescriptor(d)),
            Err(e) => Err(e),
        }
    }
}

impl QueryDescriptor for ImportDescriptor {
    type AllowDesc = ImportDescriptor;

    type DenyDesc = ImportDescriptor;

    open spec fn spec_matches_allow(q: NetModel, a: NetModel) -> bool {
        net_matches(q, a)
    }

    open spec fn spec_matches_deny(q: NetModel, d: NetModel) -> bool {
        net_matches(q, d)
    }

    open spec fn spec_revokes(q: NetModel, a: NetModel) -> bool {
        net_matches(q, a)
    }

    open spec fn spec_stronger_than_deny(q: NetModel, d: NetModel) -> bool {
        net_matches(q, d)
    }

    open spec fn spec_overlaps_deny(q: NetModel, d: NetModel) -> bool {
        false
    }

    open spec fn spec_as_allow(q: NetModel) -> Option<NetModel> {
        Some(q)
    }

    open spec fn spec_as_deny(q: NetModel) -> NetModel {
        q
    }

    open spec fn spec_from_allow(a: NetModel) -> NetModel {
        a
    }

    open spec fn spec_flag_name() -> Seq<char> {
        "import"@
    }

    open spec fn spec_display_name(q: NetModel) -> Seq<char> {
        net_display_model(q)
    }

    open spec fn spec_check_non_partial() -> bool {
        false
    }

    fn flag_name() -> (r: &'static str) {
        "import"
    }

    fn check_non_partial() -> (r: bool) {
        false
    }

    fn display_name(&self) -> String {
        self.0.display_text()
    }

    fn from_allow(allow: &ImportDescriptor) -> (r: Self) {
        allow.clone()
    }

    fn as_allow(&self) -> (r: Option<ImportDescriptor>) {
        Some(self.clone())
    }

    fn as_deny(&self) -> (r: ImportDescriptor) {
        self.clone()
    }

    fn matches_allow(&self, other: &ImportDescriptor) -> (r: bool) {
        self.0.matches_entry(&other.0)
    }

    fn matches_deny(&self, other: &ImportDescriptor) -> (r: bool) {
        self.0.matches_entry(&other.0)
    }

    fn revokes(&self, other: &ImportDescriptor) -> (r: bool) {
        self.0.matches_entry(&other.0)
    }

    fn stronger_than_deny(&self, other: &ImportDescriptor) -> (r: bool) {
        self.0.matches_entry(&other.0)
    }

    fn overlaps_deny(&self, other: &ImportDescriptor) -> (r: bool) {
        false
    }

    fn clone_allow(a: &ImportDescriptor) -> (r: ImportDescriptor) {
        a.clone()
    }

    fn clone_deny(d: &ImportDescriptor) -> (r: ImportDescriptor) {
        d.clone()
    }

    proof fn lemma_as_allow_self_matches(q: NetModel, a: NetModel) {
    }
}


impl UnaryPermission<NetDescriptor> {
    /// The state of a query (or of the whole kind, for `None`), reporting
    /// grants that a flag-denial partly overlaps as `GrantedPartial`.
    pub fn query(&self, desc: Option<&NetDescriptor>) -> (r: PermissionState)
        ensures
            r == self.spec_query_desc(view_opt(desc), AllowPartial::TreatAsPartialGranted),
    {
        self.query_desc(desc, AllowPartial::TreatAsPartialGranted)
    }

    /// Asks for the permission now: prompts whenever the state allows it,
    /// and memoizes the answer.
    pub fn request<TPrompter: PermissionPrompter>(
        &mut self,
        desc: Option<&NetDescriptor>,
        prompter: &mut TPrompter,
    ) -> (r: PermissionState)
        ensures
            exists|resp: Option<PromptResponse>|
                #[trigger] Self::spec_request_post(
                    *old(self),
                    *final(self),
                    view_opt(desc),
                    r,
                    resp,
                ),
    {
        self.request_desc(desc, prompter)
    }

    /// Revokes a query's grants, or — for `None` — clears the granted
    /// state entirely. Deny state is untouched. Returns the state the
    /// query has afterwards.
    pub fn revoke(&mut self, desc: Option<&NetDescriptor>) -> (r: PermissionState)
        ensures
            Self::frame_deny_and_prompt(*old(self), *final(self)),
            match view_opt(desc) {
                Some(qv) => final(self).granted_global == old(self).granted_global
                    && final(self).granted_list@ == Self::spec_revoke_filter(
                    qv,
                    old(self).granted_list@,
                ),
                None => final(self).granted_global == false && final(self).granted_list@.len()
                    == 0,
            },
            r == final(self).spec_query_desc(view_opt(desc), AllowPartial::TreatAsPartialGranted),
    {
        self.revoke_desc(desc)
    }

    /// Checks one query, prompting if needed and memoizing the answer.
    pub fn check<TPrompter: PermissionPrompter>(
        &mut self,
        desc: &NetDescriptor,
        api_name: Option<&str>,
        prompter: &mut TPrompter,
    ) -> (r: Result<(), PermError>)
        ensures
            Self::spec_checked_outcome(
                *old(self),
                *final(self),
                Some(desc@),
                false,
                true,
                r,
            ),
    {
        if self.is_allow_all() {
            return Ok(());
        }
        self.check_desc(Some(desc), false, api_name, prompter)
    }

    /// Checks the whole kind, prompting if needed.
    pub fn check_all<TPrompter: PermissionPrompter>(
        &mut self,
        prompter: &mut TPrompter,
    ) -> (r: Result<(), PermError>)
        ensures
            Self::spec_checked_outcome(*old(self), *final(self), None, false, true, r),
    {
        if self.is_allow_all() {
            return Ok(());
        }
        self.check_desc(None, false, None, prompter)
    }
}

impl UnaryPermission<ImportDescriptor> {
    /// The state of a query (or of the whole kind, for `None`), reporting
    /// grants that a flag-denial partly overlaps as `GrantedPartial`.
    pub fn query(&self, desc: Option<&ImportDescriptor>) -> (r: PermissionState)
        ensures
            r == self.spec_query_desc(view_opt(desc), AllowPartial::TreatAsPartialGranted),
    {
        self.query_desc(desc, AllowPartial::TreatAsPartialGranted)
    }

    /// Asks for the permission now: prompts whenever the state allows it,
    /// and memoizes the answer.
    pub fn request<TPrompter: PermissionPrompter>(
        &mut self,
        desc: Option<&ImportDescriptor>,
        prompter: &mut TPrompter,
    ) -> (r: PermissionState)
        ensures
            exists|resp: Option<PromptResponse>|
                #[trigger] Self::spec_request_post(
                    *old(self),
                    *final(self),
                    view_opt(desc),
                    r,
                    resp,
                ),
    {
        self.request_desc(desc, prompter)
    }

    /// Revokes a query's grants, or — for `None` — clears the granted
    /// state entirely. Deny state is untouched. Returns the state the
    /// query has afterwards.
    pub fn revoke(&mut self, desc: Option<&ImportDescriptor>) -> (r: PermissionState)
        ensures
            Self::frame_deny_and_prompt(*old(self), *final(self)),
            match view_opt(desc) {
                Some(qv) => final(self).granted_global == old(self).granted_global
                    && final(self).granted_list@ == Self::spec_revoke_filter(
                    qv,
                    old(self).granted_list@,
                ),
                None => final(self).granted_global == false && final(self).granted_list@.len()
                    == 0,
            },
            r == final(self).spec_query_desc(view_opt(desc), AllowPartial::TreatAsPartialGranted),
    {
        self.revoke_desc(desc)
    }

    /// Checks one query, prompting if needed and memoizing the answer.
    pub fn check<TPrompter: PermissionPrompter>(
        &mut self,
        desc: &ImportDescriptor,
        api_name: Option<&str>,
        prompter: &mut TPrompter,
    ) -> (r: Result<(), PermError>)
        ensures
            Self::spec_checked_outcome(
                *old(self),
                *final(self),
                Some(desc@),
                false,
                true,
                r,
            ),
    {
        if self.is_allow_all() {
            return Ok(());
        }
        self.check_desc(Some(desc), false, api_name, prompter)
    }

    /// Checks the whole kind, prompting if needed.
    pub fn check_all<TPrompter: PermissionPrompter>(
        &mut self,
        prompter: &mut TPrompter,
    ) -> (r: Result<(), PermError>)
        ensures
            Self::spec_checked_outcome(*old(self), *final(self), None, false, true, r),
    {
        if self.is_allow_all() {
            return Ok(());
        }
        self.check_desc(None, false, None, prompter)
    }
}

} // verus!
