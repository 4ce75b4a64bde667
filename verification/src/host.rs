//! The host model for network-like descriptors.
//!
//! A host is either a fully-qualified domain name (stored lowercased, with
//! any single trailing dot stripped, never the bare DNS root) or an IP
//! address. IPv4 addresses are parsed here, against the standard decimal
//! grammar; IPv6 literals go through the `url` crate and are stored by
//! their canonical text, so two spellings of one address compare equal.

use vstd::prelude::*;

use crate::errors::{uri_error, PermError};
use crate::strings::{
    all_digits, ascii_lowercase, dec_value, is_digit, lower_seq, spec_split, split_char,
    str_copy, str_ends_with_char, str_eq,
};

verus! {

/// An IP address: four decimal octets, or the canonical text of an IPv6
/// address (without brackets).
#[derive(Debug, PartialEq, Eq)]
pub enum IpRepr {
    V4(u8, u8, u8, u8),
    V6(String),
}

/// A host: a validated, lowercased, non-root domain name, or an IP address.
#[derive(Debug, PartialEq, Eq)]
pub enum Host {
    Fqdn(String),
    Ip(IpRepr),
}

/// The mathematical shape of a host.
pub enum HostModel {
    Fqdn(Seq<char>),
    Ip4(u8, u8, u8, u8),
    Ip6(Seq<char>),
}

/// The model of a host value.
pub open spec fn host_model(h: &Host) -> HostModel {
    match h {
        Host::Fqdn(s) => HostModel::Fqdn(s@),
        Host::Ip(IpRepr::V4(a, b, c, d)) => HostModel::Ip4(*a, *b, *c, *d),
        Host::Ip(IpRepr::V6(t)) => HostModel::Ip6(t@),
    }
}

impl View for Host {
    type V = HostModel;

    open spec fn view(&self) -> HostModel {
        host_model(self)
    }
}

// ---------------------------------------------------------------------------
// IPv4: the standard library's decimal grammar, implemented here.
// ---------------------------------------------------------------------------

/// One decimal IPv4 octet: one to three digits, no leading zero, at most
/// 255.
pub open spec fn is_ipv4_octet(p: Seq<char>) -> bool {
    1 <= p.len() <= 3 && all_digits(p) && (p.len() > 1 ==> p[0] != '0') && dec_value(p) <= 255
}

/// Whether `s` is a dotted-decimal IPv4 address: exactly four octets.
pub open spec fn is_ipv4_text(s: Seq<char>) -> bool {
    let parts = spec_split(s, '.');
    parts.len() == 4 && (forall|i: int| 0 <= i < 4 ==> is_ipv4_octet(#[trigger] parts[i]))
}

/// The octet values of a dotted-decimal IPv4 address.
pub open spec fn ipv4_octets(s: Seq<char>) -> (u8, u8, u8, u8) {
    let parts = spec_split(s, '.');
    (
        dec_value(parts[0]) as u8,
        dec_value(parts[1]) as u8,
        dec_value(parts[2]) as u8,
        dec_value(parts[3]) as u8,
    )
}

/// Parses one decimal octet.
fn parse_ipv4_octet(p: &str) -> (r: Option<u8>)
    ensures
        match r {
            Some(v) => is_ipv4_octet(p@) && v == dec_value(p@),
            None => !is_ipv4_octet(p@),
        },
{
    let n = p.unicode_len();
    if n == 0 || n > 3 {
        return None;
    }
    let mut acc: u32 = 0;
    let mut i: usize = 0;
    while i < n
        invariant
            n == p@.len(),
            1 <= n <= 3,
            i <= n,
            forall|j: int| 0 <= j < i ==> is_digit(#[trigger] p@[j]),
            acc == dec_value(p@.subrange(0, i as int)),
            i == 0 ==> acc == 0,
            i == 1 ==> acc < 10,
            i == 2 ==> acc < 100,
            i == 3 ==> acc < 1000,
        decreases n - i,
    {
        let c = p.get_char(i);
        let u = c as u32;
        if u < 48 || u > 57 {
            proof {
                assert(!is_digit(p@[i as int]));
            }
            return None;
        }
        proof {
            assert(p@.subrange(0, i + 1 as int).drop_last() =~= p@.subrange(0, i as int));
            assert(p@.subrange(0, i + 1 as int).last() == p@[i as int]);
        }
        acc = acc * 10 + (u - 48);
        i += 1;
    }
    proof {
        assert(p@.subrange(0, n as int) =~= p@);
    }
    if n > 1 && p.get_char(0) == '0' {
        return None;
    }
    if acc > 255 {
        return None;
    }
    Some(acc as u8)
}

/// Parses a dotted-decimal IPv4 address, with the standard grammar: four
/// octets of one to three digits each, no leading zeros, at most 255.
pub fn parse_ipv4(s: &str) -> (r: Option<(u8, u8, u8, u8)>)
    ensures
        match r {
            Some(v) => is_ipv4_text(s@) && v == ipv4_octets(s@),
            None => !is_ipv4_text(s@),
        },
{
    let parts = split_char(s, '.');
    proof {
        assert(parts.deep_view().len() == parts@.len());
    }
    if parts.len() != 4 {
        return None;
    }
    proof {
        assert(parts.deep_view()[0] == parts@[0]@);
        assert(parts.deep_view()[1] == parts@[1]@);
        assert(parts.deep_view()[2] == parts@[2]@);
        assert(parts.deep_view()[3] == parts@[3]@);
    }
    let a = match parse_ipv4_octet(parts[0].as_str()) {
        Some(v) => v,
        None => { return None; },
    };
    let b = match parse_ipv4_octet(parts[1].as_str()) {
        Some(v) => v,
        None => { return None; },
    };
    let c = match parse_ipv4_octet(parts[2].as_str()) {
        Some(v) => v,
        None => { return None; },
    };
    let d = match parse_ipv4_octet(parts[3].as_str()) {
        Some(v) => v,
        None => { return None; },
    };
    Some((a, b, c, d))
}

// ---------------------------------------------------------------------------
// IPv6: parsed and canonicalized by the url crate, behind a named result.
// ---------------------------------------------------------------------------

/// The canonical text of the IPv6 address written in `s` as a bracketed
/// literal (`[...]`), or `None` if `s` is not one. The canonical form has
/// no brackets. The result is a function of the characters alone.
pub uninterp spec fn ipv6_canon(s: Seq<char>) -> Option<Seq<char>>;

/// Relies on url::Host::parse, which treats an input in square brackets as
/// an IPv6 literal and otherwise never yields an IPv6 address, and on the
/// standard library's canonical (RFC 5952) display of the parsed address.
#[verifier::external_body]
pub(crate) fn parse_ipv6_literal(s: &str) -> (r: Option<String>)
    ensures
        (r is Some) == (ipv6_canon(s@) is Some),
        r matches Some(c) ==> ipv6_canon(s@) == Some(c@),
{
    match url::Host::<String>::parse(s) {
        Ok(url::Host::Ipv6(a)) => Some(a.to_string()),
        _ => None,
    }
}

// ---------------------------------------------------------------------------
// Domain names: validated by the fqdn crate, with an exact contract.
// ---------------------------------------------------------------------------

/// A character that may appear in a domain-name label, as the fqdn crate
/// accepts them: letters, digits, `-`, `_` and `#`.
pub open spec fn is_fqdn_label_char(c: char) -> bool {
    ('a' <= c && c <= 'z') || ('A' <= c && c <= 'Z') || ('0' <= c && c <= '9') || c == '-'
        || c == '_' || c == '#'
}

/// The text a domain-name parse looks at: one trailing dot is stripped.
pub open spec fn fqdn_effective(s: Seq<char>) -> Seq<char> {
    if s.len() > 0 && s.last() == '.' {
        s.drop_last()
    } else {
        s
    }
}

/// Whether the fqdn crate accepts `s`: the DNS root (empty, or a sole
/// dot), or dot-separated labels, each nonempty, at most 255 characters,
/// and made of label characters only.
pub open spec fn spec_fqdn_valid(s: Seq<char>) -> bool {
    let t = fqdn_effective(s);
    t.len() == 0 || {
        let labels = spec_split(t, '.');
        forall|i: int| 0 <= i < labels.len() ==> {
            let l = #[trigger] labels[i];
            1 <= l.len() <= 255 && (forall|j: int| 0 <= j < l.len() ==> is_fqdn_label_char(
                #[trigger] l[j],
            ))
        }
    }
}

/// Relies on fqdn::FQDN::from_str, which accepts exactly: an optional
/// single trailing dot; then either nothing (the DNS root) or labels
/// separated by dots, each nonempty, at most 255 characters, containing
/// only letters, digits, `-`, `_` and `#`.
#[verifier::external_body]
fn fqdn_is_valid(s: &str) -> (r: bool)
    ensures
        r == spec_fqdn_valid(s@),
{
    <fqdn::FQDN as core::str::FromStr>::from_str(s).is_ok()
}

// ---------------------------------------------------------------------------
// Host parsing.
// ---------------------------------------------------------------------------

/// Whether `s` is written as a bracketed IPv6 literal.
pub open spec fn is_bracketed(s: Seq<char>) -> bool {
    s.len() > 0 && s[0] == '[' && s.last() == ']'
}

/// `s` without one trailing dot, if it has one.
pub open spec fn strip_trailing_dot(s: Seq<char>) -> Seq<char> {
    if s.len() > 0 && s.last() == '.' {
        s.drop_last()
    } else {
        s
    }
}

/// Whether `s` carries a trailing dot.
pub open spec fn has_trailing_dot(s: Seq<char>) -> bool {
    s.len() > 0 && s.last() == '.'
}

/// `t` wrapped in square brackets.
pub open spec fn bracketize(t: Seq<char>) -> Seq<char> {
    seq!['['] + t + seq![']']
}

/// The stored text of a parsed domain name: the input lowercased, with one
/// trailing dot stripped.
pub open spec fn fqdn_stored(s: Seq<char>) -> Seq<char> {
    strip_trailing_dot(lower_seq(s))
}

/// What parsing a host text yields: an address or domain name, or nothing
/// if the text is malformed. Mirrors, in order: bracketed IPv6 literals;
/// then (after stripping one trailing dot) IPv4, then bare IPv6, either of
/// which rejects a trailing dot; then a validated, non-root domain name.
pub open spec fn host_parse_model(s: Seq<char>) -> Option<HostModel> {
    if is_bracketed(s) {
        match ipv6_canon(s) {
            Some(c) => Some(HostModel::Ip6(c)),
            None => None,
        }
    } else {
        let t = strip_trailing_dot(s);
        if is_ipv4_text(t) {
            if has_trailing_dot(s) {
                None
            } else {
                let (a, b, c, d) = ipv4_octets(t);
                Some(HostModel::Ip4(a, b, c, d))
            }
        } else if ipv6_canon(bracketize(t)) is Some {
            if has_trailing_dot(s) {
                None
            } else {
                Some(HostModel::Ip6(ipv6_canon(bracketize(t)).unwrap()))
            }
        } else {
            if spec_fqdn_valid(lower_seq(s)) && fqdn_stored(s).len() > 0 {
                Some(HostModel::Fqdn(fqdn_stored(s)))
            } else {
                None
            }
        }
    }
}

impl Host {
    /// Parses a host: a bracketed or bare IPv6 literal, a dotted-decimal
    /// IPv4 address, or a domain name, which is lowercased and loses one
    /// trailing dot. The bare DNS root is rejected.
    pub fn parse(s: &str) -> (r: Result<Host, PermError>)
        ensures
            match r {
                Ok(h) => host_parse_model(s@) == Some(h@),
                Err(_) => host_parse_model(s@) is None,
            },
    {
        let n = s.unicode_len();
        if n > 0 && s.get_char(0) == '[' && s.get_char(n - 1) == ']' {
            match parse_ipv6_literal(s) {
                Some(c) => {
                    return Ok(Host::Ip(IpRepr::V6(c)));
                },
                None => {
                    let mut msg = String::new();
                    msg.append("invalid IPv6 address: '");
                    msg.append(s);
                    msg.append("'");
                    return Err(uri_error(msg));
                },
            }
        }
        let has_dot = str_ends_with_char(s, '.');
        let stripped: &str = if has_dot {
            s.substring_char(0, n - 1)
        } else {
            s
        };
        proof {
            assert(stripped@ =~= strip_trailing_dot(s@));
        }
        match parse_ipv4(stripped) {
            Some((a, b, c, d)) => {
                if has_dot {
                    let mut msg = String::new();
                    msg.append("invalid host: '");
                    msg.append(stripped);
                    msg.append("'");
                    return Err(uri_error(msg));
                }
                return Ok(Host::Ip(IpRepr::V4(a, b, c, d)));
            },
            None => {},
        }
        let mut bracketed = String::new();
        bracketed.append("[");
        bracketed.append(stripped);
        bracketed.append("]");
        proof {
            reveal_strlit("[");
            reveal_strlit("]");
            assert(bracketed@ =~= bracketize(stripped@));
        }
        match parse_ipv6_literal(bracketed.as_str()) {
            Some(c) => {
                if has_dot {
                    let mut msg = String::new();
                    msg.append("invalid host: '");
                    msg.append(stripped);
                    msg.append("'");
                    return Err(uri_error(msg));
                }
                return Ok(Host::Ip(IpRepr::V6(c)));
            },
            None => {},
        }
        let lower = ascii_lowercase(s);
        if !fqdn_is_valid(lower.as_str()) {
            let mut msg = String::new();
            msg.append("invalid host: '");
            msg.append(s);
            msg.append("'");
            return Err(uri_error(msg));
        }
        let low_n = lower.as_str().unicode_len();
        let stored: String = if str_ends_with_char(lower.as_str(), '.') {
            str_copy(lower.as_str().substring_char(0, low_n - 1))
        } else {
            lower
        };
        proof {
            assert(stored@ =~= fqdn_stored(s@));
        }
        if stored.as_str().is_empty() {
            let mut msg = String::new();
            msg.append("invalid empty host: '");
            msg.append(s);
            msg.append("'");
            return Err(uri_error(msg));
        }
        Ok(Host::Fqdn(stored))
    }

    /// Whether two hosts are the same: same kind of name or address, with
    /// the same stored text or octets.
    pub fn same_host(&self, other: &Host) -> (r: bool)
        ensures
            r == (self@ == other@),
    {
        match (self, other) {
            (Host::Fqdn(a), Host::Fqdn(b)) => str_eq(a.as_str(), b.as_str()),
            (Host::Ip(IpRepr::V4(a0, a1, a2, a3)), Host::Ip(IpRepr::V4(b0, b1, b2, b3))) => a0
                == b0 && a1 == b1 && a2 == b2 && a3 == b3,
            (Host::Ip(IpRepr::V6(a)), Host::Ip(IpRepr::V6(b))) => str_eq(a.as_str(), b.as_str()),
            _ => false,
        }
    }

    /// An exact copy of this host.
    pub fn duplicate(&self) -> (r: Host)
        ensures
            r@ == self@,
    {
        match self {
            Host::Fqdn(s) => Host::Fqdn(str_copy(s.as_str())),
            Host::Ip(IpRepr::V4(a, b, c, d)) => Host::Ip(IpRepr::V4(*a, *b, *c, *d)),
            Host::Ip(IpRepr::V6(t)) => Host::Ip(IpRepr::V6(str_copy(t.as_str()))),
        }
    }

    /// The display text of the host: the domain name, the dotted decimal
    /// address, or the bracketed IPv6 text.
    pub fn display_text(&self) -> (r: String)
        ensures
            r@ == host_display_model(self@),
    {
        match self {
            Host::Fqdn(s) => str_copy(s.as_str()),
            Host::Ip(IpRepr::V4(a, b, c, d)) => {
                let mut out = crate::strings::u16_to_dec(*a as u16);
                proof {
                    reveal_strlit(".");
                }
                out.append(".");
                let bs = crate::strings::u16_to_dec(*b as u16);
                out.append(bs.as_str());
                out.append(".");
                let cs = crate::strings::u16_to_dec(*c as u16);
                out.append(cs.as_str());
                out.append(".");
                let ds = crate::strings::u16_to_dec(*d as u16);
                out.append(ds.as_str());
                out
            },
            Host::Ip(IpRepr::V6(t)) => {
                let mut out = String::new();
                proof {
                    reveal_strlit("[");
                    reveal_strlit("]");
                }
                out.append("[");
                out.append(t.as_str());
                out.append("]");
                proof {
                    assert(out@ =~= bracketize(t@));
                }
                out
            },
        }
    }
}

/// The display text of a host model.
pub open spec fn host_display_model(m: HostModel) -> Seq<char> {
    match m {
        HostModel::Fqdn(s) => s,
        HostModel::Ip4(a, b, c, d) => crate::strings::dec_digits(a as int) + "."@
            + crate::strings::dec_digits(b as int) + "."@ + crate::strings::dec_digits(c as int)
            + "."@ + crate::strings::dec_digits(d as int),
        HostModel::Ip6(t) => bracketize(t),
    }
}

} // verus!
