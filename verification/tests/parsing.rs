//! Host, network-descriptor and path parsing, and run-name denial.

use bls_permissions::errors::{get_custom_error_class, uri_error};
use bls_permissions::run::denies_run_name;
use bls_permissions::strings::{parse_u16, u16_to_dec};
use bls_permissions::{Host, IpRepr, NetDescriptor, PathRepr, SysDescriptor};

fn fq(s: &str) -> Host {
    Host::Fqdn(s.to_string())
}

fn v4(a: u8, b: u8, c: u8, d: u8) -> Host {
    Host::Ip(IpRepr::V4(a, b, c, d))
}

fn v6(s: &str) -> Host {
    Host::Ip(IpRepr::V6(s.to_string()))
}

#[test]
fn test_host_parse() {
    let hosts = &[
        ("deno.land", Some(fq("deno.land"))),
        ("DENO.land", Some(fq("deno.land"))),
        ("deno.land.", Some(fq("deno.land"))),
        ("1.1.1.1", Some(v4(1, 1, 1, 1))),
        ("::1", Some(v6("::1"))),
        ("[::1]", Some(v6("::1"))),
        ("[::1", None),
        ("::1]", None),
        ("deno. land", None),
        ("1. 1.1.1", None),
        ("1.1.1.1.", None),
        ("1::1.", None),
        ("deno.land.", Some(fq("deno.land"))),
        (".deno.land", None),
        ("::ffff:1.1.1.1", Some(v6("::ffff:1.1.1.1"))),
    ];

    for (host_str, expected) in hosts {
        assert_eq!(Host::parse(host_str).ok(), *expected, "{host_str}");
    }
}

#[test]
fn test_net_descriptor_parse() {
    let cases: &[(&str, Option<NetDescriptor>)] = &[
        ("deno.land", Some(NetDescriptor(fq("deno.land"), None))),
        ("DENO.land", Some(NetDescriptor(fq("deno.land"), None))),
        ("deno.land:8000", Some(NetDescriptor(fq("deno.land"), Some(8000)))),
        ("deno.land:", None),
        ("deno.land:a", None),
        ("deno. land:a", None),
        ("deno.land.: a", None),
        ("1.1.1.1", Some(NetDescriptor(v4(1, 1, 1, 1), None))),
        ("1.1.1.1.", None),
        ("1.1.1.1..", None),
        ("1.1.1.1:8000", Some(NetDescriptor(v4(1, 1, 1, 1), Some(8000)))),
        ("::", None),
        (":::80", None),
        ("::80", None),
        ("[::]", Some(NetDescriptor(v6("::"), None))),
        ("[::1", None),
        ("::1]", None),
        ("[::1]:", None),
        ("[::1]:a", None),
        ("[::1]:443", Some(NetDescriptor(v6("::1"), Some(443)))),
        ("", None),
        ("deno.land..", None),
    ];

    for (input, expected) in cases {
        assert_eq!(NetDescriptor::parse(input).ok(), *expected, "'{input}'");
    }
}

#[test]
fn test_denies_run_name() {
    let cases = [
        ("deno", "/home/test/deno", true),
        ("deno", "/home/test/denot", false),
        ("deno", "/home/test/deno.exe", true),
        ("DEno", "/sub/deno.cmd", true),
        ("denort", "/other/sub/deno.exe", false),
    ];
    for (name, cmd_path, denies) in cases {
        assert_eq!(
            denies_run_name(name, &PathRepr::parse(cmd_path)),
            denies,
            "{} {}",
            name,
            cmd_path
        );
    }
}

#[test]
fn sys_descriptor_accepts_only_known_kinds() {
    for ok in ["hostname", "osRelease", "uid", "statfs", "setPriority"] {
        assert!(SysDescriptor::parse(ok.to_string()).is_ok(), "{ok}");
    }
    let err = SysDescriptor::parse("volume".to_string()).unwrap_err();
    assert_eq!(get_custom_error_class(&err), Some("TypeError"));
    assert!(err.error_message().contains("unknown system info kind"));
}

#[test]
fn host_parse_error_is_uri_class() {
    let err = Host::parse(".deno.land").unwrap_err();
    assert_eq!(get_custom_error_class(&err), Some("URIError"));
    let err = Host::parse("").unwrap_err();
    assert_eq!(get_custom_error_class(&err), Some("URIError"));
    let e = uri_error("nope".to_string());
    assert_eq!(e.error_class(), "URIError");
    assert_eq!(e.error_message(), "nope");
}

#[test]
fn net_parse_rejects_urls() {
    assert!(NetDescriptor::parse("http://deno.land").is_err());
    assert!(NetDescriptor::parse("https://deno.land:8000").is_err());
}

#[test]
fn path_parse_normalizes() {
    let p = PathRepr::parse("/b/c/sub/path/../path/.");
    assert_eq!(p.display_text(), "/b/c/sub/path");
    let q = PathRepr::parse("/a//b/./c/..");
    assert_eq!(q.display_text(), "/a/b");
    let root = PathRepr::parse("/");
    assert_eq!(root.display_text(), "/");
    assert_eq!(root.depth(), 0);
    // a parent segment at the root swallows nothing
    let r = PathRepr::parse("/../x");
    assert_eq!(r.display_text(), "/x");
}

#[test]
fn path_containment_is_segment_wise() {
    let anc = PathRepr::parse("/a/specific");
    assert!(PathRepr::parse("/a/specific/dir").starts_with(&anc));
    assert!(PathRepr::parse("/a/specific").starts_with(&anc));
    assert!(!PathRepr::parse("/a/specific2").starts_with(&anc));
    assert!(!PathRepr::parse("/a").starts_with(&anc));
    assert!(PathRepr::parse("/anything").starts_with(&PathRepr::parse("/")));
}

#[test]
fn port_parser_matches_the_standard_grammar() {
    assert_eq!(parse_u16("0"), Some(0));
    assert_eq!(parse_u16("8000"), Some(8000));
    assert_eq!(parse_u16("65535"), Some(65535));
    assert_eq!(parse_u16("65536"), None);
    assert_eq!(parse_u16("+443"), Some(443));
    assert_eq!(parse_u16(""), None);
    assert_eq!(parse_u16("+"), None);
    assert_eq!(parse_u16("4a"), None);
    assert_eq!(parse_u16("-1"), None);
    assert_eq!(parse_u16("999999999999999999999"), None);
}

#[test]
fn decimal_rendering_is_exact() {
    assert_eq!(u16_to_dec(0), "0");
    assert_eq!(u16_to_dec(7), "7");
    assert_eq!(u16_to_dec(80), "80");
    assert_eq!(u16_to_dec(65535), "65535");
}

#[test]
fn net_descriptor_display_text() {
    assert_eq!(NetDescriptor::parse("deno.land:8000").unwrap().display_text(), "deno.land:8000");
    assert_eq!(NetDescriptor::parse("1.1.1.1").unwrap().display_text(), "1.1.1.1");
    assert_eq!(NetDescriptor::parse("[::1]:443").unwrap().display_text(), "[::1]:443");
}

#[test]
fn ipv6_spellings_canonicalize_to_one_host() {
    // two spellings of one address compare equal after parsing
    let long = Host::parse("[0:0:0:0:0:0:0:1]").unwrap();
    let short = Host::parse("::1").unwrap();
    assert_eq!(long, short);
    let d1 = NetDescriptor::parse("[0:0:0:0:0:0:0:1]:443").unwrap();
    let d2 = NetDescriptor::parse("[::1]:443").unwrap();
    assert_eq!(d1, d2);
    assert_eq!(d1.display_text(), "[::1]:443");
}
