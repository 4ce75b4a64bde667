//! The container facade: text-based checks, specifier routing, child
//! scopes, and special-file carve-outs.

use bls_permissions::{
    AllowRunDescriptor, AllowRunDescriptorParseResult, CheckSpecifierKind, ChildPermissionsArg,
    ChildUnaryPermissionArg, DenyRunDescriptor, EnvDescriptor, FfiDescriptor, Host,
    ImportDescriptor, ModuleSpecifier, NetDescriptor, PathQueryDescriptor, PathRepr, PermError,
    PermissionDescriptorParser, PermissionPrompter, PermissionState, Permissions,
    PermissionsContainer, PermissionsOptions, PromptResponse, ReadDescriptor, RunQueryDescriptor,
    SysDescriptor, WriteDescriptor,
};

#[derive(Debug, Clone)]
struct TestParser;

fn path_of(text: &str) -> PathRepr {
    PathRepr::parse(text)
}

impl PermissionDescriptorParser for TestParser {
    fn parse_read_descriptor(&self, text: &str) -> Result<ReadDescriptor, PermError> {
        Ok(ReadDescriptor(path_of(text)))
    }

    fn parse_write_descriptor(&self, text: &str) -> Result<WriteDescriptor, PermError> {
        Ok(WriteDescriptor(path_of(text)))
    }

    fn parse_net_descriptor(&self, text: &str) -> Result<NetDescriptor, PermError> {
        NetDescriptor::parse(text)
    }

    fn parse_net_descriptor_from_url(
        &self,
        url: &ModuleSpecifier,
    ) -> Result<NetDescriptor, PermError> {
        NetDescriptor::from_url(url)
    }

    fn parse_import_descriptor(&self, text: &str) -> Result<ImportDescriptor, PermError> {
        ImportDescriptor::parse(text)
    }

    fn parse_import_descriptor_from_url(
        &self,
        url: &ModuleSpecifier,
    ) -> Result<ImportDescriptor, PermError> {
        ImportDescriptor::from_url(url)
    }

    fn parse_env_descriptor(&self, text: &str) -> Result<EnvDescriptor, PermError> {
        Ok(EnvDescriptor::new(text.to_string()))
    }

    fn parse_sys_descriptor(&self, text: &str) -> Result<SysDescriptor, PermError> {
        SysDescriptor::parse(text.to_string())
    }

    fn parse_allow_run_descriptor(
        &self,
        text: &str,
    ) -> Result<AllowRunDescriptorParseResult, PermError> {
        Ok(AllowRunDescriptorParseResult::Descriptor(AllowRunDescriptor(path_of(text))))
    }

    fn parse_deny_run_descriptor(&self, text: &str) -> Result<DenyRunDescriptor, PermError> {
        if text.contains('/') {
            Ok(DenyRunDescriptor::Path(path_of(text)))
        } else {
            Ok(DenyRunDescriptor::Name(text.to_string()))
        }
    }

    fn parse_ffi_descriptor(&self, text: &str) -> Result<FfiDescriptor, PermError> {
        Ok(FfiDescriptor(path_of(text)))
    }

    fn parse_path_query(&self, path: &str) -> Result<PathQueryDescriptor, PermError> {
        Ok(PathQueryDescriptor::new(path.to_string(), path_of(path)))
    }

    fn parse_run_query(&self, requested: &str) -> Result<RunQueryDescriptor, PermError> {
        if requested.contains('/') {
            Ok(RunQueryDescriptor::Path {
                requested: requested.to_string(),
                resolved: path_of(requested),
            })
        } else {
            Ok(RunQueryDescriptor::Name(requested.to_string()))
        }
    }
}

struct TestPrompter {
    value: bool,
}

impl PermissionPrompter for TestPrompter {
    fn prompt(
        &mut self,
        _message: &str,
        _name: &str,
        _api_name: Option<&str>,
        _is_unary: bool,
    ) -> PromptResponse {
        if self.value {
            PromptResponse::Allow
        } else {
            PromptResponse::Deny
        }
    }
}

fn svec(items: &[&str]) -> Vec<String> {
    items.iter().map(|s| s.to_string()).collect()
}

fn container(perms: Permissions) -> PermissionsContainer<TestParser, TestPrompter> {
    PermissionsContainer::new(TestParser, TestPrompter { value: false }, perms)
}

fn spec_of(url_str: &str) -> ModuleSpecifier {
    let u = url::Url::parse(url_str).unwrap();
    let file_path = if u.scheme() == "file" {
        match u.to_file_path() {
            Ok(p) => {
                let text = p.to_string_lossy().into_owned();
                Some(PathQueryDescriptor::new(text.clone(), PathRepr::parse(&text)))
            }
            Err(_) => None,
        }
    } else {
        None
    };
    ModuleSpecifier::new(
        u.scheme().to_string(),
        u.host_str().map(|h| h.to_string()),
        u.port_or_known_default(),
        file_path,
        u.to_string(),
    )
}

#[test]
fn check_paths() {
    let allowlist = svec(&["/a/specific/dir/name", "/a/specific", "/b/c"]);

    let parser = TestParser;
    let perms = Permissions::from_options(
        &parser,
        &PermissionsOptions {
            allow_read: Some(allowlist.clone()),
            allow_write: Some(allowlist.clone()),
            allow_ffi: Some(allowlist),
            ..Default::default()
        },
    )
    .unwrap();
    let mut perms = container(perms);

    let cases = [
        // inside of /a/specific and /a/specific/dir/name
        ("/a/specific/dir/name", true),
        // inside of /a/specific but outside of /a/specific/dir/name
        ("/a/specific/dir", true),
        // inside of /a/specific and /a/specific/dir/name
        ("/a/specific/dir/name/inner", true),
        // inside of /a/specific but outside of /a/specific/dir/name
        ("/a/specific/other/dir", true),
        // exact match with /b/c
        ("/b/c", true),
        // sub path within /b/c
        ("/b/c/sub/path", true),
        // sub path within /b/c, needs normalizing
        ("/b/c/sub/path/../path/.", true),
        // inside of /b but outside of /b/c
        ("/b/e", false),
        // inside of /a but outside of /a/specific
        ("/a/b", false),
    ];

    for (path, is_ok) in cases {
        assert_eq!(perms.check_read(path, "api").is_ok(), is_ok);
        assert_eq!(perms.check_write(path, "api").is_ok(), is_ok);
        assert_eq!(perms.check_ffi(path).is_ok(), is_ok);
    }
}

#[test]
fn test_check_net_with_values() {
    let parser = TestParser;
    let mut prompter = TestPrompter { value: false };
    let mut perms = Permissions::from_options(
        &parser,
        &PermissionsOptions {
            allow_net: Some(svec(&[
                "localhost",
                "deno.land",
                "github.com:3000",
                "127.0.0.1",
                "172.16.0.2:8000",
                "www.github.com:443",
                "80.example.com:80",
                "443.example.com:443",
            ])),
            ..Default::default()
        },
    )
    .unwrap();

    let domain_tests = vec![
        ("localhost", 1234, true),
        ("deno.land", 0, true),
        ("deno.land", 3000, true),
        ("deno.lands", 0, false),
        ("deno.lands", 3000, false),
        ("github.com", 3000, true),
        ("github.com", 0, false),
        ("github.com", 2000, false),
        ("github.net", 3000, false),
        ("127.0.0.1", 0, true),
        ("127.0.0.1", 3000, true),
        ("127.0.0.2", 0, false),
        ("127.0.0.2", 3000, false),
        ("172.16.0.2", 8000, true),
        ("172.16.0.2", 0, false),
        ("172.16.0.2", 6000, false),
        ("172.16.0.1", 8000, false),
        ("443.example.com", 444, false),
        ("80.example.com", 81, false),
        ("80.example.com", 80, true),
        // just some random hosts that should err
        ("somedomain", 0, false),
        ("192.168.0.1", 0, false),
    ];

    for (host, port, is_ok) in domain_tests {
        let host = Host::parse(host).unwrap();
        let descriptor = NetDescriptor(host, Some(port));
        let text = descriptor.display_text();
        assert_eq!(is_ok, perms.net.check(&descriptor, None, &mut prompter).is_ok(), "{text}");
    }
}

#[test]
fn test_check_net_only_flag() {
    let parser = TestParser;
    let mut prompter = TestPrompter { value: false };
    let mut perms = Permissions::from_options(
        &parser,
        &PermissionsOptions {
            // `--allow-net` is present without values following the `=` sign
            allow_net: Some(svec(&[])),
            ..Default::default()
        },
    )
    .unwrap();

    let domain_tests = vec![
        ("localhost", 1234),
        ("deno.land", 0),
        ("deno.land", 3000),
        ("deno.lands", 0),
        ("deno.lands", 3000),
        ("github.com", 3000),
        ("github.com", 0),
        ("github.com", 2000),
        ("github.net", 3000),
        ("127.0.0.1", 0),
        ("127.0.0.1", 3000),
        ("127.0.0.2", 0),
        ("127.0.0.2", 3000),
        ("172.16.0.2", 8000),
        ("172.16.0.2", 0),
        ("172.16.0.2", 6000),
        ("172.16.0.1", 8000),
        ("somedomain", 0),
        ("192.168.0.1", 0),
    ];

    for (host_str, port) in domain_tests {
        let host = Host::parse(host_str).unwrap();
        let descriptor = NetDescriptor(host, Some(port));
        assert!(
            perms.net.check(&descriptor, None, &mut prompter).is_ok(),
            "expected {host_str}:{port} to pass"
        );
    }
}

#[test]
fn test_check_net_no_flag() {
    let parser = TestParser;
    let mut prompter = TestPrompter { value: false };
    let mut perms = Permissions::from_options(
        &parser,
        &PermissionsOptions {
            allow_net: None,
            ..Default::default()
        },
    )
    .unwrap();

    let domain_tests = vec![
        ("localhost", 1234),
        ("deno.land", 0),
        ("deno.land", 3000),
        ("deno.lands", 0),
        ("deno.lands", 3000),
        ("github.com", 3000),
        ("github.com", 0),
        ("github.com", 2000),
        ("github.net", 3000),
        ("127.0.0.1", 0),
        ("127.0.0.1", 3000),
        ("127.0.0.2", 0),
        ("127.0.0.2", 3000),
        ("172.16.0.2", 8000),
        ("172.16.0.2", 0),
        ("172.16.0.2", 6000),
        ("172.16.0.1", 8000),
        ("somedomain", 0),
        ("192.168.0.1", 0),
    ];

    for (host_str, port) in domain_tests {
        let host = Host::parse(host_str).unwrap();
        let descriptor = NetDescriptor(host, Some(port));
        assert!(
            perms.net.check(&descriptor, None, &mut prompter).is_err(),
            "expected {host_str}:{port} to fail"
        );
    }
}

#[test]
fn test_check_net_url() {
    let parser = TestParser;
    let perms = Permissions::from_options(
        &parser,
        &PermissionsOptions {
            allow_net: Some(svec(&[
                "localhost",
                "deno.land",
                "github.com:3000",
                "127.0.0.1",
                "172.16.0.2:8000",
                "www.github.com:443",
            ])),
            ..Default::default()
        },
    )
    .unwrap();
    let mut perms = container(perms);

    let url_tests = vec![
        // any protocol + port for localhost should be ok, since we don't specify
        ("http://localhost", true),
        ("https://localhost", true),
        ("https://localhost:4443", true),
        ("tcp://localhost:5000", true),
        ("udp://localhost:6000", true),
        // correct domain + any port and protocol should be ok incorrect shouldn't
        ("https://deno.land/std/example/welcome.ts", true),
        ("https://deno.land:3000/std/example/welcome.ts", true),
        ("https://deno.lands/std/example/welcome.ts", false),
        ("https://deno.lands:3000/std/example/welcome.ts", false),
        // correct domain + port should be ok all other combinations should err
        ("https://github.com:3000/denoland/deno", true),
        ("https://github.com/denoland/deno", false),
        ("https://github.com:2000/denoland/deno", false),
        ("https://github.net:3000/denoland/deno", false),
        // correct ipv4 address + any port should be ok others should err
        ("tcp://127.0.0.1", true),
        ("https://127.0.0.1", true),
        ("tcp://127.0.0.1:3000", true),
        ("https://127.0.0.1:3000", true),
        ("tcp://127.0.0.2", false),
        ("https://127.0.0.2", false),
        ("tcp://127.0.0.2:3000", false),
        ("https://127.0.0.2:3000", false),
        // correct address + port should be ok all other combinations should err
        ("tcp://172.16.0.2:8000", true),
        ("https://172.16.0.2:8000", true),
        ("tcp://172.16.0.2", false),
        ("https://172.16.0.2", false),
        ("tcp://172.16.0.2:6000", false),
        ("https://172.16.0.2:6000", false),
        ("tcp://172.16.0.1:8000", false),
        ("https://172.16.0.1:8000", false),
        // the well-known default port counts as the written port
        ("https://www.github.com:443/robots.txt", true),
    ];

    for (url_str, is_ok) in url_tests {
        let u = spec_of(url_str);
        assert_eq!(is_ok, perms.check_net_url(&u, "api()").is_ok(), "{}", url_str);
    }
}

#[test]
fn check_specifiers() {
    let read_allowlist = svec(&["/a"]);
    let parser = TestParser;
    let perms = Permissions::from_options(
        &parser,
        &PermissionsOptions {
            allow_read: Some(read_allowlist),
            allow_import: Some(svec(&["localhost"])),
            ..Default::default()
        },
    )
    .unwrap();
    let mut perms = container(perms);

    let fixtures = vec![
        ("http://localhost:4545/mod.ts", CheckSpecifierKind::Static, true),
        ("http://localhost:4545/mod.ts", CheckSpecifierKind::Dynamic, true),
        ("http://deno.land/x/mod.ts", CheckSpecifierKind::Dynamic, false),
        ("data:text/plain,Hello%2C%20Deno!", CheckSpecifierKind::Dynamic, true),
        ("file:///a/mod.ts", CheckSpecifierKind::Dynamic, true),
        ("file:///b/mod.ts", CheckSpecifierKind::Static, true),
        ("file:///b/mod.ts", CheckSpecifierKind::Dynamic, false),
    ];

    for (specifier, kind, expected) in fixtures {
        assert_eq!(
            perms.check_specifier(&spec_of(specifier), kind).is_ok(),
            expected,
            "{}",
            specifier,
        );
    }
}

#[test]
fn test_net_fully_qualified_domain_name() {
    let parser = TestParser;
    let perms = Permissions::from_options(
        &parser,
        &PermissionsOptions {
            allow_net: Some(svec(&["allowed.domain", "1.1.1.1"])),
            deny_net: Some(svec(&["denied.domain", "2.2.2.2"])),
            ..Default::default()
        },
    )
    .unwrap();
    let mut perms = container(perms);
    let cases = [
        ("allowed.domain.", true),
        ("1.1.1.1", true),
        ("denied.domain.", false),
        ("2.2.2.2", false),
    ];

    for (host, is_ok) in cases {
        assert_eq!(perms.check_net(host, None, "api").is_ok(), is_ok);
    }
}

#[test]
fn test_create_child_permissions() {
    let parser = TestParser;
    let main_perms = Permissions::from_options(
        &parser,
        &PermissionsOptions {
            allow_env: Some(vec![]),
            allow_net: Some(svec(&["foo", "bar"])),
            ..Default::default()
        },
    )
    .unwrap();
    let mut main_perms = container(main_perms);
    let child = main_perms
        .create_child_permissions(ChildPermissionsArg {
            env: ChildUnaryPermissionArg::Inherit,
            net: ChildUnaryPermissionArg::GrantedList(svec(&["foo"])),
            ffi: ChildUnaryPermissionArg::NotGranted,
            ..ChildPermissionsArg::none()
        })
        .unwrap();
    let expected = Permissions {
        env: Permissions::new_unary::<EnvDescriptor>(Some(vec![]), None, false).unwrap(),
        net: Permissions::new_unary::<NetDescriptor>(
            Some(vec![NetDescriptor::parse("foo").unwrap()]),
            None,
            false,
        )
        .unwrap(),
        ..Permissions::none_without_prompt()
    };
    assert_eq!(child, expected);
    assert!(main_perms
        .create_child_permissions(ChildPermissionsArg {
            net: ChildUnaryPermissionArg::Granted,
            ..ChildPermissionsArg::none()
        })
        .is_err());
    assert!(main_perms
        .create_child_permissions(ChildPermissionsArg {
            net: ChildUnaryPermissionArg::GrantedList(svec(&["foo", "bar", "baz"])),
            ..ChildPermissionsArg::none()
        })
        .is_err());
    assert!(main_perms
        .create_child_permissions(ChildPermissionsArg {
            ffi: ChildUnaryPermissionArg::GrantedList(svec(&["foo"])),
            ..ChildPermissionsArg::none()
        })
        .is_err());
}

#[test]
fn test_create_child_permissions_with_prompt() {
    let parser = TestParser;
    let main_perms = Permissions::from_options(
        &parser,
        &PermissionsOptions {
            prompt: true,
            ..Default::default()
        },
    )
    .unwrap();
    let mut main_perms = container(main_perms);
    main_perms.prompter.value = true;
    let worker_perms = main_perms
        .create_child_permissions(ChildPermissionsArg {
            read: ChildUnaryPermissionArg::Granted,
            run: ChildUnaryPermissionArg::GrantedList(svec(&["foo", "bar"])),
            ..ChildPermissionsArg::none()
        })
        .unwrap();
    assert_eq!(main_perms.inner, worker_perms);
    assert_eq!(
        main_perms.inner.run.granted_list,
        vec![
            AllowRunDescriptor(PathRepr::parse("/foo")),
            AllowRunDescriptor(PathRepr::parse("/bar")),
        ]
    );
}

#[test]
fn test_create_child_permissions_with_inherited_denied_list() {
    let parser = TestParser;
    let main_perms = Permissions::from_options(
        &parser,
        &PermissionsOptions {
            prompt: true,
            ..Default::default()
        },
    )
    .unwrap();
    let mut main_perms = container(main_perms);
    main_perms.prompter.value = false;
    assert!(main_perms.check_write("foo", "api").is_err());
    let worker_perms = main_perms.create_child_permissions(ChildPermissionsArg::none()).unwrap();
    assert_eq!(worker_perms.write.flag_denied_list, main_perms.inner.write.flag_denied_list);
    // the interactive denial carries over too
    assert_eq!(
        worker_perms.write.prompt_denied_list,
        main_perms.inner.write.prompt_denied_list
    );
    assert_eq!(worker_perms.write.prompt_denied_list.len(), 1);
}

#[test]
fn special_files_have_exact_carve_outs() {
    let parser = TestParser;
    let perms = Permissions::from_options(&parser, &PermissionsOptions::default()).unwrap();
    let mut perms = container(perms);
    // free device files need no permission at all
    assert!(perms.check_special_file(&PathRepr::parse("/dev/null"), false, "api").is_ok());
    assert!(perms.check_special_file(&PathRepr::parse("/dev/urandom"), false, "api").is_ok());
    // a pipe redirection through a high file descriptor passes only when
    // the embedder probed it as a pipe
    assert!(perms.check_special_file(&PathRepr::parse("/dev/fd/3"), true, "api").is_ok());
    assert!(perms.check_special_file(&PathRepr::parse("/proc/self/fd/4"), true, "api").is_ok());
    assert_eq!(
        perms.check_special_file(&PathRepr::parse("/dev/fd/3"), false, "api"),
        Err("all")
    );
    // the standard streams are not covered by the carve-out
    assert_eq!(
        perms.check_special_file(&PathRepr::parse("/dev/fd/2"), true, "api"),
        Err("all")
    );
    // anything else under the special roots needs the umbrella flag
    assert_eq!(
        perms.check_special_file(&PathRepr::parse("/proc/cpuinfo"), false, "api"),
        Err("all")
    );
    // the environment file consults the env permission
    assert_eq!(
        perms.check_special_file(&PathRepr::parse("/proc/self/environ"), false, "api"),
        Err("env")
    );
    // ordinary paths are no concern of this check
    assert!(perms.check_special_file(&PathRepr::parse("/tmp/data"), false, "api").is_ok());

    // with the umbrella flag, the special roots open up
    let all_perms = Permissions::from_options(
        &parser,
        &PermissionsOptions { allow_all: true, allow_env: Some(vec![]), ..Default::default() },
    )
    .unwrap();
    let mut all_perms = container(all_perms);
    assert!(all_perms.check_special_file(&PathRepr::parse("/proc/cpuinfo"), false, "api").is_ok());
    assert!(all_perms
        .check_special_file(&PathRepr::parse("/proc/self/environ"), false, "api")
        .is_ok());
}

#[test]
fn container_query_revoke_request_round_trip() {
    let parser = TestParser;
    let perms = Permissions::from_options(
        &parser,
        &PermissionsOptions {
            allow_read: Some(svec(&["/foo"])),
            allow_net: Some(svec(&["deno.land:8000"])),
            allow_env: Some(svec(&["HOME"])),
            ..Default::default()
        },
    )
    .unwrap();
    let mut c = container(perms);
    assert_eq!(c.query_read(Some("/foo/inner")).unwrap(), PermissionState::Granted);
    assert_eq!(c.query_read(Some("/bar")).unwrap(), PermissionState::Prompt);
    assert_eq!(c.query_net(Some("deno.land:8000")).unwrap(), PermissionState::Granted);
    assert_eq!(c.query_net(Some("deno.land:9000")).unwrap(), PermissionState::Prompt);
    assert_eq!(c.query_env(Some("HOME")), PermissionState::Granted);
    assert_eq!(c.revoke_read(None).unwrap(), PermissionState::Prompt);
    assert_eq!(c.query_read(Some("/foo")).unwrap(), PermissionState::Prompt);
    // without prompting, a request of something not granted is denied
    assert_eq!(c.request_read(Some("/quux")).unwrap(), PermissionState::Denied);
    assert_eq!(c.request_env(Some("HOME")), PermissionState::Granted);
}

#[test]
fn blind_checks_anonymize_denials() {
    // the denial's message shows the placeholder, never the real path
    let parser = TestParser;
    let perms = Permissions::from_options(&parser, &PermissionsOptions::default()).unwrap();
    let mut c = container(perms);
    let err = c
        .check_read_blind(&PathRepr::parse("/secret/place"), "precious", "api")
        .unwrap_err();
    assert_eq!(
        err.error_message(),
        "Requires read access to <precious>, run again with the --allow-read flag"
    );
    assert!(!err.error_message().contains("secret"));
    let err = c
        .check_write_blind(&PathRepr::parse("/secret/place"), "precious", "api")
        .unwrap_err();
    assert_eq!(
        err.error_message(),
        "Requires write access to <precious>, run again with the --allow-write flag"
    );
    assert!(!err.error_message().contains("secret"));
}

#[test]
fn child_request_asking_nothing_new_cannot_fail() {
    // a child that only inherits or takes nothing is owed success
    let parser = TestParser;
    let perms = Permissions::from_options(&parser, &PermissionsOptions::default()).unwrap();
    let mut c = container(perms);
    assert!(c.create_child_permissions(ChildPermissionsArg::none()).is_ok());
    assert!(c.create_child_permissions(ChildPermissionsArg::inherit()).is_ok());
}
