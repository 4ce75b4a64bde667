//! The per-kind state machine: query, request, revoke, check.

use bls_permissions::{
    EnvDescriptor, FfiDescriptor, FfiQueryDescriptor, Host, ImportDescriptor, NetDescriptor,
    AllowRunDescriptorParseResult, AllowRunDescriptor, DenyRunDescriptor, ModuleSpecifier,
    PathQueryDescriptor, PathRepr, PermError, PermissionDescriptorParser, PermissionPrompter,
    PermissionState, Permissions, PermissionsOptions, PromptResponse, ReadDescriptor,
    ReadQueryDescriptor, RunQueryDescriptor, SysDescriptor, WriteDescriptor, WriteQueryDescriptor,
};

#[derive(Debug, Clone)]
struct TestParser;

fn path_of(text: &str) -> PathRepr {
    PathRepr::parse(text)
}

impl PermissionDescriptorParser for TestParser {
    fn parse_read_descriptor(&self, text: &str) -> Result<ReadDescriptor, PermError> {
        Ok(ReadDescriptor(path_of(text)))
    }

    fn parse_write_descriptor(&self, text: &str) -> Result<WriteDescriptor, PermError> {
        Ok(WriteDescriptor(path_of(text)))
    }

    fn parse_net_descriptor(&self, text: &str) -> Result<NetDescriptor, PermError> {
        NetDescriptor::parse(text)
    }

    fn parse_net_descriptor_from_url(
        &self,
        url: &ModuleSpecifier,
    ) -> Result<NetDescriptor, PermError> {
        NetDescriptor::from_url(url)
    }

    fn parse_import_descriptor(&self, text: &str) -> Result<ImportDescriptor, PermError> {
        ImportDescriptor::parse(text)
    }

    fn parse_import_descriptor_from_url(
        &self,
        url: &ModuleSpecifier,
    ) -> Result<ImportDescriptor, PermError> {
        ImportDescriptor::from_url(url)
    }

    fn parse_env_descriptor(&self, text: &str) -> Result<EnvDescriptor, PermError> {
        Ok(EnvDescriptor::new(text.to_string()))
    }

    fn parse_sys_descriptor(&self, text: &str) -> Result<SysDescriptor, PermError> {
        SysDescriptor::parse(text.to_string())
    }

    fn parse_allow_run_descriptor(
        &self,
        text: &str,
    ) -> Result<AllowRunDescriptorParseResult, PermError> {
        Ok(AllowRunDescriptorParseResult::Descriptor(AllowRunDescriptor(path_of(text))))
    }

    fn parse_deny_run_descriptor(&self, text: &str) -> Result<DenyRunDescriptor, PermError> {
        if text.contains('/') {
            Ok(DenyRunDescriptor::Path(path_of(text)))
        } else {
            Ok(DenyRunDescriptor::Name(text.to_string()))
        }
    }

    fn parse_ffi_descriptor(&self, text: &str) -> Result<FfiDescriptor, PermError> {
        Ok(FfiDescriptor(path_of(text)))
    }

    fn parse_path_query(&self, path: &str) -> Result<PathQueryDescriptor, PermError> {
        Ok(PathQueryDescriptor::new(path.to_string(), path_of(path)))
    }

    fn parse_run_query(&self, requested: &str) -> Result<RunQueryDescriptor, PermError> {
        if requested.contains('/') {
            Ok(RunQueryDescriptor::Path {
                requested: requested.to_string(),
                resolved: path_of(requested),
            })
        } else {
            Ok(RunQueryDescriptor::Name(requested.to_string()))
        }
    }
}

struct TestPrompter {
    value: bool,
}

impl PermissionPrompter for TestPrompter {
    fn prompt(
        &mut self,
        _message: &str,
        _name: &str,
        _api_name: Option<&str>,
        _is_unary: bool,
    ) -> PromptResponse {
        if self.value {
            PromptResponse::Allow
        } else {
            PromptResponse::Deny
        }
    }
}

fn svec(items: &[&str]) -> Vec<String> {
    items.iter().map(|s| s.to_string()).collect()
}

fn read_query(path: &str) -> ReadQueryDescriptor {
    TestParser.parse_path_query(path).unwrap().into_read()
}

fn write_query(path: &str) -> WriteQueryDescriptor {
    TestParser.parse_path_query(path).unwrap().into_write()
}

fn ffi_query(path: &str) -> FfiQueryDescriptor {
    TestParser.parse_path_query(path).unwrap().into_ffi()
}

fn sys_desc(name: &str) -> SysDescriptor {
    SysDescriptor::parse(name.to_string()).unwrap()
}

fn host(s: &str) -> Host {
    Host::parse(s).unwrap()
}

#[test]
fn test_query() {
    let parser = TestParser;
    let perms1 = Permissions::allow_all();
    let perms2 = Permissions::from_options(
        &parser,
        &PermissionsOptions {
            allow_read: Some(svec(&["/foo"])),
            allow_write: Some(svec(&["/foo"])),
            allow_ffi: Some(svec(&["/foo"])),
            allow_net: Some(svec(&["127.0.0.1:8000"])),
            allow_env: Some(svec(&["HOME"])),
            allow_sys: Some(svec(&["hostname"])),
            allow_run: Some(svec(&["/deno"])),
            allow_all: false,
            ..Default::default()
        },
    )
    .unwrap();
    let perms3 = Permissions::from_options(
        &parser,
        &PermissionsOptions {
            deny_read: Some(svec(&["/foo"])),
            deny_write: Some(svec(&["/foo"])),
            deny_ffi: Some(svec(&["/foo"])),
            deny_net: Some(svec(&["127.0.0.1:8000"])),
            deny_env: Some(svec(&["HOME"])),
            deny_sys: Some(svec(&["hostname"])),
            deny_run: Some(svec(&["deno"])),
            ..Default::default()
        },
    )
    .unwrap();
    let perms4 = Permissions::from_options(
        &parser,
        &PermissionsOptions {
            allow_read: Some(vec![]),
            deny_read: Some(svec(&["/foo"])),
            allow_write: Some(vec![]),
            deny_write: Some(svec(&["/foo"])),
            allow_ffi: Some(vec![]),
            deny_ffi: Some(svec(&["/foo"])),
            allow_net: Some(vec![]),
            deny_net: Some(svec(&["127.0.0.1:8000"])),
            allow_env: Some(vec![]),
            deny_env: Some(svec(&["HOME"])),
            allow_sys: Some(vec![]),
            deny_sys: Some(svec(&["hostname"])),
            allow_run: Some(vec![]),
            deny_run: Some(svec(&["deno"])),
            ..Default::default()
        },
    )
    .unwrap();
    assert_eq!(perms1.read.query(None), PermissionState::Granted);
    assert_eq!(perms1.read.query(Some(&read_query("/foo"))), PermissionState::Granted);
    assert_eq!(perms2.read.query(None), PermissionState::Prompt);
    assert_eq!(perms2.read.query(Some(&read_query("/foo"))), PermissionState::Granted);
    assert_eq!(perms2.read.query(Some(&read_query("/foo/bar"))), PermissionState::Granted);
    assert_eq!(perms3.read.query(None), PermissionState::Prompt);
    assert_eq!(perms3.read.query(Some(&read_query("/foo"))), PermissionState::Denied);
    assert_eq!(perms3.read.query(Some(&read_query("/foo/bar"))), PermissionState::Denied);
    assert_eq!(perms4.read.query(None), PermissionState::GrantedPartial);
    assert_eq!(perms4.read.query(Some(&read_query("/foo"))), PermissionState::Denied);
    assert_eq!(perms4.read.query(Some(&read_query("/foo/bar"))), PermissionState::Denied);
    assert_eq!(perms4.read.query(Some(&read_query("/bar"))), PermissionState::Granted);
    assert_eq!(perms1.write.query(None), PermissionState::Granted);
    assert_eq!(perms1.write.query(Some(&write_query("/foo"))), PermissionState::Granted);
    assert_eq!(perms2.write.query(None), PermissionState::Prompt);
    assert_eq!(perms2.write.query(Some(&write_query("/foo"))), PermissionState::Granted);
    assert_eq!(perms2.write.query(Some(&write_query("/foo/bar"))), PermissionState::Granted);
    assert_eq!(perms3.write.query(None), PermissionState::Prompt);
    assert_eq!(perms3.write.query(Some(&write_query("/foo"))), PermissionState::Denied);
    assert_eq!(perms3.write.query(Some(&write_query("/foo/bar"))), PermissionState::Denied);
    assert_eq!(perms4.write.query(None), PermissionState::GrantedPartial);
    assert_eq!(perms4.write.query(Some(&write_query("/foo"))), PermissionState::Denied);
    assert_eq!(perms4.write.query(Some(&write_query("/foo/bar"))), PermissionState::Denied);
    assert_eq!(perms4.write.query(Some(&write_query("/bar"))), PermissionState::Granted);
    assert_eq!(perms1.ffi.query(None), PermissionState::Granted);
    assert_eq!(perms1.ffi.query(Some(&ffi_query("/foo"))), PermissionState::Granted);
    assert_eq!(perms2.ffi.query(None), PermissionState::Prompt);
    assert_eq!(perms2.ffi.query(Some(&ffi_query("/foo"))), PermissionState::Granted);
    assert_eq!(perms2.ffi.query(Some(&ffi_query("/foo/bar"))), PermissionState::Granted);
    assert_eq!(perms3.ffi.query(None), PermissionState::Prompt);
    assert_eq!(perms3.ffi.query(Some(&ffi_query("/foo"))), PermissionState::Denied);
    assert_eq!(perms3.ffi.query(Some(&ffi_query("/foo/bar"))), PermissionState::Denied);
    assert_eq!(perms4.ffi.query(None), PermissionState::GrantedPartial);
    assert_eq!(perms4.ffi.query(Some(&ffi_query("/foo"))), PermissionState::Denied);
    assert_eq!(perms4.ffi.query(Some(&ffi_query("/foo/bar"))), PermissionState::Denied);
    assert_eq!(perms4.ffi.query(Some(&ffi_query("/bar"))), PermissionState::Granted);
    assert_eq!(perms1.net.query(None), PermissionState::Granted);
    assert_eq!(
        perms1.net.query(Some(&NetDescriptor(host("127.0.0.1"), None))),
        PermissionState::Granted
    );
    assert_eq!(perms2.net.query(None), PermissionState::Prompt);
    assert_eq!(
        perms2.net.query(Some(&NetDescriptor(host("127.0.0.1"), Some(8000)))),
        PermissionState::Granted
    );
    assert_eq!(perms3.net.query(None), PermissionState::Prompt);
    assert_eq!(
        perms3.net.query(Some(&NetDescriptor(host("127.0.0.1"), Some(8000)))),
        PermissionState::Denied
    );
    assert_eq!(perms4.net.query(None), PermissionState::GrantedPartial);
    assert_eq!(
        perms4.net.query(Some(&NetDescriptor(host("127.0.0.1"), Some(8000)))),
        PermissionState::Denied
    );
    assert_eq!(
        perms4.net.query(Some(&NetDescriptor(host("192.168.0.1"), Some(8000)))),
        PermissionState::Granted
    );
    assert_eq!(perms1.env.query(None), PermissionState::Granted);
    assert_eq!(perms1.env.query(Some("HOME")), PermissionState::Granted);
    assert_eq!(perms2.env.query(None), PermissionState::Prompt);
    assert_eq!(perms2.env.query(Some("HOME")), PermissionState::Granted);
    assert_eq!(perms3.env.query(None), PermissionState::Prompt);
    assert_eq!(perms3.env.query(Some("HOME")), PermissionState::Denied);
    assert_eq!(perms4.env.query(None), PermissionState::GrantedPartial);
    assert_eq!(perms4.env.query(Some("HOME")), PermissionState::Denied);
    assert_eq!(perms4.env.query(Some("AWAY")), PermissionState::Granted);
    assert_eq!(perms1.sys.query(None), PermissionState::Granted);
    assert_eq!(perms1.sys.query(Some(&sys_desc("osRelease"))), PermissionState::Granted);
    assert_eq!(perms2.sys.query(None), PermissionState::Prompt);
    assert_eq!(perms2.sys.query(Some(&sys_desc("hostname"))), PermissionState::Granted);
    assert_eq!(perms3.sys.query(None), PermissionState::Prompt);
    assert_eq!(perms3.sys.query(Some(&sys_desc("hostname"))), PermissionState::Denied);
    assert_eq!(perms4.sys.query(None), PermissionState::GrantedPartial);
    assert_eq!(perms4.sys.query(Some(&sys_desc("hostname"))), PermissionState::Denied);
    assert_eq!(perms4.sys.query(Some(&sys_desc("uid"))), PermissionState::Granted);
    assert_eq!(perms1.run.query(None), PermissionState::Granted);
    let deno_run_query = RunQueryDescriptor::Path {
        requested: "deno".to_string(),
        resolved: path_of("/deno"),
    };
    let node_run_query = RunQueryDescriptor::Path {
        requested: "node".to_string(),
        resolved: path_of("/node"),
    };
    assert_eq!(perms1.run.query(Some(&deno_run_query)), PermissionState::Granted);
    assert_eq!(perms1.write.query(Some(&write_query("/deno"))), PermissionState::Granted);
    assert_eq!(perms2.run.query(None), PermissionState::Prompt);
    assert_eq!(perms2.run.query(Some(&deno_run_query)), PermissionState::Granted);
    assert_eq!(perms2.write.query(Some(&write_query("/deno"))), PermissionState::Denied);
    assert_eq!(perms3.run.query(None), PermissionState::Prompt);
    assert_eq!(perms3.run.query(Some(&deno_run_query)), PermissionState::Denied);
    assert_eq!(perms4.run.query(None), PermissionState::GrantedPartial);
    assert_eq!(perms4.run.query(Some(&deno_run_query)), PermissionState::Denied);
    assert_eq!(perms4.run.query(Some(&node_run_query)), PermissionState::Granted);
}

#[test]
fn test_request() {
    let mut prompter = TestPrompter { value: true };
    let mut perms: Permissions = Permissions::none_with_prompt();
    let mut perms_no_prompt: Permissions = Permissions::none_without_prompt();
    prompter.value = true;
    assert_eq!(
        perms.read.request(Some(&read_query("/foo")), &mut prompter),
        PermissionState::Granted
    );
    assert_eq!(perms.read.query(None), PermissionState::Prompt);
    prompter.value = false;
    assert_eq!(
        perms.read.request(Some(&read_query("/foo/bar")), &mut prompter),
        PermissionState::Granted
    );
    prompter.value = false;
    assert_eq!(
        perms.write.request(Some(&write_query("/foo")), &mut prompter),
        PermissionState::Denied
    );
    assert_eq!(
        perms.write.query(Some(&write_query("/foo/bar"))),
        PermissionState::Prompt
    );
    prompter.value = true;
    assert_eq!(perms.write.request(None, &mut prompter), PermissionState::Denied);
    prompter.value = false;
    assert_eq!(
        perms.ffi.request(Some(&ffi_query("/foo")), &mut prompter),
        PermissionState::Denied
    );
    assert_eq!(perms.ffi.query(Some(&ffi_query("/foo/bar"))), PermissionState::Prompt);
    prompter.value = true;
    assert_eq!(perms.ffi.request(None, &mut prompter), PermissionState::Denied);
    prompter.value = true;
    assert_eq!(
        perms.net.request(Some(&NetDescriptor(host("127.0.0.1"), None)), &mut prompter),
        PermissionState::Granted
    );
    prompter.value = false;
    assert_eq!(
        perms
            .net
            .request(Some(&NetDescriptor(host("127.0.0.1"), Some(8000))), &mut prompter),
        PermissionState::Granted
    );
    prompter.value = true;
    assert_eq!(perms.env.request(Some("HOME"), &mut prompter), PermissionState::Granted);
    assert_eq!(perms.env.query(None), PermissionState::Prompt);
    prompter.value = false;
    assert_eq!(perms.env.request(Some("HOME"), &mut prompter), PermissionState::Granted);
    prompter.value = true;
    assert_eq!(
        perms.sys.request(Some(&sys_desc("hostname")), &mut prompter),
        PermissionState::Granted
    );
    assert_eq!(perms.sys.query(None), PermissionState::Prompt);
    prompter.value = false;
    assert_eq!(
        perms.sys.request(Some(&sys_desc("hostname")), &mut prompter),
        PermissionState::Granted
    );
    prompter.value = true;
    let run_query = RunQueryDescriptor::Path {
        requested: "deno".to_string(),
        resolved: path_of("/deno"),
    };
    assert_eq!(perms.run.request(Some(&run_query), &mut prompter), PermissionState::Granted);
    assert_eq!(perms.run.query(None), PermissionState::Prompt);
    prompter.value = false;
    assert_eq!(perms.run.request(Some(&run_query), &mut prompter), PermissionState::Granted);
    assert_eq!(
        perms_no_prompt.read.request(Some(&read_query("/foo")), &mut prompter),
        PermissionState::Denied
    );
}

#[test]
fn test_revoke() {
    let parser = TestParser;
    let mut perms = Permissions::from_options(
        &parser,
        &PermissionsOptions {
            allow_read: Some(svec(&["/foo", "/foo/baz"])),
            allow_write: Some(svec(&["/foo", "/foo/baz"])),
            allow_ffi: Some(svec(&["/foo", "/foo/baz"])),
            allow_net: Some(svec(&["127.0.0.1", "127.0.0.1:8000"])),
            allow_env: Some(svec(&["HOME"])),
            allow_sys: Some(svec(&["hostname"])),
            allow_run: Some(svec(&["/deno"])),
            ..Default::default()
        },
    )
    .unwrap();
    assert_eq!(
        perms.read.revoke(Some(&read_query("/foo/bar"))),
        PermissionState::Prompt
    );
    assert_eq!(perms.read.query(Some(&read_query("/foo"))), PermissionState::Prompt);
    assert_eq!(
        perms.read.query(Some(&read_query("/foo/baz"))),
        PermissionState::Granted
    );
    assert_eq!(
        perms.write.revoke(Some(&write_query("/foo/bar"))),
        PermissionState::Prompt
    );
    assert_eq!(perms.write.query(Some(&write_query("/foo"))), PermissionState::Prompt);
    assert_eq!(
        perms.write.query(Some(&write_query("/foo/baz"))),
        PermissionState::Granted
    );
    assert_eq!(perms.ffi.revoke(Some(&ffi_query("/foo/bar"))), PermissionState::Prompt);
    assert_eq!(perms.ffi.query(Some(&ffi_query("/foo"))), PermissionState::Prompt);
    assert_eq!(perms.ffi.query(Some(&ffi_query("/foo/baz"))), PermissionState::Granted);
    assert_eq!(
        perms.net.revoke(Some(&NetDescriptor(host("127.0.0.1"), Some(9000)))),
        PermissionState::Prompt
    );
    assert_eq!(
        perms.net.query(Some(&NetDescriptor(host("127.0.0.1"), None))),
        PermissionState::Prompt
    );
    assert_eq!(
        perms.net.query(Some(&NetDescriptor(host("127.0.0.1"), Some(8000)))),
        PermissionState::Granted
    );
    assert_eq!(perms.env.revoke(Some("HOME")), PermissionState::Prompt);
    assert_eq!(perms.env.revoke(Some("hostname")), PermissionState::Prompt);
    let run_query = RunQueryDescriptor::Path {
        requested: "deno".to_string(),
        resolved: path_of("/deno"),
    };
    assert_eq!(perms.run.revoke(Some(&run_query)), PermissionState::Prompt);
}

#[test]
fn test_check() {
    let mut prompter = TestPrompter { value: true };
    let mut perms = Permissions::none_with_prompt();
    prompter.value = true;
    assert!(perms.read.check(&read_query("/foo"), None, &mut prompter).is_ok());
    prompter.value = false;
    assert!(perms.read.check(&read_query("/foo"), None, &mut prompter).is_ok());
    assert!(perms.read.check(&read_query("/bar"), None, &mut prompter).is_err());

    prompter.value = true;
    assert!(perms.write.check(&write_query("/foo"), None, &mut prompter).is_ok());
    prompter.value = false;
    assert!(perms.write.check(&write_query("/foo"), None, &mut prompter).is_ok());
    assert!(perms.write.check(&write_query("/bar"), None, &mut prompter).is_err());

    prompter.value = true;
    assert!(perms.ffi.check(&ffi_query("/foo"), None, &mut prompter).is_ok());
    prompter.value = false;
    assert!(perms.ffi.check(&ffi_query("/foo"), None, &mut prompter).is_ok());
    assert!(perms.ffi.check(&ffi_query("/bar"), None, &mut prompter).is_err());

    prompter.value = true;
    assert!(perms
        .net
        .check(&NetDescriptor(host("127.0.0.1"), Some(8000)), None, &mut prompter)
        .is_ok());
    prompter.value = false;
    assert!(perms
        .net
        .check(&NetDescriptor(host("127.0.0.1"), Some(8000)), None, &mut prompter)
        .is_ok());
    assert!(perms
        .net
        .check(&NetDescriptor(host("127.0.0.1"), Some(8001)), None, &mut prompter)
        .is_err());
    assert!(perms
        .net
        .check(&NetDescriptor(host("127.0.0.1"), None), None, &mut prompter)
        .is_err());
    assert!(perms
        .net
        .check(&NetDescriptor(host("deno.land"), Some(8000)), None, &mut prompter)
        .is_err());
    assert!(perms
        .net
        .check(&NetDescriptor(host("deno.land"), None), None, &mut prompter)
        .is_err());

    prompter.value = true;
    assert!(perms
        .run
        .check(
            &RunQueryDescriptor::Path {
                requested: "cat".to_string(),
                resolved: path_of("/usr/bin/cat")
            },
            None,
            &mut prompter
        )
        .is_ok());
    prompter.value = false;
    assert!(perms
        .run
        .check(
            &RunQueryDescriptor::Path {
                requested: "cat".to_string(),
                resolved: path_of("/usr/bin/cat")
            },
            None,
            &mut prompter
        )
        .is_ok());
    assert!(perms
        .run
        .check(
            &RunQueryDescriptor::Path {
                requested: "ls".to_string(),
                resolved: path_of("/usr/bin/ls")
            },
            None,
            &mut prompter
        )
        .is_err());

    prompter.value = true;
    assert!(perms.env.check("HOME", None, &mut prompter).is_ok());
    prompter.value = false;
    assert!(perms.env.check("HOME", None, &mut prompter).is_ok());
    assert!(perms.env.check("PATH", None, &mut prompter).is_err());

    prompter.value = true;
    assert!(perms.env.check("hostname", None, &mut prompter).is_ok());
    prompter.value = false;
    assert!(perms.env.check("hostname", None, &mut prompter).is_ok());
    assert!(perms.env.check("osRelease", None, &mut prompter).is_err());
}

#[test]
fn test_check_fail() {
    let mut prompter = TestPrompter { value: false };
    let mut perms = Permissions::none_with_prompt();

    prompter.value = false;
    assert!(perms.read.check(&read_query("/foo"), None, &mut prompter).is_err());
    prompter.value = true;
    assert!(perms.read.check(&read_query("/foo"), None, &mut prompter).is_err());
    assert!(perms.read.check(&read_query("/bar"), None, &mut prompter).is_ok());
    prompter.value = false;
    assert!(perms.read.check(&read_query("/bar"), None, &mut prompter).is_ok());

    prompter.value = false;
    assert!(perms.write.check(&write_query("/foo"), None, &mut prompter).is_err());
    prompter.value = true;
    assert!(perms.write.check(&write_query("/foo"), None, &mut prompter).is_err());
    assert!(perms.write.check(&write_query("/bar"), None, &mut prompter).is_ok());
    prompter.value = false;
    assert!(perms.write.check(&write_query("/bar"), None, &mut prompter).is_ok());

    prompter.value = false;
    assert!(perms.ffi.check(&ffi_query("/foo"), None, &mut prompter).is_err());
    prompter.value = true;
    assert!(perms.ffi.check(&ffi_query("/foo"), None, &mut prompter).is_err());
    assert!(perms.ffi.check(&ffi_query("/bar"), None, &mut prompter).is_ok());
    prompter.value = false;
    assert!(perms.ffi.check(&ffi_query("/bar"), None, &mut prompter).is_ok());

    prompter.value = false;
    assert!(perms
        .net
        .check(&NetDescriptor(host("127.0.0.1"), Some(8000)), None, &mut prompter)
        .is_err());
    prompter.value = true;
    assert!(perms
        .net
        .check(&NetDescriptor(host("127.0.0.1"), Some(8000)), None, &mut prompter)
        .is_err());
    assert!(perms
        .net
        .check(&NetDescriptor(host("127.0.0.1"), Some(8001)), None, &mut prompter)
        .is_ok());
    assert!(perms
        .net
        .check(&NetDescriptor(host("deno.land"), Some(8000)), None, &mut prompter)
        .is_ok());
    prompter.value = false;
    assert!(perms
        .net
        .check(&NetDescriptor(host("127.0.0.1"), Some(8001)), None, &mut prompter)
        .is_ok());
    assert!(perms
        .net
        .check(&NetDescriptor(host("deno.land"), Some(8000)), None, &mut prompter)
        .is_ok());

    prompter.value = false;
    assert!(perms
        .run
        .check(
            &RunQueryDescriptor::Path {
                requested: "cat".to_string(),
                resolved: path_of("/usr/bin/cat")
            },
            None,
            &mut prompter
        )
        .is_err());
    prompter.value = true;
    assert!(perms
        .run
        .check(
            &RunQueryDescriptor::Path {
                requested: "cat".to_string(),
                resolved: path_of("/usr/bin/cat")
            },
            None,
            &mut prompter
        )
        .is_err());
    assert!(perms
        .run
        .check(
            &RunQueryDescriptor::Path {
                requested: "ls".to_string(),
                resolved: path_of("/usr/bin/ls")
            },
            None,
            &mut prompter
        )
        .is_ok());
    prompter.value = false;
    assert!(perms
        .run
        .check(
            &RunQueryDescriptor::Path {
                requested: "ls".to_string(),
                resolved: path_of("/usr/bin/ls")
            },
            None,
            &mut prompter
        )
        .is_ok());

    prompter.value = false;
    assert!(perms.env.check("HOME", None, &mut prompter).is_err());
    prompter.value = true;
    assert!(perms.env.check("HOME", None, &mut prompter).is_err());
    assert!(perms.env.check("PATH", None, &mut prompter).is_ok());
    prompter.value = false;
    assert!(perms.env.check("PATH", None, &mut prompter).is_ok());

    prompter.value = false;
    assert!(perms.sys.check(&sys_desc("hostname"), None, &mut prompter).is_err());
    prompter.value = true;
    assert!(perms.sys.check(&sys_desc("hostname"), None, &mut prompter).is_err());
    assert!(perms.sys.check(&sys_desc("osRelease"), None, &mut prompter).is_ok());
    prompter.value = false;
    assert!(perms.sys.check(&sys_desc("osRelease"), None, &mut prompter).is_ok());
}

#[test]
fn test_check_partial_denied() {
    let parser = TestParser;
    let mut prompter = TestPrompter { value: false };
    let mut perms = Permissions::from_options(
        &parser,
        &PermissionsOptions {
            allow_read: Some(vec![]),
            deny_read: Some(svec(&["/foo/bar"])),
            allow_write: Some(vec![]),
            deny_write: Some(svec(&["/foo/bar"])),
            ..Default::default()
        },
    )
    .unwrap();

    let rq = read_query("/foo");
    perms.read.check_partial(&rq, None, &mut prompter).unwrap();
    assert!(perms.read.check(&rq, None, &mut prompter).is_err());

    let wq = write_query("/foo");
    perms.write.check_partial(&wq, None, &mut prompter).unwrap();
    assert!(perms.write.check(&wq, None, &mut prompter).is_err());
}

#[test]
fn allow_all_answer_engages_global_fast_path() {
    // an interactive "allow all of this kind" answer is memoized: the
    // second identical check passes without asking again
    struct AllowAllOnce {
        asked: u32,
    }
    impl PermissionPrompter for AllowAllOnce {
        fn prompt(
            &mut self,
            _message: &str,
            _name: &str,
            _api_name: Option<&str>,
            _is_unary: bool,
        ) -> PromptResponse {
            self.asked += 1;
            PromptResponse::AllowAll
        }
    }
    let mut prompter = AllowAllOnce { asked: 0 };
    let mut perms = Permissions::none_with_prompt();
    assert!(perms.read.check(&read_query("/foo"), None, &mut prompter).is_ok());
    assert_eq!(prompter.asked, 1);
    assert!(perms.read.check(&read_query("/foo"), None, &mut prompter).is_ok());
    assert_eq!(prompter.asked, 1);
    assert!(perms.read.query(None) == PermissionState::Granted);
}

#[test]
fn revoke_whole_kind_resets_to_prompt() {
    // revoking the whole kind clears the granted list entirely, and the
    // whole-kind query answers promptable again
    let parser = TestParser;
    let mut perms = Permissions::from_options(
        &parser,
        &PermissionsOptions {
            allow_read: Some(svec(&["/a", "/b", "/c"])),
            ..Default::default()
        },
    )
    .unwrap();
    assert_eq!(perms.read.query(Some(&read_query("/a"))), PermissionState::Granted);
    assert_eq!(perms.read.revoke(None), PermissionState::Prompt);
    assert_eq!(perms.read.query(None), PermissionState::Prompt);
    assert_eq!(perms.read.query(Some(&read_query("/a"))), PermissionState::Prompt);
    assert_eq!(perms.read.granted_list.len(), 0);
    assert!(!perms.read.granted_global);
}

#[test]
fn allow_and_deny_same_net_scope_denies() {
    // an allow and an explicit deny of the very same scope: denial wins
    let parser = TestParser;
    let mut prompter = TestPrompter { value: true };
    let mut perms = Permissions::from_options(
        &parser,
        &PermissionsOptions {
            allow_net: Some(svec(&["127.0.0.1:8000"])),
            deny_net: Some(svec(&["127.0.0.1:8000"])),
            ..Default::default()
        },
    )
    .unwrap();
    assert!(perms
        .net
        .check(&NetDescriptor(host("127.0.0.1"), Some(8000)), None, &mut prompter)
        .is_err());
    assert_eq!(
        perms.net.query(Some(&NetDescriptor(host("127.0.0.1"), Some(8000)))),
        PermissionState::Denied
    );
}

#[test]
fn run_allow_list_denies_write_to_binary() {
    // granting execute access to a binary implicitly denies writing it
    let parser = TestParser;
    let mut prompter = TestPrompter { value: false };
    let mut perms = Permissions::from_options(
        &parser,
        &PermissionsOptions {
            allow_run: Some(svec(&["/deno"])),
            ..Default::default()
        },
    )
    .unwrap();
    assert!(perms.write.check(&write_query("/deno"), None, &mut prompter).is_err());
    assert_eq!(perms.write.query(Some(&write_query("/deno"))), PermissionState::Denied);
}

#[test]
fn revoking_a_bare_name_revokes_the_resolved_path() {
    // revoking "deno" also removes a grant that was resolved to a path
    // whose file stem is that name
    let parser = TestParser;
    let mut perms = Permissions::from_options(
        &parser,
        &PermissionsOptions {
            allow_run: Some(svec(&["/usr/bin/deno"])),
            ..Default::default()
        },
    )
    .unwrap();
    let resolved_query = RunQueryDescriptor::Path {
        requested: "deno".to_string(),
        resolved: path_of("/usr/bin/deno"),
    };
    assert_eq!(perms.run.query(Some(&resolved_query)), PermissionState::Granted);
    assert_eq!(
        perms.run.revoke(Some(&RunQueryDescriptor::Name("deno".to_string()))),
        PermissionState::Prompt
    );
    assert_eq!(perms.run.query(Some(&resolved_query)), PermissionState::Prompt);
    assert_eq!(perms.run.granted_list.len(), 0);
}

#[test]
fn empty_run_command_name_is_rejected() {
    // an empty command name in the allow-run list fails construction
    let parser = TestParser;
    let r = Permissions::from_options(
        &parser,
        &PermissionsOptions {
            allow_run: Some(svec(&["deno", ""])),
            ..Default::default()
        },
    );
    assert!(r.is_err());
}

#[test]
fn construction_with_no_lists_cannot_fail() {
    // with nothing to parse, construction is owed success
    let parser = TestParser;
    assert!(Permissions::from_options(&parser, &PermissionsOptions::default()).is_ok());
    assert!(Permissions::from_options(
        &parser,
        &PermissionsOptions { allow_all: true, prompt: true, ..Default::default() },
    )
    .is_ok());
}
