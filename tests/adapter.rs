use std::cell::Cell;

use verilog_extension::{
    classify, AdapterError, Adapter, Provisioned, ResolveStep, ServerKind,
};

fn path_env() -> Vec<(String, String)> {
    vec![("PATH".to_string(), "/usr/bin".to_string())]
}

fn installed(path: &str) -> Provisioned {
    Provisioned::Installed { path: path.to_string(), executable: true }
}

#[test]
fn svls_resolves_to_stdio_command() {
    let mut adapter = Adapter::new();
    let cmd = adapter
        .language_server_command("svls", path_env(), |_| installed("/work/svls-v0.2/svls"))
        .unwrap();
    assert!(cmd.command.ends_with("svls"));
    assert_eq!(cmd.command, "/work/svls-v0.2/svls");
    assert_eq!(cmd.args, vec!["stdio".to_string()]);
    assert!(cmd.env.iter().any(|(k, v)| k == "PATH" && v == "/usr/bin"));
}

#[test]
fn unknown_identity_is_reported() {
    let mut adapter = Adapter::new();
    let calls = Cell::new(0u32);
    let err = adapter
        .language_server_command("unknown-server-123", path_env(), |_| {
            calls.set(calls.get() + 1);
            installed("/bin/svls")
        })
        .unwrap_err();
    assert!(err.message().contains("unknown language server: unknown-server-123"));
    assert_eq!(err.message(), "unknown language server: unknown-server-123");
    assert_eq!(calls.get(), 0);
    assert!(adapter.svls.is_none());
}

#[test]
fn second_resolution_does_not_provision_again() {
    let mut adapter = Adapter::new();
    let calls = Cell::new(0u32);
    let provision = |_: ServerKind| {
        calls.set(calls.get() + 1);
        installed("/work/svls")
    };
    let first = adapter.language_server_command("svls", path_env(), provision).unwrap();
    let second = adapter
        .language_server_command("svls", Vec::new(), |_: ServerKind| {
            calls.set(calls.get() + 1);
            installed("/elsewhere/svls")
        })
        .unwrap();
    assert_eq!(calls.get(), 1);
    assert_eq!(first.command, "/work/svls");
    assert_eq!(second.command, "/work/svls");
    assert!(second.env.is_empty());
}

#[test]
fn failed_provisioning_is_retried_and_not_kept() {
    let mut adapter = Adapter::new();
    let err = adapter
        .language_server_command("svls", path_env(), |_| {
            Provisioned::Failed("network unreachable".to_string())
        })
        .unwrap_err();
    assert_eq!(err.message(), "svls: provisioning failed: network unreachable");
    assert!(adapter.svls.as_ref().unwrap().resolved.is_none());
    let calls = Cell::new(0u32);
    let cmd = adapter
        .language_server_command("svls", path_env(), |_| {
            calls.set(calls.get() + 1);
            installed("/work/svls")
        })
        .unwrap();
    assert_eq!(calls.get(), 1);
    assert_eq!(cmd.command, "/work/svls");
}

#[test]
fn non_executable_artifact_is_rejected() {
    let mut adapter = Adapter::new();
    let err = adapter
        .language_server_command("svls", path_env(), |_| Provisioned::Installed {
            path: "/work/svls.partial".to_string(),
            executable: false,
        })
        .unwrap_err();
    match &err {
        AdapterError::NotExecutable(ServerKind::Svls, p) => assert_eq!(p, "/work/svls.partial"),
        other => panic!("unexpected error {:?}", other),
    }
    assert_eq!(err.message(), "svls: not an executable file: /work/svls.partial");
    assert!(adapter.svls.as_ref().unwrap().resolved.is_none());
}

#[test]
fn invalidation_provisions_again() {
    let mut adapter = Adapter::new();
    adapter.language_server_command("svls", path_env(), |_| installed("/a/svls")).unwrap();
    adapter.invalidate(ServerKind::Svls);
    let calls = Cell::new(0u32);
    let cmd = adapter
        .language_server_command("svls", path_env(), |_| {
            calls.set(calls.get() + 1);
            installed("/b/svls")
        })
        .unwrap();
    assert_eq!(calls.get(), 1);
    assert_eq!(cmd.command, "/b/svls");
}

#[test]
fn finish_provisioning_keeps_verified_path() {
    let mut adapter = Adapter::new();
    let cmd = adapter
        .finish_provisioning(ServerKind::Svls, installed("/opt/svls"), path_env())
        .unwrap();
    assert_eq!(cmd.command, "/opt/svls");
    assert_eq!(adapter.svls.as_ref().unwrap().resolved.as_deref(), Some("/opt/svls"));
}

#[test]
fn classify_known_and_unknown() {
    assert_eq!(classify("svls").unwrap(), ServerKind::Svls);
    assert_eq!(ServerKind::Svls.language_server_id(), "svls");
    match classify("SVLS") {
        Err(AdapterError::UnknownServer(t)) => assert_eq!(t, "SVLS"),
        _ => panic!("identity classification is case-sensitive"),
    }
    assert!(classify("").is_err());
    assert!(classify("svls ").is_err());
}

#[test]
fn command_is_built_in_stdio_mode() {
    let cmd = verilog_extension::build_command("/usr/local/bin/svls".to_string(), path_env());
    assert_eq!(cmd.command, "/usr/local/bin/svls");
    assert_eq!(cmd.args, vec!["stdio".to_string()]);
    assert_eq!(cmd.env, path_env());
}

#[test]
fn relative_or_empty_path_is_rejected() {
    for path in ["svls-v0.2/svls", ""] {
        let mut adapter = Adapter::new();
        let err = adapter
            .language_server_command("svls", path_env(), |_| installed(path))
            .unwrap_err();
        match &err {
            AdapterError::NotAbsolute(ServerKind::Svls, p) => assert_eq!(p, path),
            other => panic!("unexpected error {:?}", other),
        }
        assert_eq!(err.message(), format!("svls: not an absolute path: {path}"));
        assert!(adapter.svls.as_ref().unwrap().resolved.is_none());
    }
}

#[test]
fn drive_path_is_absolute() {
    let mut adapter = Adapter::new();
    let cmd = adapter
        .language_server_command("svls", Vec::new(), |_| installed("C:\\tools\\svls.exe"))
        .unwrap();
    assert_eq!(cmd.command, "C:\\tools\\svls.exe");
    assert!(verilog_extension::command::path_is_absolute("D:/svls"));
    assert!(!verilog_extension::command::path_is_absolute("D:svls"));
}

#[test]
fn resolve_step_asks_for_provisioning_once() {
    let mut adapter = Adapter::new();
    match adapter.resolve_step("svls").unwrap() {
        ResolveStep::Provision(ServerKind::Svls) => {}
        other => panic!("unexpected step {:?}", other),
    }
    adapter.finish_provisioning(ServerKind::Svls, installed("/opt/svls"), path_env()).unwrap();
    match adapter.resolve_step("svls").unwrap() {
        ResolveStep::Start(p) => assert_eq!(p, "/opt/svls"),
        other => panic!("unexpected step {:?}", other),
    }
    match adapter.resolve_step("unknown-server-123") {
        Err(AdapterError::UnknownServer(t)) => assert_eq!(t, "unknown-server-123"),
        other => panic!("unexpected result {:?}", other),
    }
}
