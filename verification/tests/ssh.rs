use cli_manager::ssh::auth::{
    auth_probe_output, first_line_of, host_key_fingerprint, is_authenticated_log,
    run_ssh_auth_probe, single_line, AuthProbe, AuthProbeEnd, AuthProbeEvent, AuthProbeLog,
    AuthProbeStep, SshAuthProbeOutput, MAX_LOG_LINES,
};
use cli_manager::ssh::connect::{
    ensure_non_interactive, ssh_probe_command, ssh_remote_command, timeout_seconds, CommandOutput,
    ExitStatus, SshConnectionSpec,
};
use cli_manager::ssh::connection::{
    login_diagnosis, ssh_client_status, ssh_test_connection, ConnectionTest, SshClientStatus,
    SshConnectionTestResult, TestAction, TestEvent,
};
use cli_manager::ssh::files::{
    directory_list, path_check_answer, path_check_result, sort_entries, sort_keyed, ssh_check_path,
    ssh_list_directories, SshDirectoryEntry, SshPathCheckResult,
};
use cli_manager::ssh::output::{
    agent_probe_process_output, read_bounded, run_agent_probe_process, AgentProbeProcessOutput,
    BoundedOutput, WaitStep,
};
use cli_manager::ssh::password::{
    password_account, ssh_delete_password, ssh_password_account, ssh_password_status,
    ssh_save_password,
};
use cli_manager::ssh::path::{
    format_remote_home_path, posix_quote, validate_remote_home_path, validate_remote_path,
    SshRemoteHomePathError,
};
use cli_manager::ssh::probe::{
    agent_probe_decoded, agent_probe_plan, agent_probe_report, agent_probe_result,
    agent_probe_step, build_agent_probe_script, parse_agent_probe_stdout, result_from_agent_report,
    ssh_agent_probe, AgentDoctorProbe, AgentProbePlan, AgentProbeStdout, AgentProbeStep,
    AgentVersionProbe, ParsedAgentProbe, MAX_AGENT_PROBE_BANNER_BYTES,
    MAX_AGENT_PROBE_REPORT_BYTES,
};

fn spec() -> SshConnectionSpec {
    SshConnectionSpec {
        host: "example.com".to_string(),
        port: 2222,
        username: "dev".to_string(),
        config_alias: String::new(),
        auth_mode: "identity_file".to_string(),
        identity_file: "/home/dev/.ssh/id_ed25519".to_string(),
        credential_ref: String::new(),
        jump_target: "bastion".to_string(),
        proxy_type: "none".to_string(),
        proxy_host: String::new(),
        proxy_port: 0,
        proxy_command: String::new(),
        connect_timeout_sec: 12,
        server_alive_interval_sec: 30,
        server_alive_count_max: 3,
    }
}

fn report(name: &str, major: u16, supported: bool, code: &str) -> AgentDoctorProbe {
    AgentDoctorProbe {
        version: AgentVersionProbe {
            agent_name: name.into(),
            agent_version: "0.1.0".into(),
            protocol_major: major,
            protocol_minor: 0,
            target_os: "linux".into(),
            target_arch: "x86_64".into(),
        },
        supported,
        code: code.into(),
    }
}

fn decoded_report(text: &str) -> Option<AgentDoctorProbe> {
    let value: serde_json::Value = serde_json::from_str(text).ok()?;
    let version = &value["version"];
    Some(AgentDoctorProbe {
        version: AgentVersionProbe {
            agent_name: version["agentName"].as_str()?.to_string(),
            agent_version: version["agentVersion"].as_str()?.to_string(),
            protocol_major: version["protocolMajor"].as_u64()? as u16,
            protocol_minor: version["protocolMinor"].as_u64()? as u16,
            target_os: version["targetOs"].as_str()?.to_string(),
            target_arch: version["targetArch"].as_str()?.to_string(),
        },
        supported: value["supported"].as_bool()?,
        code: value["code"].as_str()?.to_string(),
    })
}

#[test]
fn agent_probe_script_rejects_unsafe_explicit_paths() {
    assert_eq!(
        build_agent_probe_script(Some("$HOME/agent")).unwrap_err(),
        "ssh_agent_path_invalid"
    );
    assert_eq!(
        build_agent_probe_script(Some("~/../agent")).unwrap_err(),
        "ssh_agent_path_parent_forbidden"
    );
    let script = build_agent_probe_script(Some("~/bin/cli-manager-ssh-agent")).unwrap();
    assert!(script.contains("agent=\"${HOME}\"/'bin/cli-manager-ssh-agent'"));
}

#[test]
fn the_probe_script_is_written_out() {
    let plain = "set -eu\nagent=''\n\
        if [ -z \"$agent\" ] && command -v cli-manager-ssh-agent >/dev/null 2>&1; then agent=$(command -v cli-manager-ssh-agent); fi\n\
        if [ -z \"$agent\" ] && [ -x \"${HOME}/.local/bin/cli-manager-ssh-agent\" ]; then agent=\"${HOME}/.local/bin/cli-manager-ssh-agent\"; fi\n\
        data_agent=\"${XDG_DATA_HOME:-${HOME}/.local/share}/cli-manager-ssh-agent/current/cli-manager-ssh-agent\"\n\
        if [ -z \"$agent\" ] && [ -x \"$data_agent\" ]; then agent=\"$data_agent\"; fi\n\
        if [ -z \"$agent\" ]; then printf 'CLI_MANAGER_SSH_AGENT_PROBE/1 notInstalled\\n'; exit 127; fi\n\
        printf 'CLI_MANAGER_SSH_AGENT_PROBE/1 found\\n%s\\n' \"$agent\"\n\
        exec \"$agent\" doctor";
    assert_eq!(build_agent_probe_script(None).unwrap(), plain);
    assert_eq!(build_agent_probe_script(Some("  ")).unwrap(), plain);
    let explicit = build_agent_probe_script(Some(" /opt/agent ")).unwrap();
    assert_eq!(
        explicit,
        plain.replace(
            "set -eu\nagent=''\n",
            "set -eu\nagent=''\nif [ -x '/opt/agent' ]; then agent='/opt/agent'; fi\n"
        )
    );
}

#[test]
fn agent_probe_parser_allows_bounded_login_banner() {
    let stdout = b"Welcome to server\nCLI_MANAGER_SSH_AGENT_PROBE/1 found\n/usr/bin/cli-manager-ssh-agent\n{\"version\":{\"agentName\":\"cli-manager-ssh-agent\",\"agentVersion\":\"0.1.0\",\"protocolMajor\":1,\"protocolMinor\":0,\"targetOs\":\"linux\",\"targetArch\":\"x86_64\"},\"supported\":true,\"code\":\"ok\"}\n";
    let AgentProbeStdout::Found {
        install_path,
        report_json,
    } = parse_agent_probe_stdout(stdout).unwrap()
    else {
        panic!("expected report");
    };
    let ParsedAgentProbe::Report {
        install_path,
        report,
    } = agent_probe_report(install_path, decoded_report(&report_json)).unwrap()
    else {
        panic!("expected report");
    };
    assert_eq!(install_path, "/usr/bin/cli-manager-ssh-agent");
    let result = result_from_agent_report(install_path, report);
    assert_eq!(result.status, "installed");
    assert_eq!(result.protocol_version, "1.0");
    assert_eq!(result.target, "linux/x86_64");
}

#[test]
fn agent_probe_parser_rejects_banner_over_limit() {
    let mut stdout = vec![b'x'; MAX_AGENT_PROBE_BANNER_BYTES + 1];
    stdout.extend_from_slice(b"CLI_MANAGER_SSH_AGENT_PROBE/1 notInstalled\n");
    assert_eq!(
        parse_agent_probe_stdout(&stdout).unwrap_err(),
        "ssh_agent_probe_banner_too_large"
    );
    let mut stdout = vec![b'x'; MAX_AGENT_PROBE_BANNER_BYTES];
    stdout.extend_from_slice(b"CLI_MANAGER_SSH_AGENT_PROBE/1 notInstalled\r\n \n");
    assert!(matches!(
        parse_agent_probe_stdout(&stdout).unwrap(),
        AgentProbeStdout::NotInstalled
    ));
}

#[test]
fn agent_probe_parser_names_each_fault() {
    let cases: [(&[u8], &str); 8] = [
        (b"hello\n", "ssh_agent_probe_magic_missing"),
        (b"\xff\xfe", "ssh_agent_probe_output_invalid"),
        (
            b"CLI_MANAGER_SSH_AGENT_PROBE/1 found",
            "ssh_agent_probe_output_invalid",
        ),
        (
            b"CLI_MANAGER_SSH_AGENT_PROBE/1 found\n/opt/agent",
            "ssh_agent_probe_output_invalid",
        ),
        (
            b"CLI_MANAGER_SSH_AGENT_PROBE/1 found\nopt/agent\n{}",
            "ssh_agent_probe_path_invalid",
        ),
        (
            b"CLI_MANAGER_SSH_AGENT_PROBE/1 found\n/opt/../agent\n{}",
            "ssh_agent_probe_path_invalid",
        ),
        (
            b"CLI_MANAGER_SSH_AGENT_PROBE/1 notInstalled\nmore",
            "ssh_agent_probe_stdout_contaminated",
        ),
        (
            b"CLI_MANAGER_SSH_AGENT_PROBE/1 lost\n",
            "ssh_agent_probe_magic_invalid",
        ),
    ];
    for (stdout, code) in cases {
        assert_eq!(parse_agent_probe_stdout(stdout).unwrap_err(), code);
    }
    assert_eq!(
        parse_agent_probe_stdout(&vec![b'x'; MAX_AGENT_PROBE_REPORT_BYTES + 1]).unwrap_err(),
        "ssh_agent_probe_output_too_large"
    );
    assert_eq!(
        agent_probe_report("/opt/agent".to_string(), None).unwrap_err(),
        "ssh_agent_probe_stdout_contaminated"
    );
}

#[test]
fn agent_probe_classifies_protocol_mismatch() {
    let result = result_from_agent_report(
        "/opt/agent".into(),
        AgentDoctorProbe {
            version: AgentVersionProbe {
                agent_name: "cli-manager-ssh-agent".into(),
                agent_version: "2.0.0".into(),
                protocol_major: 2,
                protocol_minor: 0,
                target_os: "linux".into(),
                target_arch: "aarch64".into(),
            },
            supported: true,
            code: "ok".into(),
        },
    );
    assert_eq!(result.status, "incompatible");
    assert_eq!(result.code, "ssh_agent_protocol_incompatible");
    assert!(!result.supported);
    assert_eq!(result.protocol_version, "2.0");
    assert_eq!(result.agent_version, "2.0.0");
    assert_eq!(result.target, "linux/aarch64");
}

#[test]
fn agent_probe_does_not_mark_failed_doctor_as_usable() {
    let result = result_from_agent_report(
        "/opt/agent".into(),
        AgentDoctorProbe {
            version: AgentVersionProbe {
                agent_name: "cli-manager-ssh-agent".into(),
                agent_version: "0.1.0".into(),
                protocol_major: 1,
                protocol_minor: 0,
                target_os: "linux".into(),
                target_arch: "x86_64".into(),
            },
            supported: true,
            code: "home_directory_unavailable".into(),
        },
    );
    assert_eq!(result.status, "corrupt");
    assert_eq!(result.code, "home_directory_unavailable");
    assert!(!result.supported);
}

#[test]
fn only_a_healthy_agent_is_usable() {
    let name = "cli-manager-ssh-agent";
    let classify = |report| {
        let result = result_from_agent_report("/a".to_string(), report);
        (result.status, result.code, result.supported)
    };
    let told = |status: &str, code: &str, usable| (status.to_string(), code.to_string(), usable);
    assert_eq!(
        classify(report(name, 1, true, "ok")),
        told("installed", "ok", true)
    );
    assert_eq!(
        classify(report("impostor", 1, true, "ok")),
        told("corrupt", "ssh_agent_identity_invalid", false)
    );
    assert_eq!(
        classify(report(name, 1, false, "unsupported_target")),
        told("unsupported", "unsupported_target", false)
    );
}

#[test]
fn bounded_probe_reader_drains_without_growing_past_the_limit() {
    let input = vec![b'x'; 128];
    let (output, truncated) = read_bounded(&[input], 32);
    assert_eq!(output.len(), 32);
    assert!(truncated);
}

#[test]
fn a_bounded_output_does_not_depend_on_its_chunks() {
    let whole = read_bounded(&[b"abcdefgh".to_vec()], 5);
    let parts = read_bounded(&[b"abc".to_vec(), Vec::new(), b"d".to_vec(), b"efgh".to_vec()], 5);
    assert_eq!(whole, (b"abcde".to_vec(), true));
    assert_eq!(parts, whole);
    assert_eq!(
        read_bounded(&[b"ab".to_vec(), b"cde".to_vec()], 5),
        (b"abcde".to_vec(), false)
    );
    let mut bounded = BoundedOutput::new(2);
    bounded.absorb(b"xyz");
    bounded.absorb(b"");
    assert_eq!((bounded.output, bounded.truncated), (b"xy".to_vec(), true));
}

#[test]
fn quotes_remote_paths_and_rejects_parent_traversal() {
    assert_eq!(posix_quote("/srv/team's app"), "'/srv/team'\\''s app'");
    assert_eq!(validate_remote_path("/srv/app").unwrap(), "/srv/app");
    assert!(validate_remote_path("srv/app").is_err());
    assert!(validate_remote_path("/srv/../etc").is_err());
}

#[test]
fn remote_paths_name_their_fault() {
    assert_eq!(
        validate_remote_path("/a\nb").unwrap_err(),
        "ssh_remote_path_invalid"
    );
    assert_eq!(
        validate_remote_path("/a\0b").unwrap_err(),
        "ssh_remote_path_invalid"
    );
    assert_eq!(
        validate_remote_path("").unwrap_err(),
        "ssh_remote_path_invalid"
    );
    assert_eq!(
        validate_remote_path("/srv/..").unwrap_err(),
        "ssh_remote_path_parent_forbidden"
    );
    assert_eq!(validate_remote_path(" /srv/..a ").unwrap(), "/srv/..a");
    assert_eq!(
        validate_remote_home_path("~/.."),
        Err(SshRemoteHomePathError::ParentTraversal)
    );
    assert_eq!(
        validate_remote_home_path("~"),
        Err(SshRemoteHomePathError::Invalid)
    );
    assert_eq!(validate_remote_home_path("~/x"), Ok(()));
    assert_eq!(format_remote_home_path("/a b"), "'/a b'");
    assert_eq!(format_remote_home_path("~/it's"), "\"${HOME}\"/'it'\\''s'");
}

#[test]
fn credential_account_is_scoped_to_valid_host_uuid() {
    assert_eq!(
        ssh_password_account("550e8400-e29b-41d4-a716-446655440000").unwrap(),
        "ssh:550e8400-e29b-41d4-a716-446655440000:password"
    );
    assert!(ssh_password_account("../webdav").is_err());
}

#[test]
fn accounts_are_written_one_way() {
    let account = "ssh:550e8400-e29b-41d4-a716-446655440000:password";
    assert_eq!(
        ssh_password_account(" 550E8400E29B41D4A716446655440000\n").unwrap(),
        account
    );
    assert_eq!(
        password_account(Some(0x550e8400_e29b_41d4_a716_446655440000)).unwrap(),
        account
    );
    assert_eq!(password_account(None).unwrap_err(), "ssh_host_id_invalid");
    assert_ne!(
        password_account(Some(1)).unwrap(),
        password_account(Some(1 << 127)).unwrap()
    );
    assert_eq!(
        password_account(Some(0x1f)).unwrap(),
        "ssh:00000000-0000-0000-0000-00000000001f:password"
    );
}

#[test]
fn a_host_is_named_in_four_ways() {
    let account = "ssh:550e8400-e29b-41d4-a716-446655440000:password";
    for spelling in [
        "550e8400-e29b-41d4-a716-446655440000",
        "550E8400-E29B-41d4-A716-446655440000",
        "550e8400e29b41d4a716446655440000",
        "{550e8400-e29b-41d4-a716-446655440000}",
        "urn:uuid:550e8400-e29b-41d4-a716-446655440000",
        "URN:UUID:550e8400-e29b-41d4-a716-446655440000",
    ] {
        assert_eq!(ssh_password_account(spelling).unwrap(), account);
    }
    for nonsense in [
        "",
        "550e8400-e29b-41d4-a716-44665544000",
        "550e8400-e29b-41d4-a716-44665544000g",
        "550e8400e-29b-41d4-a716-446655440000",
        "{550e8400e29b41d4a716446655440000}",
        "(550e8400-e29b-41d4-a716-446655440000)",
        "urn-uuid:550e8400-e29b-41d4-a716-446655440000",
        "550e8400-e29b-41d4-a716-4466554400\u{e4}",
    ] {
        assert_eq!(
            ssh_password_account(nonsense).unwrap_err(),
            "ssh_host_id_invalid"
        );
    }
}

#[test]
fn passwords_are_checked_before_hosts() {
    let id = "550e8400-e29b-41d4-a716-446655440000";
    assert_eq!(
        ssh_save_password("nonsense", "").unwrap_err(),
        "ssh_password_required"
    );
    assert_eq!(
        ssh_save_password("nonsense", "x").unwrap_err(),
        "ssh_host_id_invalid"
    );
    assert_eq!(
        ssh_save_password(id, "x").unwrap(),
        "ssh:550e8400-e29b-41d4-a716-446655440000:password"
    );
    assert_eq!(
        ssh_delete_password(id).unwrap(),
        "ssh:550e8400-e29b-41d4-a716-446655440000:password"
    );
    assert_eq!(ssh_delete_password("").unwrap_err(), "ssh_host_id_invalid");
    assert_eq!(ssh_password_status(Ok(Some("x".to_string()))), Ok(true));
    assert_eq!(ssh_password_status(Ok(Some(String::new()))), Ok(false));
    assert_eq!(ssh_password_status(Ok(None)), Ok(false));
    assert_eq!(
        ssh_password_status(Err("locked".to_string())),
        Err("locked".to_string())
    );
}

#[test]
fn extracts_server_host_key_fingerprint_from_verbose_output() {
    let stderr = "debug1: Connecting\ndebug1: Server host key: ssh-ed25519 SHA256:abc123";
    assert_eq!(
        host_key_fingerprint(stderr).as_deref(),
        Some("ssh-ed25519 SHA256:abc123")
    );
}

#[test]
fn a_blank_host_key_is_passed_over() {
    assert_eq!(host_key_fingerprint(""), None);
    assert_eq!(
        host_key_fingerprint("Server host key:  \r\nServer host key: x Server host key: y\r\n")
            .as_deref(),
        Some("x Server host key: y")
    );
}

#[test]
fn detects_openssh_authenticated_verbose_output() {
    assert!(is_authenticated_log(
        "debug1: Authenticated to example.com ([203.0.113.10]:22) using \"password\"."
    ));
    assert!(!is_authenticated_log(
        "debug1: Authentication succeeded (password)."
    ));
}

#[test]
fn a_single_line_is_the_first_that_is_not_blank() {
    assert_eq!(single_line(b"\n \t\r\n  two words \nmore"), "two words");
    assert_eq!(single_line(b""), "");
    assert_eq!(single_line(b" \n\n"), "");
    assert_eq!(single_line(b"bad \xff byte"), "bad \u{fffd} byte");
    assert_eq!(first_line_of("\u{3000}\u{00a0}x\u{2028}\n"), "x");
}

#[test]
fn a_login_decides_the_next_look() {
    let mut probe = AuthProbe::new();
    let line = |text: &str| AuthProbeEvent::Line(text.to_string());
    assert!(matches!(
        run_ssh_auth_probe(&mut probe, line("debug1: Connecting")),
        AuthProbeStep::Continue
    ));
    assert!(matches!(
        run_ssh_auth_probe(&mut probe, AuthProbeEvent::Look),
        AuthProbeStep::CheckExit
    ));
    assert!(matches!(
        run_ssh_auth_probe(&mut probe, AuthProbeEvent::Exit(None)),
        AuthProbeStep::CheckDeadline
    ));
    assert!(matches!(
        run_ssh_auth_probe(&mut probe, AuthProbeEvent::Deadline(false)),
        AuthProbeStep::Pause
    ));
    run_ssh_auth_probe(&mut probe, line("  Authenticated to host  "));
    assert!(matches!(
        run_ssh_auth_probe(&mut probe, AuthProbeEvent::Look),
        AuthProbeStep::Finish {
            end: AuthProbeEnd::Authenticated,
            kill: true
        }
    ));
    let output = auth_probe_output(AuthProbeEnd::Authenticated, probe.log());
    assert!(output.authenticated && output.status_success && !output.timed_out);
    assert_eq!(output.status_code, Some(0));
    assert_eq!(output.stderr, "debug1: Connecting\nAuthenticated to host");
}

#[test]
fn a_client_that_ends_is_judged_by_its_log() {
    let mut log = AuthProbeLog::new();
    let status = ExitStatus {
        success: false,
        code: Some(255),
    };
    assert!(!log.record("debug1: no luck"));
    let output = auth_probe_output(AuthProbeEnd::Exited(status), &log);
    assert!(!output.authenticated && !output.status_success);
    assert_eq!(output.status_code, Some(255));
    assert!(log.record("Authenticated to x"));
    let output = auth_probe_output(AuthProbeEnd::Exited(status), &log);
    assert!(output.authenticated && !output.status_success);
    let output = auth_probe_output(AuthProbeEnd::TimedOut, &log);
    assert!(output.timed_out && !output.authenticated);
    assert_eq!(output.status_code, None);

    let mut probe = AuthProbe::new();
    run_ssh_auth_probe(&mut probe, AuthProbeEvent::Look);
    assert!(matches!(
        run_ssh_auth_probe(&mut probe, AuthProbeEvent::Exit(Some(status))),
        AuthProbeStep::Finish {
            end: AuthProbeEnd::Exited(_),
            kill: false
        }
    ));
    let mut probe = AuthProbe::new();
    run_ssh_auth_probe(&mut probe, AuthProbeEvent::Look);
    run_ssh_auth_probe(&mut probe, AuthProbeEvent::Exit(None));
    assert!(matches!(
        run_ssh_auth_probe(&mut probe, AuthProbeEvent::Deadline(true)),
        AuthProbeStep::Finish {
            end: AuthProbeEnd::TimedOut,
            kill: true
        }
    ));
    let mut probe = AuthProbe::new();
    run_ssh_auth_probe(&mut probe, AuthProbeEvent::Look);
    match run_ssh_auth_probe(&mut probe, AuthProbeEvent::ExitUnknown("lost".to_string())) {
        AuthProbeStep::Fail(error) => assert_eq!(error, "lost"),
        _ => panic!("expected a failure"),
    }
}

#[test]
fn a_log_keeps_a_limited_number_of_lines() {
    let mut log = AuthProbeLog::new();
    assert!(!log.record("   "));
    for _ in 0..MAX_LOG_LINES {
        log.record("line");
    }
    assert_eq!(log.text().lines().count(), 256);
    assert!(log.record("Authenticated to late"));
    assert_eq!(log.text().lines().count(), 256);
}

#[test]
fn a_probe_process_is_waited_for() {
    let status = ExitStatus {
        success: true,
        code: Some(0),
    };
    assert!(matches!(
        run_agent_probe_process(Some(status), true),
        WaitStep::Ended(ended) if ended == status
    ));
    match run_agent_probe_process(None, true) {
        WaitStep::TimedOut(error) => assert_eq!(error, "ssh_agent_probe_timeout"),
        _ => panic!("expected a timeout"),
    }
    assert!(matches!(run_agent_probe_process(None, false), WaitStep::Wait));
    let output =
        agent_probe_process_output(status, (b"out".to_vec(), true), (b"err".to_vec(), true));
    assert!(output.status_success && output.stdout_truncated);
    assert_eq!(output.stdout, b"out");
    assert_eq!(output.stderr, b"err");
}

#[test]
fn interactive_hosts_are_refused() {
    let mut host = spec();
    assert_eq!(ensure_non_interactive(&host), Ok(()));
    for mode in ["password_prompt", "interactive"] {
        host.auth_mode = mode.to_string();
        assert_eq!(
            ensure_non_interactive(&host).unwrap_err(),
            "ssh_interactive_auth_required"
        );
    }
}

#[test]
fn requests_and_timeouts() {
    let request = ssh_probe_command(true);
    assert_eq!(request.command, "true");
    assert!(request.verbose && request.accept_new_host_key);
    let request = ssh_remote_command("ls");
    assert_eq!(request.command, "ls");
    assert!(!request.verbose && !request.accept_new_host_key);
    assert_eq!(timeout_seconds(12, 5, 305), 17);
    assert_eq!(timeout_seconds(u64::MAX, 5, 305), 305);
}

#[test]
fn a_client_is_known_by_its_version() {
    let output = |success, stdout: &[u8], stderr: &[u8]| {
        Ok(CommandOutput {
            success,
            stdout: stdout.to_vec(),
            stderr: stderr.to_vec(),
        })
    };
    let status = ssh_client_status(output(false, b"out", b"OpenSSH_9.6\n"));
    assert!(status.available);
    assert_eq!(status.version.as_deref(), Some("OpenSSH_9.6"));
    let status = ssh_client_status(output(true, b"out", b" "));
    assert_eq!(status.version.as_deref(), Some("out"));
    let status = ssh_client_status(output(true, b"", b""));
    assert!(status.available && status.version.is_none());
    let status = ssh_client_status(output(false, b"", b""));
    assert!(!status.available);
    let status = ssh_client_status(Err("not found".to_string()));
    assert!(!status.available);
    assert_eq!(status.error.as_deref(), Some("not found"));
}

fn client(available: bool) -> SshClientStatus {
    SshClientStatus {
        available,
        version: available.then_some("OpenSSH_9.6".to_string()),
        error: None,
    }
}

fn login(authenticated: bool, timed_out: bool, code: Option<i32>, stderr: &str) -> SshAuthProbeOutput {
    SshAuthProbeOutput {
        authenticated,
        timed_out,
        status_success: code == Some(0),
        status_code: code,
        stderr: stderr.to_string(),
    }
}

fn finished(action: TestAction) -> SshConnectionTestResult {
    match action {
        TestAction::Finish(result) => result,
        _ => panic!("expected the end"),
    }
}

fn told(result: &SshConnectionTestResult) -> Vec<(&str, &str, &str)> {
    result
        .stages
        .iter()
        .map(|stage| {
            (
                stage.key.as_str(),
                stage.status.as_str(),
                stage.detail.as_str(),
            )
        })
        .collect()
}

/// A test of a host that can be reached in a valid way.
fn valid_test() -> ConnectionTest {
    let mut test = ConnectionTest::new();
    assert!(matches!(
        ssh_test_connection(&mut test, &spec(), false, TestEvent::Validated(Ok(()))),
        TestAction::AskClient
    ));
    test
}

#[test]
fn an_invalid_host_is_not_asked() {
    let mut test = ConnectionTest::new();
    let invalid = TestEvent::Validated(Err("ssh_host_invalid".to_string()));
    match ssh_test_connection(&mut test, &spec(), false, invalid) {
        TestAction::Fail(error) => assert_eq!(error, "ssh_host_invalid"),
        _ => panic!("expected a failure"),
    }
}

#[test]
fn a_login_that_cannot_be_tried_fails_the_test() {
    let mut test = valid_test();
    ssh_test_connection(&mut test, &spec(), false, TestEvent::Client(client(true)));
    let lost = TestEvent::Unavailable("no such program".to_string());
    match ssh_test_connection(&mut test, &spec(), false, lost) {
        TestAction::Fail(error) => assert_eq!(error, "no such program"),
        _ => panic!("expected a failure"),
    }
}

#[test]
fn a_test_stops_where_it_fails() {
    let mut test = valid_test();
    let result = finished(ssh_test_connection(
        &mut test,
        &spec(),
        false,
        TestEvent::Client(client(false)),
    ));
    assert!(!result.success);
    assert_eq!(
        told(&result),
        vec![("client", "failed", "ssh_client_unavailable")]
    );

    let mut host = spec();
    host.auth_mode = "interactive".to_string();
    let mut test = valid_test();
    let result = finished(ssh_test_connection(
        &mut test,
        &host,
        false,
        TestEvent::Client(client(true)),
    ));
    assert!(!result.success);
    assert_eq!(
        told(&result),
        vec![
            ("client", "passed", "OpenSSH_9.6"),
            (
                "authentication",
                "interactive_required",
                "ssh_interactive_auth_required"
            )
        ]
    );
}

#[test]
fn a_test_asks_the_proxy_first() {
    let mut host = spec();
    host.proxy_type = "socks5".to_string();
    host.proxy_host = "proxy".to_string();
    host.proxy_port = 1080;
    host.connect_timeout_sec = 400;
    let mut test = valid_test();
    match ssh_test_connection(&mut test, &host, true, TestEvent::Client(client(true))) {
        TestAction::ProbeProxy { timeout_sec } => assert_eq!(timeout_sec, 300),
        _ => panic!("expected the proxy"),
    }
    match ssh_test_connection(&mut test, &host, true, TestEvent::Proxy(Ok(()))) {
        TestAction::ProbeLogin {
            request,
            timeout_sec,
        } => {
            assert!(request.accept_new_host_key && request.verbose);
            assert_eq!(request.command, "true");
            assert_eq!(timeout_sec, 305);
        }
        _ => panic!("expected the login"),
    }
    let result = finished(ssh_test_connection(
        &mut test,
        &host,
        true,
        TestEvent::Login(login(true, false, None, "")),
    ));
    assert!(result.success);
    assert_eq!(
        told(&result),
        vec![
            ("client", "passed", "OpenSSH_9.6"),
            ("proxy", "passed", "socks5://proxy:1080 → example.com:2222"),
            ("connection", "passed", "ssh_connection_ready")
        ]
    );

    let mut test = valid_test();
    ssh_test_connection(&mut test, &host, true, TestEvent::Client(client(true)));
    let result = finished(ssh_test_connection(
        &mut test,
        &host,
        true,
        TestEvent::Proxy(Err("refused".to_string())),
    ));
    assert!(!result.success);
    assert_eq!(
        told(&result)[1],
        (
            "proxy",
            "failed",
            "socks5://proxy:1080 → example.com:2222\nrefused"
        )
    );
}

#[test]
fn a_login_is_diagnosed() {
    let diagnose = |output: SshAuthProbeOutput| {
        let stage = login_diagnosis(&output);
        (stage.key, stage.status, stage.detail)
    };
    let stage = |key: &str, status: &str, detail: &str| {
        (key.to_string(), status.to_string(), detail.to_string())
    };
    let changed = "@ REMOTE HOST IDENTIFICATION HAS CHANGED! @\nHost key verification failed.";
    assert_eq!(
        diagnose(login(false, false, Some(255), changed)),
        stage(
            "host_key",
            "failed",
            &format!("ssh_host_key_changed\n{changed}")
        )
    );
    let unknown = "Server host key: ssh-ed25519 SHA256:x\nHost key verification failed.";
    assert_eq!(
        diagnose(login(false, false, Some(255), unknown)),
        stage(
            "host_key",
            "confirmation_required",
            &format!("ssh_host_key_confirmation_required\nssh-ed25519 SHA256:x\n{unknown}")
        )
    );
    assert_eq!(
        diagnose(login(false, true, None, "slow")),
        stage("authentication", "failed", "ssh_authentication_timeout\nslow")
    );
    assert_eq!(
        diagnose(login(false, false, Some(-7), "")),
        stage("connection", "failed", "ssh_exit_status_-7")
    );
    assert_eq!(
        diagnose(login(false, false, None, "")),
        stage("connection", "failed", "ssh_exit_status_-1")
    );
    assert_eq!(
        diagnose(login(false, false, Some(i32::MIN), "")),
        stage("connection", "failed", "ssh_exit_status_-2147483648")
    );
    assert_eq!(
        diagnose(login(false, false, Some(255), "Permission denied")),
        stage("connection", "failed", "Permission denied")
    );
    assert_eq!(
        diagnose(login(false, false, Some(0), changed)),
        stage("connection", "passed", "ssh_connection_ready")
    );
}

#[test]
fn a_probe_of_an_agent_is_planned() {
    let id = "550e8400-e29b-41d4-a716-446655440000";
    match ssh_agent_probe(id, Ok(()), &spec(), None).unwrap() {
        AgentProbePlan::Run(plan) => {
            assert_eq!(plan.timeout_sec, 27);
            assert_eq!(plan.script, build_agent_probe_script(None).unwrap());
        }
        _ => panic!("expected a script"),
    }
    assert_eq!(
        ssh_agent_probe("nobody", Ok(()), &spec(), None).unwrap_err(),
        "ssh_host_id_invalid"
    );
    assert_eq!(
        agent_probe_plan(true, Err("bad host".to_string()), &spec(), None).unwrap_err(),
        "bad host"
    );
    assert_eq!(
        agent_probe_plan(true, Ok(()), &spec(), Some("x")).unwrap_err(),
        "ssh_agent_path_invalid"
    );
    let mut host = spec();
    host.auth_mode = "password_prompt".to_string();
    match agent_probe_plan(true, Ok(()), &host, None).unwrap() {
        AgentProbePlan::Answer(answer) => {
            assert_eq!(answer.status, "authenticationRequired");
            assert_eq!(answer.code, "ssh_agent_authentication_required");
            assert_eq!(answer.detail, "");
        }
        _ => panic!("expected an answer"),
    }
}

fn process(success: bool, code: Option<i32>, stdout: &[u8]) -> AgentProbeProcessOutput {
    AgentProbeProcessOutput {
        status_success: success,
        status_code: code,
        stdout: stdout.to_vec(),
        stderr: b"\nwhy not\n".to_vec(),
        stdout_truncated: false,
    }
}

#[test]
fn a_probe_of_an_agent_is_judged() {
    let judge = |output| match agent_probe_step(&output) {
        AgentProbeStep::Answer(answer) => (answer.status, answer.code, answer.detail),
        AgentProbeStep::Decode {
            install_path,
            report_json,
        } => ("decode".to_string(), install_path, report_json),
    };
    let told = |status: &str, code: &str, detail: &str| {
        (status.to_string(), code.to_string(), detail.to_string())
    };
    assert_eq!(
        judge(Err("gone".to_string())),
        told("unreachable", "ssh_agent_probe_failed", "gone")
    );
    let mut long = process(true, Some(0), b"");
    long.stdout_truncated = true;
    assert_eq!(
        judge(Ok(long)),
        told("corrupt", "ssh_agent_probe_output_too_large", "why not")
    );
    assert_eq!(
        judge(Ok(process(
            false,
            Some(127),
            b"CLI_MANAGER_SSH_AGENT_PROBE/1 notInstalled\n"
        ))),
        told("notInstalled", "ssh_agent_not_installed", "why not")
    );
    assert_eq!(
        judge(Ok(process(
            true,
            Some(0),
            b"CLI_MANAGER_SSH_AGENT_PROBE/1 found\n/opt/agent\r\n {} \n"
        ))),
        told("decode", "/opt/agent", "{}")
    );
    assert_eq!(
        judge(Ok(process(true, Some(0), b"?"))),
        told("corrupt", "ssh_agent_probe_magic_missing", "why not")
    );
    assert_eq!(
        judge(Ok(process(false, Some(1), b"?"))),
        told("unreachable", "ssh_agent_probe_magic_missing", "why not")
    );
    assert_eq!(
        judge(Ok(process(false, Some(255), b"?"))),
        told("unreachable", "ssh_agent_unreachable", "why not")
    );
    let output = process(true, Some(0), b"");
    let result = agent_probe_decoded(&output, "/a".to_string(), None);
    assert_eq!(result.status, "corrupt");
    assert_eq!(result.code, "ssh_agent_probe_stdout_contaminated");
    let result = agent_probe_decoded(
        &output,
        "/a".to_string(),
        Some(report("cli-manager-ssh-agent", 1, true, "ok")),
    );
    assert!(result.supported);
    assert_eq!(result.install_path, "/a");
    let blank = agent_probe_result("s", "c", "d".to_string());
    assert_eq!((blank.status.as_str(), blank.code.as_str()), ("s", "c"));
    assert!(blank.install_path.is_empty() && !blank.supported);
}

#[test]
fn a_path_is_looked_at() {
    let plan = ssh_check_path(Ok(()), &spec(), " /srv/it's ").unwrap();
    let word = "'/srv/it'\\''s'";
    assert_eq!(
        plan.script,
        format!(
            "if [ ! -d {word} ]; then printf 'missing'; elif [ ! -x {word} ]; then printf 'inaccessible'; elif git -C {word} rev-parse --is-inside-work-tree >/dev/null 2>&1; then printf 'git'; else printf 'ok'; fi"
        )
    );
    assert_eq!(plan.timeout_sec, 17);
    assert_eq!(
        ssh_check_path(Err("bad".to_string()), &spec(), "/x").unwrap_err(),
        "bad"
    );
    let mut host = spec();
    host.auth_mode = "interactive".to_string();
    assert_eq!(
        ssh_check_path(Ok(()), &host, "x").unwrap_err(),
        "ssh_interactive_auth_required"
    );
    assert_eq!(
        ssh_check_path(Ok(()), &spec(), "x").unwrap_err(),
        "ssh_remote_path_invalid"
    );

    let answer = |exists, accessible, git_repository| SshPathCheckResult {
        exists,
        accessible,
        git_repository,
    };
    assert_eq!(path_check_answer("git"), answer(true, true, true));
    assert_eq!(path_check_answer("ok"), answer(true, true, false));
    assert_eq!(path_check_answer("inaccessible"), answer(true, false, false));
    assert_eq!(path_check_answer("missing"), answer(false, false, false));
    let output = |success, stdout: &[u8]| CommandOutput {
        success,
        stdout: stdout.to_vec(),
        stderr: b"no route\n".to_vec(),
    };
    assert_eq!(
        path_check_result(&output(true, b" git\n")),
        Ok(answer(true, true, true))
    );
    assert_eq!(
        path_check_result(&output(false, b"git")),
        Err("no route".to_string())
    );
}

fn listed(entries: Vec<SshDirectoryEntry>) -> Vec<(String, String)> {
    entries
        .into_iter()
        .map(|entry| (entry.name, entry.path))
        .collect()
}

fn pair(name: &str, path: &str) -> (String, String) {
    (name.to_string(), path.to_string())
}

#[test]
fn directories_are_listed_by_name() {
    let plan = ssh_list_directories(Ok(()), &spec(), "/srv").unwrap();
    assert_eq!(
        plan.script,
        "find -- '/srv' -mindepth 1 -maxdepth 1 -type d -print0"
    );
    assert_eq!(plan.timeout_sec, 22);
    assert_eq!(
        ssh_list_directories(Ok(()), &spec(), "/a/../b").unwrap_err(),
        "ssh_remote_path_parent_forbidden"
    );
    let output = CommandOutput {
        success: true,
        stdout: b"/srv/beta/\0/srv/Alpha\0\0/srv/bad\xff\0/srv/ALPHA\0/srv/\xc3\x84rger\0".to_vec(),
        stderr: Vec::new(),
    };
    assert_eq!(
        listed(directory_list(&output).unwrap()),
        vec![
            pair("Alpha", "/srv/Alpha"),
            pair("ALPHA", "/srv/ALPHA"),
            pair("beta", "/srv/beta"),
            pair("Ärger", "/srv/Ärger"),
        ]
    );
    let output = CommandOutput {
        success: false,
        stdout: b"/srv/beta\0".to_vec(),
        stderr: b"find: denied\n".to_vec(),
    };
    assert_eq!(directory_list(&output).unwrap_err(), "find: denied");
    let output = CommandOutput {
        success: true,
        stdout: Vec::new(),
        stderr: Vec::new(),
    };
    assert!(directory_list(&output).unwrap().is_empty());
}

#[test]
fn a_listing_without_a_last_zero_byte_is_read() {
    let output = CommandOutput {
        success: true,
        stdout: b"plain\0/\0/a/b".to_vec(),
        stderr: Vec::new(),
    };
    assert_eq!(
        listed(directory_list(&output).unwrap()),
        vec![pair("", ""), pair("b", "/a/b"), pair("plain", "plain")]
    );
}

#[test]
fn sorting_is_stable_and_complete() {
    let entry = |name: &str, path: &str| SshDirectoryEntry {
        name: name.to_string(),
        path: path.to_string(),
    };
    let keyed = vec![
        ("b".to_string(), entry("one", "1")),
        ("a".to_string(), entry("two", "2")),
        ("b".to_string(), entry("three", "3")),
        ("".to_string(), entry("four", "4")),
        ("ab".to_string(), entry("five", "5")),
    ];
    let names: Vec<String> = sort_keyed(keyed)
        .into_iter()
        .map(|(_, entry)| entry.name)
        .collect();
    assert_eq!(names, vec!["four", "two", "five", "one", "three"]);
    let sorted = sort_entries(vec![entry("b", "1"), entry("A", "2"), entry("a", "3")]);
    assert_eq!(
        listed(sorted),
        vec![pair("A", "2"), pair("a", "3"), pair("b", "1")]
    );
}
