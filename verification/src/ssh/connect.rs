//! How a host is reached, and what is asked of it.

use crate::text::same_text;
use vstd::prelude::*;

verus! {

/// How a host is reached.
#[derive(Debug)]
pub struct SshTransportSpec {
    pub host: String,
    pub port: u16,
    pub username: String,
    pub config_alias: String,
    pub auth_mode: String,
    pub identity_file: String,
    pub credential_ref: String,
    pub jump_target: String,
    pub proxy_type: String,
    pub proxy_host: String,
    pub proxy_port: u16,
    pub proxy_command: String,
    pub connect_timeout_sec: u64,
    pub server_alive_interval_sec: u64,
    pub server_alive_count_max: u64,
}

/// How a host is reached.
pub type SshConnectionSpec = SshTransportSpec;

/// A command for a remote host, and how its client is started.
#[derive(Debug)]
pub struct RemoteRequest {
    pub command: String,
    pub verbose: bool,
    pub accept_new_host_key: bool,
}

/// A script for a remote host, and how many seconds it may take.
#[derive(Debug)]
pub struct RemotePlan {
    pub script: String,
    pub timeout_sec: u64,
}

/// How a process ended.
#[derive(Debug, Clone, Copy, PartialEq, Eq, Structural)]
pub struct ExitStatus {
    pub success: bool,
    pub code: Option<i32>,
}

/// What a remote command printed, and whether it succeeded.
#[derive(Debug)]
pub struct CommandOutput {
    pub success: bool,
    pub stdout: Vec<u8>,
    pub stderr: Vec<u8>,
}

impl SshTransportSpec {
    /// Whether someone has to answer a prompt to log in.
    pub open spec fn is_interactive(self) -> bool {
        self.auth_mode@ == "password_prompt"@ || self.auth_mode@ == "interactive"@
    }

    /// Whether the connection goes through a proxy that can be probed.
    pub open spec fn has_proxy(self) -> bool {
        self.proxy_type@ == "http"@ || self.proxy_type@ == "socks5"@
    }
}

/// The time for connecting, and `extra` seconds more, but at most `most`.
pub open spec fn limited_timeout(connect_timeout_sec: u64, extra: int, most: int) -> int {
    if connect_timeout_sec + extra < most {
        connect_timeout_sec + extra
    } else {
        most
    }
}

/// The time for connecting, and `extra` seconds more, but at most `most`.
pub fn timeout_seconds(connect_timeout_sec: u64, extra: u64, most: u64) -> (seconds: u64)
    ensures
        seconds == limited_timeout(connect_timeout_sec, extra as int, most as int),
{
    let total = connect_timeout_sec.saturating_add(extra);
    if total < most {
        total
    } else {
        most
    }
}

/// Whether someone has to answer a prompt to log in.
pub fn needs_interaction(spec: &SshConnectionSpec) -> (r: bool)
    ensures
        r == spec.is_interactive(),
{
    same_text(spec.auth_mode.as_str(), "password_prompt") || same_text(
        spec.auth_mode.as_str(),
        "interactive",
    )
}

/// Refuses a host that asks someone to answer a prompt.
pub fn ensure_non_interactive(spec: &SshConnectionSpec) -> (result: Result<(), String>)
    ensures
        if spec.is_interactive() {
            result matches Err(e) && e@ == "ssh_interactive_auth_required"@
        } else {
            result is Ok
        },
{
    if needs_interaction(spec) {
        return Err("ssh_interactive_auth_required".to_owned());
    }
    Ok(())
}

/// A command that the host is to run.
pub fn ssh_remote_command(remote_command: &str) -> (request: RemoteRequest)
    ensures
        request.command@ == remote_command@,
        !request.verbose,
        !request.accept_new_host_key,
{
    RemoteRequest {
        command: remote_command.to_owned(),
        verbose: false,
        accept_new_host_key: false,
    }
}

/// A command that does nothing, with a client that tells how it logs in.
pub fn ssh_probe_command(accept_new_host_key: bool) -> (request: RemoteRequest)
    ensures
        request.command@ == "true"@,
        request.verbose,
        request.accept_new_host_key == accept_new_host_key,
{
    RemoteRequest { command: "true".to_owned(), verbose: true, accept_new_host_key }
}

/// A time limit is the time for connecting and the extra seconds, up to the limit for it.
pub proof fn law_time_limit_is_capped(
    connect_timeout_sec: u64,
    extra: u64,
    most: u64,
    seconds: u64,
)
    requires
        call_ensures(timeout_seconds, (connect_timeout_sec, extra, most), seconds),
    ensures
        connect_timeout_sec + extra <= most ==> seconds == connect_timeout_sec + extra,
        connect_timeout_sec + extra > most ==> seconds == most,
{
}

/// A host is refused for a prompt exactly where its password is asked for or its login is
/// interactive.
pub proof fn law_prompts_are_refused(
    spec: SshConnectionSpec,
    asks: bool,
    result: Result<(), String>,
)
    requires
        call_ensures(needs_interaction, (&spec,), asks),
        call_ensures(ensure_non_interactive, (&spec,), result),
    ensures
        asks <==> spec.auth_mode@ == "password_prompt"@ || spec.auth_mode@ == "interactive"@,
        result is Err <==> asks,
        result matches Err(e) ==> e@ == "ssh_interactive_auth_required"@,
{
}

/// A remote command is run as it is, quietly, and accepts no new host key; the command that
/// tries a login does nothing, tells how it goes, and accepts a new host key only where
/// that is wanted.
pub proof fn law_commands_are_run_as_given(
    command: &str,
    request: RemoteRequest,
    accept_new_host_key: bool,
    probe: RemoteRequest,
)
    requires
        call_ensures(ssh_remote_command, (command,), request),
        call_ensures(ssh_probe_command, (accept_new_host_key,), probe),
    ensures
        request.command@ == command@,
        !request.verbose,
        !request.accept_new_host_key,
        probe.command@ == "true"@,
        probe.verbose,
        probe.accept_new_host_key == accept_new_host_key,
{
}

} // verus!
