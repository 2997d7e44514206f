//! Looking for the agent on a remote host.

use super::auth::{first_nonblank_line, single_line};
use super::connect::{
    limited_timeout, needs_interaction, timeout_seconds, RemotePlan, SshConnectionSpec,
};
use super::output::AgentProbeProcessOutput;
use super::password::host_uuid;
use super::path::{
    format_remote_home_path, home_path_error, home_word, validate_remote_home_path,
    SshRemoteHomePathError,
};
use crate::encoding::{utf8_lossy, utf8_text};
use crate::ids::is_uuid;
use crate::text::{
    append_decimal, chars_of, decimal, find, find_chars, lemma_position_bounds, position,
    position_of, same_text, slice, string_of, trim, trim_chars, trim_end_char, trim_end_chars,
    trim_text,
};
use vstd::prelude::*;
use vstd::string::StringExecFns;
use vstd::utf8::*;

verus! {

/// What the probe script prints before its answer.
pub const AGENT_PROBE_MAGIC: &'static str = "CLI_MANAGER_SSH_AGENT_PROBE/1";

/// The protocol version that an agent has to speak.
pub const AGENT_PROTOCOL_MAJOR: u16 = 1;

/// How much a host may print before the answer.
pub const MAX_AGENT_PROBE_BANNER_BYTES: usize = 8 * 1024;

/// How much a host may print in all.
pub const MAX_AGENT_PROBE_REPORT_BYTES: usize = 64 * 1024;

/// How much of what a host prints as errors is kept.
pub const MAX_AGENT_PROBE_STDERR_BYTES: usize = 8 * 1024;

/// How the probe script starts.
pub const AGENT_PROBE_HEAD: &'static str = "set -eu\nagent=''\n";

/// How the probe script looks in the usual places.
pub const AGENT_PROBE_SEARCH: &'static str = "if [ -z \"$agent\" ] && command -v cli-manager-ssh-agent >/dev/null 2>&1; then agent=$(command -v cli-manager-ssh-agent); fi\n\
    if [ -z \"$agent\" ] && [ -x \"${HOME}/.local/bin/cli-manager-ssh-agent\" ]; then agent=\"${HOME}/.local/bin/cli-manager-ssh-agent\"; fi\n\
    data_agent=\"${XDG_DATA_HOME:-${HOME}/.local/share}/cli-manager-ssh-agent/current/cli-manager-ssh-agent\"\n\
    if [ -z \"$agent\" ] && [ -x \"$data_agent\" ]; then agent=\"$data_agent\"; fi\n\
    if [ -z \"$agent\" ]; then printf '";

/// What the agent reports of its version.
#[derive(Debug)]
pub struct AgentVersionProbe {
    pub agent_name: String,
    pub agent_version: String,
    pub protocol_major: u16,
    pub protocol_minor: u16,
    pub target_os: String,
    pub target_arch: String,
}

/// What the agent reports of itself.
#[derive(Debug)]
pub struct AgentDoctorProbe {
    pub version: AgentVersionProbe,
    pub supported: bool,
    pub code: String,
}

/// What the probe found.
#[derive(Debug)]
pub enum ParsedAgentProbe {
    NotInstalled,
    Report { install_path: String, report: AgentDoctorProbe },
}

/// What the probe printed: no agent, or where one is and what it reports, as JSON.
#[derive(Debug)]
pub enum AgentProbeStdout {
    NotInstalled,
    Found { install_path: String, report_json: String },
}

/// What a probe tells of the agent on a host.
#[derive(Debug)]
pub struct SshAgentProbeResult {
    pub status: String,
    pub code: String,
    pub install_path: String,
    pub agent_version: String,
    pub protocol_version: String,
    pub target: String,
    pub supported: bool,
    pub detail: String,
}

/// The probe script; `explicit` is the place to look in first, as a word of the shell.
pub open spec fn probe_script(explicit: Option<Seq<char>>) -> Seq<char> {
    AGENT_PROBE_HEAD@ + (match explicit {
        Some(word) => "if [ -x "@ + word + " ]; then agent="@ + word + "; fi\n"@,
        None => Seq::empty(),
    }) + AGENT_PROBE_SEARCH@ + AGENT_PROBE_MAGIC@ + " notInstalled\\n'; exit 127; fi\nprintf '"@
        + AGENT_PROBE_MAGIC@ + " found\\n%s\\n' \"$agent\"\nexec \"$agent\" doctor"@
}

/// The place to look in first, if one is given.
pub open spec fn explicit_path(agent_path: Option<&str>) -> Option<Seq<char>> {
    match agent_path {
        Some(path) => if trim(path@).len() > 0 {
            Some(trim(path@))
        } else {
            None
        },
        None => None,
    }
}

/// The probe script for the place to look in first, or why that place is refused.
pub open spec fn probe_script_for(agent_path: Option<&str>) -> Result<Seq<char>, Seq<char>> {
    match explicit_path(agent_path) {
        None => Ok(probe_script(None)),
        Some(path) => match home_path_error(path) {
            Some(SshRemoteHomePathError::Invalid) => Err("ssh_agent_path_invalid"@),
            Some(SshRemoteHomePathError::ParentTraversal) => Err(
                "ssh_agent_path_parent_forbidden"@,
            ),
            None => Ok(probe_script(Some(home_word(path)))),
        },
    }
}

/// The probe script. A place to look in first is refused where it does not fit into the
/// script.
pub fn build_agent_probe_script(agent_path: Option<&str>) -> (result: Result<String, String>)
    ensures
        match probe_script_for(agent_path) {
            Ok(script) => result matches Ok(s) && s@ == script,
            Err(error) => result matches Err(e) && e@ == error,
        },
{
    let mut script = String::new();
    script.append(AGENT_PROBE_HEAD);
    if let Some(path) = agent_path {
        let path = trim_text(path);
        if !path.is_empty() {
            match validate_remote_home_path(path) {
                Err(SshRemoteHomePathError::Invalid) => {
                    return Err("ssh_agent_path_invalid".to_owned());
                },
                Err(SshRemoteHomePathError::ParentTraversal) => {
                    return Err("ssh_agent_path_parent_forbidden".to_owned());
                },
                Ok(()) => {
                    let word = format_remote_home_path(path);
                    script.append("if [ -x ");
                    script.append(word.as_str());
                    script.append(" ]; then agent=");
                    script.append(word.as_str());
                    script.append("; fi\n");
                },
            }
        }
    }
    script.append(AGENT_PROBE_SEARCH);
    script.append(AGENT_PROBE_MAGIC);
    script.append(" notInstalled\\n'; exit 127; fi\nprintf '");
    script.append(AGENT_PROBE_MAGIC);
    script.append(" found\\n%s\\n' \"$agent\"\nexec \"$agent\" doctor");
    assert(script@ =~= probe_script_for(agent_path)->Ok_0);
    Ok(script)
}

/// What a probe prints, read.
pub enum ProbeAnswer {
    NotInstalled,
    Found { install_path: Seq<char>, report_json: Seq<char> },
}

/// What follows the line that the script prints before its answer: `line` is that line,
/// `payload` what follows it.
pub open spec fn marked_answer(line: Seq<char>, payload: Seq<char>) -> Result<
    ProbeAnswer,
    Seq<char>,
> {
    if line == AGENT_PROBE_MAGIC@ + " notInstalled"@ {
        if trim(payload).len() == 0 {
            Ok(ProbeAnswer::NotInstalled)
        } else {
            Err("ssh_agent_probe_stdout_contaminated"@)
        }
    } else if line == AGENT_PROBE_MAGIC@ + " found"@ {
        match position(payload, '\n') {
            None => Err("ssh_agent_probe_output_invalid"@),
            Some(end) => {
                let install_path = trim_end_char(payload.take(end), '\r');
                if home_path_error(install_path) is Some {
                    Err("ssh_agent_probe_path_invalid"@)
                } else {
                    Ok(
                        ProbeAnswer::Found {
                            install_path,
                            report_json: trim(payload.skip(end + 1)),
                        },
                    )
                }
            },
        }
    } else {
        Err("ssh_agent_probe_magic_invalid"@)
    }
}

/// What the text that a probe printed says.
pub open spec fn text_answer(text: Seq<char>) -> Result<ProbeAnswer, Seq<char>> {
    match find(text, AGENT_PROBE_MAGIC@) {
        None => Err("ssh_agent_probe_magic_missing"@),
        Some(start) => if encode_utf8(text.take(start)).len() > MAX_AGENT_PROBE_BANNER_BYTES {
            Err("ssh_agent_probe_banner_too_large"@)
        } else {
            let marked = text.skip(start);
            match position(marked, '\n') {
                None => Err("ssh_agent_probe_output_invalid"@),
                Some(end) => marked_answer(
                    trim_end_char(marked.take(end), '\r'),
                    marked.skip(end + 1),
                ),
            }
        },
    }
}

/// What the bytes that a probe printed say.
pub open spec fn probe_answer(stdout: Seq<u8>) -> Result<ProbeAnswer, Seq<char>> {
    if stdout.len() > MAX_AGENT_PROBE_REPORT_BYTES {
        Err("ssh_agent_probe_output_too_large"@)
    } else if !valid_utf8(stdout) {
        Err("ssh_agent_probe_output_invalid"@)
    } else {
        text_answer(decode_utf8(stdout))
    }
}

/// Whether `result` is `answer`.
pub open spec fn reads_as(
    result: Result<AgentProbeStdout, String>,
    answer: Result<ProbeAnswer, Seq<char>>,
) -> bool {
    match answer {
        Ok(ProbeAnswer::NotInstalled) => result matches Ok(AgentProbeStdout::NotInstalled),
        Ok(ProbeAnswer::Found { install_path, report_json }) => result matches Ok(
            AgentProbeStdout::Found { install_path: p, report_json: r },
        ) && p@ == install_path && r@ == report_json,
        Err(error) => result matches Err(e) && e@ == error,
    }
}

fn parse_marked(line: &[char], payload: &[char]) -> (result: Result<AgentProbeStdout, String>)
    ensures
        reads_as(result, marked_answer(line@, payload@)),
{
    let mut absent = AGENT_PROBE_MAGIC.to_owned();
    absent.append(" notInstalled");
    let mut present = AGENT_PROBE_MAGIC.to_owned();
    present.append(" found");
    let line = string_of(line);
    if same_text(line.as_str(), absent.as_str()) {
        if trim_chars(payload).len() == 0 {
            return Ok(AgentProbeStdout::NotInstalled);
        }
        return Err("ssh_agent_probe_stdout_contaminated".to_owned());
    }
    if same_text(line.as_str(), present.as_str()) {
        proof {
            lemma_position_bounds(payload@, '\n');
        }
        match position_of(payload, '\n') {
            None => {
                return Err("ssh_agent_probe_output_invalid".to_owned());
            },
            Some(end) => {
                let front = slice(payload, 0, end);
                assert(front@ =~= payload@.take(end as int));
                let install_path = string_of(trim_end_chars(front, '\r'));
                if validate_remote_home_path(install_path.as_str()).is_err() {
                    return Err("ssh_agent_probe_path_invalid".to_owned());
                }
                let length = payload.len();
                let tail = slice(payload, end + 1, length);
                assert(tail@ =~= payload@.skip(end + 1));
                let report_json = string_of(trim_chars(tail));
                return Ok(AgentProbeStdout::Found { install_path, report_json });
            },
        }
    }
    Err("ssh_agent_probe_magic_invalid".to_owned())
}

/// What a probe printed: past a login banner of limited length, that there is no agent,
/// or where it is and what it reports.
pub fn parse_agent_probe_stdout(stdout: &[u8]) -> (result: Result<AgentProbeStdout, String>)
    ensures
        reads_as(result, probe_answer(stdout@)),
{
    if stdout.len() > MAX_AGENT_PROBE_REPORT_BYTES {
        return Err("ssh_agent_probe_output_too_large".to_owned());
    }
    let text = match utf8_text(vstd::slice::slice_to_vec(stdout)) {
        Some(text) => text,
        None => {
            return Err("ssh_agent_probe_output_invalid".to_owned());
        },
    };
    let chars = chars_of(text.as_str());
    let magic = chars_of(AGENT_PROBE_MAGIC);
    let start = match find_chars(chars.as_slice(), magic.as_slice()) {
        Some(start) => start,
        None => {
            return Err("ssh_agent_probe_magic_missing".to_owned());
        },
    };
    let banner = slice(chars.as_slice(), 0, start);
    assert(banner@ =~= chars@.take(start as int));
    let banner = string_of(banner);
    if banner.as_str().as_bytes().len() > MAX_AGENT_PROBE_BANNER_BYTES {
        return Err("ssh_agent_probe_banner_too_large".to_owned());
    }
    let marked = slice(chars.as_slice(), start, chars.len());
    assert(marked@ =~= chars@.skip(start as int));
    match position_of(marked, '\n') {
        None => Err("ssh_agent_probe_output_invalid".to_owned()),
        Some(end) => {
            let line = slice(marked, 0, end);
            assert(line@ =~= marked@.take(end as int));
            let length = marked.len();
            let payload = slice(marked, end + 1, length);
            assert(payload@ =~= marked@.skip(end + 1));
            parse_marked(trim_end_chars(line, '\r'), payload)
        },
    }
}

/// What the probe found, by what could be decoded from the report.
pub fn agent_probe_report(install_path: String, report: Option<AgentDoctorProbe>) -> (result:
    Result<ParsedAgentProbe, String>)
    ensures
        match report {
            Some(report) => result == Ok::<ParsedAgentProbe, String>(
                ParsedAgentProbe::Report { install_path, report },
            ),
            None => result matches Err(e) && e@ == "ssh_agent_probe_stdout_contaminated"@,
        },
{
    match report {
        Some(report) => Ok(ParsedAgentProbe::Report { install_path, report }),
        None => Err("ssh_agent_probe_stdout_contaminated".to_owned()),
    }
}

impl SshAgentProbeResult {
    /// Whether this result tells only `status`, `code` and `detail`.
    pub open spec fn tells_only(
        self,
        status: Seq<char>,
        code: Seq<char>,
        detail: Seq<char>,
    ) -> bool {
        &&& self.status@ == status
        &&& self.code@ == code
        &&& self.detail@ == detail
        &&& self.install_path@.len() == 0
        &&& self.agent_version@.len() == 0
        &&& self.protocol_version@.len() == 0
        &&& self.target@.len() == 0
        &&& !self.supported
    }
}

/// A result without an agent.
pub fn agent_probe_result(status: &str, code: &str, detail: String) -> (result: SshAgentProbeResult)
    ensures
        result.tells_only(status@, code@, detail@),
{
    SshAgentProbeResult {
        status: status.to_owned(),
        code: code.to_owned(),
        install_path: String::new(),
        agent_version: String::new(),
        protocol_version: String::new(),
        target: String::new(),
        supported: false,
        detail,
    }
}

/// How usable the agent is: a status, a code, and whether it is usable.
pub open spec fn classified(report: AgentDoctorProbe) -> (Seq<char>, Seq<char>, bool) {
    if report.version.agent_name@ != "cli-manager-ssh-agent"@ {
        ("corrupt"@, "ssh_agent_identity_invalid"@, false)
    } else if report.version.protocol_major != AGENT_PROTOCOL_MAJOR {
        ("incompatible"@, "ssh_agent_protocol_incompatible"@, false)
    } else if !report.supported {
        ("unsupported"@, report.code@, false)
    } else if report.code@ != "ok"@ {
        ("corrupt"@, report.code@, false)
    } else {
        ("installed"@, report.code@, true)
    }
}

/// Whether `result` tells what `report`, of the agent at `install_path`, says.
pub open spec fn tells_report(
    result: SshAgentProbeResult,
    install_path: Seq<char>,
    report: AgentDoctorProbe,
) -> bool {
    let version = report.version;
    &&& (result.status@, result.code@, result.supported) == classified(report)
    &&& result.install_path@ == install_path
    &&& result.agent_version@ == version.agent_version@
    &&& result.protocol_version@ == decimal(version.protocol_major as nat) + "."@ + decimal(
        version.protocol_minor as nat,
    )
    &&& result.target@ == version.target_os@ + "/"@ + version.target_arch@
    &&& result.detail@.len() == 0
}

/// What a report says of the agent at `install_path`.
pub fn result_from_agent_report(install_path: String, report: AgentDoctorProbe) -> (result:
    SshAgentProbeResult)
    ensures
        tells_report(result, install_path@, report),
{
    let version = report.version;
    let mut protocol_version = String::new();
    append_decimal(&mut protocol_version, version.protocol_major as u128);
    protocol_version.append(".");
    append_decimal(&mut protocol_version, version.protocol_minor as u128);
    assert(protocol_version@ =~= decimal(version.protocol_major as nat) + "."@ + decimal(
        version.protocol_minor as nat,
    ));
    let mut target = version.target_os;
    target.append("/");
    target.append(version.target_arch.as_str());
    let (status, code, supported) = if !same_text(
        version.agent_name.as_str(),
        "cli-manager-ssh-agent",
    ) {
        ("corrupt", "ssh_agent_identity_invalid", false)
    } else if version.protocol_major != AGENT_PROTOCOL_MAJOR {
        ("incompatible", "ssh_agent_protocol_incompatible", false)
    } else if !report.supported {
        ("unsupported", report.code.as_str(), false)
    } else if !same_text(report.code.as_str(), "ok") {
        ("corrupt", report.code.as_str(), false)
    } else {
        ("installed", report.code.as_str(), true)
    };
    SshAgentProbeResult {
        status: status.to_owned(),
        code: code.to_owned(),
        install_path,
        agent_version: version.agent_version,
        protocol_version,
        target,
        supported,
        detail: String::new(),
    }
}

/// How a probe starts.
#[derive(Debug)]
pub enum AgentProbePlan {
    /// Without asking the host.
    Answer(SshAgentProbeResult),
    /// With this script.
    Run(RemotePlan),
}

/// Whether `result` is how a probe starts: `host_known` tells whether the host has a
/// valid identifier, `validated` whether the way to reach it is valid.
pub open spec fn starts_probe(
    host_known: bool,
    validated: Result<(), String>,
    spec: SshConnectionSpec,
    agent_path: Option<&str>,
    result: Result<AgentProbePlan, String>,
) -> bool {
    if !host_known {
        result matches Err(e) && e@ == "ssh_host_id_invalid"@
    } else if validated is Err {
        result matches Err(e) && e@ == validated->Err_0@
    } else if spec.is_interactive() {
        result matches Ok(AgentProbePlan::Answer(answer)) && answer.tells_only(
            "authenticationRequired"@,
            "ssh_agent_authentication_required"@,
            Seq::empty(),
        )
    } else {
        match probe_script_for(agent_path) {
            Err(error) => result matches Err(e) && e@ == error,
            Ok(script) => result matches Ok(AgentProbePlan::Run(plan)) && plan.script@ == script
                && plan.timeout_sec == limited_timeout(spec.connect_timeout_sec, 15, 315),
        }
    }
}

/// How a probe starts. `host_known` tells whether the host has a valid identifier,
/// `validated` whether the way to reach it is valid.
pub fn agent_probe_plan(
    host_known: bool,
    validated: Result<(), String>,
    spec: &SshConnectionSpec,
    agent_path: Option<&str>,
) -> (result: Result<AgentProbePlan, String>)
    ensures
        starts_probe(host_known, validated, *spec, agent_path, result),
{
    if !host_known {
        return Err("ssh_host_id_invalid".to_owned());
    }
    if let Err(error) = validated {
        return Err(error);
    }
    if needs_interaction(spec) {
        let answer = agent_probe_result(
            "authenticationRequired",
            "ssh_agent_authentication_required",
            String::new(),
        );
        return Ok(AgentProbePlan::Answer(answer));
    }
    match build_agent_probe_script(agent_path) {
        Err(error) => Err(error),
        Ok(script) => Ok(
            AgentProbePlan::Run(
                RemotePlan {
                    script,
                    timeout_sec: timeout_seconds(spec.connect_timeout_sec, 15, 315),
                },
            ),
        ),
    }
}

/// How a probe of the host that `host_id` names starts.
pub fn ssh_agent_probe(
    host_id: &str,
    validated: Result<(), String>,
    spec: &SshConnectionSpec,
    agent_path: Option<&str>,
) -> (result: Result<AgentProbePlan, String>)
    ensures
        starts_probe(
            is_uuid(trim(host_id@)),
            validated,
            *spec,
            agent_path,
            result,
        ),
{
    agent_probe_plan(host_uuid(host_id).is_some(), validated, spec, agent_path)
}

/// Whether `result` tells that a probe failed with `code`. A host that the client could
/// not reach counts before the code.
pub open spec fn tells_failure(
    result: SshAgentProbeResult,
    output: AgentProbeProcessOutput,
    code: Seq<char>,
) -> bool {
    result.tells_only(
        if output.status_success {
            "corrupt"@
        } else {
            "unreachable"@
        },
        if output.status_code == Some(255i32) {
            "ssh_agent_unreachable"@
        } else {
            code
        },
        first_nonblank_line(utf8_lossy(output.stderr@)),
    )
}

fn failed_probe(output: &AgentProbeProcessOutput, code: &str) -> (result: SshAgentProbeResult)
    ensures
        tells_failure(result, *output, code@),
{
    let status = if output.status_success {
        "corrupt"
    } else {
        "unreachable"
    };
    let code = match output.status_code {
        Some(255) => "ssh_agent_unreachable",
        _ => code,
    };
    agent_probe_result(status, code, single_line(output.stderr.as_slice()))
}

/// How a probe goes on once its process ended.
#[derive(Debug)]
pub enum AgentProbeStep {
    /// It is done.
    Answer(SshAgentProbeResult),
    /// The report of the agent at `install_path` is to be decoded.
    Decode { install_path: String, report_json: String },
}

/// How a probe goes on once its process ended, or could not be run.
pub fn agent_probe_step(output: &Result<AgentProbeProcessOutput, String>) -> (step: AgentProbeStep)
    ensures
        match *output {
            Err(error) => step matches AgentProbeStep::Answer(answer) && answer.tells_only(
                "unreachable"@,
                "ssh_agent_probe_failed"@,
                error@,
            ),
            Ok(output) => if output.stdout_truncated {
                step matches AgentProbeStep::Answer(answer) && answer.tells_only(
                    "corrupt"@,
                    "ssh_agent_probe_output_too_large"@,
                    first_nonblank_line(utf8_lossy(output.stderr@)),
                )
            } else {
                match probe_answer(output.stdout@) {
                    Ok(ProbeAnswer::NotInstalled) => step matches AgentProbeStep::Answer(answer)
                        && answer.tells_only(
                        "notInstalled"@,
                        "ssh_agent_not_installed"@,
                        first_nonblank_line(utf8_lossy(output.stderr@)),
                    ),
                    Ok(ProbeAnswer::Found { install_path, report_json }) => step
                        matches AgentProbeStep::Decode { install_path: p, report_json: r } && p@
                        == install_path && r@ == report_json,
                    Err(code) => step matches AgentProbeStep::Answer(answer) && tells_failure(
                        answer,
                        output,
                        code,
                    ),
                }
            },
        },
{
    let output = match output {
        Ok(output) => output,
        Err(error) => {
            return AgentProbeStep::Answer(
                agent_probe_result("unreachable", "ssh_agent_probe_failed", error.clone()),
            );
        },
    };
    if output.stdout_truncated {
        return AgentProbeStep::Answer(
            agent_probe_result(
                "corrupt",
                "ssh_agent_probe_output_too_large",
                single_line(output.stderr.as_slice()),
            ),
        );
    }
    match parse_agent_probe_stdout(output.stdout.as_slice()) {
        Ok(AgentProbeStdout::NotInstalled) => AgentProbeStep::Answer(
            agent_probe_result(
                "notInstalled",
                "ssh_agent_not_installed",
                single_line(output.stderr.as_slice()),
            ),
        ),
        Ok(AgentProbeStdout::Found { install_path, report_json }) => AgentProbeStep::Decode {
            install_path,
            report_json,
        },
        Err(code) => AgentProbeStep::Answer(failed_probe(output, code.as_str())),
    }
}

/// What a probe tells once the report was decoded, or could not be.
pub fn agent_probe_decoded(
    output: &AgentProbeProcessOutput,
    install_path: String,
    report: Option<AgentDoctorProbe>,
) -> (result: SshAgentProbeResult)
    ensures
        match report {
            Some(report) => tells_report(result, install_path@, report),
            None => tells_failure(result, *output, "ssh_agent_probe_stdout_contaminated"@),
        },
{
    match agent_probe_report(install_path, report) {
        Ok(ParsedAgentProbe::Report { install_path, report }) => result_from_agent_report(
            install_path,
            report,
        ),
        Ok(ParsedAgentProbe::NotInstalled) => agent_probe_result(
            "notInstalled",
            "ssh_agent_not_installed",
            single_line(output.stderr.as_slice()),
        ),
        Err(code) => failed_probe(output, code.as_str()),
    }
}

/// Only an agent that names itself rightly, speaks the right protocol, supports its
/// target and found no fault is usable.
pub proof fn law_only_a_healthy_agent_is_usable(report: AgentDoctorProbe)
    ensures
        classified(report).2 <==> report.version.agent_name@ == "cli-manager-ssh-agent"@
            && report.version.protocol_major == AGENT_PROTOCOL_MAJOR && report.supported
            && report.code@ == "ok"@,
        classified(report).2 <==> classified(report).0 == "installed"@,
{
    reveal_strlit("installed");
    reveal_strlit("corrupt");
    reveal_strlit("incompatible");
    reveal_strlit("unsupported");
    assert("installed"@.len() == 9);
    assert("corrupt"@.len() == 7);
    assert("incompatible"@.len() == 12);
    assert("unsupported"@.len() == 11);
}

proof fn lemma_position_after(front: Seq<char>, tail: Seq<char>)
    requires
        forall|j: int| 0 <= j < front.len() ==> front[j] != '\n',
    ensures
        position(front + seq!['\n'] + tail, '\n') == Some(front.len() as int),
{
    let s = front + seq!['\n'] + tail;
    lemma_position_bounds(s, '\n');
    assert(s[front.len() as int] == '\n');
    assert forall|j: int| 0 <= j < front.len() implies s[j] != '\n' by {
        assert(s[j] == front[j]);
    }
}

proof fn lemma_magic_line(word: Seq<char>)
    requires
        word == " notInstalled"@ || word == " found"@,
    ensures
        ({
            let line = AGENT_PROBE_MAGIC@ + word;
            &&& forall|j: int| 0 <= j < line.len() ==> line[j] != '\n'
            &&& trim_end_char(line, '\r') == line
        }),
        " notInstalled"@ != " found"@,
{
    reveal_strlit("CLI_MANAGER_SSH_AGENT_PROBE/1");
    reveal_strlit(" notInstalled");
    reveal_strlit(" found");
    let line = AGENT_PROBE_MAGIC@ + word;
    assert(" notInstalled"@.len() == 13);
    assert(" found"@.len() == 6);
    assert(line.last() == word.last());
}

/// Where the host prints a banner of limited length and then what the script prints when
/// it finds no agent, the answer is that there is none.
pub proof fn law_absence_is_read(banner: Seq<char>)
    requires
        ({
            let text = banner + (AGENT_PROBE_MAGIC@ + " notInstalled"@ + seq!['\n']);
            &&& find(text, AGENT_PROBE_MAGIC@) == Some(banner.len() as int)
            &&& encode_utf8(banner).len() <= MAX_AGENT_PROBE_BANNER_BYTES
            &&& encode_utf8(text).len() <= MAX_AGENT_PROBE_REPORT_BYTES
        }),
    ensures
        probe_answer(
            encode_utf8(banner + (AGENT_PROBE_MAGIC@ + " notInstalled"@ + seq!['\n'])),
        ) == Ok::<ProbeAnswer, Seq<char>>(ProbeAnswer::NotInstalled),
{
    let line = AGENT_PROBE_MAGIC@ + " notInstalled"@;
    let text = banner + (line + seq!['\n']);
    encode_utf8_valid_utf8(text);
    encode_utf8_decode_utf8(text);
    lemma_magic_line(" notInstalled"@);
    let marked = text.skip(banner.len() as int);
    assert(text.take(banner.len() as int) =~= banner);
    assert(marked =~= line + seq!['\n'] + Seq::<char>::empty());
    lemma_position_after(line, Seq::empty());
    assert(marked.take(line.len() as int) =~= line);
    assert(marked.skip(line.len() as int + 1) =~= Seq::<char>::empty());
    assert(trim(Seq::<char>::empty()) == Seq::<char>::empty());
}

/// Where the host prints a banner of limited length and then what the script prints when
/// it finds an agent, the answer is where the agent is, and its report.
pub proof fn law_report_is_read(banner: Seq<char>, install_path: Seq<char>, report: Seq<char>)
    requires
        home_path_error(install_path) is None,
        ({
            let text = banner + (AGENT_PROBE_MAGIC@ + " found"@ + seq!['\n'] + (install_path
                + seq!['\n'] + report));
            &&& find(text, AGENT_PROBE_MAGIC@) == Some(banner.len() as int)
            &&& encode_utf8(banner).len() <= MAX_AGENT_PROBE_BANNER_BYTES
            &&& encode_utf8(text).len() <= MAX_AGENT_PROBE_REPORT_BYTES
        }),
    ensures
        probe_answer(
            encode_utf8(
                banner + (AGENT_PROBE_MAGIC@ + " found"@ + seq!['\n'] + (install_path
                    + seq!['\n'] + report)),
            ),
        ) == Ok::<ProbeAnswer, Seq<char>>(
            ProbeAnswer::Found { install_path, report_json: trim(report) },
        ),
{
    let line = AGENT_PROBE_MAGIC@ + " found"@;
    let payload = install_path + seq!['\n'] + report;
    let text = banner + (line + seq!['\n'] + payload);
    encode_utf8_valid_utf8(text);
    encode_utf8_decode_utf8(text);
    lemma_magic_line(" found"@);
    let marked = text.skip(banner.len() as int);
    assert(text.take(banner.len() as int) =~= banner);
    assert(marked =~= line + seq!['\n'] + payload);
    lemma_position_after(line, payload);
    assert(marked.take(line.len() as int) =~= line);
    assert(marked.skip(line.len() as int + 1) =~= payload);
    assert(line != AGENT_PROBE_MAGIC@ + " notInstalled"@) by {
        if line == AGENT_PROBE_MAGIC@ + " notInstalled"@ {
            reveal_strlit(" notInstalled");
            reveal_strlit(" found");
        }
    }
    assert forall|j: int| 0 <= j < install_path.len() implies install_path[j] != '\n' by {
        if install_path[j] == '\n' {
            assert(super::path::breaks_command(install_path[j]));
        }
    }
    lemma_position_after(install_path, report);
    assert(payload.take(install_path.len() as int) =~= install_path);
    assert(payload.skip(install_path.len() as int + 1) =~= report);
    assert(trim_end_char(install_path, '\r') == install_path) by {
        if install_path.len() > 0 && install_path.last() == '\r' {
            assert(super::path::breaks_command(install_path[install_path.len() - 1]));
        }
    }
}

/// The probe script looks, past the place that is given, in the search path, in the user's
/// directory for programs and in the one for data, in this order. It prints that it found
/// no agent, or where it found one and what that reports of itself.
pub proof fn law_script_looks_in_all_places(
    agent_path: Option<&str>,
    result: Result<String, String>,
)
    requires
        call_ensures(build_agent_probe_script, (agent_path,), result),
        result is Ok,
    ensures
        exists|explicit: Seq<char>|
            {
                &&& result->Ok_0@ == #[trigger] ("set -eu\nagent=''\n"@ + explicit)
                    + "if [ -z \"$agent\" ] && command -v cli-manager-ssh-agent >/dev/null 2>&1; then agent=$(command -v cli-manager-ssh-agent); fi\nif [ -z \"$agent\" ] && [ -x \"${HOME}/.local/bin/cli-manager-ssh-agent\" ]; then agent=\"${HOME}/.local/bin/cli-manager-ssh-agent\"; fi\ndata_agent=\"${XDG_DATA_HOME:-${HOME}/.local/share}/cli-manager-ssh-agent/current/cli-manager-ssh-agent\"\nif [ -z \"$agent\" ] && [ -x \"$data_agent\" ]; then agent=\"$data_agent\"; fi\nif [ -z \"$agent\" ]; then printf '"@
                    + "CLI_MANAGER_SSH_AGENT_PROBE/1"@ + " notInstalled\\n'; exit 127; fi\nprintf '"@
                    + "CLI_MANAGER_SSH_AGENT_PROBE/1"@
                    + " found\\n%s\\n' \"$agent\"\nexec \"$agent\" doctor"@
                &&& agent_path is None || trim(agent_path->0@).len() == 0 ==> explicit.len() == 0
                &&& agent_path is Some && trim(agent_path->0@).len() > 0 ==> explicit
                    == "if [ -x "@ + home_word(trim(agent_path->0@)) + " ]; then agent="@
                    + home_word(trim(agent_path->0@)) + "; fi\n"@
            },
{
    let given = match explicit_path(agent_path) {
        Some(path) => {
            let word = home_word(path);
            "if [ -x "@ + word + " ]; then agent="@ + word + "; fi\n"@
        },
        None => Seq::empty(),
    };
    assert(result->Ok_0@ == AGENT_PROBE_HEAD@ + given + AGENT_PROBE_SEARCH@ + AGENT_PROBE_MAGIC@
        + " notInstalled\\n'; exit 127; fi\nprintf '"@ + AGENT_PROBE_MAGIC@
        + " found\\n%s\\n' \"$agent\"\nexec \"$agent\" doctor"@);
}

/// A place that is given is refused exactly where it is not blank and, without the white
/// space around it, is no path of an agent; the error tells whether it goes up.
pub proof fn law_place_to_look_in_is_checked(
    agent_path: Option<&str>,
    result: Result<String, String>,
    place: &str,
    valid: Result<(), SshRemoteHomePathError>,
)
    requires
        call_ensures(build_agent_probe_script, (agent_path,), result),
        call_ensures(validate_remote_home_path, (place,), valid),
        agent_path matches Some(path) ==> place@ == trim(path@),
    ensures
        result is Err <==> agent_path is Some && place@.len() > 0 && valid is Err,
        result matches Err(e) ==> e@ == if valid->Err_0 is ParentTraversal {
            "ssh_agent_path_parent_forbidden"@
        } else {
            "ssh_agent_path_invalid"@
        },
{
}

/// What was printed is refused where it is longer than 64 KiB, where it is no text, or
/// where the script's mark is missing, stands behind more than 8 KiB, or has no line to
/// itself.
pub proof fn law_broken_answers_are_refused(
    stdout: &[u8],
    result: Result<AgentProbeStdout, String>,
)
    requires
        call_ensures(parse_agent_probe_stdout, (stdout,), result),
    ensures
        ({
            let mark = "CLI_MANAGER_SSH_AGENT_PROBE/1"@;
            let text = decode_utf8(stdout@);
            &&& stdout@.len() > 65536 ==> (result matches Err(e) && e@
                == "ssh_agent_probe_output_too_large"@)
            &&& stdout@.len() <= 65536 && !valid_utf8(stdout@) ==> (result matches Err(e) && e@
                == "ssh_agent_probe_output_invalid"@)
            &&& stdout@.len() <= 65536 && valid_utf8(stdout@) ==> match find(text, mark) {
                None => result matches Err(e) && e@ == "ssh_agent_probe_magic_missing"@,
                Some(start) => {
                    let long = encode_utf8(text.take(start)).len() > 8192;
                    let lines = exists|i: int| start <= i < text.len() && text[i] == '\n';
                    &&& long ==> (result matches Err(e) && e@
                        == "ssh_agent_probe_banner_too_large"@)
                    &&& !long && !lines ==> (result matches Err(e) && e@
                        == "ssh_agent_probe_output_invalid"@)
                },
            }
        }),
{
    let text = decode_utf8(stdout@);
    if let Some(start) = find(text, AGENT_PROBE_MAGIC@) {
        crate::text::lemma_find_bounds(text, AGENT_PROBE_MAGIC@);
        let marked = text.skip(start);
        lemma_position_bounds(marked, '\n');
        if let Some(end) = position(marked, '\n') {
            assert(text[start + end] == '\n');
        }
    }
}

/// What the script printed behind its mark is understood: that there is no agent, where
/// nothing but white space follows; that there is one, where its path follows on a line of
/// its own, and the report behind that. Anything else is refused, and the error tells what
/// is wrong.
pub proof fn law_answer_behind_the_mark_is_read(
    stdout: &[u8],
    banner: Seq<char>,
    word: Seq<char>,
    payload: Seq<char>,
    result: Result<AgentProbeStdout, String>,
)
    requires
        call_ensures(parse_agent_probe_stdout, (stdout,), result),
        forall|j: int| 0 <= j < word.len() ==> #[trigger] word[j] != '\n',
        word.len() > 0,
        word.last() != '\r',
        ({
            let text = banner + ("CLI_MANAGER_SSH_AGENT_PROBE/1"@ + word + seq!['\n'] + payload);
            &&& stdout@ == encode_utf8(text)
            &&& find(text, "CLI_MANAGER_SSH_AGENT_PROBE/1"@) == Some(banner.len() as int)
            &&& encode_utf8(banner).len() <= 8192
            &&& stdout@.len() <= 65536
        }),
    ensures
        word == " notInstalled"@ && trim(payload).len() == 0 ==> result == Ok::<
            AgentProbeStdout,
            String,
        >(AgentProbeStdout::NotInstalled),
        word == " notInstalled"@ && trim(payload).len() > 0 ==> (result matches Err(e) && e@
            == "ssh_agent_probe_stdout_contaminated"@),
        word == " found"@ ==> match position(payload, '\n') {
            None => result matches Err(e) && e@ == "ssh_agent_probe_output_invalid"@,
            Some(end) => {
                let place = trim_end_char(payload.take(end), '\r');
                if home_path_error(place) is None {
                    result matches Ok(AgentProbeStdout::Found { install_path, report_json })
                        && install_path@ == place && report_json@ == trim(payload.skip(end + 1))
                } else {
                    result matches Err(e) && e@ == "ssh_agent_probe_path_invalid"@
                }
            },
        },
        word != " notInstalled"@ && word != " found"@ ==> (result matches Err(e) && e@
            == "ssh_agent_probe_magic_invalid"@),
{
    let mark = AGENT_PROBE_MAGIC@;
    let line = mark + word;
    let text = banner + (mark + word + seq!['\n'] + payload);
    encode_utf8_valid_utf8(text);
    encode_utf8_decode_utf8(text);
    reveal_strlit("CLI_MANAGER_SSH_AGENT_PROBE/1");
    let marked = text.skip(banner.len() as int);
    assert(text.take(banner.len() as int) =~= banner);
    assert(marked =~= line + seq!['\n'] + payload);
    assert forall|j: int| 0 <= j < line.len() implies line[j] != '\n' by {
        if j >= mark.len() {
            assert(line[j] == word[j - mark.len()]);
        }
    }
    lemma_position_after(line, payload);
    assert(marked.take(line.len() as int) =~= line);
    assert(marked.skip(line.len() as int + 1) =~= payload);
    assert(line.last() == word.last());
    assert(trim_end_char(line, '\r') == line);
    lemma_magic_line(" found"@);
    assert(line == mark + " found"@ ==> word == " found"@) by {
        assert(line.skip(mark.len() as int) =~= word);
        assert((mark + " found"@).skip(mark.len() as int) =~= " found"@);
    }
    assert(line == mark + " notInstalled"@ ==> word == " notInstalled"@) by {
        assert(line.skip(mark.len() as int) =~= word);
        assert((mark + " notInstalled"@).skip(mark.len() as int) =~= " notInstalled"@);
    }
}

/// What a report is told as. The agent is usable where it is this project's, speaks
/// protocol 1, supports its target and found no fault. Else the first of these that does
/// not hold is told; what the agent says of itself is told in any case.
pub proof fn law_report_is_told(
    install_path: String,
    report: AgentDoctorProbe,
    result: SshAgentProbeResult,
)
    requires
        call_ensures(result_from_agent_report, (install_path, report), result),
    ensures
        ({
            let version = report.version;
            let own = version.agent_name@ == "cli-manager-ssh-agent"@;
            let speaks = version.protocol_major == 1;
            let well = report.code@ == "ok"@;
            &&& result.supported <==> own && speaks && report.supported && well
            &&& !own ==> result.status@ == "corrupt"@ && result.code@
                == "ssh_agent_identity_invalid"@
            &&& own && !speaks ==> result.status@ == "incompatible"@ && result.code@
                == "ssh_agent_protocol_incompatible"@
            &&& own && speaks ==> result.code@ == report.code@
            &&& own && speaks && !report.supported ==> result.status@ == "unsupported"@
            &&& own && speaks && report.supported && !well ==> result.status@ == "corrupt"@
            &&& own && speaks && report.supported && well ==> result.status@ == "installed"@
            &&& result.install_path@ == install_path@
            &&& result.agent_version@ == version.agent_version@
            &&& result.protocol_version@ == decimal(version.protocol_major as nat) + "."@
                + decimal(version.protocol_minor as nat)
            &&& result.target@ == version.target_os@ + "/"@ + version.target_arch@
            &&& result.detail@.len() == 0
        }),
{
}

/// Whether `answer` tells this status, code and detail, and of no agent.
pub open spec fn tells_of_no_agent(
    answer: SshAgentProbeResult,
    status: Seq<char>,
    code: Seq<char>,
    detail: Seq<char>,
) -> bool {
    &&& answer.status@ == status
    &&& answer.code@ == code
    &&& answer.detail@ == detail
    &&& answer.install_path@.len() == 0
    &&& answer.agent_version@.len() == 0
    &&& answer.protocol_version@.len() == 0
    &&& answer.target@.len() == 0
    &&& !answer.supported
}

/// How a probe starts: a host that has no identifier, or to which there is no valid way, is
/// an error; one that asks someone is answered at once; any other is asked with the script,
/// within 15 seconds more than connecting may take.
pub proof fn law_probe_asks_known_hosts(
    host_id: &str,
    validated: Result<(), String>,
    spec: SshConnectionSpec,
    agent_path: Option<&str>,
    script: Result<String, String>,
    result: Result<AgentProbePlan, String>,
)
    requires
        call_ensures(ssh_agent_probe, (host_id, validated, &spec, agent_path), result),
        call_ensures(build_agent_probe_script, (agent_path,), script),
    ensures
        ({
            let known = is_uuid(trim(host_id@));
            let asks = spec.auth_mode@ == "password_prompt"@ || spec.auth_mode@ == "interactive"@;
            &&& !known ==> (result matches Err(e) && e@ == "ssh_host_id_invalid"@)
            &&& known ==> (validated matches Err(error) ==> (result matches Err(e) && e@
                == error@))
            &&& known && validated is Ok && asks ==> (result matches Ok(
                AgentProbePlan::Answer(answer),
            ) && tells_of_no_agent(
                answer,
                "authenticationRequired"@,
                "ssh_agent_authentication_required"@,
                Seq::empty(),
            ))
            &&& known && validated is Ok && !asks ==> match script {
                Ok(text) => result matches Ok(AgentProbePlan::Run(plan)) && plan.script@ == text@
                    && plan.timeout_sec == if spec.connect_timeout_sec <= 300 {
                    spec.connect_timeout_sec + 15
                } else {
                    315
                },
                Err(error) => result matches Err(e) && e@ == error@,
            }
        }),
{
}

/// How a probe ends. A process that could not be run means that the host is out of reach;
/// output that was cut off is not read. What was read is told: that there is no agent, or
/// the report to decode; and an answer that was refused is told with its error, unless the
/// client itself could not reach the host.
pub proof fn law_probe_tells_what_it_read(
    output: Result<AgentProbeProcessOutput, String>,
    stdout: &[u8],
    read: Result<AgentProbeStdout, String>,
    step: AgentProbeStep,
)
    requires
        call_ensures(agent_probe_step, (&output,), step),
        call_ensures(parse_agent_probe_stdout, (stdout,), read),
        output matches Ok(o) ==> stdout@ == o.stdout@,
    ensures
        match output {
            Err(error) => step matches AgentProbeStep::Answer(answer) && answer.status@
                == "unreachable"@ && answer.code@ == "ssh_agent_probe_failed"@ && answer.detail@
                == error@ && !answer.supported,
            Ok(o) => {
                let detail = first_nonblank_line(utf8_lossy(o.stderr@));
                &&& o.stdout_truncated ==> (step matches AgentProbeStep::Answer(answer)
                    && answer.status@ == "corrupt"@ && answer.code@
                    == "ssh_agent_probe_output_too_large"@ && answer.detail@ == detail
                    && !answer.supported)
                &&& !o.stdout_truncated ==> match read {
                    Ok(AgentProbeStdout::NotInstalled) => step matches AgentProbeStep::Answer(
                        answer,
                    ) && answer.status@ == "notInstalled"@ && answer.code@
                        == "ssh_agent_not_installed"@ && answer.detail@ == detail
                        && !answer.supported,
                    Ok(AgentProbeStdout::Found { install_path, report_json }) => step
                        matches AgentProbeStep::Decode { install_path: p, report_json: r } && p@
                        == install_path@ && r@ == report_json@,
                    Err(code) => step matches AgentProbeStep::Answer(answer) && answer.status@
                        == (if o.status_success {
                        "corrupt"@
                    } else {
                        "unreachable"@
                    }) && answer.code@ == (if o.status_code == Some(255i32) {
                        "ssh_agent_unreachable"@
                    } else {
                        code@
                    }) && answer.detail@ == detail && !answer.supported,
                }
            },
        },
{
}

/// A report that was decoded is told; one that could not be is told as output that something
/// else was mixed into.
pub proof fn law_decoded_report_is_told(
    output: AgentProbeProcessOutput,
    install_path: String,
    report: Option<AgentDoctorProbe>,
    result: SshAgentProbeResult,
    told: SshAgentProbeResult,
    found: Result<ParsedAgentProbe, String>,
)
    requires
        call_ensures(agent_probe_decoded, (&output, install_path, report), result),
        call_ensures(agent_probe_report, (install_path, report), found),
        report matches Some(r) ==> call_ensures(
            result_from_agent_report,
            (install_path, r),
            told,
        ),
    ensures
        report matches Some(r) ==> {
            &&& found == Ok::<ParsedAgentProbe, String>(
                ParsedAgentProbe::Report { install_path, report: r },
            )
            &&& result.status@ == told.status@
            &&& result.code@ == told.code@
            &&& result.supported == told.supported
            &&& result.install_path@ == told.install_path@
            &&& result.agent_version@ == told.agent_version@
            &&& result.protocol_version@ == told.protocol_version@
            &&& result.target@ == told.target@
            &&& result.detail@.len() == 0
        },
        report is None ==> {
            &&& found matches Err(e) && e@ == "ssh_agent_probe_stdout_contaminated"@
            &&& result.status@ == if output.status_success {
                "corrupt"@
            } else {
                "unreachable"@
            }
            &&& result.code@ == if output.status_code == Some(255i32) {
                "ssh_agent_unreachable"@
            } else {
                "ssh_agent_probe_stdout_contaminated"@
            }
            &&& result.detail@ == first_nonblank_line(utf8_lossy(output.stderr@))
            &&& !result.supported
        },
{
}

/// A result without an agent tells only what it is given.
pub proof fn law_result_without_an_agent(
    status: &str,
    code: &str,
    detail: String,
    result: SshAgentProbeResult,
)
    requires
        call_ensures(agent_probe_result, (status, code, detail), result),
    ensures
        tells_of_no_agent(result, status@, code@, detail@),
{
}

} // verus!
