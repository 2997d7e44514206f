//! Testing whether a host can be reached, step by step.

use super::auth::{
    first_nonblank_line, host_key_fingerprint, host_key_in, single_line, SshAuthProbeOutput,
};
use super::connect::{
    limited_timeout, needs_interaction, ssh_probe_command, timeout_seconds, CommandOutput,
    RemoteRequest, SshConnectionSpec,
};
use crate::encoding::utf8_lossy;
use crate::text::{
    append_decimal, contains, contains_text, decimal, joined, same_text, signed_decimal,
    signed_decimal_text,
};
use vstd::prelude::*;
use vstd::string::StringExecFns;

verus! {

/// How long the client may take to tell its version, in seconds.
pub const CLIENT_STATUS_TIMEOUT_SEC: u64 = 5;

/// Whether there is an SSH client.
#[derive(Debug)]
pub struct SshClientStatus {
    pub available: bool,
    pub version: Option<String>,
    pub error: Option<String>,
}

/// How one stage of a test went.
#[derive(Debug)]
pub struct SshDiagnosticStage {
    pub key: String,
    pub status: String,
    pub detail: String,
}

/// How a test went.
#[derive(Debug)]
pub struct SshConnectionTestResult {
    pub success: bool,
    pub stages: Vec<SshDiagnosticStage>,
}

/// A stage, as text.
#[verifier::ext_equal]
pub struct Stage {
    pub key: Seq<char>,
    pub status: Seq<char>,
    pub detail: Seq<char>,
}

impl View for SshDiagnosticStage {
    type V = Stage;

    open spec fn view(&self) -> Stage {
        Stage { key: self.key@, status: self.status@, detail: self.detail@ }
    }
}

/// The stages, as text.
pub open spec fn stage_views(stages: Seq<SshDiagnosticStage>) -> Seq<Stage> {
    stages.map_values(|stage: SshDiagnosticStage| stage@)
}

/// The version line of a client: what it printed as an error, or else as output.
pub open spec fn version_line(output: CommandOutput) -> Seq<char> {
    let stderr = first_nonblank_line(utf8_lossy(output.stderr@));
    if stderr.len() == 0 {
        first_nonblank_line(utf8_lossy(output.stdout@))
    } else {
        stderr
    }
}

/// Whether there is an SSH client, by what it printed when it was asked for its version,
/// or why it could not be asked.
pub fn ssh_client_status(outcome: Result<CommandOutput, String>) -> (status: SshClientStatus)
    ensures
        match outcome {
            Ok(output) => {
                let version = version_line(output);
                &&& status.available == (output.success || version.len() > 0)
                &&& match status.version {
                    Some(v) => v@ == version && version.len() > 0,
                    None => version.len() == 0,
                }
                &&& status.error is None
            },
            Err(error) => {
                &&& !status.available
                &&& status.version is None
                &&& status.error == Some(error)
            },
        },
{
    match outcome {
        Ok(output) => {
            let stderr = single_line(output.stderr.as_slice());
            let stdout = single_line(output.stdout.as_slice());
            let version = if stderr.as_str().is_empty() {
                stdout
            } else {
                stderr
            };
            let named = !version.as_str().is_empty();
            SshClientStatus {
                available: output.success || named,
                version: if named {
                    Some(version)
                } else {
                    None
                },
                error: None,
            }
        },
        Err(error) => SshClientStatus { available: false, version: None, error: Some(error) },
    }
}

/// How the stage that looks for a client went.
pub open spec fn client_stage(client: SshClientStatus) -> Stage {
    Stage {
        key: "client"@,
        status: if client.available {
            "passed"@
        } else {
            "failed"@
        },
        detail: match client.version {
            Some(version) => version@,
            None => match client.error {
                Some(error) => error@,
                None => "ssh_client_unavailable"@,
            },
        },
    }
}

/// The stage that ends a test of a host that asks someone to answer a prompt.
pub open spec fn interactive_stage() -> Stage {
    Stage {
        key: "authentication"@,
        status: "interactive_required"@,
        detail: "ssh_interactive_auth_required"@,
    }
}

/// The proxy and the host behind it.
pub open spec fn proxy_label(spec: SshConnectionSpec) -> Seq<char> {
    spec.proxy_type@ + "://"@ + spec.proxy_host@ + ":"@ + decimal(spec.proxy_port as nat) + " → "@
        + spec.host@ + ":"@ + decimal(spec.port as nat)
}

/// How the stage that asks the proxy went.
pub open spec fn proxy_stage(spec: SshConnectionSpec, outcome: Result<(), String>) -> Stage {
    match outcome {
        Ok(_) => Stage { key: "proxy"@, status: "passed"@, detail: proxy_label(spec) },
        Err(error) => Stage {
            key: "proxy"@,
            status: "failed"@,
            detail: proxy_label(spec) + "\n"@ + error@,
        },
    }
}

/// Whether a login counts as a success.
pub open spec fn login_succeeded(output: SshAuthProbeOutput) -> bool {
    output.authenticated || output.status_success
}

/// How the stage that logs in went.
pub open spec fn login_stage(output: SshAuthProbeOutput) -> Stage {
    let stderr = output.stderr@;
    let success = login_succeeded(output);
    if !success && contains(stderr, "REMOTE HOST IDENTIFICATION HAS CHANGED"@) {
        Stage { key: "host_key"@, status: "failed"@, detail: "ssh_host_key_changed\n"@ + stderr }
    } else if !success && contains(stderr, "Host key verification failed"@) {
        let fingerprint = match host_key_in(stderr) {
            Some(fingerprint) => fingerprint,
            None => Seq::empty(),
        };
        Stage {
            key: "host_key"@,
            status: "confirmation_required"@,
            detail: "ssh_host_key_confirmation_required\n"@ + fingerprint + "\n"@ + stderr,
        }
    } else if output.timed_out {
        Stage {
            key: "authentication"@,
            status: "failed"@,
            detail: "ssh_authentication_timeout\n"@ + stderr,
        }
    } else if success {
        Stage { key: "connection"@, status: "passed"@, detail: "ssh_connection_ready"@ }
    } else if stderr.len() == 0 {
        Stage {
            key: "connection"@,
            status: "failed"@,
            detail: "ssh_exit_status_"@ + signed_decimal(
                match output.status_code {
                    Some(code) => code as int,
                    None => -1,
                },
            ),
        }
    } else {
        Stage { key: "connection"@, status: "failed"@, detail: stderr }
    }
}

fn new_stage(key: &str, status: &str, detail: String) -> (stage: SshDiagnosticStage)
    ensures
        stage@ == (Stage { key: key@, status: status@, detail: detail@ }),
{
    SshDiagnosticStage { key: key.to_owned(), status: status.to_owned(), detail }
}

fn label_of(spec: &SshConnectionSpec) -> (label: String)
    ensures
        label@ == proxy_label(*spec),
{
    let mut label = spec.proxy_type.clone();
    label.append("://");
    label.append(spec.proxy_host.as_str());
    label.append(":");
    append_decimal(&mut label, spec.proxy_port as u128);
    label.append(" → ");
    label.append(spec.host.as_str());
    label.append(":");
    append_decimal(&mut label, spec.port as u128);
    label
}

/// How the stage that logs in went.
pub fn login_diagnosis(output: &SshAuthProbeOutput) -> (stage: SshDiagnosticStage)
    ensures
        stage@ == login_stage(*output),
{
    let stderr = output.stderr.as_str();
    let success = output.authenticated || output.status_success;
    if !success && contains_text(stderr, "REMOTE HOST IDENTIFICATION HAS CHANGED") {
        new_stage("host_key", "failed", joined("ssh_host_key_changed\n", stderr))
    } else if !success && contains_text(stderr, "Host key verification failed") {
        let mut detail = "ssh_host_key_confirmation_required\n".to_owned();
        if let Some(fingerprint) = host_key_fingerprint(stderr) {
            detail.append(fingerprint.as_str());
        }
        detail.append("\n");
        detail.append(stderr);
        assert(detail@ =~= login_stage(*output).detail);
        new_stage("host_key", "confirmation_required", detail)
    } else if output.timed_out {
        new_stage("authentication", "failed", joined("ssh_authentication_timeout\n", stderr))
    } else if success {
        new_stage("connection", "passed", "ssh_connection_ready".to_owned())
    } else if stderr.is_empty() {
        let code = match output.status_code {
            Some(code) => code,
            None => -1,
        };
        new_stage(
            "connection",
            "failed",
            joined("ssh_exit_status_", signed_decimal_text(code).as_str()),
        )
    } else {
        new_stage("connection", "failed", stderr.to_owned())
    }
}

/// What a test is waiting for.
#[derive(Debug, Clone, Copy, PartialEq, Eq, Structural)]
pub enum TestPhase {
    /// Whether the way to reach the host is valid.
    Validation,
    /// The status of the client.
    Client,
    /// The answer of the proxy.
    Proxy,
    /// How the login went.
    Login,
    /// Nothing.
    Done,
}

/// A test between two of its steps.
#[derive(Debug)]
pub struct ConnectionTest {
    phase: TestPhase,
    stages: Vec<SshDiagnosticStage>,
}

/// A test as a value: what it waits for, and the stages so far.
#[verifier::ext_equal]
pub struct TestState {
    pub phase: TestPhase,
    pub stages: Seq<Stage>,
}

impl View for ConnectionTest {
    type V = TestState;

    closed spec fn view(&self) -> TestState {
        TestState { phase: self.phase, stages: stage_views(self.stages@) }
    }
}

/// What was found out for a test.
#[derive(Debug)]
pub enum TestEvent {
    /// Whether the way to reach the host is valid.
    Validated(Result<(), String>),
    Client(SshClientStatus),
    Proxy(Result<(), String>),
    Login(SshAuthProbeOutput),
    /// The proxy could not be asked, or the login not be tried, for this reason.
    Unavailable(String),
}

/// What a test asks for.
#[derive(Debug)]
pub enum TestAction {
    /// Ask for the status of the client.
    AskClient,
    /// Ask the proxy for the host, within so many seconds.
    ProbeProxy { timeout_sec: u64 },
    /// Log in with this request, within so many seconds.
    ProbeLogin { request: RemoteRequest, timeout_sec: u64 },
    /// Stop with this result.
    Finish(SshConnectionTestResult),
    /// Stop without a result, for this reason.
    Fail(String),
}

/// Whether `action` is to stop with these stages.
pub open spec fn finishes(action: TestAction, success: bool, stages: Seq<Stage>) -> bool {
    action matches TestAction::Finish(result) && result.success == success && stage_views(
        result.stages@,
    ) == stages
}

/// Whether `action` is to log in.
pub open spec fn asks_for_login(
    action: TestAction,
    spec: SshConnectionSpec,
    accept_new_host_key: bool,
) -> bool {
    action matches TestAction::ProbeLogin { request, timeout_sec } && request.command@ == "true"@
        && request.verbose && request.accept_new_host_key == accept_new_host_key && timeout_sec
        == limited_timeout(spec.connect_timeout_sec, 5, 305)
}

/// Whether the test `before` turns into `after` and asks for `action` when `event`
/// happens.
pub open spec fn test_steps(
    before: TestState,
    spec: SshConnectionSpec,
    accept_new_host_key: bool,
    event: TestEvent,
    after: TestState,
    action: TestAction,
) -> bool {
    let earlier = before.stages;
    match event {
        TestEvent::Validated(Ok(_)) => {
            &&& after.phase == TestPhase::Client
            &&& after.stages == before.stages
            &&& action is AskClient
        },
        TestEvent::Validated(Err(error)) | TestEvent::Unavailable(error) => {
            &&& after.phase == TestPhase::Done
            &&& after.stages == before.stages
            &&& action == TestAction::Fail(error)
        },
        TestEvent::Client(client) => {
            let stages = earlier.push(client_stage(client));
            if !client.available {
                after.phase == TestPhase::Done && finishes(action, false, stages)
            } else if spec.is_interactive() {
                after.phase == TestPhase::Done && finishes(
                    action,
                    false,
                    stages.push(interactive_stage()),
                )
            } else if spec.has_proxy() {
                &&& after.phase == TestPhase::Proxy
                &&& after.stages == stages
                &&& action == (TestAction::ProbeProxy {
                    timeout_sec: limited_timeout(spec.connect_timeout_sec, 0, 300) as u64,
                })
            } else {
                &&& after.phase == TestPhase::Login
                &&& after.stages == stages
                &&& asks_for_login(action, spec, accept_new_host_key)
            }
        },
        TestEvent::Proxy(outcome) => {
            let stages = earlier.push(proxy_stage(spec, outcome));
            if outcome is Err {
                after.phase == TestPhase::Done && finishes(action, false, stages)
            } else {
                &&& after.phase == TestPhase::Login
                &&& after.stages == stages
                &&& asks_for_login(action, spec, accept_new_host_key)
            }
        },
        TestEvent::Login(output) => {
            &&& after.phase == TestPhase::Done
            &&& finishes(action, login_succeeded(output), earlier.push(login_stage(output)))
        },
    }
}

impl TestState {
    /// Whether `event` can happen now.
    pub open spec fn expects(self, event: TestEvent) -> bool {
        match event {
            TestEvent::Validated(_) => self.phase == TestPhase::Validation,
            TestEvent::Client(_) => self.phase == TestPhase::Client,
            TestEvent::Proxy(_) => self.phase == TestPhase::Proxy,
            TestEvent::Login(_) => self.phase == TestPhase::Login,
            TestEvent::Unavailable(_) => self.phase == TestPhase::Proxy || self.phase
                == TestPhase::Login,
        }
    }
}

impl ConnectionTest {
    /// A test that found out nothing yet.
    pub fn new() -> (test: Self)
        ensures
            test@ == (TestState { phase: TestPhase::Validation, stages: Seq::empty() }),
    {
        let test = ConnectionTest { phase: TestPhase::Validation, stages: Vec::new() };
        assert(test@.stages =~= Seq::<Stage>::empty());
        test
    }

    fn push(&mut self, stage: SshDiagnosticStage)
        ensures
            final(self).phase == old(self).phase,
            stage_views(final(self).stages@) == stage_views(old(self).stages@).push(stage@),
    {
        self.stages.push(stage);
        assert(stage_views(self.stages@) =~= stage_views(old(self).stages@).push(stage@));
    }

    fn stop(&mut self, success: bool) -> (action: TestAction)
        ensures
            final(self).phase == TestPhase::Done,
            finishes(action, success, stage_views(old(self).stages@)),
    {
        self.phase = TestPhase::Done;
        let mut stages: Vec<SshDiagnosticStage> = Vec::new();
        stages.append(&mut self.stages);
        assert(stages@ =~= old(self).stages@);
        TestAction::Finish(SshConnectionTestResult { success, stages })
    }

    fn log_in(&mut self, spec: &SshConnectionSpec, accept_new_host_key: bool) -> (action:
        TestAction)
        ensures
            final(self).phase == TestPhase::Login,
            final(self).stages == old(self).stages,
            asks_for_login(action, *spec, accept_new_host_key),
    {
        self.phase = TestPhase::Login;
        TestAction::ProbeLogin {
            request: ssh_probe_command(accept_new_host_key),
            timeout_sec: timeout_seconds(spec.connect_timeout_sec, 5, 305),
        }
    }
}

/// One step of a test: takes up what was found out and says what to do next. Where the
/// way to reach the host is not valid, the test ends with that error before anything is
/// asked. Else the client comes first, then a proxy if there is one, then the login; a
/// stage that fails is the last one.
pub fn ssh_test_connection(
    test: &mut ConnectionTest,
    spec: &SshConnectionSpec,
    accept_new_host_key: bool,
    event: TestEvent,
) -> (action: TestAction)
    requires
        old(test)@.expects(event),
    ensures
        test_steps(old(test)@, *spec, accept_new_host_key, event, final(test)@, action),
{
    match event {
        TestEvent::Validated(Ok(())) => {
            test.phase = TestPhase::Client;
            TestAction::AskClient
        },
        TestEvent::Validated(Err(error)) | TestEvent::Unavailable(error) => {
            test.phase = TestPhase::Done;
            TestAction::Fail(error)
        },
        TestEvent::Client(client) => {
            let available = client.available;
            let status = if available {
                "passed"
            } else {
                "failed"
            };
            let detail = match client.version {
                Some(version) => version,
                None => match client.error {
                    Some(error) => error,
                    None => "ssh_client_unavailable".to_owned(),
                },
            };
            test.push(new_stage("client", status, detail));
            if !available {
                return test.stop(false);
            }
            if needs_interaction(spec) {
                test.push(
                    new_stage(
                        "authentication",
                        "interactive_required",
                        "ssh_interactive_auth_required".to_owned(),
                    ),
                );
                return test.stop(false);
            }
            if same_text(spec.proxy_type.as_str(), "http") || same_text(
                spec.proxy_type.as_str(),
                "socks5",
            ) {
                test.phase = TestPhase::Proxy;
                return TestAction::ProbeProxy {
                    timeout_sec: timeout_seconds(spec.connect_timeout_sec, 0, 300),
                };
            }
            test.log_in(spec, accept_new_host_key)
        },
        TestEvent::Proxy(outcome) => {
            let mut label = label_of(spec);
            match outcome {
                Ok(()) => {
                    test.push(new_stage("proxy", "passed", label));
                    test.log_in(spec, accept_new_host_key)
                },
                Err(error) => {
                    label.append("\n");
                    label.append(error.as_str());
                    test.push(new_stage("proxy", "failed", label));
                    test.stop(false)
                },
            }
        },
        TestEvent::Login(output) => {
            let success = output.authenticated || output.status_success;
            test.push(login_diagnosis(&output));
            test.stop(success)
        },
    }
}

/// A host whose key changed is never offered for confirmation.
pub proof fn law_changed_host_key_is_refused(output: SshAuthProbeOutput)
    requires
        contains(output.stderr@, "REMOTE HOST IDENTIFICATION HAS CHANGED"@),
    ensures
        login_stage(output).status != "confirmation_required"@,
        !login_succeeded(output) ==> login_stage(output).key == "host_key"@ && login_stage(
            output,
        ).status == "failed"@,
{
    reveal_strlit("failed");
    reveal_strlit("passed");
    reveal_strlit("confirmation_required");
    assert("failed"@.len() == 6);
    assert("passed"@.len() == 6);
    assert("confirmation_required"@.len() == 21);
}

/// A login that did not time out passes its stage exactly where it succeeded.
pub proof fn law_stage_tells_success(output: SshAuthProbeOutput)
    requires
        !output.timed_out,
    ensures
        login_stage(output).status == "passed"@ <==> login_succeeded(output),
{
    reveal_strlit("failed");
    reveal_strlit("passed");
    reveal_strlit("confirmation_required");
    assert("failed"@[0] == 'f');
    assert("passed"@[0] == 'p');
    assert("confirmation_required"@[0] == 'c');
}

/// A test that stops before the login does not succeed.
pub proof fn law_only_a_login_succeeds(
    before: TestState,
    spec: SshConnectionSpec,
    accept_new_host_key: bool,
    event: TestEvent,
    after: TestState,
    action: TestAction,
)
    requires
        test_steps(before, spec, accept_new_host_key, event, after, action),
        !(event is Login),
    ensures
        action matches TestAction::Finish(result) ==> !result.success,
{
}

/// How many steps are left of a test at most.
pub open spec fn test_steps_left(phase: TestPhase) -> int {
    match phase {
        TestPhase::Validation => 4,
        TestPhase::Client => 3,
        TestPhase::Proxy => 2,
        TestPhase::Login => 1,
        TestPhase::Done => 0,
    }
}

/// A test ends: every step leaves less to do, and where nothing is left there is a
/// result, or an error.
pub proof fn law_test_ends(
    before: TestState,
    spec: SshConnectionSpec,
    accept_new_host_key: bool,
    event: TestEvent,
    after: TestState,
    action: TestAction,
)
    requires
        before.expects(event),
        test_steps(before, spec, accept_new_host_key, event, after, action),
    ensures
        test_steps_left(after.phase) < test_steps_left(before.phase),
        after.phase == TestPhase::Done <==> action is Finish || action is Fail,
{
}

/// What was found out before stays in the result: the client, the proxy and the login
/// each add stages and change none.
pub proof fn law_stages_are_only_added(
    before: TestState,
    spec: SshConnectionSpec,
    accept_new_host_key: bool,
    event: TestEvent,
    after: TestState,
    action: TestAction,
)
    requires
        before.expects(event),
        event is Client || event is Proxy || event is Login,
        test_steps(before, spec, accept_new_host_key, event, after, action),
    ensures
        ({
            let earlier = before.stages;
            let later = match action {
                TestAction::Finish(result) => stage_views(result.stages@),
                _ => after.stages,
            };
            earlier.len() < later.len() && later.take(earlier.len() as int) == earlier
        }),
{
    let earlier = before.stages;
    let later = match action {
        TestAction::Finish(result) => stage_views(result.stages@),
        _ => after.stages,
    };
    assert(later.take(earlier.len() as int) =~= earlier);
}

/// Nothing is asked about a host that cannot be reached in a valid way: the test then
/// ends with the error, and only a valid way leads to any question.
pub proof fn law_invalid_host_is_not_asked(
    before: TestState,
    spec: SshConnectionSpec,
    accept_new_host_key: bool,
    event: TestEvent,
    after: TestState,
    action: TestAction,
)
    requires
        before.phase == TestPhase::Validation,
        before.expects(event),
        test_steps(before, spec, accept_new_host_key, event, after, action),
    ensures
        event matches TestEvent::Validated(validated) && match validated {
            Ok(_) => action is AskClient,
            Err(error) => action == TestAction::Fail(error) && after.phase == TestPhase::Done,
        },
{
}

/// Whether someone has to answer a prompt to log in to the host.
pub open spec fn asks_someone(spec: SshConnectionSpec) -> bool {
    spec.auth_mode@ == "password_prompt"@ || spec.auth_mode@ == "interactive"@
}

/// Whether the way to the host leads through an HTTP or a SOCKS 5 proxy.
pub open spec fn goes_through_a_proxy(spec: SshConnectionSpec) -> bool {
    spec.proxy_type@ == "http"@ || spec.proxy_type@ == "socks5"@
}

/// Whether `action` tries a login that does nothing and tells how it goes, with the
/// user's choice about new host keys and five seconds more than connecting may take.
pub open spec fn tries_login(
    action: TestAction,
    spec: SshConnectionSpec,
    accept_new_host_key: bool,
) -> bool {
    action matches TestAction::ProbeLogin { request, timeout_sec } && {
        &&& request.command@ == "true"@
        &&& request.verbose
        &&& request.accept_new_host_key == accept_new_host_key
        &&& spec.connect_timeout_sec <= 300 ==> timeout_sec == spec.connect_timeout_sec + 5
        &&& spec.connect_timeout_sec > 300 ==> timeout_sec == 305
    }
}

/// Once the client is there, a host that asks nobody is tested on: its proxy is asked
/// first exactly where there is one, and else the login is tried. What the client told is
/// kept as the first stage.
pub proof fn law_proxy_is_asked_before_the_login(
    test: &mut ConnectionTest,
    spec: &SshConnectionSpec,
    accept_new_host_key: bool,
    client: SshClientStatus,
    action: TestAction,
)
    requires
        call_ensures(
            ssh_test_connection,
            (test, spec, accept_new_host_key, TestEvent::Client(client)),
            action,
        ),
        client.available,
        !asks_someone(*spec),
    ensures
        goes_through_a_proxy(*spec) ==> final(test)@.phase == TestPhase::Proxy && (action
            matches TestAction::ProbeProxy { timeout_sec } && timeout_sec
            == if spec.connect_timeout_sec <= 300 {
            spec.connect_timeout_sec
        } else {
            300
        }),
        !goes_through_a_proxy(*spec) ==> final(test)@.phase == TestPhase::Login && tries_login(
            action,
            *spec,
            accept_new_host_key,
        ),
        final(test)@.stages.len() == old(test)@.stages.len() + 1,
        final(test)@.stages.drop_last() == old(test)@.stages,
        final(test)@.stages.last().key == "client"@,
        final(test)@.stages.last().status == "passed"@,
        client.version matches Some(version) ==> final(test)@.stages.last().detail == version@,
        client.version is None ==> final(test)@.stages.last().detail == match client.error {
            Some(error) => error@,
            None => "ssh_client_unavailable"@,
        },
{
    assert(final(test)@.stages.drop_last() =~= old(test)@.stages);
}

/// Without a client the test is over, and says so in its only new stage; a host that asks
/// someone is not tested further either, and that is said in a second one.
pub proof fn law_test_stops_without_a_client_or_at_a_prompt(
    test: &mut ConnectionTest,
    spec: &SshConnectionSpec,
    accept_new_host_key: bool,
    client: SshClientStatus,
    action: TestAction,
)
    requires
        call_ensures(
            ssh_test_connection,
            (test, spec, accept_new_host_key, TestEvent::Client(client)),
            action,
        ),
        !client.available || asks_someone(*spec),
    ensures
        final(test)@.phase == TestPhase::Done,
        action matches TestAction::Finish(result) && {
            let added = stage_views(result.stages@).skip(old(test)@.stages.len() as int);
            &&& !result.success
            &&& stage_views(result.stages@).take(old(test)@.stages.len() as int) == old(test)@.stages
            &&& added[0].key == "client"@
            &&& client.version matches Some(version) ==> added[0].detail == version@
            &&& client.version is None ==> (client.error matches Some(error) ==> added[0].detail
                == error@)
            &&& client.version is None && client.error is None ==> added[0].detail
                == "ssh_client_unavailable"@
            &&& !client.available ==> added.len() == 1 && added[0].status == "failed"@
            &&& client.available ==> {
                &&& added.len() == 2
                &&& added[0].status == "passed"@
                &&& added[1].key == "authentication"@
                &&& added[1].status == "interactive_required"@
                &&& added[1].detail == "ssh_interactive_auth_required"@
            }
        },
{
    if action is Finish {
        let earlier = old(test)@.stages;
        let all = stage_views(action->Finish_0.stages@);
        assert(all.take(earlier.len() as int) =~= earlier);
        assert(all.skip(earlier.len() as int)[0] == all[earlier.len() as int]);
    }
}

/// The answer of the proxy is kept as a stage that names the proxy and the host. A proxy
/// that answers leads to the login; one that does not ends the test, with its error.
pub proof fn law_proxy_answer_is_kept(
    test: &mut ConnectionTest,
    spec: &SshConnectionSpec,
    accept_new_host_key: bool,
    outcome: Result<(), String>,
    action: TestAction,
)
    requires
        call_ensures(
            ssh_test_connection,
            (test, spec, accept_new_host_key, TestEvent::Proxy(outcome)),
            action,
        ),
    ensures
        ({
            let label = spec.proxy_type@ + "://"@ + spec.proxy_host@ + ":"@ + decimal(
                spec.proxy_port as nat,
            ) + " → "@ + spec.host@ + ":"@ + decimal(spec.port as nat);
            match outcome {
                Ok(_) => {
                    &&& final(test)@.phase == TestPhase::Login
                    &&& tries_login(action, *spec, accept_new_host_key)
                    &&& final(test)@.stages == old(test)@.stages.push(
                        (Stage { key: "proxy"@, status: "passed"@, detail: label }),
                    )
                },
                Err(error) => {
                    &&& final(test)@.phase == TestPhase::Done
                    &&& action matches TestAction::Finish(result) && !result.success && stage_views(
                        result.stages@,
                    ) == old(test)@.stages.push(
                        (Stage {
                            key: "proxy"@,
                            status: "failed"@,
                            detail: label + "\n"@ + error@,
                        }),
                    )
                },
            }
        }),
{
}

/// A login ends the test: its diagnosis is the last stage, and the test succeeds exactly
/// where the client told of the login or ended well.
pub proof fn law_login_ends_the_test(
    test: &mut ConnectionTest,
    spec: &SshConnectionSpec,
    accept_new_host_key: bool,
    output: SshAuthProbeOutput,
    stage: SshDiagnosticStage,
    action: TestAction,
)
    requires
        call_ensures(
            ssh_test_connection,
            (test, spec, accept_new_host_key, TestEvent::Login(output)),
            action,
        ),
        call_ensures(login_diagnosis, (&output,), stage),
    ensures
        final(test)@.phase == TestPhase::Done,
        action matches TestAction::Finish(result) && {
            &&& result.success <==> output.authenticated || output.status_success
            &&& stage_views(result.stages@) == old(test)@.stages.push(stage@)
        },
{
}

/// What a login is diagnosed as. One that succeeded in time passed. Where it failed, a
/// host key that changed counts first, then one that is not known, then the time, then
/// what the client printed, and at last how it ended.
pub proof fn law_login_diagnosis(output: SshAuthProbeOutput, stage: SshDiagnosticStage)
    requires
        call_ensures(login_diagnosis, (&output,), stage),
    ensures
        ({
            let stderr = output.stderr@;
            let success = output.authenticated || output.status_success;
            let changed = exists|i: int|
                0 <= i && i + "REMOTE HOST IDENTIFICATION HAS CHANGED"@.len() <= stderr.len()
                    && #[trigger] stderr.subrange(
                    i,
                    i + "REMOTE HOST IDENTIFICATION HAS CHANGED"@.len(),
                ) == "REMOTE HOST IDENTIFICATION HAS CHANGED"@;
            let unknown = exists|i: int|
                0 <= i && i + "Host key verification failed"@.len() <= stderr.len()
                    && #[trigger] stderr.subrange(i, i + "Host key verification failed"@.len())
                    == "Host key verification failed"@;
            &&& success && !output.timed_out ==> stage.key@ == "connection"@ && stage.status@
                == "passed"@ && stage.detail@ == "ssh_connection_ready"@
            &&& success && output.timed_out ==> stage.key@ == "authentication"@ && stage.status@
                == "failed"@ && stage.detail@ == "ssh_authentication_timeout\n"@ + stderr
            &&& !success && changed ==> stage.key@ == "host_key"@ && stage.status@ == "failed"@
                && stage.detail@ == "ssh_host_key_changed\n"@ + stderr
            &&& !success && !changed && unknown ==> stage.key@ == "host_key"@ && stage.status@
                == "confirmation_required"@ && stage.detail@
                == "ssh_host_key_confirmation_required\n"@ + (match host_key_in(stderr) {
                Some(fingerprint) => fingerprint,
                None => Seq::empty(),
            }) + "\n"@ + stderr
            &&& !success && !changed && !unknown && output.timed_out ==> stage.key@
                == "authentication"@ && stage.status@ == "failed"@ && stage.detail@
                == "ssh_authentication_timeout\n"@ + stderr
            &&& !success && !changed && !unknown && !output.timed_out ==> {
                &&& stage.key@ == "connection"@
                &&& stage.status@ == "failed"@
                &&& stderr.len() > 0 ==> stage.detail@ == stderr
                &&& stderr.len() == 0 && output.status_code is None ==> stage.detail@
                    == "ssh_exit_status_"@ + seq!['-', '1']
                &&& stderr.len() == 0 ==> (output.status_code matches Some(code) ==> stage.detail@
                    == "ssh_exit_status_"@ + if code < 0 {
                    seq!['-'] + decimal((-code) as nat)
                } else {
                    decimal(code as nat)
                })
            }
        }),
{
    assert(signed_decimal(-1) =~= seq!['-', '1']) by {
        assert(decimal(1) =~= seq!['1']);
    }
}

/// A question that cannot be put ends the test with the reason, and so does a way to the
/// host that is not valid; a valid one leads to the question for the client.
pub proof fn law_test_fails_for_the_reason_given(
    test: &mut ConnectionTest,
    spec: &SshConnectionSpec,
    accept_new_host_key: bool,
    event: TestEvent,
    action: TestAction,
)
    requires
        call_ensures(ssh_test_connection, (test, spec, accept_new_host_key, event), action),
        event is Validated || event is Unavailable,
    ensures
        final(test)@.stages == old(test)@.stages,
        event matches TestEvent::Validated(Ok(_)) ==> final(test)@.phase == TestPhase::Client
            && action is AskClient,
        event matches TestEvent::Validated(Err(error)) ==> final(test)@.phase == TestPhase::Done
            && action == TestAction::Fail(error),
        event matches TestEvent::Unavailable(error) ==> final(test)@.phase == TestPhase::Done
            && action == TestAction::Fail(error),
{
}

/// A step of a test.
pub struct TestStep {
    pub before: TestState,
    pub event: TestEvent,
    pub after: TestState,
    pub action: TestAction,
}

/// Whether `steps` are the steps of a test of the host from its beginning.
pub open spec fn is_test(
    steps: Seq<TestStep>,
    spec: SshConnectionSpec,
    accept_new_host_key: bool,
) -> bool
    decreases steps.len(),
{
    steps.len() > 0 && {
        let last = steps.last();
        &&& if steps.len() == 1 {
            last.before == (TestState { phase: TestPhase::Validation, stages: Seq::empty() })
        } else {
            is_test(steps.drop_last(), spec, accept_new_host_key) && last.before
                == steps.drop_last().last().after
        }
        &&& last.before.expects(last.event)
        &&& test_steps(
            last.before,
            spec,
            accept_new_host_key,
            last.event,
            last.after,
            last.action,
        )
    }
}

/// Whether the first stages of a test of this host are as they should be once the client
/// was found: the client, and the proxy where there is one.
pub open spec fn begins_well(stages: Seq<Stage>, spec: SshConnectionSpec) -> bool {
    &&& !asks_someone(spec)
    &&& stages.len() == if goes_through_a_proxy(spec) {
        2int
    } else {
        1
    }
    &&& stages[0].key == "client"@
    &&& stages[0].status == "passed"@
    &&& goes_through_a_proxy(spec) ==> stages[1].key == "proxy"@ && stages[1].status == "passed"@
}

proof fn lemma_test_states(
    steps: Seq<TestStep>,
    spec: SshConnectionSpec,
    accept_new_host_key: bool,
)
    requires
        is_test(steps, spec, accept_new_host_key),
    ensures
        ({
            let state = steps.last().after;
            match state.phase {
                TestPhase::Validation => false,
                TestPhase::Client => state.stages.len() == 0,
                TestPhase::Proxy => {
                    &&& !asks_someone(spec)
                    &&& goes_through_a_proxy(spec)
                    &&& state.stages.len() == 1
                    &&& state.stages[0].key == "client"@
                    &&& state.stages[0].status == "passed"@
                },
                TestPhase::Login => begins_well(state.stages, spec),
                TestPhase::Done => true,
            }
        }),
    decreases steps.len(),
{
    if steps.len() > 1 {
        lemma_test_states(steps.drop_last(), spec, accept_new_host_key);
    }
}

/// A whole test of a host, step by step. Its result begins with the client. Where the
/// client is there and nobody has to answer a prompt, the stage of the proxy comes next
/// exactly where there is a proxy; and a test that got past the proxy ends with the login.
/// Only then can it succeed.
pub proof fn law_finished_test_has_its_stages(
    steps: Seq<TestStep>,
    spec: SshConnectionSpec,
    accept_new_host_key: bool,
    result: SshConnectionTestResult,
)
    requires
        is_test(steps, spec, accept_new_host_key),
        steps.last().action == TestAction::Finish(result),
    ensures
        ({
            let stages = stage_views(result.stages@);
            &&& stages.len() > 0
            &&& stages[0].key == "client"@
            &&& stages[0].status == "passed"@ && !asks_someone(spec) ==> {
                &&& stages.len() >= 2
                &&& stages[1].key == "proxy"@ <==> goes_through_a_proxy(spec)
                &&& stages.len() == if goes_through_a_proxy(spec) && stages[1].status
                    == "passed"@ {
                    3int
                } else {
                    2
                }
            }
            &&& result.success ==> stages[0].status == "passed"@ && !asks_someone(spec)
            &&& result.success && goes_through_a_proxy(spec) ==> stages[1].status == "passed"@
                && stages.len() == 3
        }),
{
    reveal_strlit("failed");
    reveal_strlit("passed");
    reveal_strlit("proxy");
    reveal_strlit("host_key");
    reveal_strlit("authentication");
    reveal_strlit("connection");
    assert("failed"@[0] == 'f');
    assert("passed"@[0] == 'p');
    assert("proxy"@.len() == 5);
    assert("host_key"@.len() == 8);
    assert("authentication"@.len() == 14);
    assert("connection"@.len() == 10);
    let last = steps.last();
    if steps.len() > 1 {
        lemma_test_states(steps.drop_last(), spec, accept_new_host_key);
    }
}

/// Whether there is a client, and its version: the first line that it printed as an error,
/// or else as output. A client that could not be asked is not there.
pub proof fn law_client_tells_its_version(
    outcome: Result<CommandOutput, String>,
    status: SshClientStatus,
)
    requires
        call_ensures(ssh_client_status, (outcome,), status),
    ensures
        match outcome {
            Ok(output) => {
                let from_errors = first_nonblank_line(utf8_lossy(output.stderr@));
                let from_output = first_nonblank_line(utf8_lossy(output.stdout@));
                &&& from_errors.len() > 0 ==> status.available && (status.version
                    matches Some(version) && version@ == from_errors)
                &&& from_errors.len() == 0 && from_output.len() > 0 ==> status.available && (
                status.version matches Some(version) && version@ == from_output)
                &&& from_errors.len() == 0 && from_output.len() == 0 ==> status.version is None
                    && status.available == output.success
                &&& status.error is None
            },
            Err(error) => !status.available && status.version is None && status.error == Some(
                error,
            ),
        },
{
}

/// A test begins by looking whether the way to the host is valid, without any stages.
pub proof fn law_test_begins_with_the_validation(test: ConnectionTest)
    requires
        call_ensures(ConnectionTest::new, (), test),
    ensures
        test@.phase == TestPhase::Validation,
        test@.stages.len() == 0,
{
}

} // verus!
