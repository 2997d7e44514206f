//! What the client prints while it logs in.

use super::connect::ExitStatus;
use crate::encoding::{lossy_text, utf8_lossy};
use crate::text::{
    after_line, chars_of, contains, contains_text, find, find_chars, first_line,
    lemma_after_line_shorter, lemma_position_bounds, position, slice, split_line, string_of, trim,
    trim_chars, trim_text,
};
use vstd::prelude::*;
use vstd::string::StringExecFns;

verus! {

/// How many lines are kept at most.
pub const MAX_LOG_LINES: usize = 256;

/// How long to pause before the client is looked at again, in milliseconds.
pub const AUTH_PROBE_PAUSE_MS: u64 = 30;

/// How long to wait for the last lines of a client that ended, in milliseconds.
pub const AUTH_PROBE_DRAIN_MS: u64 = 100;

/// How a login went.
#[derive(Debug)]
pub struct SshAuthProbeOutput {
    pub authenticated: bool,
    pub timed_out: bool,
    pub status_success: bool,
    pub status_code: Option<i32>,
    pub stderr: String,
}

/// The first line of `s` that is not blank, without the white space around it; empty
/// where there is none.
pub open spec fn first_nonblank_line(s: Seq<char>) -> Seq<char>
    decreases s.len(),
{
    if s.len() == 0 {
        Seq::empty()
    } else if trim(first_line(s)).len() > 0 {
        trim(first_line(s))
    } else if after_line(s).len() < s.len() {
        first_nonblank_line(after_line(s))
    } else {
        Seq::empty()
    }
}

/// What a line says of the key of the server: what follows the first
/// `Server host key:` in it.
pub open spec fn host_key_in_line(line: Seq<char>) -> Option<Seq<char>> {
    match find(line, "Server host key:"@) {
        Some(i) => {
            let value = trim(line.skip(i + "Server host key:"@.len()));
            if value.len() > 0 {
                Some(value)
            } else {
                None
            }
        },
        None => None,
    }
}

/// What the first line that says something of the key of the server says of it.
pub open spec fn host_key_in(s: Seq<char>) -> Option<Seq<char>>
    decreases s.len(),
{
    if s.len() == 0 {
        None
    } else if host_key_in_line(first_line(s)) is Some {
        host_key_in_line(first_line(s))
    } else if after_line(s).len() < s.len() {
        host_key_in(after_line(s))
    } else {
        None
    }
}

/// Whether a line tells that the login succeeded.
pub open spec fn tells_authenticated(line: Seq<char>) -> bool {
    contains(line, "Authenticated to "@)
}

/// Whether some line of `s` tells that the login succeeded.
pub open spec fn some_line_tells_authenticated(s: Seq<char>) -> bool
    decreases s.len(),
{
    if s.len() == 0 {
        false
    } else {
        tells_authenticated(first_line(s)) || (after_line(s).len() < s.len()
            && some_line_tells_authenticated(after_line(s)))
    }
}

/// The first line that is not blank, without the white space around it; empty where
/// there is none.
pub fn single_line(bytes: &[u8]) -> (line: String)
    ensures
        line@ == first_nonblank_line(utf8_lossy(bytes@)),
        vstd::utf8::valid_utf8(bytes@) ==> line@ == first_nonblank_line(
            vstd::utf8::decode_utf8(bytes@),
        ),
{
    let text = lossy_text(bytes);
    first_line_of(text.as_str())
}

/// The first line of `text` that is not blank, without the white space around it; empty
/// where there is none.
pub fn first_line_of(text: &str) -> (line: String)
    ensures
        line@ == first_nonblank_line(text@),
{
    let chars = chars_of(text);
    let mut rest = chars.as_slice();
    while rest.len() > 0
        invariant
            first_nonblank_line(text@) == first_nonblank_line(rest@),
        decreases rest@.len(),
    {
        let (line, after) = split_line(rest);
        let trimmed = trim_chars(line);
        if trimmed.len() > 0 {
            return string_of(trimmed);
        }
        proof {
            lemma_after_line_shorter(rest@);
        }
        rest = after;
    }
    String::new()
}

/// What the client says of the key of the server.
pub fn host_key_fingerprint(stderr: &str) -> (fingerprint: Option<String>)
    ensures
        match host_key_in(stderr@) {
            Some(value) => fingerprint matches Some(f) && f@ == value,
            None => fingerprint is None,
        },
{
    let chars = chars_of(stderr);
    let marker = chars_of("Server host key:");
    let mut rest = chars.as_slice();
    while rest.len() > 0
        invariant
            marker@ == "Server host key:"@,
            host_key_in(stderr@) == host_key_in(rest@),
        decreases rest@.len(),
    {
        let (line, after) = split_line(rest);
        if let Some(i) = find_chars(line, marker.as_slice()) {
            let end = line.len();
            let tail = slice(line, i + marker.len(), end);
            assert(tail@ =~= line@.skip(i + marker@.len()));
            let value = trim_chars(tail);
            if value.len() > 0 {
                return Some(string_of(value));
            }
        }
        proof {
            lemma_after_line_shorter(rest@);
        }
        rest = after;
    }
    None
}

/// Whether a line tells that the login succeeded.
pub fn is_authenticated_log(line: &str) -> (r: bool)
    ensures
        r == tells_authenticated(line@),
{
    contains_text(line, "Authenticated to ")
}

fn is_authenticated_text(text: &str) -> (r: bool)
    ensures
        r == some_line_tells_authenticated(text@),
{
    let chars = chars_of(text);
    let mut rest = chars.as_slice();
    while rest.len() > 0
        invariant
            some_line_tells_authenticated(text@) == some_line_tells_authenticated(rest@),
        decreases rest@.len(),
    {
        let (line, after) = split_line(rest);
        let line = string_of(line);
        proof {
            lemma_after_line_shorter(rest@);
        }
        if is_authenticated_log(line.as_str()) {
            return true;
        }
        rest = after;
    }
    false
}

/// The lines that the client printed, up to a limit.
#[derive(Debug)]
pub struct AuthProbeLog {
    lines: Vec<String>,
}

impl View for AuthProbeLog {
    type V = Seq<Seq<char>>;

    closed spec fn view(&self) -> Seq<Seq<char>> {
        self.lines@.map_values(|line: String| line@)
    }
}

/// The lines with a line feed between them.
pub open spec fn joined_lines(lines: Seq<Seq<char>>) -> Seq<char>
    decreases lines.len(),
{
    if lines.len() == 0 {
        Seq::empty()
    } else if lines.len() == 1 {
        lines[0]
    } else {
        joined_lines(lines.drop_last()) + "\n"@ + lines.last()
    }
}

/// The lines that are kept once `line` was printed: it is kept where it is not blank and
/// there is room for it.
pub open spec fn with_line(lines: Seq<Seq<char>>, line: Seq<char>) -> Seq<Seq<char>> {
    if trim(line).len() > 0 && lines.len() < MAX_LOG_LINES {
        lines.push(trim(line))
    } else {
        lines
    }
}

impl AuthProbeLog {
    /// Whether no more lines are kept than may be.
    pub open spec fn wf(self) -> bool {
        self@.len() <= MAX_LOG_LINES
    }

    /// A log without lines.
    pub fn new() -> (log: Self)
        ensures
            log.wf(),
            log@ == Seq::<Seq<char>>::empty(),
    {
        let log = AuthProbeLog { lines: Vec::new() };
        assert(log@ =~= Seq::<Seq<char>>::empty());
        log
    }

    /// Takes up a line, and tells whether it says that the login succeeded. Blank lines
    /// say nothing and are not kept; neither are lines past the limit, which still count.
    pub fn record(&mut self, line: &str) -> (authenticated: bool)
        requires
            old(self).wf(),
        ensures
            final(self).wf(),
            authenticated == line_signals(line@),
            final(self)@ == with_line(old(self)@, line@),
    {
        let trimmed = trim_text(line);
        if trimmed.is_empty() {
            return false;
        }
        let authenticated = is_authenticated_log(trimmed);
        if self.lines.len() < MAX_LOG_LINES {
            self.lines.push(trimmed.to_owned());
            assert(self@ =~= old(self)@.push(trim(line@)));
        }
        authenticated
    }

    /// The lines with a line feed between them.
    pub fn text(&self) -> (text: String)
        ensures
            text@ == joined_lines(self@),
    {
        let mut text = String::new();
        for i in 0..self.lines.len()
            invariant
                text@ == joined_lines(self@.take(i as int)),
        {
            if i > 0 {
                text.append("\n");
            }
            text.append(self.lines[i].as_str());
            let ghost next = self@.take(i + 1);
            assert(next.drop_last() =~= self@.take(i as int));
            assert(next.last() == self.lines@[i as int]@);
            assert(text@ =~= joined_lines(next));
        }
        assert(self@.take(self.lines@.len() as int) =~= self@);
        text
    }
}

/// What a probe waits for.
#[derive(Debug, Clone, Copy, PartialEq, Eq, Structural)]
pub enum AuthProbePhase {
    /// The time to look at the client again.
    Pausing,
    /// Whether, and how, the client ended.
    CheckingExit,
    /// Whether the time is over.
    CheckingDeadline,
    /// Nothing.
    Finished,
}

/// A client that is watched while it logs in: what it printed, and whether a line said
/// that the login succeeded.
#[derive(Debug)]
pub struct AuthProbe {
    log: AuthProbeLog,
    signalled: bool,
    phase: AuthProbePhase,
}

/// Such a client as a value.
#[verifier::ext_equal]
pub struct AuthProbeState {
    pub lines: Seq<Seq<char>>,
    pub signalled: bool,
    pub phase: AuthProbePhase,
}

impl View for AuthProbe {
    type V = AuthProbeState;

    closed spec fn view(&self) -> AuthProbeState {
        AuthProbeState { lines: self.log@, signalled: self.signalled, phase: self.phase }
    }
}

/// What was found out about a client that logs in.
#[derive(Debug)]
pub enum AuthProbeEvent {
    /// It printed a line.
    Line(String),
    /// It is time to look at it.
    Look,
    /// Whether, and how, it ended.
    Exit(Option<ExitStatus>),
    /// It could not be found out whether it ended.
    ExitUnknown(String),
    /// Whether the time is over.
    Deadline(bool),
}

/// How a probe ends.
#[derive(Debug, Clone, Copy, PartialEq, Eq, Structural)]
pub enum AuthProbeEnd {
    /// The login succeeded.
    Authenticated,
    /// The client ended.
    Exited(ExitStatus),
    /// It took too long.
    TimedOut,
}

/// What to do next about a client that logs in.
#[derive(Debug)]
pub enum AuthProbeStep {
    /// Go on with what was to be done before.
    Continue,
    /// Find out whether the client ended.
    CheckExit,
    /// Find out whether the time is over.
    CheckDeadline,
    /// Look at it again after a pause.
    Pause,
    /// Stop, with this end. `kill` tells whether the client is to be ended first.
    Finish { end: AuthProbeEnd, kill: bool },
    /// Stop, for this reason.
    Fail(String),
}

/// Whether a line says that the login succeeded, past the white space around it.
pub open spec fn line_signals(line: Seq<char>) -> bool {
    trim(line).len() > 0 && tells_authenticated(trim(line))
}

/// Whether the probe `before` turns into `after` and asks for `step` when `event`
/// happens. A login that succeeded counts before the end of the client, and that before
/// the end of the time.
pub open spec fn auth_steps(
    before: AuthProbeState,
    event: AuthProbeEvent,
    after: AuthProbeState,
    step: AuthProbeStep,
) -> bool {
    match event {
        AuthProbeEvent::Line(line) => {
            &&& after.phase == before.phase
            &&& after.signalled == (before.signalled || line_signals(line@))
            &&& after.lines == with_line(before.lines, line@)
            &&& step is Continue
        },
        _ => {
            &&& after.lines == before.lines
            &&& after.signalled == before.signalled
            &&& match event {
                AuthProbeEvent::Look => if before.signalled {
                    after.phase == AuthProbePhase::Finished && step == (AuthProbeStep::Finish {
                        end: AuthProbeEnd::Authenticated,
                        kill: true,
                    })
                } else {
                    after.phase == AuthProbePhase::CheckingExit && step is CheckExit
                },
                AuthProbeEvent::Exit(Some(status)) => after.phase == AuthProbePhase::Finished
                    && step == (AuthProbeStep::Finish {
                    end: AuthProbeEnd::Exited(status),
                    kill: false,
                }),
                AuthProbeEvent::Exit(None) => after.phase == AuthProbePhase::CheckingDeadline
                    && step is CheckDeadline,
                AuthProbeEvent::ExitUnknown(error) => after.phase == AuthProbePhase::Finished
                    && step == AuthProbeStep::Fail(error),
                AuthProbeEvent::Deadline(true) => after.phase == AuthProbePhase::Finished && step
                    == (AuthProbeStep::Finish { end: AuthProbeEnd::TimedOut, kill: true }),
                _ => after.phase == AuthProbePhase::Pausing && step is Pause,
            }
        },
    }
}

impl AuthProbeState {
    /// Whether no more lines are kept than may be.
    pub open spec fn wf(self) -> bool {
        self.lines.len() <= MAX_LOG_LINES
    }

    /// Whether `event` can happen now. Lines can come at any time.
    pub open spec fn expects(self, event: AuthProbeEvent) -> bool {
        match event {
            AuthProbeEvent::Line(_) => true,
            AuthProbeEvent::Look => self.phase == AuthProbePhase::Pausing,
            AuthProbeEvent::Exit(_) | AuthProbeEvent::ExitUnknown(_) => self.phase
                == AuthProbePhase::CheckingExit,
            AuthProbeEvent::Deadline(_) => self.phase == AuthProbePhase::CheckingDeadline,
        }
    }
}

impl AuthProbe {
    /// A client that printed nothing yet and is to be looked at.
    pub fn new() -> (probe: Self)
        ensures
            probe@ == (AuthProbeState {
                lines: Seq::empty(),
                signalled: false,
                phase: AuthProbePhase::Pausing,
            }),
    {
        AuthProbe {
            log: AuthProbeLog::new(),
            signalled: false,
            phase: AuthProbePhase::Pausing,
        }
    }

    /// What the client printed.
    pub fn log(&self) -> (log: &AuthProbeLog)
        ensures
            log@ == self@.lines,
    {
        &self.log
    }
}

/// One step of watching a client that logs in: takes up what was found out and says what
/// to do next.
pub fn run_ssh_auth_probe(probe: &mut AuthProbe, event: AuthProbeEvent) -> (step: AuthProbeStep)
    requires
        old(probe)@.wf(),
        old(probe)@.expects(event),
    ensures
        final(probe)@.wf(),
        auth_steps(old(probe)@, event, final(probe)@, step),
{
    match event {
        AuthProbeEvent::Line(line) => {
            if probe.log.record(line.as_str()) {
                probe.signalled = true;
            }
            AuthProbeStep::Continue
        },
        AuthProbeEvent::Look => {
            if probe.signalled {
                probe.phase = AuthProbePhase::Finished;
                AuthProbeStep::Finish { end: AuthProbeEnd::Authenticated, kill: true }
            } else {
                probe.phase = AuthProbePhase::CheckingExit;
                AuthProbeStep::CheckExit
            }
        },
        AuthProbeEvent::Exit(Some(status)) => {
            probe.phase = AuthProbePhase::Finished;
            AuthProbeStep::Finish { end: AuthProbeEnd::Exited(status), kill: false }
        },
        AuthProbeEvent::Exit(None) => {
            probe.phase = AuthProbePhase::CheckingDeadline;
            AuthProbeStep::CheckDeadline
        },
        AuthProbeEvent::ExitUnknown(error) => {
            probe.phase = AuthProbePhase::Finished;
            AuthProbeStep::Fail(error)
        },
        AuthProbeEvent::Deadline(passed) => {
            if passed {
                probe.phase = AuthProbePhase::Finished;
                AuthProbeStep::Finish { end: AuthProbeEnd::TimedOut, kill: true }
            } else {
                probe.phase = AuthProbePhase::Pausing;
                AuthProbeStep::Pause
            }
        },
    }
}

/// How the login went, by how the probe ended and what the client printed.
pub fn auth_probe_output(end: AuthProbeEnd, log: &AuthProbeLog) -> (output: SshAuthProbeOutput)
    ensures
        output.stderr@ == joined_lines(log@),
        match end {
            AuthProbeEnd::Authenticated => output.authenticated && !output.timed_out
                && output.status_success && output.status_code == Some(0i32),
            AuthProbeEnd::Exited(status) => output.authenticated == some_line_tells_authenticated(
                joined_lines(log@),
            ) && !output.timed_out && output.status_success == status.success && output.status_code
                == status.code,
            AuthProbeEnd::TimedOut => !output.authenticated && output.timed_out
                && !output.status_success && output.status_code is None,
        },
{
    let stderr = log.text();
    match end {
        AuthProbeEnd::Authenticated => SshAuthProbeOutput {
            authenticated: true,
            timed_out: false,
            status_success: true,
            status_code: Some(0),
            stderr,
        },
        AuthProbeEnd::Exited(status) => {
            let authenticated = is_authenticated_text(stderr.as_str());
            SshAuthProbeOutput {
                authenticated,
                timed_out: false,
                status_success: status.success,
                status_code: status.code,
                stderr,
            }
        },
        AuthProbeEnd::TimedOut => SshAuthProbeOutput {
            authenticated: false,
            timed_out: true,
            status_success: false,
            status_code: None,
            stderr,
        },
    }
}

proof fn lemma_contains_by(s: Seq<char>, pattern: Seq<char>, i: int)
    requires
        0 <= i,
        i + pattern.len() <= s.len(),
        forall|j: int| 0 <= j < pattern.len() ==> s[i + j] == pattern[j],
    ensures
        contains(s, pattern),
{
    assert(s.subrange(i, i + pattern.len()) =~= pattern);
}

proof fn lemma_some_line_has_it(s: Seq<char>)
    requires
        contains(s, "Authenticated to "@),
    ensures
        some_line_tells_authenticated(s),
    decreases s.len(),
{
    reveal_strlit("Authenticated to ");
    let marker = "Authenticated to "@;
    let n = marker.len();
    let i = choose|i: int|
        0 <= i && i + n <= s.len() && #[trigger] s.subrange(i, i + n) == marker;
    assert forall|j: int| 0 <= j < n implies s[i + j] == marker[j] by {
        assert(s.subrange(i, i + n)[j] == s[i + j]);
    }
    lemma_position_bounds(s, '\n');
    lemma_after_line_shorter(s);
    match position(s, '\n') {
        None => {
            assert(first_line(s) == s);
        },
        Some(p) => {
            if i + n <= p {
                assert(s[i + n - 1] == marker[n - 1]);
                assert(marker[n - 1] == ' ');
                assert(i + n <= first_line(s).len());
                lemma_contains_by(first_line(s), marker, i);
            } else {
                if i <= p {
                    assert(s[i + (p - i)] == marker[p - i]);
                }
                let rest = after_line(s);
                assert forall|j: int| 0 <= j < n implies rest[i - p - 1 + j] == marker[j] by {
                    assert(rest[i - p - 1 + j] == s[i + j]);
                }
                lemma_contains_by(rest, marker, i - p - 1);
                lemma_some_line_has_it(rest);
            }
        },
    }
}

proof fn lemma_joined_lines_contain(lines: Seq<Seq<char>>, k: int, pattern: Seq<char>)
    requires
        0 <= k < lines.len(),
        contains(lines[k], pattern),
    ensures
        contains(joined_lines(lines), pattern),
    decreases lines.len(),
{
    if lines.len() > 1 {
        let front = joined_lines(lines.drop_last()) + "\n"@;
        let last = lines.last();
        let all = front + last;
        let n = pattern.len();
        if k == lines.len() - 1 {
            let i = choose|i: int|
                0 <= i && i + n <= last.len() && #[trigger] last.subrange(i, i + n) == pattern;
            assert forall|j: int| 0 <= j < n implies all[front.len() + i + j] == pattern[j] by {
                assert(last.subrange(i, i + n)[j] == last[i + j]);
            }
            lemma_contains_by(all, pattern, front.len() + i);
        } else {
            lemma_joined_lines_contain(lines.drop_last(), k, pattern);
            let before = joined_lines(lines.drop_last());
            let i = choose|i: int|
                0 <= i && i + n <= before.len() && #[trigger] before.subrange(i, i + n) == pattern;
            assert forall|j: int| 0 <= j < n implies all[i + j] == pattern[j] by {
                assert(before.subrange(i, i + n)[j] == before[i + j]);
            }
            lemma_contains_by(all, pattern, i);
        }
    }
}

/// A login that a kept line told of is found again in the log when the client ends by
/// itself, even where nothing signalled it before.
pub proof fn law_kept_login_is_found(lines: Seq<Seq<char>>, k: int)
    requires
        0 <= k < lines.len(),
        tells_authenticated(lines[k]),
    ensures
        some_line_tells_authenticated(joined_lines(lines)),
{
    lemma_joined_lines_contain(lines, k, "Authenticated to "@);
    lemma_some_line_has_it(joined_lines(lines));
}

/// A line that tells of the login decides the next look at the client: the probe ends
/// with the login, and the client is ended, whatever else is true of it by then.
pub proof fn law_login_decides_the_next_look(
    before: AuthProbeState,
    line: String,
    told: AuthProbeState,
    first: AuthProbeStep,
    after: AuthProbeState,
    step: AuthProbeStep,
)
    requires
        before.phase == AuthProbePhase::Pausing,
        line_signals(line@),
        auth_steps(before, AuthProbeEvent::Line(line), told, first),
        auth_steps(told, AuthProbeEvent::Look, after, step),
    ensures
        step == (AuthProbeStep::Finish { end: AuthProbeEnd::Authenticated, kill: true }),
{
}

/// Where a probe comes to an end, the client is to be ended exactly where it did not end
/// by itself.
pub proof fn law_client_is_ended(
    before: AuthProbeState,
    event: AuthProbeEvent,
    after: AuthProbeState,
    step: AuthProbeStep,
)
    requires
        before.expects(event),
        auth_steps(before, event, after, step),
    ensures
        step matches AuthProbeStep::Finish { end, kill } ==> kill == !(end is Exited),
{
}

/// Whether `pattern` stands in `s`.
pub open spec fn stands_in(pattern: Seq<char>, s: Seq<char>) -> bool {
    exists|i: int|
        0 <= i <= s.len() - pattern.len() && #[trigger] s.subrange(i, i + pattern.len()) == pattern
}

proof fn lemma_stands_in(pattern: Seq<char>, s: Seq<char>)
    ensures
        stands_in(pattern, s) <==> contains(s, pattern),
{
    if contains(s, pattern) {
        let i = choose|i: int|
            0 <= i && i + pattern.len() <= s.len() && #[trigger] s.subrange(i, i + pattern.len())
                == pattern;
        assert(s.subrange(i, i + pattern.len()) == pattern);
    }
    if stands_in(pattern, s) {
        let i = choose|i: int|
            0 <= i <= s.len() - pattern.len() && #[trigger] s.subrange(i, i + pattern.len())
                == pattern;
        assert(s.subrange(i, i + pattern.len()) == pattern);
    }
}

proof fn lemma_told_in_a_line_is_told(s: Seq<char>)
    requires
        some_line_tells_authenticated(s),
    ensures
        contains(s, "Authenticated to "@),
    decreases s.len(),
{
    let marker = "Authenticated to "@;
    let n = marker.len();
    lemma_position_bounds(s, '\n');
    if tells_authenticated(first_line(s)) {
        let line = first_line(s);
        let i = choose|i: int|
            0 <= i && i + n <= line.len() && #[trigger] line.subrange(i, i + n) == marker;
        assert(s.subrange(i, i + n) =~= line.subrange(i, i + n));
    } else {
        let rest = after_line(s);
        lemma_told_in_a_line_is_told(rest);
        let i = choose|i: int|
            0 <= i && i + n <= rest.len() && #[trigger] rest.subrange(i, i + n) == marker;
        let from = s.len() - rest.len();
        assert(s.subrange(from + i, from + i + n) =~= rest.subrange(i, i + n));
    }
}

/// A line tells of a login where `Authenticated to ` stands in it.
pub proof fn law_login_is_told_by_its_words(line: &str, r: bool)
    requires
        call_ensures(is_authenticated_log, (line,), r),
    ensures
        r <==> stands_in("Authenticated to "@, line@),
{
    lemma_stands_in("Authenticated to "@, line@);
}

/// How a login went. One that was told of went well, and one that took too long did not.
/// Where the client ended by itself, it counts how it ended, and the login went well where
/// the client told of it anywhere. What the client printed is handed on line by line.
pub proof fn law_login_went_as_the_probe_ended(
    end: AuthProbeEnd,
    log: AuthProbeLog,
    output: SshAuthProbeOutput,
    text: String,
)
    requires
        call_ensures(auth_probe_output, (end, &log), output),
        call_ensures(AuthProbeLog::text, (&log,), text),
    ensures
        output.stderr@ == text@,
        output.timed_out <==> end is TimedOut,
        end is Authenticated ==> output.authenticated && output.status_success
            && output.status_code == Some(0i32),
        end is TimedOut ==> !output.authenticated && !output.status_success && output.status_code
            is None,
        end matches AuthProbeEnd::Exited(status) ==> {
            &&& output.status_success == status.success
            &&& output.status_code == status.code
            &&& output.authenticated <==> stands_in("Authenticated to "@, text@)
        },
{
    let told = joined_lines(log@);
    lemma_stands_in("Authenticated to "@, told);
    if contains(told, "Authenticated to "@) {
        lemma_some_line_has_it(told);
    }
    if some_line_tells_authenticated(told) {
        lemma_told_in_a_line_is_told(told);
    }
}

/// A line is kept without the white space around it, where it is not blank and fewer than
/// 256 lines are kept; all other lines stay. It tells of a login whether it is kept or not.
pub proof fn law_lines_are_kept_up_to_the_limit(
    log: &mut AuthProbeLog,
    line: &str,
    authenticated: bool,
)
    requires
        call_ensures(AuthProbeLog::record, (log, line), authenticated),
    ensures
        trim(line@).len() > 0 && old(log)@.len() < 256 ==> final(log)@ == old(log)@.push(
            trim(line@),
        ),
        trim(line@).len() == 0 || old(log)@.len() >= 256 ==> final(log)@ == old(log)@,
        authenticated <==> stands_in("Authenticated to "@, trim(line@)),
{
    reveal_strlit("Authenticated to ");
    assert("Authenticated to "@.len() == 17);
    lemma_stands_in("Authenticated to "@, trim(line@));
}

/// The log as text: its lines with a line feed between each two.
pub proof fn law_log_is_written_line_by_line(log: AuthProbeLog, text: String)
    requires
        call_ensures(AuthProbeLog::text, (&log,), text),
    ensures
        log@.len() == 0 ==> text@.len() == 0,
        log@.len() == 1 ==> text@ == log@[0],
        log@.len() == 2 ==> text@ == log@[0] + seq!['\n'] + log@[1],
        log@.len() > 1 ==> text@ == joined_lines(log@.drop_last()) + seq!['\n'] + log@.last(),
{
    reveal_strlit("\n");
    assert("\n"@ =~= seq!['\n']);
    if log@.len() == 2 {
        assert(joined_lines(log@.drop_last()) == log@[0]);
    }
}

/// The first line that is not blank counts, without the white space around it: that is the
/// first line, or else the first one of the rest.
pub proof fn law_first_line_that_is_not_blank_counts(
    text: &str,
    line: Seq<char>,
    rest: &str,
    found: String,
    found_in_rest: String,
)
    requires
        call_ensures(first_line_of, (text,), found),
        call_ensures(first_line_of, (rest,), found_in_rest),
        text@ == line + seq!['\n'] + rest@,
        forall|i: int| 0 <= i < line.len() ==> #[trigger] line[i] != '\n',
        line.len() > 0 ==> line.last() != '\r',
    ensures
        trim(line).len() > 0 ==> found@ == trim(line),
        trim(line).len() == 0 ==> found@ == found_in_rest@,
{
    crate::text::law_first_line_ends_at_the_line_feed(line, rest@);
}

/// A text of one line counts as that line.
pub proof fn law_only_line_counts(text: &str, found: String)
    requires
        call_ensures(first_line_of, (text,), found),
        forall|i: int| 0 <= i < text@.len() ==> #[trigger] text@[i] != '\n',
    ensures
        found@ == trim(text@),
{
    crate::text::law_first_line_ends_at_the_line_feed(text@, Seq::empty());
    lemma_position_bounds(text@, '\n');
    if text@.len() == 0 {
        assert(trim(text@) =~= text@);
    } else if trim(text@).len() == 0 {
        assert(after_line(text@).len() == 0);
        assert(first_nonblank_line(after_line(text@)) =~= Seq::<char>::empty());
        assert(trim(text@) =~= Seq::<char>::empty());
    }
}

/// What was printed is read as the text that it encodes.
pub proof fn law_printed_line_is_read(bytes: &[u8], text: &str, line: String, found: String)
    requires
        call_ensures(single_line, (bytes,), line),
        call_ensures(first_line_of, (text,), found),
        vstd::utf8::valid_utf8(bytes@),
        text@ == vstd::utf8::decode_utf8(bytes@),
    ensures
        line@ == found@,
{
}

/// The server's key is what follows the first `Server host key:` of a line, without the
/// white space around it, where there is something; the first line that tells it counts.
pub proof fn law_server_key_is_found(
    text: &str,
    line: Seq<char>,
    rest: &str,
    i: int,
    found: Option<String>,
    found_in_rest: Option<String>,
)
    requires
        call_ensures(host_key_fingerprint, (text,), found),
        call_ensures(host_key_fingerprint, (rest,), found_in_rest),
        text@ == line + seq!['\n'] + rest@,
        forall|j: int| 0 <= j < line.len() ==> #[trigger] line[j] != '\n',
        line.len() > 0 ==> line.last() != '\r',
        0 <= i,
    ensures
        ({
            let marker = "Server host key:"@;
            let told = i + marker.len() <= line.len() && line.subrange(i, i + marker.len())
                == marker && forall|j: int|
                0 <= j < i ==> #[trigger] line.subrange(j, j + marker.len()) != marker;
            let key = trim(line.skip(i + marker.len()));
            &&& told && key.len() > 0 ==> (found matches Some(f) && f@ == key)
            &&& (told && key.len() == 0) || !stands_in(marker, line) ==> match found_in_rest {
                Some(key) => found matches Some(f) && f@ == key@,
                None => found is None,
            }
        }),
{
    let marker = "Server host key:"@;
    crate::text::law_first_line_ends_at_the_line_feed(line, rest@);
    crate::text::lemma_find_bounds(line, marker);
    crate::text::lemma_find_contains(line, marker);
    lemma_stands_in(marker, line);
    if i + marker.len() <= line.len() && line.subrange(i, i + marker.len()) == marker {
        crate::text::lemma_find_is_first(line, marker, i);
    }
}

/// A line that the client prints is taken up at any time, and changes nothing of what the
/// probe waits for; it decides only where it tells of a login.
pub proof fn law_printed_lines_are_taken_up(
    probe: &mut AuthProbe,
    line: String,
    step: AuthProbeStep,
)
    requires
        call_ensures(run_ssh_auth_probe, (probe, AuthProbeEvent::Line(line)), step),
    ensures
        step is Continue,
        final(probe)@.phase == old(probe)@.phase,
        final(probe)@.signalled <==> old(probe)@.signalled || stands_in(
            "Authenticated to "@,
            trim(line@),
        ),
        trim(line@).len() > 0 && old(probe)@.lines.len() < 256 ==> final(probe)@.lines == old(probe)@.lines.push(trim(line@)),
        trim(line@).len() == 0 || old(probe)@.lines.len() >= 256 ==> final(probe)@.lines == old(probe)@.lines,
{
    reveal_strlit("Authenticated to ");
    assert("Authenticated to "@.len() == 17);
    lemma_stands_in("Authenticated to "@, trim(line@));
    assert(auth_steps(old(probe)@, AuthProbeEvent::Line(line), final(probe)@, step));
}

/// Each look at the client ends the probe with the login where that was told, and then the
/// client; else it asks whether the client ended. A client that ended ends the probe with
/// how it ended; one that goes on is looked at again as long as there is time, and ended
/// once there is none.
pub proof fn law_client_is_watched(
    probe: &mut AuthProbe,
    event: AuthProbeEvent,
    step: AuthProbeStep,
)
    requires
        call_ensures(run_ssh_auth_probe, (probe, event), step),
        !(event is Line),
    ensures
        final(probe)@.lines == old(probe)@.lines,
        final(probe)@.signalled == old(probe)@.signalled,
        event is Look && old(probe)@.signalled ==> final(probe)@.phase == AuthProbePhase::Finished
            && step == (AuthProbeStep::Finish { end: AuthProbeEnd::Authenticated, kill: true }),
        event is Look && !old(probe)@.signalled ==> final(probe)@.phase
            == AuthProbePhase::CheckingExit && step is CheckExit,
        event matches AuthProbeEvent::Exit(Some(status)) ==> final(probe)@.phase
            == AuthProbePhase::Finished && step == (AuthProbeStep::Finish {
            end: AuthProbeEnd::Exited(status),
            kill: false,
        }),
        event matches AuthProbeEvent::Exit(None) ==> final(probe)@.phase
            == AuthProbePhase::CheckingDeadline && step is CheckDeadline,
        event matches AuthProbeEvent::ExitUnknown(error) ==> final(probe)@.phase
            == AuthProbePhase::Finished && step == AuthProbeStep::Fail(error),
        event matches AuthProbeEvent::Deadline(passed) ==> if passed {
            final(probe)@.phase == AuthProbePhase::Finished && step == (AuthProbeStep::Finish {
                end: AuthProbeEnd::TimedOut,
                kill: true,
            })
        } else {
            final(probe)@.phase == AuthProbePhase::Pausing && step is Pause
        },
{
    assert(auth_steps(old(probe)@, event, final(probe)@, step));
}

/// A probe begins with a look at a client that printed nothing.
pub proof fn law_probe_begins_with_a_look(probe: AuthProbe, log: AuthProbeLog)
    requires
        call_ensures(AuthProbe::new, (), probe),
        call_ensures(AuthProbeLog::new, (), log),
    ensures
        probe@.phase == AuthProbePhase::Pausing,
        probe@.lines.len() == 0,
        !probe@.signalled,
        log@.len() == 0,
{
}

} // verus!
