//! One client's connection to the daemon: the handshake, the requests that wait for an
//! answer, and where each frame of the daemon goes.

use super::protocol::{
    reply_id, request_id, ClientFrame, DaemonFrame, DaemonInfo, ProtocolError, PtyProcessStatus,
    SessionMeta, SessionStatus, CAPABILITY_PTY_RESIZE_2X1, PACKAGE_VERSION,
};
use crate::text::{joined, same_text};
use std::collections::{HashMap, HashSet};
use vstd::prelude::*;

verus! {

/// A connection to the daemon after its handshake. `hook_tool` is the tool whose hooks
/// report, `pending` holds the ids of the requests that wait for an answer.
///
/// A hook's report becomes the event `<hook_tool>-hook-notification`. The tool's own name
/// is not fixed here: whoever connects gives it, and those who listen for the event use
/// the same.
pub struct DaemonClient {
    pub info: DaemonInfo,
    pub hook_tool: String,
    pub daemon_version: String,
    pub protocol_revision: u32,
    pub capabilities: Vec<String>,
    pub pending: HashSet<u64>,
    pub next_id: u64,
    pub connected: bool,
}

/// How the handshake went. `shown` is how the reply is written for a reader.
pub enum HandshakeOutcome {
    ConnectFailed(String),
    CloneFailed(String),
    AuthWriteFailed(String),
    /// No line came back.
    NoReply,
    Replied { reply: Result<DaemonFrame, ProtocolError>, shown: String },
}

/// A request that is to be sent, and whose answer is waited for under `id`.
pub struct PendingRequest {
    pub id: u64,
    pub frame: ClientFrame,
}

/// How sending a request and waiting for its answer went.
pub enum RequestOutcome {
    /// The connection cannot be written to any more.
    WriterPoisoned,
    WriteFailed(String),
    /// No answer came in time, or the connection ended first.
    NoReply(String),
    Replied(DaemonFrame),
}

/// What an event carries.
pub enum EventPayload {
    Text(String),
    Status(PtyProcessStatus),
    Json(serde_json::Value),
}

/// Where a frame of the daemon goes.
pub enum Route {
    /// To those who listen for `event`.
    Emit { event: String, payload: EventPayload },
    /// To the request that waits under `id`.
    Deliver { id: u64, frame: DaemonFrame },
    /// Nowhere: no request waits under its id any more.
    Unclaimed,
    /// Nowhere: the handshake is over.
    LateHandshake,
}

/// What one step of reading from the daemon leads to.
pub enum ReaderStep {
    Routed(Route),
    /// A frame of an unknown kind is passed over.
    Skipped(String),
    /// Reading ends, and with it the connection.
    Stopped,
}

/// Whether the text `wanted` is among `texts`.
pub open spec fn has_text(texts: Seq<String>, wanted: Seq<char>) -> bool {
    exists|i: int| 0 <= i < texts.len() && (#[trigger] texts[i])@ == wanted
}

/// Whether a daemon is of this program's version and can make terminals small.
pub open spec fn is_compatible(version: Seq<char>, capabilities: Seq<String>) -> bool {
    version == PACKAGE_VERSION@ && has_text(capabilities, CAPABILITY_PTY_RESIZE_2X1@)
}

/// The id that follows `id`; after the largest comes 0.
pub open spec fn following_id(id: u64) -> u64 {
    if id == u64::MAX {
        0
    } else {
        (id + 1) as u64
    }
}

/// Whether two states of a connection are with the same peer.
pub open spec fn same_peer(a: DaemonClient, b: DaemonClient) -> bool {
    &&& a.info == b.info
    &&& a.hook_tool == b.hook_tool
    &&& a.daemon_version == b.daemon_version
    &&& a.protocol_revision == b.protocol_revision
    &&& a.capabilities == b.capabilities
}

/// Registering a request under `id`: refused exactly where the connection is lost.
pub open spec fn registers(
    before: DaemonClient,
    id: u64,
    after: DaemonClient,
    accepted: bool,
) -> bool {
    &&& same_peer(before, after)
    &&& after.connected == before.connected
    &&& after.next_id == before.next_id
    &&& accepted == before.connected
    &&& after.pending@ == if accepted {
        before.pending@.insert(id)
    } else {
        before.pending@
    }
}

/// Registering a request under the next id, which no later request gets before all
/// others were given out.
pub open spec fn starts_request(
    before: DaemonClient,
    after: DaemonClient,
    result: Result<PendingRequest, String>,
) -> bool {
    &&& same_peer(before, after)
    &&& after.connected == before.connected
    &&& after.next_id == following_id(before.next_id)
    &&& result is Ok == before.connected
    &&& after.pending@ == if result is Ok {
        before.pending@.insert(before.next_id)
    } else {
        before.pending@
    }
    &&& match result {
        Ok(request) => request.id == before.next_id && request_id(request.frame) == Some(
            before.next_id,
        ),
        Err(error) => error@ == "daemon disconnected"@,
    }
}

/// Where `frame` goes and what that changes.
pub open spec fn routes(
    before: DaemonClient,
    frame: DaemonFrame,
    after: DaemonClient,
    route: Route,
) -> bool {
    &&& same_peer(before, after)
    &&& after.connected == before.connected
    &&& after.next_id == before.next_id
    &&& after.pending@ == match reply_id(frame) {
        Some(id) => before.pending@.remove(id),
        None => before.pending@,
    }
    &&& match frame {
        DaemonFrame::Output { session_id, data_base64 } => {
            route matches Route::Emit { event, payload: EventPayload::Text(data) } && event@
                == "pty-output-"@ + session_id@ && data@ == data_base64@
        },
        DaemonFrame::Exit { session_id, exit_code } => {
            route matches Route::Emit { event, payload: EventPayload::Status(status) } && event@
                == "pty-status-"@ + session_id@ && status.status@ == "exited"@
                && status.exit_code == exit_code
        },
        DaemonFrame::HookReport { payload } => {
            route matches Route::Emit { event, payload: EventPayload::Json(value) } && event@
                == before.hook_tool@ + "-hook-notification"@ && value == payload
        },
        DaemonFrame::AuthOk { .. } | DaemonFrame::AuthErr { .. } => route is LateHandshake,
        _ => if before.pending@.contains(reply_id(frame)->0) {
            route == (Route::Deliver { id: reply_id(frame)->0, frame })
        } else {
            route is Unclaimed
        },
    }
}

/// What reading a line, or finding that there is none, leads to.
pub open spec fn reads(
    before: DaemonClient,
    line: Option<Result<DaemonFrame, ProtocolError>>,
    after: DaemonClient,
    step: ReaderStep,
) -> bool {
    match line {
        Some(Ok(frame)) => step matches ReaderStep::Routed(route) && routes(
            before,
            frame,
            after,
            route,
        ),
        Some(Err(ProtocolError::UnknownType(kind))) => after == before && (step matches
            ReaderStep::Skipped(k) && k@ == kind@),
        Some(Err(ProtocolError::Malformed(_))) | None => {
            &&& same_peer(before, after)
            &&& after.next_id == before.next_id
            &&& !after.connected
            &&& after.pending@ == Set::<u64>::empty()
            &&& step is Stopped
        },
    }
}

/// What the end of a request leads to. A failure to send marks the connection as lost;
/// a missing answer is waited for no longer.
pub open spec fn ends_request(
    before: DaemonClient,
    id: u64,
    outcome: RequestOutcome,
    after: DaemonClient,
    result: Result<DaemonFrame, String>,
) -> bool {
    &&& same_peer(before, after)
    &&& after.next_id == before.next_id
    &&& after.connected == (before.connected && !(outcome is WriteFailed))
    &&& after.pending@ == if outcome is NoReply {
        before.pending@.remove(id)
    } else {
        before.pending@
    }
    &&& is_request_result(outcome, result)
}

/// Whether `result` is what a request comes to.
pub open spec fn is_request_result(
    outcome: RequestOutcome,
    result: Result<DaemonFrame, String>,
) -> bool {
    match outcome {
        RequestOutcome::Replied(frame) => result == Ok::<DaemonFrame, String>(frame),
        RequestOutcome::WriterPoisoned => result matches Err(e) && e@ == "daemon writer poisoned"@,
        RequestOutcome::WriteFailed(error) => result matches Err(e) && e@ == "daemon write failed: "@
            + error@,
        RequestOutcome::NoReply(error) => result matches Err(e) && e@ == "daemon reply timeout: "@
            + error@,
    }
}

/// What a request that failed, or was answered with a failure or with something else
/// than was asked for, comes to. `shown` is how the answer is written for a reader.
pub open spec fn reply_failure(reply: Result<DaemonFrame, String>, shown: Seq<char>) -> Seq<char> {
    match reply {
        Ok(DaemonFrame::Failed { message, .. }) => message@,
        Ok(_) => "daemon unexpected reply: "@ + shown,
        Err(error) => error@,
    }
}

fn contains_string(texts: &[String], wanted: &str) -> (r: bool)
    ensures
        r == has_text(texts@, wanted@),
{
    let mut i: usize = 0;
    while i < texts.len()
        invariant
            i <= texts@.len(),
            forall|j: int| 0 <= j < i ==> (#[trigger] texts@[j])@ != wanted@,
        decreases texts@.len() - i,
    {
        if same_text(texts[i].as_str(), wanted) {
            return true;
        }
        i = i + 1;
    }
    false
}

/// Whether a daemon of this version and with these capabilities can be used as it is.
pub fn daemon_runtime_is_compatible(daemon_version: &str, capabilities: &[String]) -> (r: bool)
    ensures
        r == is_compatible(daemon_version@, capabilities@),
{
    same_text(daemon_version, PACKAGE_VERSION) && contains_string(
        capabilities,
        CAPABILITY_PTY_RESIZE_2X1,
    )
}

/// The frame that opens the connection to the daemon of `info`.
pub fn auth_frame(info: &DaemonInfo) -> (frame: ClientFrame)
    ensures
        frame matches ClientFrame::Auth { token, client_version } && token@ == info.token@
            && client_version@ == PACKAGE_VERSION@,
{
    ClientFrame::Auth {
        token: info.token.as_str().to_owned(),
        client_version: PACKAGE_VERSION.to_owned(),
    }
}

/// What a request comes to.
pub fn request_result(outcome: RequestOutcome) -> (result: Result<DaemonFrame, String>)
    ensures
        is_request_result(outcome, result),
{
    match outcome {
        RequestOutcome::Replied(frame) => Ok(frame),
        RequestOutcome::WriterPoisoned => Err("daemon writer poisoned".to_owned()),
        RequestOutcome::WriteFailed(error) => Err(
            joined("daemon write failed: ", error.as_str()),
        ),
        RequestOutcome::NoReply(error) => Err(joined("daemon reply timeout: ", error.as_str())),
    }
}

impl DaemonClient {
    /// The connection that a handshake with the daemon of `info` leads to. It succeeds
    /// exactly where the daemon accepts, whatever version the daemon has.
    pub fn connect(info: DaemonInfo, hook_tool: String, outcome: HandshakeOutcome) -> (result:
        Result<Self, String>)
        ensures
            match outcome {
                HandshakeOutcome::Replied {
                    reply: Ok(DaemonFrame::AuthOk { daemon_version, protocol_revision, capabilities }),
                    ..
                } => result matches Ok(client) && client.info == info && client.hook_tool
                    == hook_tool && client.daemon_version
                    == daemon_version && client.protocol_revision == protocol_revision
                    && client.capabilities == capabilities && client.pending@ == Set::<u64>::empty()
                    && client.next_id == 1 && client.connected,
                HandshakeOutcome::Replied { reply: Ok(DaemonFrame::AuthErr { reason }), .. } =>
                    result matches Err(e) && e@ == "daemon auth rejected: "@ + reason@,
                HandshakeOutcome::Replied { shown, .. } => result matches Err(e) && e@
                    == "daemon auth unexpected reply: "@ + shown@,
                HandshakeOutcome::NoReply => result matches Err(e) && e@
                    == "daemon auth read failed"@,
                HandshakeOutcome::ConnectFailed(error) => result matches Err(e) && e@
                    == "daemon connect failed: "@ + error@,
                HandshakeOutcome::CloneFailed(error) => result matches Err(e) && e@
                    == "daemon stream clone failed: "@ + error@,
                HandshakeOutcome::AuthWriteFailed(error) => result matches Err(e) && e@
                    == "daemon auth write failed: "@ + error@,
            },
    {
        match outcome {
            HandshakeOutcome::Replied { reply, shown } => match reply {
                Ok(DaemonFrame::AuthOk { daemon_version, protocol_revision, capabilities }) => Ok(
                    DaemonClient {
                        info,
                        hook_tool,
                        daemon_version,
                        protocol_revision,
                        capabilities,
                        pending: HashSet::new(),
                        next_id: 1,
                        connected: true,
                    },
                ),
                Ok(DaemonFrame::AuthErr { reason }) => Err(
                    joined("daemon auth rejected: ", reason.as_str()),
                ),
                _ => Err(joined("daemon auth unexpected reply: ", shown.as_str())),
            },
            HandshakeOutcome::NoReply => Err("daemon auth read failed".to_owned()),
            HandshakeOutcome::ConnectFailed(error) => Err(
                joined("daemon connect failed: ", error.as_str()),
            ),
            HandshakeOutcome::CloneFailed(error) => Err(
                joined("daemon stream clone failed: ", error.as_str()),
            ),
            HandshakeOutcome::AuthWriteFailed(error) => Err(
                joined("daemon auth write failed: ", error.as_str()),
            ),
        }
    }

    pub fn info(&self) -> (info: &DaemonInfo)
        ensures
            *info == self.info,
    {
        &self.info
    }

    pub fn is_connected(&self) -> (r: bool)
        ensures
            r == self.connected,
    {
        self.connected
    }

    /// Takes the next id for a request.
    pub fn next_request_id(&mut self) -> (id: u64)
        ensures
            id == old(self).next_id,
            final(self).next_id == following_id(old(self).next_id),
            same_peer(*old(self), *final(self)),
            final(self).pending == old(self).pending,
            final(self).connected == old(self).connected,
    {
        let id = self.next_id;
        self.next_id = if id == u64::MAX {
            0
        } else {
            id + 1
        };
        id
    }

    /// Starts to wait for the answer to `frame` under `id`; hands back what to send.
    pub fn request(&mut self, id: u64, frame: ClientFrame) -> (result: Result<
        PendingRequest,
        String,
    >)
        ensures
            registers(*old(self), id, *final(self), result is Ok),
            match result {
                Ok(request) => request.id == id && request.frame == frame,
                Err(e) => e@ == "daemon disconnected"@,
            },
    {
        broadcast use vstd::std_specs::hash::group_hash_axioms;

        if !self.connected {
            return Err("daemon disconnected".to_owned());
        }
        self.pending.insert(id);
        Ok(PendingRequest { id, frame })
    }

    /// Ends the request that was started under `id`.
    pub fn finish_request(&mut self, id: u64, outcome: RequestOutcome) -> (result: Result<
        DaemonFrame,
        String,
    >)
        ensures
            ends_request(*old(self), id, outcome, *final(self), result),
    {
        broadcast use vstd::std_specs::hash::group_hash_axioms;

        match &outcome {
            RequestOutcome::WriteFailed(_) => {
                self.connected = false;
            },
            RequestOutcome::NoReply(_) => {
                self.pending.remove(&id);
            },
            _ => {},
        }
        request_result(outcome)
    }

    /// Asks for a new session.
    pub fn create(
        &mut self,
        session_id: &str,
        cwd: Option<String>,
        env_vars: Option<HashMap<String, String>>,
        shell: Option<String>,
    ) -> (result: Result<PendingRequest, String>)
        ensures
            starts_request(*old(self), *final(self), result),
            result matches Ok(request) ==> (request.frame matches ClientFrame::Create {
                session_id: session,
                cwd: directory,
                env_vars: variables,
                shell: program,
                ..
            } && session@ == session_id@ && directory == cwd && variables == env_vars && program
                == shell),
    {
        let id = self.next_request_id();
        let session_id = session_id.to_owned();
        self.request(id, ClientFrame::Create { id, session_id, cwd, env_vars, shell })
    }

    /// Sends what was typed into a session.
    pub fn write(&mut self, session_id: &str, data: &str) -> (result: Result<
        PendingRequest,
        String,
    >)
        ensures
            starts_request(*old(self), *final(self), result),
            result matches Ok(request) ==> (request.frame matches ClientFrame::Write {
                session_id: session,
                data: text,
                ..
            } && session@ == session_id@ && text@ == data@),
    {
        let id = self.next_request_id();
        let session_id = session_id.to_owned();
        self.request(id, ClientFrame::Write { id, session_id, data: data.to_owned() })
    }

    /// Asks for another size of a session's terminal.
    pub fn resize(&mut self, session_id: &str, cols: u16, rows: u16) -> (result: Result<
        PendingRequest,
        String,
    >)
        ensures
            starts_request(*old(self), *final(self), result),
            result matches Ok(request) ==> (request.frame matches ClientFrame::Resize {
                session_id: session,
                cols: c,
                rows: r,
                ..
            } && session@ == session_id@ && c == cols && r == rows),
    {
        let id = self.next_request_id();
        let session_id = session_id.to_owned();
        self.request(id, ClientFrame::Resize { id, session_id, cols, rows })
    }

    /// Asks to end a session.
    pub fn close(&mut self, session_id: &str) -> (result: Result<PendingRequest, String>)
        ensures
            starts_request(*old(self), *final(self), result),
            result matches Ok(request) ==> (request.frame matches ClientFrame::Close {
                session_id: session,
                ..
            } && session@ == session_id@),
    {
        let id = self.next_request_id();
        let session_id = session_id.to_owned();
        self.request(id, ClientFrame::Close { id, session_id })
    }

    /// Asks to end all sessions.
    pub fn close_all(&mut self) -> (result: Result<PendingRequest, String>)
        ensures
            starts_request(*old(self), *final(self), result),
            result matches Ok(request) ==> request.frame is CloseAll,
    {
        let id = self.next_request_id();
        self.request(id, ClientFrame::CloseAll { id })
    }

    /// Asks which sessions there are.
    pub fn list(&mut self) -> (result: Result<PendingRequest, String>)
        ensures
            starts_request(*old(self), *final(self), result),
            result matches Ok(request) ==> request.frame is List,
    {
        let id = self.next_request_id();
        self.request(id, ClientFrame::List { id })
    }

    /// Asks for a session's output: what it has put out lately, and what it will.
    pub fn attach(&mut self, session_id: &str) -> (result: Result<PendingRequest, String>)
        ensures
            starts_request(*old(self), *final(self), result),
            result matches Ok(request) ==> (request.frame matches ClientFrame::Attach {
                session_id: session,
                ..
            } && session@ == session_id@),
    {
        let id = self.next_request_id();
        let session_id = session_id.to_owned();
        self.request(id, ClientFrame::Attach { id, session_id })
    }

    /// Asks how all sessions fare.
    pub fn status_all(&mut self) -> (result: Result<PendingRequest, String>)
        ensures
            starts_request(*old(self), *final(self), result),
            result matches Ok(request) ==> request.frame is Status,
    {
        let id = self.next_request_id();
        self.request(id, ClientFrame::Status { id })
    }

    /// Tells the daemon which sessions are still in use.
    pub fn reconcile(&mut self, active_session_ids: Vec<String>) -> (result: Result<
        PendingRequest,
        String,
    >)
        ensures
            starts_request(*old(self), *final(self), result),
            result matches Ok(request) ==> (request.frame matches ClientFrame::Reconcile {
                active_session_ids: active,
                ..
            } && active == active_session_ids),
    {
        let id = self.next_request_id();
        self.request(id, ClientFrame::Reconcile { id, active_session_ids })
    }

    /// Asks the daemon to end, which it does where it hosts no session.
    pub fn shutdown_if_idle(&mut self) -> (result: Result<PendingRequest, String>)
        ensures
            starts_request(*old(self), *final(self), result),
            result matches Ok(request) ==> request.frame is Shutdown,
    {
        let id = self.next_request_id();
        self.request(id, ClientFrame::Shutdown { id })
    }

    /// Whether the daemon can be used as it is.
    pub fn is_runtime_compatible(&self) -> (r: bool)
        ensures
            r == is_compatible(self.daemon_version@, self.capabilities@),
    {
        daemon_runtime_is_compatible(self.daemon_version.as_str(), self.capabilities.as_slice())
    }

    /// Whether the daemon can make terminals as small as 2 columns by 1 row.
    pub fn supports_compact_resize(&self) -> (r: bool)
        ensures
            r == has_text(self.capabilities@, CAPABILITY_PTY_RESIZE_2X1@),
    {
        contains_string(self.capabilities.as_slice(), CAPABILITY_PTY_RESIZE_2X1)
    }

    /// Hands an answer to the request that waits for it.
    fn claim(&mut self, id: u64, frame: DaemonFrame) -> (route: Route)
        requires
            reply_id(frame) == Some(id),
        ensures
            routes(*old(self), frame, *final(self), route),
    {
        broadcast use vstd::std_specs::hash::group_hash_axioms;

        if self.pending.remove(&id) {
            Route::Deliver { id, frame }
        } else {
            assert(old(self).pending@.remove(id) =~= old(self).pending@);
            Route::Unclaimed
        }
    }

    /// Says where a frame of the daemon goes.
    pub fn route_frame(&mut self, frame: DaemonFrame) -> (route: Route)
        ensures
            routes(*old(self), frame, *final(self), route),
    {
        match frame {
            DaemonFrame::Output { session_id, data_base64 } => Route::Emit {
                event: joined("pty-output-", session_id.as_str()),
                payload: EventPayload::Text(data_base64),
            },
            DaemonFrame::Exit { session_id, exit_code } => Route::Emit {
                event: joined("pty-status-", session_id.as_str()),
                payload: EventPayload::Status(
                    PtyProcessStatus { status: "exited".to_owned(), exit_code },
                ),
            },
            DaemonFrame::HookReport { payload } => Route::Emit {
                event: joined(self.hook_tool.as_str(), "-hook-notification"),
                payload: EventPayload::Json(payload),
            },
            DaemonFrame::AuthOk { .. } | DaemonFrame::AuthErr { .. } => Route::LateHandshake,
            DaemonFrame::Pong { id } => self.claim(id, DaemonFrame::Pong { id }),
            DaemonFrame::Done { id } => self.claim(id, DaemonFrame::Done { id }),
            DaemonFrame::Failed { id, message } => self.claim(
                id,
                DaemonFrame::Failed { id, message },
            ),
            DaemonFrame::Sessions { id, sessions } => self.claim(
                id,
                DaemonFrame::Sessions { id, sessions },
            ),
            DaemonFrame::Statuses { id, statuses } => self.claim(
                id,
                DaemonFrame::Statuses { id, statuses },
            ),
            DaemonFrame::Reconciled { id, summary } => self.claim(
                id,
                DaemonFrame::Reconciled { id, summary },
            ),
            DaemonFrame::Attached { id, replay_base64, meta } => self.claim(
                id,
                DaemonFrame::Attached { id, replay_base64, meta },
            ),
        }
    }

    /// One step of reading: takes up a line of the daemon, or that there is none.
    pub fn read_step(&mut self, line: Option<Result<DaemonFrame, ProtocolError>>) -> (step:
        ReaderStep)
        ensures
            reads(*old(self), line, *final(self), step),
    {
        broadcast use vstd::std_specs::hash::group_hash_axioms;

        match line {
            Some(Ok(frame)) => ReaderStep::Routed(self.route_frame(frame)),
            Some(Err(ProtocolError::UnknownType(kind))) => ReaderStep::Skipped(kind),
            _ => {
                self.connected = false;
                self.pending.clear();
                ReaderStep::Stopped
            },
        }
    }
}

fn failed_reply(reply: Result<DaemonFrame, String>, shown: &str) -> (error: String)
    ensures
        error@ == reply_failure(reply, shown@),
{
    match reply {
        Ok(DaemonFrame::Failed { message, .. }) => message,
        Ok(_) => joined("daemon unexpected reply: ", shown),
        Err(error) => error,
    }
}

/// What the answer to a request comes to that is to be done and no more.
pub fn expect_ok(reply: Result<DaemonFrame, String>, shown: &str) -> (result: Result<(), String>)
    ensures
        match reply {
            Ok(DaemonFrame::Done { .. }) => result is Ok,
            _ => result matches Err(e) && e@ == reply_failure(reply, shown@),
        },
{
    match reply {
        Ok(DaemonFrame::Done { .. }) => Ok(()),
        other => Err(failed_reply(other, shown)),
    }
}

/// The sessions that the answer to `list` names.
pub fn list_reply(reply: Result<DaemonFrame, String>, shown: &str) -> (result: Result<
    Vec<SessionMeta>,
    String,
>)
    ensures
        match reply {
            Ok(DaemonFrame::Sessions { sessions, .. }) => result == Ok::<Vec<SessionMeta>, String>(
                sessions,
            ),
            _ => result matches Err(e) && e@ == reply_failure(reply, shown@),
        },
{
    match reply {
        Ok(DaemonFrame::Sessions { sessions, .. }) => Ok(sessions),
        other => Err(failed_reply(other, shown)),
    }
}

/// The latest output, in base 64, and the session that the answer to `attach` holds.
pub fn attach_reply(reply: Result<DaemonFrame, String>, shown: &str) -> (result: Result<
    (String, SessionMeta),
    String,
>)
    ensures
        match reply {
            Ok(DaemonFrame::Attached { replay_base64, meta, .. }) => result == Ok::<
                (String, SessionMeta),
                String,
            >((replay_base64, meta)),
            _ => result matches Err(e) && e@ == reply_failure(reply, shown@),
        },
{
    match reply {
        Ok(DaemonFrame::Attached { replay_base64, meta, .. }) => Ok((replay_base64, meta)),
        other => Err(failed_reply(other, shown)),
    }
}

/// Whether `statuses` says of each session what the daemon reported, in the same order.
pub open spec fn same_statuses(
    reported: Seq<(String, SessionStatus)>,
    statuses: Seq<(String, PtyProcessStatus)>,
) -> bool {
    &&& statuses.len() == reported.len()
    &&& forall|i: int|
        0 <= i < reported.len() ==> {
            &&& (#[trigger] statuses[i]).0@ == reported[i].0@
            &&& statuses[i].1.status@ == reported[i].1.status@
            &&& statuses[i].1.exit_code == reported[i].1.exit_code
        }
}

fn process_statuses(reported: Vec<(String, SessionStatus)>) -> (statuses: Vec<
    (String, PtyProcessStatus),
>)
    ensures
        same_statuses(reported@, statuses@),
{
    let mut statuses: Vec<(String, PtyProcessStatus)> = Vec::new();
    let mut i: usize = 0;
    while i < reported.len()
        invariant
            i <= reported@.len(),
            same_statuses(reported@.take(i as int), statuses@),
        decreases reported@.len() - i,
    {
        let (session_id, status) = &reported[i];
        statuses.push(
            (
                session_id.as_str().to_owned(),
                PtyProcessStatus {
                    status: status.status.as_str().to_owned(),
                    exit_code: status.exit_code,
                },
            ),
        );
        assert(reported@.take(i + 1) =~= reported@.take(i as int).push(reported@[i as int]));
        i = i + 1;
    }
    assert(reported@.take(i as int) =~= reported@);
    statuses
}

/// How each session fares, by the answer to `status_all`.
pub fn status_all_reply(reply: Result<DaemonFrame, String>, shown: &str) -> (result: Result<
    Vec<(String, PtyProcessStatus)>,
    String,
>)
    ensures
        match reply {
            Ok(DaemonFrame::Statuses { statuses: reported, .. }) => result matches Ok(statuses)
                && same_statuses(reported@, statuses@),
            _ => result matches Err(e) && e@ == reply_failure(reply, shown@),
        },
{
    match reply {
        Ok(DaemonFrame::Statuses { statuses, .. }) => Ok(process_statuses(statuses)),
        other => Err(failed_reply(other, shown)),
    }
}

/// What the daemon did about the sessions in use, by the answer to `reconcile`.
pub fn reconcile_reply(reply: Result<DaemonFrame, String>, shown: &str) -> (result: Result<
    serde_json::Value,
    String,
>)
    ensures
        match reply {
            Ok(DaemonFrame::Reconciled { summary, .. }) => result == Ok::<
                serde_json::Value,
                String,
            >(summary),
            _ => result matches Err(e) && e@ == reply_failure(reply, shown@),
        },
{
    match reply {
        Ok(DaemonFrame::Reconciled { summary, .. }) => Ok(summary),
        other => Err(failed_reply(other, shown)),
    }
}

/// An answer reaches the request that it is for, once: a second answer under the same
/// id goes nowhere.
pub proof fn law_answer_is_delivered_once(
    start: DaemonClient,
    waiting: DaemonClient,
    request: Result<PendingRequest, String>,
    reply: DaemonFrame,
    answered: DaemonClient,
    first: Route,
    again: DaemonFrame,
    after: DaemonClient,
    second: Route,
)
    requires
        start.connected,
        starts_request(start, waiting, request),
        reply_id(reply) == Some(start.next_id),
        routes(waiting, reply, answered, first),
        reply_id(again) == Some(start.next_id),
        routes(answered, again, after, second),
    ensures
        first == (Route::Deliver { id: start.next_id, frame: reply }),
        second is Unclaimed,
{
}

/// A frame for one request, or for nobody in particular, leaves the other requests
/// waiting.
pub proof fn law_other_requests_keep_waiting(
    before: DaemonClient,
    frame: DaemonFrame,
    after: DaemonClient,
    route: Route,
    other: u64,
)
    requires
        before.pending@.contains(other),
        routes(before, frame, after, route),
        reply_id(frame) != Some(other),
    ensures
        after.pending@.contains(other),
        !(route matches Route::Deliver { id, .. } && id == other),
{
}

/// Two requests in a row never share an id.
pub proof fn law_request_ids_differ(
    start: DaemonClient,
    middle: DaemonClient,
    first: Result<PendingRequest, String>,
    end: DaemonClient,
    second: Result<PendingRequest, String>,
)
    requires
        start.connected,
        starts_request(start, middle, first),
        starts_request(middle, end, second),
    ensures
        first is Ok,
        second is Ok,
        first->Ok_0.id != second->Ok_0.id,
        end.pending@ == start.pending@.insert(first->Ok_0.id).insert(second->Ok_0.id),
{
}

/// The id that comes `n` requests after `id`.
pub open spec fn later_id(id: u64, n: nat) -> u64
    decreases n,
{
    if n == 0 {
        id
    } else {
        following_id(later_id(id, (n - 1) as nat))
    }
}

proof fn lemma_later_id(id: u64, n: nat)
    ensures
        later_id(id, n) == (id + n) % (u64::MAX + 1),
    decreases n,
{
    if n > 0 {
        lemma_later_id(id, (n - 1) as nat);
    }
}

/// An id is given out again only after all the others were.
pub proof fn law_ids_come_round_after_all_others(id: u64, n: nat)
    requires
        0 < n <= u64::MAX,
    ensures
        later_id(id, n) != id,
        later_id(id, (u64::MAX + 1) as nat) == id,
{
    lemma_later_id(id, n);
    lemma_later_id(id, (u64::MAX + 1) as nat);
}

/// A lost connection stays lost: no frame, no request and no answer brings it back, and
/// every request is refused.
pub proof fn law_lost_connection_stays_lost(
    before: DaemonClient,
    line: Option<Result<DaemonFrame, ProtocolError>>,
    read: DaemonClient,
    step: ReaderStep,
    requested: DaemonClient,
    request: Result<PendingRequest, String>,
    id: u64,
    outcome: RequestOutcome,
    ended: DaemonClient,
    result: Result<DaemonFrame, String>,
)
    requires
        !before.connected,
        reads(before, line, read, step),
        starts_request(before, requested, request),
        ends_request(before, id, outcome, ended, result),
    ensures
        !read.connected,
        !requested.connected,
        !ended.connected,
        request is Err,
{
}

/// When reading ends, nobody goes on waiting for an answer, and the connection is lost.
pub proof fn law_end_of_input_frees_all_requests(
    before: DaemonClient,
    line: Option<Result<DaemonFrame, ProtocolError>>,
    after: DaemonClient,
    step: ReaderStep,
)
    requires
        reads(before, line, after, step),
        step is Stopped,
    ensures
        !after.connected,
        forall|id: u64| !after.pending@.contains(id),
{
}

/// The handshake succeeds exactly where the daemon accepts it. The connection then knows
/// what the daemon said of itself, waits for nothing, and counts its requests from 1.
pub proof fn law_handshake_succeeds_where_it_is_accepted(
    info: DaemonInfo,
    hook_tool: String,
    outcome: HandshakeOutcome,
    result: Result<DaemonClient, String>,
)
    requires
        call_ensures(DaemonClient::connect, (info, hook_tool, outcome), result),
    ensures
        result is Ok <==> (outcome matches HandshakeOutcome::Replied {
            reply: Ok(DaemonFrame::AuthOk { .. }),
            ..
        }),
        result matches Ok(client) ==> {
            let accepted = outcome->reply->Ok_0;
            &&& client.info == info
            &&& client.hook_tool@ == hook_tool@
            &&& client.daemon_version@ == accepted->daemon_version@
            &&& client.protocol_revision == accepted->protocol_revision
            &&& client.capabilities@ == accepted->capabilities@
            &&& client.connected
            &&& client.next_id == 1
            &&& forall|id: u64| !client.pending@.contains(id)
        },
        result matches Err(e) ==> e@ == match outcome {
            HandshakeOutcome::ConnectFailed(error) => "daemon connect failed: "@ + error@,
            HandshakeOutcome::CloneFailed(error) => "daemon stream clone failed: "@ + error@,
            HandshakeOutcome::AuthWriteFailed(error) => "daemon auth write failed: "@ + error@,
            HandshakeOutcome::NoReply => "daemon auth read failed"@,
            HandshakeOutcome::Replied { reply: Ok(DaemonFrame::AuthErr { reason }), .. } => {
                "daemon auth rejected: "@ + reason@
            },
            HandshakeOutcome::Replied { shown, .. } => "daemon auth unexpected reply: "@ + shown@,
        },
{
}

/// The handshake shows the token of the daemon's record and this program's version.
pub proof fn law_handshake_shows_the_token(info: DaemonInfo, frame: ClientFrame)
    requires
        call_ensures(auth_frame, (&info,), frame),
    ensures
        frame matches ClientFrame::Auth { token, client_version } && token@ == info.token@
            && client_version@ == "0.1.0"@,
{
}

/// A daemon can be used as it is exactly where it has this program's version and can make
/// terminals small; the latter it says among its capabilities.
pub proof fn law_daemon_is_compatible(
    client: DaemonClient,
    version: &str,
    capabilities: &[String],
    compatible: bool,
    own: bool,
    compact: bool,
)
    requires
        call_ensures(daemon_runtime_is_compatible, (version, capabilities), compatible),
        call_ensures(DaemonClient::is_runtime_compatible, (&client,), own),
        call_ensures(DaemonClient::supports_compact_resize, (&client,), compact),
    ensures
        compatible <==> version@ == "0.1.0"@ && exists|i: int|
            0 <= i < capabilities@.len() && (#[trigger] capabilities@[i])@ == "pty_resize_2x1"@,
        compact <==> exists|i: int|
            0 <= i < client.capabilities@.len() && (#[trigger] client.capabilities@[i])@
                == "pty_resize_2x1"@,
        own <==> client.daemon_version@ == "0.1.0"@ && compact,
{
}

/// A request is refused where the connection is lost; else it is sent as it is, and its
/// answer waited for under its id.
pub proof fn law_request_is_sent_while_connected(
    client: &mut DaemonClient,
    id: u64,
    frame: ClientFrame,
    result: Result<PendingRequest, String>,
)
    requires
        call_ensures(DaemonClient::request, (client, id, frame), result),
    ensures
        result is Ok <==> old(client).connected,
        result matches Ok(request) ==> request.id == id && request.frame == frame && final(client).pending@ == old(client).pending@.insert(id),
        result matches Err(e) ==> e@ == "daemon disconnected"@ && final(client).pending@ == old(client).pending@,
        final(client).next_id == old(client).next_id,
        final(client).connected == old(client).connected,
        final(client).info == old(client).info,
{
}

/// Each id is one more than the one before; after the largest comes 0.
pub proof fn law_ids_are_counted(client: &mut DaemonClient, id: u64)
    requires
        call_ensures(DaemonClient::next_request_id, (client,), id),
    ensures
        id == old(client).next_id,
        old(client).next_id < u64::MAX ==> final(client).next_id == old(client).next_id + 1,
        old(client).next_id == u64::MAX ==> final(client).next_id == 0,
        final(client).pending@ == old(client).pending@,
        final(client).connected == old(client).connected,
{
}

/// Whether a request that is started takes the next id, and waits under it, where the
/// connection stands; where it is lost the request is refused.
pub open spec fn starts_next(
    before: DaemonClient,
    after: DaemonClient,
    result: Result<PendingRequest, String>,
) -> bool {
    &&& result is Ok <==> before.connected
    &&& result matches Ok(request) ==> request.id == before.next_id && after.pending@
        == before.pending@.insert(before.next_id)
    &&& result matches Err(e) ==> e@ == "daemon disconnected"@ && after.pending@
        == before.pending@
    &&& before.next_id < u64::MAX ==> after.next_id == before.next_id + 1
    &&& before.next_id == u64::MAX ==> after.next_id == 0
    &&& after.connected == before.connected
}

/// What is asked about a session is sent with the session and the details that were given,
/// under the next id.
pub proof fn law_session_requests_say_what_was_asked(
    a: &mut DaemonClient,
    b: &mut DaemonClient,
    c: &mut DaemonClient,
    d: &mut DaemonClient,
    e: &mut DaemonClient,
    session_id: &str,
    cwd: Option<String>,
    env_vars: Option<HashMap<String, String>>,
    shell: Option<String>,
    data: &str,
    cols: u16,
    rows: u16,
    created: Result<PendingRequest, String>,
    wrote: Result<PendingRequest, String>,
    resized: Result<PendingRequest, String>,
    closed: Result<PendingRequest, String>,
    attached: Result<PendingRequest, String>,
)
    requires
        call_ensures(DaemonClient::create, (a, session_id, cwd, env_vars, shell), created),
        call_ensures(DaemonClient::write, (b, session_id, data), wrote),
        call_ensures(DaemonClient::resize, (c, session_id, cols, rows), resized),
        call_ensures(DaemonClient::close, (d, session_id), closed),
        call_ensures(DaemonClient::attach, (e, session_id), attached),
    ensures
        starts_next(*old(a), *final(a), created),
        starts_next(*old(b), *final(b), wrote),
        starts_next(*old(c), *final(c), resized),
        starts_next(*old(d), *final(d), closed),
        starts_next(*old(e), *final(e), attached),
        created matches Ok(r) ==> (r.frame matches ClientFrame::Create {
            id,
            session_id: session,
            cwd: directory,
            env_vars: variables,
            shell: program,
        } && id == r.id && session@ == session_id@ && directory == cwd && variables == env_vars
            && program == shell),
        wrote matches Ok(r) ==> (r.frame matches ClientFrame::Write {
            id,
            session_id: session,
            data: text,
        } && id == r.id && session@ == session_id@ && text@ == data@),
        resized matches Ok(r) ==> (r.frame matches ClientFrame::Resize {
            id,
            session_id: session,
            cols: x,
            rows: y,
        } && id == r.id && session@ == session_id@ && x == cols && y == rows),
        closed matches Ok(r) ==> (r.frame matches ClientFrame::Close { id, session_id: session }
            && id == r.id && session@ == session_id@),
        attached matches Ok(r) ==> (r.frame matches ClientFrame::Attach {
            id,
            session_id: session,
        } && id == r.id && session@ == session_id@),
{
}

/// What is asked about all sessions, or of the daemon itself, is sent under the next id.
pub proof fn law_other_requests_say_what_was_asked(
    a: &mut DaemonClient,
    b: &mut DaemonClient,
    c: &mut DaemonClient,
    d: &mut DaemonClient,
    e: &mut DaemonClient,
    active: Vec<String>,
    closed: Result<PendingRequest, String>,
    listed: Result<PendingRequest, String>,
    asked: Result<PendingRequest, String>,
    reconciled: Result<PendingRequest, String>,
    ended: Result<PendingRequest, String>,
)
    requires
        call_ensures(DaemonClient::close_all, (a,), closed),
        call_ensures(DaemonClient::list, (b,), listed),
        call_ensures(DaemonClient::status_all, (c,), asked),
        call_ensures(DaemonClient::reconcile, (d, active), reconciled),
        call_ensures(DaemonClient::shutdown_if_idle, (e,), ended),
    ensures
        starts_next(*old(a), *final(a), closed),
        starts_next(*old(b), *final(b), listed),
        starts_next(*old(c), *final(c), asked),
        starts_next(*old(d), *final(d), reconciled),
        starts_next(*old(e), *final(e), ended),
        closed matches Ok(r) ==> r.frame == (ClientFrame::CloseAll { id: r.id }),
        listed matches Ok(r) ==> r.frame == (ClientFrame::List { id: r.id }),
        asked matches Ok(r) ==> r.frame == (ClientFrame::Status { id: r.id }),
        ended matches Ok(r) ==> r.frame == (ClientFrame::Shutdown { id: r.id }),
        reconciled matches Ok(r) ==> r.frame == (ClientFrame::Reconcile {
            id: r.id,
            active_session_ids: active,
        }),
{
}

/// What a request comes to: the answer, or an error that tells whether sending or waiting
/// failed. A failure to send loses the connection, and nothing else does; a request whose
/// answer is given up on no longer waits for it.
pub proof fn law_request_comes_to_its_outcome(
    client: &mut DaemonClient,
    id: u64,
    outcome: RequestOutcome,
    result: Result<DaemonFrame, String>,
    alone: Result<DaemonFrame, String>,
)
    requires
        call_ensures(DaemonClient::finish_request, (client, id, outcome), result),
        call_ensures(request_result, (outcome,), alone),
    ensures
        outcome matches RequestOutcome::Replied(frame) ==> result == Ok::<DaemonFrame, String>(
            frame,
        ) && alone == result,
        outcome is WriterPoisoned ==> (result matches Err(e) && e@ == "daemon writer poisoned"@),
        outcome matches RequestOutcome::WriteFailed(error) ==> (result matches Err(e) && e@
            == "daemon write failed: "@ + error@),
        outcome matches RequestOutcome::NoReply(error) ==> (result matches Err(e) && e@
            == "daemon reply timeout: "@ + error@),
        result is Err ==> alone is Err && alone->Err_0@ == result->Err_0@,
        final(client).connected <==> old(client).connected && !(outcome is WriteFailed),
        forall|other: u64|
            final(client).pending@.contains(other) <==> #[trigger] old(client).pending@.contains(
                other,
            ) && !(outcome is NoReply && other == id),
        final(client).next_id == old(client).next_id,
{
}

/// Where a frame goes: output and ends of sessions to those who listen for that session,
/// reports of hooks to those who listen for them, an answer to the request that waits for
/// it, and nothing else anywhere.
pub proof fn law_frames_reach_those_they_are_for(
    client: &mut DaemonClient,
    frame: DaemonFrame,
    route: Route,
)
    requires
        call_ensures(DaemonClient::route_frame, (client, frame), route),
    ensures
        frame matches DaemonFrame::Output { session_id, data_base64 } ==> (route
            matches Route::Emit { event, payload: EventPayload::Text(data) } && event@
            == "pty-output-"@ + session_id@ && data@ == data_base64@),
        frame matches DaemonFrame::Exit { session_id, exit_code } ==> (route matches Route::Emit {
            event,
            payload: EventPayload::Status(status),
        } && event@ == "pty-status-"@ + session_id@ && status.status@ == "exited"@
            && status.exit_code == exit_code),
        frame matches DaemonFrame::HookReport { payload } ==> (route matches Route::Emit {
            event,
            payload: EventPayload::Json(value),
        } && event@ == old(client).hook_tool@ + "-hook-notification"@ && value == payload),
        frame is AuthOk || frame is AuthErr ==> route is LateHandshake,
        ({
            let answered = match frame {
                DaemonFrame::Pong { id } => Some(id),
                DaemonFrame::Done { id } => Some(id),
                DaemonFrame::Failed { id, .. } => Some(id),
                DaemonFrame::Sessions { id, .. } => Some(id),
                DaemonFrame::Statuses { id, .. } => Some(id),
                DaemonFrame::Reconciled { id, .. } => Some(id),
                DaemonFrame::Attached { id, .. } => Some(id),
                _ => None,
            };
            &&& answered matches Some(id) ==> if old(client).pending@.contains(id) {
                route == (Route::Deliver { id, frame })
            } else {
                route is Unclaimed
            }
            &&& forall|other: u64| #[trigger]
                final(client).pending@.contains(other) <==> old(client).pending@.contains(other)
                    && answered != Some(other)
        }),
        final(client).connected == old(client).connected,
        final(client).next_id == old(client).next_id,
{
}

/// What a line that is read leads to: a frame goes where it is for, a frame of an unknown
/// kind is passed over, and anything else, or the end of the input, ends the connection.
pub proof fn law_lines_are_taken_up(
    client: &mut DaemonClient,
    line: Option<Result<DaemonFrame, ProtocolError>>,
    step: ReaderStep,
)
    requires
        call_ensures(DaemonClient::read_step, (client, line), step),
    ensures
        step is Routed <==> (line matches Some(Ok(_))),
        step is Routed ==> final(client).connected == old(client).connected,
        line matches Some(Err(ProtocolError::UnknownType(kind))) ==> (step
            matches ReaderStep::Skipped(k) && k@ == kind@) && final(client).connected == old(client).connected && final(client).pending@ == old(client).pending@,
        line is None || (line matches Some(Err(ProtocolError::Malformed(_)))) ==> step is Stopped
            && !final(client).connected && forall|id: u64| !final(client).pending@.contains(id),
        final(client).next_id == old(client).next_id,
{
}

/// What a step of reading hands on is where the frame goes.
pub proof fn law_read_frames_are_routed(
    reader: &mut DaemonClient,
    router: &mut DaemonClient,
    frame: DaemonFrame,
    step: ReaderStep,
    route: Route,
)
    requires
        call_ensures(DaemonClient::read_step, (reader, Some(Ok(frame))), step),
        call_ensures(DaemonClient::route_frame, (router, frame), route),
        *old(router) == *old(reader),
        frame is Output || frame is Exit || frame is HookReport,
    ensures
        step matches ReaderStep::Routed(Route::Emit { event: a, .. }) && (route
            matches Route::Emit { event: b, .. } && a@ == b@),
        final(reader).pending@ == final(router).pending@,
{
}

/// The answer to a request that is only to be done is success exactly where it says so; an
/// answer that says what failed is that error, and any other is unexpected.
pub proof fn law_answers_are_understood(
    reply: Result<DaemonFrame, String>,
    shown: &str,
    done: Result<(), String>,
    sessions: Result<Vec<SessionMeta>, String>,
    attached: Result<(String, SessionMeta), String>,
    statuses: Result<Vec<(String, PtyProcessStatus)>, String>,
    summary: Result<serde_json::Value, String>,
)
    requires
        call_ensures(expect_ok, (reply, shown), done),
        call_ensures(list_reply, (reply, shown), sessions),
        call_ensures(attach_reply, (reply, shown), attached),
        call_ensures(status_all_reply, (reply, shown), statuses),
        call_ensures(reconcile_reply, (reply, shown), summary),
    ensures
        done is Ok <==> (reply matches Ok(DaemonFrame::Done { .. })),
        sessions is Ok <==> (reply matches Ok(DaemonFrame::Sessions { .. })),
        attached is Ok <==> (reply matches Ok(DaemonFrame::Attached { .. })),
        statuses is Ok <==> (reply matches Ok(DaemonFrame::Statuses { .. })),
        summary is Ok <==> (reply matches Ok(DaemonFrame::Reconciled { .. })),
        reply matches Ok(DaemonFrame::Sessions { sessions: s, .. }) ==> sessions->Ok_0 == s,
        reply matches Ok(DaemonFrame::Attached { replay_base64, meta, .. }) ==> attached->Ok_0 == (
            replay_base64,
            meta,
        ),
        reply matches Ok(DaemonFrame::Reconciled { summary: s, .. }) ==> summary->Ok_0 == s,
        reply matches Ok(DaemonFrame::Statuses { statuses: reported, .. }) ==> {
            &&& statuses->Ok_0@.len() == reported@.len()
            &&& forall|i: int|
                0 <= i < reported@.len() ==> (#[trigger] statuses->Ok_0@[i]).0@
                    == reported@[i].0@ && statuses->Ok_0@[i].1.status@ == reported@[i].1.status@
                    && statuses->Ok_0@[i].1.exit_code == reported@[i].1.exit_code
        },
        ({
            let failure = match reply {
                Ok(DaemonFrame::Failed { message, .. }) => message@,
                Ok(_) => "daemon unexpected reply: "@ + shown@,
                Err(error) => error@,
            };
            &&& done matches Err(e) ==> e@ == failure
            &&& sessions matches Err(e) ==> e@ == failure
            &&& attached matches Err(e) ==> e@ == failure
            &&& statuses matches Err(e) ==> e@ == failure
            &&& summary matches Err(e) ==> e@ == failure
        }),
{
}

/// Whoever the connection is with stays the same in whatever happens on it: the record, the
/// version, the revision and the capabilities of the daemon.
pub proof fn law_connection_stays_with_its_daemon(
    router: &mut DaemonClient,
    frame: DaemonFrame,
    route: Route,
    reader: &mut DaemonClient,
    line: Option<Result<DaemonFrame, ProtocolError>>,
    step: ReaderStep,
    asker: &mut DaemonClient,
    result: Result<PendingRequest, String>,
)
    requires
        call_ensures(DaemonClient::route_frame, (router, frame), route),
        call_ensures(DaemonClient::read_step, (reader, line), step),
        call_ensures(DaemonClient::list, (asker,), result),
    ensures
        is_with(*final(router), *old(router)),
        is_with(*final(reader), *old(reader)),
        is_with(*final(asker), *old(asker)),
{
    assert(routes(*old(router), frame, *final(router), route));
    assert(reads(*old(reader), line, *final(reader), step));
    assert(starts_request(*old(asker), *final(asker), result));
}

/// Whether a connection is with the daemon that it was with before.
pub open spec fn is_with(after: DaemonClient, before: DaemonClient) -> bool {
    &&& after.info == before.info
    &&& after.hook_tool == before.hook_tool
    &&& after.daemon_version == before.daemon_version
    &&& after.protocol_revision == before.protocol_revision
    &&& after.capabilities == before.capabilities
}

/// A connection tells whether it stands, and with which daemon.
pub proof fn law_connection_tells_its_state(client: DaemonClient, info: &DaemonInfo, connected: bool)
    requires
        call_ensures(DaemonClient::info, (&client,), info),
        call_ensures(DaemonClient::is_connected, (&client,), connected),
    ensures
        *info == client.info,
        connected == client.connected,
{
}

} // verus!
