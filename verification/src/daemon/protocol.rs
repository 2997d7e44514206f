//! What a client and the daemon say to each other, one line of JSON per frame.

use crate::encoding::utf8_text;
use std::collections::HashMap;
use vstd::prelude::*;
use vstd::utf8::{
    char_is_scalar, char_u32_cast, decode_utf8, encode_scalar, encode_utf8,
    encode_utf8_decode_utf8, encode_utf8_valid_utf8, valid_utf8,
};

verus! {

/// The version of this program, as Cargo.toml has it; a daemon of another version does
/// not share it.
pub const PACKAGE_VERSION: &'static str = "0.1.0";

/// The capability of a daemon whose terminals can be as small as 2 columns by 1 row.
pub const CAPABILITY_PTY_RESIZE_2X1: &'static str = "pty_resize_2x1";

/// The most bytes that a line may take, its line feed not counted.
pub const MAX_FRAME_BYTES: usize = 1024 * 1024;

/// How long to wait for a connection to the daemon, in nanoseconds.
pub const CONNECT_TIMEOUT: u128 = 1_000_000_000;

/// How long to wait for the daemon's part of the handshake, in nanoseconds.
pub const AUTH_READ_TIMEOUT: u128 = 3_000_000_000;

/// How long to wait for the answer to a request, in nanoseconds.
pub const REQUEST_TIMEOUT: u128 = 10_000_000_000;

/// What a running daemon says of itself in its record on disk.
#[derive(Debug)]
pub struct DaemonInfo {
    pub port: u16,
    pub ws_port: u16,
    pub hook_port: u16,
    pub token: String,
    pub pid: u32,
    pub version: String,
    pub protocol_version: u32,
    pub binary_protocol_version: u32,
    pub features: Vec<String>,
}

/// A session that the daemon hosts; `details` holds what is not looked at here.
#[derive(Debug)]
pub struct SessionMeta {
    pub alive: bool,
    pub details: serde_json::Value,
}

/// How a session's process fares.
#[derive(Debug)]
pub struct PtyProcessStatus {
    pub status: String,
    pub exit_code: Option<i32>,
}

/// How a session's process fares, as the daemon reports it.
#[derive(Debug)]
pub struct SessionStatus {
    pub status: String,
    pub exit_code: Option<i32>,
}

/// What a client sends.
#[derive(Debug)]
pub enum ClientFrame {
    Auth { token: String, client_version: String },
    Create {
        id: u64,
        session_id: String,
        cwd: Option<String>,
        env_vars: Option<HashMap<String, String>>,
        shell: Option<String>,
    },
    Write { id: u64, session_id: String, data: String },
    Resize { id: u64, session_id: String, cols: u16, rows: u16 },
    Close { id: u64, session_id: String },
    CloseAll { id: u64 },
    List { id: u64 },
    Attach { id: u64, session_id: String },
    Status { id: u64 },
    Reconcile { id: u64, active_session_ids: Vec<String> },
    Shutdown { id: u64 },
}

/// What the daemon sends. `statuses` names each session once.
#[derive(Debug)]
pub enum DaemonFrame {
    AuthOk { daemon_version: String, protocol_revision: u32, capabilities: Vec<String> },
    AuthErr { reason: String },
    Output { session_id: String, data_base64: String },
    Exit { session_id: String, exit_code: Option<i32> },
    HookReport { payload: serde_json::Value },
    Pong { id: u64 },
    Done { id: u64 },
    Failed { id: u64, message: String },
    Sessions { id: u64, sessions: Vec<SessionMeta> },
    Statuses { id: u64, statuses: Vec<(String, SessionStatus)> },
    Reconciled { id: u64, summary: serde_json::Value },
    Attached { id: u64, replay_base64: String, meta: SessionMeta },
}

/// Why a line is no frame.
#[derive(Debug)]
pub enum ProtocolError {
    /// A frame of a kind that is not known.
    UnknownType(String),
    /// No frame at all.
    Malformed(String),
}

/// The id of the request that `frame` answers.
pub open spec fn reply_id(frame: DaemonFrame) -> Option<u64> {
    match frame {
        DaemonFrame::Pong { id } => Some(id),
        DaemonFrame::Done { id } => Some(id),
        DaemonFrame::Failed { id, .. } => Some(id),
        DaemonFrame::Sessions { id, .. } => Some(id),
        DaemonFrame::Statuses { id, .. } => Some(id),
        DaemonFrame::Reconciled { id, .. } => Some(id),
        DaemonFrame::Attached { id, .. } => Some(id),
        _ => None,
    }
}

/// The id under which `frame` asks for an answer.
pub open spec fn request_id(frame: ClientFrame) -> Option<u64> {
    match frame {
        ClientFrame::Auth { .. } => None,
        ClientFrame::Create { id, .. } => Some(id),
        ClientFrame::Write { id, .. } => Some(id),
        ClientFrame::Resize { id, .. } => Some(id),
        ClientFrame::Close { id, .. } => Some(id),
        ClientFrame::CloseAll { id } => Some(id),
        ClientFrame::List { id } => Some(id),
        ClientFrame::Attach { id, .. } => Some(id),
        ClientFrame::Status { id } => Some(id),
        ClientFrame::Reconcile { id, .. } => Some(id),
        ClientFrame::Shutdown { id } => Some(id),
    }
}

/// The bytes of a line without what ends it: a line feed, and a carriage return where
/// one stands before it. `None` where no line feed ends `bytes`.
pub open spec fn line_body(bytes: Seq<u8>) -> Option<Seq<u8>> {
    if bytes.len() == 0 || bytes.last() != 10 {
        None
    } else {
        let body = bytes.drop_last();
        if body.len() > 0 && body.last() == 13 {
            Some(body.drop_last())
        } else {
            Some(body)
        }
    }
}

/// The text of the line `bytes`.
pub open spec fn line_text(bytes: Seq<u8>) -> Option<Seq<char>> {
    match line_body(bytes) {
        Some(body) => if valid_utf8(body) {
            Some(decode_utf8(body))
        } else {
            None
        },
        None => None,
    }
}

/// How many bytes may be read in search of a line feed.
pub fn line_read_limit() -> (limit: usize)
    ensures
        limit == MAX_FRAME_BYTES + 1,
{
    MAX_FRAME_BYTES + 1
}

/// The text of a line. `bytes` is what was read up to a line feed, up to
/// `line_read_limit` bytes or up to the end of the input, whichever came first. There
/// is no text where no line feed was found or where the line is no UTF-8.
pub fn read_line_bounded(bytes: Vec<u8>) -> (text: Option<String>)
    ensures
        match text {
            Some(t) => line_text(bytes@) == Some(t@),
            None => line_text(bytes@) is None,
        },
{
    let mut body = bytes;
    if body.len() == 0 || body[body.len() - 1] != 10 {
        return None;
    }
    body.pop();
    if body.len() > 0 && body[body.len() - 1] == 13 {
        body.pop();
    }
    utf8_text(body)
}

proof fn lemma_last_byte(text: Seq<char>)
    requires
        text.len() > 0,
        text.last() != '\r',
    ensures
        encode_utf8(text).len() > 0,
        encode_utf8(text).last() != 13,
    decreases text.len(),
{
    let first = encode_scalar(text[0] as u32);
    let rest = text.drop_first();
    assert(encode_utf8(text) == first + encode_utf8(rest));
    if text.len() > 1 {
        lemma_last_byte(rest);
    } else {
        let c = text[0] as u32;
        char_is_scalar(text[0]);
        assert(encode_utf8(rest) =~= Seq::<u8>::empty());
        assert(encode_utf8(text) =~= first);
        char_u32_cast(text[0], c);
        assert(c != 13);
        assert((0x80u8 | (c & 0x3F) as u8) != 13u8) by (bit_vector);
        assert(c <= 0x7F && c != 13 ==> (c & 0x7F) as u8 != 13u8) by (bit_vector);
    }
}

/// A text that was written as a line is read back, with a line feed at its end as with
/// a carriage return before that. The exception is a text that ends in a carriage
/// return itself.
pub proof fn law_line_round_trip(text: Seq<char>)
    requires
        text.len() > 0 ==> text.last() != '\r',
    ensures
        line_text(encode_utf8(text).push(10)) == Some(text),
        line_text(encode_utf8(text).push(13).push(10)) == Some(text),
{
    let body = encode_utf8(text);
    if text.len() > 0 {
        lemma_last_byte(text);
    }
    encode_utf8_valid_utf8(text);
    encode_utf8_decode_utf8(text);
    assert(body.push(10).drop_last() =~= body);
    assert(body.push(13).push(10).drop_last() =~= body.push(13));
    assert(body.push(13).drop_last() =~= body);
}

/// What is read of a line is all that stands before its line feed, without one carriage
/// return there; without a line feed at the end, or where that is no UTF-8, nothing is read.
pub proof fn law_line_is_read_up_to_its_end(bytes: Vec<u8>, body: Seq<u8>, text: Option<String>)
    requires
        call_ensures(read_line_bounded, (bytes,), text),
    ensures
        bytes@ == body.push(10) && (body.len() == 0 || body.last() != 13) ==> (text is Some
            <==> valid_utf8(body)) && (text matches Some(t) ==> t@ == decode_utf8(body)),
        bytes@ == body.push(13).push(10) ==> (text is Some <==> valid_utf8(body)) && (text
            matches Some(t) ==> t@ == decode_utf8(body)),
        bytes@.len() == 0 || bytes@.last() != 10 ==> text is None,
{
    if bytes@ == body.push(10) {
        assert(bytes@.drop_last() =~= body);
    }
    if bytes@ == body.push(13).push(10) {
        assert(bytes@.drop_last() =~= body.push(13));
        assert(bytes@.drop_last().drop_last() =~= body);
    }
}

/// A line may take 1 MiB; one byte more is read in search of its line feed.
pub proof fn law_line_is_bounded(limit: usize)
    requires
        call_ensures(line_read_limit, (), limit),
    ensures
        limit == 1_048_577,
{
}

/// The frames that answer a request carry its id, and no others do: what a session puts
/// out, its end, reports of hooks and the handshake answer nothing.
pub proof fn law_answers_carry_the_id(frame: DaemonFrame, id: u64)
    ensures
        reply_id(frame) == Some(id) <==> match frame {
            DaemonFrame::Pong { id: i } => i == id,
            DaemonFrame::Done { id: i } => i == id,
            DaemonFrame::Failed { id: i, .. } => i == id,
            DaemonFrame::Sessions { id: i, .. } => i == id,
            DaemonFrame::Statuses { id: i, .. } => i == id,
            DaemonFrame::Reconciled { id: i, .. } => i == id,
            DaemonFrame::Attached { id: i, .. } => i == id,
            DaemonFrame::Output { .. } | DaemonFrame::Exit { .. } | DaemonFrame::HookReport {
                ..
            } | DaemonFrame::AuthOk { .. } | DaemonFrame::AuthErr { .. } => false,
        },
{
}

} // verus!
