//! The framed bridge protocol: a preamble line, then frames, each a big-endian
//! 32-bit length and that many bytes of JSON.

use super::{PROTOCOL_MAJOR, PROTOCOL_MINOR};
use crate::json::{
    json_array, json_bool, json_null, json_text, json_unsigned, json_view, set_field, Json,
};
use crate::text::{append_decimal, decimal, joined, same_text};
use vstd::prelude::*;
use vstd::string::StringExecFns;
use vstd::utf8::encode_utf8;

verus! {

/// The longest payload of a frame.
pub const MAX_FRAME_BYTES: usize = 1024 * 1024;

/// How much a client skips at most before the preamble.
pub const MAX_PREAMBLE_BANNER_BYTES: usize = 8 * 1024;

/// A request.
#[derive(Debug)]
pub struct ClientFrame {
    pub request_id: String,
    pub kind: String,
    pub payload: serde_json::Value,
}

/// An answer to a request.
#[derive(Debug)]
pub struct ServerFrame {
    pub request_id: String,
    pub kind: String,
    pub payload: serde_json::Value,
}

/// The preamble line for `nonce`.
pub open spec fn preamble_line(nonce: Seq<char>) -> Seq<char> {
    "CLI_MANAGER_SSH_AGENT/"@ + decimal(PROTOCOL_MAJOR as nat) + " "@ + nonce + "\n"@
}

/// The four bytes of `n`, the most significant one first.
pub open spec fn length_prefix(n: nat) -> Seq<u8> {
    seq![
        (n / 0x100_0000 % 0x100) as u8,
        (n / 0x1_0000 % 0x100) as u8,
        (n / 0x100 % 0x100) as u8,
        (n % 0x100) as u8,
    ]
}

/// The number that the first four bytes write, the most significant one first.
pub open spec fn prefixed_length(bytes: Seq<u8>) -> nat {
    (bytes[0] * 0x100_0000 + bytes[1] * 0x1_0000 + bytes[2] * 0x100 + bytes[3]) as nat
}

/// The bytes of a frame.
pub open spec fn frame_bytes(payload: Seq<u8>) -> Seq<u8> {
    length_prefix(payload.len()) + payload
}

/// What stands at the front of `bytes`.
pub enum FrameScan {
    /// A frame that still lacks so many bytes of its length, or of its payload once
    /// the length is known.
    Incomplete(nat),
    /// A length that no frame may have.
    SizeInvalid,
    /// A whole frame, and what follows it.
    Frame { payload: Seq<u8>, rest: Seq<u8> },
}

/// What stands at the front of `bytes`.
pub open spec fn scan_frame(bytes: Seq<u8>) -> FrameScan {
    if bytes.len() < 4 {
        // The first byte is read alone: it tells a frame from the end of the input.
        FrameScan::Incomplete(
            if bytes.len() == 0 {
                1
            } else {
                (4 - bytes.len()) as nat
            },
        )
    } else {
        let length = prefixed_length(bytes);
        if length == 0 || length > MAX_FRAME_BYTES {
            FrameScan::SizeInvalid
        } else if bytes.len() < 4 + length {
            FrameScan::Incomplete((4 + length - bytes.len()) as nat)
        } else {
            FrameScan::Frame {
                payload: bytes.subrange(4, 4 + length as int),
                rest: bytes.skip(4 + length as int),
            }
        }
    }
}

/// How an input ended.
#[derive(Debug)]
pub enum InputEnd {
    /// There are no more bytes.
    Eof,
    /// Reading failed, for this reason.
    Failed(String),
}

/// The bytes that were read and not yet taken as frames.
pub struct FrameReader {
    pub bytes: Vec<u8>,
    pub end: Option<InputEnd>,
}

/// Whether the next frame is decided: it is there, its length is invalid, or nothing
/// will follow.
pub open spec fn frame_settled(bytes: Seq<u8>, end: Option<InputEnd>) -> bool {
    end is Some || !(scan_frame(bytes) is Incomplete)
}

/// What reading the next frame gives once it is decided: its payload, `None` at the
/// end of the input, or what went wrong.
pub open spec fn next_frame(bytes: Seq<u8>, end: Option<InputEnd>) -> Result<
    Option<Seq<u8>>,
    Seq<char>,
>
    recommends
        frame_settled(bytes, end),
{
    match scan_frame(bytes) {
        FrameScan::Frame { payload, rest } => Ok(Some(payload)),
        FrameScan::SizeInvalid => Err("frame_size_invalid"@),
        FrameScan::Incomplete(_) => {
            if bytes.len() == 0 && end == Some(InputEnd::Eof) {
                Ok(None)
            } else {
                let reason = match end {
                    Some(InputEnd::Failed(error)) => error@,
                    _ => "failed to fill whole buffer"@,
                };
                if bytes.len() < 4 {
                    Err("frame_length_read_failed:"@ + reason)
                } else {
                    Err("frame_payload_read_failed:"@ + reason)
                }
            }
        },
    }
}

/// What is left of `bytes` once the next frame is taken.
pub open spec fn rest_of(bytes: Seq<u8>) -> Seq<u8> {
    match scan_frame(bytes) {
        FrameScan::Frame { payload, rest } => rest,
        _ => bytes,
    }
}

impl FrameReader {
    /// Whether the next frame is decided.
    pub open spec fn settled(self) -> bool {
        frame_settled(self.bytes@, self.end)
    }

    /// What reading the next frame gives once it is decided.
    pub open spec fn next_frame(self) -> Result<Option<Seq<u8>>, Seq<char>> {
        next_frame(self.bytes@, self.end)
    }

    /// An input of which nothing was read yet.
    pub fn new() -> (reader: Self)
        ensures
            reader.bytes@ == Seq::<u8>::empty(),
            reader.end is None,
    {
        FrameReader { bytes: Vec::new(), end: None }
    }

    /// An input that is there as a whole.
    pub fn from_bytes(bytes: Vec<u8>) -> (reader: Self)
        ensures
            reader.bytes@ == bytes@,
            reader.end == Some(InputEnd::Eof),
    {
        FrameReader { bytes, end: Some(InputEnd::Eof) }
    }

    /// How many bytes to read next; 0 when the next frame is decided.
    pub fn demand(&self) -> (count: usize)
        ensures
            count == 0 <==> self.settled(),
            !self.settled() ==> scan_frame(self.bytes@) == FrameScan::Incomplete(count as nat),
    {
        if self.end.is_some() {
            return 0;
        }
        let available = self.bytes.len();
        if available == 0 {
            1
        } else if available < 4 {
            4 - available
        } else {
            let length = frame_length(self.bytes.as_slice());
            if length == 0 || length > MAX_FRAME_BYTES || available - 4 >= length {
                0
            } else {
                length - (available - 4)
            }
        }
    }

    /// Takes up bytes that were read.
    pub fn feed(&mut self, chunk: &[u8])
        ensures
            final(self).bytes@ == old(self).bytes@ + chunk@,
            final(self).end == old(self).end,
    {
        self.bytes.extend_from_slice(chunk);
        assert(self.bytes@ =~= old(self).bytes@ + chunk@);
    }

    /// Takes up that the input ended.
    pub fn finish(&mut self, end: InputEnd)
        ensures
            final(self).bytes == old(self).bytes,
            final(self).end == Some(end),
    {
        self.end = Some(end);
    }
}

/// The number that the first four bytes write.
fn frame_length(bytes: &[u8]) -> (length: usize)
    requires
        bytes@.len() >= 4,
    ensures
        length == prefixed_length(bytes@),
{
    (bytes[0] as u32 * 0x100_0000 + bytes[1] as u32 * 0x1_0000 + bytes[2] as u32 * 0x100
        + bytes[3] as u32) as usize
}

/// Takes the payload of the next frame; `None` where the input ended before it.
pub fn read_frame(reader: &mut FrameReader) -> (result: Result<Option<Vec<u8>>, String>)
    requires
        old(reader).settled(),
    ensures
        match old(reader).next_frame() {
            Ok(Some(payload)) => result matches Ok(Some(p)) && p@ == payload,
            Ok(None) => result matches Ok(None),
            Err(error) => result matches Err(e) && e@ == error,
        },
        final(reader).end == old(reader).end,
        final(reader).bytes@ == rest_of(old(reader).bytes@),
{
    let available = reader.bytes.len();
    if available >= 4 {
        let length = frame_length(reader.bytes.as_slice());
        if length == 0 || length > MAX_FRAME_BYTES {
            return Err("frame_size_invalid".to_owned());
        }
        if available - 4 >= length {
            let mut payload = reader.bytes.split_off(4);
            let rest = payload.split_off(length);
            assert(payload@ =~= old(reader).bytes@.subrange(4, 4 + length as int));
            assert(rest@ =~= old(reader).bytes@.skip(4 + length as int));
            reader.bytes = rest;
            return Ok(Some(payload));
        }
    }
    let mut error = String::new();
    if available < 4 {
        error.append("frame_length_read_failed:");
    } else {
        error.append("frame_payload_read_failed:");
    }
    match &reader.end {
        Some(InputEnd::Failed(reason)) => {
            error.append(reason.as_str());
        },
        _ => {
            if available == 0 {
                return Ok(None);
            }
            error.append("failed to fill whole buffer");
        },
    }
    assert(error@ =~= old(reader).next_frame()->Err_0);
    Err(error)
}

/// Appends a frame with this payload, unless it is too long for one.
pub fn write_frame(writer: &mut Vec<u8>, payload: &[u8]) -> (result: Result<(), String>)
    ensures
        payload@.len() <= MAX_FRAME_BYTES ==> result is Ok && final(writer)@ == old(writer)@
            + frame_bytes(payload@),
        payload@.len() > MAX_FRAME_BYTES ==> {
            &&& result matches Err(e) && e@ == "frame_size_invalid"@
            &&& final(writer)@ == old(writer)@
        },
{
    let length = payload.len();
    if length > MAX_FRAME_BYTES {
        return Err("frame_size_invalid".to_owned());
    }
    writer.push((length / 0x100_0000 % 0x100) as u8);
    writer.push((length / 0x1_0000 % 0x100) as u8);
    writer.push((length / 0x100 % 0x100) as u8);
    writer.push((length % 0x100) as u8);
    writer.extend_from_slice(payload);
    assert(writer@ =~= old(writer)@ + frame_bytes(payload@));
    Ok(())
}

/// Appends the preamble line for `nonce`.
pub fn write_preamble(writer: &mut Vec<u8>, nonce: &str)
    ensures
        final(writer)@ == old(writer)@ + encode_utf8(preamble_line(nonce@)),
{
    let mut line = String::new();
    line.append("CLI_MANAGER_SSH_AGENT/");
    append_decimal(&mut line, PROTOCOL_MAJOR as u128);
    line.append(" ");
    line.append(nonce);
    line.append("\n");
    assert(line@ =~= preamble_line(nonce@));
    let bytes = line.as_str().as_bytes();
    writer.extend_from_slice(bytes);
    assert(writer@ =~= old(writer)@ + bytes@);
}

/// The payload that greets a client.
pub open spec fn hello_payload() -> Json {
    Json::Object(
        map![
            "protocolMajor"@ => Json::Unsigned(PROTOCOL_MAJOR as u64),
            "protocolMinor"@ => Json::Unsigned(PROTOCOL_MINOR as u64),
            "capabilities"@ => Json::Array(seq![Json::Text("bridgeProtocol"@)]),
        ],
    )
}

/// The payload that refuses a request of an unknown kind.
pub open spec fn unsupported_payload(kind: Seq<char>) -> Json {
    Json::Object(
        map![
            "code"@ => Json::Text("unsupported_message"@),
            "messageKind"@ => Json::Text(kind),
        ],
    )
}

/// Whether `reply` answers `frame`.
pub open spec fn answers(frame: ClientFrame, reply: ServerFrame) -> bool {
    let kind = frame.kind@;
    &&& reply.request_id@ == frame.request_id@
    &&& if kind == "hello"@ {
        reply.kind@ == "helloOk"@ && json_view(reply.payload) == hello_payload()
    } else if kind == "ping"@ {
        reply.kind@ == "pong"@ && reply.payload == frame.payload
    } else if kind == "shutdown"@ {
        reply.kind@ == "response"@ && json_view(reply.payload) == Json::Object(
            map!["accepted"@ => Json::Bool(true)],
        )
    } else {
        reply.kind@ == "error"@ && json_view(reply.payload) == unsupported_payload(kind)
    }
}

fn response(request_id: String, kind: &str, payload: serde_json::Value) -> (frame: ServerFrame)
    ensures
        frame.request_id == request_id,
        frame.kind@ == kind@,
        frame.payload == payload,
{
    ServerFrame { request_id, kind: kind.to_owned(), payload }
}

/// The answer to a request, and whether the bridge ends with it.
pub fn handle_frame(frame: ClientFrame) -> (result: (ServerFrame, bool))
    ensures
        answers(frame, result.0),
        result.1 == (frame.kind@ == "shutdown"@),
{
    let ClientFrame { request_id, kind, payload } = frame;
    proof {
        reveal_kinds();
    }
    if same_text(kind.as_str(), "hello") {
        let mut items: Vec<serde_json::Value> = Vec::new();
        items.push(json_text("bridgeProtocol"));
        let capabilities = json_array(items);
        let mut greeting = json_null();
        set_field(&mut greeting, "protocolMajor", json_unsigned(PROTOCOL_MAJOR as u64));
        set_field(&mut greeting, "protocolMinor", json_unsigned(PROTOCOL_MINOR as u64));
        set_field(&mut greeting, "capabilities", capabilities);
        assert(json_view(capabilities) == Json::Array(seq![Json::Text("bridgeProtocol"@)])) by {
            assert(items@.map_values(|item: serde_json::Value| json_view(item))
                =~= seq![Json::Text("bridgeProtocol"@)]);
        }
        assert(json_view(greeting)->Object_0 =~= hello_payload()->Object_0);
        (response(request_id, "helloOk", greeting), false)
    } else if same_text(kind.as_str(), "ping") {
        (response(request_id, "pong", payload), false)
    } else if same_text(kind.as_str(), "shutdown") {
        let mut accepted = json_null();
        set_field(&mut accepted, "accepted", json_bool(true));
        assert(json_view(accepted)->Object_0 =~= map!["accepted"@ => Json::Bool(true)]);
        (response(request_id, "response", accepted), true)
    } else {
        let mut refusal = json_null();
        set_field(&mut refusal, "code", json_text("unsupported_message"));
        set_field(&mut refusal, "messageKind", json_text(kind.as_str()));
        assert(json_view(refusal)->Object_0 =~= unsupported_payload(kind@)->Object_0);
        (response(request_id, "error", refusal), false)
    }
}

proof fn reveal_kinds()
    ensures
        "hello"@ != "ping"@,
        "hello"@ != "shutdown"@,
        "ping"@ != "shutdown"@,
{
    reveal_strlit("hello");
    reveal_strlit("ping");
    reveal_strlit("shutdown");
    assert("hello"@.len() == 5);
    assert("ping"@.len() == 4);
    assert("shutdown"@.len() == 8);
}

/// What the bridge is waiting for.
#[derive(Debug, Clone, Copy, PartialEq, Eq)]
pub enum BridgePhase {
    /// The preamble to be written.
    Preamble,
    /// Bytes of the next request.
    Reading,
    /// A request to be decoded.
    Decoding,
    /// An answer to be encoded; the last one where `shutdown` is set.
    Encoding { shutdown: bool },
    /// An answer to be written; the last one where `shutdown` is set.
    Replying { shutdown: bool },
    /// Nothing.
    Finished,
}

/// The bridge between two of its steps.
pub struct Bridge {
    reader: FrameReader,
    phase: BridgePhase,
}

/// The bridge as a value: the bytes that were read and not yet taken as requests, how
/// the input ended, and what the bridge waits for.
pub struct BridgeState {
    pub bytes: Seq<u8>,
    pub end: Option<InputEnd>,
    pub phase: BridgePhase,
}

impl View for Bridge {
    type V = BridgeState;

    closed spec fn view(&self) -> BridgeState {
        BridgeState { bytes: self.reader.bytes@, end: self.reader.end, phase: self.phase }
    }
}

/// How the work that the bridge asked for went.
#[derive(Debug)]
pub enum BridgeEvent {
    Wrote,
    WriteFailed(String),
    Received(Vec<u8>),
    Ended(InputEnd),
    Decoded(ClientFrame),
    DecodeFailed(String),
    Encoded(Vec<u8>),
    EncodeFailed(String),
}

/// The work that the bridge asks for.
#[derive(Debug)]
pub enum BridgeAction {
    /// Write these bytes and flush them.
    Write(Vec<u8>),
    /// Read so many bytes.
    Read(usize),
    /// Decode a request from these bytes of JSON.
    Decode(Vec<u8>),
    /// Encode this answer as JSON.
    Encode(ServerFrame),
    /// Stop, with this outcome.
    Finish(Result<(), String>),
}

impl BridgeAction {
    /// Whether the action is to stop with the error `error`.
    pub open spec fn fails_with(self, error: Seq<char>) -> bool {
        self matches BridgeAction::Finish(Err(e)) && e@ == error
    }
}

/// Whether the bridge `after` goes on reading from these bytes with `action`: it asks
/// for what the next frame lacks, hands on the frame, or stops.
pub open spec fn resumes(
    bytes: Seq<u8>,
    end: Option<InputEnd>,
    after: BridgeState,
    action: BridgeAction,
) -> bool {
    &&& after.end == end
    &&& if !frame_settled(bytes, end) {
        &&& after.phase == BridgePhase::Reading
        &&& after.bytes == bytes
        &&& action matches BridgeAction::Read(count) && scan_frame(bytes)
            == FrameScan::Incomplete(count as nat)
    } else {
        &&& after.bytes == rest_of(bytes)
        &&& match next_frame(bytes, end) {
            Ok(Some(payload)) => after.phase == BridgePhase::Decoding && (action
                matches BridgeAction::Decode(p) && p@ == payload),
            Ok(None) => after.phase == BridgePhase::Finished && action == BridgeAction::Finish(
                Ok(()),
            ),
            Err(error) => after.phase == BridgePhase::Finished && action.fails_with(error),
        }
    }
}

/// Whether the bridge `before` turns into `after` and asks for `action` when `event`
/// happens.
pub open spec fn bridge_steps(
    before: BridgeState,
    event: BridgeEvent,
    after: BridgeState,
    action: BridgeAction,
) -> bool {
    let bytes = before.bytes;
    let end = before.end;
    match event {
        BridgeEvent::Received(chunk) => resumes(bytes + chunk@, end, after, action),
        BridgeEvent::Ended(cause) => resumes(bytes, Some(cause), after, action),
        BridgeEvent::Wrote => if before.phase == (BridgePhase::Replying { shutdown: true }) {
            &&& after.bytes == before.bytes && after.end == before.end
            &&& after.phase == BridgePhase::Finished
            &&& action == BridgeAction::Finish(Ok(()))
        } else {
            resumes(bytes, end, after, action)
        },
        BridgeEvent::Decoded(frame) => {
            &&& after.bytes == before.bytes && after.end == before.end
            &&& after.phase == (BridgePhase::Encoding { shutdown: frame.kind@ == "shutdown"@ })
            &&& action matches BridgeAction::Encode(reply) && answers(frame, reply)
        },
        BridgeEvent::Encoded(payload) => {
            &&& after.bytes == before.bytes && after.end == before.end
            &&& if payload@.len() <= MAX_FRAME_BYTES {
                &&& after.phase == (BridgePhase::Replying {
                    shutdown: before.phase->Encoding_shutdown,
                })
                &&& action matches BridgeAction::Write(written) && written@ == frame_bytes(
                    payload@,
                )
            } else {
                after.phase == BridgePhase::Finished && action.fails_with("frame_size_invalid"@)
            }
        },
        BridgeEvent::WriteFailed(error) => {
            &&& after.bytes == before.bytes && after.end == before.end
            &&& after.phase == BridgePhase::Finished
            &&& action.fails_with(
                if before.phase == BridgePhase::Preamble {
                    "preamble_write_failed:"@ + error@
                } else {
                    "frame_write_failed:"@ + error@
                },
            )
        },
        BridgeEvent::DecodeFailed(error) => {
            &&& after.bytes == before.bytes && after.end == before.end
            &&& after.phase == BridgePhase::Finished
            &&& action.fails_with("frame_json_invalid:"@ + error@)
        },
        BridgeEvent::EncodeFailed(error) => {
            &&& after.bytes == before.bytes && after.end == before.end
            &&& after.phase == BridgePhase::Finished
            &&& action.fails_with("frame_json_encode_failed:"@ + error@)
        },
    }
}

fn failure(prefix: &str, reason: &String) -> (action: BridgeAction)
    ensures
        action.fails_with(prefix@ + reason@),
{
    BridgeAction::Finish(Err(joined(prefix, reason.as_str())))
}

impl BridgeState {
    /// Whether `event` can happen now.
    pub open spec fn expects(self, event: BridgeEvent) -> bool {
        match event {
            BridgeEvent::Wrote | BridgeEvent::WriteFailed(_) => self.phase is Preamble
                || self.phase is Replying,
            BridgeEvent::Received(_) | BridgeEvent::Ended(_) => self.phase is Reading,
            BridgeEvent::Decoded(_) | BridgeEvent::DecodeFailed(_) => self.phase is Decoding,
            BridgeEvent::Encoded(_) | BridgeEvent::EncodeFailed(_) => self.phase is Encoding,
        }
    }
}

impl Bridge {
    /// A bridge that starts with the preamble for `nonce`.
    pub fn start(nonce: &str) -> (result: (Bridge, BridgeAction))
        ensures
            result.0@ == (BridgeState {
                bytes: Seq::empty(),
                end: None,
                phase: BridgePhase::Preamble,
            }),
            result.1 matches BridgeAction::Write(bytes) && bytes@ == encode_utf8(
                preamble_line(nonce@),
            ),
    {
        let mut bytes: Vec<u8> = Vec::new();
        write_preamble(&mut bytes, nonce);
        assert(bytes@ =~= encode_utf8(preamble_line(nonce@)));
        (
            Bridge { reader: FrameReader::new(), phase: BridgePhase::Preamble },
            BridgeAction::Write(bytes),
        )
    }

    /// Whether a part of a request was read.
    pub fn is_within_request(&self) -> (r: bool)
        ensures
            r == (self@.bytes.len() > 0),
    {
        self.reader.bytes.len() > 0
    }

    /// Goes on reading.
    fn resume(&mut self) -> (action: BridgeAction)
        ensures
            resumes(old(self)@.bytes, old(self)@.end, final(self)@, action),
    {
        let count = self.reader.demand();
        if count > 0 {
            self.phase = BridgePhase::Reading;
            return BridgeAction::Read(count);
        }
        match read_frame(&mut self.reader) {
            Ok(Some(payload)) => {
                self.phase = BridgePhase::Decoding;
                BridgeAction::Decode(payload)
            },
            Ok(None) => {
                self.phase = BridgePhase::Finished;
                BridgeAction::Finish(Ok(()))
            },
            Err(error) => {
                self.phase = BridgePhase::Finished;
                BridgeAction::Finish(Err(error))
            },
        }
    }
}

/// One step of the bridge: takes up what happened and says what to do next.
pub fn run_bridge(bridge: &mut Bridge, event: BridgeEvent) -> (action: BridgeAction)
    requires
        old(bridge)@.expects(event),
    ensures
        bridge_steps(old(bridge)@, event, final(bridge)@, action),
{
    match event {
        BridgeEvent::Received(chunk) => {
            bridge.reader.feed(chunk.as_slice());
            bridge.resume()
        },
        BridgeEvent::Ended(cause) => {
            bridge.reader.finish(cause);
            bridge.resume()
        },
        BridgeEvent::Wrote => {
            if let BridgePhase::Replying { shutdown: true } = bridge.phase {
                bridge.phase = BridgePhase::Finished;
                BridgeAction::Finish(Ok(()))
            } else {
                bridge.resume()
            }
        },
        BridgeEvent::WriteFailed(error) => {
            let action = if let BridgePhase::Preamble = bridge.phase {
                failure("preamble_write_failed:", &error)
            } else {
                failure("frame_write_failed:", &error)
            };
            bridge.phase = BridgePhase::Finished;
            action
        },
        BridgeEvent::Decoded(frame) => {
            let (reply, shutdown) = handle_frame(frame);
            bridge.phase = BridgePhase::Encoding { shutdown };
            BridgeAction::Encode(reply)
        },
        BridgeEvent::DecodeFailed(error) => {
            bridge.phase = BridgePhase::Finished;
            failure("frame_json_invalid:", &error)
        },
        BridgeEvent::Encoded(payload) => {
            let shutdown = match bridge.phase {
                BridgePhase::Encoding { shutdown } => shutdown,
                _ => false,
            };
            let mut bytes: Vec<u8> = Vec::new();
            match write_frame(&mut bytes, payload.as_slice()) {
                Ok(()) => {
                    assert(bytes@ =~= frame_bytes(payload@));
                    bridge.phase = BridgePhase::Replying { shutdown };
                    BridgeAction::Write(bytes)
                },
                Err(error) => {
                    bridge.phase = BridgePhase::Finished;
                    BridgeAction::Finish(Err(error))
                },
            }
        },
        BridgeEvent::EncodeFailed(error) => {
            bridge.phase = BridgePhase::Finished;
            failure("frame_json_encode_failed:", &error)
        },
    }
}

/// A frame that was written is read back, whatever follows it. No frame has an empty
/// payload.
pub proof fn law_frame_round_trip(payload: Seq<u8>, rest: Seq<u8>)
    requires
        0 < payload.len() <= MAX_FRAME_BYTES,
    ensures
        scan_frame(frame_bytes(payload) + rest) == (FrameScan::Frame { payload, rest }),
{
    let bytes = frame_bytes(payload) + rest;
    let n = payload.len();
    assert(prefixed_length(bytes) == n);
    assert(bytes.subrange(4, 4 + n as int) =~= payload);
    assert(bytes.skip(4 + n as int) =~= rest);
}

/// A frame that is written in some encoding is read back through it, and what follows it
/// is left: `encoded` and `decoded` stand for any way to write frames as bytes in which
/// this frame can be read back.
pub proof fn law_encoded_frame_round_trip<T>(
    frame: T,
    encoded: spec_fn(T) -> Seq<u8>,
    decoded: spec_fn(Seq<u8>) -> Option<T>,
    rest: Seq<u8>,
    end: Option<InputEnd>,
)
    requires
        decoded(encoded(frame)) == Some(frame),
        0 < encoded(frame).len() <= MAX_FRAME_BYTES,
    ensures
        ({
            let input = frame_bytes(encoded(frame)) + rest;
            &&& frame_settled(input, end)
            &&& next_frame(input, end) matches Ok(Some(payload)) && decoded(payload) == Some(frame)
            &&& rest_of(input) == rest
        }),
{
    law_frame_round_trip(encoded(frame), rest);
}

/// A length that is 0 or too large is refused as soon as its four bytes are there,
/// whatever follows them.
pub proof fn law_invalid_length_refused(n: nat, rest: Seq<u8>)
    requires
        n == 0 || MAX_FRAME_BYTES < n <= u32::MAX,
    ensures
        scan_frame(length_prefix(n) + rest) == FrameScan::SizeInvalid,
{
    assert(prefixed_length(length_prefix(n) + rest) == n);
}

/// A reader that reads no more than it is asked for never takes up a byte that
/// follows the frame.
pub proof fn law_demand_stops_at_the_frame(bytes: Seq<u8>, chunk: Seq<u8>)
    requires
        scan_frame(bytes) matches FrameScan::Incomplete(n) && chunk.len() <= n,
    ensures
        scan_frame(bytes + chunk) matches FrameScan::Frame { payload, rest } ==> rest.len() == 0,
{
    if bytes.len() >= 4 {
        assert(prefixed_length(bytes + chunk) == prefixed_length(bytes));
    }
}

/// The bridge answers each request with one frame, which carries the request's id. It
/// ends with `Ok` after the answer to a shutdown request, and after no other answer
/// while the input goes on.
pub proof fn law_each_request_is_answered(
    waiting: BridgeState,
    frame: ClientFrame,
    encoding: BridgeState,
    encode: BridgeAction,
    payload: Vec<u8>,
    replying: BridgeState,
    write: BridgeAction,
    after: BridgeState,
    next: BridgeAction,
)
    requires
        waiting.phase == BridgePhase::Decoding,
        payload@.len() <= MAX_FRAME_BYTES,
        bridge_steps(waiting, BridgeEvent::Decoded(frame), encoding, encode),
        bridge_steps(encoding, BridgeEvent::Encoded(payload), replying, write),
        bridge_steps(replying, BridgeEvent::Wrote, after, next),
    ensures
        encode matches BridgeAction::Encode(reply) && reply.request_id@ == frame.request_id@
            && answers(frame, reply),
        write matches BridgeAction::Write(bytes) && bytes@ == frame_bytes(payload@),
        frame.kind@ == "shutdown"@ ==> next == BridgeAction::Finish(Ok(())),
        frame.kind@ != "shutdown"@ && waiting.end is None && waiting.bytes.len() == 0
            ==> next == BridgeAction::Read(1) && after.phase == BridgePhase::Reading,
{
}

/// The bytes of frames with these payloads, one after the other.
pub open spec fn stream(payloads: Seq<Seq<u8>>) -> Seq<u8>
    decreases payloads.len(),
{
    if payloads.len() == 0 {
        Seq::empty()
    } else {
        frame_bytes(payloads[0]) + stream(payloads.drop_first())
    }
}

/// The payloads of the whole frames at the front of `bytes`, in order.
pub open spec fn read_all(bytes: Seq<u8>) -> Seq<Seq<u8>>
    decreases bytes.len(),
{
    match scan_frame(bytes) {
        FrameScan::Frame { payload, rest } => if rest.len() < bytes.len() {
            seq![payload] + read_all(rest)
        } else {
            Seq::empty()
        },
        _ => Seq::empty(),
    }
}

/// Frames that were written one after the other are read back in that order.
pub proof fn law_stream_round_trip(payloads: Seq<Seq<u8>>)
    requires
        forall|i: int|
            0 <= i < payloads.len() ==> 0 < (#[trigger] payloads[i]).len() <= MAX_FRAME_BYTES,
    ensures
        read_all(stream(payloads)) == payloads,
    decreases payloads.len(),
{
    if payloads.len() > 0 {
        let tail = payloads.drop_first();
        assert forall|i: int| 0 <= i < tail.len() implies 0 < (#[trigger] tail[i]).len()
            <= MAX_FRAME_BYTES by {
            assert(tail[i] == payloads[i + 1]);
        }
        law_frame_round_trip(payloads[0], stream(tail));
        law_stream_round_trip(tail);
        assert(seq![payloads[0]] + tail =~= payloads);
    } else {
        assert(read_all(stream(payloads)) =~= payloads);
    }
}

/// A step of a run: what happened, and the bridge and its action after that.
pub struct Turn {
    pub event: BridgeEvent,
    pub bridge: BridgeState,
    pub action: BridgeAction,
}

/// Whether `event` tells how the work that `action` asks for went.
pub open spec fn is_outcome(action: BridgeAction, event: BridgeEvent) -> bool {
    match action {
        BridgeAction::Write(_) => event is Wrote || event is WriteFailed,
        BridgeAction::Read(count) => (event matches BridgeEvent::Received(chunk) && 0
            < chunk@.len() <= count) || event is Ended,
        BridgeAction::Decode(_) => event is Decoded || event is DecodeFailed,
        BridgeAction::Encode(_) => event is Encoded || event is EncodeFailed,
        BridgeAction::Finish(_) => false,
    }
}

/// Whether `turns` is how a bridge goes on that asks for `action`.
pub open spec fn is_run(bridge: BridgeState, action: BridgeAction, turns: Seq<Turn>) -> bool
    decreases turns.len(),
{
    turns.len() == 0 || {
        let turn = turns[0];
        &&& is_outcome(action, turn.event)
        &&& bridge.expects(turn.event)
        &&& bridge_steps(bridge, turn.event, turn.bridge, turn.action)
        &&& is_run(turn.bridge, turn.action, turns.drop_first())
    }
}

/// The requests that a run takes up, in order.
pub open spec fn requests(turns: Seq<Turn>) -> Seq<ClientFrame>
    decreases turns.len(),
{
    if turns.len() == 0 {
        Seq::empty()
    } else {
        let rest = requests(turns.drop_first());
        match turns[0].event {
            BridgeEvent::Decoded(frame) => seq![frame] + rest,
            _ => rest,
        }
    }
}

/// The answers that a run encodes as frames, in order.
pub open spec fn replies(action: BridgeAction, turns: Seq<Turn>) -> Seq<ServerFrame>
    decreases turns.len(),
{
    if turns.len() == 0 {
        Seq::empty()
    } else {
        let rest = replies(turns[0].action, turns.drop_first());
        match (action, turns[0].event) {
            (BridgeAction::Encode(reply), BridgeEvent::Encoded(payload)) => if payload@.len()
                <= MAX_FRAME_BYTES {
                seq![reply] + rest
            } else {
                rest
            },
            _ => rest,
        }
    }
}

/// The payloads of these answers, in order.
pub open spec fn reply_payloads(turns: Seq<Turn>) -> Seq<Seq<u8>>
    decreases turns.len(),
{
    if turns.len() == 0 {
        Seq::empty()
    } else {
        let rest = reply_payloads(turns.drop_first());
        match turns[0].event {
            BridgeEvent::Encoded(payload) => if payload@.len() <= MAX_FRAME_BYTES {
                seq![payload@] + rest
            } else {
                rest
            },
            _ => rest,
        }
    }
}

/// The bytes that `action` asks to write.
pub open spec fn bytes_of(action: BridgeAction) -> Seq<u8> {
    match action {
        BridgeAction::Write(bytes) => bytes@,
        _ => Seq::empty(),
    }
}

/// The bytes that were written in the course of a run.
pub open spec fn written(action: BridgeAction, turns: Seq<Turn>) -> Seq<u8>
    decreases turns.len(),
{
    if turns.len() == 0 {
        Seq::empty()
    } else {
        let rest = written(turns[0].action, turns.drop_first());
        if turns[0].event is Wrote {
            bytes_of(action) + rest
        } else {
            rest
        }
    }
}

/// The bytes that are still to be written after a run, or that could not be written.
pub open spec fn unwritten(action: BridgeAction, turns: Seq<Turn>) -> Seq<u8>
    decreases turns.len(),
{
    if turns.len() == 0 {
        bytes_of(action)
    } else if turns[0].event is WriteFailed {
        bytes_of(action)
    } else {
        unwritten(turns[0].action, turns.drop_first())
    }
}

proof fn lemma_finish_ends_a_run(bridge: BridgeState, action: BridgeAction, turns: Seq<Turn>)
    requires
        is_run(bridge, action, turns),
        action is Finish,
    ensures
        turns.len() == 0,
{
}

proof fn lemma_run_writes_replies(bridge: BridgeState, action: BridgeAction, turns: Seq<Turn>)
    requires
        is_run(bridge, action, turns),
    ensures
        written(action, turns) + unwritten(action, turns) == bytes_of(action) + stream(
            reply_payloads(turns),
        ),
    decreases turns.len(),
{
    if turns.len() == 0 {
        assert(stream(reply_payloads(turns)) =~= Seq::<u8>::empty());
        assert(written(action, turns) + unwritten(action, turns) =~= bytes_of(action) + stream(
            reply_payloads(turns),
        ));
    } else {
        let turn = turns[0];
        let rest = turns.drop_first();
        lemma_run_writes_replies(turn.bridge, turn.action, rest);
        let later = reply_payloads(rest);
        match turn.event {
            BridgeEvent::Encoded(payload) => {
                if payload@.len() <= MAX_FRAME_BYTES {
                    let all = seq![payload@] + later;
                    assert(all.drop_first() =~= later);
                    assert(stream(all) == frame_bytes(payload@) + stream(later));
                    assert(bytes_of(action) + stream(all) =~= stream(all));
                } else {
                    assert(bytes_of(action) + stream(later) =~= stream(later));
                    assert(bytes_of(turn.action) + stream(later) =~= stream(later));
                }
            },
            BridgeEvent::Wrote => {
                assert(bytes_of(turn.action) + stream(later) =~= stream(later));
                assert(written(action, turns) + unwritten(action, turns) =~= bytes_of(action) + (
                written(turn.action, rest) + unwritten(turn.action, rest)));
            },
            BridgeEvent::WriteFailed(_) => {
                lemma_finish_ends_a_run(turn.bridge, turn.action, rest);
                assert(stream(later) =~= Seq::<u8>::empty());
                assert(written(action, turns) + unwritten(action, turns) =~= bytes_of(action)
                    + stream(later));
            },
            _ => {
                assert(bytes_of(action) =~= bytes_of(turn.action));
            },
        }
    }
}

/// Whether the answers answer the requests, one by one; the last request may still be
/// without one.
pub open spec fn answers_in_order(asked: Seq<ClientFrame>, given: Seq<ServerFrame>) -> bool {
    &&& given.len() <= asked.len() <= given.len() + 1
    &&& forall|i: int| 0 <= i < given.len() ==> answers(asked[i], #[trigger] given[i])
}

proof fn lemma_run_answers_in_order(
    bridge: BridgeState,
    action: BridgeAction,
    turns: Seq<Turn>,
    open_request: Option<ClientFrame>,
)
    requires
        is_run(bridge, action, turns),
        match open_request {
            Some(frame) => action matches BridgeAction::Encode(reply) && answers(frame, reply),
            None => !(action is Encode),
        },
    ensures
        answers_in_order(
            match open_request {
                Some(frame) => seq![frame] + requests(turns),
                None => requests(turns),
            },
            replies(action, turns),
        ),
    decreases turns.len(),
{
    if turns.len() > 0 {
        let turn = turns[0];
        let rest = turns.drop_first();
        match turn.event {
            BridgeEvent::Decoded(frame) => {
                lemma_run_answers_in_order(turn.bridge, turn.action, rest, Some(frame));
            },
            BridgeEvent::Encoded(payload) => {
                lemma_run_answers_in_order(turn.bridge, turn.action, rest, None);
                let frame = open_request->0;
                let asked = seq![frame] + requests(rest);
                if payload@.len() <= MAX_FRAME_BYTES {
                    let given = replies(action, turns);
                    let later = replies(turn.action, rest);
                    assert(given == seq![action->Encode_0] + later);
                    assert forall|i: int| 0 <= i < given.len() implies answers(
                        asked[i],
                        #[trigger] given[i],
                    ) by {
                        if i > 0 {
                            assert(given[i] == later[i - 1]);
                            assert(answers(requests(rest)[i - 1], later[i - 1]));
                        }
                    }
                } else {
                    lemma_finish_ends_a_run(turn.bridge, turn.action, rest);
                    assert(requests(rest).len() == 0);
                    assert(replies(turn.action, rest).len() == 0);
                }
            },
            BridgeEvent::EncodeFailed(_) => {
                lemma_finish_ends_a_run(turn.bridge, turn.action, rest);
                assert(requests(rest).len() == 0);
                assert(replies(turn.action, rest).len() == 0);
            },
            _ => {
                lemma_run_answers_in_order(turn.bridge, turn.action, rest, None);
            },
        }
    }
}

/// A whole run of the bridge, however its input is cut into pieces and wherever it
/// stops: it writes the preamble and then one frame for each request, in the order of
/// the requests, each holding the answer to its request. Only the end of this may be
/// unwritten: what is being written when the run is looked at, or could not be written;
/// and only the last request may be without an answer.
pub proof fn law_run_answers_all_requests(
    nonce: Seq<char>,
    bridge: BridgeState,
    action: BridgeAction,
    turns: Seq<Turn>,
)
    requires
        bridge.phase == BridgePhase::Preamble,
        bytes_of(action) == encode_utf8(preamble_line(nonce)),
        action is Write,
        is_run(bridge, action, turns),
    ensures
        written(action, turns) + unwritten(action, turns) == encode_utf8(preamble_line(nonce))
            + stream(reply_payloads(turns)),
        reply_payloads(turns).len() == replies(action, turns).len(),
        answers_in_order(requests(turns), replies(action, turns)),
{
    lemma_run_writes_replies(bridge, action, turns);
    lemma_run_answers_in_order(bridge, action, turns, None);
    lemma_payload_for_each_reply(bridge, action, turns);
}

proof fn lemma_payload_for_each_reply(bridge: BridgeState, action: BridgeAction, turns: Seq<Turn>)
    requires
        is_run(bridge, action, turns),
    ensures
        reply_payloads(turns).len() == replies(action, turns).len(),
    decreases turns.len(),
{
    if turns.len() > 0 {
        lemma_payload_for_each_reply(turns[0].bridge, turns[0].action, turns.drop_first());
    }
}

/// The bridge takes up no request after one to shut down.
pub proof fn law_shutdown_is_the_last_request(
    bridge: BridgeState,
    action: BridgeAction,
    turns: Seq<Turn>,
    i: int,
)
    requires
        is_run(bridge, action, turns),
        0 <= i < requests(turns).len(),
        requests(turns)[i].kind@ == "shutdown"@,
    ensures
        i == requests(turns).len() - 1,
    decreases turns.len(),
{
    let turn = turns[0];
    let rest = turns.drop_first();
    match turn.event {
        BridgeEvent::Decoded(frame) => {
            if i > 0 {
                law_shutdown_is_the_last_request(turn.bridge, turn.action, rest, i - 1);
            } else {
                lemma_no_request_while_shutting_down(turn.bridge, turn.action, rest);
            }
        },
        _ => {
            law_shutdown_is_the_last_request(turn.bridge, turn.action, rest, i);
        },
    }
}

proof fn lemma_no_request_while_shutting_down(
    bridge: BridgeState,
    action: BridgeAction,
    turns: Seq<Turn>,
)
    requires
        is_run(bridge, action, turns),
        bridge.phase == (BridgePhase::Encoding { shutdown: true }) || bridge.phase == (
        BridgePhase::Replying { shutdown: true }) || bridge.phase == BridgePhase::Finished,
    ensures
        requests(turns).len() == 0,
    decreases turns.len(),
{
    if turns.len() > 0 {
        lemma_no_request_while_shutting_down(turns[0].bridge, turns[0].action, turns.drop_first());
    }
}

/// The answer carries the request's id. A greeting is answered with the protocol's version
/// and what the bridge can do, a ping with what it held, a shutdown with consent; any other
/// request is refused by name. Only a shutdown ends the bridge.
pub proof fn law_requests_are_answered_in_kind(frame: ClientFrame, result: (ServerFrame, bool))
    requires
        call_ensures(handle_frame, (frame,), result),
    ensures
        ({
            let kind = frame.kind@;
            let reply = result.0;
            let told = json_view(reply.payload);
            &&& reply.request_id@ == frame.request_id@
            &&& result.1 <==> kind == "shutdown"@
            &&& kind == "hello"@ ==> reply.kind@ == "helloOk"@ && told == Json::Object(
                map![
                    "protocolMajor"@ => Json::Unsigned(1),
                    "protocolMinor"@ => Json::Unsigned(0),
                    "capabilities"@ => Json::Array(seq![Json::Text("bridgeProtocol"@)]),
                ],
            )
            &&& kind == "ping"@ ==> reply.kind@ == "pong"@ && reply.payload == frame.payload
            &&& kind == "shutdown"@ ==> reply.kind@ == "response"@ && told == Json::Object(
                map!["accepted"@ => Json::Bool(true)],
            )
            &&& kind != "hello"@ && kind != "ping"@ && kind != "shutdown"@ ==> reply.kind@
                == "error"@ && told == Json::Object(
                map![
                    "code"@ => Json::Text("unsupported_message"@),
                    "messageKind"@ => Json::Text(kind),
                ],
            )
        }),
{
    reveal_kinds();
}

/// What is written is read back, frame by frame: the payload that was given, and then the
/// input goes on with what follows. A payload of more than 1 MiB is refused, and nothing is
/// written.
pub proof fn law_written_frame_is_read(
    writer: &mut Vec<u8>,
    payload: &[u8],
    wrote: Result<(), String>,
    reader: &mut FrameReader,
    rest: Seq<u8>,
    read: Result<Option<Vec<u8>>, String>,
)
    requires
        call_ensures(write_frame, (writer, payload), wrote),
        call_ensures(read_frame, (reader,), read),
        old(writer)@.len() == 0,
        payload@.len() > 0,
        old(reader).bytes@ == final(writer)@ + rest,
    ensures
        wrote is Ok <==> payload@.len() <= 1_048_576,
        wrote is Ok ==> (read matches Ok(Some(bytes)) && bytes@ == payload@) && final(reader).bytes@ == rest && final(reader).end == old(reader).end,
        wrote matches Err(e) ==> e@ == "frame_size_invalid"@ && final(writer)@.len() == 0,
{
    if payload@.len() <= MAX_FRAME_BYTES {
        assert(old(writer)@ + frame_bytes(payload@) =~= frame_bytes(payload@));
        law_frame_round_trip(payload@, rest);
    }
}

/// What is not a whole frame is an error where the input ended: a length that no frame may
/// have, a length or a payload that broke off, with the reason of a failure; only an input
/// that ended before a frame is over without one.
pub proof fn law_broken_frames_are_errors(
    reader: &mut FrameReader,
    read: Result<Option<Vec<u8>>, String>,
)
    requires
        call_ensures(read_frame, (reader,), read),
        old(reader).end is Some,
    ensures
        ({
            let bytes = old(reader).bytes@;
            let length = bytes[0] * 0x100_0000 + bytes[1] * 0x1_0000 + bytes[2] * 0x100 + bytes[3];
            let reason = match old(reader).end {
                Some(InputEnd::Failed(error)) => error@,
                _ => "failed to fill whole buffer"@,
            };
            &&& bytes.len() == 0 && (old(reader).end matches Some(InputEnd::Eof)) ==> (read
                matches Ok(None))
            &&& bytes.len() == 0 && (old(reader).end matches Some(InputEnd::Failed(_))) ==> (read
                matches Err(e) && e@ == "frame_length_read_failed:"@ + reason)
            &&& 0 < bytes.len() < 4 ==> (read matches Err(e) && e@ == "frame_length_read_failed:"@
                + reason)
            &&& bytes.len() >= 4 && (length == 0 || length > 1_048_576) ==> (read matches Err(e)
                && e@ == "frame_size_invalid"@)
            &&& bytes.len() >= 4 && 0 < length <= 1_048_576 && bytes.len() < 4 + length ==> (read
                matches Err(e) && e@ == "frame_payload_read_failed:"@ + reason)
            &&& read matches Ok(Some(payload)) ==> payload@.len() == length
            &&& !(read matches Ok(Some(_))) ==> final(reader).bytes@ == bytes
        }),
{
    assert(final(reader).bytes@ == rest_of(old(reader).bytes@));
}

/// A reader asks for the first byte alone, then for the rest of the length, then for what
/// the payload lacks; for nothing once the frame is decided.
pub proof fn law_reader_asks_for_what_is_missing(reader: FrameReader, count: usize)
    requires
        call_ensures(FrameReader::demand, (&reader,), count),
    ensures
        ({
            let bytes = reader.bytes@;
            let length = bytes[0] * 0x100_0000 + bytes[1] * 0x1_0000 + bytes[2] * 0x100 + bytes[3];
            &&& reader.end is Some ==> count == 0
            &&& reader.end is None && bytes.len() == 0 ==> count == 1
            &&& reader.end is None && 0 < bytes.len() < 4 ==> count == 4 - bytes.len()
            &&& reader.end is None && bytes.len() >= 4 && (length == 0 || length > 1_048_576)
                ==> count == 0
            &&& reader.end is None && bytes.len() >= 4 && 0 < length <= 1_048_576 ==> count
                == if bytes.len() < 4 + length {
                4 + length - bytes.len()
            } else {
                0
            }
        }),
{
}

/// The preamble is a line with the protocol's name and version and the nonce.
pub proof fn law_preamble_shows_the_nonce(writer: &mut Vec<u8>, nonce: &str, nothing: ())
    requires
        call_ensures(write_preamble, (writer, nonce), nothing),
    ensures
        final(writer)@ == old(writer)@ + encode_utf8("CLI_MANAGER_SSH_AGENT/"@ + seq!['1'] + " "@
            + nonce@ + "\n"@),
{
    assert(decimal(1) =~= seq!['1']);
}

/// A step of the bridge. Once a write succeeded, the bridge goes on reading, unless it was
/// the answer to a shutdown, after which it ends. A request is answered, an answer framed
/// and written. What fails ends the bridge with an error that tells what it was.
pub proof fn law_bridge_goes_on_or_says_why_not(
    bridge: &mut Bridge,
    event: BridgeEvent,
    action: BridgeAction,
)
    requires
        old(bridge)@.expects(event),
        call_ensures(run_bridge, (bridge, event), action),
    ensures
        ({
            let before = old(bridge)@;
            let after = final(bridge)@;
            let failure = match event {
                BridgeEvent::WriteFailed(error) => Some(
                    if before.phase is Preamble {
                        "preamble_write_failed:"@ + error@
                    } else {
                        "frame_write_failed:"@ + error@
                    },
                ),
                BridgeEvent::DecodeFailed(error) => Some("frame_json_invalid:"@ + error@),
                BridgeEvent::EncodeFailed(error) => Some("frame_json_encode_failed:"@ + error@),
                BridgeEvent::Encoded(payload) => if payload@.len() > 1_048_576 {
                    Some("frame_size_invalid"@)
                } else {
                    None
                },
                _ => None,
            };
            &&& failure matches Some(reason) ==> after.phase == BridgePhase::Finished && (action
                matches BridgeAction::Finish(Err(e)) && e@ == reason)
            &&& event is Wrote && before.phase == (BridgePhase::Replying { shutdown: true })
                ==> after.phase == BridgePhase::Finished && action == BridgeAction::Finish(Ok(()))
            &&& event is Wrote && before.phase != (BridgePhase::Replying { shutdown: true })
                && before.end is None && before.bytes.len() == 0 ==> after.phase
                == BridgePhase::Reading && action == BridgeAction::Read(1)
            &&& event matches BridgeEvent::Decoded(frame) ==> {
                &&& after.phase == (BridgePhase::Encoding { shutdown: frame.kind@ == "shutdown"@ })
                &&& action matches BridgeAction::Encode(reply) && reply.request_id@
                    == frame.request_id@
            }
            &&& event matches BridgeEvent::Encoded(payload) ==> (payload@.len() <= 1_048_576
                ==> after.phase == (BridgePhase::Replying {
                shutdown: before.phase->Encoding_shutdown,
            }) && (action matches BridgeAction::Write(bytes) && bytes@.len() == 4 + payload@.len()
                && bytes@.skip(4) == payload@))
            &&& event matches BridgeEvent::Ended(InputEnd::Eof) ==> (before.bytes.len() == 0
                ==> after.phase == BridgePhase::Finished && action == BridgeAction::Finish(Ok(())))
        }),
{
    assert(bridge_steps(old(bridge)@, event, final(bridge)@, action));
    if let BridgeEvent::Encoded(payload) = event {
        assert(frame_bytes(payload@).skip(4) =~= payload@);
    }
}

/// Bytes that are received are taken up behind those that were there: where they complete a
/// frame, its payload is decoded next and the rest kept; where they do not, exactly what is
/// missing is read next.
pub proof fn law_received_bytes_complete_a_frame(
    bridge: &mut Bridge,
    chunk: Vec<u8>,
    payload: Seq<u8>,
    rest: Seq<u8>,
    action: BridgeAction,
)
    requires
        old(bridge)@.phase == BridgePhase::Reading,
        call_ensures(run_bridge, (bridge, BridgeEvent::Received(chunk)), action),
        0 < payload.len() <= 1_048_576,
    ensures
        old(bridge)@.bytes + chunk@ == frame_bytes(payload) + rest ==> final(bridge)@.phase
            == BridgePhase::Decoding && final(bridge)@.bytes == rest && (action
            matches BridgeAction::Decode(p) && p@ == payload),
        old(bridge)@.end is None && 4 <= (old(bridge)@.bytes + chunk@).len() < 4 + payload.len()
            && (old(bridge)@.bytes + chunk@).take(4) == length_prefix(payload.len()) ==> final(bridge)@.phase == BridgePhase::Reading && final(bridge)@.bytes == old(bridge)@.bytes + chunk@
            && action == BridgeAction::Read(
            (4 + payload.len() - (old(bridge)@.bytes + chunk@).len()) as usize,
        ),
        final(bridge)@.end == old(bridge)@.end,
{
    let all = old(bridge)@.bytes + chunk@;
    assert(bridge_steps(old(bridge)@, BridgeEvent::Received(chunk), final(bridge)@, action));
    if all == frame_bytes(payload) + rest {
        law_frame_round_trip(payload, rest);
    }
    if 4 <= all.len() && all.take(4) == length_prefix(payload.len()) {
        assert(all[0] == all.take(4)[0]);
        assert(all[1] == all.take(4)[1]);
        assert(all[2] == all.take(4)[2]);
        assert(all[3] == all.take(4)[3]);
        assert(prefixed_length(all) == payload.len());
    }
}

/// The length of a frame is written in four bytes, the most significant one first.
pub proof fn law_length_is_written_big_endian(payload: Seq<u8>)
    requires
        payload.len() <= 1_048_576,
    ensures
        ({
            let bytes = frame_bytes(payload);
            &&& bytes.len() == 4 + payload.len()
            &&& bytes[0] * 0x100_0000 + bytes[1] * 0x1_0000 + bytes[2] * 0x100 + bytes[3]
                == payload.len()
            &&& bytes.skip(4) == payload
        }),
{
    assert(frame_bytes(payload).skip(4) =~= payload);
}

/// An input is what was read of it, in order, until it ends; one that is there as a whole has
/// ended.
pub proof fn law_input_is_what_was_read(
    fresh: FrameReader,
    whole: FrameReader,
    bytes: Vec<u8>,
    reader: &mut FrameReader,
    chunk: &[u8],
    other: &mut FrameReader,
    end: InputEnd,
    nothing: (),
)
    requires
        call_ensures(FrameReader::new, (), fresh),
        call_ensures(FrameReader::from_bytes, (bytes,), whole),
        call_ensures(FrameReader::feed, (reader, chunk), nothing),
        call_ensures(FrameReader::finish, (other, end), nothing),
    ensures
        fresh.bytes@.len() == 0 && fresh.end is None,
        whole.bytes@ == bytes@ && whole.end == Some(InputEnd::Eof),
        final(reader).bytes@ == old(reader).bytes@ + chunk@ && final(reader).end == old(reader).end,
        final(other).bytes@ == old(other).bytes@ && final(other).end == Some(end),
{
}

/// The bridge begins with the preamble, before it reads anything.
pub proof fn law_bridge_begins_with_the_preamble(
    nonce: &str,
    started: (Bridge, BridgeAction),
    within: bool,
    writer: &mut Vec<u8>,
    nothing: (),
)
    requires
        call_ensures(Bridge::start, (nonce,), started),
        call_ensures(Bridge::is_within_request, (&started.0,), within),
        call_ensures(write_preamble, (writer, nonce), nothing),
        old(writer)@.len() == 0,
    ensures
        started.0@.phase == BridgePhase::Preamble,
        started.0@.end is None,
        !within,
        started.1 matches BridgeAction::Write(bytes) && bytes@ == final(writer)@,
{
    assert(old(writer)@ + encode_utf8(preamble_line(nonce@)) =~= encode_utf8(
        preamble_line(nonce@),
    ));
}

/// What a bridge reads is read as from any input: once the input ended, or once a write
/// succeeded, the next frame is taken from what was read, or the bridge ends as reading
/// does.
pub proof fn law_bridge_reads_as_any_reader(
    bridge: &mut Bridge,
    event: BridgeEvent,
    action: BridgeAction,
    reader: &mut FrameReader,
    read: Result<Option<Vec<u8>>, String>,
)
    requires
        old(bridge)@.expects(event),
        call_ensures(run_bridge, (bridge, event), action),
        call_ensures(read_frame, (reader,), read),
        old(reader).bytes@ == old(bridge)@.bytes,
        match event {
            BridgeEvent::Ended(cause) => old(reader).end == Some(cause),
            BridgeEvent::Wrote => old(bridge)@.end is Some && old(reader).end == old(bridge)@.end
                && old(bridge)@.phase != (BridgePhase::Replying { shutdown: true }),
            _ => false,
        },
    ensures
        final(bridge)@.bytes == final(reader).bytes@,
        final(bridge)@.end == old(reader).end,
        match read {
            Ok(Some(payload)) => final(bridge)@.phase == BridgePhase::Decoding && (action
                matches BridgeAction::Decode(p) && p@ == payload@),
            Ok(None) => final(bridge)@.phase == BridgePhase::Finished && action
                == BridgeAction::Finish(Ok(())),
            Err(error) => final(bridge)@.phase == BridgePhase::Finished && (action
                matches BridgeAction::Finish(Err(e)) && e@ == error@),
        },
{
    assert(bridge_steps(old(bridge)@, event, final(bridge)@, action));
    assert(final(reader).bytes@ == rest_of(old(reader).bytes@));
}

} // verus!
