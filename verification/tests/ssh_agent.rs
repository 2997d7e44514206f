use cli_manager::ssh_agent::command::{bridge_protocol, run, AgentCommand};
use cli_manager::ssh_agent::protocol::{
    handle_frame, read_frame, run_bridge, write_frame, write_preamble, Bridge, BridgeAction,
    BridgeEvent, ClientFrame, FrameReader, InputEnd, ServerFrame, MAX_FRAME_BYTES,
};
use cli_manager::ssh_agent::report::{doctor_report, status_report, LayoutReport};
use serde_json::Value;

fn json(text: &str) -> Value {
    serde_json::from_str(text).unwrap()
}

fn strings(words: &[&str]) -> Vec<String> {
    words.iter().map(|word| word.to_string()).collect()
}

fn encoded(request_id: &str, kind: &str, payload: Value) -> Vec<u8> {
    let mut value = Value::Null;
    value["requestId"] = Value::from(request_id);
    value["kind"] = Value::from(kind);
    value["payload"] = payload;
    serde_json::to_vec(&value).unwrap()
}

fn encoded_client_frame(request_id: &str, kind: &str, payload: Value) -> Vec<u8> {
    let payload = encoded(request_id, kind, payload);
    let mut bytes = Vec::with_capacity(payload.len() + 4);
    bytes.extend_from_slice(&(payload.len() as u32).to_be_bytes());
    bytes.extend_from_slice(&payload);
    bytes
}

fn decoded(payload: &[u8]) -> Result<ClientFrame, String> {
    let value: Value = serde_json::from_slice(payload).map_err(|error| error.to_string())?;
    Ok(ClientFrame {
        request_id: value["requestId"].as_str().ok_or("requestId")?.to_string(),
        kind: value["kind"].as_str().ok_or("kind")?.to_string(),
        payload: value["payload"].clone(),
    })
}

/// Runs a bridge on an input that comes in pieces of at most `piece` bytes.
fn bridge(input: &[u8], nonce: &str, piece: usize) -> (Result<(), String>, Vec<u8>) {
    let mut output = Vec::new();
    let mut position = 0;
    let (mut bridge, mut action) = Bridge::start(nonce);
    loop {
        let event = match action {
            BridgeAction::Write(bytes) => {
                output.extend_from_slice(&bytes);
                BridgeEvent::Wrote
            }
            BridgeAction::Read(count) => {
                let count = count.min(piece).min(input.len() - position);
                if count == 0 {
                    BridgeEvent::Ended(InputEnd::Eof)
                } else {
                    position += count;
                    BridgeEvent::Received(input[position - count..position].to_vec())
                }
            }
            BridgeAction::Decode(payload) => match decoded(&payload) {
                Ok(frame) => BridgeEvent::Decoded(frame),
                Err(error) => BridgeEvent::DecodeFailed(error),
            },
            BridgeAction::Encode(reply) => {
                BridgeEvent::Encoded(encoded(&reply.request_id, &reply.kind, reply.payload))
            }
            BridgeAction::Finish(result) => return (result, output),
        };
        action = run_bridge(&mut bridge, event);
    }
}

fn replies(output: &[u8]) -> Vec<Value> {
    let start = output.iter().position(|byte| *byte == b'\n').unwrap() + 1;
    let mut reader = FrameReader::from_bytes(output[start..].to_vec());
    let mut found = Vec::new();
    while let Some(payload) = read_frame(&mut reader).unwrap() {
        found.push(serde_json::from_slice(&payload).unwrap());
    }
    found
}

#[test]
fn bridge_requires_an_explicit_compatible_protocol() {
    assert_eq!(
        bridge_protocol(&strings(&["--stdio"])).unwrap_err(),
        "bridge_protocol_required"
    );
    assert_eq!(
        bridge_protocol(&strings(&["--stdio", "--protocol", "1"])).unwrap(),
        "1"
    );
}

#[test]
fn status_and_doctor_remain_structured_without_a_layout() {
    let version = json(r#"{ "agentName": "cli-manager-ssh-agent" }"#);
    let status = status_report(version.clone(), Err("home_directory_unavailable".to_string()));
    assert_eq!(status["version"]["agentName"], "cli-manager-ssh-agent");
    assert_eq!(status["layout"], Value::Null);
    assert_eq!(status["state"]["layout"], "unavailable");
    assert_eq!(status["diagnostic"], "home_directory_unavailable");
    let doctor = doctor_report(version, Err("home_directory_unavailable".to_string()), true);
    assert!(doctor["supported"].is_boolean());
    assert!(doctor["code"].is_string());
    assert_eq!(doctor["code"], "home_directory_unavailable");
}

#[test]
fn ping_round_trips_payload() {
    let (frame, shutdown) = handle_frame(ClientFrame {
        request_id: "request-1".into(),
        kind: "ping".into(),
        payload: json(r#"{ "sentAt": 42 }"#),
    });
    assert!(!shutdown);
    assert_eq!(frame.kind, "pong");
    assert_eq!(frame.payload["sentAt"], 42);
    assert_eq!(frame.request_id, "request-1");
}

#[test]
fn bridge_writes_preamble_and_shutdown_response() {
    let input = encoded_client_frame("request-2", "shutdown", json("{}"));
    let (result, output) = bridge(&input, "nonce-1", usize::MAX);
    result.unwrap();
    let preamble_end = output.iter().position(|byte| *byte == b'\n').unwrap() + 1;
    assert_eq!(
        &output[..preamble_end],
        b"CLI_MANAGER_SSH_AGENT/1 nonce-1\n"
    );
    let responses = replies(&output);
    assert_eq!(responses.len(), 1);
    let response: ServerFrame = ServerFrame {
        request_id: responses[0]["requestId"].as_str().unwrap().to_string(),
        kind: responses[0]["kind"].as_str().unwrap().to_string(),
        payload: responses[0]["payload"].clone(),
    };
    assert_eq!(response.request_id, "request-2");
    assert_eq!(response.kind, "response");
    assert_eq!(response.payload["accepted"], true);
}

#[test]
fn oversized_frame_is_rejected() {
    let mut input =
        FrameReader::from_bytes(((MAX_FRAME_BYTES as u32) + 1).to_be_bytes().to_vec());
    assert_eq!(read_frame(&mut input).unwrap_err(), "frame_size_invalid");
}

#[test]
fn clean_eof_and_truncated_length_are_distinct() {
    assert!(read_frame(&mut FrameReader::from_bytes(Vec::new()))
        .unwrap()
        .is_none());
    let error = read_frame(&mut FrameReader::from_bytes(vec![0, 0])).unwrap_err();
    assert!(error.starts_with("frame_length_read_failed:"));
}

#[test]
fn server_frame_uses_length_prefix() {
    let mut output = Vec::new();
    let payload = encoded("request-3", "pong", json("{}"));
    write_frame(&mut output, &payload).unwrap();
    let length = u32::from_be_bytes(output[..4].try_into().unwrap()) as usize;
    assert_eq!(length, output.len() - 4);
    assert_eq!(&output[4..], &payload[..]);
}

#[test]
fn an_empty_frame_is_rejected() {
    let mut input = FrameReader::from_bytes(vec![0, 0, 0, 0, 1]);
    assert_eq!(read_frame(&mut input).unwrap_err(), "frame_size_invalid");
}

#[test]
fn a_truncated_payload_is_told_apart() {
    let mut input = FrameReader::from_bytes(vec![0, 0, 0, 3, 1]);
    assert_eq!(
        read_frame(&mut input).unwrap_err(),
        "frame_payload_read_failed:failed to fill whole buffer"
    );
    let mut reader = FrameReader::new();
    reader.feed(&[0, 0, 0, 3]);
    reader.finish(InputEnd::Failed("broken pipe".to_string()));
    assert_eq!(
        read_frame(&mut reader).unwrap_err(),
        "frame_payload_read_failed:broken pipe"
    );
    let mut reader = FrameReader::new();
    reader.finish(InputEnd::Failed("broken pipe".to_string()));
    assert_eq!(
        read_frame(&mut reader).unwrap_err(),
        "frame_length_read_failed:broken pipe"
    );
}

#[test]
fn an_oversized_payload_is_not_written() {
    let mut output = vec![7];
    assert_eq!(
        write_frame(&mut output, &vec![0; MAX_FRAME_BYTES + 1]).unwrap_err(),
        "frame_size_invalid"
    );
    assert_eq!(output, vec![7]);
    write_frame(&mut output, &vec![0; MAX_FRAME_BYTES]).unwrap();
    assert_eq!(&output[..5], &[7, 0, 0x10, 0, 0]);
}

#[test]
fn frames_are_read_back_in_order() {
    let mut bytes = Vec::new();
    write_frame(&mut bytes, b"first").unwrap();
    write_frame(&mut bytes, b"second").unwrap();
    let mut reader = FrameReader::from_bytes(bytes);
    assert_eq!(read_frame(&mut reader).unwrap().unwrap(), b"first");
    assert_eq!(read_frame(&mut reader).unwrap().unwrap(), b"second");
    assert!(read_frame(&mut reader).unwrap().is_none());
}

#[test]
fn a_reader_asks_for_what_the_frame_lacks() {
    let mut reader = FrameReader::new();
    assert_eq!(reader.demand(), 1);
    reader.feed(&[0]);
    assert_eq!(reader.demand(), 3);
    reader.feed(&[0, 0, 2]);
    assert_eq!(reader.demand(), 2);
    reader.feed(&[9]);
    assert_eq!(reader.demand(), 1);
    reader.feed(&[8]);
    assert_eq!(reader.demand(), 0);
    assert_eq!(read_frame(&mut reader).unwrap().unwrap(), vec![9, 8]);
}

#[test]
fn each_request_is_answered_until_shutdown() {
    let mut input = encoded_client_frame("a", "hello", json("{}"));
    input.extend(encoded_client_frame("b", "dance", json("{}")));
    input.extend(encoded_client_frame("c", "ping", json("[1]")));
    input.extend(encoded_client_frame("d", "shutdown", json("{}")));
    input.extend(encoded_client_frame("e", "ping", json("{}")));
    for piece in [1, 2, 5, usize::MAX] {
        let (result, output) = bridge(&input, "n", piece);
        result.unwrap();
        let answers = replies(&output);
        assert_eq!(answers.len(), 4);
        assert_eq!(answers[0]["requestId"], "a");
        assert_eq!(answers[0]["kind"], "helloOk");
        assert_eq!(
            answers[0]["payload"],
            json(r#"{ "protocolMajor": 1, "protocolMinor": 0, "capabilities": ["bridgeProtocol"] }"#)
        );
        assert_eq!(answers[1]["requestId"], "b");
        assert_eq!(answers[1]["kind"], "error");
        assert_eq!(
            answers[1]["payload"],
            json(r#"{ "code": "unsupported_message", "messageKind": "dance" }"#)
        );
        assert_eq!(answers[2]["payload"], json("[1]"));
        assert_eq!(answers[3]["payload"], json(r#"{ "accepted": true }"#));
    }
}

#[test]
fn a_bridge_ends_with_its_input() {
    let (result, output) = bridge(&[], "n", 1);
    result.unwrap();
    assert_eq!(output, b"CLI_MANAGER_SSH_AGENT/1 n\n");
    let (result, _) = bridge(&[0, 0], "n", 1);
    assert_eq!(
        result.unwrap_err(),
        "frame_length_read_failed:failed to fill whole buffer"
    );
}

#[test]
fn a_bridge_names_what_failed() {
    let (mut b, _) = Bridge::start("n");
    match run_bridge(&mut b, BridgeEvent::WriteFailed("closed".to_string())) {
        BridgeAction::Finish(result) => {
            assert_eq!(result.unwrap_err(), "preamble_write_failed:closed")
        }
        _ => panic!("expected the end"),
    }
    let mut frame = Vec::new();
    write_frame(&mut frame, b"nonsense").unwrap();
    let (result, _) = bridge(&frame, "n", 100);
    assert!(result.unwrap_err().starts_with("frame_json_invalid:"));

    let (mut b, _) = Bridge::start("n");
    run_bridge(&mut b, BridgeEvent::Wrote);
    run_bridge(&mut b, BridgeEvent::Received(frame));
    run_bridge(
        &mut b,
        BridgeEvent::Decoded(ClientFrame {
            request_id: "x".to_string(),
            kind: "ping".to_string(),
            payload: Value::Null,
        }),
    );
    run_bridge(&mut b, BridgeEvent::Encoded(b"{}".to_vec()));
    match run_bridge(&mut b, BridgeEvent::WriteFailed("closed".to_string())) {
        BridgeAction::Finish(result) => assert_eq!(result.unwrap_err(), "frame_write_failed:closed"),
        _ => panic!("expected the end"),
    }
}

/// A bridge that waits for an answer to be encoded.
fn encoding_bridge() -> Bridge {
    let (mut b, _) = Bridge::start("n");
    let mut frame = Vec::new();
    write_frame(&mut frame, b"{}").unwrap();
    run_bridge(&mut b, BridgeEvent::Wrote);
    assert!(!b.is_within_request());
    run_bridge(&mut b, BridgeEvent::Received(frame[..1].to_vec()));
    assert!(b.is_within_request());
    run_bridge(&mut b, BridgeEvent::Received(frame[1..].to_vec()));
    run_bridge(
        &mut b,
        BridgeEvent::Decoded(ClientFrame {
            request_id: "x".to_string(),
            kind: "ping".to_string(),
            payload: Value::Null,
        }),
    );
    b
}

#[test]
fn an_answer_that_cannot_be_encoded_ends_the_bridge() {
    let mut b = encoding_bridge();
    match run_bridge(&mut b, BridgeEvent::EncodeFailed("odd".to_string())) {
        BridgeAction::Finish(result) => {
            assert_eq!(result.unwrap_err(), "frame_json_encode_failed:odd")
        }
        _ => panic!("expected the end"),
    }
    let mut b = encoding_bridge();
    match run_bridge(&mut b, BridgeEvent::Encoded(vec![0; MAX_FRAME_BYTES + 1])) {
        BridgeAction::Finish(result) => assert_eq!(result.unwrap_err(), "frame_size_invalid"),
        _ => panic!("expected the end"),
    }
}

#[test]
fn a_frame_is_read_back_through_its_encoding() {
    let payload = json(r#"{ "deep": [1, { "text": "grün" }, null] }"#);
    let mut bytes = Vec::new();
    write_frame(&mut bytes, &encoded("r", "ping", payload.clone())).unwrap();
    bytes.extend_from_slice(b"rest");
    let mut reader = FrameReader::from_bytes(bytes);
    let frame = decoded(&read_frame(&mut reader).unwrap().unwrap()).unwrap();
    assert_eq!((frame.request_id.as_str(), frame.kind.as_str()), ("r", "ping"));
    assert_eq!(frame.payload, payload);
    assert_eq!(reader.bytes, b"rest");
}

#[test]
fn a_preamble_is_appended() {
    let mut bytes = b"before ".to_vec();
    write_preamble(&mut bytes, "abc");
    assert_eq!(bytes, b"before CLI_MANAGER_SSH_AGENT/1 abc\n");
}

#[test]
fn the_command_word_decides() {
    assert!(matches!(run(&[]).unwrap(), AgentCommand::Version));
    assert!(matches!(
        run(&strings(&["version"])).unwrap(),
        AgentCommand::Version
    ));
    assert!(matches!(
        run(&strings(&["status"])).unwrap(),
        AgentCommand::Status
    ));
    assert!(matches!(
        run(&strings(&["doctor"])).unwrap(),
        AgentCommand::Doctor
    ));
    assert_eq!(
        run(&strings(&["dance"])).unwrap_err(),
        "unknown_command:dance"
    );
}

#[test]
fn a_bridge_needs_its_options() {
    assert_eq!(
        run(&strings(&["bridge", "--protocol", "1"])).unwrap_err(),
        "bridge_stdio_required"
    );
    assert_eq!(
        run(&strings(&["bridge", "--stdio", "--protocol"])).unwrap_err(),
        "bridge_protocol_required"
    );
    assert_eq!(
        run(&strings(&["bridge", "--stdio", "--protocol", "2"])).unwrap_err(),
        "bridge_protocol_incompatible"
    );
}

#[test]
fn a_bridge_gets_a_fresh_nonce() {
    let mut nonces = Vec::new();
    for _ in 0..2 {
        match run(&strings(&["bridge", "--stdio", "--protocol", "1"])).unwrap() {
            AgentCommand::Bridge { nonce } => {
                assert_eq!(nonce.len(), 32);
                assert!(nonce
                    .chars()
                    .all(|c| c.is_ascii_digit() || ('a'..='f').contains(&c)));
                assert_eq!(&nonce[12..13], "4");
                assert!("89ab".contains(&nonce[16..17]));
                nonces.push(nonce);
            }
            _ => panic!("expected a bridge"),
        }
    }
    assert_ne!(nonces[0], nonces[1]);
}

#[test]
fn a_status_tells_of_the_directories() {
    let layout = || LayoutReport {
        layout: json(r#"{ "dataDir": "/data" }"#),
        data_dir: json(r#"{ "exists": true }"#),
        state_dir: json(r#"{ "exists": false }"#),
        runtime_dir: Value::Null,
        installation_record: true,
    };
    let version = json(r#"{ "agentName": "x" }"#);
    let status = status_report(version.clone(), Ok(layout()));
    assert_eq!(
        status,
        json(
            r#"{
                "version": { "agentName": "x" },
                "layout": { "dataDir": "/data" },
                "state": {
                    "dataDir": { "exists": true },
                    "stateDir": { "exists": false },
                    "runtimeDir": null,
                    "installationRecord": "available"
                }
            }"#
        )
    );
    let doctor = doctor_report(version.clone(), Ok(layout()), true);
    assert_eq!(doctor["code"], "ok");
    assert_eq!(doctor["supported"], true);
    assert_eq!(doctor["state"], status["state"]);
    let doctor = doctor_report(version.clone(), Ok(layout()), false);
    assert_eq!(doctor["code"], "unsupported_target");
    let doctor = doctor_report(version, Err("gone".to_string()), false);
    assert_eq!(doctor["code"], "unsupported_target");
    assert_eq!(doctor["diagnostic"], "gone");
}

#[test]
fn a_missing_record_is_told() {
    let status = status_report(
        Value::Null,
        Ok(LayoutReport {
            layout: Value::Null,
            data_dir: Value::Null,
            state_dir: Value::Null,
            runtime_dir: Value::Null,
            installation_record: false,
        }),
    );
    assert_eq!(status["state"]["installationRecord"], "missing");
}
