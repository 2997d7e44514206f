use cli_manager::daemon::bridge::DaemonBridge;
use cli_manager::daemon::client::{
    attach_reply, auth_frame, daemon_runtime_is_compatible, expect_ok, list_reply, reconcile_reply,
    request_result, status_all_reply, DaemonClient, EventPayload, HandshakeOutcome, PendingRequest, ReaderStep,
    RequestOutcome, Route,
};
use cli_manager::daemon::launch::{
    connect_or_spawn, daemon_executable_path, spawn_daemon_process, start_launch,
    windows_daemon_creation_flags, LaunchAction, LaunchEvent, LaunchPhase, CREATE_NO_WINDOW,
    SHUTDOWN_DELAY, SPAWN_RETRY_INTERVAL, SPAWN_RETRY_MAX,
};
use cli_manager::daemon::protocol::{
    line_read_limit, read_line_bounded, ClientFrame, DaemonFrame, DaemonInfo, ProtocolError,
    SessionMeta, SessionStatus, CAPABILITY_PTY_RESIZE_2X1, MAX_FRAME_BYTES, PACKAGE_VERSION,
};
use serde_json::Value;
use std::collections::HashMap;

const DETACHED_PROCESS: u32 = 0x0000_0008;
const CREATE_NEW_PROCESS_GROUP: u32 = 0x0000_0200;

fn info() -> DaemonInfo {
    DaemonInfo {
        port: 1,
        ws_port: 2,
        hook_port: 3,
        token: "secret-token".to_string(),
        pid: 4,
        version: "test".to_string(),
        protocol_version: 1,
        binary_protocol_version: 1,
        features: Vec::new(),
    }
}

fn session(alive: bool) -> SessionMeta {
    SessionMeta {
        alive,
        details: Value::from("details"),
    }
}

fn client_with(version: &str, capabilities: &[&str]) -> DaemonClient {
    DaemonClient::connect(
        info(),
        "tool".to_string(),
        HandshakeOutcome::Replied {
            reply: Ok(DaemonFrame::AuthOk {
                daemon_version: version.to_string(),
                protocol_revision: 7,
                capabilities: capabilities.iter().map(|c| c.to_string()).collect(),
            }),
            shown: String::new(),
        },
    )
    .unwrap_or_else(|error| panic!("{}", error))
}

fn client() -> DaemonClient {
    client_with(PACKAGE_VERSION, &[CAPABILITY_PTY_RESIZE_2X1])
}

fn refused(outcome: HandshakeOutcome) -> String {
    match DaemonClient::connect(info(), String::new(), outcome) {
        Ok(_) => panic!("expected a refusal"),
        Err(error) => error,
    }
}

#[test]
fn matching_version_requires_compact_resize_capability() {
    assert!(!daemon_runtime_is_compatible(PACKAGE_VERSION, &[]));
    assert!(daemon_runtime_is_compatible(
        PACKAGE_VERSION,
        &[CAPABILITY_PTY_RESIZE_2X1.to_string()],
    ));
}

#[test]
fn capability_does_not_hide_product_version_mismatch() {
    assert!(!daemon_runtime_is_compatible(
        "0.0.0",
        &[CAPABILITY_PTY_RESIZE_2X1.to_string()],
    ));
}

#[test]
fn daemon_bridge_distinguishes_startup_from_in_process_fallback() {
    let mut bridge = DaemonBridge::new();
    assert_eq!(bridge.compact_resize_state(), None);
    bridge.mark_unavailable();
    assert_eq!(bridge.compact_resize_state(), Some(true));
}

#[test]
fn windows_daemon_keeps_conpty_ctrl_c_process_group_compatible() {
    let flags = windows_daemon_creation_flags();
    assert_eq!(flags, CREATE_NO_WINDOW);
    assert_eq!(flags & DETACHED_PROCESS, 0);
    assert_eq!(flags & CREATE_NEW_PROCESS_GROUP, 0);
    assert_eq!(flags, 0x0800_0000);
}

#[test]
fn a_lost_daemon_gives_way_to_this_process() {
    let mut bridge = DaemonBridge::new();
    assert!(bridge.get().is_none());
    bridge.set(client());
    assert_eq!(bridge.compact_resize_state(), Some(true));
    bridge.set(client_with(PACKAGE_VERSION, &["other"]));
    assert_eq!(bridge.compact_resize_state(), Some(false));
    let connected = bridge.get().unwrap();
    assert_eq!(connected.next_request_id(), 1);
    assert!(matches!(connected.read_step(None), ReaderStep::Stopped));
    assert!(bridge.get().is_none());
    assert!(bridge.client.is_none());
    assert_eq!(bridge.compact_resize_state(), Some(true));
    let mut lost = client_with(PACKAGE_VERSION, &[]);
    lost.connected = false;
    bridge.set(lost);
    assert_eq!(bridge.compact_resize_state(), Some(true));
    assert!(bridge.client.is_none());
}

#[test]
fn a_handshake_ends_in_a_connection_or_an_error() {
    match auth_frame(&info()) {
        ClientFrame::Auth {
            token,
            client_version,
        } => {
            assert_eq!(token, "secret-token");
            assert_eq!(client_version, PACKAGE_VERSION);
        }
        _ => panic!("expected a handshake"),
    }
    let connected = client_with("0.0.1", &[]);
    assert!(connected.is_connected() && !connected.is_runtime_compatible());
    assert_eq!(connected.info().pid, 4);
    assert_eq!(connected.daemon_version, "0.0.1");
    assert_eq!(connected.protocol_revision, 7);
    assert!(client().is_runtime_compatible());

    let replied = |reply| HandshakeOutcome::Replied {
        reply,
        shown: "shown".to_string(),
    };
    let error = || "why".to_string();
    assert_eq!(
        refused(replied(Ok(DaemonFrame::AuthErr { reason: error() }))),
        "daemon auth rejected: why"
    );
    assert_eq!(
        refused(replied(Ok(DaemonFrame::Pong { id: 1 }))),
        "daemon auth unexpected reply: shown"
    );
    assert_eq!(
        refused(replied(Err(ProtocolError::Malformed(error())))),
        "daemon auth unexpected reply: shown"
    );
    assert_eq!(
        refused(HandshakeOutcome::NoReply),
        "daemon auth read failed"
    );
    assert_eq!(
        refused(HandshakeOutcome::ConnectFailed(error())),
        "daemon connect failed: why"
    );
    assert_eq!(
        refused(HandshakeOutcome::CloneFailed(error())),
        "daemon stream clone failed: why"
    );
    assert_eq!(
        refused(HandshakeOutcome::AuthWriteFailed(error())),
        "daemon auth write failed: why"
    );
}

fn started(result: Result<PendingRequest, String>) -> (u64, ClientFrame) {
    match result {
        Ok(request) => (request.id, request.frame),
        Err(error) => panic!("{}", error),
    }
}

#[test]
fn each_request_is_written_out() {
    let mut c = client();
    let mut env = HashMap::new();
    env.insert("K".to_string(), "V".to_string());
    match started(c.create("s", Some("/".to_string()), Some(env), None)) {
        (
            1,
            ClientFrame::Create {
                id: 1,
                session_id,
                cwd,
                env_vars,
                shell,
            },
        ) => {
            assert_eq!(session_id, "s");
            assert_eq!(cwd.as_deref(), Some("/"));
            assert_eq!(env_vars.unwrap().get("K").map(String::as_str), Some("V"));
            assert!(shell.is_none());
        }
        _ => panic!("expected a new session"),
    }
    match started(c.write("s", "ls\n")) {
        (
            2,
            ClientFrame::Write {
                id: 2,
                session_id,
                data,
            },
        ) => assert_eq!((session_id.as_str(), data.as_str()), ("s", "ls\n")),
        _ => panic!("expected input"),
    }
    match started(c.resize("s", 80, 24)) {
        (
            3,
            ClientFrame::Resize {
                id: 3,
                session_id,
                cols,
                rows,
            },
        ) => assert_eq!((session_id.as_str(), cols, rows), ("s", 80, 24)),
        _ => panic!("expected a size"),
    }
    assert!(matches!(
        started(c.close("s")),
        (4, ClientFrame::Close { id: 4, session_id }) if session_id == "s"
    ));
    assert!(matches!(
        started(c.close_all()),
        (5, ClientFrame::CloseAll { id: 5 })
    ));
    assert!(matches!(
        started(c.list()),
        (6, ClientFrame::List { id: 6 })
    ));
    assert!(matches!(
        started(c.attach("s")),
        (7, ClientFrame::Attach { id: 7, session_id }) if session_id == "s"
    ));
    assert!(matches!(
        started(c.status_all()),
        (8, ClientFrame::Status { id: 8 })
    ));
    assert!(matches!(
        started(c.reconcile(vec!["s".to_string()])),
        (9, ClientFrame::Reconcile { id: 9, active_session_ids })
            if active_session_ids == vec!["s".to_string()]
    ));
    assert!(matches!(
        started(c.shutdown_if_idle()),
        (10, ClientFrame::Shutdown { id: 10 })
    ));
    assert_eq!(c.pending.len(), 10);
}

#[test]
fn an_answer_is_delivered_once() {
    let mut c = client();
    c.list().unwrap_or_else(|error| panic!("{}", error));
    c.close_all().unwrap_or_else(|error| panic!("{}", error));
    let sessions = || DaemonFrame::Sessions {
        id: 1,
        sessions: vec![session(true)],
    };
    match c.route_frame(sessions()) {
        Route::Deliver {
            id: 1,
            frame: DaemonFrame::Sessions { sessions, .. },
        } => assert_eq!(sessions.len(), 1),
        _ => panic!("expected a delivery"),
    }
    assert!(matches!(c.route_frame(sessions()), Route::Unclaimed));
    assert!(c.pending.contains(&2));
    assert!(matches!(
        c.route_frame(DaemonFrame::Failed {
            id: 2,
            message: "no".to_string()
        }),
        Route::Deliver { id: 2, .. }
    ));
    for frame in [
        DaemonFrame::Pong { id: 9 },
        DaemonFrame::Done { id: 9 },
        DaemonFrame::Statuses {
            id: 9,
            statuses: Vec::new(),
        },
        DaemonFrame::Reconciled {
            id: 9,
            summary: Value::Null,
        },
        DaemonFrame::Attached {
            id: 9,
            replay_base64: String::new(),
            meta: session(true),
        },
    ] {
        c.pending.insert(9);
        assert!(matches!(c.route_frame(frame), Route::Deliver { id: 9, .. }));
        assert!(c.pending.is_empty());
    }
}

#[test]
fn pushed_frames_become_events() {
    let mut c = client();
    match c.route_frame(DaemonFrame::Output {
        session_id: "s".to_string(),
        data_base64: "QQ==".to_string(),
    }) {
        Route::Emit {
            event,
            payload: EventPayload::Text(data),
        } => assert_eq!((event.as_str(), data.as_str()), ("pty-output-s", "QQ==")),
        _ => panic!("expected an event"),
    }
    match c.route_frame(DaemonFrame::Exit {
        session_id: "s".to_string(),
        exit_code: Some(3),
    }) {
        Route::Emit {
            event,
            payload: EventPayload::Status(status),
        } => {
            assert_eq!(event, "pty-status-s");
            assert_eq!(status.status, "exited");
            assert_eq!(status.exit_code, Some(3));
        }
        _ => panic!("expected an event"),
    }
    match c.route_frame(DaemonFrame::HookReport {
        payload: Value::from(5),
    }) {
        Route::Emit {
            event,
            payload: EventPayload::Json(value),
        } => {
            assert_eq!(event, "tool-hook-notification");
            assert_eq!(value, 5);
        }
        _ => panic!("expected an event"),
    }
    assert!(matches!(
        c.route_frame(DaemonFrame::AuthErr {
            reason: String::new()
        }),
        Route::LateHandshake
    ));
}

#[test]
fn reading_goes_on_until_a_malformed_frame() {
    let mut c = client();
    c.list().unwrap_or_else(|error| panic!("{}", error));
    match c.read_step(Some(Err(ProtocolError::UnknownType("new".to_string())))) {
        ReaderStep::Skipped(kind) => assert_eq!(kind, "new"),
        _ => panic!("expected to go on"),
    }
    assert!(c.is_connected() && c.pending.contains(&1));
    assert!(matches!(
        c.read_step(Some(Ok(DaemonFrame::Done { id: 1 }))),
        ReaderStep::Routed(Route::Deliver { id: 1, .. })
    ));
    c.list().unwrap_or_else(|error| panic!("{}", error));
    assert!(matches!(
        c.read_step(Some(Err(ProtocolError::Malformed("?".to_string())))),
        ReaderStep::Stopped
    ));
    assert!(!c.is_connected() && c.pending.is_empty());
    assert_eq!(c.list().err().unwrap(), "daemon disconnected");
    assert_eq!(c.next_request_id(), 4);
}

#[test]
fn a_request_ends_with_its_answer_or_an_error() {
    let mut c = client();
    let (id, _) = started(c.list());
    assert!(matches!(
        c.finish_request(id, RequestOutcome::Replied(DaemonFrame::Done { id })),
        Ok(DaemonFrame::Done { id: 1 })
    ));
    assert_eq!(
        c.finish_request(id, RequestOutcome::NoReply("timed out".to_string()))
            .unwrap_err(),
        "daemon reply timeout: timed out"
    );
    assert!(c.pending.is_empty());
    let (id, _) = started(c.list());
    assert_eq!(
        c.finish_request(id, RequestOutcome::WriterPoisoned)
            .unwrap_err(),
        "daemon writer poisoned"
    );
    assert!(c.is_connected() && c.pending.contains(&id));
    assert_eq!(
        c.finish_request(id, RequestOutcome::WriteFailed("closed".to_string()))
            .unwrap_err(),
        "daemon write failed: closed"
    );
    assert!(!c.is_connected() && c.pending.contains(&id));
}

#[test]
fn an_answer_counts_without_its_connection() {
    assert!(matches!(
        request_result(RequestOutcome::Replied(DaemonFrame::Pong { id: 3 })),
        Ok(DaemonFrame::Pong { id: 3 })
    ));
    assert_eq!(
        request_result(RequestOutcome::NoReply("timed out".to_string())).unwrap_err(),
        "daemon reply timeout: timed out"
    );
}

#[test]
fn ids_come_round() {
    let mut c = client();
    c.next_id = u64::MAX;
    assert_eq!(c.next_request_id(), u64::MAX);
    assert_eq!(c.next_request_id(), 0);
    assert_eq!(c.next_request_id(), 1);
}

#[test]
fn answers_are_read() {
    let failed = || {
        Ok(DaemonFrame::Failed {
            id: 1,
            message: "no".to_string(),
        })
    };
    let other = || Ok(DaemonFrame::Pong { id: 1 });
    let lost = || Err("lost".to_string());
    let unexpected = "daemon unexpected reply: Pong";

    assert_eq!(expect_ok(Ok(DaemonFrame::Done { id: 1 }), ""), Ok(()));
    assert_eq!(expect_ok(failed(), "").unwrap_err(), "no");
    assert_eq!(expect_ok(other(), "Pong").unwrap_err(), unexpected);
    assert_eq!(expect_ok(lost(), "").unwrap_err(), "lost");

    let sessions = Ok(DaemonFrame::Sessions {
        id: 1,
        sessions: vec![session(false), session(true)],
    });
    assert_eq!(list_reply(sessions, "").unwrap().len(), 2);
    assert_eq!(list_reply(failed(), "").unwrap_err(), "no");
    assert_eq!(list_reply(other(), "Pong").unwrap_err(), unexpected);

    let attached = Ok(DaemonFrame::Attached {
        id: 1,
        replay_base64: "QQ==".to_string(),
        meta: session(true),
    });
    let (replay, meta) = attach_reply(attached, "").unwrap();
    assert_eq!(replay, "QQ==");
    assert!(meta.alive);
    assert_eq!(meta.details, "details");
    assert_eq!(attach_reply(other(), "Pong").unwrap_err(), unexpected);

    let statuses = Ok(DaemonFrame::Statuses {
        id: 1,
        statuses: vec![
            (
                "a".to_string(),
                SessionStatus {
                    status: "running".to_string(),
                    exit_code: None,
                },
            ),
            (
                "b".to_string(),
                SessionStatus {
                    status: "exited".to_string(),
                    exit_code: Some(-1),
                },
            ),
        ],
    });
    let statuses = status_all_reply(statuses, "").unwrap();
    assert_eq!(statuses.len(), 2);
    assert_eq!(statuses[0].0, "a");
    assert_eq!(statuses[0].1.status, "running");
    assert_eq!(statuses[1].0, "b");
    assert_eq!(statuses[1].1.exit_code, Some(-1));
    assert_eq!(status_all_reply(lost(), "").unwrap_err(), "lost");

    let reconciled = Ok(DaemonFrame::Reconciled {
        id: 1,
        summary: Value::from("kept"),
    });
    assert_eq!(reconcile_reply(reconciled, "").unwrap(), "kept");
    assert_eq!(reconcile_reply(other(), "Pong").unwrap_err(), unexpected);
}

#[test]
fn lines_are_read_back() {
    let text = |bytes: &[u8]| read_line_bounded(bytes.to_vec());
    assert_eq!(text(b"{\"type\":\"pong\"}\n").as_deref(), Some("{\"type\":\"pong\"}"));
    assert_eq!(text("grün\r\n".as_bytes()).as_deref(), Some("grün"));
    assert_eq!(text(b"\n").as_deref(), Some(""));
    assert_eq!(text(b"\r\n").as_deref(), Some(""));
    assert_eq!(text(b"a\r\r\n").as_deref(), Some("a\r"));
    assert_eq!(text(b""), None);
    assert_eq!(text(b"no end"), None);
    assert_eq!(text(b"\xff\n"), None);
    assert_eq!(line_read_limit(), MAX_FRAME_BYTES + 1);
}

fn step(phase: LaunchPhase, event: LaunchEvent) -> (LaunchPhase, LaunchAction) {
    connect_or_spawn(phase, event)
}

#[test]
fn a_recorded_daemon_is_used() {
    let (phase, action) = start_launch();
    assert!(matches!(action, LaunchAction::ReadRecord));
    let (phase, action) = step(phase, LaunchEvent::RecordRead(Ok(Some(info()))));
    assert!(matches!(action, LaunchAction::CheckProcess(4)));
    let (phase, action) = step(phase, LaunchEvent::ProcessChecked { alive: true });
    match action {
        LaunchAction::Connect(found) => assert_eq!(found.port, 1),
        _ => panic!("expected to connect"),
    }
    let (phase, action) = step(phase, LaunchEvent::Connected { compatible: true });
    assert!(matches!(phase, LaunchPhase::Finished));
    assert!(matches!(action, LaunchAction::Finish(Ok(()))));
}

#[test]
fn an_incompatible_daemon_is_replaced_only_when_idle() {
    let list = || step(LaunchPhase::Connecting, LaunchEvent::Connected { compatible: false });
    let (phase, action) = list();
    assert!(matches!(action, LaunchAction::List));
    let (_, action) = step(
        phase,
        LaunchEvent::Listed(Ok(vec![session(false), session(true)])),
    );
    assert!(matches!(action, LaunchAction::Finish(Ok(()))));
    let (_, action) = step(list().0, LaunchEvent::Listed(Err("no answer".to_string())));
    assert!(matches!(action, LaunchAction::Finish(Ok(()))));
    let (phase, action) = step(list().0, LaunchEvent::Listed(Ok(vec![session(false)])));
    assert!(matches!(action, LaunchAction::ShutDown));
    let (_, action) = step(phase, LaunchEvent::ShutDown(Err("busy".to_string())));
    assert!(matches!(action, LaunchAction::Finish(Ok(()))));
    let (phase, _) = step(list().0, LaunchEvent::Listed(Ok(Vec::new())));
    let (phase, action) = step(phase, LaunchEvent::ShutDown(Ok(())));
    assert!(matches!(action, LaunchAction::Sleep(SHUTDOWN_DELAY)));
    let (_, action) = step(phase, LaunchEvent::Slept);
    assert!(matches!(action, LaunchAction::Spawn));
}

#[test]
fn a_dead_record_is_removed() {
    let (phase, _) = step(
        LaunchPhase::ReadingRecord,
        LaunchEvent::RecordRead(Ok(Some(info()))),
    );
    let (phase, action) = step(phase, LaunchEvent::ProcessChecked { alive: false });
    assert!(matches!(action, LaunchAction::RemoveRecord));
    let (_, action) = step(phase, LaunchEvent::RecordRemoved);
    assert!(matches!(action, LaunchAction::Spawn));
    let (_, action) = step(
        LaunchPhase::Connecting,
        LaunchEvent::ConnectFailed("refused".to_string()),
    );
    assert!(matches!(action, LaunchAction::RemoveRecord));
}

#[test]
fn a_new_daemon_is_waited_for() {
    let (phase, action) = step(
        LaunchPhase::ReadingRecord,
        LaunchEvent::RecordRead(Ok(None)),
    );
    assert!(matches!(action, LaunchAction::Spawn));
    let (mut phase, mut action) = step(phase, LaunchEvent::Spawned(Ok(())));
    let mut attempts = 0;
    let mut naps: u128 = 0;
    let error = loop {
        match action {
            LaunchAction::Sleep(time) => {
                naps += time;
                (phase, action) = step(phase, LaunchEvent::Slept);
            }
            LaunchAction::ReadRecord => {
                attempts += 1;
                let found = if attempts % 2 == 0 { Some(info()) } else { None };
                (phase, action) = step(phase, LaunchEvent::RecordRead(Ok(found)));
            }
            LaunchAction::Connect(_) => {
                (phase, action) = step(phase, LaunchEvent::ConnectFailed("no".to_string()));
            }
            LaunchAction::Finish(result) => break result.unwrap_err(),
            _ => panic!("unexpected action"),
        }
    };
    assert_eq!(error, "daemon did not become ready in time");
    assert_eq!(attempts, SPAWN_RETRY_MAX);
    assert_eq!(naps, 20 * SPAWN_RETRY_INTERVAL);
    assert_eq!(naps, 5_000_000_000);

    let (_, action) = step(
        LaunchPhase::Reconnecting { attempt: 20 },
        LaunchEvent::Connected { compatible: false },
    );
    assert!(matches!(action, LaunchAction::Finish(Ok(()))));
}

#[test]
fn a_launch_passes_errors_on() {
    let failed = |(_, action)| match action {
        LaunchAction::Finish(Err(error)) => error,
        _ => panic!("expected a failure"),
    };
    assert_eq!(
        failed(step(
            LaunchPhase::ReadingRecord,
            LaunchEvent::RecordRead(Err("unreadable".to_string()))
        )),
        "unreadable"
    );
    assert_eq!(
        failed(step(
            LaunchPhase::Rereading { attempt: 3 },
            LaunchEvent::RecordRead(Err("unreadable".to_string()))
        )),
        "unreadable"
    );
    assert_eq!(
        failed(step(
            LaunchPhase::Spawning,
            LaunchEvent::Spawned(Err("no program".to_string()))
        )),
        "no program"
    );
}

#[test]
fn the_daemon_is_this_program() {
    assert_eq!(
        daemon_executable_path(Ok("/bin/app".to_string()), true),
        Ok("/bin/app".to_string())
    );
    assert_eq!(
        daemon_executable_path(Ok("/bin/app".to_string()), false).unwrap_err(),
        "main executable not found for daemon self-spawn"
    );
    assert_eq!(
        daemon_executable_path(Err("gone".to_string()), true).unwrap_err(),
        "current_exe failed: gone"
    );
    assert_eq!(spawn_daemon_process(Ok(())), Ok(()));
    assert_eq!(
        spawn_daemon_process(Err("denied".to_string())).unwrap_err(),
        "spawn daemon failed: denied"
    );
}
