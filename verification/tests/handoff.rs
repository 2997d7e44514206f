use cli_manager::daemon::protocol::DaemonInfo;
use cli_manager::handoff::delivery::{
    begin_delivery, binary_is_cached, cc_connect_handoff_notification_status, deliver,
    delivery_job_is_current, end_delivery, notification_language, requested_binary,
    run_delivery_worker, sanitize_delivery_error, CachedBinary, CcConnectHandoffNotificationStatus,
    CcConnectProfile, DeliveryAction, DeliveryEvent, DeliveryWorker, DetectedBinary,
    StatusRead,
};
use cli_manager::handoff::event::{fingerprint, string_field, RemoteHookEvent};
use cli_manager::handoff::message::{
    elapsed_label, format_notification, platform_label, NotificationKind,
};
use cli_manager::handoff::record::{
    apply_hook_environment, hook_environment_keys, hook_environment_values, CcConnectLanguage,
    CcConnectPlatform, HandoffIdentity, PersistedHandoffRecord,
};
use cli_manager::handoff::scheduler::{
    enqueue_delivery, handle_hook_event, handle_hook_payload, tick_scheduler, DeliveryJob, Notice,
    TaskPhase, TaskState, PERMISSION_DEDUP_WINDOW,
};
use cli_manager::handoff::settings::{
    bool_setting, notification_settings_from_value, read_notification_settings, task_stale_after,
    NotificationSettings, MINUTE,
};
use serde_json::Value;
use std::hash::{Hash, Hasher};
use std::time::Duration;

const SECOND: u128 = 1_000_000_000;

fn json(text: &str) -> Value {
    serde_json::from_str(text).unwrap()
}

fn record() -> PersistedHandoffRecord {
    PersistedHandoffRecord {
        schema_version: 1,
        local_session_id: "local-session".to_string(),
        cli_session_id: "cli-session".to_string(),
        project_id: "project-1".to_string(),
        project_name: "CLI Manager".to_string(),
        worktree_id: None,
        worktree_name: None,
        work_dir: r"F:\repo".to_string(),
        provider_id: Some("provider-1".to_string()),
        provider_name: "Provider One".to_string(),
        provider_is_global: false,
        platform: CcConnectPlatform::Telegram,
        platform_session_key: "telegram:1:1".to_string(),
        cc_session_id: "cc-session".to_string(),
        session_file_path: r"F:\data\session.json".to_string(),
        previous_active_session_id: None,
        source_project_id: "source-project".to_string(),
        source_project_name: "Source".to_string(),
        source_project_path: r"F:\source".to_string(),
        started_at_ms: 100,
    }
}

fn loaded() -> Result<Option<PersistedHandoffRecord>, String> {
    Ok(Some(record()))
}

fn info() -> DaemonInfo {
    DaemonInfo {
        port: 1,
        ws_port: 2,
        hook_port: 3,
        token: "secret-token".to_string(),
        pid: 4,
        version: "test".to_string(),
        protocol_version: 1,
        binary_protocol_version: 1,
        features: Vec::new(),
    }
}

fn payload(event: &str) -> Value {
    let mut value = json(r#"{ "tabId": "local-session", "source": "codex" }"#);
    value["event"] = Value::from(event);
    value
}

fn event(name: &str, fingerprint: Option<u64>) -> RemoteHookEvent {
    RemoteHookEvent {
        tab_id: "local-session".to_string(),
        source: "codex".to_string(),
        event: name.to_string(),
        cli_session_id: None,
        permission_fingerprint: fingerprint,
    }
}

fn hook(
    state: &mut Option<TaskState>,
    name: &str,
    fingerprint: Option<u64>,
    now: u128,
) -> Option<DeliveryJob> {
    handle_hook_event(
        &event(name, fingerprint),
        state,
        loaded(),
        NotificationSettings::default(),
        CcConnectLanguage::En,
        now,
    )
}

fn tick(state: &mut Option<TaskState>, now: u128) -> Option<DeliveryJob> {
    tick_scheduler(
        state,
        loaded(),
        NotificationSettings::default(),
        CcConnectLanguage::En,
        now,
    )
}

fn kind(job: &Option<DeliveryJob>) -> Option<NotificationKind> {
    job.as_ref().map(|job| job.kind)
}

fn settle(state: &mut Option<TaskState>, kind: NotificationKind, now: u128, accepted: bool) {
    state.as_mut().unwrap().settle(kind, now, accepted);
}

#[test]
fn notification_settings_default_and_clamp_interval() {
    let defaults = notification_settings_from_value(&json("{}"));
    assert!(defaults.enabled);
    assert!(defaults.completion_enabled);
    assert!(defaults.permission_enabled);
    assert!(defaults.progress_enabled);
    assert_eq!(defaults.progress_interval_minutes, 5);

    let low =
        notification_settings_from_value(&json(r#"{ "remoteHandoffProgressIntervalMinutes": 0 }"#));
    let high = notification_settings_from_value(&json(
        r#"{ "remoteHandoffProgressIntervalMinutes": 600 }"#,
    ));
    assert_eq!(low.progress_interval_minutes, 1);
    assert_eq!(high.progress_interval_minutes, 60);
    assert_eq!(
        task_stale_after(high),
        Duration::from_secs(65 * 60).as_nanos()
    );
}

#[test]
fn settings_are_read_from_text() {
    assert_eq!(
        read_notification_settings(None),
        NotificationSettings::default()
    );
    assert_eq!(
        read_notification_settings(Some("{ nonsense")),
        NotificationSettings::default()
    );
    assert_eq!(
        read_notification_settings(Some("{}")),
        NotificationSettings::default()
    );
    let settings = read_notification_settings(Some(
        r#"{
            "remoteHandoffNotificationsEnabled": false,
            "remoteHandoffCompletionNotificationsEnabled": "no",
            "remoteHandoffPermissionNotificationsEnabled": false,
            "remoteHandoffProgressNotificationsEnabled": false,
            "remoteHandoffProgressIntervalMinutes": 17
        }"#,
    ));
    assert_eq!(
        settings,
        NotificationSettings {
            enabled: false,
            completion_enabled: true,
            permission_enabled: false,
            progress_enabled: false,
            progress_interval_minutes: 17,
        }
    );
    assert_eq!(task_stale_after(settings), 20 * MINUTE);
    assert_eq!(
        task_stale_after(NotificationSettings::default()),
        20 * MINUTE
    );
    for odd in ["-3", "2.5", "\"7\"", "null"] {
        let text = format!("{{ \"remoteHandoffProgressIntervalMinutes\": {odd} }}");
        assert_eq!(
            read_notification_settings(Some(&text)).progress_interval_minutes,
            5
        );
    }
    assert!(bool_setting(&json("[]"), "x", true));
    assert!(!bool_setting(&json(r#"{ "x": false }"#), "x", true));
}

#[test]
fn hook_event_must_match_the_handoff_owner() {
    let record = record();
    let event = RemoteHookEvent::from_payload(&json(
        r#"{
            "tabId": "local-session",
            "source": "codex",
            "event": "Stop",
            "sessionId": "cli-session"
        }"#,
    ))
    .unwrap();
    assert!(event.belongs_to(&record));

    for payload in [
        json(r#"{ "tabId": "other", "source": "codex", "event": "Stop", "sessionId": "cli-session" }"#),
        json(r#"{ "tabId": "local-session", "source": "other", "event": "Stop", "sessionId": "cli-session" }"#),
        json(r#"{ "tabId": "local-session", "source": "codex", "event": "Stop", "sessionId": "other" }"#),
    ] {
        assert!(!RemoteHookEvent::from_payload(&payload)
            .unwrap()
            .belongs_to(&record));
    }
}

#[test]
fn a_payload_is_read_under_its_keys() {
    let event = RemoteHookEvent::from_payload(&json(
        r#"{
            "tabId": "  ",
            "tab_id": " tab ",
            "source": "codex",
            "event": "PermissionRequest",
            "session_id": "s",
            "message": " please "
        }"#,
    ))
    .unwrap();
    assert_eq!(event.tab_id, "tab");
    assert_eq!(event.cli_session_id.as_deref(), Some("s"));
    assert_eq!(event.permission_fingerprint, Some(fingerprint("please")));
    for text in [
        "null",
        r#"{ "source": "codex", "event": "Stop" }"#,
        r#"{ "tabId": "t", "event": "Stop" }"#,
        r#"{ "tabId": "t", "source": "codex", "event": 5 }"#,
    ] {
        assert!(RemoteHookEvent::from_payload(&json(text)).is_none());
    }
    let plain = RemoteHookEvent::from_payload(&payload("Stop")).unwrap();
    assert!(plain.cli_session_id.is_none() && plain.permission_fingerprint.is_none());
    assert_eq!(
        string_field(&json(r#"{ "b": "2", "a": "1" }"#), &["a", "b"]).as_deref(),
        Some("1")
    );
    assert_eq!(string_field(&json(r#"{ "a": "1" }"#), &[]), None);
}

#[test]
fn a_fingerprint_is_the_hash_of_the_text() {
    for text in ["", "please", "grün"] {
        let mut hasher = std::collections::hash_map::DefaultHasher::new();
        text.to_string().hash(&mut hasher);
        assert_eq!(fingerprint(text), hasher.finish());
    }
    assert_ne!(fingerprint("a"), fingerprint("b"));
}

#[test]
fn permission_events_are_deduplicated_without_storing_message_content() {
    let record = record();
    let now = 1_000 * SECOND;
    let mut state = TaskState::new(&record, now);
    state.last_permission_fingerprint = Some(42);
    state.last_permission_at = Some(now);
    assert!(state.is_duplicate_permission(Some(42), now));
    assert!(!state.is_duplicate_permission(Some(99), now));
    assert!(state.is_duplicate_permission(None, now));
    assert!(!state.is_duplicate_permission(None, now + PERMISSION_DEDUP_WINDOW));
}

#[test]
fn formatted_messages_use_safe_handoff_metadata_for_every_platform() {
    for platform in [
        CcConnectPlatform::Telegram,
        CcConnectPlatform::Feishu,
        CcConnectPlatform::Weixin,
        CcConnectPlatform::Wecom,
    ] {
        let mut record = record();
        record.platform = platform;
        let message = format_notification(
            &record,
            NotificationKind::Permission,
            CcConnectLanguage::Zh,
            Duration::from_secs(90).as_nanos(),
        );
        assert!(message.contains("cli-session"));
        assert!(message.contains("Provider One"));
        assert!(message.contains("需要审批"));
        assert!(!message.contains("tool_input"));
    }
}

#[test]
fn messages_are_written_out() {
    assert_eq!(
        format_notification(
            &record(),
            NotificationKind::Completed,
            CcConnectLanguage::En,
            125 * MINUTE
        ),
        "CLI-Manager managed task completed\nPlatform: Telegram\nProject: CLI Manager\nProvider: Provider One\ncliSessionId: cli-session\nWorking directory: F:\\repo\nElapsed: 2 h 5 min"
    );
    assert_eq!(
        format_notification(
            &record(),
            NotificationKind::TimedOut,
            CcConnectLanguage::Zh,
            20 * MINUTE
        ),
        "CLI-Manager 托管任务长时间未收到结束事件\n当前状态未知，请检查机器人会话。\n平台：Telegram\n项目：CLI Manager\nProvider：Provider One\ncliSessionId：cli-session\n工作目录：F:\\repo\n已用时间：20 分钟"
    );
    let headings = [
        (NotificationKind::Progress, "CLI-Manager managed task is still running", "CLI-Manager 托管任务仍在进行"),
        (NotificationKind::Permission, "CLI-Manager managed task needs approval\nRespond in the current bot conversation.", "CLI-Manager 托管任务需要审批\n请在当前机器人会话中处理。"),
        (NotificationKind::Completed, "CLI-Manager managed task completed", "CLI-Manager 托管任务已完成"),
        (NotificationKind::Failed, "CLI-Manager managed task failed", "CLI-Manager 托管任务执行失败"),
        (NotificationKind::TimedOut, "CLI-Manager has not received a completion event\nThe current state is unknown; check the bot conversation.", "CLI-Manager 托管任务长时间未收到结束事件\n当前状态未知，请检查机器人会话。"),
    ];
    for (kind, en, zh) in headings {
        assert!(format_notification(&record(), kind, CcConnectLanguage::En, 0)
            .starts_with(&format!("{en}\nPlatform: ")));
        assert!(format_notification(&record(), kind, CcConnectLanguage::Zh, 0)
            .starts_with(&format!("{zh}\n平台：")));
    }
}

#[test]
fn labels_depend_on_the_language() {
    let labels = [
        (CcConnectPlatform::Telegram, "Telegram", "Telegram"),
        (CcConnectPlatform::Feishu, "Feishu", "飞书"),
        (CcConnectPlatform::Weixin, "Weixin", "微信"),
        (CcConnectPlatform::Wecom, "WeCom", "企业微信"),
    ];
    for (platform, en, zh) in labels {
        assert_eq!(platform_label(platform, CcConnectLanguage::En), en);
        assert_eq!(platform_label(platform, CcConnectLanguage::Zh), zh);
    }
    assert_eq!(elapsed_label(0, CcConnectLanguage::En), "1 min");
    assert_eq!(
        elapsed_label(60 * MINUTE - 1, CcConnectLanguage::En),
        "59 min"
    );
    assert_eq!(elapsed_label(60 * MINUTE, CcConnectLanguage::En), "1 h 0 min");
    assert_eq!(
        elapsed_label(61 * MINUTE, CcConnectLanguage::Zh),
        "1 小时 1 分钟"
    );
    assert_eq!(elapsed_label(2 * MINUTE, CcConnectLanguage::Zh), "2 分钟");
    let keys: Vec<&str> = [
        NotificationKind::Progress,
        NotificationKind::Permission,
        NotificationKind::Completed,
        NotificationKind::Failed,
        NotificationKind::TimedOut,
    ]
    .into_iter()
    .map(|kind| kind.key())
    .collect();
    assert_eq!(
        keys,
        vec!["progress", "permission", "completed", "failed", "timed_out"]
    );
}

#[test]
fn hook_environment_targets_the_daemon_and_local_session() {
    let record = record();
    let info = info();
    assert_eq!(
        hook_environment_values(&record, &info),
        [
            ("CLI_MANAGER_TAB_ID", "local-session".to_string()),
            ("CLI_MANAGER_NOTIFY_PORT", "3".to_string()),
            ("CLI_MANAGER_NOTIFY_TOKEN", "secret-token".to_string()),
        ]
    );
}

#[test]
fn hooks_need_a_handoff_and_a_daemon() {
    assert_eq!(
        hook_environment_keys(),
        [
            "CLI_MANAGER_TAB_ID",
            "CLI_MANAGER_NOTIFY_PORT",
            "CLI_MANAGER_NOTIFY_TOKEN"
        ]
    );
    let mut daemon = info();
    daemon.hook_port = 65535;
    let values = apply_hook_environment(loaded(), Ok(Some(daemon)), true).unwrap();
    assert_eq!(values[1].1, "65535");
    assert!(apply_hook_environment(loaded(), Ok(Some(info())), false).is_none());
    assert!(apply_hook_environment(Ok(None), Ok(Some(info())), true).is_none());
    assert!(apply_hook_environment(Err(String::new()), Ok(Some(info())), true).is_none());
    assert!(apply_hook_environment(loaded(), Ok(None), true).is_none());
    assert!(apply_hook_environment(loaded(), Err(String::new()), true).is_none());
    let mut deaf = info();
    deaf.hook_port = 0;
    assert!(apply_hook_environment(loaded(), Ok(Some(deaf)), true).is_none());
}

#[test]
fn an_identity_tells_handoffs_apart() {
    let identity = HandoffIdentity::from_record(&record());
    assert!(identity.matches_record(&record()));
    let mut same = record();
    same.project_name = "Other".to_string();
    assert!(identity.matches_record(&same));
    let mut others = vec![record(), record(), record(), record(), record()];
    others[0].local_session_id.push('x');
    others[1].cli_session_id.push('x');
    others[2].platform = CcConnectPlatform::Wecom;
    others[3].platform_session_key.push('x');
    others[4].started_at_ms = 101;
    for other in &others {
        assert!(!identity.matches_record(other));
    }
}

#[test]
fn the_end_of_a_task_is_told_once() {
    let mut state = None;
    assert!(hook(&mut state, "UserPromptSubmit", None, 0).is_none());
    let job = hook(&mut state, "Stop", None, 3 * MINUTE).unwrap();
    assert_eq!(job.kind, NotificationKind::Completed);
    assert!(job.message.ends_with("Elapsed: 3 min"));
    assert!(job.identity.matches_record(&job.record));
    settle(&mut state, job.kind, 3 * MINUTE, false);
    let again = tick(&mut state, 4 * MINUTE);
    assert_eq!(kind(&again), Some(NotificationKind::Completed));
    settle(&mut state, NotificationKind::Completed, 4 * MINUTE, true);
    assert!(tick(&mut state, 5 * MINUTE).is_none());
    assert!(hook(&mut state, "StopFailure", None, 6 * MINUTE).is_none());
    let asked = hook(&mut state, "PermissionRequest", Some(1), 7 * MINUTE);
    assert_eq!(kind(&asked), Some(NotificationKind::Permission));
    settle(&mut state, NotificationKind::Permission, 7 * MINUTE, true);
    assert!(hook(&mut state, "StopFailure", None, 8 * MINUTE).is_none());
    assert_eq!(state.as_ref().unwrap().phase, TaskPhase::Terminal);
    assert!(tick(&mut state, 90 * MINUTE).is_none());
    assert!(hook(&mut state, "UserPromptSubmit", None, 91 * MINUTE).is_none());
    let failed = hook(&mut state, "StopFailure", None, 92 * MINUTE);
    assert_eq!(kind(&failed), Some(NotificationKind::Failed));
}

#[test]
fn a_repeated_permission_is_silent() {
    let mut state = None;
    let first = hook(&mut state, "Notification", Some(7), SECOND);
    assert_eq!(kind(&first), Some(NotificationKind::Permission));
    settle(&mut state, NotificationKind::Permission, SECOND, true);
    assert_eq!(state.as_ref().unwrap().phase, TaskPhase::Attention);
    assert_eq!(state.as_ref().unwrap().last_progress_at, SECOND);
    assert!(hook(&mut state, "PermissionRequest", Some(7), 90 * SECOND).is_none());
    assert!(hook(&mut state, "PermissionRequest", None, 5 * SECOND).is_none());
    assert!(hook(&mut state, "PermissionRequest", None, 6 * SECOND).is_some());
    assert!(hook(&mut state, "PermissionRequest", Some(8), 6 * SECOND).is_some());
}

#[test]
fn progress_keeps_its_distance() {
    let mut state = None;
    hook(&mut state, "UserPromptSubmit", None, 0);
    assert!(tick(&mut state, 5 * MINUTE - 1).is_none());
    let job = tick(&mut state, 5 * MINUTE);
    assert_eq!(kind(&job), Some(NotificationKind::Progress));
    settle(&mut state, NotificationKind::Progress, 5 * MINUTE, false);
    assert!(tick(&mut state, 5 * MINUTE + 1).is_some());
    settle(&mut state, NotificationKind::Progress, 5 * MINUTE + 1, true);
    assert!(tick(&mut state, 10 * MINUTE).is_none());
    assert!(tick(&mut state, 10 * MINUTE + 1).is_some());
}

#[test]
fn a_lost_task_is_told() {
    let mut state = None;
    hook(&mut state, "UserPromptSubmit", None, 0);
    settle(&mut state, NotificationKind::Progress, 19 * MINUTE, true);
    assert!(tick(&mut state, 20 * MINUTE - 1).is_none());
    let job = tick(&mut state, 20 * MINUTE);
    assert_eq!(kind(&job), Some(NotificationKind::TimedOut));
    assert_eq!(state.as_ref().unwrap().phase, TaskPhase::Terminal);
}

#[test]
fn unwanted_notifications_are_not_sent() {
    let off = NotificationSettings {
        completion_enabled: false,
        permission_enabled: false,
        progress_enabled: false,
        ..NotificationSettings::default()
    };
    let language = CcConnectLanguage::En;
    let mut state = None;
    let ask = event("PermissionRequest", Some(1));
    assert!(handle_hook_event(&ask, &mut state, loaded(), off, language, 0).is_none());
    assert_eq!(state.as_ref().unwrap().phase, TaskPhase::Attention);
    assert!(tick_scheduler(&mut state, loaded(), off, language, 10 * MINUTE).is_none());
    let stop = event("Stop", None);
    assert!(handle_hook_event(&stop, &mut state, loaded(), off, language, 11 * MINUTE).is_none());
    assert!(state.as_ref().unwrap().terminal_enqueued);
    assert!(tick(&mut state, 12 * MINUTE).is_none());
}

#[test]
fn a_task_belongs_to_the_recorded_handoff() {
    let settings = NotificationSettings::default();
    let language = CcConnectLanguage::Zh;
    let mut state = Some(TaskState::new(&record(), 0));
    let foreign = RemoteHookEvent {
        source: "other".to_string(),
        ..event("UserPromptSubmit", None)
    };
    assert!(handle_hook_event(&foreign, &mut state, loaded(), settings, language, 9).is_none());
    assert_eq!(state.as_ref().unwrap().started_at, 0);
    let failed = Err("unreadable".to_string());
    assert!(tick_scheduler(&mut state, failed, settings, language, 99 * MINUTE).is_none());
    assert!(state.is_some());
    let mut next = record();
    next.started_at_ms = 200;
    assert!(tick_scheduler(&mut state, Ok(Some(next)), settings, language, 9).is_none());
    assert!(state.is_none());
    state = Some(TaskState::new(&record(), 0));
    assert!(tick_scheduler(&mut state, Ok(None), settings, language, 9).is_none());
    assert!(state.is_none());
    assert!(tick_scheduler(&mut state, loaded(), settings, language, 9).is_none());

    state = Some(TaskState::new(&record(), 0));
    let mut next = record();
    next.started_at_ms = 200;
    let other = event("SubagentStop", None);
    assert!(
        handle_hook_event(&other, &mut state, Ok(Some(next)), settings, language, 9).is_none()
    );
    assert!(state.is_none());
}

#[test]
fn a_payload_is_handled() {
    let settings = NotificationSettings::default();
    let language = CcConnectLanguage::En;
    let mut state = None;
    let mut send = |value: &Value, record, now| {
        kind(&handle_hook_payload(
            value, &mut state, record, settings, language, now,
        ))
    };
    assert_eq!(send(&json("{}"), Ok(None), 0), None);
    assert_eq!(send(&payload("UserPromptSubmit"), loaded(), 0), None);
    assert_eq!(
        send(&payload("Stop"), loaded(), MINUTE),
        Some(NotificationKind::Completed)
    );
    assert_eq!(send(&json("{}"), Ok(None), MINUTE), None);
    assert_eq!(
        send(&payload("Stop"), Err("unreadable".to_string()), MINUTE),
        None
    );
    assert_eq!(send(&payload("Stop"), Ok(None), MINUTE), None);
    assert!(state.is_none());
}

fn job() -> DeliveryJob {
    enqueue_delivery(
        record(),
        Notice {
            kind: NotificationKind::Permission,
            elapsed: MINUTE,
        },
        CcConnectLanguage::En,
    )
}

fn profile(path: Option<&str>) -> Result<Option<CcConnectProfile>, String> {
    Ok(Some(CcConnectProfile {
        executable_path: path.map(str::to_string),
        language: CcConnectLanguage::En,
    }))
}

fn binary(compatible: bool) -> DetectedBinary {
    DetectedBinary {
        path: "/bin/cc".to_string(),
        compatible,
    }
}

#[test]
fn attempts_are_remembered() {
    let mut previous = CcConnectHandoffNotificationStatus::default();
    previous.last_success_at_ms = Some(5);
    previous.last_error = Some("old".to_string());
    let mut status = begin_delivery(Ok(previous), &job(), 10);
    assert_eq!(status.last_attempt_at_ms, Some(10));
    assert_eq!(status.last_success_at_ms, Some(5));
    assert_eq!(status.last_event.as_deref(), Some("permission"));
    assert_eq!(status.last_platform, Some(CcConnectPlatform::Telegram));
    assert_eq!(status.last_error, None);
    end_delivery(&mut status, Err("a\r\nb".to_string()), 11);
    assert_eq!(status.last_error.as_deref(), Some("a  b"));
    assert_eq!(status.last_success_at_ms, Some(5));
    end_delivery(&mut status, Ok(()), 12);
    assert_eq!(status.last_error, None);
    assert_eq!(status.last_success_at_ms, Some(12));
    assert_eq!(status.last_attempt_at_ms, Some(10));
    let status = begin_delivery(Err("unreadable".to_string()), &job(), 10);
    assert_eq!(status.last_success_at_ms, None);
}

#[test]
fn errors_are_cut_off() {
    assert_eq!(sanitize_delivery_error("x\ny\rz"), "x y z");
    let long = "ä\n".repeat(200);
    let short = sanitize_delivery_error(&long);
    assert_eq!(short.chars().count(), 240);
    assert_eq!(short, "ä ".repeat(120));
    assert_eq!(sanitize_delivery_error(&short), short);
    assert_eq!(sanitize_delivery_error(""), "");
}

#[test]
fn what_is_remembered_is_read() {
    let mut known = CcConnectHandoffNotificationStatus::default();
    known.last_attempt_at_ms = Some(1);
    assert_eq!(
        cc_connect_handoff_notification_status(StatusRead::Parsed(known))
            .unwrap()
            .last_attempt_at_ms,
        Some(1)
    );
    let blank = cc_connect_handoff_notification_status(StatusRead::NotFound).unwrap();
    assert!(blank.last_attempt_at_ms.is_none() && blank.last_event.is_none());
    let why = || "why".to_string();
    assert_eq!(
        cc_connect_handoff_notification_status(StatusRead::NoPath(why())).unwrap_err(),
        "why"
    );
    assert_eq!(
        cc_connect_handoff_notification_status(StatusRead::ReadFailed(why())).unwrap_err(),
        "read handoff notification status failed: why"
    );
    assert_eq!(
        cc_connect_handoff_notification_status(StatusRead::ParseFailed(why())).unwrap_err(),
        "parse handoff notification status failed: why"
    );
}

#[test]
fn a_program_is_looked_for_once() {
    let some = |path: &str| Some(path.to_string());
    let mut cached = None;
    assert!(!binary_is_cached(&cached, &None));
    let plan = deliver(&job(), some("/cc"), &mut cached, Some(Ok(binary(true)))).unwrap();
    assert_eq!(plan.program, "/bin/cc");
    assert_eq!(plan.project_name, "CLI Manager");
    assert_eq!(plan.platform_session_key, "telegram:1:1");
    assert_eq!(plan.message, job().message);
    assert!(binary_is_cached(&cached, &some("/cc")));
    assert!(!binary_is_cached(&cached, &some("/other")));
    assert!(!binary_is_cached(&cached, &None));
    assert!(deliver(&job(), some("/cc"), &mut cached, None).is_ok());
    assert_eq!(
        deliver(&job(), None, &mut cached, Some(Err("none found".to_string()))).unwrap_err(),
        "none found"
    );
    assert!(binary_is_cached(&cached, &some("/cc")));
    assert_eq!(
        deliver(&job(), None, &mut cached, Some(Ok(binary(false)))).unwrap_err(),
        "cc_connect_version_unsupported"
    );
    assert!(matches!(
        &cached,
        Some(CachedBinary {
            requested_path: None,
            ..
        })
    ));
    assert_eq!(
        deliver(&job(), None, &mut cached, None).unwrap_err(),
        "cc_connect_version_unsupported"
    );
}

#[test]
fn a_profile_decides() {
    assert_eq!(requested_binary(profile(None)).unwrap(), None);
    assert_eq!(
        requested_binary(profile(Some("/cc"))).unwrap().as_deref(),
        Some("/cc")
    );
    assert_eq!(
        requested_binary(Ok(None)).unwrap_err(),
        "cc-connect profile is not configured"
    );
    assert_eq!(
        requested_binary(Err("unreadable".to_string())).unwrap_err(),
        "unreadable"
    );
    assert_eq!(notification_language(&profile(None)), CcConnectLanguage::En);
    assert_eq!(notification_language(&Ok(None)), CcConnectLanguage::Zh);
    assert_eq!(
        notification_language(&Err(String::new())),
        CcConnectLanguage::Zh
    );
}

#[test]
fn a_worker_sends_and_remembers() {
    let mut worker = DeliveryWorker::new();
    assert!(delivery_job_is_current(&job(), &loaded()));
    let mut act = |event, now| run_delivery_worker(&mut worker, event, now);
    assert!(matches!(
        act(DeliveryEvent::Job(job()), 1),
        DeliveryAction::ReadRecord
    ));
    assert!(matches!(
        act(DeliveryEvent::RecordRead(loaded()), 2),
        DeliveryAction::ReadStatus
    ));
    assert!(matches!(
        act(DeliveryEvent::StatusRead(Err(String::new())), 3),
        DeliveryAction::WriteStatus
    ));
    assert!(matches!(
        act(DeliveryEvent::StatusWritten, 4),
        DeliveryAction::ReadProfile
    ));
    match act(DeliveryEvent::ProfileRead(profile(Some("/cc"))), 5) {
        DeliveryAction::Detect(path) => assert_eq!(path.as_deref(), Some("/cc")),
        _ => panic!("expected a search"),
    }
    match act(DeliveryEvent::Detected(Ok(binary(true))), 6) {
        DeliveryAction::Send(plan) => assert_eq!(plan.message, job().message),
        _ => panic!("expected to send"),
    }
    assert!(matches!(
        act(DeliveryEvent::Sent(Ok(())), 7),
        DeliveryAction::WriteStatus
    ));
    assert_eq!(worker.status().last_attempt_at_ms, Some(3));
    assert_eq!(worker.status().last_success_at_ms, Some(7));
    let mut act = |event, now| run_delivery_worker(&mut worker, event, now);
    assert!(matches!(
        act(DeliveryEvent::StatusWritten, 8),
        DeliveryAction::Wait
    ));
    act(DeliveryEvent::Job(job()), 9);
    act(DeliveryEvent::RecordRead(loaded()), 9);
    act(DeliveryEvent::StatusRead(Err(String::new())), 9);
    act(DeliveryEvent::StatusWritten, 9);
    assert!(matches!(
        act(DeliveryEvent::ProfileRead(profile(Some("/cc"))), 9),
        DeliveryAction::Send(_)
    ));
    assert!(matches!(
        act(DeliveryEvent::Sent(Err("offline\n".to_string())), 10),
        DeliveryAction::WriteStatus
    ));
    assert_eq!(worker.status().last_error.as_deref(), Some("offline "));
}

#[test]
fn a_worker_drops_what_is_over() {
    let mut worker = DeliveryWorker::new();
    run_delivery_worker(&mut worker, DeliveryEvent::Job(job()), 1);
    assert!(matches!(
        run_delivery_worker(&mut worker, DeliveryEvent::RecordRead(Ok(None)), 2),
        DeliveryAction::Wait
    ));
    assert!(worker.status().last_attempt_at_ms.is_none());
    let mut next = record();
    next.started_at_ms = 200;
    assert!(!delivery_job_is_current(&job(), &Ok(Some(next))));
    assert!(!delivery_job_is_current(&job(), &Err(String::new())));
}

#[test]
fn a_worker_remembers_what_failed() {
    let fail = |event: DeliveryEvent, detect: bool| {
        let mut worker = DeliveryWorker::new();
        run_delivery_worker(&mut worker, DeliveryEvent::Job(job()), 1);
        run_delivery_worker(&mut worker, DeliveryEvent::RecordRead(loaded()), 1);
        run_delivery_worker(
            &mut worker,
            DeliveryEvent::StatusRead(Ok(CcConnectHandoffNotificationStatus::default())),
            1,
        );
        run_delivery_worker(&mut worker, DeliveryEvent::StatusWritten, 1);
        if detect {
            run_delivery_worker(&mut worker, DeliveryEvent::ProfileRead(profile(None)), 1);
        }
        assert!(matches!(
            run_delivery_worker(&mut worker, event, 2),
            DeliveryAction::WriteStatus
        ));
        worker.status().last_error.clone().unwrap()
    };
    assert_eq!(
        fail(DeliveryEvent::ProfileRead(Ok(None)), false),
        "cc-connect profile is not configured"
    );
    assert_eq!(
        fail(DeliveryEvent::ProfileRead(Err("torn".to_string())), false),
        "torn"
    );
    assert_eq!(
        fail(DeliveryEvent::Detected(Err("none".to_string())), true),
        "none"
    );
    assert_eq!(
        fail(DeliveryEvent::Detected(Ok(binary(false))), true),
        "cc_connect_version_unsupported"
    );
}
