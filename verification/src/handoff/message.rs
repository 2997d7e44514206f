//! The text of a notification.

use super::record::{CcConnectLanguage, CcConnectPlatform, PersistedHandoffRecord};
use super::settings::MINUTE;
use crate::text::{append_decimal, decimal};
use vstd::prelude::*;
use vstd::string::StringExecFns;

verus! {

/// What a notification is about.
#[derive(Debug, Clone, Copy, PartialEq, Eq, Structural)]
pub enum NotificationKind {
    Progress,
    Permission,
    Completed,
    Failed,
    TimedOut,
}

/// The name of a kind of notification.
pub open spec fn kind_key(kind: NotificationKind) -> Seq<char> {
    match kind {
        NotificationKind::Progress => "progress"@,
        NotificationKind::Permission => "permission"@,
        NotificationKind::Completed => "completed"@,
        NotificationKind::Failed => "failed"@,
        NotificationKind::TimedOut => "timed_out"@,
    }
}

impl NotificationKind {
    /// The name of this kind.
    pub fn key(self) -> (key: &'static str)
        ensures
            key@ == kind_key(self),
    {
        match self {
            NotificationKind::Progress => "progress",
            NotificationKind::Permission => "permission",
            NotificationKind::Completed => "completed",
            NotificationKind::Failed => "failed",
            NotificationKind::TimedOut => "timed_out",
        }
    }
}

/// A platform's name.
pub open spec fn platform_name(platform: CcConnectPlatform, language: CcConnectLanguage) -> Seq<
    char,
> {
    match (platform, language) {
        (CcConnectPlatform::Telegram, _) => "Telegram"@,
        (CcConnectPlatform::Feishu, CcConnectLanguage::Zh) => "飞书"@,
        (CcConnectPlatform::Feishu, CcConnectLanguage::En) => "Feishu"@,
        (CcConnectPlatform::Weixin, CcConnectLanguage::Zh) => "微信"@,
        (CcConnectPlatform::Weixin, CcConnectLanguage::En) => "Weixin"@,
        (CcConnectPlatform::Wecom, CcConnectLanguage::Zh) => "企业微信"@,
        (CcConnectPlatform::Wecom, CcConnectLanguage::En) => "WeCom"@,
    }
}

/// The whole minutes in `elapsed` nanoseconds, but at least one.
pub open spec fn shown_minutes(elapsed: nat) -> nat {
    let minutes = elapsed / (MINUTE as nat);
    if minutes < 1 {
        1
    } else {
        minutes
    }
}

/// A time as it is shown: in minutes below an hour, in hours and minutes above.
pub open spec fn elapsed_text(elapsed: nat, language: CcConnectLanguage) -> Seq<char> {
    let minutes = shown_minutes(elapsed);
    match language {
        CcConnectLanguage::Zh => if minutes < 60 {
            decimal(minutes) + " 分钟"@
        } else {
            decimal(minutes / 60) + " 小时 "@ + decimal(minutes % 60) + " 分钟"@
        },
        CcConnectLanguage::En => if minutes < 60 {
            decimal(minutes) + " min"@
        } else {
            decimal(minutes / 60) + " h "@ + decimal(minutes % 60) + " min"@
        },
    }
}

/// What a notification begins with.
pub open spec fn heading_text(language: CcConnectLanguage, kind: NotificationKind) -> Seq<char> {
    match (language, kind) {
        (CcConnectLanguage::Zh, NotificationKind::Progress) => {
            "CLI-Manager 托管任务仍在进行"@
        },
        (CcConnectLanguage::Zh, NotificationKind::Permission) => {
            "CLI-Manager 托管任务需要审批\n请在当前机器人会话中处理。"@
        },
        (CcConnectLanguage::Zh, NotificationKind::Completed) => {
            "CLI-Manager 托管任务已完成"@
        },
        (CcConnectLanguage::Zh, NotificationKind::Failed) => {
            "CLI-Manager 托管任务执行失败"@
        },
        (CcConnectLanguage::Zh, NotificationKind::TimedOut) => {
            "CLI-Manager 托管任务长时间未收到结束事件\n当前状态未知，请检查机器人会话。"@
        },
        (CcConnectLanguage::En, NotificationKind::Progress) => {
            "CLI-Manager managed task is still running"@
        },
        (CcConnectLanguage::En, NotificationKind::Permission) => {
            "CLI-Manager managed task needs approval\nRespond in the current bot conversation."@
        },
        (CcConnectLanguage::En, NotificationKind::Completed) => {
            "CLI-Manager managed task completed"@
        },
        (CcConnectLanguage::En, NotificationKind::Failed) => {
            "CLI-Manager managed task failed"@
        },
        (CcConnectLanguage::En, NotificationKind::TimedOut) => {
            "CLI-Manager has not received a completion event\nThe current state is unknown; check the bot conversation."@
        },
    }
}

/// A notification about the handoff of `record`.
pub open spec fn notification_text(
    record: PersistedHandoffRecord,
    kind: NotificationKind,
    language: CcConnectLanguage,
    elapsed: nat,
) -> Seq<char> {
    let platform = platform_name(record.platform, language);
    let time = elapsed_text(elapsed, language);
    match language {
        CcConnectLanguage::Zh => heading_text(language, kind) + "\n平台："@ + platform
            + "\n项目："@ + record.project_name@ + "\nProvider："@ + record.provider_name@
            + "\ncliSessionId："@ + record.cli_session_id@ + "\n工作目录："@ + record.work_dir@
            + "\n已用时间："@ + time,
        CcConnectLanguage::En => heading_text(language, kind) + "\nPlatform: "@ + platform
            + "\nProject: "@ + record.project_name@ + "\nProvider: "@ + record.provider_name@
            + "\ncliSessionId: "@ + record.cli_session_id@ + "\nWorking directory: "@
            + record.work_dir@ + "\nElapsed: "@ + time,
    }
}

/// A platform's name.
pub fn platform_label(platform: CcConnectPlatform, language: CcConnectLanguage) -> (label:
    &'static str)
    ensures
        label@ == platform_name(platform, language),
{
    match (platform, language) {
        (CcConnectPlatform::Telegram, _) => "Telegram",
        (CcConnectPlatform::Feishu, CcConnectLanguage::Zh) => "飞书",
        (CcConnectPlatform::Feishu, CcConnectLanguage::En) => "Feishu",
        (CcConnectPlatform::Weixin, CcConnectLanguage::Zh) => "微信",
        (CcConnectPlatform::Weixin, CcConnectLanguage::En) => "Weixin",
        (CcConnectPlatform::Wecom, CcConnectLanguage::Zh) => "企业微信",
        (CcConnectPlatform::Wecom, CcConnectLanguage::En) => "WeCom",
    }
}

/// `elapsed` nanoseconds as they are shown: in minutes below an hour, in hours and
/// minutes above, and never less than a minute.
pub fn elapsed_label(elapsed: u128, language: CcConnectLanguage) -> (label: String)
    ensures
        label@ == elapsed_text(elapsed as nat, language),
{
    let whole = elapsed / MINUTE;
    let minutes = if whole < 1 {
        1
    } else {
        whole
    };
    let mut label = String::new();
    match language {
        CcConnectLanguage::Zh => {
            if minutes < 60 {
                append_decimal(&mut label, minutes);
            } else {
                append_decimal(&mut label, minutes / 60);
                label.append(" 小时 ");
                append_decimal(&mut label, minutes % 60);
            }
            label.append(" 分钟");
        },
        CcConnectLanguage::En => {
            if minutes < 60 {
                append_decimal(&mut label, minutes);
            } else {
                append_decimal(&mut label, minutes / 60);
                label.append(" h ");
                append_decimal(&mut label, minutes % 60);
            }
            label.append(" min");
        },
    }
    assert(label@ =~= elapsed_text(elapsed as nat, language));
    label
}

fn heading(language: CcConnectLanguage, kind: NotificationKind) -> (text: &'static str)
    ensures
        text@ == heading_text(language, kind),
{
    match (language, kind) {
        (CcConnectLanguage::Zh, NotificationKind::Progress) => {
            "CLI-Manager 托管任务仍在进行"
        },
        (CcConnectLanguage::Zh, NotificationKind::Permission) => {
            "CLI-Manager 托管任务需要审批\n请在当前机器人会话中处理。"
        },
        (CcConnectLanguage::Zh, NotificationKind::Completed) => {
            "CLI-Manager 托管任务已完成"
        },
        (CcConnectLanguage::Zh, NotificationKind::Failed) => {
            "CLI-Manager 托管任务执行失败"
        },
        (CcConnectLanguage::Zh, NotificationKind::TimedOut) => {
            "CLI-Manager 托管任务长时间未收到结束事件\n当前状态未知，请检查机器人会话。"
        },
        (CcConnectLanguage::En, NotificationKind::Progress) => {
            "CLI-Manager managed task is still running"
        },
        (CcConnectLanguage::En, NotificationKind::Permission) => {
            "CLI-Manager managed task needs approval\nRespond in the current bot conversation."
        },
        (CcConnectLanguage::En, NotificationKind::Completed) => {
            "CLI-Manager managed task completed"
        },
        (CcConnectLanguage::En, NotificationKind::Failed) => {
            "CLI-Manager managed task failed"
        },
        (CcConnectLanguage::En, NotificationKind::TimedOut) => {
            "CLI-Manager has not received a completion event\nThe current state is unknown; check the bot conversation."
        },
    }
}

/// A notification about the handoff of `record`, `elapsed` nanoseconds after its task
/// began.
pub fn format_notification(
    record: &PersistedHandoffRecord,
    kind: NotificationKind,
    language: CcConnectLanguage,
    elapsed: u128,
) -> (message: String)
    ensures
        message@ == notification_text(*record, kind, language, elapsed as nat),
{
    let platform = platform_label(record.platform, language);
    let time = elapsed_label(elapsed, language);
    let mut message = String::new();
    message.append(heading(language, kind));
    match language {
        CcConnectLanguage::Zh => {
            message.append("\n平台：");
            message.append(platform);
            message.append("\n项目：");
            message.append(record.project_name.as_str());
            message.append("\nProvider：");
            message.append(record.provider_name.as_str());
            message.append("\ncliSessionId：");
            message.append(record.cli_session_id.as_str());
            message.append("\n工作目录：");
            message.append(record.work_dir.as_str());
            message.append("\n已用时间：");
        },
        CcConnectLanguage::En => {
            message.append("\nPlatform: ");
            message.append(platform);
            message.append("\nProject: ");
            message.append(record.project_name.as_str());
            message.append("\nProvider: ");
            message.append(record.provider_name.as_str());
            message.append("\ncliSessionId: ");
            message.append(record.cli_session_id.as_str());
            message.append("\nWorking directory: ");
            message.append(record.work_dir.as_str());
            message.append("\nElapsed: ");
        },
    }
    message.append(time.as_str());
    assert(message@ =~= notification_text(*record, kind, language, elapsed as nat));
    message
}

/// Whether `part` stands somewhere in `message`.
pub open spec fn shows(message: Seq<char>, part: Seq<char>) -> bool {
    exists|i: int|
        0 <= i <= message.len() - part.len() && #[trigger] message.subrange(
            i,
            i + part.len(),
        ) == part
}

proof fn lemma_shows(before: Seq<char>, part: Seq<char>, after: Seq<char>)
    ensures
        shows(before + part + after, part),
{
    let message = before + part + after;
    let i = before.len() as int;
    assert(message.subrange(i, i + part.len()) =~= part);
}

/// Every notification shows its heading, the platform, the project, the provider, the
/// session, the working directory and the time.
#[verifier::rlimit(60)]
#[verifier::spinoff_prover]
pub proof fn law_notification_shows_its_facts(
    record: PersistedHandoffRecord,
    kind: NotificationKind,
    language: CcConnectLanguage,
    elapsed: nat,
)
    ensures
        ({
            let message = notification_text(record, kind, language, elapsed);
            &&& shows(message, heading_text(language, kind))
            &&& shows(message, platform_name(record.platform, language))
            &&& shows(message, record.project_name@)
            &&& shows(message, record.provider_name@)
            &&& shows(message, record.cli_session_id@)
            &&& shows(message, record.work_dir@)
            &&& shows(message, elapsed_text(elapsed, language))
        }),
{
    let message = notification_text(record, kind, language, elapsed);
    let heading = heading_text(language, kind);
    let platform = platform_name(record.platform, language);
    let time = elapsed_text(elapsed, language);
    let (a, b, c, d, e, f) = match language {
        CcConnectLanguage::Zh => (
            "\n平台："@,
            "\n项目："@,
            "\nProvider："@,
            "\ncliSessionId："@,
            "\n工作目录："@,
            "\n已用时间："@,
        ),
        CcConnectLanguage::En => (
            "\nPlatform: "@,
            "\nProject: "@,
            "\nProvider: "@,
            "\ncliSessionId: "@,
            "\nWorking directory: "@,
            "\nElapsed: "@,
        ),
    };
    let none = Seq::<char>::empty();
    let at_platform = heading + a;
    let at_project = at_platform + platform + b;
    let at_provider = at_project + record.project_name@ + c;
    let at_session = at_provider + record.provider_name@ + d;
    let at_directory = at_session + record.cli_session_id@ + e;
    let at_time = at_directory + record.work_dir@ + f;
    assert(message =~= at_time + time + none);
    lemma_shows(at_time, time, none);
    let after_directory = f + time;
    assert(message =~= at_directory + record.work_dir@ + after_directory);
    lemma_shows(at_directory, record.work_dir@, after_directory);
    let after_session = e + record.work_dir@ + after_directory;
    assert(message =~= at_session + record.cli_session_id@ + after_session);
    lemma_shows(at_session, record.cli_session_id@, after_session);
    let after_provider = d + record.cli_session_id@ + after_session;
    assert(message =~= at_provider + record.provider_name@ + after_provider);
    lemma_shows(at_provider, record.provider_name@, after_provider);
    let after_project = c + record.provider_name@ + after_provider;
    assert(message =~= at_project + record.project_name@ + after_project);
    lemma_shows(at_project, record.project_name@, after_project);
    let after_platform = b + record.project_name@ + after_project;
    assert(message =~= at_platform + platform + after_platform);
    lemma_shows(at_platform, platform, after_platform);
    let after_heading = a + platform + after_platform;
    assert(message =~= none + heading + after_heading);
    lemma_shows(none, heading, after_heading);
}

/// A notification holds nothing of a record but the platform, the names of project and
/// provider, the session and the working directory: where these agree, so do the
/// notifications.
pub proof fn law_notification_holds_nothing_else(
    a: PersistedHandoffRecord,
    b: PersistedHandoffRecord,
    kind: NotificationKind,
    language: CcConnectLanguage,
    elapsed: nat,
)
    requires
        a.platform == b.platform,
        a.project_name@ == b.project_name@,
        a.provider_name@ == b.provider_name@,
        a.cli_session_id@ == b.cli_session_id@,
        a.work_dir@ == b.work_dir@,
    ensures
        notification_text(a, kind, language, elapsed) == notification_text(
            b,
            kind,
            language,
            elapsed,
        ),
{
}

/// Every notification begins by saying what happened: that the task is still running,
/// needs approval, completed, failed, or was not heard of again.
pub proof fn law_notification_begins_with_what_happened(
    record: PersistedHandoffRecord,
    kind: NotificationKind,
    language: CcConnectLanguage,
    elapsed: u128,
    message: String,
)
    requires
        call_ensures(format_notification, (&record, kind, language, elapsed), message),
    ensures
        ({
            let said = match (kind, language) {
                (NotificationKind::Progress, CcConnectLanguage::En) => {
                    "CLI-Manager managed task is still running"@
                },
                (NotificationKind::Permission, CcConnectLanguage::En) => {
                    "CLI-Manager managed task needs approval\nRespond in the current bot conversation."@
                },
                (NotificationKind::Completed, CcConnectLanguage::En) => {
                    "CLI-Manager managed task completed"@
                },
                (NotificationKind::Failed, CcConnectLanguage::En) => {
                    "CLI-Manager managed task failed"@
                },
                (NotificationKind::TimedOut, CcConnectLanguage::En) => {
                    "CLI-Manager has not received a completion event\nThe current state is unknown; check the bot conversation."@
                },
                (NotificationKind::Progress, CcConnectLanguage::Zh) => {
                    "CLI-Manager 托管任务仍在进行"@
                },
                (NotificationKind::Permission, CcConnectLanguage::Zh) => {
                    "CLI-Manager 托管任务需要审批\n请在当前机器人会话中处理。"@
                },
                (NotificationKind::Completed, CcConnectLanguage::Zh) => {
                    "CLI-Manager 托管任务已完成"@
                },
                (NotificationKind::Failed, CcConnectLanguage::Zh) => {
                    "CLI-Manager 托管任务执行失败"@
                },
                (NotificationKind::TimedOut, CcConnectLanguage::Zh) => {
                    "CLI-Manager 托管任务长时间未收到结束事件\n当前状态未知，请检查机器人会话。"@
                },
            };
            message@.len() >= said.len() && message@.take(said.len() as int) == said
        }),
{
    let said = heading_text(language, kind);
    assert(message@.take(said.len() as int) =~= said);
}

/// Whether `message` is `said` and then the facts, each behind its name.
pub open spec fn names_facts(
    said: Seq<char>,
    message: Seq<char>,
    record: PersistedHandoffRecord,
    language: CcConnectLanguage,
    platform: Seq<char>,
    time: Seq<char>,
) -> bool {
    message == match language {
        CcConnectLanguage::En => said + "\nPlatform: "@ + platform + "\nProject: "@
            + record.project_name@ + "\nProvider: "@ + record.provider_name@ + "\ncliSessionId: "@
            + record.cli_session_id@ + "\nWorking directory: "@ + record.work_dir@
            + "\nElapsed: "@ + time,
        CcConnectLanguage::Zh => said + "\n平台："@ + platform + "\n项目："@
            + record.project_name@ + "\nProvider："@ + record.provider_name@
            + "\ncliSessionId："@ + record.cli_session_id@ + "\n工作目录："@ + record.work_dir@
            + "\n已用时间："@ + time,
    }
}

/// What follows the beginning of a notification: the platform, the project, the provider,
/// the session, the working directory and the time, each on a line of its own behind its
/// name.
pub proof fn law_notification_names_what_it_shows(
    record: PersistedHandoffRecord,
    kind: NotificationKind,
    language: CcConnectLanguage,
    elapsed: u128,
    message: String,
    platform: &'static str,
    time: String,
)
    requires
        call_ensures(format_notification, (&record, kind, language, elapsed), message),
        call_ensures(platform_label, (record.platform, language), platform),
        call_ensures(elapsed_label, (elapsed, language), time),
    ensures
        exists|said: Seq<char>| #[trigger]
            names_facts(said, message@, record, language, platform@, time@),
{
    assert(names_facts(
        heading_text(language, kind),
        message@,
        record,
        language,
        platform@,
        time@,
    ));
}

/// A time is shown in whole minutes, of which there is at least one; from an hour on in
/// hours and the minutes that are left.
pub proof fn law_time_is_shown_in_minutes(
    elapsed: u128,
    language: CcConnectLanguage,
    label: String,
)
    requires
        call_ensures(elapsed_label, (elapsed, language), label),
    ensures
        ({
            let whole = elapsed as nat / 60_000_000_000;
            let minutes = if whole == 0 {
                1nat
            } else {
                whole
            };
            &&& whole < 60 && language is En ==> label@ == decimal(minutes) + " min"@
            &&& whole < 60 && language is Zh ==> label@ == decimal(minutes) + " 分钟"@
            &&& whole >= 60 && language is En ==> label@ == decimal(whole / 60) + " h "@
                + decimal(whole % 60) + " min"@
            &&& whole >= 60 && language is Zh ==> label@ == decimal(whole / 60) + " 小时 "@
                + decimal(whole % 60) + " 分钟"@
        }),
{
}

/// What a platform and a kind of notification are called.
pub proof fn law_names_of_platforms_and_kinds(
    platform: CcConnectPlatform,
    language: CcConnectLanguage,
    label: &'static str,
    kind: NotificationKind,
    key: &'static str,
)
    requires
        call_ensures(platform_label, (platform, language), label),
        call_ensures(NotificationKind::key, (kind,), key),
    ensures
        platform is Telegram ==> label@ == "Telegram"@,
        platform is Feishu ==> label@ == if language is En {
            "Feishu"@
        } else {
            "飞书"@
        },
        platform is Weixin ==> label@ == if language is En {
            "Weixin"@
        } else {
            "微信"@
        },
        platform is Wecom ==> label@ == if language is En {
            "WeCom"@
        } else {
            "企业微信"@
        },
        kind is Progress ==> key@ == "progress"@,
        kind is Permission ==> key@ == "permission"@,
        kind is Completed ==> key@ == "completed"@,
        kind is Failed ==> key@ == "failed"@,
        kind is TimedOut ==> key@ == "timed_out"@,
{
}

} // verus!
