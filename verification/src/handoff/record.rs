//! What is known of a session that was handed off.

use crate::daemon::protocol::DaemonInfo;
use crate::text::{decimal, decimal_text, same_text};
use vstd::prelude::*;

verus! {

/// Where the messages of a session go.
#[derive(Debug, Clone, Copy, PartialEq, Eq, Structural)]
pub enum CcConnectPlatform {
    Telegram,
    Feishu,
    Weixin,
    Wecom,
}

/// The language of the messages.
#[derive(Debug, Clone, Copy, PartialEq, Eq, Structural)]
pub enum CcConnectLanguage {
    Zh,
    En,
}

/// A session that was handed off, as its record on disk has it.
#[derive(Debug)]
pub struct PersistedHandoffRecord {
    pub schema_version: u32,
    pub local_session_id: String,
    pub cli_session_id: String,
    pub project_id: String,
    pub project_name: String,
    pub worktree_id: Option<String>,
    pub worktree_name: Option<String>,
    pub work_dir: String,
    pub provider_id: Option<String>,
    pub provider_name: String,
    pub provider_is_global: bool,
    pub platform: CcConnectPlatform,
    pub platform_session_key: String,
    pub cc_session_id: String,
    pub session_file_path: String,
    pub previous_active_session_id: Option<String>,
    pub source_project_id: String,
    pub source_project_name: String,
    pub source_project_path: String,
    pub started_at_ms: i64,
}

/// What tells one handoff from another.
#[derive(Debug)]
pub struct HandoffIdentity {
    pub local_session_id: String,
    pub cli_session_id: String,
    pub platform: CcConnectPlatform,
    pub platform_session_key: String,
    pub started_at_ms: i64,
}

/// A handoff's identity as a value.
pub struct Identity {
    pub local_session_id: Seq<char>,
    pub cli_session_id: Seq<char>,
    pub platform: CcConnectPlatform,
    pub platform_session_key: Seq<char>,
    pub started_at_ms: i64,
}

impl View for HandoffIdentity {
    type V = Identity;

    open spec fn view(&self) -> Identity {
        Identity {
            local_session_id: self.local_session_id@,
            cli_session_id: self.cli_session_id@,
            platform: self.platform,
            platform_session_key: self.platform_session_key@,
            started_at_ms: self.started_at_ms,
        }
    }
}

/// The identity of the handoff that `record` is of.
pub open spec fn record_identity(record: PersistedHandoffRecord) -> Identity {
    Identity {
        local_session_id: record.local_session_id@,
        cli_session_id: record.cli_session_id@,
        platform: record.platform,
        platform_session_key: record.platform_session_key@,
        started_at_ms: record.started_at_ms,
    }
}

impl HandoffIdentity {
    pub fn from_record(record: &PersistedHandoffRecord) -> (identity: Self)
        ensures
            identity@ == record_identity(*record),
    {
        HandoffIdentity {
            local_session_id: record.local_session_id.as_str().to_owned(),
            cli_session_id: record.cli_session_id.as_str().to_owned(),
            platform: record.platform,
            platform_session_key: record.platform_session_key.as_str().to_owned(),
            started_at_ms: record.started_at_ms,
        }
    }

    /// Whether `record` is of this handoff.
    pub fn matches_record(&self, record: &PersistedHandoffRecord) -> (r: bool)
        ensures
            r == (self@ == record_identity(*record)),
    {
        same_text(self.local_session_id.as_str(), record.local_session_id.as_str())
            && same_text(self.cli_session_id.as_str(), record.cli_session_id.as_str())
            && self.platform == record.platform && same_text(
            self.platform_session_key.as_str(),
            record.platform_session_key.as_str(),
        ) && self.started_at_ms == record.started_at_ms
    }
}

/// The environment variables through which a session's hooks find the daemon.
pub fn hook_environment_keys() -> (keys: [&'static str; 3])
    ensures
        keys@[0]@ == "CLI_MANAGER_TAB_ID"@,
        keys@[1]@ == "CLI_MANAGER_NOTIFY_PORT"@,
        keys@[2]@ == "CLI_MANAGER_NOTIFY_TOKEN"@,
{
    ["CLI_MANAGER_TAB_ID", "CLI_MANAGER_NOTIFY_PORT", "CLI_MANAGER_NOTIFY_TOKEN"]
}

/// Whether `values` names the session of `record` and the daemon of `info`.
pub open spec fn is_hook_environment(
    values: Seq<(&'static str, String)>,
    record: PersistedHandoffRecord,
    info: DaemonInfo,
) -> bool {
    &&& values.len() == 3
    &&& values[0].0@ == "CLI_MANAGER_TAB_ID"@ && values[0].1@ == record.local_session_id@
    &&& values[1].0@ == "CLI_MANAGER_NOTIFY_PORT"@ && values[1].1@ == decimal(
        info.hook_port as nat,
    )
    &&& values[2].0@ == "CLI_MANAGER_NOTIFY_TOKEN"@ && values[2].1@ == info.token@
}

/// What the environment variables are for the session of `record` and the daemon of
/// `info`.
pub fn hook_environment_values(record: &PersistedHandoffRecord, info: &DaemonInfo) -> (values: [(
    &'static str,
    String,
); 3])
    ensures
        is_hook_environment(values@, *record, *info),
{
    [
        ("CLI_MANAGER_TAB_ID", record.local_session_id.as_str().to_owned()),
        ("CLI_MANAGER_NOTIFY_PORT", decimal_text(info.hook_port as u128)),
        ("CLI_MANAGER_NOTIFY_TOKEN", info.token.as_str().to_owned()),
    ]
}

/// What to set in the environment of a new process, from which the variables were
/// taken out: the values, where there is a handoff and a daemon that lives and listens
/// to hooks, and else nothing. `alive` tells whether the process of `info` lives.
pub fn apply_hook_environment(
    record: Result<Option<PersistedHandoffRecord>, String>,
    info: Result<Option<DaemonInfo>, String>,
    alive: bool,
) -> (values: Option<[(&'static str, String); 3]>)
    ensures
        match (record, info) {
            (Ok(Some(handoff)), Ok(Some(daemon))) => if daemon.hook_port > 0 && alive {
                values matches Some(v) && is_hook_environment(v@, handoff, daemon)
            } else {
                values is None
            },
            _ => values is None,
        },
{
    match (record, info) {
        (Ok(Some(handoff)), Ok(Some(daemon))) => if daemon.hook_port > 0 && alive {
            Some(hook_environment_values(&handoff, &daemon))
        } else {
            None
        },
        _ => None,
    }
}

/// A record is of a handoff where the two sessions, the platform, the key of the session
/// there and the time of the handoff are the same; nothing else of it matters.
pub proof fn law_handoff_is_known_by_five_things(
    identity: HandoffIdentity,
    record: PersistedHandoffRecord,
    r: bool,
    own: HandoffIdentity,
    of_own: bool,
)
    requires
        call_ensures(HandoffIdentity::matches_record, (&identity, &record), r),
        call_ensures(HandoffIdentity::from_record, (&record,), own),
        call_ensures(HandoffIdentity::matches_record, (&own, &record), of_own),
    ensures
        r <==> {
            &&& identity.local_session_id@ == record.local_session_id@
            &&& identity.cli_session_id@ == record.cli_session_id@
            &&& identity.platform == record.platform
            &&& identity.platform_session_key@ == record.platform_session_key@
            &&& identity.started_at_ms == record.started_at_ms
        },
        of_own,
        own.local_session_id@ == record.local_session_id@,
        own.cli_session_id@ == record.cli_session_id@,
        own.platform == record.platform,
        own.platform_session_key@ == record.platform_session_key@,
        own.started_at_ms == record.started_at_ms,
{
    assert(own@ == record_identity(record));
    let known = identity@;
    let wanted = record_identity(record);
    assert(known == wanted <==> {
        &&& known.local_session_id == wanted.local_session_id
        &&& known.cli_session_id == wanted.cli_session_id
        &&& known.platform == wanted.platform
        &&& known.platform_session_key == wanted.platform_session_key
        &&& known.started_at_ms == wanted.started_at_ms
    });
}

/// The hooks of a handed-off session are told its tab, the daemon's port for hooks and its
/// token, each under its own name.
pub proof fn law_hooks_are_told_where_to_report(
    record: PersistedHandoffRecord,
    info: DaemonInfo,
    values: [(&'static str, String); 3],
    keys: [&'static str; 3],
)
    requires
        call_ensures(hook_environment_values, (&record, &info), values),
        call_ensures(hook_environment_keys, (), keys),
    ensures
        keys@[0]@ == "CLI_MANAGER_TAB_ID"@,
        keys@[1]@ == "CLI_MANAGER_NOTIFY_PORT"@,
        keys@[2]@ == "CLI_MANAGER_NOTIFY_TOKEN"@,
        forall|i: int| 0 <= i < 3 ==> (#[trigger] values@[i]).0@ == keys@[i]@,
        values@[0].1@ == record.local_session_id@,
        values@[1].1@ == decimal(info.hook_port as nat),
        values@[2].1@ == info.token@,
{
}

/// A new process gets these values exactly where a handoff is recorded and a daemon that
/// lives listens to hooks.
pub proof fn law_hooks_report_only_to_a_live_daemon(
    record: Result<Option<PersistedHandoffRecord>, String>,
    info: Result<Option<DaemonInfo>, String>,
    alive: bool,
    values: Option<[(&'static str, String); 3]>,
)
    requires
        call_ensures(apply_hook_environment, (record, info, alive), values),
    ensures
        values is Some <==> (record matches Ok(Some(_))) && (info matches Ok(Some(daemon))
            && daemon.hook_port > 0) && alive,
        values matches Some(v) ==> {
            &&& v@[0].0@ == "CLI_MANAGER_TAB_ID"@ && v@[0].1@ == record->Ok_0->0.local_session_id@
            &&& v@[1].0@ == "CLI_MANAGER_NOTIFY_PORT"@ && v@[1].1@ == decimal(
                info->Ok_0->0.hook_port as nat,
            )
            &&& v@[2].0@ == "CLI_MANAGER_NOTIFY_TOKEN"@ && v@[2].1@ == info->Ok_0->0.token@
        },
{
}

} // verus!
