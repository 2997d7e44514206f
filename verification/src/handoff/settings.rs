//! Which notifications the user wants.

use crate::json::{
    get_field, json_as_bool, json_as_u64, json_get, json_view, parse_json, parsed_json, Json,
};
use vstd::prelude::*;

verus! {

pub const DEFAULT_PROGRESS_INTERVAL_MINUTES: u64 = 5;

pub const MIN_PROGRESS_INTERVAL_MINUTES: u64 = 1;

pub const MAX_PROGRESS_INTERVAL_MINUTES: u64 = 60;

/// A minute, in nanoseconds.
pub const MINUTE: u128 = 60_000_000_000;

/// How long a task may take that reports no progress.
pub const TASK_STALE_AFTER: u128 = 20 * MINUTE;

/// How long a task may take beyond the time for one report.
pub const TASK_STALE_GRACE: u128 = 5 * MINUTE;

/// The user's choice.
#[derive(Debug, Clone, Copy, PartialEq, Eq, Structural)]
pub struct NotificationSettings {
    pub enabled: bool,
    pub completion_enabled: bool,
    pub permission_enabled: bool,
    pub progress_enabled: bool,
    pub progress_interval_minutes: u64,
}

/// The choice of a user who made none.
pub open spec fn default_settings() -> NotificationSettings {
    NotificationSettings {
        enabled: true,
        completion_enabled: true,
        permission_enabled: true,
        progress_enabled: true,
        progress_interval_minutes: DEFAULT_PROGRESS_INTERVAL_MINUTES,
    }
}

impl Default for NotificationSettings {
    fn default() -> (settings: Self)
        ensures
            settings == default_settings(),
    {
        NotificationSettings {
            enabled: true,
            completion_enabled: true,
            permission_enabled: true,
            progress_enabled: true,
            progress_interval_minutes: DEFAULT_PROGRESS_INTERVAL_MINUTES,
        }
    }
}

/// The boolean that `json` holds under `key`; `fallback` where it holds none there.
pub open spec fn bool_field(json: Json, key: Seq<char>, fallback: bool) -> bool {
    match json_get(json, key) {
        Some(field) => match json_as_bool(field) {
            Some(b) => b,
            None => fallback,
        },
        None => fallback,
    }
}

/// `n`, or the bound that it is beyond.
pub open spec fn clamped(n: u64, low: u64, high: u64) -> u64 {
    if n < low {
        low
    } else if n > high {
        high
    } else {
        n
    }
}

/// The interval between reports of progress that `json` asks for.
pub open spec fn interval_field(json: Json) -> u64 {
    let asked = match json_get(json, "remoteHandoffProgressIntervalMinutes"@) {
        Some(field) => match json_as_u64(field) {
            Some(n) => n,
            None => DEFAULT_PROGRESS_INTERVAL_MINUTES,
        },
        None => DEFAULT_PROGRESS_INTERVAL_MINUTES,
    };
    clamped(asked, MIN_PROGRESS_INTERVAL_MINUTES, MAX_PROGRESS_INTERVAL_MINUTES)
}

/// The choice that `json` holds.
pub open spec fn settings_in(json: Json) -> NotificationSettings {
    NotificationSettings {
        enabled: bool_field(json, "remoteHandoffNotificationsEnabled"@, true),
        completion_enabled: bool_field(json, "remoteHandoffCompletionNotificationsEnabled"@, true),
        permission_enabled: bool_field(json, "remoteHandoffPermissionNotificationsEnabled"@, true),
        progress_enabled: bool_field(json, "remoteHandoffProgressNotificationsEnabled"@, true),
        progress_interval_minutes: interval_field(json),
    }
}

/// How long to wait between reports of progress, in nanoseconds.
pub open spec fn progress_interval(settings: NotificationSettings) -> int {
    settings.progress_interval_minutes * MINUTE
}

/// After how long a task counts as lost, in nanoseconds.
pub open spec fn stale_after(settings: NotificationSettings) -> int {
    if settings.progress_enabled && progress_interval(settings) + TASK_STALE_GRACE
        > TASK_STALE_AFTER {
        progress_interval(settings) + TASK_STALE_GRACE
    } else {
        TASK_STALE_AFTER as int
    }
}

pub fn bool_setting(value: &serde_json::Value, key: &str, fallback: bool) -> (r: bool)
    ensures
        r == bool_field(json_view(*value), key@, fallback),
{
    match get_field(value, key) {
        Some(field) => match field.as_bool() {
            Some(b) => b,
            None => fallback,
        },
        None => fallback,
    }
}

fn interval_setting(value: &serde_json::Value) -> (minutes: u64)
    ensures
        minutes == interval_field(json_view(*value)),
{
    let asked = match get_field(value, "remoteHandoffProgressIntervalMinutes") {
        Some(field) => match field.as_u64() {
            Some(n) => n,
            None => DEFAULT_PROGRESS_INTERVAL_MINUTES,
        },
        None => DEFAULT_PROGRESS_INTERVAL_MINUTES,
    };
    if asked < MIN_PROGRESS_INTERVAL_MINUTES {
        MIN_PROGRESS_INTERVAL_MINUTES
    } else if asked > MAX_PROGRESS_INTERVAL_MINUTES {
        MAX_PROGRESS_INTERVAL_MINUTES
    } else {
        asked
    }
}

/// The choice that a settings file's value holds. What it says nothing of is wanted;
/// the interval is kept between a minute and an hour.
pub fn notification_settings_from_value(value: &serde_json::Value) -> (settings:
    NotificationSettings)
    ensures
        settings == settings_in(json_view(*value)),
{
    NotificationSettings {
        enabled: bool_setting(value, "remoteHandoffNotificationsEnabled", true),
        completion_enabled: bool_setting(
            value,
            "remoteHandoffCompletionNotificationsEnabled",
            true,
        ),
        permission_enabled: bool_setting(
            value,
            "remoteHandoffPermissionNotificationsEnabled",
            true,
        ),
        progress_enabled: bool_setting(value, "remoteHandoffProgressNotificationsEnabled", true),
        progress_interval_minutes: interval_setting(value),
    }
}

/// The choice in the text of a settings file; `None` stands for a file that could not be
/// read. A text that is no JSON says nothing.
pub fn read_notification_settings(text: Option<&str>) -> (settings: NotificationSettings)
    ensures
        settings == match text {
            Some(t) => match parsed_json(t@) {
                Some(json) => settings_in(json),
                None => default_settings(),
            },
            None => default_settings(),
        },
{
    match text {
        Some(t) => match parse_json(t) {
            Ok(value) => notification_settings_from_value(&value),
            Err(_) => NotificationSettings::default(),
        },
        None => NotificationSettings::default(),
    }
}

/// How long to wait between reports of progress, in nanoseconds.
pub fn progress_interval_of(settings: NotificationSettings) -> (interval: u128)
    ensures
        interval == progress_interval(settings),
{
    assert(settings.progress_interval_minutes * MINUTE <= u64::MAX * MINUTE) by (nonlinear_arith)
        requires
            settings.progress_interval_minutes <= u64::MAX,
            MINUTE == 60_000_000_000,
    ;
    settings.progress_interval_minutes as u128 * MINUTE
}

/// After how long a task counts as lost, in nanoseconds.
pub fn task_stale_after(settings: NotificationSettings) -> (after: u128)
    ensures
        after == stale_after(settings),
{
    let interval = progress_interval_of(settings);
    if settings.progress_enabled && interval + TASK_STALE_GRACE > TASK_STALE_AFTER {
        interval + TASK_STALE_GRACE
    } else {
        TASK_STALE_AFTER
    }
}

/// Settings that were read always ask for an interval between a minute and an hour.
pub proof fn law_interval_is_bounded(json: Json)
    ensures
        MIN_PROGRESS_INTERVAL_MINUTES <= settings_in(json).progress_interval_minutes
            <= MAX_PROGRESS_INTERVAL_MINUTES,
{
}

/// Settings that say nothing of notifications are the default, whatever else they hold.
pub proof fn law_silent_settings_are_the_default(json: Json)
    requires
        json_get(json, "remoteHandoffNotificationsEnabled"@) is None,
        json_get(json, "remoteHandoffCompletionNotificationsEnabled"@) is None,
        json_get(json, "remoteHandoffPermissionNotificationsEnabled"@) is None,
        json_get(json, "remoteHandoffProgressNotificationsEnabled"@) is None,
        json_get(json, "remoteHandoffProgressIntervalMinutes"@) is None,
    ensures
        settings_in(json) == default_settings(),
{
}

/// A task that reports progress is given at least one report before it counts as lost.
pub proof fn law_report_comes_before_loss(settings: NotificationSettings)
    requires
        settings.progress_enabled,
    ensures
        stale_after(settings) >= progress_interval(settings) + TASK_STALE_GRACE,
{
}

/// Whether `json` is an object that holds the boolean `b` under `key`.
pub open spec fn chooses(json: Json, key: Seq<char>, b: bool) -> bool {
    json matches Json::Object(fields) && fields.dom().contains(key) && fields[key] == Json::Bool(b)
}

/// A kind of notification is unwanted exactly where the settings say so under its own name;
/// else it is wanted.
pub proof fn law_only_what_is_refused_is_unwanted(
    value: &serde_json::Value,
    settings: NotificationSettings,
)
    requires
        call_ensures(notification_settings_from_value, (value,), settings),
    ensures
        !settings.enabled <==> chooses(
            json_view(*value),
            "remoteHandoffNotificationsEnabled"@,
            false,
        ),
        !settings.completion_enabled <==> chooses(
            json_view(*value),
            "remoteHandoffCompletionNotificationsEnabled"@,
            false,
        ),
        !settings.permission_enabled <==> chooses(
            json_view(*value),
            "remoteHandoffPermissionNotificationsEnabled"@,
            false,
        ),
        !settings.progress_enabled <==> chooses(
            json_view(*value),
            "remoteHandoffProgressNotificationsEnabled"@,
            false,
        ),
{
}

/// The interval is the number of minutes that the settings hold, but at least 1 and at most
/// 60; it is 5 where they hold no such number.
pub proof fn law_interval_is_what_was_asked_for(
    value: &serde_json::Value,
    settings: NotificationSettings,
)
    requires
        call_ensures(notification_settings_from_value, (value,), settings),
    ensures
        ({
            let key = "remoteHandoffProgressIntervalMinutes"@;
            let minutes = settings.progress_interval_minutes;
            match json_view(*value) {
                Json::Object(fields) => if fields.dom().contains(key) && fields[key] is Unsigned {
                    let asked = fields[key]->Unsigned_0;
                    &&& 1 <= asked <= 60 ==> minutes == asked
                    &&& asked == 0 ==> minutes == 1
                    &&& asked > 60 ==> minutes == 60
                } else {
                    minutes == 5
                },
                _ => minutes == 5,
            }
        }),
{
}

/// A boolean that is not there, or is none, is what it falls back to.
pub proof fn law_boolean_falls_back(value: &serde_json::Value, key: &str, fallback: bool, r: bool)
    requires
        call_ensures(bool_setting, (value, key, fallback), r),
    ensures
        chooses(json_view(*value), key@, true) ==> r,
        chooses(json_view(*value), key@, false) ==> !r,
        !chooses(json_view(*value), key@, true) && !chooses(json_view(*value), key@, false) ==> r
            == fallback,
{
}

/// A user whose settings cannot be read, or are no JSON, wants everything, and progress
/// every 5 minutes; so does one who made no choice. Settings that are JSON are read as
/// their value is.
pub proof fn law_unreadable_settings_want_everything(
    text: Option<&str>,
    settings: NotificationSettings,
    value: &serde_json::Value,
    from_value: NotificationSettings,
    default: NotificationSettings,
)
    requires
        call_ensures(read_notification_settings, (text,), settings),
        call_ensures(notification_settings_from_value, (value,), from_value),
        call_ensures(NotificationSettings::default, (), default),
    ensures
        default == (NotificationSettings {
            enabled: true,
            completion_enabled: true,
            permission_enabled: true,
            progress_enabled: true,
            progress_interval_minutes: 5,
        }),
        text is None ==> settings == default,
        text matches Some(t) ==> (parsed_json(t@) is None ==> settings == default),
        text matches Some(t) ==> (parsed_json(t@) == Some(json_view(*value)) ==> settings
            == from_value),
{
}

/// The interval is counted in minutes of 60 seconds. A task counts as lost after 20
/// minutes, but never before 5 minutes after the first report of progress, where such
/// reports are wanted.
pub proof fn law_times_are_in_minutes(
    settings: NotificationSettings,
    interval: u128,
    patience: u128,
)
    requires
        call_ensures(progress_interval_of, (settings,), interval),
        call_ensures(task_stale_after, (settings,), patience),
    ensures
        interval == settings.progress_interval_minutes * 60_000_000_000,
        patience >= 20 * 60_000_000_000,
        settings.progress_enabled ==> patience >= interval + 5 * 60_000_000_000,
        patience == 20 * 60_000_000_000 || (settings.progress_enabled && patience == interval + 5
            * 60_000_000_000),
{
}

} // verus!
