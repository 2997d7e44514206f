//! When to send which notification about a task that was handed off.

use super::event::{event_in, is_of, HookEvent, RemoteHookEvent};
use super::message::{format_notification, notification_text, NotificationKind};
use super::record::{
    record_identity, CcConnectLanguage, HandoffIdentity, Identity, PersistedHandoffRecord,
};
use super::settings::{
    progress_interval, progress_interval_of, stale_after, task_stale_after, NotificationSettings,
};
use crate::json::json_view;
use crate::text::same_text;
use vstd::prelude::*;

verus! {

/// How many reports of hooks may wait.
pub const HOOK_QUEUE_CAPACITY: usize = 64;

/// How many notifications may wait.
pub const DELIVERY_QUEUE_CAPACITY: usize = 64;

/// How long to wait for a report of a hook before the task is looked at again, in
/// nanoseconds.
pub const SCHEDULER_TICK: u128 = 1_000_000_000;

/// For how long a request for permission that names nothing counts as the same as the
/// one before, in nanoseconds.
pub const PERMISSION_DEDUP_WINDOW: u128 = 5_000_000_000;

/// How far a task is.
#[derive(Debug, Clone, Copy, PartialEq, Eq, Structural)]
pub enum TaskPhase {
    Running,
    Attention,
    Terminal,
}

/// A task that was handed off. Points in time are nanoseconds since some origin.
#[derive(Debug)]
pub struct TaskState {
    pub identity: HandoffIdentity,
    pub started_at: u128,
    pub last_progress_at: u128,
    pub phase: TaskPhase,
    pub terminal_kind: Option<NotificationKind>,
    pub terminal_enqueued: bool,
    pub last_permission_fingerprint: Option<u64>,
    pub last_permission_at: Option<u128>,
}

/// A task as a value.
pub struct Task {
    pub identity: Identity,
    pub started_at: u128,
    pub last_progress_at: u128,
    pub phase: TaskPhase,
    pub terminal_kind: Option<NotificationKind>,
    pub terminal_enqueued: bool,
    pub last_permission_fingerprint: Option<u64>,
    pub last_permission_at: Option<u128>,
}

impl View for TaskState {
    type V = Task;

    open spec fn view(&self) -> Task {
        Task {
            identity: self.identity@,
            started_at: self.started_at,
            last_progress_at: self.last_progress_at,
            phase: self.phase,
            terminal_kind: self.terminal_kind,
            terminal_enqueued: self.terminal_enqueued,
            last_permission_fingerprint: self.last_permission_fingerprint,
            last_permission_at: self.last_permission_at,
        }
    }
}

/// A notification that is to be sent.
#[derive(Debug)]
pub struct DeliveryJob {
    pub identity: HandoffIdentity,
    pub record: PersistedHandoffRecord,
    pub kind: NotificationKind,
    pub message: String,
}

/// What a notification is about, and the time that it shows.
pub struct Notice {
    pub kind: NotificationKind,
    pub elapsed: u128,
}

/// The task, where there is one.
pub open spec fn task_of(state: Option<TaskState>) -> Option<Task> {
    match state {
        Some(task) => Some(task@),
        None => None,
    }
}

/// The time from `earlier` to `later`; none where `later` is not later.
pub open spec fn since(later: u128, earlier: u128) -> u128 {
    if later < earlier {
        0
    } else {
        (later - earlier) as u128
    }
}

/// A task that begins now.
pub open spec fn new_task(identity: Identity, now: u128) -> Task {
    Task {
        identity,
        started_at: now,
        last_progress_at: now,
        phase: TaskPhase::Running,
        terminal_kind: None,
        terminal_enqueued: false,
        last_permission_fingerprint: None,
        last_permission_at: None,
    }
}

/// Whether a request for permission is the one before, once more: it has the same
/// fingerprint; or it has none and comes soon after.
pub open spec fn is_repeated(task: Task, fingerprint: Option<u64>, now: u128) -> bool {
    if fingerprint is Some {
        fingerprint == task.last_permission_fingerprint
    } else {
        task.last_permission_at matches Some(last) && since(now, last) < PERMISSION_DEDUP_WINDOW
    }
}

/// What is to be sent about the end of a task: nothing where it was sent, and nothing
/// ever where the user does not want it.
pub open spec fn terminal_step(task: Task, settings: NotificationSettings, now: u128) -> (
    Task,
    Option<Notice>,
) {
    match task.terminal_kind {
        Some(kind) => if task.terminal_enqueued {
            (task, None)
        } else if !settings.enabled || !settings.completion_enabled {
            (Task { terminal_enqueued: true, ..task }, None)
        } else {
            (task, Some(Notice { kind, elapsed: since(now, task.started_at) }))
        },
        None => (task, None),
    }
}

/// The task to go on with for the handoff of this identity.
pub open spec fn current_task(task: Option<Task>, identity: Identity, now: u128) -> Task {
    match task {
        Some(t) => if t.identity == identity {
            t
        } else {
            new_task(identity, now)
        },
        None => new_task(identity, now),
    }
}

/// The task, unless it is of another handoff.
pub open spec fn task_for(task: Option<Task>, identity: Identity) -> Option<Task> {
    match task {
        Some(t) => if t.identity == identity {
            task
        } else {
            None
        },
        None => None,
    }
}

/// What a report of a hook about the handoff of this identity leads to.
pub open spec fn own_event_step(
    task: Option<Task>,
    event: HookEvent,
    identity: Identity,
    settings: NotificationSettings,
    now: u128,
) -> (Option<Task>, Option<Notice>) {
    let current = current_task(task, identity, now);
    if event.event == "UserPromptSubmit"@ {
        (Some(new_task(identity, now)), None)
    } else if event.event == "PermissionRequest"@ || event.event == "Notification"@ {
        if is_repeated(current, event.permission_fingerprint, now) {
            (Some(current), None)
        } else {
            let asked = Task {
                phase: TaskPhase::Attention,
                last_permission_fingerprint: event.permission_fingerprint,
                last_permission_at: Some(now),
                ..current
            };
            if settings.enabled && settings.permission_enabled {
                (
                    Some(asked),
                    Some(
                        Notice {
                            kind: NotificationKind::Permission,
                            elapsed: since(now, asked.started_at),
                        },
                    ),
                )
            } else {
                (Some(asked), None)
            }
        }
    } else if event.event == "Stop"@ || event.event == "StopFailure"@ {
        if current.phase == TaskPhase::Terminal {
            (Some(current), None)
        } else {
            let ended = Task {
                phase: TaskPhase::Terminal,
                terminal_kind: Some(
                    if event.event == "StopFailure"@ {
                        NotificationKind::Failed
                    } else {
                        NotificationKind::Completed
                    },
                ),
                ..current
            };
            let (after, notice) = terminal_step(ended, settings, now);
            (Some(after), notice)
        }
    } else {
        (task_for(task, identity), None)
    }
}

/// What a report of a hook leads to. `record` is what reading the record gave.
pub open spec fn event_step(
    task: Option<Task>,
    event: HookEvent,
    record: Result<Option<PersistedHandoffRecord>, String>,
    settings: NotificationSettings,
    now: u128,
) -> (Option<Task>, Option<Notice>) {
    match record {
        Ok(Some(handoff)) => if is_of(event, handoff) {
            own_event_step(task, event, record_identity(handoff), settings, now)
        } else {
            (task, None)
        },
        Ok(None) => (None, None),
        Err(_) => (task, None),
    }
}

/// What the passage of time leads to, for a task of the recorded handoff.
pub open spec fn own_tick_step(task: Task, settings: NotificationSettings, now: u128) -> (
    Task,
    Option<Notice>,
) {
    let elapsed = since(now, task.started_at);
    if task.phase == TaskPhase::Terminal {
        terminal_step(task, settings, now)
    } else if elapsed >= stale_after(settings) {
        terminal_step(
            Task {
                phase: TaskPhase::Terminal,
                terminal_kind: Some(NotificationKind::TimedOut),
                ..task
            },
            settings,
            now,
        )
    } else if settings.enabled && settings.progress_enabled && since(now, task.last_progress_at)
        >= progress_interval(settings) {
        (task, Some(Notice { kind: NotificationKind::Progress, elapsed }))
    } else {
        (task, None)
    }
}

/// What the passage of time leads to. `record` is what reading the record gave.
pub open spec fn tick_step(
    task: Option<Task>,
    record: Result<Option<PersistedHandoffRecord>, String>,
    settings: NotificationSettings,
    now: u128,
) -> (Option<Task>, Option<Notice>) {
    match task {
        None => (None, None),
        Some(current) => match record {
            Ok(Some(handoff)) => if current.identity == record_identity(handoff) {
                let (after, notice) = own_tick_step(current, settings, now);
                (Some(after), notice)
            } else {
                (None, None)
            },
            Ok(None) => (None, None),
            Err(_) => (task, None),
        },
    }
}

/// The task after an attempt to pass a notification on. A notification of the end that
/// was not taken is tried again; one of progress or for permission only counts where it
/// was taken.
pub open spec fn settled(task: Task, kind: NotificationKind, now: u128, accepted: bool) -> Task {
    match kind {
        NotificationKind::Progress | NotificationKind::Permission => if accepted {
            Task { last_progress_at: now, ..task }
        } else {
            task
        },
        _ => Task { terminal_enqueued: accepted, ..task },
    }
}

/// Whether `job` is the notification `notice` about the handoff of `record`.
pub open spec fn is_job(
    job: DeliveryJob,
    notice: Notice,
    record: PersistedHandoffRecord,
    language: CcConnectLanguage,
) -> bool {
    &&& job.identity@ == record_identity(record)
    &&& job.record == record
    &&& job.kind == notice.kind
    &&& job.message@ == notification_text(record, notice.kind, language, notice.elapsed as nat)
}

/// Whether `job` is what `notice` asks for about the handoff of `record`.
pub open spec fn is_asked_job(
    job: Option<DeliveryJob>,
    notice: Option<Notice>,
    record: Result<Option<PersistedHandoffRecord>, String>,
    language: CcConnectLanguage,
) -> bool {
    match notice {
        Some(n) => job matches Some(j) && (record matches Ok(Some(handoff)) && is_job(
            j,
            n,
            handoff,
            language,
        )),
        None => job is None,
    }
}

fn time_since(later: u128, earlier: u128) -> (time: u128)
    ensures
        time == since(later, earlier),
{
    if later < earlier {
        0
    } else {
        later - earlier
    }
}

impl TaskState {
    pub fn new(record: &PersistedHandoffRecord, now: u128) -> (task: Self)
        ensures
            task@ == new_task(record_identity(*record), now),
    {
        TaskState {
            identity: HandoffIdentity::from_record(record),
            started_at: now,
            last_progress_at: now,
            phase: TaskPhase::Running,
            terminal_kind: None,
            terminal_enqueued: false,
            last_permission_fingerprint: None,
            last_permission_at: None,
        }
    }

    /// Whether a request for permission is the one before, once more.
    pub fn is_duplicate_permission(&self, fingerprint: Option<u64>, now: u128) -> (r: bool)
        ensures
            r == is_repeated(self@, fingerprint, now),
    {
        match fingerprint {
            Some(print) => match self.last_permission_fingerprint {
                Some(last) => print == last,
                None => false,
            },
            None => match self.last_permission_at {
                Some(last) => time_since(now, last) < PERMISSION_DEDUP_WINDOW,
                None => false,
            },
        }
    }

    /// Takes up whether a notification that was due at `now` was passed on.
    pub fn settle(&mut self, kind: NotificationKind, now: u128, accepted: bool)
        ensures
            final(self)@ == settled(old(self)@, kind, now, accepted),
    {
        match kind {
            NotificationKind::Progress | NotificationKind::Permission => {
                if accepted {
                    self.last_progress_at = now;
                }
            },
            _ => {
                self.terminal_enqueued = accepted;
            },
        }
    }
}

/// The notification to send about the end of a task.
pub fn enqueue_terminal(
    state: &mut TaskState,
    settings: NotificationSettings,
    now: u128,
) -> (notice: Option<Notice>)
    ensures
        (final(state)@, notice) == terminal_step(old(state)@, settings, now),
{
    match state.terminal_kind {
        Some(kind) => {
            if state.terminal_enqueued {
                return None;
            }
            if !settings.enabled || !settings.completion_enabled {
                state.terminal_enqueued = true;
                return None;
            }
            Some(Notice { kind, elapsed: time_since(now, state.started_at) })
        },
        None => None,
    }
}

/// A notification about the handoff of `record`, ready to be sent.
pub fn enqueue_delivery(
    record: PersistedHandoffRecord,
    notice: Notice,
    language: CcConnectLanguage,
) -> (job: DeliveryJob)
    ensures
        is_job(job, notice, record, language),
{
    let identity = HandoffIdentity::from_record(&record);
    let message = format_notification(&record, notice.kind, language, notice.elapsed);
    DeliveryJob { identity, record, kind: notice.kind, message }
}

/// Takes the task out of `state`, to go on with it for the handoff of `record`.
fn take_current(
    state: &mut Option<TaskState>,
    record: &PersistedHandoffRecord,
    now: u128,
) -> (task: TaskState)
    ensures
        task@ == current_task(task_of(*old(state)), record_identity(*record), now),
        *final(state) == None::<TaskState>,
{
    match state.take() {
        Some(task) => if task.identity.matches_record(record) {
            task
        } else {
            TaskState::new(record, now)
        },
        None => TaskState::new(record, now),
    }
}

/// Takes up a report about the handoff of `record`.
fn handle_own_event(
    event: &RemoteHookEvent,
    state: &mut Option<TaskState>,
    record: &PersistedHandoffRecord,
    settings: NotificationSettings,
    now: u128,
) -> (notice: Option<Notice>)
    ensures
        (task_of(*final(state)), notice) == own_event_step(
            task_of(*old(state)),
            event@,
            record_identity(*record),
            settings,
            now,
        ),
{
    let name = event.event.as_str();
    if same_text(name, "UserPromptSubmit") {
        *state = Some(TaskState::new(record, now));
        return None;
    }
    if same_text(name, "PermissionRequest") || same_text(name, "Notification") {
        let mut current = take_current(state, record, now);
        if current.is_duplicate_permission(event.permission_fingerprint, now) {
            *state = Some(current);
            return None;
        }
        current.phase = TaskPhase::Attention;
        current.last_permission_fingerprint = event.permission_fingerprint;
        current.last_permission_at = Some(now);
        let elapsed = time_since(now, current.started_at);
        *state = Some(current);
        if settings.enabled && settings.permission_enabled {
            return Some(Notice { kind: NotificationKind::Permission, elapsed });
        }
        return None;
    }
    if same_text(name, "Stop") || same_text(name, "StopFailure") {
        let mut current = take_current(state, record, now);
        if current.phase == TaskPhase::Terminal {
            *state = Some(current);
            return None;
        }
        current.phase = TaskPhase::Terminal;
        current.terminal_kind = Some(
            if same_text(name, "StopFailure") {
                NotificationKind::Failed
            } else {
                NotificationKind::Completed
            },
        );
        let notice = enqueue_terminal(&mut current, settings, now);
        *state = Some(current);
        return notice;
    }
    let foreign = match state.as_ref() {
        Some(task) => !task.identity.matches_record(record),
        None => false,
    };
    if foreign {
        *state = None;
    }
    None
}

/// Takes up a report of a hook at the time `now`; hands back the notification to send.
/// `record` is what reading the record of the handoff gave.
pub fn handle_hook_event(
    event: &RemoteHookEvent,
    state: &mut Option<TaskState>,
    record: Result<Option<PersistedHandoffRecord>, String>,
    settings: NotificationSettings,
    language: CcConnectLanguage,
    now: u128,
) -> (job: Option<DeliveryJob>)
    ensures
        task_of(*final(state)) == event_step(
            task_of(*old(state)),
            event@,
            record,
            settings,
            now,
        ).0,
        is_asked_job(
            job,
            event_step(task_of(*old(state)), event@, record, settings, now).1,
            record,
            language,
        ),
{
    match record {
        Ok(Some(handoff)) => {
            if !event.belongs_to(&handoff) {
                return None;
            }
            match handle_own_event(event, state, &handoff, settings, now) {
                Some(notice) => Some(enqueue_delivery(handoff, notice, language)),
                None => None,
            }
        },
        Ok(None) => {
            *state = None;
            None
        },
        Err(_) => None,
    }
}

/// Takes up the payload of a hook at the time `now`; hands back the notification to
/// send. A payload that is no report leads to nothing.
pub fn handle_hook_payload(
    payload: &serde_json::Value,
    state: &mut Option<TaskState>,
    record: Result<Option<PersistedHandoffRecord>, String>,
    settings: NotificationSettings,
    language: CcConnectLanguage,
    now: u128,
) -> (job: Option<DeliveryJob>)
    ensures
        match event_in(json_view(*payload)) {
            Some(event) => task_of(*final(state)) == event_step(
                task_of(*old(state)),
                event,
                record,
                settings,
                now,
            ).0 && is_asked_job(
                job,
                event_step(task_of(*old(state)), event, record, settings, now).1,
                record,
                language,
            ),
            None => *final(state) == *old(state) && job is None,
        },
{
    match RemoteHookEvent::from_payload(payload) {
        Some(event) => handle_hook_event(&event, state, record, settings, language, now),
        None => None,
    }
}

/// Looks at the task at the time `now`; hands back the notification to send. `record`
/// is what reading the record of the handoff gave.
pub fn tick_scheduler(
    state: &mut Option<TaskState>,
    record: Result<Option<PersistedHandoffRecord>, String>,
    settings: NotificationSettings,
    language: CcConnectLanguage,
    now: u128,
) -> (job: Option<DeliveryJob>)
    ensures
        task_of(*final(state)) == tick_step(task_of(*old(state)), record, settings, now).0,
        is_asked_job(
            job,
            tick_step(task_of(*old(state)), record, settings, now).1,
            record,
            language,
        ),
{
    let mut current = match state.take() {
        Some(task) => task,
        None => {
            return None;
        },
    };
    let handoff = match record {
        Ok(Some(handoff)) => handoff,
        Ok(None) => {
            return None;
        },
        Err(_) => {
            *state = Some(current);
            return None;
        },
    };
    if !current.identity.matches_record(&handoff) {
        return None;
    }
    let elapsed = time_since(now, current.started_at);
    let notice = if current.phase == TaskPhase::Terminal {
        enqueue_terminal(&mut current, settings, now)
    } else if elapsed >= task_stale_after(settings) {
        current.phase = TaskPhase::Terminal;
        current.terminal_kind = Some(NotificationKind::TimedOut);
        enqueue_terminal(&mut current, settings, now)
    } else if settings.enabled && settings.progress_enabled && time_since(
        now,
        current.last_progress_at,
    ) >= progress_interval_of(settings) {
        Some(Notice { kind: NotificationKind::Progress, elapsed })
    } else {
        None
    };
    *state = Some(current);
    match notice {
        Some(notice) => Some(enqueue_delivery(handoff, notice, language)),
        None => None,
    }
}

/// Whether a notification is about the end of a task.
pub open spec fn is_terminal(kind: NotificationKind) -> bool {
    kind is Completed || kind is Failed || kind is TimedOut
}

/// Whether what is known of a task's end fits together: a task that ended has a kind of
/// end, and only an end was told as one.
pub open spec fn task_wf(task: Task) -> bool {
    &&& task.phase == TaskPhase::Terminal ==> task.terminal_kind is Some
    &&& task.terminal_kind matches Some(kind) ==> is_terminal(kind)
    &&& task.terminal_enqueued ==> task.terminal_kind is Some
}

/// Every step keeps what is known of a task's end fitting together.
pub proof fn law_steps_keep_tasks_well_formed(
    task: Option<Task>,
    event: HookEvent,
    record: Result<Option<PersistedHandoffRecord>, String>,
    settings: NotificationSettings,
    now: u128,
    accepted: bool,
)
    requires
        task matches Some(t) ==> task_wf(t),
    ensures
        ({
            let (after, notice) = event_step(task, event, record, settings, now);
            &&& after matches Some(t) ==> task_wf(t)
            &&& notice matches Some(n) ==> after is Some && task_wf(
                settled(after->0, n.kind, now, accepted),
            )
        }),
        ({
            let (after, notice) = tick_step(task, record, settings, now);
            &&& after matches Some(t) ==> task_wf(t)
            &&& notice matches Some(n) ==> after is Some && task_wf(
                settled(after->0, n.kind, now, accepted),
            )
        }),
{
}

/// The end of a task is told once: after a notification of it was taken, no report but
/// a new prompt and no passage of time leads to another, even where the task asked for
/// permission meanwhile.
pub proof fn law_end_is_told_once(
    task: Task,
    event: HookEvent,
    record: PersistedHandoffRecord,
    settings: NotificationSettings,
    now: u128,
)
    requires
        task.terminal_enqueued,
        task.identity == record_identity(record),
        event.event != "UserPromptSubmit"@,
    ensures
        ({
            let (after, notice) = event_step(Some(task), event, Ok(Some(record)), settings, now);
            &&& after matches Some(t) && t.terminal_enqueued && t.identity == task.identity
            &&& notice matches Some(n) ==> !is_terminal(n.kind)
        }),
        ({
            let (after, notice) = tick_step(Some(task), Ok(Some(record)), settings, now);
            &&& after matches Some(t) && t.terminal_enqueued && t.identity == task.identity
            &&& notice matches Some(n) ==> !is_terminal(n.kind)
        }),
        forall|kind: NotificationKind, accepted: bool|
            !is_terminal(kind) ==> #[trigger] settled(
                task,
                kind,
                now,
                accepted,
            ).terminal_enqueued,
{
}

/// Something that happens while a task is handed off: a report of a hook, or else the
/// passage of time; and whether a notification that it leads to is taken.
pub struct Moment {
    pub report: Option<HookEvent>,
    pub settings: NotificationSettings,
    pub now: u128,
    pub accepted: bool,
}

/// What a moment leads to: the task after it, and the kind of the notification that was
/// taken.
pub open spec fn moment_step(
    task: Option<Task>,
    record: PersistedHandoffRecord,
    moment: Moment,
) -> (Option<Task>, Option<NotificationKind>) {
    let (after, notice) = match moment.report {
        Some(event) => event_step(task, event, Ok(Some(record)), moment.settings, moment.now),
        None => tick_step(task, Ok(Some(record)), moment.settings, moment.now),
    };
    match notice {
        Some(n) => (
            Some(settled(after->0, n.kind, moment.now, moment.accepted)),
            if moment.accepted {
                Some(n.kind)
            } else {
                None
            },
        ),
        None => (after, None),
    }
}

/// How often the end of a task is told in the course of `moments`.
pub open spec fn told_ends(
    task: Option<Task>,
    record: PersistedHandoffRecord,
    moments: Seq<Moment>,
) -> nat
    decreases moments.len(),
{
    if moments.len() == 0 {
        0
    } else {
        let (after, told) = moment_step(task, record, moments[0]);
        let here: nat = if told matches Some(kind) && is_terminal(kind) {
            1
        } else {
            0
        };
        here + told_ends(after, record, moments.drop_first())
    }
}

/// Between two prompts the end of a task is told at most once, whatever the hooks
/// report, however often the task is looked at and whichever notifications are taken;
/// and not at all where it was told before.
pub proof fn law_end_is_told_at_most_once(
    task: Option<Task>,
    record: PersistedHandoffRecord,
    moments: Seq<Moment>,
)
    requires
        task matches Some(t) ==> task_wf(t),
        forall|i: int|
            0 <= i < moments.len() ==> ((#[trigger] moments[i]).report matches Some(event)
                ==> event.event != "UserPromptSubmit"@),
    ensures
        told_ends(task, record, moments) <= 1,
        task matches Some(t) && t.identity == record_identity(record) && t.terminal_enqueued
            ==> told_ends(task, record, moments) == 0,
    decreases moments.len(),
{
    if moments.len() > 0 {
        let moment = moments[0];
        let rest = moments.drop_first();
        let (after, told) = moment_step(task, record, moment);
        assert forall|i: int| 0 <= i < rest.len() implies ((#[trigger] rest[i]).report matches Some(
            event,
        ) ==> event.event != "UserPromptSubmit"@) by {
            assert(rest[i] == moments[i + 1]);
        }
        assert(after matches Some(t) ==> task_wf(t));
        law_end_is_told_at_most_once(after, record, rest);
    }
}

/// A notification of the end that was not taken is due again the next time the task is
/// looked at, with the same kind.
pub proof fn law_refused_end_is_told_again(
    task: Task,
    record: PersistedHandoffRecord,
    settings: NotificationSettings,
    now: u128,
    later: u128,
)
    requires
        task.identity == record_identity(record),
        settings.enabled,
        settings.completion_enabled,
        tick_step(Some(task), Ok(Some(record)), settings, now).1 matches Some(n) && is_terminal(
            n.kind,
        ),
    ensures
        ({
            let (after, notice) = tick_step(Some(task), Ok(Some(record)), settings, now);
            let kept = settled(after->0, notice->0.kind, now, false);
            let (_, again) = tick_step(Some(kept), Ok(Some(record)), settings, later);
            again matches Some(n) && n.kind == notice->0.kind
        }),
{
}

/// A report that is not of the session that was handed off changes nothing and leads to
/// nothing.
pub proof fn law_foreign_report_changes_nothing(
    task: Option<Task>,
    event: HookEvent,
    record: PersistedHandoffRecord,
    settings: NotificationSettings,
    now: u128,
)
    requires
        !is_of(event, record),
    ensures
        event_step(task, event, Ok(Some(record)), settings, now) == (task, None::<Notice>),
{
}

/// Without a handoff there is no task and nothing to send.
pub proof fn law_no_handoff_no_task(
    task: Option<Task>,
    event: HookEvent,
    settings: NotificationSettings,
    now: u128,
)
    ensures
        event_step(task, event, Ok(None), settings, now) == (None::<Task>, None::<Notice>),
        tick_step(task, Ok(None), settings, now) == (None::<Task>, None::<Notice>),
{
}

/// The task is always of the recorded handoff: what was known of another one is dropped.
pub proof fn law_task_is_of_the_recorded_handoff(
    task: Option<Task>,
    event: HookEvent,
    record: PersistedHandoffRecord,
    settings: NotificationSettings,
    now: u128,
)
    ensures
        is_of(event, record) ==> (event_step(task, event, Ok(Some(record)), settings, now).0
            matches Some(t) ==> t.identity == record_identity(record)),
        tick_step(task, Ok(Some(record)), settings, now).0 matches Some(t) ==> t.identity
            == record_identity(record),
{
}

/// A request for permission that is made again leads to no second notification: with
/// the same fingerprint at any time, or without one within the window after a request
/// that counted.
pub proof fn law_repeated_permission_is_silent(
    task: Option<Task>,
    event: HookEvent,
    record: PersistedHandoffRecord,
    settings: NotificationSettings,
    now: u128,
    accepted: bool,
    later: u128,
)
    requires
        is_of(event, record),
        event.event == "PermissionRequest"@ || event.event == "Notification"@,
        event.permission_fingerprint is Some || (later < now + PERMISSION_DEDUP_WINDOW
            && !is_repeated(current_task(task, record_identity(record), now), None, now)),
    ensures
        ({
            let (first, notice) = event_step(task, event, Ok(Some(record)), settings, now);
            let kept = if notice is Some {
                settled(first->0, notice->0.kind, now, accepted)
            } else {
                first->0
            };
            event_step(Some(kept), event, Ok(Some(record)), settings, later) == (
                Some(kept),
                None::<Notice>,
            )
        }),
{
    lemma_event_names_differ();
}

proof fn lemma_event_names_differ()
    ensures
        "PermissionRequest"@ != "UserPromptSubmit"@,
        "Notification"@ != "UserPromptSubmit"@,
{
    reveal_strlit("PermissionRequest");
    reveal_strlit("UserPromptSubmit");
    reveal_strlit("Notification");
    assert("PermissionRequest"@[0] == 'P');
    assert("UserPromptSubmit"@[0] == 'U');
    assert("Notification"@[0] == 'N');
}

/// A user who wants no notifications gets none, and one who does not want some kind
/// gets none of it.
pub proof fn law_unwanted_notifications_are_not_sent(
    task: Option<Task>,
    event: HookEvent,
    record: Result<Option<PersistedHandoffRecord>, String>,
    settings: NotificationSettings,
    now: u128,
)
    requires
        task matches Some(t) ==> task_wf(t),
    ensures
        event_step(task, event, record, settings, now).1 matches Some(n) ==> settings.enabled && (
        if is_terminal(n.kind) {
            settings.completion_enabled
        } else {
            n.kind is Permission && settings.permission_enabled
        }),
        tick_step(task, record, settings, now).1 matches Some(n) ==> settings.enabled && (
        if is_terminal(n.kind) {
            settings.completion_enabled
        } else {
            n.kind is Progress && settings.progress_enabled
        }),
{
}

/// Reports of progress keep their distance: after one, or a request for permission, was
/// taken at `now`, no report comes before the interval is over.
pub proof fn law_progress_keeps_its_distance(
    task: Task,
    kind: NotificationKind,
    record: PersistedHandoffRecord,
    settings: NotificationSettings,
    now: u128,
    later: u128,
)
    requires
        task_wf(task),
        !is_terminal(kind),
        now <= later < now + progress_interval(settings),
    ensures
        tick_step(
            Some(settled(task, kind, now, true)),
            Ok(Some(record)),
            settings,
            later,
        ).1 matches Some(n) ==> !(n.kind is Progress),
{
}

/// No task goes on for ever: a task that did not end in time is told as lost, where the
/// user wants to hear of ends.
pub proof fn law_lost_task_is_told(
    task: Task,
    record: PersistedHandoffRecord,
    settings: NotificationSettings,
    now: u128,
)
    requires
        task.identity == record_identity(record),
        task.phase != TaskPhase::Terminal,
        !task.terminal_enqueued,
        since(now, task.started_at) >= stale_after(settings),
        settings.enabled,
        settings.completion_enabled,
    ensures
        ({
            let (after, notice) = tick_step(Some(task), Ok(Some(record)), settings, now);
            &&& after matches Some(t) && t.phase == TaskPhase::Terminal
            &&& notice matches Some(n) && n.kind is TimedOut
        }),
{
}

/// The event names differ from each other.
proof fn lemma_all_event_names_differ()
    ensures
        "UserPromptSubmit"@.len() == 16,
        "PermissionRequest"@.len() == 17,
        "Notification"@.len() == 12,
        "Stop"@.len() == 4,
        "StopFailure"@.len() == 11,
{
    reveal_strlit("UserPromptSubmit");
    reveal_strlit("PermissionRequest");
    reveal_strlit("Notification");
    reveal_strlit("Stop");
    reveal_strlit("StopFailure");
}

/// Whether a report comes from Codex in the tab of the recorded session, and names that
/// session or none.
pub open spec fn reports_on(event: RemoteHookEvent, record: PersistedHandoffRecord) -> bool {
    &&& event.source@ == "codex"@
    &&& event.tab_id@ == record.local_session_id@
    &&& match event.cli_session_id {
        Some(session) => session@ == record.cli_session_id@,
        None => true,
    }
}

/// Whether `task` is of the handoff that is recorded.
pub open spec fn is_task_of(task: TaskState, record: PersistedHandoffRecord) -> bool {
    &&& task.identity.local_session_id@ == record.local_session_id@
    &&& task.identity.cli_session_id@ == record.cli_session_id@
    &&& task.identity.platform == record.platform
    &&& task.identity.platform_session_key@ == record.platform_session_key@
    &&& task.identity.started_at_ms == record.started_at_ms
}

/// When the task of the recorded handoff began: now, where none is known.
pub open spec fn beginning(
    state: Option<TaskState>,
    record: PersistedHandoffRecord,
    now: u128,
) -> u128 {
    match state {
        Some(task) => if is_task_of(task, record) {
            task.started_at
        } else {
            now
        },
        None => now,
    }
}

/// The time that a notification shows: from `beginning` to `now`, and none where the clock
/// shows an earlier time.
pub open spec fn shown_time(now: u128, beginning: u128) -> nat {
    if now >= beginning {
        (now - beginning) as nat
    } else {
        0
    }
}

/// Whether `after` has the same permissions asked for, and the same last report, as the task
/// of the recorded handoff before; as a new task where there was none.
pub open spec fn keeps_reports(
    before: Option<TaskState>,
    record: PersistedHandoffRecord,
    now: u128,
    after: TaskState,
) -> bool {
    match before {
        Some(task) if is_task_of(task, record) => {
            &&& after.last_progress_at == task.last_progress_at
            &&& after.last_permission_fingerprint == task.last_permission_fingerprint
            &&& after.last_permission_at == task.last_permission_at
        },
        _ => {
            &&& after.last_progress_at == now
            &&& after.last_permission_fingerprint is None
            &&& after.last_permission_at is None
        },
    }
}

/// An end that is reported has the kind that is reported: a failure after `StopFailure`,
/// a completion after `Stop`, in whichever phase the task was. The user is told of that
/// kind, with the time since the task began, exactly where ends are wanted and this one
/// was not told before.
pub proof fn law_reported_end_is_told_as_it_was(
    event: &RemoteHookEvent,
    state: &mut Option<TaskState>,
    record: PersistedHandoffRecord,
    settings: NotificationSettings,
    language: CcConnectLanguage,
    now: u128,
    job: Option<DeliveryJob>,
    kind: NotificationKind,
)
    requires
        call_ensures(
            handle_hook_event,
            (event, state, Ok(Some(record)), settings, language, now),
            job,
        ),
        reports_on(*event, record),
        (event.event@ == "Stop"@ && kind is Completed) || (event.event@ == "StopFailure"@
            && kind is Failed),
        *old(state) matches Some(task) ==> (is_task_of(task, record) ==> task.phase
            != TaskPhase::Terminal),
    ensures
        *final(state) matches Some(task) && {
            &&& is_task_of(task, record)
            &&& task.phase == TaskPhase::Terminal
            &&& task.terminal_kind == Some(kind)
            &&& task.started_at == beginning(*old(state), record, now)
            &&& keeps_reports(*old(state), record, now, task)
            &&& task.terminal_enqueued <==> job is None
        },
        job is Some <==> settings.enabled && settings.completion_enabled && !(*old(state)
            matches Some(task) && is_task_of(task, record) && task.terminal_enqueued),
        job matches Some(j) ==> {
            &&& j.kind == kind
            &&& j.record == record
            &&& j.message@ == notification_text(
                record,
                kind,
                language,
                shown_time(now, beginning(*old(state), record, now)),
            )
        },
{
    lemma_all_event_names_differ();
}

/// A task that ended stays as it is when another end is reported, and nothing is told.
pub proof fn law_second_end_changes_nothing(
    event: &RemoteHookEvent,
    state: &mut Option<TaskState>,
    record: PersistedHandoffRecord,
    settings: NotificationSettings,
    language: CcConnectLanguage,
    now: u128,
    job: Option<DeliveryJob>,
)
    requires
        call_ensures(
            handle_hook_event,
            (event, state, Ok(Some(record)), settings, language, now),
            job,
        ),
        reports_on(*event, record),
        event.event@ == "Stop"@ || event.event@ == "StopFailure"@,
        *old(state) matches Some(task) && is_task_of(task, record) && task.phase
            == TaskPhase::Terminal,
    ensures
        task_of(*final(state)) == task_of(*old(state)),
        job is None,
{
    lemma_all_event_names_differ();
}

/// A prompt begins a new task of the recorded handoff, whatever was known before: it runs
/// from now on, and nothing was asked or told yet. The user is told nothing.
pub proof fn law_prompt_begins_a_new_task(
    event: &RemoteHookEvent,
    state: &mut Option<TaskState>,
    record: PersistedHandoffRecord,
    settings: NotificationSettings,
    language: CcConnectLanguage,
    now: u128,
    job: Option<DeliveryJob>,
)
    requires
        call_ensures(
            handle_hook_event,
            (event, state, Ok(Some(record)), settings, language, now),
            job,
        ),
        reports_on(*event, record),
        event.event@ == "UserPromptSubmit"@,
    ensures
        *final(state) matches Some(task) && {
            &&& is_task_of(task, record)
            &&& task.started_at == now
            &&& task.last_progress_at == now
            &&& task.phase == TaskPhase::Running
            &&& task.terminal_kind is None
            &&& !task.terminal_enqueued
            &&& task.last_permission_fingerprint is None
            &&& task.last_permission_at is None
        },
        job is None,
{
    lemma_all_event_names_differ();
}

/// Whether the task was asked for the same permission before: one with the same
/// fingerprint was the last, or this one has none and the last was asked for less than
/// five seconds ago.
pub open spec fn asked_before(
    state: Option<TaskState>,
    record: PersistedHandoffRecord,
    fingerprint: Option<u64>,
    now: u128,
) -> bool {
    state matches Some(task) && is_task_of(task, record) && match fingerprint {
        Some(print) => task.last_permission_fingerprint == Some(print),
        None => task.last_permission_at matches Some(last) && now - last < 5_000_000_000,
    }
}

/// A request for permission that was not made before makes the task wait for attention,
/// and is told where such requests are wanted, with the time since the task began. One
/// that was made before changes nothing and is not told.
pub proof fn law_new_permission_is_told(
    event: &RemoteHookEvent,
    state: &mut Option<TaskState>,
    record: PersistedHandoffRecord,
    settings: NotificationSettings,
    language: CcConnectLanguage,
    now: u128,
    job: Option<DeliveryJob>,
)
    requires
        call_ensures(
            handle_hook_event,
            (event, state, Ok(Some(record)), settings, language, now),
            job,
        ),
        reports_on(*event, record),
        event.event@ == "PermissionRequest"@ || event.event@ == "Notification"@,
    ensures
        asked_before(*old(state), record, event.permission_fingerprint, now) ==> job is None
            && task_of(*final(state)) == task_of(*old(state)),
        !asked_before(*old(state), record, event.permission_fingerprint, now) ==> {
            &&& *final(state) matches Some(task) && {
                &&& is_task_of(task, record)
                &&& task.phase == TaskPhase::Attention
                &&& task.last_permission_fingerprint == event.permission_fingerprint
                &&& task.last_permission_at == Some(now)
                &&& task.started_at == beginning(*old(state), record, now)
                &&& *old(state) matches Some(earlier) ==> (is_task_of(earlier, record) ==> {
                    &&& task.last_progress_at == earlier.last_progress_at
                    &&& task.terminal_kind == earlier.terminal_kind
                    &&& task.terminal_enqueued == earlier.terminal_enqueued
                })
                &&& !(*old(state) matches Some(earlier) && is_task_of(earlier, record)) ==> {
                    &&& task.last_progress_at == now
                    &&& task.terminal_kind is None
                    &&& !task.terminal_enqueued
                }
            }
            &&& job is Some <==> settings.enabled && settings.permission_enabled
            &&& job matches Some(j) ==> {
                &&& j.kind is Permission
                &&& j.record == record
                &&& j.message@ == notification_text(
                    record,
                    NotificationKind::Permission,
                    language,
                    shown_time(now, beginning(*old(state), record, now)),
                )
            }
        },
{
    lemma_all_event_names_differ();
}

/// A report of any other event tells nothing and leaves the task as it is; only a task of
/// another handoff is dropped.
pub proof fn law_other_reports_tell_nothing(
    event: &RemoteHookEvent,
    state: &mut Option<TaskState>,
    record: PersistedHandoffRecord,
    settings: NotificationSettings,
    language: CcConnectLanguage,
    now: u128,
    job: Option<DeliveryJob>,
)
    requires
        call_ensures(
            handle_hook_event,
            (event, state, Ok(Some(record)), settings, language, now),
            job,
        ),
        reports_on(*event, record),
        event.event@ != "UserPromptSubmit"@,
        event.event@ != "PermissionRequest"@,
        event.event@ != "Notification"@,
        event.event@ != "Stop"@,
        event.event@ != "StopFailure"@,
    ensures
        job is None,
        *old(state) matches Some(task) && is_task_of(task, record) ==> task_of(*final(state))
            == task_of(*old(state)),
        !(*old(state) matches Some(task) && is_task_of(task, record)) ==> *final(state) is None,
{
}

/// A report that is of another session, or from something else than Codex, changes nothing
/// and tells nothing; so does any report while the record cannot be read. Without a
/// handoff there is no task.
pub proof fn law_reports_on_others_are_passed_over(
    event: &RemoteHookEvent,
    state: &mut Option<TaskState>,
    record: Result<Option<PersistedHandoffRecord>, String>,
    settings: NotificationSettings,
    language: CcConnectLanguage,
    now: u128,
    job: Option<DeliveryJob>,
)
    requires
        call_ensures(handle_hook_event, (event, state, record, settings, language, now), job),
        record matches Ok(Some(handoff)) ==> !reports_on(*event, handoff),
    ensures
        job is None,
        record matches Ok(None) ==> *final(state) is None,
        !(record matches Ok(None)) ==> task_of(*final(state)) == task_of(*old(state)),
{
}

/// A payload is handled as the report that it holds is.
pub proof fn law_payload_is_handled_as_its_report(
    payload: &serde_json::Value,
    read: Option<RemoteHookEvent>,
    state: &mut Option<TaskState>,
    other: &mut Option<TaskState>,
    record: Result<Option<PersistedHandoffRecord>, String>,
    settings: NotificationSettings,
    language: CcConnectLanguage,
    now: u128,
    job: Option<DeliveryJob>,
    other_job: Option<DeliveryJob>,
)
    requires
        call_ensures(RemoteHookEvent::from_payload, (payload,), read),
        call_ensures(handle_hook_payload, (payload, state, record, settings, language, now), job),
        read matches Some(event) ==> call_ensures(
            handle_hook_event,
            (&event, other, record, settings, language, now),
            other_job,
        ),
        task_of(*old(other)) == task_of(*old(state)),
    ensures
        read is None ==> job is None && *final(state) == *old(state),
        read is Some ==> {
            &&& task_of(*final(state)) == task_of(*final(other))
            &&& job is Some <==> other_job is Some
            &&& job is Some ==> job->0.kind == other_job->0.kind && job->0.message@
                == other_job->0.message@ && job->0.record == other_job->0.record
                && job->0.identity@ == other_job->0.identity@
        },
{
}

/// How long the interval between two reports of progress is, in nanoseconds.
pub open spec fn asked_interval(settings: NotificationSettings) -> int {
    settings.progress_interval_minutes * 60_000_000_000
}

/// After how long a task counts as lost: twenty minutes, or five minutes more than the
/// interval where that is longer and progress is wanted.
pub open spec fn patience(settings: NotificationSettings) -> int {
    let longer = asked_interval(settings) + 300_000_000_000;
    if settings.progress_enabled && longer > 1_200_000_000_000 {
        longer
    } else {
        1_200_000_000_000
    }
}

/// Every notification that looking at the task leads to shows the time from the task's
/// beginning to now, whatever was reported in between, and is about that task's handoff.
pub proof fn law_tick_shows_the_time_since_the_beginning(
    state: &mut Option<TaskState>,
    record: Result<Option<PersistedHandoffRecord>, String>,
    settings: NotificationSettings,
    language: CcConnectLanguage,
    now: u128,
    job: Option<DeliveryJob>,
)
    requires
        call_ensures(tick_scheduler, (state, record, settings, language, now), job),
        job is Some,
    ensures
        record matches Ok(Some(handoff)) && (*old(state) matches Some(task) && {
            &&& is_task_of(task, handoff)
            &&& job->0.record == handoff
            &&& job->0.identity@ == task.identity@
            &&& job->0.message@ == notification_text(
                handoff,
                job->0.kind,
                language,
                shown_time(now, task.started_at),
            )
        }),
{
}

/// Looking at a task that goes on leaves it as it is, and tells of progress exactly where
/// progress is wanted and the interval is over since it was told last. From when the task
/// counts as lost, it has ended, and is told as lost where ends are wanted.
pub proof fn law_tick_tells_progress_and_loss(
    state: &mut Option<TaskState>,
    record: PersistedHandoffRecord,
    settings: NotificationSettings,
    language: CcConnectLanguage,
    now: u128,
    job: Option<DeliveryJob>,
    task: TaskState,
)
    requires
        call_ensures(tick_scheduler, (state, Ok(Some(record)), settings, language, now), job),
        *old(state) == Some(task),
        is_task_of(task, record),
        task.phase != TaskPhase::Terminal,
        now >= task.started_at,
    ensures
        now - task.started_at < patience(settings) ==> {
            &&& task_of(*final(state)) == task_of(*old(state))
            &&& job is Some <==> settings.enabled && settings.progress_enabled && (now
                - task.last_progress_at >= asked_interval(settings) || asked_interval(settings)
                == 0)
            &&& job matches Some(j) ==> j.kind is Progress
        },
        now - task.started_at >= patience(settings) ==> {
            &&& *final(state) matches Some(after) && {
                &&& is_task_of(after, record)
                &&& after.phase == TaskPhase::Terminal
                &&& after.terminal_kind == Some(NotificationKind::TimedOut)
                &&& after.terminal_enqueued <==> job is None
                &&& after.started_at == task.started_at
                &&& after.last_progress_at == task.last_progress_at
                &&& after.last_permission_fingerprint == task.last_permission_fingerprint
                &&& after.last_permission_at == task.last_permission_at
            }
            &&& job is Some <==> settings.enabled && settings.completion_enabled
                && !task.terminal_enqueued
            &&& job matches Some(j) ==> j.kind is TimedOut
        },
{
}

/// Looking at a task that ended tells its end, of the kind that it had, where ends are
/// wanted and it was not told; where they are not wanted it counts as told. Nothing else
/// changes.
pub proof fn law_tick_tells_the_end(
    state: &mut Option<TaskState>,
    record: PersistedHandoffRecord,
    settings: NotificationSettings,
    language: CcConnectLanguage,
    now: u128,
    job: Option<DeliveryJob>,
    task: TaskState,
    kind: NotificationKind,
)
    requires
        call_ensures(tick_scheduler, (state, Ok(Some(record)), settings, language, now), job),
        *old(state) == Some(task),
        is_task_of(task, record),
        task.phase == TaskPhase::Terminal,
        task.terminal_kind == Some(kind),
    ensures
        job is Some <==> settings.enabled && settings.completion_enabled
            && !task.terminal_enqueued,
        job matches Some(j) ==> j.kind == kind,
        *final(state) matches Some(after) && {
            &&& after.terminal_enqueued == (task.terminal_enqueued || !settings.enabled
                || !settings.completion_enabled)
            &&& after.phase == task.phase
            &&& after.terminal_kind == task.terminal_kind
            &&& after.started_at == task.started_at
            &&& after.last_progress_at == task.last_progress_at
            &&& is_task_of(after, record)
        },
{
}

/// To look at a task of another handoff, or while none is recorded, drops it; while the
/// record cannot be read, it stays. Nothing is told in any of these.
pub proof fn law_tick_drops_what_is_not_recorded(
    state: &mut Option<TaskState>,
    record: Result<Option<PersistedHandoffRecord>, String>,
    settings: NotificationSettings,
    language: CcConnectLanguage,
    now: u128,
    job: Option<DeliveryJob>,
)
    requires
        call_ensures(tick_scheduler, (state, record, settings, language, now), job),
        *old(state) matches Some(task) ==> (record matches Ok(Some(handoff)) ==> !is_task_of(
            task,
            handoff,
        )),
    ensures
        job is None,
        record is Ok ==> *final(state) is None,
        record is Err ==> task_of(*final(state)) == task_of(*old(state)),
{
}

/// What was told counts: progress or a request that was taken moves the time of the last
/// report to now; one that was not taken, changes nothing. An end counts as told exactly
/// where it was taken. Nothing else of the task changes.
pub proof fn law_only_what_was_taken_counts(
    task: &mut TaskState,
    kind: NotificationKind,
    now: u128,
    accepted: bool,
    nothing: (),
)
    requires
        call_ensures(TaskState::settle, (task, kind, now, accepted), nothing),
    ensures
        kind is Progress || kind is Permission ==> {
            &&& final(task).last_progress_at == if accepted {
                now
            } else {
                old(task).last_progress_at
            }
            &&& final(task).terminal_enqueued == old(task).terminal_enqueued
        },
        kind is Completed || kind is Failed || kind is TimedOut ==> {
            &&& final(task).terminal_enqueued == accepted
            &&& final(task).last_progress_at == old(task).last_progress_at
        },
        final(task).identity@ == old(task).identity@,
        final(task).started_at == old(task).started_at,
        final(task).phase == old(task).phase,
        final(task).terminal_kind == old(task).terminal_kind,
        final(task).last_permission_fingerprint == old(task).last_permission_fingerprint,
        final(task).last_permission_at == old(task).last_permission_at,
{
    assert(final(task)@ == settled(old(task)@, kind, now, accepted));
}

/// The end of a task is asked for with its kind and the time since the task began, where
/// ends are wanted and it was not told; where they are not wanted it counts as told.
pub proof fn law_end_is_asked_for_once(
    task: &mut TaskState,
    settings: NotificationSettings,
    now: u128,
    notice: Option<Notice>,
)
    requires
        call_ensures(enqueue_terminal, (task, settings, now), notice),
    ensures
        notice is Some <==> old(task).terminal_kind is Some && !old(task).terminal_enqueued
            && settings.enabled && settings.completion_enabled,
        notice matches Some(n) ==> Some(n.kind) == old(task).terminal_kind && n.elapsed
            == shown_time(now, old(task).started_at),
        final(task).terminal_enqueued <==> old(task).terminal_enqueued || (old(task).terminal_kind is Some && !(settings.enabled && settings.completion_enabled)),
        final(task).terminal_kind == old(task).terminal_kind,
        final(task).started_at == old(task).started_at,
        final(task).phase == old(task).phase,
{
    assert((final(task)@, notice) == terminal_step(old(task)@, settings, now));
}

/// A notification is about the handoff of its record, of the kind and with the time that
/// were asked for.
pub proof fn law_notification_is_what_was_asked_for(
    record: PersistedHandoffRecord,
    notice: Notice,
    language: CcConnectLanguage,
    job: DeliveryJob,
)
    requires
        call_ensures(enqueue_delivery, (record, notice, language), job),
    ensures
        job.record == record,
        job.kind == notice.kind,
        job.message@ == notification_text(record, notice.kind, language, notice.elapsed as nat),
        job.identity.local_session_id@ == record.local_session_id@,
        job.identity.cli_session_id@ == record.cli_session_id@,
        job.identity.platform == record.platform,
        job.identity.platform_session_key@ == record.platform_session_key@,
        job.identity.started_at_ms == record.started_at_ms,
{
    assert(job.identity@ == record_identity(record));
}

/// A task that begins runs from now on, of the recorded handoff, with nothing asked and
/// nothing told; it was asked for no permission before.
pub proof fn law_new_task_is_blank(
    record: PersistedHandoffRecord,
    now: u128,
    task: TaskState,
    fingerprint: Option<u64>,
    later: u128,
    repeated: bool,
)
    requires
        call_ensures(TaskState::new, (&record, now), task),
        call_ensures(TaskState::is_duplicate_permission, (&task, fingerprint, later), repeated),
    ensures
        is_task_of(task, record),
        task.started_at == now,
        task.last_progress_at == now,
        task.phase == TaskPhase::Running,
        task.terminal_kind is None,
        !task.terminal_enqueued,
        !repeated,
{
    assert(task@ == new_task(record_identity(record), now));
}

/// A request for permission is the one before once more where it has the same
/// fingerprint, at any time; or where it has none and comes within five seconds of the
/// last one.
pub proof fn law_repeated_permission_is_known(
    task: TaskState,
    fingerprint: Option<u64>,
    now: u128,
    repeated: bool,
)
    requires
        call_ensures(TaskState::is_duplicate_permission, (&task, fingerprint, now), repeated),
    ensures
        fingerprint matches Some(print) ==> repeated == (task.last_permission_fingerprint == Some(
            print,
        )),
        fingerprint is None ==> repeated == (task.last_permission_at matches Some(last) && now
            < last + 5_000_000_000),
{
}

} // verus!
