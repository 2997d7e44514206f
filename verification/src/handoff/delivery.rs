//! Sending notifications, and what is remembered of it.

use super::event::optional_text;
use super::message::kind_key;
use super::record::{
    record_identity, CcConnectLanguage, CcConnectPlatform, PersistedHandoffRecord,
};
use super::scheduler::DeliveryJob;
use crate::text::{chars_of, joined, same_text, string_of};
use vstd::prelude::*;

verus! {

/// The name of the file that holds what is remembered.
pub const STATUS_FILE_NAME: &'static str = "handoff-notification-status.json";

/// How much of an error is remembered, in characters.
pub const MAX_ERROR_CHARS: usize = 240;

/// What is remembered of the notifications that were sent. Points in time are
/// milliseconds since 1970.
#[derive(Debug)]
pub struct CcConnectHandoffNotificationStatus {
    pub last_attempt_at_ms: Option<i64>,
    pub last_success_at_ms: Option<i64>,
    pub last_event: Option<String>,
    pub last_platform: Option<CcConnectPlatform>,
    pub last_error: Option<String>,
}

impl Default for CcConnectHandoffNotificationStatus {
    fn default() -> (status: Self)
        ensures
            is_blank(status),
    {
        CcConnectHandoffNotificationStatus {
            last_attempt_at_ms: None,
            last_success_at_ms: None,
            last_event: None,
            last_platform: None,
            last_error: None,
        }
    }
}

/// The part of the user's profile that is needed here.
#[derive(Debug)]
pub struct CcConnectProfile {
    pub executable_path: Option<String>,
    pub language: CcConnectLanguage,
}

/// A program that sends notifications, and whether its version is supported.
#[derive(Debug)]
pub struct DetectedBinary {
    pub path: String,
    pub compatible: bool,
}

/// The program that was found for a path that the profile asked for.
#[derive(Debug)]
pub struct CachedBinary {
    pub requested_path: Option<String>,
    pub binary: DetectedBinary,
}

/// How reading what is remembered went.
pub enum StatusRead {
    /// It is not known where it is.
    NoPath(String),
    /// There is no file.
    NotFound,
    ReadFailed(String),
    ParseFailed(String),
    Parsed(CcConnectHandoffNotificationStatus),
}

/// How to send a notification.
#[derive(Debug)]
pub struct SendPlan {
    pub program: String,
    pub project_name: String,
    pub platform_session_key: String,
    pub message: String,
}

/// Whether nothing is remembered.
pub open spec fn is_blank(status: CcConnectHandoffNotificationStatus) -> bool {
    &&& status.last_attempt_at_ms is None
    &&& status.last_success_at_ms is None
    &&& status.last_event is None
    &&& status.last_platform is None
    &&& status.last_error is None
}

/// The error as it is remembered: on one line, and cut off.
pub open spec fn sanitized(error: Seq<char>) -> Seq<char> {
    let line = error.map_values(
        |c: char|
            if c == '\r' || c == '\n' {
                ' '
            } else {
                c
            },
    );
    if line.len() <= MAX_ERROR_CHARS {
        line
    } else {
        line.take(MAX_ERROR_CHARS as int)
    }
}

/// Whether `found` was found for the path that is asked for.
pub open spec fn is_cached(cached: Option<CachedBinary>, requested: Option<String>) -> bool {
    cached matches Some(c) && optional_text(c.requested_path) == optional_text(requested)
}

/// Whether `plan` is how to send `job` with `binary`, or that its version is not
/// supported.
pub open spec fn is_plan(
    plan: Result<SendPlan, String>,
    job: DeliveryJob,
    binary: DetectedBinary,
) -> bool {
    if binary.compatible {
        plan matches Ok(p) && p.program@ == binary.path@ && p.project_name@
            == job.record.project_name@ && p.platform_session_key@
            == job.record.platform_session_key@ && p.message@ == job.message@
    } else {
        plan matches Err(e) && e@ == "cc_connect_version_unsupported"@
    }
}

/// Whether `job` is still about the recorded handoff.
pub open spec fn is_current(
    job: DeliveryJob,
    record: Result<Option<PersistedHandoffRecord>, String>,
) -> bool {
    record matches Ok(Some(handoff)) && job.identity@ == record_identity(handoff)
}

/// The language of the profile; Chinese where there is no profile.
pub fn notification_language(profile: &Result<Option<CcConnectProfile>, String>) -> (language:
    CcConnectLanguage)
    ensures
        language == match *profile {
            Ok(Some(p)) => p.language,
            _ => CcConnectLanguage::Zh,
        },
{
    match profile {
        Ok(Some(p)) => p.language,
        _ => CcConnectLanguage::Zh,
    }
}

/// What is remembered. Where there is no file, nothing is.
pub fn cc_connect_handoff_notification_status(read: StatusRead) -> (status: Result<
    CcConnectHandoffNotificationStatus,
    String,
>)
    ensures
        match read {
            StatusRead::NoPath(error) => status matches Err(e) && e@ == error@,
            StatusRead::NotFound => status matches Ok(s) && is_blank(s),
            StatusRead::ReadFailed(error) => status matches Err(e) && e@
                == "read handoff notification status failed: "@ + error@,
            StatusRead::ParseFailed(error) => status matches Err(e) && e@
                == "parse handoff notification status failed: "@ + error@,
            StatusRead::Parsed(parsed) => status == Ok::<
                CcConnectHandoffNotificationStatus,
                String,
            >(parsed),
        },
{
    match read {
        StatusRead::NoPath(error) => Err(error),
        StatusRead::NotFound => Ok(CcConnectHandoffNotificationStatus::default()),
        StatusRead::ReadFailed(error) => Err(
            joined("read handoff notification status failed: ", error.as_str()),
        ),
        StatusRead::ParseFailed(error) => Err(
            joined("parse handoff notification status failed: ", error.as_str()),
        ),
        StatusRead::Parsed(parsed) => Ok(parsed),
    }
}

/// Whether a notification is still about the recorded handoff.
pub fn delivery_job_is_current(
    job: &DeliveryJob,
    record: &Result<Option<PersistedHandoffRecord>, String>,
) -> (r: bool)
    ensures
        r == is_current(*job, *record),
{
    match record {
        Ok(Some(handoff)) => job.identity.matches_record(handoff),
        _ => false,
    }
}

/// Whether `status` is what is to be remembered when an attempt to send `job` begins.
pub open spec fn begins_delivery(
    previous: Result<CcConnectHandoffNotificationStatus, String>,
    job: DeliveryJob,
    now_ms: i64,
    status: CcConnectHandoffNotificationStatus,
) -> bool {
    &&& status.last_attempt_at_ms == Some(now_ms)
    &&& status.last_success_at_ms == match previous {
        Ok(p) => p.last_success_at_ms,
        Err(_) => None,
    }
    &&& optional_text(status.last_event) == Some(kind_key(job.kind))
    &&& status.last_platform == Some(job.record.platform)
    &&& status.last_error is None
}

/// Whether `after` is what is to be remembered when an attempt to send is over.
pub open spec fn ends_delivery(
    before: CcConnectHandoffNotificationStatus,
    failure: Option<Seq<char>>,
    now_ms: i64,
    after: CcConnectHandoffNotificationStatus,
) -> bool {
    &&& after.last_attempt_at_ms == before.last_attempt_at_ms
    &&& after.last_event == before.last_event
    &&& after.last_platform == before.last_platform
    &&& match failure {
        None => after.last_success_at_ms == Some(now_ms) && after.last_error is None,
        Some(error) => after.last_success_at_ms == before.last_success_at_ms && optional_text(
            after.last_error,
        ) == Some(sanitized(error)),
    }
}

/// Why something failed, if it did.
pub open spec fn failure_of(result: Result<(), String>) -> Option<Seq<char>> {
    match result {
        Ok(_) => None,
        Err(error) => Some(error@),
    }
}

/// What is to be remembered when an attempt to send `job` begins. What was remembered
/// of the last success stays where it could be read.
pub fn begin_delivery(
    previous: Result<CcConnectHandoffNotificationStatus, String>,
    job: &DeliveryJob,
    now_ms: i64,
) -> (status: CcConnectHandoffNotificationStatus)
    ensures
        begins_delivery(previous, *job, now_ms, status),
{
    let mut status = match previous {
        Ok(p) => p,
        Err(_) => CcConnectHandoffNotificationStatus::default(),
    };
    status.last_attempt_at_ms = Some(now_ms);
    status.last_event = Some(job.kind.key().to_owned());
    status.last_platform = Some(job.record.platform);
    status.last_error = None;
    status
}

/// What is to be remembered when the attempt to send a notification is over.
pub fn end_delivery(
    status: &mut CcConnectHandoffNotificationStatus,
    result: Result<(), String>,
    now_ms: i64,
)
    ensures
        ends_delivery(*old(status), failure_of(result), now_ms, *final(status)),
{
    match result {
        Ok(_) => {
            status.last_success_at_ms = Some(now_ms);
            status.last_error = None;
        },
        Err(error) => {
            status.last_error = Some(sanitize_delivery_error(error.as_str()));
        },
    }
}

/// The error as it is remembered: on one line, and cut off after 240 characters.
pub fn sanitize_delivery_error(error: &str) -> (text: String)
    ensures
        text@ == sanitized(error@),
{
    let chars = chars_of(error);
    let mut line: Vec<char> = Vec::new();
    let mut i: usize = 0;
    while i < chars.len() && i < MAX_ERROR_CHARS
        invariant
            i <= chars@.len(),
            i <= MAX_ERROR_CHARS,
            line@.len() == i,
            forall|k: int|
                0 <= k < i ==> line@[k] == if chars@[k] == '\r' || chars@[k] == '\n' {
                    ' '
                } else {
                    chars@[k]
                },
        decreases chars@.len() - i,
    {
        let c = chars[i];
        line.push(
            if c == '\r' || c == '\n' {
                ' '
            } else {
                c
            },
        );
        i = i + 1;
    }
    assert(line@ =~= sanitized(error@));
    string_of(line.as_slice())
}

/// The path at which the profile asks for the program that sends.
pub fn requested_binary(profile: Result<Option<CcConnectProfile>, String>) -> (path: Result<
    Option<String>,
    String,
>)
    ensures
        match profile {
            Ok(Some(p)) => path == Ok::<Option<String>, String>(p.executable_path),
            Ok(None) => path matches Err(e) && e@ == "cc-connect profile is not configured"@,
            Err(error) => path matches Err(e) && e@ == error@,
        },
{
    match profile {
        Ok(Some(p)) => Ok(p.executable_path),
        Ok(None) => Err("cc-connect profile is not configured".to_owned()),
        Err(error) => Err(error),
    }
}

/// Whether the program for `requested` was found before.
pub fn binary_is_cached(cached: &Option<CachedBinary>, requested: &Option<String>) -> (r: bool)
    ensures
        r == is_cached(*cached, *requested),
{
    match cached {
        Some(c) => match (&c.requested_path, requested) {
            (Some(a), Some(b)) => same_text(a.as_str(), b.as_str()),
            (None, None) => true,
            _ => false,
        },
        None => false,
    }
}

/// How to send `job` with the program that was found before for `requested`, or else
/// with what looking for it gave. A program that is found anew is kept for the next
/// time, also where its version is not supported.
pub fn deliver(
    job: &DeliveryJob,
    requested: Option<String>,
    cached: &mut Option<CachedBinary>,
    detected: Option<Result<DetectedBinary, String>>,
) -> (plan: Result<SendPlan, String>)
    requires
        !is_cached(*old(cached), requested) ==> detected is Some,
    ensures
        *final(cached) == match (is_cached(*old(cached), requested), detected) {
            (false, Some(Ok(binary))) => Some((CachedBinary { requested_path: requested, binary })),
            _ => *old(cached),
        },
        match (is_cached(*old(cached), requested), detected) {
            (false, Some(Err(error))) => plan matches Err(e) && e@ == error@,
            _ => is_plan(plan, *job, final(cached)->0.binary),
        },
{
    if !binary_is_cached(cached, &requested) {
        match detected {
            Some(Ok(binary)) => {
                *cached = Some(CachedBinary { requested_path: requested, binary });
            },
            Some(Err(error)) => {
                return Err(error);
            },
            None => {},
        }
    }
    match cached.as_ref() {
        Some(c) if c.binary.compatible => Ok(
            SendPlan {
                program: c.binary.path.as_str().to_owned(),
                project_name: job.record.project_name.as_str().to_owned(),
                platform_session_key: job.record.platform_session_key.as_str().to_owned(),
                message: job.message.as_str().to_owned(),
            },
        ),
        _ => Err("cc_connect_version_unsupported".to_owned()),
    }
}

/// What the worker that sends notifications waits for.
#[derive(Debug, Clone, Copy, PartialEq, Eq, Structural)]
pub enum DeliveryPhase {
    /// A notification to send.
    Idle,
    /// The record of the handoff.
    Checking,
    /// What is remembered.
    ReadingStatus,
    /// That the attempt is remembered.
    Announcing,
    /// The profile.
    LoadingProfile,
    /// The program that sends.
    Detecting,
    /// How sending went.
    Sending,
    /// That the outcome is remembered.
    Recording,
}

/// The worker that sends notifications, one after the other. `job` is the one that it
/// is at, `status` what is to be remembered, `requested_path` where the program is that
/// it looks for, `cached` the program that it found last.
pub struct DeliveryWorker {
    phase: DeliveryPhase,
    job: Option<DeliveryJob>,
    status: CcConnectHandoffNotificationStatus,
    requested_path: Option<String>,
    cached: Option<CachedBinary>,
}

/// The worker as a value.
pub struct DeliveryState {
    pub phase: DeliveryPhase,
    pub job: Option<DeliveryJob>,
    pub status: CcConnectHandoffNotificationStatus,
    pub requested_path: Option<String>,
    pub cached: Option<CachedBinary>,
}

impl View for DeliveryWorker {
    type V = DeliveryState;

    closed spec fn view(&self) -> DeliveryState {
        DeliveryState {
            phase: self.phase,
            job: self.job,
            status: self.status,
            requested_path: self.requested_path,
            cached: self.cached,
        }
    }
}

/// What happened.
pub enum DeliveryEvent {
    Job(DeliveryJob),
    RecordRead(Result<Option<PersistedHandoffRecord>, String>),
    StatusRead(Result<CcConnectHandoffNotificationStatus, String>),
    /// An attempt to write `status` was made.
    StatusWritten,
    ProfileRead(Result<Option<CcConnectProfile>, String>),
    Detected(Result<DetectedBinary, String>),
    Sent(Result<(), String>),
}

/// What to do next.
pub enum DeliveryAction {
    /// Wait for a notification.
    Wait,
    ReadRecord,
    ReadStatus,
    /// Write `status`.
    WriteStatus,
    ReadProfile,
    /// Look for the program at this path, or in the usual places.
    Detect(Option<String>),
    Send(SendPlan),
}

impl DeliveryState {
    /// Whether the worker has a notification exactly where it is at one, and looks for a
    /// program only where it has not found it yet.
    pub open spec fn wf(self) -> bool {
        &&& self.job is None <==> self.phase == DeliveryPhase::Idle
        &&& self.phase == DeliveryPhase::Detecting ==> !is_cached(self.cached, self.requested_path)
    }

    /// Whether `event` can happen now.
    pub open spec fn expects(self, event: DeliveryEvent) -> bool {
        match event {
            DeliveryEvent::Job(_) => self.phase == DeliveryPhase::Idle,
            DeliveryEvent::RecordRead(_) => self.phase == DeliveryPhase::Checking,
            DeliveryEvent::StatusRead(_) => self.phase == DeliveryPhase::ReadingStatus,
            DeliveryEvent::StatusWritten => self.phase == DeliveryPhase::Announcing || self.phase
                == DeliveryPhase::Recording,
            DeliveryEvent::ProfileRead(_) => self.phase == DeliveryPhase::LoadingProfile,
            DeliveryEvent::Detected(_) => self.phase == DeliveryPhase::Detecting,
            DeliveryEvent::Sent(_) => self.phase == DeliveryPhase::Sending,
        }
    }
}

impl DeliveryWorker {
    /// A worker that did nothing yet.
    pub fn new() -> (worker: Self)
        ensures
            worker@.wf(),
            worker@.phase == DeliveryPhase::Idle,
            worker@.job is None,
            is_blank(worker@.status),
            worker@.requested_path is None,
            worker@.cached is None,
    {
        DeliveryWorker {
            phase: DeliveryPhase::Idle,
            job: None,
            status: CcConnectHandoffNotificationStatus::default(),
            requested_path: None,
            cached: None,
        }
    }

    /// What is to be remembered.
    pub fn status(&self) -> (status: &CcConnectHandoffNotificationStatus)
        ensures
            *status == self@.status,
    {
        &self.status
    }
}

/// Going over to `phase` with `job` and `action`, with all else as it was.
pub open spec fn moves_to(
    before: DeliveryState,
    phase: DeliveryPhase,
    job: Option<DeliveryJob>,
    after: DeliveryState,
) -> bool {
    &&& after.phase == phase
    &&& after.job == job
    &&& after.status == before.status
    &&& after.cached == before.cached
}

/// The end of an attempt, to be remembered.
pub open spec fn concludes(
    before: DeliveryState,
    failure: Option<Seq<char>>,
    now_ms: i64,
    after: DeliveryState,
    action: DeliveryAction,
) -> bool {
    &&& after.phase == DeliveryPhase::Recording
    &&& after.job == before.job
    &&& ends_delivery(before.status, failure, now_ms, after.status)
    &&& action is WriteStatus
}

/// Going on with the program `binary`, which is kept as `after.cached`.
pub open spec fn goes_on_with(
    before: DeliveryState,
    binary: DetectedBinary,
    now_ms: i64,
    after: DeliveryState,
    action: DeliveryAction,
) -> bool {
    if binary.compatible {
        &&& after.phase == DeliveryPhase::Sending
        &&& after.job == before.job
        &&& after.status == before.status
        &&& action matches DeliveryAction::Send(plan) && is_plan(Ok(plan), before.job->0, binary)
    } else {
        concludes(before, Some("cc_connect_version_unsupported"@), now_ms, after, action)
    }
}

/// What `event` leads to at the time `now_ms`.
pub open spec fn delivery_steps(
    before: DeliveryState,
    event: DeliveryEvent,
    now_ms: i64,
    after: DeliveryState,
    action: DeliveryAction,
) -> bool {
    match event {
        DeliveryEvent::Job(job) => moves_to(before, DeliveryPhase::Checking, Some(job), after)
            && action is ReadRecord,
        DeliveryEvent::RecordRead(record) => if is_current(before.job->0, record) {
            moves_to(before, DeliveryPhase::ReadingStatus, before.job, after)
                && action is ReadStatus
        } else {
            moves_to(before, DeliveryPhase::Idle, None, after) && action is Wait
        },
        DeliveryEvent::StatusRead(previous) => {
            &&& after.phase == DeliveryPhase::Announcing
            &&& after.job == before.job
            &&& after.cached == before.cached
            &&& begins_delivery(previous, before.job->0, now_ms, after.status)
            &&& action is WriteStatus
        },
        DeliveryEvent::StatusWritten => if before.phase == DeliveryPhase::Announcing {
            moves_to(before, DeliveryPhase::LoadingProfile, before.job, after)
                && action is ReadProfile
        } else {
            moves_to(before, DeliveryPhase::Idle, None, after) && action is Wait
        },
        DeliveryEvent::ProfileRead(Ok(Some(profile))) => if is_cached(
            before.cached,
            profile.executable_path,
        ) {
            &&& after.cached == before.cached
            &&& goes_on_with(before, before.cached->0.binary, now_ms, after, action)
        } else {
            &&& moves_to(before, DeliveryPhase::Detecting, before.job, after)
            &&& after.requested_path == profile.executable_path
            &&& action matches DeliveryAction::Detect(path) && optional_text(path)
                == optional_text(profile.executable_path)
        },
        DeliveryEvent::ProfileRead(Ok(None)) => {
            &&& after.cached == before.cached
            &&& concludes(
                before,
                Some("cc-connect profile is not configured"@),
                now_ms,
                after,
                action,
            )
        },
        DeliveryEvent::ProfileRead(Err(error)) => {
            &&& after.cached == before.cached
            &&& concludes(before, Some(error@), now_ms, after, action)
        },
        DeliveryEvent::Detected(Ok(binary)) => {
            &&& after.cached matches Some(cached) && cached.requested_path
                == before.requested_path && cached.binary == binary
            &&& goes_on_with(before, binary, now_ms, after, action)
        },
        DeliveryEvent::Detected(Err(error)) => {
            &&& after.cached == before.cached
            &&& concludes(before, Some(error@), now_ms, after, action)
        },
        DeliveryEvent::Sent(result) => {
            &&& after.cached == before.cached
            &&& concludes(before, failure_of(result), now_ms, after, action)
        },
    }
}

fn copied_path(path: &Option<String>) -> (copy: Option<String>)
    ensures
        optional_text(copy) == optional_text(*path),
{
    match path {
        Some(p) => Some(p.as_str().to_owned()),
        None => None,
    }
}

impl DeliveryWorker {
    fn conclude(&mut self, result: Result<(), String>, now_ms: i64) -> (action: DeliveryAction)
        ensures
            final(self)@.cached == old(self)@.cached,
            concludes(old(self)@, failure_of(result), now_ms, final(self)@, action),
    {
        end_delivery(&mut self.status, result, now_ms);
        self.phase = DeliveryPhase::Recording;
        DeliveryAction::WriteStatus
    }

    /// Goes on with the program that was found before for `requested`, or with what
    /// looking for it gave.
    fn go_on(
        &mut self,
        requested: Option<String>,
        detected: Option<Result<DetectedBinary, String>>,
        now_ms: i64,
    ) -> (action: DeliveryAction)
        requires
            old(self)@.job is Some,
            !is_cached(old(self)@.cached, requested) ==> detected is Some,
        ensures
            match (is_cached(old(self)@.cached, requested), detected) {
                (false, Some(Err(error))) => final(self)@.cached == old(self)@.cached && concludes(
                    old(self)@,
                    Some(error@),
                    now_ms,
                    final(self)@,
                    action,
                ),
                (false, Some(Ok(binary))) => final(self)@.cached == Some(
                    (CachedBinary { requested_path: requested, binary }),
                ) && goes_on_with(old(self)@, binary, now_ms, final(self)@, action),
                _ => final(self)@.cached == old(self)@.cached && goes_on_with(
                    old(self)@,
                    old(self)@.cached->0.binary,
                    now_ms,
                    final(self)@,
                    action,
                ),
            },
    {
        let job = self.job.take();
        let plan = match &job {
            Some(j) => deliver(j, requested, &mut self.cached, detected),
            None => Err(String::new()),
        };
        self.job = job;
        match plan {
            Ok(plan) => {
                self.phase = DeliveryPhase::Sending;
                DeliveryAction::Send(plan)
            },
            Err(error) => self.conclude(Err(error), now_ms),
        }
    }
}

/// One step of the worker at the time `now_ms`: takes up what happened and says what to
/// do next. A notification about a handoff that is over is dropped; of each other one
/// the attempt and its outcome are remembered.
pub fn run_delivery_worker(
    worker: &mut DeliveryWorker,
    event: DeliveryEvent,
    now_ms: i64,
) -> (action: DeliveryAction)
    requires
        old(worker)@.wf(),
        old(worker)@.expects(event),
    ensures
        final(worker)@.wf(),
        delivery_steps(old(worker)@, event, now_ms, final(worker)@, action),
{
    match event {
        DeliveryEvent::Job(job) => {
            worker.job = Some(job);
            worker.phase = DeliveryPhase::Checking;
            DeliveryAction::ReadRecord
        },
        DeliveryEvent::RecordRead(record) => {
            let current = match &worker.job {
                Some(job) => delivery_job_is_current(job, &record),
                None => false,
            };
            if current {
                worker.phase = DeliveryPhase::ReadingStatus;
                DeliveryAction::ReadStatus
            } else {
                worker.job = None;
                worker.phase = DeliveryPhase::Idle;
                DeliveryAction::Wait
            }
        },
        DeliveryEvent::StatusRead(previous) => {
            if let Some(job) = &worker.job {
                worker.status = begin_delivery(previous, job, now_ms);
            }
            worker.phase = DeliveryPhase::Announcing;
            DeliveryAction::WriteStatus
        },
        DeliveryEvent::StatusWritten => {
            if worker.phase == DeliveryPhase::Announcing {
                worker.phase = DeliveryPhase::LoadingProfile;
                DeliveryAction::ReadProfile
            } else {
                worker.job = None;
                worker.phase = DeliveryPhase::Idle;
                DeliveryAction::Wait
            }
        },
        DeliveryEvent::ProfileRead(profile) => match requested_binary(profile) {
            Ok(requested) => {
                if binary_is_cached(&worker.cached, &requested) {
                    worker.go_on(requested, None, now_ms)
                } else {
                    let path = copied_path(&requested);
                    worker.requested_path = requested;
                    worker.phase = DeliveryPhase::Detecting;
                    DeliveryAction::Detect(path)
                }
            },
            Err(error) => worker.conclude(Err(error), now_ms),
        },
        DeliveryEvent::Detected(detected) => {
            let requested = worker.requested_path.take();
            worker.go_on(requested, Some(detected), now_ms)
        },
        DeliveryEvent::Sent(result) => worker.conclude(result, now_ms),
    }
}

/// What is remembered of an error is a single line of at most 240 characters.
pub proof fn law_remembered_error_is_one_short_line(error: Seq<char>)
    ensures
        sanitized(error).len() <= MAX_ERROR_CHARS,
        !sanitized(error).contains('\r'),
        !sanitized(error).contains('\n'),
{
}

/// To sanitize an error that was sanitized changes nothing.
pub proof fn law_sanitizing_twice_is_sanitizing_once(error: Seq<char>)
    ensures
        sanitized(sanitized(error)) == sanitized(error),
{
    assert(sanitized(sanitized(error)) =~= sanitized(error));
}

/// A notification about a handoff that is over leaves no trace: nothing is sent, and
/// what is remembered stays.
pub proof fn law_outdated_notification_is_dropped(
    before: DeliveryState,
    record: Result<Option<PersistedHandoffRecord>, String>,
    now_ms: i64,
    after: DeliveryState,
    action: DeliveryAction,
)
    requires
        before.wf(),
        before.expects(DeliveryEvent::RecordRead(record)),
        delivery_steps(before, DeliveryEvent::RecordRead(record), now_ms, after, action),
        !is_current(before.job->0, record),
    ensures
        action is Wait,
        after.phase == DeliveryPhase::Idle,
        after.job is None,
        after.status == before.status,
        after.cached == before.cached,
{
}

/// A notification is only sent with a program whose version is supported, and then with
/// the message and to the session that it was made for.
pub proof fn law_only_supported_programs_send(
    before: DeliveryState,
    event: DeliveryEvent,
    now_ms: i64,
    after: DeliveryState,
    action: DeliveryAction,
)
    requires
        before.wf(),
        before.expects(event),
        delivery_steps(before, event, now_ms, after, action),
    ensures
        action matches DeliveryAction::Send(plan) ==> {
            &&& after.cached matches Some(cached) && cached.binary.compatible && plan.program@
                == cached.binary.path@
            &&& plan.message@ == before.job->0.message@
            &&& plan.platform_session_key@ == before.job->0.record.platform_session_key@
        },
{
}

/// When the outcome of an attempt is remembered, an error is remembered exactly where
/// sending did not succeed, and the time of the last success moves only where it did.
pub proof fn law_outcome_is_remembered(
    before: DeliveryState,
    event: DeliveryEvent,
    now_ms: i64,
    after: DeliveryState,
    action: DeliveryAction,
)
    requires
        before.wf(),
        before.expects(event),
        delivery_steps(before, event, now_ms, after, action),
        after.phase == DeliveryPhase::Recording,
    ensures
        action is WriteStatus,
        after.status.last_error is None <==> event matches DeliveryEvent::Sent(Ok(_)),
        after.status.last_success_at_ms == if event matches DeliveryEvent::Sent(Ok(_)) {
            Some(now_ms)
        } else {
            before.status.last_success_at_ms
        },
{
}

/// How many steps are left of a notification.
pub open spec fn delivery_steps_left(phase: DeliveryPhase) -> int {
    match phase {
        DeliveryPhase::Idle => 0,
        DeliveryPhase::Recording => 1,
        DeliveryPhase::Sending => 2,
        DeliveryPhase::Detecting => 3,
        DeliveryPhase::LoadingProfile => 4,
        DeliveryPhase::Announcing => 5,
        DeliveryPhase::ReadingStatus => 6,
        DeliveryPhase::Checking => 7,
    }
}

/// The worker comes back for the next notification: once it is at one, every step leaves
/// less to do.
pub proof fn law_worker_comes_back(
    before: DeliveryState,
    event: DeliveryEvent,
    now_ms: i64,
    after: DeliveryState,
    action: DeliveryAction,
)
    requires
        before.wf(),
        before.expects(event),
        delivery_steps(before, event, now_ms, after, action),
        before.phase != DeliveryPhase::Idle,
    ensures
        delivery_steps_left(after.phase) < delivery_steps_left(before.phase),
        after.phase == DeliveryPhase::Idle <==> action is Wait,
{
}

/// What is remembered of an error is its first 240 characters, with a space in place of
/// each line feed and carriage return.
pub proof fn law_error_is_remembered_in_one_line(error: &str, text: String)
    requires
        call_ensures(sanitize_delivery_error, (error,), text),
    ensures
        text@.len() == if error@.len() <= 240 {
            error@.len()
        } else {
            240
        },
        forall|i: int|
            0 <= i < text@.len() ==> (#[trigger] text@[i]) == if error@[i] == '\n' || error@[i]
                == '\r' {
                ' '
            } else {
                error@[i]
            },
{
}

/// When an attempt begins, its time, its kind and its platform are remembered, no error,
/// and of what was remembered before only the time of the last success.
pub proof fn law_attempt_is_remembered(
    previous: Result<CcConnectHandoffNotificationStatus, String>,
    job: DeliveryJob,
    now_ms: i64,
    status: CcConnectHandoffNotificationStatus,
    key: &'static str,
)
    requires
        call_ensures(begin_delivery, (previous, &job, now_ms), status),
        call_ensures(super::message::NotificationKind::key, (job.kind,), key),
    ensures
        status.last_attempt_at_ms == Some(now_ms),
        status.last_event matches Some(event) && event@ == key@,
        status.last_platform == Some(job.record.platform),
        status.last_error is None,
        previous matches Ok(p) ==> status.last_success_at_ms == p.last_success_at_ms,
        previous is Err ==> status.last_success_at_ms is None,
{
    assert(optional_text(status.last_event) is Some);
}

/// When an attempt is over, a success is remembered with its time and clears the error; a
/// failure is remembered as its error and leaves the time of the last success. The attempt
/// itself stays as it was remembered.
pub proof fn law_outcome_replaces_the_last_one(
    status: &mut CcConnectHandoffNotificationStatus,
    result: Result<(), String>,
    now_ms: i64,
    nothing: (),
    error: &str,
    remembered: String,
)
    requires
        call_ensures(end_delivery, (status, result, now_ms), nothing),
        call_ensures(sanitize_delivery_error, (error,), remembered),
        result matches Err(e) ==> e@ == error@,
    ensures
        result is Ok ==> final(status).last_success_at_ms == Some(now_ms) && final(status).last_error is None,
        result is Err ==> final(status).last_success_at_ms == old(status).last_success_at_ms
            && final(status).last_error is Some,
        result is Err ==> (final(status).last_error matches Some(e) && e@ == remembered@),
        final(status).last_attempt_at_ms == old(status).last_attempt_at_ms,
        final(status).last_event == old(status).last_event,
        final(status).last_platform == old(status).last_platform,
{
    assert(ends_delivery(*old(status), failure_of(result), now_ms, *final(status)));
    if result is Err {
        assert(optional_text(final(status).last_error) is Some);
    }
}

/// A notification is still current where the recorded handoff is the one it is about: the
/// same sessions, platform, key and time.
pub proof fn law_current_notification_is_of_the_recorded_handoff(
    job: DeliveryJob,
    record: Result<Option<PersistedHandoffRecord>, String>,
    r: bool,
)
    requires
        call_ensures(delivery_job_is_current, (&job, &record), r),
    ensures
        r <==> (record matches Ok(Some(handoff)) && {
            &&& job.identity.local_session_id@ == handoff.local_session_id@
            &&& job.identity.cli_session_id@ == handoff.cli_session_id@
            &&& job.identity.platform == handoff.platform
            &&& job.identity.platform_session_key@ == handoff.platform_session_key@
            &&& job.identity.started_at_ms == handoff.started_at_ms
        }),
{
    if let Ok(Some(handoff)) = record {
        let known = job.identity@;
        let wanted = record_identity(handoff);
        assert(known == wanted <==> {
            &&& known.local_session_id == wanted.local_session_id
            &&& known.cli_session_id == wanted.cli_session_id
            &&& known.platform == wanted.platform
            &&& known.platform_session_key == wanted.platform_session_key
            &&& known.started_at_ms == wanted.started_at_ms
        });
    }
}

/// What is remembered is what was read; nothing where there is no file. A file that cannot
/// be read or understood is an error that says which of the two it is.
pub proof fn law_remembered_status_is_what_was_read(
    read: StatusRead,
    status: Result<CcConnectHandoffNotificationStatus, String>,
)
    requires
        call_ensures(cc_connect_handoff_notification_status, (read,), status),
    ensures
        read matches StatusRead::Parsed(parsed) ==> (status matches Ok(s) && s == parsed),
        read is NotFound ==> (status matches Ok(s) && s.last_attempt_at_ms is None
            && s.last_success_at_ms is None && s.last_event is None && s.last_platform is None
            && s.last_error is None),
        read matches StatusRead::NoPath(error) ==> (status matches Err(e) && e@ == error@),
        read matches StatusRead::ReadFailed(error) ==> (status matches Err(e) && e@
            == "read handoff notification status failed: "@ + error@),
        read matches StatusRead::ParseFailed(error) ==> (status matches Err(e) && e@
            == "parse handoff notification status failed: "@ + error@),
{
}

/// Notifications are written in the language of the profile, and in Chinese where there is
/// none; the program that sends is looked for where the profile says, and without a
/// profile nothing can be sent.
pub proof fn law_profile_decides_language_and_program(
    profile: Result<Option<CcConnectProfile>, String>,
    language: CcConnectLanguage,
    path: Result<Option<String>, String>,
)
    requires
        call_ensures(notification_language, (&profile,), language),
        call_ensures(requested_binary, (profile,), path),
    ensures
        profile matches Ok(Some(p)) ==> language == p.language && path == Ok::<
            Option<String>,
            String,
        >(p.executable_path),
        !(profile matches Ok(Some(_))) ==> language is Zh && path is Err,
        profile matches Ok(None) ==> path->Err_0@ == "cc-connect profile is not configured"@,
        profile matches Err(error) ==> path->Err_0@ == error@,
{
}

/// A program that was found counts again only for the path that it was found for.
pub proof fn law_program_is_kept_for_its_path(
    cached: Option<CachedBinary>,
    requested: Option<String>,
    r: bool,
)
    requires
        call_ensures(binary_is_cached, (&cached, &requested), r),
    ensures
        r <==> (cached matches Some(c) && match (c.requested_path, requested) {
            (Some(a), Some(b)) => a@ == b@,
            (None, None) => true,
            _ => false,
        }),
{
}

/// A notification is sent by the program that was found, to the project and the session of
/// its record, with its message, exactly where the program's version is supported. A
/// program that is found is kept, whether it is supported or not.
pub proof fn law_notification_is_sent_as_it_was_made(
    job: DeliveryJob,
    requested: Option<String>,
    cached: &mut Option<CachedBinary>,
    binary: DetectedBinary,
    plan: Result<SendPlan, String>,
)
    requires
        call_ensures(deliver, (&job, requested, cached, Some(Ok(binary))), plan),
        *old(cached) is None,
    ensures
        *final(cached) matches Some(c) && c.binary == binary && c.requested_path == requested,
        plan is Ok <==> binary.compatible,
        plan matches Ok(p) ==> {
            &&& p.program@ == binary.path@
            &&& p.project_name@ == job.record.project_name@
            &&& p.platform_session_key@ == job.record.platform_session_key@
            &&& p.message@ == job.message@
        },
        plan matches Err(e) ==> e@ == "cc_connect_version_unsupported"@,
{
}

/// A program that was found before for the same path is used again, and not looked for;
/// one that cannot be found is an error, and nothing is kept.
pub proof fn law_known_program_is_used_again(
    job: DeliveryJob,
    requested: Option<String>,
    cached: &mut Option<CachedBinary>,
    detected: Option<Result<DetectedBinary, String>>,
    plan: Result<SendPlan, String>,
    known: bool,
)
    requires
        call_ensures(deliver, (&job, requested, cached, detected), plan),
        call_ensures(binary_is_cached, (&*old(cached), &requested), known),
        known || (detected matches Some(Err(_))),
    ensures
        *final(cached) == *old(cached),
        known ==> (plan is Ok <==> old(cached)->0.binary.compatible),
        known ==> (plan matches Ok(p) ==> p.program@ == old(cached)->0.binary.path@ && p.message@
            == job.message@ && p.platform_session_key@ == job.record.platform_session_key@
            && p.project_name@ == job.record.project_name@),
        known ==> (plan matches Err(e) ==> e@ == "cc_connect_version_unsupported"@),
        !known ==> (detected matches Some(Err(error)) && (plan matches Err(e) && e@ == error@)),
{
}

/// The worker takes up a notification, looks whether its handoff is still the recorded one,
/// and drops it where it is not.
pub proof fn law_worker_checks_the_handoff_first(
    worker: &mut DeliveryWorker,
    event: DeliveryEvent,
    now_ms: i64,
    action: DeliveryAction,
)
    requires
        old(worker)@.wf(),
        old(worker)@.expects(event),
        call_ensures(run_delivery_worker, (worker, event, now_ms), action),
        event is Job || event is RecordRead,
    ensures
        event matches DeliveryEvent::Job(job) ==> final(worker)@.job == Some(job) && final(worker)@.phase == DeliveryPhase::Checking && action is ReadRecord,
        event matches DeliveryEvent::RecordRead(record) ==> {
            let current = record matches Ok(Some(handoff)) && old(worker)@.job->0.identity@
                == record_identity(handoff);
            if current {
                &&& final(worker)@.phase == DeliveryPhase::ReadingStatus
                &&& final(worker)@.job == old(worker)@.job
                &&& action is ReadStatus
            } else {
                &&& final(worker)@.phase == DeliveryPhase::Idle
                &&& final(worker)@.job is None
                &&& action is Wait
            }
        },
        final(worker)@.status == old(worker)@.status,
        final(worker)@.cached == old(worker)@.cached,
{
    assert(delivery_steps(old(worker)@, event, now_ms, final(worker)@, action));
}

/// The attempt is written down before anything is sent, and the outcome after; then the
/// worker waits for the next notification.
pub proof fn law_worker_writes_before_and_after(
    worker: &mut DeliveryWorker,
    event: DeliveryEvent,
    now_ms: i64,
    action: DeliveryAction,
)
    requires
        old(worker)@.wf(),
        old(worker)@.expects(event),
        call_ensures(run_delivery_worker, (worker, event, now_ms), action),
        event is StatusRead || event is StatusWritten || event is Sent,
    ensures
        final(worker)@.cached == old(worker)@.cached,
        event matches DeliveryEvent::StatusRead(previous) ==> {
            let status = final(worker)@.status;
            &&& final(worker)@.phase == DeliveryPhase::Announcing
            &&& final(worker)@.job == old(worker)@.job
            &&& action is WriteStatus
            &&& status.last_attempt_at_ms == Some(now_ms)
            &&& status.last_error is None
            &&& status.last_platform == Some(old(worker)@.job->0.record.platform)
            &&& optional_text(status.last_event) == Some(kind_key(old(worker)@.job->0.kind))
            &&& status.last_success_at_ms == match previous {
                Ok(p) => p.last_success_at_ms,
                Err(_) => None,
            }
        },
        event is StatusWritten && old(worker)@.phase == DeliveryPhase::Announcing ==> final(worker)@.phase == DeliveryPhase::LoadingProfile && final(worker)@.job == old(worker)@.job
            && final(worker)@.status == old(worker)@.status && action is ReadProfile,
        event is StatusWritten && old(worker)@.phase == DeliveryPhase::Recording ==> final(worker)@.phase == DeliveryPhase::Idle && final(worker)@.job is None && final(worker)@.status
            == old(worker)@.status && action is Wait,
        event is Sent ==> final(worker)@.phase == DeliveryPhase::Recording && action is WriteStatus
            && final(worker)@.job == old(worker)@.job,
        event matches DeliveryEvent::Sent(Ok(_)) ==> final(worker)@.status.last_success_at_ms
            == Some(now_ms) && final(worker)@.status.last_error is None,
        event matches DeliveryEvent::Sent(Err(error)) ==> final(worker)@.status.last_success_at_ms
            == old(worker)@.status.last_success_at_ms && optional_text(
            final(worker)@.status.last_error,
        ) == Some(sanitized(error@)),
{
    assert(delivery_steps(old(worker)@, event, now_ms, final(worker)@, action));
}

/// With a profile, the worker sends at once where it knows the program for that path, and
/// else looks for it there first; a program that is found is kept, and sends where it is
/// supported. Without a profile, without a program or with one that is not supported
/// nothing is sent, and the reason is remembered.
pub proof fn law_worker_sends_or_says_why_not(
    worker: &mut DeliveryWorker,
    event: DeliveryEvent,
    now_ms: i64,
    action: DeliveryAction,
)
    requires
        old(worker)@.wf(),
        old(worker)@.expects(event),
        call_ensures(run_delivery_worker, (worker, event, now_ms), action),
        event is ProfileRead || event is Detected,
    ensures
        final(worker)@.job == old(worker)@.job,
        ({
            let before = old(worker)@;
            let after = final(worker)@;
            let known = event matches DeliveryEvent::ProfileRead(Ok(Some(profile)))
                && before.cached matches Some(c) && optional_text(c.requested_path)
                == optional_text(profile.executable_path);
            let failure = match event {
                DeliveryEvent::ProfileRead(Ok(Some(_))) => if known
                    && !before.cached->0.binary.compatible {
                    Some("cc_connect_version_unsupported"@)
                } else {
                    None
                },
                DeliveryEvent::ProfileRead(Ok(None)) => Some(
                    "cc-connect profile is not configured"@,
                ),
                DeliveryEvent::ProfileRead(Err(error)) => Some(error@),
                DeliveryEvent::Detected(Ok(binary)) => if !binary.compatible {
                    Some("cc_connect_version_unsupported"@)
                } else {
                    None
                },
                DeliveryEvent::Detected(Err(error)) => Some(error@),
                _ => None,
            };
            match failure {
                Some(reason) => {
                    &&& after.phase == DeliveryPhase::Recording
                    &&& action is WriteStatus
                    &&& optional_text(after.status.last_error) == Some(sanitized(reason))
                    &&& after.status.last_success_at_ms == before.status.last_success_at_ms
                },
                None => {
                    &&& after.status == before.status
                    &&& event is ProfileRead && !known ==> {
                        &&& after.phase == DeliveryPhase::Detecting
                        &&& action matches DeliveryAction::Detect(path) && optional_text(path)
                            == optional_text(event->ProfileRead_0->Ok_0->0.executable_path)
                    }
                    &&& event is Detected || known ==> {
                        let program = if known {
                            before.cached->0.binary
                        } else {
                            event->Detected_0->Ok_0
                        };
                        let job = before.job->0;
                        &&& after.phase == DeliveryPhase::Sending
                        &&& action matches DeliveryAction::Send(plan) && plan.program@
                            == program.path@ && plan.message@ == job.message@
                            && plan.platform_session_key@ == job.record.platform_session_key@
                            && plan.project_name@ == job.record.project_name@
                    }
                },
            }
        }),
        event is ProfileRead ==> final(worker)@.cached == old(worker)@.cached,
        event matches DeliveryEvent::Detected(Err(_)) ==> final(worker)@.cached == old(worker)@.cached,
        event matches DeliveryEvent::Detected(Ok(binary)) ==> (final(worker)@.cached
            matches Some(c) && c.binary == binary && c.requested_path == old(worker)@.requested_path),
{
    assert(delivery_steps(old(worker)@, event, now_ms, final(worker)@, action));
}

/// A worker begins with nothing to do and nothing remembered.
pub proof fn law_new_worker_is_idle(
    worker: DeliveryWorker,
    status: &CcConnectHandoffNotificationStatus,
)
    requires
        call_ensures(DeliveryWorker::new, (), worker),
        call_ensures(DeliveryWorker::status, (&worker,), status),
    ensures
        worker@.phase == DeliveryPhase::Idle,
        worker@.job is None,
        worker@.cached is None,
        status.last_attempt_at_ms is None,
        status.last_success_at_ms is None,
        status.last_event is None,
        status.last_platform is None,
        status.last_error is None,
{
}

} // verus!
