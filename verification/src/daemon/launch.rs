//! Finding a running daemon, or starting one, and connecting to it.

use super::protocol::{DaemonInfo, SessionMeta};
use crate::text::joined;
use vstd::prelude::*;

verus! {

/// How long to wait between two attempts to connect to a new daemon, in nanoseconds.
pub const SPAWN_RETRY_INTERVAL: u128 = 250_000_000;

/// How often to try to connect to a new daemon.
pub const SPAWN_RETRY_MAX: usize = 20;

/// How long to wait for a daemon to end, in nanoseconds.
pub const SHUTDOWN_DELAY: u128 = 500_000_000;

/// The argument that makes this program run as the daemon.
pub const DAEMON_ARGUMENT: &'static str = "__daemon";

/// On Windows: start a process without a console window.
pub const CREATE_NO_WINDOW: u32 = 0x0800_0000;

/// What the launch waits for.
pub enum LaunchPhase {
    /// The record of a running daemon.
    ReadingRecord,
    /// Whether the recorded process lives.
    CheckingProcess { info: DaemonInfo },
    /// A connection to the recorded daemon.
    Connecting,
    /// The sessions of a daemon that is not compatible.
    Listing,
    /// That daemon's consent to end.
    ShuttingDown,
    /// That daemon's end.
    Settling,
    /// The removal of a record that leads nowhere.
    RemovingRecord,
    /// A new daemon's process.
    Spawning,
    /// The pause before attempt number `attempt` to connect to the new daemon.
    Pausing { attempt: usize },
    /// The record of the new daemon.
    Rereading { attempt: usize },
    /// A connection to the new daemon.
    Reconnecting { attempt: usize },
    Finished,
}

/// What happened.
pub enum LaunchEvent {
    RecordRead(Result<Option<DaemonInfo>, String>),
    ProcessChecked { alive: bool },
    Connected { compatible: bool },
    ConnectFailed(String),
    Listed(Result<Vec<SessionMeta>, String>),
    ShutDown(Result<(), String>),
    Slept,
    RecordRemoved,
    Spawned(Result<(), String>),
}

/// What to do next.
pub enum LaunchAction {
    ReadRecord,
    CheckProcess(u32),
    Connect(DaemonInfo),
    List,
    ShutDown,
    Sleep(u128),
    RemoveRecord,
    Spawn,
    /// The launch is over: the connection that was made last is kept, or there is none.
    Finish(Result<(), String>),
}

/// Whether one of the sessions is alive.
pub open spec fn some_alive(sessions: Seq<SessionMeta>) -> bool {
    exists|i: int| 0 <= i < sessions.len() && (#[trigger] sessions[i]).alive
}

impl LaunchPhase {
    /// Whether `event` can happen now.
    pub open spec fn expects(self, event: LaunchEvent) -> bool {
        match event {
            LaunchEvent::RecordRead(_) => self is ReadingRecord || self is Rereading,
            LaunchEvent::ProcessChecked { .. } => self is CheckingProcess,
            LaunchEvent::Connected { .. } | LaunchEvent::ConnectFailed(_) => self is Connecting
                || self is Reconnecting,
            LaunchEvent::Listed(_) => self is Listing,
            LaunchEvent::ShutDown(_) => self is ShuttingDown,
            LaunchEvent::Slept => self is Settling || self is Pausing,
            LaunchEvent::RecordRemoved => self is RemovingRecord,
            LaunchEvent::Spawned(_) => self is Spawning,
        }
    }

    /// Whether the count of attempts is within bounds.
    pub open spec fn wf(self) -> bool {
        match self {
            LaunchPhase::Pausing { attempt } => 1 <= attempt <= SPAWN_RETRY_MAX,
            LaunchPhase::Rereading { attempt } => 1 <= attempt <= SPAWN_RETRY_MAX,
            LaunchPhase::Reconnecting { attempt } => 1 <= attempt <= SPAWN_RETRY_MAX,
            _ => true,
        }
    }
}

/// Going on after `attempts` attempts to connect to a new daemon.
pub open spec fn tries_again(attempts: int, after: LaunchPhase, action: LaunchAction) -> bool {
    if attempts < SPAWN_RETRY_MAX {
        &&& after matches LaunchPhase::Pausing { attempt } && attempt == attempts + 1
        &&& action == LaunchAction::Sleep(SPAWN_RETRY_INTERVAL)
    } else {
        &&& after is Finished
        &&& action matches LaunchAction::Finish(Err(e)) && e@
            == "daemon did not become ready in time"@
    }
}

/// What `event` leads to.
pub open spec fn launch_steps(
    before: LaunchPhase,
    event: LaunchEvent,
    after: LaunchPhase,
    action: LaunchAction,
) -> bool {
    match (before, event) {
        (LaunchPhase::ReadingRecord, LaunchEvent::RecordRead(Ok(Some(info)))) => {
            &&& after == LaunchPhase::CheckingProcess { info }
            &&& action == LaunchAction::CheckProcess(info.pid)
        },
        (LaunchPhase::ReadingRecord, LaunchEvent::RecordRead(Ok(None))) => {
            after is Spawning && action is Spawn
        },
        (LaunchPhase::CheckingProcess { info }, LaunchEvent::ProcessChecked { alive }) => if alive {
            after is Connecting && action == LaunchAction::Connect(info)
        } else {
            after is RemovingRecord && action is RemoveRecord
        },
        (LaunchPhase::Connecting, LaunchEvent::Connected { compatible }) => if compatible {
            after is Finished && action == LaunchAction::Finish(Ok(()))
        } else {
            after is Listing && action is List
        },
        (LaunchPhase::Connecting, LaunchEvent::ConnectFailed(_)) => {
            after is RemovingRecord && action is RemoveRecord
        },
        (LaunchPhase::Listing, LaunchEvent::Listed(listed)) => {
            if listed matches Ok(sessions) && !some_alive(sessions@) {
                after is ShuttingDown && action is ShutDown
            } else {
                after is Finished && action == LaunchAction::Finish(Ok(()))
            }
        },
        (LaunchPhase::ShuttingDown, LaunchEvent::ShutDown(consent)) => if consent is Ok {
            after is Settling && action == LaunchAction::Sleep(SHUTDOWN_DELAY)
        } else {
            after is Finished && action == LaunchAction::Finish(Ok(()))
        },
        (LaunchPhase::Settling, LaunchEvent::Slept) => after is Spawning && action is Spawn,
        (LaunchPhase::RemovingRecord, LaunchEvent::RecordRemoved) => after is Spawning
            && action is Spawn,
        (LaunchPhase::Spawning, LaunchEvent::Spawned(Ok(_))) => tries_again(0, after, action),
        (LaunchPhase::Pausing { attempt }, LaunchEvent::Slept) => {
            after == (LaunchPhase::Rereading { attempt }) && action is ReadRecord
        },
        (LaunchPhase::Rereading { attempt }, LaunchEvent::RecordRead(Ok(Some(info)))) => {
            after == (LaunchPhase::Reconnecting { attempt }) && action == LaunchAction::Connect(
                info,
            )
        },
        (LaunchPhase::Rereading { attempt }, LaunchEvent::RecordRead(Ok(None))) => tries_again(
            attempt as int,
            after,
            action,
        ),
        (LaunchPhase::Reconnecting { .. }, LaunchEvent::Connected { .. }) => {
            after is Finished && action == LaunchAction::Finish(Ok(()))
        },
        (LaunchPhase::Reconnecting { attempt }, LaunchEvent::ConnectFailed(_)) => tries_again(
            attempt as int,
            after,
            action,
        ),
        (_, LaunchEvent::RecordRead(Err(error))) | (_, LaunchEvent::Spawned(Err(error))) => {
            after is Finished && (action matches LaunchAction::Finish(Err(e)) && e@ == error@)
        },
        _ => true,
    }
}

fn try_again(attempts: usize) -> (step: (LaunchPhase, LaunchAction))
    requires
        attempts <= SPAWN_RETRY_MAX,
    ensures
        tries_again(attempts as int, step.0, step.1),
        step.0.wf(),
{
    if attempts < SPAWN_RETRY_MAX {
        (LaunchPhase::Pausing { attempt: attempts + 1 }, LaunchAction::Sleep(SPAWN_RETRY_INTERVAL))
    } else {
        (
            LaunchPhase::Finished,
            LaunchAction::Finish(Err("daemon did not become ready in time".to_owned())),
        )
    }
}

fn none_alive(sessions: &Vec<SessionMeta>) -> (r: bool)
    ensures
        r == !some_alive(sessions@),
{
    let mut i: usize = 0;
    while i < sessions.len()
        invariant
            i <= sessions@.len(),
            forall|j: int| 0 <= j < i ==> !(#[trigger] sessions@[j]).alive,
        decreases sessions@.len() - i,
    {
        if sessions[i].alive {
            return false;
        }
        i = i + 1;
    }
    true
}

/// Begins to look for a daemon.
pub fn start_launch() -> (step: (LaunchPhase, LaunchAction))
    ensures
        step.0 is ReadingRecord,
        step.1 is ReadRecord,
{
    (LaunchPhase::ReadingRecord, LaunchAction::ReadRecord)
}

/// One step of finding or starting a daemon: takes up what happened and says what to do
/// next.
pub fn connect_or_spawn(phase: LaunchPhase, event: LaunchEvent) -> (step: (
    LaunchPhase,
    LaunchAction,
))
    requires
        phase.wf(),
        phase.expects(event),
    ensures
        step.0.wf(),
        launch_steps(phase, event, step.0, step.1),
{
    match event {
        LaunchEvent::RecordRead(Ok(Some(info))) => match phase {
            LaunchPhase::Rereading { attempt } => (
                LaunchPhase::Reconnecting { attempt },
                LaunchAction::Connect(info),
            ),
            _ => {
                let pid = info.pid;
                (LaunchPhase::CheckingProcess { info }, LaunchAction::CheckProcess(pid))
            },
        },
        LaunchEvent::RecordRead(Ok(None)) => match phase {
            LaunchPhase::Rereading { attempt } => try_again(attempt),
            _ => (LaunchPhase::Spawning, LaunchAction::Spawn),
        },
        LaunchEvent::RecordRead(Err(error)) => (
            LaunchPhase::Finished,
            LaunchAction::Finish(Err(error)),
        ),
        LaunchEvent::ProcessChecked { alive } => match phase {
            LaunchPhase::CheckingProcess { info } if alive => (
                LaunchPhase::Connecting,
                LaunchAction::Connect(info),
            ),
            _ => (LaunchPhase::RemovingRecord, LaunchAction::RemoveRecord),
        },
        LaunchEvent::Connected { compatible } => match phase {
            LaunchPhase::Connecting if !compatible => (LaunchPhase::Listing, LaunchAction::List),
            _ => (LaunchPhase::Finished, LaunchAction::Finish(Ok(()))),
        },
        LaunchEvent::ConnectFailed(_) => match phase {
            LaunchPhase::Reconnecting { attempt } => try_again(attempt),
            _ => (LaunchPhase::RemovingRecord, LaunchAction::RemoveRecord),
        },
        LaunchEvent::Listed(listed) => {
            let idle = match &listed {
                Ok(sessions) => none_alive(sessions),
                Err(_) => false,
            };
            if idle {
                (LaunchPhase::ShuttingDown, LaunchAction::ShutDown)
            } else {
                (LaunchPhase::Finished, LaunchAction::Finish(Ok(())))
            }
        },
        LaunchEvent::ShutDown(consent) => match consent {
            Ok(_) => (LaunchPhase::Settling, LaunchAction::Sleep(SHUTDOWN_DELAY)),
            Err(_) => (LaunchPhase::Finished, LaunchAction::Finish(Ok(()))),
        },
        LaunchEvent::Slept => match phase {
            LaunchPhase::Pausing { attempt } => (
                LaunchPhase::Rereading { attempt },
                LaunchAction::ReadRecord,
            ),
            _ => (LaunchPhase::Spawning, LaunchAction::Spawn),
        },
        LaunchEvent::RecordRemoved => (LaunchPhase::Spawning, LaunchAction::Spawn),
        LaunchEvent::Spawned(Ok(_)) => try_again(0),
        LaunchEvent::Spawned(Err(error)) => (
            LaunchPhase::Finished,
            LaunchAction::Finish(Err(error)),
        ),
    }
}

/// The program to start as the daemon: this one, where it is still there.
pub fn daemon_executable_path(current: Result<String, String>, is_file: bool) -> (path: Result<
    String,
    String,
>)
    ensures
        match current {
            Err(error) => path matches Err(e) && e@ == "current_exe failed: "@ + error@,
            Ok(program) => if is_file {
                path == Ok::<String, String>(program)
            } else {
                path matches Err(e) && e@ == "main executable not found for daemon self-spawn"@
            },
        },
{
    match current {
        Ok(program) => if is_file {
            Ok(program)
        } else {
            Err("main executable not found for daemon self-spawn".to_owned())
        },
        Err(error) => Err(joined("current_exe failed: ", error.as_str())),
    }
}

/// What an attempt to start the daemon's process comes to.
pub fn spawn_daemon_process(started: Result<(), String>) -> (result: Result<(), String>)
    ensures
        match started {
            Ok(_) => result is Ok,
            Err(error) => result matches Err(e) && e@ == "spawn daemon failed: "@ + error@,
        },
{
    match started {
        Ok(_) => Ok(()),
        Err(error) => Err(joined("spawn daemon failed: ", error.as_str())),
    }
}

/// How the daemon's process is started on Windows: without a console window, but
/// neither detached nor in a process group of its own, so that its terminals can still
/// be interrupted.
pub fn windows_daemon_creation_flags() -> (flags: u32)
    ensures
        flags == CREATE_NO_WINDOW,
        flags & 0x0000_0008 == 0,
        flags & 0x0000_0200 == 0,
{
    assert(0x0800_0000u32 & 0x0000_0008 == 0) by (bit_vector);
    assert(0x0800_0000u32 & 0x0000_0200 == 0) by (bit_vector);
    CREATE_NO_WINDOW
}

/// No session is killed: a running daemon is asked to end only where its list of
/// sessions came and none of them is alive. A running daemon that is not asked, or does
/// not consent, is kept.
pub proof fn law_live_sessions_survive(
    before: LaunchPhase,
    event: LaunchEvent,
    after: LaunchPhase,
    action: LaunchAction,
)
    requires
        before.expects(event),
        launch_steps(before, event, after, action),
    ensures
        action is ShutDown ==> (event matches LaunchEvent::Listed(Ok(sessions)) && !some_alive(
            sessions@,
        )),
        event matches LaunchEvent::Listed(Ok(sessions)) && some_alive(sessions@) ==> action
            == LaunchAction::Finish(Ok(())),
        event matches LaunchEvent::Listed(Err(_)) ==> action == LaunchAction::Finish(Ok(())),
        event matches LaunchEvent::ShutDown(Err(_)) ==> action == LaunchAction::Finish(Ok(())),
{
}

/// How much is left to do; each attempt on a new daemon takes three steps.
pub open spec fn steps_left(phase: LaunchPhase) -> int {
    let each = 3 * SPAWN_RETRY_MAX as int;
    match phase {
        LaunchPhase::ReadingRecord => each + 7,
        LaunchPhase::CheckingProcess { .. } => each + 6,
        LaunchPhase::Connecting => each + 5,
        LaunchPhase::Listing => each + 4,
        LaunchPhase::ShuttingDown => each + 3,
        LaunchPhase::Settling => each + 2,
        LaunchPhase::RemovingRecord => each + 2,
        LaunchPhase::Spawning => each + 1,
        LaunchPhase::Pausing { attempt } => each - 3 * (attempt - 1),
        LaunchPhase::Rereading { attempt } => each - 3 * (attempt - 1) - 1,
        LaunchPhase::Reconnecting { attempt } => each - 3 * (attempt - 1) - 2,
        LaunchPhase::Finished => 0,
    }
}

/// The launch ends: every step leaves less to do, and where nothing is left the launch
/// is over.
pub proof fn law_launch_ends(
    before: LaunchPhase,
    event: LaunchEvent,
    after: LaunchPhase,
    action: LaunchAction,
)
    requires
        before.wf(),
        before.expects(event),
        launch_steps(before, event, after, action),
    ensures
        0 <= steps_left(after) < steps_left(before),
        steps_left(after) == 0 <==> after is Finished,
        after is Finished <==> action is Finish,
{
}

/// At most one daemon is started: from when its process is asked for, no step asks for
/// another, or looks for a recorded one again.
pub proof fn law_daemon_is_started_once(
    before: LaunchPhase,
    event: LaunchEvent,
    after: LaunchPhase,
    action: LaunchAction,
)
    requires
        before.expects(event),
        launch_steps(before, event, after, action),
    ensures
        action is Spawn <==> after is Spawning,
        before is Spawning || before is Pausing || before is Rereading || before is Reconnecting
            ==> after is Pausing || after is Rereading || after is Reconnecting
            || after is Finished,
{
}

/// A connection to a new daemon is kept, whichever attempt made it and whatever the
/// daemon's version is: the launch is over with it.
pub proof fn law_connection_to_a_new_daemon_is_kept(
    attempt: usize,
    compatible: bool,
    step: (LaunchPhase, LaunchAction),
)
    requires
        call_ensures(
            connect_or_spawn,
            (LaunchPhase::Reconnecting { attempt }, LaunchEvent::Connected { compatible }),
            step,
        ),
    ensures
        step.0 is Finished,
        step.1 == LaunchAction::Finish(Ok(())),
{
}

/// A connection to the recorded daemon is kept where the daemon is compatible; where it
/// is not, its sessions are looked at first.
pub proof fn law_compatible_daemon_is_reused(compatible: bool, step: (LaunchPhase, LaunchAction))
    requires
        call_ensures(
            connect_or_spawn,
            (LaunchPhase::Connecting, LaunchEvent::Connected { compatible }),
            step,
        ),
    ensures
        compatible ==> step.0 is Finished && step.1 == LaunchAction::Finish(Ok(())),
        !compatible ==> step.0 is Listing && step.1 is List,
{
}

/// A recorded daemon is looked for by the process that its record names, and a connection
/// is only ever made to a daemon that a record describes: to the first one where its
/// process lives, to a new one as soon as it has a record.
pub proof fn law_connections_follow_the_record(
    info: DaemonInfo,
    alive: bool,
    attempt: usize,
    found: (LaunchPhase, LaunchAction),
    checked: (LaunchPhase, LaunchAction),
    reread: (LaunchPhase, LaunchAction),
)
    requires
        call_ensures(
            connect_or_spawn,
            (LaunchPhase::ReadingRecord, LaunchEvent::RecordRead(Ok(Some(info)))),
            found,
        ),
        call_ensures(
            connect_or_spawn,
            (found.0, LaunchEvent::ProcessChecked { alive }),
            checked,
        ),
        call_ensures(
            connect_or_spawn,
            (LaunchPhase::Rereading { attempt }, LaunchEvent::RecordRead(Ok(Some(info)))),
            reread,
        ),
    ensures
        found.1 == LaunchAction::CheckProcess(info.pid),
        alive ==> checked == (LaunchPhase::Connecting, LaunchAction::Connect(info)),
        !alive ==> checked == (LaunchPhase::RemovingRecord, LaunchAction::RemoveRecord),
        reread == (LaunchPhase::Reconnecting { attempt }, LaunchAction::Connect(info)),
{
}

/// What leads to each kind of action. A daemon is started where no record is found, once
/// a record that leads nowhere is removed, and once an idle daemon that consented had half
/// a second to end. A record leads nowhere where its process is gone or refuses. A daemon
/// is asked to end exactly where its sessions are known and each of them is over.
pub proof fn law_every_action_has_its_cause(
    before: LaunchPhase,
    event: LaunchEvent,
    step: (LaunchPhase, LaunchAction),
)
    requires
        before.expects(event),
        call_ensures(connect_or_spawn, (before, event), step),
    ensures
        step.1 is Spawn <==> (before is ReadingRecord && (event matches LaunchEvent::RecordRead(
            Ok(None),
        ))) || event is RecordRemoved || (before is Settling && event is Slept),
        step.1 is RemoveRecord <==> (event matches LaunchEvent::ProcessChecked { alive } && !alive)
            || (before is Connecting && event is ConnectFailed),
        step.1 is ShutDown <==> (event matches LaunchEvent::Listed(Ok(sessions)) && forall|i: int|
            0 <= i < sessions@.len() ==> !(#[trigger] sessions@[i]).alive),
        step.1 == LaunchAction::Sleep(500_000_000) <==> (event matches LaunchEvent::ShutDown(
            Ok(_),
        )),
        step.1 is List <==> before is Connecting && (event matches LaunchEvent::Connected {
            compatible,
        } && !compatible),
        step.1 is ReadRecord <==> before is Pausing && event is Slept,
        step.1 is CheckProcess <==> before is ReadingRecord && (event
            matches LaunchEvent::RecordRead(Ok(Some(_)))),
        step.1 matches LaunchAction::Sleep(time) ==> time == 500_000_000 || time == 250_000_000,
{
}

/// The launch succeeds exactly where a connection was made that is to be kept: it is of a
/// compatible daemon or a new one, or it is of a daemon whose sessions are not known to be
/// over, or that does not consent to end.
pub proof fn law_launch_succeeds_with_a_connection(
    before: LaunchPhase,
    event: LaunchEvent,
    step: (LaunchPhase, LaunchAction),
)
    requires
        before.expects(event),
        call_ensures(connect_or_spawn, (before, event), step),
    ensures
        step.1 == LaunchAction::Finish(Ok(())) <==> match event {
            LaunchEvent::Connected { compatible } => compatible || before is Reconnecting,
            LaunchEvent::Listed(Ok(sessions)) => exists|i: int|
                0 <= i < sessions@.len() && (#[trigger] sessions@[i]).alive,
            LaunchEvent::Listed(Err(_)) => true,
            LaunchEvent::ShutDown(consent) => consent is Err,
            _ => false,
        },
{
}

/// The launch fails with the error that reading a record or starting a daemon gave, and
/// else only with the last of 20 attempts to connect to a new daemon.
pub proof fn law_launch_fails_for_a_reason(
    before: LaunchPhase,
    event: LaunchEvent,
    step: (LaunchPhase, LaunchAction),
    error: String,
)
    requires
        before.wf(),
        before.expects(event),
        call_ensures(connect_or_spawn, (before, event), step),
        step.1 == LaunchAction::Finish(Err(error)),
    ensures
        match event {
            LaunchEvent::RecordRead(Err(e)) => error@ == e@,
            LaunchEvent::Spawned(Err(e)) => error@ == e@,
            LaunchEvent::RecordRead(Ok(None)) => {
                &&& before matches LaunchPhase::Rereading { attempt } && attempt == 20
                &&& error@ == "daemon did not become ready in time"@
            },
            LaunchEvent::ConnectFailed(_) => {
                &&& before matches LaunchPhase::Reconnecting { attempt } && attempt == 20
                &&& error@ == "daemon did not become ready in time"@
            },
            _ => false,
        },
{
}

/// An error in reading a record or in starting a daemon ends the launch at once, with that
/// error.
pub proof fn law_launch_passes_errors_on(
    before: LaunchPhase,
    error: String,
    reading: (LaunchPhase, LaunchAction),
    spawning: (LaunchPhase, LaunchAction),
)
    requires
        before is ReadingRecord || before is Rereading,
        call_ensures(
            connect_or_spawn,
            (before, LaunchEvent::RecordRead(Err(error))),
            reading,
        ),
        call_ensures(
            connect_or_spawn,
            (LaunchPhase::Spawning, LaunchEvent::Spawned(Err(error))),
            spawning,
        ),
    ensures
        reading.0 is Finished && (reading.1 matches LaunchAction::Finish(Err(e)) && e@ == error@),
        spawning.0 is Finished && (spawning.1 matches LaunchAction::Finish(Err(e)) && e@
            == error@),
{
}

/// A step of a launch.
pub struct LaunchStep {
    pub before: LaunchPhase,
    pub event: LaunchEvent,
    pub after: LaunchPhase,
    pub action: LaunchAction,
}

/// Whether `steps` are steps of one launch, in order.
pub open spec fn is_launch(steps: Seq<LaunchStep>) -> bool {
    &&& forall|i: int|
        0 <= i < steps.len() ==> {
            let step = #[trigger] steps[i];
            &&& step.before.wf()
            &&& step.before.expects(step.event)
            &&& call_ensures(
                connect_or_spawn,
                (step.before, step.event),
                (step.after, step.action),
            )
        }
    &&& forall|i: int, j: int|
        0 <= i < j < steps.len() && j == i + 1 ==> (#[trigger] steps[i]).after == (
        #[trigger] steps[j]).before
}

/// How many pauses of a quarter of a second `steps` make.
pub open spec fn pauses(steps: Seq<LaunchStep>) -> int
    decreases steps.len(),
{
    if steps.len() == 0 {
        0
    } else {
        pauses(steps.drop_last()) + if steps.last().action == LaunchAction::Sleep(250_000_000) {
            1int
        } else {
            0
        }
    }
}

/// How many records of a new daemon `steps` ask for.
pub open spec fn record_reads(steps: Seq<LaunchStep>) -> int
    decreases steps.len(),
{
    if steps.len() == 0 {
        0
    } else {
        record_reads(steps.drop_last()) + if steps.last().action is ReadRecord {
            1int
        } else {
            0
        }
    }
}

proof fn lemma_attempts_are_counted(steps: Seq<LaunchStep>)
    requires
        is_launch(steps),
        steps.len() > 0,
        steps[0].before is Spawning,
    ensures
        match steps.last().after {
            LaunchPhase::Pausing { attempt } => pauses(steps) == attempt && record_reads(steps)
                == attempt - 1,
            LaunchPhase::Rereading { attempt } => pauses(steps) == attempt && record_reads(steps)
                == attempt,
            LaunchPhase::Reconnecting { attempt } => pauses(steps) == attempt && record_reads(
                steps,
            ) == attempt,
            LaunchPhase::Finished => true,
            _ => false,
        },
        !(steps.last().after is Finished) ==> forall|i: int|
            0 <= i < steps.len() ==> !((#[trigger] steps[i]).event is Connected),
        steps.last().before matches LaunchPhase::Rereading { attempt } ==> pauses(steps.drop_last())
            == attempt && record_reads(steps.drop_last()) == attempt,
        steps.last().before matches LaunchPhase::Reconnecting { attempt } ==> pauses(
            steps.drop_last(),
        ) == attempt && record_reads(steps.drop_last()) == attempt,
        forall|i: int| 0 <= i < steps.len() - 1 ==> !((#[trigger] steps[i]).event is Connected),
    decreases steps.len(),
{
    let last = steps.last();
    let front = steps.drop_last();
    assert(steps[steps.len() - 1] == last);
    if front.len() > 0 {
        assert(is_launch(front)) by {
            assert forall|i: int| 0 <= i < front.len() implies {
                let step = #[trigger] front[i];
                &&& step.before.wf()
                &&& step.before.expects(step.event)
                &&& call_ensures(
                    connect_or_spawn,
                    (step.before, step.event),
                    (step.after, step.action),
                )
            } by {
                assert(front[i] == steps[i]);
            }
            assert forall|i: int, j: int| 0 <= i < j < front.len() && j == i + 1 implies (
            #[trigger] front[i]).after == (#[trigger] front[j]).before by {
                assert(front[i] == steps[i] && front[j] == steps[j]);
            }
        }
        assert(front[0] == steps[0]);
        lemma_attempts_are_counted(front);
        assert(front.last() == steps[steps.len() - 2]);
        assert(steps[steps.len() - 2].after == steps[steps.len() - 1].before);
        assert(last.before == front.last().after);
        assert(!(last.before is Finished));
        assert forall|i: int| 0 <= i < steps.len() - 1 implies !((#[trigger] steps[i]).event
            is Connected) by {
            assert(steps[i] == front[i]);
        }
    } else {
        assert(pauses(front) == 0);
        assert(record_reads(front) == 0);
        assert(last.before is Spawning);
    }
}

/// A launch gives up on a new daemon only after 20 attempts, with a pause of a quarter of
/// a second before each of them, none of which connected.
pub proof fn law_new_daemon_gets_twenty_attempts(steps: Seq<LaunchStep>, error: String)
    requires
        is_launch(steps),
        steps.len() > 0,
        steps[0].before is Spawning,
        steps.last().action == LaunchAction::Finish(Err(error)),
        !(steps.last().event matches LaunchEvent::RecordRead(Err(_))),
        !(steps.last().event matches LaunchEvent::Spawned(Err(_))),
    ensures
        pauses(steps) == 20,
        record_reads(steps) == 20,
        forall|i: int| 0 <= i < steps.len() ==> !((#[trigger] steps[i]).event is Connected),
        error@ == "daemon did not become ready in time"@,
{
    lemma_attempts_are_counted(steps);
    let last = steps.last();
    assert(steps[steps.len() - 1] == last);
    law_launch_fails_for_a_reason(last.before, last.event, (last.after, last.action), error);
}

/// An attempt on a new daemon that does not connect is followed by the next one, a quarter
/// of a second later; the first one comes as soon after the start.
pub proof fn law_failed_attempt_is_followed_by_the_next(
    attempt: usize,
    reason: String,
    unrecorded: (LaunchPhase, LaunchAction),
    refused: (LaunchPhase, LaunchAction),
    started: (LaunchPhase, LaunchAction),
    paused: (LaunchPhase, LaunchAction),
)
    requires
        1 <= attempt < 20,
        call_ensures(
            connect_or_spawn,
            (LaunchPhase::Rereading { attempt }, LaunchEvent::RecordRead(Ok(None))),
            unrecorded,
        ),
        call_ensures(
            connect_or_spawn,
            (LaunchPhase::Reconnecting { attempt }, LaunchEvent::ConnectFailed(reason)),
            refused,
        ),
        call_ensures(
            connect_or_spawn,
            (LaunchPhase::Spawning, LaunchEvent::Spawned(Ok(()))),
            started,
        ),
        call_ensures(
            connect_or_spawn,
            (LaunchPhase::Pausing { attempt }, LaunchEvent::Slept),
            paused,
        ),
    ensures
        unrecorded == (
            LaunchPhase::Pausing { attempt: (attempt + 1) as usize },
            LaunchAction::Sleep(250_000_000),
        ),
        refused == unrecorded,
        started == (LaunchPhase::Pausing { attempt: 1 }, LaunchAction::Sleep(250_000_000)),
        paused == (LaunchPhase::Rereading { attempt }, LaunchAction::ReadRecord),
{
}

/// The program that is started as the daemon is this one, and only where it is there; the
/// errors say which step failed and why.
pub proof fn law_daemon_is_this_program(
    program: String,
    error: String,
    is_file: bool,
    known: Result<String, String>,
    unknown: Result<String, String>,
    started: Result<(), String>,
    failed: Result<(), String>,
)
    requires
        call_ensures(daemon_executable_path, (Ok(program), is_file), known),
        call_ensures(daemon_executable_path, (Err(error), is_file), unknown),
        call_ensures(spawn_daemon_process, (Ok(()),), started),
        call_ensures(spawn_daemon_process, (Err(error),), failed),
    ensures
        known is Ok <==> is_file,
        known matches Ok(path) ==> path@ == program@,
        known matches Err(e) ==> e@ == "main executable not found for daemon self-spawn"@,
        unknown matches Err(e) && e@ == "current_exe failed: "@ + error@,
        started is Ok,
        failed matches Err(e) && e@ == "spawn daemon failed: "@ + error@,
{
}

/// What is asked for is what the launch then waits for.
pub proof fn law_launch_waits_for_what_it_asks(
    before: LaunchPhase,
    event: LaunchEvent,
    step: (LaunchPhase, LaunchAction),
    first: (LaunchPhase, LaunchAction),
)
    requires
        before.expects(event),
        call_ensures(connect_or_spawn, (before, event), step),
        call_ensures(start_launch, (), first),
    ensures
        match step.1 {
            LaunchAction::ReadRecord => step.0 is Rereading,
            LaunchAction::CheckProcess(pid) => step.0 matches LaunchPhase::CheckingProcess {
                info,
            } && info.pid == pid,
            LaunchAction::Connect(_) => step.0 is Connecting || step.0 is Reconnecting,
            LaunchAction::List => step.0 is Listing,
            LaunchAction::ShutDown => step.0 is ShuttingDown,
            LaunchAction::Sleep(time) => if time == 500_000_000 {
                step.0 is Settling
            } else {
                step.0 is Pausing
            },
            LaunchAction::RemoveRecord => step.0 is RemovingRecord,
            LaunchAction::Spawn => step.0 is Spawning,
            LaunchAction::Finish(_) => step.0 is Finished,
        },
        first.0 is ReadingRecord,
        first.1 is ReadRecord,
{
}

/// On Windows the daemon is started without a console window, and with no other flag: it is
/// not detached and in no process group of its own.
pub proof fn law_daemon_gets_no_window(flags: u32)
    requires
        call_ensures(windows_daemon_creation_flags, (), flags),
    ensures
        flags == 0x0800_0000,
{
}

} // verus!
