//! The service's decisions: how it reacts to its start, to power events and
//! to requests of the service control manager, and what it reports.
//!
//! The service runs one loop: it takes the next event, performs the actions
//! that `on_event` lists, in order, and stops when told to.

use vstd::prelude::*;
use crate::config::FileRead;
use crate::power::{is_reboot, is_restart, AppEvent, ShutdownQuery};
use crate::state::records_shutdown;

verus! {

/// The service's name with the service control manager.
pub const SERVICE_NAME: &'static str = "lgtv-service";

/// The service's display name.
pub const SERVICE_DISPLAY_NAME: &'static str = "LG TV Sleep/Wake Service";

/// Seconds to wait after a wake before each Wake-on-LAN attempt, so that
/// the network adapter is up.
pub const WAKE_DELAY_SECS: u64 = 5;

/// How many Wake-on-LAN packets follow a wake.
pub const WAKE_ATTEMPTS: u64 = 3;

/// Something the service does.
#[derive(Debug, Clone, Copy, PartialEq, Eq)]
pub enum Action {
    /// Turn the TV off over its WebSocket API (failures are only warnings).
    TurnOffTv,
    /// Wait this many seconds.
    Pause { secs: u64 },
    /// Broadcast a Wake-on-LAN packet for the TV (failures are only warnings).
    SendWakeOnLan,
    /// Record in the state file that a clean shutdown turned the TV off.
    WriteShutdownState,
    /// Clear the state file, so that the TV is woken only once.
    ClearShutdownState,
}

/// What the service does on an event, and whether it keeps running.
#[derive(Debug, Clone)]
pub struct Reaction {
    pub actions: Vec<Action>,
    pub keep_running: bool,
}

/// The actions at start: after a clean shutdown turned the TV off, clear
/// that record and wake the TV; else nothing.
pub open spec fn startup_actions(previous_shutdown: bool) -> Seq<Action> {
    if previous_shutdown {
        seq![Action::ClearShutdownState, Action::SendWakeOnLan]
    } else {
        seq![]
    }
}

/// The actions on waking: three times, wait five seconds and send a
/// Wake-on-LAN packet.
pub open spec fn wake_actions() -> Seq<Action> {
    seq![
        Action::Pause { secs: 5 },
        Action::SendWakeOnLan,
        Action::Pause { secs: 5 },
        Action::SendWakeOnLan,
        Action::Pause { secs: 5 },
        Action::SendWakeOnLan,
    ]
}

/// The actions for an event. Locking the session turns the TV off like
/// sleep; unlocking wakes it at once (the network adapter stays up while
/// the session is locked).
pub open spec fn event_actions(event: AppEvent) -> Seq<Action> {
    match event {
        AppEvent::Sleep => seq![Action::TurnOffTv],
        AppEvent::Wake => wake_actions(),
        AppEvent::Lock => seq![Action::TurnOffTv],
        AppEvent::Unlock => seq![Action::SendWakeOnLan],
        AppEvent::Shutdown { reboot: false } => seq![Action::TurnOffTv, Action::WriteShutdownState],
        AppEvent::Shutdown { reboot: true } => seq![],
        AppEvent::Stop => seq![],
    }
}

/// Whether the service keeps running after an event: sleep, wake, lock and
/// unlock leave it running; a stop request or a shutdown ends it.
pub open spec fn keeps_running(event: AppEvent) -> bool {
    !(event is Stop || event is Shutdown)
}

/// What to do when the service starts, given what reading the state file
/// gave.
pub fn startup(state: &FileRead) -> (r: Vec<Action>)
    ensures
        r@ == startup_actions(records_shutdown(*state)),
{
    let mut r: Vec<Action> = Vec::new();
    if crate::state::was_shutdown(state) {
        r.push(Action::ClearShutdownState);
        r.push(Action::SendWakeOnLan);
    }
    assert(r@ =~= startup_actions(records_shutdown(*state)));
    r
}

/// How the service reacts to an event.
pub fn on_event(event: AppEvent) -> (r: Reaction)
    ensures
        r.actions@ == event_actions(event),
        r.keep_running == keeps_running(event),
{
    let mut actions: Vec<Action> = Vec::new();
    match event {
        AppEvent::Sleep | AppEvent::Lock => {
            actions.push(Action::TurnOffTv);
            Reaction { actions, keep_running: true }
        },
        AppEvent::Unlock => {
            actions.push(Action::SendWakeOnLan);
            Reaction { actions, keep_running: true }
        },
        AppEvent::Wake => {
            let mut attempt: u64 = 0;
            while attempt < WAKE_ATTEMPTS
                invariant
                    attempt <= WAKE_ATTEMPTS,
                    actions@ =~= wake_actions().subrange(0, 2 * attempt as int),
                decreases WAKE_ATTEMPTS - attempt,
            {
                actions.push(Action::Pause { secs: WAKE_DELAY_SECS });
                actions.push(Action::SendWakeOnLan);
                attempt = attempt + 1;
            }
            assert(actions@ =~= wake_actions());
            Reaction { actions, keep_running: true }
        },
        AppEvent::Shutdown { reboot } => {
            if !reboot {
                actions.push(Action::TurnOffTv);
                actions.push(Action::WriteShutdownState);
            }
            assert(actions@ =~= event_actions(event));
            Reaction { actions, keep_running: false }
        },
        AppEvent::Stop => {
            assert(actions@ =~= event_actions(event));
            Reaction { actions, keep_running: false }
        },
    }
}

/// What a session change of the service control manager reports.
#[derive(Debug, Clone, Copy, PartialEq, Eq)]
pub enum SessionChangeKind {
    /// The session was locked.
    Lock,
    /// The session was unlocked.
    Unlock,
    /// Any other change (logon, logoff, connect, ...).
    Other,
}

/// A request of the service control manager.
#[derive(Debug, Clone, Copy, PartialEq, Eq)]
pub enum ServiceControlKind {
    Stop,
    Shutdown,
    SessionChange(SessionChangeKind),
    Interrogate,
    /// Any other control.
    Other,
}

/// How the control handler answers a request.
#[derive(Debug, Clone, Copy, PartialEq, Eq)]
pub enum ControlPlan {
    /// Report success and do nothing else.
    Acknowledge,
    /// Hand this event to the service loop and report success.
    Forward(AppEvent),
    /// Find out whether the system restarts or shuts down (`shutdown_event`),
    /// hand that event to the service loop and report success.
    ForwardShutdown,
    /// Report that the request is not implemented.
    NotImplemented,
}

/// How the control handler answers each request.
pub open spec fn control_plan(kind: ServiceControlKind) -> ControlPlan {
    match kind {
        ServiceControlKind::Stop => ControlPlan::Forward(AppEvent::Stop),
        ServiceControlKind::Shutdown => ControlPlan::ForwardShutdown,
        ServiceControlKind::SessionChange(SessionChangeKind::Lock) => ControlPlan::Forward(AppEvent::Lock),
        ServiceControlKind::SessionChange(SessionChangeKind::Unlock) => ControlPlan::Forward(AppEvent::Unlock),
        ServiceControlKind::SessionChange(SessionChangeKind::Other) => ControlPlan::Acknowledge,
        ServiceControlKind::Interrogate => ControlPlan::Acknowledge,
        ServiceControlKind::Other => ControlPlan::NotImplemented,
    }
}

/// Decides how the control handler answers a request.
pub fn plan_control(kind: ServiceControlKind) -> (r: ControlPlan)
    ensures
        r == control_plan(kind),
{
    match kind {
        ServiceControlKind::Stop => ControlPlan::Forward(AppEvent::Stop),
        ServiceControlKind::Shutdown => ControlPlan::ForwardShutdown,
        ServiceControlKind::SessionChange(SessionChangeKind::Lock) => ControlPlan::Forward(AppEvent::Lock),
        ServiceControlKind::SessionChange(SessionChangeKind::Unlock) => ControlPlan::Forward(AppEvent::Unlock),
        ServiceControlKind::SessionChange(SessionChangeKind::Other) => ControlPlan::Acknowledge,
        ServiceControlKind::Interrogate => ControlPlan::Acknowledge,
        ServiceControlKind::Other => ControlPlan::NotImplemented,
    }
}

/// The event for a system shutdown, given what the query for event 1074 gave.
pub fn shutdown_event(query: &ShutdownQuery) -> (r: AppEvent)
    ensures
        r == (AppEvent::Shutdown { reboot: is_restart(*query) }),
{
    AppEvent::Shutdown { reboot: is_reboot(query) }
}

/// The state that the service reports.
#[derive(Debug, Clone, Copy, PartialEq, Eq)]
pub enum RunState {
    StartPending,
    Running,
    Stopped,
}

/// A status report to the service control manager.
#[derive(Debug, Clone, Copy, PartialEq, Eq)]
pub struct StatusReport {
    pub state: RunState,
    pub accepts_stop: bool,
    pub accepts_shutdown: bool,
    pub accepts_session_change: bool,
    pub wait_hint_secs: u64,
}

/// While starting: no controls accepted, five seconds expected.
pub fn start_pending_status() -> (r: StatusReport)
    ensures
        r == (StatusReport {
            state: RunState::StartPending,
            accepts_stop: false,
            accepts_shutdown: false,
            accepts_session_change: false,
            wait_hint_secs: 5,
        }),
{
    StatusReport {
        state: RunState::StartPending,
        accepts_stop: false,
        accepts_shutdown: false,
        accepts_session_change: false,
        wait_hint_secs: 5,
    }
}

/// While running: stop, shutdown and session-change requests accepted.
pub fn running_status() -> (r: StatusReport)
    ensures
        r == (StatusReport {
            state: RunState::Running,
            accepts_stop: true,
            accepts_shutdown: true,
            accepts_session_change: true,
            wait_hint_secs: 0,
        }),
{
    StatusReport {
        state: RunState::Running,
        accepts_stop: true,
        accepts_shutdown: true,
        accepts_session_change: true,
        wait_hint_secs: 0,
    }
}

/// When stopped: nothing accepted.
pub fn stopped_status() -> (r: StatusReport)
    ensures
        r == (StatusReport {
            state: RunState::Stopped,
            accepts_stop: false,
            accepts_shutdown: false,
            accepts_session_change: false,
            wait_hint_secs: 0,
        }),
{
    StatusReport {
        state: RunState::Stopped,
        accepts_stop: false,
        accepts_shutdown: false,
        accepts_session_change: false,
        wait_hint_secs: 0,
    }
}

/// Law: a clean shutdown turns the TV off and records it; on the next start
/// that record is recognised, cleared, and the TV woken, once; with the
/// record cleared (no state file), a start does nothing.
pub proof fn lemma_shutdown_then_start_wakes_once(contents: String)
    requires
        contents@ == "shutdown"@,
    ensures
        event_actions(AppEvent::Shutdown { reboot: false }) == seq![
            Action::TurnOffTv,
            Action::WriteShutdownState,
        ],
        !keeps_running(AppEvent::Shutdown { reboot: false }),
        startup_actions(records_shutdown(FileRead::Contents(contents))) == seq![
            Action::ClearShutdownState,
            Action::SendWakeOnLan,
        ],
        startup_actions(records_shutdown(FileRead::NotFound)).len() == 0,
{
    crate::state::lemma_written_marker_recognised(contents);
}

/// Law: a restart leaves the TV on and records nothing, so the next start
/// does not wake the TV; the service stops either way.
pub proof fn lemma_reboot_leaves_tv_on()
    ensures
        !event_actions(AppEvent::Shutdown { reboot: true }).contains(Action::TurnOffTv),
        !event_actions(AppEvent::Shutdown { reboot: true }).contains(Action::WriteShutdownState),
        !keeps_running(AppEvent::Shutdown { reboot: true }),
{
}

/// Law: only a stop request or a shutdown (of either kind) ends the
/// service; sleep, wake, lock and unlock are handled live and it runs on.
pub proof fn lemma_runs_until_stop_or_shutdown(event: AppEvent)
    ensures
        !keeps_running(event) <==> (event == AppEvent::Stop || event is Shutdown),
{
}

/// Law: lock and unlock reach the service loop as live events: the control
/// handler forwards them, the TV is turned off on lock and woken on unlock,
/// and the service keeps running.
pub proof fn lemma_lock_unlock_handled_live()
    ensures
        control_plan(ServiceControlKind::SessionChange(SessionChangeKind::Lock)) == ControlPlan::Forward(AppEvent::Lock),
        control_plan(ServiceControlKind::SessionChange(SessionChangeKind::Unlock)) == ControlPlan::Forward(AppEvent::Unlock),
        event_actions(AppEvent::Lock) == seq![Action::TurnOffTv],
        event_actions(AppEvent::Unlock) == seq![Action::SendWakeOnLan],
        keeps_running(AppEvent::Lock),
        keeps_running(AppEvent::Unlock),
{
}

} // verus!
